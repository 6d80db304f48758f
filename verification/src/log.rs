//! Log levels, their names and filtering, and the layout of the prefix that the default
//! log formatter writes before each message.
use vstd::prelude::*;
use vstd::string::*;
use crate::time::{std_duration_as_nanos, Duration};
use owo_colors::OwoColorize;

verus! {

/// The severity of a log message, from the most verbose to logging switched off.
#[derive(Clone, Copy, Debug, PartialEq, Eq, Structural, PartialOrd, Ord, Hash)]
pub enum Level {
    Trace,
    Debug,
    Info,
    Warn,
    Error,
    Off,
}

/// The rank of a level: higher is more severe.
pub open spec fn spec_level_rank(l: Level) -> nat {
    match l {
        Level::Trace => 0,
        Level::Debug => 1,
        Level::Info => 2,
        Level::Warn => 3,
        Level::Error => 4,
        Level::Off => 5,
    }
}

/// The text of each level in a log prefix, padded to five characters.
pub open spec fn spec_level_text(l: Level) -> Seq<char> {
    match l {
        Level::Trace => "TRACE"@,
        Level::Debug => "DEBUG"@,
        Level::Info => "INFO "@,
        Level::Warn => "WARN "@,
        Level::Error => "ERROR"@,
        Level::Off => ""@,
    }
}

impl Level {
    /// The level's text in a log prefix.
    pub fn text(&self) -> (r: &'static str)
        ensures
            r@ == spec_level_text(*self),
    {
        match self {
            Level::Trace => "TRACE",
            Level::Debug => "DEBUG",
            Level::Info => "INFO ",
            Level::Warn => "WARN ",
            Level::Error => "ERROR",
            Level::Off => "",
        }
    }

    /// The level's rank.
    pub fn rank(self) -> (r: u8)
        ensures
            r == spec_level_rank(self),
    {
        match self {
            Level::Trace => 0,
            Level::Debug => 1,
            Level::Info => 2,
            Level::Warn => 3,
            Level::Error => 4,
            Level::Off => 5,
        }
    }

    /// Whether a message of this level is logged when `threshold` is the global level:
    /// it is when it is at least as severe.
    pub fn enabled_at(self, threshold: Level) -> (r: bool)
        ensures
            r == (spec_level_rank(self) >= spec_level_rank(threshold)),
    {
        self.rank() >= threshold.rank()
    }
}

/// The level that a lower-case, trimmed name stands for.
pub open spec fn spec_level_from_name(name: Seq<char>) -> Option<Level> {
    if name == "trace"@ {
        Some(Level::Trace)
    } else if name == "debug"@ {
        Some(Level::Debug)
    } else if name == "info"@ {
        Some(Level::Info)
    } else if name == "warn"@ {
        Some(Level::Warn)
    } else if name == "error"@ {
        Some(Level::Error)
    } else if name == "off"@ || name == "none"@ {
        Some(Level::Off)
    } else {
        None
    }
}

/// The level that a lower-case, trimmed name stands for; see `spec_level_from_name`.
pub fn level_from_name(name: &str) -> (r: Option<Level>)
    ensures
        r == spec_level_from_name(name@),
{
    let n = String::from_str(name);
    if n == String::from_str("trace") {
        Some(Level::Trace)
    } else if n == String::from_str("debug") {
        Some(Level::Debug)
    } else if n == String::from_str("info") {
        Some(Level::Info)
    } else if n == String::from_str("warn") {
        Some(Level::Warn)
    } else if n == String::from_str("error") {
        Some(Level::Error)
    } else if n == String::from_str("off") || n == String::from_str("none") {
        Some(Level::Off)
    } else {
        None
    }
}

/// Whether a character is ASCII whitespace: space, tab, line feed, form feed or carriage
/// return.
pub open spec fn is_ascii_whitespace(c: char) -> bool {
    c == ' ' || c == '\t' || c == '\n' || c == '\x0C' || c == '\r'
}

/// `s` without its leading ASCII whitespace.
pub open spec fn spec_trim_ascii_start(s: Seq<char>) -> Seq<char>
    decreases s.len(),
{
    if s.len() > 0 && is_ascii_whitespace(s[0]) {
        spec_trim_ascii_start(s.drop_first())
    } else {
        s
    }
}

/// `s` without its trailing ASCII whitespace.
pub open spec fn spec_trim_ascii_end(s: Seq<char>) -> Seq<char>
    decreases s.len(),
{
    if s.len() > 0 && is_ascii_whitespace(s.last()) {
        spec_trim_ascii_end(s.drop_last())
    } else {
        s
    }
}

/// `s` without leading and trailing ASCII whitespace.
pub open spec fn spec_trim_ascii(s: Seq<char>) -> Seq<char> {
    spec_trim_ascii_end(spec_trim_ascii_start(s))
}

/// Whether every character of a text is ASCII.
pub open spec fn spec_is_ascii_text(s: Seq<char>) -> bool {
    forall|i: int| 0 <= i < s.len() ==> (#[trigger] s[i] as u32) < 128
}

/// The ASCII lower case of a character: `A` to `Z` become `a` to `z`, others stay.
pub open spec fn spec_char_ascii_lower(c: char) -> char {
    if 65 <= (c as u32) && (c as u32) <= 90 {
        ((c as u32) + 32) as char
    } else {
        c
    }
}

/// The ASCII lower case of a text.
pub open spec fn spec_ascii_lower(s: Seq<char>) -> Seq<char> {
    s.map_values(|c: char| spec_char_ascii_lower(c))
}

/// Name for what `str::to_lowercase` returns: the Unicode lower case of a text, which does
/// not depend on the locale.
pub uninterp spec fn str_to_lowercase(s: Seq<char>) -> Seq<char>;

/// Calls `str::to_lowercase`; the result is the named one. On ASCII text the Unicode lower
/// case is the ASCII one: each capital letter becomes its small letter, and every other
/// character stays.
#[verifier::external_body]
fn std_to_lowercase(s: &str) -> (r: String)
    ensures
        r@ == str_to_lowercase(s@),
        spec_is_ascii_text(s@) ==> r@ == spec_ascii_lower(s@),
{
    s.to_lowercase()
}

/// Trimming leading ASCII whitespace skips any run of it at the start.
proof fn lemma_trim_start_skip(s: Seq<char>, k: int)
    requires
        0 <= k <= s.len(),
        forall|j: int| 0 <= j < k ==> is_ascii_whitespace(#[trigger] s[j]),
    ensures
        spec_trim_ascii_start(s) == spec_trim_ascii_start(s.skip(k)),
    decreases k,
{
    if k > 0 {
        assert(is_ascii_whitespace(s[0]));
        let t = s.drop_first();
        assert forall|j: int| 0 <= j < k - 1 implies is_ascii_whitespace(#[trigger] t[j]) by {
            assert(t[j] == s[j + 1]);
        }
        lemma_trim_start_skip(t, k - 1);
        assert(t.skip(k - 1) =~= s.skip(k));
    } else {
        assert(s.skip(0) =~= s);
    }
}

/// Trimming trailing ASCII whitespace drops any run of it at the end.
proof fn lemma_trim_end_take(t: Seq<char>, m: int)
    requires
        0 <= m <= t.len(),
        forall|j: int| m <= j < t.len() ==> is_ascii_whitespace(#[trigger] t[j]),
    ensures
        spec_trim_ascii_end(t) == spec_trim_ascii_end(t.take(m)),
    decreases t.len() - m,
{
    if m < t.len() {
        assert(is_ascii_whitespace(t[t.len() - 1]));
        let u = t.drop_last();
        assert forall|j: int| m <= j < u.len() implies is_ascii_whitespace(#[trigger] u[j]) by {
            assert(u[j] == t[j]);
        }
        lemma_trim_end_take(u, m);
        assert(u.take(m) =~= t.take(m));
    } else {
        assert(t.take(m) =~= t);
    }
}

/// Whether a character is ASCII whitespace.
fn is_ascii_whitespace_char(c: char) -> (r: bool)
    ensures
        r == is_ascii_whitespace(c),
{
    c == ' ' || c == '\t' || c == '\n' || c == '\x0C' || c == '\r'
}

/// `s` without leading and trailing ASCII whitespace.
pub fn trim_ascii(s: &str) -> (r: &str)
    ensures
        r@ == spec_trim_ascii(s@),
{
    let n = s.unicode_len();
    let mut start: usize = 0;
    while start < n && is_ascii_whitespace_char(s.get_char(start))
        invariant
            n == s@.len(),
            start <= n,
            forall|j: int| 0 <= j < start ==> is_ascii_whitespace(#[trigger] s@[j]),
        decreases n - start,
    {
        start = start + 1;
    }
    proof {
        lemma_trim_start_skip(s@, start as int);
        if start < n {
            assert(!is_ascii_whitespace(s@.skip(start as int)[0]));
        } else {
            assert(s@.skip(start as int).len() == 0);
        }
    }
    let mut end: usize = n;
    while end > start && is_ascii_whitespace_char(s.get_char(end - 1))
        invariant
            n == s@.len(),
            start <= end <= n,
            forall|j: int| end <= j < n ==> is_ascii_whitespace(#[trigger] s@[j]),
        decreases end - start,
    {
        end = end - 1;
    }
    proof {
        let t = s@.skip(start as int);
        let m = (end - start) as int;
        assert forall|j: int| m <= j < t.len() implies is_ascii_whitespace(#[trigger] t[j]) by {
            assert(t[j] == s@[j + start]);
        }
        lemma_trim_end_take(t, m);
        assert(t.take(m) =~= s@.subrange(start as int, end as int));
        if m > 0 {
            assert(!is_ascii_whitespace(t.take(m).last()));
        }
    }
    s.substring_char(start, end)
}

/// Parses a level from its name, in any case and with surrounding ASCII whitespace.
pub fn parse_level(value: &str) -> (r: Option<Level>)
    ensures
        r == spec_level_from_name(spec_trim_ascii(str_to_lowercase(value@))),
        spec_is_ascii_text(value@) ==> r == spec_level_from_name(spec_trim_ascii(spec_ascii_lower(value@))),
{
    let lower = std_to_lowercase(value);
    level_from_name(trim_ascii(lower.as_str()))
}

/// Every level but `Off` parses back from its prefix text.
pub proof fn law_level_text_parses(l: Level)
    requires
        l != Level::Off,
    ensures
        spec_is_ascii_text(spec_level_text(l)),
        spec_level_from_name(spec_trim_ascii(spec_ascii_lower(spec_level_text(l)))) == Some(l),
{
    reveal_strlit("TRACE");
    reveal_strlit("DEBUG");
    reveal_strlit("INFO ");
    reveal_strlit("WARN ");
    reveal_strlit("ERROR");
    reveal_strlit("trace");
    reveal_strlit("debug");
    reveal_strlit("info");
    reveal_strlit("warn");
    reveal_strlit("error");
    reveal_strlit("off");
    reveal_strlit("none");
    let text = spec_level_text(l);
    let lower = spec_ascii_lower(text);
    let name: Seq<char> = match l {
        Level::Trace => seq!['t', 'r', 'a', 'c', 'e'],
        Level::Debug => seq!['d', 'e', 'b', 'u', 'g'],
        Level::Info => seq!['i', 'n', 'f', 'o'],
        Level::Warn => seq!['w', 'a', 'r', 'n'],
        _ => seq!['e', 'r', 'r', 'o', 'r'],
    };
    assert(lower.len() == text.len());
    assert forall|i: int| 0 <= i < text.len() implies (#[trigger] text[i] as u32) < 128 by {}
    assert(spec_trim_ascii_start(lower) == lower) by {
        assert(!is_ascii_whitespace(lower[0]));
    }
    if l == Level::Info || l == Level::Warn {
        assert(is_ascii_whitespace(lower[4]));
        assert(lower.drop_last() =~= name);
        assert(spec_trim_ascii_end(lower) == spec_trim_ascii_end(lower.drop_last()));
        assert(!is_ascii_whitespace(name.last()));
        assert(spec_trim_ascii_end(name) == name);
    } else {
        assert(lower =~= name);
        assert(!is_ascii_whitespace(name.last()));
    }
    assert(spec_trim_ascii(lower) == name);
    assert(name[0] != "trace"@[0] || name =~= "trace"@);
    assert(name[0] != "debug"@[0] || name =~= "debug"@);
    assert(name[0] != "info"@[0] || name =~= "info"@);
    assert(name[0] != "warn"@[0] || name =~= "warn"@);
    assert(name =~= "error"@ || l != Level::Error);
}

/// The formatter flag that shows the module path.
pub const MODULE_FLAG: u8 = 1;

/// The formatter flag that shows the entered spans.
pub const SPAN_FLAG: u8 = 2;

/// The formatter flag that shows the time elapsed since the previous reentrant message.
pub const ELAPSED_FLAG: u8 = 4;

/// The default time format of the log prefix.
pub open spec fn spec_default_time_format() -> Seq<char> {
    "%F %T.%6f"@
}

/// The default log formatter: which parts of the prefix it shows, and the format of its
/// time stamp, empty for none.
pub struct DefaultLogFormatter {
    flags: u8,
    time_format: String,
}

impl DefaultLogFormatter {
    /// The formatter's flags.
    pub closed spec fn spec_flags(&self) -> u8 {
        self.flags
    }

    /// The formatter's time format.
    pub closed spec fn spec_time_format(&self) -> Seq<char> {
        self.time_format@
    }

    /// A formatter that shows everything, with the default time format.
    pub fn new() -> (r: Self)
        ensures
            r.spec_flags() == MODULE_FLAG | SPAN_FLAG | ELAPSED_FLAG,
            r.spec_time_format() == spec_default_time_format(),
    {
        DefaultLogFormatter { flags: MODULE_FLAG | SPAN_FLAG | ELAPSED_FLAG, time_format: String::from_str("%F %T.%6f") }
    }

    /// The formatter with another time format.
    pub fn with_time_format(self, time_format: String) -> (r: Self)
        ensures
            r.spec_flags() == self.spec_flags(),
            r.spec_time_format() == time_format@,
    {
        DefaultLogFormatter { flags: self.flags, time_format }
    }

    /// The formatter without the module path.
    pub fn without_module_path(self) -> (r: Self)
        ensures
            r.spec_flags() == self.spec_flags() & !MODULE_FLAG,
            r.spec_time_format() == self.spec_time_format(),
    {
        DefaultLogFormatter { flags: self.flags & !MODULE_FLAG, time_format: self.time_format }
    }

    /// The formatter without the elapsed time of reentrant messages.
    pub fn without_elapsed_time(self) -> (r: Self)
        ensures
            r.spec_flags() == self.spec_flags() & !ELAPSED_FLAG,
            r.spec_time_format() == self.spec_time_format(),
    {
        DefaultLogFormatter { flags: self.flags & !ELAPSED_FLAG, time_format: self.time_format }
    }

    /// The time format.
    pub fn time_format(&self) -> (r: &str)
        ensures
            r@ == self.spec_time_format(),
    {
        self.time_format.as_str()
    }

    /// Which parts the prefix of a message shows, after its level: the time stamp when
    /// there is a time format, the module path when its flag is set, the elapsed time when
    /// its flag is set and some time was measured, and the spans when its flag is set and
    /// some span is entered.
    pub fn prefix_layout(&self, last_entry_elapsed: u64, span_count: usize) -> (r: PrefixLayout)
        ensures
            r == (PrefixLayout {
                time: self.spec_time_format().len() > 0,
                module: self.spec_flags() & MODULE_FLAG != 0,
                elapsed: self.spec_flags() & ELAPSED_FLAG != 0 && last_entry_elapsed != 0,
                spans: span_count != 0 && self.spec_flags() & SPAN_FLAG != 0,
            }),
    {
        PrefixLayout {
            time: !self.time_format.as_str().is_empty(),
            module: self.flags & MODULE_FLAG != 0,
            elapsed: self.flags & ELAPSED_FLAG != 0 && last_entry_elapsed != 0,
            spans: span_count != 0 && self.flags & SPAN_FLAG != 0,
        }
    }
}

impl Default for DefaultLogFormatter {
    fn default() -> (r: Self)
        ensures
            r.spec_flags() == MODULE_FLAG | SPAN_FLAG | ELAPSED_FLAG,
            r.spec_time_format() == spec_default_time_format(),
    {
        Self::new()
    }
}

/// The optional parts of a log prefix that a formatter shows.
#[derive(Clone, Copy, Debug, PartialEq, Eq, Structural)]
pub struct PrefixLayout {
    pub time: bool,
    pub module: bool,
    pub elapsed: bool,
    pub spans: bool,
}

/// Removing the module path keeps every other part of the layout, and removes the module
/// path for good: removing it again changes nothing.
pub proof fn law_without_module_flag(flags: u8)
    ensures
        (flags & !MODULE_FLAG) & MODULE_FLAG == 0,
        (flags & !MODULE_FLAG) & SPAN_FLAG == flags & SPAN_FLAG,
        (flags & !MODULE_FLAG) & ELAPSED_FLAG == flags & ELAPSED_FLAG,
        (flags & !MODULE_FLAG) & !MODULE_FLAG == flags & !MODULE_FLAG,
{
    assert((flags & !1u8) & 1u8 == 0) by (bit_vector);
    assert((flags & !1u8) & 2u8 == flags & 2u8) by (bit_vector);
    assert((flags & !1u8) & 4u8 == flags & 4u8) by (bit_vector);
    assert((flags & !1u8) & !1u8 == flags & !1u8) by (bit_vector);
}

/// Removing the elapsed time keeps every other part of the layout, and removing it again
/// changes nothing.
pub proof fn law_without_elapsed_time(flags: u8)
    ensures
        (flags & !ELAPSED_FLAG) & ELAPSED_FLAG == 0,
        (flags & !ELAPSED_FLAG) & SPAN_FLAG == flags & SPAN_FLAG,
        (flags & !ELAPSED_FLAG) & MODULE_FLAG == flags & MODULE_FLAG,
        (flags & !ELAPSED_FLAG) & !ELAPSED_FLAG == flags & !ELAPSED_FLAG,
{
    assert((flags & !4u8) & 4u8 == 0) by (bit_vector);
    assert((flags & !4u8) & 2u8 == flags & 2u8) by (bit_vector);
    assert((flags & !4u8) & 1u8 == flags & 1u8) by (bit_vector);
    assert((flags & !4u8) & !4u8 == flags & !4u8) by (bit_vector);
}

/// Ranks follow the declared order of severity, each level strictly above the one before:
/// trace, debug, info, warn, error, off. So a message passes a threshold exactly when its
/// level comes no earlier in that order; in particular errors pass a warn threshold and
/// warnings do not pass an error threshold.
pub proof fn law_rank_follows_severity()
    ensures
        spec_level_rank(Level::Trace) < spec_level_rank(Level::Debug),
        spec_level_rank(Level::Debug) < spec_level_rank(Level::Info),
        spec_level_rank(Level::Info) < spec_level_rank(Level::Warn),
        spec_level_rank(Level::Warn) < spec_level_rank(Level::Error),
        spec_level_rank(Level::Error) < spec_level_rank(Level::Off),
        spec_level_rank(Level::Error) >= spec_level_rank(Level::Warn),
        !(spec_level_rank(Level::Warn) >= spec_level_rank(Level::Error)),
        forall|a: Level, b: Level| spec_level_rank(a) == spec_level_rank(b) ==> a == b,
{
}

/// Filtering is monotone: a message that passes a threshold passes every lower one, and
/// with logging off only messages of the `Off` level pass.
pub proof fn law_level_filter_monotone(level: Level, low: Level, high: Level)
    ensures
        spec_level_rank(low) <= spec_level_rank(high) && spec_level_rank(level) >= spec_level_rank(high)
            ==> spec_level_rank(level) >= spec_level_rank(low),
        spec_level_rank(level) >= spec_level_rank(Level::Off) ==> level == Level::Off,
{
}

/// Name for the text that `std::time::Duration`'s `Debug` formatting with three decimals
/// (`{:.03?}`) gives for a span of `nanos` nanoseconds.
pub uninterp spec fn duration_debug_text(nanos: u128) -> Seq<char>;

/// Formats a span with `Debug` and three decimals; the text is the named one.
#[verifier::external_body]
fn std_duration_debug_text(d: &core::time::Duration) -> (r: String)
    ensures
        r@ == duration_debug_text(std_duration_as_nanos(*d)),
{
    format!("{:.03?}", d)
}

/// The escape code that starts bold text.
pub open spec fn spec_bold_start() -> Seq<char> {
    "\x1b[1m"@
}

/// The escape code that starts dimmed text.
pub open spec fn spec_dim_start() -> Seq<char> {
    "\x1b[2m"@
}

/// The escape code that starts italic text.
pub open spec fn spec_italic_start() -> Seq<char> {
    "\x1b[3m"@
}

/// The escape code that ends a style, resetting every attribute.
pub open spec fn spec_reset() -> Seq<char> {
    "\x1b[0m"@
}

/// The escape code that ends a foreground colour.
pub open spec fn spec_fg_end() -> Seq<char> {
    "\x1b[39m"@
}

/// The escape code that starts the bright black foreground colour.
pub open spec fn spec_bright_black_start() -> Seq<char> {
    "\x1b[90m"@
}

/// `s` in bold, as `owo_colors` writes it.
pub open spec fn spec_bold(s: Seq<char>) -> Seq<char> {
    spec_bold_start() + s + spec_reset()
}

/// `s` dimmed, as `owo_colors` writes it.
pub open spec fn spec_dimmed(s: Seq<char>) -> Seq<char> {
    spec_dim_start() + s + spec_reset()
}

/// `s` in italics, as `owo_colors` writes it.
pub open spec fn spec_italic(s: Seq<char>) -> Seq<char> {
    spec_italic_start() + s + spec_reset()
}

/// `s` in the foreground colour that starts with `code`, as `owo_colors` writes it.
pub open spec fn spec_fg(code: Seq<char>, s: Seq<char>) -> Seq<char> {
    code + s + spec_fg_end()
}

/// The escape code of each level's colour: purple, blue, green, yellow and red.
pub open spec fn spec_level_color(l: Level) -> Seq<char> {
    match l {
        Level::Trace => "\x1b[35m"@,
        Level::Debug => "\x1b[34m"@,
        Level::Info => "\x1b[32m"@,
        Level::Warn => "\x1b[33m"@,
        _ => "\x1b[31m"@,
    }
}

/// How a level shows in a log prefix: its text, coloured and bold; nothing for `Off`.
pub open spec fn spec_level_display(l: Level) -> Seq<char> {
    if l == Level::Off {
        Seq::empty()
    } else {
        spec_bold(spec_fg(spec_level_color(l), spec_level_text(l)))
    }
}

/// Calls `OwoColorize::bold` and formats the result; `owo_colors` writes the bold code,
/// the text and the reset code.
#[verifier::external_body]
fn owo_bold(s: &str) -> (r: String)
    ensures
        r@ == spec_bold(s@),
{
    format!("{}", s.bold())
}

/// Calls `OwoColorize::dimmed` and formats the result; `owo_colors` writes the dim code,
/// the text and the reset code.
#[verifier::external_body]
fn owo_dimmed(s: &str) -> (r: String)
    ensures
        r@ == spec_dimmed(s@),
{
    format!("{}", s.dimmed())
}

/// Calls `OwoColorize::italic` and formats the result; `owo_colors` writes the italic
/// code, the text and the reset code.
#[verifier::external_body]
fn owo_italic(s: &str) -> (r: String)
    ensures
        r@ == spec_italic(s@),
{
    format!("{}", s.italic())
}

/// Calls `OwoColorize::purple` and formats the result; `owo_colors` writes the magenta
/// foreground code, the text and the code that ends the foreground colour.
#[verifier::external_body]
fn owo_purple(s: &str) -> (r: String)
    ensures
        r@ == spec_fg("\x1b[35m"@, s@),
{
    format!("{}", s.purple())
}

/// Calls `OwoColorize::blue` and formats the result; `owo_colors` writes the blue
/// foreground code, the text and the code that ends the foreground colour.
#[verifier::external_body]
fn owo_blue(s: &str) -> (r: String)
    ensures
        r@ == spec_fg("\x1b[34m"@, s@),
{
    format!("{}", s.blue())
}

/// Calls `OwoColorize::green` and formats the result; `owo_colors` writes the green
/// foreground code, the text and the code that ends the foreground colour.
#[verifier::external_body]
fn owo_green(s: &str) -> (r: String)
    ensures
        r@ == spec_fg("\x1b[32m"@, s@),
{
    format!("{}", s.green())
}

/// Calls `OwoColorize::yellow` and formats the result; `owo_colors` writes the yellow
/// foreground code, the text and the code that ends the foreground colour.
#[verifier::external_body]
fn owo_yellow(s: &str) -> (r: String)
    ensures
        r@ == spec_fg("\x1b[33m"@, s@),
{
    format!("{}", s.yellow())
}

/// Calls `OwoColorize::red` and formats the result; `owo_colors` writes the red
/// foreground code, the text and the code that ends the foreground colour.
#[verifier::external_body]
fn owo_red(s: &str) -> (r: String)
    ensures
        r@ == spec_fg("\x1b[31m"@, s@),
{
    format!("{}", s.red())
}

/// Reads `owo_colors`' `ANSI_FG` code of `BrightBlack`, which its source defines as the
/// escape code with colour number 90.
#[verifier::external_body]
fn owo_bright_black_fg() -> (r: &'static str)
    ensures
        r@ == spec_bright_black_start(),
{
    <owo_colors::colors::BrightBlack as owo_colors::Color>::ANSI_FG
}

impl Level {
    /// How the level shows in a log prefix; see `spec_level_display`.
    pub fn display_text(&self) -> (r: String)
        ensures
            r@ == spec_level_display(*self),
    {
        match self {
            Level::Trace => owo_bold(owo_purple(self.text()).as_str()),
            Level::Debug => owo_bold(owo_blue(self.text()).as_str()),
            Level::Info => owo_bold(owo_green(self.text()).as_str()),
            Level::Warn => owo_bold(owo_yellow(self.text()).as_str()),
            Level::Error => owo_bold(owo_red(self.text()).as_str()),
            Level::Off => String::new(),
        }
    }
}

/// The entered spans of a message, each in italics and followed by a colon.
pub open spec fn spec_spans_text(spans: Seq<String>) -> Seq<char>
    decreases spans.len(),
{
    if spans.len() == 0 {
        Seq::empty()
    } else {
        spec_spans_text(spans.drop_last()) + spec_italic(spans.last()@) + ":"@
    }
}

/// The prefix that the default formatter writes before a message, in order: the time
/// stamp dimmed and a space when there is a time format; the level in its bold colour and
/// a space; the module path dimmed and a space when shown; the elapsed time in parentheses,
/// bright black up to a reset, and a space when shown and measured; the spans, each in
/// italics with a colon, and a space when shown and some span is entered.
pub open spec fn spec_log_prefix(
    flags: u8,
    time_format: Seq<char>,
    time: Seq<char>,
    level: Level,
    module: Seq<char>,
    elapsed: u64,
    spans: Seq<String>,
) -> Seq<char> {
    (if time_format.len() > 0 { spec_dimmed(time) + " "@ } else { Seq::empty() })
        + spec_level_display(level) + " "@
        + (if flags & MODULE_FLAG != 0 { spec_dimmed(module) + " "@ } else { Seq::empty() })
        + (if flags & ELAPSED_FLAG != 0 && elapsed != 0 {
            spec_bright_black_start() + "("@ + duration_debug_text(elapsed as u128) + " elapsed)"@
                + spec_reset() + " "@
        } else {
            Seq::empty()
        })
        + (if spans.len() != 0 && flags & SPAN_FLAG != 0 {
            spec_spans_text(spans) + " "@
        } else {
            Seq::empty()
        })
}

impl DefaultLogFormatter {
    /// The prefix of a message of `level` from `module` inside `spans`, given the formatted
    /// time stamp and the nanoseconds since the previous reentrant message (zero when not
    /// measured); see `spec_log_prefix`.
    #[verifier::rlimit(40)]
    pub fn format_prefix(
        &self,
        time: &str,
        level: Level,
        module: &str,
        last_entry_elapsed: u64,
        spans: &Vec<String>,
    ) -> (r: String)
        ensures
            r@ == spec_log_prefix(
                self.spec_flags(),
                self.spec_time_format(),
                time@,
                level,
                module@,
                last_entry_elapsed,
                spans@,
            ),
    {
        let mut out = String::new();
        if !self.time_format.as_str().is_empty() {
            out.append(owo_dimmed(time).as_str());
            out.append(" ");
        }
        let ghost p1 = out@;
        out.append(level.display_text().as_str());
        out.append(" ");
        if self.flags & MODULE_FLAG != 0 {
            out.append(owo_dimmed(module).as_str());
            out.append(" ");
        }
        if self.flags & ELAPSED_FLAG != 0 && last_entry_elapsed != 0 {
            let d = Duration::from_nanos(last_entry_elapsed).into_std();
            let text = std_duration_debug_text(&d);
            out.append(owo_bright_black_fg());
            out.append("(");
            out.append(text.as_str());
            out.append(" elapsed)");
            out.append("\x1b[0m");
            out.append(" ");
        }
        let ghost p4 = out@;
        if spans.len() != 0 && self.flags & SPAN_FLAG != 0 {
            let mut i: usize = 0;
            while i < spans.len()
                invariant
                    i <= spans@.len(),
                    out@ == p4 + spec_spans_text(spans@.take(i as int)),
                decreases spans@.len() - i,
            {
                out.append(owo_italic(spans[i].as_str()).as_str());
                out.append(":");
                proof {
                    let t = spans@.take(i + 1);
                    assert(t.drop_last() =~= spans@.take(i as int));
                    assert(out@ =~= p4 + spec_spans_text(t));
                }
                i = i + 1;
            }
            assert(spans@.take(spans@.len() as int) =~= spans@);
            out.append(" ");
        }
        proof {
            let e: Seq<char> = Seq::empty();
            let time_part = if self.spec_time_format().len() > 0 { spec_dimmed(time@) + " "@ } else { e };
            assert(p1 =~= time_part);
            assert(out@ =~= spec_log_prefix(
                self.spec_flags(),
                self.spec_time_format(),
                time@,
                level,
                module@,
                last_entry_elapsed,
                spans@,
            ));
        }
        out
    }
}

} // verus!
