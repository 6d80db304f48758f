//! The layer-shell window's settings: which requests configure its surface, and the words
//! used when reporting what the graphics driver supports.
use vstd::prelude::*;

verus! {

/// The margins of a layer surface, in surface-local coordinates.
#[derive(Clone, Copy, Debug, PartialEq, Eq, Structural)]
pub struct Margin {
    pub top: i32,
    pub right: i32,
    pub bottom: i32,
    pub left: i32,
}

impl Default for Margin {
    fn default() -> (r: Self)
        ensures
            r == (Margin { top: 0, right: 0, bottom: 0, left: 0 }),
    {
        Margin { top: 0, right: 0, bottom: 0, left: 0 }
    }
}

/// The protocol value of "no keyboard interactivity", a layer surface's default.
pub const KEYBOARD_INTERACTIVITY_NONE: u32 = 0;

/// The settings of a layer surface, as protocol values: the anchor edges as a bit set,
/// the exclusive zone, the margins, the keyboard interactivity and the requested size,
/// where zero lets the compositor choose.
#[derive(Clone, Copy, Debug, PartialEq, Eq, Structural)]
pub struct LayerSurfaceSettings {
    pub anchors: u32,
    pub exclusive_zone: i32,
    pub margin: Margin,
    pub keyboard_interactivity: u32,
    pub width: u32,
    pub height: u32,
}

/// The requests that configure a new layer surface; each is sent only when its setting
/// differs from the protocol's default.
#[derive(Clone, Copy, Debug, PartialEq, Eq)]
pub struct LayerSurfaceRequests {
    pub set_anchor: Option<u32>,
    pub set_exclusive_zone: Option<i32>,
    pub set_margin: Option<Margin>,
    pub set_size: Option<(u32, u32)>,
    pub set_keyboard_interactivity: Option<u32>,
}

/// The requests for a surface with the given settings.
pub open spec fn spec_layer_surface_requests(s: LayerSurfaceSettings) -> LayerSurfaceRequests {
    LayerSurfaceRequests {
        set_anchor: if s.anchors != 0 { Some(s.anchors) } else { None },
        set_exclusive_zone: if s.exclusive_zone != 0 { Some(s.exclusive_zone) } else { None },
        set_margin: if s.margin != (Margin { top: 0, right: 0, bottom: 0, left: 0 }) {
            Some(s.margin)
        } else {
            None
        },
        set_size: if s.width != 0 || s.height != 0 { Some((s.width, s.height)) } else { None },
        set_keyboard_interactivity: if s.keyboard_interactivity != KEYBOARD_INTERACTIVITY_NONE {
            Some(s.keyboard_interactivity)
        } else {
            None
        },
    }
}

/// Decides which configuration requests a new layer surface needs; see
/// `spec_layer_surface_requests`.
pub fn layer_surface_requests(s: &LayerSurfaceSettings) -> (r: LayerSurfaceRequests)
    ensures
        r == spec_layer_surface_requests(*s),
{
    LayerSurfaceRequests {
        set_anchor: if s.anchors != 0 { Some(s.anchors) } else { None },
        set_exclusive_zone: if s.exclusive_zone != 0 { Some(s.exclusive_zone) } else { None },
        set_margin: if s.margin != Margin::default() { Some(s.margin) } else { None },
        set_size: if s.width != 0 || s.height != 0 { Some((s.width, s.height)) } else { None },
        set_keyboard_interactivity: if s.keyboard_interactivity != KEYBOARD_INTERACTIVITY_NONE {
            Some(s.keyboard_interactivity)
        } else {
            None
        },
    }
}

/// "does" or "does not".
pub fn bool_does(b: bool) -> (r: &'static str)
    ensures
        b ==> r@ == "does"@,
        !b ==> r@ == "does not"@,
{
    if b {
        "does"
    } else {
        "does not"
    }
}

/// "is" or "is not".
pub fn bool_is(b: bool) -> (r: &'static str)
    ensures
        b ==> r@ == "is"@,
        !b ==> r@ == "is not"@,
{
    if b {
        "is"
    } else {
        "is not"
    }
}

/// "yes" or "no".
pub fn yn(b: bool) -> (r: &'static str)
    ensures
        b ==> r@ == "yes"@,
        !b ==> r@ == "no"@,
{
    if b {
        "yes"
    } else {
        "no"
    }
}

/// Errors of bringing up the wallpaper's window.
#[derive(Clone, Copy, Debug, PartialEq, Eq, Structural)]
pub enum InitError {
    /// The compositor was not announced.
    NoCompositor,
    /// The base surface could not be created.
    NoBaseSurface,
    /// The compositor does not support the layer shell protocol.
    NoLayerShell,
    /// No seat was announced.
    NoSeat,
    /// The graphics driver does not answer the basic queries.
    DoesNotWork,
    /// No graphics configuration matches the window.
    NoConfigs,
    /// An error of the window system or graphics libraries, reported where it happened.
    Backend,
}

impl InitError {
    /// The error's message.
    pub fn message(&self) -> (r: &'static str)
        ensures
            *self == InitError::NoCompositor ==> r@ == "Could not get the compositor"@,
            *self == InitError::NoBaseSurface ==> r@ == "Could not create base surface"@,
            *self == InitError::NoLayerShell ==> r@ == "Compositor does not support the layer shell protocol"@,
            *self == InitError::NoSeat ==> r@ == "No seat available"@,
            *self == InitError::DoesNotWork ==> r@ == "OpenGL does not work oof"@,
            *self == InitError::NoConfigs ==> r@ == "No OpenGL configs available"@,
            *self == InitError::Backend ==> r@ == "Window system error"@,
    {
        match self {
            InitError::NoCompositor => "Could not get the compositor",
            InitError::NoBaseSurface => "Could not create base surface",
            InitError::NoLayerShell => "Compositor does not support the layer shell protocol",
            InitError::NoSeat => "No seat available",
            InitError::DoesNotWork => "OpenGL does not work oof",
            InitError::NoConfigs => "No OpenGL configs available",
            InitError::Backend => "Window system error",
        }
    }
}

/// The outcome of the window's setup, once the compositor's announcements went through:
/// the first missing piece, in the order compositor, base surface, seat, layer surface,
/// and otherwise the error that configuring the surface reported, if any.
pub fn setup_error(
    compositor: bool,
    base_surface: bool,
    seat: bool,
    layer_surface: bool,
    configured: Option<InitError>,
) -> (r: Result<(), InitError>)
    ensures
        r == (if !compositor {
            Err(InitError::NoCompositor)
        } else if !base_surface {
            Err(InitError::NoBaseSurface)
        } else if !seat {
            Err(InitError::NoSeat)
        } else if !layer_surface {
            Err(InitError::NoLayerShell)
        } else {
            match configured {
                Some(e) => Err(e),
                None => Ok(()),
            }
        }),
{
    if !compositor {
        return Err(InitError::NoCompositor);
    }
    if !base_surface {
        return Err(InitError::NoBaseSurface);
    }
    if !seat {
        return Err(InitError::NoSeat);
    }
    if !layer_surface {
        return Err(InitError::NoLayerShell);
    }
    match configured {
        Some(e) => Err(e),
        None => Ok(()),
    }
}

/// Checks that the graphics driver answered the four basic queries (version, vendor,
/// renderer, shading language version); any missing answer means it does not work.
pub fn check_driver_strings(
    version: bool,
    vendor: bool,
    renderer: bool,
    shading_language: bool,
) -> (r: Result<(), InitError>)
    ensures
        r == (if version && vendor && renderer && shading_language {
            Ok(())
        } else {
            Err(InitError::DoesNotWork)
        }),
{
    if !version || !vendor || !renderer || !shading_language {
        Err(InitError::DoesNotWork)
    } else {
        Ok(())
    }
}

/// What ranks a graphics configuration: hardware acceleration, sRGB capability, the number
/// of samples, and transparency support (unknown, no, yes), compared in that order.
pub type ConfigKey = (bool, bool, u8, Option<bool>);

/// The rank of a transparency answer: unknown below no below yes.
pub open spec fn spec_transparency_rank(t: Option<bool>) -> int {
    match t {
        None => 0,
        Some(false) => 1,
        Some(true) => 2,
    }
}

/// Whether key `a` ranks no higher than key `b`, comparing the parts in order.
pub open spec fn spec_key_le(a: ConfigKey, b: ConfigKey) -> bool {
    if a.0 != b.0 {
        !a.0
    } else if a.1 != b.1 {
        !a.1
    } else if a.2 != b.2 {
        a.2 < b.2
    } else {
        spec_transparency_rank(a.3) <= spec_transparency_rank(b.3)
    }
}

fn key_le(a: &ConfigKey, b: &ConfigKey) -> (r: bool)
    ensures
        r == spec_key_le(*a, *b),
{
    if a.0 != b.0 {
        !a.0
    } else if a.1 != b.1 {
        !a.1
    } else if a.2 != b.2 {
        a.2 < b.2
    } else {
        let ra: u8 = match a.3 {
            None => 0,
            Some(false) => 1,
            Some(true) => 2,
        };
        let rb: u8 = match b.3 {
            None => 0,
            Some(false) => 1,
            Some(true) => 2,
        };
        ra <= rb
    }
}

/// Chooses the graphics configuration with the highest-ranking key, keeping the last of
/// equally ranked ones; none when there are no configurations.
pub fn choose_config(keys: &Vec<ConfigKey>) -> (r: Option<usize>)
    ensures
        r is None <==> keys.len() == 0,
        r matches Some(i) ==> {
            &&& i < keys.len()
            &&& forall|j: int| 0 <= j < keys.len() ==> spec_key_le(#[trigger] keys[j], keys[i as int])
            &&& forall|j: int|
                i < j < keys.len() ==> spec_key_le(#[trigger] keys[j], keys[i as int]) && keys[j] != keys[i as int]
        },
{
    if keys.len() == 0 {
        return None;
    }
    let mut best: usize = 0;
    let mut j: usize = 1;
    while j < keys.len()
        invariant
            1 <= j <= keys.len(),
            best < j,
            forall|m: int| 0 <= m < j ==> spec_key_le(#[trigger] keys[m], keys[best as int]),
            forall|m: int| best < m < j ==> spec_key_le(#[trigger] keys[m], keys[best as int]) && keys[m] != keys[best as int],
        decreases keys.len() - j,
    {
        if key_le(&keys[best], &keys[j]) {
            best = j;
        }
        j = j + 1;
    }
    Some(best)
}

/// Configurations rank lexicographically: hardware acceleration first, then sRGB
/// capability, then more samples, then transparency (yes above no above unknown); a key
/// that wins on the first part where two keys differ ranks strictly higher, and equal keys
/// rank the same.
pub proof fn law_config_ranking(a: ConfigKey, b: ConfigKey)
    ensures
        a.0 && !b.0 ==> spec_key_le(b, a) && !spec_key_le(a, b),
        a.0 == b.0 && a.1 && !b.1 ==> spec_key_le(b, a) && !spec_key_le(a, b),
        a.0 == b.0 && a.1 == b.1 && a.2 > b.2 ==> spec_key_le(b, a) && !spec_key_le(a, b),
        a.0 == b.0 && a.1 == b.1 && a.2 == b.2 && a.3 == Some(true) && b.3 != Some(true)
            ==> spec_key_le(b, a) && !spec_key_le(a, b),
        a.0 == b.0 && a.1 == b.1 && a.2 == b.2 && a.3 == Some(false) && b.3 is None
            ==> spec_key_le(b, a) && !spec_key_le(a, b),
        a == b ==> spec_key_le(a, b),
        spec_key_le(a, b) || spec_key_le(b, a),
{
}

/// Wraps the application state so that it can receive the window's messages.
pub struct MessageHandlerWrapper<T>(pub T);

} // verus!
