//! The wallpaper pipeline configuration: its metadata and version, its texture inputs, its
//! shared shaders, and how the paths it names are resolved against the config file's place.
//! Paths are Unix paths, as the player runs on Wayland only.
use vstd::prelude::*;
use vstd::string::*;
use crate::pipeline::Scaling;
use crate::text::{append_decimal, spec_decimal};

verus! {

/// The version of the configuration format that a file declares.
#[derive(Clone, Copy, Debug, PartialEq, Eq, Hash, Structural)]
pub struct Version {
    pub major: u8,
    pub minor: u8,
}

/// The major version of the only supported configuration format.
pub const SUPPORTED_MAJOR: u8 = 0;

/// The minor version of the only supported configuration format.
pub const SUPPORTED_MINOR: u8 = 1;

/// The authors of a wallpaper.
#[derive(Clone, Debug, PartialEq, Eq, Hash)]
pub struct Authors {
    pub authors: Vec<String>,
}

/// The metadata of a wallpaper configuration.
#[derive(Clone, Debug, PartialEq, Eq, Hash)]
pub struct Meta {
    pub config_version: Version,
    pub name: String,
    pub version: String,
    pub authors: Authors,
    pub description: String,
}

/// The texture inputs of a pipeline: videos, then images.
#[derive(Clone, Debug, PartialEq, Eq)]
pub struct TextureInfo {
    pub video: Vec<VideoInfo>,
    pub image: Vec<ImageInfo>,
}

/// A video input.
#[derive(Clone, Debug, PartialEq, Eq)]
pub struct VideoInfo {
    /// The video's path, relative to the config file unless absolute.
    pub file: String,
    /// Whether the video's audio plays.
    pub audio: bool,
    /// How the video is scaled to the display.
    pub scaling: Scaling,
}

/// An image input.
#[derive(Clone, Debug, PartialEq, Eq)]
pub struct ImageInfo {
    /// The image's path, relative to the config file unless absolute.
    pub file: String,
}

/// An explicit size of a stage's output buffer.
#[derive(Clone, Copy, Debug, PartialEq, Eq, Structural)]
pub struct Size {
    pub width: u32,
    pub height: u32,
}

/// Shaders shared by every stage of the pipeline.
#[derive(Clone, Debug, PartialEq)]
pub struct Common {
    pub vert: Shaders,
    pub frag: Shaders,
}

/// A list of shader paths.
#[derive(Clone, Debug, PartialEq)]
pub struct Shaders {
    pub shaders: Vec<String>,
}

impl Default for Shaders {
    fn default() -> (r: Self)
        ensures
            r.shaders@.len() == 0,
    {
        Shaders { shaders: Vec::new() }
    }
}

impl Default for Common {
    fn default() -> (r: Self)
        ensures
            r.vert.shaders@.len() == 0,
            r.frag.shaders@.len() == 0,
    {
        Common { vert: Shaders::default(), frag: Shaders::default() }
    }
}

/// Errors in interpreting a configuration.
#[derive(Clone, Copy, Debug, PartialEq, Eq, Structural)]
pub enum ConfigError {
    /// The file declares a configuration format version that is not supported.
    UnsupportedVersion { major: u8, minor: u8 },
    /// A relative path had to be resolved against a config path that has no parent.
    NoParent,
}

/// The text of the unsupported-version message, around the version numbers.
pub open spec fn spec_version_message(major: u8, minor: u8) -> Seq<char> {
    "Unsupported config version: `"@ + spec_decimal(major as nat) + "."@ + spec_decimal(minor as nat)
        + "`. Only version 0.1 is supported by this version of Hypatia."@
}

/// The message of each configuration error.
pub open spec fn spec_config_error_message(e: ConfigError) -> Seq<char> {
    match e {
        ConfigError::UnsupportedVersion { major, minor } => spec_version_message(major, minor),
        ConfigError::NoParent => "Canonical config path has no parent??? What are you doing???"@,
    }
}

impl ConfigError {
    /// The error's message.
    pub fn message(&self) -> (r: String)
        ensures
            r@ == spec_config_error_message(*self),
    {
        match *self {
            ConfigError::UnsupportedVersion { major, minor } => {
                let mut s = String::from_str("Unsupported config version: `");
                append_decimal(&mut s, major as u64);
                s.append(".");
                append_decimal(&mut s, minor as u64);
                s.append("`. Only version 0.1 is supported by this version of Hypatia.");
                s
            },
            ConfigError::NoParent => String::from_str("Canonical config path has no parent??? What are you doing???"),
        }
    }
}

/// Whether a declared version is the supported one.
pub open spec fn spec_version_supported(v: Version) -> bool {
    v.major == SUPPORTED_MAJOR && v.minor == SUPPORTED_MINOR
}

/// Accepts the configuration format version that the metadata declares if it is the
/// supported one, and refuses any other with `UnsupportedVersion`.
pub fn check_config_version(meta: &Meta) -> (r: Result<(), ConfigError>)
    ensures
        spec_version_supported(meta.config_version) <==> r is Ok,
        !spec_version_supported(meta.config_version) ==> r == Err::<(), ConfigError>(
            ConfigError::UnsupportedVersion {
                major: meta.config_version.major,
                minor: meta.config_version.minor,
            },
        ),
{
    let v = meta.config_version;
    if v.major == SUPPORTED_MAJOR && v.minor == SUPPORTED_MINOR {
        Ok(())
    } else {
        Err(ConfigError::UnsupportedVersion { major: v.major, minor: v.minor })
    }
}

/// Whether a Unix path is absolute: whether it starts with the root, `/`.
pub open spec fn path_is_absolute(path: Seq<char>) -> bool {
    path.len() > 0 && path[0] == '/'
}

/// Name for what `std::path::Path::parent` returns for a path, as text.
pub uninterp spec fn path_parent(path: Seq<char>) -> Option<Seq<char>>;

/// Name for what `std::path::Path::join` returns for a base and a path, as text.
pub uninterp spec fn path_join(base: Seq<char>, path: Seq<char>) -> Seq<char>;

/// Whether a Unix path is absolute; see `path_is_absolute`.
fn is_absolute_path(path: &str) -> (r: bool)
    ensures
        r == path_is_absolute(path@),
{
    path.unicode_len() > 0 && path.get_char(0) == '/'
}

/// Calls `std::path::Path::parent`; the result, as text, is the named one. A parent of a
/// path given as text is a prefix of it, so it converts to text without loss.
#[verifier::external_body]
fn std_path_parent(path: &str) -> (r: Option<String>)
    ensures
        r matches Some(p) ==> path_parent(path@) == Some(p@),
        r is None ==> path_parent(path@) is None,
{
    match std::path::Path::new(path).parent() {
        Some(p) => Some(p.to_string_lossy().into_owned()),
        None => None,
    }
}

/// Calls `std::path::Path::join`; the result, as text, is the named one. Joining two paths
/// given as text gives a path that converts to text without loss.
#[verifier::external_body]
fn std_path_join(base: &str, path: &str) -> (r: String)
    ensures
        r@ == path_join(base@, path@),
{
    std::path::Path::new(base).join(path).to_string_lossy().into_owned()
}

/// Where `path`, as written in the config file at `base_canonical`, points: absolute paths
/// stay as they are, relative ones are joined to the config file's directory, and fail when
/// the config path has no parent.
pub open spec fn spec_relative(path: Seq<char>, base_canonical: Seq<char>) -> Option<Seq<char>> {
    if path_is_absolute(path) {
        Some(path)
    } else {
        match path_parent(base_canonical) {
            Some(dir) => Some(path_join(dir, path)),
            None => None,
        }
    }
}

/// Resolves `path`, as written in the config file whose canonical path is
/// `base_canonical`; see `spec_relative`.
pub fn into_relative(path: &str, base_canonical: &str) -> (r: Result<String, ConfigError>)
    ensures
        match spec_relative(path@, base_canonical@) {
            Some(p) => r matches Ok(s) && s@ == p,
            None => r == Err::<String, ConfigError>(ConfigError::NoParent),
        },
{
    if is_absolute_path(path) {
        Ok(String::from_str(path))
    } else {
        match std_path_parent(base_canonical) {
            Some(dir) => Ok(std_path_join(dir.as_str(), path)),
            None => Err(ConfigError::NoParent),
        }
    }
}

/// A texture input to create, with its path resolved.
#[derive(Clone, Debug, PartialEq, Eq)]
pub enum TextureSource {
    Video { file: String, audio: bool, scaling: Scaling },
    Image { file: String },
}

/// Whether every input's path can be resolved against the config path.
pub open spec fn spec_inputs_resolve(info: TextureInfo, base_canonical: Seq<char>) -> bool {
    &&& forall|i: int| 0 <= i < info.video.len() ==> spec_relative(#[trigger] info.video[i].file@, base_canonical) is Some
    &&& forall|i: int| 0 <= i < info.image.len() ==> spec_relative(#[trigger] info.image[i].file@, base_canonical) is Some
}

impl TextureInfo {
    /// The textures the pipeline reads, in texture unit order: the videos, then the images,
    /// each with its path resolved against the config file at `base_canonical`. Fails with
    /// `NoParent` when some path cannot be resolved.
    pub fn sources(&self, base_canonical: &str) -> (r: Result<Vec<TextureSource>, ConfigError>)
        requires
            self.video.len() + self.image.len() <= usize::MAX,
        ensures
            spec_inputs_resolve(*self, base_canonical@) <==> r is Ok,
            !spec_inputs_resolve(*self, base_canonical@) ==> r == Err::<Vec<TextureSource>, ConfigError>(ConfigError::NoParent),
            r matches Ok(v) ==> {
                &&& v.len() == self.video.len() + self.image.len()
                &&& forall|i: int| 0 <= i < self.video.len() ==> (#[trigger] v[i] matches TextureSource::Video { file, audio, scaling }
                    && Some(file@) == spec_relative(self.video[i].file@, base_canonical@)
                    && audio == self.video[i].audio
                    && scaling == self.video[i].scaling)
                &&& forall|j: int| 0 <= j < self.image.len() ==> (#[trigger] v[self.video.len() + j] matches TextureSource::Image { file }
                    && Some(file@) == spec_relative(self.image[j].file@, base_canonical@))
            },
    {
        let mut out: Vec<TextureSource> = Vec::new();
        let mut i: usize = 0;
        while i < self.video.len()
            invariant
                i <= self.video.len(),
                out.len() == i,
                forall|k: int| 0 <= k < i ==> spec_relative(#[trigger] self.video[k].file@, base_canonical@) is Some,
                forall|k: int| 0 <= k < i ==> (#[trigger] out[k] matches TextureSource::Video { file, audio, scaling }
                    && Some(file@) == spec_relative(self.video[k].file@, base_canonical@)
                    && audio == self.video[k].audio
                    && scaling == self.video[k].scaling),
            decreases self.video.len() - i,
        {
            let video = &self.video[i];
            match into_relative(video.file.as_str(), base_canonical) {
                Ok(file) => {
                    out.push(TextureSource::Video { file, audio: video.audio, scaling: video.scaling });
                },
                Err(e) => {
                    return Err(e);
                },
            }
            i = i + 1;
        }
        let mut j: usize = 0;
        while j < self.image.len()
            invariant
                j <= self.image.len(),
                self.video.len() + self.image.len() <= usize::MAX,
                out.len() == self.video.len() + j,
                forall|k: int| 0 <= k < self.video.len() ==> spec_relative(#[trigger] self.video[k].file@, base_canonical@) is Some,
                forall|k: int| 0 <= k < j ==> spec_relative(#[trigger] self.image[k].file@, base_canonical@) is Some,
                forall|k: int| 0 <= k < self.video.len() ==> (#[trigger] out[k] matches TextureSource::Video { file, audio, scaling }
                    && Some(file@) == spec_relative(self.video[k].file@, base_canonical@)
                    && audio == self.video[k].audio
                    && scaling == self.video[k].scaling),
                forall|k: int| 0 <= k < j ==> (#[trigger] out[self.video.len() + k] matches TextureSource::Image { file }
                    && Some(file@) == spec_relative(self.image[k].file@, base_canonical@)),
            decreases self.image.len() - j,
        {
            match into_relative(self.image[j].file.as_str(), base_canonical) {
                Ok(file) => {
                    out.push(TextureSource::Image { file });
                },
                Err(e) => {
                    return Err(e);
                },
            }
            j = j + 1;
        }
        Ok(out)
    }
}

/// A stage of the pipeline as the config file gives it: its shader paths and the name of
/// its output buffer, if it has one.
#[derive(Clone, Debug, PartialEq, Eq)]
pub struct StageConfig {
    pub vert: String,
    pub frag: String,
    pub output: Option<String>,
}

/// A stage's shader paths, resolved.
#[derive(Clone, Debug, PartialEq, Eq)]
pub struct StagePaths {
    pub vert: String,
    pub frag: String,
}

/// Whether both shader paths of a stage can be resolved against the config path.
pub open spec fn spec_stage_resolves(st: StageConfig, base_canonical: Seq<char>) -> bool {
    &&& spec_relative(st.vert@, base_canonical) is Some
    &&& spec_relative(st.frag@, base_canonical) is Some
}

/// The names of the stages' output buffers, in stage order.
pub open spec fn spec_output_names(stages: Seq<StageConfig>) -> Seq<Seq<char>>
    decreases stages.len(),
{
    if stages.len() == 0 {
        Seq::empty()
    } else {
        let prev = spec_output_names(stages.drop_last());
        match stages.last().output {
            Some(name) => prev.push(name@),
            None => prev,
        }
    }
}

/// The views of a list of texts.
pub open spec fn spec_texts(v: Seq<String>) -> Seq<Seq<char>> {
    v.map_values(|t: String| t@)
}

/// Plans the stages of a pipeline: each stage's shader paths resolved against the config
/// file at `base_canonical`, and the names of the output buffers in stage order, which
/// later stages read as textures. Fails with `NoParent` when some path cannot be resolved.
pub fn plan_stages(stages: &Vec<StageConfig>, base_canonical: &str) -> (r: Result<(Vec<StagePaths>, Vec<String>), ConfigError>)
    ensures
        (forall|i: int| 0 <= i < stages.len() ==> spec_stage_resolves(#[trigger] stages[i], base_canonical@))
            <==> r is Ok,
        r is Err ==> r == Err::<(Vec<StagePaths>, Vec<String>), ConfigError>(ConfigError::NoParent),
        r matches Ok((paths, names)) ==> {
            &&& paths.len() == stages.len()
            &&& forall|i: int|
                0 <= i < stages.len() ==> Some((#[trigger] paths[i]).vert@) == spec_relative(stages[i].vert@, base_canonical@)
                    && Some(paths[i].frag@) == spec_relative(stages[i].frag@, base_canonical@)
            &&& spec_texts(names@) == spec_output_names(stages@)
        },
{
    let mut paths: Vec<StagePaths> = Vec::new();
    let mut names: Vec<String> = Vec::new();
    let mut i: usize = 0;
    while i < stages.len()
        invariant
            i <= stages.len(),
            paths.len() == i,
            forall|k: int| 0 <= k < i ==> spec_stage_resolves(#[trigger] stages[k], base_canonical@),
            forall|k: int|
                0 <= k < i ==> Some((#[trigger] paths[k]).vert@) == spec_relative(stages[k].vert@, base_canonical@)
                    && Some(paths[k].frag@) == spec_relative(stages[k].frag@, base_canonical@),
            spec_texts(names@) == spec_output_names(stages@.take(i as int)),
        decreases stages.len() - i,
    {
        let stage = &stages[i];
        let vert = match into_relative(stage.vert.as_str(), base_canonical) {
            Ok(p) => p,
            Err(e) => return Err(e),
        };
        let frag = match into_relative(stage.frag.as_str(), base_canonical) {
            Ok(p) => p,
            Err(e) => return Err(e),
        };
        paths.push(StagePaths { vert, frag });
        let ghost before = names@;
        match &stage.output {
            Some(name) => names.push(name.clone()),
            None => {},
        }
        proof {
            let t = stages@.take(i + 1);
            assert(t.drop_last() =~= stages@.take(i as int));
            assert(t.last() == stages[i as int]);
            match stages[i as int].output {
                Some(name) => {
                    assert(spec_texts(names@) =~= spec_texts(before).push(name@));
                },
                None => {},
            }
        }
        i = i + 1;
    }
    assert(stages@.take(stages.len() as int) =~= stages@);
    Ok((paths, names))
}

/// A path that does not start with `/` is always resolved against the config file's
/// directory: joined to the parent of the config path, or refused when there is none. A path
/// that starts with `/` stays as it is.
pub proof fn law_relative_paths_join_config_directory(path: Seq<char>, base_canonical: Seq<char>)
    ensures
        (path.len() == 0 || path[0] != '/') ==> spec_relative(path, base_canonical) == (match path_parent(base_canonical) {
            Some(dir) => Some(path_join(dir, path)),
            None => None::<Seq<char>>,
        }),
        (path.len() > 0 && path[0] == '/') ==> spec_relative(path, base_canonical) == Some(path),
{
}

} // verus!
