//! Model presets: a closed catalog of downloadable segmentation models,
//! a case-insensitive parser for preset names, and the resolver that maps
//! a user-supplied specifier to a local artifact path.

use vstd::prelude::*;

verus! {

/// Known model presets with their remote sources.
#[derive(Debug, Clone, Copy, PartialEq, Eq, Structural)]
pub enum ModelPreset {
    /// BiRefNet general - best quality, handles complex scenes
    BiRefNet,
    /// BiRefNet lite - faster, slightly lower quality
    BiRefNetLite,
    /// IS-Net general use - good all-around model
    IsNet,
    /// U2-Net - classic, reliable
    U2Net,
    /// U2-Net portrait - optimized for human segmentation
    U2NetP,
    /// RMBG 1.4 by BRIA AI - state of the art
    Rmbg,
}

/// The display name of a preset, as the command line shows and accepts it.
pub open spec fn spec_name(p: ModelPreset) -> Seq<char> {
    match p {
        ModelPreset::BiRefNet => "birefnet"@,
        ModelPreset::BiRefNetLite => "birefnet-lite"@,
        ModelPreset::IsNet => "isnet"@,
        ModelPreset::U2Net => "u2net"@,
        ModelPreset::U2NetP => "u2netp"@,
        ModelPreset::Rmbg => "rmbg"@,
    }
}

/// The human-readable description of a preset.
pub open spec fn spec_description(p: ModelPreset) -> Seq<char> {
    match p {
        ModelPreset::BiRefNet => "U2Net full - best quality, general purpose"@,
        ModelPreset::BiRefNetLite => "U2Netp - fast, good for portraits"@,
        ModelPreset::IsNet => "IS-Net - anime/illustration focused"@,
        ModelPreset::U2Net => "U2Net full - classic, well-tested"@,
        ModelPreset::U2NetP => "U2Netp - lightweight, portrait optimized"@,
        ModelPreset::Rmbg => "U2Net - reliable general purpose"@,
    }
}

/// The approximate artifact size of a preset, in megabytes.
pub open spec fn spec_size_mb(p: ModelPreset) -> u32 {
    match p {
        ModelPreset::BiRefNet => 176,
        ModelPreset::BiRefNetLite => 5,
        ModelPreset::IsNet => 176,
        ModelPreset::U2Net => 176,
        ModelPreset::U2NetP => 5,
        ModelPreset::Rmbg => 176,
    }
}

/// The fixed remote source of a preset's artifact.
pub open spec fn spec_url(p: ModelPreset) -> Seq<char> {
    match p {
        ModelPreset::BiRefNet => "https://huggingface.co/BritishWerewolf/U-2-Net/resolve/main/onnx/model.onnx"@,
        ModelPreset::BiRefNetLite => "https://huggingface.co/BritishWerewolf/U-2-Netp/resolve/main/onnx/model.onnx"@,
        ModelPreset::IsNet => "https://huggingface.co/skytnt/anime-seg/resolve/main/isnetis.onnx"@,
        ModelPreset::U2Net => "https://huggingface.co/BritishWerewolf/U-2-Net/resolve/main/onnx/model.onnx"@,
        ModelPreset::U2NetP => "https://huggingface.co/BritishWerewolf/U-2-Netp/resolve/main/onnx/model.onnx"@,
        ModelPreset::Rmbg => "https://huggingface.co/scenario-labs/grayscale/resolve/main/u2net.onnx"@,
    }
}

/// The canonical local filename of a preset's artifact.
pub open spec fn spec_filename(p: ModelPreset) -> Seq<char> {
    match p {
        ModelPreset::BiRefNet => "birefnet.onnx"@,
        ModelPreset::BiRefNetLite => "birefnet-lite.onnx"@,
        ModelPreset::IsNet => "isnet.onnx"@,
        ModelPreset::U2Net => "u2net.onnx"@,
        ModelPreset::U2NetP => "u2netp.onnx"@,
        ModelPreset::Rmbg => "rmbg.onnx"@,
    }
}

/// A character folded to lower case; only ASCII letters change.
pub open spec fn lower_char(c: char) -> char {
    if 65 <= c as u32 && c as u32 <= 90 {
        ((c as u8) + 32) as char
    } else {
        c
    }
}

/// A text folded to lower case, character by character.
pub open spec fn lower_seq(s: Seq<char>) -> Seq<char> {
    Seq::new(s.len(), |i: int| lower_char(s[i]))
}

/// The preset named by an already-lower-cased specifier, if any alias matches.
pub open spec fn spec_parse(s: Seq<char>) -> Option<ModelPreset> {
    if s == "birefnet"@ || s == "birefnet-general"@ {
        Some(ModelPreset::BiRefNet)
    } else if s == "birefnet-lite"@ || s == "birefnet-light"@ {
        Some(ModelPreset::BiRefNetLite)
    } else if s == "isnet"@ || s == "isnet-general"@ || s == "isnet-general-use"@ {
        Some(ModelPreset::IsNet)
    } else if s == "u2net"@ {
        Some(ModelPreset::U2Net)
    } else if s == "u2netp"@ || s == "u2net-p"@ || s == "u2net-portrait"@ {
        Some(ModelPreset::U2NetP)
    } else if s == "rmbg"@ || s == "rmbg-1.4"@ || s == "bria"@ {
        Some(ModelPreset::Rmbg)
    } else {
        None
    }
}

fn char_to_lower(c: char) -> (r: char)
    ensures
        r == lower_char(c),
{
    let n = c as u32;
    if 65 <= n && n <= 90 {
        ((c as u8) + 32) as char
    } else {
        c
    }
}

fn to_lower_chars(s: &str) -> (r: Vec<char>)
    ensures
        r@ == lower_seq(s@),
{
    let n = s.unicode_len();
    let mut out: Vec<char> = Vec::new();
    let mut i: usize = 0;
    while i < n
        invariant
            i <= n,
            n == s@.len(),
            out@.len() == i,
            forall|j: int| 0 <= j < i ==> out@[j] == lower_char(s@[j]),
        decreases n - i,
    {
        let c = s.get_char(i);
        out.push(char_to_lower(c));
        i += 1;
    }
    proof {
        assert(out@ =~= lower_seq(s@));
    }
    out
}

fn chars_eq_str(v: &Vec<char>, s: &str) -> (r: bool)
    ensures
        r == (v@ == s@),
{
    let n = s.unicode_len();
    if v.len() != n {
        proof {
            assert(v@.len() != s@.len());
        }
        return false;
    }
    let mut i: usize = 0;
    while i < n
        invariant
            i <= n,
            n == s@.len(),
            v@.len() == n,
            forall|j: int| 0 <= j < i ==> v@[j] == s@[j],
        decreases n - i,
    {
        let c = s.get_char(i);
        if v[i] != c {
            return false;
        }
        i += 1;
    }
    proof {
        assert(v@ =~= s@);
    }
    true
}

impl ModelPreset {
    /// Model name for CLI display.
    pub fn name(&self) -> (r: &'static str)
        ensures
            r@ == spec_name(*self),
    {
        match self {
            ModelPreset::BiRefNet => "birefnet",
            ModelPreset::BiRefNetLite => "birefnet-lite",
            ModelPreset::IsNet => "isnet",
            ModelPreset::U2Net => "u2net",
            ModelPreset::U2NetP => "u2netp",
            ModelPreset::Rmbg => "rmbg",
        }
    }

    /// Human-readable description.
    pub fn description(&self) -> (r: &'static str)
        ensures
            r@ == spec_description(*self),
    {
        match self {
            ModelPreset::BiRefNet => "U2Net full - best quality, general purpose",
            ModelPreset::BiRefNetLite => "U2Netp - fast, good for portraits",
            ModelPreset::IsNet => "IS-Net - anime/illustration focused",
            ModelPreset::U2Net => "U2Net full - classic, well-tested",
            ModelPreset::U2NetP => "U2Netp - lightweight, portrait optimized",
            ModelPreset::Rmbg => "U2Net - reliable general purpose",
        }
    }

    /// Approximate model size in MB.
    pub fn size_mb(&self) -> (r: u32)
        ensures
            r == spec_size_mb(*self),
    {
        match self {
            ModelPreset::BiRefNet => 176,
            ModelPreset::BiRefNetLite => 5,
            ModelPreset::IsNet => 176,
            ModelPreset::U2Net => 176,
            ModelPreset::U2NetP => 5,
            ModelPreset::Rmbg => 176,
        }
    }

    /// Download URL for the ONNX model.
    ///
    /// Uses publicly accessible mirrors where the original sources require
    /// authentication.
    pub fn download_url(&self) -> (r: &'static str)
        ensures
            r@ == spec_url(*self),
    {
        match self {
            ModelPreset::BiRefNet => {
                "https://huggingface.co/BritishWerewolf/U-2-Net/resolve/main/onnx/model.onnx"
            },
            ModelPreset::BiRefNetLite => {
                "https://huggingface.co/BritishWerewolf/U-2-Netp/resolve/main/onnx/model.onnx"
            },
            ModelPreset::IsNet => {
                "https://huggingface.co/skytnt/anime-seg/resolve/main/isnetis.onnx"
            },
            ModelPreset::U2Net => {
                "https://huggingface.co/BritishWerewolf/U-2-Net/resolve/main/onnx/model.onnx"
            },
            ModelPreset::U2NetP => {
                "https://huggingface.co/BritishWerewolf/U-2-Netp/resolve/main/onnx/model.onnx"
            },
            ModelPreset::Rmbg => {
                "https://huggingface.co/scenario-labs/grayscale/resolve/main/u2net.onnx"
            },
        }
    }

    /// Local filename for the model.
    pub fn filename(&self) -> (r: &'static str)
        ensures
            r@ == spec_filename(*self),
    {
        match self {
            ModelPreset::BiRefNet => "birefnet.onnx",
            ModelPreset::BiRefNetLite => "birefnet-lite.onnx",
            ModelPreset::IsNet => "isnet.onnx",
            ModelPreset::U2Net => "u2net.onnx",
            ModelPreset::U2NetP => "u2netp.onnx",
            ModelPreset::Rmbg => "rmbg.onnx",
        }
    }

    /// Parse a preset name from a string: the input is folded to lower case
    /// and matched against every recognized alias; anything else is `None`.
    pub fn from_str(s: &str) -> (r: Option<ModelPreset>)
        ensures
            r == spec_parse(lower_seq(s@)),
    {
        let low = to_lower_chars(s);
        if chars_eq_str(&low, "birefnet") || chars_eq_str(&low, "birefnet-general") {
            Some(ModelPreset::BiRefNet)
        } else if chars_eq_str(&low, "birefnet-lite") || chars_eq_str(&low, "birefnet-light") {
            Some(ModelPreset::BiRefNetLite)
        } else if chars_eq_str(&low, "isnet") || chars_eq_str(&low, "isnet-general") || chars_eq_str(
            &low,
            "isnet-general-use",
        ) {
            Some(ModelPreset::IsNet)
        } else if chars_eq_str(&low, "u2net") {
            Some(ModelPreset::U2Net)
        } else if chars_eq_str(&low, "u2netp") || chars_eq_str(&low, "u2net-p") || chars_eq_str(
            &low,
            "u2net-portrait",
        ) {
            Some(ModelPreset::U2NetP)
        } else if chars_eq_str(&low, "rmbg") || chars_eq_str(&low, "rmbg-1.4") || chars_eq_str(
            &low,
            "bria",
        ) {
            Some(ModelPreset::Rmbg)
        } else {
            None
        }
    }

    /// Every known preset, in catalog order.
    pub fn all() -> (r: Vec<ModelPreset>)
        ensures
            r@ =~= seq![
                ModelPreset::BiRefNet,
                ModelPreset::BiRefNetLite,
                ModelPreset::IsNet,
                ModelPreset::U2Net,
                ModelPreset::U2NetP,
                ModelPreset::Rmbg,
            ],
            forall|p: ModelPreset| r@.contains(p),
    {
        let mut v: Vec<ModelPreset> = Vec::new();
        v.push(ModelPreset::BiRefNet);
        v.push(ModelPreset::BiRefNetLite);
        v.push(ModelPreset::IsNet);
        v.push(ModelPreset::U2Net);
        v.push(ModelPreset::U2NetP);
        v.push(ModelPreset::Rmbg);
        proof {
            assert forall|p: ModelPreset| v@.contains(p) by {
                match p {
                    ModelPreset::BiRefNet => assert(v@[0] == p),
                    ModelPreset::BiRefNetLite => assert(v@[1] == p),
                    ModelPreset::IsNet => assert(v@[2] == p),
                    ModelPreset::U2Net => assert(v@[3] == p),
                    ModelPreset::U2NetP => assert(v@[4] == p),
                    ModelPreset::Rmbg => assert(v@[5] == p),
                }
            }
        }
        v
    }
}

/// A text with no ASCII upper-case letter is left unchanged by the fold.
proof fn lemma_lower_fixed(s: Seq<char>)
    requires
        forall|i: int| 0 <= i < s.len() ==> !(65 <= #[trigger] s[i] as u32 <= 90),
    ensures
        lower_seq(s) == s,
{
    assert(lower_seq(s) =~= s);
}

/// Round trip of the catalog: a preset's display name is already lower
/// case, and parsing it yields that preset back.
pub proof fn lemma_parse_name(p: ModelPreset)
    ensures
        lower_seq(spec_name(p)) == spec_name(p),
        spec_parse(spec_name(p)) == Some(p),
{
    reveal_strlit("birefnet");
    reveal_strlit("birefnet-general");
    reveal_strlit("birefnet-lite");
    reveal_strlit("birefnet-light");
    reveal_strlit("isnet");
    reveal_strlit("isnet-general");
    reveal_strlit("isnet-general-use");
    reveal_strlit("u2net");
    reveal_strlit("u2netp");
    reveal_strlit("u2net-p");
    reveal_strlit("u2net-portrait");
    reveal_strlit("rmbg");
    reveal_strlit("rmbg-1.4");
    reveal_strlit("bria");
    lemma_lower_fixed(spec_name(p));
    assert("birefnet"@.len() == 8);
    assert("birefnet-general"@.len() == 16);
    assert("birefnet-lite"@.len() == 13);
    assert("birefnet-light"@.len() == 14);
    assert("isnet"@.len() == 5);
    assert("isnet-general"@.len() == 13);
    assert("isnet-general-use"@.len() == 17);
    assert("u2net"@.len() == 5);
    assert("u2netp"@.len() == 6);
    assert("u2net-p"@.len() == 7);
    assert("u2net-portrait"@.len() == 14);
    assert("rmbg"@.len() == 4);
    assert("rmbg-1.4"@.len() == 8);
    assert("bria"@.len() == 4);
    match p {
        ModelPreset::BiRefNet => {
            assert(spec_parse("birefnet"@) == Some(ModelPreset::BiRefNet));
        },
        ModelPreset::BiRefNetLite => {
            assert(spec_parse("birefnet-lite"@) == Some(ModelPreset::BiRefNetLite));
        },
        ModelPreset::IsNet => {
            assert("isnet"@[0] != "u2net"@[0]);
            assert(spec_parse("isnet"@) == Some(ModelPreset::IsNet));
        },
        ModelPreset::U2Net => {
            assert("u2net"@[0] != "isnet"@[0]);
            assert(spec_parse("u2net"@) == Some(ModelPreset::U2Net));
        },
        ModelPreset::U2NetP => {
            assert(spec_parse("u2netp"@) == Some(ModelPreset::U2NetP));
        },
        ModelPreset::Rmbg => {
            assert("rmbg"@[0] != "bria"@[0]);
            assert("rmbg-1.4"@[0] != "birefnet"@[0]);
            assert(spec_parse("rmbg"@) == Some(ModelPreset::Rmbg));
        },
    }
}

/// Parsing is case-insensitive: two specifiers that agree after the fold
/// parse to the same preset.
pub proof fn lemma_parse_case_insensitive(s: Seq<char>, t: Seq<char>)
    requires
        lower_seq(s) == lower_seq(t),
    ensures
        spec_parse(lower_seq(s)) == spec_parse(lower_seq(t)),
{
}

/// Any casing of a preset's display name parses back to that preset.
pub proof fn lemma_parse_any_casing(p: ModelPreset, s: Seq<char>)
    requires
        lower_seq(s) == spec_name(p),
    ensures
        spec_parse(lower_seq(s)) == Some(p),
{
    lemma_parse_name(p);
}

#[verifier::external_type_specification]
#[verifier::external_body]
pub struct ExProjectDirs(directories::ProjectDirs);

/// Relies on directories::ProjectDirs::from: the platform-appropriate
/// project directories for the given qualifier, organization and
/// application, or `None` when the OS knows no home for them. The result
/// depends on the environment, so nothing is assumed of it.
pub assume_specification[ directories::ProjectDirs::from ](
    qualifier: &str,
    organization: &str,
    application: &str,
) -> Option<directories::ProjectDirs>;

/// Relies on directories::ProjectDirs::data_dir, with the path turned into
/// plain text. The result depends on the environment, so nothing is assumed
/// of it.
#[verifier::external_body]
fn data_dir_of(dirs: &directories::ProjectDirs) -> (r: String) {
    dirs.data_dir().to_string_lossy().into_owned()
}

/// Relies on dirs::home_dir, with the path turned into plain text. The
/// result depends on the environment, so nothing is assumed of it.
#[verifier::external_body]
fn home_dir_path() -> (r: Option<String>) {
    dirs::home_dir().map(|p| p.to_string_lossy().into_owned())
}

/// The cache base when the OS names no project data directory: a `.bgr`
/// dot-directory under the user's home, or under the current directory
/// when no home is known either.
fn fallback_base(home: Option<String>) -> (r: String)
    ensures
        home matches Some(h) ==> r@ == spec_join(h@, ".bgr"@),
        home is None ==> r@ == spec_join("."@, ".bgr"@),
{
    match home {
        Some(h) => join_path(h.as_str(), ".bgr"),
        None => join_path(".", ".bgr"),
    }
}

/// Default models directory: the per-user application data directory when
/// the OS provides one, else a dot-directory under the user's home (or under
/// the current directory as a last resort), with a `models` subdirectory.
pub fn default_models_dir() -> (r: String)
    ensures
        exists|base: Seq<char>| r@ == spec_join(base, "models"@),
{
    let base: String = match directories::ProjectDirs::from("", "", "bgr") {
        Some(d) => data_dir_of(&d),
        None => fallback_base(home_dir_path()),
    };
    let r = join_path(base.as_str(), "models");
    proof {
        assert(r@ == spec_join(base@, "models"@));
    }
    r
}

/// Errors that can occur during model operations.
#[derive(Debug)]
pub enum ModelError {
    /// The specifier is neither an existing path nor a known preset alias.
    UnknownPreset(String),
    /// The models directory could not be created; `source` is the rendered
    /// cause.
    CreateDir { path: String, source: String },
    /// The artifact could not be fetched from its remote source.
    Download { url: String, message: String },
    /// The artifact is not present locally and downloading was not permitted.
    NotFound(String),
    /// Any other I/O failure, carried as its rendered message.
    Io(String),
}

/// The rendered text of a model error.
pub open spec fn spec_message(e: ModelError) -> Seq<char> {
    match e {
        ModelError::UnknownPreset(s) => "Unknown model: "@ + s@
            + ". Use --model=<path> for custom models or one of: birefnet, birefnet-lite, isnet, u2net, u2netp, rmbg"@,
        ModelError::CreateDir { path, source } => "Failed to create models directory "@ + path@
            + ": "@ + source@,
        ModelError::Download { url, message } => "Failed to download model from "@ + url@ + ": "@
            + message@,
        ModelError::NotFound(p) => "Model file not found: "@ + p@,
        ModelError::Io(m) => "IO error: "@ + m@,
    }
}

impl ModelError {
    /// The error rendered as one line of text, for the calling layer to
    /// show.
    pub fn message(&self) -> (r: String)
        ensures
            r@ == spec_message(*self),
    {
        match self {
            ModelError::UnknownPreset(s) => {
                let mut out = "Unknown model: ".to_owned();
                out.append(s.as_str());
                out.append(
                    ". Use --model=<path> for custom models or one of: birefnet, birefnet-lite, isnet, u2net, u2netp, rmbg",
                );
                out
            },
            ModelError::CreateDir { path, source } => {
                let mut out = "Failed to create models directory ".to_owned();
                out.append(path.as_str());
                out.append(": ");
                out.append(source.as_str());
                out
            },
            ModelError::Download { url, message } => {
                let mut out = "Failed to download model from ".to_owned();
                out.append(url.as_str());
                out.append(": ");
                out.append(message.as_str());
                out
            },
            ModelError::NotFound(p) => {
                let mut out = "Model file not found: ".to_owned();
                out.append(p.as_str());
                out
            },
            ModelError::Io(m) => {
                let mut out = "IO error: ".to_owned();
                out.append(m.as_str());
                out
            },
        }
    }
}

/// The filesystem operations the resolver needs. Verus cannot verify the
/// filesystem itself, so callers supply it: a real implementation backed by
/// the operating system, or a recording one in tests.
///
/// Nothing is assumed of these methods; the resolver's contract holds for
/// every behaviour of them.
pub trait CacheFs {
    /// Whether the filesystem currently has an entry (file or directory) at
    /// `path`.
    fn entry_exists(&mut self, path: &str) -> bool;

    /// Create the directory at `path`, with all missing parents; creating an
    /// existing directory succeeds. The error is the rendered cause.
    fn create_dir_recursive(&mut self, path: &str) -> Result<(), String>;
}

/// A filename appended to a directory path, with a separator where one is
/// needed.
pub open spec fn spec_join(dir: Seq<char>, file: Seq<char>) -> Seq<char> {
    if dir.len() == 0 {
        file
    } else if dir.last() == '/' {
        dir + file
    } else {
        dir + seq!['/'] + file
    }
}

/// Append `file` to the directory path `dir`, inserting a separator where
/// one is needed.
pub fn join_path(dir: &str, file: &str) -> (r: String)
    ensures
        r@ == spec_join(dir@, file@),
{
    let n = dir.unicode_len();
    if n == 0 {
        return file.to_owned();
    }
    let lastc = dir.get_char(n - 1);
    let mut out = dir.to_owned();
    if lastc != '/' {
        out.append("/");
        proof {
            reveal_strlit("/");
            assert(out@ =~= dir@ + seq!['/']);
        }
    }
    out.append(file);
    proof {
        assert(out@ =~= spec_join(dir@, file@));
    }
    out
}

impl ModelPreset {
    /// Get the local path for this model: the canonical, content-independent
    /// location of its artifact within `models_dir`.
    pub fn local_path(&self, models_dir: &str) -> (r: String)
        ensures
            r@ == spec_join(models_dir@, spec_filename(*self)),
    {
        join_path(models_dir, self.filename())
    }

    /// Check if the model is already downloaded: whether the filesystem has
    /// an entry at this preset's canonical path within `models_dir`.
    pub fn is_downloaded<D: CacheFs>(&self, models_dir: &str, fs: &mut D) -> bool {
        let p = self.local_path(models_dir);
        fs.entry_exists(p.as_str())
    }
}

/// What `resolve_model_path` returns, given what the filesystem said:
/// `specifier_exists` is whether the specifier itself names an existing
/// entry, `artifact_exists` whether the preset's canonical path does, and
/// `dir_ready` whether the models directory existed or could be created.
pub open spec fn resolve_post(
    specifier: Seq<char>,
    models_dir: Seq<char>,
    auto_download: bool,
    specifier_exists: bool,
    artifact_exists: bool,
    dir_ready: bool,
    r: Result<String, ModelError>,
) -> bool {
    if specifier_exists {
        r matches Ok(p) && p@ == specifier
    } else {
        match spec_parse(lower_seq(specifier)) {
            None => r matches Err(ModelError::UnknownPreset(s)) && s@ == specifier,
            Some(preset) => {
                let local = spec_join(models_dir, spec_filename(preset));
                if artifact_exists {
                    r matches Ok(p) && p@ == local
                } else if !auto_download {
                    r matches Err(ModelError::NotFound(p)) && p@ == local
                } else if dir_ready {
                    r matches Ok(p) && p@ == local
                } else {
                    r matches Err(ModelError::CreateDir { path, source: _ }) && path@ == models_dir
                }
            },
        }
    }
}

/// The resolver's decisions, with the filesystem's answers as arguments:
/// `specifier_exists` and `artifact_exists` are what the filesystem said of
/// the specifier and of the preset's canonical path, and `dir_create` is
/// the outcome of ensuring the models directory (`Ok` when it existed or
/// was created). For every combination of answers the outcome is pinned by
/// [`resolve_post`]: the checks run in order, first match wins.
pub fn resolve_decision(
    specifier: &str,
    models_dir: &str,
    auto_download: bool,
    specifier_exists: bool,
    artifact_exists: bool,
    dir_create: Result<(), String>,
) -> (r: Result<String, ModelError>)
    ensures
        resolve_post(
            specifier@,
            models_dir@,
            auto_download,
            specifier_exists,
            artifact_exists,
            dir_create is Ok,
            r,
        ),
        r matches Err(ModelError::CreateDir { path, source }) ==> (dir_create matches Err(cause)
            && source@ == cause@ && path@ == models_dir@),
{
    // An existing path wins, even over a preset alias
    if specifier_exists {
        return Ok(specifier.to_owned());
    }
    match ModelPreset::from_str(specifier) {
        None => Err(ModelError::UnknownPreset(specifier.to_owned())),
        Some(preset) => {
            let local = preset.local_path(models_dir);
            if artifact_exists {
                Ok(local)
            } else if !auto_download {
                Err(ModelError::NotFound(local))
            } else {
                // The expected path is handed back once the directory is in
                // place; the download itself is the caller's explicit next
                // step.
                match dir_create {
                    Ok(()) => Ok(local),
                    Err(cause) => Err(
                        ModelError::CreateDir { path: models_dir.to_owned(), source: cause },
                    ),
                }
            }
        },
    }
}

/// Ensure a directory exists before writing into it: an entry already
/// present is left alone, a missing one is created with all parents. The
/// result is the filesystem's own answer, so nothing is assumed of it.
pub fn ensure_dir<D: CacheFs>(path: &str, fs: &mut D) -> Result<(), String> {
    if fs.entry_exists(path) {
        Ok(())
    } else {
        fs.create_dir_recursive(path)
    }
}

/// Resolve a model specifier to a local path.
///
/// In order, first match wins: a specifier naming an existing filesystem
/// entry is returned verbatim, even if its text collides with a preset
/// alias; an unrecognized specifier fails with `UnknownPreset`; a known
/// preset whose artifact is present resolves to its canonical path; an
/// absent artifact fails with `NotFound` unless `auto_download` is set, in
/// which case the models directory is created if missing and the expected
/// (not yet materialized) canonical path is returned. Resolution never
/// performs network I/O; fetching the artifact is a separate, explicit step.
///
/// The branch logic is [`resolve_decision`], whose contract pins the
/// outcome for each combination of filesystem answers; this function only
/// gathers those answers, asking the filesystem no more than the decision
/// needs.
pub fn resolve_model_path<D: CacheFs>(
    specifier: &str,
    models_dir: &str,
    auto_download: bool,
    fs: &mut D,
) -> (r: Result<String, ModelError>)
    ensures
        exists|se: bool, ae: bool, dr: bool|
            resolve_post(specifier@, models_dir@, auto_download, se, ae, dr, r),
{
    let specifier_exists = fs.entry_exists(specifier);
    let mut artifact_exists = false;
    let mut dir_create: Result<(), String> = Ok(());
    if !specifier_exists {
        if let Some(preset) = ModelPreset::from_str(specifier) {
            let local = preset.local_path(models_dir);
            artifact_exists = fs.entry_exists(local.as_str());
            if !artifact_exists && auto_download {
                dir_create = ensure_dir(models_dir, fs);
            }
        }
    }
    let ghost dir_ready: bool = dir_create is Ok;
    let r = resolve_decision(
        specifier,
        models_dir,
        auto_download,
        specifier_exists,
        artifact_exists,
        dir_create,
    );
    proof {
        assert(resolve_post(
            specifier@,
            models_dir@,
            auto_download,
            specifier_exists,
            artifact_exists,
            dir_ready,
            r,
        ));
    }
    r
}


/// A specifier that names an existing filesystem entry resolves to itself,
/// whatever the catalog would say of its text.
pub proof fn lemma_existing_path_wins(
    specifier: Seq<char>,
    models_dir: Seq<char>,
    auto_download: bool,
    ae: bool,
    dr: bool,
    r: Result<String, ModelError>,
)
    requires
        resolve_post(specifier, models_dir, auto_download, true, ae, dr, r),
    ensures
        r matches Ok(p) && p@ == specifier,
{
}

/// Without auto-download, a known preset whose artifact is absent fails
/// with `NotFound` naming exactly the canonical path the artifact would
/// occupy.
pub proof fn lemma_absent_artifact_is_not_found(
    specifier: Seq<char>,
    models_dir: Seq<char>,
    preset: ModelPreset,
    dr: bool,
    r: Result<String, ModelError>,
)
    requires
        spec_parse(lower_seq(specifier)) == Some(preset),
        resolve_post(specifier, models_dir, false, false, false, dr, r),
    ensures
        r matches Err(ModelError::NotFound(p)) && p@ == spec_join(
            models_dir,
            spec_filename(preset),
        ),
{
}

/// With auto-download, a known preset whose artifact is absent never fails
/// with `NotFound`: once the models directory exists or could be created
/// the resolver hands back the expected canonical path, and otherwise it
/// reports the directory failure, naming the directory.
pub proof fn lemma_auto_download_yields_expected_path(
    specifier: Seq<char>,
    models_dir: Seq<char>,
    preset: ModelPreset,
    dr: bool,
    r: Result<String, ModelError>,
)
    requires
        spec_parse(lower_seq(specifier)) == Some(preset),
        resolve_post(specifier, models_dir, true, false, false, dr, r),
    ensures
        dr ==> (r matches Ok(p) && p@ == spec_join(models_dir, spec_filename(preset))),
        !dr ==> (r matches Err(ModelError::CreateDir { path, source: _ }) && path@ == models_dir),
{
}

} // verus!

