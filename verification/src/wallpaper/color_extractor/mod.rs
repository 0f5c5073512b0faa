//! Color extraction from wallpaper images with wallust, matugen or pywal.
//!
//! An extraction is a short exchange with the outside world: run a tool, look at its
//! exit status and stderr, maybe prepare files, run again, save output. The modules
//! here decide that exchange: given what has happened so far (`Progress`), each says
//! what to do next (`Action`). Running the commands and touching files is left to the
//! caller, which hands back what happened.
use vstd::prelude::*;
use vstd::utf8::*;

use crate::text::{str_eq, trim, trim_spec, strings_view};
use crate::wallpaper::color_extractor::wallust::ConfigStep;
use crate::wallpaper::error::Error;

pub mod matugen;
pub mod pywal;
pub mod wallust;

verus! {

/// External tool used for extracting colors from wallpaper images.
#[derive(Debug, Clone, Copy, PartialEq, Eq)]
pub enum ColorExtractor {
    /// Use wallust for color extraction.
    Wallust,
    /// Use matugen for Material You colors.
    Matugen,
    /// Use pywal for color extraction.
    Pywal,
    /// Disable color extraction.
    Disabled,
}

impl Default for ColorExtractor {
    fn default() -> (res: Self)
        ensures
            res == ColorExtractor::Wallust,
    {
        ColorExtractor::Wallust
    }
}

/// The lowercase name of an extractor.
pub open spec fn extractor_name(e: ColorExtractor) -> Seq<char> {
    match e {
        ColorExtractor::Wallust => "wallust"@,
        ColorExtractor::Matugen => "matugen"@,
        ColorExtractor::Pywal => "pywal"@,
        ColorExtractor::Disabled => "none"@,
    }
}

/// The extractor that a lowercased name selects: the four names, plus `wal` for pywal
/// and `disabled` for none.
pub open spec fn extractor_for_name(lower: Seq<char>) -> Option<ColorExtractor> {
    if lower == "wallust"@ {
        Some(ColorExtractor::Wallust)
    } else if lower == "matugen"@ {
        Some(ColorExtractor::Matugen)
    } else if lower == "pywal"@ || lower == "wal"@ {
        Some(ColorExtractor::Pywal)
    } else if lower == "none"@ || lower == "disabled"@ {
        Some(ColorExtractor::Disabled)
    } else {
        None
    }
}

/// What `str::to_lowercase` returns for `s` (Unicode lowercase mapping).
pub uninterp spec fn lowercase(s: Seq<char>) -> Seq<char>;

/// All characters are ASCII.
pub open spec fn is_ascii_text(s: Seq<char>) -> bool {
    forall|i: int| 0 <= i < s.len() ==> (s[i] as u32) < 128
}

/// An ASCII letter's lowercase form; other characters unchanged.
pub open spec fn ascii_lower(c: char) -> char {
    if 'A' <= c && c <= 'Z' {
        ((c as u32) + 32) as char
    } else {
        c
    }
}

/// Lowercase ASCII text, letter by letter.
pub open spec fn ascii_lowercase(s: Seq<char>) -> Seq<char> {
    s.map_values(|c: char| ascii_lower(c))
}

/// Calls `str::to_lowercase`. Claims that the result is `lowercase(s)`, and, as Unicode
/// lowercasing does, that ASCII text is lowercased letter by letter (`A`-`Z` to `a`-`z`,
/// all other ASCII characters unchanged).
#[verifier::external_body]
fn to_lowercase(s: &str) -> (res: String)
    ensures
        res@ == lowercase(s@),
        is_ascii_text(s@) ==> res@ == ascii_lowercase(s@),
{
    s.to_lowercase()
}

impl ColorExtractor {
    /// The extractor's name, as displayed.
    pub fn as_str(&self) -> (res: &'static str)
        ensures
            res@ == extractor_name(*self),
    {
        match self {
            ColorExtractor::Wallust => "wallust",
            ColorExtractor::Matugen => "matugen",
            ColorExtractor::Pywal => "pywal",
            ColorExtractor::Disabled => "none",
        }
    }

    /// Reads an extractor name, ignoring case.
    pub fn parse(s: &str) -> (res: Result<ColorExtractor, String>)
        ensures
            match extractor_for_name(lowercase(s@)) {
                Some(e) => res == Ok::<ColorExtractor, String>(e),
                None => res matches Err(m) && m@ == "Invalid color extractor: "@ + s@,
            },
            is_ascii_text(s@) ==> match extractor_for_name(ascii_lowercase(s@)) {
                Some(e) => res == Ok::<ColorExtractor, String>(e),
                None => res is Err,
            },
    {
        let lower = to_lowercase(s);
        let l = lower.as_str();
        if str_eq(l, "wallust") {
            Ok(ColorExtractor::Wallust)
        } else if str_eq(l, "matugen") {
            Ok(ColorExtractor::Matugen)
        } else if str_eq(l, "pywal") || str_eq(l, "wal") {
            Ok(ColorExtractor::Pywal)
        } else if str_eq(l, "none") || str_eq(l, "disabled") {
            Ok(ColorExtractor::Disabled)
        } else {
            let mut m = String::from_str("Invalid color extractor: ");
            m.append(s);
            Err(m)
        }
    }

    /// The next step of extracting colors from `image_path` with this extractor, given
    /// what has happened so far. With `None` there is nothing to do.
    pub fn extract(self, image_path: &str, progress: Progress) -> (res: Action)
        ensures
            match self {
                ColorExtractor::Disabled => finishes_ok(res),
                ColorExtractor::Wallust => wallust::extract_spec(image_path@, progress, res),
                ColorExtractor::Matugen => matugen::extract_spec(image_path@, progress, res),
                ColorExtractor::Pywal => pywal::extract_spec(image_path@, progress, res),
            },
    {
        match self {
            ColorExtractor::Disabled => Action::Finish(Ok(())),
            ColorExtractor::Wallust => wallust::extract(image_path, progress),
            ColorExtractor::Matugen => matugen::extract(image_path, progress),
            ColorExtractor::Pywal => pywal::extract(image_path, progress),
        }
    }
}

impl std::str::FromStr for ColorExtractor {
    type Err = String;

    /// Reads an extractor name, ignoring case, as `ColorExtractor::parse` does.
    fn from_str(s: &str) -> (res: Result<Self, Self::Err>)
        ensures
            match extractor_for_name(lowercase(s@)) {
                Some(e) => res == Ok::<ColorExtractor, String>(e),
                None => res matches Err(m) && m@ == "Invalid color extractor: "@ + s@,
            },
            is_ascii_text(s@) ==> match extractor_for_name(ascii_lowercase(s@)) {
                Some(e) => res == Ok::<ColorExtractor, String>(e),
                None => res is Err,
            },
    {
        ColorExtractor::parse(s)
    }
}

/// A tool run during extraction, named in error messages.
#[derive(Debug, Clone, Copy, PartialEq, Eq)]
pub enum Tool {
    Pywal,
    Matugen,
    Wallust,
    WallustTemplates,
}

/// The name of a tool in error messages.
pub open spec fn tool_name(t: Tool) -> Seq<char> {
    match t {
        Tool::Pywal => "pywal"@,
        Tool::Matugen => "matugen"@,
        Tool::Wallust => "wallust"@,
        Tool::WallustTemplates => "wallust (wayle templates)"@,
    }
}

/// What a finished command reported.
#[derive(Debug, Clone, PartialEq, Eq)]
pub struct ToolOutput {
    /// The exit status was success.
    pub success: bool,
    /// Bytes written to stdout.
    pub stdout: Vec<u8>,
    /// Bytes written to stderr.
    pub stderr: Vec<u8>,
}

/// What `String::from_utf8_lossy` returns for `bytes`.
pub uninterp spec fn utf8_lossy(bytes: Seq<u8>) -> Seq<char>;

/// Calls `String::from_utf8_lossy`. Claims that the result is `utf8_lossy(bytes)`, and,
/// as its documentation says, that valid UTF-8 is decoded unchanged.
#[verifier::external_body]
fn from_utf8_lossy(bytes: &[u8]) -> (res: String)
    ensures
        res@ == utf8_lossy(bytes@),
        valid_utf8(bytes@) ==> res@ == decode_utf8(bytes@),
{
    String::from_utf8_lossy(bytes).into_owned()
}

/// The failure reason reported for a failed run: its stderr as text, trimmed.
pub open spec fn failure_reason(output: ToolOutput) -> Seq<char> {
    trim_spec(utf8_lossy(output.stderr@))
}

/// `e` reports that the command of `tool` could not be started, for `source`.
pub open spec fn is_command_failure(e: Error, tool: Tool, source: std::io::Error) -> bool {
    e matches Error::ColorExtractionCommandFailed { tool: t, source: s } && t@ == tool_name(tool)
        && s == source
}

/// `e` reports that `tool` failed with `output`.
pub open spec fn is_tool_failure(e: Error, tool: Tool, output: ToolOutput) -> bool {
    e matches Error::ColorExtractionFailed { tool: t, reason } && t@ == tool_name(tool)
        && reason@ == failure_reason(output)
}

impl Tool {
    /// The tool's name in error messages.
    pub fn name(self) -> (res: &'static str)
        ensures
            res@ == tool_name(self),
    {
        match self {
            Tool::Pywal => "pywal",
            Tool::Matugen => "matugen",
            Tool::Wallust => "wallust",
            Tool::WallustTemplates => "wallust (wayle templates)",
        }
    }

    /// The error for a command of this tool that could not be started.
    pub fn command_failed(self, source: std::io::Error) -> (res: Error)
        ensures
            is_command_failure(res, self, source),
    {
        Error::ColorExtractionCommandFailed { tool: String::from_str(self.name()), source }
    }

    /// Succeeds when the command succeeded; else reports the tool and its trimmed stderr.
    pub fn check_success(self, output: &ToolOutput) -> (res: Result<(), Error>)
        ensures
            output.success ==> res is Ok,
            !output.success ==> (res matches Err(e) && is_tool_failure(e, self, *output)),
    {
        if output.success {
            return Ok(());
        }
        let stderr = from_utf8_lossy(output.stderr.as_slice());
        let reason = trim(stderr.as_str());
        Err(Error::ColorExtractionFailed { tool: String::from_str(self.name()), reason })
    }
}

/// A command to run: program name and arguments.
#[derive(Debug, Clone, PartialEq, Eq)]
pub struct Invocation {
    pub program: String,
    pub args: Vec<String>,
}

/// What has happened so far in an extraction.
#[derive(Debug)]
pub enum Progress {
    /// Nothing yet.
    Start,
    /// The command of `tool` ran and reported `output`.
    Ran { tool: Tool, output: ToolOutput },
    /// The command of `tool` could not be started, for `source`.
    CouldNotRun { tool: Tool, source: std::io::Error },
    /// Putting Wayle's wallust configuration in place stopped at `step`, for `source`.
    ConfigFailed { step: ConfigStep, source: std::io::Error },
    /// Wayle's wallust configuration and templates are in place at these paths.
    ConfigReady { config: String, templates_dir: String },
}

/// What to do next in an extraction.
#[derive(Debug)]
pub enum Action {
    /// Run a command for `tool` and report its output.
    Run { tool: Tool, invocation: Invocation },
    /// Write Wayle's wallust configuration and template, and report their paths.
    EnsureWallustConfig,
    /// Save these bytes as matugen's colors to Wayle's cache (a failure to save is only
    /// logged); the extraction is then complete.
    SaveMatugenColors(Vec<u8>),
    /// The extraction is over, with this result.
    Finish(Result<(), Error>),
}

/// `a` ends the extraction successfully.
pub open spec fn finishes_ok(a: Action) -> bool {
    a matches Action::Finish(Ok(()))
}

/// `a` runs `program args` for `tool`.
pub open spec fn runs(a: Action, tool: Tool, program: Seq<char>, args: Seq<Seq<char>>) -> bool {
    a matches Action::Run { tool: t, invocation } && t == tool && invocation.program@ == program
        && strings_view(invocation.args@) == args
}

/// `a` ends the extraction reporting that the command of `tool` could not be started.
pub open spec fn finishes_unstarted(a: Action, tool: Tool, source: std::io::Error) -> bool {
    a matches Action::Finish(Err(e)) && is_command_failure(e, tool, source)
}

/// `a` ends the extraction reporting that `tool` failed with `output`.
pub open spec fn finishes_with_failure(a: Action, tool: Tool, output: ToolOutput) -> bool {
    a matches Action::Finish(Err(e)) && is_tool_failure(e, tool, output)
}

/// Every extractor's displayed name reads back as that extractor, whatever the case
/// of its letters: the names are lowercase ASCII.
pub proof fn lemma_name_roundtrip(e: ColorExtractor)
    ensures
        is_ascii_text(extractor_name(e)),
        ascii_lowercase(extractor_name(e)) == extractor_name(e),
        extractor_for_name(extractor_name(e)) == Some(e),
{
    reveal_strlit("wallust");
    reveal_strlit("matugen");
    reveal_strlit("pywal");
    reveal_strlit("wal");
    reveal_strlit("none");
    reveal_strlit("disabled");
    let n = extractor_name(e);
    assert(ascii_lowercase(n) =~= n);
    assert("wallust"@ != "matugen"@) by {
        assert("wallust"@[0] != "matugen"@[0]);
    }
    assert("pywal"@ != "wallust"@ && "pywal"@ != "matugen"@) by {
        assert("pywal"@[0] != "wallust"@[0]);
        assert("pywal"@[0] != "matugen"@[0]);
    }
    assert("none"@ != "wallust"@ && "none"@ != "matugen"@ && "none"@ != "pywal"@ && "none"@ != "wal"@) by {
        assert("none"@[0] != "wallust"@[0]);
        assert("none"@[0] != "matugen"@[0]);
        assert("none"@[0] != "pywal"@[0]);
        assert("none"@[0] != "wal"@[0]);
    }
    assert("wal"@ != "wallust"@ && "wal"@ != "matugen"@) by {
        assert("wal"@.len() != "wallust"@.len());
        assert("wal"@[0] != "matugen"@[0]);
    }
}

} // verus!
