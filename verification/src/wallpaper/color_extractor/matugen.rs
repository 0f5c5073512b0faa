//! Matugen color extraction (Material You colors).
use vstd::prelude::*;

use crate::text::strings_view;
use crate::wallpaper::color_extractor::{
    Action, Invocation, Progress, Tool, finishes_ok, finishes_unstarted, finishes_with_failure, runs,
};

verus! {

/// Matugen CLI arguments.
#[derive(Debug, Clone, Copy, PartialEq, Eq)]
pub enum Arg<'a> {
    /// `image <path>` - Extract colors from the specified image.
    Image(&'a str),
    /// `--json <format>` - Output JSON in specified format.
    Json(&'static str),
}

impl Arg<'_> {
    /// The command-line words of this argument.
    pub open spec fn words(&self) -> Seq<Seq<char>> {
        match self {
            Arg::Image(p) => seq!["image"@, p@],
            Arg::Json(p) => seq!["--json"@, p@],
        }
    }

    /// Appends this argument's words to a command line.
    fn apply(&self, args: &mut Vec<String>)
        ensures
            strings_view(final(args)@) == strings_view(old(args)@) + self.words(),
    {
        let ghost before = strings_view(args@);
        match self {
            Arg::Image(p) => {
                args.push(String::from_str("image"));
                args.push(String::from_str(p));
            },
            Arg::Json(p) => {
                args.push(String::from_str("--json"));
                args.push(String::from_str(p));
            },
        }
        assert(strings_view(args@) =~= before + self.words());
    }
}

/// The words of a list of arguments, in order.
pub open spec fn words_of(args: Seq<Arg>) -> Seq<Seq<char>>
    decreases args.len(),
{
    if args.len() == 0 {
        Seq::empty()
    } else {
        words_of(args.drop_last()) + args.last().words()
    }
}

/// The `matugen` command with these arguments.
fn run(args: &[Arg]) -> (res: Invocation)
    ensures
        res.program@ == "matugen"@,
        strings_view(res.args@) == words_of(args@),
{
    let mut words: Vec<String> = Vec::new();
    let mut i: usize = 0;
    while i < args.len()
        invariant
            i <= args@.len(),
            strings_view(words@) == words_of(args@.take(i as int)),
        decreases args.len() - i,
    {
        args[i].apply(&mut words);
        assert(args@.take(i + 1).drop_last() =~= args@.take(i as int));
        i = i + 1;
    }
    assert(args@.take(args@.len() as int) =~= args@);
    Invocation { program: String::from_str("matugen"), args: words }
}


/// What the matugen extraction does at each step: run `matugen image <path> --json hex`; if it fails, stop with the failure; else save its stdout as the colors and finish. A command that could not be started ends it with an error naming the tool. An event this exchange never asks for leaves nothing to do.
pub open spec fn extract_spec(image_path: Seq<char>, progress: Progress, res: Action) -> bool {
    match progress {
        Progress::Start => runs(res, Tool::Matugen, "matugen"@, seq!["image"@, image_path, "--json"@, "hex"@]),
        Progress::Ran { output, .. } => if output.success {
            res matches Action::SaveMatugenColors(bytes) && bytes@ == output.stdout@
        } else {
            finishes_with_failure(res, Tool::Matugen, output)
        },
        Progress::CouldNotRun { source, .. } => finishes_unstarted(res, Tool::Matugen, source),
        Progress::ConfigReady { .. } | Progress::ConfigFailed { .. } => finishes_ok(res),
    }
}

/// Runs matugen color extraction on the given image: the next step, given what has
/// happened so far. The JSON output is saved to Wayle's cache for the styling to consume.
pub fn extract(image_path: &str, progress: Progress) -> (res: Action)
    ensures
        extract_spec(image_path@, progress, res),
{
    match progress {
        Progress::Start => {
            let args = [Arg::Image(image_path), Arg::Json("hex")];
            let invocation = run(&args);
            assert(words_of(args@) =~= seq!["image"@, image_path@, "--json"@, "hex"@]) by {
                reveal_with_fuel(words_of, 4);
                assert(args@.drop_last() =~= seq![Arg::Image(image_path)]);
                assert(args@.drop_last().drop_last() =~= Seq::<Arg>::empty());
            }
            Action::Run { tool: Tool::Matugen, invocation }
        },
        Progress::Ran { output, .. } => match Tool::Matugen.check_success(&output) {
            Ok(()) => Action::SaveMatugenColors(output.stdout),
            Err(e) => Action::Finish(Err(e)),
        },
        Progress::CouldNotRun { source, .. } => Action::Finish(Err(Tool::Matugen.command_failed(source))),
        Progress::ConfigReady { .. } | Progress::ConfigFailed { .. } => Action::Finish(Ok(())),
    }
}

} // verus!
