//! Pywal color extraction.
use vstd::prelude::*;

use crate::text::strings_view;
use crate::wallpaper::color_extractor::{
    Action, Invocation, Progress, Tool, finishes_ok, finishes_unstarted, finishes_with_failure, runs,
};

verus! {

/// Pywal CLI arguments.
#[derive(Debug, Clone, Copy, PartialEq, Eq)]
pub enum Arg<'a> {
    /// `-i <path>` - Image file to extract colors from.
    Image(&'a str),
    /// `-n` - Skip setting the wallpaper.
    NoWallpaper,
    /// `-s` - Skip changing colors in terminals.
    SkipTerminal,
    /// `-t` - Skip changing colors in TTY.
    SkipTty,
    /// `-e` - Skip reloading gtk/xrdb/i3/sway/polybar.
    SkipReload,
}

impl Arg<'_> {
    /// The command-line words of this argument.
    pub open spec fn words(&self) -> Seq<Seq<char>> {
        match self {
            Arg::Image(p) => seq!["-i"@, p@],
            Arg::NoWallpaper => seq!["-n"@],
            Arg::SkipTerminal => seq!["-s"@],
            Arg::SkipTty => seq!["-t"@],
            Arg::SkipReload => seq!["-e"@],
        }
    }

    /// Appends this argument's words to a command line.
    fn apply(&self, args: &mut Vec<String>)
        ensures
            strings_view(final(args)@) == strings_view(old(args)@) + self.words(),
    {
        let ghost before = strings_view(args@);
        match self {
            Arg::Image(p) => {
                args.push(String::from_str("-i"));
                args.push(String::from_str(p));
            },
            Arg::NoWallpaper => {
                args.push(String::from_str("-n"));
            },
            Arg::SkipTerminal => {
                args.push(String::from_str("-s"));
            },
            Arg::SkipTty => {
                args.push(String::from_str("-t"));
            },
            Arg::SkipReload => {
                args.push(String::from_str("-e"));
            },
        }
        assert(strings_view(args@) =~= before + self.words());
    }
}

/// The words of a list of arguments, in order.
pub open spec fn words_of(args: Seq<Arg>) -> Seq<Seq<char>>
    decreases args.len(),
{
    if args.len() == 0 {
        Seq::empty()
    } else {
        words_of(args.drop_last()) + args.last().words()
    }
}

/// The `wal` command with these arguments.
fn run(args: &[Arg]) -> (res: Invocation)
    ensures
        res.program@ == "wal"@,
        strings_view(res.args@) == words_of(args@),
{
    let mut words: Vec<String> = Vec::new();
    let mut i: usize = 0;
    while i < args.len()
        invariant
            i <= args@.len(),
            strings_view(words@) == words_of(args@.take(i as int)),
        decreases args.len() - i,
    {
        args[i].apply(&mut words);
        assert(args@.take(i + 1).drop_last() =~= args@.take(i as int));
        i = i + 1;
    }
    assert(args@.take(args@.len() as int) =~= args@);
    Invocation { program: String::from_str("wal"), args: words }
}


/// What the pywal extraction does at each step: run `wal -i <path> -n`; finish with its success or failure. A command that could not be started ends it with an error naming the tool. An event this exchange never asks for leaves nothing to do.
pub open spec fn extract_spec(image_path: Seq<char>, progress: Progress, res: Action) -> bool {
    match progress {
        Progress::Start => runs(res, Tool::Pywal, "wal"@, seq!["-i"@, image_path, "-n"@]),
        Progress::Ran { output, .. } => if output.success {
            finishes_ok(res)
        } else {
            finishes_with_failure(res, Tool::Pywal, output)
        },
        Progress::CouldNotRun { source, .. } => finishes_unstarted(res, Tool::Pywal, source),
        Progress::ConfigReady { .. } | Progress::ConfigFailed { .. } => finishes_ok(res),
    }
}

/// Runs pywal color extraction on the given image: the next step, given what has
/// happened so far. Pywal writes colors to its own cache location.
pub fn extract(image_path: &str, progress: Progress) -> (res: Action)
    ensures
        extract_spec(image_path@, progress, res),
{
    match progress {
        Progress::Start => {
            let args = [Arg::Image(image_path), Arg::NoWallpaper];
            let invocation = run(&args);
            assert(words_of(args@) =~= seq!["-i"@, image_path@, "-n"@]) by {
                reveal_with_fuel(words_of, 4);
                assert(args@.drop_last() =~= seq![Arg::Image(image_path)]);
                assert(args@.drop_last().drop_last() =~= Seq::<Arg>::empty());
            }
            Action::Run { tool: Tool::Pywal, invocation }
        },
        Progress::Ran { output, .. } => match Tool::Pywal.check_success(&output) {
            Ok(()) => Action::Finish(Ok(())),
            Err(e) => Action::Finish(Err(e)),
        },
        Progress::CouldNotRun { source, .. } => Action::Finish(Err(Tool::Pywal.command_failed(source))),
        Progress::ConfigReady { .. } | Progress::ConfigFailed { .. } => Action::Finish(Ok(())),
    }
}

} // verus!
