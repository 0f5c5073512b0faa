//! Wallust color extraction.
//!
//! Runs wallust with the user's config, then again with Wayle's config and template,
//! which writes the colors file that Wayle reads.
use vstd::prelude::*;

use crate::text::strings_view;
use crate::wallpaper::color_extractor::{
    Action, Invocation, Progress, Tool, finishes_ok, finishes_unstarted, finishes_with_failure, runs,
};
use crate::wallpaper::error::Error;

verus! {

/// The template from which wallust writes Wayle's colors file.
pub const COLORS_TEMPLATE: &'static str = "{\n    \"wallpaper\": \"{{wallpaper}}\",\n    \"background\": \"{{background}}\",\n    \"foreground\": \"{{foreground}}\",\n    \"cursor\": \"{{cursor}}\",\n    \"color0\": \"{{color0}}\",\n    \"color1\": \"{{color1}}\",\n    \"color2\": \"{{color2}}\",\n    \"color3\": \"{{color3}}\",\n    \"color4\": \"{{color4}}\",\n    \"color5\": \"{{color5}}\",\n    \"color6\": \"{{color6}}\",\n    \"color7\": \"{{color7}}\",\n    \"color8\": \"{{color8}}\",\n    \"color9\": \"{{color9}}\",\n    \"color10\": \"{{color10}}\",\n    \"color11\": \"{{color11}}\",\n    \"color12\": \"{{color12}}\",\n    \"color13\": \"{{color13}}\",\n    \"color14\": \"{{color14}}\",\n    \"color15\": \"{{color15}}\"\n}\n";

/// Wallust CLI arguments.
#[derive(Debug, Clone, Copy, PartialEq, Eq)]
pub enum Arg<'a> {
    /// `run <image>` - Run color extraction on the specified image.
    Run(&'a str),
    /// `-C <path>` - Use specified config file.
    ConfigFile(&'a str),
    /// `--templates-dir <path>` - Use specified templates directory.
    TemplatesDir(&'a str),
}

impl Arg<'_> {
    /// The command-line words of this argument.
    pub open spec fn words(&self) -> Seq<Seq<char>> {
        match self {
            Arg::Run(p) => seq!["run"@, p@],
            Arg::ConfigFile(p) => seq!["-C"@, p@],
            Arg::TemplatesDir(p) => seq!["--templates-dir"@, p@],
        }
    }

    /// Appends this argument's words to a command line.
    fn apply(&self, args: &mut Vec<String>)
        ensures
            strings_view(final(args)@) == strings_view(old(args)@) + self.words(),
    {
        let ghost before = strings_view(args@);
        match self {
            Arg::Run(p) => {
                args.push(String::from_str("run"));
                args.push(String::from_str(p));
            },
            Arg::ConfigFile(p) => {
                args.push(String::from_str("-C"));
                args.push(String::from_str(p));
            },
            Arg::TemplatesDir(p) => {
                args.push(String::from_str("--templates-dir"));
                args.push(String::from_str(p));
            },
        }
        assert(strings_view(args@) =~= before + self.words());
    }
}

/// The words of a list of arguments, in order.
pub open spec fn words_of(args: Seq<Arg>) -> Seq<Seq<char>>
    decreases args.len(),
{
    if args.len() == 0 {
        Seq::empty()
    } else {
        words_of(args.drop_last()) + args.last().words()
    }
}

/// The `wallust` command with these arguments.
fn run(args: &[Arg]) -> (res: Invocation)
    ensures
        res.program@ == "wallust"@,
        strings_view(res.args@) == words_of(args@),
{
    let mut words: Vec<String> = Vec::new();
    let mut i: usize = 0;
    while i < args.len()
        invariant
            i <= args@.len(),
            strings_view(words@) == words_of(args@.take(i as int)),
        decreases args.len() - i,
    {
        args[i].apply(&mut words);
        assert(args@.take(i + 1).drop_last() =~= args@.take(i as int));
        i = i + 1;
    }
    assert(args@.take(args@.len() as int) =~= args@);
    Invocation { program: String::from_str("wallust"), args: words }
}


/// Wayle's wallust configuration: dark palette, contrast checks, and the colors
/// template written to `colors_output`.
pub open spec fn wallust_config_spec(colors_output: Seq<char>) -> Seq<char> {
    "\npalette = \"dark\"\ncheck_contrast = true\ndynamic_threshold = true\n\n[templates]\ncolors = { template = \"colors.json\", target = \""@
        + colors_output + "\" }\n"@
}

/// A step of putting Wayle's wallust configuration in place, in the order they are taken:
/// find Wayle's data directory, create `wallust/templates` in it, find the path of the
/// colors file, write `wallust/wallust.toml`, write `wallust/templates/colors.json`.
#[derive(Debug, Clone, Copy, PartialEq, Eq)]
pub enum ConfigStep {
    DataDir,
    CreateTemplatesDir,
    ColorsOutputPath,
    WriteConfig,
    WriteTemplate,
}

/// How a failure of `step` is described.
pub open spec fn config_step_context(step: ConfigStep) -> Seq<char> {
    match step {
        ConfigStep::DataDir => "wayle data directory"@,
        ConfigStep::CreateTemplatesDir => "creating wallust templates directory"@,
        ConfigStep::ColorsOutputPath => "wallust colors output path"@,
        ConfigStep::WriteConfig => "writing wayle wallust config"@,
        ConfigStep::WriteTemplate => "writing colors.json template"@,
    }
}

/// `e` reports that putting the configuration in place failed at `step`, for `source`.
pub open spec fn is_config_failure(e: Error, step: ConfigStep, source: std::io::Error) -> bool {
    e matches Error::ConfigPathError { context, source: s } && context@ == config_step_context(step)
        && s == source
}

impl ConfigStep {
    /// How a failure of this step is described.
    pub fn context(self) -> (res: &'static str)
        ensures
            res@ == config_step_context(self),
    {
        match self {
            ConfigStep::DataDir => "wayle data directory",
            ConfigStep::CreateTemplatesDir => "creating wallust templates directory",
            ConfigStep::ColorsOutputPath => "wallust colors output path",
            ConfigStep::WriteConfig => "writing wayle wallust config",
            ConfigStep::WriteTemplate => "writing colors.json template",
        }
    }

    /// The error for a failure of this step.
    pub fn failure(self, source: std::io::Error) -> (res: Error)
        ensures
            is_config_failure(res, self, source),
    {
        Error::ConfigPathError { context: String::from_str(self.context()), source }
    }
}

/// The text of Wayle's wallust configuration for a colors file at `colors_output`.
pub fn wallust_config(colors_output: &str) -> (res: String)
    ensures
        res@ == wallust_config_spec(colors_output@),
{
    let mut s = String::from_str(
        "\npalette = \"dark\"\ncheck_contrast = true\ndynamic_threshold = true\n\n[templates]\ncolors = { template = \"colors.json\", target = \"",
    );
    s.append(colors_output);
    s.append("\" }\n");
    s
}

/// What the wallust extraction does at each step: run `wallust run <path>` (the user's
/// config and templates); if it fails, stop with the failure; else have Wayle's config
/// and template written; then run `wallust run <path> -C <config> --templates-dir <dir>`
/// and finish with its success or failure (reported as the templates run). An output
/// reported for any tool but `Wallust` counts as the templates run. A command that could
/// not be started ends the extraction with an error naming it; a configuration step
/// that failed ends it with an error naming the step.
pub open spec fn extract_spec(image_path: Seq<char>, progress: Progress, res: Action) -> bool {
    match progress {
        Progress::Start => runs(res, Tool::Wallust, "wallust"@, seq!["run"@, image_path]),
        Progress::Ran { tool, output } => if tool == Tool::Wallust {
            if output.success {
                res matches Action::EnsureWallustConfig
            } else {
                finishes_with_failure(res, Tool::Wallust, output)
            }
        } else {
            if output.success {
                finishes_ok(res)
            } else {
                finishes_with_failure(res, Tool::WallustTemplates, output)
            }
        },
        Progress::CouldNotRun { tool, source } => if tool == Tool::Wallust {
            finishes_unstarted(res, Tool::Wallust, source)
        } else {
            finishes_unstarted(res, Tool::WallustTemplates, source)
        },
        Progress::ConfigFailed { step, source } => res matches Action::Finish(Err(e))
            && is_config_failure(e, step, source),
        Progress::ConfigReady { config, templates_dir } => runs(
            res,
            Tool::WallustTemplates,
            "wallust"@,
            seq!["run"@, image_path, "-C"@, config@, "--templates-dir"@, templates_dir@],
        ),
    }
}

/// Runs wallust color extraction on the given image: the next step, given what has
/// happened so far.
pub fn extract(image_path: &str, progress: Progress) -> (res: Action)
    ensures
        extract_spec(image_path@, progress, res),
{
    match progress {
        Progress::Start => {
            let args = [Arg::Run(image_path)];
            let invocation = run(&args);
            assert(words_of(args@) =~= seq!["run"@, image_path@]) by {
                reveal_with_fuel(words_of, 4);
                assert(args@.drop_last() =~= Seq::<Arg>::empty());
            }
            Action::Run { tool: Tool::Wallust, invocation }
        },
        Progress::Ran { tool, output } => {
            match tool {
                Tool::Wallust => match Tool::Wallust.check_success(&output) {
                    Ok(()) => Action::EnsureWallustConfig,
                    Err(e) => Action::Finish(Err(e)),
                },
                _ => match Tool::WallustTemplates.check_success(&output) {
                    Ok(()) => Action::Finish(Ok(())),
                    Err(e) => Action::Finish(Err(e)),
                },
            }
        },
        Progress::CouldNotRun { tool, source } => match tool {
            Tool::Wallust => Action::Finish(Err(Tool::Wallust.command_failed(source))),
            _ => Action::Finish(Err(Tool::WallustTemplates.command_failed(source))),
        },
        Progress::ConfigFailed { step, source } => Action::Finish(Err(step.failure(source))),
        Progress::ConfigReady { config, templates_dir } => {
            let c = config.as_str();
            let t = templates_dir.as_str();
            let args = [Arg::Run(image_path), Arg::ConfigFile(c), Arg::TemplatesDir(t)];
            let invocation = run(&args);
            assert(words_of(args@) =~= seq!["run"@, image_path@, "-C"@, config@, "--templates-dir"@, templates_dir@]) by {
                reveal_with_fuel(words_of, 4);
                assert(args@.drop_last() =~= seq![Arg::Run(image_path), Arg::ConfigFile(c)]);
                assert(args@.drop_last().drop_last() =~= seq![Arg::Run(image_path)]);
                assert(args@.drop_last().drop_last().drop_last() =~= Seq::<Arg>::empty());
            }
            Action::Run { tool: Tool::WallustTemplates, invocation }
        },
    }
}

} // verus!
