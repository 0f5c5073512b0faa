use std::time::Duration;

use wayle::wallpaper::color_extractor::wallust::{wallust_config, ConfigStep, COLORS_TEMPLATE};
use wayle::wallpaper::color_extractor::{
    matugen, pywal, wallust, Action, ColorExtractor, Invocation, Progress, Tool, ToolOutput,
};
use wayle::wallpaper::error::Error;
use wayle::wallpaper::timer::{CyclingTimer, FireTime};

fn ok_output(stdout: &[u8]) -> ToolOutput {
    ToolOutput { success: true, stdout: stdout.to_vec(), stderr: vec![] }
}

fn failed_output(stderr: &[u8]) -> ToolOutput {
    ToolOutput { success: false, stdout: vec![], stderr: stderr.to_vec() }
}

fn invocation(action: Action) -> (Tool, Invocation) {
    match action {
        Action::Run { tool, invocation } => (tool, invocation),
        other => panic!("expected a command, got {other:?}"),
    }
}

fn words(v: &[&str]) -> Vec<String> {
    v.iter().map(|s| s.to_string()).collect()
}

fn failure(action: Action) -> (String, String) {
    match action {
        Action::Finish(Err(Error::ColorExtractionFailed { tool, reason })) => (tool, reason),
        other => panic!("expected a failure, got {other:?}"),
    }
}

#[test]
fn extractor_names() {
    assert_eq!(ColorExtractor::Wallust.as_str(), "wallust");
    assert_eq!(ColorExtractor::Matugen.as_str(), "matugen");
    assert_eq!(ColorExtractor::Pywal.as_str(), "pywal");
    assert_eq!(ColorExtractor::Disabled.as_str(), "none");
    assert_eq!(ColorExtractor::default(), ColorExtractor::Wallust);
}

#[test]
fn extractor_names_parse_ignoring_case() {
    assert_eq!("WALLUST".parse::<ColorExtractor>(), Ok(ColorExtractor::Wallust));
    assert_eq!(ColorExtractor::parse("Matugen"), Ok(ColorExtractor::Matugen));
    assert_eq!(ColorExtractor::parse("wal"), Ok(ColorExtractor::Pywal));
    assert_eq!(ColorExtractor::parse("pyWal"), Ok(ColorExtractor::Pywal));
    assert_eq!(ColorExtractor::parse("Disabled"), Ok(ColorExtractor::Disabled));
    assert_eq!(ColorExtractor::parse("none"), Ok(ColorExtractor::Disabled));
    assert_eq!(
        ColorExtractor::parse("Wallust2"),
        Err("Invalid color extractor: Wallust2".to_string())
    );
    for e in [ColorExtractor::Wallust, ColorExtractor::Matugen, ColorExtractor::Pywal, ColorExtractor::Disabled] {
        assert_eq!(ColorExtractor::parse(e.as_str()), Ok(e));
        assert_eq!(ColorExtractor::parse(&e.as_str().to_uppercase()), Ok(e));
    }
}

#[test]
fn disabled_extraction_does_nothing() {
    assert!(matches!(
        ColorExtractor::Disabled.extract("/img.png", Progress::Start),
        Action::Finish(Ok(()))
    ));
}

#[test]
fn matugen_runs_then_saves() {
    let (tool, inv) = invocation(matugen::extract("/w/a b.png", Progress::Start));
    assert_eq!(tool, Tool::Matugen);
    assert_eq!(inv.program, "matugen");
    assert_eq!(inv.args, words(&["image", "/w/a b.png", "--json", "hex"]));
    let done = matugen::extract(
        "/w/a b.png",
        Progress::Ran { tool: Tool::Matugen, output: ok_output(b"{\"colors\":1}") },
    );
    match done {
        Action::SaveMatugenColors(bytes) => assert_eq!(bytes, b"{\"colors\":1}".to_vec()),
        other => panic!("expected saving, got {other:?}"),
    }
}

#[test]
fn matugen_failure_reports_trimmed_stderr() {
    let a = ColorExtractor::Matugen.extract(
        "/x.png",
        Progress::Ran { tool: Tool::Matugen, output: failed_output(b"  \n error: no such file\n\t") },
    );
    assert_eq!(failure(a), ("matugen".to_string(), "error: no such file".to_string()));
}

#[test]
fn stderr_that_is_not_utf8_is_decoded_lossily() {
    let a = pywal::extract(
        "/x.png",
        Progress::Ran { tool: Tool::Pywal, output: failed_output(b" bad \xff byte ") },
    );
    assert_eq!(failure(a), ("pywal".to_string(), "bad \u{fffd} byte".to_string()));
    let blank = pywal::extract("/x.png", Progress::Ran { tool: Tool::Pywal, output: failed_output(b" \n ") });
    assert_eq!(failure(blank), ("pywal".to_string(), String::new()));
}

#[test]
fn pywal_runs_once() {
    let (tool, inv) = invocation(ColorExtractor::Pywal.extract("/x.png", Progress::Start));
    assert_eq!(tool, Tool::Pywal);
    assert_eq!(inv.program, "wal");
    assert_eq!(inv.args, words(&["-i", "/x.png", "-n"]));
    assert!(matches!(
        pywal::extract("/x.png", Progress::Ran { tool: Tool::Pywal, output: ok_output(b"") }),
        Action::Finish(Ok(()))
    ));
}

#[test]
fn wallust_runs_twice_around_its_config() {
    let p = "/pics/w.jpg";
    let (tool, inv) = invocation(wallust::extract(p, Progress::Start));
    assert_eq!(tool, Tool::Wallust);
    assert_eq!(inv.program, "wallust");
    assert_eq!(inv.args, words(&["run", p]));
    assert!(matches!(
        wallust::extract(p, Progress::Ran { tool: Tool::Wallust, output: ok_output(b"") }),
        Action::EnsureWallustConfig
    ));
    let (tool, inv) = invocation(wallust::extract(
        p,
        Progress::ConfigReady {
            config: "/data/wallust/wallust.toml".to_string(),
            templates_dir: "/data/wallust/templates".to_string(),
        },
    ));
    assert_eq!(tool, Tool::WallustTemplates);
    assert_eq!(
        inv.args,
        words(&["run", p, "-C", "/data/wallust/wallust.toml", "--templates-dir", "/data/wallust/templates"])
    );
    assert!(matches!(
        wallust::extract(p, Progress::Ran { tool: Tool::WallustTemplates, output: ok_output(b"") }),
        Action::Finish(Ok(()))
    ));
}

#[test]
fn wallust_failures_name_the_run() {
    let first = wallust::extract("/p", Progress::Ran { tool: Tool::Wallust, output: failed_output(b"boom") });
    assert_eq!(failure(first), ("wallust".to_string(), "boom".to_string()));
    let second = ColorExtractor::Wallust
        .extract("/p", Progress::Ran { tool: Tool::WallustTemplates, output: failed_output(b"bad template\n") });
    assert_eq!(failure(second), ("wallust (wayle templates)".to_string(), "bad template".to_string()));
}

#[test]
fn tool_names_and_checks() {
    assert_eq!(Tool::WallustTemplates.name(), "wallust (wayle templates)");
    assert_eq!(Tool::Pywal.name(), "pywal");
    assert!(Tool::Matugen.check_success(&ok_output(b"x")).is_ok());
    match Tool::Wallust.check_success(&failed_output(b"\tno image\r\n")) {
        Err(Error::ColorExtractionFailed { tool, reason }) => {
            assert_eq!(tool, "wallust");
            assert_eq!(reason, "no image");
        }
        other => panic!("expected a failure, got {other:?}"),
    }
}

#[test]
fn wallust_config_points_at_the_colors_file() {
    let cfg = wallust_config("/home/u/.cache/wayle/wallust-colors.json");
    assert_eq!(
        cfg,
        "\npalette = \"dark\"\ncheck_contrast = true\ndynamic_threshold = true\n\n[templates]\ncolors = { template = \"colors.json\", target = \"/home/u/.cache/wayle/wallust-colors.json\" }\n"
    );
    assert!(COLORS_TEMPLATE.starts_with("{\n    \"wallpaper\": \"{{wallpaper}}\",\n"));
    assert!(COLORS_TEMPLATE.ends_with("    \"color15\": \"{{color15}}\"\n}\n"));
    assert_eq!(COLORS_TEMPLATE.matches("{{color").count(), 16);
}

#[test]
fn cycling_timer_schedules_one_fire_time() {
    let mut t = CyclingTimer::new();
    assert!(!t.is_scheduled());
    assert!(t.take_fire_time().is_none());
    t.schedule(Duration::from_secs(60));
    t.schedule(Duration::from_secs(5));
    assert!(t.is_scheduled());
    assert!(t.take_fire_time().is_some());
    assert!(!t.is_scheduled());
    t.schedule(Duration::from_millis(1));
    t.cancel();
    assert!(!t.is_scheduled());
    assert!(!CyclingTimer::default().is_scheduled());
}

#[test]
fn wallpaper_errors_carry_their_details() {
    let e = Error::ImageLoadFailed { path: "/x.png".to_string(), reason: "truncated".to_string() };
    assert!(matches!(e, Error::ImageLoadFailed { ref path, .. } if path == "/x.png"));
    let io = Error::Io(std::io::Error::new(std::io::ErrorKind::NotFound, "gone"));
    assert!(matches!(io, Error::Io(ref e) if e.kind() == std::io::ErrorKind::NotFound));
}

fn not_found() -> std::io::Error {
    std::io::Error::new(std::io::ErrorKind::NotFound, "no such program")
}

fn unstarted(action: Action) -> (String, std::io::ErrorKind) {
    match action {
        Action::Finish(Err(Error::ColorExtractionCommandFailed { tool, source })) => (tool, source.kind()),
        other => panic!("expected a command that could not start, got {other:?}"),
    }
}

#[test]
fn tool_that_cannot_start_is_reported_by_name() {
    let kind = std::io::ErrorKind::NotFound;
    assert_eq!(
        unstarted(pywal::extract("/x.png", Progress::CouldNotRun { tool: Tool::Pywal, source: not_found() })),
        ("pywal".to_string(), kind)
    );
    assert_eq!(
        unstarted(matugen::extract("/x.png", Progress::CouldNotRun { tool: Tool::Matugen, source: not_found() })),
        ("matugen".to_string(), kind)
    );
    assert_eq!(
        unstarted(wallust::extract("/x.png", Progress::CouldNotRun { tool: Tool::Wallust, source: not_found() })),
        ("wallust".to_string(), kind)
    );
    assert_eq!(
        unstarted(ColorExtractor::Wallust.extract(
            "/x.png",
            Progress::CouldNotRun { tool: Tool::WallustTemplates, source: not_found() }
        )),
        ("wallust (wayle templates)".to_string(), kind)
    );
}

#[test]
fn failed_config_step_is_named() {
    let cases = [
        (ConfigStep::DataDir, "wayle data directory"),
        (ConfigStep::CreateTemplatesDir, "creating wallust templates directory"),
        (ConfigStep::ColorsOutputPath, "wallust colors output path"),
        (ConfigStep::WriteConfig, "writing wayle wallust config"),
        (ConfigStep::WriteTemplate, "writing colors.json template"),
    ];
    for (step, expected) in cases {
        let denied = std::io::Error::new(std::io::ErrorKind::PermissionDenied, "denied");
        match wallust::extract("/x.png", Progress::ConfigFailed { step, source: denied }) {
            Action::Finish(Err(Error::ConfigPathError { context, source })) => {
                assert_eq!(context, expected);
                assert_eq!(source.kind(), std::io::ErrorKind::PermissionDenied);
            }
            other => panic!("expected a config failure, got {other:?}"),
        }
    }
}

#[test]
fn rescheduling_replaces_the_fire_time() {
    let mut t = CyclingTimer::new();
    t.schedule(Duration::from_secs(3600));
    t.schedule(Duration::from_secs(5));
    match t.take_fire_time() {
        Some(FireTime::At(at)) => {
            assert!(at <= tokio::time::Instant::now() + Duration::from_secs(5));
            assert!(at > tokio::time::Instant::now());
        }
        other => panic!("expected a fire time, got {other:?}"),
    }
}

#[test]
fn unrepresentable_delay_never_fires_and_does_not_panic() {
    let mut t = CyclingTimer::new();
    t.schedule(Duration::MAX);
    assert!(t.is_scheduled());
    assert!(matches!(t.take_fire_time(), Some(FireTime::Never)));
    assert!(!t.is_scheduled());
}
