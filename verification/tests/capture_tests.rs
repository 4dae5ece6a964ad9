use screenshot::config::Config;
use screenshot::config::Platform;
use screenshot::error::ScreenshotError;
use screenshot::screens::select_screen;
use screenshot::screens::summarize_batch;
use screenshot::tools::capture_with_tools;
use screenshot::tools::run_chain;
use screenshot::tools::toolchain;
use screenshot::tools::ChainVerdict;
use screenshot::tools::ToolMode;
use screenshot::tools::ToolOutcome;
use screenshot::tools::ToolRunner;

fn tool_config(dir: &str) -> Config {
    Config {
        output_directory: String::from(dir),
        default_format: String::from("png"),
        default_quality: 90,
        filename_template: String::from("screenshot_%Y%m%d_%H%M%S"),
        custom_filename: None,
        auto_open: false,
        cleanup_after_days: None,
    }
}

/// A scripted stand-in for the process spawner: hands out the prepared
/// outcomes in order and records every invocation.
struct FakeRunner {
    script: Vec<ToolOutcome>,
    calls: Vec<(String, Vec<String>, String)>,
}

impl FakeRunner {
    fn new(script: Vec<ToolOutcome>) -> FakeRunner {
        FakeRunner {
            script,
            calls: Vec::new(),
        }
    }
}

impl ToolRunner for FakeRunner {
    fn run(&mut self, program: &String, args: &Vec<String>, dest: &String) -> ToolOutcome {
        self.calls
            .push((program.clone(), args.clone(), dest.clone()));
        self.script.remove(0)
    }
}

#[test]
fn fullscreen_capture_runs_without_panicking() {
    // In an environment without a display this exercises the enumeration
    // and grab edges and must come back as an orderly error; where a
    // display exists, the artifact's destination lies in the output
    // directory.
    let dir = tempfile::tempdir().unwrap();
    let config = tool_config(dir.path().to_str().unwrap());
    let (outcome, _) = screenshot::screens::capture(0, &config);
    match outcome {
        Ok(prepared) => {
            assert!(prepared
                .path
                .starts_with(dir.path().to_str().unwrap()));
            assert!(prepared.path.ends_with(".png"));
            assert!(!prepared.bytes.is_empty());
        }
        Err(e) => {
            assert!(matches!(
                e,
                ScreenshotError::CaptureFailed(_)
                    | ScreenshotError::NoScreensFound
                    | ScreenshotError::ScreenNotFound(_)
            ));
        }
    }
}

#[test]
fn batch_capture_runs_without_panicking() {
    // Headless environments answer with an orderly enumeration failure;
    // with displays present, every artifact lies in the output directory.
    let dir = tempfile::tempdir().unwrap();
    let config = tool_config(dir.path().to_str().unwrap());
    let (outcome, _) = screenshot::screens::capture_all_screens(&config);
    match outcome {
        Ok(prepared) => {
            assert!(!prepared.is_empty());
            for p in &prepared {
                assert!(p.path.starts_with(dir.path().to_str().unwrap()));
            }
        }
        Err(e) => {
            assert!(matches!(
                e,
                ScreenshotError::CaptureFailed(_) | ScreenshotError::NoScreensFound
            ));
        }
    }
}

#[test]
fn select_screen_rejects_out_of_range_index() {
    match select_screen(2, 5) {
        Err(ScreenshotError::ScreenNotFound(i)) => assert_eq!(i, 5),
        other => panic!("expected ScreenNotFound, got {:?}", other),
    }
}

#[test]
fn select_screen_out_of_range_exit_code_is_2() {
    let e = select_screen(1, 1).unwrap_err();
    assert_eq!(e.exit_code(), 2);
}

#[test]
fn select_screen_rejects_empty_enumeration() {
    match select_screen(0, 0) {
        Err(ScreenshotError::NoScreensFound) => {}
        other => panic!("expected NoScreensFound, got {:?}", other),
    }
}

#[test]
fn select_screen_accepts_index_in_range() {
    assert!(select_screen(2, 0).is_ok());
    assert!(select_screen(2, 1).is_ok());
}

#[test]
fn batch_with_partial_success_returns_the_produced_paths() {
    let results = vec![
        Some(String::from("/tmp/a.png")),
        None,
        Some(String::from("/tmp/c.png")),
    ];
    let paths = summarize_batch(results).unwrap();
    assert_eq!(paths, vec!["/tmp/a.png", "/tmp/c.png"]);
}

#[test]
fn batch_with_total_failure_is_an_error() {
    let results: Vec<Option<String>> = vec![None, None, None];
    match summarize_batch(results) {
        Err(ScreenshotError::CaptureFailed(m)) => assert_eq!(m, "No screens captured"),
        other => panic!("expected CaptureFailed, got {:?}", other),
    }
}

#[test]
fn batch_over_no_screens_is_no_screens_found() {
    match summarize_batch(Vec::new()) {
        Err(ScreenshotError::NoScreensFound) => {}
        other => panic!("expected NoScreensFound, got {:?}", other),
    }
}

#[test]
fn linux_selection_chain_order() {
    let chain = toolchain(Platform::Linux, ToolMode::Selection);
    let programs: Vec<&str> = chain.iter().map(|t| t.program.as_str()).collect();
    assert_eq!(programs, vec!["maim", "scrot", "import", "gnome-screenshot"]);
    assert_eq!(chain[0].args, vec!["-s"]);
    assert_eq!(chain[1].args, vec!["-s"]);
    assert!(chain[2].args.is_empty());
    assert_eq!(chain[3].args, vec!["-a", "-f"]);
}

#[test]
fn linux_window_chain_is_gnome_screenshot_alone() {
    let chain = toolchain(Platform::Linux, ToolMode::Window);
    assert_eq!(chain.len(), 1);
    assert_eq!(chain[0].program, "gnome-screenshot");
    assert_eq!(chain[0].args, vec!["-w", "-f"]);
}

#[test]
fn macos_chains_use_screencapture() {
    let selection = toolchain(Platform::MacOs, ToolMode::Selection);
    assert_eq!(selection.len(), 1);
    assert_eq!(selection[0].program, "screencapture");
    assert_eq!(selection[0].args, vec!["-s", "-x", "-o"]);
    let window = toolchain(Platform::MacOs, ToolMode::Window);
    assert_eq!(window.len(), 1);
    assert_eq!(window[0].program, "screencapture");
    assert_eq!(window[0].args, vec!["-W", "-x"]);
}

#[test]
fn windows_and_other_have_no_chains() {
    assert!(toolchain(Platform::Windows, ToolMode::Selection).is_empty());
    assert!(toolchain(Platform::Windows, ToolMode::Window).is_empty());
    assert!(toolchain(Platform::Other, ToolMode::Selection).is_empty());
    assert!(toolchain(Platform::Other, ToolMode::Window).is_empty());
}

#[test]
fn run_chain_stops_at_first_success() {
    let chain = toolchain(Platform::Linux, ToolMode::Selection);
    let mut runner = FakeRunner::new(vec![ToolOutcome::ExitFailure, ToolOutcome::ExitSuccess]);
    let dest = String::from("/tmp/unused.png");
    let (verdict, _) = run_chain(&mut runner, &chain, &dest);
    assert!(matches!(verdict, ChainVerdict::Succeeded));
    assert_eq!(runner.calls.len(), 2);
    assert_eq!(runner.calls[0].0, "maim");
    assert_eq!(runner.calls[1].0, "scrot");
}

#[test]
fn run_chain_exhausts_on_all_failures() {
    let chain = toolchain(Platform::Linux, ToolMode::Selection);
    let mut runner = FakeRunner::new(vec![
        ToolOutcome::ExitFailure,
        ToolOutcome::ExitFailure,
        ToolOutcome::ExitFailure,
        ToolOutcome::ExitFailure,
    ]);
    let dest = String::from("/tmp/unused.png");
    let (verdict, _) = run_chain(&mut runner, &chain, &dest);
    assert!(matches!(verdict, ChainVerdict::Exhausted));
    assert_eq!(runner.calls.len(), 4);
}

#[test]
fn run_chain_reports_launch_error_of_last_tool() {
    let chain = toolchain(Platform::Linux, ToolMode::Selection);
    let mut runner = FakeRunner::new(vec![
        ToolOutcome::LaunchFailed(String::from("maim missing")),
        ToolOutcome::ExitFailure,
        ToolOutcome::LaunchFailed(String::from("import missing")),
        ToolOutcome::LaunchFailed(String::from("gnome-screenshot missing")),
    ]);
    let dest = String::from("/tmp/unused.png");
    let (verdict, _) = run_chain(&mut runner, &chain, &dest);
    match verdict {
        ChainVerdict::LaunchErrored(m) => assert_eq!(m, "gnome-screenshot missing"),
        other => panic!("expected LaunchErrored, got {:?}", other),
    }
}

#[test]
fn capture_with_tools_unsupported_on_windows() {
    let mut runner = FakeRunner::new(Vec::new());
    let config = tool_config("/tmp/shots");
    let (outcome, _, _) =
        capture_with_tools(&mut runner, Platform::Windows, ToolMode::Selection, &config);
    match outcome {
        Err(ScreenshotError::PlatformNotSupported(m)) => {
            assert_eq!(m, "Selection capture not supported on this platform");
        }
        other => panic!("expected PlatformNotSupported, got {:?}", other),
    }
    assert!(runner.calls.is_empty());
}

#[test]
fn capture_with_tools_unsupported_elsewhere() {
    let mut runner = FakeRunner::new(Vec::new());
    let config = tool_config("/tmp/shots");
    let (outcome, _, _) =
        capture_with_tools(&mut runner, Platform::Other, ToolMode::Window, &config);
    match outcome {
        Err(ScreenshotError::PlatformNotSupported(m)) => {
            assert_eq!(m, "Window capture not supported on this platform");
        }
        other => panic!("expected PlatformNotSupported, got {:?}", other),
    }
}

#[test]
fn capture_with_tools_walks_the_fallback_chain_in_order() {
    let dir = tempfile::tempdir().unwrap();
    let config = tool_config(dir.path().to_str().unwrap());
    let mut runner = FakeRunner::new(vec![
        ToolOutcome::ExitFailure,
        ToolOutcome::ExitFailure,
        ToolOutcome::ExitFailure,
        ToolOutcome::ExitFailure,
    ]);
    let (outcome, _, _) =
        capture_with_tools(&mut runner, Platform::Linux, ToolMode::Selection, &config);
    match outcome {
        Err(ScreenshotError::CaptureFailed(m)) => assert_eq!(m, "Selection capture failed"),
        other => panic!("expected CaptureFailed, got {:?}", other),
    }
    let programs: Vec<&str> = runner.calls.iter().map(|c| c.0.as_str()).collect();
    assert_eq!(programs, vec!["maim", "scrot", "import", "gnome-screenshot"]);
    // Every attempt was pointed at the same destination, inside the
    // configured directory, with the mode's prefix and the configured
    // extension.
    let dest = &runner.calls[0].2;
    assert!(runner.calls.iter().all(|c| &c.2 == dest));
    assert!(dest.starts_with(&format!("{}/selection_", dir.path().to_str().unwrap())));
    assert!(dest.ends_with(".png"));
}

#[test]
fn capture_with_tools_distrusts_misreported_success() {
    // The tool claims success but writes nothing: the capture must fail.
    let dir = tempfile::tempdir().unwrap();
    let config = tool_config(dir.path().to_str().unwrap());
    let mut runner = FakeRunner::new(vec![ToolOutcome::ExitSuccess]);
    let (outcome, _, _) =
        capture_with_tools(&mut runner, Platform::MacOs, ToolMode::Window, &config);
    match outcome {
        Err(ScreenshotError::CaptureFailed(m)) => assert_eq!(m, "Window capture failed"),
        other => panic!("expected CaptureFailed, got {:?}", other),
    }
    assert_eq!(runner.calls.len(), 1);
    assert_eq!(runner.calls[0].0, "screencapture");
}

#[test]
fn capture_with_tools_surfaces_launch_error() {
    let dir = tempfile::tempdir().unwrap();
    let config = tool_config(dir.path().to_str().unwrap());
    let mut runner = FakeRunner::new(vec![ToolOutcome::LaunchFailed(String::from(
        "screencapture missing",
    ))]);
    let (outcome, _, _) =
        capture_with_tools(&mut runner, Platform::MacOs, ToolMode::Selection, &config);
    match outcome {
        Err(ScreenshotError::ExternalCommandFailed(m)) => {
            assert_eq!(m, "screencapture missing");
        }
        other => panic!("expected ExternalCommandFailed, got {:?}", other),
    }
}
