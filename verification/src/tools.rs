//! Interactive selection and window capture through ordered chains of
//! external tools. The policy — which tools a platform tries, in what
//! order, when the chain stops, and what each ending means — is decided
//! and verified here; actually spawning a process is the caller's job,
//! behind the narrow `ToolRunner` capability.

use vstd::prelude::*;

use crate::config::Config;
use crate::config::Platform;
use crate::error::ScreenshotError;
use crate::path::compose_filename;
use crate::path::format_now;
use crate::path::join_path;
use crate::path::path_exists;
use crate::path::spec_composed;
use crate::path::spec_join;
use crate::path::template_ok;

verus! {

/// The two tool-driven capture modes; fullscreen capture never goes
/// through a tool chain.
#[derive(Debug, Clone, Copy, PartialEq, Eq, Structural)]
pub enum ToolMode {
    Selection,
    Window,
}

/// One external tool invocation: the program and its fixed arguments. The
/// destination path is handed to the runner separately and comes last on
/// the command line.
#[derive(Debug)]
pub struct ToolSpec {
    pub program: String,
    pub args: Vec<String>,
}

/// What one tool attempt came to: the process could not be launched (with
/// the launcher's error text), it ran and reported failure, or it ran and
/// reported success.
#[derive(Debug)]
pub enum ToolOutcome {
    LaunchFailed(String),
    ExitFailure,
    ExitSuccess,
}

/// How a whole chain ended: some tool reported success, every tool ran and
/// failed, or the chain's last attempt could not even be launched.
#[derive(Debug)]
pub enum ChainVerdict {
    Succeeded,
    Exhausted,
    LaunchErrored(String),
}

/// The capability through which external tools are run: the library
/// decides the fallback policy, the caller performs the invocation and
/// reports what the process came to.
pub trait ToolRunner {
    /// Runs one tool with the given arguments, the destination path last.
    fn run(&mut self, program: &String, args: &Vec<String>, dest: &String) -> ToolOutcome;
}

/// The filename prefix of each tool-driven mode.
pub open spec fn spec_mode_prefix(mode: ToolMode) -> Seq<char> {
    match mode {
        ToolMode::Selection => "selection"@,
        ToolMode::Window => "window"@,
    }
}

/// How many tools each platform's chain holds for each mode; zero means
/// the combination is unsupported.
pub open spec fn spec_chain_len(platform: Platform, mode: ToolMode) -> nat {
    match (platform, mode) {
        (Platform::Linux, ToolMode::Selection) => 4,
        (Platform::Linux, ToolMode::Window) => 1,
        (Platform::MacOs, ToolMode::Selection) => 1,
        (Platform::MacOs, ToolMode::Window) => 1,
        _ => 0,
    }
}

/// The message a failed capture of each mode carries.
pub open spec fn spec_failed_message(mode: ToolMode) -> Seq<char> {
    match mode {
        ToolMode::Selection => "Selection capture failed"@,
        ToolMode::Window => "Window capture failed"@,
    }
}

/// The message an unsupported platform reports for each mode.
pub open spec fn spec_unsupported_message(mode: ToolMode) -> Seq<char> {
    match mode {
        ToolMode::Selection => "Selection capture not supported on this platform"@,
        ToolMode::Window => "Window capture not supported on this platform"@,
    }
}

fn mode_prefix(mode: ToolMode) -> (r: &'static str)
    ensures
        r@ == spec_mode_prefix(mode),
{
    match mode {
        ToolMode::Selection => "selection",
        ToolMode::Window => "window",
    }
}

fn tool(program: &str) -> (t: ToolSpec)
    ensures
        t.program@ == program@,
        t.args@.len() == 0,
{
    ToolSpec { program: program.to_owned(), args: Vec::new() }
}

fn tool1(program: &str, a0: &str) -> (t: ToolSpec)
    ensures
        t.program@ == program@,
        t.args@.len() == 1 && t.args@[0]@ == a0@,
{
    let mut args: Vec<String> = Vec::new();
    args.push(a0.to_owned());
    ToolSpec { program: program.to_owned(), args }
}

fn tool2(program: &str, a0: &str, a1: &str) -> (t: ToolSpec)
    ensures
        t.program@ == program@,
        t.args@.len() == 2 && t.args@[0]@ == a0@ && t.args@[1]@ == a1@,
{
    let mut args: Vec<String> = Vec::new();
    args.push(a0.to_owned());
    args.push(a1.to_owned());
    ToolSpec { program: program.to_owned(), args }
}

fn tool3(program: &str, a0: &str, a1: &str, a2: &str) -> (t: ToolSpec)
    ensures
        t.program@ == program@,
        t.args@.len() == 3 && t.args@[0]@ == a0@ && t.args@[1]@ == a1@ && t.args@[2]@ == a2@,
{
    let mut args: Vec<String> = Vec::new();
    args.push(a0.to_owned());
    args.push(a1.to_owned());
    args.push(a2.to_owned());
    ToolSpec { program: program.to_owned(), args }
}

/// The ordered fallback chain for one platform and mode, fixed at build
/// time. Selection on Linux tries maim, scrot and import — all without a
/// visual flash — before falling back to gnome-screenshot; window capture
/// on Linux is gnome-screenshot alone. On macOS each mode is the native
/// screencapture utility with flags picking the mode and suppressing sound
/// and shadow. Windows and every other platform have no chain for either
/// mode and are therefore unsupported.
pub fn toolchain(platform: Platform, mode: ToolMode) -> (chain: Vec<ToolSpec>)
    ensures
        chain@.len() == spec_chain_len(platform, mode),
        platform is Linux && mode is Selection ==> ({
            &&& chain@.len() == 4
            &&& chain@[0].program@ == "maim"@ && chain@[0].args@.len() == 1 && chain@[0].args@[0]@
                == "-s"@
            &&& chain@[1].program@ == "scrot"@ && chain@[1].args@.len() == 1 && chain@[1].args@[0]@
                == "-s"@
            &&& chain@[2].program@ == "import"@ && chain@[2].args@.len() == 0
            &&& chain@[3].program@ == "gnome-screenshot"@ && chain@[3].args@.len() == 2
                && chain@[3].args@[0]@ == "-a"@ && chain@[3].args@[1]@ == "-f"@
        }),
        platform is Linux && mode is Window ==> ({
            &&& chain@.len() == 1
            &&& chain@[0].program@ == "gnome-screenshot"@ && chain@[0].args@.len() == 2
                && chain@[0].args@[0]@ == "-w"@ && chain@[0].args@[1]@ == "-f"@
        }),
        platform is MacOs && mode is Selection ==> ({
            &&& chain@.len() == 1
            &&& chain@[0].program@ == "screencapture"@ && chain@[0].args@.len() == 3
                && chain@[0].args@[0]@ == "-s"@ && chain@[0].args@[1]@ == "-x"@
                && chain@[0].args@[2]@ == "-o"@
        }),
        platform is MacOs && mode is Window ==> ({
            &&& chain@.len() == 1
            &&& chain@[0].program@ == "screencapture"@ && chain@[0].args@.len() == 2
                && chain@[0].args@[0]@ == "-W"@ && chain@[0].args@[1]@ == "-x"@
        }),
        platform is Windows || platform is Other ==> chain@.len() == 0,
{
    let mut chain: Vec<ToolSpec> = Vec::new();
    match (platform, mode) {
        (Platform::Linux, ToolMode::Selection) => {
            chain.push(tool1("maim", "-s"));
            chain.push(tool1("scrot", "-s"));
            chain.push(tool("import"));
            chain.push(tool2("gnome-screenshot", "-a", "-f"));
        },
        (Platform::Linux, ToolMode::Window) => {
            chain.push(tool2("gnome-screenshot", "-w", "-f"));
        },
        (Platform::MacOs, ToolMode::Selection) => {
            chain.push(tool3("screencapture", "-s", "-x", "-o"));
        },
        (Platform::MacOs, ToolMode::Window) => {
            chain.push(tool2("screencapture", "-W", "-x"));
        },
        _ => {},
    }
    chain
}

/// The verdict a non-empty record of attempt outcomes decides: success
/// when the last attempt reported success, a launch error carrying the
/// launcher's text when the last attempt could not start, exhaustion
/// otherwise.
pub open spec fn spec_verdict(events: Seq<ToolOutcome>) -> ChainVerdict
    recommends
        events.len() > 0,
{
    match events.last() {
        ToolOutcome::ExitSuccess => ChainVerdict::Succeeded,
        ToolOutcome::LaunchFailed(m) => ChainVerdict::LaunchErrored(m),
        ToolOutcome::ExitFailure => ChainVerdict::Exhausted,
    }
}

/// Runs a non-empty fallback chain in order, stopping at the first
/// success. The ghost record of outcomes ties the verdict to what the
/// runner reported: every attempt before the last failed, the chain was
/// walked to its end unless a success stopped it, and the verdict is
/// exactly what the last outcome decides.
pub fn run_chain<R: ToolRunner>(runner: &mut R, chain: &Vec<ToolSpec>, dest: &String) -> (r: (
    ChainVerdict,
    Ghost<Seq<ToolOutcome>>,
))
    requires
        chain@.len() > 0,
    ensures
        ({
            let verdict = r.0;
            let events = r.1@;
            &&& 1 <= events.len() <= chain@.len()
            &&& forall|i: int|
                0 <= i < events.len() - 1 ==> !((#[trigger] events[i]) is ExitSuccess)
            &&& (!(events.last() is ExitSuccess) ==> events.len() == chain@.len())
            &&& verdict == spec_verdict(events)
        }),
{
    let n = chain.len();
    let mut i: usize = 0;
    let ghost mut events: Seq<ToolOutcome> = Seq::empty();
    loop
        invariant
            n == chain@.len(),
            i < n,
            events.len() == i,
            forall|j: int| 0 <= j < events.len() ==> !((#[trigger] events[j]) is ExitSuccess),
        decreases chain@.len() - i,
    {
        let outcome = runner.run(&chain[i].program, &chain[i].args, dest);
        proof {
            events = events.push(outcome);
        }
        match outcome {
            ToolOutcome::ExitSuccess => {
                return (ChainVerdict::Succeeded, Ghost(events));
            },
            ToolOutcome::LaunchFailed(m) => {
                if i + 1 == chain.len() {
                    return (ChainVerdict::LaunchErrored(m), Ghost(events));
                }
            },
            ToolOutcome::ExitFailure => {
                if i + 1 == chain.len() {
                    return (ChainVerdict::Exhausted, Ghost(events));
                }
            },
        }
        i += 1;
    }
}

/// One tool-driven capture: builds a timestamped destination inside the
/// output directory, looks up the platform's chain for the mode, runs it,
/// and accepts a reported success only when the destination actually
/// exists afterwards — a tool that misreports success is a capture
/// failure. The ghost attempt record and the ghost existence-check result
/// tie every outcome down: platforms without a chain are refused as
/// unsupported before any attempt (and a supported platform is never
/// refused so); a rejected timestamp template fails the capture before any
/// attempt; otherwise the attempts walk the chain exactly as `run_chain`
/// states, a success verdict is checked against the disk and accepted only
/// when the file is there, exhaustion is a capture failure with the mode's
/// message, and a last attempt that could not launch surfaces the
/// launcher's error verbatim.
pub fn capture_with_tools<R: ToolRunner>(
    runner: &mut R,
    platform: Platform,
    mode: ToolMode,
    config: &Config,
) -> (r: (Result<String, ScreenshotError>, Ghost<Seq<ToolOutcome>>, Ghost<Option<bool>>))
    ensures
        ({
            let res = r.0;
            let events = r.1@;
            let checked = r.2@;
            &&& (platform is Windows || platform is Other ==> (res matches Err(e) && e matches
            ScreenshotError::PlatformNotSupported(m) && m@ == spec_unsupported_message(mode))
                && events.len() == 0 && checked is None)
            &&& (res matches Ok(p) ==> ((platform is Linux || platform is MacOs) && exists|
                stamp: Seq<char>,
            |
                p@ == spec_join(
                    config.output_directory@,
                    spec_composed(spec_mode_prefix(mode), stamp, config.default_format@),
                )))
            &&& (res matches Err(e) ==> (e is PlatformNotSupported || e is CaptureFailed
                || e is ExternalCommandFailed))
            &&& (platform is Linux || platform is MacOs ==> {
                &&& (res matches Err(e) ==> !(e is PlatformNotSupported))
                &&& (!template_ok("%Y%m%d_%H%M%S"@) ==> (res matches Err(e) && e matches
                ScreenshotError::CaptureFailed(m) && m@ == spec_failed_message(mode))
                    && events.len() == 0 && checked is None)
                &&& (template_ok("%Y%m%d_%H%M%S"@) ==> {
                    &&& 1 <= events.len() <= spec_chain_len(platform, mode)
                    &&& (forall|i: int|
                        0 <= i < events.len() - 1 ==> !((#[trigger] events[i]) is ExitSuccess))
                    &&& (!(events.last() is ExitSuccess) ==> events.len() == spec_chain_len(
                        platform,
                        mode,
                    ))
                    &&& (match spec_verdict(events) {
                        ChainVerdict::Succeeded => {
                            &&& checked matches Some(found)
                            &&& (checked == Some(true) ==> res is Ok)
                            &&& (checked == Some(false) ==> (res matches Err(e) && e matches
                            ScreenshotError::CaptureFailed(m) && m@ == spec_failed_message(mode)))
                        },
                        ChainVerdict::Exhausted => (res matches Err(e) && e matches
                        ScreenshotError::CaptureFailed(m) && m@ == spec_failed_message(mode))
                            && checked is None,
                        ChainVerdict::LaunchErrored(m) => (res matches Err(e) && e matches
                        ScreenshotError::ExternalCommandFailed(mm) && mm == m)
                            && checked is None,
                    })
                })
            })
        }),
{
    let chain = toolchain(platform, mode);
    let failed_message = match mode {
        ToolMode::Selection => "Selection capture failed",
        ToolMode::Window => "Window capture failed",
    };
    if chain.len() == 0 {
        let unsupported = match mode {
            ToolMode::Selection => "Selection capture not supported on this platform",
            ToolMode::Window => "Window capture not supported on this platform",
        };
        return (
            Err(ScreenshotError::PlatformNotSupported(unsupported.to_owned())),
            Ghost(Seq::empty()),
            Ghost(None::<bool>),
        );
    }
    let stamp = match format_now("%Y%m%d_%H%M%S") {
        Some(s) => s,
        None => {
            return (
                Err(ScreenshotError::CaptureFailed(failed_message.to_owned())),
                Ghost(Seq::empty()),
                Ghost(None::<bool>),
            );
        },
    };
    let ghost stamp_view = stamp@;
    let filename = compose_filename(
        mode_prefix(mode),
        stamp.as_str(),
        config.default_format.as_str(),
    );
    let path = join_path(config.output_directory.as_str(), filename.as_str());
    let (verdict, events) = run_chain(runner, &chain, &path);
    match verdict {
        ChainVerdict::Succeeded => {
            if path_exists(path.as_str()) {
                (Ok(path), events, Ghost(Some(true)))
            } else {
                (
                    Err(ScreenshotError::CaptureFailed(failed_message.to_owned())),
                    events,
                    Ghost(Some(false)),
                )
            }
        },
        ChainVerdict::Exhausted => (
            Err(ScreenshotError::CaptureFailed(failed_message.to_owned())),
            events,
            Ghost(None::<bool>),
        ),
        ChainVerdict::LaunchErrored(m) => (
            Err(ScreenshotError::ExternalCommandFailed(m)),
            events,
            Ghost(None::<bool>),
        ),
    }
}

} // verus!
