//! The startup sequence: the one-shot hook that titles the main window, and
//! the hand-off to the framework's run loop.
//!
//! The framework itself (windowing, event loop, plugin internals) is outside
//! this library; what it exposes to the launcher is modelled by
//! [`FrameworkState`]: the window registry, and one injected fault for each
//! of the two framework operations that can fail (setting a title, starting
//! the run loop). Every function here is proved for every registry and every
//! fault pattern.

use vstd::prelude::*;

use crate::builder::AppBuilder;
use crate::builder::configure_builder;
use crate::window::Window;
use crate::window::WindowRegistry;
use crate::window::has_window;
use crate::window::is_first_match;
use crate::window::lemma_first_match_unique;

verus! {

/// The label under which the framework registers the main window.
pub open spec fn main_window_label() -> Seq<char> {
    "main"@
}

/// The title the startup hook gives the main window.
pub open spec fn startup_title() -> Seq<char> {
    "Watermelon Clock"@
}

/// The diagnostic carried by the fatal error when the run loop cannot start.
pub open spec fn fatal_message() -> Seq<char> {
    "error while running tauri application"@
}

/// A setup failure, as the framework would receive it from the startup hook.
/// The hook never produces one: it reports success whatever it found.
#[derive(Debug)]
pub struct SetupError;

/// Failure of the framework's run loop to start: fatal and unrecoverable.
#[derive(Debug)]
pub struct RunError;

/// What the framework state the launcher can observe looks like: the window
/// registry, and the injected faults of the two fallible framework
/// operations. The faults are inputs, never changed by the launcher.
#[derive(Debug, Clone)]
pub struct FrameworkState {
    pub registry: WindowRegistry,
    /// The title-set operation fails.
    pub title_set_fault: bool,
    /// The run loop fails to start.
    pub run_fault: bool,
}

/// How one invocation of the startup hook relates the registry `after` it to
/// the registry `before` it, under a title-set fault or not: where a window
/// labelled "main" exists and the title-set operation does not fault, the
/// first such window's title becomes the startup title and every other
/// window is untouched; otherwise the registry is unchanged. Labels are
/// never changed.
pub open spec fn hook_effect(before: Seq<Window>, after: Seq<Window>, fault: bool) -> bool {
    &&& after.len() == before.len()
    &&& forall|j: int|
        0 <= j < before.len() ==> #[trigger] after[j].label@ == before[j].label@
    &&& if has_window(before, main_window_label()) && !fault {
        exists|i: int|
            {
                &&& #[trigger] is_first_match(before, main_window_label(), i)
                &&& after[i].title@ == startup_title()
                &&& forall|j: int| 0 <= j < before.len() && j != i ==> after[j] == before[j]
            }
    } else {
        after == before
    }
}

/// The one-shot startup hook. It looks the main window up by its fixed
/// label; where one exists it sets its title to the fixed startup title,
/// best-effort: a failure of the title-set operation is deliberately
/// discarded, never escalated. The hook reports success to the framework
/// whatever happened.
pub fn startup_hook(registry: &mut WindowRegistry, title_set_fault: bool) -> (r: Result<
    (),
    SetupError,
>)
    ensures
        r is Ok,
        hook_effect(old(registry).windows@, final(registry).windows@, title_set_fault),
{
    match registry.find_window("main") {
        Some(i) => {
            // Best-effort policy: the outcome of the title-set operation is
            // deliberately discarded, so a failing main window can never
            // keep the application from launching.
            let _ = registry.set_title(i, "Watermelon Clock", title_set_fault);
        },
        None => {},
    }
    Ok(())
}

/// Starts the framework's run loop on a configured builder. Where the run
/// loop cannot start, nothing further executes and the fatal error is handed
/// back; otherwise the framework finishes its own initialization, invokes
/// the startup hook where one is installed, and a setup failure reported by
/// the hook would abort the run (the hook never reports one).
pub fn run_app(builder: AppBuilder, fw: &mut FrameworkState) -> (r: Result<(), RunError>)
    ensures
        r is Ok <==> !old(fw).run_fault,
        final(fw).title_set_fault == old(fw).title_set_fault,
        final(fw).run_fault == old(fw).run_fault,
        old(fw).run_fault ==> final(fw).registry.windows@ == old(fw).registry.windows@,
        !old(fw).run_fault && builder.setup_installed ==> hook_effect(
            old(fw).registry.windows@,
            final(fw).registry.windows@,
            old(fw).title_set_fault,
        ),
        !old(fw).run_fault && !builder.setup_installed ==> final(fw).registry.windows@ == old(
            fw,
        ).registry.windows@,
{
    if fw.run_fault {
        return Err(RunError);
    }
    if builder.setup_installed {
        let title_set_fault = fw.title_set_fault;
        match startup_hook(&mut fw.registry, title_set_fault) {
            Ok(()) => {},
            Err(_) => {
                // The hook's contract rules this out: it always reports
                // success, so setup can never abort the run.
                return Err(RunError);
            },
        }
    }
    Ok(())
}

/// The main window's label, as a value: what the startup hook passes to the
/// registry lookup.
pub fn main_window_label_value() -> (s: String)
    ensures
        s@ == main_window_label(),
{
    "main".to_owned()
}

/// The startup title, as a value: what the startup hook gives the main
/// window.
pub fn startup_title_value() -> (s: String)
    ensures
        s@ == startup_title(),
{
    "Watermelon Clock".to_owned()
}

/// The diagnostic message of the fatal error raised when the run loop
/// cannot start.
pub fn fatal_diagnostic() -> (m: String)
    ensures
        m@ == fatal_message(),
{
    "error while running tauri application".to_owned()
}

/// The whole startup sequence: assemble the builder (default configuration,
/// the one opener plugin, the startup hook), then hand control to the run
/// loop. Returns `None` where the run loop took over; where the run loop
/// cannot start, returns the fixed fatal diagnostic the process terminates
/// with, and nothing further has executed: the registry is untouched.
pub fn initialize_and_run(fw: &mut FrameworkState) -> (r: Option<String>)
    ensures
        r is Some <==> old(fw).run_fault,
        r matches Some(m) ==> m@ == fatal_message(),
        final(fw).title_set_fault == old(fw).title_set_fault,
        final(fw).run_fault == old(fw).run_fault,
        old(fw).run_fault ==> final(fw).registry.windows@ == old(fw).registry.windows@,
        !old(fw).run_fault ==> hook_effect(
            old(fw).registry.windows@,
            final(fw).registry.windows@,
            old(fw).title_set_fault,
        ),
{
    let builder = configure_builder();
    match run_app(builder, fw) {
        Ok(()) => None,
        Err(_) => Some(fatal_diagnostic()),
    }
}

/// Law: whenever the startup hook ran without a title-set fault and a window
/// labelled "main" was present, the first such window's title afterwards is
/// the startup title, whatever it was before.
pub proof fn lemma_hook_sets_main_title(
    before: Seq<Window>,
    after: Seq<Window>,
    i: int,
)
    requires
        hook_effect(before, after, false),
        is_first_match(before, main_window_label(), i),
    ensures
        after[i].title@ == startup_title(),
{
    assert(has_window(before, main_window_label()));
    let k = choose|k: int|
        {
            &&& is_first_match(before, main_window_label(), k)
            &&& after[k].title@ == startup_title()
            &&& forall|j: int| 0 <= j < before.len() && j != k ==> after[j] == before[j]
        };
    lemma_first_match_unique(before, main_window_label(), i, k);
}

/// Law: when no window labelled "main" exists, the startup hook leaves the
/// registry unchanged, whether or not the title-set operation faults; it
/// still reports success (see its `ensures`).
pub proof fn lemma_hook_without_main_is_noop(before: Seq<Window>, after: Seq<Window>, fault: bool)
    requires
        hook_effect(before, after, fault),
        !has_window(before, main_window_label()),
    ensures
        after == before,
{
}

/// Law: when the title-set operation faults, the startup hook leaves the
/// registry unchanged; the fault is swallowed, and the hook still reports
/// success (see its `ensures`).
pub proof fn lemma_hook_title_fault_is_noop(before: Seq<Window>, after: Seq<Window>)
    requires
        hook_effect(before, after, true),
    ensures
        after == before,
{
}

} // verus!
