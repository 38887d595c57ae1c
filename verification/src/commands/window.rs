//! Which window to show: the first-run flow or the application.

use vstd::prelude::*;
use crate::error::{CommandError, WindowFailure};
use crate::registry::WindowRegistry;
use crate::settings::{flag_is_set, is_initialized, SettingValue};
use crate::window_config::{main_window, setup_window, WindowConfig, WindowParams};
use crate::window_name::WindowName;

verus! {

/// What a command asks of the windowing system: to create one window and,
/// once that window exists, to close the windows it takes the place of, as
/// far as they are open.
#[derive(Clone, Debug, PartialEq, Eq)]
pub struct WindowPlan {
    pub create: WindowConfig,
    pub close: Vec<WindowName>,
}

/// A `WindowPlan` as a mathematical value.
pub ghost struct PlanView {
    pub create: WindowParams,
    pub close: Seq<WindowName>,
}

impl View for WindowPlan {
    type V = PlanView;

    open spec fn view(&self) -> PlanView {
        PlanView { create: self.create@, close: self.close@ }
    }
}

/// What is shown once the settings have been read: the main window after
/// the first run, which takes the place of the setup window and of the
/// splash screen; before that the setup window, which takes the place of
/// the splash screen.
pub open spec fn load_plan(initialized: bool) -> PlanView {
    if initialized {
        PlanView { create: main_window(), close: seq![WindowName::Setup, WindowName::Index] }
    } else {
        PlanView { create: setup_window(), close: seq![WindowName::Index] }
    }
}

/// The plan that shows the main window: it takes the place of the setup
/// window and of the splash screen, which no flow leaves open.
pub open spec fn main_plan() -> PlanView {
    PlanView { create: main_window(), close: seq![WindowName::Setup, WindowName::Index] }
}

/// A plan is refused where the window that it creates is open already.
pub open spec fn guarded(open: Set<WindowName>, plan: PlanView) -> Result<PlanView, CommandError> {
    if open.contains(plan.create.name) {
        Err(CommandError::Window(WindowFailure::Duplicate(plan.create.name)))
    } else {
        Ok(plan)
    }
}

/// What `load_window` answers, given the open windows and what came of
/// reading the initialization flag.
pub open spec fn load_outcome(
    open: Set<WindowName>,
    stored: Result<Option<&SettingValue>, String>,
) -> Result<PlanView, CommandError> {
    match stored {
        Err(text) => Err(CommandError::Store(text)),
        Ok(entry) => guarded(open, load_plan(flag_is_set(entry))),
    }
}

/// The open windows after a plan has been carried out.
pub open spec fn after_plan(open: Set<WindowName>, plan: PlanView) -> Set<WindowName> {
    open.insert(plan.create.name).difference(plan.close.to_set())
}

/// What `finish` answers, given the open windows, the plan and what the
/// windowing system said of the creation.
pub open spec fn finish_outcome(
    open: Set<WindowName>,
    plan: PlanView,
    created: Result<(), String>,
) -> Result<(), CommandError> {
    match created {
        Err(text) => Err(CommandError::Window(WindowFailure::Platform(text))),
        Ok(_) => match guarded(open, plan) {
            Err(refusal) => Err(refusal),
            Ok(_) => Ok(()),
        },
    }
}

/// The result of a planning command with the plan as a mathematical value.
pub open spec fn plan_view(result: Result<WindowPlan, CommandError>) -> Result<
    PlanView,
    CommandError,
> {
    match result {
        Ok(plan) => Ok(plan@),
        Err(refusal) => Err(refusal),
    }
}

/// Refuses the plan where its window is open already.
fn guard(windows: &WindowRegistry, plan: WindowPlan) -> (result: Result<WindowPlan, CommandError>)
    ensures
        plan_view(result) == guarded(windows@, plan@),
{
    if windows.is_open(plan.create.name) {
        Err(CommandError::Window(WindowFailure::Duplicate(plan.create.name)))
    } else {
        Ok(plan)
    }
}

/// Decides which window to show at startup. `stored` is what came of
/// reading the initialization flag: the entry, `None` where the document
/// has none, or the words of the failure to open the document.
///
/// After the first run the plan creates the main window and closes the
/// setup window and the splash screen; before it, with the flag missing,
/// `false` or no boolean at all, the plan creates the setup window and
/// closes the splash screen. Where the window to create is open already
/// there is no plan: a second window of a name is never asked for.
pub fn load_window(windows: &WindowRegistry, stored: Result<Option<&SettingValue>, String>) -> (result:
    Result<WindowPlan, CommandError>)
    ensures
        plan_view(result) == load_outcome(windows@, stored),
{
    match stored {
        Err(text) => Err(CommandError::Store(text)),
        Ok(entry) => {
            let plan = if is_initialized(entry) {
                WindowPlan {
                    create: WindowConfig::main(),
                    close: vec![WindowName::Setup, WindowName::Index],
                }
            } else {
                WindowPlan { create: WindowConfig::setup(), close: vec![WindowName::Index] }
            };
            assert(plan@.close =~= load_plan(flag_is_set(entry)).close);
            guard(windows, plan)
        },
    }
}

/// Decides which window to show at startup: `load_window` under the name
/// that the interface knows it by.
pub fn show_window(windows: &WindowRegistry, stored: Result<Option<&SettingValue>, String>) -> (result:
    Result<WindowPlan, CommandError>)
    ensures
        plan_view(result) == load_outcome(windows@, stored),
{
    load_window(windows, stored)
}

/// Plans the move to the main window: the plan creates the main window and
/// closes the setup window and the splash screen. Where the main window is
/// open already there is no plan.
pub fn show_main(windows: &WindowRegistry) -> (result: Result<WindowPlan, CommandError>)
    ensures
        plan_view(result) == guarded(windows@, main_plan()),
{
    let plan = WindowPlan {
        create: WindowConfig::main(),
        close: vec![WindowName::Setup, WindowName::Index],
    };
    assert(plan@.close =~= main_plan().close);
    guard(windows, plan)
}

/// Ends the first run. Initialization has no step of its own yet, so this
/// plans what `show_main` plans.
pub fn initialize_app(windows: &WindowRegistry) -> (result: Result<WindowPlan, CommandError>)
    ensures
        plan_view(result) == guarded(windows@, main_plan()),
{
    show_main(windows)
}

/// Brings the registry up to date once the host has tried to create the
/// window of `plan`. `created` is what the windowing system said.
///
/// After a failure nothing is closed and the registry stays as it was; the
/// failure is handed on. After a success the new window is open and the
/// windows that the plan closes are not.
pub fn finish(windows: &mut WindowRegistry, plan: &WindowPlan, created: Result<(), String>) -> (result:
    Result<(), CommandError>)
    ensures
        result == finish_outcome(old(windows)@, plan@, created),
        result is Ok ==> final(windows)@ == after_plan(old(windows)@, plan@),
        result is Err ==> final(windows)@ == old(windows)@,
{
    match created {
        Err(text) => Err(CommandError::Window(WindowFailure::Platform(text))),
        Ok(_) => {
            match windows.opened(plan.create.name) {
                Err(refusal) => Err(refusal),
                Ok(_) => {
                    let ghost grown = windows@;
                    let mut i: usize = 0;
                    while i < plan.close.len()
                        invariant
                            i <= plan.close.len(),
                            windows@ == grown.difference(plan.close@.take(i as int).to_set()),
                        decreases plan.close.len() - i,
                    {
                        windows.closed(plan.close[i]);
                        proof {
                            let done = plan.close@.take(i as int);
                            assert(plan.close@.take(i + 1) == done.push(plan.close@[i as int]));
                            done.lemma_push_to_set_commute(plan.close@[i as int]);
                        }
                        i += 1;
                    }
                    assert(plan.close@.take(i as int) == plan.close@);
                    Ok(())
                },
            }
        },
    }
}

/// A list of window names that holds just `first` and `second`.
proof fn lemma_pair_as_set(first: WindowName, second: WindowName)
    ensures
        seq![first, second].to_set() == set![first, second],
        seq![first].to_set() == set![first],
{
    let pair = seq![first, second];
    assert(pair[0] == first && pair[1] == second);
    assert(pair.to_set() =~= set![first, second]);
    let single = seq![first];
    assert(single[0] == first);
    assert(single.to_set() =~= set![first]);
}

/// Whatever the settings hold, the plan of `load_window` shows the right
/// window. With the flag `true` the main window is created, and once the
/// plan is carried out neither the setup window nor the splash screen is
/// open. With the flag missing, `false` or no boolean, the setup window is
/// created, the splash screen is not open afterwards, and the main window
/// is left as it was. No window but the planned one is ever opened.
pub proof fn lemma_load_window_shows(open: Set<WindowName>, entry: Option<&SettingValue>)
    ensures
        entry == Some(&SettingValue::Bool(true)) ==> ({
            let plan = load_plan(flag_is_set(entry));
            let after = after_plan(open, plan);
            &&& plan.create == main_window()
            &&& after.contains(WindowName::Main)
            &&& !after.contains(WindowName::Setup)
            &&& !after.contains(WindowName::Index)
        }),
        entry != Some(&SettingValue::Bool(true)) ==> ({
            let plan = load_plan(flag_is_set(entry));
            let after = after_plan(open, plan);
            &&& plan.create == setup_window()
            &&& after.contains(WindowName::Setup)
            &&& !after.contains(WindowName::Index)
            &&& after.contains(WindowName::Main) == open.contains(WindowName::Main)
        }),
{
    lemma_pair_as_set(WindowName::Setup, WindowName::Index);
    lemma_pair_as_set(WindowName::Index, WindowName::Index);
}

/// Once the plan of `show_main` or of `initialize_app` is carried out, the
/// main window is open, and neither the setup window nor the splash screen
/// is, whatever was open before.
pub proof fn lemma_main_plan_shows(open: Set<WindowName>)
    ensures
        main_plan() == load_plan(true),
        after_plan(open, main_plan()).contains(WindowName::Main),
        !after_plan(open, main_plan()).contains(WindowName::Setup),
        !after_plan(open, main_plan()).contains(WindowName::Index),
{
    lemma_pair_as_set(WindowName::Setup, WindowName::Index);
}

/// No plan asks for a second window of a name. Where the window that the
/// settings call for is open, `load_window` refuses; so it does when it is
/// invoked again after its plan has been carried out.
pub proof fn lemma_no_second_window(open: Set<WindowName>, entry: Option<&SettingValue>)
    ensures
        open.contains(load_plan(flag_is_set(entry)).create.name) ==> load_outcome(open, Ok(entry))
            == Err::<PlanView, CommandError>(
            CommandError::Window(
                WindowFailure::Duplicate(load_plan(flag_is_set(entry)).create.name),
            ),
        ),
        load_outcome(open, Ok(entry)) matches Ok(plan) ==> load_outcome(
            after_plan(open, plan),
            Ok(entry),
        ) == Err::<PlanView, CommandError>(
            CommandError::Window(WindowFailure::Duplicate(plan.create.name)),
        ),
{
    lemma_pair_as_set(WindowName::Setup, WindowName::Index);
    lemma_pair_as_set(WindowName::Index, WindowName::Index);
}

} // verus!
