//! The menu navigator: a state machine over menu contexts, driven by one
//! normalized line of user input per step.  Dispatch is total: every input
//! resolves to an action, a transition, help, exit, or a visible
//! invalid-selection outcome that re-presents the same menu.

use vstd::prelude::*;
use crate::text::{trim, trim_spec, str_eq};

verus! {

/// A point in the navigation tree.
#[derive(Clone, Copy, Debug, PartialEq, Eq, Structural)]
pub enum MenuContext {
    Root,
    Advanced,
    Multiverse,
}

/// A named operation of the action catalog.
#[derive(Clone, Copy, Debug, PartialEq, Eq, Structural)]
pub enum ActionId {
    EasySetup,
    CheckAndInstallLibraries,
    ConfigureAzure,
    SaveConfiguration,
    LoadConfiguration,
    DeployApplication,
    DeployCustomFunction,
    SetupResourceEstimation,
    RunResourceEstimation,
    DeployMultipleAlgorithms,
    RunBatchEstimations,
    MonitorManageJobs,
    OptimizePerformance,
}

/// What one menu step decides.
#[derive(Clone, Copy, Debug, PartialEq, Eq, Structural)]
pub enum MenuOutcome {
    /// Run the named catalog action, then stay in the same menu.
    Invoke(ActionId),
    /// Enter the named submenu.
    Transition(MenuContext),
    /// Return to the parent menu.
    ReturnToParent,
    /// Show the help screen, then stay in the same menu.
    Help,
    /// Terminate the session with success.
    Exit,
    /// The selection matched no selector: notify and re-present the menu.
    Invalid,
}

/// The dispatch table: what a normalized selection means in each context.
pub open spec fn spec_dispatch(ctx: MenuContext, sel: Seq<char>) -> MenuOutcome {
    match ctx {
        MenuContext::Root => {
            if sel == "1"@ {
                MenuOutcome::Invoke(ActionId::EasySetup)
            } else if sel == "2"@ {
                MenuOutcome::Transition(MenuContext::Advanced)
            } else if sel == "3"@ {
                MenuOutcome::Transition(MenuContext::Multiverse)
            } else if sel == "4"@ {
                MenuOutcome::Help
            } else if sel == "5"@ {
                MenuOutcome::Exit
            } else {
                MenuOutcome::Invalid
            }
        },
        MenuContext::Advanced => {
            if sel == "1"@ {
                MenuOutcome::Invoke(ActionId::CheckAndInstallLibraries)
            } else if sel == "2"@ {
                MenuOutcome::Invoke(ActionId::ConfigureAzure)
            } else if sel == "3"@ {
                MenuOutcome::Invoke(ActionId::SaveConfiguration)
            } else if sel == "4"@ {
                MenuOutcome::Invoke(ActionId::LoadConfiguration)
            } else if sel == "5"@ {
                MenuOutcome::Invoke(ActionId::DeployApplication)
            } else if sel == "6"@ {
                MenuOutcome::Invoke(ActionId::DeployCustomFunction)
            } else if sel == "7"@ {
                MenuOutcome::Invoke(ActionId::SetupResourceEstimation)
            } else if sel == "8"@ {
                MenuOutcome::Invoke(ActionId::RunResourceEstimation)
            } else if sel == "9"@ {
                MenuOutcome::ReturnToParent
            } else {
                MenuOutcome::Invalid
            }
        },
        MenuContext::Multiverse => {
            if sel == "1"@ {
                MenuOutcome::Invoke(ActionId::DeployMultipleAlgorithms)
            } else if sel == "2"@ {
                MenuOutcome::Invoke(ActionId::RunBatchEstimations)
            } else if sel == "3"@ {
                MenuOutcome::Invoke(ActionId::MonitorManageJobs)
            } else if sel == "4"@ {
                MenuOutcome::Invoke(ActionId::OptimizePerformance)
            } else if sel == "5"@ {
                MenuOutcome::ReturnToParent
            } else {
                MenuOutcome::Invalid
            }
        },
    }
}

/// The selectors that mean something in the given context.
pub open spec fn known_selectors(ctx: MenuContext) -> Set<Seq<char>> {
    match ctx {
        MenuContext::Root => set!["1"@, "2"@, "3"@, "4"@, "5"@],
        MenuContext::Advanced => set![
            "1"@, "2"@, "3"@, "4"@, "5"@, "6"@, "7"@, "8"@, "9"@
        ],
        MenuContext::Multiverse => set!["1"@, "2"@, "3"@, "4"@, "5"@],
    }
}

/// Menu totality: a selection that matches no known selector is always the
/// visible invalid outcome — the navigator re-presents the same context and
/// neither crashes nor transitions.
pub proof fn lemma_menu_totality(ctx: MenuContext, sel: Seq<char>)
    requires
        !known_selectors(ctx).contains(sel),
    ensures
        spec_dispatch(ctx, sel) == MenuOutcome::Invalid,
        spec_next_context(ctx, spec_dispatch(ctx, sel)) == Some(ctx),
{
}

/// A known selector never resolves to the invalid outcome: every listed
/// option does something.
pub proof fn lemma_known_selector_acts(ctx: MenuContext, sel: Seq<char>)
    requires
        known_selectors(ctx).contains(sel),
    ensures
        spec_dispatch(ctx, sel) != MenuOutcome::Invalid,
{
}

/// Normalizes one raw input line and dispatches it in the given context.
pub fn dispatch(ctx: MenuContext, input: &str) -> (r: MenuOutcome)
    ensures
        r == spec_dispatch(ctx, trim_spec(input@)),
{
    let sel_string = trim(input);
    let sel = sel_string.as_str();
    match ctx {
        MenuContext::Root => {
            if str_eq(sel, "1") {
                MenuOutcome::Invoke(ActionId::EasySetup)
            } else if str_eq(sel, "2") {
                MenuOutcome::Transition(MenuContext::Advanced)
            } else if str_eq(sel, "3") {
                MenuOutcome::Transition(MenuContext::Multiverse)
            } else if str_eq(sel, "4") {
                MenuOutcome::Help
            } else if str_eq(sel, "5") {
                MenuOutcome::Exit
            } else {
                MenuOutcome::Invalid
            }
        },
        MenuContext::Advanced => {
            if str_eq(sel, "1") {
                MenuOutcome::Invoke(ActionId::CheckAndInstallLibraries)
            } else if str_eq(sel, "2") {
                MenuOutcome::Invoke(ActionId::ConfigureAzure)
            } else if str_eq(sel, "3") {
                MenuOutcome::Invoke(ActionId::SaveConfiguration)
            } else if str_eq(sel, "4") {
                MenuOutcome::Invoke(ActionId::LoadConfiguration)
            } else if str_eq(sel, "5") {
                MenuOutcome::Invoke(ActionId::DeployApplication)
            } else if str_eq(sel, "6") {
                MenuOutcome::Invoke(ActionId::DeployCustomFunction)
            } else if str_eq(sel, "7") {
                MenuOutcome::Invoke(ActionId::SetupResourceEstimation)
            } else if str_eq(sel, "8") {
                MenuOutcome::Invoke(ActionId::RunResourceEstimation)
            } else if str_eq(sel, "9") {
                MenuOutcome::ReturnToParent
            } else {
                MenuOutcome::Invalid
            }
        },
        MenuContext::Multiverse => {
            if str_eq(sel, "1") {
                MenuOutcome::Invoke(ActionId::DeployMultipleAlgorithms)
            } else if str_eq(sel, "2") {
                MenuOutcome::Invoke(ActionId::RunBatchEstimations)
            } else if str_eq(sel, "3") {
                MenuOutcome::Invoke(ActionId::MonitorManageJobs)
            } else if str_eq(sel, "4") {
                MenuOutcome::Invoke(ActionId::OptimizePerformance)
            } else if str_eq(sel, "5") {
                MenuOutcome::ReturnToParent
            } else {
                MenuOutcome::Invalid
            }
        },
    }
}

/// One presented menu entry: the selector the user types and its label.
pub struct MenuOption {
    pub selector: String,
    pub label: String,
}

/// The mathematical view of a menu entry.
pub struct MenuOptionV {
    pub selector: Seq<char>,
    pub label: Seq<char>,
}

impl View for MenuOption {
    type V = MenuOptionV;

    open spec fn view(&self) -> MenuOptionV {
        MenuOptionV { selector: self.selector@, label: self.label@ }
    }
}

/// The ordered, labeled option list presented in each context.
pub open spec fn spec_menu_options(ctx: MenuContext) -> Seq<MenuOptionV> {
    match ctx {
        MenuContext::Root => seq![
            MenuOptionV { selector: "1"@, label: "Easy Install Mode"@ },
            MenuOptionV { selector: "2"@, label: "Advanced Mode"@ },
            MenuOptionV { selector: "3"@, label: "Multiverse Mode"@ },
            MenuOptionV { selector: "4"@, label: "Help"@ },
            MenuOptionV { selector: "5"@, label: "Exit"@ },
        ],
        MenuContext::Advanced => seq![
            MenuOptionV { selector: "1"@, label: "Check and Install Libraries"@ },
            MenuOptionV { selector: "2"@, label: "Configure Azure CLI and Quantum Workspace"@ },
            MenuOptionV { selector: "3"@, label: "Save Configuration to YAML"@ },
            MenuOptionV { selector: "4"@, label: "Load Configuration from YAML"@ },
            MenuOptionV { selector: "5"@, label: "Deploy Quantum Application"@ },
            MenuOptionV { selector: "6"@, label: "Deploy Custom Function"@ },
            MenuOptionV { selector: "7"@, label: "Set Up Resource Estimation"@ },
            MenuOptionV { selector: "8"@, label: "Run Resource Estimation"@ },
            MenuOptionV { selector: "9"@, label: "Return to Main Menu"@ },
        ],
        MenuContext::Multiverse => seq![
            MenuOptionV { selector: "1"@, label: "Deploy Multiple Quantum Algorithms"@ },
            MenuOptionV { selector: "2"@, label: "Run Batch Resource Estimations"@ },
            MenuOptionV { selector: "3"@, label: "Monitor and Manage Jobs"@ },
            MenuOptionV { selector: "4"@, label: "Optimize Performance"@ },
            MenuOptionV { selector: "5"@, label: "Return to Main Menu"@ },
        ],
    }
}

fn make_option(selector: &str, label: &str) -> (r: MenuOption)
    ensures
        r@.selector == selector@,
        r@.label == label@,
{
    MenuOption { selector: String::from_str(selector), label: String::from_str(label) }
}

/// Builds the option list to present in the given context.
pub fn menu_options(ctx: MenuContext) -> (r: Vec<MenuOption>)
    ensures
        r@.map_values(|o: MenuOption| o@) == spec_menu_options(ctx),
{
    let mut opts: Vec<MenuOption> = Vec::new();
    match ctx {
        MenuContext::Root => {
            opts.push(make_option("1", "Easy Install Mode"));
            opts.push(make_option("2", "Advanced Mode"));
            opts.push(make_option("3", "Multiverse Mode"));
            opts.push(make_option("4", "Help"));
            opts.push(make_option("5", "Exit"));
        },
        MenuContext::Advanced => {
            opts.push(make_option("1", "Check and Install Libraries"));
            opts.push(make_option("2", "Configure Azure CLI and Quantum Workspace"));
            opts.push(make_option("3", "Save Configuration to YAML"));
            opts.push(make_option("4", "Load Configuration from YAML"));
            opts.push(make_option("5", "Deploy Quantum Application"));
            opts.push(make_option("6", "Deploy Custom Function"));
            opts.push(make_option("7", "Set Up Resource Estimation"));
            opts.push(make_option("8", "Run Resource Estimation"));
            opts.push(make_option("9", "Return to Main Menu"));
        },
        MenuContext::Multiverse => {
            opts.push(make_option("1", "Deploy Multiple Quantum Algorithms"));
            opts.push(make_option("2", "Run Batch Resource Estimations"));
            opts.push(make_option("3", "Monitor and Manage Jobs"));
            opts.push(make_option("4", "Optimize Performance"));
            opts.push(make_option("5", "Return to Main Menu"));
        },
    }
    proof {
        assert(opts@.map_values(|o: MenuOption| o@) =~= spec_menu_options(ctx));
    }
    opts
}

/// The presented options agree with dispatch: every listed selector does
/// something (no listed choice is invalid), and the selectors that dispatch
/// acts on are exactly the listed ones.
pub proof fn lemma_options_match_dispatch(ctx: MenuContext)
    ensures
        forall|i: int| 0 <= i < spec_menu_options(ctx).len()
            ==> spec_dispatch(ctx, #[trigger] spec_menu_options(ctx)[i].selector)
                != MenuOutcome::Invalid,
        forall|sel: Seq<char>| #[trigger] known_selectors(ctx).contains(sel)
            ==> exists|i: int| 0 <= i < spec_menu_options(ctx).len()
                && #[trigger] spec_menu_options(ctx)[i].selector == sel,
        forall|i: int| 0 <= i < spec_menu_options(ctx).len()
            ==> known_selectors(ctx).contains(#[trigger] spec_menu_options(ctx)[i].selector),
{
    let opts = spec_menu_options(ctx);
    assert forall|sel: Seq<char>| known_selectors(ctx).contains(sel)
        implies exists|i: int| 0 <= i < opts.len()
            && #[trigger] opts[i].selector == sel by {
        if sel == "1"@ {
            assert(opts[0].selector == sel);
        } else if sel == "2"@ {
            assert(opts[1].selector == sel);
        } else if sel == "3"@ {
            assert(opts[2].selector == sel);
        } else if sel == "4"@ {
            assert(opts[3].selector == sel);
        } else if sel == "5"@ {
            assert(opts[4].selector == sel);
        } else if sel == "6"@ {
            assert(ctx is Advanced && opts[5].selector == sel);
        } else if sel == "7"@ {
            assert(ctx is Advanced && opts[6].selector == sel);
        } else if sel == "8"@ {
            assert(ctx is Advanced && opts[7].selector == sel);
        } else {
            assert(sel == "9"@ && ctx is Advanced && opts[8].selector == sel);
        }
    }
}

/// The context after an outcome, or `None` when the session ends.  Invoking
/// an action, help, and an invalid selection all stay in the same context;
/// returning to the parent leads to the root.
pub open spec fn spec_next_context(ctx: MenuContext, out: MenuOutcome) -> Option<MenuContext> {
    match out {
        MenuOutcome::Invoke(_) => Some(ctx),
        MenuOutcome::Transition(m) => Some(m),
        MenuOutcome::ReturnToParent => Some(MenuContext::Root),
        MenuOutcome::Help => Some(ctx),
        MenuOutcome::Exit => None,
        MenuOutcome::Invalid => Some(ctx),
    }
}

/// Computes the context that follows an outcome.
pub fn next_context(ctx: MenuContext, out: MenuOutcome) -> (r: Option<MenuContext>)
    ensures
        r == spec_next_context(ctx, out),
{
    match out {
        MenuOutcome::Invoke(_) => Some(ctx),
        MenuOutcome::Transition(m) => Some(m),
        MenuOutcome::ReturnToParent => Some(MenuContext::Root),
        MenuOutcome::Help => Some(ctx),
        MenuOutcome::Exit => None,
        MenuOutcome::Invalid => Some(ctx),
    }
}

} // verus!
