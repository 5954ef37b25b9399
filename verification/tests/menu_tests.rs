use qspace::menu::{dispatch, next_context, ActionId, MenuContext, MenuOutcome};
use qspace::text::{str_eq, trim};

#[test]
fn root_selectors() {
    assert_eq!(
        dispatch(MenuContext::Root, "1"),
        MenuOutcome::Invoke(ActionId::EasySetup)
    );
    assert_eq!(
        dispatch(MenuContext::Root, "2"),
        MenuOutcome::Transition(MenuContext::Advanced)
    );
    assert_eq!(
        dispatch(MenuContext::Root, "3"),
        MenuOutcome::Transition(MenuContext::Multiverse)
    );
    assert_eq!(dispatch(MenuContext::Root, "4"), MenuOutcome::Help);
    assert_eq!(dispatch(MenuContext::Root, "5"), MenuOutcome::Exit);
}

#[test]
fn advanced_selectors() {
    assert_eq!(
        dispatch(MenuContext::Advanced, "1"),
        MenuOutcome::Invoke(ActionId::CheckAndInstallLibraries)
    );
    assert_eq!(
        dispatch(MenuContext::Advanced, "2"),
        MenuOutcome::Invoke(ActionId::ConfigureAzure)
    );
    assert_eq!(
        dispatch(MenuContext::Advanced, "3"),
        MenuOutcome::Invoke(ActionId::SaveConfiguration)
    );
    assert_eq!(
        dispatch(MenuContext::Advanced, "4"),
        MenuOutcome::Invoke(ActionId::LoadConfiguration)
    );
    assert_eq!(
        dispatch(MenuContext::Advanced, "5"),
        MenuOutcome::Invoke(ActionId::DeployApplication)
    );
    assert_eq!(
        dispatch(MenuContext::Advanced, "6"),
        MenuOutcome::Invoke(ActionId::DeployCustomFunction)
    );
    assert_eq!(
        dispatch(MenuContext::Advanced, "7"),
        MenuOutcome::Invoke(ActionId::SetupResourceEstimation)
    );
    assert_eq!(
        dispatch(MenuContext::Advanced, "8"),
        MenuOutcome::Invoke(ActionId::RunResourceEstimation)
    );
    assert_eq!(dispatch(MenuContext::Advanced, "9"), MenuOutcome::ReturnToParent);
}

#[test]
fn multiverse_selectors() {
    assert_eq!(
        dispatch(MenuContext::Multiverse, "1"),
        MenuOutcome::Invoke(ActionId::DeployMultipleAlgorithms)
    );
    assert_eq!(
        dispatch(MenuContext::Multiverse, "2"),
        MenuOutcome::Invoke(ActionId::RunBatchEstimations)
    );
    assert_eq!(
        dispatch(MenuContext::Multiverse, "3"),
        MenuOutcome::Invoke(ActionId::MonitorManageJobs)
    );
    assert_eq!(
        dispatch(MenuContext::Multiverse, "4"),
        MenuOutcome::Invoke(ActionId::OptimizePerformance)
    );
    assert_eq!(dispatch(MenuContext::Multiverse, "5"), MenuOutcome::ReturnToParent);
}

#[test]
fn unknown_input_is_invalid_everywhere() {
    let contexts = [MenuContext::Root, MenuContext::Advanced, MenuContext::Multiverse];
    let bad = ["", "0", "99", "x", "exit", "1 2", "one", "-1", "5.0"];
    for ctx in contexts {
        for input in bad {
            assert_eq!(dispatch(ctx, input), MenuOutcome::Invalid);
        }
    }
    // Selectors beyond a menu's range are invalid there, valid elsewhere.
    assert_eq!(dispatch(MenuContext::Root, "9"), MenuOutcome::Invalid);
    assert_eq!(dispatch(MenuContext::Multiverse, "6"), MenuOutcome::Invalid);
}

#[test]
fn input_is_trimmed_before_dispatch() {
    assert_eq!(
        dispatch(MenuContext::Root, "  2 \n"),
        MenuOutcome::Transition(MenuContext::Advanced)
    );
    assert_eq!(dispatch(MenuContext::Advanced, "\t9\r\n"), MenuOutcome::ReturnToParent);
}

#[test]
fn invalid_re_presents_same_context() {
    for ctx in [MenuContext::Root, MenuContext::Advanced, MenuContext::Multiverse] {
        assert_eq!(next_context(ctx, MenuOutcome::Invalid), Some(ctx));
    }
}

#[test]
fn next_context_follows_outcomes() {
    assert_eq!(
        next_context(MenuContext::Root, MenuOutcome::Transition(MenuContext::Advanced)),
        Some(MenuContext::Advanced)
    );
    assert_eq!(
        next_context(MenuContext::Advanced, MenuOutcome::ReturnToParent),
        Some(MenuContext::Root)
    );
    assert_eq!(
        next_context(MenuContext::Advanced, MenuOutcome::Invoke(ActionId::ConfigureAzure)),
        Some(MenuContext::Advanced)
    );
    assert_eq!(next_context(MenuContext::Root, MenuOutcome::Help), Some(MenuContext::Root));
    assert_eq!(next_context(MenuContext::Root, MenuOutcome::Exit), None);
}

#[test]
fn trim_strips_surrounding_whitespace() {
    assert_eq!(trim("  2 \t\n").as_str(), "2");
    assert_eq!(trim("").as_str(), "");
    assert_eq!(trim(" \t\r\n").as_str(), "");
    assert_eq!(trim("a b").as_str(), "a b");
}

#[test]
fn str_eq_compares_contents() {
    assert!(str_eq("abc", "abc"));
    assert!(!str_eq("abc", "abd"));
    assert!(!str_eq("abc", "abcd"));
    assert!(str_eq("", ""));
}

#[test]
fn option_tables_are_exact() {
    let options = qspace::menu::menu_options(MenuContext::Root);
    let root: Vec<(&str, &str)> = options
        .iter()
        .map(|o| (o.selector.as_str(), o.label.as_str()))
        .collect();
    assert_eq!(
        root,
        vec![
            ("1", "Easy Install Mode"),
            ("2", "Advanced Mode"),
            ("3", "Multiverse Mode"),
            ("4", "Help"),
            ("5", "Exit"),
        ]
    );
    let advanced_len = qspace::menu::menu_options(MenuContext::Advanced).len();
    assert_eq!(advanced_len, 9);
    let multiverse_len = qspace::menu::menu_options(MenuContext::Multiverse).len();
    assert_eq!(multiverse_len, 5);
}

#[test]
fn every_listed_option_acts() {
    for ctx in [MenuContext::Root, MenuContext::Advanced, MenuContext::Multiverse] {
        for option in qspace::menu::menu_options(ctx) {
            assert_ne!(dispatch(ctx, &option.selector), MenuOutcome::Invalid);
        }
    }
}
