use qspace::actions::{
    can_proceed, check_library_command, config_file_name, create_workspace_command,
    deploy_application_command, deploy_custom_function_command, easy_followup_steps,
    install_command, log_file_name, login_command, required_libraries, requires_config,
    run_script_command, script_file_name, set_subscription_command, set_workspace_command,
    setup_estimation_command, CommandStep,
};
use qspace::config::{load_from, Config};
use qspace::menu::{dispatch, next_context, ActionId, MenuContext, MenuOutcome};
use qspace::runner::{kind_message, ErrorKind};
use qspace::scripts::{batch_script, estimation_script, monitor_script, optimize_script};

fn args_of(c: &CommandStep) -> Vec<&str> {
    c.args.iter().map(|s| s.as_str()).collect()
}

fn sample() -> Config {
    Config {
        subscription_id: String::from("sub-1"),
        resource_group: String::from("rg-1"),
        workspace_name: String::from("ws-1"),
        location: String::from("eastus"),
    }
}

#[test]
fn library_probe_and_installs() {
    let libs = required_libraries();
    let names: Vec<&str> = libs.iter().map(|s| s.as_str()).collect();
    assert_eq!(names, vec!["azure-cli", "pip", "jq"]);

    let probe = check_library_command("jq");
    assert_eq!(probe.program, "command");
    assert_eq!(args_of(&probe), vec!["-v", "jq"]);
    assert!(!probe.interactive);

    let az = install_command("azure-cli").expect("known library");
    assert_eq!(az.program, "sh");
    assert_eq!(
        args_of(&az),
        vec!["-c", "curl -sL https://aka.ms/InstallAzureCLIDeb | sudo bash"]
    );

    let pip = install_command("pip").expect("known library");
    assert_eq!(pip.program, "sudo");
    assert_eq!(args_of(&pip), vec!["apt-get", "install", "-y", "python3-pip"]);

    let jq = install_command("jq").expect("known library");
    assert_eq!(jq.program, "sudo");
    assert_eq!(args_of(&jq), vec!["apt-get", "install", "-y", "jq"]);

    assert!(install_command("unheard-of").is_none());
}

#[test]
fn configure_commands() {
    let login = login_command();
    assert_eq!(login.program, "az");
    assert_eq!(args_of(&login), vec!["login", "--use-device-code"]);
    assert!(login.interactive);

    let set_sub = set_subscription_command("sub-1");
    assert_eq!(set_sub.program, "az");
    assert_eq!(args_of(&set_sub), vec!["account", "set", "--subscription", "sub-1"]);

    let create = create_workspace_command("rg-1", "ws-1", "eastus");
    assert_eq!(
        args_of(&create),
        vec!["quantum", "workspace", "create", "-g", "rg-1", "-w", "ws-1", "-l", "eastus"]
    );

    let set_ws = set_workspace_command("rg-1", "ws-1");
    assert_eq!(
        args_of(&set_ws),
        vec!["quantum", "workspace", "set", "-g", "rg-1", "-w", "ws-1"]
    );
}

#[test]
fn deploy_commands_embed_configuration() {
    let c = sample();
    let deploy = deploy_application_command(&c);
    assert_eq!(deploy.program, "az");
    assert_eq!(
        args_of(&deploy),
        vec![
            "functionapp", "create", "--resource-group", "rg-1",
            "--consumption-plan-location", "eastus", "--runtime", "python",
            "--functions-version", "3", "--name", "ws-1", "--storage-account", "ws-1"
        ]
    );

    let custom = deploy_custom_function_command(&c, "./fn.zip");
    assert_eq!(
        args_of(&custom),
        vec![
            "functionapp", "deployment", "source", "config-zip",
            "--resource-group", "rg-1", "--name", "ws-1", "--src", "./fn.zip"
        ]
    );

    let setup = setup_estimation_command();
    assert_eq!(setup.program, "pip");
    assert_eq!(args_of(&setup), vec!["install", "azure-quantum", "qsharp"]);

    let run = run_script_command("resource_estimation.py");
    assert_eq!(run.program, "python3");
    assert_eq!(args_of(&run), vec!["resource_estimation.py"]);
}

#[test]
fn config_gating() {
    assert!(requires_config(ActionId::DeployApplication));
    assert!(requires_config(ActionId::DeployCustomFunction));
    assert!(!requires_config(ActionId::SaveConfiguration));
    assert!(requires_config(ActionId::RunResourceEstimation));
    assert!(!requires_config(ActionId::ConfigureAzure));
    assert!(!requires_config(ActionId::CheckAndInstallLibraries));

    assert!(!can_proceed(ActionId::DeployApplication, false));
    assert!(can_proceed(ActionId::DeployApplication, true));
    assert!(can_proceed(ActionId::ConfigureAzure, false));
}

#[test]
fn deploy_without_configuration_runs_nothing() {
    // Advanced menu, selection "5", with no configuration present: the user
    // is told to configure first, no external command is built, and control
    // stays with the Advanced menu.
    let outcome = dispatch(MenuContext::Advanced, "5");
    assert_eq!(outcome, MenuOutcome::Invoke(ActionId::DeployApplication));

    let load = load_from(None);
    assert!(load.is_absent());
    assert!(!can_proceed(ActionId::DeployApplication, false));
    assert_eq!(
        kind_message(ErrorKind::ConfigAbsent).as_str(),
        "configuration not found, please run the configuration step first"
    );
    assert_eq!(
        next_context(MenuContext::Advanced, outcome),
        Some(MenuContext::Advanced)
    );
}

#[test]
fn easy_followups_depend_on_load() {
    let loaded = load_from(Some(
        "subscription_id: s\nresource_group: r\nworkspace_name: w\nlocation: l\n",
    ));
    assert_eq!(
        easy_followup_steps(&loaded),
        vec![
            ActionId::DeployApplication,
            ActionId::SetupResourceEstimation,
            ActionId::RunResourceEstimation
        ]
    );
    let absent = load_from(None);
    assert_eq!(easy_followup_steps(&absent), vec![]);
}

#[test]
fn well_known_file_names() {
    assert_eq!(config_file_name().as_str(), "config.yaml");
    assert_eq!(log_file_name().as_str(), "qspace.log");
    assert_eq!(
        script_file_name(ActionId::RunResourceEstimation).as_deref(),
        Some("resource_estimation.py")
    );
    assert_eq!(
        script_file_name(ActionId::RunBatchEstimations).as_deref(),
        Some("batch_estimations.py")
    );
    assert_eq!(
        script_file_name(ActionId::MonitorManageJobs).as_deref(),
        Some("monitor_jobs.py")
    );
    assert_eq!(
        script_file_name(ActionId::OptimizePerformance).as_deref(),
        Some("optimize_performance.py")
    );
    assert_eq!(script_file_name(ActionId::ConfigureAzure), None);
}

#[test]
fn estimation_script_embeds_values() {
    let script = estimation_script("sub-1", "eastus");
    assert!(script.contains("resource_id=\"sub-1\""));
    assert!(script.contains("location=\"eastus\""));
    assert!(script.contains("from azure.quantum import Workspace"));
    assert!(script.contains("operation TestBellState() : Result {"));
    // Substitution is plain text: different values give different scripts.
    assert_ne!(script, estimation_script("sub-2", "eastus"));
}

#[test]
fn fixed_scripts_content() {
    assert!(batch_script().contains("EstimatorParams(num_items=2)"));
    assert!(batch_script().contains("QECScheme.FLOQUET_CODE"));
    assert!(monitor_script().contains("for job in workspace.list_jobs():"));
    assert!(optimize_script().contains("import asyncio"));
}
