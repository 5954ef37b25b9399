//! The action catalog's command plans: for each operation, the exact
//! external program, argument list and stdio mode to use, and the exact
//! text of each generated script.  The surrounding application only executes
//! what these functions return.

use vstd::prelude::*;
use crate::config::{Config, LoadOutcome};
use crate::menu::ActionId;
use crate::text::str_eq;

verus! {

/// One external program invocation: program name, ordered arguments, and
/// whether the terminal is passed through (`true`) or output is captured
/// (`false`).
pub struct CommandStep {
    pub program: String,
    pub args: Vec<String>,
    pub interactive: bool,
}

/// The mathematical view of a command step.
pub struct CommandStepV {
    pub program: Seq<char>,
    pub args: Seq<Seq<char>>,
    pub interactive: bool,
}

impl View for CommandStep {
    type V = CommandStepV;

    open spec fn view(&self) -> CommandStepV {
        CommandStepV {
            program: self.program@,
            args: self.args@.map_values(|a: String| a@),
            interactive: self.interactive,
        }
    }
}

/// The external libraries the wizard depends on, in check order.
pub fn required_libraries() -> (r: Vec<String>)
    ensures
        r@.map_values(|s: String| s@) == seq!["azure-cli"@, "pip"@, "jq"@],
{
    let mut libs: Vec<String> = Vec::new();
    libs.push(String::from_str("azure-cli"));
    libs.push(String::from_str("pip"));
    libs.push(String::from_str("jq"));
    proof {
        assert(libs@.map_values(|s: String| s@) =~= seq!["azure-cli"@, "pip"@, "jq"@]);
    }
    libs
}

/// The probe that tells whether a library is installed; its output is
/// captured, and only its exit status is consulted.
pub fn check_library_command(lib: &str) -> (r: CommandStep)
    ensures
        r@.program == "command"@,
        r@.args == seq!["-v"@, lib@],
        !r@.interactive,
{
    let mut args: Vec<String> = Vec::new();
    args.push(String::from_str("-v"));
    args.push(String::from_str(lib));
    let r = CommandStep { program: String::from_str("command"), args, interactive: false };
    proof {
        assert(r@.args =~= seq!["-v"@, lib@]);
    }
    r
}

/// The installation command for a known library, if any.
pub open spec fn spec_install_command(lib: Seq<char>) -> Option<CommandStepV> {
    if lib == "azure-cli"@ {
        Some(CommandStepV {
            program: "sh"@,
            args: seq!["-c"@, "curl -sL https://aka.ms/InstallAzureCLIDeb | sudo bash"@],
            interactive: true,
        })
    } else if lib == "pip"@ {
        Some(CommandStepV {
            program: "sudo"@,
            args: seq!["apt-get"@, "install"@, "-y"@, "python3-pip"@],
            interactive: true,
        })
    } else if lib == "jq"@ {
        Some(CommandStepV {
            program: "sudo"@,
            args: seq!["apt-get"@, "install"@, "-y"@, "jq"@],
            interactive: true,
        })
    } else {
        None
    }
}

/// Builds the installation command for a library, or `None` for an unknown
/// library name.
pub fn install_command(lib: &str) -> (r: Option<CommandStep>)
    ensures
        r matches Some(c) ==> Some(c@) == spec_install_command(lib@),
        r is None ==> spec_install_command(lib@) is None,
{
    if str_eq(lib, "azure-cli") {
        let mut args: Vec<String> = Vec::new();
        args.push(String::from_str("-c"));
        args.push(String::from_str("curl -sL https://aka.ms/InstallAzureCLIDeb | sudo bash"));
        let c = CommandStep { program: String::from_str("sh"), args, interactive: true };
        proof {
            assert(c@.args =~= spec_install_command(lib@).unwrap().args);
        }
        Some(c)
    } else if str_eq(lib, "pip") {
        let mut args: Vec<String> = Vec::new();
        args.push(String::from_str("apt-get"));
        args.push(String::from_str("install"));
        args.push(String::from_str("-y"));
        args.push(String::from_str("python3-pip"));
        let c = CommandStep { program: String::from_str("sudo"), args, interactive: true };
        proof {
            assert(c@.args =~= spec_install_command(lib@).unwrap().args);
        }
        Some(c)
    } else if str_eq(lib, "jq") {
        let mut args: Vec<String> = Vec::new();
        args.push(String::from_str("apt-get"));
        args.push(String::from_str("install"));
        args.push(String::from_str("-y"));
        args.push(String::from_str("jq"));
        let c = CommandStep { program: String::from_str("sudo"), args, interactive: true };
        proof {
            assert(c@.args =~= spec_install_command(lib@).unwrap().args);
        }
        Some(c)
    } else {
        None
    }
}

/// The interactive cloud login command.
pub fn login_command() -> (r: CommandStep)
    ensures
        r@.program == "az"@,
        r@.args == seq!["login"@, "--use-device-code"@],
        r@.interactive,
{
    let mut args: Vec<String> = Vec::new();
    args.push(String::from_str("login"));
    args.push(String::from_str("--use-device-code"));
    let r = CommandStep { program: String::from_str("az"), args, interactive: true };
    proof {
        assert(r@.args =~= seq!["login"@, "--use-device-code"@]);
    }
    r
}

/// Selects the active subscription.
pub fn set_subscription_command(subscription_id: &str) -> (r: CommandStep)
    ensures
        r@.program == "az"@,
        r@.args == seq!["account"@, "set"@, "--subscription"@, subscription_id@],
        r@.interactive,
{
    let mut args: Vec<String> = Vec::new();
    args.push(String::from_str("account"));
    args.push(String::from_str("set"));
    args.push(String::from_str("--subscription"));
    args.push(String::from_str(subscription_id));
    let r = CommandStep { program: String::from_str("az"), args, interactive: true };
    proof {
        assert(r@.args =~= seq!["account"@, "set"@, "--subscription"@, subscription_id@]);
    }
    r
}

/// Creates the quantum workspace.
pub fn create_workspace_command(resource_group: &str, workspace_name: &str, location: &str)
    -> (r: CommandStep)
    ensures
        r@.program == "az"@,
        r@.args == seq![
            "quantum"@, "workspace"@, "create"@,
            "-g"@, resource_group@, "-w"@, workspace_name@, "-l"@, location@
        ],
        r@.interactive,
{
    let mut args: Vec<String> = Vec::new();
    args.push(String::from_str("quantum"));
    args.push(String::from_str("workspace"));
    args.push(String::from_str("create"));
    args.push(String::from_str("-g"));
    args.push(String::from_str(resource_group));
    args.push(String::from_str("-w"));
    args.push(String::from_str(workspace_name));
    args.push(String::from_str("-l"));
    args.push(String::from_str(location));
    let r = CommandStep { program: String::from_str("az"), args, interactive: true };
    proof {
        assert(r@.args =~= seq![
            "quantum"@, "workspace"@, "create"@,
            "-g"@, resource_group@, "-w"@, workspace_name@, "-l"@, location@
        ]);
    }
    r
}

/// Selects the quantum workspace.
pub fn set_workspace_command(resource_group: &str, workspace_name: &str) -> (r: CommandStep)
    ensures
        r@.program == "az"@,
        r@.args == seq![
            "quantum"@, "workspace"@, "set"@, "-g"@, resource_group@, "-w"@, workspace_name@
        ],
        r@.interactive,
{
    let mut args: Vec<String> = Vec::new();
    args.push(String::from_str("quantum"));
    args.push(String::from_str("workspace"));
    args.push(String::from_str("set"));
    args.push(String::from_str("-g"));
    args.push(String::from_str(resource_group));
    args.push(String::from_str("-w"));
    args.push(String::from_str(workspace_name));
    let r = CommandStep { program: String::from_str("az"), args, interactive: true };
    proof {
        assert(r@.args =~= seq![
            "quantum"@, "workspace"@, "set"@, "-g"@, resource_group@, "-w"@, workspace_name@
        ]);
    }
    r
}

/// Deploys the quantum application as a function app, from the persisted
/// configuration.
pub fn deploy_application_command(c: &Config) -> (r: CommandStep)
    ensures
        r@.program == "az"@,
        r@.args == seq![
            "functionapp"@, "create"@,
            "--resource-group"@, c@.resource_group,
            "--consumption-plan-location"@, c@.location,
            "--runtime"@, "python"@,
            "--functions-version"@, "3"@,
            "--name"@, c@.workspace_name,
            "--storage-account"@, c@.workspace_name
        ],
        r@.interactive,
{
    let mut args: Vec<String> = Vec::new();
    args.push(String::from_str("functionapp"));
    args.push(String::from_str("create"));
    args.push(String::from_str("--resource-group"));
    args.push(String::from_str(c.resource_group.as_str()));
    args.push(String::from_str("--consumption-plan-location"));
    args.push(String::from_str(c.location.as_str()));
    args.push(String::from_str("--runtime"));
    args.push(String::from_str("python"));
    args.push(String::from_str("--functions-version"));
    args.push(String::from_str("3"));
    args.push(String::from_str("--name"));
    args.push(String::from_str(c.workspace_name.as_str()));
    args.push(String::from_str("--storage-account"));
    args.push(String::from_str(c.workspace_name.as_str()));
    let r = CommandStep { program: String::from_str("az"), args, interactive: true };
    proof {
        assert(r@.args =~= seq![
            "functionapp"@, "create"@,
            "--resource-group"@, c@.resource_group,
            "--consumption-plan-location"@, c@.location,
            "--runtime"@, "python"@,
            "--functions-version"@, "3"@,
            "--name"@, c@.workspace_name,
            "--storage-account"@, c@.workspace_name
        ]);
    }
    r
}

/// Deploys a user-supplied function archive into the configured function
/// app.
pub fn deploy_custom_function_command(c: &Config, function_path: &str) -> (r: CommandStep)
    ensures
        r@.program == "az"@,
        r@.args == seq![
            "functionapp"@, "deployment"@, "source"@, "config-zip"@,
            "--resource-group"@, c@.resource_group,
            "--name"@, c@.workspace_name,
            "--src"@, function_path@
        ],
        r@.interactive,
{
    let mut args: Vec<String> = Vec::new();
    args.push(String::from_str("functionapp"));
    args.push(String::from_str("deployment"));
    args.push(String::from_str("source"));
    args.push(String::from_str("config-zip"));
    args.push(String::from_str("--resource-group"));
    args.push(String::from_str(c.resource_group.as_str()));
    args.push(String::from_str("--name"));
    args.push(String::from_str(c.workspace_name.as_str()));
    args.push(String::from_str("--src"));
    args.push(String::from_str(function_path));
    let r = CommandStep { program: String::from_str("az"), args, interactive: true };
    proof {
        assert(r@.args =~= seq![
            "functionapp"@, "deployment"@, "source"@, "config-zip"@,
            "--resource-group"@, c@.resource_group,
            "--name"@, c@.workspace_name,
            "--src"@, function_path@
        ]);
    }
    r
}

/// Installs the quantum SDK packages used for resource estimation.
pub fn setup_estimation_command() -> (r: CommandStep)
    ensures
        r@.program == "pip"@,
        r@.args == seq!["install"@, "azure-quantum"@, "qsharp"@],
        r@.interactive,
{
    let mut args: Vec<String> = Vec::new();
    args.push(String::from_str("install"));
    args.push(String::from_str("azure-quantum"));
    args.push(String::from_str("qsharp"));
    let r = CommandStep { program: String::from_str("pip"), args, interactive: true };
    proof {
        assert(r@.args =~= seq!["install"@, "azure-quantum"@, "qsharp"@]);
    }
    r
}

/// Runs a generated script through the interpreter.
pub fn run_script_command(script_path: &str) -> (r: CommandStep)
    ensures
        r@.program == "python3"@,
        r@.args == seq![script_path@],
        r@.interactive,
{
    let mut args: Vec<String> = Vec::new();
    args.push(String::from_str(script_path));
    let r = CommandStep { program: String::from_str("python3"), args, interactive: true };
    proof {
        assert(r@.args =~= seq![script_path@]);
    }
    r
}

/// True for the actions that read the persisted configuration and so cannot
/// run without one.
pub open spec fn spec_requires_config(a: ActionId) -> bool {
    match a {
        ActionId::DeployApplication => true,
        ActionId::DeployCustomFunction => true,
        ActionId::RunResourceEstimation => true,
        _ => false,
    }
}

/// Exec mirror of `spec_requires_config`.
pub fn requires_config(a: ActionId) -> (r: bool)
    ensures
        r == spec_requires_config(a),
{
    match a {
        ActionId::DeployApplication => true,
        ActionId::DeployCustomFunction => true,
        ActionId::RunResourceEstimation => true,
        _ => false,
    }
}

/// Whether an action may proceed given whether a configuration is present.
/// An action that needs the configuration is held back exactly when none is
/// present; the caller then reports "configure first" and runs nothing.
pub fn can_proceed(a: ActionId, have_config: bool) -> (r: bool)
    ensures
        r == (have_config || !spec_requires_config(a)),
{
    have_config || !requires_config(a)
}

/// The guided-setup steps that follow dependency checking, login and
/// workspace configuration.  They run only when a configuration was loaded;
/// with none present the guided setup ends after configuration.
pub fn easy_followup_steps(load: &LoadOutcome) -> (r: Vec<ActionId>)
    ensures
        load is Loaded ==> r@ == seq![
            ActionId::DeployApplication,
            ActionId::SetupResourceEstimation,
            ActionId::RunResourceEstimation
        ],
        !(load is Loaded) ==> r@ == Seq::<ActionId>::empty(),
{
    match load {
        LoadOutcome::Loaded(_) => {
            let mut steps: Vec<ActionId> = Vec::new();
            steps.push(ActionId::DeployApplication);
            steps.push(ActionId::SetupResourceEstimation);
            steps.push(ActionId::RunResourceEstimation);
            proof {
                assert(steps@ =~= seq![
                    ActionId::DeployApplication,
                    ActionId::SetupResourceEstimation,
                    ActionId::RunResourceEstimation
                ]);
            }
            steps
        },
        _ => {
            let steps: Vec<ActionId> = Vec::new();
            proof {
                assert(steps@ =~= Seq::<ActionId>::empty());
            }
            steps
        },
    }
}

/// The well-known configuration file name.
pub fn config_file_name() -> (r: String)
    ensures
        r@ == "config.yaml"@,
{
    String::from_str("config.yaml")
}

/// The well-known log file name.
pub fn log_file_name() -> (r: String)
    ensures
        r@ == "qspace.log"@,
{
    String::from_str("qspace.log")
}

/// The file a generated script is written to before it is run, for the
/// actions that generate one.
pub fn script_file_name(a: ActionId) -> (r: Option<String>)
    ensures
        a == ActionId::RunResourceEstimation ==> (r matches Some(p) && p@ == "resource_estimation.py"@),
        a == ActionId::RunBatchEstimations ==> (r matches Some(p) && p@ == "batch_estimations.py"@),
        a == ActionId::MonitorManageJobs ==> (r matches Some(p) && p@ == "monitor_jobs.py"@),
        a == ActionId::OptimizePerformance ==> (r matches Some(p) && p@ == "optimize_performance.py"@),
        !(a == ActionId::RunResourceEstimation || a == ActionId::RunBatchEstimations
            || a == ActionId::MonitorManageJobs || a == ActionId::OptimizePerformance)
            ==> r is None,
{
    match a {
        ActionId::RunResourceEstimation => Some(String::from_str("resource_estimation.py")),
        ActionId::RunBatchEstimations => Some(String::from_str("batch_estimations.py")),
        ActionId::MonitorManageJobs => Some(String::from_str("monitor_jobs.py")),
        ActionId::OptimizePerformance => Some(String::from_str("optimize_performance.py")),
        _ => None,
    }
}

} // verus!
