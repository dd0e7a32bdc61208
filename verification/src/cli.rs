//! Command dispatch: from a parsed command line to one operation request.
//!
//! [`Cli::run`] resolves the workspace root and verbosity, populates the
//! single options record the active command needs, and selects exactly one
//! external operation. Trailing arguments pass through verbatim and in
//! order; synthetic flags the tool itself requests are appended strictly
//! after them, so the tool-requested flag is the last occurrence seen
//! downstream.

use vstd::prelude::*;

use crate::config::BuildOptions;
use crate::config::CleanModel;
use crate::config::CleanOptions;
use crate::config::ConfigModel;
use crate::config::FormatOptions;
use crate::config::InstallerOptions;
use crate::config::LintModel;
use crate::config::LintOptions;
use crate::config::OperationConfig;
use crate::config::PublishOptions;
use crate::config::TestOptions;
use crate::config::Verbosity;
use crate::config::WorkspaceModel;
use crate::config::WorkspaceOptions;
use crate::error::CliError;
use crate::shell::install_plan;
use crate::shell::uninstall_plan;
use crate::shell::generate_shell_completion_script;
use crate::shell::run_with_install;
use crate::shell::run_with_uninstall;
use crate::shell::CompletionMode;
use crate::shell::ShellAction;
use crate::shell::ShellActionModel;
use crate::shell::ShellKind;
use crate::specifier::Dependency;
use crate::specifier::PythonVersion;

verus! {

/// Which project template a new or initialized workspace uses, resolved
/// once from the mutually exclusive app/lib flags.
#[derive(Debug, Clone, Copy, PartialEq, Eq)]
pub enum ProjectKind {
    App,
    Lib,
}

/// The interpreter-management subcommands.
#[derive(Debug, Clone, PartialEq, Eq)]
pub enum Python {
    List,
    Use { version: PythonVersion },
}

/// One parsed subcommand with its flags and arguments.
#[derive(Debug, Clone, PartialEq, Eq)]
pub enum Command {
    Activate,
    Add { dependencies: Vec<Dependency>, group: Option<String>, trailing: Option<Vec<String>> },
    Build { trailing: Option<Vec<String>> },
    Completion { shell: Option<ShellKind>, mode: CompletionMode },
    Clean { include_pyc: bool, include_pycache: bool },
    Fix { trailing: Option<Vec<String>> },
    Fmt { check: bool, trailing: Option<Vec<String>> },
    Init { kind: ProjectKind, no_vcs: bool },
    Install { groups: Option<Vec<String>>, trailing: Option<Vec<String>> },
    Lint { fix: bool, no_types: bool, trailing: Option<Vec<String>> },
    New { kind: ProjectKind, path: String, no_vcs: bool },
    Publish { trailing: Option<Vec<String>> },
    Python { command: Python },
    Remove { dependencies: Vec<String>, group: Option<String>, trailing: Option<Vec<String>> },
    Run { command: Vec<String> },
    Test { trailing: Option<Vec<String>> },
    Update {
        dependencies: Option<Vec<String>>,
        group: Option<String>,
        trailing: Option<Vec<String>>,
    },
    Version,
}

/// The single external operation one invocation routes to, with the
/// values it takes besides the configuration.
#[derive(Debug, Clone, PartialEq, Eq)]
pub enum Operation {
    ActivateVenv,
    AddDependencies { dependencies: Vec<String> },
    AddOptionalDependencies { dependencies: Vec<String>, group: String },
    BuildProject,
    CleanProject,
    FormatProject,
    LintProject,
    InitAppProject,
    InitLibProject,
    InstallDependencies,
    InstallOptionalDependencies { groups: Vec<String> },
    NewAppProject,
    NewLibProject,
    PublishProject,
    ListPython,
    UsePython { version: String },
    RemoveDependencies { dependencies: Vec<String> },
    RemoveOptionalDependencies { dependencies: Vec<String>, group: String },
    RunCommand { command: String },
    TestProject,
    UpdateDependencies { dependencies: Option<Vec<String>> },
    UpdateOptionalDependencies { dependencies: Option<Vec<String>>, group: String },
    DisplayProjectVersion,
    Completion { action: ShellAction },
}

/// The mathematical value of an [`Operation`].
#[verifier::ext_equal]
pub ghost enum OperationModel {
    ActivateVenv,
    AddDependencies { dependencies: Seq<Seq<char>> },
    AddOptionalDependencies { dependencies: Seq<Seq<char>>, group: Seq<char> },
    BuildProject,
    CleanProject,
    FormatProject,
    LintProject,
    InitAppProject,
    InitLibProject,
    InstallDependencies,
    InstallOptionalDependencies { groups: Seq<Seq<char>> },
    NewAppProject,
    NewLibProject,
    PublishProject,
    ListPython,
    UsePython { version: Seq<char> },
    RemoveDependencies { dependencies: Seq<Seq<char>> },
    RemoveOptionalDependencies { dependencies: Seq<Seq<char>>, group: Seq<char> },
    RunCommand { command: Seq<char> },
    TestProject,
    UpdateDependencies { dependencies: Option<Seq<Seq<char>>> },
    UpdateOptionalDependencies { dependencies: Option<Seq<Seq<char>>>, group: Seq<char> },
    DisplayProjectVersion,
    Completion { action: ShellActionModel },
}

impl Operation {
    /// The abstract value of this operation selection.
    pub open spec fn abs(&self) -> OperationModel {
        match self {
            Operation::ActivateVenv => OperationModel::ActivateVenv,
            Operation::AddDependencies { dependencies } => OperationModel::AddDependencies {
                dependencies: dependencies.deep_view(),
            },
            Operation::AddOptionalDependencies { dependencies, group } => (
            OperationModel::AddOptionalDependencies {
                dependencies: dependencies.deep_view(),
                group: group@,
            }),
            Operation::BuildProject => OperationModel::BuildProject,
            Operation::CleanProject => OperationModel::CleanProject,
            Operation::FormatProject => OperationModel::FormatProject,
            Operation::LintProject => OperationModel::LintProject,
            Operation::InitAppProject => OperationModel::InitAppProject,
            Operation::InitLibProject => OperationModel::InitLibProject,
            Operation::InstallDependencies => OperationModel::InstallDependencies,
            Operation::InstallOptionalDependencies { groups } => (
            OperationModel::InstallOptionalDependencies { groups: groups.deep_view() }),
            Operation::NewAppProject => OperationModel::NewAppProject,
            Operation::NewLibProject => OperationModel::NewLibProject,
            Operation::PublishProject => OperationModel::PublishProject,
            Operation::ListPython => OperationModel::ListPython,
            Operation::UsePython { version } => OperationModel::UsePython { version: version@ },
            Operation::RemoveDependencies { dependencies } => OperationModel::RemoveDependencies {
                dependencies: dependencies.deep_view(),
            },
            Operation::RemoveOptionalDependencies { dependencies, group } => (
            OperationModel::RemoveOptionalDependencies {
                dependencies: dependencies.deep_view(),
                group: group@,
            }),
            Operation::RunCommand { command } => OperationModel::RunCommand { command: command@ },
            Operation::TestProject => OperationModel::TestProject,
            Operation::UpdateDependencies { dependencies } => OperationModel::UpdateDependencies {
                dependencies: dependencies.deep_view(),
            },
            Operation::UpdateOptionalDependencies { dependencies, group } => (
            OperationModel::UpdateOptionalDependencies {
                dependencies: dependencies.deep_view(),
                group: group@,
            }),
            Operation::DisplayProjectVersion => OperationModel::DisplayProjectVersion,
            Operation::Completion { action } => OperationModel::Completion { action: action.abs() },
        }
    }
}

/// Trailing arguments with one synthetic flag appended after them; an
/// absent list counts as empty, so the flag becomes the sole entry.
pub open spec fn appended_args(trailing: Option<Seq<Seq<char>>>, flag: Seq<char>) -> Seq<
    Seq<char>,
> {
    (match trailing {
        Some(t) => t,
        None => Seq::empty(),
    }).push(flag)
}

/// The words of a run command joined by single spaces.
pub open spec fn joined(parts: Seq<Seq<char>>) -> Seq<char>
    decreases parts.len(),
{
    if parts.len() == 0 {
        Seq::empty()
    } else if parts.len() == 1 {
        parts[0]
    } else {
        joined(parts.drop_last()) + " "@ + parts.last()
    }
}

/// The workspace root an invocation targets: initialization always takes
/// the current directory, creation-at-path always the named path, and
/// every other command the discovered workspace, falling back to the
/// current directory when none was found.
pub open spec fn composed_root(cmd: Command, ws: Option<Seq<char>>, cwd: Seq<char>) -> Seq<char> {
    match cmd {
        Command::Init { .. } => cwd,
        Command::New { path, .. } => path@,
        _ => match ws {
            Some(w) => w,
            None => cwd,
        },
    }
}

/// The build record the command populates, if any.
pub open spec fn expected_build(cmd: Command) -> Option<Option<Seq<Seq<char>>>> {
    match cmd {
        Command::Build { trailing } => Some(trailing.deep_view()),
        _ => None,
    }
}

/// The clean record the command populates, if any.
pub open spec fn expected_clean(cmd: Command) -> Option<CleanModel> {
    match cmd {
        Command::Clean { include_pyc, include_pycache } => Some(
            CleanModel { include_pycache, include_compiled_bytecode: include_pyc },
        ),
        _ => None,
    }
}

/// The format record the command populates, if any: trailing arguments
/// verbatim, with the check flag appended when checking was asked for.
pub open spec fn expected_format(cmd: Command) -> Option<Option<Seq<Seq<char>>>> {
    match cmd {
        Command::Fmt { check, trailing } => Some(
            if check {
                Some(appended_args(trailing.deep_view(), "--check"@))
            } else {
                trailing.deep_view()
            },
        ),
        _ => None,
    }
}

/// The installer record the command populates, if any: the trailing
/// arguments verbatim.
pub open spec fn expected_installer(cmd: Command) -> Option<Option<Seq<Seq<char>>>> {
    match cmd {
        Command::Add { trailing, .. } => Some(trailing.deep_view()),
        Command::Install { trailing, .. } => Some(trailing.deep_view()),
        Command::Remove { trailing, .. } => Some(trailing.deep_view()),
        Command::Update { trailing, .. } => Some(trailing.deep_view()),
        _ => None,
    }
}

/// The lint record the command populates, if any. A fix request always
/// appends the fix flag after the trailing arguments; lint keeps
/// type-checking unless explicitly opted out.
pub open spec fn expected_lint(cmd: Command) -> Option<LintModel> {
    match cmd {
        Command::Fix { trailing } => Some(
            LintModel {
                args: Some(appended_args(trailing.deep_view(), "--fix"@)),
                include_types: false,
            },
        ),
        Command::Lint { fix, no_types, trailing } => Some(
            LintModel {
                args: if fix {
                    Some(appended_args(trailing.deep_view(), "--fix"@))
                } else {
                    trailing.deep_view()
                },
                include_types: !no_types,
            },
        ),
        _ => None,
    }
}

/// The publish record the command populates, if any.
pub open spec fn expected_publish(cmd: Command) -> Option<Option<Seq<Seq<char>>>> {
    match cmd {
        Command::Publish { trailing } => Some(trailing.deep_view()),
        _ => None,
    }
}

/// The test record the command populates, if any.
pub open spec fn expected_test(cmd: Command) -> Option<Option<Seq<Seq<char>>>> {
    match cmd {
        Command::Test { trailing } => Some(trailing.deep_view()),
        _ => None,
    }
}

/// The workspace-creation record the command populates, if any.
pub open spec fn expected_workspace(cmd: Command) -> Option<WorkspaceModel> {
    match cmd {
        Command::Init { no_vcs, .. } => Some(WorkspaceModel { uses_git: !no_vcs }),
        Command::New { no_vcs, .. } => Some(WorkspaceModel { uses_git: !no_vcs }),
        _ => None,
    }
}

/// The full configuration one invocation composes: root and verbosity for
/// every command, plus exactly the records the active command populates.
pub open spec fn composed_model(
    cmd: Command,
    quiet: bool,
    ws: Option<Seq<char>>,
    cwd: Seq<char>,
) -> ConfigModel {
    ConfigModel {
        workspace_root: composed_root(cmd, ws, cwd),
        verbosity: if quiet {
            Verbosity::Quiet
        } else {
            Verbosity::Normal
        },
        build: expected_build(cmd),
        clean: expected_clean(cmd),
        format: expected_format(cmd),
        installer: expected_installer(cmd),
        lint: expected_lint(cmd),
        publish: expected_publish(cmd),
        test: expected_test(cmd),
        workspace: expected_workspace(cmd),
    }
}

/// The operation each command routes to. Dependency-mutating commands
/// route to the optional-group variant exactly when a group was named.
/// The completion command is planned by [`install_plan`],
/// [`uninstall_plan`] or the printed default instead.
pub open spec fn operation_model(cmd: Command) -> OperationModel {
    match cmd {
        Command::Activate => OperationModel::ActivateVenv,
        Command::Add { dependencies, group, .. } => match group {
            Some(g) => OperationModel::AddOptionalDependencies {
                dependencies: dependencies.deep_view(),
                group: g@,
            },
            None => OperationModel::AddDependencies { dependencies: dependencies.deep_view() },
        },
        Command::Build { .. } => OperationModel::BuildProject,
        Command::Clean { .. } => OperationModel::CleanProject,
        Command::Fix { .. } => OperationModel::LintProject,
        Command::Fmt { .. } => OperationModel::FormatProject,
        Command::Init { kind, .. } => match kind {
            ProjectKind::App => OperationModel::InitAppProject,
            ProjectKind::Lib => OperationModel::InitLibProject,
        },
        Command::Install { groups, .. } => match groups {
            Some(g) => OperationModel::InstallOptionalDependencies { groups: g.deep_view() },
            None => OperationModel::InstallDependencies,
        },
        Command::Lint { .. } => OperationModel::LintProject,
        Command::New { kind, .. } => match kind {
            ProjectKind::App => OperationModel::NewAppProject,
            ProjectKind::Lib => OperationModel::NewLibProject,
        },
        Command::Publish { .. } => OperationModel::PublishProject,
        Command::Python { command } => match command {
            Python::List => OperationModel::ListPython,
            Python::Use { version } => OperationModel::UsePython { version: version@ },
        },
        Command::Remove { dependencies, group, .. } => match group {
            Some(g) => OperationModel::RemoveOptionalDependencies {
                dependencies: dependencies.deep_view(),
                group: g@,
            },
            None => OperationModel::RemoveDependencies { dependencies: dependencies.deep_view() },
        },
        Command::Run { command } => OperationModel::RunCommand { command: joined(command.deep_view()) },
        Command::Test { .. } => OperationModel::TestProject,
        Command::Update { dependencies, group, .. } => match group {
            Some(g) => OperationModel::UpdateOptionalDependencies {
                dependencies: dependencies.deep_view(),
                group: g@,
            },
            None => OperationModel::UpdateDependencies { dependencies: dependencies.deep_view() },
        },
        Command::Version => OperationModel::DisplayProjectVersion,
        Command::Completion { .. } => arbitrary(),
    }
}

/// What dispatching one command line yields: for the completion command,
/// the planned action or the planning error; for every other command, the
/// composed configuration and the selected operation, never an error.
pub open spec fn run_outcome(
    cmd: Command,
    quiet: bool,
    ws: Option<Seq<char>>,
    cwd: Seq<char>,
    home: Option<Seq<char>>,
    r: Result<(OperationConfig, Operation), CliError>,
) -> bool {
    match cmd {
        Command::Completion { shell, mode } => ({
            let plan = match mode {
                CompletionMode::Generate => Ok(
                    ShellActionModel::PrintScript { shell: ShellKind::Bash },
                ),
                CompletionMode::Install => install_plan(shell, home),
                CompletionMode::Uninstall => uninstall_plan(shell, home),
            };
            match plan {
                Ok(am) => r matches Ok(p) && p.0.abs() == composed_model(cmd, quiet, ws, cwd)
                    && p.1.abs() == (OperationModel::Completion { action: am }),
                Err(em) => r matches Err(e) && e.abs() == em,
            }
        }),
        _ => r matches Ok(p) && p.0.abs() == composed_model(cmd, quiet, ws, cwd) && p.1.abs()
            == operation_model(cmd),
    }
}

/// Whether `args` is exactly the trailing arguments in their original
/// order (an absent list counting as empty) followed by the one synthetic
/// flag.
pub open spec fn trailing_then_flag(
    args: Seq<Seq<char>>,
    trailing: Option<Seq<Seq<char>>>,
    flag: Seq<char>,
) -> bool {
    let t = (match trailing {
        Some(t) => t,
        None => Seq::empty(),
    });
    &&& args.len() == t.len() + 1
    &&& args.subrange(0, t.len() as int) == t
    &&& args.last() == flag
}

/// Appending one synthetic flag keeps the trailing arguments verbatim and
/// in order, with the flag strictly after them.
proof fn lemma_appended_args_shape(trailing: Option<Seq<Seq<char>>>, flag: Seq<char>)
    ensures
        trailing_then_flag(appended_args(trailing, flag), trailing, flag),
{
    let t = (match trailing {
        Some(t) => t,
        None => Seq::<Seq<char>>::empty(),
    });
    assert(appended_args(trailing, flag).subrange(0, t.len() as int) =~= t);
}

/// For every command carrying trailing arguments, the options record the
/// composed configuration populates holds exactly those arguments in
/// their original order; where the tool itself requests a flag (the fix
/// and check flags), that single synthetic flag stands strictly after
/// them, and everywhere else the list passes through verbatim.
pub proof fn lemma_trailing_passthrough(
    cmd: Command,
    quiet: bool,
    ws: Option<Seq<char>>,
    cwd: Seq<char>,
)
    ensures
        (match cmd {
            Command::Add { trailing, .. } => composed_model(cmd, quiet, ws, cwd).installer == Some(
                trailing.deep_view(),
            ),
            Command::Build { trailing } => composed_model(cmd, quiet, ws, cwd).build == Some(
                trailing.deep_view(),
            ),
            Command::Install { trailing, .. } => composed_model(cmd, quiet, ws, cwd).installer
                == Some(trailing.deep_view()),
            Command::Publish { trailing } => composed_model(cmd, quiet, ws, cwd).publish == Some(
                trailing.deep_view(),
            ),
            Command::Remove { trailing, .. } => composed_model(cmd, quiet, ws, cwd).installer
                == Some(trailing.deep_view()),
            Command::Test { trailing } => composed_model(cmd, quiet, ws, cwd).test == Some(
                trailing.deep_view(),
            ),
            Command::Update { trailing, .. } => composed_model(cmd, quiet, ws, cwd).installer
                == Some(trailing.deep_view()),
            Command::Fix { trailing } => ({
                &&& composed_model(cmd, quiet, ws, cwd).lint matches Some(l)
                &&& l.args matches Some(a)
                &&& trailing_then_flag(a, trailing.deep_view(), "--fix"@)
            }),
            Command::Fmt { check, trailing } => ({
                &&& composed_model(cmd, quiet, ws, cwd).format matches Some(args)
                &&& if check {
                    args matches Some(a) && trailing_then_flag(a, trailing.deep_view(), "--check"@)
                } else {
                    args == trailing.deep_view()
                }
            }),
            Command::Lint { fix, trailing, .. } => ({
                &&& composed_model(cmd, quiet, ws, cwd).lint matches Some(l)
                &&& if fix {
                    l.args matches Some(a) && trailing_then_flag(a, trailing.deep_view(), "--fix"@)
                } else {
                    l.args == trailing.deep_view()
                }
            }),
            _ => true,
        }),
{
    match cmd {
        Command::Fix { trailing } => {
            lemma_appended_args_shape(trailing.deep_view(), "--fix"@);
        },
        Command::Fmt { check, trailing } => {
            if check {
                lemma_appended_args_shape(trailing.deep_view(), "--check"@);
            }
        },
        Command::Lint { fix, trailing, .. } => {
            if fix {
                lemma_appended_args_shape(trailing.deep_view(), "--fix"@);
            }
        },
        _ => {},
    }
}

/// Trailing arguments, or an empty list when none were given, with one
/// synthetic flag pushed at the end.
pub fn append_arg(trailing: Option<Vec<String>>, flag: &str) -> (r: Vec<String>)
    ensures
        r.deep_view() == appended_args(trailing.deep_view(), flag@),
{
    let mut args: Vec<String> = match trailing {
        Some(t) => t,
        None => Vec::new(),
    };
    args.push(String::from_str(flag));
    proof {
        assert(args.deep_view() =~= appended_args(trailing.deep_view(), flag@));
    }
    args
}

/// The words of a run command joined by single spaces.
fn join_with_spaces(parts: &Vec<String>) -> (r: String)
    ensures
        r@ == joined(parts.deep_view()),
{
    let mut out = String::new();
    let mut i: usize = 0;
    proof {
        assert(parts.deep_view().subrange(0, 0) =~= Seq::<Seq<char>>::empty());
    }
    while i < parts.len()
        invariant
            i <= parts.len(),
            out@ == joined(parts.deep_view().subrange(0, i as int)),
        decreases parts.len() - i,
    {
        if i > 0 {
            out.append(" ");
        }
        out.append(parts[i].as_str());
        proof {
            let full = parts.deep_view();
            assert(full.subrange(0, i + 1).drop_last() =~= full.subrange(0, i as int));
            assert(full.subrange(0, i + 1).last() == full[i as int]);
        }
        i = i + 1;
    }
    proof {
        assert(parts.deep_view().subrange(0, parts.len() as int) =~= parts.deep_view());
    }
    out
}

/// The canonical text of each dependency, in order.
fn dependency_strings(dependencies: &Vec<Dependency>) -> (r: Vec<String>)
    ensures
        r.deep_view() == dependencies.deep_view(),
{
    let mut deps: Vec<String> = Vec::new();
    let mut i: usize = 0;
    proof {
        assert(deps.deep_view() =~= dependencies.deep_view().subrange(0, 0));
    }
    while i < dependencies.len()
        invariant
            i <= dependencies.len(),
            deps.len() == i,
            deps.deep_view() == dependencies.deep_view().subrange(0, i as int),
        decreases dependencies.len() - i,
    {
        let text = dependencies[i].to_string();
        proof {
            crate::specifier::lemma_dependency_views_agree(dependencies@[i as int]);
        }
        deps.push(text);
        i = i + 1;
        proof {
            assert(deps.deep_view() =~= dependencies.deep_view().subrange(0, i as int));
        }
    }
    proof {
        assert(dependencies.deep_view().subrange(0, dependencies.len() as int)
            =~= dependencies.deep_view());
    }
    deps
}

fn activate(operation_config: OperationConfig) -> (r: (OperationConfig, Operation))
    ensures
        r.0 == operation_config,
        r.1.abs() == OperationModel::ActivateVenv,
{
    (operation_config, Operation::ActivateVenv)
}

fn add(
    dependencies: Vec<Dependency>,
    group: Option<String>,
    operation_config: OperationConfig,
) -> (r: (OperationConfig, Operation))
    ensures
        r.0 == operation_config,
        r.1.abs() == (match group {
            Some(g) => OperationModel::AddOptionalDependencies {
                dependencies: dependencies.deep_view(),
                group: g@,
            },
            None => OperationModel::AddDependencies { dependencies: dependencies.deep_view() },
        }),
{
    let deps = dependency_strings(&dependencies);
    match group {
        Some(it) => (
            operation_config,
            Operation::AddOptionalDependencies { dependencies: deps, group: it },
        ),
        None => (operation_config, Operation::AddDependencies { dependencies: deps }),
    }
}

fn build(operation_config: OperationConfig) -> (r: (OperationConfig, Operation))
    ensures
        r.0 == operation_config,
        r.1.abs() == OperationModel::BuildProject,
{
    (operation_config, Operation::BuildProject)
}

fn clean(operation_config: OperationConfig) -> (r: (OperationConfig, Operation))
    ensures
        r.0 == operation_config,
        r.1.abs() == OperationModel::CleanProject,
{
    (operation_config, Operation::CleanProject)
}

fn fix(operation_config: OperationConfig) -> (r: (OperationConfig, Operation))
    ensures
        r.0 == operation_config,
        r.1.abs() == OperationModel::LintProject,
{
    (operation_config, Operation::LintProject)
}

fn fmt(operation_config: OperationConfig) -> (r: (OperationConfig, Operation))
    ensures
        r.0 == operation_config,
        r.1.abs() == OperationModel::FormatProject,
{
    (operation_config, Operation::FormatProject)
}

fn init(kind: ProjectKind, operation_config: OperationConfig) -> (r: (OperationConfig, Operation))
    ensures
        r.0 == operation_config,
        r.1.abs() == (match kind {
            ProjectKind::App => OperationModel::InitAppProject,
            ProjectKind::Lib => OperationModel::InitLibProject,
        }),
{
    match kind {
        ProjectKind::App => (operation_config, Operation::InitAppProject),
        ProjectKind::Lib => (operation_config, Operation::InitLibProject),
    }
}

fn install(groups: Option<Vec<String>>, operation_config: OperationConfig) -> (r: (
    OperationConfig,
    Operation,
))
    ensures
        r.0 == operation_config,
        r.1.abs() == (match groups {
            Some(g) => OperationModel::InstallOptionalDependencies { groups: g.deep_view() },
            None => OperationModel::InstallDependencies,
        }),
{
    match groups {
        Some(it) => (operation_config, Operation::InstallOptionalDependencies { groups: it }),
        None => (operation_config, Operation::InstallDependencies),
    }
}

fn lint(operation_config: OperationConfig) -> (r: (OperationConfig, Operation))
    ensures
        r.0 == operation_config,
        r.1.abs() == OperationModel::LintProject,
{
    (operation_config, Operation::LintProject)
}

fn new(kind: ProjectKind, operation_config: OperationConfig) -> (r: (OperationConfig, Operation))
    ensures
        r.0 == operation_config,
        r.1.abs() == (match kind {
            ProjectKind::App => OperationModel::NewAppProject,
            ProjectKind::Lib => OperationModel::NewLibProject,
        }),
{
    match kind {
        ProjectKind::App => (operation_config, Operation::NewAppProject),
        ProjectKind::Lib => (operation_config, Operation::NewLibProject),
    }
}

fn publish(operation_config: OperationConfig) -> (r: (OperationConfig, Operation))
    ensures
        r.0 == operation_config,
        r.1.abs() == OperationModel::PublishProject,
{
    (operation_config, Operation::PublishProject)
}

fn python(command: Python, operation_config: OperationConfig) -> (r: (OperationConfig, Operation))
    ensures
        r.0 == operation_config,
        r.1.abs() == (match command {
            Python::List => OperationModel::ListPython,
            Python::Use { version } => OperationModel::UsePython { version: version@ },
        }),
{
    match command {
        Python::List => (operation_config, Operation::ListPython),
        Python::Use { version } => {
            let text = version.to_string();
            (operation_config, Operation::UsePython { version: text })
        },
    }
}

fn remove(
    dependencies: Vec<String>,
    group: Option<String>,
    operation_config: OperationConfig,
) -> (r: (OperationConfig, Operation))
    ensures
        r.0 == operation_config,
        r.1.abs() == (match group {
            Some(g) => OperationModel::RemoveOptionalDependencies {
                dependencies: dependencies.deep_view(),
                group: g@,
            },
            None => OperationModel::RemoveDependencies { dependencies: dependencies.deep_view() },
        }),
{
    match group {
        Some(it) => (
            operation_config,
            Operation::RemoveOptionalDependencies { dependencies, group: it },
        ),
        None => (operation_config, Operation::RemoveDependencies { dependencies }),
    }
}

fn run(command: Vec<String>, operation_config: OperationConfig) -> (r: (
    OperationConfig,
    Operation,
))
    ensures
        r.0 == operation_config,
        r.1.abs() == (OperationModel::RunCommand { command: joined(command.deep_view()) }),
{
    let joined_command = join_with_spaces(&command);
    (operation_config, Operation::RunCommand { command: joined_command })
}

fn test(operation_config: OperationConfig) -> (r: (OperationConfig, Operation))
    ensures
        r.0 == operation_config,
        r.1.abs() == OperationModel::TestProject,
{
    (operation_config, Operation::TestProject)
}

fn update(
    dependencies: Option<Vec<String>>,
    group: Option<String>,
    operation_config: OperationConfig,
) -> (r: (OperationConfig, Operation))
    ensures
        r.0 == operation_config,
        r.1.abs() == (match group {
            Some(g) => OperationModel::UpdateOptionalDependencies {
                dependencies: dependencies.deep_view(),
                group: g@,
            },
            None => OperationModel::UpdateDependencies { dependencies: dependencies.deep_view() },
        }),
{
    match group {
        Some(it) => (
            operation_config,
            Operation::UpdateOptionalDependencies { dependencies, group: it },
        ),
        None => (operation_config, Operation::UpdateDependencies { dependencies }),
    }
}

fn version(operation_config: OperationConfig) -> (r: (OperationConfig, Operation))
    ensures
        r.0 == operation_config,
        r.1.abs() == OperationModel::DisplayProjectVersion,
{
    (operation_config, Operation::DisplayProjectVersion)
}

/// One parsed invocation: the subcommand plus the global quiet flag.
#[derive(Debug, Clone, PartialEq, Eq)]
pub struct Cli {
    pub command: Command,
    pub quiet: bool,
}

impl Cli {
    /// Composes the configuration for this invocation and selects the one
    /// operation it routes to. `workspace` is the discovered workspace
    /// root, if any; `cwd` the current directory; `home` the user's home
    /// directory, if the environment names one. Only the completion
    /// command can fail here.
    pub fn run(self, workspace: Option<String>, cwd: String, home: Option<String>) -> (r: Result<
        (OperationConfig, Operation),
        CliError,
    >)
        ensures
            run_outcome(
                self.command,
                self.quiet,
                workspace.deep_view(),
                cwd@,
                home.deep_view(),
                r,
            ),
    {
        let workspace_root = match workspace {
            Some(it) => it,
            None => cwd.clone(),
        };
        let verbosity = if self.quiet {
            Verbosity::Quiet
        } else {
            Verbosity::Normal
        };
        let mut operation_config = OperationConfig::new(workspace_root, verbosity);
        match self.command {
            Command::Activate => Ok(activate(operation_config)),
            Command::Add { dependencies, group, trailing } => {
                operation_config.installer_options = Some(InstallerOptions { args: trailing });
                Ok(crate::cli::add(dependencies, group, operation_config))
            },
            Command::Build { trailing } => {
                operation_config.build_options = Some(BuildOptions { args: trailing });
                Ok(build(operation_config))
            },
            Command::Clean { include_pyc, include_pycache } => {
                operation_config.clean_options = Some(
                    CleanOptions { include_pycache, include_compiled_bytecode: include_pyc },
                );
                Ok(clean(operation_config))
            },
            Command::Completion { shell, mode } => match mode {
                CompletionMode::Generate => Ok(
                    (
                        operation_config,
                        Operation::Completion { action: generate_shell_completion_script() },
                    ),
                ),
                CompletionMode::Install => match run_with_install(shell, home.as_ref()) {
                    Ok(action) => Ok((operation_config, Operation::Completion { action })),
                    Err(e) => Err(e),
                },
                CompletionMode::Uninstall => match run_with_uninstall(shell, home.as_ref()) {
                    Ok(action) => Ok((operation_config, Operation::Completion { action })),
                    Err(e) => Err(e),
                },
            },
            Command::Fix { trailing } => {
                operation_config.lint_options = Some(
                    LintOptions { args: Some(append_arg(trailing, "--fix")), include_types: false },
                );
                Ok(fix(operation_config))
            },
            Command::Fmt { check, trailing } => {
                let args = if check {
                    Some(append_arg(trailing, "--check"))
                } else {
                    trailing
                };
                operation_config.format_options = Some(FormatOptions { args });
                Ok(fmt(operation_config))
            },
            Command::Init { kind, no_vcs } => {
                operation_config.workspace_root = cwd;
                operation_config.workspace_options = Some(WorkspaceOptions { uses_git: !no_vcs });
                Ok(init(kind, operation_config))
            },
            Command::Install { groups, trailing } => {
                operation_config.installer_options = Some(InstallerOptions { args: trailing });
                Ok(install(groups, operation_config))
            },
            Command::Lint { fix: fix_flag, no_types, trailing } => {
                let args = if fix_flag {
                    Some(append_arg(trailing, "--fix"))
                } else {
                    trailing
                };
                operation_config.lint_options = Some(
                    LintOptions { args, include_types: !no_types },
                );
                Ok(lint(operation_config))
            },
            Command::New { kind, path, no_vcs } => {
                operation_config.workspace_root = path;
                operation_config.workspace_options = Some(WorkspaceOptions { uses_git: !no_vcs });
                Ok(new(kind, operation_config))
            },
            Command::Publish { trailing } => {
                operation_config.publish_options = Some(PublishOptions { args: trailing });
                Ok(publish(operation_config))
            },
            Command::Python { command } => Ok(python(command, operation_config)),
            Command::Remove { dependencies, group, trailing } => {
                operation_config.installer_options = Some(InstallerOptions { args: trailing });
                Ok(remove(dependencies, group, operation_config))
            },
            Command::Run { command } => Ok(run(command, operation_config)),
            Command::Test { trailing } => {
                operation_config.test_options = Some(TestOptions { args: trailing });
                Ok(test(operation_config))
            },
            Command::Update { dependencies, group, trailing } => {
                operation_config.installer_options = Some(InstallerOptions { args: trailing });
                Ok(update(dependencies, group, operation_config))
            },
            Command::Version => Ok(version(operation_config)),
        }
    }
}

} // verus!

