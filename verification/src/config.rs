//! The per-invocation operation configuration and its mathematical model.
//!
//! One [`OperationConfig`] is composed per invocation. Every sub-operation
//! has at most one options record, and records unrelated to the active
//! command stay absent — not defaulted — so downstream operations can tell
//! "not requested" from "requested with empty settings".

use vstd::prelude::*;

verus! {

/// How much the invocation prints: the single global quiet flag forces
/// quiet, its absence means normal.
#[derive(Debug, Clone, Copy, PartialEq, Eq)]
pub enum Verbosity {
    Quiet,
    Normal,
}

/// Terminal behavior for the invocation.
#[derive(Debug, Clone, Copy, PartialEq, Eq)]
pub struct TerminalOptions {
    pub verbosity: Verbosity,
}

/// Extra arguments for the dependency installer.
#[derive(Debug, Clone, PartialEq, Eq)]
pub struct InstallerOptions {
    pub args: Option<Vec<String>>,
}

/// Extra arguments for the build backend.
#[derive(Debug, Clone, PartialEq, Eq)]
pub struct BuildOptions {
    pub args: Option<Vec<String>>,
}

/// What the clean operation removes besides build artifacts.
#[derive(Debug, Clone, Copy, PartialEq, Eq)]
pub struct CleanOptions {
    pub include_pycache: bool,
    pub include_compiled_bytecode: bool,
}

/// Extra arguments for the formatter.
#[derive(Debug, Clone, PartialEq, Eq)]
pub struct FormatOptions {
    pub args: Option<Vec<String>>,
}

/// Extra arguments for the linter, plus whether type-checking runs.
#[derive(Debug, Clone, PartialEq, Eq)]
pub struct LintOptions {
    pub args: Option<Vec<String>>,
    pub include_types: bool,
}

/// Extra arguments for the publish backend.
#[derive(Debug, Clone, PartialEq, Eq)]
pub struct PublishOptions {
    pub args: Option<Vec<String>>,
}

/// Extra arguments for the test runner.
#[derive(Debug, Clone, PartialEq, Eq)]
pub struct TestOptions {
    pub args: Option<Vec<String>>,
}

/// Settings for creating or initializing a project workspace.
#[derive(Debug, Clone, Copy, PartialEq, Eq)]
pub struct WorkspaceOptions {
    pub uses_git: bool,
}

/// The aggregate request describing one invocation, handed to exactly one
/// external operation.
#[derive(Debug, Clone, PartialEq, Eq)]
pub struct OperationConfig {
    pub workspace_root: String,
    pub terminal_options: TerminalOptions,
    pub build_options: Option<BuildOptions>,
    pub clean_options: Option<CleanOptions>,
    pub format_options: Option<FormatOptions>,
    pub installer_options: Option<InstallerOptions>,
    pub lint_options: Option<LintOptions>,
    pub publish_options: Option<PublishOptions>,
    pub test_options: Option<TestOptions>,
    pub workspace_options: Option<WorkspaceOptions>,
}

/// Abstract linter settings.
pub ghost struct LintModel {
    pub args: Option<Seq<Seq<char>>>,
    pub include_types: bool,
}

/// Abstract clean settings.
pub ghost struct CleanModel {
    pub include_pycache: bool,
    pub include_compiled_bytecode: bool,
}

/// Abstract workspace-creation settings.
pub ghost struct WorkspaceModel {
    pub uses_git: bool,
}

/// The mathematical value of an [`OperationConfig`]: every string as its
/// character sequence, every record as its settings, absent records as
/// `None`.
pub ghost struct ConfigModel {
    pub workspace_root: Seq<char>,
    pub verbosity: Verbosity,
    pub build: Option<Option<Seq<Seq<char>>>>,
    pub clean: Option<CleanModel>,
    pub format: Option<Option<Seq<Seq<char>>>>,
    pub installer: Option<Option<Seq<Seq<char>>>>,
    pub lint: Option<LintModel>,
    pub publish: Option<Option<Seq<Seq<char>>>>,
    pub test: Option<Option<Seq<Seq<char>>>>,
    pub workspace: Option<WorkspaceModel>,
}

impl OperationConfig {
    /// The abstract value of this configuration.
    pub open spec fn abs(&self) -> ConfigModel {
        ConfigModel {
            workspace_root: self.workspace_root@,
            verbosity: self.terminal_options.verbosity,
            build: match self.build_options {
                Some(o) => Some(o.args.deep_view()),
                None => None,
            },
            clean: match self.clean_options {
                Some(o) => Some(
                    CleanModel {
                        include_pycache: o.include_pycache,
                        include_compiled_bytecode: o.include_compiled_bytecode,
                    },
                ),
                None => None,
            },
            format: match self.format_options {
                Some(o) => Some(o.args.deep_view()),
                None => None,
            },
            installer: match self.installer_options {
                Some(o) => Some(o.args.deep_view()),
                None => None,
            },
            lint: match self.lint_options {
                Some(o) => Some(
                    LintModel { args: o.args.deep_view(), include_types: o.include_types },
                ),
                None => None,
            },
            publish: match self.publish_options {
                Some(o) => Some(o.args.deep_view()),
                None => None,
            },
            test: match self.test_options {
                Some(o) => Some(o.args.deep_view()),
                None => None,
            },
            workspace: match self.workspace_options {
                Some(o) => Some(WorkspaceModel { uses_git: o.uses_git }),
                None => None,
            },
        }
    }

    /// The configuration every dispatch starts from: the resolved root and
    /// verbosity, no options record populated.
    pub fn new(workspace_root: String, verbosity: Verbosity) -> (c: OperationConfig)
        ensures
            c.abs() == (ConfigModel {
                workspace_root: workspace_root@,
                verbosity: verbosity,
                build: None,
                clean: None,
                format: None,
                installer: None,
                lint: None,
                publish: None,
                test: None,
                workspace: None,
            }),
    {
        OperationConfig {
            workspace_root,
            terminal_options: TerminalOptions { verbosity },
            build_options: None,
            clean_options: None,
            format_options: None,
            installer_options: None,
            lint_options: None,
            publish_options: None,
            test_options: None,
            workspace_options: None,
        }
    }
}

} // verus!
