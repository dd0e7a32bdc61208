use huak_cli::cli::Cli;
use huak_cli::cli::Command;
use huak_cli::cli::Operation;
use huak_cli::cli::ProjectKind;
use huak_cli::cli::Python;
use huak_cli::config::LintOptions;
use huak_cli::config::Verbosity;
use huak_cli::specifier::Dependency;
use huak_cli::CliError;

fn strings(items: &[&str]) -> Vec<String> {
    items.iter().map(|s| s.to_string()).collect()
}

#[test]
fn add_with_group_routes_to_optional_variant() {
    // End-to-end `add requests@2.28 --group dev`.
    let cli = Cli {
        command: Command::Add {
            dependencies: vec![Dependency::from_str("requests@2.28")],
            group: Some("dev".to_string()),
            trailing: None,
        },
        quiet: false,
    };
    let (config, op) = cli.run(Some("/ws".to_string()), "/cwd".to_string(), None).unwrap();
    match op {
        Operation::AddOptionalDependencies { dependencies, group } => {
            assert_eq!(dependencies, strings(&["requests==2.28"]));
            assert_eq!(group, "dev");
        }
        other => panic!("expected optional-group add, got {:?}", other),
    }
    assert_eq!(config.workspace_root, "/ws");
    let installer = config.installer_options.unwrap();
    assert_eq!(installer.args, None);
    assert!(config.build_options.is_none());
    assert!(config.lint_options.is_none());
}

#[test]
fn add_without_group_routes_to_primary_variant() {
    let cli = Cli {
        command: Command::Add {
            dependencies: vec![Dependency::from_str("numpy")],
            group: None,
            trailing: Some(strings(&["--quiet-install"])),
        },
        quiet: false,
    };
    let (config, op) = cli.run(None, "/cwd".to_string(), None).unwrap();
    match op {
        Operation::AddDependencies { dependencies } => {
            assert_eq!(dependencies, strings(&["numpy"]));
        }
        other => panic!("expected primary add, got {:?}", other),
    }
    let installer = config.installer_options.unwrap();
    assert_eq!(installer.args, Some(strings(&["--quiet-install"])));
}

#[test]
fn workspace_falls_back_to_current_directory() {
    let cli = Cli { command: Command::Activate, quiet: false };
    let (config, op) = cli.run(None, "/cwd".to_string(), None).unwrap();
    assert_eq!(config.workspace_root, "/cwd");
    assert!(matches!(op, Operation::ActivateVenv));
}

#[test]
fn init_always_targets_current_directory() {
    let cli = Cli {
        command: Command::Init { kind: ProjectKind::App, no_vcs: false },
        quiet: false,
    };
    let (config, op) = cli.run(Some("/ws".to_string()), "/cwd".to_string(), None).unwrap();
    assert_eq!(config.workspace_root, "/cwd");
    assert!(matches!(op, Operation::InitAppProject));
    assert!(config.workspace_options.unwrap().uses_git);
}

#[test]
fn new_targets_the_named_path() {
    let cli = Cli {
        command: Command::New {
            kind: ProjectKind::Lib,
            path: "/somewhere/pkg".to_string(),
            no_vcs: true,
        },
        quiet: false,
    };
    let (config, op) = cli.run(Some("/ws".to_string()), "/cwd".to_string(), None).unwrap();
    assert_eq!(config.workspace_root, "/somewhere/pkg");
    assert!(matches!(op, Operation::NewLibProject));
    assert!(!config.workspace_options.unwrap().uses_git);
}

#[test]
fn quiet_flag_forces_quiet_verbosity() {
    let cli = Cli { command: Command::Version, quiet: true };
    let (config, op) = cli.run(None, "/cwd".to_string(), None).unwrap();
    assert_eq!(config.terminal_options.verbosity, Verbosity::Quiet);
    assert!(matches!(op, Operation::DisplayProjectVersion));

    let cli = Cli { command: Command::Version, quiet: false };
    let (config, _) = cli.run(None, "/cwd".to_string(), None).unwrap();
    assert_eq!(config.terminal_options.verbosity, Verbosity::Normal);
}

#[test]
fn fix_appends_fix_flag_after_trailing_arguments() {
    let cli = Cli {
        command: Command::Fix { trailing: Some(strings(&["--select", "E501"])) },
        quiet: false,
    };
    let (config, op) = cli.run(None, "/cwd".to_string(), None).unwrap();
    assert!(matches!(op, Operation::LintProject));
    assert_eq!(
        config.lint_options.unwrap(),
        LintOptions { args: Some(strings(&["--select", "E501", "--fix"])), include_types: false }
    );
}

#[test]
fn fix_without_trailing_arguments_has_only_fix_flag() {
    let cli = Cli { command: Command::Fix { trailing: None }, quiet: false };
    let (config, _) = cli.run(None, "/cwd".to_string(), None).unwrap();
    assert_eq!(config.lint_options.unwrap().args, Some(strings(&["--fix"])));
}

#[test]
fn fmt_check_without_trailing_has_only_check_flag() {
    let cli = Cli { command: Command::Fmt { check: true, trailing: None }, quiet: false };
    let (config, op) = cli.run(None, "/cwd".to_string(), None).unwrap();
    assert!(matches!(op, Operation::FormatProject));
    assert_eq!(config.format_options.unwrap().args, Some(strings(&["--check"])));
}

#[test]
fn fmt_check_appends_after_trailing_arguments() {
    let cli = Cli {
        command: Command::Fmt { check: true, trailing: Some(strings(&["-x"])) },
        quiet: false,
    };
    let (config, _) = cli.run(None, "/cwd".to_string(), None).unwrap();
    assert_eq!(config.format_options.unwrap().args, Some(strings(&["-x", "--check"])));
}

#[test]
fn fmt_without_check_passes_trailing_through() {
    let cli = Cli { command: Command::Fmt { check: false, trailing: None }, quiet: false };
    let (config, _) = cli.run(None, "/cwd".to_string(), None).unwrap();
    assert_eq!(config.format_options.unwrap().args, None);
}

#[test]
fn lint_keeps_types_unless_opted_out() {
    let cli = Cli {
        command: Command::Lint { fix: false, no_types: false, trailing: None },
        quiet: false,
    };
    let (config, _) = cli.run(None, "/cwd".to_string(), None).unwrap();
    assert_eq!(
        config.lint_options.unwrap(),
        LintOptions { args: None, include_types: true }
    );

    let cli = Cli {
        command: Command::Lint { fix: true, no_types: true, trailing: Some(strings(&["-v"])) },
        quiet: false,
    };
    let (config, _) = cli.run(None, "/cwd".to_string(), None).unwrap();
    assert_eq!(
        config.lint_options.unwrap(),
        LintOptions { args: Some(strings(&["-v", "--fix"])), include_types: false }
    );
}

#[test]
fn clean_maps_both_flags() {
    let cli = Cli {
        command: Command::Clean { include_pyc: true, include_pycache: false },
        quiet: false,
    };
    let (config, op) = cli.run(None, "/cwd".to_string(), None).unwrap();
    assert!(matches!(op, Operation::CleanProject));
    let clean = config.clean_options.unwrap();
    assert!(clean.include_compiled_bytecode);
    assert!(!clean.include_pycache);
}

#[test]
fn build_test_publish_pass_trailing_through() {
    let cli = Cli {
        command: Command::Build { trailing: Some(strings(&["--sdist"])) },
        quiet: false,
    };
    let (config, op) = cli.run(None, "/cwd".to_string(), None).unwrap();
    assert!(matches!(op, Operation::BuildProject));
    assert_eq!(config.build_options.unwrap().args, Some(strings(&["--sdist"])));

    let cli = Cli { command: Command::Test { trailing: Some(strings(&["-k", "smoke"])) }, quiet: false };
    let (config, op) = cli.run(None, "/cwd".to_string(), None).unwrap();
    assert!(matches!(op, Operation::TestProject));
    assert_eq!(config.test_options.unwrap().args, Some(strings(&["-k", "smoke"])));

    let cli = Cli { command: Command::Publish { trailing: None }, quiet: false };
    let (config, op) = cli.run(None, "/cwd".to_string(), None).unwrap();
    assert!(matches!(op, Operation::PublishProject));
    assert_eq!(config.publish_options.unwrap().args, None);
}

#[test]
fn install_routes_by_groups() {
    let cli = Cli {
        command: Command::Install { groups: Some(strings(&["dev", "docs"])), trailing: None },
        quiet: false,
    };
    let (_, op) = cli.run(None, "/cwd".to_string(), None).unwrap();
    match op {
        Operation::InstallOptionalDependencies { groups } => {
            assert_eq!(groups, strings(&["dev", "docs"]));
        }
        other => panic!("expected optional install, got {:?}", other),
    }

    let cli = Cli { command: Command::Install { groups: None, trailing: None }, quiet: false };
    let (_, op) = cli.run(None, "/cwd".to_string(), None).unwrap();
    assert!(matches!(op, Operation::InstallDependencies));
}

#[test]
fn remove_and_update_route_by_group() {
    let cli = Cli {
        command: Command::Remove {
            dependencies: strings(&["requests"]),
            group: Some("dev".to_string()),
            trailing: None,
        },
        quiet: false,
    };
    let (_, op) = cli.run(None, "/cwd".to_string(), None).unwrap();
    match op {
        Operation::RemoveOptionalDependencies { dependencies, group } => {
            assert_eq!(dependencies, strings(&["requests"]));
            assert_eq!(group, "dev");
        }
        other => panic!("expected optional remove, got {:?}", other),
    }

    let cli = Cli {
        command: Command::Update { dependencies: None, group: None, trailing: None },
        quiet: false,
    };
    let (_, op) = cli.run(None, "/cwd".to_string(), None).unwrap();
    match op {
        Operation::UpdateDependencies { dependencies } => assert_eq!(dependencies, None),
        other => panic!("expected primary update, got {:?}", other),
    }
}

#[test]
fn run_joins_command_words_with_spaces() {
    let cli = Cli {
        command: Command::Run { command: strings(&["python", "-m", "http.server"]) },
        quiet: false,
    };
    let (_, op) = cli.run(None, "/cwd".to_string(), None).unwrap();
    match op {
        Operation::RunCommand { command } => assert_eq!(command, "python -m http.server"),
        other => panic!("expected run command, got {:?}", other),
    }
}

#[test]
fn python_subcommands_route_to_interpreter_operations() {
    let cli = Cli { command: Command::Python { command: Python::List }, quiet: false };
    let (_, op) = cli.run(None, "/cwd".to_string(), None).unwrap();
    assert!(matches!(op, Operation::ListPython));

    let version = huak_cli::specifier::PythonVersion::from_str("3.11").unwrap();
    let cli = Cli { command: Command::Python { command: Python::Use { version } }, quiet: false };
    let (_, op) = cli.run(None, "/cwd".to_string(), None).unwrap();
    match op {
        Operation::UsePython { version } => assert_eq!(version, "3.11"),
        other => panic!("expected use-python, got {:?}", other),
    }
}

#[test]
fn version_parse_failure_aborts_before_composition() {
    // `python use 3.10.4` fails at specifier validation, so no command is
    // ever composed from it.
    let err = huak_cli::specifier::PythonVersion::from_str("3.10.4").unwrap_err();
    match err {
        CliError::VersionGranularity { token } => assert_eq!(token, "3.10.4"),
        other => panic!("expected granularity error, got {:?}", other),
    }
}
