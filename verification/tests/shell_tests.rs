use huak_cli::cli::Cli;
use huak_cli::cli::Command;
use huak_cli::cli::Operation;
use huak_cli::shell::add_completion_bash;
use huak_cli::shell::completion_block_text;
use huak_cli::shell::generate_shell_completion_script;
use huak_cli::shell::run_with_install;
use huak_cli::shell::run_with_uninstall;
use huak_cli::shell::strip_completion_blocks;
use huak_cli::shell::CompletionMode;
use huak_cli::shell::ShellAction;
use huak_cli::shell::ShellKind;
use huak_cli::CliError;

#[test]
fn block_is_blank_line_eval_line_blank_line() {
    assert_eq!(
        completion_block_text(),
        "\neval \"$(huak config completion)\"\n"
    );
}

#[test]
fn install_then_uninstall_restores_content_exactly() {
    let before = "# .bashrc\nalias ll='ls -l'\n";
    let after_install = format!("{}{}", before, completion_block_text());
    let after_uninstall = strip_completion_blocks(after_install.as_str());
    assert_eq!(after_uninstall, before);
}

#[test]
fn repeated_install_duplicates_and_one_uninstall_removes_all() {
    let before = "export PATH=$PATH\n";
    let block = completion_block_text();
    let twice = format!("{}{}{}", before, block, block);
    // Repeated installs duplicate the block rather than deduplicating.
    assert_eq!(twice.matches(block.as_str()).count(), 2);
    // One uninstall removes every occurrence.
    assert_eq!(strip_completion_blocks(twice.as_str()), before);
}

#[test]
fn uninstall_leaves_content_without_block_unchanged() {
    let content = "# nothing to see\nexport A=1\n";
    assert_eq!(strip_completion_blocks(content), content);
}

#[test]
fn strip_on_empty_content_is_empty() {
    assert_eq!(strip_completion_blocks(""), "");
}

#[test]
fn bash_install_targets_the_startup_file() {
    let home = "/home/someone".to_string();
    match run_with_install(Some(ShellKind::Bash), Some(&home)).unwrap() {
        ShellAction::AppendBlock { path } => assert_eq!(path, "/home/someone/.bashrc"),
        other => panic!("expected append, got {:?}", other),
    }
    match run_with_uninstall(Some(ShellKind::Bash), Some(&home)).unwrap() {
        ShellAction::RemoveBlock { path } => assert_eq!(path, "/home/someone/.bashrc"),
        other => panic!("expected block removal, got {:?}", other),
    }
}

#[test]
fn fish_uses_per_user_completions_directory() {
    let home = "/home/someone".to_string();
    match run_with_install(Some(ShellKind::Fish), Some(&home)).unwrap() {
        ShellAction::WriteScript { path, shell } => {
            assert_eq!(path, "/home/someone/.config/fish/completions/huak.fish");
            assert_eq!(shell, ShellKind::Fish);
        }
        other => panic!("expected script write, got {:?}", other),
    }
    match run_with_uninstall(Some(ShellKind::Fish), Some(&home)).unwrap() {
        ShellAction::DeleteFile { path } => {
            assert_eq!(path, "/home/someone/.config/fish/completions/huak.fish");
        }
        other => panic!("expected file delete, got {:?}", other),
    }
}

#[test]
fn zsh_uses_system_completions_directory() {
    match run_with_install(Some(ShellKind::Zsh), None).unwrap() {
        ShellAction::WriteScript { path, shell } => {
            assert_eq!(path, "/usr/local/share/zsh/site-functions/_huak");
            assert_eq!(shell, ShellKind::Zsh);
        }
        other => panic!("expected script write, got {:?}", other),
    }
    match run_with_uninstall(Some(ShellKind::Zsh), None).unwrap() {
        ShellAction::DeleteFile { path } => {
            assert_eq!(path, "/usr/local/share/zsh/site-functions/_huak");
        }
        other => panic!("expected file delete, got {:?}", other),
    }
}

#[test]
fn unsupported_shells_yield_unimplemented() {
    let e = run_with_install(Some(ShellKind::Elvish), None).unwrap_err();
    match e {
        CliError::Unimplemented { message } => assert_eq!(message, "elvish completion"),
        other => panic!("expected unimplemented, got {:?}", other),
    }
    let e = run_with_uninstall(Some(ShellKind::PowerShell), None).unwrap_err();
    assert!(matches!(e, CliError::Unimplemented { .. }));
}

#[test]
fn missing_home_is_a_hard_failure_for_per_user_shells() {
    let e = run_with_install(Some(ShellKind::Bash), None).unwrap_err();
    assert!(matches!(e, CliError::Io { .. }));
    let e = run_with_uninstall(Some(ShellKind::Fish), None).unwrap_err();
    assert!(matches!(e, CliError::Io { .. }));
}

#[test]
fn install_without_shell_is_a_configuration_error() {
    // `completion --install` with no shell named: the error comes back
    // before any action is planned, so no file is ever touched.
    let cli = Cli {
        command: Command::Completion { shell: None, mode: CompletionMode::Install },
        quiet: false,
    };
    let e = cli.run(None, "/cwd".to_string(), Some("/home/x".to_string())).unwrap_err();
    match e {
        CliError::Configuration { message } => assert_eq!(message, "no shell provided"),
        other => panic!("expected configuration error, got {:?}", other),
    }

    let e = run_with_uninstall(None, None).unwrap_err();
    assert!(matches!(e, CliError::Configuration { .. }));
}

#[test]
fn no_intent_prints_default_shell_script() {
    assert!(matches!(
        generate_shell_completion_script(),
        ShellAction::PrintScript { shell: ShellKind::Bash }
    ));
    let cli = Cli {
        command: Command::Completion { shell: None, mode: CompletionMode::Generate },
        quiet: false,
    };
    let (_, op) = cli.run(None, "/cwd".to_string(), None).unwrap();
    assert!(matches!(
        op,
        Operation::Completion { action: ShellAction::PrintScript { shell: ShellKind::Bash } }
    ));
}

#[test]
fn completion_install_through_dispatch_plans_bash_append() {
    let cli = Cli {
        command: Command::Completion {
            shell: Some(ShellKind::Bash),
            mode: CompletionMode::Install,
        },
        quiet: false,
    };
    let (_, op) = cli
        .run(None, "/cwd".to_string(), Some("/home/someone".to_string()))
        .unwrap();
    match op {
        Operation::Completion { action: ShellAction::AppendBlock { path } } => {
            assert_eq!(path, "/home/someone/.bashrc");
        }
        other => panic!("expected append plan, got {:?}", other),
    }
}

#[test]
fn planned_paths_follow_the_injected_home() {
    // The planner derives the target from the injected home directory, not
    // from the process environment.
    match add_completion_bash("/tmp/synthetic-home") {
        ShellAction::AppendBlock { path } => assert_eq!(path, "/tmp/synthetic-home/.bashrc"),
        other => panic!("expected append, got {:?}", other),
    }
}
