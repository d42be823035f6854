use clap_allgen::dialect::all_dialects;
use clap_allgen::error::{completion_write_outcome, directory_create_outcome, man_write_outcome};
use clap_allgen::hierarchy::{is_wf, name_contains_help};
use clap_allgen::{CommandNode, Error, ShellDialect};

fn leaf(name: &str) -> CommandNode {
    CommandNode { name: name.to_string(), bin_name: None, subcommands: Vec::new() }
}

fn denied() -> std::io::Error {
    std::io::Error::new(std::io::ErrorKind::PermissionDenied, "denied")
}

#[test]
fn help_substring_detection() {
    assert!(name_contains_help("help"));
    assert!(name_contains_help("get-help"));
    assert!(name_contains_help("helper"));
    assert!(name_contains_help("my-help-command"));
    assert!(!name_contains_help("hel"));
    assert!(!name_contains_help(""));
    assert!(!name_contains_help("Help"));
}

#[test]
fn well_formedness_accepts_distinct_names() {
    let root = CommandNode {
        name: "app".to_string(),
        bin_name: None,
        subcommands: vec![leaf("one"), leaf("two")],
    };
    assert!(is_wf(&root));
}

#[test]
fn well_formedness_rejects_duplicate_names() {
    let root = CommandNode {
        name: "app".to_string(),
        bin_name: None,
        subcommands: vec![leaf("one"), leaf("one")],
    };
    assert!(!is_wf(&root));
}

#[test]
fn well_formedness_rejects_a_help_subcommand() {
    let root = CommandNode {
        name: "app".to_string(),
        bin_name: None,
        subcommands: vec![leaf("help")],
    };
    assert!(!is_wf(&root));
}

#[test]
fn well_formedness_checks_nested_levels() {
    let inner = CommandNode {
        name: "config".to_string(),
        bin_name: None,
        subcommands: vec![leaf("set"), leaf("set")],
    };
    let root = CommandNode { name: "app".to_string(), bin_name: None, subcommands: vec![inner] };
    assert!(!is_wf(&root));
}

#[test]
fn dialect_labels_and_file_names() {
    let labels: Vec<String> = all_dialects().iter().map(|d| d.label()).collect();
    assert_eq!(
        labels,
        vec!["bash", "elvish", "fish", "powershell", "zsh", "nushell", "fig", "carapace"]
    );
    assert_eq!(ShellDialect::Zsh.file_name("x"), "_x");
    assert_eq!(ShellDialect::PowerShell.file_name("x"), "_x.ps1");
    assert_eq!(ShellDialect::Bash.file_name("x"), "x.bash");
}

#[test]
fn directory_outcome_maps_to_directory_error() {
    match directory_create_outcome(Err(denied())) {
        Err(Error::DirectoryCreate(_)) => {}
        _ => panic!("expected a directory-creation error"),
    }
    assert!(directory_create_outcome(Ok(())).is_ok());
}

#[test]
fn completion_outcome_names_the_dialect() {
    match completion_write_outcome(&ShellDialect::Bash, Err(denied())) {
        Err(Error::ShellFile(_, label)) => assert_eq!(label, "bash"),
        _ => panic!("expected a shell-file error"),
    }
    assert!(completion_write_outcome(&ShellDialect::Zsh, Ok(())).is_ok());
}

#[test]
fn man_outcome_names_the_path() {
    match man_write_outcome("out/app.1", Err(denied())) {
        Err(Error::ManFile(_, path)) => assert_eq!(path, "out/app.1"),
        _ => panic!("expected a man-file error"),
    }
    assert!(man_write_outcome("out/app.1", Ok(())).is_ok());
}
