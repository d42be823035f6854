use clap_allgen::completions::completion_files;
use clap_allgen::manpages::man_page_files;
use clap_allgen::CommandNode;

fn leaf(name: &str) -> CommandNode {
    CommandNode { name: name.to_string(), bin_name: None, subcommands: Vec::new() }
}

fn node(name: &str, subcommands: Vec<CommandNode>) -> CommandNode {
    CommandNode { name: name.to_string(), bin_name: None, subcommands }
}

#[test]
fn completion_file_names_for_example_binary() {
    let root = leaf("this-is-example");
    let files = completion_files(&root);
    let names: Vec<&str> = files.iter().map(|f| f.file_name.as_str()).collect();
    assert_eq!(
        names,
        vec![
            "this-is-example.bash",
            "this-is-example.elv",
            "this-is-example.fish",
            "_this-is-example.ps1",
            "_this-is-example",
            "this-is-example.nu",
            "this-is-example.ts",
            "this-is-example.yaml",
        ]
    );
}

#[test]
fn completion_files_use_declared_binary_name() {
    let root = CommandNode {
        name: "tool".to_string(),
        bin_name: Some("custom-bin".to_string()),
        subcommands: vec![leaf("run")],
    };
    let files = completion_files(&root);
    assert_eq!(files.len(), 8);
    assert_eq!(files[0].file_name, "custom-bin.bash");
    assert_eq!(files[4].file_name, "_custom-bin");
}

#[test]
fn completion_scripts_mention_the_binary_name() {
    let root = node("this-is-example", vec![leaf("first"), leaf("second")]);
    let files = completion_files(&root);
    for file in &files {
        assert!(!file.contents.is_empty(), "{} is empty", file.file_name);
        let text = String::from_utf8_lossy(&file.contents);
        assert!(
            text.contains("this-is-example"),
            "{} does not mention the binary name",
            file.file_name
        );
    }
}

#[test]
fn completion_generation_is_idempotent() {
    let root = node("app", vec![leaf("one"), leaf("two")]);
    let first = completion_files(&root);
    let second = completion_files(&root);
    assert_eq!(first.len(), second.len());
    for (a, b) in first.iter().zip(second.iter()) {
        assert_eq!(a.file_name, b.file_name);
        assert_eq!(a.contents, b.contents);
    }
}

#[test]
fn manpages_for_flat_hierarchy() {
    let root = node("root", vec![leaf("First"), leaf("Second"), leaf("Third")]);
    let files = man_page_files(&root);
    let names: Vec<&str> = files.iter().map(|f| f.file_name.as_str()).collect();
    assert_eq!(names, vec!["root.1", "root-First.1", "root-Second.1", "root-Third.1"]);
}

#[test]
fn manpages_for_nested_hierarchy_skip_help_names() {
    let root = node("app", vec![node("config", vec![leaf("set"), leaf("get-help")])]);
    let files = man_page_files(&root);
    let names: Vec<&str> = files.iter().map(|f| f.file_name.as_str()).collect();
    assert_eq!(names, vec!["app.1", "app-config.1", "app-config-set.1"]);
}

#[test]
fn manpages_skip_drops_the_whole_subtree() {
    let root = node("app", vec![node("config", vec![node("get-help", vec![leaf("deep")])])]);
    let files = man_page_files(&root);
    let names: Vec<&str> = files.iter().map(|f| f.file_name.as_str()).collect();
    assert_eq!(names, vec!["app.1", "app-config.1"]);
}

#[test]
fn manpage_contents_carry_the_display_name() {
    let root = node("app", vec![leaf("config")]);
    let files = man_page_files(&root);
    assert_eq!(files.len(), 2);
    let text = String::from_utf8_lossy(&files[1].contents);
    assert!(text.contains(".TH"), "man page is not troff");
    assert!(text.contains("app-config"), "man page does not carry the joined name");
}

#[test]
fn manpage_generation_is_idempotent() {
    let root = node("app", vec![node("config", vec![leaf("set"), leaf("get")])]);
    let first = man_page_files(&root);
    let second = man_page_files(&root);
    assert_eq!(first.len(), second.len());
    for (a, b) in first.iter().zip(second.iter()) {
        assert_eq!(a.file_name, b.file_name);
        assert_eq!(a.contents, b.contents);
    }
}
