use forge_cli::error::ScaffoldError;
use forge_cli::substitute::{render_file, PLACEHOLDER};
use forge_cli::tree::{check_target, materialize, materialize_entry, TreeEntry};

fn file(path: &str, content: &[u8]) -> TreeEntry {
    TreeEntry::File { path: path.to_string(), content: content.to_vec() }
}

fn dir(path: &str) -> TreeEntry {
    TreeEntry::Directory { path: path.to_string() }
}

fn content_of<'a>(tree: &'a [TreeEntry], path: &str) -> &'a [u8] {
    for e in tree {
        if let TreeEntry::File { path: p, content } = e {
            if p == path {
                return content;
            }
        }
    }
    panic!("no file {}", path)
}

#[test]
fn test_scaffold_project_copies_and_replaces() {
    let template = vec![
        dir(""),
        dir("src"),
        file("src/main.rs", b"fn main() { println!(\"__PROJECT_NAME__\"); }"),
        file("icon.png", b"\x89PNG\r\n\x1a\n"),
    ];
    let project_name = "test-runner";
    let out = materialize("target/test-runner", false, project_name, &template).unwrap();

    assert!(out.iter().any(|e| !e.is_dir() && e.path() == "src/main.rs"));
    assert!(out.iter().any(|e| !e.is_dir() && e.path() == "icon.png"));

    let content = String::from_utf8(content_of(&out, "src/main.rs").to_vec()).unwrap();
    assert!(content.contains("fn main() { println!(\"test-runner\"); }"));
    assert!(!content.contains("__PROJECT_NAME__"));

    assert_eq!(content_of(&out, "icon.png"), b"\x89PNG\r\n\x1a\n");
}

#[test]
fn test_scaffold_project_fails_if_exists() {
    let target = "tmp/already-exists";
    let template: Vec<TreeEntry> = vec![dir("")];
    let result = materialize(target, true, "already-exists", &template);

    assert!(result.is_err());
    assert_eq!(
        result.err().unwrap().message(),
        format!("Directory '{}' already exists.", target)
    );
}

#[test]
fn scenario_text_and_binary_files() {
    let template = vec![
        dir(""),
        dir("src"),
        file("src/main.txt", b"hello __PROJECT_NAME__"),
        dir("assets"),
        file("assets/logo.bin", b"\x89PNG\r\n\x1a\n\x00\x00"),
    ];
    let out = materialize("demo", false, "demo", &template).unwrap();
    assert_eq!(content_of(&out, "src/main.txt"), b"hello demo");
    assert_eq!(content_of(&out, "assets/logo.bin"), b"\x89PNG\r\n\x1a\n\x00\x00");
}

#[test]
fn structure_is_mirrored() {
    let template = vec![
        dir(""),
        dir("src"),
        file("src/main.rs", b"__PROJECT_NAME__"),
        dir("src/routes"),
        file("Cargo.toml", b"name = \"__PROJECT_NAME__\""),
        file("favicon.ico", &[0xff, 0xfe, 0x00]),
    ];
    let out = materialize("app", false, "app", &template).unwrap();
    assert_eq!(out.len(), template.len());
    for (a, b) in template.iter().zip(out.iter()) {
        assert_eq!(a.path(), b.path());
        assert_eq!(a.is_dir(), b.is_dir());
    }
}

#[test]
fn empty_template_gives_empty_tree() {
    let template: Vec<TreeEntry> = Vec::new();
    assert_eq!(materialize("x", false, "x", &template), Ok(Vec::new()));
}

#[test]
fn existing_target_yields_nothing_to_write() {
    let template = vec![dir(""), file("a.txt", b"__PROJECT_NAME__")];
    let r = materialize("here", true, "here", &template);
    assert_eq!(r, Err(ScaffoldError::TargetAlreadyExists { path: "here".to_string() }));
    assert_eq!(check_target("here", false), Ok(()));
    assert!(check_target("here", true).is_err());
}

#[test]
fn every_occurrence_is_replaced() {
    let src = b"__PROJECT_NAME__ and __PROJECT_NAME____PROJECT_NAME__!";
    assert_eq!(render_file(src, "my_app"), b"my_app and my_appmy_app!".to_vec());
}

#[test]
fn text_without_placeholder_is_unchanged() {
    let src = "plain text, \u{e9}t\u{e9} \u{1f525}".as_bytes();
    assert_eq!(render_file(src, "demo"), src.to_vec());
    assert_eq!(render_file(b"", "demo"), Vec::<u8>::new());
}

#[test]
fn binary_with_placeholder_is_kept() {
    let mut src = vec![0xffu8, 0x00];
    src.extend_from_slice(PLACEHOLDER.as_bytes());
    assert_eq!(render_file(&src, "demo"), src);
}

#[test]
fn multibyte_text_is_substituted() {
    let src = "// \u{1f525} __PROJECT_NAME__ \u{e9}".as_bytes();
    let out = render_file(src, "caf\u{e9}");
    assert_eq!(String::from_utf8(out).unwrap(), "// \u{1f525} caf\u{e9} \u{e9}");
}

#[test]
fn partial_placeholder_is_left_alone() {
    let src = b"__PROJECT_NAME_ __PROJECT___PROJECT_NAME__";
    assert_eq!(render_file(src, "x"), b"__PROJECT_NAME_ __PROJECT_x".to_vec());
}

#[test]
fn directory_entry_is_kept() {
    let e = materialize_entry(&dir("src/bin"), "demo");
    assert_eq!(e, dir("src/bin"));
}
