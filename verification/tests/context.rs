use sha2::{Digest, Sha256};
use codex_overlay::context::{
    build_prompt_context, context_version, entry_action, extension_of, is_supported_text_file,
    load_context, relative_path_display, sort_files, ContextFile, ContextKind, EntryAction,
};

fn file(path: &[&str], contents: &str) -> ContextFile {
    ContextFile {
        path: path.iter().map(|p| p.to_string()).collect(),
        contents: contents.to_string(),
    }
}

#[test]
fn arbitrary_document_names_and_nested_folders_are_loaded() {
    // The folder walk includes what `entry_action` accepts.
    assert_eq!(entry_action("facts-any-name.txt", false, false, true), EntryAction::Include);
    assert_eq!(entry_action("anything", false, true, false), EntryAction::Descend);
    assert_eq!(entry_action("deeper", false, true, false), EntryAction::Descend);
    assert_eq!(
        entry_action("architecture-notes.markdown", false, false, true),
        EntryAction::Include
    );
    assert_eq!(entry_action("ignored.png", false, false, true), EntryAction::Skip);
    let files = vec![
        file(&["facts-any-name.txt"], "Preferred answer: concise"),
        file(&["anything", "deeper", "architecture-notes.markdown"], "Queue then stream"),
    ];
    let quick = load_context("/ctx", true, ContextKind::Realtime, files.clone()).unwrap();
    let pi = load_context("/ctx", true, ContextKind::Pi, files).unwrap();
    assert_eq!(quick.info.file_count, 2);
    assert_eq!(pi.info.file_count, 2);
    assert!(quick.text.contains("facts-any-name.txt"));
    assert!(quick.text.contains("anything/deeper/architecture-notes.markdown"));
    assert!(!quick.text.contains("ignored.png"));
}

#[test]
fn packs_are_deterministic_and_ignore_discovery_order() {
    let a = vec![
        file(&["b.md"], "second"),
        file(&["a", "z.txt"], "first"),
        file(&["a.txt"], "middle"),
    ];
    let b = vec![a[2].clone(), a[0].clone(), a[1].clone()];
    let one = load_context("/ctx", true, ContextKind::Realtime, a).unwrap();
    let two = load_context("/ctx", true, ContextKind::Realtime, b).unwrap();
    assert_eq!(one.text, two.text);
    assert_eq!(one.info.hash, two.info.hash);
    assert_eq!(
        one.text,
        "\n\n===== FILE: a/z.txt =====\nfirst\n\n===== FILE: a.txt =====\nmiddle\n\n===== FILE: b.md =====\nsecond"
    );
    assert_eq!(one.info.byte_count, one.text.len());
    assert_eq!(one.info.version, "context-realtime-v1+quick-v15-direct-context");
    assert_eq!(one.info.hash.len(), 64);
    assert!(one.info.hash.chars().all(|c| c.is_ascii_hexdigit() && !c.is_ascii_uppercase()));
    let pi = load_context("/ctx", true, ContextKind::Pi, vec![file(&["b.md"], "second")]).unwrap();
    assert_eq!(pi.info.version, "context-pi-v1+pi-v11-workspace-discovery");
}

#[test]
fn hash_is_sha256_of_version_paths_and_contents() {
    let pack = load_context("/ctx", true, ContextKind::Pi, vec![file(&["n", "x.md"], "héllo")]).unwrap();
    let mut hasher = Sha256::new();
    hasher.update(b"context-pi-v1+pi-v11-workspace-discovery");
    hasher.update(b"n/x.md");
    hasher.update([0]);
    hasher.update("héllo".as_bytes());
    hasher.update([0]);
    assert_eq!(pack.info.hash, format!("{:x}", hasher.finalize()));
    assert_eq!(pack.info.byte_count, "\n\n===== FILE: n/x.md =====\nhéllo".len());
}

#[test]
fn refuses_missing_folders_and_empty_folders() {
    assert_eq!(
        load_context("/nope", false, ContextKind::Pi, Vec::new()).unwrap_err(),
        "Context folder does not exist or is not a directory: /nope"
    );
    assert_eq!(
        load_context("/empty", true, ContextKind::Realtime, Vec::new()).unwrap_err(),
        "No supported context documents were found in /empty. Add UTF-8 Markdown, text, JSON, YAML, TOML, RST, or CSV files anywhere inside this folder."
    );
}

#[test]
fn folder_walk_skips_hidden_links_and_build_output() {
    assert_eq!(entry_action(".env.md", false, false, true), EntryAction::Skip);
    assert_eq!(entry_action("notes.md", true, false, false), EntryAction::Skip);
    for ignored in ["node_modules", "target", "dist", "build", ".git", ".next", ".cache"] {
        assert_eq!(entry_action(ignored, false, true, false), EntryAction::Skip);
    }
    assert_eq!(entry_action("docs", false, true, false), EntryAction::Descend);
    assert_eq!(entry_action("notes.md", false, false, false), EntryAction::Skip);
}

#[test]
fn supported_extensions_ignore_ascii_case() {
    for name in ["a.md", "b.MARKDOWN", "c.Txt", "d.json", "e.YAML", "f.yml", "g.toml", "h.rst", "i.CSV"] {
        assert!(is_supported_text_file(name), "{name}");
    }
    for name in ["a.png", "md", ".md", "a.md.bak", "a.", ".."] {
        assert!(!is_supported_text_file(name), "{name}");
    }
    assert_eq!(extension_of("archive.tar.gz").as_deref(), Some("gz"));
    assert_eq!(extension_of(".bashrc"), None);
    assert_eq!(extension_of("trailing."), Some(String::new()));
    assert_eq!(extension_of(".."), None);
    assert_eq!(extension_of("notes/.md"), None);
    assert!(!is_supported_text_file("notes/.md"));
    assert!(is_supported_text_file("notes.d/a.md"));
    assert_eq!(extension_of("notes.d/readme"), None);
    assert_eq!(extension_of("dir/file.TXT/").as_deref(), Some("TXT"));
}

#[test]
fn paths_sort_component_by_component() {
    let sorted = sort_files(vec![
        file(&["b"], ""),
        file(&["a.txt"], ""),
        file(&["a", "b"], ""),
        file(&["a"], "2"),
        file(&["a"], "1"),
    ]);
    let names: Vec<String> = sorted
        .iter()
        .map(|f| format!("{}:{}", relative_path_display(&f.path), f.contents))
        .collect();
    assert_eq!(names, vec!["a:1", "a:2", "a/b:", "a.txt:", "b:"]);
}

#[test]
fn typed_context_is_trimmed_and_fingerprinted() {
    let pack = build_prompt_context("  I build compilers.\n", ContextKind::Realtime);
    assert_eq!(pack.text, "I build compilers.");
    assert_eq!(pack.info.file_count, 1);
    assert_eq!(pack.info.byte_count, 18);
    let mut hasher = Sha256::new();
    hasher.update(context_version(ContextKind::Realtime).as_bytes());
    hasher.update([0]);
    hasher.update(b"I build compilers.");
    assert_eq!(pack.info.hash, format!("{:x}", hasher.finalize()));
    let empty = build_prompt_context(" \n ", ContextKind::Pi);
    assert_eq!(empty.text, "");
    assert_eq!(empty.info.file_count, 0);
}

#[test]
fn the_same_documents_give_the_same_pack_in_any_order() {
    let a = vec![file(&["b", "two.md"], "2"), file(&["a.txt"], "1"), file(&["b", "one.md"], "x")];
    let b = vec![file(&["b", "one.md"], "x"), file(&["b", "two.md"], "2"), file(&["a.txt"], "1")];
    let p = load_context("/ctx", true, ContextKind::Realtime, a).unwrap();
    let q = load_context("/ctx", true, ContextKind::Realtime, b).unwrap();
    assert_eq!(p.text, q.text);
    assert_eq!(p.info.hash, q.info.hash);
    assert_eq!(p.info.byte_count, q.info.byte_count);
    assert!(p.text.find("a.txt").unwrap() < p.text.find("b/one.md").unwrap());
    assert!(p.text.find("b/one.md").unwrap() < p.text.find("b/two.md").unwrap());
}

#[test]
fn bundled_context_template_loads_and_is_deterministic() {
    let template = || {
        vec![
            file(&["README.md"], "Context template: put anything relevant in this folder, with any name and any nesting."),
            file(&["experience", "projects.md"], "Built a streaming pipeline that queues then streams answers."),
            file(&["prepared-answers.txt"], "Preferred answer: concise, one mechanism, one tradeoff."),
        ]
    };
    let first = load_context("/template", true, ContextKind::Realtime, template()).unwrap();
    let mut reversed = template();
    reversed.reverse();
    let second = load_context("/template", true, ContextKind::Realtime, reversed).unwrap();
    assert!(first.info.file_count >= 1);
    assert!(first.info.byte_count > 100);
    assert!(first.text.contains("===== FILE:"));
    assert_eq!(first.info.hash, second.info.hash);
    assert_eq!(first.text, second.text);
    assert_eq!(first.info.hash.len(), 64);
}
