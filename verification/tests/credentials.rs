use codex_overlay::credentials::{
    join_path, load_secret, read_env_file_key, repository_env_files, EnvCandidate,
};

#[test]
fn reads_named_secret_without_matching_comments_or_other_keys() {
    let contents = "# OPENROUTER_API_KEY=ignored\nOTHER=value\nOPENROUTER_API_KEY='secret-value'\n";
    assert_eq!(
        read_env_file_key(contents, "OPENROUTER_API_KEY").as_deref(),
        Some("secret-value")
    );
}

#[test]
fn env_values_are_trimmed_unquoted_and_skipped_when_empty() {
    let contents = "KEY=\r\n  KEY = nope\nKEY=  \"quoted\"  \r\nKEY=later\n";
    assert_eq!(read_env_file_key(contents, "KEY").as_deref(), Some("quoted"));
    assert_eq!(read_env_file_key("KEY=''\n", "KEY"), None);
    assert_eq!(read_env_file_key("", "KEY"), None);
    assert_eq!(read_env_file_key("KEYS=x\nKEY=y", "KEY").as_deref(), Some("y"));
    assert_eq!(read_env_file_key("\t KEY=a b \t", "KEY").as_deref(), Some("a b"));
    assert_eq!(read_env_file_key("KEY=\"'x'\"", "KEY").as_deref(), Some("x"));
}

#[test]
fn repository_env_files_are_next_to_the_manifest() {
    let files = repository_env_files("/repo/src-tauri");
    assert_eq!(files[0], "/repo/src-tauri/.env");
    assert_eq!(files[1], "/repo/src-tauri/../.env");
    assert_eq!(join_path("/repo/", ".env"), "/repo/.env");
    assert_eq!(join_path("", ".env"), ".env");
}

fn candidate(path: &str, contents: Option<&str>) -> EnvCandidate {
    EnvCandidate {
        path: path.to_string(),
        contents: contents.map(|c| c.to_string()),
    }
}

#[test]
fn secrets_come_from_the_environment_first_then_files_in_order() {
    let files = vec![
        candidate("/a/.env", None),
        candidate("/b/.env", Some("OTHER=1\n")),
        candidate("/c/.env", Some("XAI_API_KEY=from-c\n")),
        candidate("/d/.env", Some("XAI_API_KEY=from-d\n")),
    ];
    assert_eq!(
        load_secret("XAI_API_KEY", Some("  from-env \n".to_string()), &files).unwrap(),
        "from-env"
    );
    assert_eq!(
        load_secret("XAI_API_KEY", Some("   ".to_string()), &files).unwrap(),
        "from-c"
    );
    assert_eq!(load_secret("XAI_API_KEY", None, &files).unwrap(), "from-c");
}

#[test]
fn missing_secrets_list_the_files_searched() {
    let files = vec![candidate("/a/.env", None), candidate("/b/.env", Some("X=1"))];
    assert_eq!(
        load_secret("OPENAI_API_KEY", None, &files).unwrap_err(),
        "OPENAI_API_KEY is not configured. Set it in the environment or in one of: /a/.env, /b/.env"
    );
    assert_eq!(
        load_secret("OPENAI_API_KEY", None, &Vec::new()).unwrap_err(),
        "OPENAI_API_KEY is not configured. Set it in the environment or in one of: "
    );
}
