use codex_overlay::pi::{node_candidates, resolve_bridge, resolve_node, PathChoice};
use codex_overlay::credentials::read_env_file_key;
use codex_overlay::pi::{
    bridge_reply, bridge_timeout_message, classify_bridge_line, classify_turn_error,
    pi_turn_precheck, start_timeout, stop_result, validate_selection, worker_lost, BridgeLine,
    PendingRequests, PiSelection, PiSessionState, PiStartPlan, PiStartRequest, TurnFailure,
    CURSOR_START_TIMEOUT_SECS, DEFAULT_PI_MODEL, DEFAULT_PI_PROVIDER, PI_THINKING_LEVEL,
    START_TIMEOUT_SECS,
};

#[test]
fn abort_and_timeout_are_not_worker_death() {
    assert!(!worker_lost("Pi turn stopped after its activity deadline"));
    assert!(!worker_lost("Pi bridge timed out after 190 seconds"));
    assert!(!worker_lost("Pi provider failed (stop reason: error)"));
}

#[test]
fn process_exit_is_worker_death() {
    assert!(worker_lost("Pi SDK bridge stopped unexpectedly"));
    assert!(worker_lost("Pi bridge is unavailable"));
    assert!(worker_lost("Failed to write to Pi bridge: broken pipe"));
    assert!(worker_lost("Pi bridge response channel closed"));
}

#[test]
fn supports_openai_fast_models_with_low_reasoning() {
    assert_eq!(DEFAULT_PI_PROVIDER, "openai-codex");
    assert_eq!(DEFAULT_PI_MODEL, "gpt-5.6-terra");
    assert_eq!(PI_THINKING_LEVEL, "low");
    assert_eq!(start_timeout("openai-codex"), START_TIMEOUT_SECS);
    assert!(validate_selection("openai-codex", "gpt-5.6-terra", "low").is_ok());
    assert!(validate_selection("openai-codex", "gpt-5.6-sol", "low").is_ok());
    assert!(validate_selection("xai", "grok-4.5", "low").is_ok());
    assert!(validate_selection("xai", "grok-4.6", "low").is_ok());
}

#[test]
fn supports_cursor_terra_fast() {
    assert!(validate_selection("cursor", "gpt-5.6-terra@272k:fast", "low").is_ok());
    assert!(validate_selection("cursor", "grok-4.6:fast", "medium").is_ok());
    assert!(validate_selection("cursor", "gpt-5.6-terra:fast", "low").is_err());
    assert!(validate_selection("cursor", "gpt-5.6-terra", "low").is_err());
    assert_eq!(start_timeout("cursor"), CURSOR_START_TIMEOUT_SECS);
}

#[test]
fn supports_openrouter_glm_flash_modes() {
    assert!(validate_selection("openrouter", "z-ai/glm-5.3-flash", "low").is_ok());
    assert!(validate_selection("openrouter", "z-ai/glm-5.3-flash", "high").is_ok());
    assert!(validate_selection("openrouter", "z-ai/glm-5.3-flash", "max").is_ok());
    assert!(validate_selection("openrouter", "z-ai/glm-5.3-flash", "medium").is_err());
    assert!(validate_selection("openrouter", "openai/gpt-5.6-terra", "low").is_ok());
    assert!(validate_selection("openrouter", "openai/gpt-5.6-terra", "high").is_err());
}

#[test]
fn reads_cursor_api_key_from_env_file_without_exposing_it() {
    let contents = "CURSOR_API_KEY=crsr_test_local_key\n";
    let key = read_env_file_key(contents, "CURSOR_API_KEY").expect("key should load");
    assert!(key.starts_with("crsr_"));
    assert_eq!(key.len(), "crsr_test_local_key".len());
}

#[test]
fn unsupported_selection_names_the_selection() {
    assert_eq!(
        validate_selection("xai", "grok-9", "low").unwrap_err(),
        "Unsupported Pi model selection: xai/grok-9 (low)"
    );
}

#[test]
fn start_timeout_of_other_providers_is_thirty_seconds() {
    assert_eq!(start_timeout("xai"), 30);
    assert_eq!(start_timeout("openrouter"), 30);
    assert_eq!(start_timeout("cursor"), 90);
}

fn request(provider: &str, model: &str, level: Option<&str>, nitro: Option<bool>) -> PiStartRequest {
    PiStartRequest {
        workspace: "/work".to_string(),
        workspace_is_dir: true,
        provider: provider.to_string(),
        model: model.to_string(),
        thinking_level: level.map(|l| l.to_string()),
        nitro,
    }
}

#[test]
fn session_plans_default_level_nitro_and_reuse() {
    let mut state = PiSessionState::new();
    let req = request("openrouter", "openai/gpt-5.6-terra", None, None);
    match state.plan_start(&req, "abc").unwrap() {
        PiStartPlan::Start { thinking_level, nitro, timeout_secs } => {
            assert_eq!(thinking_level, "low");
            assert!(nitro);
            assert_eq!(timeout_secs, 30);
        }
        PiStartPlan::AlreadyLoaded => panic!("nothing was loaded"),
    }
    state.mark_not_ready();
    state.finish_start(
        "/work".to_string(),
        "abc".to_string(),
        PiSelection {
            provider: "openrouter".to_string(),
            model: "openai/gpt-5.6-terra".to_string(),
            thinking_level: "low".to_string(),
        },
    );
    assert!(matches!(state.plan_start(&req, "abc").unwrap(), PiStartPlan::AlreadyLoaded));
    let mut same_folder = req.clone();
    same_folder.workspace = "/work/".to_string();
    assert!(matches!(state.plan_start(&same_folder, "abc").unwrap(), PiStartPlan::AlreadyLoaded));
    let mut other_folder = req.clone();
    other_folder.workspace = "/work/sub".to_string();
    assert!(matches!(state.plan_start(&other_folder, "abc").unwrap(), PiStartPlan::Start { .. }));
    assert!(matches!(state.plan_start(&req, "other").unwrap(), PiStartPlan::Start { .. }));
    state.reset();
    assert!(matches!(state.plan_start(&req, "abc").unwrap(), PiStartPlan::Start { .. }));
}

#[test]
fn session_refuses_missing_workspace_and_bad_level() {
    let state = PiSessionState::new();
    let mut req = request("xai", "grok-4.5", Some("low"), Some(true));
    req.workspace_is_dir = false;
    assert_eq!(
        state.plan_start(&req, "h").unwrap_err(),
        "Workspace directory does not exist"
    );
    let req = request("xai", "grok-4.5", Some("high"), None);
    assert_eq!(
        state.plan_start(&req, "h").unwrap_err(),
        "Unsupported Pi model selection: xai/grok-4.5 (high)"
    );
    let req = request("cursor", "grok-4.6:fast", Some("medium"), None);
    match state.plan_start(&req, "h").unwrap() {
        PiStartPlan::Start { nitro, timeout_secs, .. } => {
            assert!(!nitro);
            assert_eq!(timeout_secs, 90);
        }
        PiStartPlan::AlreadyLoaded => panic!("nothing was loaded"),
    }
}

#[test]
fn turn_precheck_needs_content_and_a_ready_session() {
    assert_eq!(pi_turn_precheck("  \n", 0, true).unwrap_err(), "Nothing to send");
    assert_eq!(
        pi_turn_precheck("question", 0, false).unwrap_err(),
        "Pi session is not ready"
    );
    assert!(pi_turn_precheck("", 1, true).is_ok());
    assert!(pi_turn_precheck("question", 0, true).is_ok());
}

#[test]
fn turn_errors_are_classified() {
    assert_eq!(
        classify_turn_error("Pi bridge timed out after 190 seconds"),
        TurnFailure::TimedOut
    );
    assert_eq!(
        classify_turn_error("Pi bridge is unavailable"),
        TurnFailure::WorkerLost
    );
    assert_eq!(
        classify_turn_error("Pi provider failed (stop reason: error)"),
        TurnFailure::Other
    );
}

#[test]
fn bridge_replies_and_lines() {
    assert!(bridge_reply(Some(true), None).is_ok());
    assert_eq!(
        bridge_reply(Some(false), Some("boom".to_string())).unwrap_err(),
        "boom"
    );
    assert_eq!(bridge_reply(None, None).unwrap_err(), "Pi bridge request failed");
    assert_eq!(classify_bridge_line(Some(7), true), BridgeLine::Reply(7));
    assert_eq!(classify_bridge_line(None, true), BridgeLine::Event);
    assert_eq!(classify_bridge_line(None, false), BridgeLine::Ignore);
    assert_eq!(
        bridge_timeout_message(190),
        "Pi bridge timed out after 190 seconds"
    );
    assert!(!stop_result(false, Some(true)));
    assert!(stop_result(true, None));
    assert!(!stop_result(true, Some(false)));
}

#[test]
fn pending_requests_are_registered_resolved_and_drained() {
    let mut pending = PendingRequests::new();
    let a = pending.register();
    let b = pending.register();
    assert_eq!((a, b), (1, 2));
    assert!(pending.resolve(a));
    assert!(!pending.resolve(a));
    let c = pending.register();
    assert_eq!(c, 3);
    let mut drained = pending.drain();
    drained.sort();
    assert_eq!(drained, vec![2, 3]);
    assert!(!pending.resolve(b));
    assert!(pending.drain().is_empty());
}

#[test]
fn node_and_bridge_paths_prefer_the_environment_then_the_first_file() {
    assert_eq!(node_candidates()[0], "/opt/homebrew/bin/node");
    assert_eq!(node_candidates().len(), 5);
    assert_eq!(resolve_node(Some(true), &vec![true]).unwrap(), PathChoice::Override);
    assert_eq!(
        resolve_node(Some(false), &vec![false, false, true, true, false]).unwrap(),
        PathChoice::Candidate(2)
    );
    assert_eq!(
        resolve_node(None, &vec![false; 5]).unwrap_err(),
        "Pi requires Node.js 22.19 or newer; no supported Node binary was found"
    );
    assert_eq!(resolve_bridge(None, &vec![false, true]).unwrap(), PathChoice::Candidate(1));
    assert_eq!(resolve_bridge(Some(false), &vec![false, false]).unwrap_err(), "Pi SDK bridge is missing");
}

#[test]
fn closing_sends_a_close_request_only_for_a_ready_session() {
    let mut state = PiSessionState::new();
    assert!(!state.close());
    state.finish_start(
        "/work".to_string(),
        "h".to_string(),
        PiSelection {
            provider: "xai".to_string(),
            model: "grok-4.5".to_string(),
            thinking_level: "low".to_string(),
        },
    );
    assert!(state.close());
    assert!(!state.ready);
    assert!(state.workspace.is_none() && state.context_hash.is_none() && state.selection.is_none());
    assert_eq!(pi_turn_precheck("hello", 0, state.ready).unwrap_err(), "Pi session is not ready");
    assert!(!state.close());
}
