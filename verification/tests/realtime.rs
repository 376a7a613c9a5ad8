use codex_overlay::context::ContextInfo;
use codex_overlay::credentials::EnvCandidate;
use codex_overlay::realtime::{
    configured_openai_key, context_item, image_data_url, image_turn_replacement, item_id,
    item_id_with,
    message_item, plan_user_turn, quick_answer_item, realtime_url, setup_readiness, user_item,
    verified_answer_item, ContentPart, HistoryItem, ImageHistoryReplacement, ReaderAction,
    RealtimeHistory, RealtimeReader, RealtimeSession, ServerEvent, TurnTable, MAX_OUTPUT_TOKENS,
    REALTIME_MODEL,
};
use codex_overlay::transcribe::ReadyWait;

fn is_hex(s: &str) -> bool {
    s.chars().all(|c| c.is_ascii_digit() || ('a'..='f').contains(&c))
}

fn text_of(item: &HistoryItem) -> (String, String) {
    assert_eq!(item.content.len(), 1);
    match &item.content[0] {
        ContentPart::Text { kind, text } => (kind.clone(), text.clone()),
        ContentPart::Image { .. } => panic!("expected a text part"),
    }
}

#[test]
fn item_ids_carry_the_prefix_and_sixteen_hex_digits() {
    let a = item_id("user");
    let b = item_id("user");
    assert!(a.starts_with("item_user_"));
    assert_eq!(a.len(), "item_user_".len() + 16);
    assert!(is_hex(&a["item_user_".len()..]));
    assert_ne!(a, b);
}

#[test]
fn text_messages_have_role_type_and_text() {
    let item = message_item("system", "input_text", "hello");
    assert_eq!(item.role, "system");
    assert!(item.id.starts_with("item_system_"));
    assert_eq!(text_of(&item), ("input_text".to_string(), "hello".to_string()));
    let answer = quick_answer_item("done");
    assert_eq!(answer.role, "assistant");
    assert_eq!(text_of(&answer), ("output_text".to_string(), "done".to_string()));
}

#[test]
fn verified_answers_and_context_are_recorded_as_system_text() {
    assert!(verified_answer_item("t1", "  \n ").is_none());
    let item = verified_answer_item("t1", "  answer \n").unwrap();
    assert_eq!(item.role, "system");
    assert_eq!(text_of(&item).1, "VERIFIED_CODEX_ANSWER turn=t1\nanswer");
    let info = ContextInfo {
        version: "v3".to_string(),
        hash: "abc".to_string(),
        file_count: 1,
        byte_count: 4,
    };
    let ctx = context_item(&info, "body");
    assert_eq!(
        text_of(&ctx).1,
        "DIRECT_CANDIDATE_CONTEXT version=v3 hash=abc\n<candidate_context>\nbody\n</candidate_context>"
    );
}

#[test]
fn user_turns_need_text_or_images() {
    let none: Vec<String> = Vec::new();
    assert_eq!(plan_user_turn("  \n", &none).unwrap_err(), "Nothing to send to Realtime");
    let plan = plan_user_turn("  look here ", &none).unwrap();
    assert_eq!(plan.text.as_deref(), Some("look here"));
    assert!(plan.image_paths.is_empty());
    let paths = vec!["/a.png".to_string(), String::new(), "/b.jpg".to_string()];
    let plan = plan_user_turn(" ", &paths).unwrap();
    assert!(plan.text.is_none());
    assert_eq!(plan.image_paths, vec!["/a.png".to_string(), "/b.jpg".to_string()]);
}

#[test]
fn user_items_put_text_before_images() {
    let item = user_item(Some("hi".to_string()), vec!["data:a".to_string(), "data:b".to_string()]);
    assert_eq!(item.role, "user");
    assert!(item.id.starts_with("item_user_"));
    assert_eq!(item.content.len(), 3);
    assert!(matches!(&item.content[0], ContentPart::Text { kind, text } if kind == "input_text" && text == "hi"));
    assert!(matches!(&item.content[1], ContentPart::Image { url } if url == "data:a"));
    assert!(matches!(&item.content[2], ContentPart::Image { url } if url == "data:b"));
    let only_images = user_item(None, vec!["data:c".to_string()]);
    assert_eq!(only_images.content.len(), 1);
    assert!(matches!(&only_images.content[0], ContentPart::Image { url } if url == "data:c"));
}

#[test]
fn image_turns_are_replaced_by_a_text_note() {
    let item = image_turn_replacement("t9", "  what is this? ", 2);
    assert_eq!(item.role, "user");
    assert_eq!(
        text_of(&item).1,
        "USER_TURN turn=t9\nwhat is this?\n[2 screenshot(s) were analyzed in this turn; their pixels are not retained in later Quick turns.]"
    );
}

#[test]
fn screenshots_become_base64_data_urls() {
    assert_eq!(
        image_data_url("/tmp/shot.PNG", &[1, 2, 3]).unwrap(),
        "data:image/png;base64,AQID"
    );
    assert_eq!(
        image_data_url("/tmp/shot.jpeg", b"hello").unwrap(),
        "data:image/jpeg;base64,aGVsbG8="
    );
    assert_eq!(image_data_url("x.JPG", &[]).unwrap(), "data:image/jpeg;base64,");
    assert_eq!(
        image_data_url("/tmp/shot.gif", &[1]).unwrap_err(),
        "Unsupported screenshot format: /tmp/shot.gif"
    );
    assert_eq!(
        image_data_url("/tmp/png", &[1]).unwrap_err(),
        "Unsupported screenshot format: /tmp/png"
    );
    assert_eq!(
        image_data_url("/tmp/.png", &[1]).unwrap_err(),
        "Unsupported screenshot format: /tmp/.png"
    );
}

#[test]
fn connection_settings() {
    assert_eq!(realtime_url(), format!("wss://api.openai.com/v1/realtime?model={REALTIME_MODEL}"));
    assert_eq!(MAX_OUTPUT_TOKENS, 700);
    assert!(setup_readiness(ReadyWait::Ready).is_ok());
    assert_eq!(setup_readiness(ReadyWait::Failed("bad".to_string())).unwrap_err(), "bad");
    assert_eq!(
        setup_readiness(ReadyWait::Closed).unwrap_err(),
        "OpenAI Realtime closed during setup"
    );
    assert_eq!(
        setup_readiness(ReadyWait::TimedOut).unwrap_err(),
        "OpenAI Realtime setup timed out"
    );
}

#[test]
fn openai_key_comes_from_environment_or_env_files() {
    let files = vec![EnvCandidate {
        path: "/repo/.env".to_string(),
        contents: Some("OPENAI_API_KEY=sk-file\n".to_string()),
    }];
    assert_eq!(configured_openai_key(Some(" sk-env ".to_string()), &files).unwrap(), "sk-env");
    assert_eq!(configured_openai_key(None, &files).unwrap(), "sk-file");
    assert!(configured_openai_key(None, &Vec::new()).is_err());
}

#[test]
fn history_references_follow_items_and_removal_keeps_order() {
    let mut history = RealtimeHistory::new();
    let a = message_item("user", "input_text", "a");
    let b = message_item("user", "input_text", "b");
    let c = message_item("user", "input_text", "c");
    let (ia, ib, ic) = (a.id.clone(), b.id.clone(), c.id.clone());
    history.push(a);
    history.push(b);
    history.push(c);
    assert_eq!(history.references(), vec![ia.clone(), ib.clone(), ic.clone()]);
    history.remove_id(&ib);
    assert_eq!(history.references(), vec![ia, ic]);
    history.clear();
    assert!(history.references().is_empty());
}

#[test]
fn turn_tables_read_back_what_was_written() {
    let mut table: TurnTable<u32> = TurnTable::new();
    assert_eq!(table.get("a"), None);
    table.insert("a".to_string(), 1);
    table.insert("b".to_string(), 2);
    table.insert("a".to_string(), 3);
    assert_eq!(table.get("a"), Some(&3));
    assert_eq!(table.get("b"), Some(&2));
    assert_eq!(table.remove("a"), Some(3));
    assert_eq!(table.get("a"), None);
    assert_eq!(table.remove("a"), None);
    assert_eq!(table.get("b"), Some(&2));
    table.clear();
    assert_eq!(table.get("b"), None);
}

#[test]
fn setup_is_signalled_once() {
    let mut reader = RealtimeReader::new();
    let acts = reader.step(ServerEvent::SessionUpdated);
    assert_eq!(acts.len(), 2);
    assert!(matches!(acts[0], ReaderAction::MarkReady));
    assert!(matches!(acts[1], ReaderAction::SignalReady(Ok(()))));
    let acts = reader.step(ServerEvent::SessionUpdated);
    assert_eq!(acts.len(), 1);
    assert!(matches!(acts[0], ReaderAction::MarkReady));
    assert!(reader.step(ServerEvent::Other).is_empty());
}

#[test]
fn transport_errors_fail_setup_and_stop() {
    let mut reader = RealtimeReader::new();
    let acts = reader.step(ServerEvent::TransportError("reset".to_string()));
    assert_eq!(acts.len(), 3);
    assert!(matches!(&acts[0], ReaderAction::SignalReady(Err(e)) if e == "reset"));
    assert!(matches!(&acts[1], ReaderAction::EmitError { turn_id: None, message } if message == "reset"));
    assert!(matches!(acts[2], ReaderAction::Stop));
    let acts = reader.step(ServerEvent::TransportError("again".to_string()));
    assert_eq!(acts.len(), 2);
}

#[test]
fn streamed_answers_are_delivered_compacted_and_recorded() {
    let mut reader = RealtimeReader::new();
    reader.step(ServerEvent::SessionUpdated);
    let acts = reader.step(ServerEvent::ResponseCreated {
        response_id: Some("r1".to_string()),
        turn_id: Some("t1".to_string()),
    });
    assert!(acts.is_empty());
    let acts = reader.step(ServerEvent::TextDelta { response_id: "r1".to_string(), delta: " Hel".to_string() });
    assert!(matches!(&acts[0], ReaderAction::EmitDelta { turn_id, delta } if turn_id == "t1" && delta == " Hel"));
    reader.step(ServerEvent::TextDelta { response_id: "r1".to_string(), delta: "lo ".to_string() });
    assert!(reader
        .step(ServerEvent::TextDelta { response_id: "r9".to_string(), delta: "x".to_string() })
        .is_empty());
    let acts = reader.step(ServerEvent::ResponseDone {
        response_id: "r1".to_string(),
        status: None,
        error_message: None,
        reason: None,
        output_texts: vec!["ignored".to_string()],
    });
    assert_eq!(acts.len(), 3);
    assert!(matches!(&acts[0], ReaderAction::EmitDone { turn_id, text } if turn_id == "t1" && text == " Hello "));
    assert!(matches!(&acts[1], ReaderAction::CompactImageTurn { turn_id } if turn_id == "t1"));
    assert!(matches!(&acts[2], ReaderAction::AppendQuickAnswer { turn_id, text }
        if turn_id == "t1" && text == "QUICK_ANSWER turn=t1\nHello"));
    assert!(reader
        .step(ServerEvent::ResponseDone {
            response_id: "r1".to_string(),
            status: None,
            error_message: None,
            reason: None,
            output_texts: Vec::new(),
        })
        .is_empty());
}

#[test]
fn answers_without_deltas_use_the_output_text() {
    let mut reader = RealtimeReader::new();
    reader.step(ServerEvent::ResponseCreated { response_id: Some("r".to_string()), turn_id: Some("t".to_string()) });
    let acts = reader.step(ServerEvent::ResponseDone {
        response_id: "r".to_string(),
        status: Some("completed".to_string()),
        error_message: None,
        reason: None,
        output_texts: vec!["A".to_string(), "B".to_string()],
    });
    assert!(matches!(&acts[0], ReaderAction::EmitDone { text, .. } if text == "AB"));
}

#[test]
fn failed_responses_report_detail_and_status() {
    let mut reader = RealtimeReader::new();
    for (rid, tid) in [("r1", "t1"), ("r2", "t2"), ("r3", "t3"), ("r4", "t4")] {
        reader.step(ServerEvent::ResponseCreated { response_id: Some(rid.to_string()), turn_id: Some(tid.to_string()) });
    }
    let done = |rid: &str, status: Option<&str>, error: Option<&str>, reason: Option<&str>, text: &str| {
        ServerEvent::ResponseDone {
            response_id: rid.to_string(),
            status: status.map(str::to_string),
            error_message: error.map(str::to_string),
            reason: reason.map(str::to_string),
            output_texts: vec![text.to_string()],
        }
    };
    let acts = reader.step(done("r1", Some("failed"), Some("quota"), Some("ignored"), "x"));
    assert!(matches!(&acts[0], ReaderAction::EmitError { turn_id: Some(t), message } if t == "t1" && message == "quota (failed)"));
    let acts = reader.step(done("r2", Some("incomplete"), None, Some("max_output_tokens"), "x"));
    assert!(matches!(&acts[0], ReaderAction::EmitError { message, .. } if message == "max_output_tokens (incomplete)"));
    let acts = reader.step(done("r3", None, None, None, "  "));
    assert!(matches!(&acts[0], ReaderAction::EmitError { message, .. } if message == "Realtime returned no text (completed)"));
    let acts = reader.step(done("r4", Some("cancelled"), None, None, "partial"));
    assert_eq!(acts.len(), 1);
    assert!(matches!(&acts[0], ReaderAction::EmitError { message, .. } if message == "Realtime response did not complete (cancelled)"));
}

#[test]
fn error_events_fail_setup_and_name_their_turn() {
    let mut reader = RealtimeReader::new();
    let acts = reader.step(ServerEvent::Error { message: None, response_id: String::new() });
    assert_eq!(acts.len(), 2);
    assert!(matches!(&acts[0], ReaderAction::SignalReady(Err(e)) if e == "OpenAI Realtime error"));
    assert!(matches!(&acts[1], ReaderAction::EmitError { turn_id: None, message } if message == "OpenAI Realtime error"));
    reader.step(ServerEvent::ResponseCreated { response_id: Some("r".to_string()), turn_id: Some("t".to_string()) });
    let acts = reader.step(ServerEvent::Error { message: Some("boom".to_string()), response_id: "r".to_string() });
    assert_eq!(acts.len(), 1);
    assert!(matches!(&acts[0], ReaderAction::EmitError { turn_id: Some(t), message } if t == "t" && message == "boom"));
}

#[test]
fn sessions_track_generation_context_and_retries() {
    let mut session = RealtimeSession::new();
    let g = session.begin_preparation();
    assert_eq!(g, 1);
    assert!(session.check_generation(1).is_ok());
    assert!(session.needs_context("h1"));
    session.set_context_hash("h1".to_string());
    assert!(!session.needs_context("h1"));
    assert!(session.needs_context("h2"));
    session.record_turn("t1".to_string(), vec!["item_a".to_string()]);
    assert_eq!(session.retry_references("t1").unwrap(), vec!["item_a".to_string()]);
    assert_eq!(
        session.retry_references("t2").unwrap_err(),
        "Quick turn is no longer available for retry: t2"
    );
    session.close();
    assert_eq!(session.check_generation(1).unwrap_err(), "Realtime session was closed");
    assert!(session.needs_context("h1"));
    assert!(session.retry_references("t1").is_err());
    assert!(session.history.items.is_empty());
}

#[test]
fn image_compaction_replaces_only_the_screenshot_item() {
    let mut session = RealtimeSession::new();
    let before = message_item("user", "input_text", "before");
    let image = user_item(Some("see".to_string()), vec!["data:image/png;base64,AA==".to_string()]);
    let after = message_item("assistant", "output_text", "after");
    let (before_id, image_id, after_id) = (before.id.clone(), image.id.clone(), after.id.clone());
    session.history.push(before);
    session.history.push(image);
    session.history.push(after);
    let replacement = image_turn_replacement("t1", "see", 1);
    let replacement_id = replacement.id.clone();
    session.record_image_turn(
        "t1".to_string(),
        ImageHistoryReplacement { image_item_id: image_id.clone(), replacement },
    );
    let entry = session.take_image_replacement("t1").unwrap();
    assert!(session.take_image_replacement("t1").is_none());
    assert_eq!(entry.image_item_id, image_id);
    session.finish_image_compaction(&entry);
    session.history.push(entry.replacement.clone());
    assert_eq!(session.history.references(), vec![before_id, after_id, replacement_id]);
}

#[test]
fn item_ids_take_the_first_sixteen_digits_of_the_uuid() {
    assert_eq!(
        item_id_with("user", "0123456789abcdef0123456789abcdef"),
        "item_user_0123456789abcdef"
    );
    assert_eq!(
        item_id_with("system", "fedcba9876543210ffffffffffffffff"),
        "item_system_fedcba9876543210"
    );
}
