use codex_overlay::prompts::{
    pi_instructions, prompt_stamp, realtime_instructions, resolve_editable_prompt,
    PI_INSTRUCTIONS, PI_PROMPT_VERSION, REALTIME_INSTRUCTIONS, REALTIME_PROMPT_VERSION,
};

#[test]
fn both_lanes_define_current_turn_and_code_mode_contracts() {
    for prompt in [REALTIME_INSTRUCTIONS, PI_INSTRUCTIONS] {
        assert!(prompt.contains("latest actionable manual input, transcript, or screenshot overrides unresolved requests"));
        assert!(prompt.contains("introduce myself"));
        assert!(prompt.contains("one to three decisive implementation anchors"));
        assert!(prompt.contains(
            "treat it as a coding task even when the problem appears only in an image"
        ));
        assert!(prompt.contains("complete runnable, syntactically valid code"));
        assert!(prompt.contains(
            "provide the complete corrected code rather than only a patch description"
        ));
        assert!(prompt.contains("if the preloaded context contains prepared answers"));
        assert!(
            prompt.contains("Do not re-derive, shorten, merge, or replace a prepared answer")
        );
        assert!(prompt.contains("Personal facts and craft are different."));
        assert!(prompt.contains("Never say: I haven't done this"));
        assert!(prompt.contains("Do not announce that you are constructing an example."));
        assert!(!prompt.contains("Do not search the web for timeless methods"));
        let lower = prompt.to_ascii_lowercase();
        assert!(!lower.contains("pretend"));
        assert!(!lower.contains("native experience"));
        assert!(!lower.contains("roleplay"));
        assert!(!prompt.contains("open-questions.md"));
        assert!(!prompt.contains("question ID"));
        assert!(!prompt.contains("missing fact materially prevents"));
    }
    assert!(PI_INSTRUCTIONS.contains("Lookup gate."));
    assert!(PI_INSTRUCTIONS.contains("including LeetCode and theory"));
    assert!(PI_INSTRUCTIONS.contains("one lookup round this turn"));
    assert!(PI_INSTRUCTIONS.contains("Missing named tactics is the \
gate"));
    assert!(REALTIME_INSTRUCTIONS.contains("The Pi lane looks up missing evidence"));
    assert!(!REALTIME_INSTRUCTIONS.contains("Lookup gate."));
    for prompt in [REALTIME_INSTRUCTIONS, PI_INSTRUCTIONS] {
        assert!(prompt.contains("4–7 short sentences"));
        assert!(prompt.contains("STAR only when they ask for a time"));
        assert!(prompt.contains("two named tactics or checks"));
        assert!(prompt.contains("Write-up mode only"));
        assert!(prompt.contains("do not open as that job title"));
        assert!(!prompt.contains("answer completely rather than optimizing for brevity"));
        assert!(!prompt.contains("Do not stop after the first correct sentence"));
        assert!(!prompt.contains("the lesson; never label the sections"));
    }
}

#[test]
fn prompts_carry_their_version_stamps() {
    assert!(REALTIME_INSTRUCTIONS.starts_with("<!-- overlay-prompt-version: quick-v15-direct-context -->"));
    assert!(PI_INSTRUCTIONS.starts_with("<!-- overlay-prompt-version: pi-v11-workspace-discovery -->"));
    assert_eq!(prompt_stamp("codex.md"), PI_PROMPT_VERSION);
    assert_eq!(prompt_stamp("quick.md"), REALTIME_PROMPT_VERSION);
    assert_eq!(prompt_stamp("other.md"), REALTIME_PROMPT_VERSION);
}

#[test]
fn current_edited_prompts_are_kept() {
    let edited = format!("My own rules\n{PI_PROMPT_VERSION}\n");
    let chosen = pi_instructions(Some(&edited));
    assert_eq!(chosen.text, edited);
    assert!(!chosen.rewrite);
}

#[test]
fn stale_blank_or_missing_prompts_are_restored() {
    let stale = pi_instructions(Some("old prompt pi-v10"));
    assert_eq!(stale.text, PI_INSTRUCTIONS);
    assert!(stale.rewrite);
    let blank = realtime_instructions(Some("   \n\t"));
    assert_eq!(blank.text, REALTIME_INSTRUCTIONS);
    assert!(blank.rewrite);
    let missing = realtime_instructions(None);
    assert_eq!(missing.text, REALTIME_INSTRUCTIONS);
    assert!(missing.rewrite);
    let wrong_lane = resolve_editable_prompt("quick.md", Some(PI_INSTRUCTIONS), "fallback");
    assert_eq!(wrong_lane.text, "fallback");
    assert!(wrong_lane.rewrite);
}

#[test]
fn built_in_prompts_are_kept_once_written_back() {
    let first = pi_instructions(None);
    assert!(first.rewrite);
    let second = pi_instructions(Some(&first.text));
    assert!(!second.rewrite);
    assert_eq!(second.text, PI_INSTRUCTIONS);
    let first = realtime_instructions(Some("stale"));
    let second = realtime_instructions(Some(&first.text));
    assert!(!second.rewrite);
    assert_eq!(second.text, REALTIME_INSTRUCTIONS);
}
