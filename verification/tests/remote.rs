use codex_overlay::remote::{
    authorized_controller_action, bridge_info, classify_client_message, control_command,
    controller_snapshot, fanout_route, is_known_model, parse_client_role, ClientCounts,
    ClientMessage, ClientRole, ControlRequest, FanoutRoute, Lifecycle, ScrollOwnerState,
    ScrollStep, SnapshotFields,
};

#[test]
fn unknown_roles_become_display() {
    assert_eq!(parse_client_role(Some("controller")), ClientRole::Controller);
    assert_eq!(parse_client_role(Some("display")), ClientRole::Display);
    assert_eq!(parse_client_role(Some("admin")), ClientRole::Display);
    assert_eq!(parse_client_role(None), ClientRole::Display);
}

#[test]
fn controllers_may_only_send_or_stop_send() {
    assert!(authorized_controller_action("send"));
    assert!(authorized_controller_action("stop_send"));
    assert!(!authorized_controller_action("select_model"));
    assert!(!authorized_controller_action("start_session"));
    assert!(!authorized_controller_action("screenshot"));
}

#[test]
fn controller_snapshots_strip_private_fields() {
    // A snapshot also holds messages, live transcripts and the model
    // selection; the controller's view is built from these fields only.
    let payload = SnapshotFields {
        lifecycle: Some("active"),
        started: Some(true),
        mode: Some("webapp"),
        busy: Some(false),
        can_send: Some(true),
    };
    let filtered = controller_snapshot(payload, (2, 1));
    assert_eq!(filtered.connected_displays, 2);
    assert_eq!(filtered.connected_controllers, 1);
    assert!(matches!(filtered.lifecycle, Lifecycle::Given("active")));
    assert!(filtered.started);
    assert_eq!(filtered.mode, Some("webapp"));
    assert!(!filtered.busy);
    assert!(filtered.can_send);
}

#[test]
fn controller_snapshot_defaults_lifecycle_from_started() {
    let idle: SnapshotFields<&str> = SnapshotFields {
        lifecycle: None,
        started: None,
        mode: None,
        busy: None,
        can_send: None,
    };
    let view = controller_snapshot(idle, (0, 0));
    assert!(matches!(view.lifecycle, Lifecycle::Idle));
    assert!(!view.started && !view.busy && !view.can_send);
    assert_eq!(view.mode, None);
    let started: SnapshotFields<&str> = SnapshotFields {
        lifecycle: None,
        started: Some(true),
        mode: None,
        busy: Some(true),
        can_send: None,
    };
    let view = controller_snapshot(started, (1, 3));
    assert!(matches!(view.lifecycle, Lifecycle::Active));
    assert!(view.busy);
    assert_eq!((view.connected_displays, view.connected_controllers), (1, 3));
}

#[test]
fn bridge_addresses_use_host_and_port() {
    let info = bridge_info("192.168.1.5", 4317);
    assert_eq!(info.url, "http://192.168.1.5:4317/");
    assert_eq!(info.websocket_url, "ws://192.168.1.5:4317/ws");
    assert_eq!(info.port, 4317);
    assert_eq!(info.connected_clients, 0);
}

#[test]
fn fanout_routes_by_event_and_role() {
    assert_eq!(fanout_route("controller.scroll", ClientRole::Controller), FanoutRoute::Skip);
    assert_eq!(fanout_route("controller.scroll_end", ClientRole::Display), FanoutRoute::Unchanged);
    assert_eq!(fanout_route("scroll.command", ClientRole::Controller), FanoutRoute::Skip);
    assert_eq!(fanout_route("scroll.command", ClientRole::Display), FanoutRoute::Unchanged);
    assert_eq!(fanout_route("session.snapshot", ClientRole::Controller), FanoutRoute::ControllerView);
    assert_eq!(fanout_route("session.snapshot", ClientRole::Display), FanoutRoute::DisplayWithCounts);
    assert_eq!(fanout_route("controller.jump_latest", ClientRole::Controller), FanoutRoute::Unchanged);
}

#[test]
fn client_counts_follow_connections_and_roles() {
    let mut counts = ClientCounts::new();
    assert_eq!(counts.connect(), 1);
    counts.register(ClientRole::Display, false, ClientRole::Display);
    assert_eq!(counts.role_counts(), (1, 0));
    counts.register(ClientRole::Controller, true, ClientRole::Display);
    assert_eq!(counts.role_counts(), (0, 1));
    assert_eq!(counts.disconnect(true, ClientRole::Controller), 0);
    assert_eq!(counts, ClientCounts::new());
    assert_eq!(counts.disconnect(false, ClientRole::Display), 0);
    counts.register(ClientRole::Display, true, ClientRole::Controller);
    assert_eq!(counts.role_counts(), (1, 0));
}

#[test]
fn scroll_gestures_have_one_owner() {
    let mut owner = ScrollOwnerState::new();
    assert_eq!(owner.handle("controller.scroll", Some(1), 10, 1000), ScrollStep::Scroll(1));
    assert_eq!(owner.handle("controller.scroll", Some(5), 20, 1100), ScrollStep::Ignore);
    assert_eq!(owner.handle("controller.scroll", Some(1), 10, 1200), ScrollStep::Scroll(1));
    assert_eq!(owner.handle("controller.scroll", Some(5), 20, 1650), ScrollStep::Scroll(5));
    assert_eq!(owner.handle("controller.scroll_end", Some(1), 10, 1700), ScrollStep::Ignore);
    assert_eq!(owner.handle("controller.scroll_end", Some(9), 20, 1700), ScrollStep::End(9));
    assert_eq!(owner.owner, None);
    assert_eq!(owner.handle("controller.scroll", None, 20, 1800), ScrollStep::Ignore);
    assert_eq!(owner.handle("controller.scroll", Some(2), 30, 1800), ScrollStep::Scroll(2));
    owner.release_client(31);
    assert!(owner.owner.is_some());
    owner.release_client(30);
    assert_eq!(owner.owner, None);
    assert_eq!(owner.handle("controller.scroll", Some(3), 40, 1900), ScrollStep::Scroll(3));
    assert_eq!(owner.handle("controller.jump_latest", None, 50, 1901), ScrollStep::JumpLatest);
    assert_eq!(owner.owner, None);
}

#[test]
fn client_messages_are_classified() {
    assert_eq!(classify_client_message(Some("client.hello"), ClientRole::Display), ClientMessage::Hello);
    assert_eq!(
        classify_client_message(Some("controller.scroll"), ClientRole::Controller),
        ClientMessage::ControllerScroll
    );
    assert_eq!(
        classify_client_message(Some("controller.jump_latest"), ClientRole::Display),
        ClientMessage::Ignore
    );
    assert_eq!(
        classify_client_message(Some("control.command"), ClientRole::Display),
        ClientMessage::ControlCommand
    );
    assert_eq!(classify_client_message(Some("other"), ClientRole::Controller), ClientMessage::Ignore);
    assert_eq!(classify_client_message(None, ClientRole::Controller), ClientMessage::Ignore);
}

fn req(action: Option<&str>, key: Option<&str>, provider: Option<&str>, model: Option<&str>) -> ControlRequest {
    ControlRequest {
        action: action.map(|s| s.to_string()),
        model_key: key.map(|s| s.to_string()),
        provider: provider.map(|s| s.to_string()),
        model: model.map(|s| s.to_string()),
    }
}

#[test]
fn control_commands_are_filtered_and_shaped() {
    assert!(control_command(ClientRole::Display, &req(None, None, None, None)).is_none());
    assert!(control_command(ClientRole::Display, &req(Some("reboot"), None, None, None)).is_none());
    assert!(control_command(ClientRole::Controller, &req(Some("screenshot"), None, None, None)).is_none());
    let send = control_command(ClientRole::Controller, &req(Some("send"), None, None, None)).unwrap();
    assert_eq!(send.action, "send");
    assert!(send.model_key.is_none() && send.selection.is_none());
    assert!(control_command(ClientRole::Display, &req(Some("select_model"), None, Some("xai"), Some("grok-9"))).is_none());
    let keyed = control_command(ClientRole::Display, &req(Some("select_model"), Some("k1"), Some("xai"), Some("grok-4.5"))).unwrap();
    assert_eq!(keyed.model_key.as_deref(), Some("k1"));
    assert!(keyed.selection.is_none());
    let chosen = control_command(ClientRole::Display, &req(Some("select_model"), None, Some("xai"), Some("grok-4.6"))).unwrap();
    assert_eq!(chosen.selection, Some(("xai".to_string(), "grok-4.6".to_string())));
    let other = control_command(ClientRole::Display, &req(Some("screenshot"), None, Some("xai"), Some("grok-9"))).unwrap();
    assert!(other.selection.is_none());
    assert!(is_known_model("openrouter", "z-ai/glm-5.3-flash"));
    assert!(!is_known_model("openrouter", "z-ai/glm-5.3"));
}
