//! The remote view for a phone on the same network: client roles and their
//! counts, what each role may see and do, and which controller owns a
//! scrolling gesture.
use vstd::prelude::*;

use crate::text::{decimal, is_prefix, owned, push_decimal, push_str, starts_with, str_eq};

verus! {

/// Largest scroll step, in pixels, that a controller may send.
pub const MAX_SCROLL_DELTA_PX: u64 = 800;
/// Milliseconds after which an idle scrolling gesture can be taken over.
pub const SCROLL_OWNER_TIMEOUT_MS: u64 = 450;
/// First port tried for the remote view.
pub const FIRST_PORT: u16 = 4317;
/// Last port tried for the remote view.
pub const LAST_PORT: u16 = 4327;

/// What a connected client is.
#[derive(Clone, Copy, Debug, PartialEq, Eq, Structural)]
pub enum ClientRole {
    Display,
    Controller,
}

/// A client is a controller only when it says so; anything else displays.
pub fn parse_client_role(value: Option<&str>) -> (r: ClientRole)
    ensures
        r == (if value matches Some(v) && v@ == "controller"@ {
            ClientRole::Controller
        } else {
            ClientRole::Display
        }),
{
    match value {
        Some(v) => if str_eq(v, "controller") {
            ClientRole::Controller
        } else {
            ClientRole::Display
        },
        None => ClientRole::Display,
    }
}

/// Controllers may only send or stop sending.
pub fn authorized_controller_action(action: &str) -> (r: bool)
    ensures
        r == (action@ == "send"@ || action@ == "stop_send"@),
{
    str_eq(action, "send") || str_eq(action, "stop_send")
}

/// Where the remote view is served.
#[derive(Clone, Debug)]
pub struct RemoteBridgeInfo {
    pub url: String,
    pub websocket_url: String,
    pub port: u16,
    pub connected_clients: usize,
}

/// The addresses of the remote view on the given host address and port.
pub fn bridge_info(ip: &str, port: u16) -> (info: RemoteBridgeInfo)
    ensures
        info.url@ == "http://"@ + ip@ + ":"@ + decimal(port as nat) + "/"@,
        info.websocket_url@ == "ws://"@ + ip@ + ":"@ + decimal(port as nat) + "/ws"@,
        info.port == port,
        info.connected_clients == 0,
{
    let mut url = String::from_str("http://");
    push_str(&mut url, ip);
    push_str(&mut url, ":");
    push_decimal(&mut url, port as u64);
    push_str(&mut url, "/");
    let mut ws = String::from_str("ws://");
    push_str(&mut ws, ip);
    push_str(&mut ws, ":");
    push_decimal(&mut ws, port as u64);
    push_str(&mut ws, "/ws");
    RemoteBridgeInfo { url, websocket_url: ws, port, connected_clients: 0 }
}

// ---------------------------------------------------------------------------
// Snapshots
// ---------------------------------------------------------------------------

/// The fields of a session snapshot that a controller may see; `V` is the
/// type of an arbitrary JSON value.
#[derive(Clone, Debug)]
pub struct SnapshotFields<V> {
    pub lifecycle: Option<V>,
    pub started: Option<bool>,
    pub mode: Option<V>,
    pub busy: Option<bool>,
    pub can_send: Option<bool>,
}

/// The lifecycle shown to a controller.
#[derive(Clone, Debug)]
pub enum Lifecycle<V> {
    /// As the snapshot gives it.
    Given(V),
    /// `"active"`: the snapshot has none and the session started.
    Active,
    /// `"idle"`: the snapshot has none and the session did not start.
    Idle,
}

/// What a controller sees of a session: no messages, transcripts or model
/// selection, only the lifecycle, the flags and the client counts.
#[derive(Clone, Debug)]
pub struct ControllerSnapshot<V> {
    pub lifecycle: Lifecycle<V>,
    pub started: bool,
    pub mode: Option<V>,
    pub busy: bool,
    pub can_send: bool,
    pub connected_displays: usize,
    pub connected_controllers: usize,
}

/// `b`, or false when absent.
pub open spec fn flag(b: Option<bool>) -> bool {
    b matches Some(x) && x
}

/// Builds what a controller sees of a snapshot, with the current counts of
/// displays and controllers.
pub fn controller_snapshot<V>(payload: SnapshotFields<V>, counts: (usize, usize)) -> (s: ControllerSnapshot<V>)
    ensures
        match payload.lifecycle {
            Some(l) => s.lifecycle == Lifecycle::Given(l),
            None => s.lifecycle == (if flag(payload.started) {
                Lifecycle::<V>::Active
            } else {
                Lifecycle::<V>::Idle
            }),
        },
        s.started == flag(payload.started),
        s.mode == payload.mode,
        s.busy == flag(payload.busy),
        s.can_send == flag(payload.can_send),
        s.connected_displays == counts.0,
        s.connected_controllers == counts.1,
{
    let started = match payload.started {
        Some(b) => b,
        None => false,
    };
    let lifecycle = match payload.lifecycle {
        Some(l) => Lifecycle::Given(l),
        None => if started {
            Lifecycle::Active
        } else {
            Lifecycle::Idle
        },
    };
    ControllerSnapshot {
        lifecycle,
        started,
        mode: payload.mode,
        busy: match payload.busy {
            Some(b) => b,
            None => false,
        },
        can_send: match payload.can_send {
            Some(b) => b,
            None => false,
        },
        connected_displays: counts.0,
        connected_controllers: counts.1,
    }
}

/// How an event reaches one client.
#[derive(Clone, Copy, Debug, PartialEq, Eq)]
pub enum FanoutRoute {
    /// Not sent to this client.
    Skip,
    /// The controller's view of a snapshot.
    ControllerView,
    /// The snapshot with the client counts added.
    DisplayWithCounts,
    /// The payload as it is.
    Unchanged,
}

/// How an event of the given type reaches a client of the given role:
/// scrolling goes to displays only; snapshots are filtered for controllers
/// and given counts for displays.
pub open spec fn fanout_route_of(event_type: Seq<char>, role: ClientRole) -> FanoutRoute {
    if is_prefix("controller.scroll"@, event_type) && role != ClientRole::Display {
        FanoutRoute::Skip
    } else if event_type == "scroll.command"@ && role != ClientRole::Display {
        FanoutRoute::Skip
    } else if event_type == "session.snapshot"@ && role == ClientRole::Controller {
        FanoutRoute::ControllerView
    } else if event_type == "session.snapshot"@ && role == ClientRole::Display {
        FanoutRoute::DisplayWithCounts
    } else {
        FanoutRoute::Unchanged
    }
}

/// Decides how an event reaches a client.
/// Scrolling events reach displays only: every event whose type begins
/// with `controller.scroll` (the scroll itself and its end) and every
/// scrolling command skips a client that is not a display; a display is
/// skipped for no event; a snapshot reaches a display with the client
/// counts and a controller in its reduced form.
pub proof fn lemma_scroll_events_reach_only_displays(event_type: Seq<char>, role: ClientRole)
    ensures
        is_prefix("controller.scroll"@, event_type) && role != ClientRole::Display ==> fanout_route_of(
            event_type,
            role,
        ) == FanoutRoute::Skip,
        event_type == "scroll.command"@ && role != ClientRole::Display ==> fanout_route_of(
            event_type,
            role,
        ) == FanoutRoute::Skip,
        role == ClientRole::Display ==> fanout_route_of(event_type, role) != FanoutRoute::Skip,
        event_type == "session.snapshot"@ ==> fanout_route_of(event_type, role) == (if role
            == ClientRole::Display {
            FanoutRoute::DisplayWithCounts
        } else {
            FanoutRoute::ControllerView
        }),
{
    reveal_strlit("controller.scroll");
    reveal_strlit("session.snapshot");
    reveal_strlit("scroll.command");
    if event_type == "session.snapshot"@ {
        assert(event_type[0] == 's');
        assert(!is_prefix("controller.scroll"@, event_type));
    }
}

pub fn fanout_route(event_type: &str, role: ClientRole) -> (r: FanoutRoute)
    ensures
        r == fanout_route_of(event_type@, role),
        is_prefix("controller.scroll"@, event_type@) && role != ClientRole::Display ==> r
            == FanoutRoute::Skip,
{
    proof {
        lemma_scroll_events_reach_only_displays(event_type@, role);
    }
    if starts_with(event_type, "controller.scroll") && role != ClientRole::Display {
        FanoutRoute::Skip
    } else if str_eq(event_type, "scroll.command") && role != ClientRole::Display {
        FanoutRoute::Skip
    } else if str_eq(event_type, "session.snapshot") {
        match role {
            ClientRole::Controller => FanoutRoute::ControllerView,
            ClientRole::Display => FanoutRoute::DisplayWithCounts,
        }
    } else {
        FanoutRoute::Unchanged
    }
}

// ---------------------------------------------------------------------------
// Client counts
// ---------------------------------------------------------------------------

/// Counts of connected clients, of registered displays and of registered
/// controllers, kept like the atomic counters of a server: increments wrap,
/// role decrements saturate at zero.
#[derive(Clone, Copy, Debug, PartialEq, Eq, Structural)]
pub struct ClientCounts {
    pub connected: usize,
    pub displays: usize,
    pub controllers: usize,
}

/// The count of a role after a client of that role registers.
pub open spec fn role_added(c: ClientCounts, role: ClientRole) -> ClientCounts {
    match role {
        ClientRole::Display => ClientCounts { displays: c.displays.wrapping_add(1), ..c },
        ClientRole::Controller => ClientCounts { controllers: c.controllers.wrapping_add(1), ..c },
    }
}

/// The count of a role after a client of that role leaves.
pub open spec fn role_removed(c: ClientCounts, role: ClientRole) -> ClientCounts {
    match role {
        ClientRole::Display => ClientCounts {
            displays: if c.displays == 0 { 0 } else { (c.displays - 1) as usize },
            ..c
        },
        ClientRole::Controller => ClientCounts {
            controllers: if c.controllers == 0 { 0 } else { (c.controllers - 1) as usize },
            ..c
        },
    }
}

impl ClientCounts {
    /// No client.
    pub fn new() -> (c: Self)
        ensures
            c == (ClientCounts { connected: 0, displays: 0, controllers: 0 }),
    {
        ClientCounts { connected: 0, displays: 0, controllers: 0 }
    }

    /// A socket connected; returns the new number of connections.
    pub fn connect(&mut self) -> (n: usize)
        ensures
            *final(self) == (ClientCounts { connected: old(self).connected.wrapping_add(1), ..*old(self) }),
            n == final(self).connected,
    {
        self.connected = self.connected.wrapping_add(1);
        self.connected
    }

    fn add_role(&mut self, role: ClientRole)
        ensures
            *final(self) == role_added(*old(self), role),
    {
        match role {
            ClientRole::Display => self.displays = self.displays.wrapping_add(1),
            ClientRole::Controller => self.controllers = self.controllers.wrapping_add(1),
        }
    }

    fn remove_role(&mut self, role: ClientRole)
        ensures
            *final(self) == role_removed(*old(self), role),
    {
        match role {
            ClientRole::Display => self.displays = self.displays.saturating_sub(1),
            ClientRole::Controller => self.controllers = self.controllers.saturating_sub(1),
        }
    }

    /// A client said hello as `role`; a client that had registered before
    /// with `previous_role` leaves that role first.
    pub fn register(&mut self, role: ClientRole, already_registered: bool, previous_role: ClientRole)
        ensures
            *final(self) == role_added(
                if already_registered {
                    role_removed(*old(self), previous_role)
                } else {
                    *old(self)
                },
                role,
            ),
    {
        if already_registered {
            self.remove_role(previous_role);
        }
        self.add_role(role);
    }

    /// A socket closed, registered as `role` if `registered`; returns the
    /// number of connections that remain, as reported (never below zero).
    pub fn disconnect(&mut self, registered: bool, role: ClientRole) -> (n: usize)
        ensures
            final(self).connected == old(self).connected.wrapping_sub(1),
            (final(self).displays, final(self).controllers) == (if registered {
                (role_removed(*old(self), role).displays, role_removed(*old(self), role).controllers)
            } else {
                (old(self).displays, old(self).controllers)
            }),
            n == (if old(self).connected == 0 { 0 } else { (old(self).connected - 1) as usize }),
    {
        if registered {
            self.remove_role(role);
        }
        let previous = self.connected;
        self.connected = self.connected.wrapping_sub(1);
        previous.saturating_sub(1)
    }

    /// The counts of displays and controllers.
    pub fn role_counts(&self) -> (r: (usize, usize))
        ensures
            r == (self.displays, self.controllers),
    {
        (self.displays, self.controllers)
    }
}

/// A client that connects, registers and disconnects leaves the counts as
/// they were (short of counter overflow).
pub proof fn lemma_connect_register_disconnect_restores(c: ClientCounts, role: ClientRole)
    requires
        c.connected < usize::MAX,
        c.displays < usize::MAX,
        c.controllers < usize::MAX,
    ensures
        ({
            let c1 = ClientCounts { connected: c.connected.wrapping_add(1), ..c };
            let c2 = role_added(c1, role);
            let c3 = role_removed(c2, role);
            ClientCounts { connected: c3.connected.wrapping_sub(1), ..c3 } == c
        }),
{
}

// ---------------------------------------------------------------------------
// Scrolling gestures
// ---------------------------------------------------------------------------

/// The controller that owns the current scrolling gesture.
#[derive(Clone, Copy, Debug, PartialEq, Eq, Structural)]
pub struct ScrollOwner {
    pub client_id: u64,
    pub gesture_id: u64,
    pub last_at_ms: u64,
}

/// Who owns scrolling, if anyone.
#[derive(Clone, Copy, Debug, PartialEq, Eq, Structural)]
pub struct ScrollOwnerState {
    pub owner: Option<ScrollOwner>,
}

/// Milliseconds from `then` to `now`, zero if `now` is earlier.
pub open spec fn elapsed(now: u64, then: u64) -> nat {
    if now >= then { (now - then) as nat } else { 0 }
}

/// Whether a client may act on a gesture: nobody owns scrolling, the client
/// continues its own gesture, the owner has been idle for the timeout, or
/// the owner ends its gesture.
pub open spec fn may_claim(owner: Option<ScrollOwner>, client_id: u64, gesture_id: u64, ending: bool, now_ms: u64) -> bool {
    match owner {
        None => true,
        Some(o) => {
            ||| (o.client_id == client_id && o.gesture_id == gesture_id)
            ||| elapsed(now_ms, o.last_at_ms) >= SCROLL_OWNER_TIMEOUT_MS
            ||| (o.client_id == client_id && ending)
        },
    }
}

/// What a controller's scrolling message leads to.
#[derive(Clone, Copy, Debug, PartialEq, Eq)]
pub enum ScrollStep {
    /// Nothing.
    Ignore,
    /// Every display jumps to the latest message.
    JumpLatest,
    /// The gesture ended.
    End(u64),
    /// The gesture scrolls; the step is still to be checked.
    Scroll(u64),
}

impl ScrollOwnerState {
    /// Nobody owns scrolling.
    pub fn new() -> (s: Self)
        ensures
            s.owner is None,
    {
        ScrollOwnerState { owner: None }
    }

    /// Claims the gesture for a client at time `now_ms`; returns whether the
    /// client may act on it. An allowed claim makes the client the owner, or
    /// releases ownership when the gesture ends.
    pub fn claim(&mut self, client_id: u64, gesture_id: u64, ending: bool, now_ms: u64) -> (allowed: bool)
        ensures
            allowed == may_claim(old(self).owner, client_id, gesture_id, ending, now_ms),
            !allowed ==> *final(self) == *old(self),
            allowed && ending ==> final(self).owner is None,
            allowed && !ending ==> final(self).owner == Some(
                ScrollOwner { client_id, gesture_id, last_at_ms: now_ms },
            ),
    {
        let allowed = match self.owner {
            None => true,
            Some(o) => {
                (o.client_id == client_id && o.gesture_id == gesture_id) || now_ms.saturating_sub(
                    o.last_at_ms,
                ) >= SCROLL_OWNER_TIMEOUT_MS || (o.client_id == client_id && ending)
            },
        };
        if !allowed {
            return false;
        }
        if ending {
            self.owner = None;
        } else {
            self.owner = Some(ScrollOwner { client_id, gesture_id, last_at_ms: now_ms });
        }
        true
    }

    /// A client left: it no longer owns scrolling.
    pub fn release_client(&mut self, client_id: u64)
        ensures
            (old(self).owner matches Some(o) && o.client_id == client_id) ==> final(self).owner is None,
            !(old(self).owner matches Some(o) && o.client_id == client_id) ==> *final(self) == *old(self),
    {
        match self.owner {
            Some(o) => {
                if o.client_id == client_id {
                    self.owner = None;
                }
            },
            None => {},
        }
    }

    /// Handles a controller's scrolling message of type `event_type`
    /// (`controller.scroll`, `controller.scroll_end` or
    /// `controller.jump_latest`) at time `now_ms`.
    pub fn handle(&mut self, event_type: &str, gesture_id: Option<u64>, client_id: u64, now_ms: u64) -> (step: ScrollStep)
        ensures
            event_type@ == "controller.jump_latest"@ ==> step == ScrollStep::JumpLatest
                && final(self).owner is None,
            event_type@ != "controller.jump_latest"@ ==> match gesture_id {
                None => step == ScrollStep::Ignore && *final(self) == *old(self),
                Some(g) => {
                    let ending = event_type@ == "controller.scroll_end"@;
                    if may_claim(old(self).owner, client_id, g, ending, now_ms) {
                        &&& step == (if ending { ScrollStep::End(g) } else { ScrollStep::Scroll(g) })
                        &&& ending ==> final(self).owner is None
                        &&& !ending ==> final(self).owner == Some(
                            ScrollOwner { client_id, gesture_id: g, last_at_ms: now_ms },
                        )
                    } else {
                        step == ScrollStep::Ignore && *final(self) == *old(self)
                    }
                },
            },
    {
        if str_eq(event_type, "controller.jump_latest") {
            self.owner = None;
            return ScrollStep::JumpLatest;
        }
        let g = match gesture_id {
            Some(g) => g,
            None => return ScrollStep::Ignore,
        };
        let ending = str_eq(event_type, "controller.scroll_end");
        if !self.claim(client_id, g, ending, now_ms) {
            return ScrollStep::Ignore;
        }
        if ending {
            ScrollStep::End(g)
        } else {
            ScrollStep::Scroll(g)
        }
    }
}

/// While its owner is active, another controller cannot take over a
/// scrolling gesture.
pub proof fn lemma_active_gesture_is_not_stolen(o: ScrollOwner, client_id: u64, gesture_id: u64, ending: bool, now_ms: u64)
    requires
        o.client_id != client_id,
        elapsed(now_ms, o.last_at_ms) < SCROLL_OWNER_TIMEOUT_MS,
    ensures
        !may_claim(Some(o), client_id, gesture_id, ending, now_ms),
{
}

// ---------------------------------------------------------------------------
// Client messages and commands
// ---------------------------------------------------------------------------

/// What a client's message is.
#[derive(Clone, Copy, Debug, PartialEq, Eq)]
pub enum ClientMessage {
    /// `client.hello`: the client registers its role.
    Hello,
    /// A scrolling message from a controller.
    ControllerScroll,
    /// `control.command`.
    ControlCommand,
    /// Anything else, and scrolling messages from displays.
    Ignore,
}

/// Classifies a client's message by its type and the client's role.
pub fn classify_client_message(message_type: Option<&str>, role: ClientRole) -> (m: ClientMessage)
    ensures
        m == (match message_type {
            Some(t) => if t@ == "client.hello"@ {
                ClientMessage::Hello
            } else if t@ == "controller.scroll"@ || t@ == "controller.scroll_end"@ || t@
                == "controller.jump_latest"@ {
                if role == ClientRole::Controller {
                    ClientMessage::ControllerScroll
                } else {
                    ClientMessage::Ignore
                }
            } else if t@ == "control.command"@ {
                ClientMessage::ControlCommand
            } else {
                ClientMessage::Ignore
            },
            None => ClientMessage::Ignore,
        }),
{
    match message_type {
        Some(t) => {
            if str_eq(t, "client.hello") {
                ClientMessage::Hello
            } else if str_eq(t, "controller.scroll") || str_eq(t, "controller.scroll_end") || str_eq(
                t,
                "controller.jump_latest",
            ) {
                if role == ClientRole::Controller {
                    ClientMessage::ControllerScroll
                } else {
                    ClientMessage::Ignore
                }
            } else if str_eq(t, "control.command") {
                ClientMessage::ControlCommand
            } else {
                ClientMessage::Ignore
            }
        },
        None => ClientMessage::Ignore,
    }
}

/// The remote commands that the window understands.
pub open spec fn known_action(a: Seq<char>) -> bool {
    ||| a == "send"@
    ||| a == "stop_send"@
    ||| a == "screenshot"@
    ||| a == "retry_failed"@
    ||| a == "select_model"@
    ||| a == "start_session"@
    ||| a == "end_session"@
}

/// The (provider, model) pairs that a remote may select.
pub open spec fn known_model(p: Seq<char>, m: Seq<char>) -> bool {
    ||| p == "openai-codex"@ && m == "gpt-5.6-terra"@
    ||| p == "openai-codex"@ && m == "gpt-5.6-sol"@
    ||| p == "cursor"@ && m == "gpt-5.6-terra@272k:fast"@
    ||| p == "cursor"@ && m == "grok-4.6:fast"@
    ||| p == "xai"@ && m == "grok-4.5"@
    ||| p == "xai"@ && m == "grok-4.6"@
    ||| p == "openrouter"@ && m == "openai/gpt-5.6-terra"@
    ||| p == "openrouter"@ && m == "z-ai/glm-5.3-flash"@
}

/// A command forwarded to the window.
#[derive(Clone, Debug)]
pub struct ControlPayload {
    pub action: String,
    pub model_key: Option<String>,
    pub selection: Option<(String, String)>,
}

/// The fields of a `control.command` message.
#[derive(Clone, Debug)]
pub struct ControlRequest {
    pub action: Option<String>,
    pub model_key: Option<String>,
    pub provider: Option<String>,
    pub model: Option<String>,
}

/// The selection of a request, when it names both provider and model.
pub open spec fn request_selection(req: ControlRequest) -> Option<(Seq<char>, Seq<char>)> {
    match (req.provider, req.model) {
        (Some(p), Some(m)) => Some((p@, m@)),
        _ => None,
    }
}

/// Whether a command is forwarded: it has a known action, a controller may
/// only send or stop sending, and a model selection must name a model key or
/// a known model.
pub open spec fn command_forwarded(role: ClientRole, req: ControlRequest) -> bool {
    &&& req.action matches Some(a)
    &&& !(role == ClientRole::Controller && !(a@ == "send"@ || a@ == "stop_send"@))
    &&& known_action(a@)
    &&& !(a@ == "select_model"@ && req.model_key is None && !(request_selection(req) matches Some(
        s,
    ) && known_model(s.0, s.1)))
}

/// Decides which command, if any, a client's `control.command` forwards:
/// the action with the model key when one is given, else with the selection
/// when it names a known model, else alone.
/// What the remote view may ask of the window: a display may send, stop
/// sending, take a screenshot, retry a failed turn, start or end a session,
/// and select a model by its key; a controller may send and stop sending
/// and nothing else; a message without an action asks nothing.
pub proof fn lemma_remote_commands(req: ControlRequest)
    ensures
        match req.action {
            Some(a) => {
                &&& (a@ == "send"@ || a@ == "stop_send"@ || a@ == "screenshot"@ || a@ == "retry_failed"@
                    || a@ == "start_session"@ || a@ == "end_session"@ || (a@ == "select_model"@
                    && req.model_key is Some)) ==> command_forwarded(ClientRole::Display, req)
                &&& (a@ == "send"@ || a@ == "stop_send"@) ==> command_forwarded(ClientRole::Controller, req)
                &&& !(a@ == "send"@ || a@ == "stop_send"@) ==> !command_forwarded(ClientRole::Controller, req)
            },
            None => !command_forwarded(ClientRole::Display, req) && !command_forwarded(
                ClientRole::Controller,
                req,
            ),
        },
{
    reveal_strlit("send");
    reveal_strlit("stop_send");
    reveal_strlit("screenshot");
    reveal_strlit("retry_failed");
    reveal_strlit("select_model");
    reveal_strlit("start_session");
    reveal_strlit("end_session");
    assert("select_model"@.len() == 12);
    assert("retry_failed"@[0] == 'r' && "select_model"@[0] == 's');
    assert("send"@.len() == 4 && "stop_send"@.len() == 9 && "screenshot"@.len() == 10);
    assert("start_session"@.len() == 13 && "end_session"@.len() == 11);
    if let Some(a) = req.action {
        if a@ == "send"@ || a@ == "stop_send"@ || a@ == "screenshot"@ || a@ == "retry_failed"@ || a@
            == "start_session"@ || a@ == "end_session"@ {
            assert(a@ != "select_model"@);
            assert(known_action(a@));
            assert(command_forwarded(ClientRole::Display, req));
        }
        if a@ == "select_model"@ && req.model_key is Some {
            assert(command_forwarded(ClientRole::Display, req));
        }
        if a@ == "send"@ || a@ == "stop_send"@ {
            assert(a@ != "select_model"@);
            assert(command_forwarded(ClientRole::Controller, req));
        }
    }
}

pub fn control_command(role: ClientRole, req: &ControlRequest) -> (r: Option<ControlPayload>)
    ensures
        match req.action {
            Some(a) => (role == ClientRole::Display && (a@ == "send"@ || a@ == "stop_send"@ || a@
                == "screenshot"@ || a@ == "retry_failed"@ || a@ == "start_session"@ || a@
                == "end_session"@ || (a@ == "select_model"@ && req.model_key is Some))) ==> (r matches Some(
                p,
            ) && p.action@ == a@),
            None => r is None,
        },
        !command_forwarded(role, *req) ==> r is None,
        command_forwarded(role, *req) ==> (r matches Some(p) && Some(p.action@) == (match req.action {
            Some(a) => Some(a@),
            None => None,
        }) && match req.model_key {
            Some(k) => p.model_key matches Some(pk) && pk@ == k@ && p.selection is None,
            None => p.model_key is None && match request_selection(*req) {
                Some(s) => if known_model(s.0, s.1) {
                    p.selection matches Some(ps) && ps.0@ == s.0 && ps.1@ == s.1
                } else {
                    p.selection is None
                },
                None => p.selection is None,
            },
        }),
{
    proof {
        lemma_remote_commands(*req);
    }
    let action = match &req.action {
        Some(a) => a,
        None => return None,
    };
    if role == ClientRole::Controller && !authorized_controller_action(action.as_str()) {
        return None;
    }
    let a = action.as_str();
    if !(str_eq(a, "send") || str_eq(a, "stop_send") || str_eq(a, "screenshot") || str_eq(
        a,
        "retry_failed",
    ) || str_eq(a, "select_model") || str_eq(a, "start_session") || str_eq(a, "end_session")) {
        return None;
    }
    let known = match (&req.provider, &req.model) {
        (Some(p), Some(m)) => is_known_model(p.as_str(), m.as_str()),
        _ => false,
    };
    if str_eq(a, "select_model") && req.model_key.is_none() && !known {
        return None;
    }
    match &req.model_key {
        Some(k) => Some(ControlPayload { action: owned(a), model_key: Some(owned(k.as_str())), selection: None }),
        None => {
            let selection = match (&req.provider, &req.model) {
                (Some(p), Some(m)) => if known {
                    Some((owned(p.as_str()), owned(m.as_str())))
                } else {
                    None
                },
                _ => None,
            };
            Some(ControlPayload { action: owned(a), model_key: None, selection })
        },
    }
}

fn pair_is(provider: &str, model: &str, p: &str, m: &str) -> (r: bool)
    ensures
        r == (provider@ == p@ && model@ == m@),
{
    str_eq(provider, p) && str_eq(model, m)
}

/// Whether a remote may select the model.
pub fn is_known_model(provider: &str, model: &str) -> (r: bool)
    ensures
        r == known_model(provider@, model@),
{
    pair_is(provider, model, "openai-codex", "gpt-5.6-terra") || pair_is(
        provider,
        model,
        "openai-codex",
        "gpt-5.6-sol",
    ) || pair_is(provider, model, "cursor", "gpt-5.6-terra@272k:fast") || pair_is(
        provider,
        model,
        "cursor",
        "grok-4.6:fast",
    ) || pair_is(provider, model, "xai", "grok-4.5") || pair_is(provider, model, "xai", "grok-4.6")
        || pair_is(provider, model, "openrouter", "openai/gpt-5.6-terra") || pair_is(
        provider,
        model,
        "openrouter",
        "z-ai/glm-5.3-flash",
    )
}

} // verus!
