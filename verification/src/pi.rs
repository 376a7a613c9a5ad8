//! The Pi lane: which model selections are supported, when a session can be
//! reused, how failed turns are classified, and the bookkeeping of requests
//! sent to the Pi bridge process.
use vstd::prelude::*;

use crate::text::{chars_of, contains, decimal, owned, push_decimal, push_str, str_contains, str_eq, trim};

verus! {

/// Provider of the default Pi model.
pub const DEFAULT_PI_PROVIDER: &'static str = "openai-codex";
/// The default Pi model.
pub const DEFAULT_PI_MODEL: &'static str = "gpt-5.6-terra";
/// The default thinking level.
pub const PI_THINKING_LEVEL: &'static str = "low";
/// Seconds to wait for a session to start.
pub const START_TIMEOUT_SECS: u64 = 30;
/// Seconds to wait for a Cursor session to start.
pub const CURSOR_START_TIMEOUT_SECS: u64 = 90;
/// Seconds to wait for a turn.
pub const TURN_TIMEOUT_SECS: u64 = 190;
/// Seconds to wait for a control request (abort, close).
pub const CONTROL_TIMEOUT_SECS: u64 = 5;

/// The supported (provider, model, thinking level) selections.
pub open spec fn allowed_selection(p: Seq<char>, m: Seq<char>, t: Seq<char>) -> bool {
    ||| p == "openai-codex"@ && m == "gpt-5.6-terra"@ && t == "low"@
    ||| p == "openai-codex"@ && m == "gpt-5.6-sol"@ && t == "low"@
    ||| p == "cursor"@ && m == "gpt-5.6-terra@272k:fast"@ && t == "low"@
    ||| p == "cursor"@ && m == "grok-4.6:fast"@ && t == "medium"@
    ||| p == "xai"@ && m == "grok-4.5"@ && t == "low"@
    ||| p == "xai"@ && m == "grok-4.6"@ && t == "low"@
    ||| p == "openrouter"@ && m == "openai/gpt-5.6-terra"@ && t == "low"@
    ||| p == "openrouter"@ && m == "z-ai/glm-5.3-flash"@ && t == "low"@
    ||| p == "openrouter"@ && m == "z-ai/glm-5.3-flash"@ && t == "high"@
    ||| p == "openrouter"@ && m == "z-ai/glm-5.3-flash"@ && t == "max"@
}

/// The message for an unsupported selection.
pub open spec fn unsupported_selection_message(p: Seq<char>, m: Seq<char>, t: Seq<char>) -> Seq<char> {
    "Unsupported Pi model selection: "@ + p + "/"@ + m + " ("@ + t + ")"@
}

fn selection_is(provider: &str, model: &str, level: &str, p: &str, m: &str, t: &str) -> (r: bool)
    ensures
        r == (provider@ == p@ && model@ == m@ && level@ == t@),
{
    str_eq(provider, p) && str_eq(model, m) && str_eq(level, t)
}

/// Accepts only the supported model selections.
pub fn validate_selection(provider: &str, model: &str, thinking_level: &str) -> (r: Result<(), String>)
    ensures
        allowed_selection(provider@, model@, thinking_level@) ==> r is Ok,
        !allowed_selection(provider@, model@, thinking_level@) ==> (r matches Err(e) && e@
            == unsupported_selection_message(provider@, model@, thinking_level@)),
{
    let (p, m, t) = (provider, model, thinking_level);
    if selection_is(p, m, t, "openai-codex", "gpt-5.6-terra", "low") || selection_is(
        p,
        m,
        t,
        "openai-codex",
        "gpt-5.6-sol",
        "low",
    ) || selection_is(p, m, t, "cursor", "gpt-5.6-terra@272k:fast", "low") || selection_is(
        p,
        m,
        t,
        "cursor",
        "grok-4.6:fast",
        "medium",
    ) || selection_is(p, m, t, "xai", "grok-4.5", "low") || selection_is(
        p,
        m,
        t,
        "xai",
        "grok-4.6",
        "low",
    ) || selection_is(p, m, t, "openrouter", "openai/gpt-5.6-terra", "low") || selection_is(
        p,
        m,
        t,
        "openrouter",
        "z-ai/glm-5.3-flash",
        "low",
    ) || selection_is(p, m, t, "openrouter", "z-ai/glm-5.3-flash", "high") || selection_is(
        p,
        m,
        t,
        "openrouter",
        "z-ai/glm-5.3-flash",
        "max",
    ) {
        Ok(())
    } else {
        let mut e = String::from_str("Unsupported Pi model selection: ");
        push_str(&mut e, provider);
        push_str(&mut e, "/");
        push_str(&mut e, model);
        push_str(&mut e, " (");
        push_str(&mut e, thinking_level);
        push_str(&mut e, ")");
        Err(e)
    }
}

/// Whether an error means that the Pi bridge process is gone.
pub open spec fn is_worker_lost(e: Seq<char>) -> bool {
    ||| contains(e, "Pi SDK bridge stopped unexpectedly"@)
    ||| contains(e, "Pi bridge is unavailable"@)
    ||| contains(e, "Failed to write to Pi bridge"@)
    ||| contains(e, "Pi bridge response channel closed"@)
}

/// Whether an error means that the Pi bridge process is gone (as opposed to
/// a turn that was aborted, timed out or failed at the provider).
pub fn worker_lost(error: &str) -> (r: bool)
    ensures
        r == is_worker_lost(error@),
{
    str_contains(error, "Pi SDK bridge stopped unexpectedly") || str_contains(
        error,
        "Pi bridge is unavailable",
    ) || str_contains(error, "Failed to write to Pi bridge") || str_contains(
        error,
        "Pi bridge response channel closed",
    )
}

/// Seconds to wait for a session of the provider to start: Cursor starts
/// slowly.
pub fn start_timeout(provider: &str) -> (secs: u64)
    ensures
        secs == if provider@ == "cursor"@ {
            CURSOR_START_TIMEOUT_SECS
        } else {
            START_TIMEOUT_SECS
        },
{
    if str_eq(provider, "cursor") {
        CURSOR_START_TIMEOUT_SECS
    } else {
        START_TIMEOUT_SECS
    }
}

/// A model selection.
/// Whether two paths are equal as `std::path::Path` compares them.
pub uninterp spec fn same_path(a: Seq<char>, b: Seq<char>) -> bool;

/// `==` of `std::path::Path` on two paths given as text, which compares
/// them component by component. Its value is named; a path is equal to
/// itself (`Path` is `Eq`).
#[verifier::external_body]
fn paths_equal(a: &str, b: &str) -> (r: bool)
    ensures
        r == same_path(a@, b@),
        a@ == b@ ==> r,
{
    std::path::Path::new(a) == std::path::Path::new(b)
}

/// Where a file that Pi needs was found.
#[derive(Clone, Copy, PartialEq, Eq, Debug)]
pub enum PathChoice {
    /// The path named by the environment variable.
    Override,
    /// The candidate at this index.
    Candidate(usize),
}

/// The message when no Node.js binary was found.
pub open spec fn node_missing_message() -> Seq<char> {
    "Pi requires Node.js 22.19 or newer; no supported Node binary was found"@
}

/// The message when the bridge script was found nowhere.
pub open spec fn bridge_missing_message() -> Seq<char> {
    "Pi SDK bridge is missing"@
}

/// The places where Node.js is looked for, in order, when the environment
/// names none.
pub fn node_candidates() -> (v: Vec<&'static str>)
    ensures
        v@.len() == 5,
        v@[0]@ == "/opt/homebrew/bin/node"@,
        v@[1]@ == "/opt/homebrew/opt/node@22/bin/node"@,
        v@[2]@ == "/opt/homebrew/opt/node@26/bin/node"@,
        v@[3]@ == "/usr/local/bin/node"@,
        v@[4]@ == "/usr/local/opt/node@22/bin/node"@,
{
    let mut v: Vec<&'static str> = Vec::new();
    v.push("/opt/homebrew/bin/node");
    v.push("/opt/homebrew/opt/node@22/bin/node");
    v.push("/opt/homebrew/opt/node@26/bin/node");
    v.push("/usr/local/bin/node");
    v.push("/usr/local/opt/node@22/bin/node");
    v
}

/// Picks a file: the one the environment names if it is a file
/// (`override_is_file` is `None` when the variable is unset), else the
/// first candidate that is a file, else the error `missing`.
pub fn choose_path(override_is_file: Option<bool>, candidates_are_files: &Vec<bool>, missing: &str) -> (r: Result<PathChoice, String>)
    ensures
        override_is_file == Some(true) ==> r == Ok::<PathChoice, String>(PathChoice::Override),
        override_is_file != Some(true) ==> match r {
            Ok(PathChoice::Candidate(i)) => i < candidates_are_files@.len() && candidates_are_files@[i as int]
                && forall|k: int| 0 <= k < i ==> !#[trigger] candidates_are_files@[k],
            Ok(PathChoice::Override) => false,
            Err(e) => e@ == missing@ && forall|k: int| 0 <= k < candidates_are_files@.len()
                ==> !#[trigger] candidates_are_files@[k],
        },
{
    if override_is_file == Some(true) {
        return Ok(PathChoice::Override);
    }
    let mut i: usize = 0;
    while i < candidates_are_files.len()
        invariant
            override_is_file != Some(true),
            i <= candidates_are_files@.len(),
            forall|k: int| 0 <= k < i ==> !#[trigger] candidates_are_files@[k],
        decreases candidates_are_files.len() - i,
    {
        if candidates_are_files[i] {
            return Ok(PathChoice::Candidate(i));
        }
        i += 1;
    }
    Err(owned(missing))
}

/// Where the Node.js binary is: `PI_NODE_BIN` if it names a file, else the
/// first of `node_candidates` that is a file.
pub fn resolve_node(override_is_file: Option<bool>, candidates_are_files: &Vec<bool>) -> (r: Result<PathChoice, String>)
    ensures
        override_is_file == Some(true) ==> r == Ok::<PathChoice, String>(PathChoice::Override),
        override_is_file != Some(true) ==> match r {
            Ok(PathChoice::Candidate(i)) => i < candidates_are_files@.len() && candidates_are_files@[i as int]
                && forall|k: int| 0 <= k < i ==> !#[trigger] candidates_are_files@[k],
            Ok(PathChoice::Override) => false,
            Err(e) => e@ == node_missing_message() && forall|k: int| 0 <= k < candidates_are_files@.len()
                ==> !#[trigger] candidates_are_files@[k],
        },
{
    choose_path(override_is_file, candidates_are_files, "Pi requires Node.js 22.19 or newer; no supported Node binary was found")
}

/// Where the bridge script is: `PI_BRIDGE_PATH` if it names a file, else
/// the bundled script, else the one beside the sources (the candidates in
/// that order).
pub fn resolve_bridge(override_is_file: Option<bool>, candidates_are_files: &Vec<bool>) -> (r: Result<PathChoice, String>)
    ensures
        override_is_file == Some(true) ==> r == Ok::<PathChoice, String>(PathChoice::Override),
        override_is_file != Some(true) ==> match r {
            Ok(PathChoice::Candidate(i)) => i < candidates_are_files@.len() && candidates_are_files@[i as int]
                && forall|k: int| 0 <= k < i ==> !#[trigger] candidates_are_files@[k],
            Ok(PathChoice::Override) => false,
            Err(e) => e@ == bridge_missing_message() && forall|k: int| 0 <= k < candidates_are_files@.len()
                ==> !#[trigger] candidates_are_files@[k],
        },
{
    choose_path(override_is_file, candidates_are_files, "Pi SDK bridge is missing")
}

#[derive(Clone, Debug)]
pub struct PiSelection {
    pub provider: String,
    pub model: String,
    pub thinking_level: String,
}

impl PiSelection {
    pub open spec fn view(self) -> (Seq<char>, Seq<char>, Seq<char>) {
        (self.provider@, self.model@, self.thinking_level@)
    }
}

/// A request to start a Pi session.
#[derive(Clone, Debug)]
pub struct PiStartRequest {
    pub workspace: String,
    pub workspace_is_dir: bool,
    pub provider: String,
    pub model: String,
    pub thinking_level: Option<String>,
    pub nitro: Option<bool>,
}

/// What starting a session takes.
#[derive(Clone, Debug)]
pub enum PiStartPlan {
    /// The running session already has this workspace, context and model.
    AlreadyLoaded,
    /// Start a session with these settings.
    Start { thinking_level: String, nitro: bool, timeout_secs: u64 },
}

/// What the app knows of the running Pi session.
#[derive(Clone, Debug)]
pub struct PiSessionState {
    pub ready: bool,
    pub workspace: Option<String>,
    pub context_hash: Option<String>,
    pub selection: Option<PiSelection>,
}

/// The thinking level of a request: the default when none is given.
pub open spec fn requested_level(req: PiStartRequest) -> Seq<char> {
    match req.thinking_level {
        Some(t) => t@,
        None => PI_THINKING_LEVEL@,
    }
}

/// Whether a request runs with the faster routing: asked for, or implied by
/// OpenRouter's GPT model.
pub open spec fn requested_nitro(req: PiStartRequest) -> bool {
    (req.nitro matches Some(b) && b) || (req.provider@ == "openrouter"@ && req.model@
        == "openai/gpt-5.6-terra"@)
}

/// Nitro routing: an explicit request for it is always honoured, the
/// OpenRouter Terra model always gets it, and otherwise it is off whether
/// the request says no or says nothing.
pub proof fn lemma_nitro_routing(req: PiStartRequest)
    ensures
        req.nitro == Some(true) ==> requested_nitro(req),
        req.provider@ == "openrouter"@ && req.model@ == "openai/gpt-5.6-terra"@ ==> requested_nitro(req),
        req.nitro != Some(true) && !(req.provider@ == "openrouter"@ && req.model@
            == "openai/gpt-5.6-terra"@) ==> !requested_nitro(req),
        requested_nitro(PiStartRequest { nitro: None, ..req }) == requested_nitro(
            PiStartRequest { nitro: Some(false), ..req },
        ),
{
}

impl PiSessionState {
    /// No session.
    pub fn new() -> (s: Self)
        ensures
            !s.ready,
            s.workspace is None,
            s.context_hash is None,
            s.selection is None,
    {
        PiSessionState { ready: false, workspace: None, context_hash: None, selection: None }
    }

    /// The running session has this workspace, context and selection.
    pub open spec fn holds(self, workspace: Seq<char>, hash: Seq<char>, sel: (Seq<char>, Seq<char>, Seq<char>)) -> bool {
        &&& self.ready
        &&& self.workspace matches Some(w) && w@ == workspace
        &&& self.context_hash matches Some(h) && h@ == hash
        &&& self.selection matches Some(s) && s.view() == sel
    }

    /// The running session has a workspace equal to this one as a path, and
    /// this context and selection.
    pub open spec fn holds_path(self, workspace: Seq<char>, hash: Seq<char>, sel: (Seq<char>, Seq<char>, Seq<char>)) -> bool {
        &&& self.ready
        &&& self.workspace matches Some(w) && same_path(w@, workspace)
        &&& self.context_hash matches Some(h) && h@ == hash
        &&& self.selection matches Some(s) && s.view() == sel
    }

    /// Decides how to serve a request to start a session whose context has
    /// fingerprint `context_hash`: the selection must be supported and the
    /// workspace a directory; a session that already holds the same
    /// workspace (equal as a path), context and selection is reused.
    pub fn plan_start(&self, req: &PiStartRequest, context_hash: &str) -> (r: Result<PiStartPlan, String>)
        ensures
            !allowed_selection(req.provider@, req.model@, requested_level(*req)) ==> (r matches Err(
                e,
            ) && e@ == unsupported_selection_message(
                req.provider@,
                req.model@,
                requested_level(*req),
            )),
            allowed_selection(req.provider@, req.model@, requested_level(*req))
                && !req.workspace_is_dir ==> (r matches Err(e) && e@
                == "Workspace directory does not exist"@),
            allowed_selection(req.provider@, req.model@, requested_level(*req))
                && req.workspace_is_dir ==> (r matches Ok(plan) && if self.holds_path(
                req.workspace@,
                context_hash@,
                (req.provider@, req.model@, requested_level(*req)),
            ) {
                plan is AlreadyLoaded
            } else {
                plan matches PiStartPlan::Start { thinking_level, nitro, timeout_secs }
                    && thinking_level@ == requested_level(*req) && nitro == requested_nitro(*req)
                    && timeout_secs == (if req.provider@ == "cursor"@ {
                    CURSOR_START_TIMEOUT_SECS
                } else {
                    START_TIMEOUT_SECS
                })
            }),
            allowed_selection(req.provider@, req.model@, requested_level(*req)) && req.workspace_is_dir
                && self.holds(req.workspace@, context_hash@, (req.provider@, req.model@, requested_level(*req)))
                ==> r == Ok::<PiStartPlan, String>(PiStartPlan::AlreadyLoaded),
            r matches Ok(PiStartPlan::Start { nitro, .. }) ==> nitro == (req.nitro == Some(true) || (
            req.provider@ == "openrouter"@ && req.model@ == "openai/gpt-5.6-terra"@)),
    {
        proof {
            lemma_nitro_routing(*req);
        }
        let level = match &req.thinking_level {
            Some(t) => owned(t.as_str()),
            None => owned(PI_THINKING_LEVEL),
        };
        validate_selection(req.provider.as_str(), req.model.as_str(), level.as_str())?;
        let nitro = match req.nitro {
            Some(b) => b,
            None => false,
        } || (str_eq(req.provider.as_str(), "openrouter") && str_eq(
            req.model.as_str(),
            "openai/gpt-5.6-terra",
        ));
        if !req.workspace_is_dir {
            return Err(String::from_str("Workspace directory does not exist"));
        }
        let same_workspace = match &self.workspace {
            Some(w) => paths_equal(w.as_str(), req.workspace.as_str()),
            None => false,
        };
        let same_hash = match &self.context_hash {
            Some(h) => str_eq(h.as_str(), context_hash),
            None => false,
        };
        let same_selection = match &self.selection {
            Some(s) => str_eq(s.provider.as_str(), req.provider.as_str()) && str_eq(
                s.model.as_str(),
                req.model.as_str(),
            ) && str_eq(s.thinking_level.as_str(), level.as_str()),
            None => false,
        };
        if self.ready && same_workspace && same_hash && same_selection {
            Ok(PiStartPlan::AlreadyLoaded)
        } else {
            let timeout_secs = start_timeout(req.provider.as_str());
            Ok(PiStartPlan::Start { thinking_level: level, nitro, timeout_secs })
        }
    }

    /// The session is no longer ready (a new one is starting, or the worker
    /// stopped); what it holds is kept.
    pub fn mark_not_ready(&mut self)
        ensures
            !final(self).ready,
            final(self).workspace == old(self).workspace,
            final(self).context_hash == old(self).context_hash,
            final(self).selection == old(self).selection,
    {
        self.ready = false;
    }

    /// A session started with this workspace, context and selection.
    pub fn finish_start(&mut self, workspace: String, context_hash: String, selection: PiSelection)
        ensures
            final(self).holds(workspace@, context_hash@, selection.view()),
    {
        self.workspace = Some(workspace);
        self.context_hash = Some(context_hash);
        self.selection = Some(selection);
        self.ready = true;
    }

    /// The session ended or its process was lost: nothing is held.
    pub fn reset(&mut self)
        ensures
            !final(self).ready,
            final(self).workspace is None,
            final(self).context_hash is None,
            final(self).selection is None,
    {
        self.ready = false;
        self.workspace = None;
        self.context_hash = None;
        self.selection = None;
    }

    /// Closes the session: returns whether a close request goes to the
    /// worker, which is so exactly when the session was ready; afterwards
    /// nothing is held.
    pub fn close(&mut self) -> (close_request: bool)
        ensures
            close_request == old(self).ready,
            !final(self).ready,
            final(self).workspace is None,
            final(self).context_hash is None,
            final(self).selection is None,
    {
        let close_request = self.ready;
        self.reset();
        close_request
    }
}

/// Checks a turn before it is sent: there must be a prompt or an image, and
/// a ready session.
pub fn pi_turn_precheck(prompt: &str, image_count: usize, ready: bool) -> (r: Result<(), String>)
    ensures
        trim(prompt@).len() == 0 && image_count == 0 ==> (r matches Err(e) && e@ == "Nothing to send"@),
        !(trim(prompt@).len() == 0 && image_count == 0) && !ready ==> (r matches Err(e) && e@
            == "Pi session is not ready"@),
        !(trim(prompt@).len() == 0 && image_count == 0) && ready ==> r is Ok,
{
    let t = crate::text::trim_str(prompt);
    if chars_of(t.as_str()).len() == 0 && image_count == 0 {
        return Err(String::from_str("Nothing to send"));
    }
    if !ready {
        return Err(String::from_str("Pi session is not ready"));
    }
    Ok(())
}

/// How a failed turn is handled.
#[derive(Clone, Copy, PartialEq, Eq, Debug)]
pub enum TurnFailure {
    /// The turn timed out: abort it.
    TimedOut,
    /// The bridge process is gone: forget the session.
    WorkerLost,
    /// Any other failure: report it.
    Other,
}

/// Classifies the error of a failed turn.
pub fn classify_turn_error(error: &str) -> (f: TurnFailure)
    ensures
        contains(error@, "timed out"@) ==> f == TurnFailure::TimedOut,
        !contains(error@, "timed out"@) && is_worker_lost(error@) ==> f == TurnFailure::WorkerLost,
        !contains(error@, "timed out"@) && !is_worker_lost(error@) ==> f == TurnFailure::Other,
{
    if str_contains(error, "timed out") {
        TurnFailure::TimedOut
    } else if worker_lost(error) {
        TurnFailure::WorkerLost
    } else {
        TurnFailure::Other
    }
}

/// Whether a stop request aborted the turn: when the bridge does not say,
/// it did.
pub fn stop_result(ready: bool, aborted: Option<bool>) -> (r: bool)
    ensures
        r == (ready && match aborted {
            Some(b) => b,
            None => true,
        }),
{
    if !ready {
        return false;
    }
    match aborted {
        Some(b) => b,
        None => true,
    }
}

/// The message when a bridge request times out.
pub fn bridge_timeout_message(secs: u64) -> (m: String)
    ensures
        m@ == "Pi bridge timed out after "@ + decimal(secs as nat) + " seconds"@,
{
    let mut m = String::from_str("Pi bridge timed out after ");
    push_decimal(&mut m, secs);
    push_str(&mut m, " seconds");
    m
}

/// The outcome that a bridge reply carries: success when it says `ok: true`,
/// else its error, or a generic one.
pub fn bridge_reply(ok: Option<bool>, error: Option<String>) -> (r: Result<(), String>)
    ensures
        ok == Some(true) ==> r is Ok,
        ok != Some(true) ==> (r matches Err(e) && e@ == match error {
            Some(m) => m@,
            None => "Pi bridge request failed"@,
        }),
{
    if ok == Some(true) {
        Ok(())
    } else {
        match error {
            Some(m) => Err(m),
            None => Err(String::from_str("Pi bridge request failed")),
        }
    }
}

/// What a line of the bridge's output is.
#[derive(Clone, Copy, PartialEq, Eq, Debug)]
pub enum BridgeLine {
    /// The reply to the request with this id.
    Reply(u64),
    /// An event to forward to the window.
    Event,
    /// Neither.
    Ignore,
}

/// Classifies a line of the bridge's output by its `id` and `event` fields.
pub fn classify_bridge_line(id: Option<u64>, has_event: bool) -> (l: BridgeLine)
    ensures
        id matches Some(i) ==> l == BridgeLine::Reply(i),
        id is None && has_event ==> l == BridgeLine::Event,
        id is None && !has_event ==> l == BridgeLine::Ignore,
{
    match id {
        Some(i) => BridgeLine::Reply(i),
        None => if has_event {
            BridgeLine::Event
        } else {
            BridgeLine::Ignore
        },
    }
}

/// The requests sent to the bridge that await a reply, and the next id.
#[derive(Clone, Debug)]
pub struct PendingRequests {
    pub next_id: u64,
    pub ids: Vec<u64>,
}

impl PendingRequests {
    /// The ids that await a reply.
    pub open spec fn pending(self) -> Set<u64> {
        self.ids@.to_set()
    }

    /// No id occurs twice.
    pub open spec fn wf(self) -> bool {
        self.ids@.no_duplicates()
    }

    /// Nothing pending; ids start at 1.
    pub fn new() -> (s: Self)
        ensures
            s.wf(),
            s.pending() == Set::<u64>::empty(),
            s.next_id == 1,
    {
        let s = PendingRequests { next_id: 1, ids: Vec::new() };
        assert(s.ids@.to_set() =~= Set::<u64>::empty());
        s
    }

    fn position(&self, id: u64) -> (r: Option<usize>)
        ensures
            match r {
                Some(i) => i < self.ids@.len() && self.ids@[i as int] == id,
                None => !self.ids@.contains(id),
            },
    {
        let mut i: usize = 0;
        while i < self.ids.len()
            invariant
                i <= self.ids@.len(),
                forall|k: int| 0 <= k < i ==> self.ids@[k] != id,
            decreases self.ids.len() - i,
        {
            if self.ids[i] == id {
                return Some(i);
            }
            i += 1;
        }
        None
    }

    /// Takes the next id (wrapping like an atomic counter) and records it
    /// as awaiting a reply.
    pub fn register(&mut self) -> (id: u64)
        requires
            old(self).wf(),
        ensures
            id == old(self).next_id,
            final(self).next_id == old(self).next_id.wrapping_add(1),
            final(self).wf(),
            final(self).pending() == old(self).pending().insert(id),
    {
        let id = self.next_id;
        self.next_id = self.next_id.wrapping_add(1);
        if self.position(id).is_none() {
            let ghost before = self.ids@;
            self.ids.push(id);
            proof {
                assert(self.ids@ == before.push(id));
                assert forall|x: u64| self.ids@.contains(x) <==> (before.contains(x) || x == id) by {
                    if self.ids@.contains(x) {
                        let k = choose|k: int| 0 <= k < self.ids@.len() && self.ids@[k] == x;
                        if k < before.len() {
                            assert(before[k] == x);
                        }
                    }
                    if before.contains(x) {
                        let k = choose|k: int| 0 <= k < before.len() && before[k] == x;
                        assert(self.ids@[k] == x);
                    }
                    if x == id {
                        assert(self.ids@[before.len() as int] == x);
                    }
                }
                assert(self.ids@.to_set() =~= before.to_set().insert(id));
                assert forall|a: int, b: int| 0 <= a < b < self.ids@.len() implies self.ids@[a]
                    != self.ids@[b] by {
                    if b == before.len() {
                        assert(before.contains(before[a]));
                    }
                }
            }
        } else {
            proof {
                assert(self.ids@.to_set() =~= self.ids@.to_set().insert(id));
            }
        }
        id
    }

    /// A reply arrived for `id`: returns whether it was awaited, and stops
    /// awaiting it.
    pub fn resolve(&mut self, id: u64) -> (found: bool)
        requires
            old(self).wf(),
        ensures
            found == old(self).pending().contains(id),
            final(self).wf(),
            final(self).pending() == old(self).pending().remove(id),
            final(self).next_id == old(self).next_id,
    {
        match self.position(id) {
            Some(i) => {
                let ghost before = self.ids@;
                self.ids.remove(i);
                proof {
                    let after = self.ids@;
                    assert(after == before.remove(i as int));
                    assert forall|x: u64| after.contains(x) <==> before.to_set().remove(id).contains(x) by {
                        if after.contains(x) {
                            let k = choose|k: int| 0 <= k < after.len() && after[k] == x;
                            if k < i {
                                assert(before[k] == x);
                                assert(k != i);
                            } else {
                                assert(before[k + 1] == x);
                            }
                            assert(before.contains(x));
                        }
                        if before.to_set().remove(id).contains(x) {
                            let k = choose|k: int| 0 <= k < before.len() && before[k] == x;
                            assert(k != i);
                            if k < i {
                                assert(after[k] == x);
                            } else {
                                assert(after[k - 1] == x);
                            }
                        }
                    }
                    assert(after.to_set() =~= before.to_set().remove(id));
                }
                true
            },
            None => {
                proof {
                    assert(self.ids@.to_set() =~= self.ids@.to_set().remove(id));
                }
                false
            },
        }
    }

    /// The bridge stopped: every awaited id is returned, to be failed, and
    /// nothing is awaited any more.
    pub fn drain(&mut self) -> (ids: Vec<u64>)
        ensures
            ids@.to_set() == old(self).pending(),
            final(self).pending() == Set::<u64>::empty(),
            final(self).wf(),
            final(self).next_id == old(self).next_id,
    {
        let mut ids: Vec<u64> = Vec::new();
        std::mem::swap(&mut ids, &mut self.ids);
        assert(self.ids@.to_set() =~= Set::<u64>::empty());
        ids
    }
}

} // verus!
