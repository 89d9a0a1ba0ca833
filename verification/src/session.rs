//! Session-side decisions of the Copilot SDK.
//!
//! A session keeps registered tools, slash-command handlers, event handlers
//! and hooks, answers the server's broadcast requests, and waits for the
//! assistant's reply. The I/O around these (the JSON-RPC calls, the event
//! channel, the clock) is driven by the caller; this module holds what is
//! decided between those steps.
use crate::error::CopilotError;
use crate::table::{
    entries_map, keys_distinct, lemma_entries_map, lemma_table_entries, KeyedTable, TableKey,
};
use vstd::prelude::*;
use vstd::string::StringExecFns;

verus! {

// =============================================================================
// Registered tools and commands
// =============================================================================

/// A tool registered with the session, including its handler.
#[derive(Clone)]
pub struct RegisteredTool<T, H> {
    /// Tool definition.
    pub tool: T,
    /// Handler for tool invocations.
    pub handler: Option<H>,
}

/// The handler to run for an invocation of tool `name`: an error if no tool
/// of that name is registered or if it has no handler.
pub fn invoke_target<'a, T, H>(
    tools: &'a KeyedTable<String, RegisteredTool<T, H>>,
    name: &String,
) -> (r: core::result::Result<&'a H, CopilotError>)
    requires
        tools.wf(),
    ensures
        !tools@.contains_key(name@) ==> (r matches Err(CopilotError::ToolNotFound(n)) && n@
            == name@),
        tools@.contains_key(name@) ==> match tools@[name@].handler {
            Some(h) => r matches Ok(rh) && *rh == h,
            None => r matches Err(CopilotError::ToolError(m)) && m@ == "No handler for tool: "@
                + name@,
        },
{
    match tools.get(name) {
        None => Err(CopilotError::ToolNotFound(name.clone())),
        Some(registered) => match &registered.handler {
            Some(h) => Ok(h),
            None => {
                let mut m = String::from_str("No handler for tool: ");
                m.append(name.as_str());
                Err(CopilotError::ToolError(m))
            },
        },
    }
}

/// The handler of slash command `name`, or the error reported back when
/// there is none.
pub fn command_target<'a, H>(handlers: &'a KeyedTable<String, H>, name: &String) -> (r:
    core::result::Result<&'a H, CopilotError>)
    requires
        handlers.wf(),
    ensures
        handlers@.contains_key(name@) ==> (r matches Ok(h) && *h == handlers@[name@]),
        !handlers@.contains_key(name@) ==> (r matches Err(CopilotError::Protocol(m)) && m@
            == "no handler for command /"@ + name@),
{
    match handlers.get(name) {
        Some(h) => Ok(h),
        None => {
            let mut m = String::from_str("no handler for command /");
            m.append(name.as_str());
            Err(CopilotError::Protocol(m))
        },
    }
}

/// For an `external_tool.requested` event: the request id and tool name to
/// answer, when both are present and this session has the tool. Otherwise the
/// request is left to another client.
pub fn tool_request_target<V>(
    tools: &KeyedTable<String, V>,
    request_id: Option<String>,
    tool_name: Option<String>,
) -> (r: Option<(String, String)>)
    requires
        tools.wf(),
    ensures
        match (request_id, tool_name) {
            (Some(id), Some(name)) => if tools@.contains_key(name@) {
                r == Some((id, name))
            } else {
                r is None
            },
            _ => r is None,
        },
{
    match (request_id, tool_name) {
        (Some(id), Some(name)) => {
            if tools.contains(&name) {
                Some((id, name))
            } else {
                None
            }
        },
        _ => None,
    }
}

/// How the outcome of a tool call is reported back to the server.
#[derive(Debug)]
pub enum ToolCallReply {
    /// Report an error with this text.
    Failure(String),
    /// Report the result object.
    Success,
}

/// A tool result whose type is `failure` or `error` is reported as an error,
/// carrying the tool's error text or else its text for the model; any other
/// result is reported as a result.
pub fn tool_call_reply(result_type: &str, error: Option<String>, text_result_for_llm: &String) -> (r:
    ToolCallReply)
    ensures
        (result_type@ == "failure"@ || result_type@ == "error"@) ==> match error {
            Some(e) => r matches ToolCallReply::Failure(t) && t == e,
            None => r matches ToolCallReply::Failure(t) && t@ == text_result_for_llm@,
        },
        !(result_type@ == "failure"@ || result_type@ == "error"@) ==> r is Success,
{
    if result_type.eq("failure") || result_type.eq("error") {
        match error {
            Some(e) => ToolCallReply::Failure(e),
            None => ToolCallReply::Failure(text_result_for_llm.clone()),
        }
    } else {
        ToolCallReply::Success
    }
}

// =============================================================================
// Permission requests
// =============================================================================

/// The kind of a permission request; `unknown` when the request names none.
pub fn permission_kind(kind: Option<&str>) -> (r: String)
    ensures
        match kind {
            Some(k) => r@ == k@,
            None => r@ == "unknown"@,
        },
{
    match kind {
        Some(k) => String::from_str(k),
        None => String::from_str("unknown"),
    }
}

/// Whether a field of a permission request belongs to its extension data:
/// every field but `kind` and `toolCallId`.
pub fn is_permission_extension_key(key: &str) -> (b: bool)
    ensures
        b == !(key@ == "kind"@ || key@ == "toolCallId"@),
{
    !(key.eq("kind") || key.eq("toolCallId"))
}

/// The registered user input handler, or the error when there is none.
pub fn user_input_target<H>(handler: Option<&H>) -> (r: core::result::Result<&H, CopilotError>)
    ensures
        match handler {
            Some(h) => r matches Ok(rh) && rh == h,
            None => r matches Err(CopilotError::Protocol(t)) && t@
                == "No user input handler registered"@,
        },
{
    match handler {
        Some(h) => Ok(h),
        None => Err(CopilotError::Protocol(String::from_str("No user input handler registered"))),
    }
}

// =============================================================================
// Event handlers
// =============================================================================

/// Callback-based event handlers, each under the id it was registered with.
pub struct HandlerRegistry<H> {
    handlers: KeyedTable<u64, H>,
    next_handler_id: u64,
}

impl<H> View for HandlerRegistry<H> {
    type V = Map<u64, H>;

    closed spec fn view(&self) -> Map<u64, H> {
        self.handlers@
    }
}

impl<H> HandlerRegistry<H> {
    /// The registry is well formed.
    pub closed spec fn wf(&self) -> bool {
        self.handlers.wf()
    }

    /// The handlers with their ids, in registration order.
    pub closed spec fn entries(&self) -> Seq<(u64, H)> {
        self.handlers.entries()
    }

    /// The id the next registration gets.
    pub closed spec fn next_id(&self) -> u64 {
        self.next_handler_id
    }

    /// Every registered id is below the next one: ids have not wrapped around.
    pub open spec fn ids_below_next(&self) -> bool {
        forall|id: u64| #[trigger] self@.contains_key(id) ==> id < self.next_id()
    }

    /// An empty registry; ids start at 1.
    pub fn new() -> (r: Self)
        ensures
            r.wf(),
            r@ == Map::<u64, H>::empty(),
            r.next_id() == 1,
            r.ids_below_next(),
    {
        HandlerRegistry { handlers: KeyedTable::new(), next_handler_id: 1 }
    }

    /// Registers a handler and returns its id.
    pub fn register(&mut self, handler: H) -> (id: u64)
        requires
            old(self).wf(),
        ensures
            final(self).wf(),
            id == old(self).next_id(),
            final(self).next_id() == (if id == u64::MAX {
                0
            } else {
                (id + 1) as u64
            }),
            final(self)@ == old(self)@.insert(id, handler),
            old(self).ids_below_next() && id < u64::MAX ==> !old(self)@.contains_key(id)
                && final(self).ids_below_next(),
            !old(self)@.contains_key(id) ==> final(self).entries() == old(self).entries().push(
                (id, handler),
            ),
    {
        let id = self.next_handler_id;
        self.next_handler_id = self.next_handler_id.wrapping_add(1);
        self.handlers.insert(id, handler);
        proof {
            if old(self).ids_below_next() && id < u64::MAX {
                assert forall|k: u64| #[trigger] self@.contains_key(k) implies k
                    < self.next_id() by {
                    if k != id {
                        assert(old(self)@.contains_key(k));
                    }
                }
            }
        }
        id
    }

    /// Removes the handler with id `id`, if any.
    pub fn unregister(&mut self, id: u64)
        requires
            old(self).wf(),
        ensures
            final(self).wf(),
            final(self).next_id() == old(self).next_id(),
            final(self)@ == old(self)@.remove(id),
            old(self).ids_below_next() ==> final(self).ids_below_next(),
            !old(self)@.contains_key(id) ==> final(self).entries() == old(self).entries(),
            old(self)@.contains_key(id) ==> exists|i: int|
                0 <= i < old(self).entries().len() && old(self).entries()[i].0 == id
                    && final(self).entries() == old(self).entries().remove(i),
    {
        self.handlers.remove(&id);
        proof {
            if old(self)@.contains_key(id) {
                let i = choose|i: int|
                    0 <= i < old(self).handlers.entries().len()
                        && old(self).handlers.entries()[i].0.id() == id.id()
                        && self.handlers.entries() == old(self).handlers.entries().remove(i);
                assert(old(self).entries()[i].0 == id);
            }
            if old(self).ids_below_next() {
                assert forall|k: u64| #[trigger] self@.contains_key(k) implies k
                    < self.next_id() by {
                    assert(old(self)@.contains_key(k));
                }
            }
        }
    }

    /// The number of registered handlers.
    pub fn len(&self) -> (n: usize)
        requires
            self.wf(),
        ensures
            n == self@.dom().len(),
            n == self.entries().len(),
    {
        self.handlers.len()
    }

    /// The handler at position `i`, with its id.
    pub fn handler_at(&self, i: usize) -> (r: (u64, &H))
        requires
            self.wf(),
            i < self@.dom().len(),
        ensures
            (r.0, *r.1) == self.entries()[i as int],
            self@.contains_key(r.0),
            self@[r.0] == *r.1,
    {
        proof {
            lemma_table_entries(&self.handlers);
            lemma_entries_map(self.handlers.entries());
        }
        let (id, h) = self.handlers.entry_at(i);
        (*id, h)
    }
}

/// A well-formed registry lists each registered handler exactly once: its
/// entries have distinct ids and denote its handlers.
pub proof fn lemma_registry_entries<H>(registry: &HandlerRegistry<H>)
    requires
        registry.wf(),
    ensures
        keys_distinct(registry.entries()),
        registry@ == entries_map(registry.entries()),
        registry.entries().len() == registry@.dom().len(),
{
    lemma_table_entries(&registry.handlers);
    lemma_entries_map(registry.entries());
}

/// Unsubscribing undoes subscribing: registering a handler and then
/// unregistering the id it was given leaves the handlers as they were, as
/// long as ids have not wrapped around.
pub proof fn lemma_unregister_undoes_register<H>(
    before: HandlerRegistry<H>,
    registered: HandlerRegistry<H>,
    after: HandlerRegistry<H>,
    id: u64,
    handler: H,
)
    requires
        before.ids_below_next(),
        id == before.next_id(),
        id < u64::MAX,
        registered@ == before@.insert(id, handler),
        after@ == registered@.remove(id),
    ensures
        after@ == before@,
{
    assert(!before@.contains_key(id));
    assert(after@ =~= before@);
}

// =============================================================================
// Waiting for the assistant
// =============================================================================

/// What the event channel delivered, as far as waiting for a reply cares.
#[derive(Debug)]
pub enum Observed {
    /// An `assistant.message` event with its content.
    AssistantMessage(String),
    /// An `assistant.message_delta` event with its delta content.
    AssistantMessageDelta(String),
    /// A `session.idle` event.
    SessionIdle,
    /// A `session.error` event with its message.
    SessionError(String),
    /// Any other event.
    Other,
    /// The receiver fell behind and missed events.
    Lagged,
    /// The channel closed.
    Closed,
}

/// The error that a `session.error` event ends a wait with.
pub open spec fn session_error_text(message: Seq<char>) -> Seq<char> {
    "Session error: "@ + message
}

fn session_error(message: &String) -> (e: CopilotError)
    ensures
        e matches CopilotError::Protocol(t) && t@ == session_error_text(message@),
{
    let mut t = String::from_str("Session error: ");
    t.append(message.as_str());
    CopilotError::Protocol(t)
}

/// The next step of waiting for the session to become idle.
#[derive(Debug)]
pub enum WaitStep {
    /// Keep waiting.
    Continue,
    /// Keep this event as the last assistant message, and keep waiting.
    Remember,
    /// The session is idle: the wait is over.
    Finish,
    /// The wait fails.
    Fail(CopilotError),
}

/// Waiting for idle: remember each assistant message, skip deltas and other
/// events, stop at `session.idle`, fail on `session.error` or when the
/// channel closes.
pub fn idle_wait_step(observed: &Observed) -> (s: WaitStep)
    ensures
        match observed {
            Observed::AssistantMessage(_) => s is Remember,
            Observed::SessionIdle => s is Finish,
            Observed::SessionError(m) => s matches WaitStep::Fail(CopilotError::Protocol(t)) && t@
                == session_error_text(m@),
            Observed::Closed => s matches WaitStep::Fail(CopilotError::ConnectionClosed),
            _ => s is Continue,
        },
{
    match observed {
        Observed::AssistantMessage(_) => WaitStep::Remember,
        Observed::SessionIdle => WaitStep::Finish,
        Observed::SessionError(m) => WaitStep::Fail(session_error(m)),
        Observed::Closed => WaitStep::Fail(CopilotError::ConnectionClosed),
        _ => WaitStep::Continue,
    }
}

/// Waits for the session to become idle, keeping the last assistant message.
pub struct IdleWaiter<E> {
    last_assistant_message: Option<E>,
}

impl<E> IdleWaiter<E> {
    /// The last assistant message event seen so far.
    pub closed spec fn last(&self) -> Option<E> {
        self.last_assistant_message
    }

    /// A waiter that has seen no message.
    pub fn new() -> (r: Self)
        ensures
            r.last() is None,
    {
        IdleWaiter { last_assistant_message: None }
    }

    /// Takes one delivery into account: `observed` describes `event`.
    pub fn observe(&mut self, observed: &Observed, event: E) -> (s: WaitStep)
        ensures
            match observed {
                Observed::AssistantMessage(_) => s is Remember && final(self).last() == Some(event),
                Observed::SessionIdle => s is Finish && final(self).last() == old(self).last(),
                Observed::SessionError(m) => s matches WaitStep::Fail(CopilotError::Protocol(t))
                    && t@ == session_error_text(m@) && final(self).last() == old(self).last(),
                Observed::Closed => s matches WaitStep::Fail(CopilotError::ConnectionClosed)
                    && final(self).last() == old(self).last(),
                _ => s is Continue && final(self).last() == old(self).last(),
            },
    {
        let s = idle_wait_step(observed);
        if let WaitStep::Remember = s {
            self.last_assistant_message = Some(event);
        }
        s
    }

    /// The last assistant message event seen.
    pub fn into_last(self) -> (r: Option<E>)
        ensures
            r == self.last(),
    {
        self.last_assistant_message
    }
}

/// The text an observation adds to a collected response.
pub open spec fn response_text(observed: Observed) -> Seq<char> {
    match observed {
        Observed::AssistantMessage(t) => t@,
        Observed::AssistantMessageDelta(t) => t@,
        _ => Seq::<char>::empty(),
    }
}

/// All text that a run of observations adds to a response.
pub open spec fn response_transcript(run: Seq<Observed>) -> Seq<char>
    decreases run.len(),
{
    if run.len() == 0 {
        Seq::<char>::empty()
    } else {
        response_transcript(run.drop_last()) + response_text(run.last())
    }
}

/// A reply grows by exactly the text of each message and delta, in the
/// order they come, and by nothing else.
pub proof fn lemma_transcript_push(run: Seq<Observed>, o: Observed)
    ensures
        match o {
            Observed::AssistantMessage(t) => response_transcript(run.push(o))
                == response_transcript(run) + t@,
            Observed::AssistantMessageDelta(t) => response_transcript(run.push(o))
                == response_transcript(run) + t@,
            _ => response_transcript(run.push(o)) == response_transcript(run),
        },
{
    assert(run.push(o).drop_last() =~= run);
    assert(response_transcript(run) + Seq::<char>::empty() =~= response_transcript(run));
}

/// The next step of collecting a response.
#[derive(Debug)]
pub enum CollectStep {
    /// Keep collecting.
    Continue,
    /// The session is idle: the response is complete.
    Finish,
    /// Collecting fails.
    Fail(CopilotError),
}

/// Collects the assistant's reply: the content of every message and delta,
/// in order, until the session is idle.
pub struct ResponseCollector {
    content: String,
    seen: Ghost<Seq<Observed>>,
}

impl ResponseCollector {
    /// The text collected so far.
    pub closed spec fn collected(&self) -> Seq<char> {
        self.content@
    }

    /// The observations made so far.
    pub closed spec fn history(&self) -> Seq<Observed> {
        self.seen@
    }

    /// The collected text is what the observations so far added.
    pub open spec fn wf(&self) -> bool {
        self.collected() == response_transcript(self.history())
    }

    /// A collector that has seen nothing.
    pub fn new() -> (r: Self)
        ensures
            r.wf(),
            r.history() == Seq::<Observed>::empty(),
            r.collected() == Seq::<char>::empty(),
    {
        ResponseCollector { content: String::new(), seen: Ghost(Seq::empty()) }
    }

    /// Takes one observation into account.
    pub fn observe(&mut self, observed: Observed) -> (s: CollectStep)
        requires
            old(self).wf(),
        ensures
            final(self).wf(),
            final(self).history() == old(self).history().push(observed),
            final(self).collected() == old(self).collected() + response_text(observed),
            match observed {
                Observed::AssistantMessage(t) => final(self).collected() == old(self).collected()
                    + t@,
                Observed::AssistantMessageDelta(t) => final(self).collected()
                    == old(self).collected() + t@,
                _ => final(self).collected() == old(self).collected(),
            },
            match observed {
                Observed::SessionIdle => s is Finish,
                Observed::SessionError(m) => s matches CollectStep::Fail(CopilotError::Protocol(t))
                    && t@ == session_error_text(m@),
                Observed::Closed => s matches CollectStep::Fail(CopilotError::ConnectionClosed),
                _ => s is Continue,
            },
    {
        let ghost before = self.seen@;
        let ghost text = response_text(observed);
        let s = match &observed {
            Observed::AssistantMessage(t) => {
                self.content.append(t.as_str());
                CollectStep::Continue
            },
            Observed::AssistantMessageDelta(t) => {
                self.content.append(t.as_str());
                CollectStep::Continue
            },
            Observed::SessionIdle => CollectStep::Finish,
            Observed::SessionError(m) => CollectStep::Fail(session_error(m)),
            Observed::Closed => CollectStep::Fail(CopilotError::ConnectionClosed),
            _ => CollectStep::Continue,
        };
        if !matches!(observed, Observed::AssistantMessage(_) | Observed::AssistantMessageDelta(_)) {
            assert(self.content@ =~= self.content@ + text);
        }
        self.seen = Ghost(before.push(observed));
        assert(self.seen@.drop_last() =~= before);
        s
    }

    /// The collected text.
    pub fn into_content(self) -> (r: String)
        ensures
            r@ == self.collected(),
    {
        self.content
    }
}

// =============================================================================
// Hooks
// =============================================================================

/// The hooks a session can have.
#[derive(Debug, Clone, Copy, PartialEq, Eq, Structural)]
pub enum HookKind {
    PreToolUse,
    PostToolUse,
    UserPromptSubmitted,
    SessionStart,
    SessionEnd,
    ErrorOccurred,
}

impl HookKind {
    /// The hook type string of this kind.
    pub open spec fn wire_name(self) -> Seq<char> {
        match self {
            HookKind::PreToolUse => "preToolUse"@,
            HookKind::PostToolUse => "postToolUse"@,
            HookKind::UserPromptSubmitted => "userPromptSubmitted"@,
            HookKind::SessionStart => "sessionStart"@,
            HookKind::SessionEnd => "sessionEnd"@,
            HookKind::ErrorOccurred => "errorOccurred"@,
        }
    }

    /// The kind of hook named by `hook_type`, if it names one.
    pub fn from_hook_type(hook_type: &str) -> (r: Option<HookKind>)
        ensures
            match r {
                Some(k) => k.wire_name() == hook_type@,
                None => forall|k: HookKind| k.wire_name() != hook_type@,
            },
    {
        if hook_type.eq("preToolUse") {
            Some(HookKind::PreToolUse)
        } else if hook_type.eq("postToolUse") {
            Some(HookKind::PostToolUse)
        } else if hook_type.eq("userPromptSubmitted") {
            Some(HookKind::UserPromptSubmitted)
        } else if hook_type.eq("sessionStart") {
            Some(HookKind::SessionStart)
        } else if hook_type.eq("sessionEnd") {
            Some(HookKind::SessionEnd)
        } else if hook_type.eq("errorOccurred") {
            Some(HookKind::ErrorOccurred)
        } else {
            None
        }
    }

    /// The hook type string of this kind.
    pub fn name(&self) -> (s: &'static str)
        ensures
            s@ == self.wire_name(),
    {
        match self {
            HookKind::PreToolUse => "preToolUse",
            HookKind::PostToolUse => "postToolUse",
            HookKind::UserPromptSubmitted => "userPromptSubmitted",
            HookKind::SessionStart => "sessionStart",
            HookKind::SessionEnd => "sessionEnd",
            HookKind::ErrorOccurred => "errorOccurred",
        }
    }

    /// The error for a hook input that does not decode.
    pub fn invalid_input(&self, detail: &str) -> (e: CopilotError)
        ensures
            e matches CopilotError::Protocol(t) && t@ == "Invalid "@ + self.wire_name()
                + " input: "@ + detail@,
    {
        let mut t = String::from_str("Invalid ");
        t.append(self.name());
        t.append(" input: ");
        t.append(detail);
        CopilotError::Protocol(t)
    }
}

/// Which hooks have a handler.
#[derive(Debug, Clone, Copy)]
pub struct HookPresence {
    pub pre_tool_use: bool,
    pub post_tool_use: bool,
    pub user_prompt_submitted: bool,
    pub session_start: bool,
    pub session_end: bool,
    pub error_occurred: bool,
}

impl HookPresence {
    /// Whether the hook of kind `k` has a handler.
    pub open spec fn has(self, k: HookKind) -> bool {
        match k {
            HookKind::PreToolUse => self.pre_tool_use,
            HookKind::PostToolUse => self.post_tool_use,
            HookKind::UserPromptSubmitted => self.user_prompt_submitted,
            HookKind::SessionStart => self.session_start,
            HookKind::SessionEnd => self.session_end,
            HookKind::ErrorOccurred => self.error_occurred,
        }
    }

    /// Whether any hook has a handler.
    pub fn has_any(&self) -> (b: bool)
        ensures
            b == exists|k: HookKind| self.has(k),
    {
        let b = self.pre_tool_use || self.post_tool_use || self.user_prompt_submitted
            || self.session_start || self.session_end || self.error_occurred;
        proof {
            if self.pre_tool_use {
                assert(self.has(HookKind::PreToolUse));
            } else if self.post_tool_use {
                assert(self.has(HookKind::PostToolUse));
            } else if self.user_prompt_submitted {
                assert(self.has(HookKind::UserPromptSubmitted));
            } else if self.session_start {
                assert(self.has(HookKind::SessionStart));
            } else if self.session_end {
                assert(self.has(HookKind::SessionEnd));
            } else if self.error_occurred {
                assert(self.has(HookKind::ErrorOccurred));
            }
        }
        b
    }
}

/// The hook to run for a `hooks.invoke` request; `None` means the answer is
/// null: no hooks are registered, the type names no hook, or that hook has
/// no handler.
pub fn hook_to_run(hooks: Option<HookPresence>, hook_type: &str) -> (r: Option<HookKind>)
    ensures
        match r {
            Some(k) => hooks matches Some(p) && p.has(k) && k.wire_name() == hook_type@,
            None => hooks is None || forall|k: HookKind| #[trigger] k.wire_name() == hook_type@
                ==> !hooks->0.has(k),
        },
        hook_type@ == "preToolUse"@ ==> (r == Some(HookKind::PreToolUse) <==> (hooks matches Some(p)
            && p.pre_tool_use)),
        hook_type@ == "postToolUse"@ ==> (r == Some(HookKind::PostToolUse) <==> (hooks matches Some(p)
            && p.post_tool_use)),
        hook_type@ == "userPromptSubmitted"@ ==> (r == Some(HookKind::UserPromptSubmitted) <==> (hooks matches Some(p)
            && p.user_prompt_submitted)),
        hook_type@ == "sessionStart"@ ==> (r == Some(HookKind::SessionStart) <==> (hooks matches Some(p)
            && p.session_start)),
        hook_type@ == "sessionEnd"@ ==> (r == Some(HookKind::SessionEnd) <==> (hooks matches Some(p)
            && p.session_end)),
        hook_type@ == "errorOccurred"@ ==> (r == Some(HookKind::ErrorOccurred) <==> (hooks matches Some(p)
            && p.error_occurred)),
{
    let r = match hooks {
        None => None,
        Some(p) => match HookKind::from_hook_type(hook_type) {
            None => None,
            Some(k) => {
                let present = match k {
                    HookKind::PreToolUse => p.pre_tool_use,
                    HookKind::PostToolUse => p.post_tool_use,
                    HookKind::UserPromptSubmitted => p.user_prompt_submitted,
                    HookKind::SessionStart => p.session_start,
                    HookKind::SessionEnd => p.session_end,
                    HookKind::ErrorOccurred => p.error_occurred,
                };
                if present {
                    Some(k)
                } else {
                    proof {
                        assert forall|k2: HookKind| #[trigger] k2.wire_name() == hook_type@
                            implies !p.has(k2) by {
                            lemma_hook_names_distinct(k, k2);
                        }
                    }
                    None
                }
            },
        },
    };
    proof {
        if let Some(p) = hooks {
            lemma_hook_fields(p);
        }
        if let Some(k) = r {
            lemma_hook_names_distinct(k, HookKind::PreToolUse);
            lemma_hook_names_distinct(k, HookKind::PostToolUse);
            lemma_hook_names_distinct(k, HookKind::UserPromptSubmitted);
            lemma_hook_names_distinct(k, HookKind::SessionStart);
            lemma_hook_names_distinct(k, HookKind::SessionEnd);
            lemma_hook_names_distinct(k, HookKind::ErrorOccurred);
        }
    }
    r
}

/// Which hook each type string names, and that a hook is present exactly
/// when the handler field of that same hook is set.
pub proof fn lemma_hook_fields(p: HookPresence)
    ensures
        HookKind::PreToolUse.wire_name() == "preToolUse"@,
        p.has(HookKind::PreToolUse) == p.pre_tool_use,
        HookKind::PostToolUse.wire_name() == "postToolUse"@,
        p.has(HookKind::PostToolUse) == p.post_tool_use,
        HookKind::UserPromptSubmitted.wire_name() == "userPromptSubmitted"@,
        p.has(HookKind::UserPromptSubmitted) == p.user_prompt_submitted,
        HookKind::SessionStart.wire_name() == "sessionStart"@,
        p.has(HookKind::SessionStart) == p.session_start,
        HookKind::SessionEnd.wire_name() == "sessionEnd"@,
        p.has(HookKind::SessionEnd) == p.session_end,
        HookKind::ErrorOccurred.wire_name() == "errorOccurred"@,
        p.has(HookKind::ErrorOccurred) == p.error_occurred,
{
}

/// Distinct hooks have distinct type strings.
pub proof fn lemma_hook_names_distinct(a: HookKind, b: HookKind)
    ensures
        a.wire_name() == b.wire_name() ==> a == b,
{
    reveal_strlit("preToolUse");
    reveal_strlit("postToolUse");
    reveal_strlit("userPromptSubmitted");
    reveal_strlit("sessionStart");
    reveal_strlit("sessionEnd");
    reveal_strlit("errorOccurred");
    assert("preToolUse"@[1] != "postToolUse"@[1]);
    assert("preToolUse"@[0] != "userPromptSubmitted"@[0]);
    assert("preToolUse"@[0] != "sessionStart"@[0]);
    assert("preToolUse"@[0] != "sessionEnd"@[0]);
    assert("preToolUse"@[0] != "errorOccurred"@[0]);
    assert("postToolUse"@[0] != "userPromptSubmitted"@[0]);
    assert("postToolUse"@[0] != "sessionStart"@[0]);
    assert("postToolUse"@[0] != "sessionEnd"@[0]);
    assert("postToolUse"@[0] != "errorOccurred"@[0]);
    assert("userPromptSubmitted"@[0] != "sessionStart"@[0]);
    assert("userPromptSubmitted"@[0] != "sessionEnd"@[0]);
    assert("userPromptSubmitted"@[0] != "errorOccurred"@[0]);
    assert("sessionStart"@[7] != "sessionEnd"@[7]);
    assert("sessionStart"@[0] != "errorOccurred"@[0]);
    assert("sessionEnd"@[0] != "errorOccurred"@[0]);
}

// =============================================================================
// Message history
// =============================================================================

/// The events of a `session.getMessages` answer: its `events` list, else its
/// `messages` list, else an error.
pub fn pick_message_list<T>(events: Option<Vec<T>>, messages: Option<Vec<T>>) -> (r:
    core::result::Result<Vec<T>, CopilotError>)
    ensures
        match (events, messages) {
            (Some(e), _) => r matches Ok(v) && v == e,
            (None, Some(m)) => r matches Ok(v) && v == m,
            (None, None) => r matches Err(CopilotError::Protocol(t)) && t@
                == "Missing events in getMessages response"@,
        },
{
    match events {
        Some(e) => Ok(e),
        None => match messages {
            Some(m) => Ok(m),
            None => Err(
                CopilotError::Protocol(String::from_str("Missing events in getMessages response")),
            ),
        },
    }
}

/// The text of the string field `field` of an answer, or the error naming
/// the field when the answer lacks it.
pub fn required_field(value: Option<&str>, field: &str) -> (r: core::result::Result<
    String,
    CopilotError,
>)
    ensures
        match value {
            Some(v) => r matches Ok(s) && s@ == v@,
            None => r matches Err(CopilotError::Protocol(t)) && t@ == "Missing "@ + field@
                + " in response"@,
        },
{
    match value {
        Some(v) => Ok(String::from_str(v)),
        None => {
            let mut t = String::from_str("Missing ");
            t.append(field);
            t.append(" in response");
            Err(CopilotError::Protocol(t))
        },
    }
}

} // verus!
