//! The dispatch rules: from a model response to tool invocations.
//!
//! Given one response, the loop reads what the first choice asks for; when the
//! model asked for tools, each call is resolved against the fixed dispatch
//! table, its required argument decoded from the raw payload, and — once the
//! capability has run — the result is recorded as a `Function` turn while the
//! session flag is cleared. The unverified shell performs the model rounds
//! and the capabilities' I/O and obeys these decisions.

use vstd::prelude::*;
use crate::protocol::FinishReason;
use crate::protocol::IntentView;
use crate::protocol::ModelResponse;
use crate::protocol::ToolCallIntent;
use crate::session::SessionState;

verus! {

/// Why handling one inbound message was aborted. Either failure is fatal for
/// that message: the dispatch stops, no reply is sent, and the session flag
/// is left as it was.
#[derive(Clone, Copy, Debug, PartialEq, Eq, Structural)]
pub enum ChatError {
    /// The model response lacked the structure the protocol relies on: no
    /// first choice, or a tool-calls finish without a tool-call list.
    MalformedResponse,
    /// A tool call's raw argument payload did not decode to a string map
    /// holding the required key.
    BadToolArguments,
}

/// The capability one tool call resolves to.
#[derive(Debug, Clone)]
pub enum ToolAction {
    /// `getWeather`: look up the weather for this city.
    Weather { city: String },
    /// `scraper`: fetch the text of this webpage.
    Scrape { url: String },
    /// `getTimeOfDay`: read the local clock.
    TimeOfDay,
    /// Any other name: a no-op that yields empty content.
    Unknown,
}

/// The view of a resolved capability.
pub ghost enum ActionView {
    Weather { city: Seq<char> },
    Scrape { url: Seq<char> },
    TimeOfDay,
    Unknown,
}

impl View for ToolAction {
    type V = ActionView;

    open spec fn view(&self) -> ActionView {
        match self {
            ToolAction::Weather { city } => ActionView::Weather { city: city@ },
            ToolAction::Scrape { url } => ActionView::Scrape { url: url@ },
            ToolAction::TimeOfDay => ActionView::TimeOfDay,
            ToolAction::Unknown => ActionView::Unknown,
        }
    }
}

/// One resolved tool call: the name the model used, kept verbatim for the
/// `Function` turn, and the capability it maps to.
#[derive(Debug, Clone)]
pub struct PlannedCall {
    pub name: String,
    pub action: ToolAction,
}

/// The string map that a tool call's raw argument payload decodes to, or
/// `None` when it is not a JSON object of strings. Named, not stated: the
/// decoding is serde_json's.
pub uninterp spec fn parsed_args(payload: Seq<char>) -> Option<Map<Seq<char>, Seq<char>>>;

/// Relies on serde_json::from_str to decode a tool call's raw argument
/// payload as a flat string-keyed map of strings. The pairs come back in no
/// fixed order; each key appears once and the pairs are exactly the map's.
#[verifier::external_body]
fn parse_args(payload: &str) -> (r: Option<Vec<(String, String)>>)
    ensures
        r is Some <==> parsed_args(payload@) is Some,
        r matches Some(v) ==> {
            let m = parsed_args(payload@)->Some_0;
            &&& forall|i: int|
                0 <= i < v@.len() ==> m.contains_pair((#[trigger] v@[i]).0@, v@[i].1@)
            &&& forall|k: Seq<char>|
                #[trigger] m.dom().contains(k) ==> exists|i: int|
                    0 <= i < v@.len() && (#[trigger] v@[i]).0@ == k
            &&& forall|i: int, j: int|
                0 <= i < j < v@.len() ==> (#[trigger] v@[i]).0@ != (#[trigger] v@[j]).0@
        },
{
    let m: std::collections::HashMap<String, String> = serde_json::from_str(payload).ok()?;
    Some(m.into_iter().collect())
}

/// `s` and `t` hold the same characters.
fn str_equal(s: &str, t: &str) -> (r: bool)
    ensures
        r == (s@ == t@),
{
    let n = s.unicode_len();
    if n != t.unicode_len() {
        return false;
    }
    let mut i: usize = 0;
    while i < n
        invariant
            n == s@.len(),
            n == t@.len(),
            i <= n,
            forall|j: int| 0 <= j < i ==> s@[j] == t@[j],
        decreases n - i,
    {
        if s.get_char(i) != t.get_char(i) {
            return false;
        }
        i += 1;
    }
    assert(s@ =~= t@);
    true
}

/// Find `key` among the decoded argument pairs.
fn lookup_arg(pairs: &Vec<(String, String)>, key: &str) -> (r: Option<String>)
    ensures
        r matches Some(val) ==> exists|i: int|
            0 <= i < pairs@.len() && (#[trigger] pairs@[i]).0@ == key@ && pairs@[i].1@ == val@,
        r is None ==> forall|i: int| 0 <= i < pairs@.len() ==> (#[trigger] pairs@[i]).0@ != key@,
{
    let mut i: usize = 0;
    while i < pairs.len()
        invariant
            i <= pairs@.len(),
            forall|j: int| 0 <= j < i ==> (#[trigger] pairs@[j]).0@ != key@,
        decreases pairs@.len() - i,
    {
        if str_equal(pairs[i].0.as_str(), key) {
            return Some(pairs[i].1.clone());
        }
        i += 1;
    }
    None
}

/// The value a tool call's payload carries under a required key, or the
/// argument error when the payload does not decode or the key is missing.
pub open spec fn spec_required_arg(payload: Seq<char>, key: Seq<char>) -> Result<
    Seq<char>,
    ChatError,
> {
    match parsed_args(payload) {
        None => Err(ChatError::BadToolArguments),
        Some(m) => if m.dom().contains(key) {
            Ok(m[key])
        } else {
            Err(ChatError::BadToolArguments)
        },
    }
}

/// Decode the payload and pick out a required key.
fn required_arg(payload: &str, key: &str) -> (r: Result<String, ChatError>)
    ensures
        r matches Ok(v) ==> spec_required_arg(payload@, key@) == Ok::<Seq<char>, ChatError>(v@),
        r matches Err(e) ==> spec_required_arg(payload@, key@) == Err::<Seq<char>, ChatError>(e),
{
    match parse_args(payload) {
        None => Err(ChatError::BadToolArguments),
        Some(pairs) => {
            let found = lookup_arg(&pairs, key);
            match found {
                Some(v) => {
                    proof {
                        let m = parsed_args(payload@)->Some_0;
                        let i = choose|i: int|
                            0 <= i < pairs@.len() && (#[trigger] pairs@[i]).0@ == key@
                                && pairs@[i].1@ == v@;
                        assert(m.contains_pair(pairs@[i].0@, pairs@[i].1@));
                    }
                    Ok(v)
                },
                None => {
                    proof {
                        let m = parsed_args(payload@)->Some_0;
                        assert(!m.dom().contains(key@)) by {
                            if m.dom().contains(key@) {
                                let i = choose|i: int|
                                    0 <= i < pairs@.len() && (#[trigger] pairs@[i]).0@ == key@;
                                assert(pairs@[i].0@ != key@);
                            }
                        }
                    }
                    Err(ChatError::BadToolArguments)
                },
            }
        },
    }
}

/// What one tool-call intent resolves to: the dispatch table keyed by the
/// exact function name, with the required argument read from the payload, a
/// no-op for any unrecognized name, and the argument error where the payload
/// fails.
pub open spec fn spec_resolve(intent: IntentView) -> Result<ActionView, ChatError> {
    if intent.name == "getWeather"@ {
        match spec_required_arg(intent.arguments, "city"@) {
            Ok(city) => Ok(ActionView::Weather { city }),
            Err(e) => Err(e),
        }
    } else if intent.name == "scraper"@ {
        match spec_required_arg(intent.arguments, "url"@) {
            Ok(url) => Ok(ActionView::Scrape { url }),
            Err(e) => Err(e),
        }
    } else if intent.name == "getTimeOfDay"@ {
        Ok(ActionView::TimeOfDay)
    } else {
        Ok(ActionView::Unknown)
    }
}

/// Resolve one tool call the model asked for: match its name against the
/// fixed dispatch table and, for the tools that take one, decode the required
/// argument from the raw payload. An unrecognized name resolves to the no-op;
/// a payload failure aborts the message's dispatch.
pub fn resolve_call(intent: &ToolCallIntent) -> (r: Result<PlannedCall, ChatError>)
    ensures
        r matches Ok(p) ==> p.name@ == intent.name@ && spec_resolve(intent@) == Ok::<
            ActionView,
            ChatError,
        >(p.action@),
        r matches Err(e) ==> spec_resolve(intent@) == Err::<ActionView, ChatError>(e),
{
    let action = if str_equal(intent.name.as_str(), "getWeather") {
        match required_arg(intent.arguments.as_str(), "city") {
            Ok(city) => ToolAction::Weather { city },
            Err(e) => {
                return Err(e);
            },
        }
    } else if str_equal(intent.name.as_str(), "scraper") {
        match required_arg(intent.arguments.as_str(), "url") {
            Ok(url) => ToolAction::Scrape { url },
            Err(e) => {
                return Err(e);
            },
        }
    } else if str_equal(intent.name.as_str(), "getTimeOfDay") {
        ToolAction::TimeOfDay
    } else {
        ToolAction::Unknown
    };
    Ok(PlannedCall { name: intent.name.clone(), action })
}

/// What the first choice asks for: `Ok(None)` when the model did not finish
/// on tool calls, the intents when it did, and the structural error on a
/// response without choices or a tool-calls finish without a list.
pub open spec fn spec_tool_intents(resp: Seq<crate::protocol::ChoiceView>) -> Result<
    Option<Seq<IntentView>>,
    ChatError,
> {
    if resp.len() == 0 {
        Err(ChatError::MalformedResponse)
    } else if resp[0].finish_reason != Some(FinishReason::ToolCalls) {
        Ok(None)
    } else {
        match resp[0].tool_calls {
            None => Err(ChatError::MalformedResponse),
            Some(calls) => Ok(Some(calls)),
        }
    }
}

/// Read what the first response choice asks for. `Ok(Some(calls))` when the model
/// wants tools invoked; `Ok(None)` when it does not — no tool is dispatched
/// and the loop goes straight to the second model round; `Err` on a malformed
/// response.
pub fn tool_intents(resp: &ModelResponse) -> (r: Result<
    Option<&Vec<ToolCallIntent>>,
    ChatError,
>)
    ensures
        r matches Err(e) ==> spec_tool_intents(resp@) == Err::<Option<Seq<IntentView>>, ChatError>(
            e,
        ),
        r matches Ok(o) ==> spec_tool_intents(resp@) == Ok::<Option<Seq<IntentView>>, ChatError>(
            match o {
                None => None,
                Some(calls) => Some(calls@.map_values(|t: ToolCallIntent| t@)),
            },
        ),
{
    if resp.choices.len() == 0 {
        return Err(ChatError::MalformedResponse);
    }
    let first = &resp.choices[0];
    let wants_tools = match first.finish_reason {
        Some(FinishReason::ToolCalls) => true,
        _ => false,
    };
    if !wants_tools {
        return Ok(None);
    }
    match &first.tool_calls {
        None => Err(ChatError::MalformedResponse),
        Some(calls) => Ok(Some(calls)),
    }
}

/// The final reply in the second round's response: the first choice's
/// content, or the structural error on a response without choices.
pub open spec fn spec_extract_reply(resp: Seq<crate::protocol::ChoiceView>) -> Result<
    Option<Seq<char>>,
    ChatError,
> {
    if resp.len() == 0 {
        Err(ChatError::MalformedResponse)
    } else {
        Ok(resp[0].content)
    }
}

/// Extract the final reply from the second model round: the first choice's
/// content verbatim when present, `None` when the model produced no content
/// (the caller then clears the session flag and sends nothing), `Err` on a
/// response without choices.
pub fn extract_reply(resp: &ModelResponse) -> (r: Result<Option<String>, ChatError>)
    ensures
        r matches Err(e) ==> spec_extract_reply(resp@) == Err::<Option<Seq<char>>, ChatError>(e),
        r matches Ok(o) ==> spec_extract_reply(resp@) == Ok::<Option<Seq<char>>, ChatError>(
            match o {
                Some(s) => Some(s@),
                None => None,
            },
        ),
{
    if resp.choices.len() == 0 {
        return Err(ChatError::MalformedResponse);
    }
    match &resp.choices[0].content {
        Some(s) => Ok(Some(s.clone())),
        None => Ok(None),
    }
}

/// The action maps to a capability in the dispatch table.
pub open spec fn spec_recognized(action: ActionView) -> bool {
    !(action is Unknown)
}

/// The session state after one resolved tool call is dispatched: any
/// recognized tool ends the follow-up conversation; the no-op for an
/// unrecognized name leaves the state alone.
pub open spec fn spec_session_after_dispatch(action: ActionView, flag: SessionState) -> SessionState {
    if spec_recognized(action) {
        SessionState::Idle
    } else {
        flag
    }
}

/// The session state after dispatching one resolved tool call. The result
/// does not depend on the tool's outcome: the flag is cleared when the
/// capability is invoked, before its result is known.
pub fn session_after_dispatch(action: &ToolAction, flag: SessionState) -> (r: SessionState)
    ensures
        r == spec_session_after_dispatch(action@, flag),
{
    match action {
        ToolAction::Unknown => flag,
        _ => SessionState::Idle,
    }
}

/// Law: dispatching a recognized tool call clears the session flag
/// unconditionally — the state becomes `Idle` whatever it was before, and
/// nothing in the transition depends on the tool's outcome.
pub proof fn lemma_dispatch_clears_session(action: ActionView, flag: SessionState)
    requires
        spec_recognized(action),
    ensures
        spec_session_after_dispatch(action, flag) == SessionState::Idle,
{
}

/// Law: when the first choice's termination reason is anything but tool
/// calls, no intents come back — the dispatch table is never
/// consulted and no capability runs; the loop still makes the second model
/// round and returns its content verbatim.
pub proof fn lemma_no_tools_without_tool_finish(resp: Seq<crate::protocol::ChoiceView>)
    requires
        resp.len() > 0,
        resp[0].finish_reason != Some(FinishReason::ToolCalls),
    ensures
        spec_tool_intents(resp) == Ok::<Option<Seq<IntentView>>, ChatError>(None),
{
}

} // verus!
