//! The two-state session gate.
//!
//! A channel is either `Idle` (messages are ignored unless they carry the
//! trigger word) or `Active` (every message is treated as a follow-up
//! utterance). This module maps one inbound message to a processing
//! decision and the session state that follows.

use vstd::prelude::*;

verus! {

/// Whether the channel is mid-conversation. `Active` means follow-up messages
/// are processed even without the trigger word; `Idle` means they are ignored.
/// The externally stored flag maps to this: absent or false is `Idle`, true is
/// `Active`.
#[derive(Clone, Copy, Debug, PartialEq, Eq, Structural)]
pub enum SessionState {
    Idle,
    Active,
}

/// The processing decision for one inbound message.
#[derive(Debug)]
pub enum GateDecision {
    /// Ignore the message: no model call is made and nothing is sent back.
    Discard,
    /// Process the message, with this text as the user utterance.
    Process { utterance: String },
}

/// The trigger word stands at the start of the message.
pub open spec fn spec_triggered(msg: Seq<char>, trigger: Seq<char>) -> bool {
    trigger.is_prefix_of(msg)
}

/// The utterance left after stripping the trigger-word prefix.
pub open spec fn spec_stripped(msg: Seq<char>, trigger: Seq<char>) -> Seq<char> {
    msg.subrange(trigger.len() as int, msg.len() as int)
}

/// `p` stands at the start of `s`.
fn has_prefix(s: &str, p: &str) -> (r: bool)
    ensures
        r == p@.is_prefix_of(s@),
{
    let n = p.unicode_len();
    if n > s.unicode_len() {
        return false;
    }
    let mut i: usize = 0;
    while i < n
        invariant
            n == p@.len(),
            n <= s@.len(),
            i <= n,
            forall|j: int| 0 <= j < i ==> s@[j] == p@[j],
        decreases n - i,
    {
        if s.get_char(i) != p.get_char(i) {
            assert(!p@.is_prefix_of(s@)) by {
                if p@.is_prefix_of(s@) {
                    assert(p@[i as int] == s@.subrange(0, n as int)[i as int]);
                }
            }
            return false;
        }
        i += 1;
    }
    assert(p@ =~= s@.subrange(0, n as int));
    true
}

/// Decide whether one inbound message is processed.
///
/// A message that starts with the trigger word activates the session and is
/// processed with the trigger word stripped, whatever the prior state. Any
/// other message is processed whole when the session is active, and discarded
/// (no model call, no outbound reply) when it is idle; the state is unchanged
/// either way.
pub fn gate_message(msg: &str, trigger: &str, flag: SessionState) -> (r: (GateDecision, SessionState))
    ensures
        spec_triggered(msg@, trigger@) ==> {
            &&& r.1 == SessionState::Active
            &&& r.0 matches GateDecision::Process { utterance } && utterance@
                == spec_stripped(msg@, trigger@)
        },
        !spec_triggered(msg@, trigger@) && flag == SessionState::Active ==> {
            &&& r.1 == SessionState::Active
            &&& r.0 matches GateDecision::Process { utterance } && utterance@ == msg@
        },
        !spec_triggered(msg@, trigger@) && flag == SessionState::Idle ==> {
            &&& r.1 == SessionState::Idle
            &&& r.0 is Discard
        },
{
    if has_prefix(msg, trigger) {
        let rest = msg.substring_char(trigger.unicode_len(), msg.unicode_len());
        (GateDecision::Process { utterance: rest.to_owned() }, SessionState::Active)
    } else {
        match flag {
            SessionState::Active => (
                GateDecision::Process { utterance: msg.to_owned() },
                SessionState::Active,
            ),
            SessionState::Idle => (GateDecision::Discard, SessionState::Idle),
        }
    }
}

} // verus!
