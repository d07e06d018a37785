//! The conversation log shared across turns.
//!
//! A conversation is an ordered sequence of chat turns. Its invariant: the
//! first message is the single `System` prompt, placed there when the
//! conversation is created and never removed; the log only grows.

use vstd::prelude::*;

verus! {

/// One turn of the conversation.
#[derive(Debug, Clone, PartialEq)]
pub enum ChatMessage {
    /// The fixed system prompt, first in every conversation.
    System { content: String },
    /// Text the user sent.
    User { content: String },
    /// The model's reply text, when it produced one.
    Assistant { content: Option<String> },
    /// The result of one dispatched tool call, under the tool's name.
    Function { name: String, content: String },
}

/// The ordered log of chat turns, with the system prompt first.
pub struct Conversation {
    messages: Vec<ChatMessage>,
}

impl View for Conversation {
    type V = Seq<ChatMessage>;

    closed spec fn view(&self) -> Seq<ChatMessage> {
        self.messages@
    }
}

impl Conversation {
    /// The invariant: the log starts with exactly one leading `System` message.
    pub open spec fn well_formed(&self) -> bool {
        &&& self@.len() >= 1
        &&& self@[0] is System
        &&& forall|i: int| 1 <= i < self@.len() ==> !(#[trigger] self@[i] is System)
    }

    /// A fresh conversation holding only the system prompt.
    pub fn new(system_prompt: String) -> (c: Self)
        ensures
            c.well_formed(),
            c@ =~= seq![ChatMessage::System { content: system_prompt }],
    {
        let mut messages: Vec<ChatMessage> = Vec::new();
        messages.push(ChatMessage::System { content: system_prompt });
        Conversation { messages }
    }

    /// Append the user's utterance as a `User` turn.
    pub fn push_user(&mut self, utterance: String)
        requires
            old(self).well_formed(),
        ensures
            final(self).well_formed(),
            final(self)@ == old(self)@.push(ChatMessage::User { content: utterance }),
    {
        self.messages.push(ChatMessage::User { content: utterance });
    }

    /// Append one dispatched tool's result as a `Function` turn carrying the
    /// tool's exact name and the reply string that the tool produced.
    pub fn push_function(&mut self, name: String, content: String)
        requires
            old(self).well_formed(),
        ensures
            final(self).well_formed(),
            final(self)@ == old(self)@.push(ChatMessage::Function { name, content }),
    {
        self.messages.push(ChatMessage::Function { name, content });
    }

    /// Test the invariant at run time, for callers outside the verifier's
    /// view.
    pub fn well_formed_check(&self) -> (r: bool)
        ensures
            r == self.well_formed(),
    {
        if self.messages.len() == 0 {
            return false;
        }
        match &self.messages[0] {
            ChatMessage::System { .. } => {},
            _ => {
                return false;
            },
        }
        let mut i: usize = 1;
        while i < self.messages.len()
            invariant
                1 <= i <= self@.len(),
                self@.len() >= 1,
                self@[0] is System,
                forall|j: int| 1 <= j < i ==> !(#[trigger] self@[j] is System),
            decreases self@.len() - i,
        {
            match &self.messages[i] {
                ChatMessage::System { .. } => {
                    return false;
                },
                _ => {},
            }
            i += 1;
        }
        true
    }

    /// The turns in order, for the shell to hand to the model endpoint.
    pub fn messages(&self) -> (r: &Vec<ChatMessage>)
        ensures
            r@ == self@,
    {
        &self.messages
    }

    /// How many turns the log holds.
    pub fn len(&self) -> (n: usize)
        ensures
            n == self@.len(),
    {
        self.messages.len()
    }
}

} // verus!
