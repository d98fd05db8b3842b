use vstd::prelude::*;

verus! {

/// Who wrote a message.
#[derive(Clone, Copy, Debug, PartialEq, Eq, Structural)]
pub enum Sender {
    User,
    Bot,
}

impl Sender {
    /// The name the UI and the storage layer use for this sender.
    pub fn as_name(&self) -> (r: &'static str)
        ensures
            r@ == self.name_spec(),
    {
        match self {
            Sender::User => "user",
            Sender::Bot => "bot",
        }
    }

    pub open spec fn name_spec(&self) -> Seq<char> {
        match self {
            Sender::User => "user"@,
            Sender::Bot => "bot"@,
        }
    }
}

/// One message of a conversation.
#[derive(Debug, Clone)]
pub struct Message {
    pub id: u64,
    pub content: String,
    pub sender: Sender,
    pub timestamp: u64,
    pub conversation_id: u64,
}

impl Message {
    /// A field-by-field copy of this message.
    pub fn duplicate(&self) -> (r: Message)
        ensures
            r == *self,
    {
        Message {
            id: self.id,
            content: self.content.clone(),
            sender: self.sender,
            timestamp: self.timestamp,
            conversation_id: self.conversation_id,
        }
    }
}

/// Metadata of one conversation.
#[derive(Debug, Clone)]
pub struct Conversation {
    pub id: u64,
    pub title: String,
    pub last_message: String,
    pub timestamp: u64,
}

impl Conversation {
    /// A field-by-field copy of this conversation.
    pub fn duplicate(&self) -> (r: Conversation)
        ensures
            r == *self,
    {
        Conversation {
            id: self.id,
            title: self.title.clone(),
            last_message: self.last_message.clone(),
            timestamp: self.timestamp,
        }
    }
}

/// An aggregated piece of generated text on its way to the UI.
#[derive(Debug, Clone)]
pub struct MessageChunk {
    pub conversation_id: u64,
    pub content: String,
    pub is_complete: bool,
}

} // verus!
