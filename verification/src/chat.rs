//! Sessions and the messages they hold.
use vstd::prelude::*;

verus! {

/// Identifies one session. The value is the 128-bit number of a UUID.
pub type SessionId = u128;

/// Who authored a message.
#[derive(Clone, Copy, Debug, PartialEq, Eq, Structural)]
pub enum ChatRole {
    User,
    System,
    Command,
    Assistant,
    Tool,
}

/// Lifecycle status of a session.
#[derive(Clone, Copy, Debug, PartialEq, Eq, Structural)]
pub enum ChatState {
    /// Waiting for the user.
    Ready,
    /// A command is being worked on.
    Running,
}

/// One entry of a session's transcript.
#[derive(Debug, PartialEq, Eq)]
pub struct ChatMessage {
    role: ChatRole,
    content: String,
}

/// The mathematical value of a [`ChatMessage`].
pub struct ChatMessageView {
    pub role: ChatRole,
    pub content: Seq<char>,
}

impl View for ChatMessage {
    type V = ChatMessageView;

    closed spec fn view(&self) -> ChatMessageView {
        ChatMessageView { role: self.role, content: self.content@ }
    }
}

impl Clone for ChatMessage {
    fn clone(&self) -> (res: Self)
        ensures
            res == *self,
    {
        ChatMessage { role: self.role, content: self.content.clone() }
    }
}

impl ChatMessage {
    /// A message with the given author and text.
    pub fn new(role: ChatRole, content: String) -> (res: Self)
        ensures
            res@ == (ChatMessageView { role, content: content@ }),
    {
        ChatMessage { role, content }
    }

    /// A message authored by the system itself.
    pub fn new_system(content: String) -> (res: Self)
        ensures
            res@ == system_message(content@),
    {
        ChatMessage { role: ChatRole::System, content }
    }

    pub fn role(&self) -> (res: ChatRole)
        ensures
            res == self@.role,
    {
        self.role
    }

    pub fn content(&self) -> (res: &str)
        ensures
            res@ == self@.content,
    {
        self.content.as_str()
    }
}

/// The system-authored message with the given text.
pub open spec fn system_message(content: Seq<char>) -> ChatMessageView {
    ChatMessageView { role: ChatRole::System, content }
}

/// The views of a run of messages, in order.
pub open spec fn message_views(messages: Seq<ChatMessage>) -> Seq<ChatMessageView> {
    messages.map_values(|m: ChatMessage| m@)
}

/// One independently tracked unit of conversation.
#[derive(Debug, PartialEq, Eq)]
pub struct Chat {
    uuid: SessionId,
    name: String,
    branch_name: Option<String>,
    messages: Vec<ChatMessage>,
    state: ChatState,
}

/// The mathematical value of a [`Chat`].
pub struct ChatView {
    pub uuid: SessionId,
    pub name: Seq<char>,
    pub branch_name: Option<Seq<char>>,
    pub messages: Seq<ChatMessageView>,
    pub state: ChatState,
}

impl View for Chat {
    type V = ChatView;

    closed spec fn view(&self) -> ChatView {
        ChatView {
            uuid: self.uuid,
            name: self.name@,
            branch_name: match self.branch_name {
                Some(b) => Some(b@),
                None => None,
            },
            messages: message_views(self.messages@),
            state: self.state,
        }
    }
}

/// The session that `Chat::new` creates: unnamed, without a branch, with an
/// empty transcript, ready for the user.
pub open spec fn fresh_chat(uuid: SessionId) -> ChatView {
    ChatView {
        uuid,
        name: Seq::empty(),
        branch_name: None,
        messages: Seq::empty(),
        state: ChatState::Ready,
    }
}

impl Chat {
    /// A new session under the given id.
    pub fn new(uuid: SessionId) -> (res: Self)
        ensures
            res@ == fresh_chat(uuid),
    {
        let res = Chat {
            uuid,
            name: String::new(),
            branch_name: None,
            messages: Vec::new(),
            state: ChatState::Ready,
        };
        assert(res@.messages =~= Seq::empty());
        res
    }

    pub fn uuid(&self) -> (res: SessionId)
        ensures
            res == self@.uuid,
    {
        self.uuid
    }

    pub fn name(&self) -> (res: &str)
        ensures
            res@ == self@.name,
    {
        self.name.as_str()
    }

    pub fn branch_name(&self) -> (res: Option<&str>)
        ensures
            res is Some == self@.branch_name is Some,
            res matches Some(b) ==> b@ == self@.branch_name->0,
    {
        match &self.branch_name {
            Some(b) => Some(b.as_str()),
            None => None,
        }
    }

    pub fn messages(&self) -> (res: &Vec<ChatMessage>)
        ensures
            message_views(res@) == self@.messages,
    {
        &self.messages
    }

    pub fn state(&self) -> (res: ChatState)
        ensures
            res == self@.state,
    {
        self.state
    }

    /// Sets the display name.
    pub fn set_name(&mut self, name: String)
        ensures
            final(self)@ == (ChatView { name: name@, ..old(self)@ }),
    {
        self.name = name;
    }

    /// Sets the label of the branch the session works on.
    pub fn set_branch_name(&mut self, name: String)
        ensures
            final(self)@ == (ChatView { branch_name: Some(name@), ..old(self)@ }),
    {
        self.branch_name = Some(name);
    }

    /// Appends a message to the transcript.
    pub fn add_message(&mut self, message: ChatMessage)
        ensures
            final(self)@ == (ChatView {
                messages: old(self)@.messages.push(message@),
                ..old(self)@
            }),
    {
        self.messages.push(message);
        assert(message_views(self.messages@) =~= message_views(old(self).messages@).push(
            message@,
        ));
    }

    /// Moves the session to the given status.
    pub fn transition(&mut self, state: ChatState)
        ensures
            final(self)@ == (ChatView { state, ..old(self)@ }),
    {
        self.state = state;
    }
}

} // verus!
