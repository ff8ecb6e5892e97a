//! Commands for the backend, and the record that carries one to it.
use crate::app_state::TauriCommandResponder;
use crate::chat::SessionId;
use vstd::prelude::*;

verus! {

/// What the user interface can ask of the backend.
#[derive(Debug, PartialEq, Eq)]
pub enum Command {
    /// Shut the backend down.
    Quit,
    /// Show the configuration in use.
    ShowConfig,
    /// Index the whole repository anew.
    IndexRepository,
    /// Stop the agent so that the user can chat again.
    StopAgent,
    /// Send a chat message.
    Chat { message: String },
    /// Show the changes the agent has made.
    Diff,
    /// Run a shell command in the agent's context.
    Exec { cmd: String },
    /// Retry the last chat completion.
    RetryChat,
}

/// The mathematical value of a [`Command`].
pub enum CommandView {
    Quit,
    ShowConfig,
    IndexRepository,
    StopAgent,
    Chat { message: Seq<char> },
    Diff,
    Exec { cmd: Seq<char> },
    RetryChat,
}

impl View for Command {
    type V = CommandView;

    open spec fn view(&self) -> CommandView {
        match *self {
            Command::Quit => CommandView::Quit,
            Command::ShowConfig => CommandView::ShowConfig,
            Command::IndexRepository => CommandView::IndexRepository,
            Command::StopAgent => CommandView::StopAgent,
            Command::Chat { message } => CommandView::Chat { message: message@ },
            Command::Diff => CommandView::Diff,
            Command::Exec { cmd } => CommandView::Exec { cmd: cmd@ },
            Command::RetryChat => CommandView::RetryChat,
        }
    }
}

/// What can go wrong in this library.
#[derive(Clone, Copy, Debug, PartialEq, Eq, Structural)]
pub enum Error {
    /// A response named a session that the registry does not hold.
    SessionNotFound(SessionId),
    /// The backend's inbound queue is gone: the backend has stopped.
    DispatchChannelClosed,
}

impl Error {
    /// A short description for a log.
    pub fn message(&self) -> (res: String)
        ensures
            res@ == (match *self {
                Error::SessionNotFound(_) => "chat not found"@,
                Error::DispatchChannelClosed => "command queue closed"@,
            }),
    {
        match self {
            Error::SessionNotFound(_) => "chat not found".to_owned(),
            Error::DispatchChannelClosed => "command queue closed".to_owned(),
        }
    }
}

/// The session id of a command that belongs to no session.
pub const NO_SESSION: SessionId = 0;

/// A command on its way to the backend: what to do, for which session, and
/// where the responses go. A record is never changed once it is made.
#[derive(Debug)]
pub struct CommandEvent<C> {
    command: Command,
    uuid: SessionId,
    responder: Option<TauriCommandResponder<C>>,
}

impl<C> CommandEvent<C> {
    pub closed spec fn spec_command(&self) -> Command {
        self.command
    }

    pub closed spec fn spec_uuid(&self) -> SessionId {
        self.uuid
    }

    pub closed spec fn spec_responder(&self) -> Option<TauriCommandResponder<C>> {
        self.responder
    }

    /// The record of `command`, issued for session `uuid`, whose responses go
    /// to `responder`.
    pub fn new(command: Command, uuid: SessionId, responder: TauriCommandResponder<C>) -> (res:
        Self)
        ensures
            res.spec_command() == command,
            res.spec_uuid() == uuid,
            res.spec_responder() == Some(responder),
    {
        CommandEvent { command, uuid, responder: Some(responder) }
    }

    /// The record that tells the backend to quit. It belongs to no session
    /// and nobody waits for a response.
    pub fn quit() -> (res: Self)
        ensures
            res.spec_command() == Command::Quit,
            res.spec_uuid() == NO_SESSION,
            res.spec_responder() == None::<TauriCommandResponder<C>>,
    {
        CommandEvent { command: Command::Quit, uuid: NO_SESSION, responder: None }
    }

    pub fn command(&self) -> (res: &Command)
        ensures
            *res == self.spec_command(),
    {
        &self.command
    }

    pub fn uuid(&self) -> (res: SessionId)
        ensures
            res == self.spec_uuid(),
    {
        self.uuid
    }

    pub fn responder(&self) -> (res: Option<&TauriCommandResponder<C>>)
        ensures
            res is Some == self.spec_responder() is Some,
            res matches Some(r) ==> *r == self.spec_responder()->0,
    {
        self.responder.as_ref()
    }

    /// Takes the record apart.
    pub fn into_parts(self) -> (res: (Command, SessionId, Option<TauriCommandResponder<C>>))
        ensures
            res == (self.spec_command(), self.spec_uuid(), self.spec_responder()),
    {
        (self.command, self.uuid, self.responder)
    }
}

} // verus!
