//! The state that the user interface and the backend share, and the
//! responder that keeps the two in step.
//!
//! Flow of events: the interface issues a command with a session id and a
//! handle on which it listens; the command is dispatched to the backend with
//! a responder; the responder forwards every response to the interface and
//! mirrors it to the reconciliation queue, from which it is applied to the
//! registry.
use crate::actions;
use crate::chat::{ChatMessage, ChatMessageView, ChatView, SessionId};
use crate::commands::{CommandEvent, Error};
use crate::reconcile::{
    lemma_reconcile_all_keeps_sessions, reconcile, reconcile_all, unmatched, verdict,
};
use crate::registry::Registry;
use crate::trusted::{enqueue, share};
use std::sync::Arc;
use tokio::sync::mpsc::UnboundedSender;
use tokio_util::task::AbortOnDropHandle;
use vstd::prelude::*;

verus! {

/// What the backend can say in response to a command.
#[derive(Debug, PartialEq, Eq)]
pub enum CommandResponseDef {
    /// A message from an agent.
    Chat(ChatMessage),
    /// A short update on what is going on.
    Activity(String),
    /// The session has a new display name.
    RenameChat(String),
    /// The session's branch has a new label.
    RenameBranch(String),
    /// A message of the backend itself, shown as a system message.
    BackendMessage(String),
    /// The command has been completed.
    Completed,
}

/// The mathematical value of a [`CommandResponseDef`].
pub enum ResponseView {
    Chat(ChatMessageView),
    Activity(Seq<char>),
    RenameChat(Seq<char>),
    RenameBranch(Seq<char>),
    BackendMessage(Seq<char>),
    Completed,
}

impl View for CommandResponseDef {
    type V = ResponseView;

    open spec fn view(&self) -> ResponseView {
        match *self {
            CommandResponseDef::Chat(message) => ResponseView::Chat(message@),
            CommandResponseDef::Activity(text) => ResponseView::Activity(text@),
            CommandResponseDef::RenameChat(name) => ResponseView::RenameChat(name@),
            CommandResponseDef::RenameBranch(name) => ResponseView::RenameBranch(name@),
            CommandResponseDef::BackendMessage(text) => ResponseView::BackendMessage(text@),
            CommandResponseDef::Completed => ResponseView::Completed,
        }
    }
}

impl Clone for CommandResponseDef {
    fn clone(&self) -> (res: Self)
        ensures
            res == *self,
    {
        match self {
            CommandResponseDef::Chat(message) => CommandResponseDef::Chat(message.clone()),
            CommandResponseDef::Activity(text) => CommandResponseDef::Activity(text.clone()),
            CommandResponseDef::RenameChat(name) => CommandResponseDef::RenameChat(name.clone()),
            CommandResponseDef::RenameBranch(name) => CommandResponseDef::RenameBranch(
                name.clone(),
            ),
            CommandResponseDef::BackendMessage(text) => CommandResponseDef::BackendMessage(
                text.clone(),
            ),
            CommandResponseDef::Completed => CommandResponseDef::Completed,
        }
    }
}

/// A response together with the id of the session it belongs to: the unit
/// that is delivered to the interface and reconciled into the registry.
#[derive(Debug, PartialEq, Eq)]
pub struct CommandResponseWithUuid {
    pub session_id: SessionId,
    pub content: CommandResponseDef,
}

/// The mathematical value of a [`CommandResponseWithUuid`].
pub struct EnvelopeView {
    pub session_id: SessionId,
    pub content: ResponseView,
}

impl View for CommandResponseWithUuid {
    type V = EnvelopeView;

    open spec fn view(&self) -> EnvelopeView {
        EnvelopeView { session_id: self.session_id, content: self.content@ }
    }
}

impl Clone for CommandResponseWithUuid {
    fn clone(&self) -> (res: Self)
        ensures
            res == *self,
    {
        CommandResponseWithUuid { session_id: self.session_id, content: self.content.clone() }
    }
}

impl CommandResponseWithUuid {
    /// Wraps `content` for session `session_id`.
    pub fn new(session_id: SessionId, content: CommandResponseDef) -> (res: Self)
        ensures
            res == (CommandResponseWithUuid { session_id, content }),
    {
        CommandResponseWithUuid { session_id, content }
    }
}

/// The views of a run of envelopes, in order.
pub open spec fn envelope_views(responses: Seq<CommandResponseWithUuid>) -> Seq<EnvelopeView> {
    responses.map_values(|r: CommandResponseWithUuid| r@)
}

/// The sending half of the reconciliation queue, bound to the task that
/// drains it: when this value is dropped, the task is aborted.
#[derive(Debug)]
pub struct AppCommandResponder {
    tx: Arc<UnboundedSender<CommandResponseWithUuid>>,
    _handle: AbortOnDropHandle<()>,
}

impl AppCommandResponder {
    /// The queue that the draining task reads from.
    pub closed spec fn queue(&self) -> Arc<UnboundedSender<CommandResponseWithUuid>> {
        self.tx
    }

    /// The task that drains the queue.
    pub closed spec fn task(&self) -> AbortOnDropHandle<()> {
        self._handle
    }

    /// Binds the sending half `tx` to `handle`, the task that drains the
    /// receiving half.
    pub fn new(
        tx: UnboundedSender<CommandResponseWithUuid>,
        handle: AbortOnDropHandle<()>,
    ) -> (res: Self)
        ensures
            *res.queue() == tx,
            res.task() == handle,
    {
        AppCommandResponder { tx: Arc::new(tx), _handle: handle }
    }

    /// Another handle on the queue.
    pub fn sender(&self) -> (res: Arc<UnboundedSender<CommandResponseWithUuid>>)
        ensures
            res == self.queue(),
    {
        share(&self.tx)
    }
}

/// Whether `taken` is an answer that `queue` gave when `message` was handed
/// to its `send`. Verus learns this of a value only from a call that was
/// made: `offer` makes it.
pub closed spec fn offered<T>(queue: UnboundedSender<T>, message: T, taken: Result<(), T>) -> bool {
    call_ensures(enqueue::<T>, (&queue, message), taken)
}

/// Offers `message` to `queue` without blocking. The queue takes it or, if
/// its receiving half is gone, hands it back.
pub fn offer<T>(queue: &UnboundedSender<T>, message: T) -> (taken: Result<(), T>)
    ensures
        offered(*queue, message, taken),
        taken matches Err(refused) ==> refused == message,
{
    let send = enqueue::<T>;
    send(queue, message)
}

/// What became of one response: one outcome for each place it was sent to.
#[derive(Clone, Copy, Debug, PartialEq, Eq, Structural)]
pub struct Delivery {
    /// Whether the interface took its copy.
    pub frontend: bool,
    /// Whether the reconciliation queue took its copy.
    pub backend: bool,
}

impl Delivery {
    /// The outcome of one response, from what each send reported: the
    /// interface by `frontend`, the reconciliation queue by handing a refused
    /// envelope back.
    pub fn of(frontend: bool, mirrored: Result<(), CommandResponseWithUuid>) -> (res: Delivery)
        ensures
            res == (Delivery { frontend, backend: mirrored is Ok }),
    {
        Delivery { frontend, backend: mirrored.is_ok() }
    }
}

/// The responder of one command. It wraps every response with the id of the
/// session that the command was issued for, and sends one copy to the
/// interface, for live updates, and one to the reconciliation queue.
#[derive(Debug)]
pub struct TauriCommandResponder<C> {
    uuid: SessionId,
    frontend: C,
    backend: Arc<UnboundedSender<CommandResponseWithUuid>>,
}

impl<C> TauriCommandResponder<C> {
    pub closed spec fn spec_session_id(&self) -> SessionId {
        self.uuid
    }

    pub closed spec fn spec_frontend(&self) -> C {
        self.frontend
    }

    pub closed spec fn spec_backend(&self) -> Arc<UnboundedSender<CommandResponseWithUuid>> {
        self.backend
    }

    /// The responder for session `uuid` that delivers to the interface over
    /// `frontend` and mirrors to `backend`.
    pub fn new(
        uuid: SessionId,
        frontend: C,
        backend: Arc<UnboundedSender<CommandResponseWithUuid>>,
    ) -> (res: Self)
        ensures
            res.spec_session_id() == uuid,
            res.spec_frontend() == frontend,
            res.spec_backend() == backend,
    {
        TauriCommandResponder { uuid, frontend, backend }
    }

    pub fn session_id(&self) -> (res: SessionId)
        ensures
            res == self.spec_session_id(),
    {
        self.uuid
    }

    pub fn frontend(&self) -> (res: &C)
        ensures
            *res == self.spec_frontend(),
    {
        &self.frontend
    }

    /// Wraps `response` with the id of this responder's session.
    pub fn envelope(&self, response: CommandResponseDef) -> (res: CommandResponseWithUuid)
        ensures
            res == (CommandResponseWithUuid {
                session_id: self.spec_session_id(),
                content: response,
            }),
    {
        CommandResponseWithUuid::new(self.uuid, response)
    }

    /// Sends `response` to both places. `deliver` hands an envelope to the
    /// interface and tells whether it was taken.
    ///
    /// The two sends are independent and best effort: the copy for the
    /// reconciliation queue is sent whatever `deliver` returned, and a copy
    /// that was not taken is dropped. Nothing fails.
    pub fn send<F: FnOnce(&C, CommandResponseWithUuid) -> bool>(
        &self,
        response: CommandResponseDef,
        deliver: F,
    ) -> (outcome: Delivery)
        requires
            deliver.requires(
                (
                    &self.spec_frontend(),
                    CommandResponseWithUuid {
                        session_id: self.spec_session_id(),
                        content: response,
                    },
                ),
            ),
        ensures
            deliver.ensures(
                (
                    &self.spec_frontend(),
                    CommandResponseWithUuid {
                        session_id: self.spec_session_id(),
                        content: response,
                    },
                ),
                outcome.frontend,
            ),
            exists|taken: Result<(), CommandResponseWithUuid>|
                #[trigger] offered(
                    *self.spec_backend(),
                    CommandResponseWithUuid {
                        session_id: self.spec_session_id(),
                        content: response,
                    },
                    taken,
                ) && outcome.backend == (taken is Ok),
    {
        let mirrored = self.envelope(response.clone());
        let frontend = deliver(&self.frontend, self.envelope(response));
        let taken = offer(&*self.backend, mirrored);
        assert(offered(*self.spec_backend(), mirrored, taken));
        Delivery::of(frontend, taken)
    }
}

/// The state of the application: the backend's inbound queue, the responder
/// registration, and the session registry.
#[verifier::reject_recursive_types(C)]
pub struct AppState<C> {
    /// The backend's inbound command queue.
    pub command_tx: UnboundedSender<CommandEvent<C>>,
    /// Set once the reconciliation loop runs.
    pub command_responder: Option<AppCommandResponder>,
    /// The sessions.
    pub chats: Registry,
}

/// Whether `post` is `pre` with `response` reconciled into its registry, and
/// nothing else changed.
pub open spec fn reconciled<C>(
    pre: AppState<C>,
    post: AppState<C>,
    response: EnvelopeView,
) -> bool {
    &&& post.chats@ == reconcile(pre.chats@, response)
    &&& post.command_tx == pre.command_tx
    &&& post.command_responder == pre.command_responder
}

/// What a dispatch reports for each answer of the queue: a record that was
/// handed back means that the backend has stopped.
pub open spec fn outcome_of<C>(sent: Result<(), CommandEvent<C>>) -> Result<(), Error> {
    match sent {
        Ok(()) => Ok(()),
        Err(_) => Err(Error::DispatchChannelClosed),
    }
}

/// Whether `res` is what a dispatch reports after offering `event` to
/// `queue`: the record was offered, and `res` is what `outcome_of` makes of
/// the queue's answer.
pub open spec fn dispatched<C>(
    queue: UnboundedSender<CommandEvent<C>>,
    event: CommandEvent<C>,
    res: Result<(), Error>,
) -> bool {
    exists|sent: Result<(), CommandEvent<C>>| #[trigger]
        offered(queue, event, sent) && res == outcome_of(sent)
}

/// What `dispatch` reports for each outcome of handing the record to the
/// queue.
pub fn dispatch_outcome<C>(sent: Result<(), CommandEvent<C>>) -> (res: Result<(), Error>)
    ensures
        res == outcome_of(sent),
{
    match sent {
        Ok(()) => Ok(()),
        Err(_) => Err(Error::DispatchChannelClosed),
    }
}

impl<C> AppState<C> {
    /// The state at startup: no sessions, and no reconciliation loop yet.
    pub fn new(command_tx: UnboundedSender<CommandEvent<C>>) -> (res: Self)
        ensures
            res.command_tx == command_tx,
            res.command_responder is None,
            res.chats@ == Map::<SessionId, ChatView>::empty(),
    {
        AppState { command_tx, command_responder: None, chats: Registry::new() }
    }

    /// Offers `event` to the backend's inbound queue, which files it behind
    /// every record it took before. Never blocks. Fails only if the queue
    /// has been torn down, which means that the backend has stopped.
    pub fn dispatch(&self, event: CommandEvent<C>) -> (res: Result<(), Error>)
        ensures
            dispatched(self.command_tx, event, res),
            res is Err ==> res == Err::<(), Error>(Error::DispatchChannelClosed),
    {
        let sent = offer(&self.command_tx, event);
        assert(offered(self.command_tx, event, sent));
        dispatch_outcome(sent)
    }

    /// Reconciles one envelope into the registry.
    pub fn handle_response(&mut self, response: CommandResponseWithUuid) -> (res: Result<
        (),
        Error,
    >)
        ensures
            res == verdict(old(self).chats@, response@.session_id),
            reconciled(*old(self), *final(self), response@),
    {
        let uuid = response.session_id;
        match response.content {
            CommandResponseDef::Chat(msg) => actions::chat_message(self, uuid, msg),
            CommandResponseDef::Activity(state) => actions::activity_update(self, uuid, state),
            CommandResponseDef::RenameChat(name) => actions::rename_chat(self, uuid, name),
            CommandResponseDef::RenameBranch(name) => actions::rename_branch(self, uuid, name),
            CommandResponseDef::Completed => actions::completed(self, uuid),
            CommandResponseDef::BackendMessage(msg) => actions::backend_message(self, uuid, msg),
        }
    }

    /// Reconciles a run of envelopes in order and reports the session ids of
    /// those that named no session. Such an envelope is dropped; the ones
    /// after it are reconciled all the same.
    pub fn handle_responses(&mut self, responses: Vec<CommandResponseWithUuid>) -> (missed: Vec<
        SessionId,
    >)
        ensures
            final(self).chats@ == reconcile_all(old(self).chats@, envelope_views(responses@)),
            missed@ == unmatched(old(self).chats@, envelope_views(responses@)),
            final(self).command_tx == old(self).command_tx,
            final(self).command_responder == old(self).command_responder,
    {
        let mut missed: Vec<SessionId> = Vec::new();
        let ghost all = envelope_views(responses@);
        for response in iter: responses
            invariant
                envelope_views(iter.seq()) == all,
                self.chats@ == reconcile_all(old(self).chats@, all.take(iter.index() as int)),
                missed@ == unmatched(old(self).chats@, all.take(iter.index() as int)),
                self.command_tx == old(self).command_tx,
                self.command_responder == old(self).command_responder,
        {
            proof {
                assert(all.take(iter.index() + 1).drop_last() == all.take(iter.index() as int));
                assert(all.take(iter.index() + 1).last() == response@);
                lemma_reconcile_all_keeps_sessions(old(self).chats@, all.take(iter.index() as int));
            }
            let session_id = response.session_id;
            if self.handle_response(response).is_err() {
                missed.push(session_id);
            }
        }
        proof {
            assert(all.take(all.len() as int) == all);
        }
        missed
    }

    /// Whether the reconciliation loop has been registered.
    pub fn responder_started(&self) -> (res: bool)
        ensures
            res == self.command_responder is Some,
    {
        self.command_responder.is_some()
    }

    /// The responder for a command issued for session `uuid` by an interface
    /// that listens on `channel`. The reconciliation loop must have been
    /// registered first: to ask for a responder before that is a mistake in
    /// the order of startup.
    pub fn responder_from_channel(&self, uuid: SessionId, channel: C) -> (res:
        TauriCommandResponder<C>)
        requires
            self.command_responder is Some,
        ensures
            res.spec_session_id() == uuid,
            res.spec_frontend() == channel,
            res.spec_backend() == self.command_responder->0.queue(),
    {
        let app_responder = self.command_responder.as_ref().unwrap().sender();
        TauriCommandResponder::new(uuid, channel, app_responder)
    }

    /// Registers the reconciliation loop: `tx` is the sending half of the
    /// queue that the loop drains, `handle` the task that runs it. From now
    /// on responders can be made.
    pub fn spawn_responder(
        &mut self,
        tx: UnboundedSender<CommandResponseWithUuid>,
        handle: AbortOnDropHandle<()>,
    )
        ensures
            final(self).command_responder is Some,
            *final(self).command_responder->0.queue() == tx,
            final(self).command_responder->0.task() == handle,
            final(self).command_tx == old(self).command_tx,
            final(self).chats@ == old(self).chats@,
    {
        self.command_responder = Some(AppCommandResponder::new(tx, handle));
    }
}

} // verus!
