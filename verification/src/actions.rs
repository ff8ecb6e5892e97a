//! The effect of each kind of response on the session it names.
//!
//! Every action first looks the session up and fails with
//! `Error::SessionNotFound` if there is none; the state is then untouched.
use crate::app_state::{reconciled, AppState, EnvelopeView, ResponseView};
use crate::chat::{ChatMessage, ChatState, SessionId};
use crate::commands::Error;
use crate::reconcile::{reconcile, verdict};
use vstd::prelude::*;

verus! {

/// A new message has arrived in a session: it is appended to the transcript.
pub fn chat_message<C>(
    state: &mut AppState<C>,
    session_id: SessionId,
    message: ChatMessage,
) -> (res: Result<(), Error>)
    ensures
        res == verdict(old(state).chats@, session_id),
        reconciled(
            *old(state),
            *final(state),
            EnvelopeView { session_id, content: ResponseView::Chat(message@) },
        ),
{
    let Some(mut chat) = state.chats.detach(session_id) else {
        assert(state.chats@ =~= old(state).chats@);
        return Err(Error::SessionNotFound(session_id));
    };
    chat.add_message(message);
    state.chats.attach(chat);
    assert(state.chats@ =~= reconcile(
        old(state).chats@,
        EnvelopeView { session_id, content: ResponseView::Chat(message@) },
    ));
    Ok(())
}

/// A short update on a running command. It is checked against the registry
/// and changes nothing.
pub fn activity_update<C>(
    state: &mut AppState<C>,
    session_id: SessionId,
    activity: String,
) -> (res: Result<(), Error>)
    ensures
        res == verdict(old(state).chats@, session_id),
        reconciled(
            *old(state),
            *final(state),
            EnvelopeView { session_id, content: ResponseView::Activity(activity@) },
        ),
{
    if !state.chats.contains(session_id) {
        return Err(Error::SessionNotFound(session_id));
    }
    assert(state.chats@ =~= state.chats@.insert(session_id, state.chats@[session_id]));
    Ok(())
}

/// A session has been renamed.
pub fn rename_chat<C>(
    state: &mut AppState<C>,
    session_id: SessionId,
    name: String,
) -> (res: Result<(), Error>)
    ensures
        res == verdict(old(state).chats@, session_id),
        reconciled(
            *old(state),
            *final(state),
            EnvelopeView { session_id, content: ResponseView::RenameChat(name@) },
        ),
{
    if state.chats.rename(session_id, name) {
        Ok(())
    } else {
        Err(Error::SessionNotFound(session_id))
    }
}

/// The branch of a session has been renamed.
pub fn rename_branch<C>(
    state: &mut AppState<C>,
    session_id: SessionId,
    name: String,
) -> (res: Result<(), Error>)
    ensures
        res == verdict(old(state).chats@, session_id),
        reconciled(
            *old(state),
            *final(state),
            EnvelopeView { session_id, content: ResponseView::RenameBranch(name@) },
        ),
{
    let Some(mut chat) = state.chats.detach(session_id) else {
        assert(state.chats@ =~= old(state).chats@);
        return Err(Error::SessionNotFound(session_id));
    };
    chat.set_branch_name(name);
    state.chats.attach(chat);
    assert(state.chats@ =~= reconcile(
        old(state).chats@,
        EnvelopeView { session_id, content: ResponseView::RenameBranch(name@) },
    ));
    Ok(())
}

/// The command that ran in a session has completed: the session is ready
/// for the user again, whatever its status was.
pub fn completed<C>(state: &mut AppState<C>, session_id: SessionId) -> (res: Result<(), Error>)
    ensures
        res == verdict(old(state).chats@, session_id),
        reconciled(
            *old(state),
            *final(state),
            EnvelopeView { session_id, content: ResponseView::Completed },
        ),
{
    let Some(mut chat) = state.chats.detach(session_id) else {
        assert(state.chats@ =~= old(state).chats@);
        return Err(Error::SessionNotFound(session_id));
    };
    chat.transition(ChatState::Ready);
    state.chats.attach(chat);
    assert(state.chats@ =~= reconcile(
        old(state).chats@,
        EnvelopeView { session_id, content: ResponseView::Completed },
    ));
    Ok(())
}

/// The backend itself has something to say: it is appended to the transcript
/// as a system message.
pub fn backend_message<C>(
    state: &mut AppState<C>,
    session_id: SessionId,
    message: String,
) -> (res: Result<(), Error>)
    ensures
        res == verdict(old(state).chats@, session_id),
        reconciled(
            *old(state),
            *final(state),
            EnvelopeView { session_id, content: ResponseView::BackendMessage(message@) },
        ),
{
    let Some(mut chat) = state.chats.detach(session_id) else {
        assert(state.chats@ =~= old(state).chats@);
        return Err(Error::SessionNotFound(session_id));
    };
    chat.add_message(ChatMessage::new_system(message));
    state.chats.attach(chat);
    assert(state.chats@ =~= reconcile(
        old(state).chats@,
        EnvelopeView { session_id, content: ResponseView::BackendMessage(message@) },
    ));
    Ok(())
}

} // verus!
