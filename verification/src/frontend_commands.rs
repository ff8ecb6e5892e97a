//! The commands that the user interface can issue.
//!
//! Each one builds a record for the backend, with a responder that mirrors
//! the responses to the interface's handle and to the registry, and
//! dispatches it. All but `quit` need the reconciliation loop to be
//! registered, and all fail only if the backend's queue is gone.
use crate::app_state::{dispatched, AppState};
use crate::chat::SessionId;
use crate::commands::{Command, CommandEvent, CommandView, Error, NO_SESSION};
use crate::trusted::{fresh_session_id, is_random_uuid};
use vstd::prelude::*;

verus! {

/// Whether `event` is the record of `command` for session `uuid`, issued by
/// an interface that listens on `on_event`: its responder tags every
/// response with `uuid`, delivers to `on_event`, and mirrors to the
/// reconciliation queue that is registered in `state`.
pub open spec fn carries<C>(
    event: CommandEvent<C>,
    state: AppState<C>,
    command: CommandView,
    uuid: SessionId,
    on_event: C,
) -> bool {
    &&& event.spec_command()@ == command
    &&& event.spec_uuid() == uuid
    &&& event.spec_responder() is Some
    &&& event.spec_responder()->0.spec_session_id() == uuid
    &&& event.spec_responder()->0.spec_frontend() == on_event
    &&& state.command_responder is Some
    &&& event.spec_responder()->0.spec_backend() == state.command_responder->0.queue()
}

/// Whether `event` is the record that tells the backend to quit: it names
/// no session and has no responder.
pub open spec fn is_quit<C>(event: CommandEvent<C>) -> bool {
    &&& event.spec_command()@ == CommandView::Quit
    &&& event.spec_uuid() == NO_SESSION
    &&& event.spec_responder() is None
}

/// Whether `id` was drawn from the random source for session ids. Verus
/// learns this of a value only from a draw that was made: `draw_session_id`
/// makes it.
pub closed spec fn drawn(id: SessionId) -> bool {
    call_ensures(fresh_session_id, (), id)
}

/// Draws a fresh session id: the number of a random (version 4) UUID.
pub fn draw_session_id() -> (id: SessionId)
    ensures
        drawn(id),
        is_random_uuid(id),
{
    let draw = fresh_session_id;
    draw()
}

/// Tells the backend to quit.
pub fn quit<C>(state: &AppState<C>) -> (res: Result<(), Error>)
    ensures
        exists|event: CommandEvent<C>| #[trigger]
            dispatched(state.command_tx, event, res) && is_quit(event),
        res is Err ==> res == Err::<(), Error>(Error::DispatchChannelClosed),
{
    let event = CommandEvent::quit();
    let res = state.dispatch(event);
    assert(dispatched(state.command_tx, event, res) && is_quit(event));
    res
}

/// Asks for the configuration used in a session.
pub fn show_config<C>(state: &AppState<C>, current_chat: SessionId, on_event: C) -> (res: Result<
    (),
    Error,
>)
    requires
        state.command_responder is Some,
    ensures
        exists|event: CommandEvent<C>| #[trigger]
            dispatched(state.command_tx, event, res) && carries(
                event,
                *state,
                CommandView::ShowConfig,
                current_chat,
                on_event,
            ),
        res is Err ==> res == Err::<(), Error>(Error::DispatchChannelClosed),
{
    let responder = state.responder_from_channel(current_chat, on_event);
    let event = CommandEvent::new(Command::ShowConfig, current_chat, responder);
    let res = state.dispatch(event);
    assert(dispatched(state.command_tx, event, res) && carries(
        event,
        *state,
        CommandView::ShowConfig,
        current_chat,
        on_event,
    ));
    res
}

/// Forces the repository to be indexed. Indexing concerns no session, so the
/// command goes out under a fresh random id.
pub fn index_repository<C>(state: &AppState<C>, on_event: C) -> (res: Result<(), Error>)
    requires
        state.command_responder is Some,
    ensures
        exists|event: CommandEvent<C>| #[trigger]
            dispatched(state.command_tx, event, res) && drawn(event.spec_uuid())
                && is_random_uuid(event.spec_uuid()) && carries(
                    event,
                    *state,
                    CommandView::IndexRepository,
                    event.spec_uuid(),
                    on_event,
                ),
        res is Err ==> res == Err::<(), Error>(Error::DispatchChannelClosed),
{
    let some_uuid = draw_session_id();
    let responder = state.responder_from_channel(some_uuid, on_event);
    let event = CommandEvent::new(Command::IndexRepository, some_uuid, responder);
    let res = state.dispatch(event);
    assert(dispatched(state.command_tx, event, res) && drawn(event.spec_uuid())
        && is_random_uuid(event.spec_uuid()) && carries(
        event,
        *state,
        CommandView::IndexRepository,
        event.spec_uuid(),
        on_event,
    ));
    res
}

/// Stops the agent of a session, so that the user can chat again.
pub fn stop_agent<C>(state: &AppState<C>, current_chat: SessionId, on_event: C) -> (res: Result<
    (),
    Error,
>)
    requires
        state.command_responder is Some,
    ensures
        exists|event: CommandEvent<C>| #[trigger]
            dispatched(state.command_tx, event, res) && carries(
                event,
                *state,
                CommandView::StopAgent,
                current_chat,
                on_event,
            ),
        res is Err ==> res == Err::<(), Error>(Error::DispatchChannelClosed),
{
    let responder = state.responder_from_channel(current_chat, on_event);
    let event = CommandEvent::new(Command::StopAgent, current_chat, responder);
    let res = state.dispatch(event);
    assert(dispatched(state.command_tx, event, res) && carries(
        event,
        *state,
        CommandView::StopAgent,
        current_chat,
        on_event,
    ));
    res
}

/// Sends a chat message to a session.
pub fn chat<C>(state: &AppState<C>, current_chat: SessionId, message: &str, on_event: C) -> (res:
    Result<(), Error>)
    requires
        state.command_responder is Some,
    ensures
        exists|event: CommandEvent<C>| #[trigger]
            dispatched(state.command_tx, event, res) && carries(
                event,
                *state,
                CommandView::Chat { message: message@ },
                current_chat,
                on_event,
            ),
        res is Err ==> res == Err::<(), Error>(Error::DispatchChannelClosed),
{
    let responder = state.responder_from_channel(current_chat, on_event);
    let event = CommandEvent::new(
        Command::Chat { message: message.to_owned() },
        current_chat,
        responder,
    );
    let res = state.dispatch(event);
    assert(dispatched(state.command_tx, event, res) && carries(
        event,
        *state,
        CommandView::Chat { message: message@ },
        current_chat,
        on_event,
    ));
    res
}

/// Asks for the changes that the agent of a session has made.
pub fn diff<C>(state: &AppState<C>, current_chat: SessionId, on_event: C) -> (res: Result<
    (),
    Error,
>)
    requires
        state.command_responder is Some,
    ensures
        exists|event: CommandEvent<C>| #[trigger]
            dispatched(state.command_tx, event, res) && carries(
                event,
                *state,
                CommandView::Diff,
                current_chat,
                on_event,
            ),
        res is Err ==> res == Err::<(), Error>(Error::DispatchChannelClosed),
{
    let responder = state.responder_from_channel(current_chat, on_event);
    let event = CommandEvent::new(Command::Diff, current_chat, responder);
    let res = state.dispatch(event);
    assert(dispatched(state.command_tx, event, res) && carries(
        event,
        *state,
        CommandView::Diff,
        current_chat,
        on_event,
    ));
    res
}

/// Runs a shell command in the context of a session's agent.
pub fn exec<C>(state: &AppState<C>, current_chat: SessionId, cmd: &str, on_event: C) -> (res:
    Result<(), Error>)
    requires
        state.command_responder is Some,
    ensures
        exists|event: CommandEvent<C>| #[trigger]
            dispatched(state.command_tx, event, res) && carries(
                event,
                *state,
                CommandView::Exec { cmd: cmd@ },
                current_chat,
                on_event,
            ),
        res is Err ==> res == Err::<(), Error>(Error::DispatchChannelClosed),
{
    let responder = state.responder_from_channel(current_chat, on_event);
    let event = CommandEvent::new(Command::Exec { cmd: cmd.to_owned() }, current_chat, responder);
    let res = state.dispatch(event);
    assert(dispatched(state.command_tx, event, res) && carries(
        event,
        *state,
        CommandView::Exec { cmd: cmd@ },
        current_chat,
        on_event,
    ));
    res
}

/// Retries the last chat completion of a session.
pub fn retry_chat<C>(state: &AppState<C>, current_chat: SessionId, on_event: C) -> (res: Result<
    (),
    Error,
>)
    requires
        state.command_responder is Some,
    ensures
        exists|event: CommandEvent<C>| #[trigger]
            dispatched(state.command_tx, event, res) && carries(
                event,
                *state,
                CommandView::RetryChat,
                current_chat,
                on_event,
            ),
        res is Err ==> res == Err::<(), Error>(Error::DispatchChannelClosed),
{
    let responder = state.responder_from_channel(current_chat, on_event);
    let event = CommandEvent::new(Command::RetryChat, current_chat, responder);
    let res = state.dispatch(event);
    assert(dispatched(state.command_tx, event, res) && carries(
        event,
        *state,
        CommandView::RetryChat,
        current_chat,
        on_event,
    ));
    res
}

} // verus!
