use session_sync::{
    AppCommandResponder, AppState, ChatMessage, ChatRole, CommandEvent, CommandResponseDef,
    CommandResponseWithUuid, Delivery, TauriCommandResponder,
};
use std::sync::mpsc::{channel, Receiver, Sender};
use std::sync::Arc;
use tokio::runtime::{Builder, Runtime};
use tokio::sync::mpsc::{unbounded_channel, UnboundedReceiver};
use tokio::sync::oneshot;
use tokio_util::task::AbortOnDropHandle;

/// The interface's end of a subscription; dropping the receiver stands for an
/// interface that has navigated away.
type Ui = Sender<CommandResponseWithUuid>;

fn runtime() -> Runtime {
    Builder::new_current_thread().build().unwrap()
}

fn idle_task(runtime: &Runtime) -> AbortOnDropHandle<()> {
    AbortOnDropHandle::new(runtime.spawn(async {}))
}

fn deliver(ui: &Ui, envelope: CommandResponseWithUuid) -> bool {
    ui.send(envelope).is_ok()
}

fn started(
    runtime: &Runtime,
) -> (AppState<Ui>, UnboundedReceiver<CommandEvent<Ui>>, UnboundedReceiver<CommandResponseWithUuid>)
{
    let (command_tx, command_rx) = unbounded_channel();
    let (mirror_tx, mirror_rx) = unbounded_channel();
    let mut state = AppState::new(command_tx);
    state.spawn_responder(mirror_tx, idle_task(runtime));
    (state, command_rx, mirror_rx)
}

fn assistant(text: &str) -> CommandResponseDef {
    CommandResponseDef::Chat(ChatMessage::new(ChatRole::Assistant, text.to_string()))
}

fn drain(state: &mut AppState<Ui>, mirror: &mut UnboundedReceiver<CommandResponseWithUuid>) {
    while let Ok(envelope) = mirror.try_recv() {
        let _ = state.handle_response(envelope);
    }
}

fn texts(state: &AppState<Ui>, id: u128) -> Vec<String> {
    state.chats.find(id).unwrap().messages().iter().map(|m| m.content().to_string()).collect()
}

#[test]
fn spawn_responder_registers_the_reconciliation_queue() {
    let runtime = runtime();
    let (command_tx, _command_rx) = unbounded_channel::<CommandEvent<Ui>>();
    let mut state = AppState::new(command_tx);
    assert!(!state.responder_started());

    let (mirror_tx, mut mirror_rx) = unbounded_channel();
    state.spawn_responder(mirror_tx, idle_task(&runtime));
    assert!(state.responder_started());
    assert_eq!(state.chats.len(), 0);

    let sender = state.command_responder.as_ref().unwrap().sender();
    sender.send(CommandResponseWithUuid::new(3, CommandResponseDef::Completed)).unwrap();
    assert_eq!(
        mirror_rx.try_recv().unwrap(),
        CommandResponseWithUuid::new(3, CommandResponseDef::Completed)
    );
}

#[test]
fn dropping_the_registration_aborts_the_loop() {
    let runtime = runtime();
    let (mirror_tx, _mirror_rx) = unbounded_channel();
    let (alive, gone) = oneshot::channel::<()>();
    let task = runtime.spawn(async move {
        let _alive = alive;
        std::future::pending::<()>().await;
    });
    let registration = AppCommandResponder::new(mirror_tx, AbortOnDropHandle::new(task));

    drop(registration);

    // The task owned `alive`; it is dropped, unsent, when the task is aborted.
    assert!(runtime.block_on(gone).is_err());
}

#[test]
fn the_envelope_carries_the_session_id_and_the_response() {
    let (mirror_tx, _mirror_rx) = unbounded_channel();
    let (ui, _ui_rx) = channel::<CommandResponseWithUuid>();
    let responder = TauriCommandResponder::new(42, ui, Arc::new(mirror_tx));
    assert_eq!(responder.session_id(), 42);

    let envelope = responder.envelope(CommandResponseDef::RenameChat("x".to_string()));
    assert_eq!(envelope.session_id, 42);
    assert_eq!(envelope.content, CommandResponseDef::RenameChat("x".to_string()));
}

#[test]
fn send_mirrors_each_response_to_both_places() {
    let runtime = runtime();
    let (state, _command_rx, mut mirror_rx) = started(&runtime);
    let (ui, ui_rx): (Ui, Receiver<CommandResponseWithUuid>) = channel();
    let responder = state.responder_from_channel(42, ui);

    let first = responder.send(assistant("one"), deliver);
    let second = responder.send(CommandResponseDef::Completed, deliver);
    assert_eq!(first, Delivery { frontend: true, backend: true });
    assert_eq!(second, Delivery { frontend: true, backend: true });

    let expected = vec![
        CommandResponseWithUuid::new(42, assistant("one")),
        CommandResponseWithUuid::new(42, CommandResponseDef::Completed),
    ];
    let seen_by_ui: Vec<CommandResponseWithUuid> = ui_rx.try_iter().collect();
    assert_eq!(seen_by_ui, expected);
    let mut mirrored = Vec::new();
    while let Ok(envelope) = mirror_rx.try_recv() {
        mirrored.push(envelope);
    }
    assert_eq!(mirrored, expected);
}

#[test]
fn the_interface_is_handed_the_responders_own_handle() {
    let (mirror_tx, _mirror_rx) = unbounded_channel();
    let responder = TauriCommandResponder::new(1, 77u8, Arc::new(mirror_tx));
    assert_eq!(*responder.frontend(), 77);
    let outcome = responder.send(CommandResponseDef::Completed, |handle: &u8, envelope| {
        *handle == 77 && envelope.session_id == 1
    });
    assert!(outcome.frontend);
    let outcome = responder.send(CommandResponseDef::Completed, |handle: &u8, _| *handle == 0);
    assert!(!outcome.frontend);
}

#[test]
fn a_closed_interface_does_not_stop_the_mirror() {
    let runtime = runtime();
    let (mut state, _command_rx, mut mirror_rx) = started(&runtime);
    state.chats.create(1);
    let (ui, ui_rx) = channel();
    let responder = state.responder_from_channel(1, ui);

    let before = responder.send(assistant("seen live"), deliver);
    assert_eq!(before, Delivery { frontend: true, backend: true });
    assert_eq!(ui_rx.try_iter().count(), 1);

    drop(ui_rx);
    for text in ["after 1", "after 2", "after 3"] {
        let outcome = responder.send(assistant(text), deliver);
        assert_eq!(outcome, Delivery { frontend: false, backend: true });
    }

    drain(&mut state, &mut mirror_rx);
    assert_eq!(texts(&state, 1), vec!["seen live", "after 1", "after 2", "after 3"]);
}

#[test]
fn a_closed_mirror_does_not_stop_the_interface() {
    let runtime = runtime();
    let (state, _command_rx, mirror_rx) = started(&runtime);
    let (ui, ui_rx) = channel();
    let responder = state.responder_from_channel(1, ui);

    drop(mirror_rx);
    let outcome = responder.send(assistant("still live"), deliver);

    assert_eq!(outcome, Delivery { frontend: true, backend: false });
    let seen: Vec<CommandResponseWithUuid> = ui_rx.try_iter().collect();
    assert_eq!(seen, vec![CommandResponseWithUuid::new(1, assistant("still live"))]);
}

#[test]
fn with_both_places_closed_send_still_returns() {
    let runtime = runtime();
    let (state, _command_rx, mirror_rx) = started(&runtime);
    let (ui, ui_rx) = channel();
    let responder = state.responder_from_channel(1, ui);
    drop(mirror_rx);
    drop(ui_rx);
    let outcome = responder.send(CommandResponseDef::Completed, deliver);
    assert_eq!(outcome, Delivery { frontend: false, backend: false });
}

#[test]
fn responders_of_two_sessions_share_one_mirror_and_keep_their_ids() {
    let runtime = runtime();
    let (mut state, _command_rx, mut mirror_rx) = started(&runtime);
    state.chats.create(1);
    state.chats.create(2);
    let (ui_one, _rx_one) = channel();
    let (ui_two, _rx_two) = channel();
    let one = state.responder_from_channel(1, ui_one);
    let two = state.responder_from_channel(2, ui_two);

    one.send(assistant("a1"), deliver);
    two.send(assistant("b1"), deliver);
    two.send(assistant("b2"), deliver);
    one.send(assistant("a2"), deliver);
    two.send(CommandResponseDef::RenameChat("second".to_string()), deliver);

    drain(&mut state, &mut mirror_rx);
    assert_eq!(texts(&state, 1), vec!["a1", "a2"]);
    assert_eq!(texts(&state, 2), vec!["b1", "b2"]);
    assert_eq!(state.chats.find(1).unwrap().name(), "");
    assert_eq!(state.chats.find(2).unwrap().name(), "second");
}

#[test]
fn a_delivery_records_each_outcome_on_its_own() {
    let refused = || Err(CommandResponseWithUuid::new(1, CommandResponseDef::Completed));
    assert_eq!(Delivery::of(true, Ok(())), Delivery { frontend: true, backend: true });
    assert_eq!(Delivery::of(false, Ok(())), Delivery { frontend: false, backend: true });
    assert_eq!(Delivery::of(true, refused()), Delivery { frontend: true, backend: false });
    assert_eq!(Delivery::of(false, refused()), Delivery { frontend: false, backend: false });
}
