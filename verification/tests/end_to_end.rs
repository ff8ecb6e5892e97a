use session_sync::frontend_commands;
use session_sync::{
    AppState, Chat, ChatMessage, ChatRole, ChatState, Command, CommandEvent, CommandResponseDef,
    CommandResponseWithUuid,
};
use std::sync::mpsc::{channel, Sender};
use tokio::runtime::Builder;
use tokio::sync::mpsc::unbounded_channel;
use tokio_util::task::AbortOnDropHandle;

type Ui = Sender<CommandResponseWithUuid>;

const S1: u128 = 0x0123_4567_89ab_4def_8123_4567_89ab_cdef;

fn deliver(ui: &Ui, envelope: CommandResponseWithUuid) -> bool {
    ui.send(envelope).is_ok()
}

#[test]
fn a_chat_command_comes_back_as_a_message_and_a_ready_session() {
    let runtime = Builder::new_current_thread().build().unwrap();
    let (command_tx, mut command_rx) = unbounded_channel::<CommandEvent<Ui>>();
    let (mirror_tx, mut mirror_rx) = unbounded_channel();
    let mut state = AppState::new(command_tx);
    state.spawn_responder(mirror_tx, AbortOnDropHandle::new(runtime.spawn(async {})));

    let mut session = Chat::new(S1);
    session.transition(ChatState::Running);
    state.chats.insert(session);

    // The interface sends a chat message.
    let (ui, ui_rx) = channel();
    assert_eq!(frontend_commands::chat(&state, S1, "hello", ui), Ok(()));

    // The backend takes the command and answers through its responder.
    let event = command_rx.try_recv().unwrap();
    assert_eq!(*event.command(), Command::Chat { message: "hello".to_string() });
    assert_eq!(event.uuid(), S1);
    let responder = event.responder().unwrap();
    let answer = ChatMessage::new(ChatRole::Assistant, "hi back".to_string());
    responder.send(CommandResponseDef::Chat(answer.clone()), deliver);
    responder.send(CommandResponseDef::Completed, deliver);

    // The reconciliation loop drains the mirror.
    let mut drained = Vec::new();
    while let Ok(envelope) = mirror_rx.try_recv() {
        drained.push(envelope);
    }
    assert_eq!(drained.len(), 2);
    assert!(state.handle_responses(drained).is_empty());

    let session = state.chats.find(S1).unwrap();
    let texts: Vec<&str> = session.messages().iter().map(|m| m.content()).collect();
    assert_eq!(texts, vec!["hi back"]);
    assert_eq!(session.messages()[0], answer);
    assert_eq!(session.state(), ChatState::Ready);

    // The interface saw the same stream, tagged with the session.
    let seen: Vec<CommandResponseWithUuid> = ui_rx.try_iter().collect();
    assert_eq!(
        seen,
        vec![
            CommandResponseWithUuid::new(S1, CommandResponseDef::Chat(answer)),
            CommandResponseWithUuid::new(S1, CommandResponseDef::Completed),
        ]
    );
}
