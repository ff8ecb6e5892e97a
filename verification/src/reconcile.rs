//! What applying backend responses to the session registry means.
//!
//! The functions of this file are the mathematical account of
//! reconciliation; the executable code is proved to follow it.
use crate::app_state::{EnvelopeView, ResponseView};
use crate::chat::{system_message, ChatMessageView, ChatState, ChatView, SessionId};
use crate::commands::Error;
use vstd::prelude::*;

verus! {

/// A session after one response has been applied to it.
pub open spec fn apply_response(chat: ChatView, content: ResponseView) -> ChatView {
    match content {
        ResponseView::Chat(message) => ChatView { messages: chat.messages.push(message), ..chat },
        ResponseView::Activity(_) => chat,
        ResponseView::RenameChat(name) => ChatView { name, ..chat },
        ResponseView::RenameBranch(name) => ChatView { branch_name: Some(name), ..chat },
        ResponseView::BackendMessage(text) => ChatView {
            messages: chat.messages.push(system_message(text)),
            ..chat
        },
        ResponseView::Completed => ChatView { state: ChatState::Ready, ..chat },
    }
}

/// The registry after one envelope has been reconciled: the session it names
/// takes the response, every other session stays as it is, and an envelope
/// for a session that does not exist changes nothing.
pub open spec fn reconcile(chats: Map<SessionId, ChatView>, response: EnvelopeView) -> Map<
    SessionId,
    ChatView,
> {
    if chats.contains_key(response.session_id) {
        chats.insert(
            response.session_id,
            apply_response(chats[response.session_id], response.content),
        )
    } else {
        chats
    }
}

/// What reconciling a response for `session_id` reports.
pub open spec fn verdict(chats: Map<SessionId, ChatView>, session_id: SessionId) -> Result<
    (),
    Error,
> {
    if chats.contains_key(session_id) {
        Ok(())
    } else {
        Err(Error::SessionNotFound(session_id))
    }
}

/// The registry after a run of envelopes has been reconciled in order.
pub open spec fn reconcile_all(
    chats: Map<SessionId, ChatView>,
    responses: Seq<EnvelopeView>,
) -> Map<SessionId, ChatView>
    decreases responses.len(),
{
    if responses.len() == 0 {
        chats
    } else {
        reconcile(reconcile_all(chats, responses.drop_last()), responses.last())
    }
}

/// The session ids, in order, of the envelopes that name no session of
/// `chats`.
pub open spec fn unmatched(chats: Map<SessionId, ChatView>, responses: Seq<EnvelopeView>) -> Seq<
    SessionId,
>
    decreases responses.len(),
{
    if responses.len() == 0 {
        Seq::empty()
    } else if chats.contains_key(responses.last().session_id) {
        unmatched(chats, responses.drop_last())
    } else {
        unmatched(chats, responses.drop_last()).push(responses.last().session_id)
    }
}

/// The responses, in order, of the envelopes of `responses` that are
/// addressed to session `id`.
pub open spec fn addressed_to(responses: Seq<EnvelopeView>, id: SessionId) -> Seq<ResponseView>
    decreases responses.len(),
{
    if responses.len() == 0 {
        Seq::empty()
    } else if responses.last().session_id == id {
        addressed_to(responses.drop_last(), id).push(responses.last().content)
    } else {
        addressed_to(responses.drop_last(), id)
    }
}

/// A session after a run of responses has been applied to it in order.
pub open spec fn apply_all(chat: ChatView, contents: Seq<ResponseView>) -> ChatView
    decreases contents.len(),
{
    if contents.len() == 0 {
        chat
    } else {
        apply_response(apply_all(chat, contents.drop_last()), contents.last())
    }
}

/// The messages, in order, that a run of responses adds to a transcript.
pub open spec fn transcript_of(contents: Seq<ResponseView>) -> Seq<ChatMessageView>
    decreases contents.len(),
{
    if contents.len() == 0 {
        Seq::empty()
    } else {
        match contents.last() {
            ResponseView::Chat(message) => transcript_of(contents.drop_last()).push(message),
            ResponseView::BackendMessage(text) => transcript_of(contents.drop_last()).push(
                system_message(text),
            ),
            _ => transcript_of(contents.drop_last()),
        }
    }
}

/// The envelope that carries `message` to session `id`.
pub open spec fn chat_envelope(id: SessionId, message: ChatMessageView) -> EnvelopeView {
    EnvelopeView { session_id: id, content: ResponseView::Chat(message) }
}

/// The envelope that renames session `id` to `name`.
pub open spec fn rename_envelope(id: SessionId, name: Seq<char>) -> EnvelopeView {
    EnvelopeView { session_id: id, content: ResponseView::RenameChat(name) }
}

/// The envelope that reports the command of session `id` completed.
pub open spec fn completed_envelope(id: SessionId) -> EnvelopeView {
    EnvelopeView { session_id: id, content: ResponseView::Completed }
}

/// Whether `merged` is an interleaving of two streams: `left`, all of it
/// addressed to session `a`, and `right`, all of it addressed to session `b`.
/// Each stream keeps its own order; how the two are woven together is free.
pub open spec fn interleaves(
    merged: Seq<EnvelopeView>,
    a: SessionId,
    left: Seq<ResponseView>,
    b: SessionId,
    right: Seq<ResponseView>,
) -> bool
    decreases merged.len(),
{
    if merged.len() == 0 {
        left.len() == 0 && right.len() == 0
    } else {
        ||| {
            &&& left.len() > 0
            &&& merged.last() == (EnvelopeView { session_id: a, content: left.last() })
            &&& interleaves(merged.drop_last(), a, left.drop_last(), b, right)
        }
        ||| {
            &&& right.len() > 0
            &&& merged.last() == (EnvelopeView { session_id: b, content: right.last() })
            &&& interleaves(merged.drop_last(), a, left, b, right.drop_last())
        }
    }
}

/// Reconciliation neither creates nor removes a session.
pub proof fn lemma_reconcile_all_keeps_sessions(
    chats: Map<SessionId, ChatView>,
    responses: Seq<EnvelopeView>,
)
    ensures
        reconcile_all(chats, responses).dom() == chats.dom(),
    decreases responses.len(),
{
    if responses.len() > 0 {
        lemma_reconcile_all_keeps_sessions(chats, responses.drop_last());
        let before = reconcile_all(chats, responses.drop_last());
        assert(reconcile(before, responses.last()).dom() =~= before.dom());
    }
}

/// A session never changes its id, whatever is applied to it.
pub proof fn lemma_apply_all_keeps_id(chat: ChatView, contents: Seq<ResponseView>)
    ensures
        apply_all(chat, contents).uuid == chat.uuid,
    decreases contents.len(),
{
    if contents.len() > 0 {
        lemma_apply_all_keeps_id(chat, contents.drop_last());
    }
}

/// Reconciling an envelope changes no session's id.
pub proof fn lemma_reconcile_keeps_ids(
    chats: Map<SessionId, ChatView>,
    response: EnvelopeView,
    id: SessionId,
)
    requires
        chats.contains_key(id),
    ensures
        reconcile(chats, response).contains_key(id),
        reconcile(chats, response)[id].uuid == chats[id].uuid,
{
}

/// An envelope for a session that the registry does not hold is reported as
/// `SessionNotFound` and leaves every session as it was.
pub proof fn lemma_unknown_session_changes_nothing(
    chats: Map<SessionId, ChatView>,
    response: EnvelopeView,
)
    requires
        !chats.contains_key(response.session_id),
    ensures
        verdict(chats, response.session_id) == Err::<(), Error>(
            Error::SessionNotFound(response.session_id),
        ),
        reconcile(chats, response) == chats,
{
}

/// Applying an envelope touches no session but the one it names.
pub proof fn lemma_reconcile_touches_one_session(
    chats: Map<SessionId, ChatView>,
    response: EnvelopeView,
    other: SessionId,
)
    requires
        other != response.session_id,
    ensures
        reconcile(chats, response).contains_key(other) == chats.contains_key(other),
        chats.contains_key(other) ==> reconcile(chats, response)[other] == chats[other],
{
}

/// After any run of envelopes, for any number of sessions woven together in
/// any way, each session is what its own responses, in their own order, make
/// of it: the envelopes of other sessions leave no trace in it.
pub proof fn lemma_session_follows_its_own_responses(
    chats: Map<SessionId, ChatView>,
    responses: Seq<EnvelopeView>,
    id: SessionId,
)
    requires
        chats.contains_key(id),
    ensures
        reconcile_all(chats, responses).contains_key(id),
        reconcile_all(chats, responses)[id] == apply_all(chats[id], addressed_to(responses, id)),
    decreases responses.len(),
{
    lemma_reconcile_all_keeps_sessions(chats, responses);
    if responses.len() > 0 {
        let earlier = responses.drop_last();
        lemma_session_follows_its_own_responses(chats, earlier, id);
        lemma_reconcile_all_keeps_sessions(chats, earlier);
        if responses.last().session_id == id {
            let own = addressed_to(earlier, id);
            assert(own.push(responses.last().content).drop_last() == own);
        }
    }
}

/// The transcript of a session grows by exactly the messages that its
/// responses carry, in their order: none is lost, none is doubled, and what
/// was there stays in front.
pub proof fn lemma_transcript_grows_by_its_messages(chat: ChatView, contents: Seq<ResponseView>)
    ensures
        apply_all(chat, contents).messages == chat.messages + transcript_of(contents),
    decreases contents.len(),
{
    if contents.len() == 0 {
        assert(chat.messages + Seq::<ChatMessageView>::empty() =~= chat.messages);
    } else {
        let earlier = contents.drop_last();
        lemma_transcript_grows_by_its_messages(chat, earlier);
        let before = chat.messages + transcript_of(earlier);
        match contents.last() {
            ResponseView::Chat(message) => {
                assert(before.push(message) =~= chat.messages + transcript_of(earlier).push(
                    message,
                ));
            },
            ResponseView::BackendMessage(text) => {
                assert(before.push(system_message(text)) =~= chat.messages + transcript_of(
                    earlier,
                ).push(system_message(text)));
            },
            _ => {},
        }
    }
}

/// Chat messages delivered to one session, however many, are appended to
/// its transcript in the order of delivery, and nothing else changes: a
/// session that was empty holds exactly these messages afterwards.
pub proof fn lemma_chat_messages_land_in_order(
    chats: Map<SessionId, ChatView>,
    id: SessionId,
    messages: Seq<ChatMessageView>,
)
    requires
        chats.contains_key(id),
    ensures
        reconcile_all(chats, messages.map_values(|m: ChatMessageView| chat_envelope(id, m)))
            == chats.insert(
            id,
            ChatView { messages: chats[id].messages + messages, ..chats[id] },
        ),
        reconcile_all(
            chats,
            messages.map_values(|m: ChatMessageView| chat_envelope(id, m)),
        )[id].messages.len() == chats[id].messages.len() + messages.len(),
        chats[id].messages.len() == 0 ==> reconcile_all(
            chats,
            messages.map_values(|m: ChatMessageView| chat_envelope(id, m)),
        )[id].messages == messages,
    decreases messages.len(),
{
    let envelopes = messages.map_values(|m: ChatMessageView| chat_envelope(id, m));
    if chats[id].messages.len() == 0 {
        assert(chats[id].messages + messages =~= messages);
    }
    if messages.len() == 0 {
        assert(chats[id].messages + messages =~= chats[id].messages);
        assert(chats.insert(id, chats[id]) =~= chats);
    } else {
        let earlier = messages.drop_last();
        lemma_chat_messages_land_in_order(chats, id, earlier);
        assert(envelopes.drop_last() =~= earlier.map_values(
            |m: ChatMessageView| chat_envelope(id, m),
        ));
        assert(envelopes.last() == chat_envelope(id, messages.last()));
        assert((chats[id].messages + earlier).push(messages.last()) =~= chats[id].messages
            + messages);
        let before = reconcile_all(chats, envelopes.drop_last());
        assert(reconcile(before, envelopes.last()) =~= chats.insert(
            id,
            ChatView { messages: chats[id].messages + messages, ..chats[id] },
        ));
    }
}

/// Of two renames of a session the second decides the name, and the
/// registry is the same as if the first had never arrived.
pub proof fn lemma_last_rename_wins(
    chats: Map<SessionId, ChatView>,
    id: SessionId,
    first: Seq<char>,
    second: Seq<char>,
)
    ensures
        reconcile(reconcile(chats, rename_envelope(id, first)), rename_envelope(id, second))
            == reconcile(chats, rename_envelope(id, second)),
        chats.contains_key(id) ==> reconcile(
            reconcile(chats, rename_envelope(id, first)),
            rename_envelope(id, second),
        )[id].name == second,
{
    let once = reconcile(chats, rename_envelope(id, first));
    assert(reconcile(once, rename_envelope(id, second)) =~= reconcile(
        chats,
        rename_envelope(id, second),
    ));
}

/// Renaming a session to the name it was just given changes nothing.
pub proof fn lemma_rename_is_idempotent(
    chats: Map<SessionId, ChatView>,
    id: SessionId,
    name: Seq<char>,
)
    ensures
        reconcile(reconcile(chats, rename_envelope(id, name)), rename_envelope(id, name))
            == reconcile(chats, rename_envelope(id, name)),
{
    lemma_last_rename_wins(chats, id, name, name);
}

/// A completed command leaves its session ready whatever the status was
/// before, and a second completion changes nothing.
pub proof fn lemma_completed_makes_ready(chats: Map<SessionId, ChatView>, id: SessionId)
    ensures
        chats.contains_key(id) ==> reconcile(chats, completed_envelope(id))[id]
            == (ChatView { state: ChatState::Ready, ..chats[id] }),
        reconcile(reconcile(chats, completed_envelope(id)), completed_envelope(id)) == reconcile(
            chats,
            completed_envelope(id),
        ),
{
    let once = reconcile(chats, completed_envelope(id));
    assert(reconcile(once, completed_envelope(id)) =~= once);
}

/// The responses that an interleaving holds for each of its two sessions
/// are that session's own stream, in its own order.
pub proof fn lemma_interleaving_keeps_each_stream(
    merged: Seq<EnvelopeView>,
    a: SessionId,
    left: Seq<ResponseView>,
    b: SessionId,
    right: Seq<ResponseView>,
)
    requires
        a != b,
        interleaves(merged, a, left, b, right),
    ensures
        addressed_to(merged, a) == left,
        addressed_to(merged, b) == right,
        forall|other: SessionId|
            other != a && other != b ==> #[trigger] addressed_to(merged, other)
                == Seq::<ResponseView>::empty(),
    decreases merged.len(),
{
    if merged.len() == 0 {
        assert(left =~= Seq::<ResponseView>::empty());
        assert(right =~= Seq::<ResponseView>::empty());
    } else {
        let earlier = merged.drop_last();
        if left.len() > 0 && merged.last() == (EnvelopeView {
            session_id: a,
            content: left.last(),
        }) && interleaves(earlier, a, left.drop_last(), b, right) {
            lemma_interleaving_keeps_each_stream(earlier, a, left.drop_last(), b, right);
            assert(left.drop_last().push(left.last()) =~= left);
        } else {
            lemma_interleaving_keeps_each_stream(earlier, a, left, b, right.drop_last());
            assert(right.drop_last().push(right.last()) =~= right);
        }
        assert forall|other: SessionId| other != a && other != b implies #[trigger] addressed_to(
            merged,
            other,
        ) == Seq::<ResponseView>::empty() by {
            assert(addressed_to(earlier, other) == Seq::<ResponseView>::empty());
        }
    }
}

/// Two producers that serve two distinct sessions may interleave freely:
/// each session ends up with what its own stream makes of it, with every
/// message of that stream in its transcript once and in order, and no other
/// session is touched.
pub proof fn lemma_interleaving_corrupts_nothing(
    chats: Map<SessionId, ChatView>,
    merged: Seq<EnvelopeView>,
    a: SessionId,
    left: Seq<ResponseView>,
    b: SessionId,
    right: Seq<ResponseView>,
)
    requires
        a != b,
        chats.contains_key(a),
        chats.contains_key(b),
        interleaves(merged, a, left, b, right),
    ensures
        reconcile_all(chats, merged) == chats.insert(a, apply_all(chats[a], left)).insert(
            b,
            apply_all(chats[b], right),
        ),
        reconcile_all(chats, merged)[a].messages == chats[a].messages + transcript_of(left),
        reconcile_all(chats, merged)[b].messages == chats[b].messages + transcript_of(right),
{
    let after = reconcile_all(chats, merged);
    let expected = chats.insert(a, apply_all(chats[a], left)).insert(
        b,
        apply_all(chats[b], right),
    );
    lemma_reconcile_all_keeps_sessions(chats, merged);
    lemma_interleaving_keeps_each_stream(merged, a, left, b, right);
    assert forall|id: SessionId| after.contains_key(id) implies #[trigger] after[id]
        == expected[id] by {
        lemma_session_follows_its_own_responses(chats, merged, id);
        if id != a && id != b {
            assert(addressed_to(merged, id) == Seq::<ResponseView>::empty());
        }
    }
    assert(after =~= expected);
    lemma_transcript_grows_by_its_messages(chats[a], left);
    lemma_transcript_grows_by_its_messages(chats[b], right);
}

} // verus!
