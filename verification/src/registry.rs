//! The session registry: at most one session per id.
use crate::chat::{fresh_chat, Chat, ChatView, SessionId};
use std::collections::HashMap;
use vstd::prelude::*;

verus! {

broadcast use vstd::std_specs::hash::group_hash_axioms;

/// Maps each session id to its session.
///
/// Every session is filed under its own id; nothing outside this type can
/// reach a session mutably, so the filing cannot be disturbed.
pub struct Registry {
    chats: HashMap<SessionId, Chat>,
}

impl View for Registry {
    type V = Map<SessionId, ChatView>;

    closed spec fn view(&self) -> Map<SessionId, ChatView> {
        Map::new(|id: SessionId| self.chats@.contains_key(id), |id: SessionId| self.chats@[id]@)
    }
}

impl Registry {
    #[verifier::type_invariant]
    spec fn filed_under_own_id(self) -> bool {
        forall|id: SessionId| #[trigger]
            self.chats@.contains_key(id) ==> self.chats@[id]@.uuid == id
    }

    /// A registry without sessions.
    pub fn new() -> (res: Self)
        ensures
            res@ == Map::<SessionId, ChatView>::empty(),
    {
        let res = Registry { chats: HashMap::new() };
        assert(res@ =~= Map::<SessionId, ChatView>::empty());
        res
    }

    /// The number of sessions.
    pub fn len(&self) -> (res: usize)
        ensures
            self@.dom().finite(),
            res == self@.len(),
    {
        assert(self@.dom() =~= self.chats@.dom());
        self.chats.len()
    }

    /// Whether a session is filed under `id`.
    pub fn contains(&self, id: SessionId) -> (res: bool)
        ensures
            res == self@.contains_key(id),
    {
        self.chats.contains_key(&id)
    }

    /// The session filed under `id`, if there is one.
    pub fn find(&self, id: SessionId) -> (res: Option<&Chat>)
        ensures
            res is Some == self@.contains_key(id),
            res matches Some(chat) ==> chat@ == self@[id] && chat@.uuid == id,
    {
        proof {
            use_type_invariant(self);
        }
        self.chats.get(&id)
    }

    /// Files a session that was made elsewhere under its own id. Filing a
    /// second session under an id is a mistake of the caller, who can ask
    /// `contains` first.
    pub fn insert(&mut self, chat: Chat)
        requires
            !old(self)@.contains_key(chat@.uuid),
        ensures
            final(self)@ == old(self)@.insert(chat@.uuid, chat@),
    {
        self.attach(chat);
    }

    /// Creates the session `id`, files it and hands it out to be read.
    /// Creating a session twice is a mistake of the caller, who can ask
    /// `contains` first.
    pub fn create(&mut self, id: SessionId) -> (res: &Chat)
        requires
            !old(self)@.contains_key(id),
        ensures
            final(self)@ == old(self)@.insert(id, fresh_chat(id)),
            res@ == fresh_chat(id),
    {
        self.attach(Chat::new(id));
        assert(self@.contains_key(id) && self@[id] == fresh_chat(id));
        let found = self.chats.get(&id);
        found.unwrap()
    }

    /// Sets the display name of session `id`; tells whether there is such a
    /// session.
    pub fn rename(&mut self, id: SessionId, name: String) -> (found: bool)
        ensures
            found == old(self)@.contains_key(id),
            found ==> final(self)@ == old(self)@.insert(
                id,
                ChatView { name: name@, ..old(self)@[id] },
            ),
            !found ==> final(self)@ == old(self)@,
    {
        match self.detach(id) {
            Some(mut chat) => {
                chat.set_name(name);
                self.attach(chat);
                assert(self@ =~= old(self)@.insert(id, ChatView { name: name@, ..old(self)@[id] }));
                true
            },
            None => false,
        }
    }

    /// Takes the session `id` out of the registry, to be changed and filed
    /// again with `attach`.
    ///
    /// The map is moved out of the registry while it is changed, so that the
    /// registry holds a well-filed map at every moment.
    pub(crate) fn detach(&mut self, id: SessionId) -> (res: Option<Chat>)
        ensures
            res is Some == old(self)@.contains_key(id),
            res matches Some(chat) ==> chat@ == old(self)@[id] && chat@.uuid == id,
            final(self)@ == old(self)@.remove(id),
    {
        proof {
            use_type_invariant(&*self);
        }
        let mut chats: HashMap<SessionId, Chat> = HashMap::new();
        core::mem::swap(&mut self.chats, &mut chats);
        let res = chats.remove(&id);
        core::mem::swap(&mut self.chats, &mut chats);
        assert(self@ =~= old(self)@.remove(id));
        res
    }

    /// Files `chat` under its own id, in place of any session that was there.
    pub(crate) fn attach(&mut self, chat: Chat)
        ensures
            final(self)@ == old(self)@.insert(chat@.uuid, chat@),
    {
        proof {
            use_type_invariant(&*self);
        }
        let id = chat.uuid();
        let mut chats: HashMap<SessionId, Chat> = HashMap::new();
        core::mem::swap(&mut self.chats, &mut chats);
        chats.insert(id, chat);
        core::mem::swap(&mut self.chats, &mut chats);
        assert(self@ =~= old(self)@.insert(chat@.uuid, chat@));
    }
}

} // verus!
