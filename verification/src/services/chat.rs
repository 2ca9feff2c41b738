//! Chat sessions: creating them, finding them, adding messages to them and
//! deleting them.
//!
//! The manager keeps the sessions in the order in which they were created.
//! A session is found by its identifier; should two sessions ever share
//! one, the older is the one that is found.

use crate::services::ai::{Message, MessageView};
use crate::utils::error::{AppError, AppErrorView, AppResult};
use crate::utils::text::same_text;
use vstd::prelude::*;

verus! {

/// A moment in time: the seconds since the start of 1970, UTC, and the
/// nanoseconds since the last full second.
#[derive(Debug, Clone, Copy, PartialEq, Eq, Structural)]
pub struct Timestamp {
    pub seconds: i64,
    pub nanos: u32,
}

/// Represents a chat session.
#[derive(Debug, PartialEq, Eq)]
pub struct ChatSession {
    /// Unique identifier for the session.
    pub id: String,
    /// Title of the chat session.
    pub title: String,
    /// Messages in the session.
    pub messages: Vec<Message>,
    /// When the session was created.
    pub created_at: Timestamp,
    /// When the session was last updated.
    pub updated_at: Timestamp,
}

/// A chat session as plain values.
pub struct ChatSessionView {
    pub id: Seq<char>,
    pub title: Seq<char>,
    pub messages: Seq<MessageView>,
    pub created_at: Timestamp,
    pub updated_at: Timestamp,
}

impl ChatSessionView {
    /// The session with `message` added at the end and `now` as the time of
    /// its last update.
    pub open spec fn with_message(self, message: MessageView, now: Timestamp) -> ChatSessionView {
        ChatSessionView {
            id: self.id,
            title: self.title,
            messages: self.messages.push(message),
            created_at: self.created_at,
            updated_at: now,
        }
    }
}

impl View for ChatSession {
    type V = ChatSessionView;

    open spec fn view(&self) -> ChatSessionView {
        ChatSessionView {
            id: self.id@,
            title: self.title@,
            messages: Seq::new(self.messages@.len(), |i: int| self.messages@[i]@),
            created_at: self.created_at,
            updated_at: self.updated_at,
        }
    }
}

impl Clone for ChatSession {
    fn clone(&self) -> (c: Self)
        ensures
            c@ == self@,
    {
        let mut messages: Vec<Message> = Vec::new();
        let mut i: usize = 0;
        while i < self.messages.len()
            invariant
                i <= self.messages@.len(),
                messages@.len() == i,
                forall|k: int| 0 <= k < i ==> (#[trigger] messages@[k])@ == self.messages@[k]@,
            decreases self.messages@.len() - i,
        {
            messages.push(self.messages[i].clone());
            i += 1;
        }
        let c = ChatSession {
            id: self.id.clone(),
            title: self.title.clone(),
            messages,
            created_at: self.created_at,
            updated_at: self.updated_at,
        };
        assert(c@.messages =~= self@.messages);
        c
    }
}

/// The place of the first session in `sessions` whose identifier is `id`,
/// or the length of `sessions` if there is none.
pub open spec fn session_index(sessions: Seq<ChatSessionView>, id: Seq<char>) -> int
    decreases sessions.len(),
{
    if sessions.len() == 0 {
        0
    } else if sessions[0].id == id {
        0
    } else {
        1 + session_index(sessions.drop_first(), id)
    }
}

/// What `session_index` finds: the first session with the identifier, and
/// no session before it has it.
pub proof fn lemma_session_index(sessions: Seq<ChatSessionView>, id: Seq<char>)
    ensures
        0 <= session_index(sessions, id) <= sessions.len(),
        session_index(sessions, id) < sessions.len() ==> sessions[session_index(sessions, id)].id
            == id,
        forall|i: int| 0 <= i < session_index(sessions, id) ==> (#[trigger] sessions[i]).id != id,
    decreases sessions.len(),
{
    if sessions.len() > 0 && sessions[0].id != id {
        let rest = sessions.drop_first();
        lemma_session_index(rest, id);
        assert forall|i: int| 0 <= i < session_index(sessions, id) implies (
        #[trigger] sessions[i]).id != id by {
            if i > 0 {
                assert(sessions[i] == rest[i - 1]);
            }
        }
    }
}

/// The words with which a session that does not exist is reported.
pub open spec fn session_not_found() -> AppErrorView {
    AppErrorView::NotFound("Chat session not found"@)
}

/// `uuid::Uuid::new_v4` draws a random identifier, and its `Display`
/// writes it in the hyphenated form: thirty-two hexadecimal digits in five
/// groups, thirty-six characters in all. Which identifier comes is not known.
#[verifier::external_body]
fn fresh_session_id() -> (id: String)
    ensures
        id@.len() == 36,
{
    uuid::Uuid::new_v4().to_string()
}

/// `chrono::Utc::now` reads the clock; `DateTime::timestamp` and
/// `DateTime::timestamp_subsec_nanos` give the moment as seconds and
/// nanoseconds. Nothing is claimed of the moment.
#[verifier::external_body]
fn now() -> (moment: Timestamp) {
    let moment = chrono::Utc::now();
    Timestamp { seconds: moment.timestamp(), nanos: moment.timestamp_subsec_nanos() }
}

/// Manages chat sessions.
#[derive(Debug)]
pub struct ChatManager {
    /// Active chat sessions, oldest first.
    sessions: Vec<ChatSession>,
}

impl View for ChatManager {
    type V = Seq<ChatSessionView>;

    /// The sessions, oldest first.
    closed spec fn view(&self) -> Seq<ChatSessionView> {
        Seq::new(self.sessions@.len(), |i: int| self.sessions@[i]@)
    }
}

impl ChatManager {
    /// Creates a new ChatManager instance, without sessions.
    pub fn new() -> (manager: Self)
        ensures
            manager@ == Seq::<ChatSessionView>::empty(),
    {
        let manager = ChatManager { sessions: Vec::new() };
        assert(manager@ =~= Seq::<ChatSessionView>::empty());
        manager
    }

    /// The place of the first session with identifier `id`, or the number
    /// of sessions if there is none.
    fn find(&self, id: &str) -> (at: usize)
        ensures
            at == session_index(self@, id@),
            at <= self@.len(),
            self@.len() == self.sessions@.len(),
    {
        let mut i: usize = 0;
        while i < self.sessions.len()
            invariant
                i <= self.sessions@.len(),
                self@.len() == self.sessions@.len(),
                forall|k: int| 0 <= k < i ==> (#[trigger] self@[k]).id != id@,
            decreases self.sessions@.len() - i,
        {
            if same_text(self.sessions[i].id.as_str(), id) {
                proof {
                    assert(self@[i as int].id == id@);
                    lemma_session_index(self@, id@);
                    let p = session_index(self@, id@);
                    if p > i {
                        assert(self@[i as int].id != id@);
                    }
                    if p < i {
                        assert(self@[p].id == id@);
                    }
                }
                return i;
            }
            i += 1;
        }
        proof {
            lemma_session_index(self@, id@);
            let p = session_index(self@, id@);
            if p < self@.len() {
                assert(self@[p].id == id@);
            }
        }
        i
    }

    /// Adds a session with the given identifier and title, created at
    /// `created`, after the sessions that are there, and returns a copy of it.
    /// The new session has no messages.
    pub fn open_session(&mut self, id: String, title: String, created: Timestamp) -> (session:
        ChatSession)
        ensures
            session@ == (ChatSessionView {
                id: id@,
                title: title@,
                messages: Seq::empty(),
                created_at: created,
                updated_at: created,
            }),
            final(self)@ == old(self)@.push(session@),
    {
        let session = ChatSession {
            id,
            title,
            messages: Vec::new(),
            created_at: created,
            updated_at: created,
        };
        assert(session@.messages =~= Seq::<MessageView>::empty());
        let copy = session.clone();
        let ghost before = self@;
        self.sessions.push(session);
        assert(self@ =~= before.push(copy@));
        copy
    }

    /// Creates a new chat session with a fresh random identifier, at the
    /// present moment, and returns a copy of it.
    ///
    /// The identifier and the moment are not known in advance; whatever
    /// they are, the session is added as [`ChatManager::open_session`] adds it.
    pub fn create_session(&mut self, title: String) -> (r: AppResult<ChatSession>)
        ensures
            r matches Ok(session) && session@.title == title@ && session@.messages.len() == 0
                && session@.id.len() == 36 && session@.updated_at == session@.created_at && final(self)@ == old(self)@.push(session@),
    {
        let id = fresh_session_id();
        let created = now();
        Ok(self.open_session(id, title, created))
    }

    /// Gets a copy of the chat session with identifier `id`, or `None` if
    /// there is no such session.
    pub fn get_session(&self, id: &str) -> (r: AppResult<Option<ChatSession>>)
        ensures
            r is Ok,
            session_index(self@, id@) < self@.len() ==> (r matches Ok(Some(session)) && session@
                == self@[session_index(self@, id@)]),
            session_index(self@, id@) >= self@.len() ==> r matches Ok(None),
    {
        let at = self.find(id);
        if at < self.sessions.len() {
            Ok(Some(self.sessions[at].clone()))
        } else {
            Ok(None)
        }
    }

    /// Lists copies of all chat sessions, oldest first.
    pub fn list_sessions(&self) -> (r: AppResult<Vec<ChatSession>>)
        ensures
            r matches Ok(list) && list@.len() == self@.len() && forall|i: int|
                0 <= i < self@.len() ==> (#[trigger] list@[i])@ == self@[i],
    {
        let mut list: Vec<ChatSession> = Vec::new();
        let mut i: usize = 0;
        while i < self.sessions.len()
            invariant
                i <= self.sessions@.len(),
                self@.len() == self.sessions@.len(),
                list@.len() == i,
                forall|k: int| 0 <= k < i ==> (#[trigger] list@[k])@ == self@[k],
            decreases self.sessions@.len() - i,
        {
            list.push(self.sessions[i].clone());
            i += 1;
        }
        Ok(list)
    }

    /// Adds `message` to the end of the session with identifier
    /// `session_id` and records `now` as the time of the session's last
    /// update. Without such a session nothing changes and the result is
    /// `NotFound`.
    pub fn append_message(&mut self, session_id: &str, message: Message, now: Timestamp) -> (r:
        AppResult<()>)
        ensures
            session_index(old(self)@, session_id@) < old(self)@.len() ==> r is Ok && final(self)@
                == old(self)@.update(
                session_index(old(self)@, session_id@),
                old(self)@[session_index(old(self)@, session_id@)].with_message(message@, now),
            ),
            session_index(old(self)@, session_id@) >= old(self)@.len() ==> (r matches Err(e) && e@
                == session_not_found()) && final(self)@ == old(self)@,
    {
        let at = self.find(session_id);
        if at < self.sessions.len() {
            let ghost before = self@;
            let mut session = self.sessions.remove(at);
            let ghost found = session@;
            assert(found == before[at as int]);
            session.messages.push(message);
            session.updated_at = now;
            assert(session@.messages =~= found.messages.push(message@));
            self.sessions.insert(at, session);
            assert(self@ =~= before.update(at as int, found.with_message(message@, now)));
            Ok(())
        } else {
            Err(AppError::not_found("Chat session not found"))
        }
    }

    /// Adds a message to a chat session, at the present moment.
    ///
    /// The moment is not known in advance; whatever it is, the message is
    /// added as [`ChatManager::append_message`] adds it.
    pub fn add_message(&mut self, session_id: &str, message: Message) -> (r: AppResult<()>)
        ensures
            session_index(old(self)@, session_id@) < old(self)@.len() ==> r is Ok && exists|
                now: Timestamp,
            |
                final(self)@ == old(self)@.update(
                    session_index(old(self)@, session_id@),
                    (#[trigger] old(self)@[session_index(old(self)@, session_id@)].with_message(
                        message@,
                        now,
                    )),
                ),
            session_index(old(self)@, session_id@) >= old(self)@.len() ==> (r matches Err(e) && e@
                == session_not_found()) && final(self)@ == old(self)@,
    {
        let moment = now();
        self.append_message(session_id, message, moment)
    }

    /// Deletes the chat session with identifier `id`. Without such a
    /// session nothing changes and the result is `NotFound`.
    pub fn delete_session(&mut self, id: &str) -> (r: AppResult<()>)
        ensures
            session_index(old(self)@, id@) < old(self)@.len() ==> r is Ok && final(self)@ == old(self)@.remove(session_index(old(self)@, id@)),
            session_index(old(self)@, id@) >= old(self)@.len() ==> (r matches Err(e) && e@
                == session_not_found()) && final(self)@ == old(self)@,
    {
        let at = self.find(id);
        if at < self.sessions.len() {
            let ghost before = self@;
            self.sessions.remove(at);
            assert(self@ =~= before.remove(at as int));
            Ok(())
        } else {
            Err(AppError::not_found("Chat session not found"))
        }
    }
}

impl Default for ChatManager {
    fn default() -> (manager: Self)
        ensures
            manager@ == Seq::<ChatSessionView>::empty(),
    {
        ChatManager::new()
    }
}

} // verus!
