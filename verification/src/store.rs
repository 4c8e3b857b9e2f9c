//! Model of the collaborator-owned state this subsystem reads and
//! writes: chat rows, message rows, queued jobs, the event bus, and
//! the single wake-up task slot.

use vstd::prelude::*;

use crate::timer::Timer;

verus! {

/// Chat id of the trash chat: rows moved here are locally redacted.
pub const DC_CHAT_ID_TRASH: u32 = 3;

/// Largest reserved chat id; timers may not be set at or below it.
pub const DC_CHAT_ID_LAST_SPECIAL: u32 = 9;

/// Contact id of the user themselves ("saved messages" chat owner).
pub const DC_CONTACT_ID_SELF: u32 = 1;

/// Contact id of the device (client-generated notices).
pub const DC_CONTACT_ID_DEVICE: u32 = 5;

/// Upper bound on clock readings handed to this subsystem, far beyond
/// any real unix time; it keeps deadline arithmetic inside `i64`.
pub const MAX_CLOCK: i64 = 0x2000_0000_0000_0000;

/// Upper bound on stored expiry timestamps: a deadline is at most a
/// clock reading plus a timer duration, each below `MAX_CLOCK`.
pub const MAX_DEADLINE: i64 = 0x4000_0000_0000_0000;

/// Key of a chat row.
#[derive(Debug, PartialEq, Eq, Copy, Clone, Structural)]
pub struct ChatId(pub u32);

/// Key of a message row.
#[derive(Debug, PartialEq, Eq, Copy, Clone, Structural)]
pub struct MsgId(pub u32);

impl ChatId {
    pub fn new(id: u32) -> (r: ChatId)
        ensures
            r == ChatId(id),
    {
        ChatId(id)
    }

    /// Reserved pseudo-chats: the unset id, trash and the other
    /// special ids up to `DC_CHAT_ID_LAST_SPECIAL`.
    pub open spec fn spec_is_special(self) -> bool {
        self.0 <= DC_CHAT_ID_LAST_SPECIAL
    }

    #[verifier::when_used_as_spec(spec_is_special)]
    pub fn is_special(self) -> (r: bool)
        ensures
            r == self.spec_is_special(),
    {
        self.0 <= DC_CHAT_ID_LAST_SPECIAL
    }

    /// The trash chat holds locally redacted rows.
    pub open spec fn spec_is_trash(self) -> bool {
        self.0 == DC_CHAT_ID_TRASH
    }

    #[verifier::when_used_as_spec(spec_is_trash)]
    pub fn is_trash(self) -> (r: bool)
        ensures
            r == self.spec_is_trash(),
    {
        self.0 == DC_CHAT_ID_TRASH
    }
}

impl MsgId {
    pub fn new(id: u32) -> (r: MsgId)
        ensures
            r == MsgId(id),
    {
        MsgId(id)
    }

    pub fn to_u32(self) -> (r: u32)
        ensures
            r == self.0,
    {
        self.0
    }
}

/// Lifecycle state of a message row, owned by the message collaborator.
/// Fresh, noticed and draft messages never have their timer auto-started.
#[derive(Debug, PartialEq, Eq, Copy, Clone, Structural)]
pub enum MessageState {
    Undefined,
    InFresh,
    InNoticed,
    InSeen,
    OutPreparing,
    OutDraft,
    OutPending,
    OutFailed,
    OutDelivered,
    OutMdnRcvd,
}

/// Kind of a queued work item for the job executor.
#[derive(Debug, PartialEq, Eq, Copy, Clone, Structural)]
pub enum JobAction {
    MoveMsg,
    DeleteMsgOnImap,
    MarkseenMsgOnImap,
}

/// The one chat column this subsystem owns: the stored timer value.
#[derive(Debug, PartialEq, Eq, Copy, Clone, Structural)]
pub struct ChatRow {
    pub id: ChatId,
    /// Raw column value; 0 encodes a disabled timer.
    pub ephemeral_timer: i64,
}

/// The message columns this subsystem reads or clears.
#[derive(Debug)]
pub struct MsgRow {
    pub id: MsgId,
    pub chat_id: ChatId,
    /// Raw per-message timer column in seconds; 0 means none armed.
    pub ephemeral_timer: i64,
    /// Unix seconds at which local redaction is due; 0 means not armed.
    pub ephemeral_timestamp: i64,
    /// Original message time, used by the device-age policy.
    pub timestamp: i64,
    /// IMAP uid of the remote copy; 0 means none remains.
    pub server_uid: u32,
    pub state: MessageState,
    pub from_id: u32,
    pub to_id: u32,
    pub txt: String,
    pub subject: String,
    pub txt_raw: String,
    pub mime_headers: String,
    pub param: String,
}

/// A queued work item.
#[derive(Debug, PartialEq, Eq, Copy, Clone, Structural)]
pub struct JobRow {
    pub action: JobAction,
    pub foreign_id: u32,
}

/// Chat row keys are pairwise distinct.
pub open spec fn spec_chats_unique(chats: Seq<ChatRow>) -> bool {
    forall|i: int, j: int|
        0 <= i < j < chats.len() ==> (#[trigger] chats[i]).id != (#[trigger] chats[j]).id
}

/// Some chat row carries this id.
pub open spec fn spec_chats_have(chats: Seq<ChatRow>, chat_id: ChatId) -> bool {
    exists|i: int| 0 <= i < chats.len() && (#[trigger] chats[i]).id == chat_id
}

/// The chat row carrying this id; meaningful when one exists and ids
/// are unique.
pub open spec fn spec_chats_lookup(chats: Seq<ChatRow>, chat_id: ChatId) -> ChatRow {
    chats[choose|i: int| 0 <= i < chats.len() && (#[trigger] chats[i]).id == chat_id]
}

/// With unique keys, any index holding the id resolves the lookup.
pub proof fn lemma_chats_lookup_at(chats: Seq<ChatRow>, i: int, chat_id: ChatId)
    requires
        spec_chats_unique(chats),
        0 <= i < chats.len(),
        chats[i].id == chat_id,
    ensures
        spec_chats_have(chats, chat_id),
        spec_chats_lookup(chats, chat_id) == chats[i],
{
    assert(spec_chats_have(chats, chat_id));
    let j = choose|j: int| 0 <= j < chats.len() && (#[trigger] chats[j]).id == chat_id;
    if i != j {
        assert(chats[i].id != chats[j].id);
    }
}

/// Notifications this subsystem emits into the event bus.
#[derive(Debug, PartialEq, Eq, Copy, Clone, Structural)]
pub enum Event {
    ChatEphemeralTimerModified { chat_id: ChatId, timer: Timer },
    MsgsChanged { chat_id: ChatId, msg_id: MsgId },
}

/// The ambient state the subsystem operates on: the store's rows, the
/// events emitted so far, and the wake-up task slot, modelled by the
/// deadline of the armed task if any.
pub struct Context {
    pub chats: Vec<ChatRow>,
    pub msgs: Vec<MsgRow>,
    pub jobs: Vec<JobRow>,
    pub events: Vec<Event>,
    /// At most one wake-up task is armed at a time.
    pub ephemeral_task: Option<i64>,
    /// Chat of the user's own memoranda; the unset id if none exists.
    pub self_chat_id: ChatId,
    /// Chat of device-generated notices; the unset id if none exists.
    pub device_chat_id: ChatId,
}

impl MsgRow {
    /// Field bounds every stored row satisfies: an expiry timestamp is
    /// never negative and, like the timer column when meaningful, stays
    /// small enough that deadline arithmetic cannot overflow.
    pub open spec fn wf(self) -> bool {
        &&& 0 <= self.ephemeral_timestamp < MAX_DEADLINE
        &&& self.ephemeral_timer < MAX_CLOCK
    }
}

impl Context {
    /// Store well-formedness: row keys are unique and every message
    /// row satisfies its field bounds.
    pub open spec fn wf(self) -> bool {
        &&& spec_chats_unique(self.chats@)
        &&& forall|i: int, j: int|
            0 <= i < j < self.msgs@.len() ==> (#[trigger] self.msgs@[i]).id != (
            #[trigger] self.msgs@[j]).id
        &&& forall|i: int| 0 <= i < self.msgs@.len() ==> (#[trigger] self.msgs@[i]).wf()
        &&& self.ephemeral_task matches Some(d) ==> 0 <= d <= MAX_DEADLINE
    }

    /// A chat row with this id exists.
    pub open spec fn spec_has_chat(self, chat_id: ChatId) -> bool {
        spec_chats_have(self.chats@, chat_id)
    }

    /// A message row with this id exists.
    pub open spec fn spec_has_msg(self, msg_id: MsgId) -> bool {
        exists|i: int| 0 <= i < self.msgs@.len() && (#[trigger] self.msgs@[i]).id == msg_id
    }

    /// A job of this action targeting this foreign id is queued.
    pub open spec fn spec_has_job(self, action: JobAction, foreign_id: u32) -> bool {
        exists|i: int|
            0 <= i < self.jobs@.len() && (#[trigger] self.jobs@[i]) == (JobRow {
                action,
                foreign_id,
            })
    }

    /// The chat row with this id; meaningful when it exists and ids
    /// are unique.
    pub open spec fn spec_chat_row(self, chat_id: ChatId) -> ChatRow {
        spec_chats_lookup(self.chats@, chat_id)
    }

    /// The message row with this id; meaningful when it exists and
    /// ids are unique.
    pub open spec fn spec_msg_row(self, msg_id: MsgId) -> MsgRow {
        self.msgs@[choose|i: int|
            0 <= i < self.msgs@.len() && (#[trigger] self.msgs@[i]).id == msg_id]
    }

    /// In a well-formed store, any index holding the id resolves the lookup.
    pub proof fn lemma_chat_row_at(self, i: int, chat_id: ChatId)
        requires
            self.wf(),
            0 <= i < self.chats@.len(),
            self.chats@[i].id == chat_id,
        ensures
            self.spec_has_chat(chat_id),
            self.spec_chat_row(chat_id) == self.chats@[i],
    {
        lemma_chats_lookup_at(self.chats@, i, chat_id);
    }

    /// In a well-formed store, any index holding the id resolves the lookup.
    pub proof fn lemma_msg_row_at(self, i: int, msg_id: MsgId)
        requires
            self.wf(),
            0 <= i < self.msgs@.len(),
            self.msgs@[i].id == msg_id,
        ensures
            self.spec_has_msg(msg_id),
            self.spec_msg_row(msg_id) == self.msgs@[i],
    {
        assert(self.spec_has_msg(msg_id));
        let j = choose|j: int| 0 <= j < self.msgs@.len() && (#[trigger] self.msgs@[j]).id == msg_id;
        if i != j {
            assert(self.msgs@[i].id != self.msgs@[j].id);
        }
    }

    /// An empty store around the given reserved chats.
    pub fn new(self_chat_id: ChatId, device_chat_id: ChatId) -> (ctx: Context)
        ensures
            ctx.wf(),
            ctx.chats@.len() == 0,
            ctx.msgs@.len() == 0,
            ctx.jobs@.len() == 0,
            ctx.events@.len() == 0,
            ctx.ephemeral_task is None,
            ctx.self_chat_id == self_chat_id,
            ctx.device_chat_id == device_chat_id,
    {
        Context {
            chats: Vec::new(),
            msgs: Vec::new(),
            jobs: Vec::new(),
            events: Vec::new(),
            ephemeral_task: None,
            self_chat_id,
            device_chat_id,
        }
    }

    /// Inserts a chat row; models the chat collaborator creating a chat.
    pub fn insert_chat(&mut self, row: ChatRow)
        requires
            old(self).wf(),
            !old(self).spec_has_chat(row.id),
        ensures
            final(self).wf(),
            final(self).chats@ == old(self).chats@.push(row),
            final(self).msgs == old(self).msgs,
            final(self).jobs == old(self).jobs,
            final(self).events == old(self).events,
            final(self).ephemeral_task == old(self).ephemeral_task,
            final(self).self_chat_id == old(self).self_chat_id,
            final(self).device_chat_id == old(self).device_chat_id,
    {
        self.chats.push(row);
    }

    /// Inserts a message row; models the ingest or send path adding a
    /// message whose columns were already populated.
    pub fn insert_msg(&mut self, row: MsgRow)
        requires
            old(self).wf(),
            !old(self).spec_has_msg(row.id),
            row.wf(),
        ensures
            final(self).wf(),
            final(self).msgs@ == old(self).msgs@.push(row),
            final(self).chats == old(self).chats,
            final(self).jobs == old(self).jobs,
            final(self).events == old(self).events,
            final(self).ephemeral_task == old(self).ephemeral_task,
            final(self).self_chat_id == old(self).self_chat_id,
            final(self).device_chat_id == old(self).device_chat_id,
    {
        self.msgs.push(row);
    }

    /// Queues a job; models the job executor's table gaining a row.
    pub fn insert_job(&mut self, row: JobRow)
        requires
            old(self).wf(),
        ensures
            final(self).wf(),
            final(self).jobs@ == old(self).jobs@.push(row),
            final(self).chats == old(self).chats,
            final(self).msgs == old(self).msgs,
            final(self).events == old(self).events,
            final(self).ephemeral_task == old(self).ephemeral_task,
            final(self).self_chat_id == old(self).self_chat_id,
            final(self).device_chat_id == old(self).device_chat_id,
    {
        self.jobs.push(row);
    }

    /// Looks a message row up by id.
    pub fn get_msg(&self, msg_id: MsgId) -> (r: Option<&MsgRow>)
        requires
            self.wf(),
        ensures
            match r {
                Some(m) => self.spec_has_msg(msg_id) && *m == self.spec_msg_row(msg_id),
                None => !self.spec_has_msg(msg_id),
            },
    {
        let n = self.msgs.len();
        for i in 0..n
            invariant
                self.wf(),
                n == self.msgs@.len(),
                forall|j: int| 0 <= j < i ==> (#[trigger] self.msgs@[j]).id != msg_id,
        {
            if self.msgs[i].id == msg_id {
                proof {
                    self.lemma_msg_row_at(i as int, msg_id);
                }
                return Some(&self.msgs[i]);
            }
        }
        None
    }

    /// Looks a chat row up by id.
    pub fn get_chat(&self, chat_id: ChatId) -> (r: Option<&ChatRow>)
        requires
            self.wf(),
        ensures
            match r {
                Some(c) => self.spec_has_chat(chat_id) && *c == self.spec_chat_row(chat_id),
                None => !self.spec_has_chat(chat_id),
            },
    {
        let n = self.chats.len();
        for i in 0..n
            invariant
                self.wf(),
                n == self.chats@.len(),
                forall|j: int| 0 <= j < i ==> (#[trigger] self.chats@[j]).id != chat_id,
        {
            if self.chats[i].id == chat_id {
                proof {
                    self.lemma_chat_row_at(i as int, chat_id);
                }
                return Some(&self.chats[i]);
            }
        }
        None
    }

    /// Whether a job of this action already targets this foreign id.
    pub fn has_job(&self, action: JobAction, foreign_id: u32) -> (r: bool)
        ensures
            r == self.spec_has_job(action, foreign_id),
    {
        let n = self.jobs.len();
        for i in 0..n
            invariant
                n == self.jobs@.len(),
                forall|j: int|
                    0 <= j < i ==> (#[trigger] self.jobs@[j]) != (JobRow { action, foreign_id }),
        {
            if self.jobs[i].action == action && self.jobs[i].foreign_id == foreign_id {
                return true;
            }
        }
        false
    }
}

} // verus!
