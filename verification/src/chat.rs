//! The per-chat timer store and timer negotiation: reading and
//! writing the stored timer, emitting the change event, and composing
//! the system message that announces a local change to the peers.

use vstd::prelude::*;

use crate::stock::spec_timer_message;
use crate::stock::stock_ephemeral_timer_changed;
use crate::store::lemma_chats_lookup_at;
use crate::store::spec_chats_have;
use crate::store::spec_chats_lookup;
use crate::store::spec_chats_unique;
use crate::store::ChatId;
use crate::store::ChatRow;
use crate::store::Context;
use crate::store::MessageState;
use crate::store::MsgId;
use crate::store::MsgRow;
use crate::store::Event;
use crate::timer::OutOfRangeError;
use crate::timer::Timer;

verus! {

/// Content type of a composed message, owned by the message collaborator.
#[derive(Debug, PartialEq, Eq, Copy, Clone, Structural)]
pub enum Viewtype {
    Unknown,
    Text,
    Image,
    File,
}

/// Marker distinguishing synthesized system messages from user text.
#[derive(Debug, PartialEq, Eq, Copy, Clone, Structural)]
pub enum SystemMessage {
    Unknown,
    GroupNameChanged,
    EphemeralTimerChanged,
}

/// Why a timer operation was refused.
#[derive(Debug, PartialEq, Eq, Copy, Clone, Structural)]
pub enum EphemeralError {
    /// The chat id is reserved; its timer may not be set.
    InvalidChatId,
    /// A stored timer column was outside the unsigned 32-bit range.
    OutOfRange,
}

/// A message composed for the outbound pipeline; sending it is the
/// pipeline collaborator's work.
#[derive(Debug)]
pub struct OutgoingMessage {
    pub viewtype: Viewtype,
    pub text: String,
    pub cmd: SystemMessage,
}

/// What one accepted silent write leaves in the chat table: rows with
/// the id carry the encoded timer, every other row is untouched.
pub open spec fn spec_write_row(row: ChatRow, chat_id: ChatId, timer: Timer) -> ChatRow {
    if row.id == chat_id {
        ChatRow { id: row.id, ephemeral_timer: timer.spec_to_u32() as i64 }
    } else {
        row
    }
}

/// The chat table after one accepted silent write.
pub open spec fn spec_apply_timer_write(
    chats: Seq<ChatRow>,
    chat_id: ChatId,
    timer: Timer,
) -> Seq<ChatRow> {
    Seq::new(chats.len(), |i: int| spec_write_row(chats[i], chat_id, timer))
}

/// The chat table after a sequence of accepted silent writes, oldest
/// first.
pub open spec fn spec_apply_timer_writes(
    chats: Seq<ChatRow>,
    chat_id: ChatId,
    writes: Seq<Timer>,
) -> Seq<ChatRow>
    decreases writes.len(),
{
    if writes.len() == 0 {
        chats
    } else {
        spec_apply_timer_writes(
            spec_apply_timer_write(chats, chat_id, writes[0]),
            chat_id,
            writes.drop_first(),
        )
    }
}

/// The timer a chat table answers for a chat: a missing row reads as
/// disabled, a present row decodes its column.
pub open spec fn spec_chats_timer(chats: Seq<ChatRow>, chat_id: ChatId) -> Result<
    Timer,
    OutOfRangeError,
> {
    if spec_chats_have(chats, chat_id) {
        Timer::spec_from_db_value(spec_chats_lookup(chats, chat_id).ephemeral_timer)
    } else {
        Ok(Timer::Disabled)
    }
}

impl ChatId {
    /// The timer this chat's row currently stores in the given state.
    pub open spec fn spec_get_ephemeral_timer(self, ctx: Context) -> Result<
        Timer,
        OutOfRangeError,
    > {
        spec_chats_timer(ctx.chats@, self)
    }

    /// Reads the chat's timer; a missing row or a zero column reads
    /// as disabled, a column outside `u32` is an out-of-range error.
    pub fn get_ephemeral_timer(self, ctx: &Context) -> (r: Result<Timer, OutOfRangeError>)
        requires
            ctx.wf(),
        ensures
            r == self.spec_get_ephemeral_timer(*ctx),
            r matches Ok(t) ==> t.wf(),
    {
        match ctx.get_chat(self) {
            None => Ok(Timer::Disabled),
            Some(row) => Timer::from_db_value(row.ephemeral_timer),
        }
    }

    /// Sets the timer without composing a system message: the ingest
    /// path's setter. Rejects reserved chats; otherwise writes the
    /// encoded value unconditionally and emits the change event.
    pub fn inner_set_ephemeral_timer(self, ctx: &mut Context, timer: Timer) -> (r: Result<
        (),
        EphemeralError,
    >)
        requires
            old(ctx).wf(),
        ensures
            final(ctx).wf(),
            self.spec_is_special() ==> r == Err::<(), EphemeralError>(EphemeralError::InvalidChatId)
                && *final(ctx) == *old(ctx),
            !self.spec_is_special() ==> {
                &&& r == Ok::<(), EphemeralError>(())
                &&& final(ctx).chats@ == spec_apply_timer_write(old(ctx).chats@, self, timer)
                &&& final(ctx).events@ == old(ctx).events@.push(
                    (Event::ChatEphemeralTimerModified { chat_id: self, timer }),
                )
                &&& final(ctx).msgs == old(ctx).msgs
                &&& final(ctx).jobs == old(ctx).jobs
                &&& final(ctx).ephemeral_task == old(ctx).ephemeral_task
                &&& final(ctx).self_chat_id == old(ctx).self_chat_id
                &&& final(ctx).device_chat_id == old(ctx).device_chat_id
            },
    {
        if self.is_special() {
            return Err(EphemeralError::InvalidChatId);
        }
        let value = timer.to_db_value();
        let n = ctx.chats.len();
        for i in 0..n
            invariant
                n == ctx.chats@.len(),
                n == old(ctx).chats@.len(),
                value == timer.spec_to_u32() as i64,
                forall|j: int|
                    0 <= j < i ==> ctx.chats@[j] == spec_write_row(
                        old(ctx).chats@[j],
                        self,
                        timer,
                    ),
                forall|j: int| i <= j < n ==> ctx.chats@[j] == old(ctx).chats@[j],
                ctx.msgs == old(ctx).msgs,
                ctx.jobs == old(ctx).jobs,
                ctx.events == old(ctx).events,
                ctx.ephemeral_task == old(ctx).ephemeral_task,
                ctx.self_chat_id == old(ctx).self_chat_id,
                ctx.device_chat_id == old(ctx).device_chat_id,
        {
            if ctx.chats[i].id == self {
                ctx.chats[i] = ChatRow { id: self, ephemeral_timer: value };
            }
        }
        ctx.events.push(Event::ChatEphemeralTimerModified { chat_id: self, timer });
        proof {
            assert(ctx.chats@ =~= spec_apply_timer_write(old(ctx).chats@, self, timer));
            assert forall|i: int, j: int| 0 <= i < j < ctx.chats@.len() implies (
            #[trigger] ctx.chats@[i]).id != (#[trigger] ctx.chats@[j]).id by {
                assert(old(ctx).chats@[i].id != old(ctx).chats@[j].id);
            }
        }
        Ok(())
    }

    /// Sets the timer as the local user's change: a no-op when the
    /// value is unchanged, otherwise a silent write plus a composed
    /// system message announcing the change, to be sent by the
    /// outbound pipeline.
    pub fn set_ephemeral_timer(self, ctx: &mut Context, timer: Timer) -> (r: Result<
        Option<OutgoingMessage>,
        EphemeralError,
    >)
        requires
            old(ctx).wf(),
        ensures
            final(ctx).wf(),
            match self.spec_get_ephemeral_timer(*old(ctx)) {
                Err(_) => r matches Err(e) && e == EphemeralError::OutOfRange && *final(ctx) == *old(
                    ctx,
                ),
                Ok(current) => if current == timer {
                    r matches Ok(m) && m is None && *final(ctx) == *old(ctx)
                } else if self.spec_is_special() {
                    r matches Err(e) && e == EphemeralError::InvalidChatId && *final(ctx) == *old(ctx)
                } else {
                    &&& r matches Ok(m)
                    &&& m matches Some(msg)
                    &&& msg.viewtype == Viewtype::Text
                    &&& msg.cmd == SystemMessage::EphemeralTimerChanged
                    &&& msg.text@ == spec_timer_message(timer, "me"@)
                    &&& final(ctx).chats@ == spec_apply_timer_write(old(ctx).chats@, self, timer)
                    &&& final(ctx).events@ == old(ctx).events@.push(
                        (Event::ChatEphemeralTimerModified { chat_id: self, timer }),
                    )
                    &&& final(ctx).msgs == old(ctx).msgs
                    &&& final(ctx).jobs == old(ctx).jobs
                    &&& final(ctx).ephemeral_task == old(ctx).ephemeral_task
                    &&& final(ctx).self_chat_id == old(ctx).self_chat_id
                    &&& final(ctx).device_chat_id == old(ctx).device_chat_id
                },
            },
    {
        let current = match self.get_ephemeral_timer(ctx) {
            Ok(t) => t,
            Err(OutOfRangeError) => {
                return Err(EphemeralError::OutOfRange);
            },
        };
        if current == timer {
            return Ok(None);
        }
        match self.inner_set_ephemeral_timer(ctx, timer) {
            Ok(()) => {},
            Err(e) => {
                return Err(e);
            },
        }
        let text = stock_ephemeral_timer_changed(timer, "me");
        Ok(
            Some(
                OutgoingMessage {
                    viewtype: Viewtype::Text,
                    text,
                    cmd: SystemMessage::EphemeralTimerChanged,
                },
            ),
        )
    }
}

/// Adds a freshly delivered or sent message row to a chat; models the
/// ingest and send paths, which populate the row's own timer column
/// from the chat's current setting. In particular a chat with a
/// disabled timer hands every new message a zero timer column.
pub fn insert_fresh_msg(
    ctx: &mut Context,
    id: MsgId,
    chat_id: ChatId,
    from_id: u32,
    to_id: u32,
    txt: String,
    txt_raw: String,
    timestamp: i64,
    state: MessageState,
    server_uid: u32,
) -> (r: Result<(), OutOfRangeError>)
    requires
        old(ctx).wf(),
        !old(ctx).spec_has_msg(id),
    ensures
        final(ctx).wf(),
        final(ctx).chats == old(ctx).chats,
        final(ctx).jobs == old(ctx).jobs,
        final(ctx).events == old(ctx).events,
        final(ctx).ephemeral_task == old(ctx).ephemeral_task,
        final(ctx).self_chat_id == old(ctx).self_chat_id,
        final(ctx).device_chat_id == old(ctx).device_chat_id,
        match spec_chats_timer(old(ctx).chats@, chat_id) {
            Err(e) => r == Err::<(), OutOfRangeError>(e) && *final(ctx) == *old(ctx),
            Ok(t) => {
                &&& r == Ok::<(), OutOfRangeError>(())
                &&& final(ctx).msgs@.len() == old(ctx).msgs@.len() + 1
                &&& forall|i: int|
                    0 <= i < old(ctx).msgs@.len() ==> final(ctx).msgs@[i] == old(ctx).msgs@[i]
                &&& {
                    let row = final(ctx).msgs@.last();
                    &&& row.id == id
                    &&& row.chat_id == chat_id
                    &&& row.ephemeral_timer == t.spec_to_u32() as i64
                    &&& row.ephemeral_timestamp == 0
                    &&& row.timestamp == timestamp
                    &&& row.server_uid == server_uid
                    &&& row.state == state
                    &&& row.from_id == from_id
                    &&& row.to_id == to_id
                    &&& row.txt == txt
                    &&& row.txt_raw == txt_raw
                    &&& row.subject@ == Seq::<char>::empty()
                    &&& row.mime_headers@ == Seq::<char>::empty()
                    &&& row.param@ == Seq::<char>::empty()
                }
            },
        },
{
    let timer = match chat_id.get_ephemeral_timer(ctx) {
        Err(e) => {
            return Err(e);
        },
        Ok(t) => t,
    };
    let row = MsgRow {
        id,
        chat_id,
        ephemeral_timer: timer.to_db_value(),
        ephemeral_timestamp: 0,
        timestamp,
        server_uid,
        state,
        from_id,
        to_id,
        txt,
        subject: String::new(),
        txt_raw,
        mime_headers: String::new(),
        param: String::new(),
    };
    ctx.insert_msg(row);
    Ok(())
}

/// One accepted write settles the stored timer: afterwards the chat
/// reads back exactly the well-formed value written, and the table
/// keeps its keys.
pub proof fn lemma_single_write(chats: Seq<ChatRow>, chat_id: ChatId, timer: Timer)
    requires
        spec_chats_unique(chats),
        spec_chats_have(chats, chat_id),
        timer.wf(),
    ensures
        spec_chats_unique(spec_apply_timer_write(chats, chat_id, timer)),
        spec_chats_have(spec_apply_timer_write(chats, chat_id, timer), chat_id),
        spec_chats_timer(spec_apply_timer_write(chats, chat_id, timer), chat_id) == Ok::<
            Timer,
            OutOfRangeError,
        >(timer),
{
    let post = spec_apply_timer_write(chats, chat_id, timer);
    assert(forall|i: int| 0 <= i < chats.len() ==> (#[trigger] post[i]).id == chats[i].id);
    let i = choose|i: int| 0 <= i < chats.len() && (#[trigger] chats[i]).id == chat_id;
    assert(post[i] == (ChatRow { id: chat_id, ephemeral_timer: timer.spec_to_u32() as i64 }));
    lemma_chats_lookup_at(post, i, chat_id);
    match timer {
        Timer::Disabled => {},
        Timer::Enabled { duration } => {
            assert(0 < duration as i64 <= u32::MAX as i64);
        },
    }
}

/// Convergence of silent writes: after any nonempty sequence of
/// accepted writes of well-formed timers to an existing chat, the
/// chat's stored timer reads back as the last value written.
pub proof fn lemma_timer_convergence(chats: Seq<ChatRow>, chat_id: ChatId, writes: Seq<Timer>)
    requires
        spec_chats_unique(chats),
        spec_chats_have(chats, chat_id),
        writes.len() > 0,
        forall|i: int| 0 <= i < writes.len() ==> (#[trigger] writes[i]).wf(),
    ensures
        spec_chats_timer(spec_apply_timer_writes(chats, chat_id, writes), chat_id) == Ok::<
            Timer,
            OutOfRangeError,
        >(writes.last()),
    decreases writes.len(),
{
    let chats1 = spec_apply_timer_write(chats, chat_id, writes[0]);
    lemma_single_write(chats, chat_id, writes[0]);
    if writes.len() == 1 {
        assert(spec_apply_timer_writes(chats1, chat_id, writes.drop_first()) == chats1);
    } else {
        lemma_timer_convergence(chats1, chat_id, writes.drop_first());
        assert(writes.drop_first().last() == writes.last());
    }
}

} // verus!
