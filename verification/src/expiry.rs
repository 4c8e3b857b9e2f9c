//! The expiry engine: per-message expiry arming, the two-pass local
//! redaction sweep, housekeeping repair of never-armed timers, and
//! selection of server-side deletion work.

use vstd::prelude::*;
use vstd::string::StringExecFns;

use crate::scheduler::schedule_ephemeral_task;
use crate::scheduler::spec_wakeup;
use crate::store::ChatId;
use crate::store::Context;
use crate::store::JobAction;
use crate::store::MessageState;
use crate::store::MsgId;
use crate::store::MsgRow;
use crate::store::DC_CHAT_ID_LAST_SPECIAL;
use crate::store::DC_CHAT_ID_TRASH;
use crate::store::MAX_CLOCK;
use crate::store::MAX_DEADLINE;
use crate::timer::OutOfRangeError;
use crate::timer::Timer;

verus! {

/// Monotone-earlier arming: the deadline is written only over an
/// unset or strictly later timestamp.
pub open spec fn spec_armed_timestamp(ts: i64, deadline: i64) -> i64 {
    if ts == 0 || ts > deadline {
        deadline
    } else {
        ts
    }
}

/// What arming one message leaves in a row: only the addressed row's
/// expiry timestamp moves, and only monotonically earlier.
pub open spec fn spec_start_row(m: MsgRow, msg_id: MsgId, deadline: i64) -> MsgRow {
    if m.id == msg_id {
        MsgRow { ephemeral_timestamp: spec_armed_timestamp(m.ephemeral_timestamp, deadline), ..m }
    } else {
        m
    }
}

/// Pass A applies: the armed expiry has passed and the row is not yet
/// redacted.
pub open spec fn spec_pass_a_due(m: MsgRow, now: i64) -> bool {
    m.ephemeral_timestamp != 0 && m.ephemeral_timestamp <= now && !m.chat_id.spec_is_trash()
}

/// Pass A redaction: moved to trash with the payload cleared, while
/// the expiry bookkeeping, original time, server uid and state are
/// preserved so the server copy can still be targeted.
pub open spec fn spec_redacted_a(pre: MsgRow, post: MsgRow) -> bool {
    &&& post.id == pre.id
    &&& post.chat_id == ChatId(DC_CHAT_ID_TRASH)
    &&& post.ephemeral_timer == pre.ephemeral_timer
    &&& post.ephemeral_timestamp == pre.ephemeral_timestamp
    &&& post.timestamp == pre.timestamp
    &&& post.server_uid == pre.server_uid
    &&& post.state == pre.state
    &&& post.from_id == 0
    &&& post.to_id == 0
    &&& post.txt@ == Seq::<char>::empty()
    &&& post.subject@ == Seq::<char>::empty()
    &&& post.txt_raw@ == Seq::<char>::empty()
    &&& post.mime_headers@ == Seq::<char>::empty()
    &&& post.param@ == Seq::<char>::empty()
}

/// Pass B applies: older than the device threshold, in an ordinary
/// chat, and not in the exempt self or device chats.
pub open spec fn spec_device_due(
    m: MsgRow,
    threshold: i64,
    self_chat: ChatId,
    device_chat: ChatId,
) -> bool {
    &&& m.timestamp < threshold
    &&& m.chat_id.0 > DC_CHAT_ID_LAST_SPECIAL
    &&& m.chat_id != self_chat
    &&& m.chat_id != device_chat
}

/// Pass B tombstone: moved to trash with the marker text for
/// diagnostics; every other column is untouched.
pub open spec fn spec_redacted_b(pre: MsgRow, post: MsgRow) -> bool {
    &&& post.id == pre.id
    &&& post.chat_id == ChatId(DC_CHAT_ID_TRASH)
    &&& post.ephemeral_timer == pre.ephemeral_timer
    &&& post.ephemeral_timestamp == pre.ephemeral_timestamp
    &&& post.timestamp == pre.timestamp
    &&& post.server_uid == pre.server_uid
    &&& post.state == pre.state
    &&& post.from_id == pre.from_id
    &&& post.to_id == pre.to_id
    &&& post.txt@ == "DELETED"@
    &&& post.subject == pre.subject
    &&& post.txt_raw == pre.txt_raw
    &&& post.mime_headers == pre.mime_headers
    &&& post.param == pre.param
}

/// What one sweep does to one row: per-message expiry redacts it;
/// otherwise, with a configured device bound, device age entombs it;
/// otherwise it is untouched.
pub open spec fn spec_sweep_row(
    pre: MsgRow,
    post: MsgRow,
    now: i64,
    delete_device_after: Option<i64>,
    self_chat: ChatId,
    device_chat: ChatId,
) -> bool {
    if spec_pass_a_due(pre, now) {
        spec_redacted_a(pre, post)
    } else if delete_device_after matches Some(d) && spec_device_due(
        pre,
        (now - d) as i64,
        self_chat,
        device_chat,
    ) {
        spec_redacted_b(pre, post)
    } else {
        post == pre
    }
}

/// The server-age threshold: absent configuration disables the age
/// branch, since timestamps are positive.
pub open spec fn spec_server_threshold(now: i64, delete_server_after: Option<i64>) -> int {
    match delete_server_after {
        None => 0,
        Some(d) => now - d,
    }
}

/// A row is due on the server: a remote copy remains and either the
/// server-age threshold or its own armed expiry has tripped.
pub open spec fn spec_server_due(m: MsgRow, now: i64, threshold: int) -> bool {
    &&& m.timestamp < threshold || (m.ephemeral_timestamp != 0 && m.ephemeral_timestamp <= now)
    &&& m.server_uid != 0
}

/// The row at this index may be selected for a server deletion job:
/// it is due and no queued job targets it yet.
pub open spec fn spec_deletion_candidate(
    ctx: Context,
    i: int,
    now: i64,
    delete_server_after: Option<i64>,
) -> bool {
    &&& spec_server_due(ctx.msgs@[i], now, spec_server_threshold(now, delete_server_after))
    &&& !ctx.spec_has_job(JobAction::DeleteMsgOnImap, ctx.msgs@[i].id.0)
}

/// The states excluded from housekeeping repair: unseen incoming
/// messages and unsent drafts must not start counting down.
pub open spec fn spec_repair_excluded(state: MessageState) -> bool {
    state == MessageState::InFresh || state == MessageState::InNoticed || state
        == MessageState::OutDraft
}

/// A row the housekeeping pass arms: a per-message timer exists but
/// was never started, and the state allows starting it.
pub open spec fn spec_needs_repair(m: MsgRow) -> bool {
    m.ephemeral_timer > 0 && m.ephemeral_timestamp == 0 && !spec_repair_excluded(m.state)
}

/// What housekeeping leaves in a row.
pub open spec fn spec_repair_row(m: MsgRow, now: i64) -> MsgRow {
    if spec_needs_repair(m) {
        MsgRow { ephemeral_timestamp: (now + m.ephemeral_timer) as i64, ..m }
    } else {
        m
    }
}

impl MsgId {
    /// The per-message timer this message's row stores.
    pub open spec fn spec_ephemeral_timer(self, ctx: Context) -> Result<Timer, OutOfRangeError> {
        if ctx.spec_has_msg(self) {
            Timer::spec_from_db_value(ctx.spec_msg_row(self).ephemeral_timer)
        } else {
            Ok(Timer::Disabled)
        }
    }

    /// Reads the message's own timer column; a missing row or a zero
    /// column reads as disabled, a column outside `u32` is an error.
    pub fn ephemeral_timer(self, ctx: &Context) -> (r: Result<Timer, OutOfRangeError>)
        requires
            ctx.wf(),
        ensures
            r == self.spec_ephemeral_timer(*ctx),
            r matches Ok(t) ==> t.wf(),
    {
        match ctx.get_msg(self) {
            None => Ok(Timer::Disabled),
            Some(row) => Timer::from_db_value(row.ephemeral_timer),
        }
    }

    /// Starts the message's expiry countdown, as done when the
    /// message is marked seen: with a disabled timer nothing happens;
    /// otherwise the deadline `now + duration` is written wherever it
    /// is earlier than the current arming (or the row is unarmed),
    /// and the wake-up is re-armed.
    pub fn start_ephemeral_timer(self, ctx: &mut Context, now: i64) -> (r: Result<
        (),
        OutOfRangeError,
    >)
        requires
            old(ctx).wf(),
            0 <= now < MAX_CLOCK,
        ensures
            final(ctx).wf(),
            final(ctx).chats == old(ctx).chats,
            final(ctx).jobs == old(ctx).jobs,
            final(ctx).self_chat_id == old(ctx).self_chat_id,
            final(ctx).device_chat_id == old(ctx).device_chat_id,
            match self.spec_ephemeral_timer(*old(ctx)) {
                Err(e) => r == Err::<(), OutOfRangeError>(e) && *final(ctx) == *old(ctx),
                Ok(t) => r == Ok::<(), OutOfRangeError>(()) && match t {
                    Timer::Disabled => *final(ctx) == *old(ctx),
                    Timer::Enabled { duration } => {
                        &&& final(ctx).msgs@.len() == old(ctx).msgs@.len()
                        &&& forall|i: int|
                            0 <= i < old(ctx).msgs@.len() ==> final(ctx).msgs@[i]
                                == spec_start_row(
                                old(ctx).msgs@[i],
                                self,
                                (now + duration) as i64,
                            )
                        &&& (final(ctx).events@, final(ctx).ephemeral_task) == spec_wakeup(
                            final(ctx).msgs@,
                            old(ctx).events@,
                            now,
                        )
                    },
                },
            },
    {
        let timer = match self.ephemeral_timer(ctx) {
            Err(e) => {
                return Err(e);
            },
            Ok(t) => t,
        };
        if let Timer::Enabled { duration } = timer {
            let deadline: i64 = now + duration as i64;
            let n = ctx.msgs.len();
            for i in 0..n
                invariant
                    n == ctx.msgs@.len(),
                    n == old(ctx).msgs@.len(),
                    0 < deadline < MAX_DEADLINE,
                    forall|j: int|
                        0 <= j < i ==> ctx.msgs@[j] == spec_start_row(
                            old(ctx).msgs@[j],
                            self,
                            deadline,
                        ),
                    forall|j: int| i <= j < n ==> ctx.msgs@[j] == old(ctx).msgs@[j],
                    forall|j: int, k: int|
                        0 <= j < k < n ==> (#[trigger] old(ctx).msgs@[j]).id != (
                        #[trigger] old(ctx).msgs@[k]).id,
                    forall|j: int| 0 <= j < n ==> (#[trigger] old(ctx).msgs@[j]).wf(),
                    ctx.chats == old(ctx).chats,
                    ctx.jobs == old(ctx).jobs,
                    ctx.events == old(ctx).events,
                    ctx.ephemeral_task == old(ctx).ephemeral_task,
                    ctx.self_chat_id == old(ctx).self_chat_id,
                    ctx.device_chat_id == old(ctx).device_chat_id,
            {
                if ctx.msgs[i].id == self {
                    let ts = ctx.msgs[i].ephemeral_timestamp;
                    if ts == 0 || ts > deadline {
                        ctx.msgs[i].ephemeral_timestamp = deadline;
                    }
                }
            }
            proof {
                assert forall|j: int| 0 <= j < ctx.msgs@.len() implies (
                #[trigger] ctx.msgs@[j]).wf() && ctx.msgs@[j].id == old(ctx).msgs@[j].id by {
                    assert(ctx.msgs@[j] == spec_start_row(old(ctx).msgs@[j], self, deadline));
                }
            }
            schedule_ephemeral_task(ctx, now);
        }
        Ok(())
    }
}

/// Deletes expired messages locally in two batched passes: pass A
/// redacts rows whose armed expiry has passed, pass B (only with a
/// configured device bound) entombs rows older than the device
/// threshold outside the exempt chats. Re-arms the wake-up and
/// returns whether anything changed, so the caller can decide whether
/// to emit a refresh event without looping chatlist reloads.
pub fn delete_expired_messages(
    ctx: &mut Context,
    now: i64,
    delete_device_after: Option<i64>,
) -> (updated: bool)
    requires
        old(ctx).wf(),
        0 <= now < MAX_CLOCK,
        delete_device_after matches Some(d) ==> 0 < d < MAX_CLOCK,
    ensures
        final(ctx).wf(),
        final(ctx).chats == old(ctx).chats,
        final(ctx).jobs == old(ctx).jobs,
        final(ctx).self_chat_id == old(ctx).self_chat_id,
        final(ctx).device_chat_id == old(ctx).device_chat_id,
        final(ctx).msgs@.len() == old(ctx).msgs@.len(),
        forall|i: int|
            0 <= i < old(ctx).msgs@.len() ==> spec_sweep_row(
                old(ctx).msgs@[i],
                final(ctx).msgs@[i],
                now,
                delete_device_after,
                old(ctx).self_chat_id,
                old(ctx).device_chat_id,
            ),
        updated == ((exists|i: int|
            0 <= i < old(ctx).msgs@.len() && spec_pass_a_due(#[trigger] old(ctx).msgs@[i], now))
            || (delete_device_after matches Some(d) && exists|i: int|
            0 <= i < old(ctx).msgs@.len() && !spec_pass_a_due(#[trigger] old(ctx).msgs@[i], now)
                && spec_device_due(
                old(ctx).msgs@[i],
                (now - d) as i64,
                old(ctx).self_chat_id,
                old(ctx).device_chat_id,
            ))),
        (final(ctx).events@, final(ctx).ephemeral_task) == spec_wakeup(
            final(ctx).msgs@,
            old(ctx).events@,
            now,
        ),
{
    let mut updated = false;
    let n = ctx.msgs.len();
    for i in 0..n
        invariant
            n == ctx.msgs@.len(),
            n == old(ctx).msgs@.len(),
            0 <= now,
            forall|j: int|
                0 <= j < i ==> if spec_pass_a_due(old(ctx).msgs@[j], now) {
                    spec_redacted_a(old(ctx).msgs@[j], #[trigger] ctx.msgs@[j])
                } else {
                    ctx.msgs@[j] == old(ctx).msgs@[j]
                },
            forall|j: int| i <= j < n ==> ctx.msgs@[j] == old(ctx).msgs@[j],
            updated == exists|j: int|
                0 <= j < i && spec_pass_a_due(#[trigger] old(ctx).msgs@[j], now),
            ctx.chats == old(ctx).chats,
            ctx.jobs == old(ctx).jobs,
            ctx.events == old(ctx).events,
            ctx.ephemeral_task == old(ctx).ephemeral_task,
            ctx.self_chat_id == old(ctx).self_chat_id,
            ctx.device_chat_id == old(ctx).device_chat_id,
    {
        let due = ctx.msgs[i].ephemeral_timestamp != 0 && ctx.msgs[i].ephemeral_timestamp <= now
            && !ctx.msgs[i].chat_id.is_trash();
        if due {
            ctx.msgs[i].chat_id = ChatId(DC_CHAT_ID_TRASH);
            ctx.msgs[i].txt = String::new();
            ctx.msgs[i].subject = String::new();
            ctx.msgs[i].txt_raw = String::new();
            ctx.msgs[i].mime_headers = String::new();
            ctx.msgs[i].from_id = 0;
            ctx.msgs[i].to_id = 0;
            ctx.msgs[i].param = String::new();
            updated = true;
        }
    }
    let ghost mid = ctx.msgs@;
    let ghost updated_a = updated;
    if let Some(d) = delete_device_after {
        let threshold: i64 = now - d;
        let self_chat = ctx.self_chat_id;
        let device_chat = ctx.device_chat_id;
        for i in 0..n
            invariant
                n == ctx.msgs@.len(),
                n == mid.len(),
                self_chat == ctx.self_chat_id,
                device_chat == ctx.device_chat_id,
                forall|j: int|
                    0 <= j < i ==> if spec_device_due(mid[j], threshold, self_chat, device_chat) {
                        spec_redacted_b(mid[j], #[trigger] ctx.msgs@[j])
                    } else {
                        ctx.msgs@[j] == mid[j]
                    },
                forall|j: int| i <= j < n ==> ctx.msgs@[j] == mid[j],
                updated == (updated_a || exists|j: int|
                    0 <= j < i && spec_device_due(
                        #[trigger] mid[j],
                        threshold,
                        self_chat,
                        device_chat,
                    )),
                ctx.chats == old(ctx).chats,
                ctx.jobs == old(ctx).jobs,
                ctx.events == old(ctx).events,
                ctx.ephemeral_task == old(ctx).ephemeral_task,
                ctx.self_chat_id == old(ctx).self_chat_id,
                ctx.device_chat_id == old(ctx).device_chat_id,
        {
            let due = ctx.msgs[i].timestamp < threshold && ctx.msgs[i].chat_id.0
                > DC_CHAT_ID_LAST_SPECIAL && ctx.msgs[i].chat_id != self_chat
                && ctx.msgs[i].chat_id != device_chat;
            proof {
                assert(ctx.msgs@[i as int] == mid[i as int]);
                assert(due == spec_device_due(mid[i as int], threshold, self_chat, device_chat));
            }
            if due {
                ctx.msgs[i].txt = String::from_str("DELETED");
                ctx.msgs[i].chat_id = ChatId(DC_CHAT_ID_TRASH);
                updated = true;
            }
        }
    }
    proof {
        assert forall|i: int| 0 <= i < n implies spec_sweep_row(
            old(ctx).msgs@[i],
            #[trigger] ctx.msgs@[i],
            now,
            delete_device_after,
            old(ctx).self_chat_id,
            old(ctx).device_chat_id,
        ) by {
            if spec_pass_a_due(old(ctx).msgs@[i], now) {
                assert(spec_redacted_a(old(ctx).msgs@[i], mid[i]));
                assert(mid[i].chat_id.0 == DC_CHAT_ID_TRASH);
            } else {
                assert(mid[i] == old(ctx).msgs@[i]);
            }
        }
        assert forall|i: int| 0 <= i < n implies (#[trigger] ctx.msgs@[i]).wf() by {
            assert(old(ctx).msgs@[i].wf());
            if spec_pass_a_due(old(ctx).msgs@[i], now) {
                assert(spec_redacted_a(old(ctx).msgs@[i], mid[i]));
            }
        }
        assert forall|i: int, j: int| 0 <= i < j < n implies (#[trigger] ctx.msgs@[i]).id != (
        #[trigger] ctx.msgs@[j]).id by {
            assert(old(ctx).msgs@[i].id != old(ctx).msgs@[j].id);
            assert(ctx.msgs@[i].id == old(ctx).msgs@[i].id);
            assert(ctx.msgs@[j].id == old(ctx).msgs@[j].id);
        }
        if let Some(d) = delete_device_after {
            assert forall|j: int|
                0 <= j < n && spec_device_due(
                    #[trigger] mid[j],
                    (now - d) as i64,
                    old(ctx).self_chat_id,
                    old(ctx).device_chat_id,
                ) implies !spec_pass_a_due(old(ctx).msgs@[j], now) && spec_device_due(
                old(ctx).msgs@[j],
                (now - d) as i64,
                old(ctx).self_chat_id,
                old(ctx).device_chat_id,
            ) by {
                if spec_pass_a_due(old(ctx).msgs@[j], now) {
                    assert(spec_redacted_a(old(ctx).msgs@[j], mid[j]));
                    assert(mid[j].chat_id.0 == DC_CHAT_ID_TRASH);
                }
            }
            assert forall|j: int|
                0 <= j < n && !spec_pass_a_due(#[trigger] old(ctx).msgs@[j], now)
                    && spec_device_due(
                    old(ctx).msgs@[j],
                    (now - d) as i64,
                    old(ctx).self_chat_id,
                    old(ctx).device_chat_id,
                ) implies spec_device_due(
                mid[j],
                (now - d) as i64,
                old(ctx).self_chat_id,
                old(ctx).device_chat_id,
            ) by {
                assert(mid[j] == old(ctx).msgs@[j]);
            }
        }
    }
    schedule_ephemeral_task(ctx, now);
    updated
}

/// Housekeeping repair: arms the expiry of every row whose own timer
/// was set but never started, except unseen and draft messages. This
/// catches start-on-seen calls lost to a crash or an older version.
pub fn start_ephemeral_timers(ctx: &mut Context, now: i64)
    requires
        old(ctx).wf(),
        0 <= now < MAX_CLOCK,
    ensures
        final(ctx).wf(),
        final(ctx).chats == old(ctx).chats,
        final(ctx).jobs == old(ctx).jobs,
        final(ctx).events == old(ctx).events,
        final(ctx).ephemeral_task == old(ctx).ephemeral_task,
        final(ctx).self_chat_id == old(ctx).self_chat_id,
        final(ctx).device_chat_id == old(ctx).device_chat_id,
        final(ctx).msgs@.len() == old(ctx).msgs@.len(),
        forall|i: int|
            0 <= i < old(ctx).msgs@.len() ==> final(ctx).msgs@[i] == spec_repair_row(
                old(ctx).msgs@[i],
                now,
            ),
{
    let n = ctx.msgs.len();
    for i in 0..n
        invariant
            n == ctx.msgs@.len(),
            n == old(ctx).msgs@.len(),
            0 <= now < MAX_CLOCK,
            forall|j: int|
                0 <= j < i ==> ctx.msgs@[j] == spec_repair_row(old(ctx).msgs@[j], now),
            forall|j: int| i <= j < n ==> ctx.msgs@[j] == old(ctx).msgs@[j],
            forall|j: int| 0 <= j < n ==> (#[trigger] old(ctx).msgs@[j]).wf(),
            forall|j: int, k: int|
                0 <= j < k < n ==> (#[trigger] old(ctx).msgs@[j]).id != (
                #[trigger] old(ctx).msgs@[k]).id,
            ctx.chats == old(ctx).chats,
            ctx.jobs == old(ctx).jobs,
            ctx.events == old(ctx).events,
            ctx.ephemeral_task == old(ctx).ephemeral_task,
            ctx.self_chat_id == old(ctx).self_chat_id,
            ctx.device_chat_id == old(ctx).device_chat_id,
    {
        let timer = ctx.msgs[i].ephemeral_timer;
        let state = ctx.msgs[i].state;
        let excluded = state == MessageState::InFresh || state == MessageState::InNoticed || state
            == MessageState::OutDraft;
        if timer > 0 && ctx.msgs[i].ephemeral_timestamp == 0 && !excluded {
            ctx.msgs[i].ephemeral_timestamp = now + timer;
        }
    }
    proof {
        assert forall|j: int| 0 <= j < ctx.msgs@.len() implies (#[trigger] ctx.msgs@[j]).wf()
            && ctx.msgs@[j].id == old(ctx).msgs@[j].id by {
            assert(ctx.msgs@[j] == spec_repair_row(old(ctx).msgs@[j], now));
        }
    }
}

/// Selects one message still present on the server whose expiry or
/// server-age bound has tripped and which no queued deletion job
/// targets yet: the next candidate for a server-side deletion job.
/// Returns the first such row, or nothing when none qualifies.
pub fn load_imap_deletion_msgid(ctx: &Context, now: i64, delete_server_after: Option<i64>) -> (r:
    Option<MsgId>)
    requires
        ctx.wf(),
        0 <= now,
        delete_server_after matches Some(d) ==> 0 < d,
    ensures
        match r {
            Some(m) => exists|i: int|
                0 <= i < ctx.msgs@.len() && ctx.msgs@[i].id == m && spec_deletion_candidate(
                    *ctx,
                    i,
                    now,
                    delete_server_after,
                ) && (forall|j: int|
                    0 <= j < i ==> !spec_deletion_candidate(*ctx, j, now, delete_server_after)),
            None => forall|i: int|
                0 <= i < ctx.msgs@.len() ==> !spec_deletion_candidate(
                    *ctx,
                    i,
                    now,
                    delete_server_after,
                ),
        },
{
    let threshold: i64 = match delete_server_after {
        None => 0,
        Some(d) => now - d,
    };
    let n = ctx.msgs.len();
    for i in 0..n
        invariant
            n == ctx.msgs@.len(),
            threshold == spec_server_threshold(now, delete_server_after),
            forall|j: int|
                0 <= j < i ==> !spec_deletion_candidate(*ctx, j, now, delete_server_after),
    {
        let m = &ctx.msgs[i];
        let due = (m.timestamp < threshold || (m.ephemeral_timestamp != 0 && m.ephemeral_timestamp
            <= now)) && m.server_uid != 0;
        if due && !ctx.has_job(JobAction::DeleteMsgOnImap, m.id.to_u32()) {
            assert(spec_deletion_candidate(*ctx, i as int, now, delete_server_after));
            return Some(ctx.msgs[i].id);
        }
        assert(!spec_deletion_candidate(*ctx, i as int, now, delete_server_after));
    }
    None
}

/// Once a deletion job for a message is queued, that message is no
/// longer a deletion candidate: selection cannot yield it again until
/// the job executor removes the job.
pub proof fn lemma_at_most_one_job(
    ctx: Context,
    i: int,
    now: i64,
    delete_server_after: Option<i64>,
    m: MsgId,
)
    requires
        0 <= i < ctx.msgs@.len(),
        ctx.msgs@[i].id == m,
        ctx.spec_has_job(JobAction::DeleteMsgOnImap, m.0),
    ensures
        !spec_deletion_candidate(ctx, i, now, delete_server_after),
{
}

/// The self and device chats are exempt from the device-age pass:
/// their rows leave a sweep unchanged unless their own per-message
/// expiry was due.
pub proof fn lemma_self_device_exempt(
    pre: MsgRow,
    post: MsgRow,
    now: i64,
    delete_device_after: Option<i64>,
    self_chat: ChatId,
    device_chat: ChatId,
)
    requires
        spec_sweep_row(pre, post, now, delete_device_after, self_chat, device_chat),
        pre.chat_id == self_chat || pre.chat_id == device_chat,
        !spec_pass_a_due(pre, now),
    ensures
        post == pre,
{
}

/// Arming is monotone-earlier: once armed, further start calls with
/// any positive deadline can only keep the timestamp or move it
/// earlier, never increase it.
pub proof fn lemma_start_monotone(ts: i64, deadline1: i64, deadline2: i64)
    requires
        0 < deadline1,
        0 < deadline2,
    ensures
        spec_armed_timestamp(spec_armed_timestamp(ts, deadline1), deadline2)
            <= spec_armed_timestamp(ts, deadline1),
{
}

} // verus!
