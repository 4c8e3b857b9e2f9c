//! The wake-up scheduler: a single task slot armed at the earliest
//! pending local expiry plus a one-second cushion against clock skew.

use vstd::prelude::*;

use crate::store::ChatId;
use crate::store::Context;
use crate::store::Event;
use crate::store::MsgId;
use crate::store::MsgRow;
use crate::store::MAX_DEADLINE;

verus! {

/// A row still counts toward the wake-up horizon: its expiry is armed
/// and it has not been redacted into the trash chat yet.
pub open spec fn spec_live_armed(m: MsgRow) -> bool {
    m.ephemeral_timestamp != 0 && !m.chat_id.spec_is_trash()
}

/// The earliest armed expiry timestamp among live rows, if any.
pub open spec fn spec_min_ts(msgs: Seq<MsgRow>) -> Option<i64>
    decreases msgs.len(),
{
    if msgs.len() == 0 {
        None
    } else {
        let head = spec_min_ts(msgs.drop_last());
        let m = msgs.last();
        if spec_live_armed(m) {
            match head {
                None => Some(m.ephemeral_timestamp),
                Some(h) => if m.ephemeral_timestamp < h {
                    Some(m.ephemeral_timestamp)
                } else {
                    Some(h)
                },
            }
        } else {
            head
        }
    }
}

/// The broadcast-everywhere refresh notification.
pub open spec fn spec_refresh_event() -> Event {
    Event::MsgsChanged { chat_id: ChatId(0), msg_id: MsgId(0) }
}

/// What one reschedule leaves in the event log and the task slot:
/// with nothing armed the slot is empty; an overdue horizon fires the
/// refresh at once and leaves the slot empty; a future horizon arms
/// the slot at the horizon plus the one-second cushion.
pub open spec fn spec_wakeup(msgs: Seq<MsgRow>, events: Seq<Event>, now: i64) -> (
    Seq<Event>,
    Option<i64>,
) {
    match spec_min_ts(msgs) {
        None => (events, None::<i64>),
        Some(t) => if t + 1 <= now {
            (events.push(spec_refresh_event()), None::<i64>)
        } else {
            (events, Some((t + 1) as i64))
        },
    }
}

/// The horizon is the minimum over the live armed rows: it is the
/// timestamp of one of them and no larger than any of them, and it is
/// absent exactly when no live armed row exists.
pub proof fn lemma_min_ts_characterization(msgs: Seq<MsgRow>)
    ensures
        spec_min_ts(msgs) is None ==> forall|i: int|
            0 <= i < msgs.len() ==> !spec_live_armed(#[trigger] msgs[i]),
        spec_min_ts(msgs) matches Some(t) ==> {
            &&& exists|i: int|
                0 <= i < msgs.len() && spec_live_armed(#[trigger] msgs[i])
                    && msgs[i].ephemeral_timestamp == t
            &&& forall|i: int|
                0 <= i < msgs.len() && spec_live_armed(#[trigger] msgs[i])
                    ==> t <= msgs[i].ephemeral_timestamp
        },
    decreases msgs.len(),
{
    if msgs.len() > 0 {
        let head = msgs.drop_last();
        let m = msgs.last();
        lemma_min_ts_characterization(head);
        match spec_min_ts(msgs) {
            None => {
                assert forall|i: int| 0 <= i < msgs.len() implies !spec_live_armed(
                    #[trigger] msgs[i],
                ) by {
                    if i < msgs.len() - 1 {
                        assert(head[i] == msgs[i]);
                        assert(!spec_live_armed(head[i]));
                    } else {
                        assert(msgs[i] == m);
                    }
                }
            },
            Some(t) => {
                assert forall|i: int|
                    0 <= i < msgs.len() && spec_live_armed(#[trigger] msgs[i]) implies t
                    <= msgs[i].ephemeral_timestamp by {
                    if i < msgs.len() - 1 {
                        assert(head[i] == msgs[i]);
                        assert(spec_live_armed(head[i]));
                    } else {
                        assert(msgs[i] == m);
                    }
                }
                if spec_live_armed(m) && (match spec_min_ts(head) {
                    None => true,
                    Some(h) => m.ephemeral_timestamp < h,
                }) {
                    assert(spec_live_armed(msgs[msgs.len() - 1]) && msgs[msgs.len()
                        - 1].ephemeral_timestamp == t);
                } else {
                    let i = choose|i: int|
                        0 <= i < head.len() && spec_live_armed(#[trigger] head[i])
                            && head[i].ephemeral_timestamp == t;
                    assert(head[i] == msgs[i]);
                    assert(spec_live_armed(msgs[i]) && msgs[i].ephemeral_timestamp == t);
                }
            },
        }
    }
}

/// Re-arms the wake-up task slot from the earliest pending local
/// expiry. Any armed task is cancelled first; if the horizon is
/// already past, the refresh event is emitted immediately instead of
/// arming a task.
pub fn schedule_ephemeral_task(ctx: &mut Context, now: i64)
    requires
        old(ctx).wf(),
        0 <= now,
    ensures
        final(ctx).wf(),
        final(ctx).chats == old(ctx).chats,
        final(ctx).msgs == old(ctx).msgs,
        final(ctx).jobs == old(ctx).jobs,
        final(ctx).self_chat_id == old(ctx).self_chat_id,
        final(ctx).device_chat_id == old(ctx).device_chat_id,
        (final(ctx).events@, final(ctx).ephemeral_task) == spec_wakeup(
            old(ctx).msgs@,
            old(ctx).events@,
            now,
        ),
{
    let n = ctx.msgs.len();
    let mut min_ts: Option<i64> = None;
    for i in 0..n
        invariant
            ctx.wf(),
            n == ctx.msgs@.len(),
            min_ts == spec_min_ts(ctx.msgs@.subrange(0, i as int)),
    {
        let m = &ctx.msgs[i];
        let live = m.ephemeral_timestamp != 0 && !m.chat_id.is_trash();
        if live {
            min_ts = match min_ts {
                None => Some(m.ephemeral_timestamp),
                Some(h) => if m.ephemeral_timestamp < h {
                    Some(m.ephemeral_timestamp)
                } else {
                    Some(h)
                },
            };
        }
        proof {
            assert(ctx.msgs@.subrange(0, i + 1 as int).drop_last() =~= ctx.msgs@.subrange(
                0,
                i as int,
            ));
            assert(ctx.msgs@.subrange(0, i + 1 as int).last() == ctx.msgs@[i as int]);
        }
    }
    proof {
        assert(ctx.msgs@.subrange(0, n as int) =~= ctx.msgs@);
    }
    // Cancel any armed task before replacing it: at most one at a time.
    ctx.ephemeral_task = None;
    match min_ts {
        None => {},
        Some(t) => {
            proof {
                lemma_min_ts_characterization(ctx.msgs@);
                let i = choose|i: int|
                    0 <= i < ctx.msgs@.len() && spec_live_armed(#[trigger] ctx.msgs@[i])
                        && ctx.msgs@[i].ephemeral_timestamp == t;
                assert(ctx.msgs@[i].wf());
            }
            let deadline = t + 1;
            if deadline <= now {
                ctx.events.push(Event::MsgsChanged { chat_id: ChatId(0), msg_id: MsgId(0) });
            } else {
                ctx.ephemeral_task = Some(deadline);
            }
        },
    }
}

} // verus!
