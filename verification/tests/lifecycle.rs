use ephemeral::chat::insert_fresh_msg;
use ephemeral::chat::EphemeralError;
use ephemeral::chat::SystemMessage;
use ephemeral::chat::Viewtype;
use ephemeral::expiry::delete_expired_messages;
use ephemeral::expiry::load_imap_deletion_msgid;
use ephemeral::expiry::start_ephemeral_timers;
use ephemeral::scheduler::schedule_ephemeral_task;
use ephemeral::store::ChatId;
use ephemeral::store::ChatRow;
use ephemeral::store::Context;
use ephemeral::store::Event;
use ephemeral::store::JobAction;
use ephemeral::store::JobRow;
use ephemeral::store::MessageState;
use ephemeral::store::MsgId;
use ephemeral::store::MsgRow;
use ephemeral::store::DC_CHAT_ID_TRASH;
use ephemeral::OutOfRangeError;
use ephemeral::Timer;

fn new_context() -> Context {
    // Self chat and device chat are ordinary rows above the reserved range.
    let mut ctx = Context::new(ChatId(10), ChatId(11));
    ctx.insert_chat(ChatRow { id: ChatId(10), ephemeral_timer: 0 });
    ctx.insert_chat(ChatRow { id: ChatId(11), ephemeral_timer: 0 });
    ctx.insert_chat(ChatRow { id: ChatId(12), ephemeral_timer: 0 });
    ctx
}

fn payload_msg(id: u32, chat_id: u32, timer: i64, ts: i64, timestamp: i64) -> MsgRow {
    MsgRow {
        id: MsgId(id),
        chat_id: ChatId(chat_id),
        ephemeral_timer: timer,
        ephemeral_timestamp: ts,
        timestamp,
        server_uid: 0,
        state: MessageState::InSeen,
        from_id: 21,
        to_id: 22,
        txt: "hello".to_string(),
        subject: "subject line".to_string(),
        txt_raw: "raw text".to_string(),
        mime_headers: "Received: mail".to_string(),
        param: "a=1".to_string(),
    }
}

#[test]
fn test_ephemeral_timer() {
    // Alice and Bob each hold their own state for their shared 1:1 chat.
    let mut alice = new_context();
    let mut bob = new_context();
    let chat_alice = ChatId(12);
    let chat_bob = ChatId(12);

    assert_eq!(chat_bob.get_ephemeral_timer(&bob), Ok(Timer::Disabled));

    // Bob sets the timer; a system message about the change is composed.
    let sent_timer_change = chat_bob
        .set_ephemeral_timer(&mut bob, Timer::Enabled { duration: 60 })
        .unwrap()
        .unwrap();
    assert_eq!(
        chat_bob.get_ephemeral_timer(&bob),
        Ok(Timer::Enabled { duration: 60 })
    );

    // Bob receives Alice's older message, still carrying no timer. The
    // ingest collaborator does not lower the timer for a reply to an
    // old message, so no silent write happens on Bob's side.
    assert_eq!(chat_alice.get_ephemeral_timer(&alice), Ok(Timer::Disabled));
    assert_eq!(
        chat_bob.get_ephemeral_timer(&bob),
        Ok(Timer::Enabled { duration: 60 })
    );

    // Alice receives Bob's timer change: ingest applies the carried
    // value through the silent setter.
    assert_eq!(sent_timer_change.cmd, SystemMessage::EphemeralTimerChanged);
    chat_alice
        .inner_set_ephemeral_timer(&mut alice, Timer::Enabled { duration: 60 })
        .unwrap();
    assert_eq!(
        chat_alice.get_ephemeral_timer(&alice),
        Ok(Timer::Enabled { duration: 60 })
    );
}

#[test]
fn test_ephemeral_delete_msgs() {
    let mut t = new_context();
    let self_chat = ChatId(10);
    let now: i64 = 1_000_000;

    insert_fresh_msg(
        &mut t,
        MsgId(1),
        self_chat,
        21,
        21,
        "Saved message, which we delete manually".to_string(),
        String::new(),
        now,
        MessageState::InSeen,
        0,
    )
    .unwrap();
    // Manual deletion is the message collaborator's work: the row goes away.
    t.msgs.clear();
    assert!(t.get_msg(MsgId(1)).is_none());

    self_chat
        .set_ephemeral_timer(&mut t, Timer::Enabled { duration: 1 })
        .unwrap();
    insert_fresh_msg(
        &mut t,
        MsgId(2),
        self_chat,
        21,
        21,
        "Saved message, disappearing after 1s".to_string(),
        String::new(),
        now,
        MessageState::InSeen,
        0,
    )
    .unwrap();
    MsgId(2).start_ephemeral_timer(&mut t, now).unwrap();

    // More than one second passes before the next sweep.
    let updated = delete_expired_messages(&mut t, now + 2, None);
    assert!(updated);
    let row = t.get_msg(MsgId(2)).unwrap();
    assert_eq!(row.chat_id, ChatId(DC_CHAT_ID_TRASH));
    assert_eq!(row.txt, "");

    // A remote copy exists, so the server-side deletion becomes due.
    for m in t.msgs.iter_mut() {
        if m.id == MsgId(2) {
            m.server_uid = 1;
        }
    }
    let job = load_imap_deletion_msgid(&t, now + 2, None);
    assert_eq!(job, Some(MsgId(2)));
    // The executor fails on the first try; the job is saved to the queue.
    t.insert_job(JobRow { action: JobAction::DeleteMsgOnImap, foreign_id: 2 });

    // Loading again must not produce a second job for the same message.
    let job2 = load_imap_deletion_msgid(&t, now + 2, None);
    assert_eq!(job2, None);
}

#[test]
fn test_set_silent_convergence() {
    let mut ctx = new_context();
    let chat = ChatId(12);
    let writes = [
        Timer::Enabled { duration: 5 },
        Timer::Disabled,
        Timer::Enabled { duration: 60 },
        Timer::Enabled { duration: 60 },
        Timer::Enabled { duration: 7 },
    ];
    for w in writes {
        chat.inner_set_ephemeral_timer(&mut ctx, w).unwrap();
        assert_eq!(chat.get_ephemeral_timer(&ctx), Ok(w));
    }
    assert_eq!(
        chat.get_ephemeral_timer(&ctx),
        Ok(Timer::Enabled { duration: 7 })
    );
    assert_eq!(ctx.events.len(), writes.len());
    assert_eq!(
        ctx.events[4],
        Event::ChatEphemeralTimerModified {
            chat_id: chat,
            timer: Timer::Enabled { duration: 7 },
        }
    );
}

#[test]
fn test_set_rejects_special_chat() {
    let mut ctx = new_context();
    let r = ChatId(9).inner_set_ephemeral_timer(&mut ctx, Timer::Enabled { duration: 5 });
    assert_eq!(r, Err(EphemeralError::InvalidChatId));
    let r = ChatId(DC_CHAT_ID_TRASH).set_ephemeral_timer(&mut ctx, Timer::Enabled { duration: 5 });
    assert!(matches!(r, Err(EphemeralError::InvalidChatId)));
    assert!(ctx.events.is_empty());
}

#[test]
fn test_set_same_value_is_noop() {
    let mut ctx = new_context();
    let chat = ChatId(12);
    let first = chat
        .set_ephemeral_timer(&mut ctx, Timer::Enabled { duration: 60 })
        .unwrap();
    let msg = first.unwrap();
    assert_eq!(msg.viewtype, Viewtype::Text);
    assert_eq!(msg.text, "Message deletion timer is set to 1 minute by me.");
    assert_eq!(ctx.events.len(), 1);

    let second = chat
        .set_ephemeral_timer(&mut ctx, Timer::Enabled { duration: 60 })
        .unwrap();
    assert!(second.is_none());
    assert_eq!(ctx.events.len(), 1);
}

#[test]
fn test_get_out_of_range_column() {
    let mut ctx = new_context();
    ctx.insert_chat(ChatRow { id: ChatId(13), ephemeral_timer: -4 });
    assert_eq!(ChatId(13).get_ephemeral_timer(&ctx), Err(OutOfRangeError));
    let r = ChatId(13).set_ephemeral_timer(&mut ctx, Timer::Disabled);
    assert_eq!(r.unwrap_err(), EphemeralError::OutOfRange);

    ctx.insert_msg(payload_msg(5, 12, u32::MAX as i64 + 7, 0, 100));
    assert_eq!(MsgId(5).ephemeral_timer(&ctx), Err(OutOfRangeError));
    assert_eq!(
        MsgId(5).start_ephemeral_timer(&mut ctx, 200),
        Err(OutOfRangeError)
    );
}

#[test]
fn test_disappearing_message_payload_erased() {
    let mut ctx = new_context();
    let chat = ChatId(12);
    let now: i64 = 500_000;
    chat.set_ephemeral_timer(&mut ctx, Timer::Enabled { duration: 1 })
        .unwrap();
    let mut row = payload_msg(1, 12, 1, 0, now);
    row.txt = "hi".to_string();
    row.server_uid = 7;
    ctx.insert_msg(row);

    // Marking seen arms the countdown.
    MsgId(1).start_ephemeral_timer(&mut ctx, now).unwrap();
    let armed = ctx.get_msg(MsgId(1)).unwrap().ephemeral_timestamp;
    assert_eq!(armed, now + 1);

    let updated = delete_expired_messages(&mut ctx, now + 2, None);
    assert!(updated);
    let m = ctx.get_msg(MsgId(1)).unwrap();
    assert_eq!(m.chat_id, ChatId(DC_CHAT_ID_TRASH));
    assert_eq!(m.txt, "");
    assert_eq!(m.subject, "");
    assert_eq!(m.txt_raw, "");
    assert_eq!(m.mime_headers, "");
    assert_eq!(m.param, "");
    assert_eq!(m.from_id, 0);
    assert_eq!(m.to_id, 0);
    // The server bookkeeping survives the local redaction.
    assert_eq!(m.server_uid, 7);
    assert_eq!(m.ephemeral_timestamp, now + 1);

    // A second sweep finds nothing further to do.
    let updated_again = delete_expired_messages(&mut ctx, now + 3, None);
    assert!(!updated_again);
}

#[test]
fn test_device_age_sweep() {
    let mut ctx = new_context();
    let now: i64 = 1_000;
    ctx.insert_msg(payload_msg(1, 12, 0, 0, now - 200));
    ctx.insert_msg(payload_msg(2, 10, 0, 0, now - 200));
    ctx.insert_msg(payload_msg(3, 11, 0, 0, now - 200));
    ctx.insert_msg(payload_msg(4, 12, 0, 0, now - 50));

    let updated = delete_expired_messages(&mut ctx, now, Some(100));
    assert!(updated);

    // The old message in an ordinary chat is entombed with the marker.
    let m = ctx.get_msg(MsgId(1)).unwrap();
    assert_eq!(m.chat_id, ChatId(DC_CHAT_ID_TRASH));
    assert_eq!(m.txt, "DELETED");
    assert_eq!(m.subject, "subject line");

    // The self chat and the device chat are exempt.
    let m = ctx.get_msg(MsgId(2)).unwrap();
    assert_eq!(m.chat_id, ChatId(10));
    assert_eq!(m.txt, "hello");
    let m = ctx.get_msg(MsgId(3)).unwrap();
    assert_eq!(m.chat_id, ChatId(11));
    assert_eq!(m.txt, "hello");

    // A younger message stays.
    let m = ctx.get_msg(MsgId(4)).unwrap();
    assert_eq!(m.chat_id, ChatId(12));

    // Without the configured bound nothing is entombed.
    let mut other = new_context();
    other.insert_msg(payload_msg(1, 12, 0, 0, now - 200));
    assert!(!delete_expired_messages(&mut other, now, None));
    assert_eq!(other.get_msg(MsgId(1)).unwrap().chat_id, ChatId(12));
}

#[test]
fn test_start_timer_monotone_earlier() {
    let mut ctx = new_context();
    ctx.insert_msg(payload_msg(1, 12, 100, 0, 900));

    MsgId(1).start_ephemeral_timer(&mut ctx, 1_000).unwrap();
    assert_eq!(ctx.get_msg(MsgId(1)).unwrap().ephemeral_timestamp, 1_100);

    // A later call with a later deadline never increases the timestamp.
    MsgId(1).start_ephemeral_timer(&mut ctx, 2_000).unwrap();
    assert_eq!(ctx.get_msg(MsgId(1)).unwrap().ephemeral_timestamp, 1_100);

    // An earlier deadline re-arms earlier.
    MsgId(1).start_ephemeral_timer(&mut ctx, 500).unwrap();
    assert_eq!(ctx.get_msg(MsgId(1)).unwrap().ephemeral_timestamp, 600);

    // A disabled per-message timer never arms anything.
    ctx.insert_msg(payload_msg(2, 12, 0, 0, 900));
    MsgId(2).start_ephemeral_timer(&mut ctx, 1_000).unwrap();
    assert_eq!(ctx.get_msg(MsgId(2)).unwrap().ephemeral_timestamp, 0);
}

#[test]
fn test_scheduler_rearms_earliest() {
    let mut ctx = new_context();
    let now: i64 = 10_000;
    ctx.insert_msg(payload_msg(1, 12, 10, 0, now));
    ctx.insert_msg(payload_msg(2, 12, 5, 0, now));

    MsgId(1).start_ephemeral_timer(&mut ctx, now).unwrap();
    assert_eq!(ctx.ephemeral_task, Some(now + 10 + 1));

    MsgId(2).start_ephemeral_timer(&mut ctx, now).unwrap();
    assert_eq!(ctx.ephemeral_task, Some(now + 5 + 1));

    // Once the earliest deadline has passed, rescheduling fires the
    // broadcast refresh instead of arming a task.
    let events_before = ctx.events.len();
    schedule_ephemeral_task(&mut ctx, now + 7);
    assert_eq!(ctx.ephemeral_task, None);
    assert_eq!(ctx.events.len(), events_before + 1);
    assert_eq!(
        ctx.events[events_before],
        Event::MsgsChanged { chat_id: ChatId(0), msg_id: MsgId(0) }
    );

    // Redacted rows no longer count toward the horizon.
    delete_expired_messages(&mut ctx, now + 20, None);
    schedule_ephemeral_task(&mut ctx, now + 21);
    assert_eq!(ctx.ephemeral_task, None);
}

#[test]
fn test_housekeeping_repairs_unarmed_timers() {
    let mut ctx = new_context();
    let now: i64 = 5_000;
    let mut fresh = payload_msg(1, 12, 50, 0, now);
    fresh.state = MessageState::InFresh;
    ctx.insert_msg(fresh);
    let mut noticed = payload_msg(2, 12, 50, 0, now);
    noticed.state = MessageState::InNoticed;
    ctx.insert_msg(noticed);
    let mut draft = payload_msg(3, 12, 50, 0, now);
    draft.state = MessageState::OutDraft;
    ctx.insert_msg(draft);
    ctx.insert_msg(payload_msg(4, 12, 50, 0, now));
    ctx.insert_msg(payload_msg(5, 12, 0, 0, now));
    ctx.insert_msg(payload_msg(6, 12, 50, 123, now));

    start_ephemeral_timers(&mut ctx, now);

    // Unseen and draft messages must not start counting down.
    assert_eq!(ctx.get_msg(MsgId(1)).unwrap().ephemeral_timestamp, 0);
    assert_eq!(ctx.get_msg(MsgId(2)).unwrap().ephemeral_timestamp, 0);
    assert_eq!(ctx.get_msg(MsgId(3)).unwrap().ephemeral_timestamp, 0);
    // A seen message with a never-armed timer is repaired.
    assert_eq!(ctx.get_msg(MsgId(4)).unwrap().ephemeral_timestamp, now + 50);
    // No per-message timer, nothing to arm; an armed row is untouched.
    assert_eq!(ctx.get_msg(MsgId(5)).unwrap().ephemeral_timestamp, 0);
    assert_eq!(ctx.get_msg(MsgId(6)).unwrap().ephemeral_timestamp, 123);
}

#[test]
fn test_fresh_msg_inherits_chat_timer() {
    let mut ctx = new_context();
    let chat = ChatId(12);
    insert_fresh_msg(
        &mut ctx,
        MsgId(1),
        chat,
        21,
        22,
        "a".to_string(),
        String::new(),
        100,
        MessageState::InSeen,
        0,
    )
    .unwrap();
    assert_eq!(ctx.get_msg(MsgId(1)).unwrap().ephemeral_timer, 0);

    chat.set_ephemeral_timer(&mut ctx, Timer::Enabled { duration: 60 })
        .unwrap();
    insert_fresh_msg(
        &mut ctx,
        MsgId(2),
        chat,
        21,
        22,
        "b".to_string(),
        String::new(),
        101,
        MessageState::InSeen,
        0,
    )
    .unwrap();
    assert_eq!(ctx.get_msg(MsgId(2)).unwrap().ephemeral_timer, 60);
    assert_eq!(ctx.get_msg(MsgId(2)).unwrap().ephemeral_timestamp, 0);
}

#[test]
fn test_load_imap_deletion_server_age() {
    let mut ctx = new_context();
    let now: i64 = 10_000;
    let mut old_remote = payload_msg(1, 12, 0, 0, now - 200);
    old_remote.server_uid = 4;
    ctx.insert_msg(old_remote);
    let mut old_local_only = payload_msg(2, 12, 0, 0, now - 200);
    old_local_only.server_uid = 0;
    ctx.insert_msg(old_local_only);

    // Without the server-age bound, nothing is due.
    assert_eq!(load_imap_deletion_msgid(&ctx, now, None), None);

    // With it, only the row that still has a remote copy qualifies.
    assert_eq!(load_imap_deletion_msgid(&ctx, now, Some(100)), Some(MsgId(1)));

    // A queued job suppresses reselection; removal by the executor
    // makes the message selectable again.
    ctx.insert_job(JobRow { action: JobAction::DeleteMsgOnImap, foreign_id: 1 });
    assert_eq!(load_imap_deletion_msgid(&ctx, now, Some(100)), None);
    ctx.jobs.clear();
    assert_eq!(load_imap_deletion_msgid(&ctx, now, Some(100)), Some(MsgId(1)));
}
