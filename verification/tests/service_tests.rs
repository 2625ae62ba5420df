use kn_bot::clock::UtcTime;
use kn_bot::completion::{read_completion, reply_from_body, reply_from_content, status_is_success, AiError};
use kn_bot::mail::{card_mail, newsletter_mail};
use kn_bot::newsletter::{newsletter_due, newsletter_due_now, newsletter_prompt, Newsletter, NewsletterAction, NewsletterEvent, Subscriber};
use kn_bot::subscription::{
    set_subscription, set_subscription_at, status_reply, subscribe_reply, subscription_changed,
    subscription_row_at, subscription_status, subscription_status_at, unsubscribe_reply, write_needed, DbError,
    StatusRow,
};
use kn_bot::text::{PROMPT_OFFICE, PROMPT_ZAVOD};

/// The time a subscription row with this stored time is reported to start at.
fn at(text: &str) -> UtcTime {
    match subscription_status(StatusRow::Found { email: String::new(), subscribed_at: text.to_string() }) {
        Ok(Some((_, time))) => time,
        _ => panic!("a subscription was expected"),
    }
}

fn shown(time: UtcTime) -> String {
    let reply = status_reply(&Ok(Some((String::new(), time))));
    reply.rsplit(": ").next().unwrap().to_string()
}

#[test]
fn completion_content_is_trimmed() {
    let body = r#"{"choices":[{"message":{"role":"assistant","content":"  Всё в порядке.\n"}}]}"#;
    assert_eq!(read_completion(200, body.as_bytes(), "").unwrap(), "Всё в порядке.");
    assert_eq!(reply_from_content(Some(" a ".to_string())).unwrap(), "a");
    let second = br#"{"id":7,"choices":[{"index":0,"message":{"content":"first","role":"assistant"}},{"message":{"content":"second"}}],"usage":{"total":1.5}}"#;
    assert_eq!(reply_from_body(second).unwrap(), "first");
    let repeated = br#"{"choices":[{"message":{"content":"old","content":"new"}}]}"#;
    assert_eq!(reply_from_body(repeated).unwrap(), "new");
    assert!(matches!(reply_from_content(None), Err(AiError::NoContent)));
}

#[test]
fn completion_errors() {
    match read_completion(429, b"slow down", "slow down") {
        Err(AiError::Status { code, body }) => {
            assert_eq!(code, 429);
            assert_eq!(body, "slow down");
        }
        other => panic!("unexpected {other:?}"),
    }
    assert!(matches!(reply_from_body(b"not json"), Err(AiError::InvalidJson)));
    assert!(matches!(reply_from_body(br#"{"choices":[]}"#), Err(AiError::NoContent)));
    assert!(matches!(reply_from_body(br#"{"choices":[{"message":{"content":5}}]}"#), Err(AiError::NoContent)));
    assert!(matches!(reply_from_body(br#"{"choices":{"0":{"message":{"content":"x"}}}}"#), Err(AiError::NoContent)));
    assert!(matches!(reply_from_body(br#"[1, 2]"#), Err(AiError::NoContent)));
    assert!(matches!(reply_from_body(br#"{"choices":[{"message":{"role":"assistant"}}]}"#), Err(AiError::NoContent)));
    assert!(matches!(reply_from_body(br#"{"choices":[{"message":{"content":null}}]}"#), Err(AiError::NoContent)));
    assert!(matches!(reply_from_body(b""), Err(AiError::InvalidJson)));
    assert!(status_is_success(200) && status_is_success(299));
    assert!(!status_is_success(199) && !status_is_success(300) && !status_is_success(500));
}

#[test]
fn times_are_read_and_shown() {
    let t = at("2024-03-03T10:15:30+03:00");
    assert_eq!(subscription_row_at(1, "", true, &t).subscribed_at, "2024-03-03T07:15:30+00:00");
    assert!(!newsletter_due(&t));
    assert_eq!(shown(t), "03.03.2024 07:15");
    let fallback = at("2001-02-03T04:05:06Z");
    let unreadable = subscription_status_at(
        StatusRow::Found { email: String::new(), subscribed_at: "2 марта".into() },
        fallback,
    );
    assert!(status_reply(&unreadable).ends_with("03.02.2001 04:05"));
    assert_eq!(
        subscription_row_at(1, "", true, &at("2024-02-29T23:30:00.123456789Z")).subscribed_at,
        "2024-02-29T23:30:00.123456789+00:00"
    );
    assert!(newsletter_due(&at("2025-11-02T23:59:59Z")));
    assert!(!newsletter_due(&at("2025-11-02T23:59:59-01:00")));
    assert!(!newsletter_due(&at("2025-11-12T10:00:00Z")));
}

#[test]
fn subscription_rows() {
    let now = at("2024-05-06T07:08:09Z");
    let row = subscription_row_at(42, "a@b.c", true, &now);
    assert_eq!(row.user_id, 42);
    assert_eq!(row.email, "a@b.c");
    assert_eq!(row.subscribed_at, "2024-05-06T07:08:09+00:00");
    assert_eq!(row.is_active, 1);
    assert_eq!(subscription_row_at(u64::MAX, "", false, &now).user_id, -1);
    assert!(set_subscription_at(Some(1), 42, "a@b.c", true, &now).is_none());
    assert!(set_subscription_at(Some(0), 42, "", false, &now).is_none());
    assert_eq!(set_subscription_at(Some(0), 42, "a@b.c", true, &now).unwrap().is_active, 1);
    assert!(set_subscription_at(None, 42, "", false, &now).is_none());
    assert_eq!(set_subscription_at(Some(1), 42, "", false, &now).unwrap().is_active, 0);
    assert_eq!(set_subscription_at(None, 42, "a@b.c", true, &now).unwrap().is_active, 1);
    assert!(set_subscription(None, 42, "", false).is_none());
    let fresh = set_subscription(None, 7, "q@w.e", true).unwrap();
    assert!(subscription_status(StatusRow::Found { email: String::new(), subscribed_at: fresh.subscribed_at.clone() }).is_ok());
    assert!(set_subscription(Some(1), 7, "q@w.e", true).is_none());
}

#[test]
fn subscription_replies() {
    assert!(matches!(subscription_changed(Ok(Some(()))), Ok(true)));
    assert!(matches!(subscription_changed(Ok(None)), Ok(false)));
    assert!(subscription_changed(Err(DbError { message: "x".into() })).is_err());
    assert!(subscribe_reply(&Ok(true)).starts_with("✅ Вы успешно подписались на рассылку карт наблюдения!\n📅 Рассылка"));
    assert_eq!(subscribe_reply(&Ok(false)), "Вы уже подписаны на рассылку.");
    assert_eq!(subscribe_reply(&Err(DbError { message: "x".into() })), "Ошибка при подписке. Попробуйте позже.");
    assert_eq!(unsubscribe_reply(&Ok(true)), "Вы отписались от рассылки карт наблюдения.");
    assert_eq!(unsubscribe_reply(&Ok(false)), "Вы не были подписаны на рассылку.");
    assert_eq!(unsubscribe_reply(&Err(DbError { message: "x".into() })), "Ошибка при отписке. Попробуйте позже.");
}

#[test]
fn subscription_status_reports() {
    let now = at("2030-01-01T00:00:00Z");
    let found = StatusRow::Found { email: "a@b.c".into(), subscribed_at: "2024-05-06T07:08:09+00:00".into() };
    let status = subscription_status_at(found, now);
    assert_eq!(
        status_reply(&status),
        "📋 Статус подписки:\n✅ Подписан на рассылку\n📧 Почта: a@b.c\n📅 Подписан с: 06.05.2024 07:08"
    );
    let unreadable = StatusRow::Found { email: "a@b.c".into(), subscribed_at: "вчера".into() };
    let status = subscription_status_at(unreadable, at("2030-01-01T00:00:00Z"));
    assert!(status_reply(&status).ends_with("Подписан с: 01.01.2030 00:00"));
    let status = subscription_status(StatusRow::Missing);
    assert_eq!(status_reply(&status), "Вы не подписаны на рассылку.\nДля подписки используйте /subscribe");
    let status = subscription_status(StatusRow::Failed(DbError { message: "locked".into() }));
    assert_eq!(status_reply(&status), "Ошибка при проверке статуса.");
    let status = subscription_status(StatusRow::Found { email: "e".into(), subscribed_at: "2024-05-06T07:08:09Z".into() });
    assert!(status_reply(&status).ends_with("06.05.2024 07:08"));
}

#[test]
fn mails() {
    let m = newsletter_mail("s@t.u", "Текст");
    assert_eq!(m.subject, "Карта наблюдения - ежемесячная рассылка");
    assert_eq!(m.body, "Текст \n\n\nBy tgbot: @ez_card_ai_bot");
    assert_eq!(m.to_address, "s@t.u");
    assert_eq!(card_mail("s@t.u", "").body, " \n\n\nBy tgbot: @ez_card_ai_bot");
}

fn subscribers() -> Vec<Subscriber> {
    vec![
        Subscriber { user_id: 1, email: "one@x.ru".into() },
        Subscriber { user_id: 4, email: "two@x.ru".into() },
    ]
}

#[test]
fn newsletter_round() {
    let (mut round, first) = Newsletter::start(subscribers());
    match first {
        NewsletterAction::Generate { user_id, prompt } => {
            assert_eq!(user_id, 1);
            assert_eq!(prompt, PROMPT_ZAVOD);
        }
        _ => panic!("expected a card request"),
    }
    match round.step(NewsletterEvent::Generated(Ok("Карта 1".into()))) {
        NewsletterAction::Deliver { user_id, draft } => {
            assert_eq!(user_id, 1);
            assert_eq!(draft.to_address, "one@x.ru");
            assert_eq!(draft.body, "Карта 1 \n\n\nBy tgbot: @ez_card_ai_bot");
        }
        _ => panic!("expected a delivery"),
    }
    assert!(!round.accepts(&NewsletterEvent::Paused));
    assert!(matches!(round.step(NewsletterEvent::Delivered), NewsletterAction::Pause { seconds: 10 }));
    match round.step(NewsletterEvent::Paused) {
        NewsletterAction::Generate { user_id, prompt } => {
            assert_eq!(user_id, 4);
            assert_eq!(prompt, PROMPT_OFFICE);
        }
        _ => panic!("expected a card request"),
    }
    assert!(matches!(round.step(NewsletterEvent::Generated(Err(AiError::NoContent))), NewsletterAction::Pause { seconds: 10 }));
    assert!(matches!(round.step(NewsletterEvent::Paused), NewsletterAction::Finish));
}

#[test]
fn newsletter_stops_when_a_card_cannot_be_delivered() {
    let (mut round, _) = Newsletter::start(subscribers());
    assert!(matches!(round.step(NewsletterEvent::Generated(Ok("Карта".into()))), NewsletterAction::Deliver { .. }));
    assert!(round.accepts(&NewsletterEvent::DeliveryFailed));
    assert!(matches!(round.step(NewsletterEvent::DeliveryFailed), NewsletterAction::Abandon));
    assert!(!round.accepts(&NewsletterEvent::Paused));
    assert!(!round.accepts(&NewsletterEvent::Delivered));
    assert!(!round.accepts(&NewsletterEvent::Generated(Err(AiError::NoContent))));
}

#[test]
fn written_time_reads_back() {
    let t = at("2024-02-29T23:30:00.123456789+01:00");
    let row = subscription_row_at(5, "a@b.c", true, &t);
    match subscription_status_at(StatusRow::Found { email: row.email.clone(), subscribed_at: row.subscribed_at.clone() }, at("1999-01-01T00:00:00Z")) {
        Ok(Some((email, read))) => {
            assert_eq!(email, "a@b.c");
            assert_eq!(subscription_row_at(5, "", true, &read).subscribed_at, row.subscribed_at);
            assert_eq!(shown(read), "29.02.2024 22:30");
        }
        _ => panic!("a subscription was expected"),
    }
}

#[test]
fn empty_newsletter_round() {
    let (round, first) = Newsletter::start(Vec::new());
    assert!(matches!(first, NewsletterAction::Finish));
    assert!(!round.accepts(&NewsletterEvent::Delivered));
}

#[test]
fn newsletter_prompts_take_turns() {
    assert_eq!(newsletter_prompt(0), PROMPT_OFFICE);
    assert_eq!(newsletter_prompt(465320725), PROMPT_ZAVOD);
    assert_eq!(newsletter_prompt(10), PROMPT_OFFICE);
}

#[test]
fn writes_only_on_change() {
    assert!(!write_needed(Some(1), true));
    assert!(!write_needed(Some(0), false));
    assert!(write_needed(Some(0), true));
    assert!(write_needed(Some(1), false));
    assert!(write_needed(Some(7), true));
    assert!(!write_needed(None, false));
    assert!(write_needed(None, true));
}

#[test]
fn the_clock_is_read() {
    let _ = newsletter_due_now();
}
