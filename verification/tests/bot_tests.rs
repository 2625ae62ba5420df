use std::collections::HashMap;

use kn_bot::bot::{
    delivery_failure, delivery_reply, sender_required, DiceKind, Generation, KnBot, MailStep, Outgoing, Plan, Sender,
};
use kn_bot::completion::AiError;
use kn_bot::text::{
    ASK_FOR_MAIL, CASINO_TEXT, CHAT_NOTICE, DARTS_TEXT, ENTER_MAIL, GENERATION_FAILED,
    GEN_OFFICE_NOTICE, GEN_ZAVOD_NOTICE, HELP_TEXT, NO_CARD_YET, PROMPT_OFFICE, PROMPT_ZAVOD,
    SET_MAIL_BEFORE_SENDING, SET_MAIL_FIRST, SHUTDOWN_TEXT,
};

fn user(id: u64) -> Option<Sender> {
    Some(Sender { id, first_name: "Иван".to_string() })
}

fn texts(messages: &[Outgoing]) -> Vec<String> {
    messages
        .iter()
        .map(|m| match m {
            Outgoing::Text(t) => format!("text:{t}"),
            Outgoing::ToAdmin(t) => format!("admin:{t}"),
            Outgoing::Dice(DiceKind::SlotMachine) => "dice:slot".to_string(),
            Outgoing::Dice(DiceKind::Darts) => "dice:darts".to_string(),
            Outgoing::Dice(DiceKind::Dice) => "dice:dice".to_string(),
        })
        .collect()
}

fn sent(plan: Plan) -> Vec<String> {
    match plan {
        Plan::Send(m) => texts(&m),
        _ => panic!("expected plain messages"),
    }
}

fn fresh() -> KnBot {
    KnBot::new(HashMap::new())
}

#[test]
fn casino_darts_help() {
    let mut bot = fresh();
    assert_eq!(sent(bot.handle(&user(1), "/casino", 1)), vec![format!("text:{CASINO_TEXT}"), "dice:slot".to_string()]);
    assert_eq!(sent(bot.handle(&user(1), "/darts", 1)), vec![format!("text:{DARTS_TEXT}"), "dice:darts".to_string()]);
    assert_eq!(sent(bot.handle(&user(1), "/help", 1)), vec![format!("text:{HELP_TEXT}")]);
    assert_eq!(sent(bot.handle(&user(1), "/start", 1)), vec![format!("text:{HELP_TEXT}")]);
    assert!(HELP_TEXT.starts_with("Краткая инструкция: \nБот создан"));
}

#[test]
fn commands_ignore_letter_case() {
    let mut bot = fresh();
    assert_eq!(sent(bot.handle(&None, "/CaSiNo", 1))[0], format!("text:{CASINO_TEXT}"));
}

#[test]
fn dice_names_the_losing_number() {
    let mut bot = fresh();
    assert_eq!(
        sent(bot.handle(&None, "/dice", 4)),
        vec!["text:Если выпадет 4 - то ты проиграл".to_string(), "dice:dice".to_string()]
    );
    let plan = sent(bot.handle_text(&None, "/dice"));
    let allowed: Vec<String> = (1..=6).map(|n| format!("text:Если выпадет {n} - то ты проиграл")).collect();
    assert!(allowed.contains(&plan[0]));
}

#[test]
fn generation_commands() {
    let mut bot = fresh();
    match bot.handle(&user(7), "/genoffice", 1) {
        Plan::Generate { notice, prompt, kind } => {
            assert_eq!(texts(&notice), vec![format!("text:{GEN_OFFICE_NOTICE}")]);
            assert_eq!(prompt, PROMPT_OFFICE);
            assert_eq!(kind, Generation::Card { user: Some(7) });
        }
        _ => panic!("expected a generation"),
    }
    match bot.handle(&None, "/genzavod", 1) {
        Plan::Generate { notice, prompt, kind } => {
            assert_eq!(texts(&notice), vec![format!("text:{GEN_ZAVOD_NOTICE}")]);
            assert_eq!(prompt, PROMPT_ZAVOD);
            assert_eq!(kind, Generation::Card { user: None });
        }
        _ => panic!("expected a generation"),
    }
}

#[test]
fn free_text_goes_to_the_model_and_the_owner() {
    let mut bot = fresh();
    match bot.handle(&user(5), "Привет, Бот", 1) {
        Plan::Generate { notice, prompt, kind } => {
            assert_eq!(
                texts(&notice),
                vec!["admin:Иван: Привет, Бот".to_string(), format!("text:{CHAT_NOTICE}")]
            );
            assert_eq!(prompt, "Привет, Бот");
            assert_eq!(kind, Generation::Chat);
        }
        _ => panic!("expected a generation"),
    }
}

#[test]
fn card_is_kept_and_offered_for_mail() {
    let mut bot = fresh();
    let replies = bot.finish_generation(Generation::Card { user: Some(3) }, &Ok("Всё хорошо.".to_string()));
    assert_eq!(texts(&replies), vec!["text:Всё хорошо.".to_string(), format!("text:{ASK_FOR_MAIL}")]);
    match bot.handle(&user(3), "/msg", 1) {
        Plan::MailCard { user, card } => {
            assert_eq!(user, 3);
            assert_eq!(card, "Всё хорошо.");
        }
        _ => panic!("expected the card to be mailed"),
    }
    assert_eq!(sent(bot.handle(&user(4), "/msg", 1)), vec![format!("text:{NO_CARD_YET}")]);
}

#[test]
fn card_offer_names_the_known_address() {
    let mut emails = HashMap::new();
    emails.insert(3u64, "a@b.ru".to_string());
    let mut bot = KnBot::new(emails);
    let replies = bot.finish_generation(Generation::Card { user: Some(3) }, &Ok("Карта".to_string()));
    assert_eq!(
        texts(&replies),
        vec!["text:Карта".to_string(), "text:Отправить эту КН на почту a@b.ru ? \n Введите /msg".to_string()]
    );
}

#[test]
fn failed_generation_apologises() {
    let mut bot = fresh();
    let replies = bot.finish_generation(Generation::Card { user: Some(3) }, &Err(AiError::NoContent));
    assert_eq!(texts(&replies), vec![format!("text:{GENERATION_FAILED}")]);
    assert_eq!(sent(bot.handle(&user(3), "/msg", 1)), vec![format!("text:{NO_CARD_YET}")]);
    let chat = bot.finish_generation(Generation::Chat, &Ok("Ответ".to_string()));
    assert_eq!(texts(&chat), vec!["text:Ответ".to_string()]);
}

#[test]
fn set_mail_then_address() {
    let mut bot = fresh();
    assert_eq!(sent(bot.handle(&user(9), "/setmail", 1)), vec![format!("text:{ENTER_MAIL}")]);
    assert_eq!(bot.user_email(9), None);
    // early commands still work while the address is awaited
    assert_eq!(sent(bot.handle(&user(9), "/casino", 1))[0], format!("text:{CASINO_TEXT}"));
    match bot.handle(&user(9), "  Ivan@Mail.RU \n", 1) {
        Plan::StoreEmail { user, email, confirm } => {
            assert_eq!(user, 9);
            assert_eq!(email, "ivan@mail.ru");
            assert_eq!(texts(&confirm), vec!["text:Почта ivan@mail.ru успешно сохранена!".to_string()]);
        }
        _ => panic!("expected the address to be stored"),
    }
    assert_eq!(bot.user_email(9), Some("ivan@mail.ru".to_string()));
}

#[test]
fn a_command_typed_instead_of_an_address_is_taken_as_the_address() {
    let mut bot = fresh();
    bot.handle(&user(9), "/setmail", 1);
    match bot.handle(&user(9), "/version", 1) {
        Plan::StoreEmail { email, .. } => assert_eq!(email, "/version"),
        _ => panic!("expected the text to be taken as the address"),
    }
}

#[test]
fn the_waiting_mark_is_never_an_address() {
    let mut bot = fresh();
    bot.handle(&user(9), "/setmail", 1);
    bot.handle(&user(9), "WAITING", 1);
    assert_eq!(bot.user_email(9), None);
}

#[test]
fn subscribe_needs_an_address() {
    let mut bot = fresh();
    assert_eq!(sent(bot.handle(&user(2), "/subscribe", 1)), vec![format!("text:{SET_MAIL_FIRST}")]);
    bot.handle(&user(2), "/setmail", 1);
    bot.handle(&user(2), "x@y.z", 1);
    match bot.handle(&user(2), "/subscribe", 1) {
        Plan::Subscribe { user, email } => {
            assert_eq!(user, 2);
            assert_eq!(email, "x@y.z");
        }
        _ => panic!("expected a subscription"),
    }
    assert!(matches!(bot.handle(&user(2), "/unsubscribe", 1), Plan::Unsubscribe { user: 2 }));
    assert!(matches!(bot.handle(&user(2), "/subscription_status", 1), Plan::CheckStatus { user: 2 }));
}

#[test]
fn shutdown_only_for_the_owner() {
    let mut bot = fresh();
    assert!(sent(bot.handle(&user(1), "/shutdown", 1)).is_empty());
    match bot.handle(&user(465320725), "/shutdown", 1) {
        Plan::Shutdown { farewell } => assert_eq!(texts(&farewell), vec![format!("text:{SHUTDOWN_TEXT}")]),
        _ => panic!("expected a shutdown"),
    }
}

#[test]
fn version_reply() {
    let mut bot = fresh();
    assert_eq!(sent(bot.handle(&user(1), "/version", 1)), vec!["text:Версия бота: 0.3.0".to_string()]);
}

#[test]
fn mailing_a_card() {
    let mut bot = fresh();
    match bot.mail_card(1, "Карта") {
        MailStep::Reply(t) => assert_eq!(t, SET_MAIL_BEFORE_SENDING),
        _ => panic!("expected a request for an address"),
    }
    bot.handle(&user(1), "/setmail", 1);
    match bot.mail_card(1, "Карта") {
        MailStep::Reply(t) => assert_eq!(t, SET_MAIL_BEFORE_SENDING),
        _ => panic!("expected a request for an address"),
    }
    bot.handle(&user(1), "me@site.org", 1);
    match bot.mail_card(1, "Карта") {
        MailStep::Deliver { draft, confirmation } => {
            assert_eq!(draft.to_address, "me@site.org");
            assert_eq!(draft.to_name, "User");
            assert_eq!(draft.from_name, "Bot AI");
            assert_eq!(draft.from_address, "cardaibot@gmail.com");
            assert_eq!(draft.subject, "Карта наблюдения");
            assert_eq!(draft.body, "Карта \n\n\nBy tgbot: @ez_card_ai_bot");
            assert_eq!(confirmation, "Сообщение отправлено на me@site.org");
        }
        _ => panic!("expected a delivery"),
    }
    assert_eq!(delivery_failure("timeout"), "Ошибка отправки: timeout");
}

#[test]
fn which_texts_need_an_author() {
    assert!(!sender_required("/casino"));
    assert!(!sender_required("/GENOFFICE"));
    assert!(sender_required("/msg"));
    assert!(sender_required("/setmail"));
    assert!(sender_required("hello"));
}

#[test]
fn other_users_are_untouched() {
    let mut bot = fresh();
    bot.handle(&user(1), "/setmail", 1);
    bot.handle(&user(1), "one@x.ru", 1);
    bot.handle(&user(2), "/setmail", 1);
    assert_eq!(bot.user_email(1), Some("one@x.ru".to_string()));
    assert_eq!(bot.user_email(2), None);
}

#[test]
fn messages_without_author() {
    let mut bot = fresh();
    assert!(bot.answer(&None, "/msg").is_none());
    assert!(bot.answer(&None, "hello").is_none());
    assert!(matches!(bot.answer(&None, "/casino"), Some(Plan::Send(_))));
    assert!(matches!(bot.answer(&user(1), "/setmail"), Some(Plan::Send(_))));
    assert_eq!(bot.user_email(1), None);
    assert!(matches!(bot.answer(&user(1), "a@b.c"), Some(Plan::StoreEmail { .. })));
}

#[test]
fn reply_after_sending_a_card() {
    assert_eq!(delivery_reply("Сообщение отправлено на a@b.c", &Ok(())), "Сообщение отправлено на a@b.c");
    assert_eq!(delivery_reply("x", &Err("connection refused".to_string())), "Ошибка отправки: connection refused");
}
