//! Fixed texts of the bot and the string helpers its replies are built with.

use vstd::prelude::*;

verus! {

/// The version the bot reports on `/version`.
pub const VERSION: &'static str = "0.3.0";

/// The chat (and user) id of the bot's owner: the only user allowed to stop
/// the bot, and the chat that free-form requests are echoed to.
pub const ADMIN_ID: u64 = 465320725;

/// The placeholder that marks a user from whom an e-mail address is expected.
pub const WAITING: &'static str = "waiting";

/// Prompt for an observation card of an office worker.
pub const PROMPT_OFFICE: &'static str = "Сгенерируй текст для карты наблюдения работника, \
                который работает в офисе. Всегда пиши, что всё хорошо, проводится своевременно \
                антибактериальная обработка помещений, никто не нарушает технику безопасности, \
                всегда проводятся инструктажи и тому подобное. Достаточно в строгом формате, \
                используй простые слова. Без форматирования, просто парочку предложений. Можешь писать про правила поведения на лестницах \
                и вблизи территории офиса, можешь писать про офисные \
                моменты, про контроль температуры на входе и т.п. будь оригинален и придумывай свои идеи для карты. Не пиши про личную \
                гигиену сотрудников. Напиши 2-3 небольших предложения.";

/// Prompt for an observation card of a factory worker.
pub const PROMPT_ZAVOD: &'static str = "Сгенерируй текст для карты наблюдения работника, \
                который работает в офисе. Всегда пиши, что всё хорошо, проводится своевременно \
                антибактериальная обработка помещений, никто не нарушает технику безопасности, \
                всегда проводятся инструктажи и тому подобное. Достаточно в строгом формате, \
                используй простые слова. Без форматирования, просто парочку предложений. Можешь писать про правила поведения на лестницах \
                и на территории завода, что все используют СИЗ, можешь писать про офисные \
                моменты, про контроль температуры на входе и т.п. будь оригинален и придумывай свои идеи для карты. Не пиши про личную \
                гигиену сотрудников. Напиши 2-3 небольших предложения.";

/// Reply to `/help` and `/start`.
pub const HELP_TEXT: &'static str = "Краткая инструкция: \n\
                            Бот создан для генерации текста для Карт Наблюдения (КН) \n\
                            Для этого есть команды: \n\
                            /genoffice - Для генерации текста для КН (работа в офисе) \n\
                            /genzavod - Для генерации текста для КН (работа на заводе) \n\n\
                            Бот может отправить сгенерированную КН на вашу почту: \n\
                            /msg - Отправить КН на почту \n\
                            /setmail - Установить почту для отправки карты наблюдения \n\n\
                            Ежемесячная рассылка: \n\
                            /subscribe - Подписаться на рассылку КН (2-го числа каждого месяца) \n\
                            /unsubscribe - Отписаться от рассылки \n\
                            /subscription_status - Проверить статус подписки \n\n\
                            Развлекательные функции: \n\
                            /casino - Для прокрутки казино \n\
                            /darts - Для броска дротика \n\
                            /dice - Для броска кубика \n\n\n\
                            *BETA* \n\
                            Также бота можно использовать для обращения к AI (но пока в рамках одного сообщения)\n\
                            Для этого просто напиши любой текст! \n\n\
                            Бот находится в стадии разработки, сильно его не ругайте";

pub const CASINO_TEXT: &'static str = "Казино вредит вашему кошельку";
pub const DARTS_TEXT: &'static str = "Если попадет - то ты проиграл";
pub const DICE_PREFIX: &'static str = "Если выпадет ";
pub const DICE_SUFFIX: &'static str = " - то ты проиграл";
pub const GEN_OFFICE_NOTICE: &'static str = "Генерирую текст для офисника через AI...";
pub const GEN_ZAVOD_NOTICE: &'static str = "Генерирую текст для заводчанина через AI...";
pub const CHAT_NOTICE: &'static str = "Делаю запрос в AI...";
pub const GENERATION_FAILED: &'static str = "Не удалось сгенерировать текст, слишком много запросов";
pub const OFFER_MAIL_PREFIX: &'static str = "Отправить эту КН на почту ";
pub const OFFER_MAIL_SUFFIX: &'static str = " ? \n Введите /msg";
pub const ASK_FOR_MAIL: &'static str = "Укажите почту для отправки этой КН \n/setmail";
pub const NO_CARD_YET: &'static str = "Сначала сгенерируйте карту наблюдения";
pub const SEND_FAILED_PREFIX: &'static str = "Ошибка отправки: ";
pub const MAIL_SAVED_PREFIX: &'static str = "Почта ";
pub const MAIL_SAVED_SUFFIX: &'static str = " успешно сохранена!";
pub const ENTER_MAIL: &'static str = "Напиши почту:";
pub const SHUTDOWN_TEXT: &'static str = "Бот выключен!";
pub const VERSION_PREFIX: &'static str = "Версия бота: ";
pub const SUBSCRIBED_TEXT: &'static str = "✅ Вы успешно подписались на рассылку карт наблюдения!\n\
                                         📅 Рассылка будет производиться 2-го числа каждого месяца.";
pub const ALREADY_SUBSCRIBED: &'static str = "Вы уже подписаны на рассылку.";
pub const SUBSCRIBE_FAILED: &'static str = "Ошибка при подписке. Попробуйте позже.";
pub const SET_MAIL_FIRST: &'static str = "Сначала укажите почту командой /setmail";
pub const UNSUBSCRIBED_TEXT: &'static str = "Вы отписались от рассылки карт наблюдения.";
pub const NOT_SUBSCRIBED_BEFORE: &'static str = "Вы не были подписаны на рассылку.";
pub const UNSUBSCRIBE_FAILED: &'static str = "Ошибка при отписке. Попробуйте позже.";
pub const STATUS_PREFIX: &'static str = "📋 Статус подписки:\n\
                                         ✅ Подписан на рассылку\n\
                                         📧 Почта: ";
pub const STATUS_DATE_PREFIX: &'static str = "\n\
                                         📅 Подписан с: ";
pub const NOT_SUBSCRIBED_TEXT: &'static str = "Вы не подписаны на рассылку.\n\
                                     Для подписки используйте /subscribe";
pub const STATUS_FAILED: &'static str = "Ошибка при проверке статуса.";
pub const SET_MAIL_BEFORE_SENDING: &'static str = "Сначала установи почту командой \n/setmail";
pub const MAIL_SENT_PREFIX: &'static str = "Сообщение отправлено на ";
pub const NAME_SEPARATOR: &'static str = ": ";

/// What `str::to_lowercase` returns for a string.
pub uninterp spec fn lowercase(s: Seq<char>) -> Seq<char>;

/// What `str::trim` returns for a string.
pub uninterp spec fn trimmed(s: Seq<char>) -> Seq<char>;

/// Calls `str::to_lowercase` (std); the result is only named, by `lowercase`.
#[verifier::external_body]
pub(crate) fn to_lowercase(s: &str) -> (r: String)
    ensures
        r@ == lowercase(s@),
{
    s.to_lowercase()
}

/// Calls `str::trim` (std) and copies the slice it returns; the result is only
/// named, by `trimmed`.
#[verifier::external_body]
pub(crate) fn trim(s: &str) -> (r: String)
    ensures
        r@ == trimmed(s@),
{
    s.trim().to_string()
}

/// The decimal digit `d` (for `d < 10`).
pub open spec fn digit_char(d: nat) -> char {
    if d == 0 { '0' }
    else if d == 1 { '1' }
    else if d == 2 { '2' }
    else if d == 3 { '3' }
    else if d == 4 { '4' }
    else if d == 5 { '5' }
    else if d == 6 { '6' }
    else if d == 7 { '7' }
    else if d == 8 { '8' }
    else { '9' }
}

/// The decimal notation of `n`, as `Display` writes an unsigned integer.
pub open spec fn decimal(n: nat) -> Seq<char>
    decreases n,
{
    if n < 10 {
        seq![digit_char(n)]
    } else {
        decimal(n / 10).push(digit_char(n % 10))
    }
}

fn digit_string(d: u64) -> (r: String)
    requires
        d < 10,
    ensures
        r@ == seq![digit_char(d as nat)],
{
    if d == 0 {
        proof { reveal_strlit("0"); }
        String::from_str("0")
    } else if d == 1 {
        proof { reveal_strlit("1"); }
        String::from_str("1")
    } else if d == 2 {
        proof { reveal_strlit("2"); }
        String::from_str("2")
    } else if d == 3 {
        proof { reveal_strlit("3"); }
        String::from_str("3")
    } else if d == 4 {
        proof { reveal_strlit("4"); }
        String::from_str("4")
    } else if d == 5 {
        proof { reveal_strlit("5"); }
        String::from_str("5")
    } else if d == 6 {
        proof { reveal_strlit("6"); }
        String::from_str("6")
    } else if d == 7 {
        proof { reveal_strlit("7"); }
        String::from_str("7")
    } else if d == 8 {
        proof { reveal_strlit("8"); }
        String::from_str("8")
    } else {
        proof { reveal_strlit("9"); }
        String::from_str("9")
    }
}

/// The decimal notation of `n`.
pub fn decimal_text(n: u64) -> (r: String)
    ensures
        r@ == decimal(n as nat),
    decreases n,
{
    if n < 10 {
        digit_string(n)
    } else {
        let mut s = decimal_text(n / 10);
        let d = digit_string(n % 10);
        s.append(d.as_str());
        s
    }
}

/// `prefix`, then `middle`, then `suffix`.
pub fn join3(prefix: &str, middle: &str, suffix: &str) -> (r: String)
    ensures
        r@ == prefix@ + middle@ + suffix@,
{
    let s = String::from_str(prefix);
    let s = s.concat(middle);
    s.concat(suffix)
}

/// `prefix`, then `rest`.
pub fn join2(prefix: &str, rest: &str) -> (r: String)
    ensures
        r@ == prefix@ + rest@,
{
    String::from_str(prefix).concat(rest)
}

} // verus!
