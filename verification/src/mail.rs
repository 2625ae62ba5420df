//! The e-mails the bot sends: an observation card on request, and the
//! monthly newsletter.

use vstd::prelude::*;
use crate::text::join2;

verus! {

pub const SENDER_NAME: &'static str = "Bot AI";
pub const SENDER_ADDRESS: &'static str = "cardaibot@gmail.com";
pub const RECIPIENT_NAME: &'static str = "User";
pub const CARD_SUBJECT: &'static str = "Карта наблюдения";
pub const NEWSLETTER_SUBJECT: &'static str = "Карта наблюдения - ежемесячная рассылка";
pub const SIGNATURE: &'static str = " \n\n\nBy tgbot: @ez_card_ai_bot";

/// The mail server the bot sends through, its port and the login it uses.
pub const SMTP_HOST: &'static str = "smtp.gmail.com";
pub const SMTP_PORT: u16 = 587;
pub const SMTP_LOGIN: &'static str = "cardaibot@gmail.com";

/// A plain-text e-mail, ready to hand to the mail server.
pub struct MailDraft {
    pub from_name: String,
    pub from_address: String,
    pub to_name: String,
    pub to_address: String,
    pub subject: String,
    pub body: String,
}

/// The e-mail that carries `text` to `address` under `subject`, from the bot,
/// signed with the bot's name.
pub open spec fn is_mail(m: MailDraft, address: Seq<char>, subject: Seq<char>, text: Seq<char>) -> bool {
    &&& m.from_name@ == SENDER_NAME@
    &&& m.from_address@ == SENDER_ADDRESS@
    &&& m.to_name@ == RECIPIENT_NAME@
    &&& m.to_address@ == address
    &&& m.subject@ == subject
    &&& m.body@ == text + SIGNATURE@
}

fn mail_to(address: &str, subject: &str, text: &str) -> (m: MailDraft)
    ensures
        is_mail(m, address@, subject@, text@),
{
    MailDraft {
        from_name: String::from_str(SENDER_NAME),
        from_address: String::from_str(SENDER_ADDRESS),
        to_name: String::from_str(RECIPIENT_NAME),
        to_address: String::from_str(address),
        subject: String::from_str(subject),
        body: join2(text, SIGNATURE),
    }
}

/// The e-mail that brings an observation card to a user.
pub fn card_mail(address: &str, card: &str) -> (m: MailDraft)
    ensures
        is_mail(m, address@, CARD_SUBJECT@, card@),
{
    mail_to(address, CARD_SUBJECT, card)
}

/// The e-mail that brings the monthly observation card to a subscriber.
pub fn newsletter_mail(address: &str, card: &str) -> (m: MailDraft)
    ensures
        is_mail(m, address@, NEWSLETTER_SUBJECT@, card@),
{
    mail_to(address, NEWSLETTER_SUBJECT, card)
}

} // verus!
