//! Properties of the bot that span several of its steps.

use vstd::prelude::*;
use crate::bot::{
    awaiting_email, generation_replies, next_state, plan_of, state_after_generation, stored_email,
    BotView, Generation, OutgoingView, PlanView, SenderView,
};
use crate::command::{command_of, Command};
use crate::clock::four_digit_year;
use crate::completion::AiError;
use crate::newsletter::{expects, happening, round_after, well_formed, NewsletterEvent, NewsletterView, Phase};
use crate::subscription::{
    active_record, after_write, is_row_at, needs_write, reported, stored_activity, Record,
    SubscriptionRow,
};
use crate::text::{
    lowercase, trimmed, ADMIN_ID, ASK_FOR_MAIL, ENTER_MAIL, GENERATION_FAILED, NO_CARD_YET,
    OFFER_MAIL_PREFIX, OFFER_MAIL_SUFFIX, SET_MAIL_FIRST, SHUTDOWN_TEXT, WAITING,
};

verus! {

/// An address the bot knows is never the waiting mark.
pub proof fn law_known_address_is_not_the_mark(emails: Map<u64, Seq<char>>, user: u64)
    ensures
        stored_email(emails, user) != Some(WAITING@),
{
}

/// Answering a message changes nothing the bot remembers of any other user.
pub proof fn law_message_touches_only_its_author(s: BotView, sender: SenderView, text: Seq<char>, other: u64)
    requires
        other != sender.id,
    ensures
        next_state(s, Some(sender), text).emails.contains_key(other) == s.emails.contains_key(other),
        next_state(s, Some(sender), text).emails[other] == s.emails[other],
        next_state(s, Some(sender), text).cards == s.cards,
{
}

/// The commands answered before the e-mail entry (`/casino`, `/darts`,
/// `/dice`, `/help`, `/start`, `/genoffice`, `/genzavod`, `/msg`) change
/// nothing the bot remembers, even while it waits for an address.
pub proof fn law_early_commands_keep_memory(s: BotView, sender: Option<SenderView>, text: Seq<char>)
    requires
        command_of(lowercase(text)).precedes_mail_entry(),
    ensures
        next_state(s, sender, text) == s,
{
}

/// After `/setmail` the bot forgets the address it knew and waits for a new
/// one; the next message that is not an early command is that address
/// (lower-cased and trimmed): it is stored, confirmed, and from then on it is
/// the user's address, unless it is the waiting mark itself.
pub proof fn law_set_mail_then_address(
    s: BotView,
    sender: SenderView,
    set_mail: Seq<char>,
    address: Seq<char>,
    roll: u8,
)
    requires
        command_of(lowercase(set_mail)) == Command::SetMail,
        !awaiting_email(s.emails, sender.id),
        !command_of(lowercase(address)).precedes_mail_entry(),
    ensures
        ({
            let s1 = next_state(s, Some(sender), set_mail);
            let s2 = next_state(s1, Some(sender), address);
            let entered = trimmed(lowercase(address));
            &&& stored_email(s1.emails, sender.id) is None
            &&& awaiting_email(s1.emails, sender.id)
            &&& (plan_of(s1, Some(sender), address, roll) matches PlanView::StoreEmail { user, email, .. }
                && user == sender.id && email == entered)
            &&& s2.emails[sender.id] == entered
            &&& (entered != WAITING@ ==> stored_email(s2.emails, sender.id) == Some(entered))
        }),
{
}

/// Commands do not depend on letter case: two texts that are the same in
/// lower case, and name a command, are answered alike and change the bot's
/// memory alike. (Free text is passed on as it was written.)
pub proof fn law_commands_ignore_letter_case(
    s: BotView,
    sender: Option<SenderView>,
    text: Seq<char>,
    other: Seq<char>,
    roll: u8,
)
    requires
        lowercase(text) == lowercase(other),
        command_of(lowercase(text)) != Command::Other || awaiting_email(s.emails, sender->0.id),
    ensures
        plan_of(s, sender, text, roll) == plan_of(s, sender, other, roll),
        next_state(s, sender, text) == next_state(s, sender, other),
{
}

/// A card made for a user is the card that `/msg` then mails.
pub proof fn law_card_is_mailed(s: BotView, sender: SenderView, card: Seq<char>, mail: Seq<char>, roll: u8)
    requires
        command_of(lowercase(mail)) == Command::Mail,
    ensures
        plan_of(
            state_after_generation(s, Generation::Card { user: Some(sender.id) }, Some(card)),
            Some(sender),
            mail,
            roll,
        ) == (PlanView::MailCard { user: sender.id, card }),
{
}

/// A generation that gave nothing is answered with the apology alone and
/// changes nothing the bot remembers.
pub proof fn law_failed_generation_changes_nothing(s: BotView, kind: Generation)
    ensures
        state_after_generation(s, kind, None) == s,
        generation_replies(s, kind, None) == (seq![OutgoingView::Text(GENERATION_FAILED@)]),
{
}

/// Asking twice for the same subscription state writes once: once a row
/// records the requested state, asking for it again needs no write, while
/// asking for the other state does.
pub proof fn law_second_request_writes_nothing(
    row: SubscriptionRow,
    user_id: u64,
    email: Seq<char>,
    active: bool,
    at: (i64, u32),
)
    requires
        is_row_at(row, user_id, email, active, at),
    ensures
        !needs_write(Some(row.is_active), active),
        needs_write(Some(row.is_active), !active),
{
}

/// A user who never subscribed is not subscribed: unsubscribing them writes
/// nothing and reports no change.
pub proof fn law_unsubscribing_a_stranger_writes_nothing()
    ensures
        !needs_write(None, false),
        needs_write(None, true),
{
}

/// Subscribing, then asking for the status, reports the address given and the
/// time the subscription was written (for a time whose year has four digits).
pub proof fn law_subscribe_then_status(
    table: Map<i64, Record>,
    row: SubscriptionRow,
    user_id: u64,
    email: Seq<char>,
    at: (i64, u32),
    fallback: (i64, u32),
)
    requires
        needs_write(stored_activity(table, user_id), true),
        is_row_at(row, user_id, email, true, at),
        four_digit_year(at),
    ensures
        reported(active_record(after_write(table, row), user_id), fallback) == Some((email, at)),
{
}

/// Unsubscribing, then asking for the status, reports no subscription,
/// whether a row had to be written or not.
pub proof fn law_unsubscribe_then_status(
    table: Map<i64, Record>,
    row: SubscriptionRow,
    user_id: u64,
    email: Seq<char>,
    at: (i64, u32),
)
    requires
        needs_write(stored_activity(table, user_id), false) ==> is_row_at(row, user_id, email, false, at),
    ensures
        needs_write(stored_activity(table, user_id), false) ==> active_record(after_write(table, row), user_id) is None,
        !needs_write(stored_activity(table, user_id), false) ==> active_record(table, user_id) is None,
{
}

/// The list a newsletter round serves is drawn from the subscriptions table:
/// each entry is a user with an active row, and that row's address.
pub open spec fn drawn_from(subscribers: Seq<(u64, Seq<char>)>, table: Map<i64, Record>) -> bool {
    forall|i: int| 0 <= i < subscribers.len() ==>
        (#[trigger] active_record(table, subscribers[i].0) matches Some(r) && r.email == subscribers[i].1)
}

/// A round only mails the subscribers of the table it was drawn from: the
/// subscriber it serves has an active row, whose address the card goes to.
pub proof fn law_newsletter_mails_only_subscribers(v: NewsletterView, table: Map<i64, Record>)
    requires
        well_formed(v),
        v.phase == Phase::AwaitingCard || v.phase == Phase::AwaitingDelivery,
        drawn_from(v.subscribers, table),
    ensures
        active_record(table, v.subscribers[v.position as int].0) matches Some(r)
            && r.email == v.subscribers[v.position as int].1,
{
    assert(active_record(table, v.subscribers[v.position as int].0) matches Some(r)
        && r.email == v.subscribers[v.position as int].1);
}

/// The address the bot knows for a user is exactly their entry, unless that
/// entry is the waiting mark.
pub proof fn law_known_address_is_the_entry(emails: Map<u64, Seq<char>>, user: u64, e: Seq<char>)
    ensures
        stored_email(emails, user) == Some(e) <==> (emails.contains_key(user) && emails[user] == e && e != WAITING@),
        stored_email(emails, user) is None <==> (!emails.contains_key(user) || emails[user] == WAITING@),
{
}

/// `/subscribe` subscribes the author with the address stored for them (for
/// any id), and asks for an address where none is stored.
pub proof fn law_subscribe_uses_the_stored_address(s: BotView, sender: SenderView, text: Seq<char>, roll: u8)
    requires
        command_of(lowercase(text)) == Command::Subscribe,
        !awaiting_email(s.emails, sender.id),
    ensures
        (s.emails.contains_key(sender.id) && s.emails[sender.id] != WAITING@) ==>
            plan_of(s, Some(sender), text, roll) == (PlanView::Subscribe { user: sender.id, email: s.emails[sender.id] }),
        !s.emails.contains_key(sender.id) ==>
            plan_of(s, Some(sender), text, roll) == PlanView::Send(seq![OutgoingView::Text(SET_MAIL_FIRST@)]),
        next_state(s, Some(sender), text) == s,
{
}

/// `/setmail`, an address, then `/subscribe`: the author is subscribed with
/// the address just given (unless it is the waiting mark).
pub proof fn law_set_mail_address_then_subscribe(
    s: BotView,
    sender: SenderView,
    set_mail: Seq<char>,
    address: Seq<char>,
    subscribe: Seq<char>,
    roll: u8,
)
    requires
        command_of(lowercase(set_mail)) == Command::SetMail,
        !awaiting_email(s.emails, sender.id),
        !command_of(lowercase(address)).precedes_mail_entry(),
        command_of(lowercase(subscribe)) == Command::Subscribe,
        trimmed(lowercase(address)) != WAITING@,
    ensures
        ({
            let s2 = next_state(next_state(s, Some(sender), set_mail), Some(sender), address);
            plan_of(s2, Some(sender), subscribe, roll)
                == (PlanView::Subscribe { user: sender.id, email: trimmed(lowercase(address)) })
        }),
{
}

/// Every command after the address entry is answered for its author, by
/// their full id: `/setmail` marks the author as awaited, `/msg` mails the
/// author's own last card, `/unsubscribe` and `/subscription_status` name
/// the author, and `/shutdown` stops the bot only for the owner.
pub proof fn law_commands_act_for_their_author(s: BotView, sender: SenderView, text: Seq<char>, roll: u8)
    requires
        !awaiting_email(s.emails, sender.id),
    ensures
        command_of(lowercase(text)) == Command::SetMail ==> {
            &&& next_state(s, Some(sender), text).emails == s.emails.insert(sender.id, WAITING@)
            &&& plan_of(s, Some(sender), text, roll) == PlanView::Send(seq![OutgoingView::Text(ENTER_MAIL@)])
        },
        command_of(lowercase(text)) == Command::Mail ==> plan_of(s, Some(sender), text, roll) == (
            if s.cards.contains_key(sender.id) {
                PlanView::MailCard { user: sender.id, card: s.cards[sender.id] }
            } else {
                PlanView::Send(seq![OutgoingView::Text(NO_CARD_YET@)])
            }),
        command_of(lowercase(text)) == Command::Unsubscribe ==>
            plan_of(s, Some(sender), text, roll) == (PlanView::Unsubscribe { user: sender.id }),
        command_of(lowercase(text)) == Command::SubscriptionStatus ==>
            plan_of(s, Some(sender), text, roll) == (PlanView::CheckStatus { user: sender.id }),
        command_of(lowercase(text)) == Command::Shutdown ==> (
            (plan_of(s, Some(sender), text, roll) is Shutdown) <==> sender.id == ADMIN_ID),
        command_of(lowercase(text)) == Command::Shutdown && sender.id == ADMIN_ID ==>
            plan_of(s, Some(sender), text, roll) == (PlanView::Shutdown { farewell: seq![OutgoingView::Text(SHUTDOWN_TEXT@)] }),
{
}

/// A card made for a user (by any id) becomes that user's last card, and the
/// reply offers to mail it to the address stored for that very user, or asks
/// for one where none is stored.
pub proof fn law_card_offer_names_the_users_address(s: BotView, user: u64, card: Seq<char>)
    ensures
        state_after_generation(s, Generation::Card { user: Some(user) }, Some(card)).cards == s.cards.insert(user, card),
        state_after_generation(s, Generation::Card { user: Some(user) }, Some(card)).emails == s.emails,
        (s.emails.contains_key(user) && s.emails[user] != WAITING@) ==>
            generation_replies(s, Generation::Card { user: Some(user) }, Some(card)) == seq![
                OutgoingView::Text(card),
                OutgoingView::Text(OFFER_MAIL_PREFIX@ + s.emails[user] + OFFER_MAIL_SUFFIX@),
            ],
        (!s.emails.contains_key(user) || s.emails[user] == WAITING@) ==>
            generation_replies(s, Generation::Card { user: Some(user) }, Some(card))
                == seq![OutgoingView::Text(card), OutgoingView::Text(ASK_FOR_MAIL@)],
        generation_replies(s, Generation::Chat, Some(card)) == seq![OutgoingView::Text(card)],
        state_after_generation(s, Generation::Chat, Some(card)) == s,
{
}

/// While a newsletter round waits for a card, every outcome of the
/// generation answers it: a written card is then delivered to the same
/// subscriber, and a failed one is skipped (the round pauses and stays with
/// the same subscriber until the pause), never abandoned.
pub proof fn law_any_card_outcome_is_accepted(v: NewsletterView, outcome: Result<String, AiError>)
    requires
        well_formed(v),
        v.phase == Phase::AwaitingCard,
    ensures
        expects(Phase::AwaitingCard, NewsletterEvent::Generated(outcome)),
        !expects(Phase::AwaitingCard, NewsletterEvent::Delivered),
        !expects(Phase::AwaitingCard, NewsletterEvent::DeliveryFailed),
        !expects(Phase::AwaitingCard, NewsletterEvent::Paused),
        round_after(v, happening(NewsletterEvent::Generated(outcome))).position == v.position,
        round_after(v, happening(NewsletterEvent::Generated(outcome))).subscribers == v.subscribers,
        round_after(v, happening(NewsletterEvent::Generated(outcome))).phase == (
            if outcome is Ok { Phase::AwaitingDelivery } else { Phase::Pausing }),
{
}

} // verus!
