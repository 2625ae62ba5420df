//! What the bot does with a message: the replies it sends, the work it asks
//! for, and what it remembers of each user.

use std::collections::HashMap;
use vstd::prelude::*;
use crate::command::{classify, command_of, Command};
use crate::completion::AiError;
use crate::mail::{card_mail, is_mail, MailDraft, CARD_SUBJECT};
use crate::text::{
    decimal, decimal_text, join2, join3, lowercase, to_lowercase, trim, trimmed, ADMIN_ID,
    ASK_FOR_MAIL, CASINO_TEXT, CHAT_NOTICE, DARTS_TEXT, DICE_PREFIX, DICE_SUFFIX, ENTER_MAIL,
    GENERATION_FAILED, GEN_OFFICE_NOTICE, GEN_ZAVOD_NOTICE, HELP_TEXT, MAIL_SAVED_PREFIX,
    MAIL_SAVED_SUFFIX, MAIL_SENT_PREFIX, NAME_SEPARATOR, NO_CARD_YET, OFFER_MAIL_PREFIX,
    OFFER_MAIL_SUFFIX, PROMPT_OFFICE, PROMPT_ZAVOD, SEND_FAILED_PREFIX, SET_MAIL_BEFORE_SENDING,
    SET_MAIL_FIRST, SHUTDOWN_TEXT, VERSION, VERSION_PREFIX, WAITING,
};

verus! {

broadcast use vstd::std_specs::hash::group_hash_axioms;

/// The animated dice that Telegram can throw.
#[derive(Clone, Copy, Debug, PartialEq, Eq, Structural)]
pub enum DiceKind {
    SlotMachine,
    Darts,
    Dice,
}

/// A message to send in answer: a text to the user's chat, a text to the
/// owner's chat, or a thrown die in the user's chat.
pub enum Outgoing {
    Text(String),
    ToAdmin(String),
    Dice(DiceKind),
}

pub enum OutgoingView {
    Text(Seq<char>),
    ToAdmin(Seq<char>),
    Dice(DiceKind),
}

impl View for Outgoing {
    type V = OutgoingView;

    open spec fn view(&self) -> OutgoingView {
        match self {
            Outgoing::Text(t) => OutgoingView::Text(t@),
            Outgoing::ToAdmin(t) => OutgoingView::ToAdmin(t@),
            Outgoing::Dice(k) => OutgoingView::Dice(*k),
        }
    }
}

pub open spec fn views(messages: Seq<Outgoing>) -> Seq<OutgoingView> {
    messages.map_values(|m: Outgoing| m@)
}

/// The author of a message.
pub struct Sender {
    pub id: u64,
    pub first_name: String,
}

pub struct SenderView {
    pub id: u64,
    pub first_name: Seq<char>,
}

impl View for Sender {
    type V = SenderView;

    open spec fn view(&self) -> SenderView {
        SenderView { id: self.id, first_name: self.first_name@ }
    }
}

pub open spec fn sender_view(sender: Option<Sender>) -> Option<SenderView> {
    match sender {
        Some(s) => Some(s@),
        None => None,
    }
}

/// What a generated text is for: an observation card, kept for the user it
/// was made for (if the message had an author), or an answer in a chat.
#[derive(Clone, Copy, Debug, PartialEq, Eq, Structural)]
pub enum Generation {
    Card { user: Option<u64> },
    Chat,
}

/// What the bot does about a message.
pub enum Plan {
    /// Send these messages, in order.
    Send(Vec<Outgoing>),
    /// Send `notice`, then ask the model for a text on `prompt`, then hand
    /// the outcome to `KnBot::finish_generation`.
    Generate { notice: Vec<Outgoing>, prompt: String, kind: Generation },
    /// Mail the user's last card: see `KnBot::mail_card`.
    MailCard { user: u64, card: String },
    /// Record the user's address in the database, then send `confirm`.
    StoreEmail { user: u64, email: String, confirm: Vec<Outgoing> },
    /// Subscribe the user, with this address, to the newsletter.
    Subscribe { user: u64, email: String },
    /// Unsubscribe the user from the newsletter.
    Unsubscribe { user: u64 },
    /// Tell the user how they are subscribed.
    CheckStatus { user: u64 },
    /// Send `farewell`, then stop the bot.
    Shutdown { farewell: Vec<Outgoing> },
}

pub enum PlanView {
    Send(Seq<OutgoingView>),
    Generate { notice: Seq<OutgoingView>, prompt: Seq<char>, kind: Generation },
    MailCard { user: u64, card: Seq<char> },
    StoreEmail { user: u64, email: Seq<char>, confirm: Seq<OutgoingView> },
    Subscribe { user: u64, email: Seq<char> },
    Unsubscribe { user: u64 },
    CheckStatus { user: u64 },
    Shutdown { farewell: Seq<OutgoingView> },
}

impl View for Plan {
    type V = PlanView;

    open spec fn view(&self) -> PlanView {
        match self {
            Plan::Send(m) => PlanView::Send(views(m@)),
            Plan::Generate { notice, prompt, kind } => PlanView::Generate {
                notice: views(notice@),
                prompt: prompt@,
                kind: *kind,
            },
            Plan::MailCard { user, card } => PlanView::MailCard { user: *user, card: card@ },
            Plan::StoreEmail { user, email, confirm } => PlanView::StoreEmail {
                user: *user,
                email: email@,
                confirm: views(confirm@),
            },
            Plan::Subscribe { user, email } => PlanView::Subscribe { user: *user, email: email@ },
            Plan::Unsubscribe { user } => PlanView::Unsubscribe { user: *user },
            Plan::CheckStatus { user } => PlanView::CheckStatus { user: *user },
            Plan::Shutdown { farewell } => PlanView::Shutdown { farewell: views(farewell@) },
        }
    }
}

/// What the bot remembers: for each user, the e-mail address it was given
/// (or `WAITING` while it waits for one), and the last card it made for them.
pub struct KnBot {
    emails: HashMap<u64, String>,
    cards: HashMap<u64, String>,
}

pub struct BotView {
    pub emails: Map<u64, Seq<char>>,
    pub cards: Map<u64, Seq<char>>,
}

pub open spec fn texts(m: Map<u64, String>) -> Map<u64, Seq<char>> {
    m.map_values(|s: String| s@)
}

impl View for KnBot {
    type V = BotView;

    closed spec fn view(&self) -> BotView {
        BotView { emails: texts(self.emails@), cards: texts(self.cards@) }
    }
}

/// The user's e-mail address, if one is known: an entry that is not the
/// `WAITING` mark.
pub open spec fn stored_email(emails: Map<u64, Seq<char>>, user: u64) -> Option<Seq<char>> {
    if emails.contains_key(user) && emails[user] != WAITING@ {
        Some(emails[user])
    } else {
        None
    }
}

/// Whether the bot waits for the user to write an e-mail address.
pub open spec fn awaiting_email(emails: Map<u64, Seq<char>>, user: u64) -> bool {
    emails.contains_key(user) && emails[user] == WAITING@
}

/// Whether answering the text needs to know its author: every text but the
/// commands that come before the e-mail entry does, and so does `/msg`.
pub open spec fn needs_sender(text: Seq<char>) -> bool {
    let c = command_of(lowercase(text));
    !c.precedes_mail_entry() || c == Command::Mail
}

/// The warning sent before a die is thrown, naming the losing number.
pub open spec fn dice_warning(roll: u8) -> Seq<char> {
    DICE_PREFIX@ + decimal(roll as nat) + DICE_SUFFIX@
}

/// How the bot's memory changes with a message.
pub open spec fn next_state(s: BotView, sender: Option<SenderView>, text: Seq<char>) -> BotView {
    let lower = lowercase(text);
    let c = command_of(lower);
    if c.precedes_mail_entry() {
        s
    } else {
        let user: u64 = sender->0.id;
        if awaiting_email(s.emails, user) {
            BotView { emails: s.emails.insert(user, trimmed(lower)), cards: s.cards }
        } else if c == Command::SetMail {
            BotView { emails: s.emails.insert(user, WAITING@), cards: s.cards }
        } else {
            s
        }
    }
}

/// What the bot does about a message, in the state it was in when the message
/// came; `roll` is the losing number announced on `/dice`.
pub open spec fn plan_of(s: BotView, sender: Option<SenderView>, text: Seq<char>, roll: u8) -> PlanView {
    let lower = lowercase(text);
    let c = command_of(lower);
    let user: u64 = sender->0.id;
    match c {
        Command::Casino => PlanView::Send(
            seq![OutgoingView::Text(CASINO_TEXT@), OutgoingView::Dice(DiceKind::SlotMachine)],
        ),
        Command::Darts => PlanView::Send(
            seq![OutgoingView::Text(DARTS_TEXT@), OutgoingView::Dice(DiceKind::Darts)],
        ),
        Command::Dice => PlanView::Send(
            seq![OutgoingView::Text(dice_warning(roll)), OutgoingView::Dice(DiceKind::Dice)],
        ),
        Command::Help => PlanView::Send(seq![OutgoingView::Text(HELP_TEXT@)]),
        Command::GenOffice => PlanView::Generate {
            notice: seq![OutgoingView::Text(GEN_OFFICE_NOTICE@)],
            prompt: PROMPT_OFFICE@,
            kind: Generation::Card { user: if sender is Some { Some(user) } else { None } },
        },
        Command::GenZavod => PlanView::Generate {
            notice: seq![OutgoingView::Text(GEN_ZAVOD_NOTICE@)],
            prompt: PROMPT_ZAVOD@,
            kind: Generation::Card { user: if sender is Some { Some(user) } else { None } },
        },
        Command::Mail => if s.cards.contains_key(user) {
            PlanView::MailCard { user, card: s.cards[user] }
        } else {
            PlanView::Send(seq![OutgoingView::Text(NO_CARD_YET@)])
        },
        _ => if awaiting_email(s.emails, user) {
            PlanView::StoreEmail {
                user,
                email: trimmed(lower),
                confirm: seq![
                    OutgoingView::Text(MAIL_SAVED_PREFIX@ + trimmed(lower) + MAIL_SAVED_SUFFIX@),
                ],
            }
        } else {
            plan_of_command(s, sender->0, text, c)
        },
    }
}

/// What the bot does about the commands that come after the e-mail entry,
/// when no address is awaited.
pub open spec fn plan_of_command(s: BotView, sender: SenderView, text: Seq<char>, c: Command) -> PlanView {
    let user: u64 = sender.id;
    match c {
        Command::SetMail => PlanView::Send(seq![OutgoingView::Text(ENTER_MAIL@)]),
        Command::Shutdown => if user == ADMIN_ID {
            PlanView::Shutdown { farewell: seq![OutgoingView::Text(SHUTDOWN_TEXT@)] }
        } else {
            PlanView::Send(seq![])
        },
        Command::Version => PlanView::Send(seq![OutgoingView::Text(VERSION_PREFIX@ + VERSION@)]),
        Command::Subscribe => match stored_email(s.emails, user) {
            Some(e) => PlanView::Subscribe { user, email: e },
            None => PlanView::Send(seq![OutgoingView::Text(SET_MAIL_FIRST@)]),
        },
        Command::Unsubscribe => PlanView::Unsubscribe { user },
        Command::SubscriptionStatus => PlanView::CheckStatus { user },
        _ => PlanView::Generate {
            notice: seq![
                OutgoingView::ToAdmin(sender.first_name + NAME_SEPARATOR@ + text),
                OutgoingView::Text(CHAT_NOTICE@),
            ],
            prompt: text,
            kind: Generation::Chat,
        },
    }
}

fn text_message(t: String) -> (r: Vec<Outgoing>)
    ensures
        views(r@) == seq![OutgoingView::Text(t@)],
{
    let r = vec![Outgoing::Text(t)];
    assert(views(r@) =~= seq![OutgoingView::Text(t@)]);
    r
}

fn text_and_dice(t: String, k: DiceKind) -> (r: Vec<Outgoing>)
    ensures
        views(r@) == seq![OutgoingView::Text(t@), OutgoingView::Dice(k)],
{
    let r = vec![Outgoing::Text(t), Outgoing::Dice(k)];
    assert(views(r@) =~= seq![OutgoingView::Text(t@), OutgoingView::Dice(k)]);
    r
}

/// Calls `rand::random_range` on `low..=high`: a number that its
/// documentation puts in the range (which must not be empty); chance decides
/// which.
#[verifier::external_body]
fn random_between(low: u8, high: u8) -> (r: u8)
    requires
        low <= high,
    ensures
        low <= r <= high,
{
    rand::random_range(low..=high)
}

impl KnBot {
    /// A bot that knows the given e-mail entries and no cards.
    pub fn new(emails: HashMap<u64, String>) -> (r: KnBot)
        ensures
            r@.emails == texts(emails@),
            r@.cards == Map::<u64, Seq<char>>::empty(),
    {
        let r = KnBot { emails, cards: HashMap::new() };
        assert(r@.cards =~= Map::<u64, Seq<char>>::empty());
        r
    }

    /// The user's e-mail address, if they gave one and the bot is not waiting
    /// for a new one.
    pub fn user_email(&self, user: u64) -> (r: Option<String>)
        ensures
            match r {
                Some(e) => stored_email(self@.emails, user) == Some(e@),
                None => stored_email(self@.emails, user) is None,
            },
    {
        match self.emails.get(&user) {
            Some(e) => {
                let waiting = String::from_str(WAITING);
                if *e == waiting {
                    None
                } else {
                    Some(e.clone())
                }
            },
            None => None,
        }
    }

    fn is_awaiting_email(&self, user: u64) -> (r: bool)
        ensures
            r == awaiting_email(self@.emails, user),
    {
        match self.emails.get(&user) {
            Some(e) => {
                let waiting = String::from_str(WAITING);
                *e == waiting
            },
            None => false,
        }
    }

    fn set_email(&mut self, user: u64, value: String)
        ensures
            final(self)@.emails == old(self)@.emails.insert(user, value@),
            final(self)@.cards == old(self)@.cards,
    {
        self.emails.insert(user, value);
        assert(self@.emails =~= old(self)@.emails.insert(user, value@));
    }

    /// Answers a message, announcing `roll` as the losing number on `/dice`.
    pub fn handle(&mut self, sender: &Option<Sender>, text: &str, roll: u8) -> (r: Plan)
        requires
            needs_sender(text@) ==> sender is Some,
        ensures
            r@ == plan_of(old(self)@, sender_view(*sender), text@, roll),
            final(self)@ == next_state(old(self)@, sender_view(*sender), text@),
    {
        let lower = to_lowercase(text);
        let c = classify(&lower);
        match c {
            Command::Casino => Plan::Send(text_and_dice(String::from_str(CASINO_TEXT), DiceKind::SlotMachine)),
            Command::Darts => Plan::Send(text_and_dice(String::from_str(DARTS_TEXT), DiceKind::Darts)),
            Command::Dice => {
                let number = decimal_text(roll as u64);
                let warning = join3(DICE_PREFIX, number.as_str(), DICE_SUFFIX);
                Plan::Send(text_and_dice(warning, DiceKind::Dice))
            },
            Command::Help => Plan::Send(text_message(String::from_str(HELP_TEXT))),
            Command::GenOffice => Plan::Generate {
                notice: text_message(String::from_str(GEN_OFFICE_NOTICE)),
                prompt: String::from_str(PROMPT_OFFICE),
                kind: Generation::Card { user: match sender { Some(s) => Some(s.id), None => None } },
            },
            Command::GenZavod => Plan::Generate {
                notice: text_message(String::from_str(GEN_ZAVOD_NOTICE)),
                prompt: String::from_str(PROMPT_ZAVOD),
                kind: Generation::Card { user: match sender { Some(s) => Some(s.id), None => None } },
            },
            Command::Mail => {
                let user: u64 = match sender { Some(s) => s.id, None => 0 };
                match self.cards.get(&user) {
                    Some(card) => Plan::MailCard { user, card: card.clone() },
                    None => Plan::Send(text_message(String::from_str(NO_CARD_YET))),
                }
            },
            _ => {
                let user: u64 = match sender {
                    Some(s) => s.id,
                    None => 0,
                };
                let first_name: &String = match sender {
                    Some(s) => &s.first_name,
                    None => &lower,
                };
                if self.is_awaiting_email(user) {
                    let email = trim(lower.as_str());
                    let confirm = text_message(join3(MAIL_SAVED_PREFIX, email.as_str(), MAIL_SAVED_SUFFIX));
                    self.set_email(user, email.clone());
                    Plan::StoreEmail { user, email, confirm }
                } else {
                    self.plan_command(user, first_name, text, c)
                }
            },
        }
    }

    fn plan_command(&mut self, user: u64, first_name: &String, text: &str, c: Command) -> (r: Plan)
        requires
            !c.precedes_mail_entry(),
            !awaiting_email(old(self)@.emails, user),
        ensures
            r@ == plan_of_command(old(self)@, SenderView { id: user, first_name: first_name@ }, text@, c),
            final(self)@ == (if c == Command::SetMail {
                BotView { emails: old(self)@.emails.insert(user, WAITING@), cards: old(self)@.cards }
            } else {
                old(self)@
            }),
    {
        match c {
            Command::SetMail => {
                self.set_email(user, String::from_str(WAITING));
                Plan::Send(text_message(String::from_str(ENTER_MAIL)))
            },
            Command::Shutdown => if user == ADMIN_ID {
                Plan::Shutdown { farewell: text_message(String::from_str(SHUTDOWN_TEXT)) }
            } else {
                let none: Vec<Outgoing> = Vec::new();
                assert(views(none@) =~= seq![]);
                Plan::Send(none)
            },
            Command::Version => Plan::Send(text_message(join2(VERSION_PREFIX, VERSION))),
            Command::Subscribe => match self.user_email(user) {
                Some(email) => Plan::Subscribe { user, email },
                None => Plan::Send(text_message(String::from_str(SET_MAIL_FIRST))),
            },
            Command::Unsubscribe => Plan::Unsubscribe { user },
            Command::SubscriptionStatus => Plan::CheckStatus { user },
            _ => {
                let echo = join3(first_name.as_str(), NAME_SEPARATOR, text);
                let notice = vec![Outgoing::ToAdmin(echo), Outgoing::Text(String::from_str(CHAT_NOTICE))];
                assert(views(notice@) =~= seq![
                    OutgoingView::ToAdmin(first_name@ + NAME_SEPARATOR@ + text@),
                    OutgoingView::Text(CHAT_NOTICE@),
                ]);
                Plan::Generate { notice, prompt: String::from_str(text), kind: Generation::Chat }
            },
        }
    }
}


/// The messages that follow a generation: the text (and, for a card made for
/// a known user, an offer to mail it, or a request for an address), or an
/// apology when the model gave nothing. `outcome` is the text, if any.
pub open spec fn generation_replies(s: BotView, kind: Generation, outcome: Option<Seq<char>>) -> Seq<OutgoingView> {
    match outcome {
        None => seq![OutgoingView::Text(GENERATION_FAILED@)],
        Some(t) => match kind {
            Generation::Card { user: Some(u) } => seq![
                OutgoingView::Text(t),
                OutgoingView::Text(
                    match stored_email(s.emails, u) {
                        Some(e) => OFFER_MAIL_PREFIX@ + e + OFFER_MAIL_SUFFIX@,
                        None => ASK_FOR_MAIL@,
                    },
                ),
            ],
            _ => seq![OutgoingView::Text(t)],
        },
    }
}

/// How the bot's memory changes when a generation ends: a card made for a
/// known user becomes that user's last card.
pub open spec fn state_after_generation(s: BotView, kind: Generation, outcome: Option<Seq<char>>) -> BotView {
    match (outcome, kind) {
        (Some(t), Generation::Card { user: Some(u) }) => BotView { emails: s.emails, cards: s.cards.insert(u, t) },
        _ => s,
    }
}

pub open spec fn outcome_text(outcome: &Result<String, AiError>) -> Option<Seq<char>> {
    match outcome {
        Ok(t) => Some(t@),
        Err(_) => None,
    }
}

/// The next step of mailing a card: a reply, or an e-mail to deliver and the
/// reply to send once it is delivered.
pub enum MailStep {
    Reply(String),
    Deliver { draft: MailDraft, confirmation: String },
}

impl KnBot {
    /// Answers a message; on `/dice` the losing number is thrown at random.
    pub fn handle_text(&mut self, sender: &Option<Sender>, text: &str) -> (r: Plan)
        requires
            needs_sender(text@) ==> sender is Some,
        ensures
            exists|roll: u8|
                1 <= roll <= 6 && r@ == plan_of(old(self)@, sender_view(*sender), text@, roll),
            final(self)@ == next_state(old(self)@, sender_view(*sender), text@),
    {
        let roll: u8 = random_between(1, 6);
        self.handle(sender, text, roll)
    }

    /// Answers a message whose author may be unknown: `None` where answering
    /// it needs the author and there is none; otherwise as `handle_text`.
    pub fn answer(&mut self, sender: &Option<Sender>, text: &str) -> (r: Option<Plan>)
        ensures
            (needs_sender(text@) && sender is None) <==> r is None,
            r is None ==> final(self)@ == old(self)@,
            r matches Some(plan) ==> exists|roll: u8|
                1 <= roll <= 6 && plan@ == plan_of(old(self)@, sender_view(*sender), text@, roll),
            r is Some ==> final(self)@ == next_state(old(self)@, sender_view(*sender), text@),
    {
        if sender.is_none() && sender_required(text) {
            return None;
        }
        Some(self.handle_text(sender, text))
    }

    /// Ends a generation: keeps a card made for a known user as that user's
    /// last card, and gives the messages to send. A card that came back for a
    /// message without author is not accepted.
    pub fn finish_generation(&mut self, kind: Generation, outcome: &Result<String, AiError>) -> (r: Vec<Outgoing>)
        requires
            outcome is Ok ==> kind != (Generation::Card { user: None }),
        ensures
            views(r@) == generation_replies(old(self)@, kind, outcome_text(outcome)),
            final(self)@ == state_after_generation(old(self)@, kind, outcome_text(outcome)),
    {
        match outcome {
            Err(_) => text_message(String::from_str(GENERATION_FAILED)),
            Ok(t) => match kind {
                Generation::Card { user: Some(u) } => {
                    self.cards.insert(u, t.clone());
                    assert(self@.cards =~= old(self)@.cards.insert(u, t@));
                    assert(self@.emails =~= old(self)@.emails);
                    let offer = match self.user_email(u) {
                        Some(e) => join3(OFFER_MAIL_PREFIX, e.as_str(), OFFER_MAIL_SUFFIX),
                        None => String::from_str(ASK_FOR_MAIL),
                    };
                    let r = vec![Outgoing::Text(t.clone()), Outgoing::Text(offer)];
                    assert(views(r@) =~= generation_replies(old(self)@, kind, outcome_text(outcome)));
                    r
                },
                _ => text_message(t.clone()),
            },
        }
    }

    /// Prepares the mailing of a card: without a known address the user is
    /// asked to give one; otherwise the card goes to that address.
    pub fn mail_card(&self, user: u64, card: &str) -> (r: MailStep)
        ensures
            match stored_email(self@.emails, user) {
                None => r matches MailStep::Reply(t) && t@ == SET_MAIL_BEFORE_SENDING@,
                Some(e) => r matches MailStep::Deliver { draft, confirmation }
                    && is_mail(draft, e, CARD_SUBJECT@, card@)
                    && confirmation@ == MAIL_SENT_PREFIX@ + e,
            },
    {
        match self.user_email(user) {
            None => MailStep::Reply(String::from_str(SET_MAIL_BEFORE_SENDING)),
            Some(e) => MailStep::Deliver {
                draft: card_mail(e.as_str(), card),
                confirmation: join2(MAIL_SENT_PREFIX, e.as_str()),
            },
        }
    }
}

/// The reply when mailing a card failed, with the reason.
pub fn delivery_failure(reason: &str) -> (r: String)
    ensures
        r@ == SEND_FAILED_PREFIX@ + reason@,
{
    join2(SEND_FAILED_PREFIX, reason)
}

/// The reply once a card was sent off: the confirmation where it was
/// delivered, the failure and its reason where not.
pub fn delivery_reply(confirmation: &str, outcome: &Result<(), String>) -> (r: String)
    ensures
        r@ == match outcome {
            Ok(_) => confirmation@,
            Err(reason) => SEND_FAILED_PREFIX@ + reason@,
        },
{
    match outcome {
        Ok(_) => String::from_str(confirmation),
        Err(reason) => delivery_failure(reason.as_str()),
    }
}

/// Whether answering the text needs to know its author (see `needs_sender`).
pub fn sender_required(text: &str) -> (r: bool)
    ensures
        r == needs_sender(text@),
{
    let lower = to_lowercase(text);
    let c = classify(&lower);
    match c {
        Command::Casino | Command::Darts | Command::Dice | Command::Help | Command::GenOffice
        | Command::GenZavod => false,
        _ => true,
    }
}

} // verus!
