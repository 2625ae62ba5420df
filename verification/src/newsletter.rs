//! The monthly newsletter: when it is due, and the round that brings a fresh
//! observation card to each subscriber in turn.

use vstd::prelude::*;
use crate::clock::{utc_day_of_month, UtcTime};
use crate::completion::AiError;
use crate::mail::{is_mail, newsletter_mail, MailDraft, NEWSLETTER_SUBJECT};
use crate::text::{PROMPT_OFFICE, PROMPT_ZAVOD};

verus! {

/// The day of the month on which the newsletter goes out: the 2nd, as the
/// bot tells its subscribers.
pub const NEWSLETTER_DAY: u32 = 2;

/// How long the round waits after each subscriber, in seconds, so as not to
/// flood the mail server.
pub const PAUSE_SECONDS: u64 = 10;

/// Whether the newsletter is due at the given time: on `NEWSLETTER_DAY` of the
/// month, in UTC.
pub fn newsletter_due(now: &UtcTime) -> (r: bool)
    ensures
        r == (utc_day_of_month(now@.0, now@.1) == NEWSLETTER_DAY),
{
    now.day() == NEWSLETTER_DAY
}

/// Whether the newsletter is due now, by the clock: a reading of the clock
/// is taken, and the answer is whether its day of the month in UTC is
/// `NEWSLETTER_DAY`.
pub fn newsletter_due_now() -> (r: bool)
    ensures
        exists|now: UtcTime|
            #[trigger] now.read_from_clock() && r == (utc_day_of_month(now@.0, now@.1) == NEWSLETTER_DAY),
{
    let now = UtcTime::now();
    let r: bool = newsletter_due(&now);
    assert(now.read_from_clock() && r == (utc_day_of_month(now@.0, now@.1) == NEWSLETTER_DAY));
    r
}

/// A user with an active subscription, and the address it goes to.
pub struct Subscriber {
    pub user_id: u64,
    pub email: String,
}

/// Where the round stands with the current subscriber.
#[derive(Clone, Copy, Debug, PartialEq, Eq, Structural)]
pub enum Phase {
    /// The card for the current subscriber is being written.
    AwaitingCard,
    /// The card is on its way to the current subscriber.
    AwaitingDelivery,
    /// The round waits before the next subscriber.
    Pausing,
    /// Every subscriber has had their turn.
    Finished,
    /// A card could not be delivered: the round stops there.
    Abandoned,
}

/// What the round asks for next.
pub enum NewsletterAction {
    /// Ask the model for a card on `prompt`, for this subscriber.
    Generate { user_id: u64, prompt: String },
    /// Send this e-mail to this subscriber.
    Deliver { user_id: u64, draft: MailDraft },
    /// Wait this many seconds.
    Pause { seconds: u64 },
    /// The round is over.
    Finish,
    /// The round stops: a card could not be delivered.
    Abandon,
}

/// What happened to the last thing the round asked for.
pub enum NewsletterEvent {
    Generated(Result<String, AiError>),
    Delivered,
    DeliveryFailed,
    Paused,
}

/// A round of the newsletter over a list of subscribers.
pub struct Newsletter {
    subscribers: Vec<Subscriber>,
    position: usize,
    phase: Phase,
}

pub struct NewsletterView {
    /// Each subscriber's id and address, in the order they are served.
    pub subscribers: Seq<(u64, Seq<char>)>,
    /// The subscriber being served (their number in the list).
    pub position: nat,
    pub phase: Phase,
}

impl View for Newsletter {
    type V = NewsletterView;

    closed spec fn view(&self) -> NewsletterView {
        NewsletterView {
            subscribers: self.subscribers@.map_values(|s: Subscriber| (s.user_id, s.email@)),
            position: self.position as nat,
            phase: self.phase,
        }
    }
}

/// The round has served the subscribers before `position`; while it goes on
/// it serves one of them, and it is finished only when it has served them all.
pub open spec fn well_formed(v: NewsletterView) -> bool {
    &&& v.position <= v.subscribers.len()
    &&& (v.phase == Phase::Finished ==> v.position == v.subscribers.len())
    &&& (v.phase != Phase::Finished && v.phase != Phase::Abandoned ==> v.position < v.subscribers.len())
}

/// What an event tells the round, its content aside.
#[derive(Clone, Copy, Debug, PartialEq, Eq, Structural)]
pub enum Happening {
    CardWritten,
    CardFailed,
    Delivered,
    DeliveryFailed,
    Paused,
}

pub open spec fn happening(event: NewsletterEvent) -> Happening {
    match event {
        NewsletterEvent::Generated(Ok(_)) => Happening::CardWritten,
        NewsletterEvent::Generated(Err(_)) => Happening::CardFailed,
        NewsletterEvent::Delivered => Happening::Delivered,
        NewsletterEvent::DeliveryFailed => Happening::DeliveryFailed,
        NewsletterEvent::Paused => Happening::Paused,
    }
}

/// Where the round stands after an event: a written card is delivered, a
/// failed one is skipped, a card that cannot be delivered stops the round,
/// and after each subscriber the round pauses before
/// it moves on to the next one, or finishes after the last.
pub open spec fn round_after(v: NewsletterView, h: Happening) -> NewsletterView {
    match h {
        Happening::CardWritten => NewsletterView { phase: Phase::AwaitingDelivery, ..v },
        Happening::CardFailed | Happening::Delivered => NewsletterView { phase: Phase::Pausing, ..v },
        Happening::DeliveryFailed => NewsletterView { phase: Phase::Abandoned, ..v },
        Happening::Paused => NewsletterView {
            position: v.position + 1,
            phase: if v.position + 1 < v.subscribers.len() { Phase::AwaitingCard } else { Phase::Finished },
            ..v
        },
    }
}

/// Whether the event answers what the round last asked for.
pub open spec fn expects(phase: Phase, event: NewsletterEvent) -> bool {
    match event {
        NewsletterEvent::Generated(_) => phase == Phase::AwaitingCard,
        NewsletterEvent::Delivered | NewsletterEvent::DeliveryFailed => phase == Phase::AwaitingDelivery,
        NewsletterEvent::Paused => phase == Phase::Pausing,
    }
}

/// The prompt a subscriber's monthly card is written on: the office and the
/// factory prompt take turns, by the parity of the user's id.
pub open spec fn prompt_for(user_id: u64) -> Seq<char> {
    if user_id % 2 == 0 { PROMPT_OFFICE@ } else { PROMPT_ZAVOD@ }
}

/// The prompt a subscriber's monthly card is written on.
pub fn newsletter_prompt(user_id: u64) -> (r: String)
    ensures
        r@ == prompt_for(user_id),
{
    if user_id % 2 == 0 {
        String::from_str(PROMPT_OFFICE)
    } else {
        String::from_str(PROMPT_ZAVOD)
    }
}

/// The request for the card of the subscriber at `position`.
pub open spec fn asks_card_for(a: NewsletterAction, v: NewsletterView) -> bool {
    a matches NewsletterAction::Generate { user_id, prompt }
        && user_id == v.subscribers[v.position as int].0 && prompt@ == prompt_for(user_id)
}

impl Newsletter {
    pub closed spec fn wf(&self) -> bool {
        &&& well_formed(self@)
        &&& self.subscribers@.len() == self@.subscribers.len()
    }

    fn card_request(&self) -> (a: NewsletterAction)
        requires
            self.wf(),
            self@.position < self@.subscribers.len(),
        ensures
            asks_card_for(a, self@),
    {
        let user_id: u64 = self.subscribers[self.position].user_id;
        NewsletterAction::Generate { user_id, prompt: newsletter_prompt(user_id) }
    }

    /// Starts a round: the first subscriber's card is asked for, or the round
    /// is over at once when there is nobody to serve.
    pub fn start(subscribers: Vec<Subscriber>) -> (r: (Newsletter, NewsletterAction))
        ensures
            r.0.wf(),
            r.0@.subscribers == subscribers@.map_values(|s: Subscriber| (s.user_id, s.email@)),
            r.0@.position == 0,
            subscribers@.len() == 0 ==> r.0@.phase == Phase::Finished && r.1 is Finish,
            subscribers@.len() > 0 ==> r.0@.phase == Phase::AwaitingCard && asks_card_for(r.1, r.0@),
    {
        let empty = subscribers.len() == 0;
        let round = Newsletter {
            subscribers,
            position: 0,
            phase: if empty { Phase::Finished } else { Phase::AwaitingCard },
        };
        if empty {
            (round, NewsletterAction::Finish)
        } else {
            let a = round.card_request();
            (round, a)
        }
    }

    /// Whether the event answers what the round last asked for.
    pub fn accepts(&self, event: &NewsletterEvent) -> (r: bool)
        ensures
            r == expects(self@.phase, *event),
    {
        match event {
            NewsletterEvent::Generated(_) => self.phase == Phase::AwaitingCard,
            NewsletterEvent::Delivered | NewsletterEvent::DeliveryFailed => self.phase == Phase::AwaitingDelivery,
            NewsletterEvent::Paused => self.phase == Phase::Pausing,
        }
    }

    /// Moves the round on. A card that was written goes to the current
    /// subscriber by e-mail; a card that could not be written is skipped; a
    /// card that could not be delivered stops the round.
    /// After each subscriber the round pauses, then serves the next one, or
    /// finishes after the last.
    pub fn step(&mut self, event: NewsletterEvent) -> (a: NewsletterAction)
        requires
            old(self).wf(),
            expects(old(self)@.phase, event),
        ensures
            final(self).wf(),
            final(self)@ == round_after(old(self)@, happening(event)),
            match event {
                NewsletterEvent::Generated(Ok(card)) => {
                    &&& final(self)@.position == old(self)@.position
                    &&& final(self)@.phase == Phase::AwaitingDelivery
                    &&& a matches NewsletterAction::Deliver { user_id, draft }
                        && user_id == old(self)@.subscribers[old(self)@.position as int].0
                        && is_mail(draft, old(self)@.subscribers[old(self)@.position as int].1,
                            NEWSLETTER_SUBJECT@, card@)
                },
                NewsletterEvent::Generated(Err(_)) | NewsletterEvent::Delivered => {
                    &&& final(self)@.position == old(self)@.position
                    &&& final(self)@.phase == Phase::Pausing
                    &&& a == NewsletterAction::Pause { seconds: PAUSE_SECONDS }
                },
                NewsletterEvent::DeliveryFailed => {
                    &&& final(self)@.position == old(self)@.position
                    &&& final(self)@.phase == Phase::Abandoned
                    &&& a is Abandon
                },
                NewsletterEvent::Paused => {
                    &&& final(self)@.position == old(self)@.position + 1
                    &&& (final(self)@.position < final(self)@.subscribers.len() ==>
                        final(self)@.phase == Phase::AwaitingCard && asks_card_for(a, final(self)@))
                    &&& (final(self)@.position == final(self)@.subscribers.len() ==>
                        final(self)@.phase == Phase::Finished && a is Finish)
                },
            },
    {
        match event {
            NewsletterEvent::Generated(Ok(card)) => {
                self.phase = Phase::AwaitingDelivery;
                let s = &self.subscribers[self.position];
                NewsletterAction::Deliver {
                    user_id: s.user_id,
                    draft: newsletter_mail(s.email.as_str(), card.as_str()),
                }
            },
            NewsletterEvent::Generated(Err(_)) | NewsletterEvent::Delivered => {
                self.phase = Phase::Pausing;
                NewsletterAction::Pause { seconds: PAUSE_SECONDS }
            },
            NewsletterEvent::DeliveryFailed => {
                self.phase = Phase::Abandoned;
                NewsletterAction::Abandon
            },
            NewsletterEvent::Paused => {
                assert(self.position < self.subscribers.len());
                self.position = self.position + 1;
                if self.position < self.subscribers.len() {
                    self.phase = Phase::AwaitingCard;
                    self.card_request()
                } else {
                    self.phase = Phase::Finished;
                    NewsletterAction::Finish
                }
            },
        }
    }
}

/// One subscriber's turn: their card is written and delivered, or it fails;
/// then the round pauses.
pub open spec fn turn(v: NewsletterView, delivered: bool) -> NewsletterView {
    if delivered {
        round_after(round_after(round_after(v, Happening::CardWritten), Happening::Delivered), Happening::Paused)
    } else {
        round_after(round_after(v, Happening::CardFailed), Happening::Paused)
    }
}

/// The turns of the next subscribers, one after another; `outcomes` says for
/// each whether their card was delivered.
pub open spec fn turns(v: NewsletterView, outcomes: Seq<bool>) -> NewsletterView
    decreases outcomes.len(),
{
    if outcomes.len() == 0 {
        v
    } else {
        turns(turn(v, outcomes[0]), outcomes.drop_first())
    }
}

/// Each subscriber has exactly one turn, in the order of the list: after `k`
/// turns the round asks for the card of the `k`-th next subscriber, and after
/// a turn for every subscriber that was left it is finished, whatever became
/// of the cards.
pub proof fn law_round_serves_each_subscriber_once(v: NewsletterView, outcomes: Seq<bool>)
    requires
        well_formed(v),
        v.phase == Phase::AwaitingCard,
        v.position + outcomes.len() <= v.subscribers.len(),
    ensures
        turns(v, outcomes).subscribers == v.subscribers,
        turns(v, outcomes).position == v.position + outcomes.len(),
        v.position + outcomes.len() < v.subscribers.len() ==> turns(v, outcomes).phase == Phase::AwaitingCard,
        v.position + outcomes.len() == v.subscribers.len() ==> turns(v, outcomes).phase == Phase::Finished,
    decreases outcomes.len(),
{
    if outcomes.len() > 0 {
        let next = turn(v, outcomes[0]);
        assert(next.position == v.position + 1);
        if next.position < v.subscribers.len() {
            law_round_serves_each_subscriber_once(next, outcomes.drop_first());
        } else {
            assert(outcomes.drop_first().len() == 0);
        }
    }
}

} // verus!
