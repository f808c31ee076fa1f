//! Life cycle of a reply that its reader may delete: the reply is sent, the
//! bot reacts to it with a cross, and waits a while for the command's author
//! to react with the same cross. If they do, the reply is deleted; if not,
//! the bot takes its own reaction back.

use vstd::prelude::*;

verus! {

/// How long the bot waits for the author's reaction, in seconds.
pub const REACTION_TIMEOUT_SECS: u64 = 20;

/// The reaction that asks for the deletion of a reply (a red cross mark).
pub open spec fn delete_emoji() -> Seq<char> {
    "\u{274C}"@
}

/// The text of the reaction that asks for the deletion of a reply.
pub fn delete_emoji_text() -> (s: String)
    ensures
        s@ == delete_emoji(),
{
    "\u{274C}".to_owned()
}

/// Whether a reaction's emoji is the one that asks for deletion.
pub fn is_delete_emoji(emoji: &str) -> (b: bool)
    ensures
        b == (emoji@ == delete_emoji()),
{
    emoji.to_owned() == delete_emoji_text()
}

/// What the exchange is waiting for.
#[derive(PartialEq, Eq, Structural, Clone, Copy, Debug)]
pub enum Phase {
    /// The reply is being sent.
    Sending,
    /// The bot's cross is being added to the reply.
    Reacting,
    /// The bot waits for the author's cross.
    Watching,
    /// The reply or the bot's cross is being removed.
    Cleaning,
    /// Nothing more happens.
    Finished,
}

/// What happened since the last action.
#[derive(PartialEq, Eq, Structural, Clone, Copy, Debug)]
pub enum Event {
    /// The last action was carried out.
    Completed,
    /// The command's author reacted to the reply with the cross.
    DeleteRequested,
    /// The wait ended without such a reaction.
    TimedOut,
}

/// What is to be done next.
#[derive(PartialEq, Eq, Structural, Clone, Copy, Debug)]
pub enum Action {
    /// Send the reply.
    SendReply,
    /// React to the reply with the cross.
    AddDeleteReaction,
    /// Wait up to `timeout_secs` seconds for the author's cross on the reply.
    AwaitDeleteReaction { timeout_secs: u64 },
    /// Delete the reply.
    DeleteReply,
    /// Take the bot's own cross back.
    RemoveDeleteReaction,
    /// Stop.
    Stop,
}

/// The phase and action an exchange starts with.
pub open spec fn initial() -> (Phase, Action) {
    (Phase::Sending, Action::SendReply)
}

/// The phase and action that follow `event` in `phase`. An event that does
/// not fit the phase ends the exchange.
pub open spec fn next(phase: Phase, event: Event) -> (Phase, Action) {
    match (phase, event) {
        (Phase::Sending, Event::Completed) => (Phase::Reacting, Action::AddDeleteReaction),
        (Phase::Reacting, Event::Completed) => (
            Phase::Watching,
            Action::AwaitDeleteReaction { timeout_secs: REACTION_TIMEOUT_SECS },
        ),
        (Phase::Watching, Event::DeleteRequested) => (Phase::Cleaning, Action::DeleteReply),
        (Phase::Watching, Event::TimedOut) => (Phase::Cleaning, Action::RemoveDeleteReaction),
        _ => (Phase::Finished, Action::Stop),
    }
}

/// Starts an exchange.
pub fn start() -> (r: (Phase, Action))
    ensures
        r == initial(),
{
    (Phase::Sending, Action::SendReply)
}

/// Decides what follows `event` in `phase`.
pub fn step(phase: Phase, event: Event) -> (r: (Phase, Action))
    ensures
        r == next(phase, event),
{
    match (phase, event) {
        (Phase::Sending, Event::Completed) => (Phase::Reacting, Action::AddDeleteReaction),
        (Phase::Reacting, Event::Completed) => (
            Phase::Watching,
            Action::AwaitDeleteReaction { timeout_secs: REACTION_TIMEOUT_SECS },
        ),
        (Phase::Watching, Event::DeleteRequested) => (Phase::Cleaning, Action::DeleteReply),
        (Phase::Watching, Event::TimedOut) => (Phase::Cleaning, Action::RemoveDeleteReaction),
        _ => (Phase::Finished, Action::Stop),
    }
}

/// The phase reached from `phase` through `events`, one step each.
pub open spec fn run(phase: Phase, events: Seq<Event>) -> Phase
    decreases events.len(),
{
    if events.len() == 0 {
        phase
    } else {
        run(next(phase, events[0]).0, events.drop_first())
    }
}

/// Once finished, an exchange stays finished and does nothing more.
pub proof fn lemma_finished_is_final(events: Seq<Event>)
    ensures
        run(Phase::Finished, events) == Phase::Finished,
        forall|e: Event| next(Phase::Finished, e) == (Phase::Finished, Action::Stop),
    decreases events.len(),
{
    if events.len() > 0 {
        lemma_finished_is_final(events.drop_first());
    }
}

/// A whole exchange: once the reply is sent and the cross added, the wait
/// ends either in the deletion of the reply (the author's cross) or in the
/// removal of the bot's cross (the time ran out), never both, and after that
/// the exchange is over.
pub proof fn lemma_exchange(outcome: Event)
    requires
        outcome == Event::DeleteRequested || outcome == Event::TimedOut,
    ensures
        initial() == (Phase::Sending, Action::SendReply),
        next(initial().0, Event::Completed) == (Phase::Reacting, Action::AddDeleteReaction),
        next(Phase::Reacting, Event::Completed) == (
            Phase::Watching,
            Action::AwaitDeleteReaction { timeout_secs: REACTION_TIMEOUT_SECS },
        ),
        next(Phase::Watching, outcome) == (Phase::Cleaning, if outcome == Event::DeleteRequested {
            Action::DeleteReply
        } else {
            Action::RemoveDeleteReaction
        }),
        next(Phase::Cleaning, Event::Completed) == (Phase::Finished, Action::Stop),
{
}

}
