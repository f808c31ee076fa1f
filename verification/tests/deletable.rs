use anilist_bot::deletable::{
    delete_emoji_text, is_delete_emoji, start, step, Action, Event, Phase, REACTION_TIMEOUT_SECS,
};

#[test]
fn deleted_on_request() {
    let (p, a) = start();
    assert_eq!((p, a), (Phase::Sending, Action::SendReply));
    let (p, a) = step(p, Event::Completed);
    assert_eq!(a, Action::AddDeleteReaction);
    let (p, a) = step(p, Event::Completed);
    assert_eq!(a, Action::AwaitDeleteReaction { timeout_secs: 20 });
    assert_eq!(REACTION_TIMEOUT_SECS, 20);
    let (p, a) = step(p, Event::DeleteRequested);
    assert_eq!(a, Action::DeleteReply);
    let (p, a) = step(p, Event::Completed);
    assert_eq!((p, a), (Phase::Finished, Action::Stop));
}

#[test]
fn reaction_removed_on_timeout() {
    let (p, _) = step(Phase::Reacting, Event::Completed);
    let (p, a) = step(p, Event::TimedOut);
    assert_eq!(a, Action::RemoveDeleteReaction);
    assert_eq!(step(p, Event::Completed), (Phase::Finished, Action::Stop));
}

#[test]
fn unexpected_events_stop() {
    assert_eq!(step(Phase::Sending, Event::TimedOut), (Phase::Finished, Action::Stop));
    assert_eq!(step(Phase::Finished, Event::Completed), (Phase::Finished, Action::Stop));
    assert_eq!(step(Phase::Watching, Event::Completed), (Phase::Finished, Action::Stop));
}

#[test]
fn delete_emoji() {
    assert_eq!(delete_emoji_text(), "\u{274C}");
    assert!(is_delete_emoji("\u{274C}"));
    assert!(!is_delete_emoji("x"));
    assert!(!is_delete_emoji(""));
}
