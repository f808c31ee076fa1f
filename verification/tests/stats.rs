use anilist_bot::stats::{media_stats, user_stats, MediaStatus, UserStatistics};

#[test]
fn score_and_status() {
    assert_eq!(
        media_stats(Some(85), &Some(MediaStatus::Finished)),
        "Score: 85%\u{2002}\u{2002}Status: Finished"
    );
}

#[test]
fn score_only() {
    assert_eq!(media_stats(Some(7), &None), "Score: 7%\u{2002}\u{2002}");
    assert_eq!(media_stats(Some(-12), &None), "Score: -12%\u{2002}\u{2002}");
    assert_eq!(media_stats(Some(0), &None), "Score: 0%\u{2002}\u{2002}");
}

#[test]
fn extreme_scores() {
    assert_eq!(
        media_stats(Some(i64::MIN), &None),
        format!("Score: {}%\u{2002}\u{2002}", i64::MIN)
    );
    assert_eq!(
        media_stats(Some(i64::MAX), &None),
        format!("Score: {}%\u{2002}\u{2002}", i64::MAX)
    );
}

#[test]
fn status_only() {
    assert_eq!(media_stats(None, &Some(MediaStatus::Releasing)), "Status: Releasing");
    assert_eq!(
        media_stats(None, &Some(MediaStatus::NotYetReleased)),
        "Status: Not yet released"
    );
    assert_eq!(media_stats(None, &Some(MediaStatus::Cancelled)), "Status: Cancelled");
    assert_eq!(media_stats(None, &Some(MediaStatus::Hiatus)), "Status: Hiatus");
}

#[test]
fn unknown_status_and_nothing() {
    assert_eq!(media_stats(None, &Some(MediaStatus::Other("X".to_string()))), "");
    assert_eq!(media_stats(None, &None), "");
    assert_eq!(
        media_stats(Some(50), &Some(MediaStatus::Other("X".to_string()))),
        "Score: 50%\u{2002}\u{2002}"
    );
}

fn stats(minutes: i64, days: &str, chapters: i64) -> Option<UserStatistics> {
    Some(UserStatistics { minutes_watched: minutes, days_watched: days.to_string(), chapters_read: chapters })
}

#[test]
fn user_statistics_lines() {
    assert_eq!(
        user_stats(&stats(2880, "2.0", 120)),
        "Days watched: 2.0\u{2002}\u{2002}Chapters read: 120"
    );
    assert_eq!(user_stats(&stats(0, "0.0", 3)), "Chapters read: 3");
    assert_eq!(user_stats(&stats(10, "0.0", 0)), "Days watched: 0.0\u{2002}\u{2002}");
    assert_eq!(user_stats(&stats(0, "0.0", 0)), "");
    assert_eq!(user_stats(&stats(-5, "-0.0", -1)), "");
    assert_eq!(user_stats(&None), "");
}
