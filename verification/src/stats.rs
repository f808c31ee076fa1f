//! The statistics lines shown in the footer of media and user cards.

use vstd::prelude::*;
use vstd::string::StringExecFns;
use crate::number::{decimal, push_decimal};

verus! {

broadcast use vstd::string::group_string_axioms;

/// Release status of an anime or manga.
pub enum MediaStatus {
    Finished,
    Releasing,
    NotYetReleased,
    Cancelled,
    Hiatus,
    /// A status this library does not know, by its name.
    Other(String),
}

/// The words shown for a known status; an unknown one shows nothing.
pub open spec fn status_label(status: MediaStatus) -> Seq<char> {
    match status {
        MediaStatus::Releasing => "Releasing"@,
        MediaStatus::NotYetReleased => "Not yet released"@,
        MediaStatus::Finished => "Finished"@,
        MediaStatus::Cancelled => "Cancelled"@,
        MediaStatus::Hiatus => "Hiatus"@,
        MediaStatus::Other(_) => ""@,
    }
}

/// Two en spaces, which Discord does not strip, separate the parts of a line.
pub open spec fn gap() -> Seq<char> {
    "\u{2002}\u{2002}"@
}

/// `"Score: N%"` and a gap for a known mean score, nothing otherwise.
pub open spec fn score_part(mean_score: Option<i64>) -> Seq<char> {
    match mean_score {
        Some(n) => "Score: "@ + decimal(n as int) + "%"@ + gap(),
        None => ""@,
    }
}

/// `"Status: ..."` for a known status, nothing otherwise.
pub open spec fn status_part(status: Option<MediaStatus>) -> Seq<char> {
    match status {
        Some(MediaStatus::Other(_)) => ""@,
        Some(s) => "Status: "@ + status_label(s),
        None => ""@,
    }
}

/// The footer of a media card: the score part, then the status part.
pub open spec fn media_stats_line(mean_score: Option<i64>, status: Option<MediaStatus>) -> Seq<char> {
    score_part(mean_score) + status_part(status)
}

fn status_label_text(status: &MediaStatus) -> (s: &'static str)
    ensures
        s@ == status_label(*status),
{
    match status {
        MediaStatus::Releasing => "Releasing",
        MediaStatus::NotYetReleased => "Not yet released",
        MediaStatus::Finished => "Finished",
        MediaStatus::Cancelled => "Cancelled",
        MediaStatus::Hiatus => "Hiatus",
        MediaStatus::Other(_) => "",
    }
}

/// Footer of a media card from its mean score and release status.
pub fn media_stats(mean_score: Option<i64>, status: &Option<MediaStatus>) -> (out: String)
    ensures
        out@ == media_stats_line(mean_score, *status),
{
    proof {
        reveal_strlit("");
    }
    if status.is_some() || mean_score.is_some() {
        let mut line = String::new();
        match mean_score {
            Some(n) => {
                line.append("Score: ");
                push_decimal(&mut line, n);
                line.append("%");
                line.append("\u{2002}\u{2002}");
            },
            None => {},
        }
        match status {
            Some(MediaStatus::Other(_)) => {},
            Some(s) => {
                line.append("Status: ");
                line.append(status_label_text(s));
            },
            None => {},
        }
        assert(line@ =~= media_stats_line(mean_score, *status));
        line
    } else {
        assert(media_stats_line(mean_score, *status) =~= Seq::<char>::empty());
        String::new()
    }
}

/// The footer is empty exactly when there is neither a score nor a known status.
pub proof fn lemma_media_stats_empty(mean_score: Option<i64>, status: Option<MediaStatus>)
    ensures
        (media_stats_line(mean_score, status).len() == 0) <==> (mean_score is None && (
        status is None || status matches Some(MediaStatus::Other(_)))),
{
    reveal_strlit("");
    reveal_strlit("Score: ");
    reveal_strlit("Status: ");
}

/// A known score always opens the footer, whatever the status:
/// `"Score: N%"` and the gap, followed by exactly what the footer would be
/// without a score; without a score only the status part is shown.
pub proof fn lemma_media_stats_score_first(n: i64, status: Option<MediaStatus>)
    ensures
        media_stats_line(Some(n), status) == "Score: "@ + decimal(n as int) + "%"@ + "\u{2002}\u{2002}"@
            + media_stats_line(None, status),
        media_stats_line(None, status) == match status {
            Some(MediaStatus::Other(_)) => Seq::<char>::empty(),
            Some(s) => "Status: "@ + status_label(s),
            None => Seq::<char>::empty(),
        },
{
    reveal_strlit("");
    assert(media_stats_line(Some(n), status) =~= "Score: "@ + decimal(n as int) + "%"@ + "\u{2002}\u{2002}"@
        + media_stats_line(None, status));
    assert(media_stats_line(None, status) =~= status_part(status));
}

/// Viewing statistics of a user.
pub struct UserStatistics {
    /// Minutes of anime watched.
    pub minutes_watched: i64,
    /// The days those minutes make, written with one decimal
    /// (`format!("{:.1}", minutes_watched as f64 / 1440.0)`).
    pub days_watched: String,
    /// Chapters of manga read.
    pub chapters_read: i64,
}

/// `"Days watched: D"` and a gap when any minute was watched, nothing otherwise.
pub open spec fn watched_part(stats: UserStatistics) -> Seq<char> {
    if stats.minutes_watched > 0 {
        "Days watched: "@ + stats.days_watched@ + gap()
    } else {
        ""@
    }
}

/// `"Chapters read: N"` when any chapter was read, nothing otherwise.
pub open spec fn read_part(stats: UserStatistics) -> Seq<char> {
    if stats.chapters_read > 0 {
        "Chapters read: "@ + decimal(stats.chapters_read as int)
    } else {
        ""@
    }
}

/// The footer of a user card: nothing without statistics, else the watched
/// part then the read part.
pub open spec fn user_stats_line(stats: Option<UserStatistics>) -> Seq<char> {
    match stats {
        Some(st) => watched_part(st) + read_part(st),
        None => ""@,
    }
}

/// Footer of a user card from the user's statistics.
pub fn user_stats(stats: &Option<UserStatistics>) -> (out: String)
    ensures
        out@ == user_stats_line(*stats),
{
    proof {
        reveal_strlit("");
    }
    match stats {
        Some(st) => {
            let mut line = String::new();
            if st.minutes_watched > 0 {
                line.append("Days watched: ");
                line.append(st.days_watched.as_str());
                line.append("\u{2002}\u{2002}");
            }
            if st.chapters_read > 0 {
                line.append("Chapters read: ");
                push_decimal(&mut line, st.chapters_read);
            }
            assert(line@ =~= user_stats_line(*stats));
            line
        },
        None => String::new(),
    }
}

/// The footer is empty exactly when there are no statistics, or nothing was
/// watched and nothing read.
pub proof fn lemma_user_stats_empty(stats: Option<UserStatistics>)
    ensures
        (user_stats_line(stats).len() == 0) <==> (match stats {
            Some(st) => st.minutes_watched <= 0 && st.chapters_read <= 0,
            None => true,
        }),
{
    reveal_strlit("");
    reveal_strlit("Days watched: ");
    reveal_strlit("Chapters read: ");
}

}
