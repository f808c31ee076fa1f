use anilist_bot::reply::{
    character_reply, media_reply, staff_reply, studio_reply, user_reply, Media, Person, Reply, Studio,
    User, EMBED_COLOR,
};
use anilist_bot::stats::{MediaStatus, UserStatistics};
use anilist_bot::studio::TitleLink;

const ICON: &str = "https://anilist.co/img/icons/favicon-32x32.png";

fn person(description: Option<&str>) -> Person {
    Person {
        name: "Ginko".to_string(),
        site_url: "https://anilist.co/character/1".to_string(),
        image: "https://img/1.png".to_string(),
        description: description.map(|d| d.to_string()),
    }
}

#[test]
fn character_not_found() {
    match character_reply(None) {
        Reply::Message(m) => assert_eq!(m, "Not found"),
        _ => panic!("expected a message"),
    }
    match staff_reply(None) {
        Reply::Message(m) => assert_eq!(m, "Not found"),
        _ => panic!("expected a message"),
    }
}

#[test]
fn character_card() {
    match character_reply(Some(person(Some("## Wanderer\n---\nHe studies mushi.")))) {
        Reply::Card { content, embed } => {
            assert_eq!(content, "<https://anilist.co/character/1>");
            assert_eq!(embed.author.name, "Ginko");
            assert_eq!(embed.author.icon_url, ICON);
            assert_eq!(embed.author.url, "https://anilist.co/character/1");
            assert_eq!(embed.thumbnail.as_deref(), Some("https://img/1.png"));
            assert_eq!(embed.description.as_deref(), Some(" Wanderer\n\nHe studies mushi."));
            assert_eq!(embed.color, EMBED_COLOR);
            assert_eq!(EMBED_COLOR, 3447003);
            assert!(embed.footer.is_none());
            assert!(embed.fields.is_empty());
        }
        _ => panic!("expected a card"),
    }
}

#[test]
fn staff_card_without_description() {
    match staff_reply(Some(person(None))) {
        Reply::Card { embed, .. } => assert_eq!(embed.description.as_deref(), Some("")),
        _ => panic!("expected a card"),
    }
}

#[test]
fn long_description_is_shortened_on_the_card() {
    let long = "w".repeat(600);
    match character_reply(Some(person(Some(&long)))) {
        Reply::Card { embed, .. } => {
            assert_eq!(embed.description, Some(format!("{}...", "w".repeat(400))))
        }
        _ => panic!("expected a card"),
    }
}

#[test]
fn media_card() {
    let media = Media {
        title: "Mushishi".to_string(),
        site_url: "https://anilist.co/anime/457".to_string(),
        cover_image: "https://img/457.png".to_string(),
        description: Some("Quiet.".to_string()),
        mean_score: Some(86),
        status: Some(MediaStatus::Finished),
    };
    match media_reply(Some(media)) {
        Reply::Card { content, embed } => {
            assert_eq!(content, "<https://anilist.co/anime/457>");
            assert_eq!(embed.author.name, "Mushishi");
            assert_eq!(embed.thumbnail.as_deref(), Some("https://img/457.png"));
            assert_eq!(embed.description.as_deref(), Some("Quiet."));
            assert_eq!(
                embed.footer.as_deref(),
                Some("Score: 86%\u{2002}\u{2002}Status: Finished")
            );
        }
        _ => panic!("expected a card"),
    }
    match media_reply(None) {
        Reply::Message(m) => assert_eq!(m, "Not found"),
        _ => panic!("expected a message"),
    }
}

#[test]
fn user_card() {
    let user = User {
        name: "someone".to_string(),
        site_url: "https://anilist.co/user/someone".to_string(),
        avatar: "https://img/u.png".to_string(),
        about: None,
        statistics: Some(UserStatistics {
            minutes_watched: 1440,
            days_watched: "1.0".to_string(),
            chapters_read: 0,
        }),
    };
    match user_reply(Some(user)) {
        Reply::Card { content, embed } => {
            assert_eq!(content, "<https://anilist.co/user/someone>");
            assert_eq!(embed.author.name, "someone");
            assert_eq!(embed.description.as_deref(), Some(""));
            assert_eq!(embed.footer.as_deref(), Some("Days watched: 1.0\u{2002}\u{2002}"));
        }
        _ => panic!("expected a card"),
    }
    match user_reply(None) {
        Reply::Message(m) => assert_eq!(m, "User not found"),
        _ => panic!("expected a message"),
    }
}

#[test]
fn studio_card() {
    let studio = Studio {
        name: "Artland".to_string(),
        site_url: "https://anilist.co/studio/8".to_string(),
        popular: Some(vec![TitleLink { title: "Mushishi".to_string(), url: "u1".to_string() }]),
        latest: None,
    };
    match studio_reply(Some(studio)) {
        Reply::Card { content, embed } => {
            assert_eq!(content, "<https://anilist.co/studio/8>");
            assert_eq!(embed.author.name, "Artland");
            assert!(embed.thumbnail.is_none());
            assert!(embed.description.is_none());
            assert_eq!(embed.fields.len(), 2);
            assert_eq!(embed.fields[0].name, "Popular Titles");
            assert_eq!(embed.fields[0].value, "- [Mushishi](u1)");
            assert!(embed.fields[0].inline);
            assert_eq!(embed.fields[1].name, "Latest Titles");
            assert_eq!(embed.fields[1].value, "");
            assert!(embed.fields[1].inline);
        }
        _ => panic!("expected a card"),
    }
    match studio_reply(None) {
        Reply::Message(m) => assert_eq!(m, "Not found"),
        _ => panic!("expected a message"),
    }
}
