//! The answers of the lookup commands: a plain message when nothing was
//! found, otherwise a link to the AniList page with an embedded card.

use vstd::prelude::*;
use vstd::string::StringExecFns;
use crate::description::{
    can_shorten, is_long, lemma_shortened_size, shorten_description, shortened, shows_description,
    tidied_markdown, tidy_markdown,
};
use crate::stats::{MediaStatus, UserStatistics, media_stats, media_stats_line, user_stats, user_stats_line};
use crate::studio::{TitleLink, collect_titles, titles_list};

verus! {

broadcast use vstd::string::group_string_axioms;

/// Colour of every card (Discord's blue).
pub const EMBED_COLOR: u32 = 3447003;

/// The AniList icon shown next to the author line of every card.
pub open spec fn anilist_icon() -> Seq<char> {
    "https://anilist.co/img/icons/favicon-32x32.png"@
}

/// Author line of a card: a name linking to a page, with an icon.
pub struct Author {
    pub name: String,
    pub icon_url: String,
    pub url: String,
}

/// A named field of a card.
pub struct EmbedField {
    pub name: String,
    pub value: String,
    pub inline: bool,
}

/// The embedded card of a reply.
pub struct Embed {
    pub author: Author,
    pub thumbnail: Option<String>,
    pub description: Option<String>,
    pub fields: Vec<EmbedField>,
    pub color: u32,
    pub footer: Option<String>,
}

/// A command's answer.
pub enum Reply {
    /// A plain message.
    Message(String),
    /// A message (the page's address) with a card.
    Card { content: String, embed: Embed },
}

/// A card as plain values.
pub struct EmbedView {
    pub author_name: Seq<char>,
    pub author_icon_url: Seq<char>,
    pub author_url: Seq<char>,
    pub thumbnail: Option<Seq<char>>,
    pub description: Option<Seq<char>>,
    pub fields: Seq<(Seq<char>, Seq<char>, bool)>,
    pub color: u32,
    pub footer: Option<Seq<char>>,
}

/// An answer as plain values.
pub enum ReplyView {
    Message(Seq<char>),
    Card(Seq<char>, EmbedView),
}

/// The characters of an optional string.
pub open spec fn opt_view(s: Option<String>) -> Option<Seq<char>> {
    match s {
        Some(t) => Some(t@),
        None => None,
    }
}

impl View for Embed {
    type V = EmbedView;

    open spec fn view(&self) -> EmbedView {
        EmbedView {
            author_name: self.author.name@,
            author_icon_url: self.author.icon_url@,
            author_url: self.author.url@,
            thumbnail: opt_view(self.thumbnail),
            description: opt_view(self.description),
            fields: self.fields@.map_values(|f: EmbedField| (f.name@, f.value@, f.inline)),
            color: self.color,
            footer: opt_view(self.footer),
        }
    }
}

impl View for Reply {
    type V = ReplyView;

    open spec fn view(&self) -> ReplyView {
        match self {
            Reply::Message(m) => ReplyView::Message(m@),
            Reply::Card { content, embed } => ReplyView::Card(content@, embed@),
        }
    }
}

/// A character or a staff member as the search found them.
pub struct Person {
    /// Full name.
    pub name: String,
    /// Address of the AniList page.
    pub site_url: String,
    /// Address of the large picture.
    pub image: String,
    /// The biography, converted to Markdown from `prepare_html` of its HTML.
    pub description: Option<String>,
}

/// An anime or a manga as the search found it.
pub struct Media {
    /// Romaji title.
    pub title: String,
    /// Address of the AniList page.
    pub site_url: String,
    /// Address of the extra large cover.
    pub cover_image: String,
    /// The description, converted to Markdown from `prepare_html` of its HTML.
    pub description: Option<String>,
    pub mean_score: Option<i64>,
    pub status: Option<MediaStatus>,
}

/// An AniList account as the search found it.
pub struct User {
    pub name: String,
    /// Address of the AniList page.
    pub site_url: String,
    /// Address of the large avatar.
    pub avatar: String,
    /// The "about" text, converted to Markdown from `prepare_html` of its HTML.
    pub about: Option<String>,
    pub statistics: Option<UserStatistics>,
}

/// A studio as the search found it.
pub struct Studio {
    pub name: String,
    /// Address of the AniList page.
    pub site_url: String,
    /// Its most popular titles.
    pub popular: Option<Vec<TitleLink>>,
    /// Its latest titles.
    pub latest: Option<Vec<TitleLink>>,
}

/// The message of a card: the page's address between angle brackets, so
/// that Discord shows no preview of it.
pub open spec fn link_content(url: Seq<char>) -> Seq<char> {
    "<"@ + url + ">"@
}

/// A description as shown on a card: tidied and shortened, or nothing.
pub open spec fn description_text(md: Option<Seq<char>>) -> Seq<char> {
    match md {
        Some(m) => shortened(tidied_markdown(m)),
        None => ""@,
    }
}

/// A description that a card can show (see `can_shorten`).
pub open spec fn description_ok(md: Option<Seq<char>>) -> bool {
    match md {
        Some(m) => can_shorten(tidied_markdown(m)),
        None => true,
    }
}

pub open spec fn titles_of(v: Option<Vec<TitleLink>>) -> Option<Seq<TitleLink>> {
    match v {
        Some(links) => Some(links@),
        None => None,
    }
}

/// The card of a character or staff member.
pub open spec fn person_view(p: Person) -> ReplyView {
    ReplyView::Card(
        link_content(p.site_url@),
        EmbedView {
            author_name: p.name@,
            author_icon_url: anilist_icon(),
            author_url: p.site_url@,
            thumbnail: Some(p.image@),
            description: Some(description_text(opt_view(p.description))),
            fields: Seq::empty(),
            color: EMBED_COLOR,
            footer: None,
        },
    )
}

/// The card of an anime or manga.
pub open spec fn media_view(m: Media) -> ReplyView {
    ReplyView::Card(
        link_content(m.site_url@),
        EmbedView {
            author_name: m.title@,
            author_icon_url: anilist_icon(),
            author_url: m.site_url@,
            thumbnail: Some(m.cover_image@),
            description: Some(description_text(opt_view(m.description))),
            fields: Seq::empty(),
            color: EMBED_COLOR,
            footer: Some(media_stats_line(m.mean_score, m.status)),
        },
    )
}

/// The card of a user.
pub open spec fn user_view(u: User) -> ReplyView {
    ReplyView::Card(
        link_content(u.site_url@),
        EmbedView {
            author_name: u.name@,
            author_icon_url: anilist_icon(),
            author_url: u.site_url@,
            thumbnail: Some(u.avatar@),
            description: Some(description_text(opt_view(u.about))),
            fields: Seq::empty(),
            color: EMBED_COLOR,
            footer: Some(user_stats_line(u.statistics)),
        },
    )
}

/// The card of a studio: its popular and its latest titles side by side.
pub open spec fn studio_view(s: Studio) -> ReplyView {
    ReplyView::Card(
        link_content(s.site_url@),
        EmbedView {
            author_name: s.name@,
            author_icon_url: anilist_icon(),
            author_url: s.site_url@,
            thumbnail: None,
            description: None,
            fields: seq![
                ("Popular Titles"@, titles_list(titles_of(s.popular)), true),
                ("Latest Titles"@, titles_list(titles_of(s.latest)), true),
            ],
            color: EMBED_COLOR,
            footer: None,
        },
    )
}

fn link_message(url: &String) -> (out: String)
    ensures
        out@ == link_content(url@),
{
    let mut content = String::from_str("<");
    content.append(url.as_str());
    content.append(">");
    content
}

fn author_of(name: String, url: &String) -> (a: Author)
    ensures
        a.name@ == name@,
        a.icon_url@ == anilist_icon(),
        a.url@ == url@,
{
    Author {
        name,
        icon_url: String::from_str("https://anilist.co/img/icons/favicon-32x32.png"),
        url: url.clone(),
    }
}

fn description_of(md: &Option<String>) -> (out: String)
    requires
        description_ok(opt_view(*md)),
    ensures
        out@ == description_text(opt_view(*md)),
{
    match md {
        Some(m) => {
            let tidy = tidy_markdown(m.as_str());
            shorten_description(tidy.as_str())
        },
        None => String::from_str(""),
    }
}

fn person_card(p: Person) -> (r: Reply)
    requires
        description_ok(opt_view(p.description)),
    ensures
        r@ == person_view(p),
{
    let content = link_message(&p.site_url);
    let description = description_of(&p.description);
    let author = author_of(p.name, &p.site_url);
    let embed = Embed {
        author,
        thumbnail: Some(p.image),
        description: Some(description),
        fields: no_fields(),
        color: EMBED_COLOR,
        footer: None,
    };
    let r = Reply::Card { content, embed };
    assert(r@ == person_view(p));
    r
}

fn no_fields() -> (v: Vec<EmbedField>)
    ensures
        v@.map_values(|f: EmbedField| (f.name@, f.value@, f.inline)) == Seq::<(Seq<char>, Seq<char>, bool)>::empty(),
{
    let v: Vec<EmbedField> = Vec::new();
    assert(v@.map_values(|f: EmbedField| (f.name@, f.value@, f.inline)) =~= Seq::<(Seq<char>, Seq<char>, bool)>::empty());
    v
}

fn not_found(message: &str) -> (r: Reply)
    ensures
        r@ == ReplyView::Message(message@),
{
    Reply::Message(String::from_str(message))
}

/// Answer to a character search: `"Not found"` when there is no character,
/// else its card.
pub fn character_reply(found: Option<Person>) -> (r: Reply)
    requires
        found matches Some(p) ==> description_ok(opt_view(p.description)),
    ensures
        r@ == match found {
            Some(p) => person_view(p),
            None => ReplyView::Message("Not found"@),
        },
{
    match found {
        Some(p) => person_card(p),
        None => not_found("Not found"),
    }
}

/// Answer to a staff search: `"Not found"` when there is no staff member,
/// else their card.
pub fn staff_reply(found: Option<Person>) -> (r: Reply)
    requires
        found matches Some(p) ==> description_ok(opt_view(p.description)),
    ensures
        r@ == match found {
            Some(p) => person_view(p),
            None => ReplyView::Message("Not found"@),
        },
{
    match found {
        Some(p) => person_card(p),
        None => not_found("Not found"),
    }
}

/// Answer to an anime or manga search: `"Not found"` when there is no
/// result, else the card with the statistics line as footer.
pub fn media_reply(found: Option<Media>) -> (r: Reply)
    requires
        found matches Some(m) ==> description_ok(opt_view(m.description)),
    ensures
        r@ == match found {
            Some(m) => media_view(m),
            None => ReplyView::Message("Not found"@),
        },
{
    match found {
        Some(m) => {
            let footer = media_stats(m.mean_score, &m.status);
            let content = link_message(&m.site_url);
            let description = description_of(&m.description);
            let author = author_of(m.title, &m.site_url);
            let embed = Embed {
                author,
                thumbnail: Some(m.cover_image),
                description: Some(description),
                fields: no_fields(),
                color: EMBED_COLOR,
                footer: Some(footer),
            };
            let r = Reply::Card { content, embed };
            assert(r@ == media_view(m));
            r
        },
        None => not_found("Not found"),
    }
}

/// Answer to a user search: `"User not found"` when there is no result,
/// else the card with the statistics line as footer.
pub fn user_reply(found: Option<User>) -> (r: Reply)
    requires
        found matches Some(u) ==> description_ok(opt_view(u.about)),
    ensures
        r@ == match found {
            Some(u) => user_view(u),
            None => ReplyView::Message("User not found"@),
        },
{
    match found {
        Some(u) => {
            let footer = user_stats(&u.statistics);
            let description = description_of(&u.about);
            let content = link_message(&u.site_url);
            let author = author_of(u.name, &u.site_url);
            let embed = Embed {
                author,
                thumbnail: Some(u.avatar),
                description: Some(description),
                fields: no_fields(),
                color: EMBED_COLOR,
                footer: Some(footer),
            };
            let r = Reply::Card { content, embed };
            assert(r@ == user_view(u));
            r
        },
        None => not_found("User not found"),
    }
}

/// Answer to a studio search: `"Not found"` when there is no studio, else
/// its card with the lists of popular and latest titles.
pub fn studio_reply(found: Option<Studio>) -> (r: Reply)
    ensures
        r@ == match found {
            Some(s) => studio_view(s),
            None => ReplyView::Message("Not found"@),
        },
{
    match found {
        Some(s) => {
            let popular = collect_titles(&s.popular);
            let latest = collect_titles(&s.latest);
            let content = link_message(&s.site_url);
            let author = author_of(s.name, &s.site_url);
            let mut fields: Vec<EmbedField> = Vec::new();
            fields.push(EmbedField { name: String::from_str("Popular Titles"), value: popular, inline: true });
            fields.push(EmbedField { name: String::from_str("Latest Titles"), value: latest, inline: true });
            proof {
                reveal_strlit("Popular Titles");
                reveal_strlit("Latest Titles");
                let fv = fields@.map_values(|f: EmbedField| (f.name@, f.value@, f.inline));
                assert(fv =~= seq![
                    ("Popular Titles"@, titles_list(titles_of(s.popular)), true),
                    ("Latest Titles"@, titles_list(titles_of(s.latest)), true),
                ]);
            }
            let embed = Embed {
                author,
                thumbnail: None,
                description: None,
                fields,
                color: EMBED_COLOR,
                footer: None,
            };
            let r = Reply::Card { content, embed };
            assert(r@ =~= studio_view(s));
            r
        },
        None => not_found("Not found"),
    }
}


/// A card's description is what `shows_description` says: the tidied text,
/// shortened to `KEPT_TEXT_BYTES` bytes and `"..."` when it is long.
pub proof fn lemma_description_shown(md: Option<Seq<char>>)
    requires
        description_ok(md),
    ensures
        shows_description(description_text(md), md),
{
    reveal_strlit("");
    if let Some(d) = md {
        let t = tidied_markdown(d);
        if is_long(t) {
            lemma_shortened_size(t);
        }
    }
}

/// The card of a found anime or manga: the message links its page; the
/// author line is its title linking there; the thumbnail is its cover; the
/// description is its own, tidied and shortened; the footer is its statistics.
pub proof fn lemma_media_card(m: Media)
    requires
        description_ok(opt_view(m.description)),
    ensures
        match media_view(m) {
            ReplyView::Card(content, e) => {
                &&& content == "<"@ + m.site_url@ + ">"@
                &&& e.author_name == m.title@
                &&& e.author_url == m.site_url@
                &&& e.thumbnail == Some(m.cover_image@)
                &&& e.description matches Some(x) && shows_description(x, opt_view(m.description))
                &&& e.footer == Some(media_stats_line(m.mean_score, m.status))
            },
            ReplyView::Message(_) => false,
        },
{
    lemma_description_shown(opt_view(m.description));
}

/// The card of a found user: the message links their page; the author line
/// is their name linking there; the thumbnail is their avatar; the
/// description is their "about" text, tidied and shortened; the footer is
/// their statistics.
pub proof fn lemma_user_card(u: User)
    requires
        description_ok(opt_view(u.about)),
    ensures
        match user_view(u) {
            ReplyView::Card(content, e) => {
                &&& content == "<"@ + u.site_url@ + ">"@
                &&& e.author_name == u.name@
                &&& e.author_url == u.site_url@
                &&& e.thumbnail == Some(u.avatar@)
                &&& e.description matches Some(x) && shows_description(x, opt_view(u.about))
                &&& e.footer == Some(user_stats_line(u.statistics))
            },
            ReplyView::Message(_) => false,
        },
{
    lemma_description_shown(opt_view(u.about));
}

/// The card of a found character or staff member: the message links their
/// page; the author line is their name linking there; the thumbnail is their
/// picture; the description is their biography, tidied and shortened.
pub proof fn lemma_person_card(p: Person)
    requires
        description_ok(opt_view(p.description)),
    ensures
        match person_view(p) {
            ReplyView::Card(content, e) => {
                &&& content == "<"@ + p.site_url@ + ">"@
                &&& e.author_name == p.name@
                &&& e.author_url == p.site_url@
                &&& e.thumbnail == Some(p.image@)
                &&& e.description matches Some(x) && shows_description(x, opt_view(p.description))
                &&& e.footer is None
            },
            ReplyView::Message(_) => false,
        },
{
    lemma_description_shown(opt_view(p.description));
}

}
