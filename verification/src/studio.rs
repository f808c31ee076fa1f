//! The title lists shown on a studio card.

use vstd::prelude::*;
use vstd::string::StringExecFns;

verus! {

broadcast use vstd::string::group_string_axioms;

/// A title of a studio's work and the address of its page.
pub struct TitleLink {
    pub title: String,
    pub url: String,
}

/// A Markdown link `[title](url)`.
pub open spec fn link_markdown(link: TitleLink) -> Seq<char> {
    "["@ + link.title@ + "]("@ + link.url@ + ")"@
}

/// The links of `links`, in order, separated by a line break and `"- "`.
pub open spec fn joined_links(links: Seq<TitleLink>) -> Seq<char>
    decreases links.len(),
{
    if links.len() == 0 {
        Seq::empty()
    } else if links.len() == 1 {
        link_markdown(links[0])
    } else {
        joined_links(links.drop_last()) + "\n- "@ + link_markdown(links.last())
    }
}

/// A bulleted list of the links: nothing when there is no list or it is
/// empty, else every link on a line of its own after `"- "`.
pub open spec fn titles_list(media: Option<Seq<TitleLink>>) -> Seq<char> {
    match media {
        Some(links) => {
            let joined = joined_links(links);
            if joined.len() > 0 {
                "- "@ + joined
            } else {
                joined
            }
        },
        None => Seq::empty(),
    }
}

/// Formats a studio's titles as a bulleted list of Markdown links.
pub fn collect_titles(media: &Option<Vec<TitleLink>>) -> (out: String)
    ensures
        out@ == titles_list(match *media {
            Some(v) => Some(v@),
            None => None,
        }),
{
    match media {
        Some(links) => {
            let mut titles = String::new();
            let mut i: usize = 0;
            while i < links.len()
                invariant
                    i <= links.len(),
                    titles@ == joined_links(links@.take(i as int)),
                decreases links.len() - i,
            {
                let ghost before = titles@;
                if i > 0 {
                    titles.append("\n- ");
                }
                titles.append("[");
                titles.append(links[i].title.as_str());
                titles.append("](");
                titles.append(links[i].url.as_str());
                titles.append(")");
                proof {
                    let next = links@.take(i + 1);
                    assert(next.drop_last() =~= links@.take(i as int));
                    assert(next.last() == links@[i as int]);
                    if i == 0 {
                        assert(before =~= Seq::<char>::empty());
                    }
                }
                i = i + 1;
                assert(titles@ =~= joined_links(links@.take(i as int)));
            }
            assert(links@.take(links@.len() as int) =~= links@);
            if titles.as_str().is_empty() {
                titles
            } else {
                let mut list = String::new();
                list.append("- ");
                list.append(titles.as_str());
                list
            }
        },
        None => String::new(),
    }
}

/// The list is empty exactly when there is no list of titles or it is empty.
pub proof fn lemma_titles_list_empty(media: Option<Seq<TitleLink>>)
    ensures
        (titles_list(media).len() == 0) <==> (match media {
            Some(links) => links.len() == 0,
            None => true,
        }),
{
    reveal_strlit("[");
    reveal_strlit("- ");
    if let Some(links) = media {
        if links.len() > 0 {
            lemma_joined_nonempty(links);
        }
    }
}

proof fn lemma_joined_nonempty(links: Seq<TitleLink>)
    requires
        links.len() > 0,
    ensures
        joined_links(links).len() > 0,
    decreases links.len(),
{
    reveal_strlit("[");
    if links.len() > 1 {
        lemma_joined_nonempty(links.drop_last());
    }
}


/// A single title is listed as `"- [title](url)"`.
pub proof fn lemma_titles_list_one(l: TitleLink)
    ensures
        titles_list(Some(seq![l])) == "- ["@ + l.title@ + "]("@ + l.url@ + ")"@,
{
    reveal_strlit("[");
    reveal_strlit("- ");
    reveal_strlit("- [");
    assert("- ["@ =~= "- "@ + "["@);
    assert(titles_list(Some(seq![l])) =~= "- ["@ + l.title@ + "]("@ + l.url@ + ")"@);
}

/// Adding a title to a non-empty list adds one more line `"- [title](url)"`
/// at the end and keeps every line before it: every title is listed, in order.
pub proof fn lemma_titles_list_push(links: Seq<TitleLink>, l: TitleLink)
    requires
        links.len() > 0,
    ensures
        titles_list(Some(links.push(l))) == titles_list(Some(links)) + "\n- ["@ + l.title@ + "]("@ + l.url@
            + ")"@,
{
    reveal_strlit("[");
    reveal_strlit("\n- ");
    reveal_strlit("\n- [");
    assert("\n- ["@ =~= "\n- "@ + "["@);
    assert(links.push(l).drop_last() =~= links);
    lemma_joined_nonempty(links);
    lemma_joined_nonempty(links.push(l));
    assert(titles_list(Some(links.push(l))) =~= titles_list(Some(links)) + "\n- ["@ + l.title@ + "]("@
        + l.url@ + ")"@);
}

}
