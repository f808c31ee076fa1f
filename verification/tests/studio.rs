use anilist_bot::studio::{collect_titles, TitleLink};

fn link(title: &str, url: &str) -> TitleLink {
    TitleLink { title: title.to_string(), url: url.to_string() }
}

#[test]
fn no_titles() {
    assert_eq!(collect_titles(&None), "");
    assert_eq!(collect_titles(&Some(vec![])), "");
}

#[test]
fn one_title() {
    assert_eq!(
        collect_titles(&Some(vec![link("Mushishi", "https://anilist.co/anime/457")])),
        "- [Mushishi](https://anilist.co/anime/457)"
    );
}

#[test]
fn several_titles() {
    assert_eq!(
        collect_titles(&Some(vec![link("A", "u1"), link("B", "u2"), link("C", "u3")])),
        "- [A](u1)\n- [B](u2)\n- [C](u3)"
    );
}
