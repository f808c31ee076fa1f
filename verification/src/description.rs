//! Descriptions and biographies: the text handed to the HTML converter, the
//! tidying of the converter's Markdown, and the shortening of long texts.

use vstd::prelude::*;
use vstd::utf8::*;
use vstd::string::StringExecFns;
use crate::text::{chars_of, push_char, replace_all, replace_str};

verus! {

broadcast use vstd::string::group_string_axioms;

/// Texts of at least this many UTF-8 bytes are shortened.
pub const LONG_TEXT_BYTES: usize = 500;

/// How many UTF-8 bytes of a long text are kept.
pub const KEPT_TEXT_BYTES: usize = 400;

/// The HTML as it is handed to the Markdown converter: every blank-line
/// paragraph break `"\n\n"` becomes a `<br>` element.
pub open spec fn prepared_html(text: Seq<char>) -> Seq<char> {
    replace_all(text, "\n\n"@, "<br>"@)
}

/// The converter's Markdown with every `"---"` and then every `'#'` removed,
/// so that no rule or heading markup reaches the embed.
pub open spec fn tidied_markdown(md: Seq<char>) -> Seq<char> {
    replace_all(replace_all(md, "---"@, ""@), "#"@, ""@)
}

/// Length in bytes of the UTF-8 encoding of `s` (what `str::len` counts).
pub open spec fn utf8_len(s: Seq<char>) -> nat {
    encode_utf8(s).len()
}

/// A text is long when its UTF-8 encoding has more than `KEPT_TEXT_BYTES`
/// and at least `LONG_TEXT_BYTES` bytes.
pub open spec fn is_long(s: Seq<char>) -> bool {
    utf8_len(s) > KEPT_TEXT_BYTES && utf8_len(s) >= LONG_TEXT_BYTES
}

/// The first `k` characters of `s` take exactly `KEPT_TEXT_BYTES` bytes.
pub open spec fn cut_at(s: Seq<char>, k: int) -> bool {
    0 <= k <= s.len() && utf8_len(s.take(k)) == KEPT_TEXT_BYTES
}

/// A text can be shortened when it is not long, or when a character starts
/// exactly at byte `KEPT_TEXT_BYTES` of its encoding (`str::split_at` panics
/// on a cut inside a character).
pub open spec fn can_shorten(s: Seq<char>) -> bool {
    is_long(s) ==> exists|k: int| cut_at(s, k)
}

/// A long text becomes its characters in the first `KEPT_TEXT_BYTES` bytes
/// followed by `"..."`; any other text stays as it is (a text with fewer than
/// a hundred bytes beyond the kept part is let finish).
pub open spec fn shortened(s: Seq<char>) -> Seq<char> {
    if is_long(s) {
        s.take(choose|k: int| cut_at(s, k)) + seq!['.', '.', '.']
    } else {
        s
    }
}

/// Rewrites paragraph breaks of a description into `<br>` before the HTML
/// is converted to Markdown.
pub fn prepare_html(text: &str) -> (out: String)
    ensures
        out@ == prepared_html(text@),
{
    proof {
        reveal_strlit("\n\n");
    }
    replace_str(text, "\n\n", "<br>")
}

/// Removes rules (`"---"`) and heading marks (`'#'`) from converted Markdown.
pub fn tidy_markdown(md: &str) -> (out: String)
    ensures
        out@ == tidied_markdown(md@),
{
    proof {
        reveal_strlit("---");
        reveal_strlit("#");
    }
    let without_rules = replace_str(md, "---", "");
    replace_str(without_rules.as_str(), "#", "")
}

/// The UTF-8 encoding of a concatenation is the concatenation of the encodings.
pub proof fn lemma_encode_concat(a: Seq<char>, b: Seq<char>)
    ensures
        encode_utf8(a + b) == encode_utf8(a) + encode_utf8(b),
    decreases a.len(),
{
    if a.len() == 0 {
        assert(a + b =~= b);
    } else {
        assert((a + b).drop_first() =~= a.drop_first() + b);
        lemma_encode_concat(a.drop_first(), b);
    }
}

/// Adding a character to a prefix adds the width of its encoding.
proof fn lemma_prefix_step(s: Seq<char>, i: int)
    requires
        0 <= i < s.len(),
    ensures
        utf8_len(s.take(i + 1)) == utf8_len(s.take(i)) + encode_scalar(s[i] as u32).len(),
        encode_scalar(s[i] as u32).len() >= 1,
{
    assert(s.take(i + 1) =~= s.take(i) + seq![s[i]]);
    lemma_encode_concat(s.take(i), seq![s[i]]);
    assert(seq![s[i]].drop_first() =~= Seq::<char>::empty());
    reveal_with_fuel(encode_utf8, 2);
    assert(encode_utf8(seq![s[i]]) =~= encode_scalar(s[i] as u32));
}

/// Longer prefixes have strictly longer encodings.
proof fn lemma_prefix_grows(s: Seq<char>, i: int, j: int)
    requires
        0 <= i < j <= s.len(),
    ensures
        utf8_len(s.take(i)) < utf8_len(s.take(j)),
    decreases j - i,
{
    lemma_prefix_step(s, j - 1);
    if i < j - 1 {
        lemma_prefix_grows(s, i, j - 1);
    }
}

/// At most one prefix of `s` takes exactly `KEPT_TEXT_BYTES` bytes.
proof fn lemma_cut_unique(s: Seq<char>, k1: int, k2: int)
    requires
        cut_at(s, k1),
        cut_at(s, k2),
    ensures
        k1 == k2,
{
    if k1 < k2 {
        lemma_prefix_grows(s, k1, k2);
    } else if k2 < k1 {
        lemma_prefix_grows(s, k2, k1);
    }
}

/// Number of bytes in the UTF-8 encoding of `c` (`char::len_utf8`).
fn utf8_width(c: char) -> (w: usize)
    ensures
        w == encode_scalar(c as u32).len(),
        1 <= w <= 4,
{
    proof {
        char_is_scalar(c);
    }
    let v = c as u32;
    if v <= 0x7F {
        1
    } else if v <= 0x7FF {
        2
    } else if v <= 0xFFFF {
        3
    } else {
        4
    }
}

/// Whether `shorten_description` accepts `text`.
pub fn shortenable(text: &str) -> (b: bool)
    ensures
        b == can_shorten(text@),
{
    let (long, cut) = measure(text);
    !long || cut.is_some()
}

/// Whether `text` is long, and the number of characters in its first
/// `KEPT_TEXT_BYTES` bytes when a character starts there.
fn measure(text: &str) -> (res: (bool, Option<usize>))
    ensures
        res.0 == is_long(text@),
        match res.1 {
            Some(k) => cut_at(text@, k as int),
            None => forall|k: int| !cut_at(text@, k),
        },
{
    let v = chars_of(text);
    let mut i: usize = 0;
    let mut bytes: usize = 0;
    let mut cut: Option<usize> = None;
    while i < v.len() && bytes < LONG_TEXT_BYTES
        invariant
            v@ == text@,
            i <= v.len(),
            bytes == utf8_len(v@.take(i as int)),
            bytes < LONG_TEXT_BYTES + 4,
            match cut {
                Some(k) => cut_at(v@, k as int) && k < i,
                None => forall|k: int| 0 <= k < i ==> !cut_at(v@, k),
            },
        decreases v.len() - i,
    {
        if bytes == KEPT_TEXT_BYTES {
            cut = Some(i);
        }
        proof {
            lemma_prefix_step(v@, i as int);
        }
        bytes = bytes + utf8_width(v[i]);
        i = i + 1;
    }
    if cut.is_none() && bytes == KEPT_TEXT_BYTES {
        cut = Some(i);
    }
    proof {
        if i < v.len() {
            lemma_prefix_grows(v@, i as int, v@.len() as int);
        }
        assert(v@.take(v@.len() as int) =~= v@);
        if cut.is_none() {
            assert forall|k: int| !cut_at(v@, k) by {
                if cut_at(v@, k) && k > i {
                    lemma_prefix_grows(v@, i as int, k);
                }
            }
        }
    }
    (bytes > KEPT_TEXT_BYTES && bytes >= LONG_TEXT_BYTES, cut)
}

/// Keeps descriptions short: a long text is cut after `KEPT_TEXT_BYTES` bytes
/// and ends in `"..."`; any other text is returned unchanged.
pub fn shorten_description(text: &str) -> (out: String)
    requires
        can_shorten(text@),
    ensures
        out@ == shortened(text@),
{
    let (long, cut) = measure(text);
    if long {
        let k = match cut {
            Some(k) => k,
            None => {
                proof {
                    let w = choose|k: int| cut_at(text@, k);
                    assert(!cut_at(text@, w));
                }
                0
            },
        };
        let v = chars_of(text);
        let mut out = String::new();
        let mut j: usize = 0;
        while j < k
            invariant
                v@ == text@,
                cut_at(text@, k as int),
                j <= k,
                out@ == v@.take(j as int),
            decreases k - j,
        {
            push_char(&mut out, v[j]);
            j = j + 1;
            assert(out@ =~= v@.take(j as int));
        }
        out.append("...");
        proof {
            reveal_strlit("...");
            let w = choose|k: int| cut_at(text@, k);
            lemma_cut_unique(text@, w, k as int);
        }
        out
    } else {
        text.to_owned()
    }
}

/// Shortening is idempotent: a shortened text can be shortened again and is
/// then left as it is.
pub proof fn lemma_shorten_idempotent(s: Seq<char>)
    requires
        can_shorten(s),
    ensures
        can_shorten(shortened(s)),
        shortened(shortened(s)) == shortened(s),
{
    if is_long(s) {
        lemma_shortened_size(s);
    }
}

/// A shortened long text takes exactly `KEPT_TEXT_BYTES` bytes and three more
/// for the dots, and begins with the characters of the original's first
/// `KEPT_TEXT_BYTES` bytes.
pub proof fn lemma_shortened_size(s: Seq<char>)
    requires
        can_shorten(s),
        is_long(s),
    ensures
        utf8_len(shortened(s)) == KEPT_TEXT_BYTES + 3,
        shortened(s).len() >= 3,
        shortened(s).take(shortened(s).len() - 3) == s.take(shortened(s).len() - 3),
        shortened(s).skip(shortened(s).len() - 3) == seq!['.', '.', '.'],
{
    let k = choose|k: int| cut_at(s, k);
    let dots = seq!['.', '.', '.'];
    lemma_encode_concat(s.take(k), dots);
    reveal_with_fuel(encode_utf8, 4);
    assert(dots.drop_first().drop_first().drop_first() =~= Seq::<char>::empty());
    assert(encode_utf8(dots).len() == 3);
    let r = s.take(k) + dots;
    assert(r.take(r.len() - 3) =~= s.take(k));
    assert(s.take(r.len() - 3) =~= s.take(k));
    assert(r.skip(r.len() - 3) =~= dots);
}

/// Removing every occurrence of a one-character pattern leaves no such character.
pub proof fn lemma_remove_char_leaves_none(s: Seq<char>, c: char)
    ensures
        !replace_all(s, seq![c], Seq::<char>::empty()).contains(c),
    decreases s.len(),
{
    if s.len() > 0 {
        lemma_remove_char_leaves_none(s.skip(1), c);
        let rest = replace_all(s.skip(1), seq![c], Seq::<char>::empty());
        if s.take(1) =~= seq![c] {
            assert(Seq::<char>::empty() + rest =~= rest);
        } else {
            assert(s[0] != c) by {
                if s[0] == c {
                    assert(s.take(1) =~= seq![c]);
                }
            }
            let r = seq![s[0]] + rest;
            assert forall|i: int| 0 <= i < r.len() implies r[i] != c by {
                if i > 0 {
                    assert(r[i] == rest[i - 1]);
                }
            }
        }
    }
}

/// Tidied Markdown holds no `'#'`: no heading mark reaches the embed.
pub proof fn lemma_tidied_has_no_hash(md: Seq<char>)
    ensures
        !tidied_markdown(md).contains('#'),
{
    reveal_strlit("#");
    reveal_strlit("");
    assert("#"@ =~= seq!['#']);
    assert(""@ =~= Seq::<char>::empty());
    lemma_remove_char_leaves_none(replace_all(md, "---"@, ""@), '#');
}


/// Two `c` in a row somewhere in `s`.
pub open spec fn has_pair(s: Seq<char>, c: char) -> bool {
    exists|i: int| 0 <= i && i + 1 < s.len() && #[trigger] s[i] == c && s[i + 1] == c
}

proof fn lemma_replace_keeps_first(t: Seq<char>, c: char, rep: Seq<char>)
    requires
        t.len() > 0,
        t[0] != c,
    ensures
        replace_all(t, seq![c, c], rep).len() > 0,
        replace_all(t, seq![c, c], rep)[0] == t[0],
{
    if 2 <= t.len() && t.take(2) == seq![c, c] {
        assert(t.take(2)[0] == c);
    }
}

/// Replacing every pair `c c` by a text without `c` leaves no such pair.
pub proof fn lemma_replace_pair_leaves_none(s: Seq<char>, c: char, rep: Seq<char>)
    requires
        !rep.contains(c),
    ensures
        !has_pair(replace_all(s, seq![c, c], rep), c),
    decreases s.len(),
{
    let pat = seq![c, c];
    if s.len() > 0 {
        if 2 <= s.len() && s.take(2) == pat {
            let rest = s.skip(2);
            lemma_replace_pair_leaves_none(rest, c, rep);
            let tail = replace_all(rest, pat, rep);
            let r = rep + tail;
            assert forall|i: int| 0 <= i && i + 1 < r.len() implies !(#[trigger] r[i] == c && r[i + 1] == c) by {
                if i < rep.len() {
                    assert(r[i] == rep[i]);
                    assert(rep.contains(rep[i]));
                } else {
                    assert(r[i] == tail[i - rep.len()]);
                    assert(r[i + 1] == tail[i + 1 - rep.len()]);
                }
            }
        } else {
            let rest = s.skip(1);
            lemma_replace_pair_leaves_none(rest, c, rep);
            let tail = replace_all(rest, pat, rep);
            let r = seq![s[0]] + tail;
            if s[0] == c && rest.len() > 0 {
                assert(rest[0] != c) by {
                    if rest[0] == c {
                        assert(s.take(2) =~= pat);
                    }
                }
                lemma_replace_keeps_first(rest, c, rep);
            }
            assert forall|i: int| 0 <= i && i + 1 < r.len() implies !(#[trigger] r[i] == c && r[i + 1] == c) by {
                if i > 0 {
                    assert(r[i] == tail[i - 1]);
                    assert(r[i + 1] == tail[i]);
                } else {
                    assert(r[1] == tail[0]);
                }
            }
        }
    }
}

/// The HTML handed to the converter holds no two line breaks in a row: every
/// paragraph break has become a `<br>`.
pub proof fn lemma_prepared_has_no_blank_line(text: Seq<char>)
    ensures
        !has_pair(prepared_html(text), '\n'),
{
    reveal_strlit("\n\n");
    reveal_strlit("<br>");
    assert("\n\n"@ =~= seq!['\n', '\n']);
    lemma_replace_pair_leaves_none(text, '\n', "<br>"@);
}


/// Replacing a pair `c c` in a text that holds no such pair changes nothing.
pub proof fn lemma_replace_pair_absent(s: Seq<char>, c: char, rep: Seq<char>)
    requires
        !has_pair(s, c),
    ensures
        replace_all(s, seq![c, c], rep) == s,
    decreases s.len(),
{
    if s.len() > 0 {
        if 2 <= s.len() && s.take(2) == seq![c, c] {
            assert(s.take(2)[0] == s[0] && s.take(2)[1] == s[1]);
            assert(s[0] == c && s[1] == c);
        }
        let rest = s.skip(1);
        assert(!has_pair(rest, c)) by {
            if has_pair(rest, c) {
                let i = choose|i: int| 0 <= i && i + 1 < rest.len() && #[trigger] rest[i] == c && rest[i + 1] == c;
                assert(s[i + 1] == c && s[i + 2] == c);
            }
        }
        lemma_replace_pair_absent(rest, c, rep);
        assert(seq![s[0]] + rest =~= s);
    }
}

/// A text without `c` is copied unchanged in front of what follows it.
pub proof fn lemma_replace_pair_prefix_kept(a: Seq<char>, b: Seq<char>, c: char, rep: Seq<char>)
    requires
        !a.contains(c),
    ensures
        replace_all(a + b, seq![c, c], rep) == a + replace_all(b, seq![c, c], rep),
    decreases a.len(),
{
    if a.len() == 0 {
        assert(a + b =~= b);
    } else {
        let s = a + b;
        assert(s[0] == a[0]);
        assert(a.contains(a[0]));
        if 2 <= s.len() && s.take(2) == seq![c, c] {
            assert(s.take(2)[0] == s[0]);
        }
        assert(!a.skip(1).contains(c)) by {
            if a.skip(1).contains(c) {
                let j = choose|j: int| 0 <= j < a.skip(1).len() && a.skip(1)[j] == c;
                assert(a[j + 1] == c);
            }
        }
        lemma_replace_pair_prefix_kept(a.skip(1), b, c, rep);
        assert(s.skip(1) =~= a.skip(1) + b);
        assert(seq![a[0]] + (a.skip(1) + replace_all(b, seq![c, c], rep)) =~= a + replace_all(b, seq![c, c], rep));
    }
}

/// Preparing HTML changes only paragraph breaks: a text with no two line
/// breaks in a row comes back unchanged.
pub proof fn lemma_prepared_keeps_text(text: Seq<char>)
    requires
        !has_pair(text, '\n'),
    ensures
        prepared_html(text) == text,
{
    reveal_strlit("\n\n");
    assert("\n\n"@ =~= seq!['\n', '\n']);
    lemma_replace_pair_absent(text, '\n', "<br>"@);
}

/// Preparing HTML goes from left to right: a part without line breaks is
/// kept as it is, and a paragraph break becomes `<br>`.
pub proof fn lemma_prepared_concat(a: Seq<char>, b: Seq<char>)
    ensures
        !a.contains('\n') ==> prepared_html(a + b) == a + prepared_html(b),
        prepared_html(seq!['\n', '\n'] + b) == "<br>"@ + prepared_html(b),
{
    reveal_strlit("\n\n");
    assert("\n\n"@ =~= seq!['\n', '\n']);
    if !a.contains('\n') {
        lemma_replace_pair_prefix_kept(a, b, '\n', "<br>"@);
    }
    let s = seq!['\n', '\n'] + b;
    assert(s.take(2) =~= seq!['\n', '\n']);
    assert(s.skip(2) =~= b);
}

/// Removing a pattern from a text that does not hold the pattern's first
/// character changes nothing.
pub proof fn lemma_remove_absent(s: Seq<char>, pat: Seq<char>)
    requires
        pat.len() > 0,
        !s.contains(pat[0]),
    ensures
        replace_all(s, pat, Seq::<char>::empty()) == s,
    decreases s.len(),
{
    if s.len() > 0 {
        assert(s.contains(s[0]));
        if pat.len() <= s.len() && s.take(pat.len() as int) == pat {
            assert(s.take(pat.len() as int)[0] == s[0]);
        }
        assert(!s.skip(1).contains(pat[0])) by {
            if s.skip(1).contains(pat[0]) {
                let j = choose|j: int| 0 <= j < s.skip(1).len() && s.skip(1)[j] == pat[0];
                assert(s[j + 1] == pat[0]);
            }
        }
        lemma_remove_absent(s.skip(1), pat);
        assert(seq![s[0]] + s.skip(1) =~= s);
    }
}

/// Tidying changes only rules and heading marks: Markdown without any `'-'`
/// or `'#'` comes back unchanged.
pub proof fn lemma_tidied_keeps_text(md: Seq<char>)
    requires
        !md.contains('-'),
        !md.contains('#'),
    ensures
        tidied_markdown(md) == md,
{
    reveal_strlit("---");
    reveal_strlit("#");
    reveal_strlit("");
    assert("---"@ =~= seq!['-', '-', '-']);
    assert("#"@ =~= seq!['#']);
    assert(""@ =~= Seq::<char>::empty());
    lemma_remove_absent(md, seq!['-', '-', '-']);
    lemma_remove_absent(md, seq!['#']);
}

/// What a card shows of a description `md`: nothing when there is none; the
/// tidied text when it has fewer than `LONG_TEXT_BYTES` bytes; otherwise
/// exactly `KEPT_TEXT_BYTES + 3` bytes, the start of the tidied text and then
/// `"..."`.
pub open spec fn shows_description(x: Seq<char>, md: Option<Seq<char>>) -> bool {
    match md {
        None => x.len() == 0,
        Some(d) => {
            let t = tidied_markdown(d);
            if encode_utf8(t).len() >= LONG_TEXT_BYTES {
                &&& encode_utf8(x).len() == KEPT_TEXT_BYTES + 3
                &&& x.len() >= 3
                &&& x.skip(x.len() - 3) == seq!['.', '.', '.']
                &&& x.take(x.len() - 3) == t.take(x.len() - 3)
            } else {
                x == t
            }
        },
    }
}

}
