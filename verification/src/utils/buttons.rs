//! The `{button:Text|url}` syntax shared by notes, filters, welcome and
//! goodbye content. A colon right after a button keeps the next button on the
//! same row; anything else closes the row. In notes, `:same` right after a
//! button puts it on the row of the button before it.

use vstd::prelude::*;
use crate::markup::{InlineButton, ButtonModel, rows_model, row_model};
use crate::text::{lower_eq, lower_eq_at, slice_vec, trim, trim_vec};

verus! {

/// The opening `{button:`; it matches case-insensitively.
pub open spec fn button_open() -> Seq<char> {
    seq!['{', 'b', 'u', 't', 't', 'o', 'n', ':']
}

/// First index from `i` on holding `|` or `}` (the length if none).
pub open spec fn find_label_end(s: Seq<char>, i: int) -> int
    decreases s.len() - i,
{
    if i < 0 || i >= s.len() {
        s.len() as int
    } else if s[i] == '|' || s[i] == '}' {
        i
    } else {
        find_label_end(s, i + 1)
    }
}

/// First index from `i` on holding `}` (the length if none).
pub open spec fn find_close(s: Seq<char>, i: int) -> int
    decreases s.len() - i,
{
    if i < 0 || i >= s.len() {
        s.len() as int
    } else if s[i] == '}' {
        i
    } else {
        find_close(s, i + 1)
    }
}

pub proof fn lemma_find_label_end(s: Seq<char>, i: int)
    requires
        0 <= i,
    ensures
        i <= find_label_end(s, i) || i > s.len(),
        find_label_end(s, i) <= s.len(),
    decreases s.len() - i,
{
    if i < s.len() && !(s[i] == '|' || s[i] == '}') {
        lemma_find_label_end(s, i + 1);
    }
}

pub proof fn lemma_find_close(s: Seq<char>, i: int)
    requires
        0 <= i,
    ensures
        i <= find_close(s, i) || i > s.len(),
        find_close(s, i) <= s.len(),
    decreases s.len() - i,
{
    if i < s.len() && s[i] != '}' {
        lemma_find_close(s, i + 1);
    }
}

/// The button written at `start`, with the index just past its `}`: the
/// opening matches, a `|` comes before any `}`, a `}` closes the URL, and
/// both the trimmed label and the trimmed URL are non-empty.
pub open spec fn button_at(s: Seq<char>, start: int) -> Option<(ButtonModel, int)> {
    if start < 0 || start + 8 >= s.len() || !lower_eq(s.subrange(start, start + 8), button_open()) {
        None
    } else {
        let j = find_label_end(s, start + 8);
        if j >= s.len() || s[j] != '|' {
            None
        } else {
            let k = find_close(s, j + 1);
            if k >= s.len() {
                None
            } else {
                let text = trim(s.subrange(start + 8, j));
                let url = trim(s.subrange(j + 1, k));
                if text.len() == 0 || url.len() == 0 {
                    None
                } else {
                    Some(((text, url), k + 1))
                }
            }
        }
    }
}

pub proof fn lemma_button_at_advances(s: Seq<char>, start: int)
    requires
        button_at(s, start) is Some,
    ensures
        start < button_at(s, start).unwrap().1 <= s.len(),
{
    lemma_find_label_end(s, start + 8);
    let j = find_label_end(s, start + 8);
    lemma_find_close(s, j + 1);
}

/// `rows` with `cur` appended when `cur` holds a button.
pub open spec fn close_row(rows: Seq<Seq<ButtonModel>>, cur: Seq<ButtonModel>) -> Seq<
    Seq<ButtonModel>,
> {
    if cur.len() > 0 {
        rows.push(cur)
    } else {
        rows
    }
}

/// `:same` stands at `e`.
pub open spec fn same_at(s: Seq<char>, e: int) -> bool {
    0 <= e && e + 5 <= s.len() && s.subrange(e, e + 5) == seq![':', 's', 'a', 'm', 'e']
}

/// The rows after a `:same` button `b`: it joins the last closed row when no
/// row is in progress, else it closes the row in progress.
pub open spec fn join_same(rows: Seq<Seq<ButtonModel>>, cur: Seq<ButtonModel>, b: ButtonModel) -> Seq<
    Seq<ButtonModel>,
> {
    if cur.len() == 0 && rows.len() > 0 {
        rows.update(rows.len() - 1, rows.last().push(b))
    } else {
        rows.push(cur.push(b))
    }
}

/// Scans `s` from `i`: `text` is the text kept so far, `rows` the closed rows
/// and `cur` the row in progress. Characters that do not begin a button are
/// kept in the text. With `joins`, a `:same` after a button is read as
/// described in the module documentation.
pub open spec fn scan_buttons(
    s: Seq<char>,
    joins: bool,
    i: int,
    text: Seq<char>,
    rows: Seq<Seq<ButtonModel>>,
    cur: Seq<ButtonModel>,
) -> (Seq<char>, Seq<Seq<ButtonModel>>)
    decreases s.len() - i,
{
    if i < 0 || i >= s.len() {
        (text, close_row(rows, cur))
    } else {
        match button_at(s, i) {
            Some((b, e)) => {
                proof {
                    lemma_button_at_advances(s, i);
                }
                if joins && same_at(s, e) {
                    scan_buttons(s, joins, e + 5, text, join_same(rows, cur, b), Seq::empty())
                } else if e < s.len() && s[e] == ':' {
                    scan_buttons(s, joins, e + 1, text, rows, cur.push(b))
                } else {
                    scan_buttons(s, joins, e, text, rows.push(cur.push(b)), Seq::empty())
                }
            },
            None => scan_buttons(s, joins, i + 1, text.push(s[i]), rows, cur),
        }
    }
}

/// The text without its buttons, and the buttons as rows.
pub open spec fn split_buttons(s: Seq<char>, joins: bool) -> (Seq<char>, Seq<Seq<ButtonModel>>) {
    scan_buttons(s, joins, 0, Seq::empty(), Seq::empty(), Seq::empty())
}

fn find_label_end_vec(s: &Vec<char>, i: usize) -> (r: usize)
    requires
        i <= s.len(),
    ensures
        r as int == find_label_end(s@, i as int),
{
    let mut k = i;
    while k < s.len() && s[k] != '|' && s[k] != '}'
        invariant
            i <= k <= s.len(),
            find_label_end(s@, i as int) == find_label_end(s@, k as int),
        decreases s.len() - k,
    {
        k = k + 1;
    }
    k
}

fn find_close_vec(s: &Vec<char>, i: usize) -> (r: usize)
    requires
        i <= s.len(),
    ensures
        r as int == find_close(s@, i as int),
{
    let mut k = i;
    while k < s.len() && s[k] != '}'
        invariant
            i <= k <= s.len(),
            find_close(s@, i as int) == find_close(s@, k as int),
        decreases s.len() - k,
    {
        k = k + 1;
    }
    k
}

pub fn button_open_vec() -> (v: Vec<char>)
    ensures
        v@ == button_open(),
{
    let v = vec!['{', 'b', 'u', 't', 't', 'o', 'n', ':'];
    assert(v@ =~= button_open());
    v
}

/// Reads the button written at `start`, returning it with the index just
/// past it.
pub fn try_parse_button(s: &Vec<char>, start: usize) -> (r: Option<(InlineButton, usize)>)
    ensures
        match r {
            Some((b, e)) => button_at(s@, start as int) == Some((b@, e as int)),
            None => button_at(s@, start as int) is None,
        },
{
    if start >= s.len() || s.len() - start <= 8 {
        return None;
    }
    let open = button_open_vec();
    if !lower_eq_at(s, start, &open) {
        return None;
    }
    let j = find_label_end_vec(s, start + 8);
    proof {
        lemma_find_label_end(s@, start + 8);
    }
    if j >= s.len() || s[j] != '|' {
        return None;
    }
    let k = find_close_vec(s, j + 1);
    proof {
        lemma_find_close(s@, j + 1);
    }
    if k >= s.len() {
        return None;
    }
    let raw_text = slice_vec(s, start + 8, j);
    let raw_url = slice_vec(s, j + 1, k);
    let text = trim_vec(&raw_text);
    let url = trim_vec(&raw_url);
    if text.len() == 0 || url.len() == 0 {
        return None;
    }
    let b = InlineButton::new(crate::text::string_of(&text), crate::text::string_of(&url));
    Some((b, k + 1))
}

fn same_at_vec(s: &Vec<char>, e: usize) -> (r: bool)
    ensures
        r == same_at(s@, e as int),
{
    if e < s.len() && s.len() - e >= 5 && s[e] == ':' && s[e + 1] == 's' && s[e + 2] == 'a'
        && s[e + 3] == 'm' && s[e + 4] == 'e' {
        assert(s@.subrange(e as int, e + 5) =~= seq![':', 's', 'a', 'm', 'e']);
        true
    } else {
        proof {
            if same_at(s@, e as int) {
                assert(s@.subrange(e as int, e + 5)[0] == ':');
                assert(s@.subrange(e as int, e + 5)[1] == 's');
                assert(s@.subrange(e as int, e + 5)[2] == 'a');
                assert(s@.subrange(e as int, e + 5)[3] == 'm');
                assert(s@.subrange(e as int, e + 5)[4] == 'e');
            }
        }
        false
    }
}

/// Separates the buttons from the text of `s`; `joins` reads `:same`.
pub fn split_buttons_vec(s: &Vec<char>, joins: bool) -> (r: (Vec<char>, Vec<Vec<InlineButton>>))
    ensures
        (r.0@, rows_model(r.1@)) == split_buttons(s@, joins),
{
    let mut text: Vec<char> = Vec::new();
    let mut rows: Vec<Vec<InlineButton>> = Vec::new();
    let mut cur: Vec<InlineButton> = Vec::new();
    let mut i: usize = 0;
    assert(rows_model(rows@) =~= Seq::<Seq<ButtonModel>>::empty());
    assert(row_model(cur) =~= Seq::<ButtonModel>::empty());
    while i < s.len()
        invariant
            i <= s.len(),
            scan_buttons(s@, joins, i as int, text@, rows_model(rows@), row_model(cur))
                == split_buttons(s@, joins),
        decreases s.len() - i,
    {
        match try_parse_button(s, i) {
            Some((b, e)) => {
                proof {
                    lemma_button_at_advances(s@, i as int);
                }
                let ghost old_cur = cur;
                let ghost bm = b@;
                if joins && same_at_vec(s, e) {
                    let ghost old_rows = rows@;
                    if cur.len() == 0 && rows.len() > 0 {
                        let mut last = rows.pop().unwrap();
                        let ghost old_last = last;
                        last.push(b);
                        assert(row_model(last) =~= row_model(old_last).push(bm));
                        rows.push(last);
                        assert(rows_model(rows@) =~= join_same(rows_model(old_rows), row_model(old_cur), bm));
                    } else {
                        cur.push(b);
                        assert(row_model(cur) =~= row_model(old_cur).push(bm));
                        rows.push(cur);
                        assert(rows_model(rows@) =~= join_same(rows_model(old_rows), row_model(old_cur), bm));
                    }
                    cur = Vec::new();
                    assert(row_model(cur) =~= Seq::<ButtonModel>::empty());
                    i = e + 5;
                } else {
                    cur.push(b);
                    assert(row_model(cur) =~= row_model(old_cur).push(bm));
                    if e < s.len() && s[e] == ':' {
                        i = e + 1;
                    } else {
                        let ghost old_rows = rows@;
                        rows.push(cur);
                        assert(rows_model(rows@) =~= rows_model(old_rows).push(row_model(cur)));
                        cur = Vec::new();
                        assert(row_model(cur) =~= Seq::<ButtonModel>::empty());
                        i = e;
                    }
                }
            },
            None => {
                text.push(s[i]);
                i = i + 1;
            },
        }
    }
    if cur.len() > 0 {
        let ghost old_rows = rows@;
        rows.push(cur);
        assert(rows_model(rows@) =~= rows_model(old_rows).push(row_model(cur)));
    }
    (text, rows)
}

} // verus!
