//! Character-sequence toolkit: the string operations the rest of the crate
//! is built from, each with a mathematical model over `Seq<char>`.

use vstd::prelude::*;
use vstd::string::StringSliceAdditionalSpecFns;

verus! {

/// `String::push` from std: appends one character.
#[verifier::external_body]
pub(crate) fn string_push(s: &mut String, c: char)
    ensures
        final(s)@ == old(s)@.push(c),
{
    s.push(c);
}

/// The characters of a string slice, in order.
pub fn chars_of(s: &str) -> (v: Vec<char>)
    ensures
        v@ == s@,
{
    let mut v: Vec<char> = Vec::new();
    for c in it: s.chars()
        invariant
            v@ == it.seq().take(it.index() as int),
    {
        v.push(c);
    }
    v
}

/// A string holding exactly the given characters.
pub fn string_of(v: &Vec<char>) -> (s: String)
    ensures
        s@ == v@,
{
    let mut s = String::new();
    let mut i: usize = 0;
    while i < v.len()
        invariant
            i <= v.len(),
            s@ == v@.take(i as int),
        decreases v.len() - i,
    {
        string_push(&mut s, v[i]);
        assert(v@.take(i as int + 1) =~= v@.take(i as int).push(v@[i as int]));
        i = i + 1;
    }
    assert(v@.take(v.len() as int) =~= v@);
    s
}

} // verus!

verus! {

/// Unicode `White_Space`, the property behind `char::is_whitespace`.
pub open spec fn is_ws(c: char) -> bool {
    let n = c as u32;
    ||| 0x09 <= n <= 0x0D
    ||| n == 0x20
    ||| n == 0x85
    ||| n == 0xA0
    ||| n == 0x1680
    ||| 0x2000 <= n <= 0x200A
    ||| n == 0x2028
    ||| n == 0x2029
    ||| n == 0x202F
    ||| n == 0x205F
    ||| n == 0x3000
}

pub fn char_is_ws(c: char) -> (b: bool)
    ensures
        b == is_ws(c),
{
    let n = c as u32;
    (0x09 <= n && n <= 0x0D) || n == 0x20 || n == 0x85 || n == 0xA0 || n == 0x1680 || (0x2000
        <= n && n <= 0x200A) || n == 0x2028 || n == 0x2029 || n == 0x202F || n == 0x205F || n
        == 0x3000
}

/// Leading whitespace removed (`str::trim_start`).
pub open spec fn trim_start(s: Seq<char>) -> Seq<char>
    decreases s.len(),
{
    if s.len() > 0 && is_ws(s[0]) {
        trim_start(s.drop_first())
    } else {
        s
    }
}

/// Trailing whitespace removed (`str::trim_end`).
pub open spec fn trim_end(s: Seq<char>) -> Seq<char>
    decreases s.len(),
{
    if s.len() > 0 && is_ws(s.last()) {
        trim_end(s.drop_last())
    } else {
        s
    }
}

/// Whitespace removed at both ends (`str::trim`).
pub open spec fn trim(s: Seq<char>) -> Seq<char> {
    trim_end(trim_start(s))
}

pub fn trim_vec(s: &Vec<char>) -> (r: Vec<char>)
    ensures
        r@ == trim(s@),
{
    let mut i: usize = 0;
    assert(s@.skip(0) =~= s@);
    while i < s.len() && char_is_ws(s[i])
        invariant
            i <= s.len(),
            trim_start(s@) == trim_start(s@.skip(i as int)),
        decreases s.len() - i,
    {
        assert(s@.skip(i as int).drop_first() =~= s@.skip(i as int + 1));
        i = i + 1;
    }
    let ghost t = s@.skip(i as int);
    assert(trim_start(t) == t);
    let mut j: usize = s.len();
    while j > i && char_is_ws(s[j - 1])
        invariant
            i <= j <= s.len(),
            t == s@.skip(i as int),
            trim_end(t) == trim_end(s@.subrange(i as int, j as int)),
        decreases j,
    {
        assert(s@.subrange(i as int, j as int).drop_last() =~= s@.subrange(i as int, j - 1));
        j = j - 1;
    }
    assert(trim_end(s@.subrange(i as int, j as int)) == s@.subrange(i as int, j as int));
    slice_vec(s, i, j)
}

/// The characters of `s` from index `lo` up to, not including, `hi`.
pub fn slice_vec(s: &Vec<char>, lo: usize, hi: usize) -> (r: Vec<char>)
    requires
        lo <= hi <= s.len(),
    ensures
        r@ == s@.subrange(lo as int, hi as int),
{
    let mut r: Vec<char> = Vec::new();
    let mut k: usize = lo;
    while k < hi
        invariant
            lo <= k <= hi <= s.len(),
            r@ == s@.subrange(lo as int, k as int),
        decreases hi - k,
    {
        r.push(s[k]);
        assert(s@.subrange(lo as int, k + 1) =~= s@.subrange(lo as int, k as int).push(s@[k as int]));
        k = k + 1;
    }
    r
}

/// `a` followed by `b`.
pub fn concat_vec(a: &Vec<char>, b: &Vec<char>) -> (r: Vec<char>)
    ensures
        r@ == a@ + b@,
{
    let mut r = a.clone();
    let mut k: usize = 0;
    while k < b.len()
        invariant
            k <= b.len(),
            r@ == a@ + b@.take(k as int),
        decreases b.len() - k,
    {
        r.push(b[k]);
        assert(a@ + b@.take(k + 1) =~= (a@ + b@.take(k as int)).push(b@[k as int]));
        k = k + 1;
    }
    assert(b@.take(b.len() as int) =~= b@);
    r
}

/// Scans `s` from `i`, collecting maximal runs of non-whitespace characters;
/// `cur` is the run in progress and `acc` the runs already closed.
pub open spec fn scan_words(s: Seq<char>, i: int, cur: Seq<char>, acc: Seq<Seq<char>>) -> Seq<
    Seq<char>,
>
    decreases s.len() - i,
{
    if i >= s.len() || i < 0 {
        if cur.len() > 0 {
            acc.push(cur)
        } else {
            acc
        }
    } else if is_ws(s[i]) {
        scan_words(s, i + 1, Seq::empty(), if cur.len() > 0 { acc.push(cur) } else { acc })
    } else {
        scan_words(s, i + 1, cur.push(s[i]), acc)
    }
}

/// The whitespace-separated words of `s` (`str::split_whitespace`).
pub open spec fn words(s: Seq<char>) -> Seq<Seq<char>> {
    scan_words(s, 0, Seq::empty(), Seq::empty())
}

pub open spec fn views(v: Seq<Vec<char>>) -> Seq<Seq<char>> {
    v.map_values(|w: Vec<char>| w@)
}

pub fn words_vec(s: &Vec<char>) -> (r: Vec<Vec<char>>)
    ensures
        views(r@) == words(s@),
{
    let mut acc: Vec<Vec<char>> = Vec::new();
    let mut cur: Vec<char> = Vec::new();
    let mut i: usize = 0;
    assert(views(acc@) =~= Seq::<Seq<char>>::empty());
    while i < s.len()
        invariant
            i <= s.len(),
            scan_words(s@, i as int, cur@, views(acc@)) == words(s@),
        decreases s.len() - i,
    {
        if char_is_ws(s[i]) {
            if cur.len() > 0 {
                let ghost old_acc = acc@;
                acc.push(cur);
                assert(views(acc@) =~= views(old_acc).push(cur@));
            }
            cur = Vec::new();
        } else {
            cur.push(s[i]);
        }
        i = i + 1;
    }
    if cur.len() > 0 {
        let ghost old_acc = acc@;
        acc.push(cur);
        assert(views(acc@) =~= views(old_acc).push(cur@));
    }
    acc
}

/// `s` begins with `pat`.
pub open spec fn starts_with(s: Seq<char>, pat: Seq<char>) -> bool {
    s.len() >= pat.len() && s.take(pat.len() as int) == pat
}

/// `pat` occurs in `s` at index `i`.
pub open spec fn occurs_at(s: Seq<char>, pat: Seq<char>, i: int) -> bool {
    0 <= i && i + pat.len() <= s.len() && s.subrange(i, i + pat.len()) == pat
}

/// `pat` occurs somewhere in `s` (`str::contains`).
pub open spec fn contains(s: Seq<char>, pat: Seq<char>) -> bool {
    exists|i: int| occurs_at(s, pat, i)
}

pub fn occurs_at_vec(s: &Vec<char>, pat: &Vec<char>, i: usize) -> (b: bool)
    ensures
        b == occurs_at(s@, pat@, i as int),
{
    if i > s.len() || pat.len() > s.len() - i {
        return false;
    }
    let mut k: usize = 0;
    while k < pat.len()
        invariant
            i + pat.len() <= s.len(),
            k <= pat.len(),
            forall|m: int| 0 <= m < k ==> s@[i + m] == pat@[m],
        decreases pat.len() - k,
    {
        if s[i + k] != pat[k] {
            assert(s@.subrange(i as int, i + pat.len())[k as int] != pat@[k as int]);
            return false;
        }
        k = k + 1;
    }
    assert(s@.subrange(i as int, i + pat.len()) =~= pat@);
    true
}

/// Whether two character vectors hold the same text.
pub fn same_text(a: &Vec<char>, b: &Vec<char>) -> (r: bool)
    ensures
        r == (a@ == b@),
{
    if a.len() != b.len() {
        return false;
    }
    let mut i: usize = 0;
    while i < a.len()
        invariant
            a.len() == b.len(),
            i <= a.len(),
            forall|k: int| 0 <= k < i ==> a@[k] == b@[k],
        decreases a.len() - i,
    {
        if a[i] != b[i] {
            return false;
        }
        i = i + 1;
    }
    assert(a@ =~= b@);
    true
}

/// Whether the characters of `a` are the text `lit`.
pub fn is_text(a: &Vec<char>, lit: &str) -> (r: bool)
    ensures
        r == (a@ == lit@),
{
    same_text(a, &chars_of(lit))
}

/// The view of an optional string slice.
pub open spec fn opt_str(o: Option<&str>) -> Option<Seq<char>> {
    match o {
        Some(s) => Some(s@),
        None => None,
    }
}

pub fn starts_with_vec(s: &Vec<char>, pat: &Vec<char>) -> (b: bool)
    ensures
        b == starts_with(s@, pat@),
{
    let b = occurs_at_vec(s, pat, 0);
    assert(s@.take(pat@.len() as int) =~= s@.subrange(0, pat@.len() as int));
    b
}

pub fn contains_vec(s: &Vec<char>, pat: &Vec<char>) -> (b: bool)
    ensures
        b == contains(s@, pat@),
{
    if pat.len() > s.len() {
        assert forall|i: int| !occurs_at(s@, pat@, i) by {}
        return false;
    }
    let last = s.len() - pat.len();
    let mut i: usize = 0;
    while i < last
        invariant
            last == s.len() - pat.len(),
            i <= last,
            forall|m: int| 0 <= m < i ==> !occurs_at(s@, pat@, m),
        decreases last - i,
    {
        if occurs_at_vec(s, pat, i) {
            return true;
        }
        i = i + 1;
    }
    if occurs_at_vec(s, pat, last) {
        return true;
    }
    assert forall|m: int| !occurs_at(s@, pat@, m) by {}
    false
}

/// Every non-overlapping occurrence of `pat` in `s`, leftmost first,
/// replaced by `rep` (`str::replace`).
pub open spec fn replace_all(s: Seq<char>, pat: Seq<char>, rep: Seq<char>) -> Seq<char>
    decreases s.len(),
{
    if pat.len() == 0 || s.len() < pat.len() {
        s
    } else if s.take(pat.len() as int) == pat {
        rep + replace_all(s.skip(pat.len() as int), pat, rep)
    } else {
        seq![s[0]] + replace_all(s.drop_first(), pat, rep)
    }
}

pub fn replace_vec(s: &Vec<char>, pat: &Vec<char>, rep: &Vec<char>) -> (r: Vec<char>)
    requires
        pat@.len() > 0,
    ensures
        r@ == replace_all(s@, pat@, rep@),
{
    let mut out: Vec<char> = Vec::new();
    let mut i: usize = 0;
    assert(s@.skip(0) =~= s@);
    assert(out@ + replace_all(s@, pat@, rep@) =~= replace_all(s@, pat@, rep@));
    while i < s.len()
        invariant
            i <= s.len(),
            pat@.len() > 0,
            replace_all(s@, pat@, rep@) == out@ + replace_all(s@.skip(i as int), pat@, rep@),
        decreases s.len() - i,
    {
        let ghost rest = s@.skip(i as int);
        if occurs_at_vec(s, pat, i) {
            assert(rest.take(pat@.len() as int) =~= s@.subrange(i as int, i + pat@.len()));
            assert(rest.skip(pat@.len() as int) =~= s@.skip(i + pat@.len()));
            let ghost o = out@;
            out = concat_vec(&out, rep);
            assert(o + (rep@ + replace_all(s@.skip(i + pat@.len()), pat@, rep@)) =~= out@
                + replace_all(s@.skip(i + pat@.len()), pat@, rep@));
            i = i + pat.len();
        } else {
            proof {
                if rest.len() >= pat@.len() {
                    assert(rest.take(pat@.len() as int) =~= s@.subrange(i as int, i + pat@.len()));
                }
                assert(rest.drop_first() =~= s@.skip(i + 1));
            }
            let ghost o = out@;
            out.push(s[i]);
            assert(o + (seq![s@[i as int]] + replace_all(s@.skip(i + 1), pat@, rep@)) =~= out@
                + replace_all(s@.skip(i + 1), pat@, rep@));
            i = i + 1;
        }
    }
    assert(replace_all(s@.skip(i as int), pat@, rep@) =~= Seq::<char>::empty());
    assert(out@ + Seq::<char>::empty() =~= out@);
    out
}

} // verus!

verus! {

/// The text after the first whitespace character, if there is one
/// (the second half of `str::split_once(char::is_whitespace)`).
pub open spec fn after_first_ws(s: Seq<char>) -> Option<Seq<char>>
    decreases s.len(),
{
    if s.len() == 0 {
        None
    } else if is_ws(s[0]) {
        Some(s.drop_first())
    } else {
        after_first_ws(s.drop_first())
    }
}

pub fn after_first_ws_vec(s: &Vec<char>) -> (r: Option<Vec<char>>)
    ensures
        match r {
            Some(v) => after_first_ws(s@) == Some(v@),
            None => after_first_ws(s@) is None,
        },
{
    let mut i: usize = 0;
    assert(s@.skip(0) =~= s@);
    while i < s.len()
        invariant
            i <= s.len(),
            after_first_ws(s@) == after_first_ws(s@.skip(i as int)),
        decreases s.len() - i,
    {
        assert(s@.skip(i as int).drop_first() =~= s@.skip(i + 1));
        if char_is_ws(s[i]) {
            let r = slice_vec(s, i + 1, s.len());
            assert(r@ =~= s@.skip(i + 1));
            return Some(r);
        }
        i = i + 1;
    }
    None
}

/// The pieces of `s` between non-overlapping occurrences of `pat`, leftmost
/// first (`str::split` with a string pattern).
pub open spec fn split_on(s: Seq<char>, pat: Seq<char>) -> Seq<Seq<char>>
    decreases s.len(),
{
    split_scan(s, pat, 0, Seq::empty(), Seq::empty())
}

/// Scanning form of `split_on`: `cur` is the piece in progress.
pub open spec fn split_scan(
    s: Seq<char>,
    pat: Seq<char>,
    i: int,
    cur: Seq<char>,
    acc: Seq<Seq<char>>,
) -> Seq<Seq<char>>
    decreases s.len() - i,
{
    if i < 0 || i >= s.len() || pat.len() == 0 {
        acc.push(cur)
    } else if occurs_at(s, pat, i) {
        split_scan(s, pat, i + pat.len(), Seq::empty(), acc.push(cur))
    } else {
        split_scan(s, pat, i + 1, cur.push(s[i]), acc)
    }
}

pub fn split_on_vec(s: &Vec<char>, pat: &Vec<char>) -> (r: Vec<Vec<char>>)
    requires
        pat@.len() > 0,
    ensures
        views(r@) == split_on(s@, pat@),
{
    let mut acc: Vec<Vec<char>> = Vec::new();
    let mut cur: Vec<char> = Vec::new();
    let mut i: usize = 0;
    assert(views(acc@) =~= Seq::<Seq<char>>::empty());
    while i < s.len()
        invariant
            i <= s.len(),
            pat@.len() > 0,
            split_scan(s@, pat@, i as int, cur@, views(acc@)) == split_on(s@, pat@),
        decreases s.len() - i,
    {
        if occurs_at_vec(s, pat, i) {
            let ghost old_acc = acc@;
            acc.push(cur);
            assert(views(acc@) =~= views(old_acc).push(cur@));
            cur = Vec::new();
            i = i + pat.len();
        } else {
            cur.push(s[i]);
            i = i + 1;
        }
    }
    let ghost old_acc = acc@;
    acc.push(cur);
    assert(views(acc@) =~= views(old_acc).push(cur@));
    acc
}

/// The lower-case form of `c` where that form is a single ASCII character
/// (`A`-`Z`, and the Kelvin sign, whose lower case is `k`); `c` itself
/// otherwise. Where the other side of a comparison is ASCII, comparing
/// `to_lowercase()` of a string equals comparing `ascii_fold` character by
/// character: every other character lowercases to non-ASCII text or to itself.
pub open spec fn ascii_fold(c: char) -> char {
    let n = c as u32;
    if 0x41 <= n <= 0x5A {
        (n + 32) as char
    } else if n == 0x212A {
        'k'
    } else {
        c
    }
}

/// `s.to_lowercase() == t` for an ASCII lower-case `t`.
pub open spec fn lower_eq(s: Seq<char>, t: Seq<char>) -> bool {
    s.len() == t.len() && forall|i: int| 0 <= i < s.len() ==> ascii_fold(#[trigger] s[i]) == t[i]
}

pub fn fold_char(c: char) -> (r: char)
    ensures
        r == ascii_fold(c),
{
    let n = c as u32;
    if 0x41 <= n && n <= 0x5A {
        ((n + 32) as u8) as char
    } else if n == 0x212A {
        'k'
    } else {
        c
    }
}

pub fn lower_eq_vec(s: &Vec<char>, t: &Vec<char>) -> (b: bool)
    ensures
        b == lower_eq(s@, t@),
{
    if s.len() != t.len() {
        return false;
    }
    let mut i: usize = 0;
    while i < s.len()
        invariant
            s.len() == t.len(),
            i <= s.len(),
            forall|k: int| 0 <= k < i ==> ascii_fold(#[trigger] s@[k]) == t@[k],
        decreases s.len() - i,
    {
        if fold_char(s[i]) != t[i] {
            return false;
        }
        i = i + 1;
    }
    true
}

/// The characters of `s` from `lo` compared as in `lower_eq` with `t`.
pub fn lower_eq_at(s: &Vec<char>, lo: usize, t: &Vec<char>) -> (b: bool)
    requires
        lo + t.len() <= s.len(),
    ensures
        b == lower_eq(s@.subrange(lo as int, lo + t.len()), t@),
{
    let w = slice_vec(s, lo, lo + t.len());
    lower_eq_vec(&w, t)
}

} // verus!

verus! {

pub open spec fn is_digit(c: char) -> bool {
    0x30 <= (c as u32) <= 0x39
}

pub open spec fn digit_val(c: char) -> nat {
    ((c as u32) - 0x30) as nat
}

/// The value of a string of decimal digits.
pub open spec fn digits_value(s: Seq<char>) -> nat
    decreases s.len(),
{
    if s.len() == 0 {
        0
    } else {
        digits_value(s.drop_last()) * 10 + digit_val(s.last())
    }
}

pub open spec fn all_digits(s: Seq<char>) -> bool {
    forall|i: int| 0 <= i < s.len() ==> is_digit(#[trigger] s[i])
}

/// Unsigned integer parsing (`str::parse` for `u8`..`u64`): an optional `+`,
/// then at least one decimal digit, the value at most `max`.
pub open spec fn parse_unsigned(s: Seq<char>, max: nat) -> Option<nat> {
    let b = if s.len() > 0 && s[0] == '+' {
        s.drop_first()
    } else {
        s
    };
    if b.len() > 0 && all_digits(b) && digits_value(b) <= max {
        Some(digits_value(b))
    } else {
        None
    }
}

/// Signed integer parsing (`str::parse` for `i32`/`i64`): an optional sign,
/// then at least one decimal digit; the value within `-(max + 1) ..= max`.
pub open spec fn parse_signed(s: Seq<char>, max: nat) -> Option<int> {
    if s.len() > 0 && s[0] == '-' {
        let b = s.drop_first();
        if b.len() > 0 && all_digits(b) && digits_value(b) <= max + 1 {
            Some(-(digits_value(b) as int))
        } else {
            None
        }
    } else {
        match parse_unsigned(s, max) {
            Some(n) => Some(n as int),
            None => None,
        }
    }
}

pub proof fn lemma_digits_prefix_monotone(s: Seq<char>, i: int, j: int)
    requires
        0 <= i <= j <= s.len(),
        all_digits(s),
    ensures
        digits_value(s.take(i)) <= digits_value(s.take(j)),
    decreases j - i,
{
    if i < j {
        lemma_digits_prefix_monotone(s, i, j - 1);
        assert(s.take(j).drop_last() =~= s.take(j - 1));
    }
}

/// Digits of `s` from `lo` on: their value when they are all digits, there is
/// at least one, and the value is at most `max`.
fn digits_from(s: &Vec<char>, lo: usize, max: u64) -> (r: Option<u64>)
    requires
        lo <= s.len(),
    ensures
        ({
            let b = s@.skip(lo as int);
            match r {
                Some(v) => b.len() > 0 && all_digits(b) && digits_value(b) <= max && v
                    == digits_value(b),
                None => !(b.len() > 0 && all_digits(b) && digits_value(b) <= max),
            }
        }),
{
    let ghost b = s@.skip(lo as int);
    if lo == s.len() {
        return None;
    }
    let mut v: u64 = 0;
    let mut i: usize = lo;
    assert(b.take(0) =~= Seq::<char>::empty());
    while i < s.len()
        invariant
            lo <= i <= s.len(),
            b == s@.skip(lo as int),
            v == digits_value(b.take(i - lo)),
            v <= max,
            forall|k: int| lo <= k < i ==> is_digit(#[trigger] s@[k]),
        decreases s.len() - i,
    {
        let c = s[i];
        let n = c as u32;
        if n < 0x30 || n > 0x39 {
            assert(!is_digit(b[i - lo]));
            return None;
        }
        let d = (n - 0x30) as u64;
        assert(b.take(i - lo + 1).drop_last() =~= b.take(i - lo));
        if d > max || v > (max - d) / 10 {
            proof {
                if d <= max {
                    assert(v * 10 + d > max) by (nonlinear_arith)
                        requires
                            v > (max - d) / 10,
                            d <= max,
                    ;
                }
                assert(b[i - lo] == c);
                assert(digits_value(b.take(i - lo + 1)) == v * 10 + d);
                if all_digits(b) {
                    lemma_digits_prefix_monotone(b, i - lo + 1, b.len() as int);
                    assert(b.take(b.len() as int) =~= b);
                }
            }
            return None;
        }
        assert(v * 10 + d <= max) by (nonlinear_arith)
            requires
                v <= (max - d) / 10,
                d <= max,
        ;
        v = v * 10 + d;
        i = i + 1;
    }
    assert(b.take(b.len() as int) =~= b);
    Some(v)
}

pub fn parse_unsigned_vec(s: &Vec<char>, max: u64) -> (r: Option<u64>)
    ensures
        match r {
            Some(v) => parse_unsigned(s@, max as nat) == Some(v as nat),
            None => parse_unsigned(s@, max as nat) is None,
        },
{
    if s.len() > 0 && s[0] == '+' {
        assert(s@.skip(1) =~= s@.drop_first());
        digits_from(s, 1, max)
    } else {
        assert(s@.skip(0) =~= s@);
        digits_from(s, 0, max)
    }
}

pub fn parse_u64_vec(s: &Vec<char>) -> (r: Option<u64>)
    ensures
        match r {
            Some(v) => parse_unsigned(s@, u64::MAX as nat) == Some(v as nat),
            None => parse_unsigned(s@, u64::MAX as nat) is None,
        },
{
    parse_unsigned_vec(s, u64::MAX)
}

pub fn parse_u32_vec(s: &Vec<char>) -> (r: Option<u32>)
    ensures
        match r {
            Some(v) => parse_unsigned(s@, u32::MAX as nat) == Some(v as nat),
            None => parse_unsigned(s@, u32::MAX as nat) is None,
        },
{
    match parse_unsigned_vec(s, u32::MAX as u64) {
        Some(v) => Some(v as u32),
        None => None,
    }
}

pub fn parse_i64_vec(s: &Vec<char>) -> (r: Option<i64>)
    ensures
        match r {
            Some(v) => parse_signed(s@, i64::MAX as nat) == Some(v as int),
            None => parse_signed(s@, i64::MAX as nat) is None,
        },
{
    if s.len() > 0 && s[0] == '-' {
        assert(s@.skip(1) =~= s@.drop_first());
        match digits_from(s, 1, (i64::MAX as u64) + 1) {
            Some(v) => {
                if v == (i64::MAX as u64) + 1 {
                    Some(i64::MIN)
                } else {
                    Some(-(v as i64))
                }
            },
            None => None,
        }
    } else {
        match parse_unsigned_vec(s, i64::MAX as u64) {
            Some(v) => Some(v as i64),
            None => None,
        }
    }
}

pub fn parse_i32_vec(s: &Vec<char>) -> (r: Option<i32>)
    ensures
        match r {
            Some(v) => parse_signed(s@, i32::MAX as nat) == Some(v as int),
            None => parse_signed(s@, i32::MAX as nat) is None,
        },
{
    if s.len() > 0 && s[0] == '-' {
        assert(s@.skip(1) =~= s@.drop_first());
        match digits_from(s, 1, (i32::MAX as u64) + 1) {
            Some(v) => Some(-(v as i64) as i32),
            None => None,
        }
    } else {
        match parse_unsigned_vec(s, i32::MAX as u64) {
            Some(v) => Some(v as i32),
            None => None,
        }
    }
}

/// The character of decimal digit `d`.
pub open spec fn digit_char(d: nat) -> char {
    (d + 0x30) as char
}

/// Decimal notation of `n`, as `u64`'s `Display` writes it.
pub open spec fn dec(n: nat) -> Seq<char>
    decreases n,
{
    if n < 10 {
        seq![digit_char(n)]
    } else {
        dec(n / 10).push(digit_char(n % 10))
    }
}

/// Decimal notation of a signed integer, as `i64`'s `Display` writes it.
pub open spec fn dec_int(n: int) -> Seq<char> {
    if n < 0 {
        seq!['-'] + dec((-n) as nat)
    } else {
        dec(n as nat)
    }
}

pub fn u64_dec(n: u64) -> (r: Vec<char>)
    ensures
        r@ == dec(n as nat),
    decreases n,
{
    let d = ((n % 10) as u8 + 0x30u8) as char;
    if n < 10 {
        let mut v: Vec<char> = Vec::new();
        v.push(d);
        assert(v@ =~= seq![digit_char(n as nat)]);
        v
    } else {
        let mut v = u64_dec(n / 10);
        v.push(d);
        v
    }
}

pub fn u128_dec(n: u128) -> (r: Vec<char>)
    ensures
        r@ == dec(n as nat),
    decreases n,
{
    let d = ((n % 10) as u8 + 0x30u8) as char;
    if n < 10 {
        let mut v: Vec<char> = Vec::new();
        v.push(d);
        assert(v@ =~= seq![digit_char(n as nat)]);
        v
    } else {
        let mut v = u128_dec(n / 10);
        v.push(d);
        v
    }
}

pub fn i64_dec(n: i64) -> (r: Vec<char>)
    ensures
        r@ == dec_int(n as int),
{
    if n < 0 {
        let m: u64 = if n == i64::MIN {
            (i64::MAX as u64) + 1
        } else {
            (-n) as u64
        };
        let mut v: Vec<char> = Vec::new();
        v.push('-');
        let digits = u64_dec(m);
        let r = concat_vec(&v, &digits);
        assert(v@ =~= seq!['-']);
        r
    } else {
        u64_dec(n as u64)
    }
}

} // verus!

verus! {

pub proof fn lemma_scan_words_nonempty(s: Seq<char>, i: int, cur: Seq<char>, acc: Seq<Seq<char>>)
    requires
        forall|k: int| 0 <= k < acc.len() ==> #[trigger] acc[k].len() > 0,
    ensures
        forall|k: int| 0 <= k < scan_words(s, i, cur, acc).len() ==> #[trigger] scan_words(s, i, cur, acc)[k].len() > 0,
    decreases s.len() - i,
{
    if i >= s.len() || i < 0 {
        let acc2 = if cur.len() > 0 { acc.push(cur) } else { acc };
        assert(scan_words(s, i, cur, acc) == acc2);
        assert forall|k: int| 0 <= k < acc2.len() implies #[trigger] acc2[k].len() > 0 by {
            if k < acc.len() {
                assert(acc2[k] == acc[k]);
            }
        }
    } else if is_ws(s[i]) {
        let acc2 = if cur.len() > 0 { acc.push(cur) } else { acc };
        assert forall|k: int| 0 <= k < acc2.len() implies #[trigger] acc2[k].len() > 0 by {
            if k < acc.len() {
                assert(acc2[k] == acc[k]);
            }
        }
        lemma_scan_words_nonempty(s, i + 1, Seq::empty(), acc2);
        assert(scan_words(s, i, cur, acc) == scan_words(s, i + 1, Seq::empty(), acc2));
    } else {
        lemma_scan_words_nonempty(s, i + 1, cur.push(s[i]), acc);
        assert(scan_words(s, i, cur, acc) == scan_words(s, i + 1, cur.push(s[i]), acc));
    }
}

/// Every word is non-empty.
pub proof fn lemma_words_nonempty(s: Seq<char>)
    ensures
        forall|k: int| 0 <= k < words(s).len() ==> #[trigger] words(s)[k].len() > 0,
{
    lemma_scan_words_nonempty(s, 0, Seq::empty(), Seq::empty());
}

} // verus!

verus! {

/// `str::to_lowercase` from std: the lower-case form of a text; named by
/// `lowercase`.
pub uninterp spec fn lowercase(s: Seq<char>) -> Seq<char>;

/// `str::to_lowercase`.
#[verifier::external_body]
pub(crate) fn to_lowercase(s: &str) -> (r: String)
    ensures
        r@ == lowercase(s@),
{
    s.to_lowercase()
}

/// First index from `i` on holding `c` (the length if none).
pub open spec fn index_of_char(s: Seq<char>, c: char, i: int) -> int
    decreases s.len() - i,
{
    if i < 0 || i >= s.len() {
        s.len() as int
    } else if s[i] == c {
        i
    } else {
        index_of_char(s, c, i + 1)
    }
}

/// First index from `i` on holding whitespace (the length if none).
pub open spec fn index_of_ws(s: Seq<char>, i: int) -> int
    decreases s.len() - i,
{
    if i < 0 || i >= s.len() {
        s.len() as int
    } else if is_ws(s[i]) {
        i
    } else {
        index_of_ws(s, i + 1)
    }
}

pub fn index_of_char_vec(s: &Vec<char>, c: char, i: usize) -> (r: usize)
    requires
        i <= s.len(),
    ensures
        r as int == index_of_char(s@, c, i as int),
        i <= r <= s.len(),
{
    let mut k = i;
    while k < s.len() && s[k] != c
        invariant
            i <= k <= s.len(),
            index_of_char(s@, c, i as int) == index_of_char(s@, c, k as int),
        decreases s.len() - k,
    {
        k = k + 1;
    }
    k
}

pub fn index_of_ws_vec(s: &Vec<char>, i: usize) -> (r: usize)
    requires
        i <= s.len(),
    ensures
        r as int == index_of_ws(s@, i as int),
        i <= r <= s.len(),
{
    let mut k = i;
    while k < s.len() && !char_is_ws(s[k])
        invariant
            i <= k <= s.len(),
            index_of_ws(s@, i as int) == index_of_ws(s@, k as int),
        decreases s.len() - k,
    {
        k = k + 1;
    }
    k
}

} // verus!

verus! {

/// The text between byte offsets `start` and `end` of the UTF-8 encoding of
/// `s`, when `start <= end <= ` its length and both fall on character
/// boundaries (what `str::get(start..end)` gives).
pub open spec fn byte_slice(s: Seq<char>, start: int, end: int) -> Option<Seq<char>> {
    let b = vstd::utf8::encode_utf8(s);
    if 0 <= start <= end <= b.len() && vstd::utf8::is_char_boundary(b, start)
        && vstd::utf8::is_char_boundary(b, end) {
        Some(vstd::utf8::decode_utf8(b.subrange(start, end)))
    } else {
        None
    }
}

/// `str::get(start..end)`.
pub fn str_get(s: &str, start: usize, end: usize) -> (r: Option<&str>)
    ensures
        match r {
            Some(t) => byte_slice(s@, start as int, end as int) == Some(t@),
            None => byte_slice(s@, start as int, end as int) is None,
        },
{
    let ghost b = vstd::utf8::encode_utf8(s@);
    proof {
        vstd::utf8::encode_utf8_valid_utf8(s@);
    }
    if start <= end && s.is_char_boundary(start) && s.is_char_boundary(end) {
        let (head, _) = s.split_at(end);
        proof {
            let hb = b.subrange(0, end as int);
            vstd::utf8::valid_utf8_split(b, end as int);
            assert(head.spec_bytes() =~= hb);
            if start < end {
                vstd::utf8::is_char_boundary_iff_not_is_continuation_byte(b, start as int);
                vstd::utf8::is_char_boundary_iff_not_is_continuation_byte(hb, start as int);
                assert(hb[start as int] == b[start as int]);
            } else {
                vstd::utf8::is_char_boundary_start_end_of_seq(hb);
            }
        }
        let (_, mid) = head.split_at(start);
        proof {
            assert(mid.spec_bytes() =~= b.subrange(start as int, end as int));
            vstd::utf8::encode_utf8_decode_utf8(mid@);
        }
        Some(mid)
    } else {
        None
    }
}

} // verus!
