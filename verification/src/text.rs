//! Character-level helpers for the strings that end up in markup: trimming,
//! identifier clean-up, splitting class lists into words and joining them back.

use vstd::prelude::*;

verus! {

/// Whether `c` has the Unicode property `White_Space`: the characters from
/// the tab to the carriage return, the space, the next line, the no-break
/// space, and the spaces and separators beyond them.
pub open spec fn whitespace(c: char) -> bool {
    let n = c as u32;
    ||| 0x09 <= n <= 0x0d
    ||| n == 0x20
    ||| n == 0x85
    ||| n == 0xa0
    ||| n == 0x1680
    ||| 0x2000 <= n <= 0x200a
    ||| n == 0x2028
    ||| n == 0x2029
    ||| n == 0x202f
    ||| n == 0x205f
    ||| n == 0x3000
}

/// Calls `char::is_whitespace`. Trusted: the result is whether `c` has the
/// Unicode property `White_Space`, the characters that `whitespace` lists.
#[verifier::external_body]
pub(crate) fn is_whitespace(c: char) -> (b: bool)
    ensures
        b == whitespace(c),
{
    c.is_whitespace()
}

/// Calls `String::push`. Trusted: the character is appended and nothing else changes.
#[verifier::external_body]
pub(crate) fn push_char(s: &mut String, c: char)
    ensures
        final(s)@ == old(s)@.push(c),
{
    s.push(c)
}

/// The characters of `s`, in order.
pub fn chars_of(s: &str) -> (v: Vec<char>)
    ensures
        v@ == s@,
{
    let n: usize = s.unicode_len();
    let mut v: Vec<char> = Vec::new();
    let mut i: usize = 0;
    while i < n
        invariant
            n == s@.len(),
            i <= n,
            v@ == s@.subrange(0, i as int),
        decreases n - i,
    {
        v.push(s.get_char(i));
        i = i + 1;
    }
    assert(s@.subrange(0, n as int) == s@);
    v
}

/// The string made of `v[from..to]`.
pub fn string_of(v: &Vec<char>, from: usize, to: usize) -> (s: String)
    requires
        from <= to <= v@.len(),
    ensures
        s@ == v@.subrange(from as int, to as int),
{
    let mut s = String::new();
    let mut i: usize = from;
    while i < to
        invariant
            from <= i <= to <= v@.len(),
            s@ == v@.subrange(from as int, i as int),
        decreases to - i,
    {
        push_char(&mut s, v[i]);
        i = i + 1;
    }
    s
}

/// Index of the first character at or after `i` that is not whitespace
/// (`s.len()` if there is none).
pub open spec fn skip_whitespace(s: Seq<char>, i: int) -> int
    decreases s.len() - i,
{
    if 0 <= i < s.len() && whitespace(s[i]) {
        skip_whitespace(s, i + 1)
    } else {
        i
    }
}

/// End of the text that remains when trailing whitespace is cut, never below `start`.
pub open spec fn drop_whitespace(s: Seq<char>, start: int, j: int) -> int
    decreases j,
{
    if 0 <= start < j <= s.len() && whitespace(s[j - 1]) {
        drop_whitespace(s, start, j - 1)
    } else {
        j
    }
}

/// `s` without leading and trailing whitespace.
pub open spec fn trimmed(s: Seq<char>) -> Seq<char> {
    let start = skip_whitespace(s, 0);
    s.subrange(start, drop_whitespace(s, start, s.len() as int))
}

/// A text that neither begins nor ends with whitespace is trimmed already.
pub proof fn lemma_trimmed_already(s: Seq<char>)
    requires
        s.len() > 0,
        !whitespace(s[0]),
        !whitespace(s[s.len() - 1]),
    ensures
        trimmed(s) == s,
{
    assert(skip_whitespace(s, 0) == 0);
    assert(drop_whitespace(s, 0, s.len() as int) == s.len());
    assert(s.subrange(0, s.len() as int) == s);
}

pub proof fn lemma_skip_whitespace_bounds(s: Seq<char>, i: int)
    requires
        0 <= i <= s.len(),
    ensures
        i <= skip_whitespace(s, i) <= s.len(),
        skip_whitespace(s, i) < s.len() ==> !whitespace(s[skip_whitespace(s, i)]),
        forall|k: int| i <= k < skip_whitespace(s, i) ==> whitespace(#[trigger] s[k]),
    decreases s.len() - i,
{
    if i < s.len() && whitespace(s[i]) {
        lemma_skip_whitespace_bounds(s, i + 1);
    }
}

pub proof fn lemma_drop_whitespace_bounds(s: Seq<char>, start: int, j: int)
    requires
        0 <= start <= j <= s.len(),
    ensures
        start <= drop_whitespace(s, start, j) <= j,
        start < drop_whitespace(s, start, j) ==> !whitespace(s[drop_whitespace(s, start, j) - 1]),
        forall|k: int| drop_whitespace(s, start, j) <= k < j ==> whitespace(#[trigger] s[k]),
    decreases j,
{
    if start < j && whitespace(s[j - 1]) {
        lemma_drop_whitespace_bounds(s, start, j - 1);
    }
}

/// What `trimmed` leaves neither starts nor ends with whitespace, and all
/// that it cut away was whitespace.
pub proof fn lemma_trimmed(s: Seq<char>)
    ensures
        trimmed(s).len() > 0 ==> !whitespace(trimmed(s).first()) && !whitespace(trimmed(s).last()),
        trimmed(s).len() == 0 <==> forall|k: int| 0 <= k < s.len() ==> whitespace(#[trigger] s[k]),
{
    let start = skip_whitespace(s, 0);
    lemma_skip_whitespace_bounds(s, 0);
    lemma_drop_whitespace_bounds(s, start, s.len() as int);
    let end = drop_whitespace(s, start, s.len() as int);
    if start < end {
        assert(trimmed(s).first() == s[start]);
        assert(trimmed(s).last() == s[end - 1]);
    }
}

/// Copy of `s` without leading and trailing whitespace.
pub fn trim(s: &str) -> (t: String)
    ensures
        t@ == trimmed(s@),
        t@.len() > 0 ==> !whitespace(t@.first()) && !whitespace(t@.last()),
{
    proof {
        lemma_trimmed(s@);
    }
    let v = chars_of(s);
    let n: usize = v.len();
    let mut start: usize = 0;
    while start < n && is_whitespace(v[start])
        invariant
            n == v@.len(),
            start <= n,
            skip_whitespace(v@, start as int) == skip_whitespace(v@, 0),
        decreases n - start,
    {
        start = start + 1;
    }
    let mut end: usize = n;
    while start < end && is_whitespace(v[end - 1])
        invariant
            n == v@.len(),
            start <= end <= n,
            drop_whitespace(v@, start as int, end as int) == drop_whitespace(
                v@,
                start as int,
                n as int,
            ),
        decreases end,
    {
        end = end - 1;
    }
    string_of(&v, start, end)
}

/// `s` with every space turned into an underscore.
pub open spec fn underscored(s: Seq<char>) -> Seq<char> {
    s.map_values(|c: char| if c == ' ' { '_' } else { c })
}

/// Copy of `s` with every space turned into an underscore.
pub fn underscore(s: &str) -> (t: String)
    ensures
        t@ == underscored(s@),
{
    let v = chars_of(s);
    let mut t = String::new();
    let mut i: usize = 0;
    while i < v.len()
        invariant
            i <= v@.len(),
            t@ == underscored(v@.subrange(0, i as int)),
        decreases v@.len() - i,
    {
        let c: char = v[i];
        push_char(&mut t, if c == ' ' { '_' } else { c });
        assert(underscored(v@.subrange(0, i + 1)) == underscored(v@.subrange(0, i as int)).push(
            if c == ' ' { '_' } else { c },
        ));
        i = i + 1;
    }
    assert(v@.subrange(0, v@.len() as int) == v@);
    t
}

/// ASCII whitespace, which separates the words of a class list.
pub open spec fn blank(c: char) -> bool {
    c == ' ' || c == '\t' || c == '\n' || c == '\r' || c == '\x0C'
}

pub fn is_blank(c: char) -> (b: bool)
    ensures
        b == blank(c),
{
    c == ' ' || c == '\t' || c == '\n' || c == '\r' || c == '\x0C'
}

/// What a finished word contributes: nothing if it is empty.
pub open spec fn word(cur: Seq<char>) -> Seq<Seq<char>> {
    if cur.len() > 0 {
        seq![cur]
    } else {
        Seq::empty()
    }
}

/// The words of `s[i..]`, given that `cur` holds the word read so far.
pub open spec fn words_from(s: Seq<char>, i: int, cur: Seq<char>) -> Seq<Seq<char>>
    decreases s.len() - i,
{
    if i < 0 || i >= s.len() {
        word(cur)
    } else if blank(s[i]) {
        word(cur) + words_from(s, i + 1, Seq::empty())
    } else {
        words_from(s, i + 1, cur.push(s[i]))
    }
}

/// The maximal runs of non-blank characters of `s`, in order.
pub open spec fn words(s: Seq<char>) -> Seq<Seq<char>> {
    words_from(s, 0, Seq::empty())
}

/// The views of a vector of strings.
pub open spec fn views(v: Seq<String>) -> Seq<Seq<char>> {
    v.map_values(|s: String| s@)
}

pub proof fn lemma_views_push(v: Seq<String>, w: String)
    ensures
        views(v.push(w)) == views(v).push(w@),
{
}

/// Splits `s` at ASCII whitespace.
pub fn split_words(s: &str) -> (out: Vec<String>)
    ensures
        views(out@) == words(s@),
{
    let v = chars_of(s);
    let mut out: Vec<String> = Vec::new();
    let mut start: usize = 0;
    let mut i: usize = 0;
    proof {
        assert(v@.subrange(0, 0) == Seq::<char>::empty());
        assert(views(out@) == Seq::<Seq<char>>::empty());
        assert(views(out@) + words(v@) == words(v@));
    }
    while i < v.len()
        invariant
            start <= i <= v@.len(),
            views(out@) + words_from(v@, i as int, v@.subrange(start as int, i as int)) == words(
                v@,
            ),
        decreases v@.len() - i,
    {
        let ghost cur = v@.subrange(start as int, i as int);
        if is_blank(v[i]) {
            if start < i {
                let w = string_of(&v, start, i);
                proof {
                    assert(views(out@.push(w)) == views(out@) + word(cur));
                }
                out.push(w);
            }
            start = i + 1;
            assert(v@.subrange(start as int, start as int) == Seq::<char>::empty());
        } else {
            assert(v@.subrange(start as int, i + 1) == cur.push(v@[i as int]));
        }
        i = i + 1;
    }
    if start < i {
        let w = string_of(&v, start, i);
        proof {
            assert(views(out@.push(w)) == views(out@) + word(v@.subrange(start as int, i as int)));
        }
        out.push(w);
    }
    out
}

/// The words of `ws` separated by single spaces.
pub open spec fn joined(ws: Seq<Seq<char>>) -> Seq<char>
    decreases ws.len(),
{
    if ws.len() == 0 {
        Seq::empty()
    } else if ws.len() == 1 {
        ws[0]
    } else {
        joined(ws.drop_last()) + seq![' '] + ws.last()
    }
}

/// Joins the strings of `ws` with single spaces.
pub fn join_words(ws: &Vec<String>) -> (s: String)
    ensures
        s@ == joined(views(ws@)),
{
    let mut s = String::new();
    let mut i: usize = 0;
    while i < ws.len()
        invariant
            i <= ws@.len(),
            s@ == joined(views(ws@).take(i as int)),
        decreases ws@.len() - i,
    {
        let ghost before = views(ws@).take(i as int);
        let ghost after = views(ws@).take(i + 1);
        proof {
            assert(after.drop_last() == before);
            assert(after.last() == ws@[i as int]@);
        }
        if i > 0 {
            push_char(&mut s, ' ');
        }
        s.append(ws[i].as_str());
        i = i + 1;
    }
    assert(views(ws@).take(ws@.len() as int) == views(ws@));
    s
}

/// The decimal digit for `d`.
pub open spec fn digit(d: int) -> char {
    if d == 0 {
        '0'
    } else if d == 1 {
        '1'
    } else if d == 2 {
        '2'
    } else if d == 3 {
        '3'
    } else if d == 4 {
        '4'
    } else if d == 5 {
        '5'
    } else if d == 6 {
        '6'
    } else if d == 7 {
        '7'
    } else if d == 8 {
        '8'
    } else {
        '9'
    }
}

/// `n` written in base ten, without leading zeros.
pub open spec fn decimal(n: nat) -> Seq<char>
    decreases n,
{
    if n < 10 {
        seq![digit(n as int)]
    } else {
        decimal(n / 10).push(digit((n % 10) as int))
    }
}

fn digit_char(d: u64) -> (c: char)
    requires
        d < 10,
    ensures
        c == digit(d as int),
{
    if d == 0 {
        '0'
    } else if d == 1 {
        '1'
    } else if d == 2 {
        '2'
    } else if d == 3 {
        '3'
    } else if d == 4 {
        '4'
    } else if d == 5 {
        '5'
    } else if d == 6 {
        '6'
    } else if d == 7 {
        '7'
    } else if d == 8 {
        '8'
    } else {
        '9'
    }
}

/// Appends `n` in base ten to `out`.
pub fn push_decimal(out: &mut String, n: u64)
    ensures
        final(out)@ == old(out)@ + decimal(n as nat),
    decreases n,
{
    if n < 10 {
        push_char(out, digit_char(n));
    } else {
        push_decimal(out, n / 10);
        push_char(out, digit_char(n % 10));
    }
}

/// The hexadecimal digit for `d`, in lower case.
pub open spec fn hex_digit(d: int) -> char {
    if d < 10 {
        digit(d)
    } else if d == 10 {
        'a'
    } else if d == 11 {
        'b'
    } else if d == 12 {
        'c'
    } else if d == 13 {
        'd'
    } else if d == 14 {
        'e'
    } else {
        'f'
    }
}

/// `n` written in base sixteen, in lower case and without leading zeros.
pub open spec fn hexadecimal(n: nat) -> Seq<char>
    decreases n,
{
    if n < 16 {
        seq![hex_digit(n as int)]
    } else {
        hexadecimal(n / 16).push(hex_digit((n % 16) as int))
    }
}

fn hex_char(d: u64) -> (c: char)
    requires
        d < 16,
    ensures
        c == hex_digit(d as int),
{
    if d < 10 {
        digit_char(d)
    } else if d == 10 {
        'a'
    } else if d == 11 {
        'b'
    } else if d == 12 {
        'c'
    } else if d == 13 {
        'd'
    } else if d == 14 {
        'e'
    } else {
        'f'
    }
}

/// Appends `n` in base sixteen to `out`.
pub fn push_hex(out: &mut String, n: u64)
    ensures
        final(out)@ == old(out)@ + hexadecimal(n as nat),
    decreases n,
{
    if n < 16 {
        push_char(out, hex_char(n));
    } else {
        push_hex(out, n / 16);
        push_char(out, hex_char(n % 16));
    }
}

/// `n` written in base ten, with a minus sign if it is negative.
pub open spec fn signed_decimal(n: int) -> Seq<char> {
    if n < 0 {
        seq!['-'] + decimal((-n) as nat)
    } else {
        decimal(n as nat)
    }
}

/// Appends `n` in base ten to `out`, with a minus sign if it is negative.
pub fn push_signed_decimal(out: &mut String, n: i64)
    ensures
        final(out)@ == old(out)@ + signed_decimal(n as int),
{
    if n < 0 {
        push_char(out, '-');
        let m: u64 = if n == i64::MIN {
            9223372036854775808u64
        } else {
            (-n) as u64
        };
        push_decimal(out, m);
    } else {
        push_decimal(out, n as u64);
    }
}

} // verus!
