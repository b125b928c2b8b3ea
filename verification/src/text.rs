//! Character-sequence helpers shared by the parsers of this crate.
use vstd::prelude::*;
use vstd::string::*;
use vstd::utf8::*;

verus! {

/// The characters of `s`, in order.
pub fn chars_of(s: &str) -> (v: Vec<char>)
    ensures
        v@ == s@,
{
    let n = s.unicode_len();
    let mut v: Vec<char> = Vec::new();
    let mut i: usize = 0;
    while i < n
        invariant
            n == s@.len(),
            i <= n,
            v@ == s@.subrange(0, i as int),
        decreases n - i,
    {
        let c = s.get_char(i);
        v.push(c);
        i = i + 1;
        assert(v@ =~= s@.subrange(0, i as int));
    }
    assert(v@ =~= s@);
    v
}

/// Appends one character to a `String` (`String::push`).
#[verifier::external_body]
pub(crate) fn push_char(s: &mut String, c: char)
    ensures
        final(s)@ == old(s)@.push(c),
{
    s.push(c);
}

/// The `String` made of the characters of `v`.
pub fn string_from_chars(v: &[char]) -> (s: String)
    ensures
        s@ == v@,
{
    let mut s = String::new();
    let mut i: usize = 0;
    while i < v.len()
        invariant
            i <= v@.len(),
            s@ == v@.subrange(0, i as int),
        decreases v@.len() - i,
    {
        push_char(&mut s, v[i]);
        i = i + 1;
        assert(s@ =~= v@.subrange(0, i as int));
    }
    assert(s@ =~= v@);
    s
}

/// A character sequence after a backspace: its last character gone, if any.
pub open spec fn backspaced(s: Seq<char>) -> Seq<char> {
    if s.len() > 0 { s.drop_last() } else { s }
}

/// Removes the last character of `s`, if there is one (`String::pop`).
pub fn pop_char(s: &mut String)
    ensures
        final(s)@ == backspaced(old(s)@),
{
    let v = chars_of(s.as_str());
    if v.len() > 0 {
        let w = subvec(&v, 0, v.len() - 1);
        *s = string_from_chars(&w);
    }
}

/// Unicode `White_Space` (what `char::is_whitespace` tests).
pub open spec fn is_ws(c: char) -> bool {
    ||| ('\u{9}' <= c && c <= '\u{d}')
    ||| c == ' '
    ||| c == '\u{85}'
    ||| c == '\u{a0}'
    ||| c == '\u{1680}'
    ||| ('\u{2000}' <= c && c <= '\u{200a}')
    ||| c == '\u{2028}'
    ||| c == '\u{2029}'
    ||| c == '\u{202f}'
    ||| c == '\u{205f}'
    ||| c == '\u{3000}'
}

/// `char::is_whitespace`.
pub fn is_whitespace(c: char) -> (b: bool)
    ensures
        b == is_ws(c),
{
    ('\u{9}' <= c && c <= '\u{d}') || c == ' ' || c == '\u{85}' || c == '\u{a0}' || c == '\u{1680}'
        || ('\u{2000}' <= c && c <= '\u{200a}') || c == '\u{2028}' || c == '\u{2029}' || c
        == '\u{202f}' || c == '\u{205f}' || c == '\u{3000}'
}

/// `s` without its leading whitespace.
pub open spec fn trim_start(s: Seq<char>) -> Seq<char>
    decreases s.len(),
{
    if s.len() > 0 && is_ws(s[0]) {
        trim_start(s.drop_first())
    } else {
        s
    }
}

/// `s` without its trailing whitespace.
pub open spec fn trim_end(s: Seq<char>) -> Seq<char>
    decreases s.len(),
{
    if s.len() > 0 && is_ws(s.last()) {
        trim_end(s.drop_last())
    } else {
        s
    }
}

/// `str::trim`: `s` without leading and trailing whitespace.
pub open spec fn trim(s: Seq<char>) -> Seq<char> {
    trim_end(trim_start(s))
}

/// A copy of `v[lo..hi]`.
pub fn subvec(v: &[char], lo: usize, hi: usize) -> (r: Vec<char>)
    requires
        lo <= hi <= v@.len(),
    ensures
        r@ == v@.subrange(lo as int, hi as int),
{
    let mut r: Vec<char> = Vec::new();
    let mut i = lo;
    while i < hi
        invariant
            lo <= i <= hi <= v@.len(),
            r@ == v@.subrange(lo as int, i as int),
        decreases hi - i,
    {
        r.push(v[i]);
        i = i + 1;
        assert(r@ =~= v@.subrange(lo as int, i as int));
    }
    r
}

/// `str::trim_start` on a character vector.
pub fn trim_start_chars(v: &[char]) -> (r: Vec<char>)
    ensures
        r@ == trim_start(v@),
{
    let mut i: usize = 0;
    assert(v@.subrange(0, v@.len() as int) =~= v@);
    while i < v.len() && is_whitespace(v[i])
        invariant
            i <= v@.len(),
            trim_start(v@) == trim_start(v@.subrange(i as int, v@.len() as int)),
        decreases v@.len() - i,
    {
        assert(v@.subrange(i as int, v@.len() as int).drop_first() =~= v@.subrange(
            i + 1,
            v@.len() as int,
        ));
        i = i + 1;
    }
    subvec(v, i, v.len())
}

/// `str::trim_end` on a character vector.
pub fn trim_end_chars(v: &[char]) -> (r: Vec<char>)
    ensures
        r@ == trim_end(v@),
{
    let mut j: usize = v.len();
    assert(v@.subrange(0, v@.len() as int) =~= v@);
    while j > 0 && is_whitespace(v[j - 1])
        invariant
            j <= v@.len(),
            trim_end(v@) == trim_end(v@.subrange(0, j as int)),
        decreases j,
    {
        assert(v@.subrange(0, j as int).drop_last() =~= v@.subrange(0, j - 1));
        j = j - 1;
    }
    assert(v@.subrange(0, v@.len() as int) =~= v@);
    subvec(v, 0, j)
}

/// `str::trim` on a character vector.
pub fn trim_chars(v: &[char]) -> (r: Vec<char>)
    ensures
        r@ == trim(v@),
{
    let t = trim_start_chars(v);
    trim_end_chars(&t)
}

/// `i` is the first position of `c` in `s`.
pub open spec fn is_first(s: Seq<char>, c: char, i: int) -> bool {
    &&& 0 <= i < s.len()
    &&& s[i] == c
    &&& forall|j: int| 0 <= j < i ==> s[j] != c
}

/// The first position of `c` in `s`, if `c` occurs.
pub open spec fn first_index(s: Seq<char>, c: char) -> Option<int> {
    if exists|i: int| is_first(s, c, i) {
        Some(choose|i: int| is_first(s, c, i))
    } else {
        None
    }
}

/// The first position is unique, so `first_index` names it.
pub proof fn lemma_first_index(s: Seq<char>, c: char, i: int)
    requires
        is_first(s, c, i),
    ensures
        first_index(s, c) == Some(i),
{
    let k = choose|k: int| is_first(s, c, k);
    assert(is_first(s, c, k));
    if k < i {
        assert(s[k] != c);
    }
    if i < k {
        assert(s[i] != c);
    }
}

/// The first position of `c` in `v`.
pub fn find_char(v: &[char], c: char) -> (r: Option<usize>)
    ensures
        r.is_some() ==> (r.unwrap() as int) < v@.len(),
        r.is_some() ==> first_index(v@, c) == Some(r.unwrap() as int),
        r.is_none() ==> first_index(v@, c).is_none() && forall|j: int|
            0 <= j < v@.len() ==> v@[j] != c,
{
    let mut i: usize = 0;
    while i < v.len()
        invariant
            i <= v@.len(),
            forall|j: int| 0 <= j < i ==> v@[j] != c,
        decreases v@.len() - i,
    {
        if v[i] == c {
            proof {
                lemma_first_index(v@, c, i as int);
            }
            return Some(i);
        }
        i = i + 1;
    }
    None
}

/// The views of a vector of character vectors.
pub open spec fn views(r: Seq<Vec<char>>) -> Seq<Seq<char>> {
    r.map_values(|v: Vec<char>| v@)
}

/// The predicate "is the character `c`".
pub open spec fn is_char(c: char) -> spec_fn(char) -> bool {
    |x: char| x == c
}

/// The predicate "is whitespace".
pub open spec fn ws_pred() -> spec_fn(char) -> bool {
    |x: char| is_ws(x)
}

/// The pieces of `s` between the characters that satisfy `sep`
/// (`str::split` with a character pattern): one more piece than there are
/// separators, empty pieces included.
pub open spec fn split_by(s: Seq<char>, sep: spec_fn(char) -> bool) -> Seq<Seq<char>>
    decreases s.len(),
{
    if s.len() == 0 {
        seq![Seq::<char>::empty()]
    } else {
        let r = split_by(s.drop_last(), sep);
        if sep(s.last()) {
            r.push(Seq::<char>::empty())
        } else {
            r.update(r.len() - 1, r.last().push(s.last()))
        }
    }
}

/// A split always has at least one piece.
pub proof fn lemma_split_by_len(s: Seq<char>, sep: spec_fn(char) -> bool)
    ensures
        split_by(s, sep).len() >= 1,
    decreases s.len(),
{
    if s.len() > 0 {
        lemma_split_by_len(s.drop_last(), sep);
    }
}

/// Text with no separator, appended, lengthens the last piece.
pub proof fn lemma_split_by_plain_tail(s: Seq<char>, t: Seq<char>, sep: spec_fn(char) -> bool)
    requires
        forall|i: int| 0 <= i < t.len() ==> !sep(#[trigger] t[i]),
    ensures
        split_by(s + t, sep) == split_by(s, sep).update(
            split_by(s, sep).len() - 1,
            split_by(s, sep).last() + t,
        ),
    decreases t.len(),
{
    lemma_split_by_len(s, sep);
    if t.len() == 0 {
        assert(s + t =~= s);
        assert(split_by(s, sep).last() + t =~= split_by(s, sep).last());
        assert(split_by(s, sep).update(split_by(s, sep).len() - 1, split_by(s, sep).last())
            =~= split_by(s, sep));
    } else {
        let u = t.drop_last();
        assert forall|i: int| 0 <= i < u.len() implies !sep(#[trigger] u[i]) by {
            assert(u[i] == t[i]);
        }
        lemma_split_by_plain_tail(s, u, sep);
        assert((s + t).drop_last() =~= s + u);
        assert((s + t).last() == t.last());
        assert(!sep(t[t.len() - 1]));
        let r = split_by(s, sep);
        assert((r.last() + u).push(t.last()) =~= r.last() + t);
        assert(r.update(r.len() - 1, r.last() + u).update(r.len() - 1, r.last() + t) =~= r.update(
            r.len() - 1,
            r.last() + t,
        ));
    }
}

/// Splits `v` at every character that satisfies `sep` (chosen by `ws`:
/// whitespace when true, the character `c` otherwise).
fn split_impl(v: &[char], c: char, ws: bool) -> (r: Vec<Vec<char>>)
    ensures
        views(r@) == split_by(v@, if ws { ws_pred() } else { is_char(c) }),
{
    let ghost sep = if ws { ws_pred() } else { is_char(c) };
    let mut pieces: Vec<Vec<char>> = Vec::new();
    let mut cur: Vec<char> = Vec::new();
    let mut i: usize = 0;
    assert(v@.take(0) =~= Seq::<char>::empty());
    assert(views(pieces@).push(cur@) =~= seq![Seq::<char>::empty()]);
    while i < v.len()
        invariant
            i <= v@.len(),
            sep == (if ws { ws_pred() } else { is_char(c) }),
            views(pieces@).push(cur@) == split_by(v@.take(i as int), sep),
        decreases v@.len() - i,
    {
        let x = v[i];
        let is_sep = if ws { is_whitespace(x) } else { x == c };
        assert(v@.take(i + 1).drop_last() =~= v@.take(i as int));
        assert(v@.take(i + 1).last() == x);
        let ghost before = views(pieces@).push(cur@);
        proof {
            lemma_split_by_len(v@.take(i as int), sep);
        }
        if is_sep {
            let done = cur;
            pieces.push(done);
            cur = Vec::new();
            assert(views(pieces@).push(cur@) =~= before.push(Seq::<char>::empty()));
        } else {
            cur.push(x);
            assert(views(pieces@).push(cur@) =~= before.update(
                before.len() - 1,
                before.last().push(x),
            ));
        }
        i = i + 1;
    }
    assert(v@.take(v@.len() as int) =~= v@);
    pieces.push(cur);
    assert(views(pieces@) =~= split_by(v@, sep));
    pieces
}

/// `str::split` with a character: the pieces of `v` between occurrences of `c`.
pub fn split_char(v: &[char], c: char) -> (r: Vec<Vec<char>>)
    ensures
        views(r@) == split_by(v@, is_char(c)),
{
    split_impl(v, c, false)
}

/// The pieces of `v` between whitespace characters (empty ones included).
pub fn split_ws_all(v: &[char]) -> (r: Vec<Vec<char>>)
    ensures
        views(r@) == split_by(v@, ws_pred()),
{
    split_impl(v, ' ', true)
}

/// Non-empty.
pub open spec fn nonempty() -> spec_fn(Seq<char>) -> bool {
    |p: Seq<char>| p.len() > 0
}

/// `str::split_whitespace`: the non-empty runs of non-whitespace characters.
pub open spec fn words(s: Seq<char>) -> Seq<Seq<char>> {
    split_by(s, ws_pred()).filter(nonempty())
}

/// `str::split_whitespace`.
pub fn split_whitespace(v: &[char]) -> (r: Vec<Vec<char>>)
    ensures
        views(r@) == words(v@),
{
    let all = split_ws_all(v);
    let mut r: Vec<Vec<char>> = Vec::new();
    let mut i: usize = 0;
    assert(views(all@).take(0) =~= Seq::<Seq<char>>::empty());
    proof {
        reveal(Seq::filter);
    }
    while i < all.len()
        invariant
            i <= all@.len(),
            views(all@) == split_by(v@, ws_pred()),
            views(r@) == views(all@).take(i as int).filter(nonempty()),
        decreases all@.len() - i,
    {
        let ghost old_r = views(r@);
        assert(views(all@).take(i + 1) =~= views(all@).take(i as int).push(all@[i as int]@));
        proof {
            views(all@).take(i as int).lemma_filter_push(all@[i as int]@, nonempty());
        }
        if all[i].len() > 0 {
            let piece = subvec(&all[i], 0, all[i].len());
            assert(piece@ =~= all@[i as int]@);
            r.push(piece);
            assert(views(r@) =~= old_r.push(all@[i as int]@));
        }
        i = i + 1;
    }
    assert(views(all@).take(all@.len() as int) =~= views(all@));
    r
}

/// `line` without one trailing carriage return.
pub open spec fn strip_cr(line: Seq<char>) -> Seq<char> {
    if line.len() > 0 && line.last() == '\r' {
        line.drop_last()
    } else {
        line
    }
}

/// `str::lines`: split at `\n`, a final line ending is optional, and a `\r`
/// before a `\n` is not part of the line.
pub open spec fn lines(s: Seq<char>) -> Seq<Seq<char>> {
    let p = split_by(s, is_char('\n'));
    let q = if p.last().len() == 0 {
        p.drop_last()
    } else {
        p
    };
    q.map_values(strip_cr_fn())
}

/// `strip_cr` as a function value.
pub open spec fn strip_cr_fn() -> spec_fn(Seq<char>) -> Seq<char> {
    |l: Seq<char>| strip_cr(l)
}

/// `str::lines` on a character vector.
pub fn lines_of(v: &[char]) -> (r: Vec<Vec<char>>)
    ensures
        views(r@) == lines(v@),
{
    let p = split_char(v, '\n');
    proof {
        lemma_split_by_len(v@, is_char('\n'));
    }
    let n = if p[p.len() - 1].len() == 0 {
        p.len() - 1
    } else {
        p.len()
    };
    let ghost q = if views(p@).last().len() == 0 {
        views(p@).drop_last()
    } else {
        views(p@)
    };
    assert(q.len() == n);
    let mut r: Vec<Vec<char>> = Vec::new();
    let mut i: usize = 0;
    while i < n
        invariant
            i <= n <= p@.len(),
            q.len() == n,
            forall|k: int| 0 <= k < n ==> #[trigger] q[k] == p@[k]@,
            views(r@) == q.take(i as int).map_values(strip_cr_fn()),
        decreases n - i,
    {
        let line = &p[i];
        let len = line.len();
        let end = if len > 0 && line[len - 1] == '\r' {
            len - 1
        } else {
            len
        };
        let l = subvec(line, 0, end);
        if len > 0 && line[len - 1] == '\r' {
            assert(line@.drop_last() =~= line@.subrange(0, len - 1));
        } else {
            assert(line@ =~= line@.subrange(0, len as int));
        }
        assert(l@ == strip_cr(q[i as int]));
        let ghost old_r = views(r@);
        r.push(l);
        assert(views(r@) =~= old_r.push(l@));
        assert(q.take(i + 1).map_values(strip_cr_fn()) =~= q.take(i as int).map_values(
            strip_cr_fn(),
        ).push(strip_cr(q[i as int])));
        i = i + 1;
    }
    assert(q.take(n as int) =~= q);
    r
}

/// `s` begins with `p`.
pub open spec fn starts_with(s: Seq<char>, p: Seq<char>) -> bool {
    p.len() <= s.len() && s.subrange(0, p.len() as int) == p
}

/// `str::starts_with` on character vectors.
pub fn starts_with_chars(v: &[char], p: &[char]) -> (b: bool)
    ensures
        b == starts_with(v@, p@),
{
    if p.len() > v.len() {
        return false;
    }
    let mut i: usize = 0;
    while i < p.len()
        invariant
            p@.len() <= v@.len(),
            i <= p@.len(),
            forall|j: int| 0 <= j < i ==> v@[j] == p@[j],
        decreases p@.len() - i,
    {
        if v[i] != p[i] {
            assert(v@.subrange(0, p@.len() as int)[i as int] != p@[i as int]);
            return false;
        }
        i = i + 1;
    }
    assert(v@.subrange(0, p@.len() as int) =~= p@);
    true
}

/// Equality of two character vectors.
pub fn chars_eq(a: &[char], b: &[char]) -> (r: bool)
    ensures
        r == (a@ == b@),
{
    if a.len() != b.len() {
        return false;
    }
    let ok = starts_with_chars(a, b);
    assert(a@.subrange(0, b@.len() as int) =~= a@);
    ok
}

/// The characters are those of the literal.
pub fn is_literal(v: &[char], lit: &str) -> (b: bool)
    ensures
        b == (v@ == lit@),
{
    let l = chars_of(lit);
    chars_eq(v, &l)
}

/// `p` occurs in `s` at position `i`.
pub open spec fn occurs_at(s: Seq<char>, p: Seq<char>, i: int) -> bool {
    0 <= i && i + p.len() <= s.len() && s.subrange(i, i + p.len()) == p
}

/// `s` contains `p` (`str::contains` with a string pattern).
pub open spec fn contains(s: Seq<char>, p: Seq<char>) -> bool {
    exists|i: int| occurs_at(s, p, i)
}

/// `str::contains` on character vectors.
pub fn contains_chars(v: &[char], p: &[char]) -> (b: bool)
    ensures
        b == contains(v@, p@),
{
    if p.len() > v.len() {
        return false;
    }
    let last = v.len() - p.len();
    let mut i: usize = 0;
    loop
        invariant
            p@.len() <= v@.len(),
            last == v@.len() - p@.len(),
            i <= last,
            forall|j: int| 0 <= j < i ==> !occurs_at(v@, p@, j),
        decreases last - i,
    {
        let tail = subvec(v, i, v.len());
        if starts_with_chars(&tail, p) {
            assert(tail@.subrange(0, p@.len() as int) =~= v@.subrange(i as int, i + p@.len()));
            assert(occurs_at(v@, p@, i as int));
            return true;
        }
        assert(tail@.subrange(0, p@.len() as int) =~= v@.subrange(i as int, i + p@.len()));
        if i == last {
            assert forall|j: int| !occurs_at(v@, p@, j) by {
                if 0 <= j && j + p@.len() <= v@.len() {
                    assert(j <= i);
                }
            }
            return false;
        }
        i = i + 1;
    }
}

/// Everything before and after the first `c` (`str::split_once` with a character).
pub open spec fn split_once(s: Seq<char>, c: char) -> Option<(Seq<char>, Seq<char>)> {
    match first_index(s, c) {
        Some(i) => Some((s.subrange(0, i), s.subrange(i + 1, s.len() as int))),
        None => None,
    }
}

/// `str::split_once` with a character.
pub fn split_once_chars(v: &[char], c: char) -> (r: Option<(Vec<char>, Vec<char>)>)
    ensures
        match r {
            Some((a, b)) => split_once(v@, c) == Some((a@, b@)),
            None => split_once(v@, c).is_none(),
        },
{
    let n = v.len();
    let found = find_char(v, c);
    match found {
        Some(i) => {
            assert(i < n);
            Some((subvec(v, 0, i), subvec(v, i + 1, n)))
        },
        None => None,
    }
}

/// The ASCII digit for `d` (0..=9).
pub open spec fn digit_char(d: int) -> char {
    (d + 48) as char
}

/// The decimal digits of `n`, most significant first, without leading zeros.
pub open spec fn decimal(n: nat) -> Seq<char>
    decreases n,
{
    if n < 10 {
        seq![digit_char(n as int)]
    } else {
        decimal(n / 10).push(digit_char((n % 10) as int))
    }
}

/// `decimal(n)` padded on the left with `'0'` to at least `width` characters
/// (what `format!("{:0width$}", n)` writes).
pub open spec fn zero_padded(n: nat, width: nat) -> Seq<char> {
    let d = decimal(n);
    if d.len() < width {
        Seq::new((width - d.len()) as nat, |i: int| '0') + d
    } else {
        d
    }
}

fn digit_char_exec(d: u64) -> (c: char)
    requires
        d < 10,
    ensures
        c == digit_char(d as int),
{
    let b: u8 = 48 + d as u8;
    b as char
}

/// The decimal representation of `n`.
pub fn decimal_chars(n: u64) -> (v: Vec<char>)
    ensures
        v@ == decimal(n as nat),
    decreases n,
{
    if n < 10 {
        let mut v: Vec<char> = Vec::new();
        v.push(digit_char_exec(n));
        assert(v@ =~= seq![digit_char(n as int)]);
        v
    } else {
        let mut v = decimal_chars(n / 10);
        v.push(digit_char_exec(n % 10));
        v
    }
}

/// `decimal(n)` has at least one character.
pub proof fn lemma_decimal_len(n: nat)
    ensures
        decimal(n).len() >= 1,
    decreases n,
{
    if n >= 10 {
        lemma_decimal_len(n / 10);
    }
}

/// `format!("{:0width$}", n)` as characters.
pub fn zero_padded_chars(n: u64, width: usize) -> (v: Vec<char>)
    ensures
        v@ == zero_padded(n as nat, width as nat),
{
    let d = decimal_chars(n);
    let mut v: Vec<char> = Vec::new();
    if d.len() < width {
        let pad = width - d.len();
        let mut i: usize = 0;
        while i < pad
            invariant
                i <= pad,
                v@ == Seq::new(i as nat, |k: int| '0'),
            decreases pad - i,
        {
            v.push('0');
            i = i + 1;
            assert(v@ =~= Seq::new(i as nat, |k: int| '0'));
        }
    }
    let mut j: usize = 0;
    let ghost prefix = v@;
    while j < d.len()
        invariant
            j <= d@.len(),
            v@ == prefix + d@.subrange(0, j as int),
        decreases d@.len() - j,
    {
        v.push(d[j]);
        j = j + 1;
        assert(v@ =~= prefix + d@.subrange(0, j as int));
    }
    assert(d@.subrange(0, d@.len() as int) =~= d@);
    assert(v@ =~= zero_padded(n as nat, width as nat));
    v
}

/// The value of the digit `c` in base `radix` (10 or 16), as `char::to_digit` gives it.
pub open spec fn digit_value(c: char, radix: nat) -> Option<nat> {
    if '0' <= c && c <= '9' && (c as int) - 48 < radix {
        Some(((c as int) - 48) as nat)
    } else if radix == 16 && 'a' <= c && c <= 'f' {
        Some(((c as int) - 87) as nat)
    } else if radix == 16 && 'A' <= c && c <= 'F' {
        Some(((c as int) - 55) as nat)
    } else {
        None
    }
}

/// The number the digits `d` spell in base `radix`, or `None` when one is not a digit.
pub open spec fn digits_value(d: Seq<char>, radix: nat) -> Option<nat>
    decreases d.len(),
{
    if d.len() == 0 {
        Some(0)
    } else {
        match (digits_value(d.drop_last(), radix), digit_value(d.last(), radix)) {
            (Some(h), Some(l)) => Some(h * radix + l),
            _ => None,
        }
    }
}

/// `u8::from_str_radix(s, radix)`: an optional `+`, then at least one digit,
/// with a value that fits in a byte.
pub open spec fn parse_u8_radix(s: Seq<char>, radix: nat) -> Option<u8> {
    let d = if s.len() > 0 && s[0] == '+' {
        s.drop_first()
    } else {
        s
    };
    if d.len() == 0 {
        None
    } else {
        match digits_value(d, radix) {
            Some(v) => if v <= 255 {
                Some(v as u8)
            } else {
                None
            },
            None => None,
        }
    }
}

fn digit_value_exec(c: char, radix: u32) -> (r: Option<u32>)
    requires
        radix == 10 || radix == 16,
    ensures
        match digit_value(c, radix as nat) {
            Some(v) => r == Some(v as u32),
            None => r.is_none(),
        },
{
    if '0' <= c && c <= '9' {
        let v = (c as u32) - 48;
        if v < radix {
            Some(v)
        } else {
            None
        }
    } else if radix == 16 && 'a' <= c && c <= 'f' {
        Some((c as u32) - 87)
    } else if radix == 16 && 'A' <= c && c <= 'F' {
        Some((c as u32) - 55)
    } else {
        None
    }
}

/// `u8::from_str_radix` (radix 10 or 16) on a character vector.
pub fn parse_u8_radix_chars(v: &[char], radix: u32) -> (r: Option<u8>)
    requires
        radix == 10 || radix == 16,
    ensures
        r == parse_u8_radix(v@, radix as nat),
{
    let n = v.len();
    let start: usize = if n > 0 && v[0] == '+' {
        1
    } else {
        0
    };
    let ghost d = if v@.len() > 0 && v@[0] == '+' {
        v@.drop_first()
    } else {
        v@
    };
    assert(d =~= v@.subrange(start as int, n as int));
    if start == n {
        return None;
    }
    // `acc` is the value so far, held at 256 once it is too large for a byte.
    let mut acc: u32 = 0;
    let mut i = start;
    assert(d.subrange(0, 0) =~= Seq::<char>::empty());
    while i < n
        invariant
            start <= i <= n,
            n == v@.len(),
            d == v@.subrange(start as int, n as int),
            d == (if v@.len() > 0 && v@[0] == '+' {
                v@.drop_first()
            } else {
                v@
            }),
            d.len() > 0,
            radix == 10 || radix == 16,
            acc <= 256,
            digits_value(d.subrange(0, i - start), radix as nat) is Some,
            acc == if digits_value(d.subrange(0, i - start), radix as nat)->0 < 256 {
                digits_value(d.subrange(0, i - start), radix as nat)->0
            } else {
                256
            },
        decreases n - i,
    {
        let ghost pre = d.subrange(0, i - start);
        let ghost nxt = d.subrange(0, i + 1 - start);
        assert(nxt.drop_last() =~= pre);
        assert(nxt.last() == v@[i as int]);
        match digit_value_exec(v[i], radix) {
            Some(dv) => {
                let ghost hv = digits_value(pre, radix as nat)->0;
                assert(digits_value(nxt, radix as nat) == Some(hv * (radix as nat) + dv as nat));
                if acc >= 256 {
                    assert(hv * (radix as nat) >= 256 * 10) by (nonlinear_arith)
                        requires
                            hv >= 256,
                            radix >= 10,
                    ;
                    acc = 256;
                } else {
                    let t = acc * radix + dv;
                    acc = if t < 256 {
                        t
                    } else {
                        256
                    };
                }
            },
            None => {
                proof {
                    assert(digit_value(nxt.last(), radix as nat) is None);
                    assert(digits_value(nxt, radix as nat) is None);
                    lemma_digits_none_extends(d, radix as nat, (i + 1 - start) as int);
                    assert(d.len() > 0);
                    assert(digits_value(d, radix as nat) is None);
                    assert(parse_u8_radix(v@, radix as nat) is None);
                }
                return None;
            },
        }
        i = i + 1;
    }
    assert(d.subrange(0, n - start) =~= d);
    if acc < 256 {
        Some(acc as u8)
    } else {
        None
    }
}

/// Once a prefix holds a non-digit, so does every longer prefix.
proof fn lemma_digits_none_extends(d: Seq<char>, radix: nat, k: int)
    requires
        0 <= k <= d.len(),
        digits_value(d.subrange(0, k), radix) is None,
    ensures
        digits_value(d, radix) is None,
    decreases d.len() - k,
{
    if k < d.len() {
        assert(d.subrange(0, k + 1).drop_last() =~= d.subrange(0, k));
        lemma_digits_none_extends(d, radix, k + 1);
    } else {
        assert(d.subrange(0, k) =~= d);
    }
}

/// ASCII lower case of one character.
pub open spec fn ascii_lower(c: char) -> char {
    if 'A' <= c && c <= 'Z' {
        ((c as int) + 32) as char
    } else {
        c
    }
}

/// ASCII lower case of every character.
pub open spec fn ascii_lowered(s: Seq<char>) -> Seq<char> {
    s.map_values(|c: char| ascii_lower(c))
}

/// Lower-casing ASCII twice is lower-casing it once, keeps ASCII text ASCII, and
/// changes no character's being whitespace.
pub proof fn lemma_ascii_lowered(s: Seq<char>)
    ensures
        ascii_lowered(ascii_lowered(s)) == ascii_lowered(s),
        is_ascii_chars(s) ==> is_ascii_chars(ascii_lowered(s)),
        forall|i: int| 0 <= i < s.len() ==> is_ws(#[trigger] ascii_lowered(s)[i]) == is_ws(s[i]),
{
    assert(ascii_lowered(ascii_lowered(s)) =~= ascii_lowered(s));
}

/// Trimmed text is empty or starts and ends with a character that is not whitespace.
pub proof fn lemma_trim_ends(s: Seq<char>)
    ensures
        trim(s).len() > 0 ==> !is_ws(trim(s)[0]) && !is_ws(trim(s).last()),
{
    lemma_trim_start_head(s);
    lemma_trim_end_prefix(trim_start(s));
}

proof fn lemma_trim_start_head(s: Seq<char>)
    ensures
        trim_start(s).len() > 0 ==> !is_ws(trim_start(s)[0]),
    decreases s.len(),
{
    if s.len() > 0 && is_ws(s[0]) {
        lemma_trim_start_head(s.drop_first());
    }
}

proof fn lemma_trim_end_prefix(s: Seq<char>)
    ensures
        trim_end(s).len() <= s.len(),
        trim_end(s) == s.subrange(0, trim_end(s).len() as int),
        trim_end(s).len() > 0 ==> !is_ws(trim_end(s).last()),
    decreases s.len(),
{
    if s.len() > 0 && is_ws(s.last()) {
        lemma_trim_end_prefix(s.drop_last());
        assert(s.drop_last().subrange(0, trim_end(s).len() as int) =~= s.subrange(0, trim_end(s).len() as int));
    } else {
        assert(s.subrange(0, s.len() as int) =~= s);
    }
}

/// Text with no whitespace at either end is its own trim.
pub proof fn lemma_trim_of_trimmed(s: Seq<char>)
    requires
        s.len() > 0 ==> !is_ws(s[0]) && !is_ws(s.last()),
    ensures
        trim(s) == s,
{
}

/// ASCII upper case of one character.
pub open spec fn ascii_upper(c: char) -> char {
    if 'a' <= c && c <= 'z' {
        ((c as int) - 32) as char
    } else {
        c
    }
}

/// What `str::to_lowercase` returns for a string with these characters.
pub uninterp spec fn str_to_lowercase(s: Seq<char>) -> Seq<char>;

/// What `str::to_uppercase` returns for a string with these characters.
pub uninterp spec fn str_to_uppercase(s: Seq<char>) -> Seq<char>;

/// `str::to_lowercase` of a string: the ASCII mapping for ASCII text (only
/// `A`-`Z` change), else the named result.
pub open spec fn case_lower(s: Seq<char>) -> Seq<char> {
    if is_ascii_chars(s) {
        ascii_lowered(s)
    } else {
        str_to_lowercase(s)
    }
}

/// `str::to_uppercase` of a string: the ASCII mapping for ASCII text (only
/// `a`-`z` change), else the named result.
pub open spec fn case_upper(s: Seq<char>) -> Seq<char> {
    if is_ascii_chars(s) {
        s.map_values(|c: char| ascii_upper(c))
    } else {
        str_to_uppercase(s)
    }
}

/// `str::to_lowercase` (full Unicode case mapping). The result is named, since the
/// Unicode tables take pages; for an all-ASCII input the contract also states the
/// ASCII mapping that the std documentation describes (only `A`-`Z` change).
#[verifier::external_body]
pub(crate) fn to_lowercase_chars(v: &[char]) -> (r: Vec<char>)
    ensures
        r@ == str_to_lowercase(v@),
        is_ascii_chars(v@) ==> r@ == v@.map_values(|c: char| ascii_lower(c)),
{
    let s: String = v.iter().collect();
    s.to_lowercase().chars().collect()
}

/// `str::to_uppercase` (full Unicode case mapping); named like `to_lowercase_chars`,
/// with the ASCII mapping (only `a`-`z` change) stated for all-ASCII input.
#[verifier::external_body]
pub(crate) fn to_uppercase_chars(v: &[char]) -> (r: Vec<char>)
    ensures
        r@ == str_to_uppercase(v@),
        is_ascii_chars(v@) ==> r@ == v@.map_values(|c: char| ascii_upper(c)),
{
    let s: String = v.iter().collect();
    s.to_uppercase().chars().collect()
}

/// What `String::from_utf8_lossy` decodes from these bytes.
pub uninterp spec fn utf8_lossy(b: Seq<u8>) -> Seq<char>;

/// `String::from_utf8_lossy`: the characters decoded from `b`, each ill-formed
/// sequence replaced by U+FFFD. The result is named; for valid UTF-8 input it is the
/// plain decoding, as the std documentation states.
#[verifier::external_body]
pub(crate) fn utf8_lossy_chars(b: &[u8]) -> (r: Vec<char>)
    ensures
        r@ == utf8_lossy(b@),
        valid_utf8(b@) ==> r@ == decode_utf8(b@),
{
    String::from_utf8_lossy(b).chars().collect()
}

/// `std::str::from_utf8`: the characters of `b` where the bytes are valid
/// UTF-8, else nothing (as the std documentation states).
#[verifier::external_body]
pub(crate) fn utf8_chars(b: &[u8]) -> (r: Option<Vec<char>>)
    ensures
        r.is_some() == valid_utf8(b@),
        r matches Some(v) ==> v@ == decode_utf8(b@),
{
    std::str::from_utf8(b).ok().map(|s| s.chars().collect())
}

/// Appends the characters of `v` to `s`.
pub fn push_chars(s: &mut String, v: &[char])
    ensures
        final(s)@ == old(s)@ + v@,
{
    let mut i: usize = 0;
    let n = v.len();
    while i < n
        invariant
            i <= n,
            n == v@.len(),
            s@ == old(s)@ + v@.subrange(0, i as int),
        decreases n - i,
    {
        push_char(s, v[i]);
        i = i + 1;
        assert(s@ =~= old(s)@ + v@.subrange(0, i as int));
    }
    assert(v@.subrange(0, n as int) =~= v@);
}

/// Appends the decimal representation of `n` to `s`.
pub fn push_decimal(s: &mut String, n: u64)
    ensures
        final(s)@ == old(s)@ + decimal(n as nat),
{
    let d = decimal_chars(n);
    push_chars(s, &d);
}

} // verus!
