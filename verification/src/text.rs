//! Character-level text utilities over the `Seq<char>` view of strings.
//!
//! Everything the rest of the library says about text is stated over these
//! spec functions: substring search, prefixes and suffixes, Unicode
//! whitespace trimming, splitting at a separator, and decimal rendering.
use vstd::prelude::*;

verus! {

// ---------------------------------------------------------------------------
// Specifications
// ---------------------------------------------------------------------------

/// `p` occurs in `s` starting at position `i`.
pub open spec fn occurs_at(s: Seq<char>, p: Seq<char>, i: int) -> bool {
    0 <= i && i + p.len() <= s.len() && s.subrange(i, i + p.len()) == p
}

/// `p` occurs somewhere in `s` (the empty pattern occurs everywhere).
pub open spec fn has_sub(s: Seq<char>, p: Seq<char>) -> bool {
    exists|i: int| occurs_at(s, p, i)
}

/// `s` begins with `p`.
pub open spec fn starts_with(s: Seq<char>, p: Seq<char>) -> bool {
    p.len() <= s.len() && s.subrange(0, p.len() as int) == p
}

/// `s` ends with `p`.
pub open spec fn ends_with(s: Seq<char>, p: Seq<char>) -> bool {
    p.len() <= s.len() && s.subrange(s.len() - p.len(), s.len() as int) == p
}

/// Unicode `White_Space`, the set that `char::is_whitespace` tests.
pub open spec fn is_white(c: char) -> bool {
    let v = c as u32;
    ||| (0x09 <= v && v <= 0x0d)
    ||| v == 0x20
    ||| v == 0x85
    ||| v == 0xa0
    ||| v == 0x1680
    ||| (0x2000 <= v && v <= 0x200a)
    ||| v == 0x2028
    ||| v == 0x2029
    ||| v == 0x202f
    ||| v == 0x205f
    ||| v == 0x3000
}

/// `s` without its leading whitespace.
pub open spec fn trim_start(s: Seq<char>) -> Seq<char>
    decreases s.len(),
{
    if s.len() > 0 && is_white(s[0]) {
        trim_start(s.drop_first())
    } else {
        s
    }
}

/// `s` without its trailing whitespace.
pub open spec fn trim_end(s: Seq<char>) -> Seq<char>
    decreases s.len(),
{
    if s.len() > 0 && is_white(s.last()) {
        trim_end(s.drop_last())
    } else {
        s
    }
}

/// `s` without leading or trailing whitespace (`str::trim`).
pub open spec fn trim(s: Seq<char>) -> Seq<char> {
    trim_end(trim_start(s))
}

/// The pieces of `s` between occurrences of `sep`, in order. There is always
/// at least one piece; a trailing separator yields a trailing empty piece.
pub open spec fn split_on(s: Seq<char>, sep: char) -> Seq<Seq<char>>
    decreases s.len(),
{
    if s.len() == 0 {
        seq![Seq::<char>::empty()]
    } else {
        let pre = split_on(s.drop_last(), sep);
        if s.last() == sep {
            pre.push(Seq::<char>::empty())
        } else {
            pre.update(pre.len() - 1, pre.last().push(s.last()))
        }
    }
}

/// The character for a decimal digit.
pub open spec fn digit_char(d: nat) -> char {
    (48 + d) as char
}

/// The decimal rendering of `n`, without leading zeros.
pub open spec fn decimal(n: nat) -> Seq<char>
    decreases n,
{
    if n < 10 {
        seq![digit_char(n)]
    } else {
        decimal(n / 10).push(digit_char(n % 10))
    }
}

/// The decimal rendering of `n`, left-padded with zeros to at least `width`
/// characters (`format!("{:0width$}", n)`).
pub open spec fn zero_padded(n: nat, width: nat) -> Seq<char> {
    let d = decimal(n);
    if d.len() >= width {
        d
    } else {
        Seq::new((width - d.len()) as nat, |i: int| '0') + d
    }
}

// ---------------------------------------------------------------------------
// Lemmas
// ---------------------------------------------------------------------------

/// Every piece of `split_on(s, sep)` is free of `sep`, and the pieces are
/// never empty as a list.
pub proof fn lemma_split_nonempty(s: Seq<char>, sep: char)
    ensures
        split_on(s, sep).len() >= 1,
    decreases s.len(),
{
    if s.len() > 0 {
        lemma_split_nonempty(s.drop_last(), sep);
    }
}

proof fn lemma_decimal_len(n: nat)
    ensures
        1 <= decimal(n).len(),
    decreases n,
{
    if n >= 10 {
        lemma_decimal_len(n / 10);
    }
}

// ---------------------------------------------------------------------------
// Executable helpers
// ---------------------------------------------------------------------------

/// Append one character to a `String` (`String::push`). The contract claims
/// what the standard library documents: the text afterwards is the text
/// before with `c` at its end.
#[verifier::external_body]
pub(crate) fn push_char(s: &mut String, c: char)
    ensures
        final(s)@ == old(s)@.push(c),
{
    s.push(c);
}

/// `s` without its trailing white space (`str::trim_end`).
pub fn trim_end_str(s: &str) -> (t: String)
    ensures
        t@ == trim_end(s@),
{
    let v = chars_of(s);
    let mut n = v.len();
    assert(v@.take(n as int) =~= v@);
    while n > 0 && is_white_char(v[n - 1])
        invariant
            n <= v@.len(),
            trim_end(v@.take(n as int)) == trim_end(v@),
        decreases n,
    {
        assert(v@.take(n as int).drop_last() =~= v@.take(n - 1));
        n = n - 1;
    }
    proof {
        let t = v@.take(n as int);
        if t.len() > 0 {
            assert(t.last() == v@[n - 1]);
        }
    }
    assert(v@.subrange(0, n as int) =~= v@.take(n as int));
    string_of_range(&v, 0, n)
}

/// The characters of a string slice, in order.
pub fn chars_of(s: &str) -> (v: Vec<char>)
    ensures
        v@ == s@,
{
    let mut v: Vec<char> = Vec::new();
    for c in it: s.chars()
        invariant
            v@ == it.seq().take(it.index() as int),
    {
        v.push(c);
    }
    v
}

/// A `String` holding `v[from..to]`.
pub fn string_of_range(v: &Vec<char>, from: usize, to: usize) -> (s: String)
    requires
        from <= to <= v@.len(),
    ensures
        s@ == v@.subrange(from as int, to as int),
{
    let mut s = String::new();
    let mut i = from;
    while i < to
        invariant
            from <= i <= to <= v@.len(),
            s@ == v@.subrange(from as int, i as int),
        decreases to - i,
    {
        push_char(&mut s, v[i]);
        assert(v@.subrange(from as int, i + 1) =~= v@.subrange(from as int, i as int).push(v@[i as int]));
        i = i + 1;
    }
    s
}

/// A `String` holding all of `v`.
pub fn string_of(v: &Vec<char>) -> (s: String)
    ensures
        s@ == v@,
{
    let s = string_of_range(v, 0, v.len());
    assert(v@.subrange(0, v@.len() as int) =~= v@);
    s
}

/// Appends the characters of `t` to `s`.
pub fn push_str(s: &mut String, t: &str)
    ensures
        final(s)@ == old(s)@ + t@,
{
    s.append(t);
}

/// Appends the decimal rendering of `n` to `s`.
pub fn push_decimal(s: &mut String, n: u64)
    ensures
        final(s)@ == old(s)@ + decimal(n as nat),
    decreases n,
{
    if n >= 10 {
        push_decimal(s, n / 10);
    }
    let d = n % 10;
    let c = digit(d);
    let ghost before = s@;
    push_char(s, c);
    proof {
        if n >= 10 {
            assert(decimal(n as nat) == decimal((n / 10) as nat).push(digit_char((n % 10) as nat)));
        } else {
            assert(n % 10 == n);
        }
    }
    assert(s@ =~= old(s)@ + decimal(n as nat));
}

/// The character for a digit below ten.
fn digit(d: u64) -> (c: char)
    requires
        d < 10,
    ensures
        c == digit_char(d as nat),
{
    if d == 0 {
        '0'
    } else if d == 1 {
        '1'
    } else if d == 2 {
        '2'
    } else if d == 3 {
        '3'
    } else if d == 4 {
        '4'
    } else if d == 5 {
        '5'
    } else if d == 6 {
        '6'
    } else if d == 7 {
        '7'
    } else if d == 8 {
        '8'
    } else {
        '9'
    }
}

/// The decimal rendering of `n`.
pub fn decimal_string(n: u64) -> (s: String)
    ensures
        s@ == decimal(n as nat),
{
    let mut s = String::new();
    push_decimal(&mut s, n);
    assert(s@ =~= decimal(n as nat));
    s
}

/// Appends `n` in decimal, zero-padded to at least `width` digits.
pub fn push_zero_padded(s: &mut String, n: u64, width: usize)
    ensures
        final(s)@ == old(s)@ + zero_padded(n as nat, width as nat),
{
    let digits = decimal_string(n);
    let dv = chars_of(digits.as_str());
    proof {
        lemma_decimal_len(n as nat);
    }
    if dv.len() < width {
        let pad = width - dv.len();
        let mut k: usize = 0;
        while k < pad
            invariant
                k <= pad,
                pad == width - dv@.len(),
                s@ == old(s)@ + Seq::new(k as nat, |i: int| '0'),
            decreases pad - k,
        {
            let ghost before = s@;
            push_char(s, '0');
            assert(Seq::new((k + 1) as nat, |i: int| '0') =~= Seq::new(k as nat, |i: int| '0').push('0'));
            assert(s@ =~= old(s)@ + Seq::new((k + 1) as nat, |i: int| '0'));
            k = k + 1;
        }
    }
    let ghost mid = s@;
    s.append(digits.as_str());
    assert(s@ =~= old(s)@ + zero_padded(n as nat, width as nat));
}

/// Whether `c` is Unicode whitespace (`char::is_whitespace`).
pub fn is_white_char(c: char) -> (b: bool)
    ensures
        b == is_white(c),
{
    let v = c as u32;
    (0x09 <= v && v <= 0x0d) || v == 0x20 || v == 0x85 || v == 0xa0 || v == 0x1680 || (0x2000
        <= v && v <= 0x200a) || v == 0x2028 || v == 0x2029 || v == 0x202f || v == 0x205f || v
        == 0x3000
}

/// The bounds of `v[from..to]` once leading and trailing whitespace is removed.
pub fn trim_range(v: &Vec<char>, from: usize, to: usize) -> (r: (usize, usize))
    requires
        from <= to <= v@.len(),
    ensures
        from <= r.0 <= r.1 <= to,
        v@.subrange(r.0 as int, r.1 as int) == trim(v@.subrange(from as int, to as int)),
{
    let ghost w = v@.subrange(from as int, to as int);
    let mut a = from;
    while a < to && is_white_char(v[a])
        invariant
            from <= a <= to <= v@.len(),
            w == v@.subrange(from as int, to as int),
            trim_start(w) == trim_start(v@.subrange(a as int, to as int)),
        decreases to - a,
    {
        proof {
            let u = v@.subrange(a as int, to as int);
            assert(u[0] == v@[a as int]);
            assert(u.drop_first() =~= v@.subrange(a + 1, to as int));
        }
        a = a + 1;
    }
    proof {
        let u = v@.subrange(a as int, to as int);
        if u.len() > 0 {
            assert(u[0] == v@[a as int]);
        }
        assert(trim_start(u) == u);
    }
    let mut b = to;
    while b > a && is_white_char(v[b - 1])
        invariant
            from <= a <= b <= to <= v@.len(),
            w == v@.subrange(from as int, to as int),
            trim_start(w) == v@.subrange(a as int, to as int),
            trim(w) == trim_end(v@.subrange(a as int, b as int)),
        decreases b - a,
    {
        proof {
            let u = v@.subrange(a as int, b as int);
            assert(u.last() == v@[b - 1]);
            assert(u.drop_last() =~= v@.subrange(a as int, b - 1));
        }
        b = b - 1;
    }
    proof {
        let u = v@.subrange(a as int, b as int);
        if u.len() > 0 {
            assert(u.last() == v@[b - 1]);
        }
        assert(trim_end(u) == u);
    }
    (a, b)
}

/// Whether `p` occurs in `s` at position `i`.
pub fn matches_at(s: &Vec<char>, p: &Vec<char>, i: usize) -> (b: bool)
    ensures
        b == occurs_at(s@, p@, i as int),
{
    if i > s.len() || p.len() > s.len() - i {
        return false;
    }
    let mut k: usize = 0;
    while k < p.len()
        invariant
            i + p@.len() <= s@.len(),
            s@.len() <= usize::MAX,
            k <= p@.len(),
            forall|j: int| 0 <= j < k ==> s@[i + j] == p@[j],
        decreases p.len() - k,
    {
        if s[i + k] != p[k] {
            assert(s@.subrange(i as int, i + p@.len())[k as int] != p@[k as int]);
            return false;
        }
        k = k + 1;
    }
    assert(s@.subrange(i as int, i + p@.len()) =~= p@);
    true
}

/// Whether `p` occurs anywhere in `s`.
pub fn contains_seq(s: &Vec<char>, p: &Vec<char>) -> (b: bool)
    ensures
        b == has_sub(s@, p@),
{
    if p.len() > s.len() {
        assert forall|i: int| !occurs_at(s@, p@, i) by {}
        return false;
    }
    let last = s.len() - p.len();
    let mut i: usize = 0;
    loop
        invariant
            last == s@.len() - p@.len(),
            p@.len() <= s@.len(),
            i <= last,
            forall|j: int| 0 <= j < i ==> !occurs_at(s@, p@, j),
        ensures
            forall|j: int| 0 <= j <= last ==> !occurs_at(s@, p@, j),
        decreases last - i,
    {
        if matches_at(s, p, i) {
            return true;
        }
        if i == last {
            break;
        }
        i = i + 1;
    }
    assert forall|j: int| !occurs_at(s@, p@, j) by {
        if 0 <= j <= last {
        }
    }
    false
}

/// Whether the string `s` contains the string `p`.
pub fn str_contains(s: &str, p: &str) -> (b: bool)
    ensures
        b == has_sub(s@, p@),
{
    let sv = chars_of(s);
    let pv = chars_of(p);
    contains_seq(&sv, &pv)
}

/// Whether `s` begins with `p`.
pub fn starts_with_seq(s: &Vec<char>, p: &Vec<char>) -> (b: bool)
    ensures
        b == starts_with(s@, p@),
{
    let b = matches_at(s, p, 0);
    proof {
        if b {
            assert(starts_with(s@, p@));
        }
        if starts_with(s@, p@) {
            assert(occurs_at(s@, p@, 0));
        }
    }
    b
}

/// Whether `s` ends with `p`.
pub fn ends_with_seq(s: &Vec<char>, p: &Vec<char>) -> (b: bool)
    ensures
        b == ends_with(s@, p@),
{
    if p.len() > s.len() {
        return false;
    }
    matches_at(s, p, s.len() - p.len())
}

/// Whether the string `s` ends with the string `p`.
pub fn str_ends_with(s: &str, p: &str) -> (b: bool)
    ensures
        b == ends_with(s@, p@),
{
    let sv = chars_of(s);
    let pv = chars_of(p);
    ends_with_seq(&sv, &pv)
}

/// Whether the string `s` begins with the string `p`.
pub fn str_starts_with(s: &str, p: &str) -> (b: bool)
    ensures
        b == starts_with(s@, p@),
{
    let sv = chars_of(s);
    let pv = chars_of(p);
    starts_with_seq(&sv, &pv)
}


/// The positions at which `c` occurs in `s`, in increasing order.
pub open spec fn positions_of(s: Seq<char>, c: char) -> Seq<int>
    decreases s.len(),
{
    if s.len() == 0 {
        Seq::<int>::empty()
    } else {
        let pre = positions_of(s.drop_last(), c);
        if s.last() == c {
            pre.push(s.len() - 1)
        } else {
            pre
        }
    }
}

/// `s` with every leading repetition of `p` removed (`str::trim_start_matches`).
pub open spec fn strip_repeated(s: Seq<char>, p: Seq<char>) -> Seq<char>
    decreases s.len(),
{
    if p.len() > 0 && starts_with(s, p) {
        strip_repeated(s.skip(p.len() as int), p)
    } else {
        s
    }
}

/// The positions of `c` lie inside `s`, increase strictly, and are exactly
/// the places where `c` occurs.
pub proof fn lemma_positions_of(s: Seq<char>, c: char)
    ensures
        forall|k: int| 0 <= k < positions_of(s, c).len() ==> 0 <= #[trigger] positions_of(s, c)[k] < s.len()
            && s[positions_of(s, c)[k]] == c,
        forall|k: int, l: int| 0 <= k < l < positions_of(s, c).len() ==> #[trigger] positions_of(s, c)[k] < #[trigger] positions_of(s, c)[l],
        forall|j: int| 0 <= j < s.len() && s[j] == c ==> exists|k: int| 0 <= k < positions_of(s, c).len() && #[trigger] positions_of(s, c)[k] == j,
    decreases s.len(),
{
    if s.len() > 0 {
        let t = s.drop_last();
        lemma_positions_of(t, c);
        let pre = positions_of(t, c);
        assert forall|j: int| 0 <= j < s.len() && s[j] == c implies exists|k: int| 0 <= k < positions_of(s, c).len() && #[trigger] positions_of(s, c)[k] == j by {
            if j < s.len() - 1 {
                assert(t[j] == c);
                let k = choose|k: int| 0 <= k < pre.len() && #[trigger] pre[k] == j;
                assert(positions_of(s, c)[k] == j);
            } else {
                assert(positions_of(s, c)[pre.len() as int] == j);
            }
        }
    }
}

/// Collects the positions of `c` in `v`.
pub fn positions_in(v: &Vec<char>, c: char) -> (r: Vec<usize>)
    ensures
        r@.len() == positions_of(v@, c).len(),
        forall|k: int| 0 <= k < r@.len() ==> r@[k] as int == positions_of(v@, c)[k],
{
    let mut r: Vec<usize> = Vec::new();
    let mut i: usize = 0;
    assert(v@.take(0) =~= Seq::<char>::empty());
    while i < v.len()
        invariant
            i <= v@.len(),
            r@.len() == positions_of(v@.take(i as int), c).len(),
            forall|k: int| 0 <= k < r@.len() ==> r@[k] as int == positions_of(v@.take(i as int), c)[k],
        decreases v.len() - i,
    {
        let ghost pre = v@.take(i as int);
        assert(v@.take(i + 1).drop_last() =~= pre);
        if v[i] == c {
            r.push(i);
        }
        i = i + 1;
    }
    assert(v@.take(v@.len() as int) =~= v@);
    r
}

/// The position in `v` just past every leading repetition of `p`.
pub fn skip_repeated(v: &Vec<char>, p: &Vec<char>) -> (k: usize)
    ensures
        k <= v@.len(),
        v@.skip(k as int) == strip_repeated(v@, p@),
{
    let mut k: usize = 0;
    assert(v@.skip(0) =~= v@);
    if p.len() == 0 {
        return 0;
    }
    while k <= v.len() && p.len() <= v.len() - k && matches_at(v, p, k)
        invariant
            k <= v@.len(),
            p@.len() > 0,
            strip_repeated(v@.skip(k as int), p@) == strip_repeated(v@, p@),
        decreases v@.len() - k,
    {
        let ghost t = v@.skip(k as int);
        assert(t.subrange(0, p@.len() as int) =~= v@.subrange(k as int, k + p@.len()));
        assert(t.skip(p@.len() as int) =~= v@.skip(k + p@.len()));
        k = k + p.len();
    }
    proof {
        let t = v@.skip(k as int);
        if starts_with(t, p@) {
            assert(t.subrange(0, p@.len() as int) =~= v@.subrange(k as int, k + p@.len()));
            assert(occurs_at(v@, p@, k as int));
        }
    }
    k
}


/// The positions of `c` in a concatenation: those in `a`, then those in `b`
/// moved past `a`.
pub proof fn lemma_positions_concat(a: Seq<char>, b: Seq<char>, c: char)
    ensures
        positions_of(a + b, c) == positions_of(a, c) + positions_of(b, c).map_values(
            |x: int| x + a.len(),
        ),
    decreases b.len(),
{
    if b.len() == 0 {
        assert(a + b =~= a);
        assert(positions_of(a, c) + positions_of(b, c).map_values(|x: int| x + a.len()) =~= positions_of(a, c));
    } else {
        let b1 = b.drop_last();
        lemma_positions_concat(a, b1, c);
        assert((a + b).drop_last() =~= a + b1);
        assert((a + b).last() == b.last());
        if b.last() == c {
            assert(positions_of(b, c) == positions_of(b1, c).push(b.len() - 1));
            assert(positions_of(a + b, c) == positions_of(a + b1, c).push(a.len() + b.len() - 1));
            assert(positions_of(a, c) + positions_of(b, c).map_values(|x: int| x + a.len()) =~= (
            positions_of(a, c) + positions_of(b1, c).map_values(|x: int| x + a.len())).push(
                a.len() + b.len() - 1,
            ));
        } else {
            assert(positions_of(b, c) == positions_of(b1, c));
            assert(positions_of(a + b, c) == positions_of(a + b1, c));
        }
    }
}

/// A sequence without `c` has no positions of it.
pub proof fn lemma_positions_absent(s: Seq<char>, c: char)
    requires
        !s.contains(c),
    ensures
        positions_of(s, c) == Seq::<int>::empty(),
    decreases s.len(),
{
    if s.len() > 0 {
        assert(s.drop_last().contains(c) ==> s.contains(c)) by {
            if s.drop_last().contains(c) {
                let k = choose|k: int| 0 <= k < s.drop_last().len() && s.drop_last()[k] == c;
                assert(s[k] == c);
            }
        }
        assert(s[s.len() - 1] != c);
        lemma_positions_absent(s.drop_last(), c);
    }
}

/// The positions of `c` in the one-character sequence `[c]`.
pub proof fn lemma_positions_single(c: char)
    ensures
        positions_of(seq![c], c) == seq![0int],
{
    assert(seq![c].drop_last() =~= Seq::<char>::empty());
    assert(positions_of(Seq::<char>::empty(), c) == Seq::<int>::empty());
    assert(Seq::<int>::empty().push(0int) =~= seq![0int]);
}


/// A sequence without `sep` splits into itself alone.
pub proof fn lemma_split_without_sep(s: Seq<char>, sep: char)
    requires
        !s.contains(sep),
    ensures
        split_on(s, sep) == seq![s],
    decreases s.len(),
{
    if s.len() > 0 {
        let t = s.drop_last();
        assert(!t.contains(sep)) by {
            if t.contains(sep) {
                let k = choose|k: int| 0 <= k < t.len() && t[k] == sep;
                assert(s[k] == sep);
            }
        }
        lemma_split_without_sep(t, sep);
        assert(s.last() != sep) by {
            assert(s[s.len() - 1] == s.last());
        }
        assert(t.push(s.last()) =~= s);
        assert(seq![t].update(0, t.push(s.last())) =~= seq![s]);
    } else {
        assert(s =~= Seq::<char>::empty());
    }
}

/// Splitting `a + [sep] + b`, where `b` has no `sep`: the pieces of `a`,
/// then `b`.
pub proof fn lemma_split_then_piece(a: Seq<char>, b: Seq<char>, sep: char)
    requires
        !b.contains(sep),
    ensures
        split_on(a.push(sep) + b, sep) == split_on(a, sep).push(b),
    decreases b.len(),
{
    if b.len() == 0 {
        assert(a.push(sep) + b =~= a.push(sep));
        assert(a.push(sep).drop_last() =~= a);
        assert(b =~= Seq::<char>::empty());
        assert(split_on(a.push(sep), sep) == split_on(a, sep).push(Seq::<char>::empty()));
    } else {
        let b1 = b.drop_last();
        assert(!b1.contains(sep)) by {
            if b1.contains(sep) {
                let k = choose|k: int| 0 <= k < b1.len() && b1[k] == sep;
                assert(b[k] == sep);
            }
        }
        lemma_split_then_piece(a, b1, sep);
        let s = a.push(sep) + b;
        assert(s.drop_last() =~= a.push(sep) + b1);
        assert(s.last() == b.last());
        assert(b.last() != sep) by {
            assert(b[b.len() - 1] == b.last());
        }
        assert(b1.push(b.last()) =~= b);
        let pre = split_on(a, sep).push(b1);
        assert(split_on(s.drop_last(), sep) == pre);
        assert(split_on(s, sep) == pre.update(pre.len() - 1, pre.last().push(s.last())));
        assert(pre.update(pre.len() - 1, pre.last().push(b.last())) =~= split_on(a, sep).push(b));
    }
}

/// No whitespace at either end.
pub open spec fn is_trimmed(x: Seq<char>) -> bool {
    x.len() == 0 || (!is_white(x[0]) && !is_white(x.last()))
}

/// A line made of a label without whitespace, one space and a trimmed value
/// trims to a line that starts with the label, and the text after the label
/// trims to the value.
pub proof fn lemma_labelled_line(label: Seq<char>, x: Seq<char>)
    requires
        label.len() > 0,
        forall|i: int| 0 <= i < label.len() ==> !is_white(#[trigger] label[i]),
        is_trimmed(x),
    ensures
        starts_with(trim(label + seq![' '] + x), label),
        trim(trim(label + seq![' '] + x).skip(label.len() as int)) == x,
{
    let line = label + seq![' '] + x;
    assert(line[0] == label[0]);
    assert(trim_start(line) == line);
    assert(is_white(' '));
    if x.len() > 0 {
        assert(line.last() == x.last());
        assert(trim_end(line) == line);
        assert(line.subrange(0, label.len() as int) =~= label);
        let rest = line.skip(label.len() as int);
        assert(rest =~= seq![' '] + x);
        assert(rest.drop_first() =~= x);
        assert(trim_start(rest) == trim_start(x));
        assert(x[0] == x[0]);
        assert(trim_start(x) == x);
        assert(trim_end(x) == x);
    } else {
        assert(line =~= label.push(' '));
        assert(line.drop_last() =~= label);
        assert(label.last() == label[label.len() - 1]);
        assert(trim_end(label) == label);
        assert(trim_end(line) == label);
        assert(trim_start(label) == label) by {
            assert(label[0] == label[0]);
        }
        assert(label.subrange(0, label.len() as int) =~= label);
        assert(label.skip(label.len() as int) =~= x);
        assert(trim_start(x) == x);
        assert(trim_end(x) == x);
    }
}

/// Whether two strings hold the same characters.
pub fn str_eq(a: &str, b: &str) -> (r: bool)
    ensures
        r == (a@ == b@),
{
    let av = chars_of(a);
    let bv = chars_of(b);
    if av.len() != bv.len() {
        return false;
    }
    let mut i: usize = 0;
    while i < av.len()
        invariant
            av@ == a@,
            bv@ == b@,
            av@.len() == bv@.len(),
            i <= av@.len(),
            forall|j: int| 0 <= j < i ==> av@[j] == bv@[j],
        decreases av.len() - i,
    {
        if av[i] != bv[i] {
            assert(av@[i as int] != bv@[i as int]);
            return false;
        }
        i = i + 1;
    }
    assert(av@ =~= bv@);
    true
}

} // verus!
