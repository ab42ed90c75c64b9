//! Character-level helpers over `str` and `String`, specified on `Seq<char>`.

use vstd::prelude::*;

verus! {

/// The Unicode `White_Space` property, the set that `str::trim` removes.
pub open spec fn is_white_space(c: char) -> bool {
    let n = c as u32;
    ||| 0x9 <= n <= 0xd
    ||| n == 0x20
    ||| n == 0x85
    ||| n == 0xa0
    ||| n == 0x1680
    ||| 0x2000 <= n <= 0x200a
    ||| n == 0x2028
    ||| n == 0x2029
    ||| n == 0x202f
    ||| n == 0x205f
    ||| n == 0x3000
}

/// Exec test of [`is_white_space`].
pub fn white_space(c: char) -> (b: bool)
    ensures
        b == is_white_space(c),
{
    let n = c as u32;
    (0x9 <= n && n <= 0xd) || n == 0x20 || n == 0x85 || n == 0xa0 || n == 0x1680 || (0x2000
        <= n && n <= 0x200a) || n == 0x2028 || n == 0x2029 || n == 0x202f || n == 0x205f || n
        == 0x3000
}

/// `s` without its leading white space.
pub open spec fn trim_start(s: Seq<char>) -> Seq<char>
    decreases s.len(),
{
    if s.len() > 0 && is_white_space(s[0]) {
        trim_start(s.drop_first())
    } else {
        s
    }
}

/// `s` without its trailing white space.
pub open spec fn trim_end(s: Seq<char>) -> Seq<char>
    decreases s.len(),
{
    if s.len() > 0 && is_white_space(s.last()) {
        trim_end(s.drop_last())
    } else {
        s
    }
}

/// `s` without leading and trailing white space, as `str::trim` gives it.
pub open spec fn trimmed(s: Seq<char>) -> Seq<char> {
    trim_end(trim_start(s))
}

/// Every character of `s` is white space.
pub open spec fn all_white_space(s: Seq<char>) -> bool {
    forall|i: int| 0 <= i < s.len() ==> is_white_space(#[trigger] s[i])
}

/// Leading white space is dropped whatever follows it.
pub proof fn lemma_trim_start_skips(a: Seq<char>, s: Seq<char>)
    requires
        all_white_space(a),
    ensures
        trim_start(a + s) == trim_start(s),
    decreases a.len(),
{
    if a.len() > 0 {
        assert(is_white_space((a + s)[0]));
        assert((a + s).drop_first() =~= a.drop_first() + s);
        lemma_trim_start_skips(a.drop_first(), s);
    } else {
        assert(a + s =~= s);
    }
}

/// Trailing white space is dropped whatever precedes it.
pub proof fn lemma_trim_end_skips(s: Seq<char>, b: Seq<char>)
    requires
        all_white_space(b),
    ensures
        trim_end(s + b) == trim_end(s),
    decreases b.len(),
{
    if b.len() > 0 {
        assert(is_white_space((s + b).last()));
        assert((s + b).drop_last() =~= s + b.drop_last());
        lemma_trim_end_skips(s, b.drop_last());
    } else {
        assert(s + b =~= s);
    }
}

/// Dropping leading white space from `s + b`: the text that remains of `s`,
/// followed by `b`, unless nothing remains of `s`.
pub proof fn lemma_trim_start_append(s: Seq<char>, b: Seq<char>)
    ensures
        trim_start(s).len() > 0 ==> trim_start(s + b) == trim_start(s) + b,
        trim_start(s).len() == 0 ==> trim_start(s + b) == trim_start(b),
    decreases s.len(),
{
    if s.len() == 0 {
        assert(s + b =~= b);
    } else {
        assert((s + b)[0] == s[0]);
        if is_white_space(s[0]) {
            assert((s + b).drop_first() =~= s.drop_first() + b);
            lemma_trim_start_append(s.drop_first(), b);
        }
    }
}

/// What `trim_start` leaves is empty or starts with a character that is not
/// white space.
pub proof fn lemma_trim_start_shape(s: Seq<char>)
    ensures
        trim_start(s).len() > 0 ==> !is_white_space(trim_start(s)[0]),
    decreases s.len(),
{
    if s.len() > 0 && is_white_space(s[0]) {
        lemma_trim_start_shape(s.drop_first());
    }
}

/// What `trim_end` leaves is a prefix of its argument that is empty or ends
/// with a character that is not white space.
pub proof fn lemma_trim_end_shape(s: Seq<char>)
    ensures
        trim_end(s).len() <= s.len(),
        trim_end(s) == s.subrange(0, trim_end(s).len() as int),
        trim_end(s).len() > 0 ==> !is_white_space(trim_end(s).last()),
    decreases s.len(),
{
    if s.len() > 0 && is_white_space(s.last()) {
        lemma_trim_end_shape(s.drop_last());
        assert(trim_end(s) =~= s.subrange(0, trim_end(s).len() as int));
    } else {
        assert(s.subrange(0, s.len() as int) =~= s);
    }
}

/// White space around a text does not change its trimmed form, and trimming
/// twice is trimming once.
pub proof fn lemma_trimmed_ignores_white_space(a: Seq<char>, l: Seq<char>, b: Seq<char>)
    requires
        all_white_space(a),
        all_white_space(b),
    ensures
        trimmed(a + l + b) == trimmed(l),
        trimmed(trimmed(l)) == trimmed(l),
{
    assert(a + l + b =~= a + (l + b));
    lemma_trim_start_skips(a, l + b);
    lemma_trim_start_append(l, b);
    if trim_start(l).len() > 0 {
        lemma_trim_end_skips(trim_start(l), b);
    } else {
        lemma_trim_start_skips(b, Seq::empty());
        assert(b + Seq::<char>::empty() =~= b);
        assert(trim_start(l) =~= Seq::<char>::empty());
    }
    let t = trim_start(l);
    let e = trim_end(t);
    lemma_trim_start_shape(l);
    lemma_trim_end_shape(t);
    if e.len() > 0 {
        assert(e[0] == t[0]);
    }
}

/// `p` is a prefix of `s`.
pub open spec fn has_prefix(s: Seq<char>, p: Seq<char>) -> bool {
    p.len() <= s.len() && s.subrange(0, p.len() as int) == p
}

/// The characters of `s`, in order.
pub fn chars_of(s: &str) -> (v: Vec<char>)
    ensures
        v@ == s@,
{
    broadcast use vstd::string::group_string_axioms;

    let mut v: Vec<char> = Vec::new();
    for c in it: s.chars()
        invariant
            v@ == it.seq().take(it.index() as int),
    {
        v.push(c);
    }
    v
}


/// Index of the first character of `s[from..to]` that is not white space
/// (or `to` when there is none).
fn skip_white_start(s: &Vec<char>, from: usize, to: usize) -> (i: usize)
    requires
        from <= to <= s@.len(),
    ensures
        from <= i <= to,
        trim_start(s@.subrange(from as int, to as int)) == s@.subrange(i as int, to as int),
    decreases to - from,
{
    if from < to && white_space(s[from]) {
        assert(s@.subrange(from as int, to as int).drop_first() =~= s@.subrange(
            from + 1,
            to as int,
        ));
        skip_white_start(s, from + 1, to)
    } else {
        from
    }
}

/// End of `s[from..to]` once trailing white space is dropped.
fn skip_white_end(s: &Vec<char>, from: usize, to: usize) -> (j: usize)
    requires
        from <= to <= s@.len(),
    ensures
        from <= j <= to,
        trim_end(s@.subrange(from as int, to as int)) == s@.subrange(from as int, j as int),
    decreases to - from,
{
    if from < to && white_space(s[to - 1]) {
        assert(s@.subrange(from as int, to as int).drop_last() =~= s@.subrange(
            from as int,
            to - 1,
        ));
        skip_white_end(s, from, to - 1)
    } else {
        to
    }
}

/// Bounds `(i, j)` such that `s[i..j]` is `s[from..to]` trimmed.
pub fn trim_bounds(s: &Vec<char>, from: usize, to: usize) -> (r: (usize, usize))
    requires
        from <= to <= s@.len(),
    ensures
        from <= r.0 <= r.1 <= to,
        trimmed(s@.subrange(from as int, to as int)) == s@.subrange(r.0 as int, r.1 as int),
{
    let i = skip_white_start(s, from, to);
    let j = skip_white_end(s, i, to);
    (i, j)
}

/// `String::push`: appends one character.
#[verifier::external_body]
pub fn push_char(s: &mut String, c: char)
    ensures
        final(s)@ == old(s)@.push(c),
{
    s.push(c);
}

/// Appends `s[from..to]` to `out`.
pub fn push_range(out: &mut String, s: &Vec<char>, from: usize, to: usize)
    requires
        from <= to <= s@.len(),
    ensures
        final(out)@ == old(out)@ + s@.subrange(from as int, to as int),
{
    let mut i = from;
    while i < to
        invariant
            from <= i <= to <= s@.len(),
            out@ == old(out)@ + s@.subrange(from as int, i as int),
        decreases to - i,
    {
        push_char(out, s[i]);
        i = i + 1;
        assert(s@.subrange(from as int, i as int) =~= s@.subrange(from as int, i - 1).push(
            s@[i - 1],
        ));
    }
}

/// A new `String` holding `s[from..to]`.
pub fn string_of_range(s: &Vec<char>, from: usize, to: usize) -> (r: String)
    requires
        from <= to <= s@.len(),
    ensures
        r@ == s@.subrange(from as int, to as int),
{
    let mut r = String::new();
    push_range(&mut r, s, from, to);
    r
}

/// Whether `s[from..to]` starts with `p`.
pub fn range_has_prefix(s: &Vec<char>, from: usize, to: usize, p: &Vec<char>) -> (b: bool)
    requires
        from <= to <= s@.len(),
    ensures
        b == has_prefix(s@.subrange(from as int, to as int), p@),
{
    if p.len() > to - from {
        return false;
    }
    let mut k: usize = 0;
    while k < p.len()
        invariant
            from <= to <= s@.len(),
            p@.len() <= to - from,
            k <= p@.len(),
            forall|m: int| 0 <= m < k ==> s@[from + m] == p@[m],
        decreases p.len() - k,
    {
        if s[from + k] != p[k] {
            assert(s@.subrange(from as int, to as int)[k as int] != p@[k as int]);
            return false;
        }
        k = k + 1;
    }
    assert(s@.subrange(from as int, to as int).subrange(0, p@.len() as int) =~= p@);
    true
}

/// Appends the characters of `t` to `out`.
pub fn push_str(out: &mut String, t: &str)
    ensures
        final(out)@ == old(out)@ + t@,
{
    let cs = chars_of(t);
    push_range(out, &cs, 0, cs.len());
    assert(cs@.subrange(0, cs@.len() as int) =~= cs@);
}


/// The decimal digit character for `d < 10`.
pub open spec fn digit_char(d: nat) -> char {
    (48 + d) as char
}

/// Decimal notation of `n`, as `Display` writes an unsigned integer.
pub open spec fn decimal(n: nat) -> Seq<char>
    decreases n,
{
    if n < 10 {
        seq![digit_char(n)]
    } else {
        decimal(n / 10).push(digit_char(n % 10))
    }
}

/// The number that the decimal digits `s` denote, most significant first
/// (the digit character with code `48 + d` standing for `d`).
pub open spec fn decimal_value(s: Seq<char>) -> int
    decreases s.len(),
{
    if s.len() == 0 {
        0
    } else {
        decimal_value(s.drop_last()) * 10 + (s.last() as int - 48)
    }
}

/// The decimal notation of `n` is a non-empty run of the digits `0` to `9`,
/// with no leading zero unless `n` is zero, and read back in base ten it is
/// `n`.
pub proof fn lemma_decimal_reads_back(n: nat)
    ensures
        decimal(n).len() > 0,
        forall|i: int| 0 <= i < decimal(n).len() ==> '0' <= #[trigger] decimal(n)[i] <= '9',
        decimal(n)[0] != '0' || n == 0,
        decimal_value(decimal(n)) == n,
    decreases n,
{
    if n < 10 {
        assert(decimal(n) == seq![digit_char(n)]);
        assert(decimal(n).drop_last() =~= Seq::<char>::empty());
        assert(digit_char(n) as int == 48 + n);
        assert(decimal_value(Seq::<char>::empty()) == 0);
        assert(decimal_value(decimal(n)) == decimal_value(decimal(n).drop_last()) * 10 + (decimal(n).last() as int - 48));
    } else {
        lemma_decimal_reads_back(n / 10);
        let d = decimal(n);
        let prefix = decimal(n / 10);
        assert(d.drop_last() =~= prefix);
        assert(digit_char(n % 10) as int == 48 + n % 10);
        assert(forall|i: int| 0 <= i < prefix.len() ==> d[i] == prefix[i]);
        assert(decimal_value(d) == decimal_value(prefix) * 10 + (n % 10));
        assert((n / 10) * 10 + n % 10 == n);
    }
}

/// Appends the decimal notation of `n` to `out`.
pub fn push_decimal(out: &mut String, n: usize)
    ensures
        final(out)@ == old(out)@ + decimal(n as nat),
    decreases n,
{
    if n >= 10 {
        push_decimal(out, n / 10);
    }
    let d = (n % 10) as u8;
    let c = (48u8 + d) as char;
    push_char(out, c);
    assert(final(out)@ =~= old(out)@ + decimal(n as nat));
}

/// Whether `a` and `b` hold the same characters.
pub fn same_text(a: &str, b: &str) -> (r: bool)
    ensures
        r == (a@ == b@),
{
    let x = chars_of(a);
    let y = chars_of(b);
    if x.len() != y.len() {
        return false;
    }
    let mut i: usize = 0;
    while i < x.len()
        invariant
            x@ == a@,
            y@ == b@,
            x@.len() == y@.len(),
            i <= x@.len(),
            forall|k: int| 0 <= k < i ==> x@[k] == y@[k],
        decreases x.len() - i,
    {
        if x[i] != y[i] {
            assert(x@[i as int] != y@[i as int]);
            return false;
        }
        i = i + 1;
    }
    assert(x@ =~= y@);
    true
}

} // verus!
