//! Text helpers shared by the compiler stages: decimal rendering of numbers,
//! single-character pushes, and literal-pattern replacement.

use vstd::prelude::*;

verus! {

/// The character of a decimal digit `d` (0 to 9).
pub open spec fn digit_char(d: int) -> char {
    (48 + d) as char
}

/// The decimal rendering of `n`, without sign or leading zeros.
pub open spec fn decimal(n: nat) -> Seq<char>
    decreases n,
{
    if n < 10 {
        seq![digit_char(n as int)]
    } else {
        decimal(n / 10).push(digit_char((n % 10) as int))
    }
}

/// `String::push`: appends one character to the end of the string.
#[verifier::external_body]
pub(crate) fn push_char(s: &mut String, c: char)
    ensures
        final(s)@ == old(s)@.push(c),
{
    s.push(c);
}

/// Appends the decimal rendering of `n` to `s`.
pub fn push_decimal(s: &mut String, n: u64)
    ensures
        final(s)@ == old(s)@ + decimal(n as nat),
    decreases n,
{
    if n >= 10 {
        push_decimal(s, n / 10);
    }
    let d: u64 = n % 10;
    let c: char = if d == 0 { '0' } else if d == 1 { '1' } else if d == 2 { '2' } else if d == 3 {
        '3'
    } else if d == 4 { '4' } else if d == 5 { '5' } else if d == 6 { '6' } else if d == 7 {
        '7'
    } else if d == 8 { '8' } else { '9' };
    push_char(s, c);
}


/// Why a decimal number could not be read (the kinds that an unsigned
/// 8-bit read can produce).
#[derive(Debug, Clone, Copy, PartialEq, Eq, Structural)]
pub enum IntErrorKind {
    /// The text is empty.
    Empty,
    /// A character that is not a decimal digit, or a lone sign.
    InvalidDigit,
    /// The value exceeds 255.
    PosOverflow,
}

pub open spec fn is_digit(c: char) -> bool {
    '0' <= c && c <= '9'
}

pub open spec fn digit_value(c: char) -> int {
    (c as int) - 48
}

/// Reads the decimal digits of `s` onto the running value `acc`, left to
/// right; the first character that is no digit, or the first digit that takes
/// the value past 255, decides the error.
pub open spec fn read_digits(s: Seq<char>, acc: int) -> Result<u8, IntErrorKind>
    decreases s.len(),
{
    if s.len() == 0 {
        Ok(acc as u8)
    } else if !is_digit(s[0]) {
        Err(IntErrorKind::InvalidDigit)
    } else if acc * 10 + digit_value(s[0]) > 255 {
        Err(IntErrorKind::PosOverflow)
    } else {
        read_digits(s.drop_first(), acc * 10 + digit_value(s[0]))
    }
}

/// The value of `s` read as an unsigned 8-bit decimal number: an optional
/// leading `+`, then digits only.
pub open spec fn u8_from_decimal(s: Seq<char>) -> Result<u8, IntErrorKind> {
    if s.len() == 0 {
        Err(IntErrorKind::Empty)
    } else if s.len() == 1 && (s[0] == '+' || s[0] == '-') {
        Err(IntErrorKind::InvalidDigit)
    } else if s[0] == '+' {
        read_digits(s.drop_first(), 0)
    } else {
        read_digits(s, 0)
    }
}

/// Reading back the decimal rendering of a byte value gives that value.
pub proof fn lemma_decimal_reads_back(n: u8)
    ensures
        u8_from_decimal(decimal(n as nat)) == Ok::<u8, IntErrorKind>(n),
{
    reveal_with_fuel(decimal, 3);
    reveal_with_fuel(read_digits, 4);
    let s = decimal(n as nat);
    if n < 10 {
        assert(s =~= seq![digit_char(n as int)]);
        assert(s.drop_first().len() == 0);
    } else if n < 100 {
        assert(s =~= seq![digit_char((n / 10) as int), digit_char((n % 10) as int)]);
        assert(s.drop_first() =~= seq![digit_char((n % 10) as int)]);
        assert(s.drop_first().drop_first().len() == 0);
    } else {
        assert(decimal((n / 10) as nat) =~= seq![
            digit_char((n / 100) as int),
            digit_char(((n / 10) % 10) as int),
        ]);
        assert(s =~= seq![
            digit_char((n / 100) as int),
            digit_char(((n / 10) % 10) as int),
            digit_char((n % 10) as int),
        ]);
        assert(s.drop_first() =~= seq![
            digit_char(((n / 10) % 10) as int),
            digit_char((n % 10) as int),
        ]);
        assert(s.drop_first().drop_first() =~= seq![digit_char((n % 10) as int)]);
        assert(s.drop_first().drop_first().drop_first().len() == 0);
    }
}

/// The text that describes an error kind.
pub open spec fn int_error_text(k: IntErrorKind) -> Seq<char> {
    match k {
        IntErrorKind::Empty => "cannot parse integer from empty string"@,
        IntErrorKind::InvalidDigit => "invalid digit found in string"@,
        IntErrorKind::PosOverflow => "number too large to fit in target type"@,
    }
}

impl IntErrorKind {
    /// The text that describes this error kind.
    pub fn message(&self) -> (r: String)
        ensures
            r@ == int_error_text(*self),
    {
        match self {
            IntErrorKind::Empty => String::from_str("cannot parse integer from empty string"),
            IntErrorKind::InvalidDigit => String::from_str("invalid digit found in string"),
            IntErrorKind::PosOverflow => String::from_str("number too large to fit in target type"),
        }
    }
}

/// Reads `s` as an unsigned 8-bit decimal number.
pub fn parse_u8(s: &str) -> (r: Result<u8, IntErrorKind>)
    ensures
        r == u8_from_decimal(s@),
{
    let len: usize = s.unicode_len();
    if len == 0 {
        return Err(IntErrorKind::Empty);
    }
    let first: char = s.get_char(0);
    if len == 1 && (first == '+' || first == '-') {
        return Err(IntErrorKind::InvalidDigit);
    }
    let mut i: usize = if first == '+' { 1 } else { 0 };
    let ghost start: int = i as int;
    let mut acc: u32 = 0;
    assert(s@.skip(1) =~= s@.drop_first());
    assert(s@.skip(0) =~= s@);
    while i < len
        invariant
            0 <= start <= i <= len,
            len == s@.len(),
            acc <= 255,
            s@.len() > 0,
            start == (if s@[0] == '+' { 1int } else { 0int }),
            !(s@.len() == 1 && (s@[0] == '+' || s@[0] == '-')),
            read_digits(s@.skip(i as int), acc as int) == u8_from_decimal(s@),
        decreases len - i,
    {
        let c: char = s.get_char(i);
        assert(s@.skip(i as int)[0] == c);
        assert(s@.skip(i as int).drop_first() =~= s@.skip(i + 1));
        if !('0' <= c && c <= '9') {
            return Err(IntErrorKind::InvalidDigit);
        }
        let d: u32 = (c as u32) - 48;
        if acc * 10 + d > 255 {
            return Err(IntErrorKind::PosOverflow);
        }
        acc = acc * 10 + d;
        i = i + 1;
    }
    assert(s@.skip(len as int) =~= Seq::<char>::empty());
    Ok(acc as u8)
}


/// `s` with every occurrence of the non-empty pattern `from` replaced by
/// `to`, scanning left to right; occurrences do not overlap.
pub open spec fn replace_all(s: Seq<char>, from: Seq<char>, to: Seq<char>) -> Seq<char>
    decreases s.len(),
{
    if from.len() == 0 || s.len() < from.len() {
        s
    } else if s.take(from.len() as int) == from {
        to + replace_all(s.skip(from.len() as int), from, to)
    } else {
        seq![s[0]] + replace_all(s.drop_first(), from, to)
    }
}

/// Whether `pat` occurs in `s` at position `i`.
pub open spec fn pattern_at(s: Seq<char>, i: int, pat: Seq<char>) -> bool {
    0 <= i && i + pat.len() <= s.len() && s.subrange(i, i + pat.len()) == pat
}

/// Replacement replaces an occurrence at the front and goes on after it;
/// leaves text that does not hold the pattern as it is; and passes over text
/// with no character that starts the pattern, unchanged, to what follows.
pub proof fn lemma_replace_all_laws(p: Seq<char>, b: Seq<char>, from: Seq<char>, to: Seq<char>)
    requires
        from.len() > 0,
    ensures
        replace_all(from + b, from, to) == to + replace_all(b, from, to),
        (forall|i: int| !#[trigger] pattern_at(b, i, from)) ==> replace_all(b, from, to) == b,
        (forall|i: int| 0 <= i < p.len() ==> #[trigger] p[i] != from[0]) ==> replace_all(
            p + b,
            from,
            to,
        ) == p + replace_all(b, from, to),
{
    assert((from + b).take(from.len() as int) =~= from);
    assert((from + b).skip(from.len() as int) =~= b);
    lemma_replace_absent(b, from, to);
    lemma_replace_passes(p, b, from, to);
}

proof fn lemma_replace_absent(b: Seq<char>, from: Seq<char>, to: Seq<char>)
    requires
        from.len() > 0,
    ensures
        (forall|i: int| !#[trigger] pattern_at(b, i, from)) ==> replace_all(b, from, to) == b,
    decreases b.len(),
{
    if b.len() >= from.len() && (forall|i: int| !#[trigger] pattern_at(b, i, from)) {
        let rest = b.drop_first();
        assert(b.take(from.len() as int) =~= b.subrange(0, from.len() as int));
        assert(!pattern_at(b, 0, from));
        assert forall|i: int| !#[trigger] pattern_at(rest, i, from) by {
            if 0 <= i && i + from.len() <= rest.len() {
                assert(!pattern_at(b, i + 1, from));
                assert(rest.subrange(i, i + from.len()) =~= b.subrange(i + 1, i + 1 + from.len()));
            }
        }
        lemma_replace_absent(rest, from, to);
        assert(b =~= seq![b[0]] + rest);
    }
}

proof fn lemma_replace_passes(p: Seq<char>, b: Seq<char>, from: Seq<char>, to: Seq<char>)
    requires
        from.len() > 0,
    ensures
        (forall|i: int| 0 <= i < p.len() ==> #[trigger] p[i] != from[0]) ==> replace_all(
            p + b,
            from,
            to,
        ) == p + replace_all(b, from, to),
    decreases p.len(),
{
    if p.len() > 0 && (forall|i: int| 0 <= i < p.len() ==> #[trigger] p[i] != from[0]) {
        let s = p + b;
        let p1 = p.drop_first();
        assert(s.drop_first() =~= p1 + b);
        assert forall|i: int| 0 <= i < p1.len() implies #[trigger] p1[i] != from[0] by {
            assert(p1[i] == p[i + 1]);
        }
        lemma_replace_passes(p1, b, from, to);
        if s.len() >= from.len() {
            assert(s.take(from.len() as int)[0] == p[0]);
        } else {
            lemma_replace_short(b, from, to);
            lemma_replace_short(p1 + b, from, to);
        }
        assert(p =~= seq![p[0]] + p1);
        assert(seq![s[0]] + (p1 + replace_all(b, from, to)) =~= p + replace_all(b, from, to));
    } else if p.len() == 0 {
        assert(p + b =~= b);
        assert(p + replace_all(b, from, to) =~= replace_all(b, from, to));
    }
}

proof fn lemma_replace_short(b: Seq<char>, from: Seq<char>, to: Seq<char>)
    requires
        b.len() < from.len(),
    ensures
        replace_all(b, from, to) == b,
{
}

/// The characters of `s`.
pub fn chars_of(s: &str) -> (r: Vec<char>)
    ensures
        r@ == s@,
{
    let n: usize = s.unicode_len();
    let mut r: Vec<char> = Vec::new();
    let mut i: usize = 0;
    while i < n
        invariant
            n == s@.len(),
            0 <= i <= n,
            r@ == s@.take(i as int),
        decreases n - i,
    {
        r.push(s.get_char(i));
        i = i + 1;
        assert(r@ =~= s@.take(i as int));
    }
    assert(s@.take(n as int) =~= s@);
    r
}

/// Whether `pat` occurs in `cs` at position `i`.
fn occurs_at(cs: &Vec<char>, i: usize, pat: &Vec<char>) -> (r: bool)
    requires
        i + pat@.len() <= cs@.len(),
    ensures
        r == (cs@.subrange(i as int, i + pat@.len()) == pat@),
{
    let m: usize = pat.len();
    let n: usize = cs.len();
    let mut k: usize = 0;
    while k < m
        invariant
            m == pat@.len(),
            n == cs@.len(),
            i + m <= cs@.len(),
            0 <= k <= m,
            forall|j: int| 0 <= j < k ==> cs@[i + j] == pat@[j],
        decreases m - k,
    {
        if cs[i + k] != pat[k] {
            assert(cs@.subrange(i as int, i + m)[k as int] != pat@[k as int]);
            return false;
        }
        k = k + 1;
    }
    assert(cs@.subrange(i as int, i + m) =~= pat@);
    true
}

/// `s` with every occurrence of `from` replaced by `to` (as `str::replace`
/// does for a non-empty pattern).
pub fn replace_str(s: &str, from: &str, to: &str) -> (r: String)
    requires
        from@.len() > 0,
    ensures
        r@ == replace_all(s@, from@, to@),
{
    let cs = chars_of(s);
    let pat = chars_of(from);
    let n: usize = cs.len();
    let m: usize = pat.len();
    let mut out = String::new();
    let mut i: usize = 0;
    assert(s@.skip(0) =~= s@);
    while i < n
        invariant
            n == cs@.len(),
            m == pat@.len(),
            m > 0,
            cs@ == s@,
            pat@ == from@,
            0 <= i <= n,
            out@ + replace_all(s@.skip(i as int), from@, to@) == replace_all(s@, from@, to@),
        decreases n - i,
    {
        let ghost rest = s@.skip(i as int);
        if m <= n - i && occurs_at(&cs, i, &pat) {
            assert(rest.take(m as int) =~= cs@.subrange(i as int, i + m));
            assert(rest.skip(m as int) =~= s@.skip(i + m));
            out.append(to);
            assert(out@ + replace_all(s@.skip(i + m), from@, to@) =~= replace_all(s@, from@, to@));
            i = i + m;
        } else {
            if m <= n - i {
                assert(rest.take(m as int) =~= cs@.subrange(i as int, i + m));
                assert(rest.drop_first() =~= s@.skip(i + 1));
            } else {
                assert(rest.drop_first() =~= s@.skip(i + 1));
                assert(replace_all(rest, from@, to@) == rest);
                assert(replace_all(s@.skip(i + 1), from@, to@) == s@.skip(i + 1));
                assert(rest =~= seq![rest[0]] + s@.skip(i + 1));
            }
            push_char(&mut out, cs[i]);
            assert(out@ + replace_all(s@.skip(i + 1), from@, to@) =~= replace_all(s@, from@, to@));
            i = i + 1;
        }
    }
    assert(s@.skip(n as int) =~= Seq::<char>::empty());
    assert(out@ + Seq::<char>::empty() =~= out@);
    out
}

} // verus!
