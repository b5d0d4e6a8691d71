//! Text primitives the library needs with exact behaviour: decimal
//! rendering of unsigned integers, parsing of a `usize` as `str::parse`
//! does it, ASCII case-insensitive comparison and byte-level prefix and
//! substring tests as `str` performs them.

use vstd::prelude::*;
use vstd::string::*;
use vstd::utf8::*;

verus! {

/// The decimal digit character for `d < 10`.
pub open spec fn digit_char(d: nat) -> char {
    if d == 0 { '0' }
    else if d == 1 { '1' }
    else if d == 2 { '2' }
    else if d == 3 { '3' }
    else if d == 4 { '4' }
    else if d == 5 { '5' }
    else if d == 6 { '6' }
    else if d == 7 { '7' }
    else if d == 8 { '8' }
    else { '9' }
}

/// The decimal representation of `n`, without leading zeros (`0` is `"0"`).
pub open spec fn decimal(n: nat) -> Seq<char>
    decreases n,
{
    if n < 10 {
        seq![digit_char(n)]
    } else {
        decimal(n / 10).push(digit_char(n % 10))
    }
}

fn digit_text(d: u64) -> (r: &'static str)
    requires
        d < 10,
    ensures
        r@ == seq![digit_char(d as nat)],
{
    if d == 0 {
        proof { reveal_strlit("0"); }
        "0"
    } else if d == 1 {
        proof { reveal_strlit("1"); }
        "1"
    } else if d == 2 {
        proof { reveal_strlit("2"); }
        "2"
    } else if d == 3 {
        proof { reveal_strlit("3"); }
        "3"
    } else if d == 4 {
        proof { reveal_strlit("4"); }
        "4"
    } else if d == 5 {
        proof { reveal_strlit("5"); }
        "5"
    } else if d == 6 {
        proof { reveal_strlit("6"); }
        "6"
    } else if d == 7 {
        proof { reveal_strlit("7"); }
        "7"
    } else if d == 8 {
        proof { reveal_strlit("8"); }
        "8"
    } else {
        proof { reveal_strlit("9"); }
        "9"
    }
}

/// Appends the decimal representation of `n` to `s`.
pub fn append_decimal(s: &mut String, n: u64)
    ensures
        final(s)@ == old(s)@ + decimal(n as nat),
    decreases n,
{
    let ghost start = s@;
    if n >= 10 {
        append_decimal(s, n / 10);
    }
    s.append(digit_text(n % 10));
    proof {
        if n >= 10 {
            assert(start + decimal((n / 10) as nat) + seq![digit_char((n % 10) as nat)]
                =~= start + decimal(n as nat));
        } else {
            assert(start + seq![digit_char((n % 10) as nat)] =~= start + decimal(n as nat));
        }
    }
}

/// Why a text is not a `usize`, as `core::num::IntErrorKind` tells it.
#[derive(Debug, Clone, Copy, PartialEq, Eq, Structural)]
pub enum IntErrorKind {
    Empty,
    InvalidDigit,
    PosOverflow,
}

impl IntErrorKind {
    /// The message that `ParseIntError` displays for this kind.
    pub open spec fn spec_message(self) -> Seq<char> {
        match self {
            IntErrorKind::Empty => "cannot parse integer from empty string"@,
            IntErrorKind::InvalidDigit => "invalid digit found in string"@,
            IntErrorKind::PosOverflow => "number too large to fit in target type"@,
        }
    }

    pub fn message(&self) -> (r: String)
        ensures
            r@ == self.spec_message(),
    {
        match self {
            IntErrorKind::Empty => String::from_str("cannot parse integer from empty string"),
            IntErrorKind::InvalidDigit => String::from_str("invalid digit found in string"),
            IntErrorKind::PosOverflow => String::from_str("number too large to fit in target type"),
        }
    }
}

pub open spec fn is_ascii_digit(b: u8) -> bool {
    48 <= b <= 57
}

/// Reads `d` left to right as decimal digits, failing at the first byte
/// that is not a digit or at the first digit that takes the value past
/// `usize::MAX`, whichever comes first.
pub open spec fn scan_digits(d: Seq<u8>) -> Result<nat, IntErrorKind>
    decreases d.len(),
{
    if d.len() == 0 {
        Ok(0)
    } else {
        match scan_digits(d.drop_last()) {
            Err(e) => Err(e),
            Ok(v) => if !is_ascii_digit(d.last()) {
                Err(IntErrorKind::InvalidDigit)
            } else if v * 10 + (d.last() - 48) > usize::MAX {
                Err(IntErrorKind::PosOverflow)
            } else {
                Ok((v * 10 + (d.last() - 48)) as nat)
            },
        }
    }
}

/// What `<usize as FromStr>::from_str` gives for the UTF-8 bytes `b`: an
/// optional leading `+`, then one or more decimal digits.
pub open spec fn parse_usize_spec(b: Seq<u8>) -> Result<nat, IntErrorKind> {
    if b.len() == 0 {
        Err(IntErrorKind::Empty)
    } else if b.len() == 1 && (b[0] == 43u8 || b[0] == 45u8) {
        Err(IntErrorKind::InvalidDigit)
    } else if b[0] == 43u8 {
        scan_digits(b.drop_first())
    } else {
        scan_digits(b)
    }
}

proof fn lemma_scan_digits_bounded(d: Seq<u8>)
    ensures
        scan_digits(d) matches Ok(v) ==> v <= usize::MAX,
    decreases d.len(),
{
    if d.len() > 0 {
        lemma_scan_digits_bounded(d.drop_last());
    }
}

/// Parses `s` as a `usize` exactly as `str::parse::<usize>` does.
pub fn parse_usize(s: &str) -> (r: Result<usize, IntErrorKind>)
    ensures
        match parse_usize_spec(s.spec_bytes()) {
            Ok(v) => r == Ok::<usize, IntErrorKind>(v as usize),
            Err(e) => r == Err::<usize, IntErrorKind>(e),
        },
{
    let b = s.as_bytes();
    let n = b.len();
    if n == 0 {
        return Err(IntErrorKind::Empty);
    }
    if n == 1 && (b[0] == 43u8 || b[0] == 45u8) {
        return Err(IntErrorKind::InvalidDigit);
    }
    let start: usize = if b[0] == 43u8 { 1 } else { 0 };
    let ghost digits = b@.subrange(start as int, n as int);
    proof {
        if start == 1 {
            assert(digits =~= b@.drop_first());
        } else {
            assert(digits =~= b@);
        }
    }
    let mut acc: usize = 0;
    let mut i: usize = start;
    assert(b@.subrange(start as int, start as int) =~= Seq::<u8>::empty());
    assert(parse_usize_spec(b@) == scan_digits(digits));
    while i < n
        invariant
            b@ == s.spec_bytes(),
            parse_usize_spec(b@) == scan_digits(digits),
            start <= i <= n,
            n == b@.len(),
            start <= 1,
            digits == b@.subrange(start as int, n as int),
            scan_digits(b@.subrange(start as int, i as int)) == Ok::<nat, IntErrorKind>(acc as nat),
        decreases n - i,
    {
        let c = b[i];
        let ghost pre = b@.subrange(start as int, i as int);
        let ghost next = b@.subrange(start as int, i as int + 1);
        assert(next.drop_last() =~= pre);
        assert(next.last() == c);
        assert(digits.take(i - start + 1) =~= next);
        if c < 48u8 || c > 57u8 {
            proof { lemma_scan_prefix_err(digits, (i - start) as int); }
            return Err(IntErrorKind::InvalidDigit);
        }
        let d = (c - 48u8) as usize;
        match acc.checked_mul(10) {
            None => {
                proof { lemma_scan_prefix_err(digits, (i - start) as int); }
                return Err(IntErrorKind::PosOverflow);
            },
            Some(m) => match m.checked_add(d) {
                None => {
                    proof { lemma_scan_prefix_err(digits, (i - start) as int); }
                    return Err(IntErrorKind::PosOverflow);
                },
                Some(v) => {
                    acc = v;
                },
            },
        }
        i = i + 1;
    }
    assert(b@.subrange(start as int, n as int) == digits);
    Ok(acc)
}

/// An error met on a prefix of the digits stays the error of the whole.
proof fn lemma_scan_prefix_err(d: Seq<u8>, k: int)
    requires
        0 <= k < d.len(),
        scan_digits(d.take(k + 1)) is Err,
    ensures
        scan_digits(d) == scan_digits(d.take(k + 1)),
    decreases d.len(),
{
    if k + 1 == d.len() {
        assert(d.take(k + 1) =~= d);
    } else {
        assert(d.drop_last().take(k + 1) =~= d.take(k + 1));
        lemma_scan_prefix_err(d.drop_last(), k);
    }
}

/// ASCII lower-casing of one byte; other bytes are kept.
pub open spec fn ascii_lower(b: u8) -> u8 {
    if 65 <= b <= 90 { (b + 32) as u8 } else { b }
}

/// Byte sequences equal up to ASCII case, as `eq_ignore_ascii_case` compares.
pub open spec fn bytes_eq_ignore_ascii_case(a: Seq<u8>, b: Seq<u8>) -> bool {
    &&& a.len() == b.len()
    &&& forall|i: int| 0 <= i < a.len() ==> ascii_lower(#[trigger] a[i]) == ascii_lower(b[i])
}

/// Two names that SQLite's identifier comparison (ASCII case folding) treats as one.
pub open spec fn names_match(a: Seq<char>, b: Seq<char>) -> bool {
    bytes_eq_ignore_ascii_case(encode_utf8(a), encode_utf8(b))
}

fn lower_byte(b: u8) -> (r: u8)
    ensures
        r == ascii_lower(b),
{
    if 65u8 <= b && b <= 90u8 { b + 32 } else { b }
}

/// `str::eq_ignore_ascii_case`.
pub fn eq_ignore_ascii_case(a: &str, b: &str) -> (r: bool)
    ensures
        r == names_match(a@, b@),
{
    let x = a.as_bytes();
    let y = b.as_bytes();
    if x.len() != y.len() {
        return false;
    }
    let mut i: usize = 0;
    while i < x.len()
        invariant
            x@ == encode_utf8(a@),
            y@ == encode_utf8(b@),
            x@.len() == y@.len(),
            i <= x@.len(),
            forall|j: int| 0 <= j < i ==> ascii_lower(#[trigger] x@[j]) == ascii_lower(y@[j]),
        decreases x@.len() - i,
    {
        if lower_byte(x[i]) != lower_byte(y[i]) {
            return false;
        }
        i = i + 1;
    }
    true
}

/// `str` equality.
pub fn str_eq(a: &str, b: &str) -> (r: bool)
    ensures
        r == (a@ == b@),
{
    let x = a.as_bytes();
    let y = b.as_bytes();
    proof {
        encode_utf8_decode_utf8(a@);
        encode_utf8_decode_utf8(b@);
    }
    if x.len() != y.len() {
        return false;
    }
    let mut i: usize = 0;
    while i < x.len()
        invariant
            x@ == encode_utf8(a@),
            y@ == encode_utf8(b@),
            x@.len() == y@.len(),
            i <= x@.len(),
            forall|j: int| 0 <= j < i ==> #[trigger] x@[j] == y@[j],
        decreases x@.len() - i,
    {
        if x[i] != y[i] {
            return false;
        }
        i = i + 1;
    }
    assert(x@ =~= y@);
    true
}

/// `p` is a byte prefix of `s`.
pub open spec fn has_prefix(s: Seq<u8>, p: Seq<u8>) -> bool {
    p.len() <= s.len() && s.take(p.len() as int) == p
}

/// `str::starts_with` with a `&str` pattern.
pub fn starts_with(s: &str, p: &str) -> (r: bool)
    ensures
        r == has_prefix(s.spec_bytes(), p.spec_bytes()),
{
    let x = s.as_bytes();
    let y = p.as_bytes();
    if y.len() > x.len() {
        return false;
    }
    let mut i: usize = 0;
    while i < y.len()
        invariant
            x@ == s.spec_bytes(),
            y@ == p.spec_bytes(),
            y@.len() <= x@.len(),
            i <= y@.len(),
            forall|j: int| 0 <= j < i ==> x@[j] == y@[j],
        decreases y@.len() - i,
    {
        if x[i] != y[i] {
            assert(x@.take(y@.len() as int)[i as int] != y@[i as int]);
            return false;
        }
        i = i + 1;
    }
    assert(x@.take(y@.len() as int) =~= y@);
    true
}

/// `p` occurs in `s` starting at byte `i`.
pub open spec fn occurs_at(s: Seq<u8>, p: Seq<u8>, i: int) -> bool {
    0 <= i && i + p.len() <= s.len() && s.subrange(i, i + p.len()) == p
}

/// `str::contains` with a `&str` pattern.
pub fn contains(s: &str, p: &str) -> (r: bool)
    ensures
        r == exists|i: int| occurs_at(s.spec_bytes(), p.spec_bytes(), i),
{
    let x = s.as_bytes();
    let y = p.as_bytes();
    if y.len() > x.len() {
        assert forall|i: int| !occurs_at(x@, y@, i) by {}
        return false;
    }
    if y.len() == 0 {
        assert(x@.subrange(0, 0) =~= y@);
        assert(occurs_at(x@, y@, 0));
        return true;
    }
    let last = x.len() - y.len();
    let xl = x.len();
    assert(xl == x@.len());
    let mut i: usize = 0;
    while i <= last
        invariant
            x@ == s.spec_bytes(),
            y@ == p.spec_bytes(),
            0 < y@.len() <= x@.len(),
            xl == x@.len(),
            last == x@.len() - y@.len(),
            i <= last + 1,
            forall|k: int| 0 <= k < i ==> !occurs_at(x@, y@, k),
        decreases last + 1 - i,
    {
        let mut j: usize = 0;
        let mut same = true;
        while j < y.len()
            invariant
                i <= last,
                0 < y@.len() <= x@.len(),
                xl == x@.len(),
                last == x@.len() - y@.len(),
                j <= y@.len(),
                same == forall|m: int| 0 <= m < j ==> x@[i + m] == y@[m],
            decreases y@.len() - j,
        {
            if x[i + j] != y[j] {
                same = false;
            }
            j = j + 1;
        }
        if same {
            assert(x@.subrange(i as int, i + y@.len()) =~= y@);
            assert(occurs_at(x@, y@, i as int));
            return true;
        }
        assert(!occurs_at(x@, y@, i as int)) by {
            let m = choose|m: int| 0 <= m < y@.len() && x@[i + m] != y@[m];
            assert(x@.subrange(i as int, i + y@.len())[m] != y@[m]);
        }
        i = i + 1;
    }
    assert forall|k: int| !occurs_at(x@, y@, k) by {
        if 0 <= k && k + y@.len() <= x@.len() {
            assert(k < i);
        }
    }
    false
}

/// The bytes of the decimal representation of `n`.
pub open spec fn decimal_bytes(n: nat) -> Seq<u8>
    decreases n,
{
    if n < 10 {
        seq![(48 + n) as u8]
    } else {
        decimal_bytes(n / 10).push((48 + n % 10) as u8)
    }
}

proof fn lemma_digit_char_byte(d: nat)
    requires
        d < 10,
    ensures
        digit_char(d) as u8 == (48 + d) as u8,
        '\0' <= digit_char(d) <= '\u{7f}',
{
}

proof fn lemma_decimal_chars(n: nat)
    ensures
        is_ascii_chars(decimal(n)),
        decimal(n).len() == decimal_bytes(n).len(),
        forall|i: int| 0 <= i < decimal(n).len() ==> #[trigger] decimal(n)[i] as u8 == decimal_bytes(n)[i],
    decreases n,
{
    lemma_digit_char_byte(n % 10);
    if n >= 10 {
        lemma_decimal_chars(n / 10);
        let prev = decimal((n / 10) as nat);
        assert(decimal(n) == prev.push(digit_char(n % 10)));
        assert forall|i: int| 0 <= i < decimal(n).len() implies '\0' <= #[trigger] decimal(n)[i] <= '\u{7f}' by {
            if i < prev.len() {
                assert(decimal(n)[i] == prev[i]);
            }
        }
    }
}

proof fn lemma_scan_decimal(n: nat)
    requires
        n <= usize::MAX,
    ensures
        scan_digits(decimal_bytes(n)) == Ok::<nat, IntErrorKind>(n),
    decreases n,
{
    let b = decimal_bytes(n);
    if n < 10 {
        assert(b.drop_last() =~= Seq::<u8>::empty());
    } else {
        lemma_scan_decimal(n / 10);
        assert(b.drop_last() =~= decimal_bytes(n / 10));
    }
}

/// A number written out by [`append_decimal`] reads back, with
/// [`parse_usize`], as the same number, wherever it fits in a `usize`.
pub proof fn lemma_decimal_round_trip(n: nat)
    requires
        n <= usize::MAX,
    ensures
        parse_usize_spec(encode_utf8(decimal(n))) == Ok::<nat, IntErrorKind>(n),
{
    lemma_decimal_chars(n);
    is_ascii_chars_encode_utf8(decimal(n));
    assert(encode_utf8(decimal(n)) =~= decimal_bytes(n));
    lemma_scan_decimal(n);
    let b = decimal_bytes(n);
    assert(b.len() > 0);
    if n < 10 {
        assert(b[0] == (48 + n) as u8);
    } else {
        assert(is_ascii_digit(b[0])) by {
            lemma_decimal_leading_digit(n);
        }
    }
}

proof fn lemma_decimal_leading_digit(n: nat)
    ensures
        decimal_bytes(n).len() > 0,
        is_ascii_digit(decimal_bytes(n)[0]),
    decreases n,
{
    if n >= 10 {
        lemma_decimal_leading_digit(n / 10);
        assert(decimal_bytes(n)[0] == decimal_bytes(n / 10)[0]);
    }
}

/// SQLite's identifier comparison is an equivalence: every name matches
/// itself, matching is symmetric, and two names that match a third match
/// each other.
pub proof fn lemma_names_match_is_equivalence(a: Seq<char>, b: Seq<char>, c: Seq<char>)
    ensures
        names_match(a, a),
        names_match(a, b) ==> names_match(b, a),
        names_match(a, b) && names_match(b, c) ==> names_match(a, c),
{
}

} // verus!
