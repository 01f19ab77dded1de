//! Decimal numbers as text: reading a `u32` identifier out of a path
//! segment, and writing integers in their decimal form.
use vstd::prelude::*;
use vstd::string::*;

verus! {

/// Why a path segment is not an unsigned 32-bit number.
#[derive(PartialEq, Eq, Structural, Debug, Clone, Copy)]
pub enum IdError {
    /// The segment is empty.
    Empty,
    /// The segment holds something other than an optional `+` and digits.
    InvalidDigit,
    /// The digits denote a number above `u32::MAX`.
    TooLarge,
}

/// An ASCII decimal digit.
pub open spec fn is_digit(c: char) -> bool {
    '0' <= c && c <= '9'
}

/// The value of a digit.
pub open spec fn digit_value(c: char) -> nat {
    (c as nat - '0' as nat) as nat
}

/// The number that a string of decimal digits denotes.
pub open spec fn digits_value(s: Seq<char>) -> nat
    decreases s.len(),
{
    if s.len() == 0 {
        0
    } else {
        digits_value(s.drop_last()) * 10 + digit_value(s.last())
    }
}

/// Index of the first character of `s` that is not a digit (`s.len()` if all are).
pub open spec fn first_non_digit(s: Seq<char>) -> int
    decreases s.len(),
{
    if s.len() == 0 {
        0
    } else if !is_digit(s[0]) {
        0
    } else {
        1 + first_non_digit(s.drop_first())
    }
}

/// The digits after an optional leading `+`.
pub open spec fn unsigned_body(s: Seq<char>) -> Seq<char> {
    if s.len() > 0 && s[0] == '+' {
        s.drop_first()
    } else {
        s
    }
}

/// What reading `s` as an unsigned 32-bit decimal number gives: an optional
/// `+`, then at least one digit. The digits are read left to right, so the
/// number is reported too large when the digits before the first non-digit
/// already exceed `u32::MAX`.
pub open spec fn spec_parse_u32(s: Seq<char>) -> Result<u32, IdError> {
    let body = unsigned_body(s);
    let k = first_non_digit(body);
    if s.len() == 0 {
        Err(IdError::Empty)
    } else if body.len() == 0 {
        Err(IdError::InvalidDigit)
    } else if digits_value(body.take(k)) > u32::MAX {
        Err(IdError::TooLarge)
    } else if k < body.len() {
        Err(IdError::InvalidDigit)
    } else {
        Ok(digits_value(body) as u32)
    }
}

/// The digit for a value below ten.
pub open spec fn digit_char(d: nat) -> char {
    if d == 0 { '0' }
    else if d == 1 { '1' }
    else if d == 2 { '2' }
    else if d == 3 { '3' }
    else if d == 4 { '4' }
    else if d == 5 { '5' }
    else if d == 6 { '6' }
    else if d == 7 { '7' }
    else if d == 8 { '8' }
    else { '9' }
}

/// The decimal form of `n`, without leading zeros.
pub open spec fn decimal(n: nat) -> Seq<char>
    decreases n,
{
    if n < 10 {
        seq![digit_char(n)]
    } else {
        decimal(n / 10).push(digit_char(n % 10))
    }
}

/// The decimal form of a signed number: a `-` before the digits of a negative one.
pub open spec fn signed_decimal(n: int) -> Seq<char> {
    if n < 0 {
        seq!['-'] + decimal((-n) as nat)
    } else {
        decimal(n as nat)
    }
}

/// The message of the panic of `Result::unwrap` on an error whose debug form is `m`.
pub open spec fn unwrap_err_panic(m: Seq<char>) -> Seq<char> {
    "called `Result::unwrap()` on an `Err` value: "@ + m
}

/// The message of the panic of `Result::expect` with the text `context` on an
/// error whose debug form is `m`.
pub open spec fn expect_panic(context: Seq<char>, m: Seq<char>) -> Seq<char> {
    context + ": "@ + m
}

/// The message of the panic of `Option::unwrap` on `None`.
pub open spec fn unwrap_none_panic() -> Seq<char> {
    "called `Option::unwrap()` on a `None` value"@
}

/// The message of the panic of indexing a slice of length `len` at `index`.
pub open spec fn index_panic(len: nat, index: nat) -> Seq<char> {
    "index out of bounds: the len is "@ + decimal(len) + " but the index is "@ + decimal(index)
}

impl IdError {
    /// The message that describes the error.
    pub open spec fn spec_message(self) -> Seq<char> {
        match self {
            IdError::Empty => "cannot parse integer from empty string"@,
            IdError::InvalidDigit => "invalid digit found in string"@,
            IdError::TooLarge => "number too large to fit in target type"@,
        }
    }

    pub fn message(&self) -> (r: String)
        ensures
            r@ == self.spec_message(),
    {
        match self {
            IdError::Empty => String::from_str("cannot parse integer from empty string"),
            IdError::InvalidDigit => String::from_str("invalid digit found in string"),
            IdError::TooLarge => String::from_str("number too large to fit in target type"),
        }
    }
}

proof fn lemma_digits_value_push(s: Seq<char>, c: char)
    ensures
        digits_value(s.push(c)) == digits_value(s) * 10 + digit_value(c),
{
    assert(s.push(c).drop_last() =~= s);
}

proof fn lemma_first_non_digit_bounds(s: Seq<char>)
    ensures
        0 <= first_non_digit(s) <= s.len(),
        forall|j: int| 0 <= j < first_non_digit(s) ==> is_digit(#[trigger] s[j]),
        first_non_digit(s) < s.len() ==> !is_digit(s[first_non_digit(s)]),
    decreases s.len(),
{
    if s.len() > 0 && is_digit(s[0]) {
        lemma_first_non_digit_bounds(s.drop_first());
        assert forall|j: int| 0 <= j < first_non_digit(s) implies is_digit(#[trigger] s[j]) by {
            if j > 0 {
                assert(s[j] == s.drop_first()[j - 1]);
            }
        }
    }
}

/// `first_non_digit` is characterised by: all before it are digits, and it is
/// the length or a non-digit.
proof fn lemma_first_non_digit_unique(s: Seq<char>, k: int)
    requires
        0 <= k <= s.len(),
        forall|j: int| 0 <= j < k ==> is_digit(#[trigger] s[j]),
        k < s.len() ==> !is_digit(s[k]),
    ensures
        first_non_digit(s) == k,
    decreases s.len(),
{
    if s.len() > 0 && k > 0 {
        assert(is_digit(s[0]));
        assert forall|j: int| 0 <= j < k - 1 implies is_digit(#[trigger] s.drop_first()[j]) by {
            assert(s.drop_first()[j] == s[j + 1]);
        }
        if k - 1 < s.len() - 1 {
            assert(s.drop_first()[k - 1] == s[k]);
        }
        lemma_first_non_digit_unique(s.drop_first(), k - 1);
    }
}

proof fn lemma_digits_value_monotone(s: Seq<char>, i: int, j: int)
    requires
        0 <= i <= j <= s.len(),
    ensures
        digits_value(s.take(i)) <= digits_value(s.take(j)),
    decreases j - i,
{
    if i < j {
        lemma_digits_value_monotone(s, i, j - 1);
        assert(s.take(j).drop_last() =~= s.take(j - 1));
    }
}

/// When the digits up to and including position `i` already exceed `u32::MAX`,
/// so do the digits before the first non-digit.
proof fn lemma_overflow_before_non_digit(body: Seq<char>, i: int)
    requires
        0 <= i < body.len(),
        forall|j: int| 0 <= j <= i ==> is_digit(#[trigger] body[j]),
        digits_value(body.take(i + 1)) > u32::MAX,
    ensures
        digits_value(body.take(first_non_digit(body))) > u32::MAX,
{
    lemma_first_non_digit_bounds(body);
    let k = first_non_digit(body);
    if k <= i {
        assert(is_digit(body[k]));
    }
    lemma_digits_value_monotone(body, i + 1, k);
}

/// Reads `s` as an unsigned 32-bit decimal number (an optional `+`, then digits).
pub fn parse_u32(s: &str) -> (r: Result<u32, IdError>)
    ensures
        r == spec_parse_u32(s@),
{
    let n = s.unicode_len();
    if n == 0 {
        return Err(IdError::Empty);
    }
    let mut start: usize = 0;
    if s.get_char(0) == '+' {
        start = 1;
    }
    let ghost body = unsigned_body(s@);
    assert(body =~= s@.subrange(start as int, n as int));
    if start == n {
        return Err(IdError::InvalidDigit);
    }
    proof {
        lemma_first_non_digit_bounds(body);
    }
    let mut value: u64 = 0;
    let mut i: usize = start;
    while i < n
        invariant
            n == s@.len(),
            n > 0,
            start < n,
            body == unsigned_body(s@),
            start <= i <= n,
            body =~= s@.subrange(start as int, n as int),
            value == digits_value(body.take(i - start)),
            value <= u32::MAX,
            forall|j: int| 0 <= j < i - start ==> is_digit(#[trigger] body[j]),
        decreases n - i,
    {
        let c = s.get_char(i);
        assert(c == body[i - start]);
        if !('0' <= c && c <= '9') {
            proof {
                lemma_first_non_digit_unique(body, i - start);
            }
            return Err(IdError::InvalidDigit);
        }
        let d = (c as u32 - '0' as u32) as u64;
        proof {
            assert(body.take(i - start + 1) =~= body.take(i - start).push(c));
            lemma_digits_value_push(body.take(i - start), c);
        }
        value = value * 10 + d;
        if value > 4294967295 {
            proof {
                lemma_overflow_before_non_digit(body, (i - start) as int);
            }
            return Err(IdError::TooLarge);
        }
        i = i + 1;
    }
    proof {
        lemma_first_non_digit_unique(body, body.len() as int);
        assert(body.take(body.len() as int) =~= body);
    }
    Ok(value as u32)
}

fn digit_text(d: u64) -> (r: &'static str)
    requires
        d < 10,
    ensures
        r@ == seq![digit_char(d as nat)],
{
    if d == 0 {
        proof { reveal_strlit("0"); }
        "0"
    } else if d == 1 {
        proof { reveal_strlit("1"); }
        "1"
    } else if d == 2 {
        proof { reveal_strlit("2"); }
        "2"
    } else if d == 3 {
        proof { reveal_strlit("3"); }
        "3"
    } else if d == 4 {
        proof { reveal_strlit("4"); }
        "4"
    } else if d == 5 {
        proof { reveal_strlit("5"); }
        "5"
    } else if d == 6 {
        proof { reveal_strlit("6"); }
        "6"
    } else if d == 7 {
        proof { reveal_strlit("7"); }
        "7"
    } else if d == 8 {
        proof { reveal_strlit("8"); }
        "8"
    } else {
        proof { reveal_strlit("9"); }
        "9"
    }
}

/// The decimal form of `n`.
pub fn decimal_u64(n: u64) -> (r: String)
    ensures
        r@ == decimal(n as nat),
    decreases n,
{
    if n < 10 {
        String::from_str(digit_text(n))
    } else {
        let head = decimal_u64(n / 10);
        head.concat(digit_text(n % 10))
    }
}

/// The decimal form of `n`, with a `-` when it is negative.
pub fn decimal_i64(n: i64) -> (r: String)
    ensures
        r@ == signed_decimal(n as int),
{
    if n < 0 {
        let magnitude: u64 = if n == i64::MIN { 9223372036854775808u64 } else { (-n) as u64 };
        proof { reveal_strlit("-"); }
        String::from_str("-").concat(decimal_u64(magnitude).as_str())
    } else {
        decimal_u64(n as u64)
    }
}

proof fn lemma_digit_char(d: nat)
    requires
        d < 10,
    ensures
        is_digit(digit_char(d)),
        digit_value(digit_char(d)) == d,
        digit_char(d) != '+',
{
}

proof fn lemma_decimal_digits(n: nat)
    ensures
        decimal(n).len() >= 1,
        forall|j: int| 0 <= j < decimal(n).len() ==> is_digit(#[trigger] decimal(n)[j]),
        digits_value(decimal(n)) == n,
        decimal(n)[0] != '+',
    decreases n,
{
    lemma_digit_char(n % 10);
    if n < 10 {
        lemma_digits_value_push(Seq::empty(), digit_char(n));
        assert(seq![digit_char(n)] =~= Seq::<char>::empty().push(digit_char(n)));
    } else {
        lemma_decimal_digits(n / 10);
        let d = decimal(n / 10);
        assert(decimal(n) == d.push(digit_char(n % 10)));
        lemma_digits_value_push(d, digit_char(n % 10));
        assert forall|j: int| 0 <= j < decimal(n).len() implies is_digit(#[trigger] decimal(n)[j]) by {
            if j < d.len() {
                assert(decimal(n)[j] == d[j]);
            }
        }
        assert(decimal(n)[0] == d[0]);
    }
}

/// Writing a `u32` in decimal and reading it back gives the same number.
pub proof fn law_parse_decimal_roundtrip(n: u32)
    ensures
        spec_parse_u32(decimal(n as nat)) == Ok::<u32, IdError>(n),
{
    let s = decimal(n as nat);
    lemma_decimal_digits(n as nat);
    assert(unsigned_body(s) == s);
    lemma_first_non_digit_unique(s, s.len() as int);
    assert(s.take(s.len() as int) =~= s);
}

/// Reading succeeds exactly on an optional `+` followed by digits whose value fits.
pub proof fn law_parse_accepts_exactly_decimals(s: Seq<char>)
    ensures
        spec_parse_u32(s) is Ok <==> {
            &&& unsigned_body(s).len() > 0
            &&& forall|j: int| 0 <= j < unsigned_body(s).len() ==> is_digit(#[trigger] unsigned_body(s)[j])
            &&& digits_value(unsigned_body(s)) <= u32::MAX
        },
        spec_parse_u32(s) matches Ok(v) ==> v == digits_value(unsigned_body(s)),
{
    let body = unsigned_body(s);
    lemma_first_non_digit_bounds(body);
    let k = first_non_digit(body);
    if forall|j: int| 0 <= j < body.len() ==> is_digit(#[trigger] body[j]) {
        lemma_first_non_digit_unique(body, body.len() as int);
        assert(body.take(body.len() as int) =~= body);
    } else {
        lemma_digits_value_monotone(body, k, body.len() as int);
        assert(body.take(body.len() as int) =~= body);
    }
}

/// The message of the panic of `Result::unwrap` on an error whose debug form is `m`.
pub fn unwrap_err_panic_text(m: &str) -> (r: String)
    ensures
        r@ == unwrap_err_panic(m@),
{
    String::from_str("called `Result::unwrap()` on an `Err` value: ").concat(m)
}

/// The message of the panic of `Result::expect` with the text `context` on an
/// error whose debug form is `m`.
pub fn expect_panic_text(context: &str, m: &str) -> (r: String)
    ensures
        r@ == expect_panic(context@, m@),
{
    String::from_str(context).concat(": ").concat(m)
}

/// The message of the panic of `Option::unwrap` on `None`.
pub fn unwrap_none_panic_text() -> (r: String)
    ensures
        r@ == unwrap_none_panic(),
{
    String::from_str("called `Option::unwrap()` on a `None` value")
}

/// The message of the panic of indexing a slice of length `len` at `index`.
pub fn index_panic_text(len: usize, index: usize) -> (r: String)
    ensures
        r@ == index_panic(len as nat, index as nat),
{
    let l = decimal_u64(len as u64);
    let i = decimal_u64(index as u64);
    String::from_str("index out of bounds: the len is ").concat(l.as_str()).concat(" but the index is ").concat(
        i.as_str(),
    )
}

} // verus!
