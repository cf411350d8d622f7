use vstd::prelude::*;

verus! {

/// The ASCII digit for `d` in 0..=9.
pub open spec fn spec_digit_char(d: int) -> char {
    (48 + d) as char
}

/// The decimal notation of a natural number, without leading zeros.
pub open spec fn spec_decimal(n: nat) -> Seq<char>
    decreases n,
{
    if n < 10 {
        seq![spec_digit_char(n as int)]
    } else {
        spec_decimal(n / 10).push(spec_digit_char((n % 10) as int))
    }
}

/// The decimal notation of an integer, with a leading '-' below zero.
pub open spec fn spec_signed_decimal(i: int) -> Seq<char> {
    if i < 0 {
        seq!['-'] + spec_decimal((-i) as nat)
    } else {
        spec_decimal(i as nat)
    }
}

/// The lower-case hexadecimal digit for `d` in 0..=15.
pub open spec fn spec_hex_char(d: int) -> char {
    if d < 10 {
        (48 + d) as char
    } else {
        (87 + d) as char
    }
}

/// A byte written as `0x` and two lower-case hexadecimal digits.
pub open spec fn spec_hex_byte(b: u8) -> Seq<char> {
    seq!['0', 'x', spec_hex_char((b / 16) as int), spec_hex_char((b % 16) as int)]
}

/// The characters that `char::is_whitespace` accepts: those with the
/// Unicode White_Space property.
pub open spec fn spec_is_whitespace(c: char) -> bool {
    let u = c as u32;
    ||| 0x09 <= u <= 0x0d
    ||| u == 0x20
    ||| u == 0x85
    ||| u == 0xa0
    ||| u == 0x1680
    ||| 0x2000 <= u <= 0x200a
    ||| u == 0x2028
    ||| u == 0x2029
    ||| u == 0x202f
    ||| u == 0x205f
    ||| u == 0x3000
}

/// `s` without its leading white space.
pub open spec fn spec_trim_start(s: Seq<char>) -> Seq<char>
    decreases s.len(),
{
    if s.len() > 0 && spec_is_whitespace(s[0]) {
        spec_trim_start(s.drop_first())
    } else {
        s
    }
}

/// `s` without its trailing white space.
pub open spec fn spec_trim_end(s: Seq<char>) -> Seq<char>
    decreases s.len(),
{
    if s.len() > 0 && spec_is_whitespace(s.last()) {
        spec_trim_end(s.drop_last())
    } else {
        s
    }
}

/// `s` without leading and trailing white space.
pub open spec fn spec_trim(s: Seq<char>) -> Seq<char> {
    spec_trim_end(spec_trim_start(s))
}

/// The string of one decimal digit.
fn digit_str(d: u64) -> (s: &'static str)
    requires
        d < 10,
    ensures
        s@ == seq![spec_digit_char(d as int)],
{
    if d == 0 {
        proof { reveal_strlit("0"); }
        "0"
    } else if d == 1 {
        proof { reveal_strlit("1"); }
        "1"
    } else if d == 2 {
        proof { reveal_strlit("2"); }
        "2"
    } else if d == 3 {
        proof { reveal_strlit("3"); }
        "3"
    } else if d == 4 {
        proof { reveal_strlit("4"); }
        "4"
    } else if d == 5 {
        proof { reveal_strlit("5"); }
        "5"
    } else if d == 6 {
        proof { reveal_strlit("6"); }
        "6"
    } else if d == 7 {
        proof { reveal_strlit("7"); }
        "7"
    } else if d == 8 {
        proof { reveal_strlit("8"); }
        "8"
    } else {
        proof { reveal_strlit("9"); }
        "9"
    }
}

/// The string of one lower-case hexadecimal digit.
fn hex_digit_str(d: u8) -> (s: &'static str)
    requires
        d < 16,
    ensures
        s@ == seq![spec_hex_char(d as int)],
{
    if d < 10 {
        digit_str(d as u64)
    } else if d == 10 {
        proof { reveal_strlit("a"); }
        "a"
    } else if d == 11 {
        proof { reveal_strlit("b"); }
        "b"
    } else if d == 12 {
        proof { reveal_strlit("c"); }
        "c"
    } else if d == 13 {
        proof { reveal_strlit("d"); }
        "d"
    } else if d == 14 {
        proof { reveal_strlit("e"); }
        "e"
    } else {
        proof { reveal_strlit("f"); }
        "f"
    }
}

/// Decimal notation of `n`.
pub fn decimal_string(n: u64) -> (s: String)
    ensures
        s@ == spec_decimal(n as nat),
    decreases n,
{
    if n < 10 {
        String::from_str(digit_str(n))
    } else {
        let mut s = decimal_string(n / 10);
        s.append(digit_str(n % 10));
        s
    }
}

/// Decimal notation of `i`, with a leading '-' below zero.
pub fn signed_decimal_string(i: i64) -> (s: String)
    ensures
        s@ == spec_signed_decimal(i as int),
{
    if i < 0 {
        let magnitude: u64 = ((-(i + 1)) as u64) + 1;
        let digits = decimal_string(magnitude);
        proof { reveal_strlit("-"); }
        let mut s = String::from_str("-");
        s.append(digits.as_str());
        s
    } else {
        decimal_string(i as u64)
    }
}

/// A byte written as `0x` followed by two lower-case hexadecimal digits.
pub fn hex_byte_string(b: u8) -> (s: String)
    ensures
        s@ == spec_hex_byte(b),
{
    proof { reveal_strlit("0x"); }
    let mut s = String::from_str("0x");
    s.append(hex_digit_str(b / 16));
    s.append(hex_digit_str(b % 16));
    assert(s@ =~= spec_hex_byte(b));
    s
}

/// Whether `c` is white space in the sense of `char::is_whitespace`.
pub fn is_whitespace(c: char) -> (b: bool)
    ensures
        b == spec_is_whitespace(c),
{
    let u = c as u32;
    (0x09 <= u && u <= 0x0d) || u == 0x20 || u == 0x85 || u == 0xa0 || u == 0x1680 || (0x2000
        <= u && u <= 0x200a) || u == 0x2028 || u == 0x2029 || u == 0x202f || u == 0x205f || u
        == 0x3000
}

proof fn lemma_trim_start_skip(s: Seq<char>, i: int)
    requires
        0 <= i <= s.len(),
        forall|k: int| 0 <= k < i ==> spec_is_whitespace(#[trigger] s[k]),
    ensures
        spec_trim_start(s) == spec_trim_start(s.skip(i)),
    decreases i,
{
    if i > 0 {
        assert(spec_is_whitespace(s[0]));
        assert forall|k: int| 0 <= k < i - 1 implies spec_is_whitespace(
            #[trigger] s.drop_first()[k],
        ) by {
            assert(s.drop_first()[k] == s[k + 1]);
        }
        lemma_trim_start_skip(s.drop_first(), i - 1);
        assert(s.drop_first().skip(i - 1) =~= s.skip(i));
    } else {
        assert(s.skip(0) =~= s);
    }
}

proof fn lemma_trim_end_take(s: Seq<char>, j: int)
    requires
        0 <= j <= s.len(),
        forall|k: int| j <= k < s.len() ==> spec_is_whitespace(#[trigger] s[k]),
    ensures
        spec_trim_end(s) == spec_trim_end(s.take(j)),
    decreases s.len() - j,
{
    if j < s.len() {
        assert(spec_is_whitespace(s[s.len() - 1]));
        assert forall|k: int| j <= k < s.len() - 1 implies spec_is_whitespace(
            #[trigger] s.drop_last()[k],
        ) by {
            assert(s.drop_last()[k] == s[k]);
        }
        lemma_trim_end_take(s.drop_last(), j);
        assert(s.drop_last().take(j) =~= s.take(j));
    } else {
        assert(s.take(j) =~= s);
    }
}

/// `s` without leading and trailing white space, as `str::trim` gives it.
pub fn trim(s: &str) -> (t: String)
    ensures
        t@ == spec_trim(s@),
{
    let n = s.unicode_len();
    let mut i: usize = 0;
    while i < n && is_whitespace(s.get_char(i))
        invariant
            n == s@.len(),
            i <= n,
            forall|k: int| 0 <= k < i ==> spec_is_whitespace(#[trigger] s@[k]),
        decreases n - i,
    {
        i = i + 1;
    }
    proof {
        lemma_trim_start_skip(s@, i as int);
    }
    let mut j: usize = n;
    while j > i && is_whitespace(s.get_char(j - 1))
        invariant
            n == s@.len(),
            i <= j <= n,
            forall|k: int| j <= k < n ==> spec_is_whitespace(#[trigger] s@[k]),
        decreases j - i,
    {
        j = j - 1;
    }
    let middle = s.substring_char(i, j);
    proof {
        let rest = s@.skip(i as int);
        assert(spec_trim_start(rest) == rest);
        assert forall|k: int| (j - i) <= k < rest.len() implies spec_is_whitespace(
            #[trigger] rest[k],
        ) by {
            assert(rest[k] == s@[k + i]);
        }
        lemma_trim_end_take(rest, (j - i) as int);
        assert(rest.take((j - i) as int) =~= s@.subrange(i as int, j as int));
    }
    middle.to_owned()
}


/// Why a string is not a decimal `i64`, with the kinds of `core::num::IntErrorKind`
/// that a parse can give.
#[derive(Debug, Clone, Copy, PartialEq, Eq, Structural)]
pub enum IntParseError {
    Empty,
    InvalidDigit,
    PosOverflow,
    NegOverflow,
}

/// Whether `c` is an ASCII decimal digit.
pub open spec fn spec_is_digit(c: char) -> bool {
    '0' <= c <= '9'
}

/// Reads `digits` left to right into `acc`, adding each digit for a positive
/// number and subtracting it for a negative one; the first character that
/// is no digit, or the first step that leaves the range `min..=max`, decides
/// the error.
pub open spec fn spec_accumulate(acc: int, digits: Seq<char>, negative: bool, min: int, max: int) -> Result<
    int,
    IntParseError,
>
    decreases digits.len(),
{
    if digits.len() == 0 {
        Ok(acc)
    } else if !spec_is_digit(digits[0]) {
        Err(IntParseError::InvalidDigit)
    } else {
        let d = digits[0] as int - 48;
        let next = if negative { acc * 10 - d } else { acc * 10 + d };
        if next > max {
            Err(IntParseError::PosOverflow)
        } else if next < min {
            Err(IntParseError::NegOverflow)
        } else {
            spec_accumulate(next, digits.drop_first(), negative, min, max)
        }
    }
}

/// What `str::parse` gives for an integer type with the range `min..=max`:
/// an optional sign ('-' only for signed types) followed by at least one
/// decimal digit, within the range.
pub open spec fn spec_parse_int(s: Seq<char>, signed: bool, min: int, max: int) -> Result<int, IntParseError> {
    if s.len() == 0 {
        Err(IntParseError::Empty)
    } else if (s[0] == '+' || s[0] == '-') && s.len() == 1 {
        Err(IntParseError::InvalidDigit)
    } else if s[0] == '+' {
        spec_accumulate(0, s.drop_first(), false, min, max)
    } else if s[0] == '-' && signed {
        spec_accumulate(0, s.drop_first(), true, min, max)
    } else {
        spec_accumulate(0, s, false, min, max)
    }
}

/// What `str::parse::<i64>` gives.
pub open spec fn spec_parse_i64(s: Seq<char>) -> Result<int, IntParseError> {
    spec_parse_int(s, true, i64::MIN as int, i64::MAX as int)
}

/// What `str::parse::<u16>` gives.
pub open spec fn spec_parse_u16(s: Seq<char>) -> Result<int, IntParseError> {
    spec_parse_int(s, false, 0, u16::MAX as int)
}

/// What `str::parse::<usize>` gives.
pub open spec fn spec_parse_usize(s: Seq<char>) -> Result<int, IntParseError> {
    spec_parse_int(s, false, 0, usize::MAX as int)
}

impl IntParseError {
    /// The message that `ParseIntError` displays for this kind.
    pub fn to_string(&self) -> (s: String)
        ensures
            s@ == spec_int_parse_error_message(*self),
    {
        match self {
            IntParseError::Empty => String::from_str("cannot parse integer from empty string"),
            IntParseError::InvalidDigit => String::from_str("invalid digit found in string"),
            IntParseError::PosOverflow => String::from_str("number too large to fit in target type"),
            IntParseError::NegOverflow => String::from_str("number too small to fit in target type"),
        }
    }
}

/// The message of each parse error kind.
pub open spec fn spec_int_parse_error_message(e: IntParseError) -> Seq<char> {
    match e {
        IntParseError::Empty => "cannot parse integer from empty string"@,
        IntParseError::InvalidDigit => "invalid digit found in string"@,
        IntParseError::PosOverflow => "number too large to fit in target type"@,
        IntParseError::NegOverflow => "number too small to fit in target type"@,
    }
}

/// Parses a decimal integer of the range `min..=max` as `str::parse` does
/// for an integer type with that range.
fn parse_int(s: &str, signed: bool, min: i128, max: i128) -> (r: Result<i128, IntParseError>)
    requires
        i64::MIN <= min <= 0,
        0 <= max <= u64::MAX,
    ensures
        match r {
            Ok(v) => spec_parse_int(s@, signed, min as int, max as int) == Ok::<int, IntParseError>(
                v as int,
            ) && min <= v <= max,
            Err(e) => spec_parse_int(s@, signed, min as int, max as int) == Err::<int, IntParseError>(
                e,
            ),
        },
{
    let n = s.unicode_len();
    if n == 0 {
        return Err(IntParseError::Empty);
    }
    let first = s.get_char(0);
    if (first == '+' || first == '-') && n == 1 {
        return Err(IntParseError::InvalidDigit);
    }
    let negative = first == '-' && signed;
    let mut i: usize = if first == '+' || negative { 1 } else { 0 };
    let mut acc: i128 = 0;
    proof {
        assert(s@.skip(1) =~= s@.drop_first());
        assert(s@.skip(0) =~= s@);
    }
    while i < n
        invariant
            n == s@.len(),
            1 <= n,
            i <= n,
            i64::MIN <= min <= 0,
            0 <= max <= u64::MAX,
            min <= acc <= max,
            spec_parse_int(s@, signed, min as int, max as int) == spec_accumulate(
                acc as int,
                s@.skip(i as int),
                negative,
                min as int,
                max as int,
            ),
        decreases n - i,
    {
        let c = s.get_char(i);
        let ghost rest = s@.skip(i as int);
        assert(rest[0] == c);
        assert(rest.drop_first() =~= s@.skip(i + 1));
        if !('0' <= c && c <= '9') {
            return Err(IntParseError::InvalidDigit);
        }
        let d = (c as u32 - 48) as i128;
        let next: i128 = if negative { acc * 10 - d } else { acc * 10 + d };
        if next > max {
            return Err(IntParseError::PosOverflow);
        }
        if next < min {
            return Err(IntParseError::NegOverflow);
        }
        acc = next;
        i = i + 1;
    }
    proof {
        assert(s@.skip(n as int).len() == 0);
    }
    Ok(acc)
}

/// Parses a decimal `i64` as `str::parse::<i64>` does.
pub fn parse_i64(s: &str) -> (r: Result<i64, IntParseError>)
    ensures
        match r {
            Ok(v) => spec_parse_i64(s@) == Ok::<int, IntParseError>(v as int),
            Err(e) => spec_parse_i64(s@) == Err::<int, IntParseError>(e),
        },
{
    match parse_int(s, true, i64::MIN as i128, i64::MAX as i128) {
        Ok(v) => Ok(v as i64),
        Err(e) => Err(e),
    }
}

/// Parses a decimal `u16` as `str::parse::<u16>` does.
pub fn parse_u16(s: &str) -> (r: Result<u16, IntParseError>)
    ensures
        match r {
            Ok(v) => spec_parse_u16(s@) == Ok::<int, IntParseError>(v as int),
            Err(e) => spec_parse_u16(s@) == Err::<int, IntParseError>(e),
        },
{
    match parse_int(s, false, 0, u16::MAX as i128) {
        Ok(v) => Ok(v as u16),
        Err(e) => Err(e),
    }
}

/// Parses a decimal `usize` as `str::parse::<usize>` does.
pub fn parse_usize(s: &str) -> (r: Result<usize, IntParseError>)
    ensures
        match r {
            Ok(v) => spec_parse_usize(s@) == Ok::<int, IntParseError>(v as int),
            Err(e) => spec_parse_usize(s@) == Err::<int, IntParseError>(e),
        },
{
    match parse_int(s, false, 0, usize::MAX as i128) {
        Ok(v) => Ok(v as usize),
        Err(e) => Err(e),
    }
}

pub proof fn lemma_trim_start_first(s: Seq<char>)
    ensures
        spec_trim_start(s).len() == 0 || !spec_is_whitespace(spec_trim_start(s)[0]),
    decreases s.len(),
{
    if s.len() > 0 && spec_is_whitespace(s[0]) {
        lemma_trim_start_first(s.drop_first());
    }
}

proof fn lemma_trim_end_prefix(s: Seq<char>)
    ensures
        spec_trim_end(s).len() <= s.len(),
        spec_trim_end(s) == s.take(spec_trim_end(s).len() as int),
        spec_trim_end(s).len() == 0 || !spec_is_whitespace(spec_trim_end(s).last()),
    decreases s.len(),
{
    if s.len() > 0 && spec_is_whitespace(s.last()) {
        lemma_trim_end_prefix(s.drop_last());
        let t = spec_trim_end(s.drop_last());
        assert(s.drop_last().take(t.len() as int) =~= s.take(t.len() as int));
    } else {
        assert(s.take(s.len() as int) =~= s);
    }
}

/// Trimming twice gives what trimming once gives: a trimmed text neither
/// starts nor ends with white space.
pub proof fn lemma_trim_idempotent(s: Seq<char>)
    ensures
        spec_trim(spec_trim(s)) == spec_trim(s),
        spec_trim(s).len() == 0 || (!spec_is_whitespace(spec_trim(s)[0])
            && !spec_is_whitespace(spec_trim(s).last())),
{
    let t = spec_trim_start(s);
    let u = spec_trim_end(t);
    lemma_trim_start_first(s);
    lemma_trim_end_prefix(t);
    if u.len() > 0 {
        assert(u[0] == t[0]);
        assert(spec_trim_start(u) == u);
        assert(spec_trim_end(u) == u);
    } else {
        assert(spec_trim_start(u) == u);
    }
}


/// The number of characters before the first white space of `s`.
pub open spec fn spec_word_len(s: Seq<char>) -> nat
    decreases s.len(),
{
    if s.len() == 0 || spec_is_whitespace(s[0]) {
        0
    } else {
        1 + spec_word_len(s.drop_first())
    }
}

pub proof fn lemma_word_len_bound(s: Seq<char>)
    ensures
        spec_word_len(s) <= s.len(),
        s.len() > 0 && !spec_is_whitespace(s[0]) ==> spec_word_len(s) >= 1,
    decreases s.len(),
{
    if s.len() > 0 && !spec_is_whitespace(s[0]) {
        lemma_word_len_bound(s.drop_first());
    }
}

pub proof fn lemma_trim_start_len(s: Seq<char>)
    ensures
        spec_trim_start(s).len() <= s.len(),
        spec_trim_start(s) == s.skip(s.len() - spec_trim_start(s).len()),
    decreases s.len(),
{
    if s.len() > 0 && spec_is_whitespace(s[0]) {
        lemma_trim_start_len(s.drop_first());
        let t = spec_trim_start(s.drop_first());
        assert(s.drop_first().skip(s.drop_first().len() - t.len()) =~= s.skip(s.len() - t.len()));
    } else {
        assert(s.skip(0) =~= s);
    }
}

/// The words of `s`: the maximal runs of characters that are no white
/// space, as `str::split_whitespace` yields them.
pub open spec fn spec_words(s: Seq<char>) -> Seq<Seq<char>>
    decreases s.len(),
{
    let t = spec_trim_start(s);
    if t.len() == 0 {
        Seq::empty()
    } else {
        proof {
            lemma_trim_start_len(s);
            lemma_trim_start_first(s);
            lemma_word_len_bound(t);
        }
        let n = spec_word_len(t);
        seq![t.take(n as int)] + spec_words(t.skip(n as int))
    }
}

proof fn lemma_word_len_scan(s: Seq<char>, k: int)
    requires
        0 <= k <= s.len(),
        forall|m: int| 0 <= m < k ==> !spec_is_whitespace(#[trigger] s[m]),
        k == s.len() || spec_is_whitespace(s[k]),
    ensures
        spec_word_len(s) == k,
    decreases k,
{
    if k > 0 {
        assert forall|m: int| 0 <= m < k - 1 implies !spec_is_whitespace(
            #[trigger] s.drop_first()[m],
        ) by {
            assert(s.drop_first()[m] == s[m + 1]);
        }
        if k < s.len() {
            assert(s.drop_first()[k - 1] == s[k]);
        }
        lemma_word_len_scan(s.drop_first(), k - 1);
    }
}

/// The words of `s`, as `str::split_whitespace` yields them.
pub fn split_whitespace(s: &str) -> (words: Vec<String>)
    ensures
        words@.map_values(|w: String| w@) == spec_words(s@),
{
    let n = s.unicode_len();
    let mut words: Vec<String> = Vec::new();
    let mut i: usize = 0;
    assert(s@.skip(0) =~= s@);
    assert(words@.map_values(|w: String| w@) =~= Seq::<Seq<char>>::empty());
    while i < n
        invariant
            n == s@.len(),
            i <= n,
            spec_words(s@) == words@.map_values(|w: String| w@) + spec_words(s@.skip(i as int)),
        ensures
            i == n,
            spec_words(s@) == words@.map_values(|w: String| w@) + spec_words(s@.skip(i as int)),
        decreases n - i,
    {
        let start = i;
        while i < n && is_whitespace(s.get_char(i))
            invariant
                n == s@.len(),
                start <= i <= n,
                forall|k: int| start <= k < i ==> spec_is_whitespace(#[trigger] s@[k]),
            decreases n - i,
        {
            i = i + 1;
        }
        proof {
            let rest = s@.skip(start as int);
            assert forall|k: int| 0 <= k < i - start implies spec_is_whitespace(#[trigger] rest[k]) by {
                assert(rest[k] == s@[start + k]);
            }
            lemma_trim_start_skip(rest, i - start);
            assert(rest.skip(i - start) =~= s@.skip(i as int));
        }
        if i == n {
            proof {
                assert(spec_trim_start(s@.skip(n as int)).len() == 0);
                assert(words@.map_values(|w: String| w@) + Seq::<Seq<char>>::empty()
                    =~= words@.map_values(|w: String| w@));
            }
            break;
        }
        let word_start = i;
        while i < n && !is_whitespace(s.get_char(i))
            invariant
                n == s@.len(),
                word_start <= i <= n,
                forall|k: int| word_start <= k < i ==> !spec_is_whitespace(#[trigger] s@[k]),
            decreases n - i,
        {
            i = i + 1;
        }
        let word = s.substring_char(word_start, i).to_owned();
        proof {
            let t = s@.skip(word_start as int);
            assert(t[0] == s@[word_start as int]);
            assert(spec_trim_start(t) == t);
            assert forall|m: int| 0 <= m < i - word_start implies !spec_is_whitespace(#[trigger] t[m]) by {
                assert(t[m] == s@[word_start + m]);
            }
            if i < n {
                assert(t[i - word_start] == s@[i as int]);
            }
            lemma_word_len_scan(t, i - word_start);
            assert(t.take(i - word_start) =~= s@.subrange(word_start as int, i as int));
            assert(t.skip(i - word_start) =~= s@.skip(i as int));
        }
        let ghost before = words@.map_values(|w: String| w@);
        words.push(word);
        proof {
            assert(words@.map_values(|w: String| w@) =~= before.push(word@));
            let next = spec_words(s@.skip(i as int));
            assert(before + (seq![word@] + next) =~= before.push(word@) + next);
        }
    }
    proof {
        assert(s@.skip(n as int).len() == 0);
        assert(spec_trim_start(s@.skip(n as int)).len() == 0);
        assert(words@.map_values(|w: String| w@) + Seq::<Seq<char>>::empty() =~= words@.map_values(
            |w: String| w@,
        ));
    }
    words
}

/// Whether two strings hold the same characters.
pub fn str_equals(a: &str, b: &str) -> (r: bool)
    ensures
        r == (a@ == b@),
{
    let n = a.unicode_len();
    if n != b.unicode_len() {
        return false;
    }
    let mut i: usize = 0;
    while i < n
        invariant
            n == a@.len(),
            n == b@.len(),
            i <= n,
            forall|k: int| 0 <= k < i ==> a@[k] == b@[k],
        decreases n - i,
    {
        if a.get_char(i) != b.get_char(i) {
            return false;
        }
        i = i + 1;
    }
    assert(a@ =~= b@);
    true
}

proof fn lemma_accumulate_range(acc: int, digits: Seq<char>, negative: bool, min: int, max: int)
    requires
        min <= acc <= max,
    ensures
        spec_accumulate(acc, digits, negative, min, max) matches Ok(v) ==> min <= v <= max,
    decreases digits.len(),
{
    if digits.len() > 0 && spec_is_digit(digits[0]) {
        let d = digits[0] as int - 48;
        let next = if negative { acc * 10 - d } else { acc * 10 + d };
        if min <= next <= max {
            lemma_accumulate_range(next, digits.drop_first(), negative, min, max);
        }
    }
}

/// A number that is read lies within the range of its type.
pub proof fn lemma_parse_int_range(s: Seq<char>, signed: bool, min: int, max: int)
    requires
        min <= 0 <= max,
    ensures
        spec_parse_int(s, signed, min, max) matches Ok(v) ==> min <= v <= max,
{
    if s.len() > 0 {
        lemma_accumulate_range(0, s, false, min, max);
        lemma_accumulate_range(0, s.drop_first(), false, min, max);
        lemma_accumulate_range(0, s.drop_first(), true, min, max);
    }
}

} // verus!
