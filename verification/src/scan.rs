//! Character classes and low-level scanners of the VSS grammar.
//!
//! Every scanner is an executable function proved equal to a small recursive
//! specification over the view of its input, so that the higher parsing layers
//! can state their own contracts purely in terms of these specifications.

use vstd::prelude::*;
use vstd::string::StrSliceExecFns;
use vstd::string::StringExecFns;

verus! {

// ---------------------------------------------------------------------------
// Character classes
// ---------------------------------------------------------------------------

/// Indentation and token separation use plain spaces; tabs are not part of
/// the accepted input language.
pub open spec fn is_space_char(c: char) -> bool {
    c == ' '
}

pub open spec fn is_digit_char(c: char) -> bool {
    '0' <= c && c <= '9'
}

pub open spec fn is_alnum_char(c: char) -> bool {
    is_digit_char(c) || ('a' <= c && c <= 'z') || ('A' <= c && c <= 'Z')
}

/// Characters of a label or argument token: alphanumerics and dots.
pub open spec fn is_argument_char(c: char) -> bool {
    is_alnum_char(c) || c == '.'
}

pub open spec fn is_ascii_char(c: char) -> bool {
    (c as u32) < 128
}

pub open spec fn is_ascii_space_like(c: char) -> bool {
    c == ' ' || c == '\t' || c == '\n' || c == '\r' || c == '\u{c}'
}

/// Characters of a path token: printable ASCII without whitespace.
pub open spec fn is_pathname_char(c: char) -> bool {
    is_ascii_char(c) && !is_ascii_space_like(c)
}

/// Characters allowed inside a double-quoted string.
pub open spec fn is_dq_string_char(c: char) -> bool {
    is_ascii_char(c) && c != '"'
}

/// Characters allowed inside a single-quoted string.
pub open spec fn is_sq_string_char(c: char) -> bool {
    is_ascii_char(c) && c != '\''
}

/// Characters that do not end a line.
pub open spec fn is_line_char(c: char) -> bool {
    c != '\n' && c != '\r'
}

/// Characters other than a newline.
pub open spec fn is_not_nl_char(c: char) -> bool {
    c != '\n'
}

/// The character classes the scanners can run over.
#[derive(Clone, Copy, PartialEq, Eq, Structural, Debug)]
pub enum CharClass {
    Space,
    Digit,
    Argument,
    Alnum,
    Pathname,
    DqString,
    SqString,
    Line,
    NotNl,
}

/// The membership predicate of a character class, as a single definition so
/// that all mentions of a class denote the same predicate.
pub open spec fn class_pred(k: CharClass) -> spec_fn(char) -> bool {
    match k {
        CharClass::Space => |c: char| is_space_char(c),
        CharClass::Digit => |c: char| is_digit_char(c),
        CharClass::Argument => |c: char| is_argument_char(c),
        CharClass::Alnum => |c: char| is_alnum_char(c),
        CharClass::Pathname => |c: char| is_pathname_char(c),
        CharClass::DqString => |c: char| is_dq_string_char(c),
        CharClass::SqString => |c: char| is_sq_string_char(c),
        CharClass::Line => |c: char| is_line_char(c),
        CharClass::NotNl => |c: char| is_not_nl_char(c),
    }
}

/// Decides membership of a character in a class.
pub fn char_in_class(c: char, k: CharClass) -> (r: bool)
    ensures
        r == class_pred(k)(c),
{
    match k {
        CharClass::Space => c == ' ',
        CharClass::Digit => '0' <= c && c <= '9',
        CharClass::Argument => {
            ('0' <= c && c <= '9') || ('a' <= c && c <= 'z') || ('A' <= c && c <= 'Z') || c == '.'
        },
        CharClass::Alnum => {
            ('0' <= c && c <= '9') || ('a' <= c && c <= 'z') || ('A' <= c && c <= 'Z')
        },
        CharClass::Pathname => {
            (c as u32) < 128 && !(c == ' ' || c == '\t' || c == '\n' || c == '\r' || c == '\u{c}')
        },
        CharClass::DqString => (c as u32) < 128 && c != '"',
        CharClass::SqString => (c as u32) < 128 && c != '\'',
        CharClass::Line => c != '\n' && c != '\r',
        CharClass::NotNl => c != '\n',
    }
}

// ---------------------------------------------------------------------------
// Scanning
// ---------------------------------------------------------------------------

/// Position of the first character at or after `i` that falls outside `p`,
/// or the end of the text if every remaining character is inside.
pub open spec fn scan_spec(s: Seq<char>, i: int, p: spec_fn(char) -> bool) -> int
    decreases s.len() - i,
{
    if i < 0 || i >= s.len() {
        i
    } else if p(s[i]) {
        scan_spec(s, i + 1, p)
    } else {
        i
    }
}

/// Shorthand for scanning by a character class.
pub open spec fn scan_class_spec(s: Seq<char>, i: int, k: CharClass) -> int {
    scan_spec(s, i, class_pred(k))
}

pub proof fn lemma_scan_spec_bounds(s: Seq<char>, i: int, p: spec_fn(char) -> bool)
    requires
        0 <= i <= s.len(),
    ensures
        i <= scan_spec(s, i, p) <= s.len(),
    decreases s.len() - i,
{
    if i < s.len() && p(s[i]) {
        lemma_scan_spec_bounds(s, i + 1, p);
    }
}

/// Runs a class over the text starting at `i` and returns where it stops.
pub fn scan(s: &str, i: usize, k: CharClass) -> (r: usize)
    requires
        i <= s@.len(),
    ensures
        r == scan_class_spec(s@, i as int, k),
        i <= r <= s@.len(),
{
    let n = s.unicode_len();
    let mut j = i;
    while j < n && char_in_class(s.get_char(j), k)
        invariant
            i <= j <= n,
            n == s@.len(),
            scan_spec(s@, i as int, class_pred(k)) == scan_spec(s@, j as int, class_pred(k)),
        decreases n - j,
    {
        j += 1;
    }
    assert(scan_spec(s@, j as int, class_pred(k)) == j);
    j
}

// ---------------------------------------------------------------------------
// End of line
// ---------------------------------------------------------------------------

/// A line ends at a newline character or at the end of the text; the latter
/// consumes nothing.
pub open spec fn eol_spec(s: Seq<char>, i: int) -> Option<int> {
    if 0 <= i < s.len() && s[i] == '\n' {
        Some(i + 1)
    } else if i == s.len() {
        Some(i)
    } else {
        None
    }
}

/// Relates an executable optional position to its specification counterpart.
pub open spec fn opt_pos_ok(r: Option<usize>, m: Option<int>) -> bool {
    match r {
        Some(a) => m == Some(a as int),
        None => m is None,
    }
}

pub fn eol(s: &str, i: usize) -> (r: Option<usize>)
    requires
        i <= s@.len(),
    ensures
        opt_pos_ok(r, eol_spec(s@, i as int)),
{
    let n = s.unicode_len();
    if i < n {
        if s.get_char(i) == '\n' {
            Some(i + 1)
        } else {
            None
        }
    } else {
        Some(i)
    }
}

// ---------------------------------------------------------------------------
// Literal matching
// ---------------------------------------------------------------------------

/// The text carries `tag` starting at position `i`.
pub open spec fn has_tag_spec(s: Seq<char>, i: int, tag: Seq<char>) -> bool {
    0 <= i && i + tag.len() <= s.len() && s.subrange(i, i + tag.len()) == tag
}

/// Checks whether `tag` stands at position `i` of the text.
pub fn has_tag(s: &str, i: usize, tag: &str) -> (r: bool)
    requires
        i <= s@.len(),
    ensures
        r == has_tag_spec(s@, i as int, tag@),
{
    let n = s.unicode_len();
    let m = tag.unicode_len();
    if m > n - i {
        assert(!has_tag_spec(s@, i as int, tag@));
        return false;
    }
    let mut j: usize = 0;
    while j < m
        invariant
            0 <= j <= m,
            m == tag@.len(),
            n == s@.len(),
            i + m <= n,
            forall|x: int| 0 <= x < j ==> s@[i + x] == tag@[x],
        decreases m - j,
    {
        if s.get_char(i + j) != tag.get_char(j) {
            assert(s@.subrange(i as int, i + tag@.len()) != tag@) by {
                assert(s@.subrange(i as int, i + tag@.len())[j as int] == s@[i + j]);
            }
            return false;
        }
        j += 1;
    }
    assert(s@.subrange(i as int, i + tag@.len()) =~= tag@);
    true
}

/// Exact equality of two pieces of text.
pub fn str_eq(a: &str, b: &str) -> (r: bool)
    ensures
        r == (a@ == b@),
{
    let n = a.unicode_len();
    if n != b.unicode_len() {
        return false;
    }
    let mut j: usize = 0;
    while j < n
        invariant
            0 <= j <= n,
            n == a@.len(),
            n == b@.len(),
            forall|x: int| 0 <= x < j ==> a@[x] == b@[x],
        decreases n - j,
    {
        if a.get_char(j) != b.get_char(j) {
            return false;
        }
        j += 1;
    }
    assert(a@ =~= b@);
    true
}

// ---------------------------------------------------------------------------
// Case folding (ASCII)
// ---------------------------------------------------------------------------

/// ASCII lower-casing of one character.
pub open spec fn lower_char(c: char) -> char {
    if 'A' <= c && c <= 'Z' {
        (((c as u32) + 32) as u8) as char
    } else {
        c
    }
}

/// ASCII lower-casing of a piece of text.
pub open spec fn lower_seq(s: Seq<char>) -> Seq<char> {
    s.map_values(|c: char| lower_char(c))
}

pub fn to_lower_char(c: char) -> (r: char)
    ensures
        r == lower_char(c),
{
    if 'A' <= c && c <= 'Z' {
        (((c as u32) + 32) as u8) as char
    } else {
        c
    }
}

/// Equality of two pieces of text up to ASCII case.
pub fn str_eq_lower(a: &str, b: &str) -> (r: bool)
    ensures
        r == (lower_seq(a@) == lower_seq(b@)),
{
    let n = a.unicode_len();
    if n != b.unicode_len() {
        assert(lower_seq(a@).len() != lower_seq(b@).len());
        return false;
    }
    let mut j: usize = 0;
    while j < n
        invariant
            0 <= j <= n,
            n == a@.len(),
            n == b@.len(),
            forall|x: int| 0 <= x < j ==> lower_char(a@[x]) == lower_char(b@[x]),
        decreases n - j,
    {
        if to_lower_char(a.get_char(j)) != to_lower_char(b.get_char(j)) {
            assert(lower_seq(a@)[j as int] != lower_seq(b@)[j as int]);
            return false;
        }
        j += 1;
    }
    assert(lower_seq(a@) =~= lower_seq(b@));
    true
}

// ---------------------------------------------------------------------------
// Decimal values
// ---------------------------------------------------------------------------

/// Numeric value of a digit run, most significant digit first.
pub open spec fn digits_value(s: Seq<char>) -> int
    decreases s.len(),
{
    if s.len() == 0 {
        0
    } else {
        digits_value(s.drop_last()) * 10 + (s.last() as int - '0' as int)
    }
}

/// Value of the digit run `s[from..]`, or nothing if that run is empty or
/// holds a character that is not a digit.
pub open spec fn digits_opt(s: Seq<char>, from: int) -> Option<int> {
    if 0 <= from < s.len() && (forall|j: int| from <= j < s.len() ==> is_digit_char(s[j])) {
        Some(digits_value(s.subrange(from, s.len() as int)))
    } else {
        None
    }
}

/// What `str::parse::<usize>` yields on a token drawn from the grammar's
/// numeric and argument alphabets: a plain digit run within range.
pub open spec fn parse_usize_spec(s: Seq<char>) -> Option<usize> {
    match digits_opt(s, 0) {
        Some(v) => if v <= usize::MAX {
            Some(v as usize)
        } else {
            None
        },
        None => None,
    }
}

/// What `str::parse::<i64>` yields on a token drawn from the grammar's
/// numeric alphabet: an optional minus sign, then a digit run within range.
pub open spec fn parse_i64_spec(s: Seq<char>) -> Option<i64> {
    if s.len() > 0 && s[0] == '-' {
        match digits_opt(s, 1) {
            Some(v) => if v <= 0x8000_0000_0000_0000 {
                Some((0 - v) as i64)
            } else {
                None
            },
            None => None,
        }
    } else {
        match digits_opt(s, 0) {
            Some(v) => if v <= i64::MAX {
                Some(v as i64)
            } else {
                None
            },
            None => None,
        }
    }
}

pub proof fn lemma_digits_value_nonneg(s: Seq<char>)
    requires
        forall|j: int| 0 <= j < s.len() ==> is_digit_char(s[j]),
    ensures
        digits_value(s) >= 0,
    decreases s.len(),
{
    if s.len() > 0 {
        lemma_digits_value_nonneg(s.drop_last());
    }
}

/// Appending digits never shrinks the value.
proof fn lemma_digits_value_prefix(s: Seq<char>, i: int)
    requires
        forall|j: int| 0 <= j < s.len() ==> is_digit_char(s[j]),
        0 <= i <= s.len(),
    ensures
        digits_value(s.subrange(0, i)) <= digits_value(s),
    decreases s.len() - i,
{
    if i == s.len() {
        assert(s.subrange(0, i) =~= s);
    } else {
        lemma_digits_value_prefix(s, i + 1);
        let a = s.subrange(0, i);
        let b = s.subrange(0, i + 1);
        assert(b.drop_last() =~= a);
        assert(digits_value(b) == digits_value(a) * 10 + (s[i] as int - '0' as int));
        lemma_digits_value_nonneg(a);
    }
}

/// Digit run of `t[from..]` evaluated with saturation: yields the value when
/// every character is a digit and the value stays within `cap`, nothing
/// otherwise.
fn parse_digits_capped(t: &str, from: usize, cap: u64) -> (r: Option<u64>)
    requires
        from <= t@.len(),
    ensures
        match digits_opt(t@, from as int) {
            Some(v) => if v <= cap {
                r == Some(v as u64) && v == r.unwrap() as int
            } else {
                r is None
            },
            None => r is None,
        },
{
    let n = t.unicode_len();
    if from >= n {
        return None;
    }
    let ghost whole = t@.subrange(from as int, t@.len() as int);
    let mut acc: u64 = 0;
    let mut j = from;
    let mut over = false;
    while j < n
        invariant
            from <= j <= n,
            n == t@.len(),
            whole == t@.subrange(from as int, t@.len() as int),
            forall|x: int| from <= x < j ==> is_digit_char(t@[x]),
            !over ==> acc as int == digits_value(t@.subrange(from as int, j as int)) && acc
                <= cap,
            over ==> (forall|x: int| from <= x < t@.len() ==> is_digit_char(t@[x])) ==> digits_value(
                whole,
            ) > cap,
        decreases n - j,
    {
        let c = t.get_char(j);
        if !('0' <= c && c <= '9') {
            return None;
        }
        let d: u64 = (c as u32 as u64) - 48;
        let too_big = acc as u128 * 10 + d as u128 > cap as u128;
        proof {
            let a = t@.subrange(from as int, j as int);
            let b = t@.subrange(from as int, j + 1);
            assert(b.drop_last() =~= a);
            assert(digits_value(b) == digits_value(a) * 10 + (t@[j as int] as int - '0' as int));
            if !over && too_big {
                assert((forall|x: int| from <= x < t@.len() ==> is_digit_char(t@[x]))
                    ==> digits_value(whole) > cap) by {
                    if forall|x: int| from <= x < t@.len() ==> is_digit_char(t@[x]) {
                        assert(forall|x: int| 0 <= x < whole.len() ==> is_digit_char(whole[x]));
                        lemma_digits_value_prefix(whole, j + 1 - from);
                        assert(whole.subrange(0, j + 1 - from) =~= b);
                    }
                }
            }
        }
        if !over {
            if too_big {
                over = true;
            } else {
                acc = acc * 10 + d;
            }
        }
        j += 1;
    }
    proof {
        assert(t@.subrange(from as int, j as int) =~= whole);
    }
    if over {
        None
    } else {
        Some(acc)
    }
}

/// Decimal parse of a token into a `usize`, exactly as the standard library
/// parses tokens drawn from the grammar's alphabets.
pub fn parse_usize_token(t: &str) -> (r: Option<usize>)
    ensures
        r == parse_usize_spec(t@),
{
    match parse_digits_capped(t, 0, u64::MAX) {
        Some(v) => {
            if v <= usize::MAX as u64 {
                Some(v as usize)
            } else {
                None
            }
        },
        None => None,
    }
}

/// Decimal parse of a token into an `i64`, exactly as the standard library
/// parses tokens drawn from the grammar's numeric alphabet.
pub fn parse_i64_token(t: &str) -> (r: Option<i64>)
    ensures
        r == parse_i64_spec(t@),
{
    let n = t.unicode_len();
    if n > 0 && t.get_char(0) == '-' {
        match parse_digits_capped(t, 1, 0x8000_0000_0000_0000) {
            Some(v) => {
                if v == 0x8000_0000_0000_0000 {
                    Some(i64::MIN)
                } else {
                    Some(-(v as i64))
                }
            },
            None => None,
        }
    } else {
        match parse_digits_capped(t, 0, i64::MAX as u64) {
            Some(v) => Some(v as i64),
            None => None,
        }
    }
}

// ---------------------------------------------------------------------------
// Decimal rendering
// ---------------------------------------------------------------------------

pub open spec fn digit_char(d: int) -> char {
    if d == 0 {
        '0'
    } else if d == 1 {
        '1'
    } else if d == 2 {
        '2'
    } else if d == 3 {
        '3'
    } else if d == 4 {
        '4'
    } else if d == 5 {
        '5'
    } else if d == 6 {
        '6'
    } else if d == 7 {
        '7'
    } else if d == 8 {
        '8'
    } else {
        '9'
    }
}

/// Decimal rendering of a number, most significant digit first.
pub open spec fn dec_seq(n: int) -> Seq<char>
    decreases n,
{
    if n < 10 {
        seq![digit_char(n)]
    } else {
        dec_seq(n / 10) + seq![digit_char(n % 10)]
    }
}

fn digit_str(d: u32) -> (r: &'static str)
    requires
        d < 10,
    ensures
        r@ == seq![digit_char(d as int)],
{
    proof {
        reveal_strlit("0");
        reveal_strlit("1");
        reveal_strlit("2");
        reveal_strlit("3");
        reveal_strlit("4");
        reveal_strlit("5");
        reveal_strlit("6");
        reveal_strlit("7");
        reveal_strlit("8");
        reveal_strlit("9");
    }
    let r = match d {
        0 => "0",
        1 => "1",
        2 => "2",
        3 => "3",
        4 => "4",
        5 => "5",
        6 => "6",
        7 => "7",
        8 => "8",
        _ => "9",
    };
    proof {
        assert(r@ =~= seq![digit_char(d as int)]);
    }
    r
}

/// Renders a number in decimal.
pub fn u32_to_dec(n: u32) -> (r: String)
    ensures
        r@ == dec_seq(n as int),
    decreases n,
{
    if n < 10 {
        let mut s = String::new();
        s.append(digit_str(n));
        proof {
            assert(s@ =~= dec_seq(n as int));
        }
        s
    } else {
        let mut s = u32_to_dec(n / 10);
        s.append(digit_str(n % 10));
        proof {
            assert(s@ =~= dec_seq(n as int));
        }
        s
    }
}

} // verus!
