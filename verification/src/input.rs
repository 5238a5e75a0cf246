//! Text handling for user input: whitespace trimming, title validation,
//! and parsing of the difficulty field.

use vstd::prelude::*;

verus! {

use vstd::string::StrSliceExecFns;

/// True of every character with the Unicode `White_Space` property —
/// exactly the characters that `str::trim` removes.
pub open spec fn is_space_char(c: char) -> bool {
    let u = c as u32;
    ||| u == 0x20
    ||| 0x09 <= u && u <= 0x0D
    ||| u == 0x85
    ||| u == 0xA0
    ||| u == 0x1680
    ||| 0x2000 <= u && u <= 0x200A
    ||| u == 0x2028
    ||| u == 0x2029
    ||| u == 0x202F
    ||| u == 0x205F
    ||| u == 0x3000
}

/// A title is acceptable when it is non-empty after trimming, that is,
/// when it contains at least one non-whitespace character.
pub open spec fn valid_title(s: Seq<char>) -> bool {
    exists|i: int| 0 <= i < s.len() && !is_space_char(s[i])
}

pub fn is_space(c: char) -> (r: bool)
    ensures
        r == is_space_char(c),
{
    let u = c as u32;
    u == 0x20 || (0x09 <= u && u <= 0x0D) || u == 0x85 || u == 0xA0 || u == 0x1680
        || (0x2000 <= u && u <= 0x200A) || u == 0x2028 || u == 0x2029 || u == 0x202F
        || u == 0x205F || u == 0x3000
}

/// Whether a proposed title is non-empty after trimming.
pub fn title_ok(s: &[char]) -> (r: bool)
    ensures
        r == valid_title(s@),
{
    let n = s.len();
    for i in 0..n
        invariant
            n == s@.len(),
            forall|j: int| 0 <= j < i ==> is_space_char(s@[j]),
    {
        if !is_space(s[i]) {
            return true;
        }
    }
    false
}

/// Whether a stored title string is non-empty after trimming.
pub fn title_str_ok(s: &str) -> (r: bool)
    ensures
        r == valid_title(s@),
{
    let n = s.unicode_len();
    for i in 0..n
        invariant
            n == s@.len(),
            forall|j: int| 0 <= j < i ==> is_space_char(s@[j]),
    {
        if !is_space(s.get_char(i)) {
            return true;
        }
    }
    false
}

/// A sequence with its leading whitespace removed.
pub open spec fn drop_leading_spaces(s: Seq<char>) -> Seq<char>
    decreases s.len(),
{
    if s.len() > 0 && is_space_char(s[0]) {
        drop_leading_spaces(s.drop_first())
    } else {
        s
    }
}

/// A sequence with its trailing whitespace removed.
pub open spec fn drop_trailing_spaces(s: Seq<char>) -> Seq<char>
    decreases s.len(),
{
    if s.len() > 0 && is_space_char(s[s.len() - 1]) {
        drop_trailing_spaces(s.drop_last())
    } else {
        s
    }
}

/// A sequence with whitespace removed from both ends — what trimming
/// leaves.
pub open spec fn trimmed(s: Seq<char>) -> Seq<char> {
    drop_trailing_spaces(drop_leading_spaces(s))
}

proof fn lemma_drop_leading_subrange(s: Seq<char>, a: int)
    requires
        0 <= a <= s.len(),
        forall|j: int| 0 <= j < a ==> is_space_char(s[j]),
        a < s.len() ==> !is_space_char(s[a]),
    ensures
        drop_leading_spaces(s) == s.subrange(a, s.len() as int),
    decreases a,
{
    if a == 0 {
        assert(s.subrange(0, s.len() as int) =~= s);
    } else {
        assert(is_space_char(s[0]));
        let rest = s.drop_first();
        assert(rest =~= s.subrange(1, s.len() as int));
        assert(forall|j: int| 0 <= j < a - 1 ==> is_space_char(#[trigger] rest[j]));
        lemma_drop_leading_subrange(rest, a - 1);
        assert(rest.subrange(a - 1, rest.len() as int) =~= s.subrange(a, s.len() as int));
    }
}

proof fn lemma_drop_trailing_subrange(s: Seq<char>, b: int)
    requires
        0 <= b <= s.len(),
        forall|j: int| b <= j < s.len() ==> is_space_char(s[j]),
        b > 0 ==> !is_space_char(s[b - 1]),
    ensures
        drop_trailing_spaces(s) == s.subrange(0, b),
    decreases s.len(),
{
    if b == s.len() {
        if s.len() > 0 {
            assert(!is_space_char(s[s.len() - 1]));
        }
        assert(s.subrange(0, s.len() as int) =~= s);
    } else {
        assert(is_space_char(s[s.len() - 1]));
        let rest = s.drop_last();
        assert(rest =~= s.subrange(0, s.len() - 1));
        lemma_drop_trailing_subrange(rest, b);
        assert(rest.subrange(0, b) =~= s.subrange(0, b));
    }
}

/// Trim whitespace from both ends of a proposed title. The result is
/// empty exactly when the input holds no non-whitespace character, and a
/// non-empty result is itself a well-formed title.
pub fn trim_chars(s: &[char]) -> (r: Vec<char>)
    ensures
        r@ == trimmed(s@),
        valid_title(s@) ==> r@.len() > 0 && valid_title(r@),
        !valid_title(s@) ==> r@.len() == 0,
{
    let n = s.len();
    let mut a: usize = 0;
    while a < n && is_space(s[a])
        invariant
            a <= n,
            n == s@.len(),
            forall|j: int| 0 <= j < a ==> is_space_char(s@[j]),
        decreases n - a,
    {
        a = a + 1;
    }
    if a == n {
        proof {
            lemma_drop_leading_subrange(s@, n as int);
            assert(s@.subrange(n as int, n as int).len() == 0);
        }
        Vec::new()
    } else {
        let mut b: usize = n;
        while is_space(s[b - 1])
            invariant
                a < b <= n,
                n == s@.len(),
                !is_space_char(s@[a as int]),
                forall|j: int| b <= j < n ==> is_space_char(s@[j]),
            decreases b,
        {
            b = b - 1;
        }
        let mut r: Vec<char> = Vec::new();
        let mut i: usize = a;
        while i < b
            invariant
                a <= i <= b <= n,
                n == s@.len(),
                r@ == s@.subrange(a as int, i as int),
            decreases b - i,
        {
            r.push(s[i]);
            proof {
                assert(r@ =~= s@.subrange(a as int, i + 1));
            }
            i = i + 1;
        }
        proof {
            lemma_drop_leading_subrange(s@, a as int);
            let t = s@.subrange(a as int, n as int);
            assert(forall|j: int|
                b - a <= j < t.len() ==> is_space_char(#[trigger] t[j])) by {
                assert(forall|j: int|
                    b - a <= j < t.len() ==> t[j] == s@[j + a] && is_space_char(s@[j + a]));
            }
            lemma_drop_trailing_subrange(t, b - a);
            assert(t.subrange(0, b - a) =~= s@.subrange(a as int, b as int));
            assert(r@ == trimmed(s@));
            assert(r@[0] == s@[a as int]);
        }
        r
    }
}

/// Whether two strings hold the same characters.
pub fn str_eq(a: &str, b: &str) -> (r: bool)
    ensures
        r == (a@ == b@),
{
    let n = a.unicode_len();
    if n != b.unicode_len() {
        return false;
    }
    for i in 0..n
        invariant
            n == a@.len(),
            n == b@.len(),
            forall|j: int| 0 <= j < i ==> a@[j] == b@[j],
    {
        if a.get_char(i) != b.get_char(i) {
            return false;
        }
    }
    proof {
        assert(a@ =~= b@);
    }
    true
}

/// The characters of a string, in order.
pub fn str_to_chars(s: &str) -> (r: Vec<char>)
    ensures
        r@ == s@,
{
    let n = s.unicode_len();
    let mut r: Vec<char> = Vec::new();
    for i in 0..n
        invariant
            n == s@.len(),
            r@ == s@.subrange(0, i as int),
    {
        r.push(s.get_char(i));
        proof {
            assert(r@ =~= s@.subrange(0, i + 1));
        }
    }
    proof {
        assert(r@ =~= s@);
    }
    r
}

pub open spec fn is_digit_char(c: char) -> bool {
    0x30 <= c as u32 && c as u32 <= 0x39
}

pub open spec fn digit_val(c: char) -> int {
    c as u32 - 0x30
}

/// The number a non-empty run of decimal digits denotes.
pub open spec fn digits_value(s: Seq<char>) -> int
    decreases s.len(),
{
    if s.len() == 0 {
        0
    } else {
        digits_value(s.drop_last()) * 10 + digit_val(s.last())
    }
}

pub open spec fn all_digits(s: Seq<char>) -> bool {
    s.len() > 0 && forall|i: int| 0 <= i < s.len() ==> is_digit_char(s[i])
}

/// The integer a piece of text denotes, if any: an optional sign
/// followed by at least one decimal digit, as `str::parse` for a signed
/// 32-bit integer reads it, except that the 32-bit range check is left
/// to the caller.
pub open spec fn parsed_int(s: Seq<char>) -> Option<int> {
    if s.len() > 0 && (s[0] == '+' || s[0] == '-') {
        if all_digits(s.drop_first()) {
            if s[0] == '-' {
                Some(-digits_value(s.drop_first()))
            } else {
                Some(digits_value(s.drop_first()))
            }
        } else {
            None
        }
    } else if all_digits(s) {
        Some(digits_value(s))
    } else {
        None
    }
}

/// What the difficulty input field yields: the text parsed as a signed
/// 32-bit integer, clamped into 1..=10; text that does not parse (or
/// overflows 32 bits) falls back to the middle difficulty 5.
pub open spec fn spec_difficulty(s: Seq<char>) -> u8 {
    match parsed_int(s) {
        Some(v) => if v < -2147483648 || v > 2147483647 {
            5
        } else if v < 1 {
            1
        } else if v > 10 {
            10
        } else {
            v as u8
        },
        None => 5,
    }
}

proof fn lemma_digits_value_nonneg(s: Seq<char>)
    requires
        forall|i: int| 0 <= i < s.len() ==> is_digit_char(s[i]),
    ensures
        digits_value(s) >= 0,
    decreases s.len(),
{
    if s.len() > 0 {
        lemma_digits_value_nonneg(s.drop_last());
    }
}

/// Read the difficulty input field: parse and clamp into 1..=10, with 5
/// for anything unreadable.
pub fn parse_difficulty(s: &[char]) -> (d: u8)
    ensures
        d == spec_difficulty(s@),
        1 <= d <= 10,
{
    let n = s.len();
    if n == 0 {
        return 5;
    }
    let first = s[0];
    let neg = first == '-';
    let start: usize = if first == '-' || first == '+' {
        1
    } else {
        0
    };
    if start == n {
        return 5;
    }
    let ghost digits = s@.subrange(start as int, n as int);
    let mut acc: u64 = 0;
    let mut over = false;
    let mut i: usize = start;
    while i < n
        invariant
            start <= i <= n,
            n == s@.len(),
            start < n,
            (start == 1) == (s@[0] == '+' || s@[0] == '-'),
            start <= 1,
            neg == (s@[0] == '-'),
            digits == s@.subrange(start as int, n as int),
            forall|j: int| start <= j < i ==> is_digit_char(s@[j]),
            !over ==> acc == digits_value(s@.subrange(start as int, i as int)) && acc
                <= 2_147_483_648,
            over ==> digits_value(s@.subrange(start as int, i as int)) > 2_147_483_648,
        decreases n - i,
    {
        let c = s[i];
        let u = c as u32;
        if u < 0x30 || u > 0x39 {
            proof {
                assert(!is_digit_char(digits[i - start]));
                if start == 1 {
                    assert(s@.drop_first() =~= digits);
                } else {
                    assert(s@ =~= digits);
                }
            }
            return 5;
        }
        proof {
            let pre = s@.subrange(start as int, i as int);
            let post = s@.subrange(start as int, i + 1);
            assert(post.drop_last() =~= pre);
            assert(post.last() == s@[i as int]);
            lemma_digits_value_nonneg(pre);
        }
        let digit = (u - 0x30) as u64;
        if !over {
            let next = acc * 10 + digit;
            if next <= 2_147_483_648 {
                acc = next;
            } else {
                over = true;
            }
        }
        i = i + 1;
    }
    proof {
        assert(s@.subrange(start as int, n as int) == digits);
        assert(all_digits(digits));
        if start == 1 {
            assert(s@.drop_first() =~= digits);
        } else {
            assert(s@ =~= digits);
        }
        lemma_digits_value_nonneg(digits);
    }
    if over {
        return 5;
    }
    if neg {
        1
    } else {
        if acc > 2_147_483_647 {
            5
        } else if acc < 1 {
            1
        } else if acc > 10 {
            10
        } else {
            acc as u8
        }
    }
}

} // verus!
