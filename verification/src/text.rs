//! Character and string helpers shared by the C++ and Rust emitters.

use vstd::prelude::*;
use vstd::string::*;

verus! {

/// What `str::to_lowercase` returns for a string: Unicode lower-case mapping of every character.
pub uninterp spec fn lowercase_text(s: Seq<char>) -> Seq<char>;

/// What `str::to_uppercase` returns for a string: Unicode upper-case mapping of every character.
pub uninterp spec fn uppercase_text(s: Seq<char>) -> Seq<char>;

/// What `char::is_uppercase` returns: whether the character has the Unicode `Uppercase` property.
pub uninterp spec fn has_uppercase_property(c: char) -> bool;

/// Calls `str::to_lowercase`. Trusted: the result is the name `lowercase_text` applied to the
/// argument's characters; on a string of ASCII characters only, each capital `A`..`Z` becomes
/// its small letter and every other character stays (the Unicode lower-case mapping restricted
/// to ASCII). The mapping of other characters is not stated.
#[verifier::external_body]
pub(crate) fn to_lowercase(s: &str) -> (r: String)
    ensures
        r@ == lowercase_text(s@),
        is_ascii_text(s@) ==> r@ == s@.map_values(|c: char| ascii_lower(c)),
{
    s.to_lowercase()
}

/// Calls `str::to_uppercase`. Trusted: the result is the name `uppercase_text` applied to the
/// argument's characters; on a string of ASCII characters only, each small letter `a`..`z`
/// becomes its capital and every other character stays (the Unicode upper-case mapping
/// restricted to ASCII). The mapping of other characters is not stated.
#[verifier::external_body]
pub(crate) fn to_uppercase(s: &str) -> (r: String)
    ensures
        r@ == uppercase_text(s@),
        is_ascii_text(s@) ==> r@ == s@.map_values(|c: char| ascii_upper(c)),
{
    s.to_uppercase()
}

/// Calls `char::is_uppercase`. Trusted: the result is the name `has_uppercase_property` of the
/// character; among ASCII characters exactly `A`..`Z` carry the Unicode `Uppercase` property.
/// Which other characters carry it is not stated.
#[verifier::external_body]
pub(crate) fn char_is_uppercase(c: char) -> (r: bool)
    ensures
        r == has_uppercase_property(c),
        (c as u32) < 128 ==> (r == is_ascii_capital(c)),
{
    c.is_uppercase()
}

/// Whether every character of the text is ASCII.
pub open spec fn is_ascii_text(s: Seq<char>) -> bool {
    forall|i: int| 0 <= i < s.len() ==> (#[trigger] s[i] as u32) < 128
}

/// Whether a character is upper case: `A`..`Z` among ASCII characters, the Unicode
/// `Uppercase` property beyond them.
pub open spec fn is_upper(c: char) -> bool {
    if (c as u32) < 128 {
        is_ascii_capital(c)
    } else {
        has_uppercase_property(c)
    }
}

/// The lower-case form of a text: the ASCII mapping on ASCII text, the Unicode mapping beyond it.
pub open spec fn lower_text(s: Seq<char>) -> Seq<char> {
    if is_ascii_text(s) {
        s.map_values(|c: char| ascii_lower(c))
    } else {
        lowercase_text(s)
    }
}

/// The upper-case form of a text: the ASCII mapping on ASCII text, the Unicode mapping beyond it.
pub open spec fn upper_text(s: Seq<char>) -> Seq<char> {
    if is_ascii_text(s) {
        s.map_values(|c: char| ascii_upper(c))
    } else {
        uppercase_text(s)
    }
}

/// `char::to_ascii_uppercase`: small ASCII letters map to capitals, every other character to itself.
pub open spec fn ascii_upper(c: char) -> char {
    if 'a' <= c && c <= 'z' {
        ((c as u32) - 32) as char
    } else {
        c
    }
}

/// Calls `String::push`. Trusted: appends the one character, as the documentation says.
#[verifier::external_body]
pub(crate) fn push_char(s: &mut String, c: char)
    ensures
        final(s)@ == old(s)@.push(c),
{
    s.push(c)
}

/// `char::to_ascii_lowercase`: ASCII capitals map to small letters, every other character to itself.
pub open spec fn ascii_lower(c: char) -> char {
    if 'A' <= c && c <= 'Z' {
        ((c as u32) + 32) as char
    } else {
        c
    }
}

pub fn to_ascii_lower(c: char) -> (r: char)
    ensures
        r == ascii_lower(c),
{
    if 'A' <= c && c <= 'Z' {
        let u: u8 = (c as u8) + 32;
        u as char
    } else {
        c
    }
}

/// The snake-case form of an identifier: every upper-case character after the first is
/// preceded by an underscore, and every character is lowered in the ASCII sense.
/// `snake_upto(s, n)` is that transformation of the first `n` characters.
pub open spec fn snake_upto(s: Seq<char>, n: int) -> Seq<char>
    decreases n,
{
    if n <= 0 {
        Seq::empty()
    } else {
        let c = s[n - 1];
        let before = snake_upto(s, n - 1);
        if n - 1 > 0 && is_upper(c) {
            before.push('_').push(ascii_lower(c))
        } else {
            before.push(ascii_lower(c))
        }
    }
}

pub open spec fn snake(s: Seq<char>) -> Seq<char> {
    snake_upto(s, s.len() as int)
}

pub fn snake_case(name: &str) -> (r: String)
    ensures
        r@ == snake(name@),
{
    let mut out = String::new();
    let n = name.unicode_len();
    let mut i: usize = 0;
    while i < n
        invariant
            n == name@.len(),
            i <= n,
            out@ == snake_upto(name@, i as int),
        decreases n - i,
    {
        let c = name.get_char(i);
        if i > 0 && char_is_uppercase(c) {
            push_char(&mut out, '_');
        }
        push_char(&mut out, to_ascii_lower(c));
        i = i + 1;
    }
    out
}

/// A name that can be sliced at its first byte: non-empty, with an ASCII first character.
pub open spec fn ascii_initial(s: Seq<char>) -> bool {
    s.len() > 0 && (s[0] as u32) < 128
}

pub open spec fn spec_upper_initial(s: Seq<char>) -> Seq<char> {
    upper_text(s.subrange(0, 1)) + s.subrange(1, s.len() as int)
}

pub open spec fn spec_lower_initial(s: Seq<char>) -> Seq<char> {
    lower_text(s.subrange(0, 1)) + s.subrange(1, s.len() as int)
}

/// The name with its first character upper-cased.
pub fn upper_initial(name: &str) -> (r: String)
    requires
        ascii_initial(name@),
    ensures
        r@ == spec_upper_initial(name@),
{
    let n = name.unicode_len();
    let head = to_uppercase(name.substring_char(0, 1));
    head.concat(name.substring_char(1, n))
}

/// The name with its first character lower-cased.
pub fn lower_initial(name: &str) -> (r: String)
    requires
        ascii_initial(name@),
    ensures
        r@ == spec_lower_initial(name@),
{
    let n = name.unicode_len();
    let head = to_lowercase(name.substring_char(0, 1));
    head.concat(name.substring_char(1, n))
}

pub open spec fn digit(d: nat) -> char {
    ((d % 10) + 48) as char
}

/// The decimal digits of a natural number, as `Display` writes them.
pub open spec fn decimal(n: nat) -> Seq<char>
    decreases n,
{
    if n < 10 {
        seq![digit(n)]
    } else {
        decimal(n / 10).push(digit(n % 10))
    }
}

pub fn usize_to_decimal(n: usize) -> (r: String)
    ensures
        r@ == decimal(n as nat),
    decreases n,
{
    if n < 10 {
        let mut s = String::new();
        push_char(&mut s, digit_char(n));
        proof {
            assert(s@ =~= seq![digit(n as nat)]);
        }
        s
    } else {
        let mut s = usize_to_decimal(n / 10);
        push_char(&mut s, digit_char(n % 10));
        s
    }
}

fn digit_char(d: usize) -> (c: char)
    requires
        d < 10,
    ensures
        c == digit(d as nat),
{
    let u: u8 = (d as u8) + 48;
    u as char
}

pub open spec fn is_ascii_capital(c: char) -> bool {
    'A' <= c && c <= 'Z'
}

/// The snake-case form of a name holds no ASCII capital letter.
pub proof fn law_snake_has_no_ascii_capitals(s: Seq<char>)
    ensures
        forall|i: int| 0 <= i < snake(s).len() ==> !is_ascii_capital(#[trigger] snake(s)[i]),
{
    lemma_snake_upto_no_capitals(s, s.len() as int);
}

proof fn lemma_snake_upto_no_capitals(s: Seq<char>, n: int)
    ensures
        forall|i: int| 0 <= i < snake_upto(s, n).len() ==> !is_ascii_capital(#[trigger] snake_upto(s, n)[i]),
    decreases n,
{
    if n > 0 {
        lemma_snake_upto_no_capitals(s, n - 1);
        let c = s[n - 1];
        if is_ascii_capital(c) {
            assert(ascii_lower(c) == ((c as u32) + 32) as char);
            assert('a' <= ascii_lower(c) && ascii_lower(c) <= 'z');
        }
        assert(!is_ascii_capital(ascii_lower(c)));
        let prev = snake_upto(s, n - 1);
        let cur = snake_upto(s, n);
        assert forall|i: int| 0 <= i < cur.len() implies !is_ascii_capital(#[trigger] cur[i]) by {
            if i < prev.len() {
                assert(cur[i] == prev[i]);
            }
        }
    }
}

/// A name without upper-case characters is its own snake-case form.
pub proof fn law_snake_keeps_lower_case_names(s: Seq<char>)
    requires
        forall|i: int| 0 <= i < s.len() ==> !is_upper(#[trigger] s[i]),
    ensures
        snake(s) == s,
{
    lemma_snake_upto_lower(s, s.len() as int);
    assert(s.subrange(0, s.len() as int) =~= s);
}

proof fn lemma_snake_upto_lower(s: Seq<char>, n: int)
    requires
        0 <= n <= s.len(),
        forall|i: int| 0 <= i < s.len() ==> !is_upper(#[trigger] s[i]),
    ensures
        snake_upto(s, n) == s.subrange(0, n),
    decreases n,
{
    if n > 0 {
        lemma_snake_upto_lower(s, n - 1);
        assert(!is_ascii_capital(s[n - 1]));
        assert(s.subrange(0, n) =~= s.subrange(0, n - 1).push(s[n - 1]));
    }
}

/// The decimal form of a number is a non-empty run of the digits `0` to `9`.
pub proof fn law_decimal_digits(n: nat)
    ensures
        decimal(n).len() >= 1,
        forall|i: int| 0 <= i < decimal(n).len() ==> '0' <= #[trigger] decimal(n)[i] && decimal(n)[i] <= '9',
    decreases n,
{
    if n >= 10 {
        law_decimal_digits(n / 10);
    }
    assert('0' <= digit(n % 10) && digit(n % 10) <= '9');
}

/// Replacing the dots of a name keeps its length and leaves no dot.
pub proof fn law_no_dots_left(s: Seq<char>)
    ensures
        dots_to_underscores(s).len() == s.len(),
        forall|i: int| 0 <= i < s.len() ==> #[trigger] dots_to_underscores(s)[i] != '.',
{
}

/// Every `.` replaced by `_`, as `str::replace(".", "_")` does.
pub open spec fn dots_to_underscores(s: Seq<char>) -> Seq<char> {
    s.map_values(|c: char| if c == '.' { '_' } else { c })
}

pub fn replace_dots(s: &str) -> (r: String)
    ensures
        r@ == dots_to_underscores(s@),
{
    let mut out = String::new();
    let n = s.unicode_len();
    let mut i: usize = 0;
    while i < n
        invariant
            n == s@.len(),
            i <= n,
            out@ =~= dots_to_underscores(s@.subrange(0, i as int)),
        decreases n - i,
    {
        let c = s.get_char(i);
        if c == '.' {
            push_char(&mut out, '_');
        } else {
            push_char(&mut out, c);
        }
        proof {
            assert(s@.subrange(0, i + 1) =~= s@.subrange(0, i as int).push(c));
        }
        i = i + 1;
    }
    proof {
        assert(s@.subrange(0, n as int) =~= s@);
    }
    out
}

/// Whether `t` occurs in `s` as a contiguous piece.
pub open spec fn holds_text(s: Seq<char>, t: Seq<char>) -> bool {
    exists|a: Seq<char>, b: Seq<char>| s == a + t + b
}

/// Whether `s` ends with `t`.
pub open spec fn ends_with_text(s: Seq<char>, t: Seq<char>) -> bool {
    exists|a: Seq<char>| s == a + t
}

/// Whether two strings hold the same characters.
pub fn str_eq(a: &str, b: &str) -> (r: bool)
    ensures
        r == (a@ == b@),
{
    let x = String::from_str(a);
    let y = String::from_str(b);
    x == y
}

} // verus!
