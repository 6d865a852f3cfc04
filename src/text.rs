//! Text rules shared by the request checks: trimming, length in bytes,
//! and escaping of angle brackets.

use vstd::prelude::*;
use vstd::utf8::encode_utf8;

verus! {

/// What `str::trim` leaves of a string.
pub uninterp spec fn trim_of(s: Seq<char>) -> Seq<char>;

/// Relies on `str::trim`: the string without its leading and trailing
/// whitespace, as Unicode defines it.
#[verifier::external_body]
pub(crate) fn trim_str<'a>(s: &'a str) -> (r: &'a str)
    ensures
        r@ == trim_of(s@),
{
    s.trim()
}

/// What `char::is_alphanumeric` says of a character.
pub uninterp spec fn alphanumeric_char(c: char) -> bool;

/// Relies on `char::is_alphanumeric`: whether the character is a Unicode
/// letter or number.
#[verifier::external_body]
pub(crate) fn is_alphanumeric(c: char) -> (r: bool)
    ensures
        r == alphanumeric_char(c),
{
    c.is_alphanumeric()
}

/// The length in bytes of the UTF-8 encoding of `s`.
pub open spec fn utf8_len(s: Seq<char>) -> nat {
    encode_utf8(s).len()
}

/// The replacement of one character: `<` and `>` become their HTML entities.
pub open spec fn escape_char(c: char) -> Seq<char> {
    if c == '<' {
        "&lt;"@
    } else if c == '>' {
        "&gt;"@
    } else {
        seq![c]
    }
}

/// `s` with every `<` and `>` replaced by its HTML entity.
pub open spec fn escaped(s: Seq<char>) -> Seq<char>
    decreases s.len(),
{
    if s.len() == 0 {
        Seq::empty()
    } else {
        escaped(s.drop_last()) + escape_char(s.last())
    }
}

/// Whether `c` occurs in `s`.
pub open spec fn has_char(s: Seq<char>, c: char) -> bool {
    exists|i: int| 0 <= i < s.len() && s[i] == c
}

/// Replaces every `<` by `&lt;` and every `>` by `&gt;`.
pub fn escape_angle_brackets(s: &str) -> (r: String)
    ensures
        r@ == escaped(s@),
{
    proof {
        reveal_strlit("&lt;");
        reveal_strlit("&gt;");
    }
    let n = s.unicode_len();
    let mut out = String::new();
    let mut i: usize = 0;
    while i < n
        invariant
            n == s@.len(),
            i <= n,
            out@ == escaped(s@.take(i as int)),
        decreases n - i,
    {
        let c = s.get_char(i);
        proof {
            let next = s@.take(i as int + 1);
            assert(next.drop_last() =~= s@.take(i as int));
            assert(next.last() == c);
        }
        if c == '<' {
            out.append("&lt;");
        } else if c == '>' {
            out.append("&gt;");
        } else {
            let one = s.substring_char(i, i + 1);
            assert(one@ =~= seq![c]);
            out.append(one);
        }
        i = i + 1;
    }
    assert(s@.take(n as int) =~= s@);
    out
}

/// Whether `c` occurs in `s`.
pub fn contains_char(s: &str, c: char) -> (r: bool)
    ensures
        r == has_char(s@, c),
{
    let n = s.unicode_len();
    let mut i: usize = 0;
    while i < n
        invariant
            n == s@.len(),
            i <= n,
            forall|k: int| 0 <= k < i ==> s@[k] != c,
        decreases n - i,
    {
        if s.get_char(i) == c {
            return true;
        }
        i = i + 1;
    }
    false
}

/// Why a piece of free text was refused.
#[derive(Clone, Copy, Debug, PartialEq, Eq, Structural)]
pub enum TextProblem {
    /// Nothing is left once the surrounding whitespace is removed.
    Empty,
    /// The trimmed text is longer than allowed, in bytes.
    TooLong,
}

/// The outcome of `clean_text` on `raw` with a limit of `max_bytes`.
pub open spec fn cleaned(raw: Seq<char>, max_bytes: nat) -> Result<Seq<char>, TextProblem> {
    let t = trim_of(raw);
    if t.len() == 0 {
        Err(TextProblem::Empty)
    } else if utf8_len(t) > max_bytes {
        Err(TextProblem::TooLong)
    } else {
        Ok(escaped(t))
    }
}

/// Trims free text, refuses it when nothing is left or when it is longer
/// than `max_bytes` bytes, and escapes its angle brackets.
pub fn clean_text(raw: &str, max_bytes: usize) -> (r: Result<String, TextProblem>)
    ensures
        match cleaned(raw@, max_bytes as nat) {
            Ok(t) => r matches Ok(s) && s@ == t,
            Err(e) => r == Err::<String, TextProblem>(e),
        },
{
    let t = trim_str(raw);
    let bytes = t.as_bytes().len();
    assert(bytes == utf8_len(t@));
    if t.is_empty() {
        Err(TextProblem::Empty)
    } else if bytes > max_bytes {
        Err(TextProblem::TooLong)
    } else {
        Ok(escape_angle_brackets(t))
    }
}

} // verus!
