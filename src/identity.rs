//! Identity texts: which strings name a UUID, and the canonical form they
//! are rendered in.

use uuid::Error as UuidError;
use uuid::Uuid;
use vstd::prelude::*;

verus! {

#[verifier::external_type_specification]
#[verifier::external_body]
pub struct ExUuidError(UuidError);

/// Positions of the hyphens in the 36-character form.
pub open spec fn is_hyphen_index(i: int) -> bool {
    i == 8 || i == 13 || i == 18 || i == 23
}

pub open spec fn is_hex_char(c: char) -> bool {
    ('0' <= c && c <= '9') || ('a' <= c && c <= 'f') || ('A' <= c && c <= 'F')
}

pub open spec fn is_lower_hex_char(c: char) -> bool {
    ('0' <= c && c <= '9') || ('a' <= c && c <= 'f')
}

/// Thirty-two hex digits and nothing else.
pub open spec fn is_simple_form(s: Seq<char>) -> bool {
    &&& s.len() == 32
    &&& forall|i: int| 0 <= i < 32 ==> is_hex_char(#[trigger] s[i])
}

/// Hex digits in groups of 8-4-4-4-12, joined by hyphens.
pub open spec fn is_hyphenated_form(s: Seq<char>) -> bool {
    &&& s.len() == 36
    &&& forall|i: int|
        #![trigger s[i]]
        0 <= i < 36 ==> if is_hyphen_index(i) {
            s[i] == '-'
        } else {
            is_hex_char(s[i])
        }
}

pub open spec fn urn_prefix() -> Seq<char> {
    seq!['u', 'r', 'n', ':', 'u', 'u', 'i', 'd', ':']
}

/// A text that names a UUID: the simple form, the hyphenated form, the
/// hyphenated form in braces, or the hyphenated form after `urn:uuid:`.
/// Hex digits may be of either case.
pub open spec fn is_identity_text(s: Seq<char>) -> bool {
    ||| is_simple_form(s)
    ||| is_hyphenated_form(s)
    ||| (s.len() == 38 && s[0] == '{' && s[37] == '}' && is_hyphenated_form(s.subrange(1, 37)))
    ||| (s.len() == 45 && s.subrange(0, 9) == urn_prefix() && is_hyphenated_form(s.subrange(9, 45)))
}

/// Where the `k`-th hex digit stands in the hyphenated form.
pub open spec fn text_index(k: int) -> int {
    if k < 8 {
        k
    } else if k < 12 {
        k + 1
    } else if k < 16 {
        k + 2
    } else if k < 20 {
        k + 3
    } else {
        k + 4
    }
}

/// Which hex digit stands at a non-hyphen position `i` of the hyphenated form.
pub open spec fn digit_index(i: int) -> int {
    if i < 8 {
        i
    } else if i < 13 {
        i - 1
    } else if i < 18 {
        i - 2
    } else if i < 23 {
        i - 3
    } else {
        i - 4
    }
}

pub open spec fn hyphenated_digits(s: Seq<char>) -> Seq<char> {
    Seq::new(32, |k: int| s[text_index(k)])
}

/// The thirty-two hex digits of an identity text, in order.
pub open spec fn digits_of(s: Seq<char>) -> Seq<char> {
    if s.len() == 32 {
        s
    } else if s.len() == 36 {
        hyphenated_digits(s)
    } else if s.len() == 38 {
        hyphenated_digits(s.subrange(1, 37))
    } else {
        hyphenated_digits(s.subrange(9, 45))
    }
}

pub open spec fn lower_hex(c: char) -> char {
    if c == 'A' {
        'a'
    } else if c == 'B' {
        'b'
    } else if c == 'C' {
        'c'
    } else if c == 'D' {
        'd'
    } else if c == 'E' {
        'e'
    } else if c == 'F' {
        'f'
    } else {
        c
    }
}

/// Thirty-two hex digits written in lower case, hyphenated 8-4-4-4-12.
pub open spec fn hyphenate(d: Seq<char>) -> Seq<char> {
    Seq::new(36, |i: int| if is_hyphen_index(i) { '-' } else { lower_hex(d[digit_index(i)]) })
}

/// The canonical rendering of an identity text.
pub open spec fn canonical_of(s: Seq<char>) -> Seq<char> {
    hyphenate(digits_of(s))
}

/// The hyphenated form with lower-case digits.
pub open spec fn is_canonical(s: Seq<char>) -> bool {
    &&& s.len() == 36
    &&& forall|i: int|
        #![trigger s[i]]
        0 <= i < 36 ==> if is_hyphen_index(i) {
            s[i] == '-'
        } else {
            is_lower_hex_char(s[i])
        }
}

/// The version digit reads 4 and the variant digit one of 8, 9, a, b.
pub open spec fn is_random_version(s: Seq<char>) -> bool {
    &&& s[14] == '4'
    &&& (s[19] == '8' || s[19] == '9' || s[19] == 'a' || s[19] == 'b')
}

/// Relies on `uuid::Uuid::parse_str`, which accepts exactly the four forms of
/// `is_identity_text`, and on the `Display` of `uuid::Uuid`, which writes the
/// parsed value hyphenated in lower case.
#[verifier::external_body]
pub(crate) fn parse_identity(text: &str) -> (r: Result<String, UuidError>)
    ensures
        r is Ok <==> is_identity_text(text@),
        r is Ok ==> r->Ok_0@ == canonical_of(text@),
{
    match Uuid::parse_str(text) {
        Ok(u) => Ok(u.to_string()),
        Err(e) => Err(e),
    }
}

/// Relies on `uuid::Uuid::new_v4`, a random UUID with the version and variant
/// bits set, and on the `Display` of `uuid::Uuid`, which writes it hyphenated
/// in lower case.
#[verifier::external_body]
pub(crate) fn fresh_identity() -> (r: String)
    ensures
        is_canonical(r@),
        is_random_version(r@),
{
    Uuid::new_v4().to_string()
}

/// Relies on the `Display` of `uuid::Error` for the text of a parse failure.
#[verifier::external_body]
pub(crate) fn identity_error_text(e: &UuidError) -> String {
    e.to_string()
}

proof fn lemma_digits_hex(s: Seq<char>)
    requires
        is_identity_text(s),
    ensures
        digits_of(s).len() == 32,
        forall|k: int| 0 <= k < 32 ==> is_hex_char(#[trigger] digits_of(s)[k]),
{
    assert forall|k: int| 0 <= k < 32 implies is_hex_char(#[trigger] digits_of(s)[k]) by {
        if s.len() == 36 {
            assert(!is_hyphen_index(text_index(k)));
            assert(is_hex_char(s[text_index(k)]));
        } else if s.len() == 38 {
            let t = s.subrange(1, 37);
            assert(!is_hyphen_index(text_index(k)));
            assert(is_hex_char(t[text_index(k)]));
        } else if s.len() == 45 {
            let t = s.subrange(9, 45);
            assert(!is_hyphen_index(text_index(k)));
            assert(is_hex_char(t[text_index(k)]));
        }
    }
}

/// The canonical rendering of any identity text is canonical.
pub proof fn lemma_canonical_of_is_canonical(s: Seq<char>)
    requires
        is_identity_text(s),
    ensures
        is_canonical(canonical_of(s)),
{
    lemma_digits_hex(s);
    let c = canonical_of(s);
    assert forall|i: int| 0 <= i < 36 && !is_hyphen_index(i) implies is_lower_hex_char(
        #[trigger] c[i],
    ) by {
        assert(0 <= digit_index(i) < 32);
        assert(is_hex_char(digits_of(s)[digit_index(i)]));
    }
}

/// A canonical text is an identity text and is its own rendering.
pub proof fn lemma_canonical_is_fixed(s: Seq<char>)
    requires
        is_canonical(s),
    ensures
        is_identity_text(s),
        canonical_of(s) == s,
{
    assert(is_hyphenated_form(s));
    let c = canonical_of(s);
    assert forall|i: int| 0 <= i < 36 implies #[trigger] c[i] == s[i] by {
        if !is_hyphen_index(i) {
            assert(text_index(digit_index(i)) == i);
            assert(digits_of(s)[digit_index(i)] == s[i]);
        }
    }
    assert(c =~= s);
}

/// Parsing the rendering of a parsed identity gives the same identity: the
/// rendering is again an identity text, and rendering it changes nothing.
pub proof fn lemma_identity_round_trip(s: Seq<char>)
    requires
        is_identity_text(s),
    ensures
        is_identity_text(canonical_of(s)),
        canonical_of(canonical_of(s)) == canonical_of(s),
{
    lemma_canonical_of_is_canonical(s);
    lemma_canonical_is_fixed(canonical_of(s));
}

} // verus!
