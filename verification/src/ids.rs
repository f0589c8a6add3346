//! Identifiers: 16-byte UUIDs and their canonical hyphenated text form.

use vstd::prelude::*;

verus! {

/// The raw bytes of a UUID, most significant byte first.
pub type UuidBytes = [u8; 16];

/// Lower-case hexadecimal digit for a nibble.
pub open spec fn hex_digit(n: u8) -> char {
    if n == 0 { '0' }
    else if n == 1 { '1' }
    else if n == 2 { '2' }
    else if n == 3 { '3' }
    else if n == 4 { '4' }
    else if n == 5 { '5' }
    else if n == 6 { '6' }
    else if n == 7 { '7' }
    else if n == 8 { '8' }
    else if n == 9 { '9' }
    else if n == 10 { 'a' }
    else if n == 11 { 'b' }
    else if n == 12 { 'c' }
    else if n == 13 { 'd' }
    else if n == 14 { 'e' }
    else { 'f' }
}

/// The 32 hex digits of `bytes`: for each byte, its high nibble then its low nibble.
pub open spec fn simple_hex(bytes: Seq<u8>) -> Seq<char> {
    Seq::new(
        2 * bytes.len(),
        |i: int|
            if i % 2 == 0 {
                hex_digit(bytes[i / 2] / 16)
            } else {
                hex_digit(bytes[i / 2] % 16)
            },
    )
}

/// Positions of the four hyphens in the 36-character form.
pub open spec fn is_hyphen_position(p: int) -> bool {
    p == 8 || p == 13 || p == 18 || p == 23
}

/// The hex digit shown at a non-hyphen position of the 36-character form.
pub open spec fn digit_index(p: int) -> int {
    if p < 8 {
        p
    } else if p < 13 {
        p - 1
    } else if p < 18 {
        p - 2
    } else if p < 23 {
        p - 3
    } else {
        p - 4
    }
}

/// The hyphenated lower-case form of a UUID, groups of 8-4-4-4-12 hex digits,
/// such as `67e55044-10b1-426f-9247-bb680e5fe0c8`.
pub open spec fn hyphenated(bytes: Seq<u8>) -> Seq<char> {
    Seq::new(
        36,
        |p: int|
            if is_hyphen_position(p) {
                '-'
            } else {
                simple_hex(bytes)[digit_index(p)]
            },
    )
}

/// Renders a UUID through `uuid::Uuid`'s `Display` implementation.
///
/// Trusted: `Display` for `uuid::Uuid` (uuid 1.x, `fmt.rs`) writes the
/// hyphenated lower-case form; the contract states that form exactly.
#[verifier::external_body]
pub(crate) fn uuid_to_string(bytes: UuidBytes) -> (s: String)
    ensures
        s@ == hyphenated(bytes@),
{
    uuid::Uuid::from_bytes(bytes).to_string()
}

/// What `uuid::Uuid::parse_str` reads from a text, as bytes (`None` when it
/// does not parse).
pub uninterp spec fn uuid_parse(text: Seq<char>) -> Option<Seq<u8>>;

/// `text` is the hyphenated form of some UUID.
pub open spec fn is_hyphenated_text(text: Seq<char>) -> bool {
    exists|b: Seq<u8>| b.len() == 16 && #[trigger] hyphenated(b) == text
}

/// The bytes a text denotes as a UUID: the UUID whose hyphenated form it is,
/// and otherwise whatever `uuid::Uuid::parse_str` reads from it (it also
/// accepts other forms).
pub open spec fn uuid_of_text(text: Seq<char>) -> Option<Seq<u8>> {
    if is_hyphenated_text(text) {
        Some(choose|b: Seq<u8>| b.len() == 16 && #[trigger] hyphenated(b) == text)
    } else {
        uuid_parse(text)
    }
}

/// The bytes of an optional UUID.
pub open spec fn optional_bytes(u: Option<UuidBytes>) -> Option<Seq<u8>> {
    match u {
        Some(b) => Some(b@),
        None => None,
    }
}

/// Reads a UUID from text through `uuid::Uuid::parse_str`.
///
/// Trusted: `parse_str` accepts every form the crate writes, the hyphenated
/// form among them (its documentation), and reads back the UUID that was
/// written; the contract states that case exactly and names the result for
/// every other text.
#[verifier::external_body]
pub(crate) fn parse_uuid(text: &str) -> (id: Option<UuidBytes>)
    ensures
        optional_bytes(id) == uuid_of_text(text@),
        !is_hyphenated_text(text@) ==> optional_bytes(id) == uuid_parse(text@),
{
    match uuid::Uuid::parse_str(text) {
        Ok(u) => Some(*u.as_bytes()),
        Err(_) => None,
    }
}

/// The text of a UUID's hyphenated form denotes that UUID.
pub proof fn lemma_hyphenated_read_back(b: Seq<u8>)
    requires
        b.len() == 16,
    ensures
        uuid_of_text(hyphenated(b)) == Some(b),
{
    let text = hyphenated(b);
    assert(b.len() == 16 && hyphenated(b) == text);
    let c = choose|c: Seq<u8>| c.len() == 16 && #[trigger] hyphenated(c) == text;
    lemma_hyphenated_injective(c, b);
}

proof fn lemma_hex_digit_injective(n: u8, m: u8)
    requires
        n < 16,
        m < 16,
        hex_digit(n) == hex_digit(m),
    ensures
        n == m,
{
}

/// Different UUIDs have different hyphenated forms.
pub proof fn lemma_hyphenated_injective(a: Seq<u8>, b: Seq<u8>)
    requires
        a.len() == 16,
        b.len() == 16,
        hyphenated(a) == hyphenated(b),
    ensures
        a == b,
{
    assert forall|k: int| 0 <= k < 16 implies a[k] == b[k] by {
        let hi = 2 * k;
        let lo = 2 * k + 1;
        let p_hi = if hi < 8 { hi } else if hi < 12 { hi + 1 } else if hi < 16 { hi + 2 } else if hi < 20 { hi + 3 } else { hi + 4 };
        let p_lo = if lo < 8 { lo } else if lo < 12 { lo + 1 } else if lo < 16 { lo + 2 } else if lo < 20 { lo + 3 } else { lo + 4 };
        assert(hi % 2 == 0 && hi / 2 == k && lo % 2 == 1 && lo / 2 == k);
        assert(!is_hyphen_position(p_hi) && digit_index(p_hi) == hi);
        assert(!is_hyphen_position(p_lo) && digit_index(p_lo) == lo);
        assert(hyphenated(a)[p_hi] == hyphenated(b)[p_hi]);
        assert(hyphenated(a)[p_lo] == hyphenated(b)[p_lo]);
        assert(hyphenated(a)[p_hi] == simple_hex(a)[hi]);
        assert(hyphenated(b)[p_hi] == simple_hex(b)[hi]);
        assert(hyphenated(a)[p_lo] == simple_hex(a)[lo]);
        assert(hyphenated(b)[p_lo] == simple_hex(b)[lo]);
        assert(simple_hex(a)[hi] == hex_digit(a[k] / 16));
        assert(simple_hex(b)[hi] == hex_digit(b[k] / 16));
        assert(simple_hex(a)[lo] == hex_digit(a[k] % 16));
        assert(simple_hex(b)[lo] == hex_digit(b[k] % 16));
        lemma_hex_digit_injective(a[k] / 16, b[k] / 16);
        lemma_hex_digit_injective(a[k] % 16, b[k] % 16);
    }
    assert(a =~= b);
}

} // verus!
