use vstd::prelude::*;

verus! {

/// The lowercase hexadecimal digit of a nibble.
pub open spec fn hex_digit(n: int) -> char {
    seq!['0', '1', '2', '3', '4', '5', '6', '7', '8', '9', 'a', 'b', 'c', 'd', 'e', 'f'][n]
}

/// Two lowercase hexadecimal digits per byte, high nibble first.
pub open spec fn hex_of(b: Seq<u8>) -> Seq<char>
    decreases b.len(),
{
    if b.len() == 0 {
        Seq::empty()
    } else {
        seq![hex_digit(b[0] as int / 16), hex_digit(b[0] as int % 16)] + hex_of(b.drop_first())
    }
}

/// Sixteen random bytes with the marks of a random (version 4, RFC 4122)
/// identifier: the high nibble of byte 6 is 4, the two high bits of byte 8
/// are `10`.
pub open spec fn v4_bytes(b: Seq<u8>) -> Seq<u8> {
    b.update(6, ((b[6] & 0x0f) | 0x40) as u8).update(8, ((b[8] & 0x3f) | 0x80) as u8)
}

/// The text of a random identifier made from `b`: its 32 hexadecimal digits
/// in groups of 8, 4, 4, 4 and 12, joined by `-`.
pub open spec fn v4_text(b: Seq<u8>) -> Seq<char> {
    let h = hex_of(v4_bytes(b));
    h.subrange(0, 8) + seq!['-'] + h.subrange(8, 12) + seq!['-'] + h.subrange(12, 16) + seq!['-']
        + h.subrange(16, 20) + seq!['-'] + h.subrange(20, 32)
}

pub proof fn lemma_hex_len(b: Seq<u8>)
    ensures
        hex_of(b).len() == 2 * b.len(),
    decreases b.len(),
{
    if b.len() > 0 {
        lemma_hex_len(b.drop_first());
    }
}

/// An identifier's text has 36 characters.
pub proof fn lemma_v4_text_len(b: Seq<u8>)
    requires
        b.len() == 16,
    ensures
        v4_text(b).len() == 36,
{
    lemma_hex_len(v4_bytes(b));
}

/// Relies on getrandom::fill: it fills the buffer from the operating
/// system's random source, or reports that it could not. Nothing is known of
/// the bytes.
#[verifier::external_body]
pub(crate) fn random_bytes() -> (r: Option<[u8; 16]>) {
    let mut b = [0u8; 16];
    match getrandom::fill(&mut b) {
        Ok(()) => Some(b),
        Err(_) => None,
    }
}

/// Relies on uuid::Builder::from_random_bytes, which sets the version and
/// variant bits of bytes 6 and 8, and on the `Display` of uuid::Uuid, which
/// writes the hyphenated lowercase form.
#[verifier::external_body]
fn v4_identifier(b: [u8; 16]) -> (r: String)
    ensures
        r@ == v4_text(b@),
{
    uuid::Builder::from_random_bytes(b).into_uuid().to_string()
}

/// The identifier made from sixteen random bytes.
pub fn identifier_from_bytes(b: [u8; 16]) -> (r: String)
    ensures
        r@ == v4_text(b@),
        r@.len() == 36,
{
    proof {
        lemma_v4_text_len(b@);
    }
    v4_identifier(b)
}

} // verus!
