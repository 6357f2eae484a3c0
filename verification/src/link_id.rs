//! Identifiers of links: random (version 4) UUIDs, written as 32 hexadecimal digits.
use crate::hexadecimal;
use vstd::prelude::*;

verus! {

/// Sixteen bytes that form a version 4 UUID of the RFC 9562 variant.
pub open spec fn is_random_uuid(bytes: Seq<u8>) -> bool {
    &&& bytes.len() == 16
    &&& bytes[6] as int / 16 == 4
    &&& bytes[8] as int / 64 == 2
}

/// A character that `hex_text` produces.
pub open spec fn is_hex_char(c: char) -> bool {
    '0' <= c <= '9' || 'a' <= c <= 'f'
}

/// The form of every identifier that this library makes up.
pub open spec fn is_link_id(id: Seq<char>) -> bool {
    &&& id.len() == 32
    &&& forall|i: int| 0 <= i < 32 ==> is_hex_char(#[trigger] id[i])
    &&& id[12] == '4'
    &&& id[16] == '8' || id[16] == '9' || id[16] == 'a' || id[16] == 'b'
}

/// Calls `uuid::Uuid::new_v4` and takes the bytes of what it returns. Claimed of it: whatever the
/// random source yields, the version bits say 4 and the variant bits say RFC 9562. It panics where
/// the operating system has no random bytes to give.
#[verifier::external_body]
fn random_uuid() -> (bytes: [u8; 16])
    ensures
        is_random_uuid(bytes@),
{
    uuid::Uuid::new_v4().into_bytes()
}

/// The identifier that stands for these bytes.
pub fn link_id(bytes: &[u8; 16]) -> (id: String)
    ensures
        id@ == hexadecimal::hex_text(bytes@),
        is_random_uuid(bytes@) ==> is_link_id(id@),
{
    let id = hexadecimal::to_hex(bytes.as_slice());
    proof {
        if is_random_uuid(bytes@) {
            lemma_uuid_text_is_link_id(bytes@);
        }
    }
    id
}

/// A new random identifier.
pub fn new_link_id() -> (id: String)
    ensures
        is_link_id(id@),
{
    link_id(&random_uuid())
}

proof fn lemma_uuid_text_is_link_id(bytes: Seq<u8>)
    requires
        is_random_uuid(bytes),
    ensures
        is_link_id(hexadecimal::hex_text(bytes)),
{
    let id = hexadecimal::hex_text(bytes);
    assert forall|i: int| 0 <= i < 32 implies is_hex_char(#[trigger] id[i]) by {
        let b = bytes[i / 2] as int;
        assert(0 <= b / 16 < 16 && 0 <= b % 16 < 16);
    }
    assert(id[12] == hexadecimal::hex_digit(bytes[6] as int / 16));
    assert(id[16] == hexadecimal::hex_digit(bytes[8] as int / 16));
}

/// What it takes to be an identifier: thirty-two hexadecimal digits, of which the thirteenth is a 4
/// and the seventeenth one of 8, 9, a and b.
pub proof fn lemma_form_of_an_identifier(id: Seq<char>)
    ensures
        is_link_id(id) <==> {
            &&& id.len() == 32
            &&& forall|i: int|
                0 <= i < 32 ==> 48 <= (#[trigger] id[i]) as int <= 57 || 97 <= id[i] as int <= 102
            &&& id[12] as int == 52
            &&& id[16] as int == 56 || id[16] as int == 57 || id[16] as int == 97 || id[16] as int
                == 98
        },
{
    if is_link_id(id) {
        assert forall|i: int| 0 <= i < 32 implies 48 <= (#[trigger] id[i]) as int <= 57 || 97
            <= id[i] as int <= 102 by {
            assert(is_hex_char(id[i]));
        }
    }
}

} // verus!
