//! Study ids: random 128-bit numbers, shared by every session of one study.

use vstd::prelude::*;

use crate::text::hex_digit;

verus! {

/// The id of a study. The nil id means that there is no study yet.
#[derive(Debug, Clone, Copy, PartialEq, Eq, Structural)]
pub struct StudyId {
    /// The id as a number.
    pub bits: u128,
}

/// The lowest `digits` hexadecimal digits of a number, most significant first.
pub open spec fn hex_number(value: nat, digits: nat) -> Seq<char>
    decreases digits,
{
    if digits == 0 {
        Seq::empty()
    } else {
        hex_number(value / 16, (digits - 1) as nat).push(hex_digit(value % 16))
    }
}

/// A random id as it is generated: version 4 and the standard variant.
pub open spec fn is_random(bits: u128) -> bool {
    (bits >> 76) & 0xF == 4 && (bits >> 62) & 3 == 2
}

/// Calls `uuid::Uuid::new_v4` and hands out its number. The bits are random but
/// for the version (4) and the variant (binary 10), which every result carries;
/// nothing else is claimed of them.
#[verifier::external_body]
fn random_bits() -> (bits: u128)
    ensures
        is_random(bits),
{
    uuid::Uuid::new_v4().as_u128()
}

/// Calls `uuid::Uuid::simple`: the id as 32 lowercase hexadecimal digits, most
/// significant first, without hyphens.
#[verifier::external_body]
fn simple_text(bits: u128) -> (text: String)
    ensures
        text@ == hex_number(bits as nat, 32),
{
    uuid::Uuid::from_u128(bits).simple().to_string()
}

impl StudyId {
    /// The id with this number.
    pub fn from_u128(bits: u128) -> (id: Self)
        ensures
            id == (StudyId { bits }),
    {
        StudyId { bits }
    }

    /// The id of no study.
    pub fn nil() -> (id: Self)
        ensures
            id.bits == 0,
    {
        StudyId { bits: 0 }
    }

    /// Is this the id of no study?
    pub fn is_nil(&self) -> (nil: bool)
        ensures
            nil == (self.bits == 0),
    {
        self.bits == 0
    }

    /// A fresh random id. It is never the nil id.
    pub fn random() -> (id: Self)
        ensures
            is_random(id.bits),
            id.bits != 0,
    {
        let bits: u128 = random_bits();
        proof {
            assert((0u128 >> 76) & 0xF == 0) by (bit_vector);
        }
        StudyId { bits }
    }

    /// The id as 32 lowercase hexadecimal digits.
    pub fn simple(&self) -> (text: String)
        ensures
            text@ == hex_number(self.bits as nat, 32),
    {
        simple_text(self.bits)
    }
}

impl Default for StudyId {
    fn default() -> (id: Self)
        ensures
            id.bits == 0,
    {
        StudyId { bits: 0 }
    }
}

/// Per-boot nonce for the user-actor IPC handshake: a random id as 32
/// hexadecimal digits.
pub fn generate_nonce() -> (nonce: String)
    ensures
        exists|bits: u128| #[trigger] is_random(bits) && nonce@ == hex_number(bits as nat, 32),
{
    let id = StudyId::random();
    id.simple()
}

/// The text of an id has one length.
pub proof fn law_hex_number_length(value: nat, digits: nat)
    ensures
        hex_number(value, digits).len() == digits,
    decreases digits,
{
    if digits > 0 {
        law_hex_number_length(value / 16, (digits - 1) as nat);
    }
}

} // verus!
