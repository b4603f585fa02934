//! Record identifiers. A record is identified by a 128-bit number; the
//! `uuid` crate writes, reads and draws such numbers.

use vstd::prelude::*;

verus! {

/// The text that `uuid` writes for an identifier: its hexadecimal digits
/// in five groups with hyphens between them.
pub uninterp spec fn id_text(id: u128) -> Seq<char>;

/// The identifier that `uuid` reads from a text, where it reads one.
pub uninterp spec fn id_of_text(text: Seq<char>) -> Option<u128>;

/// `Uuid::to_string` on the identifier with this number. The text
/// depends on the number alone and is called `id_text`.
#[verifier::external_body]
pub(crate) fn format_id(id: u128) -> (r: String)
    ensures
        r@ == id_text(id),
{
    uuid::Uuid::from_u128(id).to_string()
}

/// `Uuid::parse_str`. Whether the text is accepted, and the number it
/// gives, depend on the text alone and are called `id_of_text`.
#[verifier::external_body]
pub(crate) fn parse_id(text: &str) -> (r: Option<u128>)
    ensures
        r == id_of_text(text@),
{
    uuid::Uuid::parse_str(text).ok().map(|u| u.as_u128())
}

/// `Uuid::new_v4`: a number drawn at random. Nothing is claimed of it.
#[verifier::external_body]
pub(crate) fn random_id() -> u128 {
    uuid::Uuid::new_v4().as_u128()
}

} // verus!
