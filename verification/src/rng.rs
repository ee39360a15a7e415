use vstd::prelude::*;

verus! {

/// A byte with no promised value, standing in for electrically floating
/// pins and power-on memory noise.
///
/// Relies on rand::random: it returns some value of the asked type; nothing
/// can be promised of which one.
#[verifier::external_body]
pub fn random_byte() -> u8 {
    rand::random()
}

} // verus!
