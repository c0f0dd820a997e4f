use vstd::prelude::*;

verus! {

/// Cost tier of a key derivation. What a tier means in concrete work
/// depends on the key-derivation function; see `KDF::cost`.
#[derive(Clone, Copy, Debug, PartialEq, Eq, Structural)]
pub enum Cost {
    LOW,
    MEDIUM,
    HIGH,
}

impl Cost {
    /// The display label, as contracts speak of it.
    pub open spec fn spec_label(&self) -> Seq<char> {
        match self {
            Cost::LOW => "LOW"@,
            Cost::MEDIUM => "MEDIUM"@,
            Cost::HIGH => "HIGH"@,
        }
    }

    /// Stable display label; presentation only, no cryptographic effect.
    pub fn as_static_str(&self) -> (r: &'static str)
        ensures
            r@ == self.spec_label(),
    {
        match self {
            Cost::LOW => "LOW",
            Cost::MEDIUM => "MEDIUM",
            Cost::HIGH => "HIGH",
        }
    }
}

impl Default for Cost {
    fn default() -> (r: Self)
        ensures
            r == Cost::MEDIUM,
    {
        Cost::MEDIUM
    }
}

} // verus!
