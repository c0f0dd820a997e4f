use vstd::prelude::*;
use crate::cost::Cost;
use crate::state::{UpdateMsg, Updater};

verus! {

/// Selectable key-derivation function.
#[derive(Clone, Copy, Debug, PartialEq, Eq, Structural)]
pub enum KDF {
    PBKDF2,
    ARGON2,
}

/// Concrete cost parameters resolved from a (KDF, cost tier) pair:
/// an iteration count for PBKDF2, or a (memory cost in KiB, time cost in
/// passes) pair for Argon2i.
#[derive(Clone, Copy, Debug, PartialEq, Eq, Structural)]
pub enum KDFCost {
    PBKDF2(u32),
    ARGON2(u32, u32),
}

/// PBKDF2 iteration count for each cost tier.
pub open spec fn spec_pbkdf2_iterations(cost: Cost) -> u32 {
    match cost {
        Cost::LOW => 10_000u32,
        Cost::MEDIUM => 100_000u32,
        Cost::HIGH => 1_000_000u32,
    }
}

/// Argon2i memory cost in KiB for each cost tier.
pub open spec fn spec_argon2_mem_cost(cost: Cost) -> u32 {
    match cost {
        Cost::LOW => 65536u32,
        Cost::MEDIUM => 1048576u32,
        Cost::HIGH => 4194304u32,
    }
}

/// Argon2i time cost (number of passes) for each cost tier.
pub open spec fn spec_argon2_time_cost(cost: Cost) -> u32 {
    match cost {
        Cost::LOW => 6u32,
        Cost::MEDIUM => 8u32,
        Cost::HIGH => 10u32,
    }
}

impl KDF {
    /// The display label, as contracts speak of it.
    pub open spec fn spec_label(&self) -> Seq<char> {
        match self {
            KDF::PBKDF2 => "PBKDF2"@,
            KDF::ARGON2 => "ARGON2"@,
        }
    }

    /// Stable display label; presentation only, no cryptographic effect.
    pub fn as_static_str(&self) -> (r: &'static str)
        ensures
            r@ == self.spec_label(),
    {
        match self {
            KDF::PBKDF2 => "PBKDF2",
            KDF::ARGON2 => "ARGON2",
        }
    }

    /// Pure, stateless mapping from (KDF, cost tier) to the concrete cost
    /// parameters of this KDF. No side effects, no failure modes.
    pub fn cost(&self, cost: Cost) -> (r: KDFCost)
        ensures
            *self == KDF::PBKDF2 ==> r == KDFCost::PBKDF2(spec_pbkdf2_iterations(cost)),
            *self == KDF::ARGON2 ==> r == KDFCost::ARGON2(
                spec_argon2_mem_cost(cost),
                spec_argon2_time_cost(cost),
            ),
    {
        match self {
            KDF::PBKDF2 => match cost {
                Cost::LOW => KDFCost::PBKDF2(10_000),
                Cost::MEDIUM => KDFCost::PBKDF2(100_000),
                Cost::HIGH => KDFCost::PBKDF2(1_000_000),
            },
            KDF::ARGON2 => match cost {
                Cost::LOW => KDFCost::ARGON2(65536, 6),
                Cost::MEDIUM => KDFCost::ARGON2(1048576, 8),
                Cost::HIGH => KDFCost::ARGON2(4194304, 10),
            },
        }
    }
}

impl Updater for KDF {
    fn update(&self) -> (r: UpdateMsg)
        ensures
            r == UpdateMsg::KDF(*self),
    {
        UpdateMsg::KDF(*self)
    }
}

impl Default for KDF {
    fn default() -> (r: Self)
        ensures
            r == KDF::PBKDF2,
    {
        KDF::PBKDF2
    }
}

} // verus!
