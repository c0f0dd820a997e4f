use vstd::prelude::*;
use crate::cost::Cost;
use crate::state::{UpdateMsg, Updater};

verus! {

/// Cost-tier selector carried by the mutable algorithm-selection state.
/// It is the historical name of the tier in the selection layer; the
/// registry speaks of `Cost`, and `to_cost` bridges the two.
#[derive(Clone, Copy, Debug, PartialEq, Eq, Structural)]
pub enum Iterations {
    LOW,
    MEDIUM,
    HIGH,
}

impl Iterations {
    /// The display label, as contracts speak of it.
    pub open spec fn spec_label(&self) -> Seq<char> {
        match self {
            Iterations::LOW => "LOW"@,
            Iterations::MEDIUM => "MEDIUM"@,
            Iterations::HIGH => "HIGH"@,
        }
    }

    /// Stable display label; presentation only, no cryptographic effect.
    pub fn as_static_str(&self) -> (r: &'static str)
        ensures
            r@ == self.spec_label(),
    {
        match self {
            Iterations::LOW => "LOW",
            Iterations::MEDIUM => "MEDIUM",
            Iterations::HIGH => "HIGH",
        }
    }

    /// The registry tier that this selector stands for.
    pub fn to_cost(&self) -> (r: Cost)
        ensures
            r == self.spec_to_cost(),
    {
        match self {
            Iterations::LOW => Cost::LOW,
            Iterations::MEDIUM => Cost::MEDIUM,
            Iterations::HIGH => Cost::HIGH,
        }
    }

    pub open spec fn spec_to_cost(&self) -> Cost {
        match self {
            Iterations::LOW => Cost::LOW,
            Iterations::MEDIUM => Cost::MEDIUM,
            Iterations::HIGH => Cost::HIGH,
        }
    }
}

impl Updater for Iterations {
    fn update(&self) -> (r: UpdateMsg)
        ensures
            r == UpdateMsg::Iterations(*self),
    {
        UpdateMsg::Iterations(*self)
    }
}

impl Default for Iterations {
    fn default() -> (r: Self)
        ensures
            r == Iterations::MEDIUM,
    {
        Iterations::MEDIUM
    }
}

} // verus!
