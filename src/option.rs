use vstd::prelude::*;

verus! {

/// The kind of a vanilla European option.
#[derive(PartialEq, Eq, Structural, Debug, Clone, Copy)]
pub enum OptionType {
    /// The right to buy the underlying at the strike.
    Call,
    /// The right to sell the underlying at the strike.
    Put,
}

} // verus!
