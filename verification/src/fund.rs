//! A registered charity and its vote tally.

use vstd::prelude::*;

verus! {

/// One entry of the charity registry: the charity's account identifier (the
/// registry key), its display name, and the number of votes cast for it by
/// ticket purchases in the current round.
pub struct CharityFund {
    pub charity_id: String,
    pub name: String,
    pub voted_count: u32,
}

/// The mathematical image of a `CharityFund`: the strings as character
/// sequences.
#[verifier::ext_equal]
pub ghost struct FundView {
    pub charity_id: Seq<char>,
    pub name: Seq<char>,
    pub voted_count: u32,
}

impl View for CharityFund {
    type V = FundView;

    open spec fn view(&self) -> FundView {
        FundView {
            charity_id: self.charity_id@,
            name: self.name@,
            voted_count: self.voted_count,
        }
    }
}

impl Clone for CharityFund {
    fn clone(&self) -> (r: Self)
        ensures
            r@ == self@,
    {
        CharityFund {
            charity_id: self.charity_id.clone(),
            name: self.name.clone(),
            voted_count: self.voted_count,
        }
    }
}

} // verus!
