//! The mathematical model of the engine's state and of the effect of each
//! operation on it. Contracts of the executable methods are stated over this
//! model; the laws in `laws` are proved of it.

use vstd::prelude::*;
use crate::fund::FundView;
use crate::status::LotStatus;

verus! {

/// The mathematical image of the whole engine state.
#[verifier::ext_equal]
pub ghost struct LotView {
    /// The charity registry, keyed by `charity_id` (unique under `wf`).
    pub charities: Seq<FundView>,
    /// The participant ledger: one entry per ticket sold, in purchase order.
    pub participants: Seq<Seq<char>>,
    pub lottery_pot: u128,
    pub charity_pot: u128,
    pub ticket_price: u128,
    pub charity_rate: u128,
    /// The privileged operator; fixed at construction.
    pub council_id: Seq<char>,
    pub lot_status: LotStatus,
    /// Meaningful only after a transition into `Done` resolved the round.
    pub highest_voted_charity: Seq<char>,
    /// Meaningful only after a transition into `Done` resolved the round.
    pub lot_winner: Seq<char>,
}

/// No two registry entries share an identifier.
pub open spec fn unique_charity_ids(s: Seq<FundView>) -> bool {
    forall|i: int, j: int|
        0 <= i < j < s.len() ==> (#[trigger] s[i]).charity_id != (#[trigger] s[j]).charity_id
}

impl LotView {
    /// Well-formedness: registry keys are unique, and the ticket price
    /// strictly exceeds the charity rate (an absolute amount), so the
    /// purchase split never underflows. Constructors establish this and
    /// every operation preserves it.
    pub open spec fn wf(self) -> bool {
        &&& unique_charity_ids(self.charities)
        &&& self.ticket_price > self.charity_rate
    }

    /// The part of one ticket price that goes to the lottery pot: the ticket
    /// price less the charity rate (an absolute amount, not a percentage).
    pub open spec fn share(self) -> int {
        self.ticket_price - self.charity_rate
    }
}

/// Whether a purchase with `attached` on the charity `id` would overflow a
/// pot or the charity's vote count.
pub open spec fn purchase_overflows(v: LotView, id: Seq<char>, attached: u128) -> bool {
    ||| v.lottery_pot + v.share() > u128::MAX
    ||| v.charity_pot + (attached - v.share()) > u128::MAX
    ||| v.charities[fund_index(v.charities, id)].voted_count == u32::MAX
}

/// Whether some registry entry carries the identifier `id`.
pub open spec fn has_fund(s: Seq<FundView>, id: Seq<char>) -> bool {
    exists|i: int| 0 <= i < s.len() && (#[trigger] s[i]).charity_id == id
}

/// The index of the entry carrying `id`; meaningful when `has_fund` holds
/// (and unique under `unique_charity_ids`).
pub open spec fn fund_index(s: Seq<FundView>, id: Seq<char>) -> int {
    choose|i: int| 0 <= i < s.len() && (#[trigger] s[i]).charity_id == id
}

/// The effect of registering charity `id` under `name`: an upsert by key
/// whose record starts with zero votes — re-registration resets the tally.
pub open spec fn register_effect(s: Seq<FundView>, id: Seq<char>, name: Seq<char>) -> Seq<
    FundView,
> {
    let f = FundView { charity_id: id, name: name, voted_count: 0 };
    if has_fund(s, id) {
        s.update(fund_index(s, id), f)
    } else {
        s.push(f)
    }
}

/// The effect of one ticket purchase on the registry: the targeted entry's
/// vote count grows by one, every other entry is untouched.
pub open spec fn vote_effect(s: Seq<FundView>, id: Seq<char>) -> Seq<FundView> {
    let i = fund_index(s, id);
    s.update(
        i,
        FundView {
            charity_id: s[i].charity_id,
            name: s[i].name,
            voted_count: (s[i].voted_count + 1) as u32,
        },
    )
}

/// The index the resolution tie-break selects: scanning the registry in
/// order, the last entry whose vote count is greater than or equal to the
/// running maximum — that is, the last entry attaining the maximum count.
pub open spec fn win_idx(s: Seq<FundView>) -> int
    recommends
        s.len() > 0,
    decreases s.len(),
{
    if s.len() <= 1 {
        0
    } else {
        let prev = win_idx(s.drop_last());
        if s[s.len() - 1].voted_count >= s[prev].voted_count {
            s.len() - 1
        } else {
            prev
        }
    }
}

/// Registration keeps registry keys unique.
pub proof fn lemma_register_preserves_unique(s: Seq<FundView>, id: Seq<char>, name: Seq<char>)
    requires
        unique_charity_ids(s),
    ensures
        unique_charity_ids(register_effect(s, id, name)),
        has_fund(register_effect(s, id, name), id),
        fund_index(register_effect(s, id, name), id) == if has_fund(s, id) {
            fund_index(s, id)
        } else {
            s.len() as int
        },
{
    let t = register_effect(s, id, name);
    if has_fund(s, id) {
        let i = fund_index(s, id);
        assert(0 <= i < s.len() && s[i].charity_id == id);
        assert(forall|j: int| 0 <= j < t.len() && j != i ==> #[trigger] t[j] == s[j]);
        assert(t[i].charity_id == id);
        let k = fund_index(t, id);
        assert(0 <= k < t.len() && t[k].charity_id == id);
        assert(k == i) by {
            if k != i {
                assert(s[k].charity_id == id);
            }
        }
    } else {
        assert(t[s.len() as int].charity_id == id);
        assert(forall|j: int| 0 <= j < s.len() ==> #[trigger] t[j] == s[j]);
        let k = fund_index(t, id);
        assert(0 <= k < t.len() && t[k].charity_id == id);
        assert(k == s.len() as int) by {
            if k < s.len() {
                assert(s[k].charity_id == id);
                assert(has_fund(s, id));
            }
        }
    }
}

/// A vote keeps registry keys unique and the targeted key in place.
pub proof fn lemma_vote_preserves_unique(s: Seq<FundView>, id: Seq<char>)
    requires
        unique_charity_ids(s),
        has_fund(s, id),
    ensures
        unique_charity_ids(vote_effect(s, id)),
        vote_effect(s, id).len() == s.len(),
{
    let i = fund_index(s, id);
    assert(0 <= i < s.len() && s[i].charity_id == id);
    let t = vote_effect(s, id);
    assert(t[i].charity_id == s[i].charity_id);
    assert(forall|j: int| 0 <= j < t.len() && j != i ==> #[trigger] t[j] == s[j]);
}

} // verus!
