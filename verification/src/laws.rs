//! Laws of the model: properties that relate several operations or all
//! states, proved once and for all over the spec-level effects that the
//! executable methods are contracted to.

use vstd::prelude::*;
use crate::fund::FundView;
use crate::model::fund_index;
use crate::model::has_fund;
use crate::model::lemma_register_preserves_unique;
use crate::model::register_effect;
use crate::model::unique_charity_ids;
use crate::model::vote_effect;
use crate::model::win_idx;

verus! {

/// Law: registering the same charity twice is the same as registering it
/// once, and either way its vote count ends at zero — registration is an
/// idempotent reset of the tally, not an accumulation.
pub proof fn lemma_register_idempotent_reset(s: Seq<FundView>, id: Seq<char>, name: Seq<char>)
    requires
        unique_charity_ids(s),
    ensures
        register_effect(register_effect(s, id, name), id, name) == register_effect(s, id, name),
        has_fund(register_effect(s, id, name), id),
        register_effect(s, id, name)[fund_index(register_effect(s, id, name), id)].voted_count
            == 0,
{
    let t = register_effect(s, id, name);
    let f = FundView { charity_id: id, name: name, voted_count: 0 };
    lemma_register_preserves_unique(s, id, name);
    let i = fund_index(t, id);
    assert(t[i] == f);
    assert(register_effect(t, id, name) =~= t);
}

/// Law: one ticket purchase changes exactly one registry entry — the
/// targeted charity's vote count grows by exactly one, its identity and
/// name stay, and every other entry is untouched.
pub proof fn lemma_vote_effect_single_increment(s: Seq<FundView>, id: Seq<char>)
    requires
        unique_charity_ids(s),
        has_fund(s, id),
        s[fund_index(s, id)].voted_count < u32::MAX,
    ensures
        vote_effect(s, id).len() == s.len(),
        vote_effect(s, id)[fund_index(s, id)].voted_count == s[fund_index(s, id)].voted_count + 1,
        vote_effect(s, id)[fund_index(s, id)].charity_id == s[fund_index(s, id)].charity_id,
        vote_effect(s, id)[fund_index(s, id)].name == s[fund_index(s, id)].name,
        forall|j: int|
            0 <= j < s.len() && j != fund_index(s, id) ==> vote_effect(s, id)[j] == s[j],
{
    let i = fund_index(s, id);
    assert(0 <= i < s.len() && s[i].charity_id == id);
}

/// Law: the resolution tie-break selects the last registry entry attaining
/// the maximum vote count — every entry counts at most as much as the
/// winner, and every entry after the winner counts strictly less.
pub proof fn lemma_win_idx_last_argmax(s: Seq<FundView>)
    requires
        s.len() > 0,
    ensures
        0 <= win_idx(s) < s.len(),
        forall|j: int|
            0 <= j < s.len() ==> (#[trigger] s[j]).voted_count <= s[win_idx(s)].voted_count,
        forall|j: int|
            win_idx(s) < j < s.len() ==> (#[trigger] s[j]).voted_count < s[win_idx(s)].voted_count,
    decreases s.len(),
{
    if s.len() > 1 {
        let p = s.drop_last();
        lemma_win_idx_last_argmax(p);
        let wp = win_idx(p);
        let w = win_idx(s);
        assert(forall|j: int| 0 <= j < p.len() ==> #[trigger] p[j] == s[j]);
        if s[s.len() - 1].voted_count >= s[wp].voted_count {
            assert(w == s.len() - 1);
            assert forall|j: int| 0 <= j < s.len() implies (#[trigger] s[j]).voted_count
                <= s[w].voted_count by {
                if j < s.len() - 1 {
                    assert(p[j].voted_count <= p[wp].voted_count);
                }
            }
        } else {
            assert(w == wp);
            assert forall|j: int| 0 <= j < s.len() implies (#[trigger] s[j]).voted_count
                <= s[w].voted_count by {
                if j < s.len() - 1 {
                    assert(p[j].voted_count <= p[wp].voted_count);
                }
            }
            assert forall|j: int| w < j < s.len() implies (#[trigger] s[j]).voted_count
                < s[w].voted_count by {
                if j < s.len() - 1 {
                    assert(p[j].voted_count < p[wp].voted_count);
                }
            }
        }
    }
}

} // verus!
