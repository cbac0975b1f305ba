//! The lottery-and-charity-voting engine.
//!
//! `CharityLot` is the single source of truth for one round: the charity
//! registry, the participant ledger, the two pots, the pricing parameters,
//! the lifecycle status and the resolved winners. The host supplies the
//! caller identity, the attached value and the entropy byte as plain
//! arguments, and receives back the transfers to issue; nothing here touches
//! storage, identity or randomness itself.

use vstd::prelude::*;
use crate::account::is_valid_account_id;
use crate::account::valid_account_id;
use crate::errors::LotError;
use crate::fund::CharityFund;
use crate::model::LotView;
use crate::model::fund_index;
use crate::model::has_fund;
use crate::model::lemma_register_preserves_unique;
use crate::model::lemma_vote_preserves_unique;
use crate::model::purchase_overflows;
use crate::model::register_effect;
use crate::model::vote_effect;
use crate::model::win_idx;
use crate::status::LotStatus;

verus! {

/// The default ticket price in yocto-units (2 whole tokens).
pub const TICKET_PRICE: u128 = 2_000_000_000_000_000_000_000_000;

/// The default charity rate: the absolute amount of each ticket price that
/// goes to the charity pot (a fifth of `TICKET_PRICE`).
pub const CHARITY_RATE: u128 = 400_000_000_000_000_000_000_000;

/// The two transfers a resolved round owes: the charity pot to the
/// highest-voted charity and the lottery pot to the drawn winner. The host
/// performs them; this crate only computes them.
pub struct Disbursement {
    pub to_charity: String,
    pub charity_amount: u128,
    pub to_winner: String,
    pub lottery_amount: u128,
}

/// The engine state. See `LotView` for its mathematical image and
/// `LotView::wf` for the invariant every operation preserves.
pub struct CharityLot {
    pub charity_map: Vec<CharityFund>,
    pub participants: Vec<String>,
    pub lottery_pot: u128,
    pub charity_pot: u128,
    pub ticket_price: u128,
    pub charity_rate: u128,
    pub council_id: String,
    pub lot_status: LotStatus,
    pub highest_voted_charity: String,
    pub lot_winner: String,
}

impl View for CharityLot {
    type V = LotView;

    open spec fn view(&self) -> LotView {
        LotView {
            charities: self.charity_map@.map_values(|f: CharityFund| f@),
            participants: self.participants@.map_values(|p: String| p@),
            lottery_pot: self.lottery_pot,
            charity_pot: self.charity_pot,
            ticket_price: self.ticket_price,
            charity_rate: self.charity_rate,
            council_id: self.council_id@,
            lot_status: self.lot_status,
            highest_voted_charity: self.highest_voted_charity@,
            lot_winner: self.lot_winner@,
        }
    }
}

impl CharityLot {
    /// Creates the engine with an empty registry and ledger, zero pots, the
    /// default pricing, and status `Done` (the setup state). The council
    /// identity is fixed here for the lifetime of the state; a malformed one
    /// is rejected.
    pub fn new(council_id: String) -> (r: Result<CharityLot, LotError>)
        ensures
            r is Ok <==> valid_account_id(council_id@),
            r matches Err(e) ==> e == LotError::InvalidIdentity,
            r matches Ok(lot) ==> {
                &&& lot@.wf()
                &&& lot@.charities.len() == 0
                &&& lot@.participants.len() == 0
                &&& lot@.lottery_pot == 0
                &&& lot@.charity_pot == 0
                &&& lot@.ticket_price == TICKET_PRICE
                &&& lot@.charity_rate == CHARITY_RATE
                &&& lot@.council_id == council_id@
                &&& lot@.lot_status == LotStatus::Done
                &&& lot@.highest_voted_charity.len() == 0
                &&& lot@.lot_winner.len() == 0
            },
    {
        if !is_valid_account_id(council_id.as_str()) {
            return Err(LotError::InvalidIdentity);
        }
        Ok(
            CharityLot {
                charity_map: Vec::new(),
                participants: Vec::new(),
                lottery_pot: 0,
                charity_pot: 0,
                ticket_price: TICKET_PRICE,
                charity_rate: CHARITY_RATE,
                council_id,
                lot_status: LotStatus::Done,
                highest_voted_charity: String::new(),
                lot_winner: String::new(),
            },
        )
    }

    /// The access gate of every privileged operation: succeeds exactly when
    /// the transaction signer is the council.
    pub fn only_council(&self, signer: &String) -> (r: Result<(), LotError>)
        ensures
            r is Ok <==> signer@ == self@.council_id,
            r matches Err(e) ==> e == LotError::Unauthorized,
    {
        if *signer == self.council_id {
            Ok(())
        } else {
            Err(LotError::Unauthorized)
        }
    }

    /// The index of the registry entry for `id`, if any.
    fn charity_index(&self, id: &String) -> (r: Option<usize>)
        ensures
            match r {
                Some(i) => i < self@.charities.len() && self@.charities[i as int].charity_id
                    == id@,
                None => !has_fund(self@.charities, id@),
            },
    {
        let n = self.charity_map.len();
        let mut i: usize = 0;
        while i < n
            invariant
                i <= n,
                n == self.charity_map.len(),
                forall|j: int|
                    0 <= j < i ==> (#[trigger] self@.charities[j]).charity_id != id@,
            decreases n - i,
        {
            if self.charity_map[i].charity_id == *id {
                return Some(i);
            }
            i = i + 1;
        }
        None
    }

    /// Upserts a charity record keyed by `acc_id` with a vote count of zero:
    /// registering an already-registered charity resets its tally. Only the
    /// council may call, only while the round is `Done`, and only with a
    /// well-formed identifier; any rejection leaves the state untouched.
    pub fn set_charity_fund(&mut self, signer: &String, acc_id: String, name: String) -> (r:
        Result<(), LotError>)
        requires
            old(self)@.wf(),
        ensures
            final(self)@.wf(),
            signer@ != old(self)@.council_id ==> r == Err::<(), LotError>(LotError::Unauthorized)
                && final(self)@ == old(self)@,
            signer@ == old(self)@.council_id && old(self)@.lot_status != LotStatus::Done ==> r
                == Err::<(), LotError>(LotError::InvalidState) && final(self)@ == old(self)@,
            signer@ == old(self)@.council_id && old(self)@.lot_status == LotStatus::Done
                && !valid_account_id(acc_id@) ==> r == Err::<(), LotError>(LotError::InvalidIdentity)
                && final(self)@ == old(self)@,
            signer@ == old(self)@.council_id && old(self)@.lot_status == LotStatus::Done
                && valid_account_id(acc_id@) ==> {
                &&& r == Ok::<(), LotError>(())
                &&& final(self)@.charities == register_effect(
                    old(self)@.charities,
                    acc_id@,
                    name@,
                )
                &&& final(self)@.participants == old(self)@.participants
                &&& final(self)@.lottery_pot == old(self)@.lottery_pot
                &&& final(self)@.charity_pot == old(self)@.charity_pot
                &&& final(self)@.ticket_price == old(self)@.ticket_price
                &&& final(self)@.charity_rate == old(self)@.charity_rate
                &&& final(self)@.council_id == old(self)@.council_id
                &&& final(self)@.lot_status == old(self)@.lot_status
                &&& final(self)@.highest_voted_charity == old(self)@.highest_voted_charity
                &&& final(self)@.lot_winner == old(self)@.lot_winner
            },
    {
        if let Err(e) = self.only_council(signer) {
            return Err(e);
        }
        if !self.lot_status.is_done() {
            return Err(LotError::InvalidState);
        }
        if !is_valid_account_id(acc_id.as_str()) {
            return Err(LotError::InvalidIdentity);
        }
        let fund = CharityFund { charity_id: acc_id.clone(), name, voted_count: 0 };
        let found = self.charity_index(&acc_id);
        proof {
            lemma_register_preserves_unique(old(self)@.charities, acc_id@, fund.name@);
        }
        match found {
            Some(i) => {
                proof {
                    assert(fund_index(old(self)@.charities, acc_id@) == i) by {
                        let k = fund_index(old(self)@.charities, acc_id@);
                        assert(old(self)@.charities[i as int].charity_id == acc_id@);
                        assert(0 <= k < old(self)@.charities.len() && old(
                            self,
                        )@.charities[k].charity_id == acc_id@);
                    }
                }
                self.charity_map.set(i, fund);
                proof {
                    assert(self@.charities =~= register_effect(
                        old(self)@.charities,
                        acc_id@,
                        name@,
                    ));
                }
            },
            None => {
                self.charity_map.push(fund);
                proof {
                    assert(self@.charities =~= register_effect(
                        old(self)@.charities,
                        acc_id@,
                        name@,
                    ));
                }
            },
        }
        Ok(())
    }

    /// Clears the registry, the ledger and both pots, restores the default
    /// pricing and keeps the round `Done`; the council identity and the
    /// previously resolved winners are preserved. Council-only, and only
    /// while the round is `Done`.
    pub fn reset_state(&mut self, signer: &String) -> (r: Result<(), LotError>)
        requires
            old(self)@.wf(),
        ensures
            final(self)@.wf(),
            signer@ != old(self)@.council_id ==> r == Err::<(), LotError>(LotError::Unauthorized)
                && final(self)@ == old(self)@,
            signer@ == old(self)@.council_id && old(self)@.lot_status != LotStatus::Done ==> r
                == Err::<(), LotError>(LotError::InvalidState) && final(self)@ == old(self)@,
            signer@ == old(self)@.council_id && old(self)@.lot_status == LotStatus::Done ==> {
                &&& r == Ok::<(), LotError>(())
                &&& final(self)@.charities.len() == 0
                &&& final(self)@.participants.len() == 0
                &&& final(self)@.lottery_pot == 0
                &&& final(self)@.charity_pot == 0
                &&& final(self)@.ticket_price == TICKET_PRICE
                &&& final(self)@.charity_rate == CHARITY_RATE
                &&& final(self)@.council_id == old(self)@.council_id
                &&& final(self)@.lot_status == LotStatus::Done
                &&& final(self)@.highest_voted_charity == old(self)@.highest_voted_charity
                &&& final(self)@.lot_winner == old(self)@.lot_winner
            },
    {
        if let Err(e) = self.only_council(signer) {
            return Err(e);
        }
        if !self.lot_status.is_done() {
            return Err(LotError::InvalidState);
        }
        self.charity_map = Vec::new();
        self.participants = Vec::new();
        self.lottery_pot = 0;
        self.charity_pot = 0;
        self.ticket_price = TICKET_PRICE;
        self.charity_rate = CHARITY_RATE;
        self.lot_status = LotStatus::Done;
        Ok(())
    }

    /// Sells one ticket: `attached_deposit` must cover the ticket price, the
    /// round must be `Open`, and `charity_acc_id` must be registered. The
    /// ticket price less the charity rate goes to the lottery pot and the
    /// whole remainder of the attached amount to the charity pot; the
    /// charity gains one vote and the buyer gains one ledger entry (one draw
    /// slot per ticket). An accumulation that would overflow is rejected;
    /// every rejection leaves the state untouched.
    pub fn buy_ticket(&mut self, buyer: String, charity_acc_id: String, attached_deposit: u128) -> (
        r: Result<(), LotError>)
        requires
            old(self)@.wf(),
        ensures
            final(self)@.wf(),
            old(self)@.lot_status != LotStatus::Open ==> r == Err::<(), LotError>(
                LotError::InvalidState,
            ) && final(self)@ == old(self)@,
            old(self)@.lot_status == LotStatus::Open && attached_deposit < old(self)@.ticket_price
                ==> r == Err::<(), LotError>(LotError::InsufficientDeposit) && final(self)@ == old(
                self,
            )@,
            old(self)@.lot_status == LotStatus::Open && attached_deposit >= old(
                self,
            )@.ticket_price && !has_fund(old(self)@.charities, charity_acc_id@) ==> r == Err::<
                (),
                LotError,
            >(LotError::UnknownCharity) && final(self)@ == old(self)@,
            old(self)@.lot_status == LotStatus::Open && attached_deposit >= old(
                self,
            )@.ticket_price && has_fund(old(self)@.charities, charity_acc_id@)
                && purchase_overflows(old(self)@, charity_acc_id@, attached_deposit) ==> r == Err::<
                (),
                LotError,
            >(LotError::ArithmeticOverflow) && final(self)@ == old(self)@,
            old(self)@.lot_status == LotStatus::Open && attached_deposit >= old(
                self,
            )@.ticket_price && has_fund(old(self)@.charities, charity_acc_id@)
                && !purchase_overflows(old(self)@, charity_acc_id@, attached_deposit) ==> {
                &&& r == Ok::<(), LotError>(())
                &&& final(self)@.lottery_pot == old(self)@.lottery_pot + old(self)@.share()
                &&& final(self)@.charity_pot == old(self)@.charity_pot + (attached_deposit - old(
                    self,
                )@.share())
                &&& final(self)@.charities == vote_effect(old(self)@.charities, charity_acc_id@)
                &&& final(self)@.participants == old(self)@.participants.push(buyer@)
                &&& final(self)@.ticket_price == old(self)@.ticket_price
                &&& final(self)@.charity_rate == old(self)@.charity_rate
                &&& final(self)@.council_id == old(self)@.council_id
                &&& final(self)@.lot_status == old(self)@.lot_status
                &&& final(self)@.highest_voted_charity == old(self)@.highest_voted_charity
                &&& final(self)@.lot_winner == old(self)@.lot_winner
            },
    {
        if !self.lot_status.is_open() {
            return Err(LotError::InvalidState);
        }
        if attached_deposit < self.ticket_price {
            return Err(LotError::InsufficientDeposit);
        }
        let found = self.charity_index(&charity_acc_id);
        let i = match found {
            Some(i) => i,
            None => {
                return Err(LotError::UnknownCharity);
            },
        };
        proof {
            assert(fund_index(self@.charities, charity_acc_id@) == i) by {
                let k = fund_index(self@.charities, charity_acc_id@);
                assert(self@.charities[i as int].charity_id == charity_acc_id@);
                assert(0 <= k < self@.charities.len() && self@.charities[k].charity_id
                    == charity_acc_id@);
            }
        }
        let part_lot_pot = self.ticket_price - self.charity_rate;
        let charity_part = attached_deposit - part_lot_pot;
        if self.lottery_pot > u128::MAX - part_lot_pot {
            return Err(LotError::ArithmeticOverflow);
        }
        if self.charity_pot > u128::MAX - charity_part {
            return Err(LotError::ArithmeticOverflow);
        }
        if self.charity_map[i].voted_count == u32::MAX {
            return Err(LotError::ArithmeticOverflow);
        }
        let new_fund = CharityFund {
            charity_id: self.charity_map[i].charity_id.clone(),
            name: self.charity_map[i].name.clone(),
            voted_count: self.charity_map[i].voted_count + 1,
        };
        self.lottery_pot = self.lottery_pot + part_lot_pot;
        self.charity_pot = self.charity_pot + charity_part;
        self.charity_map.set(i, new_fund);
        self.participants.push(buyer);
        proof {
            lemma_vote_preserves_unique(old(self)@.charities, charity_acc_id@);
            assert(self@.charities =~= vote_effect(old(self)@.charities, charity_acc_id@));
            assert(self@.participants =~= old(self)@.participants.push(buyer@));
        }
        Ok(())
    }

    /// Draws the lottery winner from the ledger: the host-supplied entropy
    /// byte, reduced modulo the ledger length, indexes the winning ticket.
    /// An empty ledger has no winner.
    fn random_winner(&self, entropy: u8) -> (r: Result<String, LotError>)
        ensures
            r is Ok <==> self@.participants.len() > 0,
            r matches Err(e) ==> e == LotError::EmptyParticipants,
            r matches Ok(w) ==> w@ == self@.participants[entropy as int % self@.participants.len()
                as int],
    {
        let n = self.participants.len();
        if n == 0 {
            return Err(LotError::EmptyParticipants);
        }
        let index = (entropy as usize) % n;
        Ok(self.participants[index].clone())
    }

    /// Selects the most-voted charity: one scan of the registry in order,
    /// keeping the last entry whose vote count meets or exceeds the running
    /// maximum — ties fall to the later entry. An empty registry has no
    /// winner.
    fn get_charity_win(&self) -> (r: Result<String, LotError>)
        ensures
            r is Ok <==> self@.charities.len() > 0,
            r matches Err(e) ==> e == LotError::EmptyRegistry,
            r matches Ok(c) ==> c@ == self@.charities[win_idx(self@.charities)].charity_id,
    {
        let ghost s = self@.charities;
        let n = self.charity_map.len();
        if n == 0 {
            return Err(LotError::EmptyRegistry);
        }
        let mut max_count: u32 = 0;
        let mut at_index: usize = 0;
        let mut i: usize = 0;
        while i < n
            invariant
                i <= n,
                0 < n,
                n == self.charity_map.len(),
                s == self@.charities,
                i == 0 ==> at_index == 0 && max_count == 0,
                i > 0 ==> at_index < i && at_index == win_idx(s.take(i as int)) && max_count
                    == s[at_index as int].voted_count,
            decreases n - i,
        {
            let ghost prev_at = at_index;
            let c = self.charity_map[i].voted_count;
            if c >= max_count {
                max_count = c;
                at_index = i;
            }
            proof {
                let t = s.take(i as int + 1);
                assert(t.drop_last() =~= s.take(i as int));
                assert(t.last() == s[i as int]);
                if i == 0 {
                    assert(win_idx(t) == 0);
                } else {
                    assert(win_idx(t) == if s[i as int].voted_count >= s[prev_at as int].voted_count
                        {
                        i as int
                    } else {
                        prev_at as int
                    });
                }
            }
            i = i + 1;
        }
        proof {
            assert(s.take(n as int) =~= s);
        }
        Ok(self.charity_map[at_index].charity_id.clone())
    }

    /// The transfers a resolved round owes, for the host to issue: the
    /// charity pot to the highest-voted charity and the lottery pot to the
    /// drawn winner. Gated by the council check like every privileged
    /// operation, though resolution only reaches it with the council as
    /// signer.
    fn transfer_winners(&self, signer: &String) -> (r: Result<Disbursement, LotError>)
        ensures
            r is Ok <==> signer@ == self@.council_id,
            r matches Err(e) ==> e == LotError::Unauthorized,
            r matches Ok(d) ==> {
                &&& d.to_charity@ == self@.highest_voted_charity
                &&& d.charity_amount == self@.charity_pot
                &&& d.to_winner@ == self@.lot_winner
                &&& d.lottery_amount == self@.lottery_pot
            },
    {
        if let Err(e) = self.only_council(signer) {
            return Err(e);
        }
        Ok(
            Disbursement {
                to_charity: self.highest_voted_charity.clone(),
                charity_amount: self.charity_pot,
                to_winner: self.lot_winner.clone(),
                lottery_amount: self.lottery_pot,
            },
        )
    }

    /// Council-only status transition to a status different from the one in
    /// force. A transition into `Done` resolves the round first: it draws
    /// the lottery winner with the entropy byte, selects the most-voted
    /// charity, records both, and returns the two transfers the host must
    /// issue; with an empty ledger or registry the whole transition fails
    /// and the status is unchanged. Every other transition returns no
    /// transfers and changes nothing but the status.
    pub fn update_status(&mut self, signer: &String, new_status: LotStatus, entropy: u8) -> (r:
        Result<Option<Disbursement>, LotError>)
        requires
            old(self)@.wf(),
        ensures
            final(self)@.wf(),
            signer@ != old(self)@.council_id ==> r == Err::<Option<Disbursement>, LotError>(
                LotError::Unauthorized,
            ) && final(self)@ == old(self)@,
            signer@ == old(self)@.council_id && new_status == old(self)@.lot_status ==> r == Err::<
                Option<Disbursement>,
                LotError,
            >(LotError::NoSameStatus) && final(self)@ == old(self)@,
            signer@ == old(self)@.council_id && new_status != old(self)@.lot_status && new_status
                != LotStatus::Done ==> {
                &&& r == Ok::<Option<Disbursement>, LotError>(None)
                &&& final(self)@ == LotView { lot_status: new_status, ..old(self)@ }
            },
            signer@ == old(self)@.council_id && new_status != old(self)@.lot_status && new_status
                == LotStatus::Done && old(self)@.participants.len() == 0 ==> r == Err::<
                Option<Disbursement>,
                LotError,
            >(LotError::EmptyParticipants) && final(self)@ == old(self)@,
            signer@ == old(self)@.council_id && new_status != old(self)@.lot_status && new_status
                == LotStatus::Done && old(self)@.participants.len() > 0 && old(
                self,
            )@.charities.len() == 0 ==> r == Err::<Option<Disbursement>, LotError>(
                LotError::EmptyRegistry,
            ) && final(self)@ == old(self)@,
            signer@ == old(self)@.council_id && new_status != old(self)@.lot_status && new_status
                == LotStatus::Done && old(self)@.participants.len() > 0 && old(
                self,
            )@.charities.len() > 0 ==> {
                &&& final(self)@.lot_status == LotStatus::Done
                &&& final(self)@.lot_winner == old(self)@.participants[entropy as int % old(
                    self,
                )@.participants.len() as int]
                &&& final(self)@.highest_voted_charity == old(self)@.charities[win_idx(
                    old(self)@.charities,
                )].charity_id
                &&& final(self)@.charities == old(self)@.charities
                &&& final(self)@.participants == old(self)@.participants
                &&& final(self)@.lottery_pot == old(self)@.lottery_pot
                &&& final(self)@.charity_pot == old(self)@.charity_pot
                &&& final(self)@.ticket_price == old(self)@.ticket_price
                &&& final(self)@.charity_rate == old(self)@.charity_rate
                &&& final(self)@.council_id == old(self)@.council_id
                &&& (r matches Ok(Some(d)) && {
                    &&& d.to_charity@ == final(self)@.highest_voted_charity
                    &&& d.charity_amount == old(self)@.charity_pot
                    &&& d.to_winner@ == final(self)@.lot_winner
                    &&& d.lottery_amount == old(self)@.lottery_pot
                })
            },
    {
        if let Err(e) = self.only_council(signer) {
            return Err(e);
        }
        if new_status == self.lot_status {
            return Err(LotError::NoSameStatus);
        }
        if new_status.is_done() {
            let winner = match self.random_winner(entropy) {
                Ok(w) => w,
                Err(e) => {
                    return Err(e);
                },
            };
            let charity = match self.get_charity_win() {
                Ok(c) => c,
                Err(e) => {
                    return Err(e);
                },
            };
            self.lot_status = new_status;
            self.lot_winner = winner;
            self.highest_voted_charity = charity;
            match self.transfer_winners(signer) {
                Ok(d) => Ok(Some(d)),
                Err(e) => Err(e),
            }
        } else {
            self.lot_status = new_status;
            Ok(None)
        }
    }

    /// The council identity.
    pub fn get_council(&self) -> (r: String)
        ensures
            r@ == self@.council_id,
    {
        self.council_id.clone()
    }

    /// All charity records, in registry order.
    pub fn get_charity_funds(&self) -> (r: Vec<CharityFund>)
        ensures
            r@.map_values(|f: CharityFund| f@) == self@.charities,
    {
        let n = self.charity_map.len();
        let mut out: Vec<CharityFund> = Vec::new();
        let mut i: usize = 0;
        while i < n
            invariant
                i <= n,
                n == self.charity_map.len(),
                out@.len() == i,
                forall|j: int| 0 <= j < i ==> (#[trigger] out@[j])@ == self@.charities[j],
            decreases n - i,
        {
            out.push(self.charity_map[i].clone());
            i = i + 1;
        }
        proof {
            assert(out@.map_values(|f: CharityFund| f@) =~= self@.charities);
        }
        out
    }

    /// The full participant ledger, in purchase order.
    pub fn get_participants(&self) -> (r: Vec<String>)
        ensures
            r@.map_values(|p: String| p@) == self@.participants,
    {
        let n = self.participants.len();
        let mut out: Vec<String> = Vec::new();
        let mut i: usize = 0;
        while i < n
            invariant
                i <= n,
                n == self.participants.len(),
                out@.len() == i,
                forall|j: int| 0 <= j < i ==> (#[trigger] out@[j])@ == self@.participants[j],
            decreases n - i,
        {
            out.push(self.participants[i].clone());
            i = i + 1;
        }
        proof {
            assert(out@.map_values(|p: String| p@) =~= self@.participants);
        }
        out
    }

    /// The lifecycle status in force.
    pub fn get_lot_status(&self) -> (r: LotStatus)
        ensures
            r == self@.lot_status,
    {
        self.lot_status
    }
}

} // verus!
