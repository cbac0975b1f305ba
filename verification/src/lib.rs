//! A ledger-resident lottery-and-charity-voting engine.
//!
//! Participants buy tickets; each purchase splits the attached amount between
//! a lottery pot and a charity pot and casts one vote for a registered
//! charity. When the privileged council closes the round, a lottery winner is
//! drawn from the ticket ledger with a host-supplied entropy byte, the
//! most-voted charity is selected, and both pots are scheduled for
//! disbursement. The host (identity, attached value, entropy, transfer and
//! storage) stays outside this crate: every operation takes those inputs as
//! plain values and returns the transfers it wants issued.

pub mod account;
pub mod errors;
pub mod fund;
pub mod laws;
pub mod lot;
pub mod model;
pub mod status;

pub use account::is_valid_account_id;
pub use errors::LotError;
pub use fund::CharityFund;
pub use lot::CHARITY_RATE;
pub use lot::CharityLot;
pub use lot::Disbursement;
pub use lot::TICKET_PRICE;
pub use status::LotStatus;
