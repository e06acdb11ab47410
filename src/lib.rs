//! A closed-economy engine: deposits buy units on a linear bonding curve,
//! units accrue yield over time, and the yield is harvested (with tax and
//! decay) or reinvested. Referral chains and daily streaks are rewarded from a
//! separate reward-token pool. Every transition is a function over explicitly
//! passed records; the host reads clocks and balances, stores records, and
//! carries out the transfers each transition decides.

pub mod address;
pub mod administration;
pub mod constants;
pub mod curve;
pub mod distill;
pub mod errors;
pub mod events;
pub mod incubate_serum;
pub mod incubation_period;
pub mod inject;
pub mod laws;
pub mod mutate;
pub mod policy;
pub mod referral;
pub mod register_scientist;
pub mod security;
pub mod states;
pub mod time;
pub mod views;
pub mod wide;
