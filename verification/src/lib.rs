//! A stake-weighted governance and escrow core: a two-phase voting state
//! machine, a reputation ledger with stake bookkeeping, a job-bidding
//! escrow auction, and the proportional redistribution arithmetic that
//! settles both. The host platform (storage, token transfers, transaction
//! dispatch) stays outside; every operation here is a deterministic state
//! transition on plain values.

pub mod types;
pub mod errors;
pub mod math;
pub mod configuration;

pub mod access_control;
pub mod balances;
pub mod stakes;
pub mod reputation;

pub mod ballot;
pub mod voting_state_machine;
pub mod voting_events;
pub mod voting_engine;

pub mod job_offer;
pub mod bid;
pub mod job;
pub mod bid_engine;
pub mod bid_escrow_contract;
pub mod redistribution;
pub mod rules;
pub mod onboarding;

pub mod contract_call;
pub mod rate_provider;
pub mod repository;

pub mod admin;
pub mod reputation_voter;
pub mod simple_voter;
pub mod slashing_voter;
