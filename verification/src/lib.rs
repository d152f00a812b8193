//! Confidential balances for a savings circle.
//!
//! Balances live on the ledger as opaque ciphertexts. Every change to one is
//! computed off the ledger by a secure-computation network and applied here
//! only after the network's answer has been matched to a pending request.
//! This crate holds the rules of that exchange:
//!
//! - `circuits`: what each delegated computation computes, on plain values;
//! - `auth`: the authorization gate for privileged operations;
//! - `ledger`: the record of requests, with at most one pending request per
//!   balance;
//! - `confidential`: the instructions that queue an intent and apply the
//!   answer to it;
//! - `lifecycle`: the states an intent passes through;
//! - `public_pool`, `oracle`, `sum_example`: the instructions that involve no
//!   hidden balance;
//! - `state`, `pubkey`, `transfer`, `computation`, `error`: the records and
//!   messages these work on;
//! - `plain_codec`, `local_network`: a stand-in for the network, for tests.
//!
//! Nothing here touches an account, a clock or a token: an instruction takes
//! plain records and says what is to be stored, moved and queued.

pub mod auth;
pub mod circuits;
pub mod computation;
pub mod confidential;
pub mod error;
pub mod ledger;
pub mod lifecycle;
pub mod local_network;
pub mod oracle;
pub mod plain_codec;
pub mod public_pool;
pub mod pubkey;
pub mod state;
pub mod sum_example;
pub mod transfer;
