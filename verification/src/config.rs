//! The settings that every submission over plain RPC goes out with.

use vstd::prelude::*;

verus! {

/// How settled the ledger state that a query looks at must be.
#[derive(Clone, Copy, Debug, PartialEq, Eq, Structural)]
pub enum CommitmentLevel {
    /// The newest state the node has processed: the least strict level.
    Processed,
    /// State that a supermajority of the cluster has voted on.
    Confirmed,
    /// State that can no longer be rolled back.
    Finalized,
}

/// How a transaction is written on the wire.
#[derive(Clone, Copy, Debug, PartialEq, Eq, Structural)]
pub enum TransactionEncoding {
    Binary,
    Base64,
    Base58,
    Json,
    JsonParsed,
}

/// The settings of one submission.
#[derive(Clone, Copy, Debug, PartialEq, Eq, Structural)]
pub struct SendConfig {
    /// Whether the node skips its simulation of the transaction.
    pub skip_preflight: bool,
    /// The commitment level of that simulation.
    pub preflight_commitment: Option<CommitmentLevel>,
    /// The wire encoding of the transaction.
    pub encoding: Option<TransactionEncoding>,
    /// How often the node may resend the transaction.
    pub max_retries: Option<usize>,
    /// The lowest slot the node may evaluate the request at.
    pub min_context_slot: Option<u64>,
}

impl SendConfig {
    /// The fixed settings of plain RPC: no preflight simulation, `Processed`
    /// as its commitment, base-64 encoding, at most three resends, and no
    /// lower bound on the slot.
    pub open spec fn plain_rpc() -> SendConfig {
        SendConfig {
            skip_preflight: true,
            preflight_commitment: Some(CommitmentLevel::Processed),
            encoding: Some(TransactionEncoding::Base64),
            max_retries: Some(3usize),
            min_context_slot: Some(0u64),
        }
    }

    /// Returns the fixed settings of plain RPC.
    pub fn for_plain_rpc() -> (config: SendConfig)
        ensures
            config == SendConfig::plain_rpc(),
    {
        SendConfig {
            skip_preflight: true,
            preflight_commitment: Some(CommitmentLevel::Processed),
            encoding: Some(TransactionEncoding::Base64),
            max_retries: Some(3),
            min_context_slot: Some(0),
        }
    }
}

} // verus!
