//! Tags that accompany a submission: what kind of trade it carries and which
//! provider handled it.

use vstd::prelude::*;

verus! {

/// What a submitted transaction is meant to do. The tag only annotates log
/// lines; no decision depends on it.
#[derive(Clone, Copy, Debug, PartialEq, Eq, Structural)]
pub enum TradeType {
    Create,
    CreateAndBuy,
    Buy,
    Sell,
}

impl TradeType {
    /// The words that stand for this tag in a log line.
    pub open spec fn label_text(self) -> Seq<char> {
        match self {
            TradeType::Create => "Create"@,
            TradeType::CreateAndBuy => "Create and Buy"@,
            TradeType::Buy => "Buy"@,
            TradeType::Sell => "Sell"@,
        }
    }

    /// Returns the words that stand for this tag in a log line.
    pub fn label(&self) -> (text: &'static str)
        ensures
            text@ == self.label_text(),
    {
        match self {
            TradeType::Create => "Create",
            TradeType::CreateAndBuy => "Create and Buy",
            TradeType::Buy => "Buy",
            TradeType::Sell => "Sell",
        }
    }
}

/// The provider strategies a submitter can stand for.
#[derive(Clone, Copy, Debug, PartialEq, Eq, Structural)]
pub enum SwqosType {
    /// Submission through a block-engine relay.
    Relay,
    /// Submission that pays a tip to a provider account.
    Tip,
    /// Submission over plain RPC, with no relay and no tip.
    Default,
}

} // verus!
