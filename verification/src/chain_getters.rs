//! The questions that a client asks a node about the chain when a session
//! starts.

use vstd::prelude::*;

verus! {

/// A question about the chain.
#[derive(Debug, Clone, Copy, PartialEq, Eq, Structural)]
pub enum ChainGetters {
    ChainId,
    DatabaseApiId,
    NetworkApiId,
    HistoryApiId,
    CryptoApiId,
}

impl ChainGetters {
    /// The label of the question, as it is shown to a reader.
    pub open spec fn label_text(self) -> Seq<char> {
        match self {
            ChainGetters::ChainId => "ChainGetters::ChainId"@,
            ChainGetters::DatabaseApiId => "ChainGetters::DatabaseApiId"@,
            ChainGetters::NetworkApiId => "ChainGetters::NetworkApiId"@,
            ChainGetters::HistoryApiId => "ChainGetters::HistoryApiId"@,
            ChainGetters::CryptoApiId => "ChainGetters::CryptoApiId"@,
        }
    }

    /// The label of the question, as it is shown to a reader.
    pub fn to_string(&self) -> (label: String)
        ensures
            label@ == self.label_text(),
    {
        match self {
            ChainGetters::ChainId => "ChainGetters::ChainId".to_owned(),
            ChainGetters::DatabaseApiId => "ChainGetters::DatabaseApiId".to_owned(),
            ChainGetters::NetworkApiId => "ChainGetters::NetworkApiId".to_owned(),
            ChainGetters::HistoryApiId => "ChainGetters::HistoryApiId".to_owned(),
            ChainGetters::CryptoApiId => "ChainGetters::CryptoApiId".to_owned(),
        }
    }
}

} // verus!
