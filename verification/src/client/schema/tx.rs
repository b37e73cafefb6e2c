//! Transactions, as far as blocks name them.

use vstd::prelude::*;
use crate::client::schema::primitives::TransactionId;

verus! {

/// A transaction, reduced to its identifier.
#[derive(Clone, Copy, Debug, PartialEq, Eq)]
pub struct TransactionIdFragment {
    pub id: TransactionId,
}

} // verus!
