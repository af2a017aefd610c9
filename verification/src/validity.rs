//! The verdicts that transaction validation hands to the transaction pool.

use vstd::prelude::*;

use crate::primitives::{H160, U256};

verus! {

/// Why a transaction is invalid.
#[derive(Clone, Copy, Debug, PartialEq, Eq)]
pub enum InvalidTransaction {
    Call,
    Payment,
    Future,
    Stale,
    BadProof,
    AncientBirthBlock,
    ExhaustsResources,
    Custom(u8),
    BadMandatory,
    MandatoryValidation,
    BadSigner,
    IndeterminateImplicit,
    UnknownOrigin,
}

/// Why the validity of a transaction cannot be determined.
#[derive(Clone, Copy, Debug, PartialEq, Eq)]
pub enum UnknownTransaction {
    CannotLookup,
    NoUnsignedValidator,
    Custom(u8),
}

/// A transaction that the pool must not take.
#[derive(Clone, Copy, Debug, PartialEq, Eq)]
pub enum TransactionValidityError {
    Invalid(InvalidTransaction),
    Unknown(UnknownTransaction),
}

/// What the pool learns of a valid transaction.
#[derive(Clone, Debug, PartialEq, Eq)]
pub struct ValidTransaction {
    /// Orders transactions whose required tags are all provided.
    pub priority: u64,
    /// Tags that other transactions must provide before this one is included.
    pub requires: Vec<Vec<u8>>,
    /// Tags that this transaction provides; two transactions with a common tag conflict.
    pub provides: Vec<Vec<u8>>,
    /// The number of blocks for which the verdict holds.
    pub longevity: u64,
    /// Whether the transaction is gossiped to other peers.
    pub propagate: bool,
}

/// The verdict on a transaction.
pub type TransactionValidity = Result<ValidTransaction, TransactionValidityError>;

/// The tag that a transaction of `sender` with `nonce` provides: the SCALE encoding of the
/// pair, the 20 address bytes followed by the 32 little-endian bytes of the nonce.
pub open spec fn sender_nonce_tag(sender: H160, nonce: U256) -> Seq<u8> {
    sender.0@ + nonce.le_bytes()
}

/// `v` is the verdict with default priority, longevity and propagation, no required tag,
/// and `tag` as its one provided tag.
pub open spec fn valid_providing(v: ValidTransaction, tag: Seq<u8>) -> bool {
    &&& v.priority == 0
    &&& v.requires@.len() == 0
    &&& v.provides@.len() == 1
    &&& v.provides@[0]@ == tag
    &&& v.longevity == u64::MAX
    &&& v.propagate
}

/// Calls `sp_runtime::transaction_validity::ValidTransactionBuilder::default()`, adds the pair
/// `(sender, nonce)` with `and_provides`, and takes the verdict it has built. Claimed, as the
/// source of both crates shows it: the default verdict (priority 0, no tags, longevity
/// `u64::MAX`, propagated) with the SCALE encoding of the pair as its one provided tag; SCALE
/// encodes a pair as its two parts in turn, an address as its 20 bytes and a 256-bit integer as
/// its 32 little-endian bytes.
#[verifier::external_body]
pub(crate) fn valid_transaction_providing(sender: &H160, nonce: &U256) -> (res: ValidTransaction)
    ensures
        valid_providing(res, sender_nonce_tag(*sender, *nonce)),
{
    let built: sp_runtime::transaction_validity::ValidTransaction =
        sp_runtime::transaction_validity::ValidTransactionBuilder::default()
            .and_provides((sp_core::H160(sender.0), sp_core::U256(nonce.0)))
            .into();
    ValidTransaction {
        priority: built.priority,
        requires: built.requires,
        provides: built.provides,
        longevity: built.longevity,
        propagate: built.propagate,
    }
}

} // verus!
