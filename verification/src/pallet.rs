//! The decisions of the ethink pallet: which origins and transactions it takes, who signed a
//! transaction, what the transaction pool is told, and what dispatching one does.

use vstd::prelude::*;

use crate::crypto::{ecdsa_recover_of, keccak_256, keccak_256_of, secp256k1_ecdsa_recover};
use crate::primitives::{H160, H256, U256};
use crate::transaction::{
    chain_id_of, legacy_message_hash_of, legacy_transaction_hash_of, standard_recovery_id,
    EthTransaction, LegacyTransaction, TransactionAction,
};
use crate::validity::{
    sender_nonce_tag, valid_providing, valid_transaction_providing, InvalidTransaction,
    TransactionValidity, TransactionValidityError,
};

verus! {

/// The base gas fee of an Ethereum transaction.
pub const ETH_BASE_GAS_FEE: u64 = 21_000;

/// The message of the error for an origin that is not an Ethereum transaction.
pub const BAD_ORIGIN: &'static str = "Bad origin: not a valid Ethereum transaction";

/// The origin of a call that an Ethereum transaction makes: the account that signed it.
#[derive(Clone, Copy, Debug, PartialEq, Eq)]
pub enum RawOrigin {
    EthTransaction(H160),
}

impl RawOrigin {
    /// The account of the origin.
    pub open spec fn spec_account(self) -> H160 {
        match self {
            RawOrigin::EthTransaction(a) => a,
        }
    }

    /// The account of the origin, as whose signed origin the call runs.
    pub fn account(&self) -> (res: H160)
        ensures
            res == self.spec_account(),
    {
        match self {
            RawOrigin::EthTransaction(a) => *a,
        }
    }
}

/// Takes the origin that an outer origin converts to, or fails where it is no Ethereum
/// transaction.
pub fn ensure_eth_transaction<O>(o: Result<RawOrigin, O>) -> (res: Result<RawOrigin, &'static str>)
    ensures
        match o {
            Ok(origin) => res == Ok::<RawOrigin, &'static str>(origin),
            Err(_) => res == Err::<RawOrigin, &'static str>(BAD_ORIGIN),
        },
{
    match o {
        Ok(origin) => Ok(origin),
        Err(_) => Err(BAD_ORIGIN),
    }
}

/// Why a dispatch of the pallet fails.
#[derive(Clone, Copy, Debug, PartialEq, Eq)]
pub enum Error {
    /// Signature is invalid
    BadEthSignature,
    /// Type of transaction is not supported
    TxNotSupported,
    /// Transaction execution failed
    TxExecutionFailed,
}

/// Why a dispatch fails: a plain message, or an error of the pallet.
#[derive(Clone, Copy, Debug, PartialEq, Eq)]
pub enum DispatchError {
    Other(&'static str),
    Module(Error),
}

/// What the pallet reports of a dispatch.
#[derive(Clone, Copy, Debug, PartialEq, Eq)]
pub enum Event {
    /// A call coming from ETH RPC was successfully executed.
    TxExecuted { from: H160, to: H160, tx_hash: H256 },
}

/// What a contract call returns: output bytes, or the address of a created contract.
#[derive(Clone, Debug, PartialEq, Eq)]
pub enum ReturnValue {
    Bytes(Vec<u8>),
    Hash(H160),
}

/// The 65 bytes that a legacy transaction is signed with: `r`, `s`, then the recovery id.
pub open spec fn signature_bytes(t: LegacyTransaction) -> Seq<u8> {
    t.signature.spec_r().0@ + t.signature.spec_s().0@ + seq![standard_recovery_id(t.signature.spec_v())]
}

/// The hash of the message that a legacy transaction signs.
pub open spec fn signed_message_hash(t: LegacyTransaction) -> Seq<u8> {
    legacy_message_hash_of(t.nonce, t.gas_price, t.gas_limit, t.action, t.value, t.input@, chain_id_of(t.signature.spec_v()))
}

/// The Ethereum address of a public key: the last 20 bytes of its Keccak-256 hash.
pub open spec fn address_of_key(key: Seq<u8>) -> Seq<u8> {
    keccak_256_of(key).subrange(12, 32)
}

/// The address of the account that signed `tx`, where it is a legacy transaction whose
/// signature yields a key.
pub open spec fn eth_signer(tx: EthTransaction) -> Option<Seq<u8>> {
    match tx {
        EthTransaction::Legacy(t) => match ecdsa_recover_of(signature_bytes(t), signed_message_hash(t)) {
            Some(key) => Some(address_of_key(key)),
            None => None,
        },
        _ => None,
    }
}

/// The address that a transaction calls, or `None` for one that creates a contract.
pub open spec fn call_target(action: TransactionAction) -> Option<H160> {
    match action {
        TransactionAction::Call(to) => Some(to),
        TransactionAction::Create => None,
    }
}

/// What a transaction asks for, where the pallet supports its format (legacy only): the
/// target, the value, the input and the gas limit.
pub open spec fn unpacked(tx: EthTransaction) -> Option<(Option<H160>, U256, Seq<u8>, U256)> {
    match tx {
        EthTransaction::Legacy(t) => Some((call_target(t.action), t.value, t.input@, t.gas_limit)),
        _ => None,
    }
}

/// The error of a signature check.
pub open spec fn bad_proof() -> TransactionValidityError {
    TransactionValidityError::Invalid(InvalidTransaction::BadProof)
}

/// The pallet's decisions on Ethereum transactions.
pub struct Pallet;

impl Pallet {
    /// The account that signed `tx`; legacy transactions only.
    pub fn check_eth_signature(tx: &EthTransaction) -> (res: Result<H160, TransactionValidityError>)
        ensures
            match eth_signer(*tx) {
                Some(address) => res matches Ok(a) && a.0@ == address,
                None => res == Err::<H160, TransactionValidityError>(bad_proof()),
            },
            match *tx {
                EthTransaction::Legacy(t) => match ecdsa_recover_of(
                    t.signature.spec_r().0@ + t.signature.spec_s().0@ + seq![standard_recovery_id(t.signature.spec_v())],
                    legacy_message_hash_of(t.nonce, t.gas_price, t.gas_limit, t.action, t.value, t.input@, chain_id_of(t.signature.spec_v())),
                ) {
                    Some(key) => res matches Ok(a) && a.0@ == keccak_256_of(key).subrange(12, 32),
                    None => res == Err::<H160, TransactionValidityError>(bad_proof()),
                },
                _ => res == Err::<H160, TransactionValidityError>(bad_proof()),
            },
    {
        match tx {
            EthTransaction::Legacy(t) => {
                let sig = Pallet::recovery_signature(t);
                let msg = t.message_hash();
                Pallet::signer_of_recovered(secp256k1_ecdsa_recover(&sig, &msg.0))
            },
            _ => Err(TransactionValidityError::Invalid(InvalidTransaction::BadProof)),
        }
    }

    /// The 65 bytes that recover the signer of `t`: `r`, `s`, then the recovery id.
    pub fn recovery_signature(t: &LegacyTransaction) -> (res: [u8; 65])
        ensures
            res@ == signature_bytes(*t),
    {
        let r = t.signature.r();
        let s = t.signature.s();
        let mut sig = [0u8; 65];
        let mut i: usize = 0;
        while i < 32
            invariant
                i <= 32,
                forall|j: int| 0 <= j < i ==> sig@[j] == r.0@[j],
                forall|j: int| 0 <= j < i ==> sig@[j + 32] == s.0@[j],
            decreases 32 - i,
        {
            sig[i] = r.0[i];
            sig[i + 32] = s.0[i];
            i = i + 1;
        }
        sig[64] = t.signature.standard_v();
        assert(sig@ =~= signature_bytes(*t));
        sig
    }

    /// The account of a recovered public key, or the signature error where none was
    /// recovered.
    pub fn signer_of_recovered(recovered: Option<[u8; 64]>) -> (res: Result<H160, TransactionValidityError>)
        ensures
            match recovered {
                Some(key) => res matches Ok(a) && a.0@ == address_of_key(key@),
                None => res == Err::<H160, TransactionValidityError>(bad_proof()),
            },
    {
        match recovered {
            Some(key) => {
                let hash = keccak_256(key.as_slice());
                Ok(H160::from_h256(H256(hash)))
            },
            None => Err(TransactionValidityError::Invalid(InvalidTransaction::BadProof)),
        }
    }

    /// What `tx` asks for: the target (`None` for a contract creation), the value, the input
    /// and the gas limit; `None` for a format other than legacy.
    pub fn unpack_eth_tx(tx: &EthTransaction) -> (res: Option<(Option<H160>, U256, Vec<u8>, U256)>)
        ensures
            match unpacked(*tx) {
                Some((to, value, data, gas_limit)) => res matches Some(r) && r.0 == to && r.1 == value
                    && r.2@ == data && r.3 == gas_limit,
                None => res is None,
            },
    {
        match tx {
            EthTransaction::Legacy(t) => {
                let to = match t.action {
                    TransactionAction::Call(h) => Some(h),
                    TransactionAction::Create => None,
                };
                Some((to, t.value, t.input.clone(), t.gas_limit))
            },
            _ => None,
        }
    }
}

/// A call into the pallet.
#[allow(non_camel_case_types)]
#[derive(Clone, Debug, PartialEq, Eq)]
pub enum Call {
    /// Transact a call coming from Ethereum RPC
    transact { tx: EthTransaction },
}

impl Call {
    /// The transaction that the call carries.
    pub open spec fn spec_tx(self) -> EthTransaction {
        match self {
            Call::transact { tx } => tx,
        }
    }

    /// Whether the call carries its own proof of origin: every call of the pallet does.
    pub fn is_self_contained(&self) -> (res: bool)
        ensures
            res,
    {
        match self {
            Call::transact { .. } => true,
        }
    }

    /// The account that signed the transaction of the call, checked by its signature.
    pub fn check_self_contained(&self) -> (res: Option<Result<H160, TransactionValidityError>>)
        ensures
            res matches Some(checked) && match eth_signer(self.spec_tx()) {
                Some(address) => checked matches Ok(a) && a.0@ == address,
                None => checked == Err::<H160, TransactionValidityError>(bad_proof()),
            },
    {
        match self {
            Call::transact { tx } => Some(Pallet::check_eth_signature(tx)),
        }
    }

    /// Nothing is checked before dispatch beyond what validation checked.
    pub fn pre_dispatch_self_contained<I>(&self, _origin: &H160, _dispatch_info: &I, _len: usize) -> (res: Option<Result<(), TransactionValidityError>>)
        ensures
            res == Some(Ok::<(), TransactionValidityError>(())),
    {
        Some(Ok(()))
    }

    /// The verdict for the pool on the call's transaction from `origin`, given the outcome of
    /// the block weight and length check: that check's error where it fails, else a valid
    /// transaction whose one provided tag is made of the origin and the transaction's nonce.
    pub fn validate_self_contained<W>(&self, origin: &H160, weight_check: Result<W, TransactionValidityError>) -> (res: Option<TransactionValidity>)
        ensures
            match weight_check {
                Err(e) => res == Some(Err::<crate::validity::ValidTransaction, TransactionValidityError>(e)),
                Ok(_) => res matches Some(Ok(v)) && valid_providing(v, sender_nonce_tag(*origin, self.spec_tx().spec_nonce())),
            },
    {
        match self {
            Call::transact { tx } => {
                if let Err(e) = weight_check {
                    return Some(Err(e));
                }
                let tx_nonce = tx.nonce();
                Some(Ok(valid_transaction_providing(origin, &tx_nonce)))
            },
        }
    }
}

/// What dispatching a transaction goes on to do once the pallet has taken it: raise the
/// nonce of `from`, build the contracts call to `to` with `value`, `data` and `gas_limit`,
/// dispatch it as `from`, and report it.
#[derive(Clone, Debug, PartialEq, Eq)]
pub struct TransactPlan {
    pub from: H160,
    pub to: H160,
    pub value: U256,
    pub data: Vec<u8>,
    pub gas_limit: U256,
    /// The transaction, whose hash the report carries.
    pub tx: LegacyTransaction,
}

/// How `transact` answers an origin (the account, or `None` where the origin is no Ethereum
/// transaction) and a transaction: the error, or the account and the target of the call.
pub open spec fn transact_outcome(origin: Option<H160>, tx: EthTransaction) -> Result<(H160, H160), DispatchError> {
    match origin {
        None => Err(DispatchError::Other(BAD_ORIGIN)),
        Some(from) => match tx {
            EthTransaction::Legacy(t) => match t.action {
                TransactionAction::Call(to) => Ok((from, to)),
                TransactionAction::Create => Err(DispatchError::Module(Error::TxNotSupported)),
            },
            _ => Err(DispatchError::Module(Error::TxNotSupported)),
        },
    }
}

/// The account of an origin, or `None` where it is no Ethereum transaction.
pub open spec fn origin_account<O>(origin: Result<RawOrigin, O>) -> Option<H160> {
    match origin {
        Ok(o) => Some(o.spec_account()),
        Err(_) => None,
    }
}

impl Pallet {
    /// Takes a transaction coming from Ethereum RPC as a call of its signer to a contract or
    /// account: fails for an origin that is no Ethereum transaction, for formats other than
    /// legacy and for contract creation, and otherwise plans the call.
    pub fn transact<O>(origin: Result<RawOrigin, O>, tx: EthTransaction) -> (res: Result<TransactPlan, DispatchError>)
        ensures
            match transact_outcome(origin_account(origin), tx) {
                Err(e) => res == Err::<TransactPlan, DispatchError>(e),
                Ok((from, to)) => res matches Ok(plan) && plan.from == from && plan.to == to
                    && tx == EthTransaction::Legacy(plan.tx) && plan.value == plan.tx.value
                    && plan.data@ == plan.tx.input@ && plan.gas_limit == plan.tx.gas_limit,
            },
            origin is Ok && tx is Legacy && tx->Legacy_0.action is Call ==> (res matches Ok(plan)
                && plan.from == origin->Ok_0.spec_account() && plan.to == tx->Legacy_0.action->Call_0
                && plan.data@ == tx->Legacy_0.input@ && plan.value == tx->Legacy_0.value
                && plan.gas_limit == tx->Legacy_0.gas_limit && plan.tx == tx->Legacy_0),
    {
        let eth_origin = match ensure_eth_transaction(origin) {
            Ok(o) => o,
            Err(message) => return Err(DispatchError::Other(message)),
        };
        let from = eth_origin.account();
        let (to, value, data, gas_limit) = match Pallet::unpack_eth_tx(&tx) {
            Some(unpacked) => unpacked,
            None => return Err(DispatchError::Module(Error::TxNotSupported)),
        };
        let to = match to {
            Some(to) => to,
            None => return Err(DispatchError::Module(Error::TxNotSupported)),
        };
        match tx {
            EthTransaction::Legacy(t) => Ok(TransactPlan { from, to, value, data, gas_limit, tx: t }),
            _ => Err(DispatchError::Module(Error::TxNotSupported)),
        }
    }
}

impl TransactPlan {
    /// Takes the contracts call built for the plan, or fails where none could be built.
    pub fn call_built<C>(&self, call: Option<C>) -> (res: Result<C, DispatchError>)
        ensures
            match call {
                Some(c) => res == Ok::<C, DispatchError>(c),
                None => res == Err::<C, DispatchError>(DispatchError::Module(Error::TxNotSupported)),
            },
    {
        match call {
            Some(c) => Ok(c),
            None => Err(DispatchError::Module(Error::TxNotSupported)),
        }
    }

    /// The report of a dispatched call, or the failure of a call that failed.
    pub fn dispatched<R, E>(&self, outcome: Result<R, E>) -> (res: Result<Event, DispatchError>)
        ensures
            match outcome {
                Ok(_) => res matches Ok(Event::TxExecuted { from, to, tx_hash }) && from == self.from && to == self.to
                    && tx_hash.0@ == legacy_transaction_hash_of(self.tx.nonce, self.tx.gas_price, self.tx.gas_limit, self.tx.action, self.tx.value, self.tx.input@, self.tx.signature.spec_v(), self.tx.signature.spec_r().0@, self.tx.signature.spec_s().0@),
                Err(_) => res == Err::<Event, DispatchError>(DispatchError::Module(Error::TxExecutionFailed)),
            },
    {
        match outcome {
            Ok(_) => Ok(Event::TxExecuted { from: self.from, to: self.to, tx_hash: self.tx.hash() }),
            Err(_) => Err(DispatchError::Module(Error::TxExecutionFailed)),
        }
    }
}

} // verus!
