//! Ethereum transactions: the three envelope kinds, their signatures and their hashes.

use vstd::prelude::*;

use crate::primitives::{H160, H256, U256};

verus! {

/// What a transaction does with its payload: call the account at an address, or create a
/// contract.
#[derive(Clone, Copy, Debug, PartialEq, Eq)]
pub enum TransactionAction {
    Call(H160),
    Create,
}

/// The order of the secp256k1 curve, big-endian: `r` and `s` of a signature lie below it.
pub const SECP256K1_ORDER: [u8; 32] = [
    0xffu8, 0xff, 0xff, 0xff, 0xff, 0xff, 0xff, 0xff, 0xff, 0xff, 0xff, 0xff, 0xff, 0xff, 0xff, 0xfe,
    0xba, 0xae, 0xdc, 0xe6, 0xaf, 0x48, 0xa0, 0x3b, 0xbf, 0xd2, 0x5e, 0x8c, 0xd0, 0x36, 0x41, 0x41,
];

/// `a` comes before `b` in the byte order in which fixed-size hashes compare: at the first
/// position where they differ, `a` holds the smaller byte.
pub open spec fn bytes_lt(a: Seq<u8>, b: Seq<u8>) -> bool {
    exists|i: int|
        0 <= i < a.len() && i < b.len() && a.subrange(0, i) == b.subrange(0, i) && #[trigger] a[i]
            < b[i]
}

/// All bytes are zero.
pub open spec fn bytes_all_zero(a: Seq<u8>) -> bool {
    forall|i: int| 0 <= i < a.len() ==> a[i] == 0
}

/// The recovery id `0` or `1` that an Ethereum `v` value stands for, or `4` for a `v` that
/// stands for none: `v` is `27` or `28` (unprotected), or `35 + 2 * chain_id + recovery id`
/// beyond `36`.
pub open spec fn standard_recovery_id(v: u64) -> u8 {
    if v == 27 || v == 28 || v > 36 {
        ((v - 1) % 2) as u8
    } else {
        4
    }
}

/// The chain id that a replay-protected `v` value carries.
pub open spec fn chain_id_of(v: u64) -> Option<u64> {
    if v > 36 {
        Some(((v - 35) / 2) as u64)
    } else {
        None
    }
}

/// `v`, `r` and `s` form a signature that a transaction may carry: `v` stands for a recovery
/// id, and `r` and `s` lie in `[1, n)` for the curve order `n`.
pub open spec fn signature_is_valid(v: u64, r: Seq<u8>, s: Seq<u8>) -> bool {
    &&& standard_recovery_id(v) <= 1
    &&& bytes_lt(r, SECP256K1_ORDER@)
    &&& !bytes_all_zero(r)
    &&& bytes_lt(s, SECP256K1_ORDER@)
    &&& !bytes_all_zero(s)
}

/// The signature of a legacy transaction: `v` with `r` and `s`, each a 32-byte big-endian
/// integer.
#[derive(Clone, Copy, Debug, PartialEq, Eq)]
pub struct TransactionSignature {
    v: u64,
    r: H256,
    s: H256,
}

impl TransactionSignature {
    /// The `v` value.
    pub closed spec fn spec_v(self) -> u64 {
        self.v
    }

    /// The `r` value.
    pub closed spec fn spec_r(self) -> H256 {
        self.r
    }

    /// The `s` value.
    pub closed spec fn spec_s(self) -> H256 {
        self.s
    }

    /// Every signature is valid.
    #[verifier::type_invariant]
    pub closed spec fn inv(self) -> bool {
        signature_is_valid(self.v, self.r.0@, self.s.0@)
    }
}

/// Whether `a` comes before `b` in byte order.
pub fn bytes32_lt(a: &[u8; 32], b: &[u8; 32]) -> (res: bool)
    ensures
        res == bytes_lt(a@, b@),
{
    let mut i: usize = 0;
    while i < 32 && a[i] == b[i]
        invariant
            i <= 32,
            a@.subrange(0, i as int) =~= b@.subrange(0, i as int),
        decreases 32 - i,
    {
        assert(a@.subrange(0, i + 1) =~= a@.subrange(0, i as int).push(a@[i as int]));
        assert(b@.subrange(0, i + 1) =~= b@.subrange(0, i as int).push(b@[i as int]));
        i = i + 1;
    }
    if i == 32 {
        assert(a@ =~= b@) by {
            assert(a@ =~= a@.subrange(0, 32));
            assert(b@ =~= b@.subrange(0, 32));
        }
        false
    } else {
        let lt = a[i] < b[i];
        proof {
            if lt {
                assert(a@[i as int] < b@[i as int]);
            } else {
                assert forall|j: int|
                    0 <= j < a@.len() && j < b@.len() && a@.subrange(0, j) == b@.subrange(0, j)
                        implies !(#[trigger] a@[j] < b@[j]) by {
                    if j < i {
                        assert(a@[j] == a@.subrange(0, i as int)[j]);
                        assert(b@[j] == b@.subrange(0, i as int)[j]);
                    } else if j > i {
                        assert(a@[i as int] == a@.subrange(0, j)[i as int]);
                        assert(b@[i as int] == b@.subrange(0, j)[i as int]);
                    }
                }
            }
        }
        lt
    }
}

/// Whether all 32 bytes are zero.
pub fn bytes32_all_zero(a: &[u8; 32]) -> (res: bool)
    ensures
        res == bytes_all_zero(a@),
{
    let mut i: usize = 0;
    while i < 32
        invariant
            i <= 32,
            forall|j: int| 0 <= j < i ==> a@[j] == 0,
        decreases 32 - i,
    {
        if a[i] != 0 {
            return false;
        }
        i = i + 1;
    }
    true
}

impl TransactionSignature {
    /// The signature of `v`, `r` and `s`, or `None` where they do not form a valid one.
    pub fn new(v: u64, r: H256, s: H256) -> (res: Option<TransactionSignature>)
        ensures
            res is Some <==> signature_is_valid(v, r.0@, s.0@),
            res is Some <==> ((v == 27 || v == 28 || v > 36) && bytes_lt(r.0@, SECP256K1_ORDER@)
                && !bytes_all_zero(r.0@) && bytes_lt(s.0@, SECP256K1_ORDER@) && !bytes_all_zero(
                s.0@)),
            res matches Some(sig) ==> sig.spec_v() == v && sig.spec_r() == r && sig.spec_s()
                == s,
    {
        let standard = if v == 27 || v == 28 || v > 36 {
            ((v - 1) % 2) as u8
        } else {
            4
        };
        let order = SECP256K1_ORDER;
        let valid = standard <= 1 && bytes32_lt(&r.0, &order) && !bytes32_all_zero(&r.0)
            && bytes32_lt(&s.0, &order) && !bytes32_all_zero(&s.0);
        if valid {
            Some(TransactionSignature { v, r, s })
        } else {
            None
        }
    }

    /// The `v` value.
    pub fn v(&self) -> (res: u64)
        ensures
            res == self.spec_v(),
    {
        self.v
    }

    /// The `r` value.
    pub fn r(&self) -> (res: H256)
        ensures
            res == self.spec_r(),
    {
        self.r
    }

    /// The `s` value.
    pub fn s(&self) -> (res: H256)
        ensures
            res == self.spec_s(),
    {
        self.s
    }

    /// The recovery id, `0` or `1`, that `v` stands for.
    pub fn standard_v(&self) -> (res: u8)
        ensures
            res == standard_recovery_id(self.spec_v()),
            res <= 1,
            res as int == (self.spec_v() as int - 1) % 2,
    {
        proof {
            use_type_invariant(self);
        }
        if self.v == 27 || self.v == 28 || self.v > 36 {
            ((self.v - 1) % 2) as u8
        } else {
            4
        }
    }

    /// The chain id that `v` carries, if the signature is replay-protected.
    pub fn chain_id(&self) -> (res: Option<u64>)
        ensures
            res == chain_id_of(self.spec_v()),
            res is Some <==> self.spec_v() > 36,
            res matches Some(c) ==> 35 + 2 * c + (self.spec_v() as int - 1) % 2 == self.spec_v(),
    {
        if self.v > 36 {
            Some((self.v - 35) / 2)
        } else {
            None
        }
    }
}

/// A transaction of the original format, signed with a `v` that may carry a chain id.
#[derive(Clone, Debug, PartialEq, Eq)]
pub struct LegacyTransaction {
    pub nonce: U256,
    pub gas_price: U256,
    pub gas_limit: U256,
    pub action: TransactionAction,
    pub value: U256,
    pub input: Vec<u8>,
    pub signature: TransactionSignature,
}

/// A transaction of the EIP-2930 format, as far as it is read here: its access list and
/// signature are left out.
#[derive(Clone, Debug, PartialEq, Eq)]
pub struct EIP2930Transaction {
    pub chain_id: u64,
    pub nonce: U256,
    pub gas_price: U256,
    pub gas_limit: U256,
    pub action: TransactionAction,
    pub value: U256,
    pub input: Vec<u8>,
}

/// A transaction of the EIP-1559 format, as far as it is read here: its access list and
/// signature are left out.
#[derive(Clone, Debug, PartialEq, Eq)]
pub struct EIP1559Transaction {
    pub chain_id: u64,
    pub nonce: U256,
    pub max_priority_fee_per_gas: U256,
    pub max_fee_per_gas: U256,
    pub gas_limit: U256,
    pub action: TransactionAction,
    pub value: U256,
    pub input: Vec<u8>,
}

/// An Ethereum transaction in any of the three envelope formats.
#[derive(Clone, Debug, PartialEq, Eq)]
pub enum EthTransaction {
    Legacy(LegacyTransaction),
    EIP2930(EIP2930Transaction),
    EIP1559(EIP1559Transaction),
}

impl EthTransaction {
    /// The nonce of the transaction, whatever its format.
    pub open spec fn spec_nonce(self) -> U256 {
        match self {
            EthTransaction::Legacy(t) => t.nonce,
            EthTransaction::EIP2930(t) => t.nonce,
            EthTransaction::EIP1559(t) => t.nonce,
        }
    }

    /// The nonce of the transaction, whatever its format.
    pub fn nonce(&self) -> (res: U256)
        ensures
            res == self.spec_nonce(),
            match self {
                EthTransaction::Legacy(t) => res == t.nonce,
                EthTransaction::EIP2930(t) => res == t.nonce,
                EthTransaction::EIP1559(t) => res == t.nonce,
            },
    {
        match self {
            EthTransaction::Legacy(t) => t.nonce,
            EthTransaction::EIP2930(t) => t.nonce,
            EthTransaction::EIP1559(t) => t.nonce,
        }
    }
}

/// The Keccak-256 hash of the RLP encoding of the message that a legacy transaction signs:
/// its six leading fields, and where `chain_id` is given, the chain id and two zeros after
/// them.
pub uninterp spec fn legacy_message_hash_of(
    nonce: U256,
    gas_price: U256,
    gas_limit: U256,
    action: TransactionAction,
    value: U256,
    input: Seq<u8>,
    chain_id: Option<u64>,
) -> Seq<u8>;

/// The Keccak-256 hash of the RLP encoding of a signed legacy transaction.
pub uninterp spec fn legacy_transaction_hash_of(
    nonce: U256,
    gas_price: U256,
    gas_limit: U256,
    action: TransactionAction,
    value: U256,
    input: Seq<u8>,
    v: u64,
    r: Seq<u8>,
    s: Seq<u8>,
) -> Seq<u8>;

/// Calls `ethereum::LegacyTransactionMessage::hash` on the message made of the given fields.
/// Claimed: the result is the hash that `legacy_message_hash_of` names for them.
#[verifier::external_body]
fn legacy_message_hash(
    nonce: &U256,
    gas_price: &U256,
    gas_limit: &U256,
    action: &TransactionAction,
    value: &U256,
    input: &[u8],
    chain_id: Option<u64>,
) -> (res: H256)
    ensures
        res.0@ == legacy_message_hash_of(*nonce, *gas_price, *gas_limit, *action, *value, input@, chain_id),
{
    let message = ethereum::LegacyTransactionMessage {
        nonce: sp_core::U256(nonce.0),
        gas_price: sp_core::U256(gas_price.0),
        gas_limit: sp_core::U256(gas_limit.0),
        action: match action {
            TransactionAction::Call(to) => ethereum::TransactionAction::Call(sp_core::H160(to.0)),
            TransactionAction::Create => ethereum::TransactionAction::Create,
        },
        value: sp_core::U256(value.0),
        input: input.to_vec(),
        chain_id,
    };
    H256(message.hash().0)
}

/// Calls `ethereum::LegacyTransaction::hash` on the transaction made of the fields of `t`.
/// Claimed: the result is the hash that `legacy_transaction_hash_of` names for them. The
/// signature is valid, so `ethereum::legacy::TransactionSignature::new` accepts it.
#[verifier::external_body]
fn legacy_transaction_hash(t: &LegacyTransaction) -> (res: H256)
    requires
        t.signature.inv(),
    ensures
        res.0@ == legacy_transaction_hash_of(t.nonce, t.gas_price, t.gas_limit, t.action, t.value, t.input@, t.signature.spec_v(), t.signature.spec_r().0@, t.signature.spec_s().0@),
{
    let sig = &t.signature;
    let transaction = ethereum::LegacyTransaction {
        nonce: sp_core::U256(t.nonce.0),
        gas_price: sp_core::U256(t.gas_price.0),
        gas_limit: sp_core::U256(t.gas_limit.0),
        action: match t.action {
            TransactionAction::Call(to) => ethereum::TransactionAction::Call(sp_core::H160(to.0)),
            TransactionAction::Create => ethereum::TransactionAction::Create,
        },
        value: sp_core::U256(t.value.0),
        input: t.input.clone(),
        signature: ethereum::legacy::TransactionSignature::new(sig.v, sp_core::H256(sig.r.0), sp_core::H256(sig.s.0)).unwrap(),
    };
    H256(transaction.hash().0)
}

impl LegacyTransaction {
    /// The hash of the message that the transaction signs.
    pub fn message_hash(&self) -> (res: H256)
        ensures
            res.0@ == legacy_message_hash_of(self.nonce, self.gas_price, self.gas_limit, self.action, self.value, self.input@, chain_id_of(self.signature.spec_v())),
    {
        let chain_id = self.signature.chain_id();
        legacy_message_hash(&self.nonce, &self.gas_price, &self.gas_limit, &self.action, &self.value, self.input.as_slice(), chain_id)
    }

    /// The hash of the signed transaction.
    pub fn hash(&self) -> (res: H256)
        ensures
            res.0@ == legacy_transaction_hash_of(self.nonce, self.gas_price, self.gas_limit, self.action, self.value, self.input@, self.signature.spec_v(), self.signature.spec_r().0@, self.signature.spec_s().0@),
    {
        proof {
            use_type_invariant(&self.signature);
        }
        legacy_transaction_hash(self)
    }
}

} // verus!
