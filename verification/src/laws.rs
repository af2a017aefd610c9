//! Properties that hold across the pallet's decisions.

use vstd::prelude::*;

use crate::crypto::{ecdsa_recover_of, keccak_256_of};
use crate::pallet::{eth_signer, transact_outcome, unpacked, DispatchError, Error};
use crate::primitives::{u64_le_bytes, H160, U256};
use crate::transaction::{
    bytes_all_zero, bytes_lt, chain_id_of, legacy_message_hash_of, signature_is_valid,
    standard_recovery_id, EthTransaction, LegacyTransaction, TransactionAction, SECP256K1_ORDER,
};
use crate::validity::sender_nonce_tag;

verus! {

/// Every transaction whose signature yields a signer is of the one format that the pallet
/// unpacks and dispatches: a self-contained check that succeeds never leads to
/// `TxNotSupported` for the format.
pub proof fn lemma_signed_transactions_unpack(tx: EthTransaction)
    requires
        eth_signer(tx) is Some,
    ensures
        unpacked(tx) is Some,
{
}

/// `transact` never fails with `BadEthSignature`: an origin that is an Ethereum transaction
/// always names its signing account.
pub proof fn lemma_transact_never_bad_signature(origin: Option<H160>, tx: EthTransaction)
    ensures
        transact_outcome(origin, tx) != Err::<(H160, H160), DispatchError>(
            DispatchError::Module(Error::BadEthSignature),
        ),
{
}

/// Eight little-endian bytes determine the 64-bit integer.
pub proof fn lemma_u64_le_bytes_injective(x: u64, y: u64)
    requires
        u64_le_bytes(x) == u64_le_bytes(y),
    ensures
        x == y,
{
    assert(u64_le_bytes(x)[0] == (x >> 0u64) as u8 && u64_le_bytes(y)[0] == (y >> 0u64) as u8);
    assert(u64_le_bytes(x)[1] == (x >> 8u64) as u8 && u64_le_bytes(y)[1] == (y >> 8u64) as u8);
    assert(u64_le_bytes(x)[2] == (x >> 16u64) as u8 && u64_le_bytes(y)[2] == (y >> 16u64) as u8);
    assert(u64_le_bytes(x)[3] == (x >> 24u64) as u8 && u64_le_bytes(y)[3] == (y >> 24u64) as u8);
    assert(u64_le_bytes(x)[4] == (x >> 32u64) as u8 && u64_le_bytes(y)[4] == (y >> 32u64) as u8);
    assert(u64_le_bytes(x)[5] == (x >> 40u64) as u8 && u64_le_bytes(y)[5] == (y >> 40u64) as u8);
    assert(u64_le_bytes(x)[6] == (x >> 48u64) as u8 && u64_le_bytes(y)[6] == (y >> 48u64) as u8);
    assert(u64_le_bytes(x)[7] == (x >> 56u64) as u8 && u64_le_bytes(y)[7] == (y >> 56u64) as u8);
    assert(x == y) by (bit_vector)
        requires
            (x >> 0u64) as u8 == (y >> 0u64) as u8,
            (x >> 8u64) as u8 == (y >> 8u64) as u8,
            (x >> 16u64) as u8 == (y >> 16u64) as u8,
            (x >> 24u64) as u8 == (y >> 24u64) as u8,
            (x >> 32u64) as u8 == (y >> 32u64) as u8,
            (x >> 40u64) as u8 == (y >> 40u64) as u8,
            (x >> 48u64) as u8 == (y >> 48u64) as u8,
            (x >> 56u64) as u8 == (y >> 56u64) as u8,
    ;
}

/// The pool's tag of a transaction tells sender and nonce apart: two transactions provide the
/// same tag exactly when they come from the same sender with the same nonce, so the pool takes
/// one transaction per sender and nonce.
#[verifier::spinoff_prover]
#[verifier::rlimit(40)]
pub proof fn lemma_sender_nonce_tag_injective(a: H160, m: U256, b: H160, n: U256)
    ensures
        sender_nonce_tag(a, m) == sender_nonce_tag(b, n) <==> (a == b && m == n),
{
    if sender_nonce_tag(a, m) == sender_nonce_tag(b, n) {
        let ta = sender_nonce_tag(a, m);
        let tb = sender_nonce_tag(b, n);
        assert(a.0@ =~= ta.subrange(0, 20));
        assert(b.0@ =~= tb.subrange(0, 20));
        assert(a.0 =~= b.0);
        assert forall|i: int| 0 <= i < 4 implies m.0@[i] == n.0@[i] by {
            assert(u64_le_bytes(m.0@[i]) =~= ta.subrange(20 + 8 * i, 28 + 8 * i));
            assert(u64_le_bytes(n.0@[i]) =~= tb.subrange(20 + 8 * i, 28 + 8 * i));
            lemma_u64_le_bytes_injective(m.0@[i], n.0@[i]);
        }
        assert(m.0 =~= n.0);
    }
}

/// A replay-protected `v` (beyond 36) splits into its chain id `c` and its recovery id `b` as
/// `v == 35 + 2 * c + b`, with `b` being 0 or 1.
pub proof fn lemma_protected_v_splits(v: u64)
    requires
        v > 36,
    ensures
        chain_id_of(v) is Some,
        standard_recovery_id(v) <= 1,
        35 + 2 * chain_id_of(v)->Some_0 + standard_recovery_id(v) == v,
{
}

/// The EIP-155 `v` of chain `c` (at least 1) and recovery id `b` (0 or 1) stands for recovery id
/// `b` on chain `c`, and a signature with it is valid exactly when `r` and `s` lie in `[1, n)`.
pub proof fn lemma_eip155_v(c: u64, b: u8, r: Seq<u8>, s: Seq<u8>)
    requires
        c >= 1,
        b <= 1,
        35 + 2 * c + b <= u64::MAX,
    ensures
        standard_recovery_id((35 + 2 * c + b) as u64) == b,
        chain_id_of((35 + 2 * c + b) as u64) == Some(c),
        signature_is_valid((35 + 2 * c + b) as u64, r, s) <==> (bytes_lt(r, SECP256K1_ORDER@)
            && !bytes_all_zero(r) && bytes_lt(s, SECP256K1_ORDER@) && !bytes_all_zero(s)),
{
}

/// The unprotected `v` values 27 and 28 stand for recovery ids 0 and 1 and carry no chain id.
pub proof fn lemma_unprotected_v(b: u8)
    requires
        b <= 1,
    ensures
        standard_recovery_id((27 + b) as u64) == b,
        chain_id_of((27 + b) as u64) is None,
{
}

/// The nonce of a transaction is the nonce field of its format.
pub proof fn lemma_nonce_is_format_field(tx: EthTransaction)
    ensures
        match tx {
            EthTransaction::Legacy(t) => tx.spec_nonce() == t.nonce,
            EthTransaction::EIP2930(t) => tx.spec_nonce() == t.nonce,
            EthTransaction::EIP1559(t) => tx.spec_nonce() == t.nonce,
        },
{
}

/// Two transactions of one sender whose nonce fields differ provide different tags, so the
/// pool never takes one for a replacement of the other.
pub proof fn lemma_distinct_nonces_distinct_tags(sender: H160, tx1: EthTransaction, tx2: EthTransaction)
    requires
        (match tx1 {
            EthTransaction::Legacy(t) => t.nonce,
            EthTransaction::EIP2930(t) => t.nonce,
            EthTransaction::EIP1559(t) => t.nonce,
        }) != (match tx2 {
            EthTransaction::Legacy(t) => t.nonce,
            EthTransaction::EIP2930(t) => t.nonce,
            EthTransaction::EIP1559(t) => t.nonce,
        }),
    ensures
        sender_nonce_tag(sender, tx1.spec_nonce()) != sender_nonce_tag(sender, tx2.spec_nonce()),
{
    lemma_nonce_is_format_field(tx1);
    lemma_nonce_is_format_field(tx2);
    lemma_sender_nonce_tag_injective(sender, tx1.spec_nonce(), sender, tx2.spec_nonce());
}

/// From an Ethereum origin, every legacy transaction that calls an address is planned as a call
/// of the origin's account to that address, whatever its input, value or gas limit.
pub proof fn lemma_transact_plans_every_legacy_call(a: H160, t: LegacyTransaction, to: H160)
    requires
        t.action == TransactionAction::Call(to),
    ensures
        transact_outcome(Some(a), EthTransaction::Legacy(t)) == Ok::<(H160, H160), DispatchError>((a, to)),
{
}

/// The signer of a legacy transaction is the address of the key that recovery yields from its
/// `r`, `s` and recovery id over the hash of its signed message (with the chain id that its `v`
/// carries), whatever the transaction's input: the last 20 bytes of the key's Keccak-256 hash.
pub proof fn lemma_legacy_signer_is_recovered_key(t: LegacyTransaction, key: Seq<u8>)
    requires
        ecdsa_recover_of(
            t.signature.spec_r().0@ + t.signature.spec_s().0@ + seq![standard_recovery_id(t.signature.spec_v())],
            legacy_message_hash_of(t.nonce, t.gas_price, t.gas_limit, t.action, t.value, t.input@, chain_id_of(t.signature.spec_v())),
        ) == Some(key),
    ensures
        eth_signer(EthTransaction::Legacy(t)) == Some(keccak_256_of(key).subrange(12, 32)),
{
}

} // verus!
