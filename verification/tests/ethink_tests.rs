use ethink::pallet::{
    ensure_eth_transaction, Call, DispatchError, Error, Event, Pallet, RawOrigin, BAD_ORIGIN,
};
use ethink::{
    EIP1559Transaction, EIP2930Transaction, EthTransaction, InvalidTransaction,
    LegacyTransaction, TransactionAction, TransactionSignature, TransactionValidityError,
    UnknownTransaction, H160, H256, U256,
};

fn bytes(hex: &str) -> Vec<u8> {
    (0..hex.len())
        .step_by(2)
        .map(|i| u8::from_str_radix(&hex[i..i + 2], 16).unwrap())
        .collect()
}

fn h256(hex: &str) -> H256 {
    let mut out = [0u8; 32];
    out.copy_from_slice(&bytes(hex));
    H256(out)
}

fn h160(hex: &str) -> H160 {
    let mut out = [0u8; 20];
    out.copy_from_slice(&bytes(hex));
    H160(out)
}

fn u256(x: u64) -> U256 {
    U256([x, 0, 0, 0])
}

const EIP155_R: &str = "28ef61340bd939bc2195fe537567866003e1a15d3c71ff63e1590620aa636276";
const EIP155_S: &str = "67cbe9d8997f761aecb703304b3800ccf555c9f3dc64214b297fb1966a3b6d83";
const EIP155_SENDER: &str = "9d8a62f656a8d1615c1294fd71e9cfb3e4855a4f";
const EIP155_TO: &str = "3535353535353535353535353535353535353535";

/// The signed example transaction of EIP-155.
fn eip155_legacy() -> LegacyTransaction {
    LegacyTransaction {
        nonce: u256(9),
        gas_price: u256(20_000_000_000),
        gas_limit: u256(21_000),
        action: TransactionAction::Call(h160(EIP155_TO)),
        value: u256(1_000_000_000_000_000_000),
        input: vec![],
        signature: TransactionSignature::new(37, h256(EIP155_R), h256(EIP155_S)).unwrap(),
    }
}

fn eip2930() -> EIP2930Transaction {
    EIP2930Transaction {
        chain_id: 1,
        nonce: u256(5),
        gas_price: u256(1),
        gas_limit: u256(21_000),
        action: TransactionAction::Call(h160(EIP155_TO)),
        value: u256(0),
        input: vec![1, 2, 3],
    }
}

fn eip1559() -> EIP1559Transaction {
    EIP1559Transaction {
        chain_id: 1,
        nonce: U256([7, 0, 0, 1]),
        max_priority_fee_per_gas: u256(1),
        max_fee_per_gas: u256(2),
        gas_limit: u256(21_000),
        action: TransactionAction::Create,
        value: u256(0),
        input: vec![],
    }
}

fn bad_proof() -> TransactionValidityError {
    TransactionValidityError::Invalid(InvalidTransaction::BadProof)
}

#[test]
fn message_hash_of_eip155_example() {
    let t = eip155_legacy();
    assert_eq!(
        t.message_hash(),
        h256("daf5a779ae972f972197303d7b574746c7ef83eadac0f2791ad23db92e4c8e53")
    );
}

#[test]
fn check_eth_signature_recovers_eip155_sender() {
    let tx = EthTransaction::Legacy(eip155_legacy());
    assert_eq!(Pallet::check_eth_signature(&tx), Ok(h160(EIP155_SENDER)));
}

#[test]
fn check_eth_signature_of_altered_transaction_names_another_account() {
    let mut t = eip155_legacy();
    t.nonce = u256(10);
    let res = Pallet::check_eth_signature(&EthTransaction::Legacy(t));
    assert!(res.is_ok());
    assert_ne!(res, Ok(h160(EIP155_SENDER)));
}

#[test]
fn check_eth_signature_refuses_typed_transactions() {
    assert_eq!(Pallet::check_eth_signature(&EthTransaction::EIP2930(eip2930())), Err(bad_proof()));
    assert_eq!(Pallet::check_eth_signature(&EthTransaction::EIP1559(eip1559())), Err(bad_proof()));
}

#[test]
fn signature_new_checks_v_r_s() {
    let r = h256(EIP155_R);
    let s = h256(EIP155_S);
    let sig = TransactionSignature::new(37, r, s).unwrap();
    assert_eq!(sig.v(), 37);
    assert_eq!(sig.r(), r);
    assert_eq!(sig.s(), s);
    assert_eq!(sig.standard_v(), 0);
    assert_eq!(sig.chain_id(), Some(1));
    let unprotected = TransactionSignature::new(28, r, s).unwrap();
    assert_eq!(unprotected.standard_v(), 1);
    assert_eq!(unprotected.chain_id(), None);
    assert!(TransactionSignature::new(26, r, s).is_none());
    assert!(TransactionSignature::new(35, r, s).is_none());
    assert!(TransactionSignature::new(37, H256([0; 32]), s).is_none());
    assert!(TransactionSignature::new(37, r, H256([0xff; 32])).is_none());
    let order = H256(ethink::transaction::SECP256K1_ORDER);
    assert!(TransactionSignature::new(37, r, order).is_none());
    let mut below = ethink::transaction::SECP256K1_ORDER;
    below[31] -= 1;
    assert!(TransactionSignature::new(37, r, H256(below)).is_some());
}

#[test]
fn address_is_last_twenty_bytes_of_hash() {
    let mut h = [0u8; 32];
    for (i, b) in h.iter_mut().enumerate() {
        *b = i as u8;
    }
    let a = H160::from_h256(H256(h));
    let expected: Vec<u8> = (12u8..32).collect();
    assert_eq!(a.0.to_vec(), expected);
}

#[test]
fn unpack_eth_tx_of_legacy_call() {
    let tx = EthTransaction::Legacy(eip155_legacy());
    assert_eq!(
        Pallet::unpack_eth_tx(&tx),
        Some((
            Some(h160(EIP155_TO)),
            u256(1_000_000_000_000_000_000),
            vec![],
            u256(21_000)
        ))
    );
}

#[test]
fn unpack_eth_tx_of_create_and_typed() {
    let mut t = eip155_legacy();
    t.action = TransactionAction::Create;
    t.input = vec![0x60, 0x00];
    assert_eq!(
        Pallet::unpack_eth_tx(&EthTransaction::Legacy(t)),
        Some((None, u256(1_000_000_000_000_000_000), vec![0x60, 0x00], u256(21_000)))
    );
    assert_eq!(Pallet::unpack_eth_tx(&EthTransaction::EIP2930(eip2930())), None);
    assert_eq!(Pallet::unpack_eth_tx(&EthTransaction::EIP1559(eip1559())), None);
}

#[test]
fn ensure_eth_transaction_keeps_or_refuses() {
    let origin = RawOrigin::EthTransaction(h160(EIP155_SENDER));
    assert_eq!(ensure_eth_transaction::<u8>(Ok(origin)), Ok(origin));
    assert_eq!(
        ensure_eth_transaction::<u8>(Err(3)),
        Err("Bad origin: not a valid Ethereum transaction")
    );
    assert_eq!(origin.account(), h160(EIP155_SENDER));
}

#[test]
fn self_contained_checks() {
    let call = Call::transact { tx: EthTransaction::Legacy(eip155_legacy()) };
    assert!(call.is_self_contained());
    assert_eq!(call.check_self_contained(), Some(Ok(h160(EIP155_SENDER))));
    assert_eq!(call.pre_dispatch_self_contained(&h160(EIP155_SENDER), &(), 0), Some(Ok(())));
    let typed = Call::transact { tx: EthTransaction::EIP1559(eip1559()) };
    assert!(typed.is_self_contained());
    assert_eq!(typed.check_self_contained(), Some(Err(bad_proof())));
}

#[test]
fn validate_self_contained_provides_sender_and_nonce() {
    let sender = h160(EIP155_SENDER);
    let call = Call::transact { tx: EthTransaction::Legacy(eip155_legacy()) };
    let validity = call.validate_self_contained(&sender, Ok::<(), TransactionValidityError>(()));
    let v = validity.unwrap().unwrap();
    let mut tag = bytes(EIP155_SENDER);
    tag.extend_from_slice(&[9, 0, 0, 0, 0, 0, 0, 0]);
    tag.extend_from_slice(&[0; 24]);
    assert_eq!(v.priority, 0);
    assert!(v.requires.is_empty());
    assert_eq!(v.provides, vec![tag]);
    assert_eq!(v.longevity, u64::MAX);
    assert!(v.propagate);
}

#[test]
fn validate_self_contained_reads_nonce_of_every_format() {
    let sender = h160(EIP155_SENDER);
    let call = Call::transact { tx: EthTransaction::EIP1559(eip1559()) };
    let v = call
        .validate_self_contained(&sender, Ok::<u32, TransactionValidityError>(4))
        .unwrap()
        .unwrap();
    let mut tag = bytes(EIP155_SENDER);
    tag.extend_from_slice(&[7, 0, 0, 0, 0, 0, 0, 0]);
    tag.extend_from_slice(&[0; 16]);
    tag.extend_from_slice(&[1, 0, 0, 0, 0, 0, 0, 0]);
    assert_eq!(v.provides, vec![tag]);
    let call = Call::transact { tx: EthTransaction::EIP2930(eip2930()) };
    let v = call.validate_self_contained(&sender, Ok::<(), TransactionValidityError>(())).unwrap().unwrap();
    assert_eq!(v.provides[0][20], 5);
}

#[test]
fn validate_self_contained_passes_weight_error_on() {
    let call = Call::transact { tx: EthTransaction::Legacy(eip155_legacy()) };
    let exhausted = TransactionValidityError::Invalid(InvalidTransaction::ExhaustsResources);
    assert_eq!(
        call.validate_self_contained::<()>(&h160(EIP155_SENDER), Err(exhausted)),
        Some(Err(exhausted))
    );
    let unknown = TransactionValidityError::Unknown(UnknownTransaction::CannotLookup);
    assert_eq!(
        call.validate_self_contained::<()>(&h160(EIP155_SENDER), Err(unknown)),
        Some(Err(unknown))
    );
}

#[test]
fn transact_plans_a_legacy_call() {
    let sender = h160(EIP155_SENDER);
    let plan = Pallet::transact::<()>(
        Ok(RawOrigin::EthTransaction(sender)),
        EthTransaction::Legacy(eip155_legacy()),
    )
    .unwrap();
    assert_eq!(plan.from, sender);
    assert_eq!(plan.to, h160(EIP155_TO));
    assert_eq!(plan.value, u256(1_000_000_000_000_000_000));
    assert_eq!(plan.data, Vec::<u8>::new());
    assert_eq!(plan.gas_limit, u256(21_000));
    assert_eq!(plan.tx, eip155_legacy());
}

#[test]
fn transact_refuses_bad_origin_create_and_typed() {
    let origin = RawOrigin::EthTransaction(h160(EIP155_SENDER));
    assert_eq!(
        Pallet::transact::<&str>(Err("root"), EthTransaction::Legacy(eip155_legacy())),
        Err(DispatchError::Other(BAD_ORIGIN))
    );
    let mut create = eip155_legacy();
    create.action = TransactionAction::Create;
    assert_eq!(
        Pallet::transact::<()>(Ok(origin), EthTransaction::Legacy(create)),
        Err(DispatchError::Module(Error::TxNotSupported))
    );
    assert_eq!(
        Pallet::transact::<()>(Ok(origin), EthTransaction::EIP2930(eip2930())),
        Err(DispatchError::Module(Error::TxNotSupported))
    );
    assert_eq!(
        Pallet::transact::<()>(Ok(origin), EthTransaction::EIP1559(eip1559())),
        Err(DispatchError::Module(Error::TxNotSupported))
    );
}

#[test]
fn dispatch_steps_report_or_fail() {
    let sender = h160(EIP155_SENDER);
    let plan = Pallet::transact::<()>(
        Ok(RawOrigin::EthTransaction(sender)),
        EthTransaction::Legacy(eip155_legacy()),
    )
    .unwrap();
    assert_eq!(plan.call_built(Some(42u32)), Ok(42u32));
    assert_eq!(
        plan.call_built::<u32>(None),
        Err(DispatchError::Module(Error::TxNotSupported))
    );
    assert_eq!(
        plan.dispatched::<(), &str>(Err("reverted")),
        Err(DispatchError::Module(Error::TxExecutionFailed))
    );
    let expected = bytes(
        "f86c098504a817c800825208943535353535353535353535353535353535353535880de0b6b3a76400008025a028ef61340bd939bc2195fe537567866003e1a15d3c71ff63e1590620aa636276a067cbe9d8997f761aecb703304b3800ccf555c9f3dc64214b297fb1966a3b6d83",
    );
    let expected_hash = H256(sp_io::hashing::keccak_256(&expected));
    assert_eq!(
        plan.dispatched::<(), &str>(Ok(())),
        Ok(Event::TxExecuted { from: sender, to: h160(EIP155_TO), tx_hash: expected_hash })
    );
    assert_eq!(eip155_legacy().hash(), expected_hash);
}

#[test]
fn same_sender_and_nonce_give_same_tag() {
    let sender = h160(EIP155_SENDER);
    let mut a = eip155_legacy();
    a.value = u256(1);
    let va = Call::transact { tx: EthTransaction::Legacy(a) }
        .validate_self_contained(&sender, Ok::<(), TransactionValidityError>(()))
        .unwrap()
        .unwrap();
    let vb = Call::transact { tx: EthTransaction::Legacy(eip155_legacy()) }
        .validate_self_contained(&sender, Ok::<(), TransactionValidityError>(()))
        .unwrap()
        .unwrap();
    assert_eq!(va.provides, vb.provides);
    let other = h160(EIP155_TO);
    let vc = Call::transact { tx: EthTransaction::Legacy(eip155_legacy()) }
        .validate_self_contained(&other, Ok::<(), TransactionValidityError>(()))
        .unwrap()
        .unwrap();
    assert_ne!(va.provides, vc.provides);
}

#[test]
fn base_gas_fee() {
    assert_eq!(ethink::pallet::ETH_BASE_GAS_FEE, 21_000);
}

#[test]
fn recovery_signature_is_r_s_and_recovery_id() {
    let t = eip155_legacy();
    let sig = Pallet::recovery_signature(&t);
    let mut expected = bytes(EIP155_R);
    expected.extend_from_slice(&bytes(EIP155_S));
    expected.push(0);
    assert_eq!(sig.to_vec(), expected);
}

#[test]
fn signer_of_recovered_hashes_the_key() {
    assert_eq!(Pallet::signer_of_recovered(None), Err(bad_proof()));
    // Keccak-256 of 64 zero bytes is ad3228b6...597ba5fb5.
    assert_eq!(
        Pallet::signer_of_recovered(Some([0u8; 64])),
        Ok(h160("3f17f1962b36e491b30a40b2405849e597ba5fb5"))
    );
}
