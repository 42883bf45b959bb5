use ethereum_gravity::call::{build_estimate_call, build_submit_batch_contract_call, to_arrays};
use ethereum_gravity::checkpoint::{encode_tx_batch_confirm, encode_tx_batch_confirm_hashed};
use ethereum_gravity::commands::{AddEthKeyCmd, Erc20};
use ethereum_gravity::submit::{Action, BatchSubmission, Event, Outcome, Phase, SubmitError};
use ethereum_gravity::types::{
    BatchConfirmResponse, BatchTransaction, EthAddress, EthSignature, TransactionBatch, Valset,
    ValsetMember,
};
use ethereum_gravity::valset::OrderingError;

fn addr(b: u8) -> EthAddress {
    EthAddress { bytes: [b; 20] }
}

fn word(b: u8) -> [u8; 32] {
    let mut w = [0u8; 32];
    w[31] = b;
    w
}

fn member(b: u8, power: u64) -> ValsetMember {
    ValsetMember { eth_address: addr(b), power }
}

fn confirm(b: u8, v: u8) -> BatchConfirmResponse {
    BatchConfirmResponse {
        eth_signer: addr(b),
        eth_signature: EthSignature { v, r: [v; 32], s: [v.wrapping_add(1); 32] },
    }
}

fn equal_valset() -> Valset {
    Valset { nonce: 3, members: vec![member(1, 25), member(2, 25), member(3, 25), member(4, 25)] }
}

fn batch(nonce: u64, timeout: u64) -> TransactionBatch {
    TransactionBatch {
        token_contract: addr(0xee),
        nonce,
        transactions: vec![
            BatchTransaction { destination: addr(0xd1), amount: word(100), fee: word(2) },
            BatchTransaction { destination: addr(0xd2), amount: word(50), fee: word(1) },
        ],
        batch_timeout: timeout,
    }
}

#[test]
fn filter_keeps_nonzero_in_order() {
    let vs = Valset {
        nonce: 1,
        members: vec![member(1, 10), member(2, 0), member(3, 30), member(4, 0), member(5, 5)],
    };
    let (addresses, powers) = vs.filter_empty_addresses();
    let bytes: Vec<u8> = addresses.iter().map(|a| a.bytes[0]).collect();
    assert_eq!(bytes, vec![1, 3, 5]);
    assert_eq!(powers, vec![10, 30, 5]);
    assert_eq!(addresses.len(), powers.len());
    assert!(powers.iter().all(|p| *p != 0));
}

#[test]
fn filter_of_all_zero_set_is_empty() {
    let vs = Valset { nonce: 1, members: vec![member(1, 0), member(2, 0)] };
    let (addresses, powers) = vs.filter_empty_addresses();
    assert!(addresses.is_empty());
    assert!(powers.is_empty());
}

#[test]
fn order_sigs_three_of_four_equal_powers() {
    let vs = equal_valset();
    let confirms = vec![confirm(3, 27), confirm(1, 28), confirm(4, 27)];
    let sigs = vs.order_sigs(&confirms).unwrap();
    assert_eq!(sigs.len(), 4);
    let order: Vec<u8> = sigs.iter().map(|g| g.eth_address.bytes[0]).collect();
    assert_eq!(order, vec![1, 2, 3, 4]);
    assert_eq!(sigs[0].signature.v, 28);
    assert_eq!(sigs[2].signature.v, 27);
    assert_eq!(sigs[3].signature.v, 27);
    let placeholders: Vec<usize> = (0..4)
        .filter(|i| {
            let s = sigs[*i].signature;
            s.v == 0 && s.r == [0u8; 32] && s.s == [0u8; 32]
        })
        .collect();
    assert_eq!(placeholders, vec![1]);
    let total: u64 = sigs.iter().map(|g| g.power).sum();
    let signed: u64 = sigs.iter().filter(|g| g.signature.v != 0).map(|g| g.power).sum();
    assert_eq!(total, 100);
    assert_eq!(signed, 75);
    assert!(signed * 3 >= total * 2);
}

#[test]
fn order_sigs_rejects_signer_outside_set() {
    let vs = equal_valset();
    let confirms = vec![confirm(1, 27), confirm(9, 28)];
    assert_eq!(vs.order_sigs(&confirms).unwrap_err(), OrderingError::UnknownSigner);
}

#[test]
fn order_sigs_rejects_signer_without_power() {
    let vs = Valset { nonce: 1, members: vec![member(1, 50), member(2, 0), member(3, 50)] };
    let confirms = vec![confirm(2, 27)];
    assert_eq!(vs.order_sigs(&confirms).unwrap_err(), OrderingError::UnknownSigner);
}

#[test]
fn order_sigs_rejects_too_many_confirmations() {
    let vs = Valset { nonce: 1, members: vec![member(1, 50), member(2, 50)] };
    let confirms = vec![confirm(1, 27), confirm(2, 27), confirm(1, 28)];
    assert_eq!(vs.order_sigs(&confirms).unwrap_err(), OrderingError::TooManyConfirmations);
}

#[test]
fn order_sigs_takes_latest_confirmation() {
    let vs = Valset { nonce: 1, members: vec![member(1, 50), member(2, 50)] };
    let confirms = vec![confirm(1, 27), confirm(1, 28)];
    let sigs = vs.order_sigs(&confirms).unwrap();
    assert_eq!(sigs[0].signature.v, 28);
    assert_eq!(sigs[0].signature.r, [28u8; 32]);
    assert_eq!(sigs[1].signature.v, 0);
}

#[test]
fn order_sigs_with_no_confirmations_is_all_placeholders() {
    let vs = equal_valset();
    let sigs = vs.order_sigs(&[]).unwrap();
    assert_eq!(sigs.len(), 4);
    assert!(sigs.iter().all(|g| g.signature.v == 0 && g.signature.r == [0u8; 32]));
}

#[test]
fn to_arrays_splits_columns() {
    let vs = equal_valset();
    let sigs = vs.order_sigs(&[confirm(2, 27)]).unwrap();
    let arrays = to_arrays(&sigs);
    assert_eq!(arrays.v, vec![0, 27, 0, 0]);
    assert_eq!(arrays.r[1], [27u8; 32]);
    assert_eq!(arrays.s[1], [28u8; 32]);
    assert_eq!(arrays.s[0], [0u8; 32]);
}

#[test]
fn checkpoint_layout_is_exact() {
    let b = TransactionBatch {
        token_contract: addr(0xee),
        nonce: 0x0102,
        transactions: vec![BatchTransaction {
            destination: addr(0xd1),
            amount: word(100),
            fee: word(2),
        }],
        batch_timeout: 0x0a0b0c,
    };
    let enc = encode_tx_batch_confirm(b"gravity-test", &b);
    let mut expected: Vec<u8> = Vec::new();
    let mut id = b"gravity-test".to_vec();
    id.resize(32, 0);
    expected.extend_from_slice(&id);
    let mut name = b"transactionBatch".to_vec();
    name.resize(32, 0);
    expected.extend_from_slice(&name);
    let num = |n: u64| {
        let mut w = [0u8; 32];
        w[24..].copy_from_slice(&n.to_be_bytes());
        w
    };
    let adr = |a: EthAddress| {
        let mut w = [0u8; 32];
        w[12..].copy_from_slice(&a.bytes);
        w
    };
    expected.extend_from_slice(&num(256));
    expected.extend_from_slice(&num(320));
    expected.extend_from_slice(&num(384));
    expected.extend_from_slice(&num(0x0102));
    expected.extend_from_slice(&adr(addr(0xee)));
    expected.extend_from_slice(&num(0x0a0b0c));
    expected.extend_from_slice(&num(1));
    expected.extend_from_slice(&word(100));
    expected.extend_from_slice(&num(1));
    expected.extend_from_slice(&adr(addr(0xd1)));
    expected.extend_from_slice(&num(1));
    expected.extend_from_slice(&word(2));
    assert_eq!(enc.len(), 448);
    assert_eq!(enc, expected);
}

#[test]
fn checkpoint_hash_is_keccak_of_layout() {
    let b = batch(7, 1000);
    let id = String::from("gravity-test");
    let hash = encode_tx_batch_confirm_hashed(&id, &b);
    let enc = encode_tx_batch_confirm(id.as_bytes(), &b);
    assert_eq!(hash, ethers::utils::keccak256(&enc));
    assert_ne!(&hash[..], &enc[..32]);
}

#[test]
fn checkpoint_hash_is_deterministic() {
    let id = String::from("gravity-test");
    assert_eq!(
        encode_tx_batch_confirm_hashed(&id, &batch(7, 1000)),
        encode_tx_batch_confirm_hashed(&id, &batch(7, 1000))
    );
}

#[test]
fn checkpoint_hash_changes_with_each_field() {
    let id = String::from("gravity-test");
    let base = encode_tx_batch_confirm_hashed(&id, &batch(7, 1000));
    assert_ne!(base, encode_tx_batch_confirm_hashed(&id, &batch(8, 1000)));
    assert_ne!(base, encode_tx_batch_confirm_hashed(&id, &batch(7, 1001)));
    let mut changed = batch(7, 1000);
    changed.transactions[1].amount = word(51);
    assert_ne!(base, encode_tx_batch_confirm_hashed(&id, &changed));
    let mut token = batch(7, 1000);
    token.token_contract = addr(0xef);
    assert_ne!(base, encode_tx_batch_confirm_hashed(&id, &token));
    assert_ne!(base, encode_tx_batch_confirm_hashed(&String::from("other-id"), &batch(7, 1000)));
}

#[test]
fn build_call_packages_all_arguments() {
    let vs = Valset { nonce: 9, members: vec![member(1, 60), member(2, 0), member(3, 40)] };
    let b = batch(7, 1000);
    let call =
        build_submit_batch_contract_call(&vs, &b, &[confirm(3, 28)], addr(0xcc), addr(0xaa))
            .unwrap();
    assert_eq!(call.contract.bytes, [0xcc; 20]);
    assert_eq!(call.from.bytes, [0xaa; 20]);
    assert_eq!(call.value, 0);
    assert_eq!(call.gas_limit, None);
    assert_eq!(call.current_addresses.iter().map(|a| a.bytes[0]).collect::<Vec<u8>>(), vec![1, 3]);
    assert_eq!(call.current_powers, vec![60, 40]);
    assert_eq!(call.current_valset_nonce, 9);
    assert_eq!(call.v, vec![0, 28]);
    assert_eq!(call.r[1], [28u8; 32]);
    assert_eq!(call.amounts, vec![word(100), word(50)]);
    assert_eq!(call.destinations.iter().map(|a| a.bytes[0]).collect::<Vec<u8>>(), vec![0xd1, 0xd2]);
    assert_eq!(call.fees, vec![word(2), word(1)]);
    assert_eq!(call.batch_nonce, 7);
    assert_eq!(call.token_contract.bytes, [0xee; 20]);
    assert_eq!(call.batch_timeout, 1000);
}

#[test]
fn build_call_reports_ordering_error() {
    let vs = equal_valset();
    let r = build_submit_batch_contract_call(&vs, &batch(7, 1000), &[confirm(8, 27)], addr(0xcc), addr(0xaa));
    assert_eq!(r.err(), Some(OrderingError::UnknownSigner));
}

#[test]
fn estimate_call_matches_submission_call() {
    let vs = equal_valset();
    let b = batch(7, 1000);
    let confirms = [confirm(1, 27), confirm(2, 27), confirm(4, 28)];
    let sent = build_submit_batch_contract_call(&vs, &b, &confirms, addr(0xcc), addr(0xaa)).unwrap();
    let est = build_estimate_call(&vs, &b, &confirms, addr(0xcc), addr(0xaa), 12_000_000).unwrap();
    assert_eq!(est.gas_limit, Some(12_000_000));
    assert_eq!(est.v, sent.v);
    assert_eq!(est.r, sent.r);
    assert_eq!(est.s, sent.s);
    assert_eq!(est.current_powers, sent.current_powers);
    assert_eq!(est.amounts, sent.amounts);
    assert_eq!(est.batch_nonce, sent.batch_nonce);
}

#[test]
fn stale_batch_is_skipped_without_building_a_call() {
    let (mut m, first) = BatchSubmission::new(&batch(10, 1000));
    assert_eq!(first, Action::ReadNonce);
    let a = m.on_event(Event::NonceRead(10));
    assert_eq!(a, Action::Finish(Outcome::SkippedStale));
    assert_eq!(Outcome::SkippedStale.to_result(), Ok(()));
    assert!(m.is_finished());
    assert_eq!(m.on_event(Event::HeightRead(5)), Action::Finish(Outcome::SkippedStale));
    assert_eq!(m.on_event(Event::Broadcast), Action::Finish(Outcome::SkippedStale));
}

#[test]
fn newer_chain_nonce_is_stale_too() {
    let (mut m, _) = BatchSubmission::new(&batch(10, 1000));
    assert_eq!(m.on_event(Event::NonceRead(12)), Action::Finish(Outcome::SkippedStale));
}

#[test]
fn timed_out_batch_is_skipped() {
    let (mut m, _) = BatchSubmission::new(&batch(10, 1000));
    assert_eq!(m.on_event(Event::NonceRead(9)), Action::ReadBlockHeight);
    assert_eq!(m.on_event(Event::HeightRead(1001)), Action::Finish(Outcome::SkippedTimedOut));
    assert_eq!(Outcome::SkippedTimedOut.to_result(), Ok(()));
}

#[test]
fn fresh_batch_is_broadcast_once_and_reconciled() {
    let (mut m, _) = BatchSubmission::new(&batch(10, 1000));
    let mut actions = vec![
        m.on_event(Event::NonceRead(9)),
        m.on_event(Event::HeightRead(1000)),
        m.on_event(Event::HeightRead(1000)),
        m.on_event(Event::Broadcast),
        m.on_event(Event::Broadcast),
        m.on_event(Event::Included),
    ];
    actions.push(m.on_event(Event::NonceRead(10)));
    let broadcasts = actions.iter().filter(|a| **a == Action::BuildAndBroadcast).count();
    assert_eq!(broadcasts, 1);
    assert_eq!(actions[1], Action::BuildAndBroadcast);
    assert_eq!(actions[3], Action::AwaitInclusion);
    assert_eq!(actions[5], Action::ReadNonce);
    assert_eq!(actions[6], Action::Finish(Outcome::Done { nonce_matched: true }));
}

#[test]
fn reconciliation_mismatch_still_succeeds() {
    let (mut m, _) = BatchSubmission::new(&batch(10, 1000));
    m.on_event(Event::NonceRead(9));
    m.on_event(Event::HeightRead(10));
    m.on_event(Event::Broadcast);
    m.on_event(Event::Included);
    let a = m.on_event(Event::NonceRead(11));
    assert_eq!(a, Action::Finish(Outcome::Done { nonce_matched: false }));
    assert_eq!(Outcome::Done { nonce_matched: false }.to_result(), Ok(()));
}

#[test]
fn inclusion_timeout_is_a_distinct_error() {
    let (mut m, _) = BatchSubmission::new(&batch(10, 1000));
    m.on_event(Event::NonceRead(9));
    m.on_event(Event::HeightRead(10));
    assert_eq!(m.on_event(Event::Broadcast), Action::AwaitInclusion);
    let a = m.on_event(Event::InclusionTimedOut);
    assert_eq!(a, Action::Finish(Outcome::Failed(SubmitError::SubmissionTimedOut)));
    assert_eq!(
        Outcome::Failed(SubmitError::SubmissionTimedOut).to_result(),
        Err(SubmitError::SubmissionTimedOut)
    );
    assert_ne!(SubmitError::SubmissionTimedOut, SubmitError::Transport);
}

#[test]
fn transport_fault_fails_the_attempt() {
    let (mut m, _) = BatchSubmission::new(&batch(10, 1000));
    let a = m.on_event(Event::TransportFault);
    assert_eq!(a, Action::Finish(Outcome::Failed(SubmitError::Transport)));
    assert_eq!(m.phase, Phase::Finished(Outcome::Failed(SubmitError::Transport)));
}

#[test]
fn rejected_call_fails_with_ordering_error() {
    let (mut m, _) = BatchSubmission::new(&batch(10, 1000));
    m.on_event(Event::NonceRead(9));
    m.on_event(Event::HeightRead(10));
    let a = m.on_event(Event::CallRejected(OrderingError::UnknownSigner));
    assert_eq!(a, Action::Finish(Outcome::Failed(SubmitError::Ordering(OrderingError::UnknownSigner))));
}

#[test]
fn add_key_command_decisions() {
    let none = AddEthKeyCmd::default();
    assert_eq!(none.key_name(), None);
    let cmd = AddEthKeyCmd { args: vec![String::from("relayer")], overwrite: false };
    assert_eq!(cmd.key_name().map(|s| s.as_str()), Some("relayer"));
    assert!(cmd.may_store_key(false));
    assert!(!cmd.may_store_key(true));
    let over = AddEthKeyCmd { args: vec![String::from("relayer")], overwrite: true };
    assert!(over.may_store_key(true));
}

#[test]
fn erc20_command_decisions() {
    let cmd = Erc20 { args: vec![String::from("ugraviton")], ethereum_key: String::from("k") };
    assert_eq!(cmd.denom().map(|s| s.as_str()), Some("ugraviton"));
    assert_eq!(Erc20::default().denom(), None);
    assert_eq!(Erc20::erc20_decimals(18), Some(18));
    assert_eq!(Erc20::erc20_decimals(255), Some(255));
    assert_eq!(Erc20::erc20_decimals(256), None);
}
