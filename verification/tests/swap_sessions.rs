use std::str::FromStr;

use bdk::bitcoin::{Address as BitcoinAddress, Network, PublicKey};
use bdk::descriptor::Descriptor;
use joinswap::bytes::to_hex;
use joinswap::commitment::{gen_hash, preimage_matches, Commitment};
use joinswap::descriptor::{maker2users_contract_desc, users2maker_contract_desc};
use joinswap::error::{Abort, AbortKind, ValidationError};
use joinswap::funding::{FundingRequest, RefundRequest};
use joinswap::keys::{gen_key_pair, nine_keys, KeyPair, PubKey};
use joinswap::maker::{
    Maker, MakerAction, MakerEvent, MakerInput, MakerPhase, Payload, Peer, PAYOUT_AMOUNT,
};
use joinswap::transaction::{InputData, OutPoint, Transaction, TxIn, TxOut, TxTemplate};
use joinswap::user::{Identity, UserAction, UserClient, UserEvent, UserInput, UserPhase};
use joinswap::validation::Collateral;
use joinswap::wire::{hash_line, keys_line, parse_address, txid_line};

const FUNDING_FEE: u64 = 300;
const PAYOUT_FEE: u64 = 200;

fn fresh() -> KeyPair {
    gen_key_pair().unwrap()
}

fn compile(descriptor: &str) -> Vec<u8> {
    Descriptor::<PublicKey>::from_str(descriptor).unwrap().script_pubkey().to_bytes()
}

fn address_of(key: &PubKey) -> String {
    let key = PublicKey::from_slice(&key.bytes).unwrap();
    BitcoinAddress::p2wpkh(&key, Network::Regtest).unwrap().to_string()
}

fn out(value: u64, script: &[u8]) -> TxOut {
    TxOut { value, script_pubkey: script.to_vec() }
}

/// What a user's wallet holds: the coin it brings, and where refunds go.
struct Purse {
    descriptor: String,
    outpoint: OutPoint,
    input: InputData,
    value: u64,
    refund_address: String,
}

fn purse(tag: u8, value: u64) -> Purse {
    let descriptor = format!("wpkh({})", to_hex(&fresh().public.bytes));
    let script = compile(&descriptor);
    Purse {
        descriptor,
        outpoint: OutPoint { txid: [tag; 32], vout: 0 },
        input: InputData {
            witness_utxo: Some(out(value, &script)),
            non_witness_utxo: Some(vec![out(value, &script)]),
        },
        value,
        refund_address: address_of(&fresh().public),
    }
}

fn user_of(purse: &Purse) -> UserClient {
    UserClient::new(
        [fresh(), fresh(), fresh()],
        [fresh(), fresh()],
        Collateral { outpoint: purse.outpoint, value: purse.value },
        parse_address(&purse.refund_address).unwrap(),
    )
}

fn new_maker() -> Maker {
    let (preimage, _) = gen_hash();
    Maker::new([fresh(), fresh(), fresh()], [fresh(), fresh(), fresh(), fresh()], preimage)
}

/// The funding transaction as a wallet builds it from the maker's request.
fn build_funding(request: &FundingRequest, purses: &[&Purse], fee: u64) -> TxTemplate {
    let mut total = 0;
    let mut input = Vec::new();
    let mut inputs = Vec::new();
    for outpoint in &request.inputs {
        let purse = purses.iter().find(|p| p.outpoint == *outpoint).unwrap();
        total += purse.value;
        input.push(TxIn { previous_output: *outpoint, script_sig: vec![], sequence: 0xffff_fffe });
        inputs.push(purse.input.clone());
    }
    TxTemplate {
        unsigned_tx: Transaction {
            version: 1,
            lock_time: 0,
            input,
            output: vec![out(total - fee, &compile(&request.descriptor))],
        },
        inputs,
    }
}

/// The refund transaction as a wallet builds it from the maker's request.
fn build_refund(request: &RefundRequest, funding: &TxTemplate) -> TxTemplate {
    TxTemplate {
        unsigned_tx: Transaction {
            version: 2,
            lock_time: 0,
            input: vec![TxIn { previous_output: request.input, script_sig: vec![], sequence: 48 }],
            output: request.outputs.clone(),
        },
        inputs: vec![InputData {
            witness_utxo: Some(funding.unsigned_tx.output[0].clone()),
            non_witness_utxo: None,
        }],
    }
}

/// A transaction that pays `amount` into the contract of `descriptor` from a coin of
/// 50000, with change.
fn build_payout(descriptor: &str, amount: u64, tag: u8, fee: u64) -> TxTemplate {
    let change = [0x00, 0x14, tag];
    TxTemplate {
        unsigned_tx: Transaction {
            version: 1,
            lock_time: 0,
            input: vec![TxIn {
                previous_output: OutPoint { txid: [tag; 32], vout: 0 },
                script_sig: vec![],
                sequence: 0xffff_fffe,
            }],
            output: vec![out(50_000 - amount - fee, &change), out(amount, &compile(descriptor))],
        },
        inputs: vec![InputData { witness_utxo: Some(out(50_000, &change)), non_witness_utxo: None }],
    }
}

fn user_data(user: &UserClient, purse: &Purse) -> MakerEvent {
    let keys: Vec<PubKey> = user.keys.iter().map(|k| k.public.clone()).collect();
    MakerEvent::UserData {
        keys: format!("{}\n", keys_line(&keys)),
        descriptor: format!("{}\n", purse.descriptor),
        outpoint: purse.outpoint,
        input: purse.input.clone(),
        refund_address: format!("{}\n", purse.refund_address),
    }
}

fn line_to(actions: &[MakerAction], to: Peer, nth: usize) -> String {
    actions
        .iter()
        .filter_map(|a| match a {
            MakerAction::Send { to: peer, line } if *peer == to => Some(line.clone()),
            _ => None,
        })
        .nth(nth)
        .unwrap()
}

/// A maker that has built the first contract for two users, with all that belongs to it.
struct Phase1 {
    maker: Maker,
    users: Vec<UserClient>,
    purses: Vec<Purse>,
    funding: TxTemplate,
    refund: TxTemplate,
    sent: Vec<MakerAction>,
}

fn run_to_templates_sent() -> Phase1 {
    let purses = vec![purse(1, 50_000), purse(2, 50_000)];
    let mut users = vec![user_of(&purses[0]), user_of(&purses[1])];
    let mut maker = new_maker();
    assert_eq!(maker.step(MakerEvent::Connected), Ok(vec![]));
    assert_eq!(maker.phase, MakerPhase::AwaitingPhase1Connections);
    assert_eq!(maker.step(MakerEvent::Connected), Ok(vec![]));
    assert_eq!(maker.phase, MakerPhase::AwaitingUserData);

    let mut built = Vec::new();
    for (user, purse) in users.iter_mut().zip(&purses) {
        let actions = user.step(UserEvent::Done).unwrap();
        let keys: Vec<PubKey> = user.keys.iter().map(|k| k.public.clone()).collect();
        assert_eq!(
            actions,
            vec![
                UserAction::Send { identity: Identity::First, line: keys_line(&keys) },
                UserAction::SendCollateral,
                UserAction::Send { identity: Identity::First, line: purse.refund_address.clone() },
            ]
        );
        assert_eq!(user.phase, UserPhase::DataSent);
        built = maker.step(user_data(user, purse)).unwrap();
    }
    assert_eq!(maker.phase, MakerPhase::ContractBuilt);
    let request = match &built[..] {
        [MakerAction::BuildFunding(request)] => request.clone(),
        other => panic!("unexpected actions {:?}", other),
    };
    assert_eq!(request.inputs, vec![purses[0].outpoint, purses[1].outpoint]);
    let funding = build_funding(&request, &[&purses[0], &purses[1]], FUNDING_FEE);

    let asked = maker.step(MakerEvent::FundingBuilt(funding.clone())).unwrap();
    assert_eq!(maker.phase, MakerPhase::ContractBuilt);
    let request = match &asked[..] {
        [MakerAction::BuildRefund(request)] => request.clone(),
        other => panic!("unexpected actions {:?}", other),
    };
    let refund = build_refund(&request, &funding);
    let sent = maker.step(MakerEvent::RefundBuilt(refund.clone())).unwrap();
    assert_eq!(maker.phase, MakerPhase::FundingRefundSent);
    Phase1 { maker, users, purses, funding, refund, sent }
}

/// Runs the first phase to its end: both templates finalized and handed out.
fn run_first_phase() -> Phase1 {
    let mut p = run_to_templates_sent();
    let keys = line_to(&p.sent, Peer::UserA, 0);
    let hash = line_to(&p.sent, Peer::UserA, 1);
    for user in p.users.iter_mut() {
        let event = UserEvent::ContractData { keys: format!("{}\n", keys), hash: format!("{}\n", hash) };
        assert_eq!(user.step(event), Ok(vec![]));
        assert_eq!(user.phase, UserPhase::ContractReceived);
        let event = UserEvent::Templates { funding: p.funding.clone(), refund: p.refund.clone() };
        let actions = user.step(event).unwrap();
        assert!(matches!(&actions[..], [UserAction::SignRefund { .. }]));
        assert_eq!(user.phase, UserPhase::Validated);
        assert_eq!(user.step(UserEvent::Done), Ok(vec![]));
        assert_eq!(user.phase, UserPhase::RefundSigned);
    }
    assert_eq!(p.maker.step(MakerEvent::Signed(p.refund.clone())), Ok(vec![]));
    let actions = p.maker.step(MakerEvent::Signed(p.refund.clone())).unwrap();
    assert!(matches!(&actions[..], [MakerAction::FinalizeRefund { .. }]));
    assert_eq!(p.maker.phase, MakerPhase::RefundCollected);
    assert_eq!(
        p.maker.step(MakerEvent::Finalized(p.refund.clone())),
        Ok(vec![
            MakerAction::SendTemplate { to: Peer::UserA, which: Payload::FinalRefund },
            MakerAction::SendTemplate { to: Peer::UserB, which: Payload::FinalRefund },
        ])
    );
    assert_eq!(p.maker.phase, MakerPhase::RefundFinalized);
    for user in p.users.iter_mut() {
        assert_eq!(user.step(UserEvent::Template(p.refund.clone())), Ok(vec![UserAction::SignFunding]));
        assert_eq!(user.phase, UserPhase::RefundFinalized);
        assert_eq!(user.step(UserEvent::Done), Ok(vec![]));
        assert_eq!(user.phase, UserPhase::FundingSigned);
    }
    assert_eq!(p.maker.step(MakerEvent::Signed(p.funding.clone())), Ok(vec![]));
    assert_eq!(
        p.maker.step(MakerEvent::Signed(p.funding.clone())),
        Ok(vec![MakerAction::FinalizeFunding])
    );
    assert_eq!(p.maker.phase, MakerPhase::FundingCollected);
    assert_eq!(
        p.maker.step(MakerEvent::Finalized(p.funding.clone())),
        Ok(vec![
            MakerAction::SendTemplate { to: Peer::UserA, which: Payload::FinalFunding },
            MakerAction::SendTemplate { to: Peer::UserB, which: Payload::FinalFunding },
            MakerAction::Broadcast { which: Payload::FinalFunding },
        ])
    );
    assert_eq!(p.maker.phase, MakerPhase::FundingFinalized);
    for user in p.users.iter_mut() {
        assert_eq!(user.step(UserEvent::Template(p.funding.clone())), Ok(vec![UserAction::Reconnect]));
        assert_eq!(user.phase, UserPhase::FundingFinalized);
    }
    p
}

/// Runs the second phase up to the point where the maker waits for hashlock keys and
/// both users released theirs. Returns the lines with the released keys.
fn run_to_hashlock_keys(p: &mut Phase1) -> Vec<String> {
    let peers = [Peer::UserX, Peer::UserY];
    let mut funded = Vec::new();
    for user in p.users.iter_mut() {
        assert_eq!(p.maker.step(MakerEvent::Connected), Ok(vec![]));
        let actions = user.step(UserEvent::Done).unwrap();
        assert_eq!(user.phase, UserPhase::Reconnected);
        let keys: Vec<PubKey> = user.second_keys.iter().map(|k| k.public.clone()).collect();
        assert_eq!(
            actions,
            vec![UserAction::Send { identity: Identity::Second, line: keys_line(&keys) }]
        );
        assert_eq!(user.step(UserEvent::Done), Ok(vec![]));
        assert_eq!(user.phase, UserPhase::SecondContractSent);
    }
    assert_eq!(p.maker.phase, MakerPhase::AwaitingPhase2Connections);
    for user in p.users.iter() {
        let keys: Vec<PubKey> = user.second_keys.iter().map(|k| k.public.clone()).collect();
        funded = p.maker.step(MakerEvent::SecondUserData { keys: keys_line(&keys) }).unwrap();
    }
    assert_eq!(p.maker.phase, MakerPhase::Phase2ContractBuilt);
    let descriptors: Vec<String> = funded
        .iter()
        .map(|a| match a {
            MakerAction::FundContract { descriptor, amount } => {
                assert_eq!(*amount, 45_000);
                descriptor.clone()
            }
            other => panic!("unexpected action {:?}", other),
        })
        .collect();
    assert_eq!(descriptors.len(), 2);
    let payouts = vec![
        build_payout(&descriptors[0], PAYOUT_AMOUNT, 0x71, PAYOUT_FEE),
        build_payout(&descriptors[1], PAYOUT_AMOUNT, 0x72, PAYOUT_FEE),
    ];
    assert_eq!(p.maker.step(MakerEvent::ContractFunded(payouts[0].clone())), Ok(vec![]));
    assert_eq!(
        p.maker.step(MakerEvent::ContractFunded(payouts[1].clone())),
        Ok(vec![
            MakerAction::Broadcast { which: Payload::PayoutX },
            MakerAction::Broadcast { which: Payload::PayoutY },
        ])
    );
    assert_eq!(p.maker.phase, MakerPhase::Phase2Funded);
    assert_eq!(p.maker.spent, 2 * (PAYOUT_AMOUNT + PAYOUT_FEE));

    let notices = p.maker.step(MakerEvent::Done).unwrap();
    assert_eq!(p.maker.phase, MakerPhase::Phase2Notified);
    assert_eq!(notices.len(), 4);
    let mut released = Vec::new();
    for (i, user) in p.users.iter_mut().enumerate() {
        let keys = line_to(&notices, peers[i], 0);
        let txid = line_to(&notices, peers[i], 1);
        assert_eq!(txid, txid_line(&payouts[i].txid()));
        let maker_keys =
            vec![p.maker.payout_keys[2 * i].public.clone(), p.maker.payout_keys[2 * i + 1].public.clone()];
        assert_eq!(keys, keys_line(&maker_keys));
        let actions = user.step(UserEvent::SecondContract { keys, txid }).unwrap();
        assert_eq!(
            actions,
            vec![UserAction::VerifyFunding {
                txid: payouts[i].txid(),
                descriptor: descriptors[i].clone(),
            }]
        );
        assert_eq!(user.phase, UserPhase::AwaitingMakerFunding);
        let actions = user.step(UserEvent::Done).unwrap();
        assert_eq!(
            actions,
            vec![UserAction::Send {
                identity: Identity::First,
                line: user.keys[2].private.wif.clone(),
            }]
        );
        assert_eq!(user.phase, UserPhase::HashlockKeyReleased);
        released.push(format!("{}\n", user.keys[2].private.wif));
    }
    assert_eq!(p.maker.step(MakerEvent::Done), Ok(vec![]));
    assert_eq!(p.maker.phase, MakerPhase::AwaitingHashlockKeys);
    released
}

#[test]
fn maker_announces_the_contract_to_both_users() {
    let p = run_to_templates_sent();
    let keys = keys_line(&p.maker.contract_keys);
    let hash = hash_line(&p.maker.hash);
    let mut expected = Vec::new();
    for to in [Peer::UserA, Peer::UserB] {
        expected.push(MakerAction::Send { to, line: keys.clone() });
        expected.push(MakerAction::Send { to, line: hash.clone() });
        expected.push(MakerAction::SendTemplate { to, which: Payload::Funding });
        expected.push(MakerAction::SendTemplate { to, which: Payload::Refund });
    }
    assert_eq!(p.sent, expected);
    assert!(preimage_matches(&p.maker.preimage, &p.maker.hash));
    assert_eq!(p.maker.funding_txid, Some(p.funding.txid()));
    assert_eq!(p.maker.refund_txid, Some(p.refund.txid()));
}

#[test]
fn built_contract_gives_every_key_its_path() {
    let p = run_to_templates_sent();
    let keys = &p.maker.contract_keys;
    assert_eq!(keys.len(), 9);
    for path in 0..3 {
        assert_eq!(keys[3 * path], p.users[0].keys[path].public);
        assert_eq!(keys[3 * path + 1], p.users[1].keys[path].public);
        assert_eq!(keys[3 * path + 2], p.maker.keys[path].public);
    }
    for i in 0..9 {
        for j in 0..i {
            assert_ne!(keys[i], keys[j]);
        }
    }
    let text = users2maker_contract_desc(&nine_keys(keys).unwrap(), &p.maker.hash);
    assert_eq!(p.funding.unsigned_tx.output[0].script_pubkey, compile(&text));
}

#[test]
fn refund_path_pays_each_user_its_collateral_less_half_of_the_fees() {
    let p = run_first_phase();
    assert_eq!(p.refund.fee_amount(), Some(1000));
    assert_eq!(p.funding.fee_amount(), Some(FUNDING_FEE));
    for (i, purse) in p.purses.iter().enumerate() {
        let script = parse_address(&purse.refund_address).unwrap().script;
        let paid: Vec<&TxOut> =
            p.refund.unsigned_tx.output.iter().filter(|o| o.script_pubkey == script).collect();
        assert_eq!(paid.len(), 1);
        assert_eq!(paid[0].value, purse.value - (FUNDING_FEE + 1000) / 2);
        assert_eq!(paid[0].value, 49_350);
        assert_eq!(p.users[i].refund_txid, p.refund.txid());
    }
}

#[test]
fn full_swap_completes_with_the_expected_profit() {
    let mut p = run_first_phase();
    assert_eq!(p.maker.received, 2 * 50_000 - FUNDING_FEE);
    let released = run_to_hashlock_keys(&mut p);
    assert_eq!(p.maker.step(MakerEvent::PrivateKey { line: released[0].clone() }), Ok(vec![]));
    let revealed = p.maker.step(MakerEvent::PrivateKey { line: released[1].clone() }).unwrap();
    assert_eq!(p.maker.phase, MakerPhase::SecretRevealed);
    assert_eq!(
        revealed,
        vec![
            MakerAction::SendPreimage { to: Peer::UserX, preimage: p.maker.preimage },
            MakerAction::Send { to: Peer::UserX, line: p.maker.payout_keys[0].private.wif.clone() },
            MakerAction::SendPreimage { to: Peer::UserY, preimage: p.maker.preimage },
            MakerAction::Send { to: Peer::UserY, line: p.maker.payout_keys[2].private.wif.clone() },
        ]
    );
    assert_eq!(p.maker.step(MakerEvent::Done), Ok(vec![]));
    assert_eq!(p.maker.phase, MakerPhase::AwaitingFinalKeys);

    let mut last = Vec::new();
    for (i, user) in p.users.iter_mut().enumerate() {
        let event = UserEvent::Secret {
            preimage: p.maker.preimage,
            key: format!("{}\n", p.maker.payout_keys[2 * i].private.wif),
        };
        let actions = user.step(event).unwrap();
        assert_eq!(
            actions,
            vec![UserAction::Send {
                identity: Identity::First,
                line: user.keys[0].private.wif.clone(),
            }]
        );
        assert_eq!(user.phase, UserPhase::SecretReceived);
        assert_eq!(
            user.commitment,
            Some(Commitment::Revealed { hash: p.maker.hash, preimage: p.maker.preimage })
        );
        assert_eq!(user.step(UserEvent::Done), Ok(vec![]));
        assert_eq!(user.phase, UserPhase::FinalKeyReleased);
        assert_eq!(user.step(UserEvent::Done), Ok(vec![]));
        assert_eq!(user.phase, UserPhase::Complete);
        assert_eq!(user.abort, None);
        last.push(user.keys[0].private.wif.clone());
    }
    assert_eq!(p.maker.step(MakerEvent::PrivateKey { line: last[0].clone() }), Ok(vec![]));
    assert_eq!(p.maker.profit, None);
    assert_eq!(p.maker.step(MakerEvent::PrivateKey { line: last[1].clone() }), Ok(vec![]));
    assert_eq!(p.maker.phase, MakerPhase::SwapComplete);
    let received = 2 * 50_000 - FUNDING_FEE;
    let spent = 2 * PAYOUT_AMOUNT + 2 * PAYOUT_FEE;
    assert_eq!(p.maker.profit, Some(received - spent));
    assert_eq!(p.maker.profit, Some(9_300));
    assert_eq!(p.maker.abort, None);
}

#[test]
fn second_contract_is_the_same_on_both_sides() {
    let mut p = run_first_phase();
    run_to_hashlock_keys(&mut p);
    for (i, user) in p.users.iter().enumerate() {
        let expected = maker2users_contract_desc(
            &[user.second_keys[0].public.clone(), p.maker.payout_keys[2 * i].public.clone()],
            &p.maker.payout_keys[2 * i + 1].public,
            &user.second_keys[1].public,
            &p.maker.hash,
        );
        assert_eq!(p.maker.second_users[i].descriptor, expected);
        assert_eq!(p.maker.second_users[i].script, compile(&expected));
        assert_eq!(user.maker_keys[0], p.maker.payout_keys[2 * i].public);
    }
}

#[test]
fn user_does_not_sign_funding_before_the_refund_is_finalized() {
    let mut p = run_to_templates_sent();
    let keys = line_to(&p.sent, Peer::UserA, 0);
    let hash = line_to(&p.sent, Peer::UserA, 1);
    let user = &mut p.users[0];
    user.step(UserEvent::ContractData { keys, hash }).unwrap();
    user.step(UserEvent::Templates { funding: p.funding.clone(), refund: p.refund.clone() }).unwrap();
    user.step(UserEvent::Done).unwrap();
    assert_eq!(user.phase, UserPhase::RefundSigned);
    let waiting = user.clone();

    assert_eq!(user.step(UserEvent::Template(p.funding.clone())), Err(Abort::TxidMismatch));
    assert_eq!(user.phase, UserPhase::Aborted);
    assert_eq!(user.abort, Some(Abort::TxidMismatch));
    assert_eq!(user.step(UserEvent::Template(p.refund.clone())), Err(Abort::UnexpectedEvent));
    assert_eq!(user.phase, UserPhase::Aborted);

    let mut impatient = waiting.clone();
    assert_eq!(impatient.step(UserEvent::Done), Err(Abort::UnexpectedEvent));
    assert_eq!(impatient.phase, UserPhase::Aborted);

    let mut patient = waiting;
    assert_eq!(patient.step(UserEvent::Template(p.refund.clone())), Ok(vec![UserAction::SignFunding]));
}

#[test]
fn user_signs_nothing_before_validation() {
    let p = run_to_templates_sent();
    let keys = line_to(&p.sent, Peer::UserA, 0);
    let hash = line_to(&p.sent, Peer::UserA, 1);
    let mut user = p.users[0].clone();
    user.step(UserEvent::ContractData { keys, hash }).unwrap();
    let received = user.clone();

    let mut greedy = p.funding.clone();
    greedy.unsigned_tx.output[0].value -= 200;
    let event = UserEvent::Templates { funding: greedy.clone(), refund: p.refund.clone() };
    assert_eq!(user.step(event), Err(Abort::Validation(ValidationError::FeeTooHigh)));
    assert_eq!(user.phase, UserPhase::Aborted);

    let mut user = received.clone();
    let mut short = p.refund.clone();
    short.unsigned_tx.output[0].value -= 1;
    short.unsigned_tx.output[1].value += 1;
    let event = UserEvent::Templates { funding: p.funding.clone(), refund: short };
    assert_eq!(user.step(event), Err(Abort::Validation(ValidationError::RefundAmount)));

    let mut user = received.clone();
    assert_eq!(user.step(UserEvent::Template(p.funding.clone())), Err(Abort::UnexpectedEvent));

    let mut user = received;
    user.contract_keys[4] = user.contract_keys[0].clone();
    let event = UserEvent::Templates { funding: p.funding.clone(), refund: p.refund.clone() };
    assert_eq!(user.step(event), Err(Abort::DuplicateKeys));
}

#[test]
fn user_refuses_a_contract_without_its_keys() {
    let p = run_to_templates_sent();
    let hash = line_to(&p.sent, Peer::UserA, 1);
    let strangers: Vec<PubKey> = (0..9).map(|_| fresh().public).collect();
    let mut user = p.users[0].clone();
    user.step(UserEvent::ContractData { keys: keys_line(&strangers), hash: hash.clone() }).unwrap();
    let event = UserEvent::Templates { funding: p.funding.clone(), refund: p.refund.clone() };
    assert_eq!(user.step(event), Err(Abort::KeyNotInPath));

    let mut user = p.users[0].clone();
    let event = UserEvent::ContractData { keys: keys_line(&strangers[..8]), hash: hash.clone() };
    assert_eq!(user.step(event), Err(Abort::KeyCount));
    let mut user = p.users[0].clone();
    let event = UserEvent::ContractData { keys: keys_line(&strangers), hash: "beef".to_string() };
    assert_eq!(user.step(event), Err(Abort::MalformedHash));
    assert_eq!(user.abort, Some(Abort::MalformedHash));
}

#[test]
fn user_rejects_a_preimage_that_does_not_match() {
    let mut p = run_first_phase();
    run_to_hashlock_keys(&mut p);
    let key = format!("{}\n", p.maker.payout_keys[0].private.wif);
    let mut user = p.users[0].clone();
    let mut wrong = p.maker.preimage;
    wrong[0] ^= 1;
    assert_eq!(
        user.step(UserEvent::Secret { preimage: wrong, key: key.clone() }),
        Err(Abort::PreimageMismatch)
    );
    assert_eq!(user.phase, UserPhase::Aborted);
    assert_eq!(user.commitment, Some(Commitment::Committed { hash: p.maker.hash }));

    let mut user = p.users[0].clone();
    let other = format!("{}\n", p.maker.payout_keys[1].private.wif);
    assert_eq!(
        user.step(UserEvent::Secret { preimage: p.maker.preimage, key: other }),
        Err(Abort::KeyMismatch)
    );

    let mut user = p.users[0].clone();
    assert!(user.step(UserEvent::Secret { preimage: p.maker.preimage, key }).is_ok());
}

#[test]
fn user_rejects_equal_maker_keys_and_malformed_identifiers() {
    let mut p = run_first_phase();
    let user = &mut p.users[0];
    user.step(UserEvent::Done).unwrap();
    user.step(UserEvent::Done).unwrap();
    assert_eq!(user.phase, UserPhase::SecondContractSent);
    let key = fresh().public;
    let txid = txid_line(&[9u8; 32]);
    let mut twice = user.clone();
    let event = UserEvent::SecondContract { keys: keys_line(&[key.clone(), key.clone()]), txid: txid.clone() };
    assert_eq!(twice.step(event), Err(Abort::DuplicateKeys));
    let mut malformed = user.clone();
    let keys = keys_line(&[key.clone(), fresh().public]);
    let event = UserEvent::SecondContract { keys: keys.clone(), txid: "12".to_string() };
    assert_eq!(malformed.step(event), Err(Abort::MalformedTxid));
    let event = UserEvent::SecondContract { keys, txid };
    assert!(user.step(event).is_ok());
    assert_eq!(user.payout_txid, [9u8; 32]);
}

#[test]
fn handed_key_that_matches_no_hashlock_key_aborts_the_maker() {
    let mut p = run_first_phase();
    let released = run_to_hashlock_keys(&mut p);
    let waiting = p.maker.clone();

    let stranger = fresh().private.wif;
    assert_eq!(p.maker.step(MakerEvent::PrivateKey { line: released[0].clone() }), Ok(vec![]));
    assert_eq!(p.maker.step(MakerEvent::PrivateKey { line: stranger.clone() }), Err(Abort::KeyMismatch));
    assert_eq!(p.maker.phase, MakerPhase::Aborted);
    assert_eq!(p.maker.abort, Some(Abort::KeyMismatch));
    assert_eq!(
        p.maker.step(MakerEvent::PrivateKey { line: released[1].clone() }),
        Err(Abort::UnexpectedEvent)
    );
    assert_eq!(p.maker.phase, MakerPhase::Aborted);
    assert_eq!(p.maker.abort, Some(Abort::KeyMismatch));

    let mut maker = waiting.clone();
    assert_eq!(maker.step(MakerEvent::PrivateKey { line: stranger }), Ok(vec![]));
    assert_eq!(
        maker.step(MakerEvent::PrivateKey { line: released[1].clone() }),
        Err(Abort::KeyMismatch)
    );

    let mut maker = waiting.clone();
    let cooperative = p.users[0].keys[0].private.wif.clone();
    assert_eq!(maker.step(MakerEvent::PrivateKey { line: cooperative }), Ok(vec![]));
    assert_eq!(
        maker.step(MakerEvent::PrivateKey { line: released[1].clone() }),
        Err(Abort::KeyMismatch)
    );

    let mut maker = waiting;
    assert_eq!(
        maker.step(MakerEvent::PrivateKey { line: "not a key".to_string() }),
        Err(Abort::MalformedKey)
    );
    assert_eq!(maker.phase, MakerPhase::Aborted);
}

#[test]
fn maker_takes_no_funding_signature_before_the_refund_went_out() {
    let p = run_to_templates_sent();
    let mut maker = p.maker.clone();
    assert_eq!(maker.step(MakerEvent::Signed(p.funding.clone())), Err(Abort::TxidMismatch));
    assert_eq!(maker.phase, MakerPhase::Aborted);

    let mut maker = p.maker.clone();
    assert_eq!(maker.step(MakerEvent::Finalized(p.refund.clone())), Err(Abort::UnexpectedEvent));

    let mut maker = p.maker.clone();
    maker.step(MakerEvent::Signed(p.refund.clone())).unwrap();
    maker.step(MakerEvent::Signed(p.refund.clone())).unwrap();
    assert_eq!(maker.phase, MakerPhase::RefundCollected);
    let collected = maker.clone();
    assert_eq!(maker.step(MakerEvent::Signed(p.funding.clone())), Err(Abort::UnexpectedEvent));
    let mut maker = collected.clone();
    assert_eq!(maker.step(MakerEvent::Finalized(p.funding.clone())), Err(Abort::TxidMismatch));
    let mut maker = collected;
    assert!(maker.step(MakerEvent::Finalized(p.refund.clone())).is_ok());
    assert_eq!(maker.step(MakerEvent::Signed(p.refund.clone())), Err(Abort::TxidMismatch));
}

#[test]
fn maker_refuses_duplicate_and_malformed_user_data() {
    let purses = vec![purse(1, 50_000), purse(2, 50_000)];
    let users = vec![user_of(&purses[0]), user_of(&purses[1])];
    let mut maker = new_maker();
    maker.step(MakerEvent::Connected).unwrap();
    let early = maker.clone();
    maker.step(MakerEvent::Connected).unwrap();
    let ready = maker.clone();

    let mut maker = early;
    assert_eq!(maker.step(user_data(&users[0], &purses[0])), Err(Abort::UnexpectedEvent));

    let mut maker = ready.clone();
    assert_eq!(maker.step(user_data(&users[0], &purses[0])), Ok(vec![]));
    assert_eq!(maker.step(user_data(&users[0], &purses[1])), Err(Abort::DuplicateKeys));
    assert_eq!(maker.phase, MakerPhase::Aborted);

    let mut maker = ready.clone();
    let mut event = user_data(&users[0], &purses[0]);
    if let MakerEvent::UserData { keys, .. } = &mut event {
        *keys = keys_line(&[fresh().public, fresh().public]);
    }
    assert_eq!(maker.step(event), Err(Abort::KeyCount));

    let mut maker = ready.clone();
    let mut event = user_data(&users[0], &purses[0]);
    if let MakerEvent::UserData { descriptor, .. } = &mut event {
        *descriptor = purses[1].descriptor.clone();
    }
    assert_eq!(maker.step(event), Err(Abort::CollateralMismatch));

    let mut maker = ready.clone();
    let mut event = user_data(&users[0], &purses[0]);
    if let MakerEvent::UserData { refund_address, .. } = &mut event {
        *refund_address = "nowhere".to_string();
    }
    assert_eq!(maker.step(event), Err(Abort::MalformedAddress));

    let mut maker = ready;
    assert_eq!(maker.step(MakerEvent::Failed), Err(Abort::Collaborator));
    assert_eq!(maker.abort, Some(Abort::Collaborator));
}

#[test]
fn maker_adds_up_what_the_second_contracts_cost() {
    let mut p = run_first_phase();
    for user in p.users.iter() {
        p.maker.step(MakerEvent::Connected).unwrap();
        let _ = user;
    }
    let mut funded = Vec::new();
    for user in p.users.iter() {
        let keys: Vec<PubKey> = user.second_keys.iter().map(|k| k.public.clone()).collect();
        funded = p.maker.step(MakerEvent::SecondUserData { keys: keys_line(&keys) }).unwrap();
    }
    let descriptor = match &funded[0] {
        MakerAction::FundContract { descriptor, .. } => descriptor.clone(),
        other => panic!("unexpected action {:?}", other),
    };
    let built = p.maker.clone();

    let mut maker = built.clone();
    let mut twice = build_payout(&descriptor, 45_000, 0x71, 150);
    twice.unsigned_tx.output[0] = out(2_000, &compile(&descriptor));
    twice.unsigned_tx.output.push(out(2_850, &[0x51]));
    assert_eq!(twice.fee_amount(), Some(150));
    assert_eq!(maker.step(MakerEvent::ContractFunded(twice)), Err(Abort::WalletMismatch));

    let mut maker = built.clone();
    let short = build_payout(&descriptor, 44_999, 0x71, 150);
    assert_eq!(maker.step(MakerEvent::ContractFunded(short)), Err(Abort::WalletMismatch));

    let mut maker = built.clone();
    let elsewhere = build_payout(&p.purses[0].descriptor, 45_000, 0x71, 150);
    assert_eq!(maker.step(MakerEvent::ContractFunded(elsewhere)), Err(Abort::WalletMismatch));

    let payout = build_payout(&descriptor, 45_000, 0x71, 150);
    assert_eq!(p.maker.step(MakerEvent::ContractFunded(payout)), Ok(vec![]));
    assert_eq!(p.maker.spent, 45_000 + 150);

    let mut maker = built.clone();
    let mut unknown = build_payout(&descriptor, 45_000, 0x71, 150);
    unknown.inputs[0].witness_utxo = None;
    assert_eq!(maker.step(MakerEvent::ContractFunded(unknown)), Err(Abort::FeeUnknown));

    let mut maker = built;
    maker.spent = u64::MAX - 45_000;
    let payout = build_payout(&descriptor, 45_000, 0x71, 150);
    assert_eq!(maker.step(MakerEvent::ContractFunded(payout)), Err(Abort::Amount));
}

#[test]
fn swap_that_costs_more_than_it_received_does_not_complete() {
    let mut p = run_first_phase();
    let released = run_to_hashlock_keys(&mut p);
    p.maker.step(MakerEvent::PrivateKey { line: released[0].clone() }).unwrap();
    p.maker.step(MakerEvent::PrivateKey { line: released[1].clone() }).unwrap();
    p.maker.step(MakerEvent::Done).unwrap();
    p.maker.received = p.maker.spent - 1;
    let first = p.users[0].keys[0].private.wif.clone();
    let second = p.users[1].keys[0].private.wif.clone();
    assert_eq!(p.maker.step(MakerEvent::PrivateKey { line: first }), Ok(vec![]));
    assert_eq!(p.maker.step(MakerEvent::PrivateKey { line: second }), Err(Abort::Amount));
    assert_eq!(p.maker.profit, None);
}

#[test]
fn finished_and_aborted_sessions_take_no_events() {
    let purse = purse(1, 50_000);
    let mut user = user_of(&purse);
    assert_eq!(user.step(UserEvent::Failed), Err(Abort::Collaborator));
    let aborted = user.clone();
    let template = build_payout(&purse.descriptor, 1, 1, 1);
    for event in [UserEvent::Done, UserEvent::Failed, UserEvent::Template(template)] {
        let mut again = aborted.clone();
        assert_eq!(again.step(event), Err(Abort::UnexpectedEvent));
        assert_eq!(again, aborted);
    }
    let mut fresh_user = user_of(&purse);
    let event = UserEvent::ContractData { keys: String::new(), hash: String::new() };
    assert_eq!(fresh_user.step(event), Err(Abort::UnexpectedEvent));
    assert_eq!(fresh_user.phase, UserPhase::Aborted);

    let mut maker = new_maker();
    assert_eq!(maker.step(MakerEvent::Done), Err(Abort::UnexpectedEvent));
    let aborted = maker.clone();
    assert_eq!(maker.step(MakerEvent::Connected), Err(Abort::UnexpectedEvent));
    assert_eq!(maker, aborted);
}

#[test]
fn silent_peer_ends_the_session() {
    let p = run_to_templates_sent();
    let mut maker = p.maker.clone();
    assert_eq!(maker.step(MakerEvent::TimedOut), Err(Abort::Timeout));
    assert_eq!(maker.phase, MakerPhase::Aborted);
    assert_eq!(maker.abort, Some(Abort::Timeout));
    let mut user = p.users[0].clone();
    assert_eq!(user.step(UserEvent::TimedOut), Err(Abort::Timeout));
    assert_eq!(user.phase, UserPhase::Aborted);
    assert_eq!(user.step(UserEvent::TimedOut), Err(Abort::UnexpectedEvent));
    assert_eq!(user.abort, Some(Abort::Timeout));
}

#[test]
fn reasons_fall_into_three_classes() {
    assert_eq!(Abort::MalformedKey.kind(), AbortKind::Format);
    assert_eq!(Abort::KeyCount.kind(), AbortKind::Format);
    assert_eq!(Abort::MalformedDescriptor.kind(), AbortKind::Format);
    assert_eq!(Abort::KeyMismatch.kind(), AbortKind::Protocol);
    assert_eq!(Abort::PreimageMismatch.kind(), AbortKind::Protocol);
    assert_eq!(Abort::Validation(ValidationError::FeeTooHigh).kind(), AbortKind::Protocol);
    assert_eq!(Abort::UnexpectedEvent.kind(), AbortKind::Protocol);
    assert_eq!(Abort::Collaborator.kind(), AbortKind::External);
    assert_eq!(Abort::Timeout.kind(), AbortKind::External);
}

#[test]
fn sessions_say_what_they_wait_for() {
    let purse = purse(1, 50_000);
    let mut user = user_of(&purse);
    assert_eq!(user.awaits(), UserInput::Acknowledgement);
    user.step(UserEvent::Done).unwrap();
    assert_eq!(user.awaits(), UserInput::ContractData);

    let mut maker = new_maker();
    assert_eq!(maker.awaits(), (MakerInput::Connection, None));
    maker.step(MakerEvent::Connected).unwrap();
    assert_eq!(maker.awaits(), (MakerInput::Connection, None));
    maker.step(MakerEvent::Connected).unwrap();
    assert_eq!(maker.awaits(), (MakerInput::UserData, Some(Peer::UserA)));
    maker.step(user_data(&user, &purse)).unwrap();
    assert_eq!(maker.awaits(), (MakerInput::UserData, Some(Peer::UserB)));

    let mut p = run_to_templates_sent();
    assert_eq!(p.maker.awaits(), (MakerInput::SignedTemplate, Some(Peer::UserA)));
    p.maker.step(MakerEvent::Signed(p.refund.clone())).unwrap();
    assert_eq!(p.maker.awaits(), (MakerInput::SignedTemplate, Some(Peer::UserB)));
    p.maker.step(MakerEvent::Signed(p.refund.clone())).unwrap();
    assert_eq!(p.maker.awaits(), (MakerInput::WalletResult, None));

    let mut p = run_first_phase();
    assert_eq!(p.users[0].awaits(), UserInput::Acknowledgement);
    assert_eq!(p.maker.awaits(), (MakerInput::Connection, None));
    p.maker.step(MakerEvent::Connected).unwrap();
    assert_eq!(p.maker.awaits(), (MakerInput::Connection, None));
    p.maker.step(MakerEvent::Connected).unwrap();
    assert_eq!(p.maker.awaits(), (MakerInput::SecondUserData, Some(Peer::UserX)));

    let mut p = run_first_phase();
    let released = run_to_hashlock_keys(&mut p);
    assert_eq!(p.users[0].awaits(), UserInput::Secret);
    assert_eq!(p.maker.awaits(), (MakerInput::PrivateKey, Some(Peer::UserA)));
    p.maker.step(MakerEvent::PrivateKey { line: released[0].clone() }).unwrap();
    assert_eq!(p.maker.awaits(), (MakerInput::PrivateKey, Some(Peer::UserB)));
    p.maker.step(MakerEvent::PrivateKey { line: released[1].clone() }).unwrap();
    assert_eq!(p.maker.awaits(), (MakerInput::Acknowledgement, None));
    p.maker.step(MakerEvent::TimedOut).unwrap_err();
    assert_eq!(p.maker.awaits(), (MakerInput::Nothing, None));
}

#[test]
fn second_contract_needs_four_different_keys() {
    let p = run_first_phase();
    let mut maker = p.maker.clone();
    maker.step(MakerEvent::Connected).unwrap();
    maker.step(MakerEvent::Connected).unwrap();
    let ready = maker.clone();
    let own = maker.payout_keys[1].public.clone();
    let keys = keys_line(&[fresh().public, own]);
    assert_eq!(maker.step(MakerEvent::SecondUserData { keys }), Err(Abort::DuplicateKeys));
    let mut maker = ready.clone();
    let same = fresh().public;
    let keys = keys_line(&[same.clone(), same]);
    assert_eq!(maker.step(MakerEvent::SecondUserData { keys }), Err(Abort::DuplicateKeys));
    let mut maker = ready;
    let keys = keys_line(&[fresh().public, fresh().public]);
    assert_eq!(maker.step(MakerEvent::SecondUserData { keys }), Ok(vec![]));

    let mut user = p.users[0].clone();
    user.step(UserEvent::Done).unwrap();
    user.step(UserEvent::Done).unwrap();
    let mine = user.second_keys[1].public.clone();
    let event = UserEvent::SecondContract {
        keys: keys_line(&[fresh().public, mine]),
        txid: txid_line(&[9u8; 32]),
    };
    assert_eq!(user.step(event), Err(Abort::DuplicateKeys));
}

#[test]
fn maker_goes_on_only_with_the_funding_it_asked_for() {
    let purses = vec![purse(1, 50_000), purse(2, 50_000)];
    let users = vec![user_of(&purses[0]), user_of(&purses[1])];
    let mut maker = new_maker();
    maker.step(MakerEvent::Connected).unwrap();
    maker.step(MakerEvent::Connected).unwrap();
    maker.step(user_data(&users[0], &purses[0])).unwrap();
    let built = maker.step(user_data(&users[1], &purses[1])).unwrap();
    let request = match &built[..] {
        [MakerAction::BuildFunding(request)] => request.clone(),
        other => panic!("unexpected actions {:?}", other),
    };
    let funding = build_funding(&request, &[&purses[0], &purses[1]], FUNDING_FEE);
    let asked = maker.clone();

    let mut two_outputs = funding.clone();
    two_outputs.unsigned_tx.output[0].value -= 10;
    two_outputs.unsigned_tx.output.push(out(10, &[0x51]));
    assert_eq!(maker.step(MakerEvent::FundingBuilt(two_outputs)), Err(Abort::WalletMismatch));

    let mut maker = asked.clone();
    let mut elsewhere = funding.clone();
    elsewhere.unsigned_tx.output[0].script_pubkey = vec![0x51];
    assert_eq!(maker.step(MakerEvent::FundingBuilt(elsewhere)), Err(Abort::WalletMismatch));

    let mut maker = asked.clone();
    let mut another_coin = funding.clone();
    another_coin.unsigned_tx.input[1].previous_output.vout = 5;
    assert_eq!(maker.step(MakerEvent::FundingBuilt(another_coin)), Err(Abort::WalletMismatch));

    let mut maker = asked.clone();
    let mut one_more = funding.clone();
    one_more.unsigned_tx.input.push(one_more.unsigned_tx.input[0].clone());
    one_more.inputs.push(InputData { witness_utxo: Some(out(0, &[0x51])), non_witness_utxo: None });
    assert_eq!(maker.step(MakerEvent::FundingBuilt(one_more)), Err(Abort::WalletMismatch));

    let mut maker = asked.clone();
    let mut leaking = funding.clone();
    leaking.inputs[0].witness_utxo = Some(out(50_010, &[0x51]));
    assert_eq!(leaking.fee_amount(), Some(FUNDING_FEE + 10));
    assert_eq!(maker.step(MakerEvent::FundingBuilt(leaking)), Err(Abort::WalletMismatch));

    let mut maker = asked.clone();
    let odd = build_funding(&request, &[&purses[0], &purses[1]], FUNDING_FEE + 1);
    assert_eq!(maker.step(MakerEvent::FundingBuilt(odd)), Err(Abort::Amount));

    let mut maker = asked;
    assert!(maker.step(MakerEvent::FundingBuilt(funding.clone())).is_ok());
    assert_eq!(maker.funding, Some(funding));
}

#[test]
fn maker_sends_out_only_the_refund_it_asked_for() {
    let p = run_to_templates_sent();
    let mut asked = p.maker.clone();
    asked.phase = MakerPhase::ContractBuilt;
    asked.refund_txid = None;

    let mut maker = asked.clone();
    let mut short = p.refund.clone();
    short.unsigned_tx.output[0].value -= 1;
    short.unsigned_tx.output[1].value += 1;
    assert_eq!(maker.step(MakerEvent::RefundBuilt(short)), Err(Abort::WalletMismatch));

    let mut maker = asked.clone();
    let mut dear = p.refund.clone();
    dear.unsigned_tx.output[1].value -= 1;
    assert_eq!(maker.step(MakerEvent::RefundBuilt(dear)), Err(Abort::WalletMismatch));

    let mut maker = asked.clone();
    let mut unlocked = p.refund.clone();
    unlocked.unsigned_tx.input[0].sequence = 0xffff_ffff;
    assert_eq!(maker.step(MakerEvent::RefundBuilt(unlocked)), Err(Abort::WalletMismatch));

    let mut maker = asked.clone();
    let mut another = p.refund.clone();
    another.unsigned_tx.input[0].previous_output.vout = 1;
    assert_eq!(maker.step(MakerEvent::RefundBuilt(another)), Err(Abort::WalletMismatch));

    let mut maker = asked.clone();
    let mut swapped = p.refund.clone();
    swapped.unsigned_tx.output.reverse();
    assert!(maker.step(MakerEvent::RefundBuilt(swapped)).is_ok());

    let mut maker = asked;
    assert!(maker.step(MakerEvent::RefundBuilt(p.refund.clone())).is_ok());
    assert_eq!(maker.phase, MakerPhase::FundingRefundSent);
}
