//! The maker's side of a swap, as a state machine. The application feeds it what
//! arrives from the users and what its wallet reports, and carries out the actions it
//! answers with. The machine decides; it never builds, signs or sends itself.
//!
//! The maker collects the users' signatures on the funding only after the finalized
//! refund went out to both of them, reveals the preimage only after both second
//! contracts are funded and both users handed over keys that match their hashlock
//! keys, and counts a swap as complete only after the last keys matched too.

use crate::address::address_script_of;
use crate::bytes::{bytes_eq, hex_text};
use crate::commitment::Commitment;
use crate::descriptor::{
    compiled_script, descriptor_script, key_texts, maker2users_contract_desc, maker2users_text,
    passes_sanity_check, signing_texts, users2maker_contract_desc, users2maker_signing_desc,
    users2maker_text,
};
use crate::error::Abort;
use crate::funding::{
    build_funding_and_refund, build_refund_tx, check_built_funding, check_built_refund,
    collateral_in, collateral_total, collateral_views, funding_as_asked, read_utxo_data,
    refund_as_asked, refund_request_for, FundingRequest, FundingRequestView, Recipient,
    RecipientView, RefundRequest, RefundRequestView, COOPERATIVE_PATH,
};
use crate::keys::{
    all_distinct, check_prv_keys, derive_public_key, derived_public_key, key_accepted, nine_keys,
    pairwise_distinct, KeyPair, PrivKey, PubKey,
};
use crate::transaction::{
    fee_of, transaction_id, InputData, InputDataView, OutPoint, OutPointView, TxOutView, TxTemplate,
    TxTemplateView,
};
use crate::validation::{find_paid, paying_outputs, Collateral, CollateralView};
use crate::wire::{
    joined, key_list_in, keys_line, parse_address, parse_private_key, read_contract_keys, trimmed,
    txid_line, Address,
};
use vstd::prelude::*;

verus! {

/// What the maker pays into each second contract.
pub const PAYOUT_AMOUNT: u64 = 45000;

/// A peer of the maker: the two identities of the first phase, and the two of the second.
#[derive(Debug, Clone, Copy, PartialEq, Eq, Structural)]
pub enum Peer {
    UserA,
    UserB,
    UserX,
    UserY,
}

/// The transactions that the maker's wallet holds during a session.
#[derive(Debug, Clone, Copy, PartialEq, Eq, Structural)]
pub enum Payload {
    Funding,
    Refund,
    FinalRefund,
    FinalFunding,
    PayoutX,
    PayoutY,
}

/// How far the maker has come.
#[derive(Debug, Clone, Copy, PartialEq, Eq, Structural)]
pub enum MakerPhase {
    AwaitingPhase1Connections,
    AwaitingUserData,
    ContractBuilt,
    FundingRefundSent,
    RefundCollected,
    RefundFinalized,
    FundingCollected,
    FundingFinalized,
    AwaitingPhase2Connections,
    Phase2ContractBuilt,
    Phase2Funded,
    Phase2Notified,
    AwaitingHashlockKeys,
    SecretRevealed,
    AwaitingFinalKeys,
    SwapComplete,
    Aborted,
}

/// What the application is to do next.
#[derive(Debug, Clone, PartialEq, Eq)]
pub enum MakerAction {
    /// Write a line to a peer.
    Send { to: Peer, line: String },
    /// Send a transaction template to a peer.
    SendTemplate { to: Peer, which: Payload },
    /// Reveal the preimage to a peer.
    SendPreimage { to: Peer, preimage: [u8; 32] },
    /// Have the wallet build the funding transaction.
    BuildFunding(FundingRequest),
    /// Have the wallet build the refund transaction.
    BuildRefund(RefundRequest),
    /// Combine the refunds that the users signed and sign the result with the wallet
    /// of this descriptor.
    FinalizeRefund { descriptor: String },
    /// Combine the fundings that the users signed.
    FinalizeFunding,
    /// Hand a transaction to the network.
    Broadcast { which: Payload },
    /// Have the wallet pay `amount` into the contract of this descriptor and sign.
    FundContract { descriptor: String, amount: u64 },
}

/// The mathematical view of `MakerAction`: the same value over sequences.
pub enum MakerActionView {
    Send { to: Peer, line: Seq<char> },
    SendTemplate { to: Peer, which: Payload },
    SendPreimage { to: Peer, preimage: Seq<u8> },
    BuildFunding(FundingRequestView),
    BuildRefund(RefundRequestView),
    FinalizeRefund { descriptor: Seq<char> },
    FinalizeFunding,
    Broadcast { which: Payload },
    FundContract { descriptor: Seq<char>, amount: u64 },
}

impl DeepView for MakerAction {
    type V = MakerActionView;

    open spec fn deep_view(&self) -> MakerActionView {
        match self {
            MakerAction::Send { to, line } => MakerActionView::Send { to: *to, line: line@ },
            MakerAction::SendTemplate { to, which } => MakerActionView::SendTemplate {
                to: *to,
                which: *which,
            },
            MakerAction::SendPreimage { to, preimage } => MakerActionView::SendPreimage {
                to: *to,
                preimage: preimage@,
            },
            MakerAction::BuildFunding(request) => MakerActionView::BuildFunding(request.deep_view()),
            MakerAction::BuildRefund(request) => MakerActionView::BuildRefund(request.deep_view()),
            MakerAction::FinalizeRefund { descriptor } => MakerActionView::FinalizeRefund {
                descriptor: descriptor@,
            },
            MakerAction::FinalizeFunding => MakerActionView::FinalizeFunding,
            MakerAction::Broadcast { which } => MakerActionView::Broadcast { which: *which },
            MakerAction::FundContract { descriptor, amount } => MakerActionView::FundContract {
                descriptor: descriptor@,
                amount: *amount,
            },
        }
    }
}

/// What happened.
#[derive(Debug, Clone, PartialEq, Eq)]
pub enum MakerEvent {
    /// A peer connected.
    Connected,
    /// A user of the first phase sent its data: the line of its three keys, its
    /// collateral proof, and the line of its refund address.
    UserData { keys: String, descriptor: String, outpoint: OutPoint, input: InputData, refund_address: String },
    /// The wallet built the funding transaction.
    FundingBuilt(TxTemplate),
    /// The wallet built the refund transaction.
    RefundBuilt(TxTemplate),
    /// A user returned a template with its signature.
    Signed(TxTemplate),
    /// The wallet combined the signed templates.
    Finalized(TxTemplate),
    /// A user of the second phase sent the line of its two keys.
    SecondUserData { keys: String },
    /// The wallet funded a second contract and signed the transaction.
    ContractFunded(TxTemplate),
    /// The actions asked for last were carried out.
    Done,
    /// A user of the first phase handed over the line of a private key.
    PrivateKey { line: String },
    /// The wallet or the transport failed.
    Failed,
    /// The peer that was waited for did not answer in time.
    TimedOut,
}

/// The mathematical view of `MakerEvent`: the same value over sequences.
pub enum MakerEventView {
    Connected,
    UserData { keys: Seq<char>, descriptor: Seq<char>, outpoint: OutPointView, input: InputDataView, refund_address: Seq<char> },
    FundingBuilt(TxTemplateView),
    RefundBuilt(TxTemplateView),
    Signed(TxTemplateView),
    Finalized(TxTemplateView),
    SecondUserData { keys: Seq<char> },
    ContractFunded(TxTemplateView),
    Done,
    PrivateKey { line: Seq<char> },
    Failed,
    TimedOut,
}

impl View for MakerEvent {
    type V = MakerEventView;

    open spec fn view(&self) -> MakerEventView {
        match self {
            MakerEvent::Connected => MakerEventView::Connected,
            MakerEvent::UserData { keys, descriptor, outpoint, input, refund_address } => MakerEventView::UserData {
                keys: keys@,
                descriptor: descriptor@,
                outpoint: outpoint@,
                input: input.deep_view(),
                refund_address: refund_address@,
            },
            MakerEvent::FundingBuilt(t) => MakerEventView::FundingBuilt(t@),
            MakerEvent::RefundBuilt(t) => MakerEventView::RefundBuilt(t@),
            MakerEvent::Signed(t) => MakerEventView::Signed(t@),
            MakerEvent::Finalized(t) => MakerEventView::Finalized(t@),
            MakerEvent::SecondUserData { keys } => MakerEventView::SecondUserData { keys: keys@ },
            MakerEvent::ContractFunded(t) => MakerEventView::ContractFunded(t@),
            MakerEvent::Done => MakerEventView::Done,
            MakerEvent::PrivateKey { line } => MakerEventView::PrivateKey { line: line@ },
            MakerEvent::Failed => MakerEventView::Failed,
            MakerEvent::TimedOut => MakerEventView::TimedOut,
        }
    }
}

/// What the maker knows of a user of the first phase.
#[derive(Debug, Clone, PartialEq, Eq)]
pub struct UserRecord {
    /// The user's keys, one for each spending path.
    pub keys: Vec<PubKey>,
    pub collateral: Collateral,
    pub refund_address: Address,
}

/// The mathematical view of `UserRecord`: the same value over sequences.
pub struct UserRecordView {
    pub keys: Seq<Seq<u8>>,
    pub collateral: CollateralView,
    pub refund_address: Seq<char>,
    pub refund_script: Seq<u8>,
}

impl DeepView for UserRecord {
    type V = UserRecordView;

    open spec fn deep_view(&self) -> UserRecordView {
        UserRecordView {
            keys: self.keys.deep_view(),
            collateral: self.collateral@,
            refund_address: self.refund_address.text@,
            refund_script: self.refund_address.script@,
        }
    }
}

/// What the maker knows of a user of the second phase.
#[derive(Debug, Clone, PartialEq, Eq)]
pub struct SecondUser {
    pub multisig_key: PubKey,
    pub hashlock_key: PubKey,
    /// The descriptor of the contract that pays this user, and the script it compiles to.
    pub descriptor: String,
    pub script: Vec<u8>,
}

/// The mathematical view of `SecondUser`: the same value over sequences.
pub struct SecondUserView {
    pub multisig_key: Seq<u8>,
    pub hashlock_key: Seq<u8>,
    pub descriptor: Seq<char>,
    pub script: Seq<u8>,
}

impl DeepView for SecondUser {
    type V = SecondUserView;

    open spec fn deep_view(&self) -> SecondUserView {
        SecondUserView {
            multisig_key: self.multisig_key@,
            hashlock_key: self.hashlock_key@,
            descriptor: self.descriptor@,
            script: self.script@,
        }
    }
}

/// The maker's session.
#[derive(Debug, Clone, PartialEq, Eq)]
pub struct Maker {
    pub phase: MakerPhase,
    /// Why the session was aborted, once it was.
    pub abort: Option<Abort>,
    /// The maker's keys of the first contract, one for each spending path.
    pub keys: [KeyPair; 3],
    /// The maker's keys of the second contracts: multisig and timelock for the first
    /// user to come, multisig and timelock for the second.
    pub payout_keys: [KeyPair; 4],
    /// The secret and its hash.
    pub preimage: [u8; 32],
    pub hash: [u8; 32],
    /// Peers that connected in the current phase.
    pub connections: u8,
    pub users: Vec<UserRecord>,
    /// The nine keys of the first contract, once it is built.
    pub contract_keys: Vec<PubKey>,
    /// The funding transaction as the wallet built it, and its identifier.
    pub funding: Option<TxTemplate>,
    pub funding_txid: Option<[u8; 32]>,
    pub refund_txid: Option<[u8; 32]>,
    /// Signed templates collected in the current round.
    pub collected: u8,
    /// The value that the funding transaction pays into the first contract.
    pub received: u64,
    pub second_users: Vec<SecondUser>,
    pub payout_txids: Vec<[u8; 32]>,
    /// What the second contracts cost: what was paid into them, and the fees.
    pub spent: u64,
    /// Private keys handed over in the current round.
    pub handed: Vec<PrivKey>,
    /// What the maker earned, once the swap is complete.
    pub profit: Option<u64>,
}

/// The mathematical view of `Maker`: the same value over sequences.
pub struct MakerView {
    pub phase: MakerPhase,
    pub abort: Option<Abort>,
    pub keys: Seq<(Seq<char>, Seq<u8>)>,
    pub payout_keys: Seq<(Seq<char>, Seq<u8>)>,
    pub preimage: Seq<u8>,
    pub hash: Seq<u8>,
    pub connections: u8,
    pub users: Seq<UserRecordView>,
    pub contract_keys: Seq<Seq<u8>>,
    pub funding: Option<TxTemplateView>,
    pub funding_txid: Option<Seq<u8>>,
    pub refund_txid: Option<Seq<u8>>,
    pub collected: u8,
    pub received: u64,
    pub second_users: Seq<SecondUserView>,
    pub payout_txids: Seq<Seq<u8>>,
    pub spent: u64,
    pub handed: Seq<Seq<char>>,
    pub profit: Option<u64>,
}

impl View for Maker {
    type V = MakerView;

    open spec fn view(&self) -> MakerView {
        MakerView {
            phase: self.phase,
            abort: self.abort,
            keys: self.keys.deep_view(),
            payout_keys: self.payout_keys.deep_view(),
            preimage: self.preimage@,
            hash: self.hash@,
            connections: self.connections,
            users: self.users.deep_view(),
            contract_keys: self.contract_keys.deep_view(),
            funding: self.funding.deep_view(),
            funding_txid: known_txid(self.funding_txid),
            refund_txid: known_txid(self.refund_txid),
            collected: self.collected,
            received: self.received,
            second_users: self.second_users.deep_view(),
            payout_txids: Seq::new(self.payout_txids.len() as nat, |i: int| self.payout_txids[i]@),
            spent: self.spent,
            handed: self.handed.deep_view(),
            profit: self.profit,
        }
    }
}

/// The bytes of a transaction identifier, once it is known.
pub open spec fn known_txid(txid: Option<[u8; 32]>) -> Option<Seq<u8>> {
    match txid {
        Some(id) => Some(id@),
        None => None,
    }
}

/// A state and what the step that led to it asks for, or why it aborted.
pub struct MakerOutcome {
    pub state: MakerView,
    pub actions: Result<Seq<MakerActionView>, Abort>,
}

/// The session ends for `reason`.
pub open spec fn maker_aborts(m: MakerView, reason: Abort) -> MakerOutcome {
    MakerOutcome {
        state: MakerView { phase: MakerPhase::Aborted, abort: Some(reason), ..m },
        actions: Err(reason),
    }
}

/// The session goes on in state `m` and asks for `actions`.
pub open spec fn maker_goes_on(m: MakerView, actions: Seq<MakerActionView>) -> MakerOutcome {
    MakerOutcome { state: m, actions: Ok(actions) }
}

/// The nine keys of the first contract in the order of its descriptor: for each
/// spending path the key of user A, of user B and of the maker.
pub open spec fn contract_layout(a: Seq<Seq<u8>>, b: Seq<Seq<u8>>, maker: Seq<Seq<u8>>) -> Seq<Seq<u8>> {
    seq![a[0], b[0], maker[0], a[1], b[1], maker[1], a[2], b[2], maker[2]]
}

/// The public keys of a list of key pairs.
pub open spec fn public_parts(pairs: Seq<(Seq<char>, Seq<u8>)>) -> Seq<Seq<u8>> {
    Seq::new(pairs.len(), |i: int| pairs[i].1)
}

/// The descriptor of the first contract.
pub open spec fn first_descriptor(m: MakerView) -> Seq<char> {
    users2maker_text(key_texts(m.contract_keys), hex_text(m.hash))
}

/// The collaterals of the users, in order.
pub open spec fn collaterals_of(users: Seq<UserRecordView>) -> Seq<OutPointView> {
    Seq::new(users.len(), |i: int| users[i].collateral.outpoint)
}

/// Whom the refund pays: every user's refund address, with the value of its collateral.
pub open spec fn refund_recipients(users: Seq<UserRecordView>) -> Seq<RecipientView> {
    Seq::new(
        users.len(),
        |i: int| RecipientView { script: users[i].refund_script, value: users[i].collateral.value },
    )
}

/// A peer connected.
pub open spec fn maker_on_connected(m: MakerView) -> MakerOutcome {
    match m.phase {
        MakerPhase::AwaitingPhase1Connections => if m.connections == 0 {
            maker_goes_on(MakerView { connections: 1, ..m }, seq![])
        } else {
            maker_goes_on(
                MakerView { phase: MakerPhase::AwaitingUserData, connections: 2, ..m },
                seq![],
            )
        },
        MakerPhase::FundingFinalized => maker_goes_on(
            MakerView { phase: MakerPhase::AwaitingPhase2Connections, connections: 1, ..m },
            seq![],
        ),
        MakerPhase::AwaitingPhase2Connections => if m.connections == 1 {
            maker_goes_on(MakerView { connections: 2, ..m }, seq![])
        } else {
            maker_aborts(m, Abort::UnexpectedEvent)
        },
        _ => maker_aborts(m, Abort::UnexpectedEvent),
    }
}

/// What a user's data is read as.
pub open spec fn user_record_in(
    keys: Seq<char>,
    descriptor: Seq<char>,
    outpoint: OutPointView,
    input: InputDataView,
    refund_address: Seq<char>,
) -> Result<UserRecordView, Abort> {
    match key_list_in(keys, 3) {
        Err(e) => Err(e),
        Ok(list) => match collateral_in(descriptor, outpoint, input) {
            Err(e) => Err(e),
            Ok(collateral) => match address_script_of(trimmed(refund_address)) {
                None => Err(Abort::MalformedAddress),
                Some(script) => Ok(
                    UserRecordView {
                        keys: list,
                        collateral,
                        refund_address: trimmed(refund_address),
                        refund_script: script,
                    },
                ),
            },
        },
    }
}

/// Both users are known: the maker builds the first contract and asks for its
/// funding transaction.
pub open spec fn maker_builds_contract(m: MakerView) -> MakerOutcome {
    let keys = contract_layout(m.users[0].keys, m.users[1].keys, public_parts(m.keys));
    let built = MakerView { phase: MakerPhase::ContractBuilt, contract_keys: keys, ..m };
    if m.users[0].keys.len() != 3 || m.users[1].keys.len() != 3 {
        maker_aborts(m, Abort::KeyCount)
    } else if !pairwise_distinct(keys) {
        maker_aborts(m, Abort::DuplicateKeys)
    } else if !passes_sanity_check(first_descriptor(built)) {
        maker_aborts(m, Abort::MalformedDescriptor)
    } else {
        maker_goes_on(
            built,
            seq![
                MakerActionView::BuildFunding(
                    FundingRequestView {
                        descriptor: first_descriptor(built),
                        inputs: collaterals_of(m.users),
                        path: COOPERATIVE_PATH,
                    },
                ),
            ],
        )
    }
}

/// A user of the first phase sent its data.
pub open spec fn maker_on_user_data(
    m: MakerView,
    keys: Seq<char>,
    descriptor: Seq<char>,
    outpoint: OutPointView,
    input: InputDataView,
    refund_address: Seq<char>,
) -> MakerOutcome {
    if m.users.len() >= 2 {
        maker_aborts(m, Abort::UnexpectedEvent)
    } else {
        match user_record_in(keys, descriptor, outpoint, input, refund_address) {
            Err(e) => maker_aborts(m, e),
            Ok(record) => {
                let known = MakerView { users: m.users.push(record), ..m };
                if known.users.len() < 2 {
                    maker_goes_on(known, seq![])
                } else {
                    maker_builds_contract(known)
                }
            },
        }
    }
}

/// The collaterals of the users, in order.
pub open spec fn user_collaterals(users: Seq<UserRecordView>) -> Seq<CollateralView> {
    Seq::new(users.len(), |i: int| users[i].collateral)
}

/// The wallet built the funding transaction. If it is what the maker asked for, the
/// maker asks for its refund.
pub open spec fn maker_on_funding_built(m: MakerView, t: TxTemplateView) -> MakerOutcome {
    if m.funding_txid is Some {
        maker_aborts(m, Abort::UnexpectedEvent)
    } else if m.contract_keys.len() != 9 {
        maker_aborts(m, Abort::KeyCount)
    } else {
        match compiled_script(first_descriptor(m)) {
            None => maker_aborts(m, Abort::MalformedDescriptor),
            Some(script) => if !funding_as_asked(t, script, user_collaterals(m.users)) {
                maker_aborts(m, Abort::WalletMismatch)
            } else {
                match refund_request_for(refund_recipients(m.users), t) {
                    Err(e) => maker_aborts(m, e),
                    Ok(request) => maker_goes_on(
                        MakerView {
                            funding: Some(t),
                            funding_txid: Some(transaction_id(t.unsigned_tx)),
                            ..m
                        },
                        seq![MakerActionView::BuildRefund(request)],
                    ),
                }
            },
        }
    }
}

/// What announces the first contract to one user.
pub open spec fn contract_announcement(m: MakerView, to: Peer) -> Seq<MakerActionView> {
    seq![
        MakerActionView::Send { to, line: joined(key_texts(m.contract_keys)) },
        MakerActionView::Send { to, line: hex_text(m.hash) },
        MakerActionView::SendTemplate { to, which: Payload::Funding },
        MakerActionView::SendTemplate { to, which: Payload::Refund },
    ]
}

/// The wallet built the refund transaction. If it is what the maker asked for, the
/// maker announces the contract and sends both templates to both users.
pub open spec fn maker_on_refund_built(m: MakerView, t: TxTemplateView) -> MakerOutcome {
    if m.funding_txid is None || m.refund_txid is Some || m.funding is None {
        maker_aborts(m, Abort::UnexpectedEvent)
    } else {
        match refund_request_for(refund_recipients(m.users), m.funding.unwrap()) {
            Err(e) => maker_aborts(m, e),
            Ok(request) => if !refund_as_asked(t, request, m.funding.unwrap()) {
                maker_aborts(m, Abort::WalletMismatch)
            } else {
                maker_goes_on(
                    MakerView {
                        phase: MakerPhase::FundingRefundSent,
                        refund_txid: Some(transaction_id(t.unsigned_tx)),
                        collected: 0,
                        ..m
                    },
                    contract_announcement(m, Peer::UserA) + contract_announcement(m, Peer::UserB),
                )
            },
        }
    }
}

/// A user returned a signed template: a refund while refunds are collected, a funding
/// once the finalized refund went out.
pub open spec fn maker_on_signed(m: MakerView, t: TxTemplateView) -> MakerOutcome {
    match m.phase {
        MakerPhase::FundingRefundSent => if m.refund_txid != Some(transaction_id(t.unsigned_tx)) {
            maker_aborts(m, Abort::TxidMismatch)
        } else if m.collected == 0 {
            maker_goes_on(MakerView { collected: 1, ..m }, seq![])
        } else if m.contract_keys.len() != 9 {
            maker_aborts(m, Abort::KeyCount)
        } else {
            maker_goes_on(
                MakerView { phase: MakerPhase::RefundCollected, collected: 0, ..m },
                seq![
                    MakerActionView::FinalizeRefund {
                        descriptor: users2maker_text(
                            signing_texts(m.contract_keys, m.keys),
                            hex_text(m.hash),
                        ),
                    },
                ],
            )
        },
        MakerPhase::RefundFinalized => if m.funding_txid != Some(transaction_id(t.unsigned_tx)) {
            maker_aborts(m, Abort::TxidMismatch)
        } else if m.collected == 0 {
            maker_goes_on(MakerView { collected: 1, ..m }, seq![])
        } else {
            maker_goes_on(
                MakerView { phase: MakerPhase::FundingCollected, collected: 0, ..m },
                seq![MakerActionView::FinalizeFunding],
            )
        },
        _ => maker_aborts(m, Abort::UnexpectedEvent),
    }
}

/// The wallet combined the signed templates: the maker sends the result to both users.
pub open spec fn maker_on_finalized(m: MakerView, t: TxTemplateView) -> MakerOutcome {
    match m.phase {
        MakerPhase::RefundCollected => if m.refund_txid != Some(transaction_id(t.unsigned_tx)) {
            maker_aborts(m, Abort::TxidMismatch)
        } else {
            maker_goes_on(
                MakerView { phase: MakerPhase::RefundFinalized, ..m },
                seq![
                    MakerActionView::SendTemplate { to: Peer::UserA, which: Payload::FinalRefund },
                    MakerActionView::SendTemplate { to: Peer::UserB, which: Payload::FinalRefund },
                ],
            )
        },
        MakerPhase::FundingCollected => if m.funding_txid != Some(transaction_id(t.unsigned_tx)) {
            maker_aborts(m, Abort::TxidMismatch)
        } else if t.unsigned_tx.output.len() == 0 {
            maker_aborts(m, Abort::Amount)
        } else {
            maker_goes_on(
                MakerView {
                    phase: MakerPhase::FundingFinalized,
                    received: t.unsigned_tx.output[0].value,
                    ..m
                },
                seq![
                    MakerActionView::SendTemplate { to: Peer::UserA, which: Payload::FinalFunding },
                    MakerActionView::SendTemplate { to: Peer::UserB, which: Payload::FinalFunding },
                    MakerActionView::Broadcast { which: Payload::FinalFunding },
                ],
            )
        },
        _ => maker_aborts(m, Abort::UnexpectedEvent),
    }
}

/// The descriptor of the contract that pays the second-phase user who came at place
/// `index`: the user's multisig key and the maker's, the maker's timelock key, the
/// user's hashlock key.
pub open spec fn payout_descriptor(m: MakerView, index: int, user_keys: Seq<Seq<u8>>) -> Seq<char> {
    maker2users_text(
        hex_text(user_keys[0]),
        hex_text(m.payout_keys[2 * index].1),
        hex_text(m.payout_keys[2 * index + 1].1),
        hex_text(user_keys[1]),
        hex_text(m.hash),
    )
}

/// The four keys of the contract that pays the second-phase user who came at place
/// `index`, in the order of its descriptor.
pub open spec fn payout_contract_keys(m: MakerView, index: int, user_keys: Seq<Seq<u8>>) -> Seq<Seq<u8>> {
    seq![user_keys[0], m.payout_keys[2 * index].1, m.payout_keys[2 * index + 1].1, user_keys[1]]
}

/// A user of the second phase sent its keys. The four keys of its contract must differ
/// from each other. Once both users sent theirs, the maker asks its wallet to fund both
/// contracts.
pub open spec fn maker_on_second_user_data(m: MakerView, keys: Seq<char>) -> MakerOutcome {
    let index = m.second_users.len() as int;
    if m.connections != 2 || m.second_users.len() >= 2 {
        maker_aborts(m, Abort::UnexpectedEvent)
    } else {
        match key_list_in(keys, 2) {
            Err(e) => maker_aborts(m, e),
            Ok(list) => if !pairwise_distinct(payout_contract_keys(m, index, list)) {
                maker_aborts(m, Abort::DuplicateKeys)
            } else {
                match compiled_script(payout_descriptor(m, index, list)) {
                    None => maker_aborts(m, Abort::MalformedDescriptor),
                    Some(script) => maker_knows_second_user(
                        m,
                        SecondUserView {
                            multisig_key: list[0],
                            hashlock_key: list[1],
                            descriptor: payout_descriptor(m, index, list),
                            script,
                        },
                    ),
                }
            },
        }
    }
}

/// The maker takes note of a user of the second phase. Once it knows both, it asks its
/// wallet to fund both contracts.
pub open spec fn maker_knows_second_user(m: MakerView, user: SecondUserView) -> MakerOutcome {
    let known = MakerView { second_users: m.second_users.push(user), ..m };
    if known.second_users.len() < 2 {
        maker_goes_on(known, seq![])
    } else {
        maker_goes_on(
            MakerView { phase: MakerPhase::Phase2ContractBuilt, ..known },
            seq![
                MakerActionView::FundContract {
                    descriptor: known.second_users[0].descriptor,
                    amount: PAYOUT_AMOUNT,
                },
                MakerActionView::FundContract {
                    descriptor: known.second_users[1].descriptor,
                    amount: PAYOUT_AMOUNT,
                },
            ],
        )
    }
}

/// The sum of the values of those of the first `n` outputs that pay to `script`.
pub open spec fn paid_to(outs: Seq<TxOutView>, script: Seq<u8>, n: int) -> int
    decreases n,
{
    if n <= 0 {
        0
    } else {
        paid_to(outs, script, n - 1) + if outs[n - 1].script_pubkey == script {
            outs[n - 1].value as int
        } else {
            0
        }
    }
}

/// What a transaction that funds a second contract costs the maker: what it pays into
/// the contract, and its fee.
pub open spec fn payout_cost(t: TxTemplateView, script: Seq<u8>) -> Option<int> {
    match fee_of(t) {
        Some(fee) => Some(paid_to(t.unsigned_tx.output, script, t.unsigned_tx.output.len() as int) + fee),
        None => None,
    }
}

/// A transaction that funds a second contract is what was asked for: exactly one of
/// its outputs pays the contract, and that one pays the fixed amount.
pub open spec fn payout_as_asked(t: TxTemplateView, script: Seq<u8>) -> bool {
    &&& paying_outputs(t.unsigned_tx.output, script, t.unsigned_tx.output.len() as int) == 1
    &&& paid_to(t.unsigned_tx.output, script, t.unsigned_tx.output.len() as int) == PAYOUT_AMOUNT
}

/// The wallet funded a second contract. If the transaction is what the maker asked
/// for, the maker adds up what the contract cost. Once both are funded, they go to the
/// network.
pub open spec fn maker_on_contract_funded(m: MakerView, t: TxTemplateView) -> MakerOutcome {
    if m.second_users.len() != 2 || m.payout_txids.len() >= 2 {
        maker_aborts(m, Abort::UnexpectedEvent)
    } else {
        match payout_cost(t, m.second_users[m.payout_txids.len() as int].script) {
            None => maker_aborts(m, Abort::FeeUnknown),
            Some(cost) => if !payout_as_asked(
                t,
                m.second_users[m.payout_txids.len() as int].script,
            ) {
                maker_aborts(m, Abort::WalletMismatch)
            } else if m.spent + cost > u64::MAX {
                maker_aborts(m, Abort::Amount)
            } else {
                let funded = MakerView {
                    spent: (m.spent + cost) as u64,
                    payout_txids: m.payout_txids.push(transaction_id(t.unsigned_tx)),
                    ..m
                };
                if funded.payout_txids.len() < 2 {
                    maker_goes_on(funded, seq![])
                } else {
                    maker_goes_on(
                        MakerView { phase: MakerPhase::Phase2Funded, ..funded },
                        seq![
                            MakerActionView::Broadcast { which: Payload::PayoutX },
                            MakerActionView::Broadcast { which: Payload::PayoutY },
                        ],
                    )
                }
            },
        }
    }
}

/// What tells one user of the second phase of its contract: the maker's two keys of
/// it, and the identifier of the transaction that funds it. Never the transaction.
pub open spec fn payout_notice(m: MakerView, index: int, to: Peer) -> Seq<MakerActionView> {
    seq![
        MakerActionView::Send {
            to,
            line: joined(
                seq![
                    hex_text(m.payout_keys[2 * index].1),
                    hex_text(m.payout_keys[2 * index + 1].1),
                ],
            ),
        },
        MakerActionView::Send { to, line: hex_text(m.payout_txids[index].reverse()) },
    ]
}

/// The actions asked for last were carried out.
pub open spec fn maker_on_done(m: MakerView) -> MakerOutcome {
    match m.phase {
        MakerPhase::Phase2Funded => if m.payout_txids.len() != 2 {
            maker_aborts(m, Abort::UnexpectedEvent)
        } else {
            maker_goes_on(
                MakerView { phase: MakerPhase::Phase2Notified, ..m },
                payout_notice(m, 0, Peer::UserX) + payout_notice(m, 1, Peer::UserY),
            )
        },
        MakerPhase::Phase2Notified => maker_goes_on(
            MakerView { phase: MakerPhase::AwaitingHashlockKeys, handed: seq![], ..m },
            seq![],
        ),
        MakerPhase::SecretRevealed => maker_goes_on(
            MakerView { phase: MakerPhase::AwaitingFinalKeys, handed: seq![], ..m },
            seq![],
        ),
        _ => maker_aborts(m, Abort::UnexpectedEvent),
    }
}

/// The users' keys of spending path `path`, where both users are known with three keys each.
pub open spec fn expected_keys(m: MakerView, path: int) -> Option<Seq<Seq<u8>>> {
    if m.users.len() == 2 && m.users[0].keys.len() == 3 && m.users[1].keys.len() == 3 {
        Some(seq![m.users[0].keys[path], m.users[1].keys[path]])
    } else {
        None
    }
}

/// Every handed-over key belongs to exactly one of the expected public keys.
pub open spec fn all_accepted(handed: Seq<Seq<char>>, expected: Seq<Seq<u8>>) -> bool {
    forall|i: int| 0 <= i < handed.len() ==> key_accepted(#[trigger] handed[i], expected)
}

/// What reveals the secret to one user of the second phase: the preimage, and the
/// maker's multisig key of that user's contract.
pub open spec fn secret_for(m: MakerView, index: int, to: Peer) -> Seq<MakerActionView> {
    seq![
        MakerActionView::SendPreimage { to, preimage: m.preimage },
        MakerActionView::Send { to, line: m.payout_keys[2 * index].0 },
    ]
}

/// A user of the first phase handed over a private key. A text that is no private key
/// ends the session at once; once both users handed one over, both must match the
/// users' keys of the path that is due, or the session ends.
pub open spec fn maker_on_private_key(m: MakerView, line: Seq<char>) -> MakerOutcome {
    let path: int = if m.phase == MakerPhase::AwaitingHashlockKeys {
        2
    } else {
        0
    };
    let handed = m.handed.push(trimmed(line));
    if m.phase != MakerPhase::AwaitingHashlockKeys && m.phase != MakerPhase::AwaitingFinalKeys {
        maker_aborts(m, Abort::UnexpectedEvent)
    } else if m.handed.len() >= 2 {
        maker_aborts(m, Abort::UnexpectedEvent)
    } else if derived_public_key(trimmed(line)) is None {
        maker_aborts(m, Abort::MalformedKey)
    } else if handed.len() < 2 {
        maker_goes_on(MakerView { handed, ..m }, seq![])
    } else if expected_keys(m, path) is None {
        maker_aborts(m, Abort::UnexpectedEvent)
    } else if !all_accepted(handed, expected_keys(m, path).unwrap()) {
        maker_aborts(m, Abort::KeyMismatch)
    } else if m.phase == MakerPhase::AwaitingHashlockKeys {
        maker_goes_on(
            MakerView { phase: MakerPhase::SecretRevealed, handed, ..m },
            secret_for(m, 0, Peer::UserX) + secret_for(m, 1, Peer::UserY),
        )
    } else if m.spent > m.received {
        maker_aborts(m, Abort::Amount)
    } else {
        maker_goes_on(
            MakerView {
                phase: MakerPhase::SwapComplete,
                handed,
                profit: Some((m.received - m.spent) as u64),
                ..m
            },
            seq![],
        )
    }
}

/// The step of the maker's state machine: the state that follows `m` upon `event`,
/// and the actions that the step asks for. A finished or aborted session stays as it
/// is; an event that the state does not expect aborts the session.
pub open spec fn maker_next(m: MakerView, event: MakerEventView) -> MakerOutcome {
    match (m.phase, event) {
        (MakerPhase::SwapComplete, _) | (MakerPhase::Aborted, _) => MakerOutcome {
            state: m,
            actions: Err(Abort::UnexpectedEvent),
        },
        (_, MakerEventView::Failed) => maker_aborts(m, Abort::Collaborator),
        (_, MakerEventView::TimedOut) => maker_aborts(m, Abort::Timeout),
        (_, MakerEventView::Connected) => maker_on_connected(m),
        (
            MakerPhase::AwaitingUserData,
            MakerEventView::UserData { keys, descriptor, outpoint, input, refund_address },
        ) => maker_on_user_data(m, keys, descriptor, outpoint, input, refund_address),
        (MakerPhase::ContractBuilt, MakerEventView::FundingBuilt(t)) => maker_on_funding_built(m, t),
        (MakerPhase::ContractBuilt, MakerEventView::RefundBuilt(t)) => maker_on_refund_built(m, t),
        (_, MakerEventView::Signed(t)) => maker_on_signed(m, t),
        (_, MakerEventView::Finalized(t)) => maker_on_finalized(m, t),
        (
            MakerPhase::AwaitingPhase2Connections,
            MakerEventView::SecondUserData { keys },
        ) => maker_on_second_user_data(m, keys),
        (MakerPhase::Phase2ContractBuilt, MakerEventView::ContractFunded(t)) => maker_on_contract_funded(
            m,
            t,
        ),
        (_, MakerEventView::Done) => maker_on_done(m),
        (_, MakerEventView::PrivateKey { line }) => maker_on_private_key(m, line),
        _ => maker_aborts(m, Abort::UnexpectedEvent),
    }
}

/// The step `outcome` is what the machine did: it left the state `after` and answered `answer`.
pub open spec fn maker_stepped(outcome: MakerOutcome, after: MakerView, answer: Result<Vec<MakerAction>, Abort>) -> bool {
    &&& after == outcome.state
    &&& match answer {
        Ok(actions) => outcome.actions == Ok::<Seq<MakerActionView>, Abort>(actions.deep_view()),
        Err(e) => outcome.actions == Err::<Seq<MakerActionView>, Abort>(e),
    }
}

proof fn lemma_paid_to_grows(outs: Seq<TxOutView>, script: Seq<u8>, a: int, b: int)
    requires
        a <= b,
    ensures
        0 <= paid_to(outs, script, a) <= paid_to(outs, script, b),
    decreases b - a,
{
    if a < b {
        lemma_paid_to_grows(outs, script, a, b - 1);
    } else {
        lemma_paid_to_nonnegative(outs, script, a);
    }
}

proof fn lemma_paid_to_nonnegative(outs: Seq<TxOutView>, script: Seq<u8>, n: int)
    ensures
        0 <= paid_to(outs, script, n),
    decreases n,
{
    if n > 0 {
        lemma_paid_to_nonnegative(outs, script, n - 1);
    }
}

/// Adds up what a template pays to `script`, unless the sum exceeds 64 bits.
pub fn sum_paid(t: &TxTemplate, script: &[u8]) -> (sum: Option<u64>)
    ensures
        match sum {
            Some(paid) => paid == paid_to(
                t@.unsigned_tx.output,
                script@,
                t@.unsigned_tx.output.len() as int,
            ),
            None => paid_to(t@.unsigned_tx.output, script@, t@.unsigned_tx.output.len() as int)
                > u64::MAX,
        },
{
    let mut paid: u64 = 0;
    let mut i: usize = 0;
    while i < t.unsigned_tx.output.len()
        invariant
            i <= t.unsigned_tx.output.len(),
            paid == paid_to(t@.unsigned_tx.output, script@, i as int),
        decreases t.unsigned_tx.output.len() - i,
    {
        let out = &t.unsigned_tx.output[i];
        if bytes_eq(out.script_pubkey.as_slice(), script) {
            if out.value > u64::MAX - paid {
                proof {
                    lemma_paid_to_grows(
                        t@.unsigned_tx.output,
                        script@,
                        i + 1,
                        t@.unsigned_tx.output.len() as int,
                    );
                }
                return None;
            }
            paid = paid + out.value;
        }
        i += 1;
    }
    Some(paid)
}

fn same_txid(known: &Option<[u8; 32]>, txid: &[u8; 32]) -> (same: bool)
    ensures
        same == (known_txid(*known) == Some(txid@)),
{
    match known {
        Some(id) => bytes_eq(id.as_slice(), txid.as_slice()),
        None => false,
    }
}

fn no_actions() -> (actions: Vec<MakerAction>)
    ensures
        actions.len() == 0,
        actions.deep_view() == Seq::<MakerActionView>::empty(),
{
    let actions: Vec<MakerAction> = Vec::new();
    assert(actions.deep_view() =~= Seq::empty());
    actions
}

impl Maker {
    /// A session that waits for its first connection, with the keys and the secret
    /// that the maker drew for it.
    pub fn new(keys: [KeyPair; 3], payout_keys: [KeyPair; 4], preimage: [u8; 32]) -> (maker: Maker)
        ensures
            maker@ == (MakerView {
                phase: MakerPhase::AwaitingPhase1Connections,
                abort: None,
                keys: keys.deep_view(),
                payout_keys: payout_keys.deep_view(),
                preimage: preimage@,
                hash: crate::commitment::sha256_digest(preimage@),
                connections: 0,
                users: Seq::empty(),
                contract_keys: Seq::empty(),
                funding: None,
                funding_txid: None,
                refund_txid: None,
                collected: 0,
                received: 0,
                second_users: Seq::empty(),
                payout_txids: Seq::empty(),
                spent: 0,
                handed: Seq::empty(),
                profit: None,
            }),
    {
        let hash = Commitment::from_preimage(preimage).hash();
        let maker = Maker {
            phase: MakerPhase::AwaitingPhase1Connections,
            abort: None,
            keys,
            payout_keys,
            preimage,
            hash,
            connections: 0,
            users: Vec::new(),
            contract_keys: Vec::new(),
            funding: None,
            funding_txid: None,
            refund_txid: None,
            collected: 0,
            received: 0,
            second_users: Vec::new(),
            payout_txids: Vec::new(),
            spent: 0,
            handed: Vec::new(),
            profit: None,
        };
        assert(maker@.users =~= Seq::empty());
        assert(maker@.contract_keys =~= Seq::empty());
        assert(maker@.second_users =~= Seq::empty());
        assert(maker@.payout_txids =~= Seq::empty());
        assert(maker@.handed =~= Seq::empty());
        maker
    }

    fn aborts(&mut self, reason: Abort) -> (answer: Result<Vec<MakerAction>, Abort>)
        ensures
            maker_stepped(maker_aborts(old(self)@, reason), final(self)@, answer),
    {
        self.phase = MakerPhase::Aborted;
        self.abort = Some(reason);
        Err(reason)
    }

    fn on_connected(&mut self) -> (answer: Result<Vec<MakerAction>, Abort>)
        ensures
            maker_stepped(maker_on_connected(old(self)@), final(self)@, answer),
    {
        match self.phase {
            MakerPhase::AwaitingPhase1Connections => {
                if self.connections == 0 {
                    self.connections = 1;
                } else {
                    self.phase = MakerPhase::AwaitingUserData;
                    self.connections = 2;
                }
                Ok(no_actions())
            },
            MakerPhase::FundingFinalized => {
                self.phase = MakerPhase::AwaitingPhase2Connections;
                self.connections = 1;
                Ok(no_actions())
            },
            MakerPhase::AwaitingPhase2Connections => {
                if self.connections == 1 {
                    self.connections = 2;
                    Ok(no_actions())
                } else {
                    self.aborts(Abort::UnexpectedEvent)
                }
            },
            _ => self.aborts(Abort::UnexpectedEvent),
        }
    }

    fn builds_contract(&mut self) -> (answer: Result<Vec<MakerAction>, Abort>)
        requires
            old(self).users.len() == 2,
        ensures
            maker_stepped(maker_builds_contract(old(self)@), final(self)@, answer),
    {
        if self.users[0].keys.len() != 3 || self.users[1].keys.len() != 3 {
            return self.aborts(Abort::KeyCount);
        }
        let mut keys: Vec<PubKey> = Vec::new();
        keys.push(self.users[0].keys[0].clone());
        keys.push(self.users[1].keys[0].clone());
        keys.push(self.keys[0].public.clone());
        keys.push(self.users[0].keys[1].clone());
        keys.push(self.users[1].keys[1].clone());
        keys.push(self.keys[1].public.clone());
        keys.push(self.users[0].keys[2].clone());
        keys.push(self.users[1].keys[2].clone());
        keys.push(self.keys[2].public.clone());
        assert(keys.deep_view() =~= contract_layout(
            self@.users[0].keys,
            self@.users[1].keys,
            public_parts(self@.keys),
        )) by {
            assert(self.users.deep_view()[0].keys == self.users[0].keys.deep_view());
            assert(self.users.deep_view()[1].keys == self.users[1].keys.deep_view());
        }
        if !all_distinct(keys.as_slice()) {
            return self.aborts(Abort::DuplicateKeys);
        }
        let nine = match nine_keys(&keys) {
            Some(nine) => nine,
            None => {
                return self.aborts(Abort::KeyCount);
            },
        };
        let descriptor = users2maker_contract_desc(&nine, &self.hash);
        let mut utxos: Vec<Collateral> = Vec::new();
        utxos.push(self.users[0].collateral);
        utxos.push(self.users[1].collateral);
        let mut refund_to: Vec<Address> = Vec::new();
        refund_to.push(self.users[0].refund_address.clone());
        refund_to.push(self.users[1].refund_address.clone());
        match build_funding_and_refund(descriptor.as_str(), &utxos, &refund_to) {
            Ok((request, _)) => {
                assert(request.deep_view().inputs =~= collaterals_of(self@.users));
                self.contract_keys = keys;
                self.phase = MakerPhase::ContractBuilt;
                let mut actions = no_actions();
                actions.push(MakerAction::BuildFunding(request));
                assert(actions.deep_view() =~= seq![
                    MakerActionView::BuildFunding(
                        FundingRequestView {
                            descriptor: first_descriptor(self@),
                            inputs: collaterals_of(old(self)@.users),
                            path: COOPERATIVE_PATH,
                        },
                    ),
                ]);
                Ok(actions)
            },
            Err(e) => self.aborts(e),
        }
    }

    fn on_user_data(
        &mut self,
        keys: String,
        descriptor: String,
        outpoint: OutPoint,
        input: InputData,
        refund_address: String,
    ) -> (answer: Result<Vec<MakerAction>, Abort>)
        ensures
            maker_stepped(
                maker_on_user_data(
                    old(self)@,
                    keys@,
                    descriptor@,
                    outpoint@,
                    input.deep_view(),
                    refund_address@,
                ),
                final(self)@,
                answer,
            ),
    {
        if self.users.len() >= 2 {
            return self.aborts(Abort::UnexpectedEvent);
        }
        let list = match read_contract_keys(keys.as_str(), 3) {
            Ok(list) => list,
            Err(e) => {
                return self.aborts(e);
            },
        };
        let collateral = match read_utxo_data(descriptor.as_str(), outpoint, &input) {
            Ok(collateral) => collateral,
            Err(e) => {
                return self.aborts(e);
            },
        };
        let address = match parse_address(refund_address.as_str()) {
            Ok(address) => address,
            Err(e) => {
                return self.aborts(e);
            },
        };
        let record = UserRecord { keys: list, collateral, refund_address: address };
        let ghost view = record.deep_view();
        assert(user_record_in(keys@, descriptor@, outpoint@, input.deep_view(), refund_address@)
            == Ok::<UserRecordView, Abort>(view));
        self.users.push(record);
        assert(self@.users =~= old(self)@.users.push(view));
        if self.users.len() < 2 {
            Ok(no_actions())
        } else {
            self.builds_contract()
        }
    }

    fn recipients(&self) -> (list: Vec<Recipient>)
        ensures
            list.deep_view() == refund_recipients(self@.users),
    {
        let mut list: Vec<Recipient> = Vec::new();
        let mut i: usize = 0;
        while i < self.users.len()
            invariant
                i <= self.users.len(),
                list.len() == i,
                forall|j: int|
                    0 <= j < i ==> (#[trigger] list[j]).deep_view() == refund_recipients(
                        self@.users,
                    )[j],
            decreases self.users.len() - i,
        {
            let script = self.users[i].refund_address.script.clone();
            assert(script@ =~= self.users[i as int].refund_address.script@);
            list.push(Recipient { script, value: self.users[i].collateral.value });
            i += 1;
        }
        assert(list.deep_view() =~= refund_recipients(self@.users));
        list
    }

    fn on_funding_built(&mut self, t: TxTemplate) -> (answer: Result<Vec<MakerAction>, Abort>)
        ensures
            maker_stepped(maker_on_funding_built(old(self)@, t@), final(self)@, answer),
    {
        if self.funding_txid.is_some() {
            return self.aborts(Abort::UnexpectedEvent);
        }
        let nine = match nine_keys(&self.contract_keys) {
            Some(nine) => nine,
            None => {
                return self.aborts(Abort::KeyCount);
            },
        };
        let descriptor = users2maker_contract_desc(&nine, &self.hash);
        let script = match descriptor_script(descriptor.as_str()) {
            Some(script) => script,
            None => {
                return self.aborts(Abort::MalformedDescriptor);
            },
        };
        assert(script.deep_view() =~= script@);
        if !check_built_funding(&t, script.as_slice(), &self.collaterals()) {
            return self.aborts(Abort::WalletMismatch);
        }
        match build_refund_tx(&self.recipients(), &t) {
            Ok(request) => {
                self.funding_txid = Some(t.txid());
                self.funding = Some(t);
                let mut actions = no_actions();
                actions.push(MakerAction::BuildRefund(request));
                assert(actions.deep_view() =~= seq![MakerActionView::BuildRefund(request.deep_view())]);
                Ok(actions)
            },
            Err(e) => self.aborts(e),
        }
    }

    fn collaterals(&self) -> (list: Vec<Collateral>)
        ensures
            collateral_views(list@) == user_collaterals(self@.users),
    {
        let mut list: Vec<Collateral> = Vec::new();
        let mut i: usize = 0;
        while i < self.users.len()
            invariant
                i <= self.users.len(),
                list.len() == i,
                forall|j: int| 0 <= j < i ==> list[j]@ == self.users[j].collateral@,
            decreases self.users.len() - i,
        {
            list.push(self.users[i].collateral);
            i += 1;
        }
        assert(collateral_views(list@) =~= user_collaterals(self@.users));
        list
    }

    fn announce(&self, to: Peer, actions: &mut Vec<MakerAction>)
        ensures
            final(actions).deep_view() == old(actions).deep_view() + contract_announcement(self@, to),
    {
        let list = self.contract_keys.as_slice();
        assert(list.deep_view().map_values(|k: Seq<u8>| hex_text(k)) =~= key_texts(
            self@.contract_keys,
        ));
        actions.push(MakerAction::Send { to, line: keys_line(list) });
        actions.push(MakerAction::Send { to, line: crate::wire::hash_line(&self.hash) });
        actions.push(MakerAction::SendTemplate { to, which: Payload::Funding });
        actions.push(MakerAction::SendTemplate { to, which: Payload::Refund });
        assert(actions.deep_view() =~= old(actions).deep_view() + contract_announcement(self@, to));
    }

    fn on_refund_built(&mut self, t: TxTemplate) -> (answer: Result<Vec<MakerAction>, Abort>)
        ensures
            maker_stepped(maker_on_refund_built(old(self)@, t@), final(self)@, answer),
    {
        if self.funding_txid.is_none() || self.refund_txid.is_some() {
            return self.aborts(Abort::UnexpectedEvent);
        }
        let asked = match &self.funding {
            Some(funding) => match build_refund_tx(&self.recipients(), funding) {
                Ok(request) => Ok(check_built_refund(&t, &request, funding)),
                Err(e) => Err(e),
            },
            None => Err(Abort::UnexpectedEvent),
        };
        match asked {
            Ok(true) => {},
            Ok(false) => {
                return self.aborts(Abort::WalletMismatch);
            },
            Err(e) => {
                return self.aborts(e);
            },
        }
        let mut actions = no_actions();
        self.announce(Peer::UserA, &mut actions);
        self.announce(Peer::UserB, &mut actions);
        assert(actions.deep_view() =~= contract_announcement(self@, Peer::UserA)
            + contract_announcement(self@, Peer::UserB));
        self.refund_txid = Some(t.txid());
        self.collected = 0;
        self.phase = MakerPhase::FundingRefundSent;
        Ok(actions)
    }

    fn on_signed(&mut self, t: TxTemplate) -> (answer: Result<Vec<MakerAction>, Abort>)
        ensures
            maker_stepped(maker_on_signed(old(self)@, t@), final(self)@, answer),
    {
        let txid = t.txid();
        match self.phase {
            MakerPhase::FundingRefundSent => {
                if !same_txid(&self.refund_txid, &txid) {
                    return self.aborts(Abort::TxidMismatch);
                }
                if self.collected == 0 {
                    self.collected = 1;
                    return Ok(no_actions());
                }
                let nine = match nine_keys(&self.contract_keys) {
                    Some(nine) => nine,
                    None => {
                        return self.aborts(Abort::KeyCount);
                    },
                };
                let descriptor = users2maker_signing_desc(&nine, &self.hash, self.keys.as_slice());
                self.phase = MakerPhase::RefundCollected;
                self.collected = 0;
                let mut actions = no_actions();
                actions.push(MakerAction::FinalizeRefund { descriptor });
                assert(actions.deep_view() =~= seq![
                    MakerActionView::FinalizeRefund {
                        descriptor: users2maker_text(
                            signing_texts(self@.contract_keys, self@.keys),
                            hex_text(self@.hash),
                        ),
                    },
                ]);
                Ok(actions)
            },
            MakerPhase::RefundFinalized => {
                if !same_txid(&self.funding_txid, &txid) {
                    return self.aborts(Abort::TxidMismatch);
                }
                if self.collected == 0 {
                    self.collected = 1;
                    return Ok(no_actions());
                }
                self.phase = MakerPhase::FundingCollected;
                self.collected = 0;
                let mut actions = no_actions();
                actions.push(MakerAction::FinalizeFunding);
                assert(actions.deep_view() =~= seq![MakerActionView::FinalizeFunding]);
                Ok(actions)
            },
            _ => self.aborts(Abort::UnexpectedEvent),
        }
    }

    fn on_finalized(&mut self, t: TxTemplate) -> (answer: Result<Vec<MakerAction>, Abort>)
        ensures
            maker_stepped(maker_on_finalized(old(self)@, t@), final(self)@, answer),
    {
        let txid = t.txid();
        match self.phase {
            MakerPhase::RefundCollected => {
                if !same_txid(&self.refund_txid, &txid) {
                    return self.aborts(Abort::TxidMismatch);
                }
                self.phase = MakerPhase::RefundFinalized;
                let mut actions = no_actions();
                actions.push(MakerAction::SendTemplate { to: Peer::UserA, which: Payload::FinalRefund });
                actions.push(MakerAction::SendTemplate { to: Peer::UserB, which: Payload::FinalRefund });
                assert(actions.deep_view() =~= seq![
                    MakerActionView::SendTemplate { to: Peer::UserA, which: Payload::FinalRefund },
                    MakerActionView::SendTemplate { to: Peer::UserB, which: Payload::FinalRefund },
                ]);
                Ok(actions)
            },
            MakerPhase::FundingCollected => {
                if !same_txid(&self.funding_txid, &txid) {
                    return self.aborts(Abort::TxidMismatch);
                }
                if t.unsigned_tx.output.len() == 0 {
                    return self.aborts(Abort::Amount);
                }
                self.received = t.unsigned_tx.output[0].value;
                self.phase = MakerPhase::FundingFinalized;
                let mut actions = no_actions();
                actions.push(MakerAction::SendTemplate { to: Peer::UserA, which: Payload::FinalFunding });
                actions.push(MakerAction::SendTemplate { to: Peer::UserB, which: Payload::FinalFunding });
                actions.push(MakerAction::Broadcast { which: Payload::FinalFunding });
                assert(actions.deep_view() =~= seq![
                    MakerActionView::SendTemplate { to: Peer::UserA, which: Payload::FinalFunding },
                    MakerActionView::SendTemplate { to: Peer::UserB, which: Payload::FinalFunding },
                    MakerActionView::Broadcast { which: Payload::FinalFunding },
                ]);
                Ok(actions)
            },
            _ => self.aborts(Abort::UnexpectedEvent),
        }
    }

    fn on_second_user_data(&mut self, keys: String) -> (answer: Result<Vec<MakerAction>, Abort>)
        ensures
            maker_stepped(maker_on_second_user_data(old(self)@, keys@), final(self)@, answer),
    {
        if self.connections != 2 || self.second_users.len() >= 2 {
            return self.aborts(Abort::UnexpectedEvent);
        }
        let list = match read_contract_keys(keys.as_str(), 2) {
            Ok(list) => list,
            Err(e) => {
                return self.aborts(e);
            },
        };
        assert(list.deep_view()[0] == list[0]@ && list.deep_view()[1] == list[1]@);
        let index = self.second_users.len();
        let mut four: Vec<PubKey> = Vec::new();
        four.push(list[0].clone());
        four.push(self.payout_keys[2 * index].public.clone());
        four.push(self.payout_keys[2 * index + 1].public.clone());
        four.push(list[1].clone());
        let all = four.as_slice();
        assert(all.deep_view() =~= payout_contract_keys(self@, index as int, list.deep_view()));
        if !all_distinct(all) {
            return self.aborts(Abort::DuplicateKeys);
        }
        let multisig = [list[0].clone(), self.payout_keys[2 * index].public.clone()];
        let descriptor = maker2users_contract_desc(
            &multisig,
            &self.payout_keys[2 * index + 1].public,
            &list[1],
            &self.hash,
        );
        assert(descriptor@ == payout_descriptor(self@, index as int, list.deep_view()));
        let script = match descriptor_script(descriptor.as_str()) {
            Some(script) => script,
            None => {
                return self.aborts(Abort::MalformedDescriptor);
            },
        };
        assert(script.deep_view() =~= script@);
        let user = SecondUser {
            multisig_key: list[0].clone(),
            hashlock_key: list[1].clone(),
            descriptor,
            script,
        };
        let ghost view = user.deep_view();
        self.second_users.push(user);
        assert(self@.second_users =~= old(self)@.second_users.push(view));
        if self.second_users.len() < 2 {
            return Ok(no_actions());
        }
        self.phase = MakerPhase::Phase2ContractBuilt;
        let mut actions = no_actions();
        actions.push(MakerAction::FundContract { descriptor: self.second_users[0].descriptor.clone(), amount: PAYOUT_AMOUNT });
        actions.push(MakerAction::FundContract { descriptor: self.second_users[1].descriptor.clone(), amount: PAYOUT_AMOUNT });
        assert(actions.deep_view() =~= seq![
            MakerActionView::FundContract {
                descriptor: self@.second_users[0].descriptor,
                amount: PAYOUT_AMOUNT,
            },
            MakerActionView::FundContract {
                descriptor: self@.second_users[1].descriptor,
                amount: PAYOUT_AMOUNT,
            },
        ]);
        Ok(actions)
    }

    fn on_contract_funded(&mut self, t: TxTemplate) -> (answer: Result<Vec<MakerAction>, Abort>)
        ensures
            maker_stepped(maker_on_contract_funded(old(self)@, t@), final(self)@, answer),
    {
        if self.second_users.len() != 2 || self.payout_txids.len() >= 2 {
            return self.aborts(Abort::UnexpectedEvent);
        }
        let index = self.payout_txids.len();
        assert(self@.second_users[index as int].script == self.second_users[index as int].script@);
        let fee = match t.fee_amount() {
            Some(fee) => fee,
            None => {
                return self.aborts(Abort::FeeUnknown);
            },
        };
        proof {
            lemma_paid_to_nonnegative(
                t@.unsigned_tx.output,
                self.second_users[index as int].script@,
                t@.unsigned_tx.output.len() as int,
            );
        }
        let (paying, _) = find_paid(&t, self.second_users[index].script.as_slice());
        let paid = match sum_paid(&t, self.second_users[index].script.as_slice()) {
            Some(paid) => paid,
            None => {
                return self.aborts(Abort::WalletMismatch);
            },
        };
        if paying != 1 || paid != PAYOUT_AMOUNT {
            return self.aborts(Abort::WalletMismatch);
        }
        if paid > u64::MAX - fee || paid + fee > u64::MAX - self.spent {
            return self.aborts(Abort::Amount);
        }
        self.spent = self.spent + paid + fee;
        let txid = t.txid();
        self.payout_txids.push(txid);
        assert(self@.payout_txids =~= old(self)@.payout_txids.push(txid@));
        if self.payout_txids.len() < 2 {
            return Ok(no_actions());
        }
        self.phase = MakerPhase::Phase2Funded;
        let mut actions = no_actions();
        actions.push(MakerAction::Broadcast { which: Payload::PayoutX });
        actions.push(MakerAction::Broadcast { which: Payload::PayoutY });
        assert(actions.deep_view() =~= seq![
            MakerActionView::Broadcast { which: Payload::PayoutX },
            MakerActionView::Broadcast { which: Payload::PayoutY },
        ]);
        Ok(actions)
    }

    fn notify(&self, index: usize, to: Peer, actions: &mut Vec<MakerAction>)
        requires
            index < 2,
            self.payout_txids.len() == 2,
        ensures
            final(actions).deep_view() == old(actions).deep_view() + payout_notice(
                self@,
                index as int,
                to,
            ),
    {
        let mut keys: Vec<PubKey> = Vec::new();
        keys.push(self.payout_keys[2 * index].public.clone());
        keys.push(self.payout_keys[2 * index + 1].public.clone());
        let list = keys.as_slice();
        assert(list.deep_view().map_values(|k: Seq<u8>| hex_text(k)) =~= seq![
            hex_text(self@.payout_keys[2 * index].1),
            hex_text(self@.payout_keys[2 * index + 1].1),
        ]);
        actions.push(MakerAction::Send { to, line: keys_line(list) });
        actions.push(MakerAction::Send { to, line: txid_line(&self.payout_txids[index]) });
        assert(self@.payout_txids[index as int] == self.payout_txids[index as int]@);
        assert(actions.deep_view() =~= old(actions).deep_view() + payout_notice(
            self@,
            index as int,
            to,
        ));
    }

    fn on_done(&mut self) -> (answer: Result<Vec<MakerAction>, Abort>)
        ensures
            maker_stepped(maker_on_done(old(self)@), final(self)@, answer),
    {
        match self.phase {
            MakerPhase::Phase2Funded => {
                if self.payout_txids.len() != 2 {
                    return self.aborts(Abort::UnexpectedEvent);
                }
                let mut actions = no_actions();
                self.notify(0, Peer::UserX, &mut actions);
                self.notify(1, Peer::UserY, &mut actions);
                assert(actions.deep_view() =~= payout_notice(self@, 0, Peer::UserX) + payout_notice(
                    self@,
                    1,
                    Peer::UserY,
                ));
                self.phase = MakerPhase::Phase2Notified;
                Ok(actions)
            },
            MakerPhase::Phase2Notified => {
                self.phase = MakerPhase::AwaitingHashlockKeys;
                self.handed = Vec::new();
                assert(self@.handed =~= Seq::empty());
                Ok(no_actions())
            },
            MakerPhase::SecretRevealed => {
                self.phase = MakerPhase::AwaitingFinalKeys;
                self.handed = Vec::new();
                assert(self@.handed =~= Seq::empty());
                Ok(no_actions())
            },
            _ => self.aborts(Abort::UnexpectedEvent),
        }
    }

    fn handed_with(&self, key: PrivKey) -> (all: Vec<PrivKey>)
        ensures
            all.deep_view() == self@.handed.push(key@),
    {
        let mut all: Vec<PrivKey> = Vec::new();
        let mut i: usize = 0;
        while i < self.handed.len()
            invariant
                i <= self.handed.len(),
                all.len() == i,
                forall|j: int| 0 <= j < i ==> all[j]@ == self.handed[j]@,
            decreases self.handed.len() - i,
        {
            all.push(self.handed[i].clone());
            i += 1;
        }
        all.push(key);
        assert(all.deep_view() =~= self@.handed.push(key@));
        all
    }

    fn reveal_to(&self, index: usize, to: Peer, actions: &mut Vec<MakerAction>)
        requires
            index < 2,
        ensures
            final(actions).deep_view() == old(actions).deep_view() + secret_for(
                self@,
                index as int,
                to,
            ),
    {
        actions.push(MakerAction::SendPreimage { to, preimage: self.preimage });
        actions.push(MakerAction::Send { to, line: self.payout_keys[2 * index].private.wif.clone() });
        assert(actions.deep_view() =~= old(actions).deep_view() + secret_for(
            self@,
            index as int,
            to,
        ));
    }

    fn on_private_key(&mut self, line: String) -> (answer: Result<Vec<MakerAction>, Abort>)
        ensures
            maker_stepped(maker_on_private_key(old(self)@, line@), final(self)@, answer),
    {
        let hashlock = match self.phase {
            MakerPhase::AwaitingHashlockKeys => true,
            MakerPhase::AwaitingFinalKeys => false,
            _ => {
                return self.aborts(Abort::UnexpectedEvent);
            },
        };
        if self.handed.len() >= 2 {
            return self.aborts(Abort::UnexpectedEvent);
        }
        let key = parse_private_key(line.as_str());
        if derive_public_key(&key).is_none() {
            return self.aborts(Abort::MalformedKey);
        }
        let all = self.handed_with(key);
        if all.len() < 2 {
            self.handed = all;
            return Ok(no_actions());
        }
        if self.users.len() != 2 || self.users[0].keys.len() != 3 || self.users[1].keys.len() != 3 {
            return self.aborts(Abort::UnexpectedEvent);
        }
        let path: usize = if hashlock {
            2
        } else {
            0
        };
        let mut expected: Vec<PubKey> = Vec::new();
        expected.push(self.users[0].keys[path].clone());
        expected.push(self.users[1].keys[path].clone());
        assert(expected.deep_view() =~= expected_keys(self@, path as int).unwrap()) by {
            assert(self@.users[0].keys == self.users[0].keys.deep_view());
            assert(self@.users[1].keys == self.users[1].keys.deep_view());
        }
        let ghost wanted = expected.deep_view();
        match check_prv_keys(&all, expected) {
            Ok(()) => {
                assert forall|i: int| 0 <= i < all.deep_view().len() implies key_accepted(
                    #[trigger] all.deep_view()[i],
                    wanted,
                ) by {
                    assert(all.deep_view()[i] == all[i]@);
                }
            },
            Err(e) => {
                let ghost bad = choose|i: int|
                    0 <= i < all.len() && !key_accepted(#[trigger] all[i]@, wanted);
                assert(all.deep_view()[bad] == all[bad]@);
                return self.aborts(e);
            },
        }
        if hashlock {
            let mut actions = no_actions();
            self.reveal_to(0, Peer::UserX, &mut actions);
            self.reveal_to(1, Peer::UserY, &mut actions);
            assert(actions.deep_view() =~= secret_for(self@, 0, Peer::UserX) + secret_for(
                self@,
                1,
                Peer::UserY,
            ));
            self.handed = all;
            self.phase = MakerPhase::SecretRevealed;
            Ok(actions)
        } else {
            if self.spent > self.received {
                return self.aborts(Abort::Amount);
            }
            self.handed = all;
            self.profit = Some(self.received - self.spent);
            self.phase = MakerPhase::SwapComplete;
            Ok(no_actions())
        }
    }

    /// Takes one event and answers with the actions to carry out, or with the reason
    /// for which the session is aborted.
    pub fn step(&mut self, event: MakerEvent) -> (answer: Result<Vec<MakerAction>, Abort>)
        ensures
            maker_stepped(maker_next(old(self)@, event@), final(self)@, answer),
    {
        match self.phase {
            MakerPhase::SwapComplete | MakerPhase::Aborted => {
                return Err(Abort::UnexpectedEvent);
            },
            _ => {},
        }
        match event {
            MakerEvent::Failed => self.aborts(Abort::Collaborator),
            MakerEvent::TimedOut => self.aborts(Abort::Timeout),
            MakerEvent::Connected => self.on_connected(),
            MakerEvent::UserData { keys, descriptor, outpoint, input, refund_address } => match self.phase {
                MakerPhase::AwaitingUserData => self.on_user_data(
                    keys,
                    descriptor,
                    outpoint,
                    input,
                    refund_address,
                ),
                _ => self.aborts(Abort::UnexpectedEvent),
            },
            MakerEvent::FundingBuilt(t) => match self.phase {
                MakerPhase::ContractBuilt => self.on_funding_built(t),
                _ => self.aborts(Abort::UnexpectedEvent),
            },
            MakerEvent::RefundBuilt(t) => match self.phase {
                MakerPhase::ContractBuilt => self.on_refund_built(t),
                _ => self.aborts(Abort::UnexpectedEvent),
            },
            MakerEvent::Signed(t) => self.on_signed(t),
            MakerEvent::Finalized(t) => self.on_finalized(t),
            MakerEvent::SecondUserData { keys } => match self.phase {
                MakerPhase::AwaitingPhase2Connections => self.on_second_user_data(keys),
                _ => self.aborts(Abort::UnexpectedEvent),
            },
            MakerEvent::ContractFunded(t) => match self.phase {
                MakerPhase::Phase2ContractBuilt => self.on_contract_funded(t),
                _ => self.aborts(Abort::UnexpectedEvent),
            },
            MakerEvent::Done => self.on_done(),
            MakerEvent::PrivateKey { line } => self.on_private_key(line),
        }
    }
}

/// The place of a phase in the order in which a session passes through the phases.
pub open spec fn maker_rank(phase: MakerPhase) -> int {
    match phase {
        MakerPhase::AwaitingPhase1Connections => 0,
        MakerPhase::AwaitingUserData => 1,
        MakerPhase::ContractBuilt => 2,
        MakerPhase::FundingRefundSent => 3,
        MakerPhase::RefundCollected => 4,
        MakerPhase::RefundFinalized => 5,
        MakerPhase::FundingCollected => 6,
        MakerPhase::FundingFinalized => 7,
        MakerPhase::AwaitingPhase2Connections => 8,
        MakerPhase::Phase2ContractBuilt => 9,
        MakerPhase::Phase2Funded => 10,
        MakerPhase::Phase2Notified => 11,
        MakerPhase::AwaitingHashlockKeys => 12,
        MakerPhase::SecretRevealed => 13,
        MakerPhase::AwaitingFinalKeys => 14,
        MakerPhase::SwapComplete => 15,
        MakerPhase::Aborted => 16,
    }
}

/// A step that does not abort leaves the session in its phase or takes it to the
/// next: no phase is skipped, and none is gone back to.
pub proof fn lemma_maker_moves_one_phase(m: MakerView, event: MakerEventView)
    requires
        maker_next(m, event).actions is Ok,
    ensures
        maker_rank(maker_next(m, event).state.phase) == maker_rank(m.phase) || maker_rank(
            maker_next(m, event).state.phase,
        ) == maker_rank(m.phase) + 1,
{
}

/// A step that aborts leaves the session aborted, with the reason it answers, and a
/// session that is aborted or complete is changed by no event: nothing is retried.
pub proof fn lemma_maker_abort_is_final(m: MakerView, event: MakerEventView)
    ensures
        (maker_next(m, event).actions is Err && m.phase != MakerPhase::Aborted && m.phase
            != MakerPhase::SwapComplete) ==> maker_next(m, event).state.phase == MakerPhase::Aborted
            && maker_next(m, event).state.abort == Some(maker_next(m, event).actions->Err_0),
        m.phase == MakerPhase::Aborted || m.phase == MakerPhase::SwapComplete ==> maker_next(
            m,
            event,
        ).state == m && maker_next(m, event).actions is Err,
{
}

/// In the first contract as the maker lays it out, if its nine keys are distinct,
/// every participant's key of a spending path stands once in that path.
pub proof fn lemma_layout_gives_each_its_path(a: Seq<Seq<u8>>, b: Seq<Seq<u8>>, maker: Seq<Seq<u8>>)
    requires
        a.len() == 3,
        b.len() == 3,
        maker.len() == 3,
        pairwise_distinct(contract_layout(a, b, maker)),
    ensures
        crate::keys::contract_keys_valid(contract_layout(a, b, maker), a[0], a[1], a[2]),
        crate::keys::contract_keys_valid(contract_layout(a, b, maker), b[0], b[1], b[2]),
        crate::keys::contract_keys_valid(contract_layout(a, b, maker), maker[0], maker[1], maker[2]),
{
    let keys = contract_layout(a, b, maker);
    reveal_with_fuel(crate::keys::occurrences, 4);
    assert forall|path: int| 0 <= path < 3 implies crate::keys::occurrences(
        #[trigger] crate::keys::path_keys(keys, path),
        a[path],
    ) == 1 && crate::keys::occurrences(crate::keys::path_keys(keys, path), b[path]) == 1
        && crate::keys::occurrences(crate::keys::path_keys(keys, path), maker[path]) == 1 by {
        let three = crate::keys::path_keys(keys, path);
        assert(three =~= seq![a[path], b[path], maker[path]]);
        assert(keys[3 * path] != keys[3 * path + 1]);
        assert(keys[3 * path] != keys[3 * path + 2]);
        assert(keys[3 * path + 1] != keys[3 * path + 2]);
        assert(three.drop_last() =~= seq![a[path], b[path]]);
        assert(three.drop_last().drop_last() =~= seq![a[path]]);
        assert(three.drop_last().drop_last().drop_last() =~= Seq::<Seq<u8>>::empty());
    }
    assert(crate::keys::path_keys(keys, 0).len() == 3);
    assert(crate::keys::path_keys(keys, 1).len() == 3);
    assert(crate::keys::path_keys(keys, 2).len() == 3);
}

/// Whenever the maker builds the first contract, no key occurs twice among its nine
/// keys, and both users' keys and the maker's own stand once each in the spending path
/// they were made for.
pub proof fn lemma_built_contract_keys(m: MakerView, event: MakerEventView)
    requires
        m.keys.len() == 3,
        m.phase == MakerPhase::AwaitingUserData,
        maker_next(m, event).state.phase == MakerPhase::ContractBuilt,
    ensures
        ({
            let built = maker_next(m, event).state;
            &&& built.users.len() == 2
            &&& built.contract_keys == contract_layout(
                built.users[0].keys,
                built.users[1].keys,
                public_parts(built.keys),
            )
            &&& pairwise_distinct(built.contract_keys)
            &&& crate::keys::contract_keys_valid(
                built.contract_keys,
                built.users[0].keys[0],
                built.users[0].keys[1],
                built.users[0].keys[2],
            )
            &&& crate::keys::contract_keys_valid(
                built.contract_keys,
                built.users[1].keys[0],
                built.users[1].keys[1],
                built.users[1].keys[2],
            )
            &&& crate::keys::contract_keys_valid(
                built.contract_keys,
                built.keys[0].1,
                built.keys[1].1,
                built.keys[2].1,
            )
        }),
{
    let built = maker_next(m, event).state;
    lemma_layout_gives_each_its_path(
        built.users[0].keys,
        built.users[1].keys,
        public_parts(built.keys),
    );
}

/// The maker takes the users' signatures on the funding, has them combined, and
/// hands the funding out or to the network, only after the finalized refund went out
/// to both users: each of these happens only in a phase that follows it.
pub proof fn lemma_refund_before_funding(m: MakerView, event: MakerEventView)
    requires
        maker_next(m, event).actions matches Ok(actions) && (actions.contains(
            MakerActionView::FinalizeFunding,
        ) || actions.contains(MakerActionView::Broadcast { which: Payload::FinalFunding })
            || actions.contains(
            MakerActionView::SendTemplate { to: Peer::UserA, which: Payload::FinalFunding },
        ) || actions.contains(
            MakerActionView::SendTemplate { to: Peer::UserB, which: Payload::FinalFunding },
        )),
    ensures
        m.phase == MakerPhase::RefundFinalized || m.phase == MakerPhase::FundingCollected,
        maker_rank(m.phase) >= maker_rank(MakerPhase::RefundFinalized),
{
    let actions = maker_next(m, event).actions->Ok_0;
    if actions.contains(MakerActionView::FinalizeFunding) {
        let i = choose|i: int| 0 <= i < actions.len() && actions[i] == MakerActionView::FinalizeFunding;
        assert(actions[i] == MakerActionView::FinalizeFunding);
    } else if actions.contains(MakerActionView::Broadcast { which: Payload::FinalFunding }) {
        let i = choose|i: int|
            0 <= i < actions.len() && actions[i] == (MakerActionView::Broadcast {
                which: Payload::FinalFunding,
            });
        assert(actions[i] == (MakerActionView::Broadcast { which: Payload::FinalFunding }));
    } else if actions.contains(
        MakerActionView::SendTemplate { to: Peer::UserA, which: Payload::FinalFunding },
    ) {
        let i = choose|i: int|
            0 <= i < actions.len() && actions[i] == (MakerActionView::SendTemplate {
                to: Peer::UserA,
                which: Payload::FinalFunding,
            });
        assert(actions[i] == (MakerActionView::SendTemplate {
            to: Peer::UserA,
            which: Payload::FinalFunding,
        }));
    } else {
        let i = choose|i: int|
            0 <= i < actions.len() && actions[i] == (MakerActionView::SendTemplate {
                to: Peer::UserB,
                which: Payload::FinalFunding,
            });
        assert(actions[i] == (MakerActionView::SendTemplate {
            to: Peer::UserB,
            which: Payload::FinalFunding,
        }));
    }
}

/// The maker reveals the preimage only in the step in which the second of two
/// handed-over private keys arrived and both proved to belong to the users' hashlock
/// keys, each to exactly one of them.
pub proof fn lemma_secret_revealed_after_keys(m: MakerView, event: MakerEventView, to: Peer, preimage: Seq<u8>)
    requires
        maker_next(m, event).actions matches Ok(actions) && actions.contains(
            MakerActionView::SendPreimage { to, preimage },
        ),
    ensures
        m.phase == MakerPhase::AwaitingHashlockKeys,
        preimage == m.preimage,
        event matches MakerEventView::PrivateKey { line } && expected_keys(m, 2) matches Some(
            expected,
        ) && all_accepted(m.handed.push(trimmed(line)), expected),
{
    let actions = maker_next(m, event).actions->Ok_0;
    let i = choose|i: int|
        0 <= i < actions.len() && actions[i] == (MakerActionView::SendPreimage { to, preimage });
    assert(actions[i] == (MakerActionView::SendPreimage { to, preimage }));
}

/// A handed-over private key that belongs to none of the expected public keys ends
/// the session in the step in which the keys are checked; nothing is revealed.
pub proof fn lemma_unmatched_key_aborts(m: MakerView, line: Seq<char>)
    requires
        m.phase == MakerPhase::AwaitingHashlockKeys || m.phase == MakerPhase::AwaitingFinalKeys,
        m.handed.len() == 1,
        expected_keys(m, if m.phase == MakerPhase::AwaitingHashlockKeys { 2int } else { 0int })
            matches Some(expected) && !key_accepted(trimmed(line), expected),
    ensures
        maker_next(m, MakerEventView::PrivateKey { line }).actions is Err,
        maker_next(m, MakerEventView::PrivateKey { line }).state.phase == MakerPhase::Aborted,
{
    let handed = m.handed.push(trimmed(line));
    assert(handed[1] == trimmed(line));
}

/// When a swap completes, the maker's profit is what the first contract received less
/// what the second contracts cost.
pub proof fn lemma_profit(m: MakerView, event: MakerEventView)
    requires
        m.phase != MakerPhase::SwapComplete,
        maker_next(m, event).state.phase == MakerPhase::SwapComplete,
    ensures
        m.phase == MakerPhase::AwaitingFinalKeys,
        m.spent <= m.received,
        maker_next(m, event).state.profit == Some((m.received - m.spent) as u64),
{
}

/// What the second contracts cost is added up as they are funded. The maker goes on
/// only with a transaction of which exactly one output pays the contract, and pays it
/// the fixed amount; what it costs is that amount and its fee.
pub proof fn lemma_spent_adds_up(m: MakerView, t: TxTemplateView)
    requires
        m.phase == MakerPhase::Phase2ContractBuilt,
        maker_next(m, MakerEventView::ContractFunded(t)).actions is Ok,
    ensures
        payout_as_asked(t, m.second_users[m.payout_txids.len() as int].script),
        fee_of(t) matches Some(fee) && maker_next(m, MakerEventView::ContractFunded(t)).state.spent
            == m.spent + PAYOUT_AMOUNT + fee,
{
    lemma_paid_to_nonnegative(
        t.unsigned_tx.output,
        m.second_users[m.payout_txids.len() as int].script,
        t.unsigned_tx.output.len() as int,
    );
}

/// The kinds of input that a session can wait for.
#[derive(Debug, Clone, Copy, PartialEq, Eq, Structural)]
pub enum MakerInput {
    /// A peer that connects.
    Connection,
    /// The data of a user of the first phase.
    UserData,
    /// What the wallet built, combined or funded.
    WalletResult,
    /// A template that a user signed.
    SignedTemplate,
    /// The keys of a user of the second phase.
    SecondUserData,
    /// That the actions asked for last are carried out.
    Acknowledgement,
    /// A private key that a user of the first phase hands over.
    PrivateKey,
    /// Nothing: the session is over.
    Nothing,
}

/// What a session waits for.
pub open spec fn maker_awaits(m: MakerView) -> MakerInput {
    match m.phase {
        MakerPhase::AwaitingPhase1Connections | MakerPhase::FundingFinalized => MakerInput::Connection,
        MakerPhase::AwaitingUserData => MakerInput::UserData,
        MakerPhase::ContractBuilt | MakerPhase::RefundCollected | MakerPhase::FundingCollected
        | MakerPhase::Phase2ContractBuilt => MakerInput::WalletResult,
        MakerPhase::FundingRefundSent | MakerPhase::RefundFinalized => MakerInput::SignedTemplate,
        MakerPhase::AwaitingPhase2Connections => if m.connections == 2 {
            MakerInput::SecondUserData
        } else {
            MakerInput::Connection
        },
        MakerPhase::Phase2Funded | MakerPhase::Phase2Notified | MakerPhase::SecretRevealed => MakerInput::Acknowledgement,
        MakerPhase::AwaitingHashlockKeys | MakerPhase::AwaitingFinalKeys => MakerInput::PrivateKey,
        MakerPhase::SwapComplete | MakerPhase::Aborted => MakerInput::Nothing,
    }
}

/// The peer from whom the awaited input is due: users are heard in the order in which
/// they connected. `None` where the input comes from no peer.
pub open spec fn maker_awaits_from(m: MakerView) -> Option<Peer> {
    match maker_awaits(m) {
        MakerInput::UserData => Some(if m.users.len() == 0 { Peer::UserA } else { Peer::UserB }),
        MakerInput::SignedTemplate => Some(if m.collected == 0 { Peer::UserA } else { Peer::UserB }),
        MakerInput::SecondUserData => Some(
            if m.second_users.len() == 0 {
                Peer::UserX
            } else {
                Peer::UserY
            },
        ),
        MakerInput::PrivateKey => Some(if m.handed.len() == 0 { Peer::UserA } else { Peer::UserB }),
        _ => None,
    }
}

/// The kind of input that an event is; a failure is of no kind.
pub open spec fn maker_input_of(event: MakerEventView) -> Option<MakerInput> {
    match event {
        MakerEventView::Connected => Some(MakerInput::Connection),
        MakerEventView::UserData { .. } => Some(MakerInput::UserData),
        MakerEventView::FundingBuilt(_) | MakerEventView::RefundBuilt(_) | MakerEventView::Finalized(
            _,
        ) | MakerEventView::ContractFunded(_) => Some(MakerInput::WalletResult),
        MakerEventView::Signed(_) => Some(MakerInput::SignedTemplate),
        MakerEventView::SecondUserData { .. } => Some(MakerInput::SecondUserData),
        MakerEventView::Done => Some(MakerInput::Acknowledgement),
        MakerEventView::PrivateKey { .. } => Some(MakerInput::PrivateKey),
        MakerEventView::Failed | MakerEventView::TimedOut => None,
    }
}

fn next_of_first_phase(none_heard: bool) -> (peer: Option<Peer>)
    ensures
        peer == Some(if none_heard { Peer::UserA } else { Peer::UserB }),
{
    if none_heard {
        Some(Peer::UserA)
    } else {
        Some(Peer::UserB)
    }
}

impl Maker {
    /// What the session waits for, and from whom.
    pub fn awaits(&self) -> (input: (MakerInput, Option<Peer>))
        ensures
            input.0 == maker_awaits(self@),
            input.1 == maker_awaits_from(self@),
    {
        match self.phase {
            MakerPhase::AwaitingPhase1Connections | MakerPhase::FundingFinalized => (
                MakerInput::Connection,
                None,
            ),
            MakerPhase::AwaitingUserData => (MakerInput::UserData, next_of_first_phase(self.users.len() == 0)),
            MakerPhase::ContractBuilt | MakerPhase::RefundCollected | MakerPhase::FundingCollected
            | MakerPhase::Phase2ContractBuilt => (MakerInput::WalletResult, None),
            MakerPhase::FundingRefundSent | MakerPhase::RefundFinalized => (
                MakerInput::SignedTemplate,
                next_of_first_phase(self.collected == 0),
            ),
            MakerPhase::AwaitingPhase2Connections => if self.connections == 2 {
                (
                    MakerInput::SecondUserData,
                    Some(
                        if self.second_users.len() == 0 {
                            Peer::UserX
                        } else {
                            Peer::UserY
                        },
                    ),
                )
            } else {
                (MakerInput::Connection, None)
            },
            MakerPhase::Phase2Funded | MakerPhase::Phase2Notified | MakerPhase::SecretRevealed => (
                MakerInput::Acknowledgement,
                None,
            ),
            MakerPhase::AwaitingHashlockKeys | MakerPhase::AwaitingFinalKeys => (
                MakerInput::PrivateKey,
                next_of_first_phase(self.handed.len() == 0),
            ),
            MakerPhase::SwapComplete | MakerPhase::Aborted => (MakerInput::Nothing, None),
        }
    }
}

/// A session takes only the kind of input that it waits for: every other event ends it.
pub proof fn lemma_maker_takes_only_what_it_awaits(m: MakerView, event: MakerEventView)
    requires
        maker_next(m, event).actions is Ok,
    ensures
        maker_input_of(event) == Some(maker_awaits(m)),
{
}

/// The maker builds a second contract only if its four keys differ from each other.
pub proof fn lemma_payout_contract_keys_differ(m: MakerView, keys: Seq<char>)
    requires
        m.phase == MakerPhase::AwaitingPhase2Connections,
        maker_next(m, MakerEventView::SecondUserData { keys }).actions is Ok,
    ensures
        ({
            let index = m.second_users.len() as int;
            let user = maker_next(m, MakerEventView::SecondUserData { keys }).state.second_users[index];
            pairwise_distinct(
                seq![
                    user.multisig_key,
                    m.payout_keys[2 * index].1,
                    m.payout_keys[2 * index + 1].1,
                    user.hashlock_key,
                ],
            )
        }),
{
    let index = m.second_users.len() as int;
    let list = key_list_in(keys, 2)->Ok_0;
    assert(payout_contract_keys(m, index, list) =~= seq![
        list[0],
        m.payout_keys[2 * index].1,
        m.payout_keys[2 * index + 1].1,
        list[1],
    ]);
}

/// The maker goes on only with a funding transaction that is what it asked for: it
/// spends the users' collaterals, each once and nothing else, and its one output pays
/// the contract what the collaterals are worth less the fee.
pub proof fn lemma_built_funding_is_as_asked(m: MakerView, t: TxTemplateView)
    requires
        m.phase == MakerPhase::ContractBuilt,
        maker_next(m, MakerEventView::FundingBuilt(t)).actions is Ok,
    ensures
        compiled_script(first_descriptor(m)) matches Some(script) && funding_as_asked(
            t,
            script,
            user_collaterals(m.users),
        ),
        fee_of(t) matches Some(fee) && t.unsigned_tx.output[0].value + fee == collateral_total(
            user_collaterals(m.users),
            m.users.len() as int,
        ),
        maker_next(m, MakerEventView::FundingBuilt(t)).state.funding == Some(t),
{
}

/// The maker sends out only a refund transaction that is what it asked for: it spends
/// the funding output alone, carries the timelock, leaves the agreed fee, and pays
/// every user once, the collateral less its share of the fees. What it pays and its
/// fee are what the funding output holds.
pub proof fn lemma_built_refund_is_as_asked(m: MakerView, t: TxTemplateView)
    requires
        m.phase == MakerPhase::ContractBuilt,
        maker_next(m, MakerEventView::RefundBuilt(t)).actions is Ok,
    ensures
        m.funding matches Some(funding) && refund_request_for(
            refund_recipients(m.users),
            funding,
        ) matches Ok(request) && refund_as_asked(t, request, funding),
        fee_of(t) == Some(crate::validation::REFUND_FEE),
{
}

} // verus!
