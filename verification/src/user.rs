//! The user's side of a swap, as a state machine. The application feeds it what
//! arrives from the maker and what its wallet reports, and carries out the actions it
//! answers with. The machine decides; it never signs, sends or connects itself.
//!
//! A user signs the refund only after the contract keys and the funding and refund
//! pair passed every check, signs the funding only after the maker returned the
//! finalized refund, and hands over its last key only after the revealed preimage
//! proved to hash to the commitment.

use crate::bytes::{bytes_eq, hex_text};
use crate::commitment::{sha256_digest, Commitment, CommitmentView};
use crate::descriptor::{
    compiled_script, descriptor_script, key_texts, maker2users_contract_desc, maker2users_text,
    signing_texts, users2maker_contract_desc, users2maker_signing_desc, users2maker_text,
};
use crate::error::Abort;
use crate::keys::{
    all_distinct, check_contract_keys, check_prv_keys, contract_keys_valid, key_accepted,
    nine_keys, pairwise_distinct, KeyPair, PubKey,
};
use crate::transaction::{transaction_id, TxTemplate, TxTemplateView};
use crate::validation::{validate_pair, verdict, Collateral, CollateralView};
use crate::wire::{
    hash_in, joined, key_list_in, keys_line, parse_hash, parse_private_key, parse_txid,
    read_contract_keys, trimmed, txid_in, Address,
};
use vstd::prelude::*;

verus! {

/// Which of its two identities a user acts under. The maker must not learn that both
/// are the same user.
#[derive(Debug, Clone, Copy, PartialEq, Eq, Structural)]
pub enum Identity {
    First,
    Second,
}

/// How far a user has come.
#[derive(Debug, Clone, Copy, PartialEq, Eq, Structural)]
pub enum UserPhase {
    Connected,
    DataSent,
    ContractReceived,
    Validated,
    RefundSigned,
    RefundFinalized,
    FundingSigned,
    FundingFinalized,
    Reconnected,
    SecondContractSent,
    AwaitingMakerFunding,
    HashlockKeyReleased,
    SecretReceived,
    FinalKeyReleased,
    Complete,
    Aborted,
}

/// What the application is to do next.
#[derive(Debug, Clone, PartialEq, Eq)]
pub enum UserAction {
    /// Write a line to the maker under the given identity.
    Send { identity: Identity, line: String },
    /// Send the collateral proof: descriptor, output reference and input data.
    SendCollateral,
    /// Sign the refund with the wallet of this descriptor and send it.
    SignRefund { descriptor: String },
    /// Sign the funding with the wallet that holds the collateral and send it.
    SignFunding,
    /// Open the second connection.
    Reconnect,
    /// Look up the maker's transaction and see that it funds this contract.
    VerifyFunding { txid: [u8; 32], descriptor: String },
}

/// The mathematical view of `UserAction`: the same value over sequences.
pub enum UserActionView {
    Send { identity: Identity, line: Seq<char> },
    SendCollateral,
    SignRefund { descriptor: Seq<char> },
    SignFunding,
    Reconnect,
    VerifyFunding { txid: Seq<u8>, descriptor: Seq<char> },
}

impl DeepView for UserAction {
    type V = UserActionView;

    open spec fn deep_view(&self) -> UserActionView {
        match self {
            UserAction::Send { identity, line } => UserActionView::Send {
                identity: *identity,
                line: line@,
            },
            UserAction::SendCollateral => UserActionView::SendCollateral,
            UserAction::SignRefund { descriptor } => UserActionView::SignRefund {
                descriptor: descriptor@,
            },
            UserAction::SignFunding => UserActionView::SignFunding,
            UserAction::Reconnect => UserActionView::Reconnect,
            UserAction::VerifyFunding { txid, descriptor } => UserActionView::VerifyFunding {
                txid: txid@,
                descriptor: descriptor@,
            },
        }
    }
}

/// What happened.
#[derive(Debug, Clone, PartialEq, Eq)]
pub enum UserEvent {
    /// The actions asked for last were carried out.
    Done,
    /// The maker announced the contract: the line of its nine keys and the line of the hash.
    ContractData { keys: String, hash: String },
    /// The maker sent the funding and the refund template.
    Templates { funding: TxTemplate, refund: TxTemplate },
    /// The maker sent a finalized template.
    Template(TxTemplate),
    /// The maker announced the second contract: the line of its two keys and the line
    /// of the identifier of the transaction that funds it.
    SecondContract { keys: String, txid: String },
    /// The maker revealed the preimage and sent the line of its private key.
    Secret { preimage: [u8; 32], key: String },
    /// The wallet or the transport failed.
    Failed,
    /// The peer that was waited for did not answer in time.
    TimedOut,
}

/// The mathematical view of `UserEvent`: the same value over sequences.
pub enum UserEventView {
    Done,
    ContractData { keys: Seq<char>, hash: Seq<char> },
    Templates { funding: TxTemplateView, refund: TxTemplateView },
    Template(TxTemplateView),
    SecondContract { keys: Seq<char>, txid: Seq<char> },
    Secret { preimage: Seq<u8>, key: Seq<char> },
    Failed,
    TimedOut,
}

impl View for UserEvent {
    type V = UserEventView;

    open spec fn view(&self) -> UserEventView {
        match self {
            UserEvent::Done => UserEventView::Done,
            UserEvent::ContractData { keys, hash } => UserEventView::ContractData {
                keys: keys@,
                hash: hash@,
            },
            UserEvent::Templates { funding, refund } => UserEventView::Templates {
                funding: funding@,
                refund: refund@,
            },
            UserEvent::Template(t) => UserEventView::Template(t@),
            UserEvent::SecondContract { keys, txid } => UserEventView::SecondContract {
                keys: keys@,
                txid: txid@,
            },
            UserEvent::Secret { preimage, key } => UserEventView::Secret {
                preimage: preimage@,
                key: key@,
            },
            UserEvent::Failed => UserEventView::Failed,
            UserEvent::TimedOut => UserEventView::TimedOut,
        }
    }
}

/// A user's session.
#[derive(Debug, Clone, PartialEq, Eq)]
pub struct UserClient {
    pub phase: UserPhase,
    /// Why the session was aborted, once it was.
    pub abort: Option<Abort>,
    /// The user's keys of the first contract: one for each spending path.
    pub keys: [KeyPair; 3],
    /// The user's keys of the second contract: multisig and hashlock.
    pub second_keys: [KeyPair; 2],
    pub collateral: Collateral,
    pub refund_address: Address,
    /// The nine keys of the first contract, once the maker announced them.
    pub contract_keys: Vec<PubKey>,
    /// The commitment, once the maker announced its hash.
    pub commitment: Option<Commitment>,
    pub funding_txid: [u8; 32],
    pub refund_txid: [u8; 32],
    /// The maker's keys of the second contract: multisig and timelock.
    pub maker_keys: Vec<PubKey>,
    pub payout_txid: [u8; 32],
}

/// The mathematical view of `UserClient`: the same value over sequences.
pub struct UserView {
    pub phase: UserPhase,
    pub abort: Option<Abort>,
    pub keys: Seq<(Seq<char>, Seq<u8>)>,
    pub second_keys: Seq<(Seq<char>, Seq<u8>)>,
    pub collateral: CollateralView,
    pub refund_address: Seq<char>,
    pub refund_script: Seq<u8>,
    pub contract_keys: Seq<Seq<u8>>,
    pub commitment: Option<CommitmentView>,
    pub funding_txid: Seq<u8>,
    pub refund_txid: Seq<u8>,
    pub maker_keys: Seq<Seq<u8>>,
    pub payout_txid: Seq<u8>,
}

impl View for UserClient {
    type V = UserView;

    open spec fn view(&self) -> UserView {
        UserView {
            phase: self.phase,
            abort: self.abort,
            keys: self.keys.deep_view(),
            second_keys: self.second_keys.deep_view(),
            collateral: self.collateral@,
            refund_address: self.refund_address.text@,
            refund_script: self.refund_address.script@,
            contract_keys: self.contract_keys.deep_view(),
            commitment: self.commitment.deep_view(),
            funding_txid: self.funding_txid@,
            refund_txid: self.refund_txid@,
            maker_keys: self.maker_keys.deep_view(),
            payout_txid: self.payout_txid@,
        }
    }
}

/// A state and what the step that led to it asks for, or why it aborted.
pub struct UserOutcome {
    pub state: UserView,
    pub actions: Result<Seq<UserActionView>, Abort>,
}

/// The session ends for `reason`.
pub open spec fn user_aborts(c: UserView, reason: Abort) -> UserOutcome {
    UserOutcome {
        state: UserView { phase: UserPhase::Aborted, abort: Some(reason), ..c },
        actions: Err(reason),
    }
}

/// The session moves on to `phase` and asks for `actions`.
pub open spec fn user_moves(c: UserView, phase: UserPhase, actions: Seq<UserActionView>) -> UserOutcome {
    UserOutcome { state: UserView { phase, ..c }, actions: Ok(actions) }
}

/// The hash that the maker committed to, as far as the user knows it.
pub open spec fn committed_hash(c: UserView) -> Seq<u8> {
    match c.commitment {
        Some(CommitmentView::Committed { hash }) => hash,
        Some(CommitmentView::Revealed { hash, .. }) => hash,
        None => Seq::empty(),
    }
}

/// The public keys of a list of key pairs.
pub open spec fn public_keys(pairs: Seq<(Seq<char>, Seq<u8>)>) -> Seq<Seq<u8>> {
    Seq::new(pairs.len(), |i: int| pairs[i].1)
}

/// The descriptor of the first contract as the user derives it from the announced keys.
pub open spec fn first_contract(c: UserView) -> Seq<char> {
    users2maker_text(key_texts(c.contract_keys), hex_text(committed_hash(c)))
}

/// The descriptor of the second contract as the user derives it: its own multisig key
/// and the maker's, the maker's timelock key, its own hashlock key.
pub open spec fn second_contract(c: UserView, maker_keys: Seq<Seq<u8>>) -> Seq<char> {
    maker2users_text(
        hex_text(c.second_keys[0].1),
        hex_text(maker_keys[0]),
        hex_text(maker_keys[1]),
        hex_text(c.second_keys[1].1),
        hex_text(committed_hash(c)),
    )
}

/// The maker announced the first contract.
pub open spec fn user_on_contract_data(c: UserView, keys: Seq<char>, hash: Seq<char>) -> UserOutcome {
    match key_list_in(keys, 9) {
        Err(e) => user_aborts(c, e),
        Ok(list) => match hash_in(hash) {
            Err(e) => user_aborts(c, e),
            Ok(h) => UserOutcome {
                state: UserView {
                    phase: UserPhase::ContractReceived,
                    contract_keys: list,
                    commitment: Some(CommitmentView::Committed { hash: h }),
                    ..c
                },
                actions: Ok(Seq::empty()),
            },
        },
    }
}

/// Why the announced keys are refused, if they are.
pub open spec fn keys_refused(c: UserView) -> Option<Abort> {
    if c.contract_keys.len() != 9 {
        Some(Abort::KeyCount)
    } else if !pairwise_distinct(c.contract_keys) {
        Some(Abort::DuplicateKeys)
    } else if !contract_keys_valid(c.contract_keys, c.keys[0].1, c.keys[1].1, c.keys[2].1) {
        Some(Abort::KeyNotInPath)
    } else {
        None
    }
}

/// The maker sent the funding and the refund. The user signs the refund only if the
/// keys and the pair pass every check.
pub open spec fn user_on_templates(c: UserView, funding: TxTemplateView, refund: TxTemplateView) -> UserOutcome {
    if c.commitment is None {
        user_aborts(c, Abort::UnexpectedEvent)
    } else if keys_refused(c) is Some {
        user_aborts(c, keys_refused(c).unwrap())
    } else {
        match compiled_script(first_contract(c)) {
            None => user_aborts(c, Abort::MalformedDescriptor),
            Some(script) => match verdict(
                funding,
                refund,
                transaction_id(funding.unsigned_tx),
                script,
                c.collateral,
                c.refund_script,
            ) {
                Err(rule) => user_aborts(c, Abort::Validation(rule)),
                Ok(()) => UserOutcome {
                    state: UserView {
                        phase: UserPhase::Validated,
                        funding_txid: transaction_id(funding.unsigned_tx),
                        refund_txid: transaction_id(refund.unsigned_tx),
                        ..c
                    },
                    actions: Ok(
                        seq![
                            UserActionView::SignRefund {
                                descriptor: users2maker_text(
                                    signing_texts(c.contract_keys, c.keys),
                                    hex_text(committed_hash(c)),
                                ),
                            },
                        ],
                    ),
                },
            },
        }
    }
}

/// The four keys of the second contract in the order of its descriptor.
pub open spec fn second_contract_keys(c: UserView, maker_keys: Seq<Seq<u8>>) -> Seq<Seq<u8>> {
    seq![c.second_keys[0].1, maker_keys[0], maker_keys[1], c.second_keys[1].1]
}

/// The maker announced the second contract. Its four keys must differ from each other.
pub open spec fn user_on_second_contract(c: UserView, keys: Seq<char>, txid: Seq<char>) -> UserOutcome {
    match key_list_in(keys, 2) {
        Err(e) => user_aborts(c, e),
        Ok(list) => match txid_in(txid) {
            Err(e) => user_aborts(c, e),
            Ok(id) => if !pairwise_distinct(second_contract_keys(c, list)) {
                user_aborts(c, Abort::DuplicateKeys)
            } else if c.commitment is None {
                user_aborts(c, Abort::UnexpectedEvent)
            } else if compiled_script(second_contract(c, list)) is None {
                user_aborts(c, Abort::MalformedDescriptor)
            } else {
                UserOutcome {
                    state: UserView {
                        phase: UserPhase::AwaitingMakerFunding,
                        maker_keys: list,
                        payout_txid: id,
                        ..c
                    },
                    actions: Ok(
                        seq![
                            UserActionView::VerifyFunding {
                                txid: id,
                                descriptor: second_contract(c, list),
                            },
                        ],
                    ),
                }
            },
        },
    }
}

/// The maker revealed the preimage and handed over its multisig key of the second
/// contract. The user hands over its last key only if the preimage hashes to the
/// commitment and the key is the maker's.
pub open spec fn user_on_secret(c: UserView, preimage: Seq<u8>, key: Seq<char>) -> UserOutcome {
    if c.commitment is None || c.maker_keys.len() != 2 {
        user_aborts(c, Abort::UnexpectedEvent)
    } else if sha256_digest(preimage) != committed_hash(c) {
        user_aborts(c, Abort::PreimageMismatch)
    } else if !key_accepted(trimmed(key), seq![c.maker_keys[0]]) {
        user_aborts(c, Abort::KeyMismatch)
    } else {
        UserOutcome {
            state: UserView {
                phase: UserPhase::SecretReceived,
                commitment: Some(CommitmentView::Revealed { hash: committed_hash(c), preimage }),
                ..c
            },
            actions: Ok(
                seq![UserActionView::Send { identity: Identity::First, line: c.keys[0].0 }],
            ),
        }
    }
}

/// The step of the user's state machine: the state that follows `c` upon `event`, and
/// the actions that the step asks for. A finished or aborted session stays as it is;
/// an event that the state does not expect aborts the session.
pub open spec fn user_next(c: UserView, event: UserEventView) -> UserOutcome {
    match (c.phase, event) {
        (UserPhase::Complete, _) | (UserPhase::Aborted, _) => UserOutcome {
            state: c,
            actions: Err(Abort::UnexpectedEvent),
        },
        (_, UserEventView::Failed) => user_aborts(c, Abort::Collaborator),
        (_, UserEventView::TimedOut) => user_aborts(c, Abort::Timeout),
        (UserPhase::Connected, UserEventView::Done) => user_moves(
            c,
            UserPhase::DataSent,
            seq![
                UserActionView::Send {
                    identity: Identity::First,
                    line: joined(key_texts(public_keys(c.keys))),
                },
                UserActionView::SendCollateral,
                UserActionView::Send { identity: Identity::First, line: c.refund_address },
            ],
        ),
        (UserPhase::DataSent, UserEventView::ContractData { keys, hash }) => user_on_contract_data(
            c,
            keys,
            hash,
        ),
        (UserPhase::ContractReceived, UserEventView::Templates { funding, refund }) => user_on_templates(
            c,
            funding,
            refund,
        ),
        (UserPhase::Validated, UserEventView::Done) => user_moves(c, UserPhase::RefundSigned, seq![]),
        (UserPhase::RefundSigned, UserEventView::Template(t)) => if transaction_id(t.unsigned_tx)
            == c.refund_txid {
            user_moves(c, UserPhase::RefundFinalized, seq![UserActionView::SignFunding])
        } else {
            user_aborts(c, Abort::TxidMismatch)
        },
        (UserPhase::RefundFinalized, UserEventView::Done) => user_moves(
            c,
            UserPhase::FundingSigned,
            seq![],
        ),
        (UserPhase::FundingSigned, UserEventView::Template(t)) => if transaction_id(t.unsigned_tx)
            == c.funding_txid {
            user_moves(c, UserPhase::FundingFinalized, seq![UserActionView::Reconnect])
        } else {
            user_aborts(c, Abort::TxidMismatch)
        },
        (UserPhase::FundingFinalized, UserEventView::Done) => user_moves(
            c,
            UserPhase::Reconnected,
            seq![
                UserActionView::Send {
                    identity: Identity::Second,
                    line: joined(key_texts(public_keys(c.second_keys))),
                },
            ],
        ),
        (UserPhase::Reconnected, UserEventView::Done) => user_moves(
            c,
            UserPhase::SecondContractSent,
            seq![],
        ),
        (UserPhase::SecondContractSent, UserEventView::SecondContract { keys, txid }) => user_on_second_contract(
            c,
            keys,
            txid,
        ),
        (UserPhase::AwaitingMakerFunding, UserEventView::Done) => user_moves(
            c,
            UserPhase::HashlockKeyReleased,
            seq![UserActionView::Send { identity: Identity::First, line: c.keys[2].0 }],
        ),
        (UserPhase::HashlockKeyReleased, UserEventView::Secret { preimage, key }) => user_on_secret(
            c,
            preimage,
            key,
        ),
        (UserPhase::SecretReceived, UserEventView::Done) => user_moves(
            c,
            UserPhase::FinalKeyReleased,
            seq![],
        ),
        (UserPhase::FinalKeyReleased, UserEventView::Done) => user_moves(c, UserPhase::Complete, seq![]),
        _ => user_aborts(c, Abort::UnexpectedEvent),
    }
}

/// The step `outcome` is what the machine did: it left the state `after` and answered `answer`.
pub open spec fn user_stepped(outcome: UserOutcome, after: UserView, answer: Result<Vec<UserAction>, Abort>) -> bool {
    &&& after == outcome.state
    &&& match answer {
        Ok(actions) => outcome.actions == Ok::<Seq<UserActionView>, Abort>(actions.deep_view()),
        Err(e) => outcome.actions == Err::<Seq<UserActionView>, Abort>(e),
    }
}

impl UserClient {
    /// A session that has just connected, with the keys, the collateral and the refund
    /// address that the user brings.
    pub fn new(
        keys: [KeyPair; 3],
        second_keys: [KeyPair; 2],
        collateral: Collateral,
        refund_address: Address,
    ) -> (client: UserClient)
        ensures
            client@ == (UserView {
                phase: UserPhase::Connected,
                abort: None,
                keys: keys.deep_view(),
                second_keys: second_keys.deep_view(),
                collateral: collateral@,
                refund_address: refund_address.text@,
                refund_script: refund_address.script@,
                contract_keys: Seq::empty(),
                commitment: None,
                funding_txid: Seq::new(32, |i: int| 0u8),
                refund_txid: Seq::new(32, |i: int| 0u8),
                maker_keys: Seq::empty(),
                payout_txid: Seq::new(32, |i: int| 0u8),
            }),
    {
        let client = UserClient {
            phase: UserPhase::Connected,
            abort: None,
            keys,
            second_keys,
            collateral,
            refund_address,
            contract_keys: Vec::new(),
            commitment: None,
            funding_txid: [0u8; 32],
            refund_txid: [0u8; 32],
            maker_keys: Vec::new(),
            payout_txid: [0u8; 32],
        };
        assert(client@.contract_keys =~= Seq::empty());
        assert(client@.maker_keys =~= Seq::empty());
        assert(client@.funding_txid =~= Seq::new(32, |i: int| 0u8));
        assert(client@.refund_txid =~= Seq::new(32, |i: int| 0u8));
        assert(client@.payout_txid =~= Seq::new(32, |i: int| 0u8));
        client
    }

    fn aborts(&mut self, reason: Abort) -> (answer: Result<Vec<UserAction>, Abort>)
        ensures
            user_stepped(user_aborts(old(self)@, reason), final(self)@, answer),
    {
        self.phase = UserPhase::Aborted;
        self.abort = Some(reason);
        Err(reason)
    }

    fn moves(&mut self, phase: UserPhase, actions: Vec<UserAction>) -> (answer: Result<
        Vec<UserAction>,
        Abort,
    >)
        ensures
            user_stepped(user_moves(old(self)@, phase, actions.deep_view()), final(self)@, answer),
    {
        self.phase = phase;
        Ok(actions)
    }

    fn hash(&self) -> (h: [u8; 32])
        ensures
            self.commitment is Some ==> h@ == committed_hash(self@),
    {
        match &self.commitment {
            Some(c) => c.hash(),
            None => [0u8; 32],
        }
    }

    fn public_line(pairs: &[KeyPair]) -> (line: String)
        ensures
            line@ == joined(key_texts(public_keys(pairs.deep_view()))),
    {
        let mut keys: Vec<PubKey> = Vec::new();
        let mut i: usize = 0;
        while i < pairs.len()
            invariant
                i <= pairs.len(),
                keys.len() == i,
                forall|j: int| 0 <= j < i ==> keys[j]@ == pairs[j].public@,
            decreases pairs.len() - i,
        {
            keys.push(pairs[i].public.clone());
            i += 1;
        }
        let list = keys.as_slice();
        assert(list.deep_view().map_values(|k: Seq<u8>| hex_text(k)) =~= key_texts(
            public_keys(pairs.deep_view()),
        ));
        keys_line(list)
    }

    fn on_contract_data(&mut self, keys: String, hash: String) -> (answer: Result<
        Vec<UserAction>,
        Abort,
    >)
        ensures
            user_stepped(user_on_contract_data(old(self)@, keys@, hash@), final(self)@, answer),
    {
        let list = match read_contract_keys(keys.as_str(), 9) {
            Ok(list) => list,
            Err(e) => {
                return self.aborts(e);
            },
        };
        let h = match parse_hash(hash.as_str()) {
            Ok(h) => h,
            Err(e) => {
                return self.aborts(e);
            },
        };
        self.contract_keys = list;
        self.commitment = Some(Commitment::committed(h));
        self.phase = UserPhase::ContractReceived;
        let actions: Vec<UserAction> = Vec::new();
        assert(actions.deep_view() =~= Seq::empty());
        Ok(actions)
    }

    fn on_templates(&mut self, funding: TxTemplate, refund: TxTemplate) -> (answer: Result<
        Vec<UserAction>,
        Abort,
    >)
        ensures
            user_stepped(user_on_templates(old(self)@, funding@, refund@), final(self)@, answer),
    {
        if self.commitment.is_none() {
            return self.aborts(Abort::UnexpectedEvent);
        }
        let keys = match nine_keys(&self.contract_keys) {
            Some(keys) => keys,
            None => {
                return self.aborts(Abort::KeyCount);
            },
        };
        match check_contract_keys(
            &keys,
            &self.keys[0].public,
            &self.keys[1].public,
            &self.keys[2].public,
        ) {
            Ok(()) => {},
            Err(e) => {
                return self.aborts(e);
            },
        }
        let hash = self.hash();
        let descriptor = users2maker_contract_desc(&keys, &hash);
        let script = match descriptor_script(descriptor.as_str()) {
            Some(script) => script,
            None => {
                return self.aborts(Abort::MalformedDescriptor);
            },
        };
        assert(script.deep_view() =~= script@);
        let funding_txid = funding.txid();
        match validate_pair(
            &funding,
            &refund,
            &funding_txid,
            script.as_slice(),
            &self.collateral,
            self.refund_address.script.as_slice(),
        ) {
            Ok(()) => {},
            Err(rule) => {
                return self.aborts(Abort::Validation(rule));
            },
        }
        let signing = users2maker_signing_desc(&keys, &hash, self.keys.as_slice());
        self.funding_txid = funding_txid;
        self.refund_txid = refund.txid();
        self.phase = UserPhase::Validated;
        let mut actions: Vec<UserAction> = Vec::new();
        actions.push(UserAction::SignRefund { descriptor: signing });
        assert(actions.deep_view() =~= seq![
            UserActionView::SignRefund {
                descriptor: users2maker_text(
                    signing_texts(old(self)@.contract_keys, old(self)@.keys),
                    hex_text(committed_hash(old(self)@)),
                ),
            },
        ]);
        Ok(actions)
    }

    fn on_final_template(&mut self, template: TxTemplate) -> (answer: Result<Vec<UserAction>, Abort>)
        requires
            old(self).phase == UserPhase::RefundSigned || old(self).phase
                == UserPhase::FundingSigned,
        ensures
            user_stepped(
                user_next(old(self)@, UserEventView::Template(template@)),
                final(self)@,
                answer,
            ),
    {
        let txid = template.txid();
        let mut actions: Vec<UserAction> = Vec::new();
        match self.phase {
            UserPhase::RefundSigned => {
                if !bytes_eq(txid.as_slice(), self.refund_txid.as_slice()) {
                    return self.aborts(Abort::TxidMismatch);
                }
                actions.push(UserAction::SignFunding);
                assert(actions.deep_view() =~= seq![UserActionView::SignFunding]);
                self.moves(UserPhase::RefundFinalized, actions)
            },
            _ => {
                if !bytes_eq(txid.as_slice(), self.funding_txid.as_slice()) {
                    return self.aborts(Abort::TxidMismatch);
                }
                actions.push(UserAction::Reconnect);
                assert(actions.deep_view() =~= seq![UserActionView::Reconnect]);
                self.moves(UserPhase::FundingFinalized, actions)
            },
        }
    }

    fn on_second_contract(&mut self, keys: String, txid: String) -> (answer: Result<
        Vec<UserAction>,
        Abort,
    >)
        ensures
            user_stepped(user_on_second_contract(old(self)@, keys@, txid@), final(self)@, answer),
    {
        let list = match read_contract_keys(keys.as_str(), 2) {
            Ok(list) => list,
            Err(e) => {
                return self.aborts(e);
            },
        };
        let id = match parse_txid(txid.as_str()) {
            Ok(id) => id,
            Err(e) => {
                return self.aborts(e);
            },
        };
        assert(list.deep_view()[0] == list[0]@ && list.deep_view()[1] == list[1]@);
        let mut four: Vec<PubKey> = Vec::new();
        four.push(self.second_keys[0].public.clone());
        four.push(list[0].clone());
        four.push(list[1].clone());
        four.push(self.second_keys[1].public.clone());
        let all = four.as_slice();
        assert(all.deep_view() =~= second_contract_keys(self@, list.deep_view()));
        if !all_distinct(all) {
            return self.aborts(Abort::DuplicateKeys);
        }
        if self.commitment.is_none() {
            return self.aborts(Abort::UnexpectedEvent);
        }
        let multisig = [self.second_keys[0].public.clone(), list[0].clone()];
        let descriptor = maker2users_contract_desc(
            &multisig,
            &list[1],
            &self.second_keys[1].public,
            &self.hash(),
        );
        if descriptor_script(descriptor.as_str()).is_none() {
            return self.aborts(Abort::MalformedDescriptor);
        }
        self.maker_keys = list;
        self.payout_txid = id;
        self.phase = UserPhase::AwaitingMakerFunding;
        let mut actions: Vec<UserAction> = Vec::new();
        actions.push(UserAction::VerifyFunding { txid: id, descriptor });
        assert(actions.deep_view() =~= seq![
            UserActionView::VerifyFunding {
                txid: id@,
                descriptor: second_contract(old(self)@, self.maker_keys.deep_view()),
            },
        ]);
        Ok(actions)
    }

    fn on_secret(&mut self, preimage: [u8; 32], key: String) -> (answer: Result<
        Vec<UserAction>,
        Abort,
    >)
        ensures
            user_stepped(user_on_secret(old(self)@, preimage@, key@), final(self)@, answer),
    {
        let commitment = match self.commitment {
            Some(c) => c,
            None => {
                return self.aborts(Abort::UnexpectedEvent);
            },
        };
        if self.maker_keys.len() != 2 {
            return self.aborts(Abort::UnexpectedEvent);
        }
        let revealed = match commitment.accept_preimage(preimage) {
            Ok(c) => c,
            Err(e) => {
                return self.aborts(e);
            },
        };
        let mut handed = Vec::new();
        handed.push(parse_private_key(key.as_str()));
        let mut expected: Vec<PubKey> = Vec::new();
        expected.push(self.maker_keys[0].clone());
        assert(expected.deep_view() =~= seq![self@.maker_keys[0]]);
        match check_prv_keys(&handed, expected) {
            Ok(()) => {},
            Err(e) => {
                assert(!key_accepted(handed[0]@, seq![self@.maker_keys[0]]));
                return self.aborts(e);
            },
        }
        assert(key_accepted(handed[0]@, seq![self@.maker_keys[0]]));
        self.commitment = Some(revealed);
        self.phase = UserPhase::SecretReceived;
        let mut actions: Vec<UserAction> = Vec::new();
        actions.push(UserAction::Send { identity: Identity::First, line: self.keys[0].private.wif.clone() });
        assert(actions.deep_view() =~= seq![
            UserActionView::Send { identity: Identity::First, line: old(self)@.keys[0].0 },
        ]);
        Ok(actions)
    }

    fn on_done(&mut self) -> (answer: Result<Vec<UserAction>, Abort>)
        requires
            old(self).phase != UserPhase::Complete,
            old(self).phase != UserPhase::Aborted,
        ensures
            user_stepped(user_next(old(self)@, UserEventView::Done), final(self)@, answer),
    {
        let mut actions: Vec<UserAction> = Vec::new();
        assert(actions.deep_view() =~= Seq::empty());
        match self.phase {
            UserPhase::Connected => {
                actions.push(UserAction::Send { identity: Identity::First, line: Self::public_line(self.keys.as_slice()) });
                actions.push(UserAction::SendCollateral);
                actions.push(UserAction::Send { identity: Identity::First, line: self.refund_address.text.clone() });
                assert(actions.deep_view() =~= seq![
                    UserActionView::Send {
                        identity: Identity::First,
                        line: joined(key_texts(public_keys(self@.keys))),
                    },
                    UserActionView::SendCollateral,
                    UserActionView::Send { identity: Identity::First, line: self@.refund_address },
                ]);
                self.moves(UserPhase::DataSent, actions)
            },
            UserPhase::Validated => self.moves(UserPhase::RefundSigned, actions),
            UserPhase::RefundFinalized => self.moves(UserPhase::FundingSigned, actions),
            UserPhase::FundingFinalized => {
                actions.push(UserAction::Send { identity: Identity::Second, line: Self::public_line(self.second_keys.as_slice()) });
                assert(actions.deep_view() =~= seq![
                    UserActionView::Send {
                        identity: Identity::Second,
                        line: joined(key_texts(public_keys(self@.second_keys))),
                    },
                ]);
                self.moves(UserPhase::Reconnected, actions)
            },
            UserPhase::Reconnected => self.moves(UserPhase::SecondContractSent, actions),
            UserPhase::AwaitingMakerFunding => {
                actions.push(UserAction::Send { identity: Identity::First, line: self.keys[2].private.wif.clone() });
                assert(actions.deep_view() =~= seq![
                    UserActionView::Send { identity: Identity::First, line: self@.keys[2].0 },
                ]);
                self.moves(UserPhase::HashlockKeyReleased, actions)
            },
            UserPhase::SecretReceived => self.moves(UserPhase::FinalKeyReleased, actions),
            UserPhase::FinalKeyReleased => self.moves(UserPhase::Complete, actions),
            _ => self.aborts(Abort::UnexpectedEvent),
        }
    }

    /// Takes one event and answers with the actions to carry out, or with the reason
    /// for which the session is aborted.
    pub fn step(&mut self, event: UserEvent) -> (answer: Result<Vec<UserAction>, Abort>)
        ensures
            user_stepped(user_next(old(self)@, event@), final(self)@, answer),
    {
        match self.phase {
            UserPhase::Complete | UserPhase::Aborted => {
                return Err(Abort::UnexpectedEvent);
            },
            _ => {},
        }
        match event {
            UserEvent::Failed => self.aborts(Abort::Collaborator),
            UserEvent::TimedOut => self.aborts(Abort::Timeout),
            UserEvent::Done => self.on_done(),
            UserEvent::ContractData { keys, hash } => match self.phase {
                UserPhase::DataSent => self.on_contract_data(keys, hash),
                _ => self.aborts(Abort::UnexpectedEvent),
            },
            UserEvent::Templates { funding, refund } => match self.phase {
                UserPhase::ContractReceived => self.on_templates(funding, refund),
                _ => self.aborts(Abort::UnexpectedEvent),
            },
            UserEvent::Template(template) => match self.phase {
                UserPhase::RefundSigned | UserPhase::FundingSigned => self.on_final_template(template),
                _ => self.aborts(Abort::UnexpectedEvent),
            },
            UserEvent::SecondContract { keys, txid } => match self.phase {
                UserPhase::SecondContractSent => self.on_second_contract(keys, txid),
                _ => self.aborts(Abort::UnexpectedEvent),
            },
            UserEvent::Secret { preimage, key } => match self.phase {
                UserPhase::HashlockKeyReleased => self.on_secret(preimage, key),
                _ => self.aborts(Abort::UnexpectedEvent),
            },
        }
    }
}

/// The place of a phase in the order in which a session passes through the phases.
pub open spec fn user_rank(phase: UserPhase) -> int {
    match phase {
        UserPhase::Connected => 0,
        UserPhase::DataSent => 1,
        UserPhase::ContractReceived => 2,
        UserPhase::Validated => 3,
        UserPhase::RefundSigned => 4,
        UserPhase::RefundFinalized => 5,
        UserPhase::FundingSigned => 6,
        UserPhase::FundingFinalized => 7,
        UserPhase::Reconnected => 8,
        UserPhase::SecondContractSent => 9,
        UserPhase::AwaitingMakerFunding => 10,
        UserPhase::HashlockKeyReleased => 11,
        UserPhase::SecretReceived => 12,
        UserPhase::FinalKeyReleased => 13,
        UserPhase::Complete => 14,
        UserPhase::Aborted => 15,
    }
}

/// A step that does not abort takes the session to the next phase: no phase is
/// skipped, and none is entered twice.
pub proof fn lemma_user_moves_one_phase(c: UserView, event: UserEventView)
    requires
        user_next(c, event).actions is Ok,
    ensures
        user_rank(user_next(c, event).state.phase) == user_rank(c.phase) + 1,
{
}

/// A step that aborts leaves the session aborted, with the reason it answers, and a
/// session that is aborted or complete is changed by no event: nothing is retried.
pub proof fn lemma_user_abort_is_final(c: UserView, event: UserEventView)
    ensures
        (user_next(c, event).actions is Err && c.phase != UserPhase::Aborted && c.phase
            != UserPhase::Complete) ==> user_next(c, event).state.phase == UserPhase::Aborted
            && user_next(c, event).state.abort == Some(user_next(c, event).actions->Err_0),
        c.phase == UserPhase::Aborted || c.phase == UserPhase::Complete ==> user_next(
            c,
            event,
        ).state == c && user_next(c, event).actions is Err,
{
}

/// The user asks for its signature on the refund only in the step in which the
/// announced keys and the funding and refund pair passed every check.
pub proof fn lemma_refund_signed_after_validation(c: UserView, event: UserEventView, descriptor: Seq<char>)
    requires
        user_next(c, event).actions matches Ok(actions) && actions.contains(
            UserActionView::SignRefund { descriptor },
        ),
    ensures
        c.phase == UserPhase::ContractReceived,
        contract_keys_valid(c.contract_keys, c.keys[0].1, c.keys[1].1, c.keys[2].1),
        event matches UserEventView::Templates { funding, refund } && compiled_script(
            first_contract(c),
        ) matches Some(script) && verdict(
            funding,
            refund,
            transaction_id(funding.unsigned_tx),
            script,
            c.collateral,
            c.refund_script,
        ) is Ok,
{
    let actions = user_next(c, event).actions->Ok_0;
    let i = choose|i: int| 0 <= i < actions.len() && actions[i] == (UserActionView::SignRefund {
        descriptor,
    });
    assert(actions[i] == (UserActionView::SignRefund { descriptor }));
}

/// The user asks for its signature on the funding only in the step in which the
/// maker returned the finalized refund: a template with the identifier of the refund
/// that the user validated and signed. Whatever else arrives while the user waits for
/// it, the funding included, ends the session unsigned.
pub proof fn lemma_funding_signed_after_refund(c: UserView, event: UserEventView)
    requires
        user_next(c, event).actions matches Ok(actions) && actions.contains(
            UserActionView::SignFunding,
        ),
    ensures
        c.phase == UserPhase::RefundSigned,
        event matches UserEventView::Template(t) && transaction_id(t.unsigned_tx) == c.refund_txid,
{
    let actions = user_next(c, event).actions->Ok_0;
    let i = choose|i: int| 0 <= i < actions.len() && actions[i] == UserActionView::SignFunding;
    assert(actions[i] == UserActionView::SignFunding);
}

/// While the user waits for the finalized refund, every event but a template with the
/// refund's identifier aborts the session.
pub proof fn lemma_refund_comes_first(c: UserView, event: UserEventView)
    requires
        c.phase == UserPhase::RefundSigned,
        !(event matches UserEventView::Template(t) && transaction_id(t.unsigned_tx)
            == c.refund_txid),
    ensures
        user_next(c, event).actions is Err,
        user_next(c, event).state.phase == UserPhase::Aborted,
{
}

/// The user takes a revealed preimage only if it hashes to the commitment, and hands
/// over its last key only in the step in which it took one: a preimage that does not
/// match ends the session.
pub proof fn lemma_preimage_checked(c: UserView, event: UserEventView)
    requires
        c.phase == UserPhase::HashlockKeyReleased,
    ensures
        user_next(c, event).actions is Ok ==> (event matches UserEventView::Secret { preimage, key }
            && sha256_digest(preimage) == committed_hash(c) && key_accepted(
            trimmed(key),
            seq![c.maker_keys[0]],
        ) && user_next(c, event).state.commitment == Some(
            CommitmentView::Revealed { hash: committed_hash(c), preimage },
        )),
        (event matches UserEventView::Secret { preimage, .. } && sha256_digest(preimage)
            != committed_hash(c)) ==> user_next(c, event).actions is Err,
{
}

/// The kinds of input that a session can wait for.
#[derive(Debug, Clone, Copy, PartialEq, Eq, Structural)]
pub enum UserInput {
    /// That the actions asked for last are carried out.
    Acknowledgement,
    /// The announcement of the first contract.
    ContractData,
    /// The funding and the refund template.
    Templates,
    /// A finalized template.
    Template,
    /// The announcement of the second contract.
    SecondContract,
    /// The preimage and the maker's key.
    Secret,
    /// Nothing: the session is over.
    Nothing,
}

/// What a session in `phase` waits for.
pub open spec fn user_awaits(phase: UserPhase) -> UserInput {
    match phase {
        UserPhase::DataSent => UserInput::ContractData,
        UserPhase::ContractReceived => UserInput::Templates,
        UserPhase::RefundSigned | UserPhase::FundingSigned => UserInput::Template,
        UserPhase::SecondContractSent => UserInput::SecondContract,
        UserPhase::HashlockKeyReleased => UserInput::Secret,
        UserPhase::Complete | UserPhase::Aborted => UserInput::Nothing,
        _ => UserInput::Acknowledgement,
    }
}

/// The kind of input that an event is; a failure is of no kind.
pub open spec fn user_input_of(event: UserEventView) -> Option<UserInput> {
    match event {
        UserEventView::Done => Some(UserInput::Acknowledgement),
        UserEventView::ContractData { .. } => Some(UserInput::ContractData),
        UserEventView::Templates { .. } => Some(UserInput::Templates),
        UserEventView::Template(_) => Some(UserInput::Template),
        UserEventView::SecondContract { .. } => Some(UserInput::SecondContract),
        UserEventView::Secret { .. } => Some(UserInput::Secret),
        UserEventView::Failed | UserEventView::TimedOut => None,
    }
}

impl UserClient {
    /// What the session waits for.
    pub fn awaits(&self) -> (input: UserInput)
        ensures
            input == user_awaits(self.phase),
    {
        match self.phase {
            UserPhase::DataSent => UserInput::ContractData,
            UserPhase::ContractReceived => UserInput::Templates,
            UserPhase::RefundSigned | UserPhase::FundingSigned => UserInput::Template,
            UserPhase::SecondContractSent => UserInput::SecondContract,
            UserPhase::HashlockKeyReleased => UserInput::Secret,
            UserPhase::Complete | UserPhase::Aborted => UserInput::Nothing,
            _ => UserInput::Acknowledgement,
        }
    }
}

/// A session takes only the kind of input that it waits for: every other event ends it.
pub proof fn lemma_user_takes_only_what_it_awaits(c: UserView, event: UserEventView)
    requires
        user_next(c, event).actions is Ok,
    ensures
        user_input_of(event) == Some(user_awaits(c.phase)),
{
}

/// A user goes on with a second contract only if its four keys differ from each other.
pub proof fn lemma_second_contract_keys_differ(c: UserView, event: UserEventView)
    requires
        c.phase == UserPhase::SecondContractSent,
        user_next(c, event).actions is Ok,
    ensures
        pairwise_distinct(second_contract_keys(c, user_next(c, event).state.maker_keys)),
{
}

} // verus!
