//! Reasons for which a swap session is aborted. Every one of them is fatal: a session
//! that meets one is never resumed or retried.

use vstd::prelude::*;

verus! {

/// The rule of the validation engine that a funding and refund pair breaks.
#[derive(Debug, Clone, Copy, PartialEq, Eq, Structural)]
pub enum ValidationError {
    /// The first funding output does not pay the contract script.
    ContractScript,
    /// The funding fee cannot be computed from the template.
    FeeUnknown,
    /// The funding fee reaches the ceiling.
    FeeTooHigh,
    /// The caller's collateral is not spent exactly once by the funding transaction.
    CollateralCount,
    /// The input values minus the fee differ from the funding output value.
    ValueBalance,
    /// The refund does not spend exactly the funding output.
    RefundInput,
    /// The refund does not carry the agreed relative timelock.
    RefundTimelock,
    /// The refund does not pay the caller's address exactly once.
    RefundRecipient,
    /// The refund fee is not the agreed one, or cannot be computed.
    RefundFee,
    /// The refund pays the caller another amount than its share, or there is no share
    /// to compute.
    RefundAmount,
}

/// Why a session was aborted.
#[derive(Debug, Clone, Copy, PartialEq, Eq, Structural)]
pub enum Abort {
    /// A key list does not hold the expected number of keys.
    KeyCount,
    /// A token is not the text of a public key.
    MalformedKey,
    /// A token is not the text of a commitment hash.
    MalformedHash,
    /// A token is not the text of a transaction identifier.
    MalformedTxid,
    /// A token is not the text of an address.
    MalformedAddress,
    /// A text is not a script descriptor.
    MalformedDescriptor,
    /// Two keys of a contract are equal.
    DuplicateKeys,
    /// A participant's key does not occur exactly once in its spending path.
    KeyNotInPath,
    /// A collateral proof does not belong to the descriptor that came with it.
    CollateralMismatch,
    /// The numbers of collaterals and of refund addresses differ.
    RecipientCount,
    /// The fee of a transaction template cannot be computed.
    FeeUnknown,
    /// A refund share exceeds the collateral it is taken from, a total overflows, or
    /// an amount that is needed is not there.
    Amount,
    /// A funding and refund pair was rejected by the validation engine.
    Validation(ValidationError),
    /// A transaction template has another identifier than the one agreed on.
    TxidMismatch,
    /// A revealed preimage does not hash to the commitment.
    PreimageMismatch,
    /// A handed-over private key matches none, or several, of the expected public keys.
    KeyMismatch,
    /// An event arrived that the current state does not accept.
    UnexpectedEvent,
    /// What the wallet built is not what it was asked for.
    WalletMismatch,
    /// The wallet or the transport failed.
    Collaborator,
    /// A peer did not answer in time.
    Timeout,
}

/// The three classes of reasons. None of them is recoverable.
#[derive(Debug, Clone, Copy, PartialEq, Eq, Structural)]
pub enum AbortKind {
    /// A text that arrived is malformed.
    Format,
    /// An invariant of the protocol is violated: a bug, or fraud.
    Protocol,
    /// Something outside the protocol failed: the wallet, the transport, a silent peer.
    External,
}

impl Abort {
    /// The class of a reason.
    pub open spec fn spec_kind(self) -> AbortKind {
        match self {
            Abort::KeyCount
            | Abort::MalformedKey
            | Abort::MalformedHash
            | Abort::MalformedTxid
            | Abort::MalformedAddress
            | Abort::MalformedDescriptor => AbortKind::Format,
            Abort::Collaborator
            | Abort::Timeout
            | Abort::FeeUnknown
            | Abort::WalletMismatch => AbortKind::External,
            _ => AbortKind::Protocol,
        }
    }

    /// The class of a reason.
    pub fn kind(self) -> (kind: AbortKind)
        ensures
            kind == self.spec_kind(),
    {
        match self {
            Abort::KeyCount
            | Abort::MalformedKey
            | Abort::MalformedHash
            | Abort::MalformedTxid
            | Abort::MalformedAddress
            | Abort::MalformedDescriptor => AbortKind::Format,
            Abort::Collaborator
            | Abort::Timeout
            | Abort::FeeUnknown
            | Abort::WalletMismatch => AbortKind::External,
            _ => AbortKind::Protocol,
        }
    }
}

} // verus!
