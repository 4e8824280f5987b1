//! The validation engine: what a participant checks of a funding and refund pair
//! before it trusts or signs either. A pair is accepted only if every rule holds; the
//! first rule that fails is reported, and the session ends there.

use crate::address::{address_script, address_script_of};
use crate::bytes::bytes_eq;
use crate::descriptor::{compiled_script, descriptor_script, REFUND_TIMELOCK};
use crate::error::{Abort, ValidationError};
use crate::transaction::{
    fee_of, input_total, lemma_output_total_grows, output_total, previous_output_of,
    transaction_id, utxo_for, OutPoint, OutPointView, TransactionView, TxOutView, TxTemplate,
    TxTemplateView,
};
use vstd::prelude::*;

verus! {

/// A funding fee must stay below this. A policy constant against griefing, no
/// invariant of the protocol.
pub const FEE_CEILING: u64 = 420;

/// The fee of every refund transaction.
pub const REFUND_FEE: u64 = 1000;

/// A participant's own collateral: the output it brings into the funding transaction
/// and the value of that output.
#[derive(Debug, Clone, Copy, PartialEq, Eq)]
pub struct Collateral {
    pub outpoint: OutPoint,
    pub value: u64,
}

/// The mathematical view of `Collateral`: the same value over sequences.
pub struct CollateralView {
    pub outpoint: OutPointView,
    pub value: u64,
}

impl View for Collateral {
    type V = CollateralView;

    open spec fn view(&self) -> CollateralView {
        CollateralView { outpoint: self.outpoint@, value: self.value }
    }
}

/// How many of the first `n` inputs spend `outpoint`.
pub open spec fn spending_inputs(tx: TransactionView, outpoint: OutPointView, n: int) -> int
    decreases n,
{
    if n <= 0 {
        0
    } else {
        spending_inputs(tx, outpoint, n - 1) + if tx.input[n - 1].previous_output == outpoint {
            1int
        } else {
            0int
        }
    }
}

/// How many of the first `n` outputs pay to `script`.
pub open spec fn paying_outputs(outs: Seq<TxOutView>, script: Seq<u8>, n: int) -> int
    decreases n,
{
    if n <= 0 {
        0
    } else {
        paying_outputs(outs, script, n - 1) + if outs[n - 1].script_pubkey == script {
            1int
        } else {
            0int
        }
    }
}

/// The value of the first of the first `n` outputs that pays to `script`.
pub open spec fn first_paid(outs: Seq<TxOutView>, script: Seq<u8>, n: int) -> Option<u64>
    decreases n,
{
    if n <= 0 {
        None
    } else {
        match first_paid(outs, script, n - 1) {
            Some(value) => Some(value),
            None => if outs[n - 1].script_pubkey == script {
                Some(outs[n - 1].value)
            } else {
                None
            },
        }
    }
}

/// The number of inputs for which the template holds both an input and its data.
pub open spec fn paired_inputs(t: TxTemplateView) -> int {
    if t.inputs.len() <= t.unsigned_tx.input.len() {
        t.inputs.len() as int
    } else {
        t.unsigned_tx.input.len() as int
    }
}

/// The sum of the values that the first `n` inputs name in the previous transactions
/// that come with them; an input without one counts as nothing.
pub open spec fn previous_total(t: TxTemplateView, n: int) -> int
    decreases n,
{
    if n <= 0 {
        0
    } else {
        previous_total(t, n - 1) + match previous_output_of(t, n - 1) {
            Some(out) => out.value as int,
            None => 0,
        }
    }
}

/// Every input that has data names an output in the previous transaction that comes with it.
pub open spec fn previous_known(t: TxTemplateView) -> bool {
    forall|i: int| 0 <= i < paired_inputs(t) ==> (#[trigger] previous_output_of(t, i)) is Some
}

/// What each refund recipient gives up: its part of the two fees.
pub open spec fn refund_share(funding_fee: int, participants: int) -> int {
    (funding_fee + REFUND_FEE) / participants
}

/// The first funding output pays the contract.
pub open spec fn pays_contract(funding: TxTemplateView, contract_script: Seq<u8>) -> bool {
    funding.unsigned_tx.output.len() > 0 && funding.unsigned_tx.output[0].script_pubkey
        == contract_script
}

/// The funding transaction spends the caller's collateral exactly once.
pub open spec fn spends_collateral_once(funding: TxTemplateView, outpoint: OutPointView) -> bool {
    spending_inputs(funding.unsigned_tx, outpoint, funding.unsigned_tx.input.len() as int) == 1
}

/// What the inputs bring, less the fee, is what the funding output holds.
pub open spec fn value_balanced(funding: TxTemplateView) -> bool {
    &&& previous_known(funding)
    &&& previous_total(funding, paired_inputs(funding)) <= u64::MAX
    &&& fee_of(funding) matches Some(fee)
    &&& funding.unsigned_tx.output.len() > 0
    &&& previous_total(funding, paired_inputs(funding)) - fee
        == funding.unsigned_tx.output[0].value
}

/// The refund has one input, which spends the first output of the funding
/// transaction, and the output that the refund shows for that input is that output: the
/// same value under the same script.
pub open spec fn refund_spends_funding(
    funding: TxTemplateView,
    refund: TxTemplateView,
    funding_txid: Seq<u8>,
) -> bool {
    &&& refund.inputs.len() == 1
    &&& refund.unsigned_tx.input.len() == 1
    &&& refund.unsigned_tx.input[0].previous_output == OutPointView { txid: funding_txid, vout: 0 }
    &&& funding.unsigned_tx.output.len() > 0
    &&& utxo_for(refund, 0) == Some(funding.unsigned_tx.output[0])
}

/// The participants of a funding transaction: each brings one input.
pub open spec fn participants(funding: TxTemplateView) -> int {
    funding.unsigned_tx.input.len() as int
}

/// The refund carries the agreed relative timelock, in a transaction version
/// that gives it force.
pub open spec fn refund_timelocked(refund: TxTemplateView) -> bool {
    &&& refund.unsigned_tx.version == 2
    &&& refund.unsigned_tx.input.len() > 0
    &&& refund.unsigned_tx.input[0].sequence == REFUND_TIMELOCK
}

/// Exactly one refund output pays the caller's address.
pub open spec fn refund_pays_once(refund: TxTemplateView, refund_script: Seq<u8>) -> bool {
    paying_outputs(refund.unsigned_tx.output, refund_script, refund.unsigned_tx.output.len() as int)
        == 1
}

/// The refund pays every participant of the funding, and the output that pays the
/// caller holds the caller's collateral less its share of the two fees: the fees
/// divided by the number of participants.
pub open spec fn refund_amount_due(
    funding: TxTemplateView,
    refund: TxTemplateView,
    refund_script: Seq<u8>,
    funding_fee: u64,
    collateral_value: u64,
) -> bool {
    &&& participants(funding) > 0
    &&& refund.unsigned_tx.output.len() == participants(funding)
    &&& refund_share(funding_fee as int, participants(funding)) <= collateral_value
    &&& first_paid(refund.unsigned_tx.output, refund_script, refund.unsigned_tx.output.len() as int)
        == Some((collateral_value - refund_share(funding_fee as int, participants(funding))) as u64)
}

/// The verdict on a pair: `Ok` where every rule holds, else the first rule that fails.
pub open spec fn verdict(
    funding: TxTemplateView,
    refund: TxTemplateView,
    funding_txid: Seq<u8>,
    contract_script: Seq<u8>,
    collateral: CollateralView,
    refund_script: Seq<u8>,
) -> Result<(), ValidationError> {
    if !pays_contract(funding, contract_script) {
        Err(ValidationError::ContractScript)
    } else if fee_of(funding) is None {
        Err(ValidationError::FeeUnknown)
    } else if fee_of(funding).unwrap() >= FEE_CEILING {
        Err(ValidationError::FeeTooHigh)
    } else if !spends_collateral_once(funding, collateral.outpoint) {
        Err(ValidationError::CollateralCount)
    } else if !value_balanced(funding) {
        Err(ValidationError::ValueBalance)
    } else if !refund_spends_funding(funding, refund, funding_txid) {
        Err(ValidationError::RefundInput)
    } else if !refund_timelocked(refund) {
        Err(ValidationError::RefundTimelock)
    } else if !refund_pays_once(refund, refund_script) {
        Err(ValidationError::RefundRecipient)
    } else if fee_of(refund) != Some(REFUND_FEE) {
        Err(ValidationError::RefundFee)
    } else if !refund_amount_due(
        funding,
        refund,
        refund_script,
        fee_of(funding).unwrap(),
        collateral.value,
    ) {
        Err(ValidationError::RefundAmount)
    } else {
        Ok(())
    }
}

/// Every rule of the validation engine holds of the pair.
pub open spec fn acceptable(
    funding: TxTemplateView,
    refund: TxTemplateView,
    funding_txid: Seq<u8>,
    contract_script: Seq<u8>,
    collateral: CollateralView,
    refund_script: Seq<u8>,
) -> bool {
    &&& pays_contract(funding, contract_script)
    &&& fee_of(funding) matches Some(fee)
    &&& fee < FEE_CEILING
    &&& spends_collateral_once(funding, collateral.outpoint)
    &&& value_balanced(funding)
    &&& refund_spends_funding(funding, refund, funding_txid)
    &&& refund_timelocked(refund)
    &&& refund_pays_once(refund, refund_script)
    &&& fee_of(refund) == Some(REFUND_FEE)
    &&& refund_amount_due(funding, refund, refund_script, fee, collateral.value)
}

/// Counts the inputs of a template that spend `outpoint`.
pub fn count_spending(funding: &TxTemplate, outpoint: &OutPoint) -> (n: usize)
    ensures
        n == spending_inputs(funding@.unsigned_tx, outpoint@, funding@.unsigned_tx.input.len() as int),
{
    let mut n: usize = 0;
    let mut i: usize = 0;
    while i < funding.unsigned_tx.input.len()
        invariant
            i <= funding.unsigned_tx.input.len(),
            n <= i,
            n == spending_inputs(funding@.unsigned_tx, outpoint@, i as int),
        decreases funding.unsigned_tx.input.len() - i,
    {
        if funding.unsigned_tx.input[i].previous_output.same_as(outpoint) {
            n += 1;
        }
        i += 1;
    }
    n
}

proof fn lemma_previous_total_grows(t: TxTemplateView, a: int, b: int)
    requires
        a <= b,
    ensures
        0 <= previous_total(t, a) <= previous_total(t, b),
    decreases b - a,
{
    if a < b {
        lemma_previous_total_grows(t, a, b - 1);
    } else {
        lemma_previous_total_nonnegative(t, a);
    }
}

proof fn lemma_previous_total_nonnegative(t: TxTemplateView, n: int)
    ensures
        0 <= previous_total(t, n),
    decreases n,
{
    if n > 0 {
        lemma_previous_total_nonnegative(t, n - 1);
    }
}

/// The sum that the value balance starts from, where every paired input names a known output and
/// the sum fits 64 bits.
fn previous_sum(funding: &TxTemplate) -> (sum: Option<u64>)
    ensures
        match sum {
            Some(total) => previous_known(funding@) && total == previous_total(
                funding@,
                paired_inputs(funding@),
            ),
            None => !previous_known(funding@) || previous_total(funding@, paired_inputs(funding@))
                > u64::MAX,
        },
{
    let paired = if funding.inputs.len() <= funding.unsigned_tx.input.len() {
        funding.inputs.len()
    } else {
        funding.unsigned_tx.input.len()
    };
    assert(paired == paired_inputs(funding@));
    let mut total: u64 = 0;
    let mut i: usize = 0;
    while i < paired
        invariant
            i <= paired,
            paired == paired_inputs(funding@),
            total == previous_total(funding@, i as int),
            forall|j: int| 0 <= j < i ==> (#[trigger] previous_output_of(funding@, j)) is Some,
        decreases paired - i,
    {
        match funding.previous_value(i) {
            Some(value) => {
                if value > u64::MAX - total {
                    proof {
                        lemma_previous_total_grows(funding@, i + 1, paired as int);
                    }
                    return None;
                }
                total = total + value;
            },
            None => {
                return None;
            },
        }
        i += 1;
    }
    Some(total)
}

/// Counts the outputs that pay to `script` and finds the value of the first of them.
pub fn find_paid(refund: &TxTemplate, script: &[u8]) -> (found: (usize, Option<u64>))
    ensures
        found.0 == paying_outputs(
            refund@.unsigned_tx.output,
            script@,
            refund@.unsigned_tx.output.len() as int,
        ),
        found.1 == first_paid(
            refund@.unsigned_tx.output,
            script@,
            refund@.unsigned_tx.output.len() as int,
        ),
{
    let mut n: usize = 0;
    let mut first: Option<u64> = None;
    let mut i: usize = 0;
    while i < refund.unsigned_tx.output.len()
        invariant
            i <= refund.unsigned_tx.output.len(),
            n <= i,
            n == paying_outputs(refund@.unsigned_tx.output, script@, i as int),
            first == first_paid(refund@.unsigned_tx.output, script@, i as int),
        decreases refund.unsigned_tx.output.len() - i,
    {
        let out = &refund.unsigned_tx.output[i];
        if bytes_eq(out.script_pubkey.as_slice(), script) {
            n += 1;
            if first.is_none() {
                first = Some(out.value);
            }
        }
        i += 1;
    }
    (n, first)
}

/// Runs the validation engine on a funding and refund pair, given the identifier of
/// the funding transaction, the script of the contract, the caller's collateral and
/// the script of the caller's refund address.
pub fn validate_pair(
    funding: &TxTemplate,
    refund: &TxTemplate,
    funding_txid: &[u8; 32],
    contract_script: &[u8],
    collateral: &Collateral,
    refund_script: &[u8],
) -> (checked: Result<(), ValidationError>)
    ensures
        checked == verdict(
            funding@,
            refund@,
            funding_txid@,
            contract_script@,
            collateral@,
            refund_script@,
        ),
{
    if funding.unsigned_tx.output.len() == 0 || !bytes_eq(
        funding.unsigned_tx.output[0].script_pubkey.as_slice(),
        contract_script,
    ) {
        return Err(ValidationError::ContractScript);
    }
    let funding_fee = match funding.fee_amount() {
        Some(fee) => fee,
        None => {
            return Err(ValidationError::FeeUnknown);
        },
    };
    if funding_fee >= FEE_CEILING {
        return Err(ValidationError::FeeTooHigh);
    }
    if count_spending(funding, &collateral.outpoint) != 1 {
        return Err(ValidationError::CollateralCount);
    }
    let balanced = match previous_sum(funding) {
        Some(total) => total >= funding_fee && total - funding_fee
            == funding.unsigned_tx.output[0].value,
        None => false,
    };
    if !balanced {
        return Err(ValidationError::ValueBalance);
    }
    let funding_output = OutPoint { txid: *funding_txid, vout: 0 };
    if refund.inputs.len() != 1 || refund.unsigned_tx.input.len() != 1
        || !refund.unsigned_tx.input[0].previous_output.same_as(&funding_output)
        || !refund.shows_spent(0, &funding.unsigned_tx.output[0]) {
        return Err(ValidationError::RefundInput);
    }
    if refund.unsigned_tx.version != 2 || refund.unsigned_tx.input[0].sequence != REFUND_TIMELOCK {
        return Err(ValidationError::RefundTimelock);
    }
    let (paying, paid) = find_paid(refund, refund_script);
    if paying != 1 {
        return Err(ValidationError::RefundRecipient);
    }
    let agreed = match refund.fee_amount() {
        Some(fee) => fee == REFUND_FEE,
        None => false,
    };
    if !agreed {
        return Err(ValidationError::RefundFee);
    }
    let everyone = funding.unsigned_tx.input.len();
    let due = match (refund_due(collateral.value, funding_fee, everyone), paid) {
        (Some(amount), Some(value)) => refund.unsigned_tx.output.len() == everyone && amount
            == value,
        _ => false,
    };
    if !due {
        return Err(ValidationError::RefundAmount);
    }
    Ok(())
}

/// What a refund pays back for a collateral of `value`: the collateral less the
/// recipient's share of the funding fee and the refund fee. `None` where there is no
/// recipient or the share exceeds the collateral.
pub fn refund_due(value: u64, funding_fee: u64, participants: usize) -> (due: Option<u64>)
    ensures
        match due {
            Some(amount) => participants > 0 && amount == value - refund_share(
                funding_fee as int,
                participants as int,
            ),
            None => participants == 0 || refund_share(funding_fee as int, participants as int)
                > value,
        },
{
    if participants == 0 {
        return None;
    }
    let share = (funding_fee as u128 + REFUND_FEE as u128) / (participants as u128);
    if share <= value as u128 {
        Some(value - share as u64)
    } else {
        None
    }
}

/// What `check_psbts` answers, given the scripts that the descriptor and the address
/// stand for.
pub open spec fn check_outcome(
    funding: TxTemplateView,
    refund: TxTemplateView,
    contract_script: Option<Seq<u8>>,
    collateral: CollateralView,
    refund_script: Option<Seq<u8>>,
) -> Result<(), Abort> {
    match (contract_script, refund_script) {
        (None, _) => Err(Abort::MalformedDescriptor),
        (Some(_), None) => Err(Abort::MalformedAddress),
        (Some(contract), Some(address)) => match verdict(
            funding,
            refund,
            transaction_id(funding.unsigned_tx),
            contract,
            collateral,
            address,
        ) {
            Ok(()) => Ok(()),
            Err(rule) => Err(Abort::Validation(rule)),
        },
    }
}

/// Checks that the funding and refund transactions are properly constructed for the
/// contract `desc`, the caller's collateral and the caller's refund address:
///
/// 1. the script of the funding output is the contract's,
/// 2. the funding fee is below the ceiling,
/// 3. the caller's collateral is among the funding inputs, once,
/// 4. the total input value less the funding fee is the funding output value,
/// 5. the only input of the refund is the funding output, shown with its true value,
/// 6. the refund carries the relative timelock,
/// 7. the refund pays the caller's address, once,
/// 8. the refund fee is the agreed one, the refund pays every participant of the
///    funding, and the caller gets its collateral less its share of both fees: the
///    fees divided by the number of participants.
pub fn check_psbts(
    funding: &TxTemplate,
    refund: &TxTemplate,
    desc: &str,
    my_utxo: &Collateral,
    refund_addr: &str,
) -> (checked: Result<(), Abort>)
    ensures
        checked == check_outcome(
            funding@,
            refund@,
            compiled_script(desc@),
            my_utxo@,
            address_script_of(refund_addr@),
        ),
{
    let contract_script = match descriptor_script(desc) {
        Some(script) => script,
        None => {
            return Err(Abort::MalformedDescriptor);
        },
    };
    let refund_script = match address_script(refund_addr) {
        Some(script) => script,
        None => {
            return Err(Abort::MalformedAddress);
        },
    };
    assert(contract_script.deep_view() =~= contract_script@);
    assert(refund_script.deep_view() =~= refund_script@);
    let funding_txid = funding.txid();
    match validate_pair(
        funding,
        refund,
        &funding_txid,
        contract_script.as_slice(),
        my_utxo,
        refund_script.as_slice(),
    ) {
        Ok(()) => Ok(()),
        Err(rule) => Err(Abort::Validation(rule)),
    }
}

/// A pair gets the verdict `Ok` exactly when every rule holds of it.
pub proof fn lemma_verdict_ok_iff_acceptable(
    funding: TxTemplateView,
    refund: TxTemplateView,
    funding_txid: Seq<u8>,
    contract_script: Seq<u8>,
    collateral: CollateralView,
    refund_script: Seq<u8>,
)
    ensures
        verdict(funding, refund, funding_txid, contract_script, collateral, refund_script) is Ok
            <==> acceptable(
            funding,
            refund,
            funding_txid,
            contract_script,
            collateral,
            refund_script,
        ),
{
}

/// In a pair that the validation engine accepts no value is created or destroyed:
/// what the funding inputs bring is the funding fee and the funding output, what the
/// inputs of either transaction spend is its fee and what its outputs pay, and what
/// the funding output holds is the refund fee and what the refund pays.
pub proof fn lemma_accepted_pair_balances(
    funding: TxTemplateView,
    refund: TxTemplateView,
    funding_txid: Seq<u8>,
    contract_script: Seq<u8>,
    collateral: CollateralView,
    refund_script: Seq<u8>,
)
    requires
        verdict(funding, refund, funding_txid, contract_script, collateral, refund_script) is Ok,
    ensures
        previous_total(funding, paired_inputs(funding)) == fee_of(funding).unwrap()
            + funding.unsigned_tx.output[0].value,
        input_total(funding, funding.unsigned_tx.input.len() as int) == fee_of(funding).unwrap()
            + output_total(funding.unsigned_tx.output, funding.unsigned_tx.output.len() as int),
        input_total(refund, refund.unsigned_tx.input.len() as int) == REFUND_FEE + output_total(
            refund.unsigned_tx.output,
            refund.unsigned_tx.output.len() as int,
        ),
        funding.unsigned_tx.output[0].value == REFUND_FEE + output_total(
            refund.unsigned_tx.output,
            refund.unsigned_tx.output.len() as int,
        ),
{
    reveal_with_fuel(input_total, 2);
    lemma_output_total_grows(
        funding.unsigned_tx.output,
        0,
        funding.unsigned_tx.output.len() as int,
    );
    lemma_output_total_grows(refund.unsigned_tx.output, 0, refund.unsigned_tx.output.len() as int);
}

/// A pair whose funding fee reaches the ceiling is never accepted.
pub proof fn lemma_fee_ceiling(
    funding: TxTemplateView,
    refund: TxTemplateView,
    funding_txid: Seq<u8>,
    contract_script: Seq<u8>,
    collateral: CollateralView,
    refund_script: Seq<u8>,
)
    requires
        verdict(funding, refund, funding_txid, contract_script, collateral, refund_script) is Ok,
    ensures
        fee_of(funding) matches Some(fee) && fee < FEE_CEILING,
{
}

/// In an accepted pair whose funding has two participants the refund has two outputs,
/// and the one that pays the caller holds the collateral less half of the funding fee
/// and the refund fee together.
pub proof fn lemma_accepted_refund_amount(
    funding: TxTemplateView,
    refund: TxTemplateView,
    funding_txid: Seq<u8>,
    contract_script: Seq<u8>,
    collateral: CollateralView,
    refund_script: Seq<u8>,
)
    requires
        verdict(funding, refund, funding_txid, contract_script, collateral, refund_script) is Ok,
        participants(funding) == 2,
    ensures
        refund.unsigned_tx.output.len() == 2,
        paying_outputs(refund.unsigned_tx.output, refund_script, 2) == 1,
        first_paid(
            refund.unsigned_tx.output,
            refund_script,
            refund.unsigned_tx.output.len() as int,
        ) == Some((collateral.value - (fee_of(funding).unwrap() + 1000) / 2) as u64),
{
}

} // verus!
