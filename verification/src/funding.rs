//! The maker's side of the first contract: what it asks its wallet to build. The
//! wallet builds and signs; which outputs are spent, who is paid and how much is
//! decided here.

use crate::bytes::bytes_eq;
use crate::descriptor::{compiled_script, descriptor_is_sane, descriptor_script, passes_sanity_check};
use crate::error::Abort;
use crate::transaction::{
    fee_of, output_total, sum_outputs, transaction_id, InputData, InputDataView, OutPoint,
    OutPointView, TxOut, TxOutView, TxTemplate, TxTemplateView,
};
use crate::descriptor::REFUND_TIMELOCK;
use crate::validation::{
    count_spending, find_paid, first_paid, paying_outputs, refund_due, refund_share,
    refund_spends_funding, refund_timelocked, spending_inputs, Collateral, CollateralView,
    REFUND_FEE,
};
use crate::wire::{trim, trimmed, Address};
use vstd::prelude::*;

verus! {

/// The spending path of the users-to-maker contract that all three parties sign at once.
pub const COOPERATIVE_PATH: usize = 0;

/// The spending path of the users-to-maker contract that opens after the timelock.
pub const TIMELOCK_PATH: usize = 1;

/// The value that a collateral proof shows for the output it is about: that of the
/// named output of the previous transaction where the proof holds one, else that of
/// the witness output.
pub open spec fn proven_value(outpoint: OutPointView, input: InputDataView) -> Option<u64> {
    match input.non_witness_utxo {
        Some(outs) => if (outpoint.vout as int) < outs.len() {
            Some(outs[outpoint.vout as int].value)
        } else {
            None
        },
        None => match input.witness_utxo {
            Some(out) => Some(out.value),
            None => None,
        },
    }
}

/// What a collateral proof is read as: the collateral, or why the proof is refused.
/// The descriptor must compile to the script of the witness output that the proof holds.
pub open spec fn collateral_in(
    descriptor_line: Seq<char>,
    outpoint: OutPointView,
    input: InputDataView,
) -> Result<CollateralView, Abort> {
    match compiled_script(trimmed(descriptor_line)) {
        None => Err(Abort::MalformedDescriptor),
        Some(script) => if input.witness_utxo matches Some(out) && out.script_pubkey == script
            && proven_value(outpoint, input) is Some {
            Ok(CollateralView { outpoint, value: proven_value(outpoint, input).unwrap() })
        } else {
            Err(Abort::CollateralMismatch)
        },
    }
}

/// Reads a user's collateral proof: the descriptor that the output belongs to, the
/// reference to the output, and the input data that shows the output.
pub fn read_utxo_data(descriptor_line: &str, outpoint: OutPoint, input: &InputData) -> (collateral:
    Result<Collateral, Abort>)
    ensures
        match collateral {
            Ok(c) => collateral_in(descriptor_line@, outpoint@, input.deep_view()) == Ok::<
                CollateralView,
                Abort,
            >(c@),
            Err(e) => collateral_in(descriptor_line@, outpoint@, input.deep_view()) == Err::<
                CollateralView,
                Abort,
            >(e),
        },
{
    let script = match descriptor_script(trim(descriptor_line)) {
        Some(script) => script,
        None => {
            return Err(Abort::MalformedDescriptor);
        },
    };
    assert(script.deep_view() =~= script@);
    let matches = match &input.witness_utxo {
        Some(out) => bytes_eq(out.script_pubkey.as_slice(), script.as_slice()),
        None => false,
    };
    if !matches {
        return Err(Abort::CollateralMismatch);
    }
    let value = match &input.non_witness_utxo {
        Some(outs) => {
            let vout = outpoint.vout as usize;
            if vout < outs.len() {
                Some(outs[vout].value)
            } else {
                None
            }
        },
        None => match &input.witness_utxo {
            Some(out) => Some(out.value),
            None => None,
        },
    };
    match value {
        Some(value) => Ok(Collateral { outpoint, value }),
        None => Err(Abort::CollateralMismatch),
    }
}

/// Who a refund pays: the script of a user's refund address, and the value of the
/// collateral that the user brought.
#[derive(Debug, Clone, PartialEq, Eq)]
pub struct Recipient {
    pub script: Vec<u8>,
    pub value: u64,
}

/// The mathematical view of `Recipient`: the same value over sequences.
pub struct RecipientView {
    pub script: Seq<u8>,
    pub value: u64,
}

impl DeepView for Recipient {
    type V = RecipientView;

    open spec fn deep_view(&self) -> RecipientView {
        RecipientView { script: self.script@, value: self.value }
    }
}

/// What the wallet is asked to build as the funding transaction: spend exactly
/// `inputs`, in a transaction whose whole value, less the fee, goes to the contract.
#[derive(Debug, Clone, PartialEq, Eq)]
pub struct FundingRequest {
    pub descriptor: String,
    pub inputs: Vec<OutPoint>,
    pub path: usize,
}

/// The mathematical view of `FundingRequest`: the same value over sequences.
pub struct FundingRequestView {
    pub descriptor: Seq<char>,
    pub inputs: Seq<OutPointView>,
    pub path: usize,
}

impl DeepView for FundingRequest {
    type V = FundingRequestView;

    open spec fn deep_view(&self) -> FundingRequestView {
        FundingRequestView {
            descriptor: self.descriptor@,
            inputs: Seq::new(self.inputs.len() as nat, |i: int| self.inputs[i]@),
            path: self.path,
        }
    }
}

/// What the wallet is asked to build as the refund transaction: spend exactly `input`
/// through the timelock path, pay `outputs`, and leave `fee`.
#[derive(Debug, Clone, PartialEq, Eq)]
pub struct RefundRequest {
    pub input: OutPoint,
    pub outputs: Vec<TxOut>,
    pub fee: u64,
    pub path: usize,
}

/// The mathematical view of `RefundRequest`: the same value over sequences.
pub struct RefundRequestView {
    pub input: OutPointView,
    pub outputs: Seq<TxOutView>,
    pub fee: u64,
    pub path: usize,
}

impl DeepView for RefundRequest {
    type V = RefundRequestView;

    open spec fn deep_view(&self) -> RefundRequestView {
        RefundRequestView {
            input: self.input@,
            outputs: self.outputs.deep_view(),
            fee: self.fee,
            path: self.path,
        }
    }
}

/// The outpoints of a list of collaterals, in order.
pub open spec fn outpoints_of(utxos: Seq<Collateral>) -> Seq<OutPointView> {
    Seq::new(utxos.len(), |i: int| utxos[i].outpoint@)
}

/// Asks for a funding transaction that spends the given collaterals, all of them and
/// nothing else, into the contract.
pub fn build_funding_tx(descriptor: &str, utxos: &Vec<Collateral>) -> (request: FundingRequest)
    ensures
        request.deep_view() == (FundingRequestView {
            descriptor: descriptor@,
            inputs: outpoints_of(utxos@),
            path: COOPERATIVE_PATH,
        }),
{
    let mut inputs: Vec<OutPoint> = Vec::new();
    let mut i: usize = 0;
    while i < utxos.len()
        invariant
            i <= utxos.len(),
            inputs.len() == i,
            forall|j: int| 0 <= j < i ==> inputs[j]@ == utxos[j].outpoint@,
        decreases utxos.len() - i,
    {
        inputs.push(utxos[i].outpoint);
        i += 1;
    }
    let request = FundingRequest { descriptor: descriptor.to_owned(), inputs, path: COOPERATIVE_PATH };
    assert(request.deep_view().inputs =~= outpoints_of(utxos@));
    request
}

/// Every recipient's collateral covers its share of the fees.
pub open spec fn shares_covered(recipients: Seq<RecipientView>, funding_fee: int) -> bool {
    forall|i: int|
        0 <= i < recipients.len() ==> refund_share(funding_fee, recipients.len() as int)
            <= (#[trigger] recipients[i]).value
}

/// What the refund pays: to each recipient its collateral less its share of the fees.
pub open spec fn refund_outputs(recipients: Seq<RecipientView>, funding_fee: int) -> Seq<TxOutView> {
    Seq::new(
        recipients.len(),
        |i: int|
            TxOutView {
                value: (recipients[i].value - refund_share(funding_fee, recipients.len() as int)) as u64,
                script_pubkey: recipients[i].script,
            },
    )
}

/// The funding output holds exactly what the refund pays and the refund fee. Where the
/// fees cannot be shared equally without a remainder it does not, and no refund with
/// the agreed fee exists.
pub open spec fn refund_affordable(recipients: Seq<RecipientView>, funding: TxTemplateView) -> bool {
    &&& funding.unsigned_tx.output.len() > 0
    &&& fee_of(funding) matches Some(fee)
    &&& output_total(refund_outputs(recipients, fee as int), recipients.len() as int) + REFUND_FEE
        == funding.unsigned_tx.output[0].value
}

/// What is asked of the wallet as the refund of `funding`, or why none can be asked.
pub open spec fn refund_request_for(recipients: Seq<RecipientView>, funding: TxTemplateView) -> Result<
    RefundRequestView,
    Abort,
> {
    if recipients.len() != funding.unsigned_tx.input.len() {
        Err(Abort::RecipientCount)
    } else if fee_of(funding) is None {
        Err(Abort::FeeUnknown)
    } else if !shares_covered(recipients, fee_of(funding).unwrap() as int) {
        Err(Abort::Amount)
    } else if !refund_affordable(recipients, funding) {
        Err(Abort::Amount)
    } else {
        Ok(
            RefundRequestView {
                input: OutPointView { txid: transaction_id(funding.unsigned_tx), vout: 0 },
                outputs: refund_outputs(recipients, fee_of(funding).unwrap() as int),
                fee: REFUND_FEE,
                path: TIMELOCK_PATH,
            },
        )
    }
}

/// Asks for the refund of a funding transaction: it spends the funding output through
/// the timelock path and pays every user its collateral less an equal share of the
/// funding fee and the refund fee.
pub fn build_refund_tx(recipients: &Vec<Recipient>, funding_psbt: &TxTemplate) -> (request: Result<
    RefundRequest,
    Abort,
>)
    ensures
        match request {
            Ok(r) => refund_request_for(recipients.deep_view(), funding_psbt@) == Ok::<
                RefundRequestView,
                Abort,
            >(r.deep_view()),
            Err(e) => refund_request_for(recipients.deep_view(), funding_psbt@) == Err::<
                RefundRequestView,
                Abort,
            >(e),
        },
{
    if recipients.len() != funding_psbt.unsigned_tx.input.len() {
        return Err(Abort::RecipientCount);
    }
    let funding_fee = match funding_psbt.fee_amount() {
        Some(fee) => fee,
        None => {
            return Err(Abort::FeeUnknown);
        },
    };
    let ghost views = recipients.deep_view();
    let mut outputs: Vec<TxOut> = Vec::new();
    let mut i: usize = 0;
    while i < recipients.len()
        invariant
            i <= recipients.len(),
            outputs.len() == i,
            views == recipients.deep_view(),
            recipients.len() == funding_psbt@.unsigned_tx.input.len(),
            fee_of(funding_psbt@) == Some(funding_fee),
            forall|j: int|
                0 <= j < i ==> refund_share(funding_fee as int, views.len() as int) <= (
                #[trigger] views[j]).value,
            forall|j: int|
                0 <= j < i ==> outputs[j].deep_view() == refund_outputs(views, funding_fee as int)[j],
        decreases recipients.len() - i,
    {
        let recipient = &recipients[i];
        assert(views[i as int] == recipient.deep_view());
        match refund_due(recipient.value, funding_fee, recipients.len()) {
            Some(value) => {
                outputs.push(TxOut { value, script_pubkey: recipient.script.clone() });
                assert(outputs[i as int].script_pubkey@ =~= recipient.script@);
            },
            None => {
                assert(refund_share(funding_fee as int, views.len() as int) > views[i as int].value);
                return Err(Abort::Amount);
            },
        }
        i += 1;
    }
    assert(shares_covered(views, funding_fee as int));
    assert(outputs.deep_view() =~= refund_outputs(views, funding_fee as int));
    let affordable = match sum_outputs(&outputs) {
        Some(paid) => funding_psbt.unsigned_tx.output.len() > 0 && paid <= u64::MAX - REFUND_FEE
            && paid + REFUND_FEE == funding_psbt.unsigned_tx.output[0].value,
        None => false,
    };
    if !affordable {
        return Err(Abort::Amount);
    }
    let request = RefundRequest {
        input: OutPoint { txid: funding_psbt.txid(), vout: 0 },
        outputs,
        fee: REFUND_FEE,
        path: TIMELOCK_PATH,
    };
    assert(request.deep_view().outputs =~= refund_outputs(views, funding_fee as int));
    Ok(request)
}

/// The refund recipients of a list of collaterals and refund addresses of equal
/// length: each address with the value of the collateral at the same place.
pub open spec fn recipients_of(utxos: Seq<Collateral>, refund_to: Seq<Address>) -> Seq<RecipientView> {
    Seq::new(
        utxos.len(),
        |i: int| RecipientView { script: refund_to[i].script@, value: utxos[i].value },
    )
}

/// Starts the first contract: asks for the funding transaction that moves the users'
/// collaterals into the contract `pub_desc`, and names whom its refund will pay. There
/// must be as many refund addresses as collaterals, and the descriptor must pass the
/// sanity check.
pub fn build_funding_and_refund(
    pub_desc: &str,
    from_utxos: &Vec<Collateral>,
    refund_to: &Vec<Address>,
) -> (plan: Result<(FundingRequest, Vec<Recipient>), Abort>)
    ensures
        plan is Ok <==> from_utxos.len() == refund_to.len() && passes_sanity_check(pub_desc@),
        plan matches Ok((funding, recipients)) ==> funding.deep_view() == (FundingRequestView {
            descriptor: pub_desc@,
            inputs: outpoints_of(from_utxos@),
            path: COOPERATIVE_PATH,
        }) && recipients.deep_view() == recipients_of(from_utxos@, refund_to@),
        plan matches Err(e) ==> e == (if from_utxos.len() != refund_to.len() {
            Abort::RecipientCount
        } else {
            Abort::MalformedDescriptor
        }),
{
    if from_utxos.len() != refund_to.len() {
        return Err(Abort::RecipientCount);
    }
    if !descriptor_is_sane(pub_desc) {
        return Err(Abort::MalformedDescriptor);
    }
    let mut recipients: Vec<Recipient> = Vec::new();
    let mut i: usize = 0;
    while i < from_utxos.len()
        invariant
            i <= from_utxos.len(),
            from_utxos.len() == refund_to.len(),
            recipients.len() == i,
            forall|j: int|
                0 <= j < i ==> (#[trigger] recipients[j]).deep_view() == recipients_of(
                    from_utxos@,
                    refund_to@,
                )[j],
        decreases from_utxos.len() - i,
    {
        let script = refund_to[i].script.clone();
        assert(script@ =~= refund_to[i as int].script@);
        recipients.push(Recipient { script, value: from_utxos[i].value });
        i += 1;
    }
    assert(recipients.deep_view() =~= recipients_of(from_utxos@, refund_to@));
    Ok((build_funding_tx(pub_desc, from_utxos), recipients))
}

/// A refund that is asked for spends the first output of the funding transaction and
/// nothing else, pays one output to every participant of the funding, and leaves the
/// agreed fee: what it pays and its fee are what the funding output holds.
pub proof fn lemma_refund_request_balances(recipients: Seq<RecipientView>, funding: TxTemplateView)
    requires
        refund_request_for(recipients, funding) is Ok,
    ensures
        ({
            let request = refund_request_for(recipients, funding)->Ok_0;
            &&& request.input == OutPointView { txid: transaction_id(funding.unsigned_tx), vout: 0 }
            &&& request.fee == REFUND_FEE
            &&& request.outputs.len() == funding.unsigned_tx.input.len()
            &&& output_total(request.outputs, request.outputs.len() as int) + request.fee
                == funding.unsigned_tx.output[0].value
        }),
{
}

/// Between two participants the fees are shared without a remainder only if the
/// funding fee is even: a funding with an odd fee gets no refund request.
pub proof fn lemma_odd_fee_gets_no_refund(recipients: Seq<RecipientView>, funding: TxTemplateView)
    requires
        recipients.len() == 2,
        funding.unsigned_tx.output.len() > 0,
        fee_of(funding) matches Some(fee) && fee % 2 == 1 && recipients[0].value
            + recipients[1].value == funding.unsigned_tx.output[0].value + fee,
    ensures
        refund_request_for(recipients, funding) is Err,
{
    let fee = fee_of(funding).unwrap() as int;
    let outputs = refund_outputs(recipients, fee);
    reveal_with_fuel(output_total, 3);
    if shares_covered(recipients, fee) {
        assert(outputs[0].value == recipients[0].value - refund_share(fee, 2));
        assert(outputs[1].value == recipients[1].value - refund_share(fee, 2));
        assert(output_total(outputs, 2) == outputs[0].value + outputs[1].value);
    }
}

/// The views of a list of collaterals.
pub open spec fn collateral_views(utxos: Seq<Collateral>) -> Seq<CollateralView> {
    Seq::new(utxos.len(), |i: int| utxos[i]@)
}

/// The sum of the values of the first `n` collaterals.
pub open spec fn collateral_total(utxos: Seq<CollateralView>, n: int) -> int
    decreases n,
{
    if n <= 0 {
        0
    } else {
        collateral_total(utxos, n - 1) + utxos[n - 1].value as int
    }
}

/// No two collaterals are the same output.
pub open spec fn collaterals_distinct(utxos: Seq<CollateralView>) -> bool {
    forall|i: int, j: int| 0 <= i < j < utxos.len() ==> utxos[i].outpoint != utxos[j].outpoint
}

/// Every collateral is spent by exactly one input.
pub open spec fn spends_each_once(t: TxTemplateView, utxos: Seq<CollateralView>) -> bool {
    forall|i: int|
        0 <= i < utxos.len() ==> spending_inputs(
            t.unsigned_tx,
            (#[trigger] utxos[i]).outpoint,
            t.unsigned_tx.input.len() as int,
        ) == 1
}

/// A funding transaction is what was asked for: it spends the collaterals, each once
/// and nothing else, and has one output, which pays the contract what the collaterals
/// are worth less the fee.
pub open spec fn funding_as_asked(
    t: TxTemplateView,
    contract_script: Seq<u8>,
    utxos: Seq<CollateralView>,
) -> bool {
    &&& t.unsigned_tx.output.len() == 1
    &&& t.unsigned_tx.output[0].script_pubkey == contract_script
    &&& t.unsigned_tx.input.len() == utxos.len()
    &&& collaterals_distinct(utxos)
    &&& spends_each_once(t, utxos)
    &&& fee_of(t) matches Some(fee)
    &&& t.unsigned_tx.output[0].value + fee == collateral_total(utxos, utxos.len() as int)
}

proof fn lemma_collateral_total_grows(utxos: Seq<CollateralView>, a: int, b: int)
    requires
        a <= b,
    ensures
        0 <= collateral_total(utxos, a) <= collateral_total(utxos, b),
    decreases b - a,
{
    if a < b {
        lemma_collateral_total_grows(utxos, a, b - 1);
    } else {
        lemma_collateral_total_nonnegative(utxos, a);
    }
}

proof fn lemma_collateral_total_nonnegative(utxos: Seq<CollateralView>, n: int)
    ensures
        0 <= collateral_total(utxos, n),
    decreases n,
{
    if n > 0 {
        lemma_collateral_total_nonnegative(utxos, n - 1);
    }
}

fn sum_collaterals(utxos: &Vec<Collateral>) -> (sum: Option<u64>)
    ensures
        match sum {
            Some(total) => total == collateral_total(collateral_views(utxos@), utxos.len() as int),
            None => collateral_total(collateral_views(utxos@), utxos.len() as int) > u64::MAX,
        },
{
    let ghost views = collateral_views(utxos@);
    let mut total: u64 = 0;
    let mut i: usize = 0;
    while i < utxos.len()
        invariant
            i <= utxos.len(),
            views == collateral_views(utxos@),
            total == collateral_total(views, i as int),
        decreases utxos.len() - i,
    {
        let value = utxos[i].value;
        assert(views[i as int].value == value);
        if value > u64::MAX - total {
            proof {
                lemma_collateral_total_grows(views, i + 1, views.len() as int);
            }
            return None;
        }
        total = total + value;
        i += 1;
    }
    Some(total)
}

fn distinct_collaterals(utxos: &Vec<Collateral>) -> (distinct: bool)
    ensures
        distinct == collaterals_distinct(collateral_views(utxos@)),
{
    let ghost views = collateral_views(utxos@);
    let mut j: usize = 0;
    while j < utxos.len()
        invariant
            j <= utxos.len(),
            views == collateral_views(utxos@),
            forall|a: int, b: int| 0 <= a < b < j ==> views[a].outpoint != views[b].outpoint,
        decreases utxos.len() - j,
    {
        let mut i: usize = 0;
        while i < j
            invariant
                i <= j < utxos.len(),
                views == collateral_views(utxos@),
                forall|a: int| 0 <= a < i ==> views[a].outpoint != views[j as int].outpoint,
            decreases j - i,
        {
            if utxos[i].outpoint.same_as(&utxos[j].outpoint) {
                assert(views[i as int].outpoint == views[j as int].outpoint);
                return false;
            }
            i += 1;
        }
        j += 1;
    }
    true
}

/// Whether a funding transaction that the wallet built is what was asked for.
pub fn check_built_funding(t: &TxTemplate, contract_script: &[u8], utxos: &Vec<Collateral>) -> (asked:
    bool)
    ensures
        asked == funding_as_asked(t@, contract_script@, collateral_views(utxos@)),
{
    let ghost views = collateral_views(utxos@);
    if t.unsigned_tx.output.len() != 1 || !bytes_eq(
        t.unsigned_tx.output[0].script_pubkey.as_slice(),
        contract_script,
    ) || t.unsigned_tx.input.len() != utxos.len() || !distinct_collaterals(utxos) {
        return false;
    }
    let mut i: usize = 0;
    while i < utxos.len()
        invariant
            i <= utxos.len(),
            views == collateral_views(utxos@),
            forall|j: int|
                0 <= j < i ==> spending_inputs(
                    t@.unsigned_tx,
                    (#[trigger] views[j]).outpoint,
                    t@.unsigned_tx.input.len() as int,
                ) == 1,
        decreases utxos.len() - i,
    {
        assert(views[i as int].outpoint == utxos[i as int].outpoint@);
        if count_spending(t, &utxos[i].outpoint) != 1 {
            return false;
        }
        i += 1;
    }
    assert(spends_each_once(t@, views));
    proof {
        reveal_with_fuel(output_total, 2);
        assert(output_total(t@.unsigned_tx.output, 1) == t@.unsigned_tx.output[0].value);
    }
    match (t.fee_amount(), sum_collaterals(utxos)) {
        (Some(fee), Some(total)) => fee <= total && t.unsigned_tx.output[0].value == total - fee,
        _ => false,
    }
}

/// Every output that was asked for is paid by exactly one output of the refund, with
/// the value that was asked for.
pub open spec fn pays_as_asked(t: TxTemplateView, outputs: Seq<TxOutView>) -> bool {
    forall|j: int|
        0 <= j < outputs.len() ==> paying_outputs(
            t.unsigned_tx.output,
            (#[trigger] outputs[j]).script_pubkey,
            t.unsigned_tx.output.len() as int,
        ) == 1 && first_paid(
            t.unsigned_tx.output,
            outputs[j].script_pubkey,
            t.unsigned_tx.output.len() as int,
        ) == Some(outputs[j].value)
}

/// A refund transaction is what was asked for: its one input spends the funding output
/// and shows it as it is, it carries the timelock, it leaves the fee that was asked
/// for, and it has as many outputs as were asked for, one for each.
pub open spec fn refund_as_asked(
    t: TxTemplateView,
    request: RefundRequestView,
    funding: TxTemplateView,
) -> bool {
    &&& request.input.vout == 0
    &&& refund_spends_funding(funding, t, request.input.txid)
    &&& refund_timelocked(t)
    &&& fee_of(t) == Some(request.fee)
    &&& t.unsigned_tx.output.len() == request.outputs.len()
    &&& pays_as_asked(t, request.outputs)
}

/// Whether a refund transaction that the wallet built is what was asked for.
pub fn check_built_refund(t: &TxTemplate, request: &RefundRequest, funding: &TxTemplate) -> (asked:
    bool)
    ensures
        asked == refund_as_asked(t@, request.deep_view(), funding@),
{
    let ghost outputs = request.deep_view().outputs;
    if request.input.vout != 0 || t.inputs.len() != 1 || t.unsigned_tx.input.len() != 1
        || !t.unsigned_tx.input[0].previous_output.same_as(&request.input)
        || funding.unsigned_tx.output.len() == 0 || !t.shows_spent(
        0,
        &funding.unsigned_tx.output[0],
    ) {
        return false;
    }
    if t.unsigned_tx.version != 2 || t.unsigned_tx.input[0].sequence != REFUND_TIMELOCK {
        return false;
    }
    let agreed = match t.fee_amount() {
        Some(fee) => fee == request.fee,
        None => false,
    };
    if !agreed || t.unsigned_tx.output.len() != request.outputs.len() {
        return false;
    }
    let mut j: usize = 0;
    while j < request.outputs.len()
        invariant
            j <= request.outputs.len(),
            outputs == request.deep_view().outputs,
            forall|k: int|
                0 <= k < j ==> paying_outputs(
                    t@.unsigned_tx.output,
                    (#[trigger] outputs[k]).script_pubkey,
                    t@.unsigned_tx.output.len() as int,
                ) == 1 && first_paid(
                    t@.unsigned_tx.output,
                    outputs[k].script_pubkey,
                    t@.unsigned_tx.output.len() as int,
                ) == Some(outputs[k].value),
        decreases request.outputs.len() - j,
    {
        let wanted = &request.outputs[j];
        assert(outputs[j as int] == wanted.deep_view());
        let (paying, paid) = find_paid(t, wanted.script_pubkey.as_slice());
        let as_asked = match paid {
            Some(value) => paying == 1 && value == wanted.value,
            None => false,
        };
        if !as_asked {
            return false;
        }
        j += 1;
    }
    assert(pays_as_asked(t@, outputs));
    true
}

} // verus!
