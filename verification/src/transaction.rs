//! Transaction templates as the protocol reads them: the unsigned transaction, what
//! each input says of the output it spends, and the fee that follows from both.

use crate::bytes::bytes_eq;
use crate::error::Abort;
use bdk::bitcoin::hashes::Hash as HashOps;
use bdk::bitcoin::{PackedLockTime, Script, Sequence, Txid, Witness};
use vstd::prelude::*;

verus! {

/// A reference to one output of a transaction.
#[derive(Debug, Clone, Copy, PartialEq, Eq)]
pub struct OutPoint {
    pub txid: [u8; 32],
    pub vout: u32,
}

/// The mathematical view of `OutPoint`: the same value over sequences.
pub struct OutPointView {
    pub txid: Seq<u8>,
    pub vout: u32,
}

impl View for OutPoint {
    type V = OutPointView;

    open spec fn view(&self) -> OutPointView {
        OutPointView { txid: self.txid@, vout: self.vout }
    }
}

impl OutPoint {
    /// Whether both refer to the same output.
    pub fn same_as(&self, other: &OutPoint) -> (same: bool)
        ensures
            same == (self@ == other@),
    {
        self.vout == other.vout && bytes_eq(self.txid.as_slice(), other.txid.as_slice())
    }
}

/// An input of an unsigned transaction.
#[derive(Debug, Clone, PartialEq, Eq)]
pub struct TxIn {
    pub previous_output: OutPoint,
    pub script_sig: Vec<u8>,
    pub sequence: u32,
}

/// The mathematical view of `TxIn`: the same value over sequences.
pub struct TxInView {
    pub previous_output: OutPointView,
    pub script_sig: Seq<u8>,
    pub sequence: u32,
}

impl DeepView for TxIn {
    type V = TxInView;

    open spec fn deep_view(&self) -> TxInView {
        TxInView {
            previous_output: self.previous_output@,
            script_sig: self.script_sig@,
            sequence: self.sequence,
        }
    }
}

/// An output: an amount and the script that guards it.
#[derive(Debug, Clone, PartialEq, Eq)]
pub struct TxOut {
    pub value: u64,
    pub script_pubkey: Vec<u8>,
}

/// The mathematical view of `TxOut`: the same value over sequences.
pub struct TxOutView {
    pub value: u64,
    pub script_pubkey: Seq<u8>,
}

impl DeepView for TxOut {
    type V = TxOutView;

    open spec fn deep_view(&self) -> TxOutView {
        TxOutView { value: self.value, script_pubkey: self.script_pubkey@ }
    }
}

/// An unsigned transaction.
#[derive(Debug, Clone, PartialEq, Eq)]
pub struct Transaction {
    pub version: i32,
    pub lock_time: u32,
    pub input: Vec<TxIn>,
    pub output: Vec<TxOut>,
}

/// The mathematical view of `Transaction`: the same value over sequences.
pub struct TransactionView {
    pub version: i32,
    pub lock_time: u32,
    pub input: Seq<TxInView>,
    pub output: Seq<TxOutView>,
}

impl DeepView for Transaction {
    type V = TransactionView;

    open spec fn deep_view(&self) -> TransactionView {
        TransactionView {
            version: self.version,
            lock_time: self.lock_time,
            input: self.input.deep_view(),
            output: self.output.deep_view(),
        }
    }
}

impl View for Transaction {
    type V = TransactionView;

    open spec fn view(&self) -> TransactionView {
        self.deep_view()
    }
}

/// What a template says of the output that one of its inputs spends: the output
/// itself, or the outputs of the whole transaction that holds it, or nothing.
#[derive(Debug, Clone, PartialEq, Eq)]
pub struct InputData {
    pub witness_utxo: Option<TxOut>,
    pub non_witness_utxo: Option<Vec<TxOut>>,
}

/// The mathematical view of `InputData`: the same value over sequences.
pub struct InputDataView {
    pub witness_utxo: Option<TxOutView>,
    pub non_witness_utxo: Option<Seq<TxOutView>>,
}

impl DeepView for InputData {
    type V = InputDataView;

    open spec fn deep_view(&self) -> InputDataView {
        InputDataView {
            witness_utxo: self.witness_utxo.deep_view(),
            non_witness_utxo: self.non_witness_utxo.deep_view(),
        }
    }
}

/// A transaction template: an unsigned transaction, and the data that comes with each
/// input.
#[derive(Debug, Clone, PartialEq, Eq)]
pub struct TxTemplate {
    pub unsigned_tx: Transaction,
    pub inputs: Vec<InputData>,
}

/// The mathematical view of `TxTemplate`: the same value over sequences.
pub struct TxTemplateView {
    pub unsigned_tx: TransactionView,
    pub inputs: Seq<InputDataView>,
}

impl DeepView for TxTemplate {
    type V = TxTemplateView;

    open spec fn deep_view(&self) -> TxTemplateView {
        TxTemplateView {
            unsigned_tx: self.unsigned_tx.deep_view(),
            inputs: self.inputs.deep_view(),
        }
    }
}

impl View for TxTemplate {
    type V = TxTemplateView;

    open spec fn view(&self) -> TxTemplateView {
        self.deep_view()
    }
}

/// The identifier of an unsigned transaction.
pub uninterp spec fn transaction_id(tx: TransactionView) -> Seq<u8>;

/// Builds the bitcoin library's `Transaction` with the same version, lock time, inputs
/// (previous output, signature script, sequence; no witness) and outputs, and calls its
/// `txid`. Trusted: the identifier is a function of those fields alone.
#[verifier::external_body]
pub(crate) fn compute_txid(tx: &Transaction) -> (id: [u8; 32])
    ensures
        id@ == transaction_id(tx@),
{
    let input = tx.input.iter().map(|i| bdk::bitcoin::TxIn {
        previous_output: bdk::bitcoin::OutPoint::new(Txid::from_inner(i.previous_output.txid), i.previous_output.vout),
        script_sig: Script::from(i.script_sig.clone()),
        sequence: Sequence(i.sequence),
        witness: Witness::default(),
    }).collect();
    let output = tx.output.iter().map(|o| bdk::bitcoin::TxOut {
        value: o.value,
        script_pubkey: Script::from(o.script_pubkey.clone()),
    }).collect();
    let lock_time = PackedLockTime(tx.lock_time);
    bdk::bitcoin::Transaction { version: tx.version, lock_time, input, output }.txid().into_inner()
}

/// The output that input `i` spends, as the template shows it: the witness output where
/// the input carries one, else the output that the input names in the previous
/// transaction where the input carries that.
pub open spec fn utxo_for(t: TxTemplateView, i: int) -> Option<TxOutView> {
    if 0 <= i < t.unsigned_tx.input.len() && i < t.inputs.len() {
        match t.inputs[i].witness_utxo {
            Some(out) => Some(out),
            None => previous_output_of(t, i),
        }
    } else {
        None
    }
}

/// The output that input `i` names in the previous transaction that comes with it.
pub open spec fn previous_output_of(t: TxTemplateView, i: int) -> Option<TxOutView> {
    if 0 <= i < t.unsigned_tx.input.len() && i < t.inputs.len() {
        match t.inputs[i].non_witness_utxo {
            Some(outs) => {
                let vout = t.unsigned_tx.input[i].previous_output.vout as int;
                if vout < outs.len() {
                    Some(outs[vout])
                } else {
                    None
                }
            },
            None => None,
        }
    } else {
        None
    }
}

/// The sum of the values that the first `n` inputs spend; an input of which the
/// template shows no output counts as nothing.
pub open spec fn input_total(t: TxTemplateView, n: int) -> int
    decreases n,
{
    if n <= 0 {
        0
    } else {
        input_total(t, n - 1) + match utxo_for(t, n - 1) {
            Some(out) => out.value as int,
            None => 0,
        }
    }
}

/// The sum of the values of the first `n` outputs.
pub open spec fn output_total(outs: Seq<TxOutView>, n: int) -> int
    decreases n,
{
    if n <= 0 {
        0
    } else {
        output_total(outs, n - 1) + outs[n - 1].value as int
    }
}

/// The template shows the spent output of every input.
pub open spec fn inputs_known(t: TxTemplateView) -> bool {
    forall|i: int| 0 <= i < t.unsigned_tx.input.len() ==> (#[trigger] utxo_for(t, i)) is Some
}

/// The fee of a template: what its inputs spend less what its outputs pay. There is
/// none where an input's spent output is unknown, where a sum exceeds 64 bits, or
/// where the outputs pay more than the inputs spend.
pub open spec fn fee_of(t: TxTemplateView) -> Option<u64> {
    let spent = input_total(t, t.unsigned_tx.input.len() as int);
    let paid = output_total(t.unsigned_tx.output, t.unsigned_tx.output.len() as int);
    if inputs_known(t) && paid <= spent <= u64::MAX {
        Some((spent - paid) as u64)
    } else {
        None
    }
}

pub proof fn lemma_input_total_grows(t: TxTemplateView, a: int, b: int)
    requires
        a <= b,
    ensures
        0 <= input_total(t, a) <= input_total(t, b),
    decreases b - a,
{
    if a < b {
        lemma_input_total_grows(t, a, b - 1);
    } else {
        lemma_input_total_nonnegative(t, a);
    }
}

proof fn lemma_input_total_nonnegative(t: TxTemplateView, n: int)
    ensures
        0 <= input_total(t, n),
    decreases n,
{
    if n > 0 {
        lemma_input_total_nonnegative(t, n - 1);
    }
}

pub proof fn lemma_output_total_grows(outs: Seq<TxOutView>, a: int, b: int)
    requires
        a <= b,
    ensures
        0 <= output_total(outs, a) <= output_total(outs, b),
    decreases b - a,
{
    if a < b {
        lemma_output_total_grows(outs, a, b - 1);
    } else {
        lemma_output_total_nonnegative(outs, a);
    }
}

proof fn lemma_output_total_nonnegative(outs: Seq<TxOutView>, n: int)
    ensures
        0 <= output_total(outs, n),
    decreases n,
{
    if n > 0 {
        lemma_output_total_nonnegative(outs, n - 1);
    }
}

/// The sum of the values of a list of outputs, unless it exceeds 64 bits.
pub fn sum_outputs(outputs: &Vec<TxOut>) -> (sum: Option<u64>)
    ensures
        match sum {
            Some(paid) => paid == output_total(outputs.deep_view(), outputs.len() as int),
            None => output_total(outputs.deep_view(), outputs.len() as int) > u64::MAX,
        },
{
    let ghost outs = outputs.deep_view();
    let mut sum: u64 = 0;
    let mut i: usize = 0;
    while i < outputs.len()
        invariant
            i <= outputs.len(),
            outs == outputs.deep_view(),
            sum == output_total(outs, i as int),
        decreases outputs.len() - i,
    {
        let value = outputs[i].value;
        if value > u64::MAX - sum {
            proof {
                lemma_output_total_grows(outs, i + 1, outs.len() as int);
            }
            return None;
        }
        sum = sum + value;
        i += 1;
    }
    Some(sum)
}

impl TxTemplate {
    /// The identifier of the unsigned transaction.
    pub fn txid(&self) -> (id: [u8; 32])
        ensures
            id@ == transaction_id(self@.unsigned_tx),
    {
        compute_txid(&self.unsigned_tx)
    }

    /// The value of the output that input `i` spends, as far as the template shows it.
    pub fn utxo_value(&self, i: usize) -> (value: Option<u64>)
        ensures
            value == match utxo_for(self@, i as int) {
                Some(out) => Some(out.value),
                None => None::<u64>,
            },
    {
        if i >= self.unsigned_tx.input.len() || i >= self.inputs.len() {
            return None;
        }
        match &self.inputs[i].witness_utxo {
            Some(out) => Some(out.value),
            None => self.previous_value(i),
        }
    }

    /// Whether the output that input `i` spends, as the template shows it, is `out`: the
    /// same value under the same script.
    pub fn shows_spent(&self, i: usize, out: &TxOut) -> (same: bool)
        ensures
            same == (utxo_for(self@, i as int) == Some(out.deep_view())),
    {
        if i >= self.unsigned_tx.input.len() || i >= self.inputs.len() {
            return false;
        }
        let shown = match &self.inputs[i].witness_utxo {
            Some(shown) => shown,
            None => match &self.inputs[i].non_witness_utxo {
                Some(outs) => {
                    let vout = self.unsigned_tx.input[i].previous_output.vout as usize;
                    if vout < outs.len() {
                        &outs[vout]
                    } else {
                        return false;
                    }
                },
                None => {
                    return false;
                },
            },
        };
        shown.value == out.value && bytes_eq(
            shown.script_pubkey.as_slice(),
            out.script_pubkey.as_slice(),
        )
    }

    /// The value of the output that input `i` names in the previous transaction that
    /// comes with it.
    pub fn previous_value(&self, i: usize) -> (value: Option<u64>)
        ensures
            value == match previous_output_of(self@, i as int) {
                Some(out) => Some(out.value),
                None => None::<u64>,
            },
    {
        if i >= self.unsigned_tx.input.len() || i >= self.inputs.len() {
            return None;
        }
        match &self.inputs[i].non_witness_utxo {
            Some(outs) => {
                let vout = self.unsigned_tx.input[i].previous_output.vout as usize;
                if vout < outs.len() {
                    Some(outs[vout].value)
                } else {
                    None
                }
            },
            None => None,
        }
    }

    /// The sum of the output values, unless it exceeds 64 bits.
    pub fn output_sum(&self) -> (sum: Option<u64>)
        ensures
            match sum {
                Some(paid) => paid == output_total(
                    self@.unsigned_tx.output,
                    self@.unsigned_tx.output.len() as int,
                ),
                None => output_total(self@.unsigned_tx.output, self@.unsigned_tx.output.len() as int)
                    > u64::MAX,
            },
    {
        sum_outputs(&self.unsigned_tx.output)
    }

    /// The total transaction fee: the sum of the input amounts less the sum of the
    /// output amounts.
    pub fn fee_amount(&self) -> (fee: Option<u64>)
        ensures
            fee == fee_of(self@),
    {
        let mut spent: u64 = 0;
        let mut i: usize = 0;
        while i < self.unsigned_tx.input.len()
            invariant
                i <= self.unsigned_tx.input.len(),
                spent == input_total(self@, i as int),
                forall|j: int| 0 <= j < i ==> (#[trigger] utxo_for(self@, j)) is Some,
            decreases self.unsigned_tx.input.len() - i,
        {
            match self.utxo_value(i) {
                Some(value) => {
                    if value > u64::MAX - spent {
                        proof {
                            lemma_input_total_grows(
                                self@,
                                i + 1,
                                self@.unsigned_tx.input.len() as int,
                            );
                        }
                        return None;
                    }
                    spent = spent + value;
                },
                None => {
                    return None;
                },
            }
            i += 1;
        }
        assert(self@.unsigned_tx.input.len() == self.unsigned_tx.input.len());
        assert(spent == input_total(self@, self@.unsigned_tx.input.len() as int));
        assert(inputs_known(self@));
        match self.output_sum() {
            Some(paid) => if paid <= spent {
                Some(spent - paid)
            } else {
                None
            },
            None => {
                None
            },
        }
    }
}

/// Takes a template that a peer sent. Where an identifier is expected, the template
/// must be of the transaction with that identifier.
pub fn read_psbt(psbt: TxTemplate, txid: Option<[u8; 32]>) -> (read: Result<TxTemplate, Abort>)
    ensures
        match read {
            Ok(template) => template == psbt && (txid matches Some(id) ==> transaction_id(
                psbt@.unsigned_tx,
            ) == id@),
            Err(e) => e == Abort::TxidMismatch && (txid matches Some(id) && transaction_id(
                psbt@.unsigned_tx,
            ) != id@),
        },
{
    match txid {
        Some(id) => {
            let found = psbt.txid();
            if bytes_eq(found.as_slice(), id.as_slice()) {
                Ok(psbt)
            } else {
                Err(Abort::TxidMismatch)
            }
        },
        None => Ok(psbt),
    }
}

} // verus!
