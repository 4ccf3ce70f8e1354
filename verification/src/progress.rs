use vstd::prelude::*;
use vstd::arithmetic::div_mod::{lemma_fundamental_div_mod, lemma_mod_multiples_basic};

verus! {

/// How many qubits make up one progress batch: a hundredth of the key,
/// but at least one.
pub open spec fn batch_size(key_length: nat) -> nat {
    if key_length / 100 >= 1 { key_length / 100 } else { 1 }
}

/// Whether progress is reported after the qubit at `index`: at the end of
/// every batch and after the last qubit.
pub open spec fn reports_at(index: nat, key_length: nat) -> bool {
    (index + 1) % batch_size(key_length) == 0 || index + 1 == key_length
}

/// What the streaming loop does after transmitting one qubit.
#[derive(Debug, Clone, Copy, PartialEq, Eq, Structural)]
pub enum ProgressAction {
    /// Go on with the next qubit.
    Continue,
    /// Publish a progress event.
    Report,
    /// Publish a progress event, then wait `pace_ms` before going on.
    ReportThenPause,
}

/// The action after the qubit at `index` of a `key_length`-qubit run paced
/// at `pace_ms`: report at batch ends and at the last qubit, and pause after
/// a report whenever pacing is on and qubits remain.
pub open spec fn action_at(index: nat, key_length: nat, pace_ms: nat) -> ProgressAction {
    if !reports_at(index, key_length) {
        ProgressAction::Continue
    } else if pace_ms > 0 && index + 1 < key_length {
        ProgressAction::ReportThenPause
    } else {
        ProgressAction::Report
    }
}

/// The progress batch size for a run of `key_length` qubits.
pub fn progress_batch(key_length: usize) -> (b: usize)
    ensures
        b == batch_size(key_length as nat),
        b >= 1,
        key_length >= 100 ==> b == key_length / 100,
        key_length < 100 ==> b == 1,
{
    let b = key_length / 100;
    if b >= 1 {
        b
    } else {
        1
    }
}

/// What to do after transmitting the qubit at `index`.
pub fn progress_action(index: usize, key_length: usize, pace_ms: u64) -> (a: ProgressAction)
    requires
        index < key_length,
    ensures
        a == action_at(index as nat, key_length as nat, pace_ms as nat),
        index + 1 == key_length ==> a == ProgressAction::Report,
        ((index + 1) as nat) % batch_size(key_length as nat) == 0 ==> a != ProgressAction::Continue,
        (((index + 1) as nat) % batch_size(key_length as nat) != 0 && index + 1 != key_length) ==> a
            == ProgressAction::Continue,
        a == ProgressAction::ReportThenPause <==> (a != ProgressAction::Continue && pace_ms > 0
            && index + 1 < key_length),
{
    let batch = progress_batch(key_length);
    let done = index + 1;
    if done % batch == 0 || done == key_length {
        if pace_ms > 0 && done < key_length {
            ProgressAction::ReportThenPause
        } else {
            ProgressAction::Report
        }
    } else {
        ProgressAction::Continue
    }
}

/// The last qubit of a run is always reported, and never followed by a pause.
pub proof fn last_qubit_reported(key_length: nat, pace_ms: nat)
    requires
        key_length > 0,
    ensures
        action_at((key_length - 1) as nat, key_length, pace_ms) == ProgressAction::Report,
{
}

/// Progress is reported at least once every batch: from any qubit, a report
/// follows within fewer than `batch_size` qubits.
pub proof fn reports_within_a_batch(index: nat, key_length: nat)
    requires
        index < key_length,
    ensures
        exists|j: nat|
            index <= j < key_length && j < index + batch_size(key_length) && #[trigger] reports_at(
                j,
                key_length,
            ),
{
    let b = batch_size(key_length) as int;
    let x = (index + 1) as int;
    lemma_fundamental_div_mod(x, b);
    let q = x / b;
    let r = x % b;
    if r == 0 {
        assert(reports_at(index, key_length));
    } else {
        let next = (q + 1) * b - 1;
        assert(next + 1 == (q + 1) * b);
        lemma_mod_multiples_basic(q + 1, b);
        assert(next - index == b - r) by (nonlinear_arith)
            requires
                x == b * q + r,
                next == (q + 1) * b - 1,
                x == index + 1,
        ;
        if next < key_length {
            let j = next as nat;
            assert(reports_at(j, key_length));
        } else {
            let j = (key_length - 1) as nat;
            assert(reports_at(j, key_length));
        }
    }
}

/// A batch is a hundredth of the run, or a single qubit for runs shorter
/// than a hundred qubits.
pub proof fn batch_is_a_hundredth(key_length: nat)
    ensures
        batch_size(key_length) >= 1,
        key_length >= 100 ==> batch_size(key_length) == key_length / 100,
        key_length < 100 ==> batch_size(key_length) == 1,
{
}

/// Every report made before the last qubit of a paced run is followed by a
/// pause; an unpaced run never pauses, and nothing pauses after the last qubit.
pub proof fn pacing_is_honoured(index: nat, key_length: nat, pace_ms: nat)
    requires
        index < key_length,
    ensures
        (action_at(index, key_length, pace_ms) != ProgressAction::Continue && pace_ms > 0 && index
            + 1 < key_length) ==> action_at(index, key_length, pace_ms)
            == ProgressAction::ReportThenPause,
        pace_ms == 0 ==> action_at(index, key_length, pace_ms) != ProgressAction::ReportThenPause,
        index + 1 == key_length ==> action_at(index, key_length, pace_ms)
            != ProgressAction::ReportThenPause,
{
}

/// Whether a qubit is reported does not depend on the pacing.
pub proof fn reporting_independent_of_pace(index: nat, key_length: nat, pace1: nat, pace2: nat)
    ensures
        (action_at(index, key_length, pace1) == ProgressAction::Continue) == (action_at(
            index,
            key_length,
            pace2,
        ) == ProgressAction::Continue),
{
}

/// Each batch end and the last qubit are reported; no other qubit is.
pub proof fn reports_exactly_at_batch_ends(index: nat, key_length: nat, pace_ms: nat)
    requires
        index < key_length,
    ensures
        (index + 1) % batch_size(key_length) == 0 ==> action_at(index, key_length, pace_ms)
            != ProgressAction::Continue,
        index + 1 == key_length ==> action_at(index, key_length, pace_ms)
            != ProgressAction::Continue,
        ((index + 1) % batch_size(key_length) != 0 && index + 1 != key_length) ==> action_at(
            index,
            key_length,
            pace_ms,
        ) == ProgressAction::Continue,
{
}

} // verus!
