use vstd::prelude::*;
use vstd::string::StringExecFns;
use crate::decimal::{decimal_digits, decimal_digits_injective, push_decimal};

verus! {

/// The name a sweep gives its `index`-th point.
pub open spec fn sweep_label_text(index: nat) -> Seq<char> {
    "sweep-"@ + decimal_digits(index)
}

/// Names the `index`-th point of a parameter sweep (`sweep-0`, `sweep-1`, ...).
pub fn sweep_label(index: usize) -> (s: String)
    ensures
        s@ == sweep_label_text(index as nat),
        s@ == "sweep-"@ + decimal_digits(index as nat),
{
    let mut s = String::from_str("sweep-");
    push_decimal(&mut s, index as u64);
    s
}

/// The error reported when one scenario of a run fails.
pub open spec fn scenario_failure_text(scenario: Seq<char>, error: Seq<char>) -> Seq<char> {
    "Scenario '"@ + scenario + "' failed: "@ + error
}

/// Wraps the error of a failed run scenario with the scenario's name.
pub fn scenario_failure(scenario: &str, error: &str) -> (s: String)
    ensures
        s@ == scenario_failure_text(scenario@, error@),
        s@ == "Scenario '"@ + scenario@ + "' failed: "@ + error@,
{
    let mut s = String::from_str("Scenario '");
    s.append(scenario);
    s.append("' failed: ");
    s.append(error);
    s
}

/// The error reported when one point of a sweep fails.
pub open spec fn sweep_failure_text(index: nat, error: Seq<char>) -> Seq<char> {
    "Sweep point "@ + decimal_digits(index) + " failed: "@ + error
}

/// Wraps the error of a failed sweep point with the point's index.
pub fn sweep_failure(index: usize, error: &str) -> (s: String)
    ensures
        s@ == sweep_failure_text(index as nat, error@),
        s@ == "Sweep point "@ + decimal_digits(index as nat) + " failed: "@ + error@,
{
    let mut s = String::from_str("Sweep point ");
    push_decimal(&mut s, index as u64);
    s.append(" failed: ");
    s.append(error);
    s
}

/// The error reported when the worker running a simulation could not be joined.
pub open spec fn join_failure_text(detail: Seq<char>) -> Seq<char> {
    "Task join failure: "@ + detail
}

/// Wraps the reason a simulation worker could not be joined.
pub fn join_failure(detail: &str) -> (s: String)
    ensures
        s@ == join_failure_text(detail@),
        s@ == "Task join failure: "@ + detail@,
{
    let mut s = String::from_str("Task join failure: ");
    s.append(detail);
    s
}

/// The event payload telling a slow subscriber how many events it missed.
pub open spec fn lagged_notice_text(skipped: nat) -> Seq<char> {
    "{\"type\":\"lagged\",\"skipped\":"@ + decimal_digits(skipped) + "}"@
}

/// The event payload sent in place of `skipped` events a subscriber fell behind on.
pub fn lagged_notice(skipped: u64) -> (s: String)
    ensures
        s@ == lagged_notice_text(skipped as nat),
        s@ == "{\"type\":\"lagged\",\"skipped\":"@ + decimal_digits(skipped as nat) + "}"@,
{
    let mut s = String::from_str("{\"type\":\"lagged\",\"skipped\":");
    push_decimal(&mut s, skipped);
    s.append("}");
    s
}

/// Different sweep points get different labels.
pub proof fn sweep_labels_distinct(i: nat, j: nat)
    requires
        i != j,
    ensures
        sweep_label_text(i) != sweep_label_text(j),
{
    let p = "sweep-"@;
    if sweep_label_text(i) == sweep_label_text(j) {
        assert(sweep_label_text(i).skip(p.len() as int) =~= decimal_digits(i));
        assert(sweep_label_text(j).skip(p.len() as int) =~= decimal_digits(j));
        decimal_digits_injective(i, j);
    }
}

/// Different failing sweep points are told apart by their error text.
pub proof fn sweep_failures_name_the_point(i: nat, j: nat, error: Seq<char>)
    requires
        i != j,
    ensures
        sweep_failure_text(i, error) != sweep_failure_text(j, error),
{
    let p = "Sweep point "@;
    let q = " failed: "@ + error;
    if sweep_failure_text(i, error) == sweep_failure_text(j, error) {
        let a = sweep_failure_text(i, error);
        assert(a =~= p + decimal_digits(i) + q);
        assert(sweep_failure_text(j, error) =~= p + decimal_digits(j) + q);
        assert(a.len() == p.len() + decimal_digits(i).len() + q.len());
        assert(a.subrange(p.len() as int, a.len() - q.len()) =~= decimal_digits(i));
        assert(a.subrange(p.len() as int, a.len() - q.len()) =~= decimal_digits(j));
        decimal_digits_injective(i, j);
    }
}

/// The lagged notice carries the number of skipped events: different counts
/// give different notices.
pub proof fn lagged_notices_distinct(m: nat, n: nat)
    requires
        m != n,
    ensures
        lagged_notice_text(m) != lagged_notice_text(n),
{
    let p = "{\"type\":\"lagged\",\"skipped\":"@;
    let q = "}"@;
    if lagged_notice_text(m) == lagged_notice_text(n) {
        let a = lagged_notice_text(m);
        assert(a =~= p + decimal_digits(m) + q);
        assert(lagged_notice_text(n) =~= p + decimal_digits(n) + q);
        assert(a.subrange(p.len() as int, a.len() - q.len()) =~= decimal_digits(m));
        assert(a.subrange(p.len() as int, a.len() - q.len()) =~= decimal_digits(n));
        decimal_digits_injective(m, n);
    }
}

} // verus!
