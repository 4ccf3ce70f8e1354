use vstd::prelude::*;

verus! {

/// Which rule produced a verdict.
#[derive(Debug, Clone, Copy, PartialEq, Eq, Structural)]
pub enum VerdictNote {
    /// No basis matched: nothing was sifted, so nothing can be trusted.
    SignalLoss,
    /// The mismatch rate was held against the finite-key (Hoeffding) threshold.
    FiniteKeyBound,
}

/// The authenticity decision for one channel.
#[derive(Debug, Clone, Copy, PartialEq, Eq, Structural)]
pub struct Verdict {
    pub is_authentic: bool,
    pub threat_flagged: bool,
    pub note: VerdictNote,
}

/// The verdict for a channel with `matching_bases_count` sifted positions
/// whose mismatch rate is (`within_threshold`) or is not at or below the
/// dynamic threshold.
pub open spec fn verdict_for(matching_bases_count: nat, within_threshold: bool) -> Verdict {
    if matching_bases_count == 0 {
        Verdict { is_authentic: false, threat_flagged: true, note: VerdictNote::SignalLoss }
    } else {
        Verdict {
            is_authentic: within_threshold,
            threat_flagged: !within_threshold,
            note: VerdictNote::FiniteKeyBound,
        }
    }
}

/// The explanation attached to each kind of verdict.
pub open spec fn note_text(note: VerdictNote) -> Seq<char> {
    match note {
        VerdictNote::SignalLoss => "Zero matching bases: complete signal loss or empty transmission."@,
        VerdictNote::FiniteKeyBound => "Evaluated with finite-key Hoeffding bound."@,
    }
}

impl VerdictNote {
    /// The explanation shown with the verdict.
    pub fn text(&self) -> (s: &'static str)
        ensures
            s@ == note_text(*self),
            *self == VerdictNote::SignalLoss ==> s@
                == "Zero matching bases: complete signal loss or empty transmission."@,
            *self == VerdictNote::FiniteKeyBound ==> s@
                == "Evaluated with finite-key Hoeffding bound."@,
    {
        match self {
            VerdictNote::SignalLoss => "Zero matching bases: complete signal loss or empty transmission.",
            VerdictNote::FiniteKeyBound => "Evaluated with finite-key Hoeffding bound.",
        }
    }
}

/// Decides a channel: with no matching bases it is a threat whatever the
/// rate; otherwise it is authentic exactly when the measured mismatch rate
/// is at or below the dynamic threshold (`rate_within_threshold`).
pub fn decide(matching_bases_count: usize, rate_within_threshold: bool) -> (v: Verdict)
    ensures
        v == verdict_for(matching_bases_count as nat, rate_within_threshold),
        v.threat_flagged == !v.is_authentic,
        matching_bases_count == 0 ==> !v.is_authentic,
        matching_bases_count > 0 ==> v.is_authentic == rate_within_threshold,
        v.note == (if matching_bases_count == 0 {
            VerdictNote::SignalLoss
        } else {
            VerdictNote::FiniteKeyBound
        }),
{
    if matching_bases_count == 0 {
        Verdict { is_authentic: false, threat_flagged: true, note: VerdictNote::SignalLoss }
    } else {
        Verdict {
            is_authentic: rate_within_threshold,
            threat_flagged: !rate_within_threshold,
            note: VerdictNote::FiniteKeyBound,
        }
    }
}

/// A channel is flagged as a threat exactly when it is not authentic.
pub proof fn flagged_iff_not_authentic(matching_bases_count: nat, within_threshold: bool)
    ensures
        verdict_for(matching_bases_count, within_threshold).threat_flagged
            == !verdict_for(matching_bases_count, within_threshold).is_authentic,
{
}

/// A channel on which no basis matched is never authentic, whatever its rate.
pub proof fn signal_loss_never_authentic(within_threshold: bool)
    ensures
        !verdict_for(0, within_threshold).is_authentic,
        verdict_for(0, within_threshold).threat_flagged,
{
}

/// With at least one matching basis, the channel is authentic exactly when
/// its rate is within the threshold, and the note names the Hoeffding bound.
pub proof fn verdict_follows_rate(matching_bases_count: nat, within_threshold: bool)
    requires
        matching_bases_count > 0,
    ensures
        verdict_for(matching_bases_count, within_threshold).is_authentic == within_threshold,
        verdict_for(matching_bases_count, within_threshold).threat_flagged == !within_threshold,
        verdict_for(matching_bases_count, within_threshold).note == VerdictNote::FiniteKeyBound,
{
}

/// The verdict does not depend on how many bases matched, as long as one did:
/// two such channels whose rates compare alike get the same verdict.
pub proof fn verdict_independent_of_sample_size(count1: nat, count2: nat, within_threshold: bool)
    requires
        count1 > 0,
        count2 > 0,
    ensures
        verdict_for(count1, within_threshold) == verdict_for(count2, within_threshold),
{
}

/// The signal-loss note is given exactly when no basis matched.
pub proof fn signal_loss_note_iff_no_match(matching_bases_count: nat, within_threshold: bool)
    ensures
        (verdict_for(matching_bases_count, within_threshold).note == VerdictNote::SignalLoss)
            <==> matching_bases_count == 0,
{
}

} // verus!
