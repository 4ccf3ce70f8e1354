use vstd::prelude::*;
use crate::verdict::Verdict;

verus! {

/// The outside work the server must do next while distilling key material.
#[derive(Debug, Clone, Copy, PartialEq, Eq, Structural)]
pub enum DistillAction {
    /// Privacy-amplify the sifted key into a shared secret.
    DeriveSecret,
    /// Compute the HMAC tag of the message under the secret.
    ComputeTag,
    /// Check the tag against the message under the secret.
    VerifyTag,
    /// Nothing is left to do: take the key material.
    Finish,
}

/// The key material a scenario reports.
pub struct KeyMaterial {
    pub derived_secret: Option<String>,
    pub hmac_tag: Option<String>,
    pub hmac_valid: Option<bool>,
}

/// What a distillation has learned so far.
pub struct DistillState {
    pub authentic: bool,
    pub has_message: bool,
    pub secret: Option<Seq<char>>,
    pub tag: Option<Seq<char>>,
    pub verified: Option<bool>,
}

impl DistillState {
    /// A secret exists only for an authentic channel, a tag only for a
    /// secret and a message, a check only for a tag.
    pub open spec fn wf(self) -> bool {
        &&& self.secret is Some ==> self.authentic
        &&& self.tag is Some ==> self.secret is Some && self.has_message
        &&& self.verified is Some ==> self.tag is Some
    }

    /// How many outside steps are still to come.
    pub open spec fn steps_left(self) -> nat {
        (if self.authentic && self.secret is None { 1nat } else { 0nat })
            + (if self.authentic && self.has_message && self.tag is None { 1nat } else { 0nat })
            + (if (self.authentic && self.has_message) && self.verified is None { 1nat } else { 0nat })
    }

    /// The next step of a distillation in this state.
    pub open spec fn next(self) -> DistillAction {
        if self.authentic && self.secret is None {
            DistillAction::DeriveSecret
        } else if self.secret is Some && self.has_message && self.tag is None {
            DistillAction::ComputeTag
        } else if self.tag is Some && self.verified is None {
            DistillAction::VerifyTag
        } else {
            DistillAction::Finish
        }
    }
}

/// The text held in an optional string, if any.
pub open spec fn view_text(s: Option<String>) -> Option<Seq<char>> {
    match s {
        Some(t) => Some(t@),
        None => None,
    }
}

/// The key-material stage of a scenario: after the verdict, a secret is
/// distilled only from an authentic channel, and a message is authenticated
/// only under such a secret.
pub struct Distiller {
    authentic: bool,
    has_message: bool,
    secret: Option<String>,
    tag: Option<String>,
    verified: Option<bool>,
}

impl View for Distiller {
    type V = DistillState;

    closed spec fn view(&self) -> DistillState {
        DistillState {
            authentic: self.authentic,
            has_message: self.has_message,
            secret: view_text(self.secret),
            tag: view_text(self.tag),
            verified: self.verified,
        }
    }
}

impl Distiller {
    #[verifier::type_invariant]
    spec fn inv(self) -> bool {
        self@.wf()
    }

    /// Starts distilling for a channel with this verdict; `has_message`
    /// says whether a message is to be authenticated.
    pub fn new(verdict: &Verdict, has_message: bool) -> (d: Distiller)
        ensures
            d@ == (DistillState {
                authentic: verdict.is_authentic,
                has_message,
                secret: None,
                tag: None,
                verified: None,
            }),
    {
        Distiller {
            authentic: verdict.is_authentic,
            has_message,
            secret: None,
            tag: None,
            verified: None,
        }
    }

    /// The step the server must perform next.
    pub fn next_action(&self) -> (a: DistillAction)
        ensures
            a == self@.next(),
    {
        if self.authentic && self.secret.is_none() {
            DistillAction::DeriveSecret
        } else if self.secret.is_some() && self.has_message && self.tag.is_none() {
            DistillAction::ComputeTag
        } else if self.tag.is_some() && self.verified.is_none() {
            DistillAction::VerifyTag
        } else {
            DistillAction::Finish
        }
    }

    /// The secret distilled so far.
    pub fn secret(&self) -> (s: Option<&String>)
        ensures
            match s {
                Some(t) => self@.secret == Some(t@),
                None => self@.secret is None,
            },
    {
        match &self.secret {
            Some(t) => Some(t),
            None => None,
        }
    }

    /// The tag computed so far.
    pub fn tag(&self) -> (s: Option<&String>)
        ensures
            match s {
                Some(t) => self@.tag == Some(t@),
                None => self@.tag is None,
            },
    {
        match &self.tag {
            Some(t) => Some(t),
            None => None,
        }
    }

    /// Records the secret that privacy amplification produced.
    pub fn record_secret(&mut self, secret: String)
        requires
            old(self)@.next() == DistillAction::DeriveSecret,
        ensures
            final(self)@ == (DistillState { secret: Some(secret@), ..old(self)@ }),
    {
        proof {
            use_type_invariant(&*self);
        }
        self.secret = Some(secret);
    }

    /// Records the HMAC tag computed for the message.
    pub fn record_tag(&mut self, tag: String)
        requires
            old(self)@.next() == DistillAction::ComputeTag,
        ensures
            final(self)@ == (DistillState { tag: Some(tag@), ..old(self)@ }),
    {
        proof {
            use_type_invariant(&*self);
        }
        self.tag = Some(tag);
    }

    /// Records the outcome of checking the tag; a check that could not be
    /// carried out (`None`) counts as a failed one.
    pub fn record_check(&mut self, outcome: Option<bool>)
        requires
            old(self)@.next() == DistillAction::VerifyTag,
        ensures
            final(self)@ == (DistillState {
                verified: Some(
                    match outcome {
                        Some(b) => b,
                        None => false,
                    },
                ),
                ..old(self)@
            }),
    {
        let ok = match outcome {
            Some(b) => b,
            None => false,
        };
        proof {
            use_type_invariant(&*self);
        }
        self.verified = Some(ok);
    }

    /// Hands out the key material once nothing is left to do.
    pub fn finish(self) -> (m: KeyMaterial)
        requires
            self@.next() == DistillAction::Finish,
        ensures
            view_text(m.derived_secret) == self@.secret,
            view_text(m.hmac_tag) == self@.tag,
            m.hmac_valid == self@.verified,
            m.derived_secret is Some <==> self@.authentic,
            m.hmac_tag is Some <==> (self@.authentic && self@.has_message),
            m.hmac_valid is Some <==> m.hmac_tag is Some,
    {
        proof {
            use_type_invariant(&self);
        }
        KeyMaterial { derived_secret: self.secret, hmac_tag: self.tag, hmac_valid: self.verified }
    }
}

/// Once a distillation is done, a secret exists exactly for an authentic
/// channel, a tag exactly for an authentic channel with a message, and a
/// check exactly for a tag: a compromised channel yields no key and no tag.
pub proof fn finished_distillation_follows_verdict(st: DistillState)
    requires
        st.wf(),
        st.next() == DistillAction::Finish,
    ensures
        st.secret is Some <==> st.authentic,
        st.tag is Some <==> (st.authentic && st.has_message),
        st.verified is Some <==> st.tag is Some,
        !st.authentic ==> st.secret is None && st.tag is None && st.verified is None,
{
}

/// Every step a distillation takes keeps it well formed.
pub proof fn steps_keep_distillation_well_formed(
    st: DistillState,
    secret: Seq<char>,
    tag: Seq<char>,
    outcome: bool,
)
    requires
        st.wf(),
    ensures
        st.next() == DistillAction::DeriveSecret ==> (DistillState {
            secret: Some(secret),
            ..st
        }).wf(),
        st.next() == DistillAction::ComputeTag ==> (DistillState { tag: Some(tag), ..st }).wf(),
        st.next() == DistillAction::VerifyTag ==> (DistillState {
            verified: Some(outcome),
            ..st
        }).wf(),
{
}

/// The steps come in a fixed order: an authentic channel first derives a
/// secret, then (with a message) computes and checks a tag, then finishes;
/// a compromised channel finishes at once.
pub proof fn distillation_runs_in_order(
    authentic: bool,
    has_message: bool,
    secret: Seq<char>,
    tag: Seq<char>,
    outcome: bool,
)
    ensures
        ({
            let s0 = DistillState {
                authentic,
                has_message,
                secret: None,
                tag: None,
                verified: None,
            };
            let s1 = DistillState { secret: Some(secret), ..s0 };
            let s2 = DistillState { tag: Some(tag), ..s1 };
            let s3 = DistillState { verified: Some(outcome), ..s2 };
            &&& authentic ==> s0.next() == DistillAction::DeriveSecret
            &&& !authentic ==> s0.next() == DistillAction::Finish
            &&& (authentic && has_message) ==> s1.next() == DistillAction::ComputeTag
            &&& (authentic && !has_message) ==> s1.next() == DistillAction::Finish
            &&& (authentic && has_message) ==> s2.next() == DistillAction::VerifyTag
            &&& (authentic && has_message) ==> s3.next() == DistillAction::Finish
        }),
{
}

/// A distillation asks for at most three outside steps: each step it asks
/// for leaves one fewer to come, and it finishes exactly when none is left.
pub proof fn distillation_terminates(
    st: DistillState,
    secret: Seq<char>,
    tag: Seq<char>,
    outcome: bool,
)
    requires
        st.wf(),
    ensures
        st.steps_left() <= 3,
        st.next() == DistillAction::Finish <==> st.steps_left() == 0,
        st.next() == DistillAction::DeriveSecret ==> (DistillState {
            secret: Some(secret),
            ..st
        }).steps_left() == st.steps_left() - 1,
        st.next() == DistillAction::ComputeTag ==> (DistillState {
            tag: Some(tag),
            ..st
        }).steps_left() == st.steps_left() - 1,
        st.next() == DistillAction::VerifyTag ==> (DistillState {
            verified: Some(outcome),
            ..st
        }).steps_left() == st.steps_left() - 1,
{
}

} // verus!
