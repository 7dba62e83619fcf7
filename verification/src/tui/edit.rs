//! Pending edits of one spec or acceptance criterion before they are saved.
use vstd::prelude::*;

use crate::models::{AcceptanceCriterion, ReviewMode, RiskLevel, Spec, SpecLevel, SpecStatus};
use crate::text::{is_blank, owned, trim_seq};
use crate::tui::tree::opt_view;

verus! {

/// The original values of the edited entity beside the pending ones; a pending text of
/// `None` keeps the original.
#[derive(Debug)]
pub enum Draft {
    Spec {
        spec_id: String,
        original_status: SpecStatus,
        original_level: SpecLevel,
        original_description: String,
        pending_status: SpecStatus,
        pending_level: SpecLevel,
        pending_description: Option<String>,
    },
    Ac {
        ac_id: String,
        original_review_mode: ReviewMode,
        original_risk_level: RiskLevel,
        original_intent: String,
        pending_review_mode: ReviewMode,
        pending_risk_level: RiskLevel,
        pending_intent: Option<String>,
    },
}

fn clone_opt_text(o: &Option<String>) -> (r: Option<String>)
    ensures
        r == *o,
{
    match o {
        Some(s) => Some(s.clone()),
        None => None,
    }
}

impl Clone for Draft {
    fn clone(&self) -> (r: Self)
        ensures
            r == *self,
    {
        match self {
            Draft::Spec {
                spec_id,
                original_status,
                original_level,
                original_description,
                pending_status,
                pending_level,
                pending_description,
            } => Draft::Spec {
                spec_id: spec_id.clone(),
                original_status: *original_status,
                original_level: *original_level,
                original_description: original_description.clone(),
                pending_status: *pending_status,
                pending_level: *pending_level,
                pending_description: clone_opt_text(pending_description),
            },
            Draft::Ac {
                ac_id,
                original_review_mode,
                original_risk_level,
                original_intent,
                pending_review_mode,
                pending_risk_level,
                pending_intent,
            } => Draft::Ac {
                ac_id: ac_id.clone(),
                original_review_mode: *original_review_mode,
                original_risk_level: *original_risk_level,
                original_intent: original_intent.clone(),
                pending_review_mode: *pending_review_mode,
                pending_risk_level: *pending_risk_level,
                pending_intent: clone_opt_text(pending_intent),
            },
        }
    }
}

/// A pending text differs from the original one.
pub open spec fn text_changed(pending: Option<String>, original: Seq<char>) -> bool {
    match opt_view(pending) {
        Some(t) => t != original,
        None => false,
    }
}

/// A pending text that is blank once trimmed.
pub open spec fn text_blank(pending: Option<String>) -> bool {
    match opt_view(pending) {
        Some(t) => trim_seq(t).len() == 0,
        None => false,
    }
}

/// A draft is dirty exactly when one of its editable values differs from the original:
/// for a spec its status, its level, or a pending description other than the original
/// text; for a criterion its review mode, its risk level, or a pending intent other than
/// the original text.
pub proof fn lemma_dirty_iff_a_value_changed(d: Draft)
    ensures
        d matches Draft::Spec {
            original_status,
            original_level,
            original_description,
            pending_status,
            pending_level,
            pending_description,
            ..
        } ==> (d.dirty() <==> (pending_status != original_status || pending_level != original_level
            || (pending_description matches Some(t) && t@ != original_description@))),
        d matches Draft::Ac {
            original_review_mode,
            original_risk_level,
            original_intent,
            pending_review_mode,
            pending_risk_level,
            pending_intent,
            ..
        } ==> (d.dirty() <==> (pending_review_mode != original_review_mode || pending_risk_level
            != original_risk_level || (pending_intent matches Some(t) && t@ != original_intent@))),
{
}

impl Draft {
    /// Some pending value differs from the original.
    pub open spec fn dirty(&self) -> bool {
        match *self {
            Draft::Spec {
                original_status,
                original_level,
                original_description,
                pending_status,
                pending_level,
                pending_description,
                ..
            } => pending_status != original_status || pending_level != original_level
                || text_changed(pending_description, original_description@),
            Draft::Ac {
                original_review_mode,
                original_risk_level,
                original_intent,
                pending_review_mode,
                pending_risk_level,
                pending_intent,
                ..
            } => pending_review_mode != original_review_mode || pending_risk_level
                != original_risk_level || text_changed(pending_intent, original_intent@),
        }
    }

    /// The validation message of the draft, if it has one.
    pub open spec fn problem(&self) -> Option<Seq<char>> {
        match *self {
            Draft::Spec { pending_description, .. } => if text_blank(pending_description) {
                Some("Description must not be empty"@)
            } else {
                None
            },
            Draft::Ac { pending_intent, .. } => if text_blank(pending_intent) {
                Some("Intent must not be empty"@)
            } else {
                None
            },
        }
    }

    /// A draft of `spec` with nothing changed yet.
    pub fn from_spec(spec: &Spec) -> (r: Self)
        ensures
            r == (Draft::Spec {
                spec_id: spec.id,
                original_status: spec.status,
                original_level: spec.level,
                original_description: spec.description,
                pending_status: spec.status,
                pending_level: spec.level,
                pending_description: None,
            }),
            !r.dirty(),
    {
        Draft::Spec {
            spec_id: spec.id.clone(),
            original_status: spec.status,
            original_level: spec.level,
            original_description: spec.description.clone(),
            pending_status: spec.status,
            pending_level: spec.level,
            pending_description: None,
        }
    }

    /// A draft of `ac` with nothing changed yet.
    pub fn from_ac(ac: &AcceptanceCriterion) -> (r: Self)
        ensures
            r == (Draft::Ac {
                ac_id: ac.id,
                original_review_mode: ac.review_mode,
                original_risk_level: ac.risk_level,
                original_intent: ac.intent,
                pending_review_mode: ac.review_mode,
                pending_risk_level: ac.risk_level,
                pending_intent: None,
            }),
            !r.dirty(),
    {
        Draft::Ac {
            ac_id: ac.id.clone(),
            original_review_mode: ac.review_mode,
            original_risk_level: ac.risk_level,
            original_intent: ac.intent.clone(),
            pending_review_mode: ac.review_mode,
            pending_risk_level: ac.risk_level,
            pending_intent: None,
        }
    }

    /// Whether saving the draft would change anything.
    pub fn is_dirty(&self) -> (r: bool)
        ensures
            r == self.dirty(),
    {
        match self {
            Draft::Spec {
                original_status,
                original_level,
                original_description,
                pending_status,
                pending_level,
                pending_description,
                ..
            } => {
                *pending_status != *original_status || *pending_level != *original_level
                    || match pending_description {
                    Some(d) => !crate::text::str_eq(d.as_str(), original_description.as_str()),
                    None => false,
                }
            },
            Draft::Ac {
                original_review_mode,
                original_risk_level,
                original_intent,
                pending_review_mode,
                pending_risk_level,
                pending_intent,
                ..
            } => {
                *pending_review_mode != *original_review_mode || *pending_risk_level
                    != *original_risk_level || match pending_intent {
                    Some(i) => !crate::text::str_eq(i.as_str(), original_intent.as_str()),
                    None => false,
                }
            },
        }
    }

    /// `Err` with the one validation message when the pending text is blank.
    pub fn validate(&self) -> (r: Result<(), Vec<String>>)
        ensures
            match self.problem() {
                None => r is Ok,
                Some(m) => r matches Err(es) && es@.len() == 1 && es@[0]@ == m,
            },
    {
        let mut errors: Vec<String> = Vec::new();
        match self {
            Draft::Spec { pending_description, .. } => {
                if let Some(desc) = pending_description {
                    if is_blank(desc.as_str()) {
                        errors.push(owned("Description must not be empty"));
                    }
                }
            },
            Draft::Ac { pending_intent, .. } => {
                if let Some(intent) = pending_intent {
                    if is_blank(intent.as_str()) {
                        errors.push(owned("Intent must not be empty"));
                    }
                }
            },
        }
        if errors.len() == 0 {
            Ok(())
        } else {
            Err(errors)
        }
    }
}

} // verus!
