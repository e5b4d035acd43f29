//! Flat, string-valued shapes of reasons and notes for adapters that serialize them.
use vstd::prelude::*;

use crate::analysis::RuleNote;
use crate::diagnostic::{DiagnosticReason, category_code, category_label, chosen_category, diagnostic_reason_category};
use crate::rule::{rule_code, rule_description};
use crate::text::owned;

verus! {

broadcast use vstd::string::group_string_axioms;

/// Stable flat shape of an alternate diagnostic reason.
#[derive(Debug, Clone)]
pub struct ApiDiagnosticReason {
    pub rule: String,
    pub rule_code: String,
    pub explanation: String,
    pub category: String,
    pub category_code: String,
    pub correction: String,
}

impl ApiDiagnosticReason {
    /// The flat shape of `reason`: the rule's text and code, the explanation,
    /// the category's label and code, and the correction (empty when none).
    pub fn from_reason(reason: &DiagnosticReason) -> (r: ApiDiagnosticReason)
        ensures
            r.rule@ == rule_description(reason.rule@),
            r.rule_code@ == rule_code(reason.rule@),
            r.explanation@ == reason.explanation@,
            r.category@ == category_label(chosen_category(reason.category, reason.rule@)),
            r.category_code@ == category_code(chosen_category(reason.category, reason.rule@)),
            r.correction@ == match reason.correction {
                Some(c) => c@,
                None => Seq::<char>::empty(),
            },
    {
        let category = diagnostic_reason_category(reason);
        let correction = match &reason.correction {
            Some(c) => owned(c.as_str()),
            None => String::new(),
        };
        ApiDiagnosticReason {
            rule: reason.rule.display_text(),
            rule_code: owned(reason.rule.code()),
            explanation: owned(reason.explanation.as_str()),
            category: owned(category.display_text()),
            category_code: owned(category.as_code()),
            correction,
        }
    }
}

/// Stable flat shape of a rule note.
#[derive(Debug, Clone)]
pub struct ApiRuleNote {
    pub rule: String,
    pub rule_code: String,
    pub explanation: String,
}

impl ApiRuleNote {
    /// The flat shape of `note`: the rule's text and code, and the explanation.
    pub fn from_note(note: &RuleNote) -> (r: ApiRuleNote)
        ensures
            r.rule@ == rule_description(note.rule@),
            r.rule_code@ == rule_code(note.rule@),
            r.explanation@ == note.explanation@,
    {
        ApiRuleNote {
            rule: note.rule.display_text(),
            rule_code: owned(note.rule.code()),
            explanation: owned(note.explanation.as_str()),
        }
    }
}

/// Error type for checker operations.
#[derive(Debug, Clone, Copy, PartialEq, Eq, Structural)]
pub enum ParikshakError {
    /// The input was empty.
    EmptyInput,
}

/// Error type for derivation operations.
#[derive(Debug, Clone, Copy, PartialEq, Eq, Structural)]
pub enum PrakriyaError {
    /// The input was empty.
    EmptyInput,
}

impl ParikshakError {
    /// The message the error is shown with.
    pub fn message(&self) -> (r: &'static str)
        ensures
            r@ == "empty input"@,
    {
        "empty input"
    }
}

impl PrakriyaError {
    /// The message the error is shown with.
    pub fn message(&self) -> (r: &'static str)
        ensures
            r@ == "empty input"@,
    {
        "empty input"
    }
}

} // verus!
