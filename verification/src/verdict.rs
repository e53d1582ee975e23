//! The safety verdict engine's decision rules.
//!
//! The engine combines three threshold observations about one state snapshot
//! — whether any obstacle came closer than the minimum margin, whether
//! fatigue fell below 0.3, and whether certainty fell below 0.5 — into a
//! verdict flag and a classification label.  The distance and threshold
//! comparisons themselves are made by the numeric layer in front of the
//! engine; everything here is decided from their outcomes alone.

use vstd::prelude::*;

verus! {

/// Classification attached to a verdict; exactly one of this closed set is
/// reported for every call.
#[derive(Clone, Copy, Debug, PartialEq, Eq, Structural)]
pub enum BreachClass {
    /// No rule fired while the label was still open.
    Safe,
    /// Some obstacle lay strictly within the minimum margin.
    ObstacleViolation,
    /// Fatigue fell below its threshold.
    FatigueViolation,
}

impl BreachClass {
    /// The diagnostic string reported for this classification.
    pub open spec fn label_spec(&self) -> Seq<char> {
        match self {
            BreachClass::Safe => "SAFE"@,
            BreachClass::ObstacleViolation => "OBSTACLE_VIOLATION"@,
            BreachClass::FatigueViolation => "FATIGUE_VIOLATION"@,
        }
    }

    /// Returns the diagnostic string for this classification.
    pub fn label(&self) -> (r: &'static str)
        ensures
            r@ == self.label_spec(),
    {
        match self {
            BreachClass::Safe => "SAFE",
            BreachClass::ObstacleViolation => "OBSTACLE_VIOLATION",
            BreachClass::FatigueViolation => "FATIGUE_VIOLATION",
        }
    }
}

/// Outcome of breach evaluation: the verdict flag and its classification.
#[derive(Clone, Copy, Debug, PartialEq, Eq, Structural)]
pub struct SafetyVerdict {
    /// True only when no breach rule fired.
    pub is_safe: bool,
    /// Classification of the first (by labelling precedence) rule that fired.
    pub reason: BreachClass,
}

/// The verdict the engine owes for a given triple of threshold observations.
///
/// The flag is down as soon as any rule fires.  The label follows the
/// engine's fixed precedence: an obstacle breach labels the verdict, a
/// fatigue breach overrides that label, and a certainty breach lowers the
/// flag but leaves the label as it stood — so a certainty-only breach is
/// reported unsafe under the `Safe` label.  That last behaviour is inherited
/// from the engine's rule order and is preserved here deliberately.
pub open spec fn verdict_spec(
    obstacle_breach: bool,
    fatigue_low: bool,
    certainty_low: bool,
) -> SafetyVerdict {
    SafetyVerdict {
        is_safe: !(obstacle_breach || fatigue_low || certainty_low),
        reason: if fatigue_low {
            BreachClass::FatigueViolation
        } else if obstacle_breach {
            BreachClass::ObstacleViolation
        } else {
            BreachClass::Safe
        },
    }
}

/// Combines the three threshold observations into the engine's verdict.
///
/// `obstacle_breach` reports whether the obstacle scan found any clearance
/// margin below zero, `fatigue_low` whether fatigue < 0.3, and
/// `certainty_low` whether certainty < 0.5.
pub fn classify_breach(obstacle_breach: bool, fatigue_low: bool, certainty_low: bool) -> (v:
    SafetyVerdict)
    ensures
        v == verdict_spec(obstacle_breach, fatigue_low, certainty_low),
{
    let mut violated = false;
    let mut reason = BreachClass::Safe;
    if obstacle_breach {
        violated = true;
        reason = BreachClass::ObstacleViolation;
    }
    if fatigue_low {
        violated = true;
        reason = BreachClass::FatigueViolation;
    }
    if certainty_low {
        // The flag drops, but by the engine's rule order the label is
        // already settled at this point and stays as it stood.
        violated = true;
    }
    SafetyVerdict { is_safe: !violated, reason }
}

/// Position of the first breach in an obstacle scan.
///
/// `breach[i]` reports whether obstacle `i`, in input order, lay strictly
/// within the minimum margin.  The scan stops at the first breach: the
/// returned index is the least one whose flag is set, and every obstacle
/// before it was examined and found clear.  `None` means the whole list was
/// examined without a breach.
pub fn first_breach(breach: &Vec<bool>) -> (r: Option<usize>)
    ensures
        match r {
            Some(i) => i < breach.len() && breach@[i as int] && forall|j: int|
                0 <= j < i ==> !breach@[j],
            None => forall|j: int| 0 <= j < breach@.len() ==> !breach@[j],
        },
{
    let mut i: usize = 0;
    while i < breach.len()
        invariant
            i <= breach.len(),
            forall|j: int| 0 <= j < i ==> !breach@[j],
        decreases breach.len() - i,
    {
        if breach[i] {
            return Some(i);
        }
        i = i + 1;
    }
    None
}

/// With every obstacle clear of the margin, fatigue at or above 0.3 and
/// certainty at or above 0.5, the verdict is safe and carries the `Safe`
/// label.
pub proof fn lemma_clear_state_is_safe()
    ensures
        verdict_spec(false, false, false).is_safe,
        verdict_spec(false, false, false).reason == BreachClass::Safe,
{
}

/// An obstacle strictly within the minimum margin makes the verdict unsafe,
/// and — fatigue permitting — labels it as an obstacle violation.
pub proof fn lemma_obstacle_breach_is_unsafe(certainty_low: bool)
    ensures
        !verdict_spec(true, false, certainty_low).is_safe,
        verdict_spec(true, false, certainty_low).reason == BreachClass::ObstacleViolation,
{
}

/// Low fatigue makes the verdict unsafe and labels it as a fatigue
/// violation, whatever the obstacle scan and the certainty check reported.
pub proof fn lemma_low_fatigue_is_unsafe(obstacle_breach: bool, certainty_low: bool)
    ensures
        !verdict_spec(obstacle_breach, true, certainty_low).is_safe,
        verdict_spec(obstacle_breach, true, certainty_low).reason == BreachClass::FatigueViolation,
{
}

/// A certainty-only breach lowers the flag yet keeps the `Safe` label: the
/// label update of the certainty rule is gated on the flag still being up,
/// which it never is once the rule itself has fired.
pub proof fn lemma_certainty_breach_keeps_label()
    ensures
        !verdict_spec(false, false, true).is_safe,
        verdict_spec(false, false, true).reason == BreachClass::Safe,
{
}

} // verus!
