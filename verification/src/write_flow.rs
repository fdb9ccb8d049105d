//! Whether a setting can be edited in the guarded write flow, and why not.
use vstd::prelude::*;
use crate::id_list::strings_view;
use crate::text::strip_prefix;
use crate::ui::window_text::strip_prefix_str;

verus! {

/// A proposed value being prepared for review.
#[derive(Debug, Clone, PartialEq, Eq)]
pub struct PendingEditProjection {
    /// The value can go to the write review.
    pub can_review: bool,
    /// The reason given by the first `blocked: <reason>` line of the review
    /// summary, when there is such a line.
    pub review_blocked_reason: Option<String>,
    /// The validation verdict, such as `valid`, `invalid: <reason>` or
    /// `not allowed: <reason>`.
    pub validation_label: String,
}

#[derive(Debug, Clone, PartialEq, Eq)]
pub struct SettingEditProjection {
    pub editable: bool,
    /// Why the setting cannot be edited, when it cannot.
    pub disabled_reason: Option<String>,
    /// Why review is blocked for the current value of an editable setting,
    /// when it is.
    pub review_block_reason: Option<String>,
    /// The value proposed for the setting, when there is one.
    pub proposed_value: Option<String>,
    /// The review state of the proposed value, when one could be prepared.
    pub pending: Option<PendingEditProjection>,
}

impl PendingEditProjection {
    /// An equal copy.
    pub fn duplicate(&self) -> (r: PendingEditProjection)
        ensures
            r == *self,
    {
        PendingEditProjection {
            can_review: self.can_review,
            review_blocked_reason: self.review_blocked_reason.clone(),
            validation_label: self.validation_label.clone(),
        }
    }
}

impl SettingEditProjection {
    /// An equal copy.
    pub fn duplicate(&self) -> (r: SettingEditProjection)
        ensures
            r == *self,
    {
        SettingEditProjection {
            editable: self.editable,
            disabled_reason: self.disabled_reason.clone(),
            review_block_reason: self.review_block_reason.clone(),
            proposed_value: self.proposed_value.clone(),
            pending: match &self.pending {
                Some(p) => Some(p.duplicate()),
                None => None,
            },
        }
    }
}

/// The reason given by the first `blocked: <reason>` line of a review
/// summary.
pub open spec fn first_blocked_reason(lines: Seq<Seq<char>>) -> Option<Seq<char>>
    decreases lines.len(),
{
    if lines.len() == 0 {
        None
    } else if let Some(reason) = strip_prefix(lines[0], "blocked: "@) {
        Some(reason)
    } else {
        first_blocked_reason(lines.drop_first())
    }
}

/// The reason of the first line of `review_summary` that reads
/// `blocked: <reason>`.
pub fn blocked_reason(review_summary: &Vec<String>) -> (r: Option<String>)
    ensures
        match r {
            Some(t) => first_blocked_reason(strings_view(review_summary@)) == Some(t@),
            None => first_blocked_reason(strings_view(review_summary@)) is None,
        },
{
    let ghost all = strings_view(review_summary@);
    assert(all.skip(0) =~= all);
    let mut i: usize = 0;
    while i < review_summary.len()
        invariant
            i <= review_summary@.len(),
            all == strings_view(review_summary@),
            first_blocked_reason(all) == first_blocked_reason(all.skip(i as int)),
        decreases review_summary@.len() - i,
    {
        let ghost rest = all.skip(i as int);
        assert(rest[0] == review_summary@[i as int]@);
        assert(rest.drop_first() =~= all.skip(i + 1));
        if let Some(reason) = strip_prefix_str(review_summary[i].as_str(), "blocked: ") {
            return Some(reason);
        }
        i = i + 1;
    }
    assert(all.skip(i as int) =~= Seq::<Seq<char>>::empty());
    None
}

impl PendingEditProjection {
    /// The projection of a proposed value whose review gave `review_summary`.
    pub fn from_review_summary(
        can_review: bool,
        review_summary: &Vec<String>,
        validation_label: String,
    ) -> (r: PendingEditProjection)
        ensures
            r.can_review == can_review,
            r.validation_label == validation_label,
            match r.review_blocked_reason {
                Some(t) => first_blocked_reason(strings_view(review_summary@)) == Some(t@),
                None => first_blocked_reason(strings_view(review_summary@)) is None,
            },
    {
        PendingEditProjection {
            can_review,
            review_blocked_reason: blocked_reason(review_summary),
            validation_label,
        }
    }
}

} // verus!
