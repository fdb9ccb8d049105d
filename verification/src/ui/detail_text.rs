//! What the detail pane of a setting says, section by section: its current
//! value, whether and how it can be written, and its safety summary. Each
//! section is a list of labelled lines and paragraphs.
use vstd::prelude::*;
use crate::current_config::{CurrentValueProjection, CurrentValueSourceStatus};
use crate::text::{append_str, decimal, push_decimal, str_eq};
use crate::ui::model::RowDetailProjection;
use crate::ui::window_text::{
    apply_message, apply_state_message, high_risk_row, risk_class_label, risk_label,
};
use crate::write_classification::{ecosystem_policy, high_risk_write_policy};
use crate::ux_presentation::{fallback_display_label, fallback_label};

verus! {

/// One item of a detail section.
#[derive(Debug, Clone, PartialEq, Eq)]
pub enum DetailItem {
    /// A value under a label.
    Line { label: String, value: String },
    /// A paragraph.
    Body(String),
    /// A paragraph in small print.
    Small(String),
    /// A heading.
    Title(String),
}

/// A detail item as text.
pub enum DetailItemText {
    Line(Seq<char>, Seq<char>),
    Body(Seq<char>),
    Small(Seq<char>),
    Title(Seq<char>),
}

pub open spec fn item_text(d: DetailItem) -> DetailItemText {
    match d {
        DetailItem::Line { label, value } => DetailItemText::Line(label@, value@),
        DetailItem::Body(t) => DetailItemText::Body(t@),
        DetailItem::Small(t) => DetailItemText::Small(t@),
        DetailItem::Title(t) => DetailItemText::Title(t@),
    }
}

pub open spec fn items_text(s: Seq<DetailItem>) -> Seq<DetailItemText> {
    s.map_values(|d: DetailItem| item_text(d))
}

fn push_item(items: &mut Vec<DetailItem>, item: DetailItem)
    ensures
        items_text(final(items)@) == items_text(old(items)@).push(item_text(item)),
{
    let ghost before = items@;
    let ghost t = item_text(item);
    items.push(item);
    assert(items_text(items@) =~= items_text(before).push(t));
}

fn push_line(items: &mut Vec<DetailItem>, label: &str, value: &str)
    ensures
        items_text(final(items)@) == items_text(old(items)@).push(
            DetailItemText::Line(label@, value@),
        ),
{
    push_item(items, DetailItem::Line { label: label.to_string(), value: value.to_string() });
}

fn push_body(items: &mut Vec<DetailItem>, text: &str)
    ensures
        items_text(final(items)@) == items_text(old(items)@).push(DetailItemText::Body(text@)),
{
    push_item(items, DetailItem::Body(text.to_string()));
}

// ---------------------------------------------------------------------
// The setting itself.
// ---------------------------------------------------------------------

/// The setting section: the row's display label (the curated one where the
/// row has one, else the official label without the page name), its
/// official setting, its category and, when there is one, its description.
pub open spec fn setting_items(d: RowDetailProjection, matched_label: Option<Seq<char>>) -> Seq<
    DetailItemText,
> {
    seq![
        DetailItemText::Title(match matched_label {
            Some(l) => l,
            None => fallback_label(d.label@, d.tab_label@),
        }),
        DetailItemText::Line("Official setting"@, d.official_setting@),
        DetailItemText::Line("Category"@, d.tab_label@ + " / "@ + d.subsection@),
    ] + if d.description@.len() > 0 {
        seq![DetailItemText::Line("Description"@, d.description@)]
    } else {
        seq![]
    }
}

/// `matched_label` is the curated display label of the row, where the
/// presentation tables have one.
pub fn setting_section_items(detail: &RowDetailProjection, matched_label: Option<&str>) -> (r: Vec<
    DetailItem,
>)
    ensures
        items_text(r@) == setting_items(
            *detail,
            match matched_label {
                Some(l) => Some(l@),
                None => None,
            },
        ),
{
    let mut items: Vec<DetailItem> = Vec::new();
    let heading = match matched_label {
        Some(l) => l.to_string(),
        None => fallback_display_label(detail.label.as_str(), detail.tab_label.as_str()),
    };
    push_item(&mut items, DetailItem::Title(heading));
    push_line(&mut items, "Official setting", detail.official_setting.as_str());
    let mut category = String::new();
    append_str(&mut category, detail.tab_label.as_str());
    append_str(&mut category, " / ");
    append_str(&mut category, detail.subsection.as_str());
    push_line(&mut items, "Category", category.as_str());
    if crate::text::chars_of(detail.description.as_str()).len() > 0 {
        push_line(&mut items, "Description", detail.description.as_str());
    }
    assert(items_text(items@) =~= setting_items(
        *detail,
        match matched_label {
            Some(l) => Some(l@),
            None => None,
        },
    ));
    items
}

// ---------------------------------------------------------------------
// The current value.
// ---------------------------------------------------------------------

pub open spec fn status_text(status: CurrentValueSourceStatus) -> Seq<char> {
    match status {
        CurrentValueSourceStatus::Configured => "Configured in your hyprland.conf"@,
        CurrentValueSourceStatus::NotConfigured => "Not configured; Hyprland will use its default behavior"@,
        CurrentValueSourceStatus::DuplicateConflict => "Conflict: duplicate config entries found"@,
        CurrentValueSourceStatus::ReadUnavailable => "Current config could not be read"@,
    }
}

/// The current-value section: status, value, where it is set, the
/// duplicate warning and the parser warning.
pub open spec fn current_value_items(v: CurrentValueProjection) -> Seq<DetailItemText> {
    seq![
        DetailItemText::Line("Status"@, status_text(v.status)),
        DetailItemText::Line("Current value"@, match v.raw_value {
            Some(raw) => raw@,
            None => "not configured"@,
        }),
    ] + (match (v.source_path, v.line_number) {
        (Some(path), Some(n)) => seq![
            DetailItemText::Line("Source"@, path@ + ":"@ + decimal(n as nat)),
        ],
        _ => seq![],
    }) + (if v.status == CurrentValueSourceStatus::DuplicateConflict {
        seq![
            DetailItemText::Body(
                "This setting appears more than once in your config. The app will not write this setting until the duplicate entries are resolved manually."@,
            ),
        ]
    } else {
        seq![]
    }) + (match v.warning {
        Some(w) => seq![DetailItemText::Line("Warning"@, w@)],
        None => seq![],
    })
}

pub fn current_value_summary_items(detail: &RowDetailProjection) -> (r: Vec<DetailItem>)
    ensures
        items_text(r@) == current_value_items(detail.current_value),
{
    let v = &detail.current_value;
    let mut items: Vec<DetailItem> = Vec::new();
    let status = match v.status {
        CurrentValueSourceStatus::Configured => "Configured in your hyprland.conf",
        CurrentValueSourceStatus::NotConfigured => {
            "Not configured; Hyprland will use its default behavior"
        },
        CurrentValueSourceStatus::DuplicateConflict => "Conflict: duplicate config entries found",
        CurrentValueSourceStatus::ReadUnavailable => "Current config could not be read",
    };
    push_line(&mut items, "Status", status);
    match &v.raw_value {
        Some(raw) => push_line(&mut items, "Current value", raw.as_str()),
        None => push_line(&mut items, "Current value", "not configured"),
    }
    if let (Some(path), Some(n)) = (&v.source_path, v.line_number) {
        let mut source = String::new();
        append_str(&mut source, path.as_str());
        append_str(&mut source, ":");
        push_decimal(&mut source, n);
        push_line(&mut items, "Source", source.as_str());
    }
    if v.status == CurrentValueSourceStatus::DuplicateConflict {
        push_body(
            &mut items,
            "This setting appears more than once in your config. The app will not write this setting until the duplicate entries are resolved manually.",
        );
    }
    if let Some(w) = &v.warning {
        push_line(&mut items, "Warning", w.as_str());
    }
    assert(items_text(items@) =~= current_value_items(detail.current_value));
    items
}

// ---------------------------------------------------------------------
// Whether the setting can be written.
// ---------------------------------------------------------------------

/// The write section: whether the setting is editable, the proposed value,
/// and what Apply would do.
pub open spec fn write_reason_items(d: RowDetailProjection) -> Seq<DetailItemText> {
    seq![
        DetailItemText::Line("Editable in app"@, if d.edit.editable {
            "yes"@
        } else {
            "no"@
        }),
    ] + (match d.edit.proposed_value {
        Some(p) => seq![DetailItemText::Line("Proposed value"@, p@)],
        None => seq![],
    }) + seq![DetailItemText::Body(apply_message(d))]
}

pub fn user_facing_write_reason_items(detail: &RowDetailProjection) -> (r: Vec<DetailItem>)
    ensures
        items_text(r@) == write_reason_items(*detail),
{
    let mut items: Vec<DetailItem> = Vec::new();
    push_line(&mut items, "Editable in app", if detail.edit.editable { "yes" } else { "no" });
    if let Some(p) = &detail.edit.proposed_value {
        push_line(&mut items, "Proposed value", p.as_str());
    }
    push_item(&mut items, DetailItem::Body(apply_state_message(detail)));
    assert(items_text(items@) =~= write_reason_items(*detail));
    items
}

// ---------------------------------------------------------------------
// Safety.
// ---------------------------------------------------------------------

/// The safety section: the risk class, the write path, the high-risk gate
/// where the row has one, the notes of two sensitive rows, and the screen
/// shader advisory's disclaimers.
pub open spec fn safety_items(d: RowDetailProjection) -> Seq<DetailItemText> {
    let gated = high_risk_row(d.row_id@);
    let policy = ecosystem_policy();
    seq![
        DetailItemText::Line("Risk"@, risk_label(d.risk_class@)),
        DetailItemText::Line("Write path"@, if gated {
            "Gated high-risk config write"@
        } else if d.edit.editable {
            "Reviewed config write"@
        } else {
            "Not currently writable in the app"@
        }),
    ] + (if gated {
        seq![
            DetailItemText::Body(policy.review_warning@),
            DetailItemText::Line("Gate"@, policy.approval_gate@),
            DetailItemText::Line("Recovery"@, policy.watchdog_requirement@),
        ]
    } else {
        seq![]
    }) + (if d.row_id@ == "cursor.default_monitor"@ {
        seq![
            DetailItemText::Body(
                "This is not a freeform string write. The proposed monitor name must be proven by the runtime monitor-name oracle before the high-risk gate can accept it."@,
            ),
        ]
    } else {
        seq![]
    }) + (if d.row_id@ == "debug.manual_crash"@ {
        seq![
            DetailItemText::Body(
                "This setting is crash/debug sensitive. It must not look or behave like a casual toggle; the production gate requires recovery and confirmation proof before any apply path can proceed."@,
            ),
        ]
    } else {
        seq![]
    }) + (match d.screen_shader_advisory {
        Some(a) => seq![
            DetailItemText::Body(a.production_gate_disclaimer@),
            DetailItemText::Small(a.runtime_safety_disclaimer@),
        ],
        None => seq![],
    })
}

pub fn safety_summary_items(detail: &RowDetailProjection) -> (r: Vec<DetailItem>)
    ensures
        items_text(r@) == safety_items(*detail),
{
    let mut items: Vec<DetailItem> = Vec::new();
    push_item(
        &mut items,
        DetailItem::Line { label: "Risk".to_string(), value: risk_class_label(&detail.risk_class) },
    );
    let policy = high_risk_write_policy(&detail.row_id);
    let write_path = if policy.is_some() {
        "Gated high-risk config write"
    } else if detail.edit.editable {
        "Reviewed config write"
    } else {
        "Not currently writable in the app"
    };
    push_line(&mut items, "Write path", write_path);
    if let Some(p) = policy {
        push_body(&mut items, p.review_warning);
        push_line(&mut items, "Gate", p.approval_gate);
        push_line(&mut items, "Recovery", p.watchdog_requirement);
    }
    if str_eq(detail.row_id.as_str(), "cursor.default_monitor") {
        push_body(
            &mut items,
            "This is not a freeform string write. The proposed monitor name must be proven by the runtime monitor-name oracle before the high-risk gate can accept it.",
        );
    }
    if str_eq(detail.row_id.as_str(), "debug.manual_crash") {
        push_body(
            &mut items,
            "This setting is crash/debug sensitive. It must not look or behave like a casual toggle; the production gate requires recovery and confirmation proof before any apply path can proceed.",
        );
    }
    if let Some(a) = &detail.screen_shader_advisory {
        push_body(&mut items, a.production_gate_disclaimer.as_str());
        push_item(&mut items, DetailItem::Small(a.runtime_safety_disclaimer.clone()));
    }
    assert(items_text(items@) =~= safety_items(*detail));
    items
}

} // verus!
