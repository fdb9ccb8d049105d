//! Text the settings window shows: friendly current values, row and detail
//! accessibility text, the Apply state message, risk labels, widget names,
//! color tokens and the dashboard cards.
use vstd::prelude::*;
use crate::text::{
    ascii_lower, chars_of, lower_seq, push_char, range_views, ranges_within, seq_eq, split_ws,
    str_eq, string_from, strip_prefix, to_ascii_lower, trim, trim_str, ws_tokens,
};
use crate::value::number::{float_literal, is_float_literal};
use crate::current_config::{CurrentValueProjection, CurrentValueSourceStatus};
use crate::id_list::strings_view;
use crate::lines::{join_lines, joined, push_line, push_prefixed};
use crate::ui::model::{row_keys, settings_of_tab, RowDetailProjection, UiProjection, UiSetting};
use crate::stable_sort::{stable_order, stable_sort_by_keys};
use crate::ux_presentation::{claims, page_claims_row, pages_view, sidebar_model, sidebar_pages, PageModel, PageSpec};
use crate::text::{starts_with, str_starts_with};
use crate::text::{decimal, strip_suffix};
use crate::ux_presentation::swatch::{color_swatch, gradient_swatch, u16_value};
use crate::ux_presentation::{parse_hyprland_color, parse_hyprland_gradient};
use crate::value::number::{digits_value_capped, unsigned_text, unsigned_text_ok};

verus! {

// ---------------------------------------------------------------------
// Friendly current values.
// ---------------------------------------------------------------------

/// Boolean-like values read as On or Off, an empty value as Empty; any
/// other value is shown as written.
pub open spec fn friendly_value(v: Seq<char>) -> Seq<char> {
    let k = lower_seq(trim(v));
    if k == "1"@ || k == "true"@ || k == "yes"@ || k == "on"@ {
        "On"@
    } else if k == "0"@ || k == "false"@ || k == "no"@ || k == "off"@ {
        "Off"@
    } else if k.len() == 0 {
        "Empty"@
    } else {
        v
    }
}

/// The ASCII lower-case of `s`.
pub fn ascii_lowercase(s: &str) -> (r: String)
    ensures
        r@ == lower_seq(s@),
{
    let v = chars_of(s);
    let mut r = String::new();
    let mut i: usize = 0;
    while i < v.len()
        invariant
            i <= v@.len(),
            v@ == s@,
            r@ == lower_seq(v@.take(i as int)),
        decreases v@.len() - i,
    {
        push_char(&mut r, to_ascii_lower(v[i]));
        assert(lower_seq(v@.take(i + 1)) =~= lower_seq(v@.take(i as int)).push(ascii_lower(v@[i as int])));
        i = i + 1;
    }
    assert(v@.take(i as int) =~= v@);
    r
}

pub fn friendly_current_value(value: &str) -> (r: String)
    ensures
        r@ == friendly_value(value@),
{
    let key = ascii_lowercase(trim_str(value));
    let k = key.as_str();
    proof {
        reveal_strlit("");
        if k@.len() == 0 {
            assert(k@ =~= ""@);
        }
    }
    if str_eq(k, "1") || str_eq(k, "true") || str_eq(k, "yes") || str_eq(k, "on") {
        "On".to_owned()
    } else if str_eq(k, "0") || str_eq(k, "false") || str_eq(k, "no") || str_eq(k, "off") {
        "Off".to_owned()
    } else if str_eq(k, "") {
        "Empty".to_owned()
    } else {
        value.to_owned()
    }
}

// ---------------------------------------------------------------------
// Risk labels and widget names.
// ---------------------------------------------------------------------

/// Underscores read as spaces.
pub open spec fn underscores_to_spaces(s: Seq<char>) -> Seq<char> {
    s.map_values(|c: char| if c == '_' { ' ' } else { c })
}

pub open spec fn risk_label(risk_class: Seq<char>) -> Seq<char> {
    if risk_class == "safe"@ {
        "Standard config setting"@
    } else if risk_class == "display_render_risk"@ {
        "Display/render high-risk setting"@
    } else if risk_class == "cursor_input_risk"@ {
        "Cursor/input high-risk setting"@
    } else if risk_class == "debug_crash_risk"@ {
        "Debug/crash high-risk setting"@
    } else {
        underscores_to_spaces(risk_class)
    }
}

pub fn risk_class_label(risk_class: &str) -> (r: String)
    ensures
        r@ == risk_label(risk_class@),
{
    if str_eq(risk_class, "safe") {
        return "Standard config setting".to_owned();
    }
    if str_eq(risk_class, "display_render_risk") {
        return "Display/render high-risk setting".to_owned();
    }
    if str_eq(risk_class, "cursor_input_risk") {
        return "Cursor/input high-risk setting".to_owned();
    }
    if str_eq(risk_class, "debug_crash_risk") {
        return "Debug/crash high-risk setting".to_owned();
    }
    let v = chars_of(risk_class);
    let mut r = String::new();
    let mut i: usize = 0;
    while i < v.len()
        invariant
            i <= v@.len(),
            v@ == risk_class@,
            r@ == underscores_to_spaces(v@.take(i as int)),
        decreases v@.len() - i,
    {
        let c = v[i];
        push_char(&mut r, if c == '_' { ' ' } else { c });
        assert(underscores_to_spaces(v@.take(i + 1)) =~= underscores_to_spaces(v@.take(i as int)).push(
            if c == '_' { ' ' } else { c },
        ));
        i = i + 1;
    }
    assert(v@.take(i as int) =~= v@);
    r
}

pub open spec fn is_ascii_alnum(c: char) -> bool {
    ('0' <= c <= '9') || ('a' <= c <= 'z') || ('A' <= c <= 'Z')
}

/// Alphanumerics lower-cased; every run of other characters becomes one
/// dash.
pub open spec fn dashed(s: Seq<char>) -> Seq<char>
    decreases s.len(),
{
    if s.len() == 0 {
        seq![]
    } else {
        let r = dashed(s.drop_last());
        let c = s.last();
        if is_ascii_alnum(c) {
            r.push(ascii_lower(c))
        } else if r.len() > 0 && r.last() == '-' {
            r
        } else {
            r.push('-')
        }
    }
}

/// `s` without leading `c`s.
pub open spec fn drop_leading(s: Seq<char>, c: char) -> Seq<char>
    decreases s.len(),
{
    if s.len() > 0 && s[0] == c {
        drop_leading(s.drop_first(), c)
    } else {
        s
    }
}

/// `s` without trailing `c`s.
pub open spec fn drop_trailing(s: Seq<char>, c: char) -> Seq<char>
    decreases s.len(),
{
    if s.len() > 0 && s.last() == c {
        drop_trailing(s.drop_last(), c)
    } else {
        s
    }
}

/// A widget name for `s`: dashed, without dashes at either end.
pub open spec fn widget_name(s: Seq<char>) -> Seq<char> {
    drop_trailing(drop_leading(dashed(s), '-'), '-')
}

pub fn safe_widget_name(value: &str) -> (r: String)
    ensures
        r@ == widget_name(value@),
{
    let v = chars_of(value);
    let mut out: Vec<char> = Vec::new();
    let mut i: usize = 0;
    while i < v.len()
        invariant
            i <= v@.len(),
            v@ == value@,
            out@ == dashed(v@.take(i as int)),
        decreases v@.len() - i,
    {
        let c = v[i];
        assert(v@.take(i + 1).drop_last() =~= v@.take(i as int));
        assert(v@.take(i + 1).last() == c);
        if ('0' <= c && c <= '9') || ('a' <= c && c <= 'z') || ('A' <= c && c <= 'Z') {
            out.push(to_ascii_lower(c));
        } else if !(out.len() > 0 && out[out.len() - 1] == '-') {
            out.push('-');
        }
        i = i + 1;
    }
    assert(v@.take(i as int) =~= v@);
    let mut lo: usize = 0;
    assert(out@.skip(0) =~= out@);
    while lo < out.len() && out[lo] == '-'
        invariant
            lo <= out@.len(),
            drop_leading(out@, '-') == drop_leading(out@.skip(lo as int), '-'),
        decreases out@.len() - lo,
    {
        assert(out@.skip(lo as int).drop_first() =~= out@.skip(lo + 1));
        lo = lo + 1;
    }
    assert(drop_leading(out@.skip(lo as int), '-') == out@.skip(lo as int));
    let mut hi: usize = out.len();
    assert(out@.subrange(lo as int, hi as int) =~= out@.skip(lo as int));
    while hi > lo && out[hi - 1] == '-'
        invariant
            lo <= hi <= out@.len(),
            drop_trailing(drop_leading(out@, '-'), '-') == drop_trailing(
                out@.subrange(lo as int, hi as int),
                '-',
            ),
        decreases hi,
    {
        assert(out@.subrange(lo as int, hi as int).drop_last() =~= out@.subrange(
            lo as int,
            hi - 1,
        ));
        hi = hi - 1;
    }
    string_from(&out, lo, hi)
}

// ---------------------------------------------------------------------
// Uniform gaps.
// ---------------------------------------------------------------------

/// Two to four equal numbers read as that one number; anything else is
/// shown as written.
pub open spec fn collapsed_gap(v: Seq<char>) -> Seq<char> {
    let parts = ws_tokens(v);
    if 2 <= parts.len() <= 4 && (forall|i: int| 0 <= i < parts.len() ==> is_float_literal(#[trigger] parts[i]))
        && (forall|i: int| 0 <= i < parts.len() - 1 ==> #[trigger] parts[i] == parts[i + 1]) {
        parts[0]
    } else {
        v
    }
}

pub fn collapse_uniform_gap(value: &str) -> (r: String)
    ensures
        r@ == collapsed_gap(value@),
{
    let v = chars_of(value);
    let parts = split_ws(&v, 0, v.len());
    assert(v@.subrange(0, v@.len() as int) =~= value@);
    let ghost pv = ws_tokens(value@);
    if parts.len() < 2 || parts.len() > 4 {
        return value.to_owned();
    }
    let mut i: usize = 0;
    while i < parts.len()
        invariant
            i <= parts@.len(),
            ranges_within(parts@, 0, v@.len() as int),
            range_views(v@, parts@) == pv,
            forall|j: int| 0 <= j < i ==> is_float_literal(#[trigger] pv[j]),
            forall|j: int| 0 <= j < i - 1 ==> #[trigger] pv[j] == pv[j + 1],
            2 <= parts@.len() <= 4,
            v@ == value@,
            pv == ws_tokens(value@),
        decreases parts@.len() - i,
    {
        let (x, y) = parts[i];
        assert(pv[i as int] == v@.subrange(x as int, y as int));
        if !float_literal(&v, x, y) {
            return value.to_owned();
        }
        if i > 0 {
            let (a, b) = parts[i - 1];
            assert(pv[i - 1] == v@.subrange(a as int, b as int));
            let prev = string_from(&v, a, b);
            let pc = chars_of(prev.as_str());
            if !seq_eq(&v, x, y, &pc) {
                assert(pv[i - 1] != pv[i as int]);
                return value.to_owned();
            }
        }
        i = i + 1;
    }
    let (x, y) = parts[0];
    assert(pv[0] == v@.subrange(x as int, y as int));
    string_from(&v, x, y)
}

// ---------------------------------------------------------------------
// Pages, color tokens, dashboard.
// ---------------------------------------------------------------------

pub open spec fn page_family(page_id: Seq<char>) -> Option<Seq<char>> {
    if page_id == "keybinds"@ {
        Some("hl.bind"@)
    } else if page_id == "monitors"@ {
        Some("hl.monitor"@)
    } else if page_id == "gestures"@ {
        Some("hl.gesture"@)
    } else if page_id == "devices"@ {
        Some("hl.device"@)
    } else if page_id == "ecosystem"@ {
        Some("hl.permission"@)
    } else {
        None
    }
}

/// The structured family shown on a page, if any.
pub fn page_structured_family(page_id: &str) -> (r: Option<&'static str>)
    ensures
        match r {
            Some(f) => page_family(page_id@) == Some(f@),
            None => page_family(page_id@) is None,
        },
{
    if str_eq(page_id, "keybinds") {
        Some("hl.bind")
    } else if str_eq(page_id, "monitors") {
        Some("hl.monitor")
    } else if str_eq(page_id, "gestures") {
        Some("hl.gesture")
    } else if str_eq(page_id, "devices") {
        Some("hl.device")
    } else if str_eq(page_id, "ecosystem") {
        Some("hl.permission")
    } else {
        None
    }
}

/// The lower-case hex digit of `d < 16`.
pub open spec fn hex_digit_char(d: nat) -> char {
    if d < 10 {
        (d + 48) as char
    } else {
        (d + 87) as char
    }
}

/// Two lower-case hex digits, as `{:02x}` writes a byte.
pub open spec fn hex_byte_text(b: u8) -> Seq<char> {
    seq![hex_digit_char((b / 16) as nat), hex_digit_char((b % 16) as nat)]
}

pub open spec fn hex8_text(c: crate::ux_presentation::ParsedColor) -> Seq<char> {
    hex_byte_text(c.red) + hex_byte_text(c.green) + hex_byte_text(c.blue) + hex_byte_text(c.alpha)
}

fn push_hex_byte(s: &mut String, b: u8)
    ensures
        final(s)@ == old(s)@ + hex_byte_text(b),
{
    let hi: u8 = b / 16;
    let lo: u8 = b % 16;
    push_char(s, if hi < 10 { (hi + 48) as char } else { (hi + 87) as char });
    push_char(s, if lo < 10 { (lo + 48) as char } else { (lo + 87) as char });
    assert(s@ =~= old(s)@ + hex_byte_text(b));
}

/// The color as eight hex digits, red first and alpha last.
pub fn hex8_token(color: crate::ux_presentation::ParsedColor) -> (r: String)
    ensures
        r@ == hex8_text(color),
{
    let mut s = String::new();
    push_hex_byte(&mut s, color.red);
    push_hex_byte(&mut s, color.green);
    push_hex_byte(&mut s, color.blue);
    push_hex_byte(&mut s, color.alpha);
    assert(s@ =~= hex8_text(color));
    s
}

/// The color as an `rgba(RRGGBBAA)` token.
pub fn rgba_token(color: crate::ux_presentation::ParsedColor) -> (r: String)
    ensures
        r@ == "rgba("@ + hex8_text(color) + ")"@,
{
    let mut s = "rgba(".to_owned();
    let h = hex8_token(color);
    crate::text::append_str(&mut s, h.as_str());
    crate::text::append_str(&mut s, ")");
    s
}

/// A dashboard shortcut to a page.
#[derive(Debug, Clone, Copy, PartialEq, Eq)]
pub struct DashboardCard {
    pub title: &'static str,
    pub description: &'static str,
    pub target_tab_id: &'static str,
}

pub open spec fn card(title: &'static str, description: &'static str, target: &'static str) -> DashboardCard {
    DashboardCard { title, description, target_tab_id: target }
}

pub open spec fn spec_dashboard_cards() -> Seq<DashboardCard> {
    seq![
        card("Settings", "Choose which Hyprland config the app reviews and where future changes should be saved.", "config"),
        card("General", "Change gaps, borders, border colors, layout, and snapping.", "general"),
        card("Animations", "Tune animation settings; supervised live preview with automatic revert is available here.", "animations"),
        card("Decoration", "Change rounding, opacity, blur, and shadows.", "decoration"),
        card("Devices", "Adjust keyboard, mouse, touchpad, and focus behavior.", "devices"),
        card("Monitors", "Review monitor, rendering, color, and display-related options.", "monitors"),
        card("Keybinds", "Browse keybind-related settings and preserved shortcut entries.", "keybinds"),
        card("System", "Review settings that need extra care before changing.", "system"),
        card("Safety Details", "Proof receipts, safety evidence, and review-only activation cards.", "safety-details"),
    ]
}

/// The dashboard's shortcut cards, in display order.
pub fn dashboard_cards() -> (r: &'static [DashboardCard])
    ensures
        r@ == spec_dashboard_cards(),
{
    let r: &'static [DashboardCard] = &[
        DashboardCard { title: "Settings", description: "Choose which Hyprland config the app reviews and where future changes should be saved.", target_tab_id: "config" },
        DashboardCard { title: "General", description: "Change gaps, borders, border colors, layout, and snapping.", target_tab_id: "general" },
        DashboardCard { title: "Animations", description: "Tune animation settings; supervised live preview with automatic revert is available here.", target_tab_id: "animations" },
        DashboardCard { title: "Decoration", description: "Change rounding, opacity, blur, and shadows.", target_tab_id: "decoration" },
        DashboardCard { title: "Devices", description: "Adjust keyboard, mouse, touchpad, and focus behavior.", target_tab_id: "devices" },
        DashboardCard { title: "Monitors", description: "Review monitor, rendering, color, and display-related options.", target_tab_id: "monitors" },
        DashboardCard { title: "Keybinds", description: "Browse keybind-related settings and preserved shortcut entries.", target_tab_id: "keybinds" },
        DashboardCard { title: "System", description: "Review settings that need extra care before changing.", target_tab_id: "system" },
        DashboardCard { title: "Safety Details", description: "Proof receipts, safety evidence, and review-only activation cards.", target_tab_id: "safety-details" },
    ];
    assert(r@ =~= spec_dashboard_cards());
    r
}

/// The dashboard asks for attention when the loaded config has duplicate
/// or unparsed settings, or a structured family with warnings.
pub open spec fn needs_attention(model: UiProjection, config_loaded: bool) -> bool {
    config_loaded && (model.current_value_summary.duplicate_conflict_rows > 0
        || model.current_value_summary.parser_warning_rows > 0 || exists|i: int|
        0 <= i < model.structured_families@.len()
            && (#[trigger] model.structured_families@[i]).warning_count > 0)
}

/// Whether the dashboard shows its attention banner; `config_loaded` tells
/// whether the current config was read.
pub fn dashboard_needs_attention(model: &UiProjection, config_loaded: bool) -> (r: bool)
    ensures
        r == needs_attention(*model, config_loaded),
{
    if !config_loaded {
        return false;
    }
    if model.current_value_summary.duplicate_conflict_rows > 0
        || model.current_value_summary.parser_warning_rows > 0 {
        return true;
    }
    let families = &model.structured_families;
    let mut i: usize = 0;
    while i < families.len()
        invariant
            i <= families@.len(),
            config_loaded,
            families@ == model.structured_families@,
            forall|j: int| 0 <= j < i ==> (#[trigger] families@[j]).warning_count == 0,
        decreases families@.len() - i,
    {
        if families[i].warning_count > 0 {
            assert(model.structured_families@[i as int].warning_count > 0);
            return true;
        }
        i = i + 1;
    }
    false
}

// ---------------------------------------------------------------------
// The value a live preview starts from.
// ---------------------------------------------------------------------

/// The first value known for a row: the running session's, the config's,
/// the official default, then the proposed one; empty when none is known.
pub open spec fn seed_value(
    live: Option<Seq<char>>,
    setting: UiSetting,
    official_default: Option<Seq<char>>,
) -> Seq<char> {
    match live {
        Some(v) => v,
        None => match setting.current_value.raw_value {
            Some(v) => v@,
            None => match official_default {
                Some(v) => v,
                None => match setting.edit.proposed_value {
                    Some(v) => v@,
                    None => seq![],
                },
            },
        },
    }
}

/// The value a live preview control starts from, with a uniform gap
/// shorthand collapsed to one number. `live` is the value the running
/// session reports for the setting, `official_default` its documented
/// default, where those are known.
pub fn runtime_seed_initial_value(
    live: Option<String>,
    setting: &UiSetting,
    official_default: Option<&str>,
) -> (r: String)
    ensures
        r@ == collapsed_gap(
            seed_value(
                match live {
                    Some(v) => Some(v@),
                    None => None,
                },
                *setting,
                match official_default {
                    Some(v) => Some(v@),
                    None => None,
                },
            ),
        ),
{
    let value: String = match live {
        Some(v) => v,
        None => match &setting.current_value.raw_value {
            Some(v) => v.clone(),
            None => match official_default {
                Some(v) => v.to_string(),
                None => match &setting.edit.proposed_value {
                    Some(v) => v.clone(),
                    None => String::new(),
                },
            },
        },
    };
    collapse_uniform_gap(value.as_str())
}

/// Whether a boolean value reads as on: trimmed and in ASCII lower case it
/// is `1`, `true`, `yes` or `on`.
pub open spec fn switch_on(v: Seq<char>) -> bool {
    let k = lower_seq(trim(v));
    k == "1"@ || k == "true"@ || k == "yes"@ || k == "on"@
}

/// Whether a switch control starts on for the value `v`.
pub fn switch_seed_active(v: &str) -> (r: bool)
    ensures
        r == switch_on(v@),
{
    let key = ascii_lowercase(trim_str(v));
    let k = key.as_str();
    str_eq(k, "1") || str_eq(k, "true") || str_eq(k, "yes") || str_eq(k, "on")
}

// ---------------------------------------------------------------------
// The sidebar.
// ---------------------------------------------------------------------

/// The id of the dashboard page, pinned at the top of the sidebar.
pub const DASHBOARD_ID: &'static str = "dashboard";

/// One entry of the sidebar: a page, and the model tab its rows come from
/// for pages that show rows.
#[derive(Debug, Clone, PartialEq, Eq)]
pub struct SidebarItem {
    pub id: String,
    pub label: String,
    pub target_tab_id: Option<String>,
}

pub open spec fn sidebar_item_view(i: SidebarItem) -> (Seq<char>, Seq<char>, Option<Seq<char>>) {
    (i.id@, i.label@, match i.target_tab_id {
        Some(t) => Some(t@),
        None => None,
    })
}

pub open spec fn sidebar_items_view(s: Seq<SidebarItem>) -> Seq<(Seq<char>, Seq<char>, Option<Seq<char>>)> {
    s.map_values(|i: SidebarItem| sidebar_item_view(i))
}

/// Whether some setting of the page's tab belongs on the page.
pub open spec fn page_has_rows(settings: Seq<UiSetting>, p: PageModel) -> bool {
    &&& p.source_tab is Some
    &&& exists|i: int|
        0 <= i < settings.len() && (#[trigger] settings[i]).tab_id@ == p.source_tab->0 && claims(
            p,
            settings[i].official_setting@,
        )
}

/// The sidebar entries of `pages`: standalone pages always, pages that show
/// rows only when some row lands on them.
pub open spec fn sidebar_entries(settings: Seq<UiSetting>, pages: Seq<(Seq<char>, PageModel)>) -> Seq<
    (Seq<char>, Seq<char>, Option<Seq<char>>),
>
    decreases pages.len(),
{
    if pages.len() == 0 {
        seq![]
    } else {
        let p = pages.last().1;
        sidebar_entries(settings, pages.drop_last()) + match p.source_tab {
            None => seq![(p.id, p.label, None)],
            Some(t) => if page_has_rows(settings, p) {
                seq![(p.id, p.label, Some(t))]
            } else {
                seq![]
            },
        }
    }
}

/// The sidebar: the dashboard, then the pages in layout order, pages whose
/// tab has no row on them hidden.
pub open spec fn sidebar_view(model: UiProjection) -> Seq<(Seq<char>, Seq<char>, Option<Seq<char>>)> {
    seq![(DASHBOARD_ID@, "Dashboard"@, None)] + sidebar_entries(model.settings@, sidebar_model())
}

fn page_has_setting(model: &UiProjection, page: &PageSpec, tab: &str) -> (r: bool)
    requires
        page.source_tab == Some(tab),
    ensures
        r == page_has_rows(model.settings@, page.model()),
{
    let settings = &model.settings;
    let mut i: usize = 0;
    while i < settings.len()
        invariant
            i <= settings@.len(),
            settings@ == model.settings@,
            page.source_tab == Some(tab),
            forall|j: int|
                0 <= j < i ==> !((#[trigger] settings@[j]).tab_id@ == tab@ && claims(
                    page.model(),
                    settings@[j].official_setting@,
                )),
        decreases settings@.len() - i,
    {
        if str_eq(settings[i].tab_id.as_str(), tab) && page_claims_row(
            page,
            settings[i].official_setting.as_str(),
        ) {
            assert(settings@[i as int].tab_id@ == page.model().source_tab->0);
            return true;
        }
        i = i + 1;
    }
    false
}

pub fn sidebar_items(model: &UiProjection) -> (r: Vec<SidebarItem>)
    ensures
        sidebar_items_view(r@) == sidebar_view(*model),
{
    let mut items: Vec<SidebarItem> = Vec::new();
    items.push(SidebarItem { id: DASHBOARD_ID.to_string(), label: "Dashboard".to_string(), target_tab_id: None });
    assert(sidebar_items_view(items@) =~= seq![(DASHBOARD_ID@, "Dashboard"@, None::<Seq<char>>)]);
    let pages = sidebar_pages();
    let mut i: usize = 0;
    while i < pages.len()
        invariant
            i <= pages@.len(),
            pages_view(pages@) == sidebar_model(),
            sidebar_items_view(items@) == seq![(DASHBOARD_ID@, "Dashboard"@, None::<Seq<char>>)]
                + sidebar_entries(model.settings@, sidebar_model().take(i as int)),
        decreases pages@.len() - i,
    {
        let page = pages[i].1;
        assert(sidebar_model()[i as int] == (pages@[i as int].0@, page.model()));
        assert(sidebar_model().take(i + 1).drop_last() =~= sidebar_model().take(i as int));
        assert(sidebar_model().take(i + 1).last() == sidebar_model()[i as int]);
        let ghost before = sidebar_items_view(items@);
        match page.source_tab {
            None => {
                items.push(SidebarItem { id: page.id.to_string(), label: page.label.to_string(), target_tab_id: None });
                assert(sidebar_items_view(items@) =~= before.push((page.id@, page.label@, None)));
            },
            Some(tab) => {
                if page_has_setting(model, &page, tab) {
                    items.push(SidebarItem {
                        id: page.id.to_string(),
                        label: page.label.to_string(),
                        target_tab_id: Some(tab.to_string()),
                    });
                    assert(sidebar_items_view(items@) =~= before.push((page.id@, page.label@, Some(tab@))));
                } else {
                    assert(before + Seq::<(Seq<char>, Seq<char>, Option<Seq<char>>)>::empty() =~= before);
                }
            },
        }
        i = i + 1;
    }
    assert(sidebar_model().take(i as int) =~= sidebar_model());
    items
}

proof fn lemma_sidebar_entry_of(
    settings: Seq<UiSetting>,
    pages: Seq<(Seq<char>, PageModel)>,
    p: int,
)
    requires
        0 <= p < pages.len(),
        pages[p].1.source_tab is Some,
        page_has_rows(settings, pages[p].1),
    ensures
        sidebar_entries(settings, pages).contains(
            (pages[p].1.id, pages[p].1.label, pages[p].1.source_tab),
        ),
    decreases pages.len(),
{
    let e = (pages[p].1.id, pages[p].1.label, pages[p].1.source_tab);
    let front = sidebar_entries(settings, pages.drop_last());
    if p == pages.len() - 1 {
        let all = sidebar_entries(settings, pages);
        assert(all == front + seq![e]);
        assert(all[front.len() as int] == e);
    } else {
        assert(pages.drop_last()[p] == pages[p]);
        lemma_sidebar_entry_of(settings, pages.drop_last(), p);
        let j = choose|j: int| 0 <= j < front.len() && front[j] == e;
        let all = sidebar_entries(settings, pages);
        assert(all.subrange(0, front.len() as int) =~= front);
        assert(all[j] == e);
    }
}

/// Hiding empty pages hides no row: every setting of a tab that has
/// sidebar pages lands on a page the sidebar shows.
pub proof fn law_sidebar_shows_every_row(model: UiProjection, k: int, i: int)
    requires
        0 <= k < model.settings@.len(),
        0 <= i < sidebar_model().len(),
        sidebar_model()[i].1.source_tab == Some(model.settings@[k].tab_id@),
    ensures
        exists|p: int|
            0 <= p < sidebar_model().len() && claims(
                (#[trigger] sidebar_model()[p]).1,
                model.settings@[k].official_setting@,
            ) && sidebar_view(model).contains(
                (
                    sidebar_model()[p].1.id,
                    sidebar_model()[p].1.label,
                    Some(model.settings@[k].tab_id@),
                ),
            ),
{
    let tab = model.settings@[k].tab_id@;
    let official = model.settings@[k].official_setting@;
    let m = sidebar_model();
    crate::ux_presentation::law_each_row_on_one_page(tab, official, i);
    let p = choose|p: int|
        0 <= p < m.len() && (#[trigger] m[p]).1.source_tab == Some(tab) && claims(m[p].1, official);
    assert(page_has_rows(model.settings@, m[p].1)) by {
        assert(model.settings@[k].tab_id@ == m[p].1.source_tab->0);
    }
    lemma_sidebar_entry_of(model.settings@, m, p);
    let entries = sidebar_entries(model.settings@, m);
    let e = (m[p].1.id, m[p].1.label, Some(tab));
    let j = choose|j: int| 0 <= j < entries.len() && entries[j] == e;
    let v = sidebar_view(model);
    assert(v[j + 1] == e);
}

// ---------------------------------------------------------------------
// The layouts page.
// ---------------------------------------------------------------------

/// The layout switches of the layouts page: a label and the row-id prefix
/// of the settings it shows.
pub open spec fn spec_layout_tabs() -> Seq<(&'static str, &'static str)> {
    seq![("Dwindle", "dwindle."), ("Master", "master."), ("Scrolling", "scrolling.")]
}

pub fn layout_tabs() -> (r: &'static [(&'static str, &'static str)])
    ensures
        r@ == spec_layout_tabs(),
{
    let r: &'static [(&'static str, &'static str)] = &[
        ("Dwindle", "dwindle."),
        ("Master", "master."),
        ("Scrolling", "scrolling."),
    ];
    assert(r@ =~= spec_layout_tabs());
    r
}

/// The settings of `s` whose row id starts with `prefix`, in order.
pub open spec fn with_row_prefix(s: Seq<UiSetting>, prefix: Seq<char>) -> Seq<UiSetting>
    decreases s.len(),
{
    if s.len() == 0 {
        seq![]
    } else if starts_with(s.last().row_id@, prefix) {
        with_row_prefix(s.drop_last(), prefix).push(s.last())
    } else {
        with_row_prefix(s.drop_last(), prefix)
    }
}

/// The settings a layout switch shows: those of the window-layout tab
/// whose row id starts with the prefix, ordered by row order.
pub open spec fn layout_rows(model: UiProjection, prefix: Seq<char>) -> Seq<UiSetting> {
    let tab = settings_of_tab(model.settings@, "windows-layout"@);
    let f = with_row_prefix(stable_order(row_keys(tab)).map_values(|j: int| tab[j]), prefix);
    stable_order(row_keys(f)).map_values(|j: int| f[j])
}

pub fn layout_settings(model: &UiProjection, prefix: &str) -> (r: Vec<UiSetting>)
    ensures
        r@ == layout_rows(*model, prefix@),
{
    let tab = model.settings_for_tab("windows-layout");
    let mut rows: Vec<UiSetting> = Vec::new();
    let mut keys: Vec<(usize, usize)> = Vec::new();
    let mut i: usize = 0;
    while i < tab.len()
        invariant
            i <= tab@.len(),
            rows@ == with_row_prefix(tab@.take(i as int), prefix@),
            keys@ == row_keys(rows@),
        decreases tab@.len() - i,
    {
        assert(tab@.take(i + 1).drop_last() =~= tab@.take(i as int));
        assert(tab@.take(i + 1).last() == tab@[i as int]);
        if str_starts_with(tab[i].row_id.as_str(), prefix) {
            rows.push(tab[i].duplicate());
            keys.push((tab[i].row_order, 0usize));
            assert(keys@ =~= row_keys(rows@));
        }
        i = i + 1;
    }
    assert(tab@.take(i as int) =~= tab@);
    stable_sort_by_keys(rows, &keys)
}

// ---------------------------------------------------------------------
// Row and detail text.
// ---------------------------------------------------------------------

/// A row id with a high-risk write policy.
pub open spec fn high_risk_row(row_id: Seq<char>) -> bool {
    crate::write_classification::names(
        crate::write_classification::spec_ecosystem_high_risk_writable_rows(),
    ).contains(row_id)
}

fn is_high_risk_row(row_id: &str) -> (r: bool)
    ensures
        r == high_risk_row(row_id@),
{
    crate::write_classification::high_risk_write_policy(row_id).is_some()
}

/// The short current-value status of a row.
pub open spec fn row_status_text(v: CurrentValueProjection) -> Seq<char> {
    match v.status {
        CurrentValueSourceStatus::Configured => "Current: "@ + match v.raw_value {
            Some(raw) => friendly_value(raw@),
            None => "Set"@,
        },
        CurrentValueSourceStatus::NotConfigured => "Uses Hyprland default"@,
        CurrentValueSourceStatus::DuplicateConflict => "Needs attention"@,
        CurrentValueSourceStatus::ReadUnavailable => "Not available right now"@,
    }
}

pub fn friendly_row_current_status(setting: &UiSetting) -> (r: String)
    ensures
        r@ == row_status_text(setting.current_value),
{
    match setting.current_value.status {
        CurrentValueSourceStatus::Configured => {
            let value = match &setting.current_value.raw_value {
                Some(raw) => friendly_current_value(raw.as_str()),
                None => "Set".to_owned(),
            };
            crate::text::concat2("Current: ", value.as_str())
        },
        CurrentValueSourceStatus::NotConfigured => "Uses Hyprland default".to_owned(),
        CurrentValueSourceStatus::DuplicateConflict => "Needs attention".to_owned(),
        CurrentValueSourceStatus::ReadUnavailable => "Not available right now".to_owned(),
    }
}

/// Whether a row needs a second look, short of a conflict.
pub open spec fn attention_text(s: UiSetting) -> Option<Seq<char>> {
    if s.current_value.status == CurrentValueSourceStatus::DuplicateConflict {
        None
    } else if s.current_value.warning is Some {
        Some("Needs attention"@)
    } else if high_risk_row(s.row_id@) || s.row_id@ == "decoration.screen_shader"@ {
        Some("Extra care needed"@)
    } else {
        None
    }
}

pub fn friendly_row_attention_status(setting: &UiSetting) -> (r: Option<String>)
    ensures
        match r {
            Some(t) => attention_text(*setting) == Some(t@),
            None => attention_text(*setting) is None,
        },
{
    if matches!(setting.current_value.status, CurrentValueSourceStatus::DuplicateConflict) {
        return None;
    }
    if setting.current_value.warning.is_some() {
        return Some("Needs attention".to_owned());
    }
    if is_high_risk_row(setting.row_id.as_str()) || str_eq(
        setting.row_id.as_str(),
        "decoration.screen_shader",
    ) {
        return Some("Extra care needed".to_owned());
    }
    None
}

/// The parts of a row's accessible description, in order.
pub open spec fn row_description_parts(s: UiSetting) -> Seq<Seq<char>> {
    seq!["Setting row: "@ + s.label@, "Official key: "@ + s.official_setting@, row_status_text(s.current_value)]
        + match s.current_value.status {
        CurrentValueSourceStatus::NotConfigured => seq![
            "Missing/default setting row. This setting is using Hyprland's default value."@,
        ],
        CurrentValueSourceStatus::DuplicateConflict => seq![
            "Duplicate conflict setting row. This setting appears more than once in your config."@,
        ],
        CurrentValueSourceStatus::ReadUnavailable => seq!["Current value unavailable setting row"@],
        CurrentValueSourceStatus::Configured => seq![],
    } + (if s.risk_class@ == "display_render_risk"@ || s.row_id@ == "decoration.screen_shader"@ {
        seq!["Display/render risk setting row. Extra care needed."@]
    } else if high_risk_row(s.row_id@) {
        seq!["High-risk setting row. Extra care needed."@]
    } else {
        match attention_text(s) {
            Some(t) => seq![t],
            None => seq!["Safe normal setting"@],
        }
    }) + match s.current_value.warning {
        Some(w) => seq!["Blocked or warning detail: "@ + w@],
        None => seq![],
    }
}

pub fn setting_row_accessibility_text(setting: &UiSetting) -> (r: String)
    ensures
        r@ == joined(row_description_parts(*setting), ". "@),
{
    let mut parts: Vec<String> = Vec::new();
    push_prefixed(&mut parts, "Setting row: ", setting.label.as_str());
    push_prefixed(&mut parts, "Official key: ", setting.official_setting.as_str());
    let status = friendly_row_current_status(setting);
    push_line(&mut parts, status.as_str());
    match setting.current_value.status {
        CurrentValueSourceStatus::NotConfigured => push_line(
            &mut parts,
            "Missing/default setting row. This setting is using Hyprland's default value.",
        ),
        CurrentValueSourceStatus::DuplicateConflict => push_line(
            &mut parts,
            "Duplicate conflict setting row. This setting appears more than once in your config.",
        ),
        CurrentValueSourceStatus::ReadUnavailable => push_line(
            &mut parts,
            "Current value unavailable setting row",
        ),
        CurrentValueSourceStatus::Configured => {},
    }
    if str_eq(setting.risk_class.as_str(), "display_render_risk") || str_eq(
        setting.row_id.as_str(),
        "decoration.screen_shader",
    ) {
        push_line(&mut parts, "Display/render risk setting row. Extra care needed.");
    } else if is_high_risk_row(setting.row_id.as_str()) {
        push_line(&mut parts, "High-risk setting row. Extra care needed.");
    } else {
        match friendly_row_attention_status(setting) {
            Some(t) => push_line(&mut parts, t.as_str()),
            None => push_line(&mut parts, "Safe normal setting"),
        }
    }
    match &setting.current_value.warning {
        Some(w) => push_prefixed(&mut parts, "Blocked or warning detail: ", w.as_str()),
        None => {},
    }
    assert(strings_view(parts@) =~= row_description_parts(*setting));
    join_lines(&parts, ". ")
}

/// The parts of a detail pane's accessible description, in order.
pub open spec fn detail_description_parts(d: RowDetailProjection) -> Seq<Seq<char>> {
    seq!["Detail pane for "@ + d.label@] + match d.current_value.status {
        CurrentValueSourceStatus::NotConfigured => seq![
            "Missing/default detail. This setting is using Hyprland's default value."@,
        ],
        CurrentValueSourceStatus::DuplicateConflict => seq![
            "Duplicate conflict detail pane. This setting appears more than once in your config."@,
        ],
        CurrentValueSourceStatus::ReadUnavailable => seq!["Current value unavailable detail"@],
        CurrentValueSourceStatus::Configured => seq![],
    } + (if d.risk_class@ == "display_render_risk"@ || d.row_id@ == "decoration.screen_shader"@ {
        seq!["Display/render risk detail. Extra care needed."@]
    } else if high_risk_row(d.row_id@) {
        seq!["High-risk detail. Extra care needed."@]
    } else {
        seq![]
    }) + match d.current_value.warning {
        Some(w) => seq!["Blocked or warning detail: "@ + w@],
        None => seq![],
    }
}

pub fn detail_pane_accessibility_text(detail: &RowDetailProjection) -> (r: String)
    ensures
        r@ == joined(detail_description_parts(*detail), ". "@),
{
    let mut parts: Vec<String> = Vec::new();
    push_prefixed(&mut parts, "Detail pane for ", detail.label.as_str());
    match detail.current_value.status {
        CurrentValueSourceStatus::NotConfigured => push_line(
            &mut parts,
            "Missing/default detail. This setting is using Hyprland's default value.",
        ),
        CurrentValueSourceStatus::DuplicateConflict => push_line(
            &mut parts,
            "Duplicate conflict detail pane. This setting appears more than once in your config.",
        ),
        CurrentValueSourceStatus::ReadUnavailable => push_line(
            &mut parts,
            "Current value unavailable detail",
        ),
        CurrentValueSourceStatus::Configured => {},
    }
    if str_eq(detail.risk_class.as_str(), "display_render_risk") || str_eq(
        detail.row_id.as_str(),
        "decoration.screen_shader",
    ) {
        push_line(&mut parts, "Display/render risk detail. Extra care needed.");
    } else if is_high_risk_row(detail.row_id.as_str()) {
        push_line(&mut parts, "High-risk detail. Extra care needed.");
    }
    match &detail.current_value.warning {
        Some(w) => push_prefixed(&mut parts, "Blocked or warning detail: ", w.as_str()),
        None => {},
    }
    assert(strings_view(parts@) =~= detail_description_parts(*detail));
    join_lines(&parts, ". ")
}

/// Why Apply can or cannot proceed for the row shown in `d`.
pub open spec fn apply_message(d: RowDetailProjection) -> Seq<char> {
    if !d.edit.editable {
        "Apply is blocked because this setting is not currently editable in the app: "@ + match d.edit.disabled_reason {
            Some(reason) => reason@,
            None => "no edit path is available"@,
        } + "."@
    } else {
        match d.edit.pending {
            None => "Apply is blocked because no pending value could be prepared."@,
            Some(p) => if p.can_review {
                if high_risk_row(d.row_id@) {
                    "Apply can proceed only through the high-risk gated review path with recovery and confirmation proof."@
                } else {
                    "Apply is available after backup, config write, and reread verification."@
                }
            } else if let Some(reason) = p.review_blocked_reason {
                "Apply is blocked because "@ + reason@ + "."@
            } else if let Some(rest) = strip_prefix(p.validation_label@, "invalid: "@) {
                "Apply is blocked because the proposed value is invalid: "@ + rest + "."@
            } else if let Some(rest) = strip_prefix(p.validation_label@, "not allowed: "@) {
                "Apply is blocked because "@ + rest + "."@
            } else if high_risk_row(d.row_id@) {
                "Apply is blocked until the high-risk gate has complete recovery, rollback, confirmation, and approval proof."@
            } else {
                "Apply is blocked until the current config is readable, conflict-free, and the proposed value passes validation."@
            },
        }
    }
}

/// `s` with `prefix` taken off, when it starts with it.
pub(crate) fn strip_prefix_str(s: &str, prefix: &str) -> (r: Option<String>)
    ensures
        match r {
            Some(t) => strip_prefix(s@, prefix@) == Some(t@),
            None => strip_prefix(s@, prefix@) is None,
        },
{
    let v = chars_of(s);
    let p = chars_of(prefix);
    assert(v@.subrange(0, v@.len() as int) =~= s@);
    if crate::text::starts_with_exec(&v, 0, v.len(), &p) {
        let t = string_from(&v, p.len(), v.len());
        assert(s@.subrange(p@.len() as int, s@.len() as int) =~= v@.subrange(p@.len() as int, v@.len() as int));
        Some(t)
    } else {
        None
    }
}

/// `prefix`, then `middle`, then a full stop.
fn sentence(prefix: &str, middle: &str) -> (r: String)
    ensures
        r@ == prefix@ + middle@ + "."@,
{
    let mut s = crate::text::concat2(prefix, middle);
    crate::text::append_str(&mut s, ".");
    s
}

pub fn apply_state_message(detail: &RowDetailProjection) -> (r: String)
    ensures
        r@ == apply_message(*detail),
{
    if !detail.edit.editable {
        return match &detail.edit.disabled_reason {
            Some(reason) => sentence(
                "Apply is blocked because this setting is not currently editable in the app: ",
                reason.as_str(),
            ),
            None => sentence(
                "Apply is blocked because this setting is not currently editable in the app: ",
                "no edit path is available",
            ),
        };
    }
    let pending = match &detail.edit.pending {
        Some(p) => p,
        None => return "Apply is blocked because no pending value could be prepared.".to_owned(),
    };
    let high_risk = is_high_risk_row(detail.row_id.as_str());
    if pending.can_review {
        if high_risk {
            return "Apply can proceed only through the high-risk gated review path with recovery and confirmation proof.".to_owned();
        }
        return "Apply is available after backup, config write, and reread verification.".to_owned();
    }
    if let Some(reason) = &pending.review_blocked_reason {
        return sentence("Apply is blocked because ", reason.as_str());
    }
    if let Some(rest) = strip_prefix_str(pending.validation_label.as_str(), "invalid: ") {
        return sentence(
            "Apply is blocked because the proposed value is invalid: ",
            rest.as_str(),
        );
    }
    if let Some(rest) = strip_prefix_str(pending.validation_label.as_str(), "not allowed: ") {
        return sentence("Apply is blocked because ", rest.as_str());
    }
    if high_risk {
        return "Apply is blocked until the high-risk gate has complete recovery, rollback, confirmation, and approval proof.".to_owned();
    }
    "Apply is blocked until the current config is readable, conflict-free, and the proposed value passes validation.".to_owned()
}

// ---------------------------------------------------------------------
// Inline color control state.
// ---------------------------------------------------------------------

/// The color stops of an inline color control and the gradient angle.
#[derive(Debug, Clone, PartialEq, Eq)]
pub struct ColorRowState {
    pub tokens: Vec<String>,
    pub angle: Option<u16>,
}

/// The tokens of `toks` that are not angles.
pub open spec fn stop_tokens(toks: Seq<Seq<char>>) -> Seq<Seq<char>>
    decreases toks.len(),
{
    if toks.len() == 0 {
        seq![]
    } else if strip_suffix(toks.last(), "deg"@) is Some {
        stop_tokens(toks.drop_last())
    } else {
        stop_tokens(toks.drop_last()).push(toks.last())
    }
}

/// The angle given by the last angle token of `toks`, when it is a `u16`.
pub open spec fn last_angle(toks: Seq<Seq<char>>) -> Option<u16>
    decreases toks.len(),
{
    if toks.len() == 0 {
        None
    } else if let Some(v) = strip_suffix(toks.last(), "deg"@) {
        if unsigned_text_ok(v, 65535) {
            Some(u16_value(v))
        } else {
            None
        }
    } else {
        last_angle(toks.drop_last())
    }
}

/// The state of a color control for the value `raw`: a single color is one
/// stop; a gradient is its color stops and angle; anything else has none.
pub open spec fn row_state(raw: Seq<char>) -> Option<(Seq<Seq<char>>, Option<u16>)> {
    let t = trim(raw);
    if color_swatch(t) is Some {
        Some((seq![t], None))
    } else if gradient_swatch(t) is Some {
        Some((stop_tokens(ws_tokens(t)), last_angle(ws_tokens(t))))
    } else {
        None
    }
}

fn parse_u16(v: &Vec<char>, lo: usize, hi: usize) -> (r: Option<u16>)
    requires
        lo <= hi <= v.len(),
    ensures
        r == if unsigned_text_ok(v@.subrange(lo as int, hi as int), 65535) {
            Some(u16_value(v@.subrange(lo as int, hi as int)))
        } else {
            None::<u16>
        },
{
    if !unsigned_text(v, lo, hi, 65535) {
        return None;
    }
    let start = if lo < hi && v[lo] == '+' {
        lo + 1
    } else {
        lo
    };
    let ghost vs = v@.subrange(lo as int, hi as int);
    assert(start > lo ==> vs.drop_first() =~= v@.subrange(start as int, hi as int));
    assert(start == lo ==> vs =~= v@.subrange(start as int, hi as int));
    let value = digits_value_capped(v, start, hi, 65535);
    Some(value as u16)
}

pub fn state_from_raw(raw: &str) -> (r: Option<ColorRowState>)
    ensures
        match r {
            Some(st) => row_state(raw@) == Some((strings_view(st.tokens@), st.angle)),
            None => row_state(raw@) is None,
        },
{
    let trimmed = trim_str(raw);
    proof {
        crate::text::lemma_trim_idempotent(raw@);
    }
    if parse_hyprland_color(trimmed).is_some() {
        let mut tokens: Vec<String> = Vec::new();
        push_line(&mut tokens, trimmed);
        return Some(ColorRowState { tokens, angle: None });
    }
    if parse_hyprland_gradient(trimmed).is_none() {
        return None;
    }
    let v = chars_of(trimmed);
    assert(v@.subrange(0, v@.len() as int) =~= trimmed@);
    let toks = split_ws(&v, 0, v.len());
    let ghost tv = ws_tokens(trimmed@);
    let deg = chars_of("deg");
    let mut tokens: Vec<String> = Vec::new();
    let mut angle: Option<u16> = None;
    let mut i: usize = 0;
    while i < toks.len()
        invariant
            i <= toks@.len(),
            ranges_within(toks@, 0, v@.len() as int),
            range_views(v@, toks@) == tv,
            tv.len() == toks@.len(),
            deg@ == "deg"@,
            strings_view(tokens@) == stop_tokens(tv.take(i as int)),
            angle == last_angle(tv.take(i as int)),
        decreases toks@.len() - i,
    {
        let (x, y) = toks[i];
        let ghost tok = v@.subrange(x as int, y as int);
        assert(tv[i as int] == tok);
        assert(tv.take(i + 1).drop_last() =~= tv.take(i as int));
        assert(tv.take(i + 1).last() == tok);
        if crate::text::ends_with_exec(&v, x, y, &deg) {
            let end = y - deg.len();
            assert(strip_suffix(tok, "deg"@) == Some(v@.subrange(x as int, end as int))) by {
                assert(tok.subrange(0, tok.len() - deg@.len()) =~= v@.subrange(x as int, end as int));
            }
            angle = parse_u16(&v, x, end);
        } else {
            assert(strip_suffix(tok, "deg"@) is None);
            let ghost before = strings_view(tokens@);
            let text = string_from(&v, x, y);
            let ghost tx = text@;
            tokens.push(text);
            assert(strings_view(tokens@) =~= before.push(tx));
        }
        i = i + 1;
    }
    assert(tv.take(i as int) =~= tv);
    Some(ColorRowState { tokens, angle })
}

/// The value text of a color control state: its stops, then the angle when
/// there are several stops, separated by single spaces.
pub open spec fn state_text(tokens: Seq<Seq<char>>, angle: Option<u16>) -> Seq<char> {
    joined(
        tokens + if tokens.len() > 1 && angle is Some {
            seq![decimal(angle->0 as nat) + "deg"@]
        } else {
            seq![]
        },
        " "@,
    )
}

pub fn raw_from_state(state: &ColorRowState) -> (r: String)
    ensures
        r@ == state_text(strings_view(state.tokens@), state.angle),
{
    let mut parts = crate::lines::copy_strings(&state.tokens);
    if state.tokens.len() > 1 {
        if let Some(a) = state.angle {
            let mut t = String::new();
            crate::text::push_decimal(&mut t, a as usize);
            crate::text::append_str(&mut t, "deg");
            let ghost before = strings_view(parts@);
            let ghost tx = t@;
            parts.push(t);
            assert(strings_view(parts@) =~= before.push(tx));
        }
    }
    assert(strings_view(parts@) =~= strings_view(state.tokens@) + if state.tokens@.len() > 1
        && state.angle is Some {
        seq![decimal(state.angle->0 as nat) + "deg"@]
    } else {
        seq![]
    });
    join_lines(&parts, " ")
}

} // verus!
