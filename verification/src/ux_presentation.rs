//! Presentation layer: the grouped sidebar page layout, friendly labels for
//! rows, sections and finite choices, and the short per-row status chip.
//! Presentation only: rows keep their tab, ids, classifications and save
//! paths; nothing here reclassifies a row.
use vstd::prelude::*;
use crate::text::{
    ascii_lower, chars_of, concat2, eq_ignore_case, first_match, has_char, lower_seq,
    starts_with, starts_with_exec, strip_prefix, string_from, to_ascii_lower, trim, trim_range,
    lemma_first_match, lemma_first_match_at, push_char, contains_seq, contains_exec,
};
use crate::value::number::{eq_ignore_case_exec, float_literal, is_float_literal};

pub mod swatch;

pub use swatch::{parse_hyprland_color, parse_hyprland_gradient, ParsedColor};

verus! {

/// One sidebar page. A page either shows rows of a model tab (optionally
/// only those whose official setting starts with one of its prefixes; the
/// tab's page without prefixes takes every row no sibling claims) or is a
/// standalone view (no source tab).
#[derive(Debug, Clone, Copy, PartialEq, Eq)]
pub struct PageSpec {
    pub id: &'static str,
    pub label: &'static str,
    pub source_tab: Option<&'static str>,
    pub include_prefixes: Option<&'static [&'static str]>,
}

/// A sidebar category header with its pages.
#[derive(Debug, Clone, PartialEq, Eq)]
pub struct SidebarCategoryPages {
    pub label: &'static str,
    pub pages: Vec<PageSpec>,
}

/// The meaning of a `PageSpec`.
pub struct PageModel {
    pub id: Seq<char>,
    pub label: Seq<char>,
    pub source_tab: Option<Seq<char>>,
    pub include_prefixes: Option<Seq<Seq<char>>>,
}

impl PageSpec {
    pub open spec fn model(self) -> PageModel {
        PageModel {
            id: self.id@,
            label: self.label@,
            source_tab: match self.source_tab {
                Some(t) => Some(t@),
                None => None,
            },
            include_prefixes: match self.include_prefixes {
                Some(p) => Some(p@.map_values(|s: &str| s@)),
                None => None,
            },
        }
    }
}

pub open spec fn page(
    id: Seq<char>,
    label: Seq<char>,
    tab: Option<Seq<char>>,
    prefixes: Option<Seq<Seq<char>>>,
) -> PageModel {
    PageModel { id, label, source_tab: tab, include_prefixes: prefixes }
}

/// Every sidebar page in display order, with its category label.
pub open spec fn sidebar_model() -> Seq<(Seq<char>, PageModel)> {
    seq![
        ("Look & Feel"@, page("general"@, "General"@, Some("appearance"@), None)),
        ("Look & Feel"@, page("decoration"@, "Decoration"@, Some("appearance"@), Some(seq!["decoration."@]))),
        ("Look & Feel"@, page("animations"@, "Animations"@, Some("animations"@), None)),
        ("Look & Feel"@, page("cursor"@, "Cursor"@, Some("cursor"@), None)),
        ("Input"@, page("keybinds"@, "Keybinds"@, Some("keybinds"@), None)),
        ("Input"@, page("devices"@, "Devices"@, Some("input"@), None)),
        ("Input"@, page("gestures"@, "Gestures"@, Some("input"@), Some(seq!["gestures."@, "gesture."@]))),
        ("Display"@, page("monitors"@, "Monitors"@, Some("display"@), None)),
        ("Display"@, page("workspaces"@, "Workspaces"@, None, None)),
        ("Window Management"@, page("layouts"@, "Layouts"@, None, None)),
        ("Window Management"@, page("window-rules"@, "Window Rules"@, None, None)),
        ("Window Management"@, page("layer-rules"@, "Layer Rules"@, None, None)),
        ("Startup"@, page("autostart"@, "Autostart"@, None, None)),
        ("Startup"@, page("env-variables"@, "Env Variables"@, None, None)),
        ("Advanced"@, page("xwayland"@, "XWayland"@, Some("system"@), Some(seq!["xwayland."@]))),
        ("Advanced"@, page("ecosystem"@, "Ecosystem"@, Some("system"@), Some(seq!["ecosystem."@]))),
        ("Advanced"@, page("system"@, "System"@, Some("system"@), None)),
        ("Advanced"@, page("permissions"@, "Permissions"@, Some("permissions"@), None)),
        ("Advanced"@, page("windows-layout"@, "Windows & Layout"@, Some("windows-layout"@), None)),
        ("Advanced"@, page("profiles"@, "Profiles"@, None, None)),
        ("Advanced"@, page("config"@, "Settings"@, None, None)),
        ("Advanced"@, page("safety-details"@, "Safety Details"@, None, None)),
    ]
}

pub open spec fn pages_view(r: Seq<(&'static str, PageSpec)>) -> Seq<(Seq<char>, PageModel)> {
    r.map_values(|e: (&'static str, PageSpec)| (e.0@, e.1.model()))
}

fn spec_page(
    id: &'static str,
    label: &'static str,
    source_tab: Option<&'static str>,
    include_prefixes: Option<&'static [&'static str]>,
) -> (r: PageSpec)
    ensures
        r.id == id && r.label == label && r.source_tab == source_tab && r.include_prefixes
            == include_prefixes,
{
    PageSpec { id, label, source_tab, include_prefixes }
}

/// Every sidebar page in display order, with its category label.
pub fn sidebar_pages() -> (r: Vec<(&'static str, PageSpec)>)
    ensures
        pages_view(r@) == sidebar_model(),
{
    let decoration: &'static [&'static str] = &["decoration."];
    let gestures: &'static [&'static str] = &["gestures.", "gesture."];
    let xwayland: &'static [&'static str] = &["xwayland."];
    let ecosystem: &'static [&'static str] = &["ecosystem."];
    let r = vec![
        ("Look & Feel", spec_page("general", "General", Some("appearance"), None)),
        ("Look & Feel", spec_page("decoration", "Decoration", Some("appearance"), Some(decoration))),
        ("Look & Feel", spec_page("animations", "Animations", Some("animations"), None)),
        ("Look & Feel", spec_page("cursor", "Cursor", Some("cursor"), None)),
        ("Input", spec_page("keybinds", "Keybinds", Some("keybinds"), None)),
        ("Input", spec_page("devices", "Devices", Some("input"), None)),
        ("Input", spec_page("gestures", "Gestures", Some("input"), Some(gestures))),
        ("Display", spec_page("monitors", "Monitors", Some("display"), None)),
        ("Display", spec_page("workspaces", "Workspaces", None, None)),
        ("Window Management", spec_page("layouts", "Layouts", None, None)),
        ("Window Management", spec_page("window-rules", "Window Rules", None, None)),
        ("Window Management", spec_page("layer-rules", "Layer Rules", None, None)),
        ("Startup", spec_page("autostart", "Autostart", None, None)),
        ("Startup", spec_page("env-variables", "Env Variables", None, None)),
        ("Advanced", spec_page("xwayland", "XWayland", Some("system"), Some(xwayland))),
        ("Advanced", spec_page("ecosystem", "Ecosystem", Some("system"), Some(ecosystem))),
        ("Advanced", spec_page("system", "System", Some("system"), None)),
        ("Advanced", spec_page("permissions", "Permissions", Some("permissions"), None)),
        ("Advanced", spec_page("windows-layout", "Windows & Layout", Some("windows-layout"), None)),
        ("Advanced", spec_page("profiles", "Profiles", None, None)),
        ("Advanced", spec_page("config", "Settings", None, None)),
        ("Advanced", spec_page("safety-details", "Safety Details", None, None)),
    ];
    assert(decoration@.map_values(|s: &str| s@) =~= seq!["decoration."@]);
    assert(gestures@.map_values(|s: &str| s@) =~= seq!["gestures."@, "gesture."@]);
    assert(xwayland@.map_values(|s: &str| s@) =~= seq!["xwayland."@]);
    assert(ecosystem@.map_values(|s: &str| s@) =~= seq!["ecosystem."@]);
    assert(pages_view(r@) =~= sidebar_model());
    r
}

/// The pages of a grouped layout in display order, each with its category label.
pub open spec fn flatten_layout(cs: Seq<SidebarCategoryPages>) -> Seq<(Seq<char>, PageModel)>
    decreases cs.len(),
{
    if cs.len() == 0 {
        seq![]
    } else {
        flatten_layout(cs.drop_last()) + cs.last().pages@.map_values(
            |p: PageSpec| (cs.last().label@, p.model()),
        )
    }
}

fn push_category(
    r: &mut Vec<SidebarCategoryPages>,
    flat: &Vec<(&'static str, PageSpec)>,
    label: &'static str,
    from: usize,
    to: usize,
)
    requires
        from <= to <= flat.len(),
        flatten_layout(old(r)@) == pages_view(flat@).subrange(0, from as int),
        forall|k: int| from <= k < to ==> (#[trigger] flat@[k]).0@ == label@,
    ensures
        flatten_layout(final(r)@) == pages_view(flat@).subrange(0, to as int),
        final(r)@.len() == old(r)@.len() + 1,
        final(r)@.drop_last() == old(r)@,
        final(r)@.last().label == label,
{
    let mut pages: Vec<PageSpec> = Vec::new();
    let mut k = from;
    while k < to
        invariant
            from <= k <= to <= flat.len(),
            forall|q: int| from <= q < to ==> (#[trigger] flat@[q]).0@ == label@,
            pages@.map_values(|p: PageSpec| (label@, p.model())) == pages_view(flat@).subrange(
                from as int,
                k as int,
            ),
        decreases to - k,
    {
        let ghost before = pages@;
        pages.push(flat[k].1);
        assert(pages@.map_values(|p: PageSpec| (label@, p.model())) =~= before.map_values(
            |p: PageSpec| (label@, p.model()),
        ).push((label@, flat@[k as int].1.model())));
        assert(pages_view(flat@).subrange(from as int, k + 1) =~= pages_view(flat@).subrange(
            from as int,
            k as int,
        ).push(pages_view(flat@)[k as int]));
        k = k + 1;
    }
    let ghost old_r = r@;
    r.push(SidebarCategoryPages { label, pages });
    assert(r@.drop_last() =~= old_r);
    assert(pages_view(flat@).subrange(0, to as int) =~= pages_view(flat@).subrange(0, from as int)
        + pages_view(flat@).subrange(from as int, to as int));
}

/// The sidebar grouped by category, in display order.
pub fn sidebar_page_layout() -> (r: Vec<SidebarCategoryPages>)
    ensures
        flatten_layout(r@) == sidebar_model(),
        r@.map_values(|c: SidebarCategoryPages| c.label@) == seq![
            "Look & Feel"@,
            "Input"@,
            "Display"@,
            "Window Management"@,
            "Startup"@,
            "Advanced"@,
        ],
{
    let flat = sidebar_pages();
    let mut r: Vec<SidebarCategoryPages> = Vec::new();
    assert(flatten_layout(r@) =~= pages_view(flat@).subrange(0, 0));
    push_category(&mut r, &flat, "Look & Feel", 0, 4);
    push_category(&mut r, &flat, "Input", 4, 7);
    push_category(&mut r, &flat, "Display", 7, 9);
    push_category(&mut r, &flat, "Window Management", 9, 12);
    push_category(&mut r, &flat, "Startup", 12, 14);
    push_category(&mut r, &flat, "Advanced", 14, 22);
    assert(pages_view(flat@).subrange(0, 22) =~= sidebar_model());
    assert(r@.map_values(|c: SidebarCategoryPages| c.label@) =~= seq![
        "Look & Feel"@,
        "Input"@,
        "Display"@,
        "Window Management"@,
        "Startup"@,
        "Advanced"@,
    ]);
    r
}

/// The first page of `m` (in display order) whose id is `id` is at `i`.
pub open spec fn first_page_with_id(m: Seq<(Seq<char>, PageModel)>, id: Seq<char>, i: int) -> bool {
    &&& 0 <= i < m.len()
    &&& m[i].1.id == id
    &&& forall|j: int| 0 <= j < i ==> (#[trigger] m[j]).1.id != id
}

pub open spec fn has_page(m: Seq<(Seq<char>, PageModel)>, id: Seq<char>) -> bool {
    exists|i: int| 0 <= i < m.len() && (#[trigger] m[i]).1.id == id
}

/// Index of the first page whose id is `page_id`.
fn find_page(flat: &Vec<(&'static str, PageSpec)>, page_id: &str) -> (r: Option<usize>)
    requires
        pages_view(flat@) == sidebar_model(),
    ensures
        match r {
            Some(i) => i < flat.len() && first_page_with_id(sidebar_model(), page_id@, i as int),
            None => !has_page(sidebar_model(), page_id@),
        },
{
    let ghost m = sidebar_model();
    let mut i: usize = 0;
    while i < flat.len()
        invariant
            i <= flat.len(),
            pages_view(flat@) == m,
            m == sidebar_model(),
            forall|j: int| 0 <= j < i ==> (#[trigger] m[j]).1.id != page_id@,
        decreases flat.len() - i,
    {
        assert(m[i as int] == (flat@[i as int].0@, flat@[i as int].1.model()));
        if crate::text::str_eq(flat[i].1.id, page_id) {
            return Some(i);
        }
        i = i + 1;
    }
    None
}

/// Looks up a page spec by id.
pub fn page_spec(page_id: &str) -> (r: Option<PageSpec>)
    ensures
        match r {
            Some(p) => exists|i: int|
                first_page_with_id(sidebar_model(), page_id@, i) && sidebar_model()[i].1
                    == p.model(),
            None => !has_page(sidebar_model(), page_id@),
        },
{
    let flat = sidebar_pages();
    match find_page(&flat, page_id) {
        Some(i) => {
            assert(sidebar_model()[i as int] == (flat@[i as int].0@, flat@[i as int].1.model()));
            Some(flat[i].1)
        },
        None => None,
    }
}

/// The category header shown above a page's sidebar row.
pub fn category_for_tab(page_id: &str) -> (r: Option<&'static str>)
    ensures
        match r {
            Some(label) => exists|i: int|
                first_page_with_id(sidebar_model(), page_id@, i) && sidebar_model()[i].0
                    == label@,
            None => !has_page(sidebar_model(), page_id@),
        },
{
    let flat = sidebar_pages();
    match find_page(&flat, page_id) {
        Some(i) => {
            assert(sidebar_model()[i as int] == (flat@[i as int].0@, flat@[i as int].1.model()));
            Some(flat[i].0)
        },
        None => None,
    }
}

/// Whether some prefix of `ps` starts `s`.
pub open spec fn any_prefix(ps: Seq<Seq<char>>, s: Seq<char>) -> bool {
    exists|k: int| 0 <= k < ps.len() && starts_with(s, #[trigger] ps[k])
}

/// Some page of `tab` with prefixes claims `s` through one of them.
pub open spec fn sibling_prefix_claims(tab: Seq<char>, s: Seq<char>) -> bool {
    exists|j: int|
        0 <= j < sidebar_model().len() && (#[trigger] sidebar_model()[j]).1.source_tab == Some(tab)
            && sidebar_model()[j].1.include_prefixes is Some && any_prefix(
            sidebar_model()[j].1.include_prefixes->0,
            s,
        )
}

/// Whether a row with official setting `s` belongs on page `p`.
pub open spec fn claims(p: PageModel, s: Seq<char>) -> bool {
    match p.source_tab {
        None => false,
        Some(tab) => match p.include_prefixes {
            Some(ps) => any_prefix(ps, s),
            None => !sibling_prefix_claims(tab, s),
        },
    }
}

fn prefixes_match(prefixes: &'static [&'static str], setting: &Vec<char>) -> (r: bool)
    ensures
        r == any_prefix(prefixes@.map_values(|s: &str| s@), setting@),
{
    let ghost ps = prefixes@.map_values(|s: &str| s@);
    assert(setting@.subrange(0, setting@.len() as int) =~= setting@);
    let mut k: usize = 0;
    while k < prefixes.len()
        invariant
            k <= prefixes.len(),
            ps == prefixes@.map_values(|s: &str| s@),
            setting@.subrange(0, setting@.len() as int) == setting@,
            forall|q: int| 0 <= q < k ==> !starts_with(setting@, #[trigger] ps[q]),
        decreases prefixes.len() - k,
    {
        let p = chars_of(prefixes[k]);
        assert(ps[k as int] == prefixes@[k as int]@);
        if starts_with_exec(setting, 0, setting.len(), &p) {
            return true;
        }
        k = k + 1;
    }
    false
}

/// Whether a row belongs on a page: prefix pages claim their prefixes; the
/// tab's page without prefixes takes everything no sibling prefix page claims.
pub fn page_claims_row(page: &PageSpec, official_setting: &str) -> (r: bool)
    ensures
        r == claims(page.model(), official_setting@),
{
    let setting = chars_of(official_setting);
    let source_tab = match page.source_tab {
        None => return false,
        Some(t) => t,
    };
    match page.include_prefixes {
        Some(prefixes) => prefixes_match(prefixes, &setting),
        None => {
            let flat = sidebar_pages();
            let ghost m = sidebar_model();
            let mut j: usize = 0;
            while j < flat.len()
                invariant
                    j <= flat.len(),
                    pages_view(flat@) == m,
                    m == sidebar_model(),
                    setting@ == official_setting@,
                    page.source_tab == Some(source_tab),
                    page.include_prefixes is None,
                    forall|q: int|
                        0 <= q < j ==> !((#[trigger] m[q]).1.source_tab == Some(source_tab@)
                            && m[q].1.include_prefixes is Some && any_prefix(
                            m[q].1.include_prefixes->0,
                            official_setting@,
                        )),
                decreases flat.len() - j,
            {
                let sibling = flat[j].1;
                assert(m[j as int] == (flat@[j as int].0@, sibling.model()));
                if let Some(t) = sibling.source_tab {
                    if crate::text::str_eq(t, source_tab) {
                        if let Some(ps) = sibling.include_prefixes {
                            if prefixes_match(ps, &setting) {
                                assert(m[j as int].1.source_tab == Some(source_tab@));
                                assert(sibling_prefix_claims(source_tab@, official_setting@));
                                return false;
                            }
                        }
                    }
                }
                j = j + 1;
            }
            true
        },
    }
}

/// The index of the one page of `tab` without prefixes.
pub open spec fn rest_page(tab: Seq<char>) -> int {
    if tab == "appearance"@ {
        0
    } else if tab == "animations"@ {
        2
    } else if tab == "cursor"@ {
        3
    } else if tab == "keybinds"@ {
        4
    } else if tab == "input"@ {
        5
    } else if tab == "display"@ {
        7
    } else if tab == "system"@ {
        16
    } else if tab == "permissions"@ {
        17
    } else {
        18
    }
}

proof fn lemma_tab_names()
    ensures
        "appearance"@.len() == 10,
        "animations"@.len() == 10,
        "cursor"@.len() == 6,
        "keybinds"@.len() == 8,
        "input"@.len() == 5,
        "display"@.len() == 7,
        "system"@.len() == 6,
        "permissions"@.len() == 11,
        "windows-layout"@.len() == 14,
        "appearance"@ != "animations"@,
        "cursor"@ != "system"@,
{
    reveal_strlit("appearance");
    reveal_strlit("animations");
    reveal_strlit("cursor");
    reveal_strlit("keybinds");
    reveal_strlit("input");
    reveal_strlit("display");
    reveal_strlit("system");
    reveal_strlit("permissions");
    reveal_strlit("windows-layout");
    assert("appearance"@[1] != "animations"@[1]);
    assert("cursor"@[0] != "system"@[0]);
}

proof fn lemma_tab_pages(p: int, tab: Seq<char>)
    requires
        0 <= p < sidebar_model().len(),
        sidebar_model()[p].1.source_tab == Some(tab),
    ensures
        0 <= rest_page(tab) < sidebar_model().len(),
        sidebar_model()[rest_page(tab)].1.source_tab == Some(tab),
        sidebar_model()[rest_page(tab)].1.include_prefixes is None,
        sidebar_model()[p].1.include_prefixes is None ==> p == rest_page(tab),
        sidebar_model()[p].1.include_prefixes is Some ==> (tab == "system"@ <==> (p == 14
            || p == 15)),
        sidebar_model()[p].1.include_prefixes is Some && !(p == 14 || p == 15) ==> p == (if tab
            == "appearance"@ {
            1int
        } else {
            6int
        }),
{
    lemma_tab_names();
    let m = sidebar_model();
    assert(m.len() == 22);
    if p == 0 || p == 1 {
        assert(tab == "appearance"@);
        assert(rest_page(tab) == 0);
    } else if p == 2 {
        assert(tab == "animations"@);
        assert(rest_page(tab) == 2);
    } else if p == 3 {
        assert(tab == "cursor"@);
        assert(rest_page(tab) == 3);
    } else if p == 4 {
        assert(tab == "keybinds"@);
        assert(rest_page(tab) == 4);
    } else if p == 5 || p == 6 {
        assert(tab == "input"@);
        assert(rest_page(tab) == 5);
    } else if p == 7 {
        assert(tab == "display"@);
        assert(rest_page(tab) == 7);
    } else if p == 14 || p == 15 || p == 16 {
        assert(tab == "system"@);
        assert(rest_page(tab) == 16);
    } else if p == 17 {
        assert(tab == "permissions"@);
        assert(rest_page(tab) == 17);
    } else if p == 18 {
        assert(tab == "windows-layout"@);
        assert(rest_page(tab) == 18);
    } else {
        assert(p == 8 || p == 9 || p == 10 || p == 11 || p == 12 || p == 13 || p == 19 || p
            == 20 || p == 21);
    }
}

/// Law: every row of a tab that has sidebar pages is claimed by exactly one
/// page of that tab, so no row is lost and none is shown twice.
pub proof fn law_each_row_on_one_page(tab: Seq<char>, s: Seq<char>, i: int)
    requires
        0 <= i < sidebar_model().len(),
        sidebar_model()[i].1.source_tab == Some(tab),
    ensures
        exists|p: int|
            0 <= p < sidebar_model().len() && (#[trigger] sidebar_model()[p]).1.source_tab == Some(
                tab,
            ) && claims(sidebar_model()[p].1, s),
        forall|p: int, q: int|
            0 <= p < sidebar_model().len() && 0 <= q < sidebar_model().len()
                && (#[trigger] sidebar_model()[p]).1.source_tab == Some(tab)
                && (#[trigger] sidebar_model()[q]).1.source_tab == Some(tab) && claims(
                sidebar_model()[p].1,
                s,
            ) && claims(sidebar_model()[q].1, s) ==> p == q,
{
    let m = sidebar_model();
    lemma_tab_pages(i, tab);
    if sibling_prefix_claims(tab, s) {
        let j = choose|j: int|
            0 <= j < m.len() && (#[trigger] m[j]).1.source_tab == Some(tab)
                && m[j].1.include_prefixes is Some && any_prefix(m[j].1.include_prefixes->0, s);
        assert(claims(m[j].1, s));
        assert forall|p: int, q: int|
            0 <= p < m.len() && 0 <= q < m.len() && (#[trigger] m[p]).1.source_tab == Some(tab)
                && (#[trigger] m[q]).1.source_tab == Some(tab) && claims(m[p].1, s) && claims(
                m[q].1,
                s,
            ) implies p == q by {
            lemma_tab_pages(p, tab);
            lemma_tab_pages(q, tab);
            assert(m[p].1.include_prefixes is Some);
            assert(m[q].1.include_prefixes is Some);
            if p != q && tab == "system"@ {
                reveal_strlit("xwayland.");
                reveal_strlit("ecosystem.");
                let kp = choose|k: int|
                    0 <= k < m[p].1.include_prefixes->0.len() && starts_with(
                        s,
                        #[trigger] m[p].1.include_prefixes->0[k],
                    );
                let kq = choose|k: int|
                    0 <= k < m[q].1.include_prefixes->0.len() && starts_with(
                        s,
                        #[trigger] m[q].1.include_prefixes->0[k],
                    );
                assert(p == 14 || p == 15);
                assert(q == 14 || q == 15);
                assert(m[14].1.include_prefixes->0 == seq!["xwayland."@]);
                assert(m[15].1.include_prefixes->0 == seq!["ecosystem."@]);
                assert(kp == 0 && kq == 0);
                let a = m[p].1.include_prefixes->0[0];
                let c = m[q].1.include_prefixes->0[0];
                assert(s.subrange(0, a.len() as int) == a);
                assert(s.subrange(0, c.len() as int) == c);
                assert(s[0] == a[0]);
                assert(s[0] == c[0]);
            }
        }
    } else {
        let rest = rest_page(tab);
        assert(claims(m[rest].1, s));
        assert forall|p: int, q: int|
            0 <= p < m.len() && 0 <= q < m.len() && (#[trigger] m[p]).1.source_tab == Some(tab)
                && (#[trigger] m[q]).1.source_tab == Some(tab) && claims(m[p].1, s) && claims(
                m[q].1,
                s,
            ) implies p == q by {
            lemma_tab_pages(p, tab);
            lemma_tab_pages(q, tab);
            if m[p].1.include_prefixes is Some {
                assert(sibling_prefix_claims(tab, s));
            }
            if m[q].1.include_prefixes is Some {
                assert(sibling_prefix_claims(tab, s));
            }
        }
    }
}

// ---------------------------------------------------------------------
// Friendly labels.
// ---------------------------------------------------------------------

/// `fallback_display_label`: the official label without a leading repeat
/// of the tab label, unless nothing would remain.
pub open spec fn fallback_label(official: Seq<char>, tab: Seq<char>) -> Seq<char> {
    let t = trim(official);
    match strip_prefix(t, trim(tab).push(' ')) {
        Some(rest) => if trim(rest).len() > 0 {
            trim(rest)
        } else {
            t
        },
        None => t,
    }
}

/// A formatting-only fallback for unmatched rows: strips the page name the
/// official label repeats; the remaining official words are unchanged.
pub fn fallback_display_label(official_label: &str, tab_label: &str) -> (r: String)
    ensures
        r@ == fallback_label(official_label@, tab_label@),
{
    let v = chars_of(official_label);
    assert(v@.subrange(0, v@.len() as int) =~= official_label@);
    let (a, b) = trim_range(&v, 0, v.len());
    let w = chars_of(tab_label);
    assert(w@.subrange(0, w@.len() as int) =~= tab_label@);
    let (x, y) = trim_range(&w, 0, w.len());
    let mut prefix: Vec<char> = Vec::new();
    let mut k = x;
    while k < y
        invariant
            x <= k <= y <= w.len(),
            prefix@ == w@.subrange(x as int, k as int),
        decreases y - k,
    {
        prefix.push(w[k]);
        assert(w@.subrange(x as int, k + 1) =~= w@.subrange(x as int, k as int).push(w@[k as int]));
        k = k + 1;
    }
    prefix.push(' ');
    if starts_with_exec(&v, a, b, &prefix) {
        let start = a + prefix.len();
        assert(v@.subrange(a as int, b as int).subrange(prefix@.len() as int, (b - a) as int)
            =~= v@.subrange(start as int, b as int));
        let (p, q) = trim_range(&v, start, b);
        if p < q {
            return string_from(&v, p, q);
        }
    }
    string_from(&v, a, b)
}

/// Curated section headings: case-insensitive pattern, replacement.
pub open spec fn curated_sections() -> Seq<(Seq<char>, Seq<char>)> {
    seq![
        ("Decoration Blur"@, "Blur"@),
        ("Decoration Shadow"@, "Shadow"@),
        ("Decoration"@, "Rounding and Opacity"@),
        ("General Col"@, "Border Colors"@),
        ("General Snap"@, "Snap"@),
        ("General"@, "Gaps & Borders"@),
        ("Group Groupbar"@, "Group Bar"@),
        ("Input Touchpad"@, "Touchpad"@),
        ("Input Touchdevice"@, "Touchscreen"@),
        ("Input Tablet"@, "Tablet"@),
        ("Gestures"@, "Workspace Swipe"@),
        ("Misc"@, "Miscellaneous"@),
    ]
}

/// The replacement of the first curated pattern `t` equals (ignoring ASCII
/// case) among `table[i..]`.
pub open spec fn curated_from(table: Seq<(Seq<char>, Seq<char>)>, t: Seq<char>, i: int) -> Option<
    Seq<char>,
>
    decreases table.len() - i,
{
    if i < 0 || i >= table.len() {
        None
    } else if eq_ignore_case(t, table[i].0) {
        Some(table[i].1)
    } else {
        curated_from(table, t, i + 1)
    }
}

/// `section_display_name`.
pub open spec fn section_name(subsection: Seq<char>, page_label: Seq<char>) -> Seq<char> {
    let t = trim(subsection);
    match curated_from(curated_sections(), t, 0) {
        Some(r) => r,
        None => {
            let stripped = fallback_label(t, page_label);
            if eq_ignore_case(stripped, page_label) || stripped.len() == 0 {
                "General"@
            } else {
                stripped
            }
        },
    }
}

fn curated_table() -> (r: Vec<(&'static str, &'static str)>)
    ensures
        r@.map_values(|e: (&'static str, &'static str)| (e.0@, e.1@)) == curated_sections(),
{
    let r = vec![
        ("Decoration Blur", "Blur"),
        ("Decoration Shadow", "Shadow"),
        ("Decoration", "Rounding and Opacity"),
        ("General Col", "Border Colors"),
        ("General Snap", "Snap"),
        ("General", "Gaps & Borders"),
        ("Group Groupbar", "Group Bar"),
        ("Input Touchpad", "Touchpad"),
        ("Input Touchdevice", "Touchscreen"),
        ("Input Tablet", "Tablet"),
        ("Gestures", "Workspace Swipe"),
        ("Misc", "Miscellaneous"),
    ];
    assert(r@.map_values(|e: (&'static str, &'static str)| (e.0@, e.1@)) =~= curated_sections());
    r
}

/// Friendly section heading: a small curated table, otherwise the
/// subsection name without the repeated page words.
pub fn section_display_name(subsection: &str, page_label: &str) -> (r: String)
    ensures
        r@ == section_name(subsection@, page_label@),
{
    let trimmed = crate::text::trim_str(subsection);
    let t = chars_of(trimmed);
    let table = curated_table();
    let ghost tv = table@.map_values(|e: (&'static str, &'static str)| (e.0@, e.1@));
    let mut i: usize = 0;
    while i < table.len()
        invariant
            i <= table.len(),
            tv == table@.map_values(|e: (&'static str, &'static str)| (e.0@, e.1@)),
            tv == curated_sections(),
            t@ == trim(subsection@),
            curated_from(tv, t@, 0) == curated_from(tv, t@, i as int),
        decreases table.len() - i,
    {
        let (pattern, replacement) = table[i];
        assert(tv[i as int] == (pattern@, replacement@));
        assert(t@.subrange(0, t@.len() as int) =~= t@);
        if eq_ignore_case_exec(&t, 0, t.len(), pattern) {
            return replacement.to_owned();
        }
        i = i + 1;
    }
    let stripped = fallback_display_label(trimmed, page_label);
    proof {
        crate::text::lemma_trim_idempotent(subsection@);
    }
    let sv = chars_of(stripped.as_str());
    assert(sv@.subrange(0, sv@.len() as int) =~= sv@);
    if eq_ignore_case_exec(&sv, 0, sv.len(), page_label) || sv.len() == 0 {
        return "General".to_owned();
    }
    stripped
}

/// The friendly display label for a row: the matched label where one
/// exists, otherwise the official label unchanged.
pub fn resolved_row_label<'a>(matched_label: Option<&'a str>, official_label: &'a str) -> (r: &'a str)
    ensures
        r == match matched_label {
            Some(l) => l,
            None => official_label,
        },
{
    match matched_label {
        Some(l) => l,
        None => official_label,
    }
}

/// The uppercase mapping of a character (`char::to_uppercase`), which may
/// be more than one character.
pub uninterp spec fn char_uppercase(c: char) -> Seq<char>;

/// `char::to_uppercase` collected into a string: the Unicode uppercase
/// mapping of `c`; for ASCII, `a`..`z` map to `A`..`Z` and every other
/// ASCII character maps to itself.
#[verifier::external_body]
fn uppercase_of(c: char) -> (r: String)
    ensures
        r@ == char_uppercase(c),
        'a' <= c <= 'z' ==> r@ == seq![((c as u32) - 32) as char],
        (c as u32) < 128 && !('a' <= c <= 'z') ==> r@ == seq![c],
{
    c.to_uppercase().collect::<String>()
}

pub open spec fn dash_to_space(c: char) -> char {
    if c == '_' || c == '-' {
        ' '
    } else {
        c
    }
}

/// `choice_display_label`: numeric and empty values unchanged; otherwise
/// `_` and `-` become spaces and the first character is upper-cased.
pub open spec fn choice_label(raw: Seq<char>) -> Seq<char> {
    let t = trim(raw);
    if t.len() == 0 || is_float_literal(t) {
        t
    } else {
        let spaced = t.map_values(|c: char| dash_to_space(c));
        char_uppercase(spaced[0]) + spaced.drop_first()
    }
}

/// ASCII upper-casing of one character.
pub open spec fn ascii_upper(c: char) -> char {
    if 'a' <= c <= 'z' {
        ((c as u32) - 32) as char
    } else {
        c
    }
}

/// Whether the label's first character, after `_` and `-` become spaces, is
/// ASCII, so that its upper-casing is the ASCII one.
pub open spec fn ascii_led(raw: Seq<char>) -> bool {
    let t = trim(raw);
    t.len() > 0 && !is_float_literal(t) && (dash_to_space(t[0]) as u32) < 128
}

/// The display label of a value whose first character is ASCII.
pub open spec fn ascii_choice_label(raw: Seq<char>) -> Seq<char> {
    let spaced = trim(raw).map_values(|c: char| dash_to_space(c));
    seq![ascii_upper(spaced[0])] + spaced.drop_first()
}

/// A friendly display form of a finite-choice raw value; the raw value is
/// what gets validated and saved.
pub fn choice_display_label(raw_value: &str) -> (r: String)
    ensures
        r@ == choice_label(raw_value@),
        ascii_led(raw_value@) ==> r@ == ascii_choice_label(raw_value@),
{
    let v = chars_of(raw_value);
    assert(v@.subrange(0, v@.len() as int) =~= raw_value@);
    let (a, b) = trim_range(&v, 0, v.len());
    if a == b || float_literal(&v, a, b) {
        return string_from(&v, a, b);
    }
    let ghost t = v@.subrange(a as int, b as int);
    let ghost spaced = t.map_values(|c: char| dash_to_space(c));
    let first = if v[a] == '_' || v[a] == '-' {
        ' '
    } else {
        v[a]
    };
    assert(first == spaced[0]);
    let mut r = uppercase_of(first);
    let ghost head = r@;
    let mut k = a + 1;
    while k < b
        invariant
            a < k <= b <= v.len(),
            t == v@.subrange(a as int, b as int),
            spaced == t.map_values(|c: char| dash_to_space(c)),
            r@ == head + spaced.subrange(1, (k - a) as int),
        decreases b - k,
    {
        let c = v[k];
        let d = if c == '_' || c == '-' {
            ' '
        } else {
            c
        };
        assert(d == spaced[(k - a) as int]);
        push_char(&mut r, d);
        assert(spaced.subrange(1, (k - a) + 1) =~= spaced.subrange(1, (k - a) as int).push(d));
        k = k + 1;
    }
    assert(spaced.subrange(1, (b - a) as int) =~= spaced.drop_first());
    proof {
        if ascii_led(raw_value@) {
            assert(t == trim(raw_value@));
            assert(head =~= seq![ascii_upper(spaced[0])]);
        }
    }
    r
}

pub open spec fn is_terminator(c: char) -> bool {
    c == '.' || c == '!' || c == '?'
}

pub open spec fn terminator_pred() -> spec_fn(char) -> bool {
    |c: char| is_terminator(c)
}

/// The first sentence of `t`, its terminator included.
pub open spec fn first_sentence(t: Seq<char>) -> Seq<char> {
    let k = first_match(t, terminator_pred());
    if k < t.len() {
        t.take(k as int + 1)
    } else {
        t
    }
}

/// `short_description`: the first sentence, shortened to 110 characters
/// with an ellipsis.
pub open spec fn short_text(description: Seq<char>) -> Seq<char> {
    let first = trim(first_sentence(trim(description)));
    if first.len() <= 110 {
        first
    } else {
        crate::text::trim_end(first.take(109)).push('\u{2026}')
    }
}

/// Shortens an official description to its first sentence, capped for a
/// one-line row subtitle.
pub fn short_description(description: &str) -> (r: String)
    ensures
        r@ == short_text(description@),
        r@.len() <= 110,
{
    let v = chars_of(description);
    assert(v@.subrange(0, v@.len() as int) =~= description@);
    let (a, b) = trim_range(&v, 0, v.len());
    let ghost t = v@.subrange(a as int, b as int);
    let mut k = a;
    while k < b && !(v[k] == '.' || v[k] == '!' || v[k] == '?')
        invariant
            a <= k <= b <= v.len(),
            t == v@.subrange(a as int, b as int),
            forall|j: int| a <= j < k ==> !is_terminator(#[trigger] v@[j]),
        decreases b - k,
    {
        k = k + 1;
    }
    proof {
        assert forall|j: int| 0 <= j < k - a implies !(terminator_pred())(#[trigger] t[j]) by {
            assert(t[j] == v@[a + j]);
        }
        lemma_first_match_at(t, terminator_pred(), k - a);
    }
    let end = if k < b {
        k + 1
    } else {
        b
    };
    assert(first_sentence(t) == v@.subrange(a as int, end as int)) by {
        if k < b {
            assert(t.take(k - a + 1) =~= v@.subrange(a as int, end as int));
        }
    }
    let (p, q) = trim_range(&v, a, end);
    if q - p <= 110 {
        return string_from(&v, p, q);
    }
    let ghost first = v@.subrange(p as int, q as int);
    let mut e = p + 109;
    assert(first.take(109) =~= v@.subrange(p as int, e as int));
    while e > p && crate::text::is_whitespace(v[e - 1])
        invariant
            p <= e <= p + 109,
            q <= v.len(),
            p + 109 <= q,
            crate::text::trim_end(first.take(109)) == crate::text::trim_end(v@.subrange(p as int, e as int)),
        decreases e - p,
    {
        assert(v@.subrange(p as int, e as int).drop_last() =~= v@.subrange(p as int, e - 1));
        e = e - 1;
    }
    assert(crate::text::trim_end(v@.subrange(p as int, e as int)) == v@.subrange(p as int, e as int));
    let mut r = string_from(&v, p, e);
    push_char(&mut r, '\u{2026}');
    r
}

// ---------------------------------------------------------------------
// Status chips.
// ---------------------------------------------------------------------

/// Quiet, honest per-row status: one short chip instead of a paragraph.
#[derive(Debug, Clone, Copy, PartialEq, Eq, Structural)]
pub enum StatusChip {
    /// Previews instantly with revert/cancel.
    LivePreview,
    /// Persists through the gated Save; no live preview.
    SaveOnly,
    /// Proof needs hardware that is not present.
    HardwareRequired,
    /// No passed proof receipt yet; the control stays disabled.
    NotProvenYet,
    /// High risk or no safe mechanism; editing stays blocked.
    Blocked,
}

pub open spec fn chip_label(c: StatusChip) -> Seq<char> {
    match c {
        StatusChip::LivePreview => "Live Preview"@,
        StatusChip::SaveOnly => "Save Only"@,
        StatusChip::HardwareRequired => "Hardware Required"@,
        StatusChip::NotProvenYet => "Not Proven Yet"@,
        StatusChip::Blocked => "Blocked"@,
    }
}

impl StatusChip {
    pub fn label(self) -> (r: &'static str)
        ensures
            r@ == chip_label(self),
    {
        match self {
            StatusChip::LivePreview => "Live Preview",
            StatusChip::SaveOnly => "Save Only",
            StatusChip::HardwareRequired => "Hardware Required",
            StatusChip::NotProvenYet => "Not Proven Yet",
            StatusChip::Blocked => "Blocked",
        }
    }
}

/// Every production Save requires Safe Live Save Mode; this is its chip.
pub const SAVE_GATE_CHIP: &'static str = "Requires Safe Live Save Mode";

/// How a row can be previewed at runtime.
#[derive(Debug, Clone, Copy, PartialEq, Eq, Structural)]
pub enum RuntimePreviewCapability {
    LivePreviewSupported,
    LivePreviewSupportedWithThrottle,
    LivePreviewSupportedWithDeadMan,
    LivePreviewReadOnlyOnly,
    RequiresConfigWrite,
    RequiresReload,
    RequiresRelog,
    RequiresRestart,
    BlockedHighRisk,
    BlockedUnsupportedGrammar,
    BlockedStructuredFamilySemantics,
    NotProvenYet,
}

/// How far a dead-man (confirm-or-revert) preview of a row is proven.
#[derive(Debug, Clone, Copy, PartialEq, Eq, Structural)]
pub enum DeadManClassification {
    DeadManPreviewCandidate,
    DeadManPreviewCandidateNeedsLiveProof,
    DeadManPreviewModelOnly,
    /// Any other dead-man classification.
    Other,
}

/// A row's dead-man classification and its reason.
#[derive(Debug, Clone)]
pub struct DeadManRowClassification {
    pub classification: DeadManClassification,
    pub reason: String,
}

pub open spec fn hardware_terms() -> Seq<Seq<char>> {
    seq!["touch"@, "tablet"@, "hardware"@, "device"@]
}

/// Hardware-gated proof reasons mention the missing device class.
pub open spec fn needs_hardware(reason: Seq<char>) -> bool {
    exists|i: int| 0 <= i < 4 && contains_seq(lower_seq(reason), #[trigger] hardware_terms()[i])
}

fn row_needs_hardware(reason: &str) -> (r: bool)
    ensures
        r == needs_hardware(reason@),
{
    let v = chars_of(reason);
    let mut lowered: Vec<char> = Vec::new();
    let mut i: usize = 0;
    while i < v.len()
        invariant
            i <= v.len(),
            v@ == reason@,
            lowered@ == lower_seq(reason@).subrange(0, i as int),
        decreases v.len() - i,
    {
        lowered.push(to_ascii_lower(v[i]));
        assert(lower_seq(reason@).subrange(0, i + 1) =~= lower_seq(reason@).subrange(0, i as int).push(ascii_lower(v@[i as int])));
        i = i + 1;
    }
    assert(lowered@ =~= lower_seq(reason@));
    assert(lowered@.subrange(0, lowered@.len() as int) =~= lowered@);
    let terms = vec!["touch", "tablet", "hardware", "device"];
    assert(terms@.map_values(|s: &str| s@) =~= hardware_terms());
    let mut k: usize = 0;
    while k < 4
        invariant
            k <= 4,
            terms@.len() == 4,
            terms@.map_values(|s: &str| s@) == hardware_terms(),
            lowered@ == lower_seq(reason@),
            lowered@.subrange(0, lowered@.len() as int) == lowered@,
            forall|j: int| 0 <= j < k ==> !contains_seq(lower_seq(reason@), #[trigger] hardware_terms()[j]),
        decreases 4 - k,
    {
        let p = chars_of(terms[k]);
        assert(hardware_terms()[k as int] == terms@[k as int]@);
        if contains_exec(&lowered, 0, lowered.len(), &p) {
            return true;
        }
        k = k + 1;
    }
    false
}

/// `status_chip_for_row`, from the row's runtime-preview capability and
/// dead-man classification. Fail-closed: anything unknown reads as Not Proven Yet.
pub open spec fn chip_for(
    capability: Option<RuntimePreviewCapability>,
    dead_man: Option<(DeadManClassification, Seq<char>)>,
) -> StatusChip {
    match capability {
        None => StatusChip::NotProvenYet,
        Some(c) => match c {
            RuntimePreviewCapability::LivePreviewSupported
            | RuntimePreviewCapability::LivePreviewSupportedWithThrottle => StatusChip::LivePreview,
            RuntimePreviewCapability::LivePreviewSupportedWithDeadMan => match dead_man {
                Some((class, reason)) => match class {
                    DeadManClassification::DeadManPreviewCandidate => StatusChip::LivePreview,
                    DeadManClassification::DeadManPreviewCandidateNeedsLiveProof => {
                        if needs_hardware(reason) {
                            StatusChip::HardwareRequired
                        } else {
                            StatusChip::NotProvenYet
                        }
                    },
                    DeadManClassification::DeadManPreviewModelOnly => StatusChip::SaveOnly,
                    DeadManClassification::Other => StatusChip::Blocked,
                },
                None => StatusChip::NotProvenYet,
            },
            RuntimePreviewCapability::LivePreviewReadOnlyOnly
            | RuntimePreviewCapability::RequiresConfigWrite
            | RuntimePreviewCapability::RequiresReload
            | RuntimePreviewCapability::RequiresRelog
            | RuntimePreviewCapability::RequiresRestart => StatusChip::SaveOnly,
            RuntimePreviewCapability::BlockedHighRisk
            | RuntimePreviewCapability::BlockedUnsupportedGrammar
            | RuntimePreviewCapability::BlockedStructuredFamilySemantics => StatusChip::Blocked,
            RuntimePreviewCapability::NotProvenYet => StatusChip::NotProvenYet,
        },
    }
}

pub open spec fn dead_man_view(d: Option<&DeadManRowClassification>) -> Option<(DeadManClassification, Seq<char>)> {
    match d {
        Some(row) => Some((row.classification, row.reason@)),
        None => None,
    }
}

/// Collapses a row's runtime-preview capability and dead-man
/// classification (absent when the row has none) into one quiet chip.
pub fn status_chip_for_row(
    capability: Option<RuntimePreviewCapability>,
    dead_man: Option<&DeadManRowClassification>,
) -> (r: StatusChip)
    ensures
        r == chip_for(capability, dead_man_view(dead_man)),
{
    match capability {
        None => StatusChip::NotProvenYet,
        Some(c) => match c {
            RuntimePreviewCapability::LivePreviewSupported
            | RuntimePreviewCapability::LivePreviewSupportedWithThrottle => StatusChip::LivePreview,
            RuntimePreviewCapability::LivePreviewSupportedWithDeadMan => match dead_man {
                Some(row) => match row.classification {
                    DeadManClassification::DeadManPreviewCandidate => StatusChip::LivePreview,
                    DeadManClassification::DeadManPreviewCandidateNeedsLiveProof => {
                        if row_needs_hardware(row.reason.as_str()) {
                            StatusChip::HardwareRequired
                        } else {
                            StatusChip::NotProvenYet
                        }
                    },
                    DeadManClassification::DeadManPreviewModelOnly => StatusChip::SaveOnly,
                    DeadManClassification::Other => StatusChip::Blocked,
                },
                None => StatusChip::NotProvenYet,
            },
            RuntimePreviewCapability::LivePreviewReadOnlyOnly
            | RuntimePreviewCapability::RequiresConfigWrite
            | RuntimePreviewCapability::RequiresReload
            | RuntimePreviewCapability::RequiresRelog
            | RuntimePreviewCapability::RequiresRestart => StatusChip::SaveOnly,
            RuntimePreviewCapability::BlockedHighRisk
            | RuntimePreviewCapability::BlockedUnsupportedGrammar
            | RuntimePreviewCapability::BlockedStructuredFamilySemantics => StatusChip::Blocked,
            RuntimePreviewCapability::NotProvenYet => StatusChip::NotProvenYet,
        },
    }
}

/// Law: the chip is fail-closed — a row with no known capability, or a
/// dead-man row with no classification, never reads as previewable or savable.
pub proof fn law_chip_fail_closed(dead_man: Option<(DeadManClassification, Seq<char>)>)
    ensures
        chip_for(None, dead_man) == StatusChip::NotProvenYet,
        chip_for(Some(RuntimePreviewCapability::LivePreviewSupportedWithDeadMan), None)
            == StatusChip::NotProvenYet,
{
}

/// Law: a dead-man row that still needs live proof reads as Hardware
/// Required exactly when its reason, lower-cased, mentions `touch`,
/// `tablet`, `hardware` or `device`; any other reason reads as Not Proven
/// Yet.
pub proof fn law_hardware_reason_chip(reason: Seq<char>)
    ensures
        chip_for(
            Some(RuntimePreviewCapability::LivePreviewSupportedWithDeadMan),
            Some((DeadManClassification::DeadManPreviewCandidateNeedsLiveProof, reason)),
        ) == (if contains_seq(lower_seq(reason), "touch"@) || contains_seq(
            lower_seq(reason),
            "tablet"@,
        ) || contains_seq(lower_seq(reason), "hardware"@) || contains_seq(
            lower_seq(reason),
            "device"@,
        ) {
            StatusChip::HardwareRequired
        } else {
            StatusChip::NotProvenYet
        }),
{
    let terms = hardware_terms();
    assert(terms[0] == "touch"@ && terms[1] == "tablet"@ && terms[2] == "hardware"@ && terms[3]
        == "device"@);
    if contains_seq(lower_seq(reason), "touch"@) {
        assert(contains_seq(lower_seq(reason), terms[0]));
    }
    if contains_seq(lower_seq(reason), "tablet"@) {
        assert(contains_seq(lower_seq(reason), terms[1]));
    }
    if contains_seq(lower_seq(reason), "hardware"@) {
        assert(contains_seq(lower_seq(reason), terms[2]));
    }
    if contains_seq(lower_seq(reason), "device"@) {
        assert(contains_seq(lower_seq(reason), terms[3]));
    }
}

} // verus!
