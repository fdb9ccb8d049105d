//! The pending changes: how they are grouped by page for review, what the
//! next save would write for them (each proposed value with the line of the
//! target config it replaces), the diff lines shown, and the status after
//! saving.
use vstd::prelude::*;
use crate::text::{append_str, decimal, push_decimal, str_eq};
use crate::id_list::strings_view;
use crate::lines::{contains_line, first_occurrences, push_line};
use crate::ux_presentation::{first_page_with_id, has_page, page_spec, sidebar_model};
use crate::ui::connected_files::{path_eq, paths_equal};
use crate::ui::model::{UiProjection, UiSetting};

verus! {

/// A change the user has made and not saved: the row and its new value.
#[derive(Debug, Clone, PartialEq, Eq)]
pub struct PendingChangeSnapshot {
    pub row_id: String,
    /// The sidebar page the row is shown on, where it has one.
    pub page_id: Option<String>,
    pub current_value: String,
}

/// One change of the next save: the value to write, and the line of the
/// target file it replaces (`None`: the line is appended).
#[derive(Debug, Clone, PartialEq, Eq)]
pub struct NextSaveChange {
    pub setting_id: String,
    pub proposed_value: String,
    pub line_in_target: Option<usize>,
}

pub open spec fn change_view(c: NextSaveChange) -> (Seq<char>, Seq<char>, Option<usize>) {
    (c.setting_id@, c.proposed_value@, c.line_in_target)
}

/// The index of the first setting of `settings[i..]` with row id `row_id`.
pub open spec fn first_row(settings: Seq<UiSetting>, row_id: Seq<char>, i: int) -> Option<int>
    decreases settings.len() - i,
{
    if i < 0 || i >= settings.len() {
        None
    } else if settings[i].row_id@ == row_id {
        Some(i)
    } else {
        first_row(settings, row_id, i + 1)
    }
}

/// The line a change replaces in the target file: the line of the row's
/// current value, when that value is read from the target file.
pub open spec fn replaced_line(model: UiProjection, row_id: Seq<char>, target: Seq<char>) -> Option<
    usize,
> {
    match first_row(model.settings@, row_id, 0) {
        Some(i) => {
            let v = model.settings@[i].current_value;
            if v.source_path matches Some(p) && paths_equal(p@, target) {
                v.line_number
            } else {
                None
            }
        },
        None => None,
    }
}

pub open spec fn next_save(
    model: UiProjection,
    snapshots: Seq<PendingChangeSnapshot>,
    target: Seq<char>,
) -> Seq<(Seq<char>, Seq<char>, Option<usize>)> {
    snapshots.map_values(
        |s: PendingChangeSnapshot|
            (s.row_id@, s.current_value@, replaced_line(model, s.row_id@, target)),
    )
}

fn line_in_target(model: &UiProjection, row_id: &str, target_path: &str) -> (r: Option<usize>)
    ensures
        r == replaced_line(*model, row_id@, target_path@),
{
    let settings = &model.settings;
    let mut i: usize = 0;
    while i < settings.len()
        invariant
            i <= settings@.len(),
            settings@ == model.settings@,
            first_row(settings@, row_id@, 0) == first_row(settings@, row_id@, i as int),
        decreases settings@.len() - i,
    {
        if str_eq(settings[i].row_id.as_str(), row_id) {
            assert(first_row(settings@, row_id@, i as int) == Some(i as int));
            let v = &settings[i].current_value;
            return match &v.source_path {
                Some(p) => if path_eq(p.as_str(), target_path) {
                    v.line_number
                } else {
                    None
                },
                None => None,
            };
        }
        i = i + 1;
    }
    None
}

pub fn pending_next_save_changes(
    model: &UiProjection,
    snapshots: &Vec<PendingChangeSnapshot>,
    target_path: &str,
) -> (r: Vec<NextSaveChange>)
    ensures
        r@.map_values(|c: NextSaveChange| change_view(c)) == next_save(
            *model,
            snapshots@,
            target_path@,
        ),
{
    let mut out: Vec<NextSaveChange> = Vec::new();
    let mut k: usize = 0;
    while k < snapshots.len()
        invariant
            k <= snapshots@.len(),
            out@.map_values(|c: NextSaveChange| change_view(c)) == next_save(
                *model,
                snapshots@.take(k as int),
                target_path@,
            ),
        decreases snapshots@.len() - k,
    {
        let snapshot = &snapshots[k];
        let line = line_in_target(model, snapshot.row_id.as_str(), target_path);
        let ghost before = out@;
        out.push(NextSaveChange {
            setting_id: snapshot.row_id.clone(),
            proposed_value: snapshot.current_value.clone(),
            line_in_target: line,
        });
        assert(snapshots@.take(k + 1) =~= snapshots@.take(k as int).push(snapshots@[k as int]));
        assert(out@.map_values(|c: NextSaveChange| change_view(c)) =~= before.map_values(
            |c: NextSaveChange| change_view(c),
        ).push((snapshot.row_id@, snapshot.current_value@, line)));
        k = k + 1;
    }
    assert(snapshots@.take(k as int) =~= snapshots@);
    out
}

// ---------------------------------------------------------------------
// Grouping by page.
// ---------------------------------------------------------------------

/// The page a change is grouped under; a change without a page goes with
/// the general page.
pub open spec fn page_key(s: PendingChangeSnapshot) -> Seq<char> {
    match s.page_id {
        Some(p) => p@,
        None => "general"@,
    }
}

pub open spec fn page_keys(snapshots: Seq<PendingChangeSnapshot>) -> Seq<Seq<char>> {
    snapshots.map_values(|s: PendingChangeSnapshot| page_key(s))
}

/// The heading of a page's group: the page's label, or `Options` for an id
/// the sidebar does not have.
pub open spec fn page_heading(id: Seq<char>) -> Seq<char> {
    if has_page(sidebar_model(), id) {
        sidebar_model()[choose|i: int| first_page_with_id(sidebar_model(), id, i)].1.label
    } else {
        "Options"@
    }
}

/// The positions of `keys` equal to `k`, in order.
pub open spec fn positions_of(keys: Seq<Seq<char>>, k: Seq<char>) -> Seq<int>
    decreases keys.len(),
{
    if keys.len() == 0 {
        seq![]
    } else {
        positions_of(keys.drop_last(), k) + if keys.last() == k {
            seq![keys.len() - 1]
        } else {
            seq![]
        }
    }
}

/// The changes of one page.
#[derive(Debug, Clone, PartialEq, Eq)]
pub struct PendingGroup {
    pub page_id: String,
    pub heading: String,
    /// Positions of the group's changes in the pending list, in order.
    pub members: Vec<usize>,
}

pub open spec fn group_view(g: PendingGroup) -> (Seq<char>, Seq<char>, Seq<int>) {
    (g.page_id@, g.heading@, g.members@.map_values(|x: usize| x as int))
}

/// The groups of the pending changes: one per page, pages in the order
/// their first change comes, each with its changes in order.
pub open spec fn pending_groups(snapshots: Seq<PendingChangeSnapshot>) -> Seq<
    (Seq<char>, Seq<char>, Seq<int>),
> {
    first_occurrences(page_keys(snapshots)).map_values(
        |k: Seq<char>| (k, page_heading(k), positions_of(page_keys(snapshots), k)),
    )
}

proof fn lemma_first_page_unique(id: Seq<char>, i: int, j: int)
    requires
        first_page_with_id(sidebar_model(), id, i),
        first_page_with_id(sidebar_model(), id, j),
    ensures
        i == j,
{
    if i < j {
        assert(sidebar_model()[i].1.id == id);
    } else if j < i {
        assert(sidebar_model()[j].1.id == id);
    }
}

fn page_heading_of(id: &str) -> (r: String)
    ensures
        r@ == page_heading(id@),
{
    match page_spec(id) {
        Some(p) => {
            proof {
                let i = choose|i: int|
                    first_page_with_id(sidebar_model(), id@, i) && sidebar_model()[i].1
                        == p.model();
                assert(has_page(sidebar_model(), id@));
                let j = choose|j: int| first_page_with_id(sidebar_model(), id@, j);
                lemma_first_page_unique(id@, i, j);
            }
            p.label.to_string()
        },
        None => "Options".to_string(),
    }
}

fn key_of(s: &PendingChangeSnapshot) -> (r: &str)
    ensures
        r@ == page_key(*s),
{
    match &s.page_id {
        Some(p) => p.as_str(),
        None => "general",
    }
}

pub fn pending_change_groups(snapshots: &Vec<PendingChangeSnapshot>) -> (r: Vec<PendingGroup>)
    ensures
        r@.map_values(|g: PendingGroup| group_view(g)) == pending_groups(snapshots@),
{
    let ghost keys = page_keys(snapshots@);
    let mut pages: Vec<String> = Vec::new();
    let mut i: usize = 0;
    while i < snapshots.len()
        invariant
            i <= snapshots@.len(),
            keys == page_keys(snapshots@),
            strings_view(pages@) == first_occurrences(keys.take(i as int)),
        decreases snapshots@.len() - i,
    {
        let k = key_of(&snapshots[i]);
        assert(keys.take(i + 1).drop_last() =~= keys.take(i as int));
        assert(keys.take(i + 1).last() == k@);
        if !contains_line(&pages, k) {
            push_line(&mut pages, k);
        }
        i = i + 1;
    }
    assert(keys.take(i as int) =~= keys);
    let mut groups: Vec<PendingGroup> = Vec::new();
    let mut g: usize = 0;
    while g < pages.len()
        invariant
            g <= pages@.len(),
            keys == page_keys(snapshots@),
            strings_view(pages@) == first_occurrences(keys),
            groups@.map_values(|x: PendingGroup| group_view(x)) == strings_view(pages@).take(
                g as int,
            ).map_values(|k: Seq<char>| (k, page_heading(k), positions_of(keys, k))),
        decreases pages@.len() - g,
    {
        let page = &pages[g];
        let mut members: Vec<usize> = Vec::new();
        let mut j: usize = 0;
        while j < snapshots.len()
            invariant
                j <= snapshots@.len(),
                keys == page_keys(snapshots@),
                members@.map_values(|x: usize| x as int) == positions_of(keys.take(j as int), page@),
            decreases snapshots@.len() - j,
        {
            let k = key_of(&snapshots[j]);
            let ghost before = members@.map_values(|x: usize| x as int);
            assert(keys.take(j + 1).drop_last() =~= keys.take(j as int));
            assert(keys.take(j + 1).last() == k@);
            if str_eq(k, page.as_str()) {
                members.push(j);
                assert(members@.map_values(|x: usize| x as int) =~= before.push(j as int));
            } else {
                assert(before + Seq::<int>::empty() =~= before);
            }
            j = j + 1;
        }
        assert(keys.take(j as int) =~= keys);
        let heading = page_heading_of(page.as_str());
        let ghost before = groups@.map_values(|x: PendingGroup| group_view(x));
        let ghost p = page@;
        groups.push(PendingGroup { page_id: page.clone(), heading, members });
        assert(groups@.map_values(|x: PendingGroup| group_view(x)) =~= before.push(
            (p, page_heading(p), positions_of(keys, p)),
        ));
        assert(strings_view(pages@).take(g + 1) =~= strings_view(pages@).take(g as int).push(p));
        g = g + 1;
    }
    assert(strings_view(pages@).take(g as int) =~= strings_view(pages@));
    groups
}

// ---------------------------------------------------------------------
// The diff shown, and the status after saving.
// ---------------------------------------------------------------------

/// At most this many diff lines are shown.
pub const MAX_DIFF_LINES: usize = 400;

/// The diff lines shown: the first `MAX_DIFF_LINES`, then a truncation
/// marker exactly when there are more.
pub open spec fn shown_diff(lines: Seq<Seq<char>>) -> Seq<Seq<char>> {
    if lines.len() > MAX_DIFF_LINES {
        lines.take(MAX_DIFF_LINES as int).push("… diff truncated"@)
    } else {
        lines
    }
}

pub fn diff_view_lines(lines: &Vec<String>) -> (r: Vec<String>)
    ensures
        strings_view(r@) == shown_diff(strings_view(lines@)),
{
    let mut out: Vec<String> = Vec::new();
    let mut i: usize = 0;
    while i < lines.len() && i < MAX_DIFF_LINES
        invariant
            i <= lines@.len(),
            i <= MAX_DIFF_LINES,
            strings_view(out@) == strings_view(lines@).take(i as int),
        decreases lines@.len() - i,
    {
        push_line(&mut out, lines[i].as_str());
        assert(strings_view(lines@).take(i + 1) =~= strings_view(lines@).take(i as int).push(
            lines@[i as int]@,
        ));
        i = i + 1;
    }
    if lines.len() > MAX_DIFF_LINES {
        push_line(&mut out, "… diff truncated");
    } else {
        assert(strings_view(lines@).take(i as int) =~= strings_view(lines@));
    }
    out
}

/// The status after saving the pending changes in order: each save either
/// succeeds or gives the reason it failed; saving stops at the first
/// failure.
pub open spec fn first_failure(results: Seq<Result<(), String>>, i: int) -> Option<int>
    decreases results.len() - i,
{
    if i < 0 || i >= results.len() {
        None
    } else if results[i] is Err {
        Some(i)
    } else {
        first_failure(results, i + 1)
    }
}

pub open spec fn save_status(total: nat, results: Seq<Result<(), String>>) -> Seq<char> {
    match first_failure(results, 0) {
        Some(k) => "Saved "@ + decimal(k as nat) + " of "@ + decimal(total) + " — "@
            + results[k]->Err_0@,
        None => "Changes saved to disk"@,
    }
}

/// The status shown after saving `total` changes whose saves, in order,
/// gave `results`.
pub fn save_progress_label(total: usize, results: &Vec<Result<(), String>>) -> (r: String)
    ensures
        r@ == save_status(total as nat, results@),
{
    let mut i: usize = 0;
    while i < results.len()
        invariant
            i <= results@.len(),
            first_failure(results@, 0) == first_failure(results@, i as int),
        decreases results@.len() - i,
    {
        match &results[i] {
            Err(reason) => {
                assert(first_failure(results@, i as int) == Some(i as int));
                let mut r = "Saved ".to_string();
                push_decimal(&mut r, i);
                append_str(&mut r, " of ");
                push_decimal(&mut r, total);
                append_str(&mut r, " — ");
                append_str(&mut r, reason.as_str());
                return r;
            },
            Ok(()) => {},
        }
        i = i + 1;
    }
    "Changes saved to disk".to_string()
}

// ---------------------------------------------------------------------
// The save loop.
// ---------------------------------------------------------------------

/// How far saving the pending changes has come: of `total` changes,
/// `saved` were saved in order, and `first_error` is the reason the next
/// one failed, once one has.
#[derive(Debug, Clone, PartialEq, Eq)]
pub struct SaveProgress {
    pub total: usize,
    pub saved: usize,
    pub first_error: Option<String>,
}

/// What the save loop does next.
#[derive(Debug, Clone, Copy, PartialEq, Eq, Structural)]
pub enum SaveAction {
    /// Save the change at this position.
    Save(usize),
    /// Stop, and show the status.
    Finish,
}

pub open spec fn progress_view(p: SaveProgress) -> (nat, nat, Option<Seq<char>>) {
    (p.total as nat, p.saved as nat, match p.first_error {
        Some(e) => Some(e@),
        None => None,
    })
}

/// The action for a progress: save the next change while none failed and
/// some are left.
pub open spec fn action_for(saved: nat, total: nat, failed: bool) -> SaveAction {
    if !failed && saved < total {
        SaveAction::Save(saved as usize)
    } else {
        SaveAction::Finish
    }
}

/// Starting to save `total` changes.
pub fn save_start(total: usize) -> (r: (SaveProgress, SaveAction))
    ensures
        progress_view(r.0) == (total as nat, 0nat, None::<Seq<char>>),
        r.1 == action_for(0, total as nat, false),
{
    let p = SaveProgress { total, saved: 0, first_error: None };
    if total > 0 {
        (p, SaveAction::Save(0))
    } else {
        (p, SaveAction::Finish)
    }
}

/// The progress after the save of the next change gave `result`.
pub open spec fn next_progress(p: (nat, nat, Option<Seq<char>>), result: Result<(), String>) -> (
    nat,
    nat,
    Option<Seq<char>>,
) {
    match result {
        Ok(()) => (p.0, p.1 + 1, None),
        Err(reason) => (p.0, p.1, Some(reason@)),
    }
}

/// One step of the save loop: the save of change `progress.saved` gave
/// `result`; a success counts and moves on, a failure stops the loop.
pub fn save_step(progress: &SaveProgress, result: Result<(), String>) -> (r: (
    SaveProgress,
    SaveAction,
))
    requires
        progress.first_error is None,
        progress.saved < progress.total,
    ensures
        progress_view(r.0) == next_progress(progress_view(*progress), result),
        r.1 == action_for(
            progress_view(r.0).1,
            progress_view(r.0).0,
            progress_view(r.0).2 is Some,
        ),
{
    match result {
        Ok(()) => {
            let saved = progress.saved + 1;
            let p = SaveProgress { total: progress.total, saved, first_error: None };
            if saved < progress.total {
                (p, SaveAction::Save(saved))
            } else {
                (p, SaveAction::Finish)
            }
        },
        Err(reason) => (
            SaveProgress { total: progress.total, saved: progress.saved, first_error: Some(reason) },
            SaveAction::Finish,
        ),
    }
}

/// The status shown for a progress.
pub open spec fn progress_status(p: (nat, nat, Option<Seq<char>>)) -> Seq<char> {
    match p.2 {
        Some(reason) => "Saved "@ + decimal(p.1) + " of "@ + decimal(p.0) + " — "@ + reason,
        None => "Changes saved to disk"@,
    }
}

impl SaveProgress {
    /// The status shown once the loop has finished.
    pub fn status_label(&self) -> (r: String)
        ensures
            r@ == progress_status(progress_view(*self)),
    {
        match &self.first_error {
            Some(reason) => {
                let mut r = "Saved ".to_string();
                push_decimal(&mut r, self.saved);
                append_str(&mut r, " of ");
                push_decimal(&mut r, self.total);
                append_str(&mut r, " — ");
                append_str(&mut r, reason.as_str());
                r
            },
            None => "Changes saved to disk".to_string(),
        }
    }
}

/// The progress the save loop ends in, from `p`, when the saves give
/// `results` in order.
pub open spec fn run_saves(p: (nat, nat, Option<Seq<char>>), results: Seq<Result<(), String>>) -> (
    nat,
    nat,
    Option<Seq<char>>,
)
    decreases p.0 - p.1, if p.2 is None {
        1int
    } else {
        0int
    },
{
    if p.2 is Some || p.1 >= p.0 || p.1 >= results.len() {
        p
    } else {
        run_saves(next_progress(p, results[p.1 as int]), results)
    }
}

proof fn lemma_run_saves(p: (nat, nat, Option<Seq<char>>), results: Seq<Result<(), String>>)
    requires
        results.len() == p.0,
        p.1 <= p.0,
        p.2 is None,
        first_failure(results, 0) == first_failure(results, p.1 as int),
    ensures
        progress_status(run_saves(p, results)) == save_status(p.0, results),
    decreases p.0 - p.1,
{
    if p.1 < p.0 {
        let q = next_progress(p, results[p.1 as int]);
        assert(run_saves(p, results) == run_saves(q, results));
        if results[p.1 as int] is Ok {
            assert(first_failure(results, p.1 as int) == first_failure(results, p.1 + 1int));
            lemma_run_saves(q, results);
        } else {
            assert(first_failure(results, p.1 as int) == Some(p.1 as int));
            assert(run_saves(q, results) == q);
        }
    } else {
        assert(first_failure(results, p.1 as int) is None);
        assert(run_saves(p, results) == p);
    }
}

/// Running the save loop step by step ends in the status that
/// `save_progress_label` gives for the same results: the saves before the
/// first failure are counted, and the first failure's reason is shown.
pub proof fn law_save_loop_status(total: nat, results: Seq<Result<(), String>>)
    requires
        results.len() == total,
    ensures
        progress_status(run_saves((total, 0nat, None), results)) == save_status(total, results),
{
    lemma_run_saves((total, 0nat, None), results);
}

} // verus!
