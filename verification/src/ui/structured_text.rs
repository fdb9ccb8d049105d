//! What the settings window shows of structured config families (binds,
//! window rules, animations and the like): the review card of a family and
//! the read-only list of the entries the user's config holds for it.
use vstd::prelude::*;
use crate::id_list::strings_view;
use crate::lines::{contains_line, first_occurrences, joined, join_lines, lemma_first_occurrences};
use crate::text::{append_str, decimal, push_decimal, str_eq, trim, trim_str};
use crate::ui::detail_text::{items_text, DetailItem, DetailItemText};
use crate::ui::model::{UiProjection, UiStructuredEntry, UiStructuredFamily};

verus! {

/// At most this many entries of a family are listed.
pub const MAX_LISTED_ENTRIES: usize = 40;

/// One listed entry: its line without surrounding whitespace, and where it
/// comes from.
#[derive(Debug, Clone, PartialEq, Eq)]
pub struct StructuredEntryRow {
    pub text: String,
    pub origin: String,
}

pub open spec fn entry_row(e: UiStructuredEntry) -> (Seq<char>, Seq<char>) {
    (trim(e.raw_line@), e.source_path@ + " · line "@ + decimal(e.line_number as nat))
}

pub open spec fn rows_view(rows: Seq<StructuredEntryRow>) -> Seq<(Seq<char>, Seq<char>)> {
    rows.map_values(|r: StructuredEntryRow| (r.text@, r.origin@))
}

/// The entries of the families with id `id`, family after family.
pub open spec fn family_entries(families: Seq<UiStructuredFamily>, id: Seq<char>) -> Seq<
    UiStructuredEntry,
>
    decreases families.len(),
{
    if families.len() == 0 {
        seq![]
    } else {
        family_entries(families.drop_last(), id) + if families.last().family_id@ == id {
            families.last().entries@
        } else {
            seq![]
        }
    }
}

/// The first `n` of `s`, or all of it when it is shorter.
pub open spec fn capped<A>(s: Seq<A>, n: nat) -> Seq<A> {
    if s.len() <= n {
        s
    } else {
        s.take(n as int)
    }
}

/// The rows listed for a family: one per entry, in order, at most
/// `MAX_LISTED_ENTRIES`.
pub open spec fn listed_rows(model: UiProjection, id: Seq<char>) -> Seq<(Seq<char>, Seq<char>)> {
    capped(
        family_entries(model.structured_families@, id).map_values(
            |e: UiStructuredEntry| entry_row(e),
        ),
        MAX_LISTED_ENTRIES as nat,
    )
}

proof fn lemma_capped_push<A>(s: Seq<A>, x: A, n: nat)
    ensures
        capped(s.push(x), n) == if s.len() < n {
            capped(s, n).push(x)
        } else {
            capped(s, n)
        },
{
    if s.len() >= n {
        assert(s.push(x).take(n as int) =~= capped(s, n));
    }
}

fn entry_row_of(e: &UiStructuredEntry) -> (r: StructuredEntryRow)
    ensures
        (r.text@, r.origin@) == entry_row(*e),
{
    let text = trim_str(e.raw_line.as_str()).to_string();
    let mut origin = String::new();
    append_str(&mut origin, e.source_path.as_str());
    append_str(&mut origin, " · line ");
    push_decimal(&mut origin, e.line_number);
    StructuredEntryRow { text, origin }
}

pub fn structured_entry_rows(model: &UiProjection, family_id: &str) -> (r: Vec<StructuredEntryRow>)
    ensures
        rows_view(r@) == listed_rows(*model, family_id@),
{
    let families = &model.structured_families;
    let mut rows: Vec<StructuredEntryRow> = Vec::new();
    let mut i: usize = 0;
    while i < families.len()
        invariant
            i <= families@.len(),
            families@ == model.structured_families@,
            rows_view(rows@) == capped(
                family_entries(families@.take(i as int), family_id@).map_values(
                    |e: UiStructuredEntry| entry_row(e),
                ),
                MAX_LISTED_ENTRIES as nat,
            ),
        decreases families@.len() - i,
    {
        let family = &families[i];
        let ghost before = family_entries(families@.take(i as int), family_id@);
        assert(families@.take(i + 1).drop_last() =~= families@.take(i as int));
        assert(families@.take(i + 1).last() == families@[i as int]);
        if str_eq(family.family_id.as_str(), family_id) {
            let mut j: usize = 0;
            while j < family.entries.len()
                invariant
                    j <= family.entries@.len(),
                    rows_view(rows@) == capped(
                        (before + family.entries@.take(j as int)).map_values(
                            |e: UiStructuredEntry| entry_row(e),
                        ),
                        MAX_LISTED_ENTRIES as nat,
                    ),
                decreases family.entries@.len() - j,
            {
                let ghost prev = (before + family.entries@.take(j as int)).map_values(
                    |e: UiStructuredEntry| entry_row(e),
                );
                let row = entry_row_of(&family.entries[j]);
                proof {
                    assert((before + family.entries@.take(j + 1)).map_values(
                        |e: UiStructuredEntry| entry_row(e),
                    ) =~= prev.push(entry_row(family.entries@[j as int])));
                    lemma_capped_push(prev, entry_row(family.entries@[j as int]), MAX_LISTED_ENTRIES as nat);
                }
                if rows.len() < MAX_LISTED_ENTRIES {
                    let ghost rv = rows_view(rows@);
                    rows.push(row);
                    assert(rows_view(rows@) =~= rv.push(entry_row(family.entries@[j as int])));
                }
                j = j + 1;
            }
            assert(family.entries@.take(j as int) =~= family.entries@);
        } else {
            assert(before + Seq::<UiStructuredEntry>::empty() =~= before);
        }
        i = i + 1;
    }
    assert(families@.take(i as int) =~= families@);
    rows
}

// ---------------------------------------------------------------------
// The review card of a family.
// ---------------------------------------------------------------------

/// The items of a family's review card, in order.
pub open spec fn family_card_items(f: UiStructuredFamily) -> Seq<DetailItemText> {
    seq![
        DetailItemText::Body(f.label@),
        DetailItemText::Line("Syntax"@, f.syntax_description@),
        DetailItemText::Line("Projection status"@, f.projection_status@),
        DetailItemText::Line("Fixture parse proof"@, f.fixture_parse_proof_status@),
        DetailItemText::Line("Fixture render proof"@, f.fixture_render_proof_status@),
        DetailItemText::Line("Family-specific validator"@, f.family_specific_validation_status@),
        DetailItemText::Line("Temp-fixture write plan"@, f.temp_write_plan_status@),
        DetailItemText::Small("Temp-fixture write plan validated"@),
        DetailItemText::Line(
            "Temp-fixture render/reread proof"@,
            f.temp_fixture_render_reread_status@,
        ),
        DetailItemText::Small("Temp-fixture render/reread verified"@),
        DetailItemText::Line("Path guard"@, f.path_guard_status@),
        DetailItemText::Line(
            "Write status"@,
            f.write_status@ + "; Production writes blocked by default"@,
        ),
        DetailItemText::Line("Records in current config"@, decimal(f.entries@.len())),
        DetailItemText::Line("Not proven yet"@, decimal(f.unproven_record_count as nat)),
        DetailItemText::Small(
            "Field schema: "@ + joined(strings_view(f.field_schema@), ", "@),
        ),
        DetailItemText::Small("Structured family editor projection cannot write real config."@),
        DetailItemText::Small(f.real_config_target_status@),
        DetailItemText::Small("Structured family editor projection cannot reload Hyprland."@),
        DetailItemText::Small(f.reload_status@),
        DetailItemText::Small("Structured family editor projection cannot mutate runtime."@),
        DetailItemText::Small(f.runtime_mutation_status@),
    ]
}

fn push_item(items: &mut Vec<DetailItem>, item: DetailItem)
    ensures
        items_text(final(items)@) == items_text(old(items)@).push(
            crate::ui::detail_text::item_text(item),
        ),
{
    let ghost before = items@;
    let ghost t = crate::ui::detail_text::item_text(item);
    items.push(item);
    assert(items_text(items@) =~= items_text(before).push(t));
}

fn line(label: &str, value: &str) -> (r: DetailItem)
    ensures
        crate::ui::detail_text::item_text(r) == DetailItemText::Line(label@, value@),
{
    DetailItem::Line { label: label.to_string(), value: value.to_string() }
}

fn small(text: &str) -> (r: DetailItem)
    ensures
        crate::ui::detail_text::item_text(r) == DetailItemText::Small(text@),
{
    DetailItem::Small(text.to_string())
}

fn number(n: usize) -> (r: String)
    ensures
        r@ == decimal(n as nat),
{
    let mut t = String::new();
    push_decimal(&mut t, n);
    t
}

pub fn structured_family_card_items(family: &UiStructuredFamily) -> (r: Vec<DetailItem>)
    ensures
        items_text(r@) == family_card_items(*family),
{
    let f = family;
    let mut items: Vec<DetailItem> = Vec::new();
    push_item(&mut items, DetailItem::Body(f.label.clone()));
    push_item(&mut items, line("Syntax", f.syntax_description.as_str()));
    push_item(&mut items, line("Projection status", f.projection_status.as_str()));
    push_item(&mut items, line("Fixture parse proof", f.fixture_parse_proof_status.as_str()));
    push_item(&mut items, line("Fixture render proof", f.fixture_render_proof_status.as_str()));
    push_item(
        &mut items,
        line("Family-specific validator", f.family_specific_validation_status.as_str()),
    );
    push_item(&mut items, line("Temp-fixture write plan", f.temp_write_plan_status.as_str()));
    push_item(&mut items, small("Temp-fixture write plan validated"));
    push_item(
        &mut items,
        line("Temp-fixture render/reread proof", f.temp_fixture_render_reread_status.as_str()),
    );
    push_item(&mut items, small("Temp-fixture render/reread verified"));
    push_item(&mut items, line("Path guard", f.path_guard_status.as_str()));
    let mut write_status = String::new();
    append_str(&mut write_status, f.write_status.as_str());
    append_str(&mut write_status, "; Production writes blocked by default");
    push_item(&mut items, line("Write status", write_status.as_str()));
    let records = number(f.entries.len());
    push_item(&mut items, line("Records in current config", records.as_str()));
    let unproven = number(f.unproven_record_count);
    push_item(&mut items, line("Not proven yet", unproven.as_str()));
    let mut schema = String::new();
    append_str(&mut schema, "Field schema: ");
    let fields = join_lines(&f.field_schema, ", ");
    append_str(&mut schema, fields.as_str());
    push_item(&mut items, small(schema.as_str()));
    push_item(&mut items, small("Structured family editor projection cannot write real config."));
    push_item(&mut items, small(f.real_config_target_status.as_str()));
    push_item(&mut items, small("Structured family editor projection cannot reload Hyprland."));
    push_item(&mut items, small(f.reload_status.as_str()));
    push_item(&mut items, small("Structured family editor projection cannot mutate runtime."));
    push_item(&mut items, small(f.runtime_mutation_status.as_str()));
    assert(items_text(items@) =~= family_card_items(*family));
    items
}

// ---------------------------------------------------------------------
// The locked list of a family, grouped by file.
// ---------------------------------------------------------------------

/// An entry of the locked list: its line without surrounding whitespace,
/// and its line number.
pub open spec fn locked_row(e: UiStructuredEntry) -> (Seq<char>, Seq<char>) {
    (trim(e.raw_line@), "line "@ + decimal(e.line_number as nat))
}

/// Each entry as its file and its locked-list row.
pub open spec fn located_rows(entries: Seq<UiStructuredEntry>) -> Seq<
    (Seq<char>, (Seq<char>, Seq<char>)),
> {
    entries.map_values(|e: UiStructuredEntry| (e.source_path@, locked_row(e)))
}

/// The rows of `rows` that come from the file `path`, in order.
pub open spec fn rows_from(rows: Seq<(Seq<char>, (Seq<char>, Seq<char>))>, path: Seq<char>) -> Seq<
    (Seq<char>, Seq<char>),
>
    decreases rows.len(),
{
    if rows.len() == 0 {
        seq![]
    } else {
        rows_from(rows.drop_last(), path) + if rows.last().0 == path {
            seq![rows.last().1]
        } else {
            seq![]
        }
    }
}

/// The entries of one file in the locked list.
#[derive(Debug, Clone, PartialEq, Eq)]
pub struct EntryGroup {
    pub path: String,
    pub rows: Vec<StructuredEntryRow>,
}

pub open spec fn groups_view(groups: Seq<EntryGroup>) -> Seq<
    (Seq<char>, Seq<(Seq<char>, Seq<char>)>),
> {
    groups.map_values(|g: EntryGroup| (g.path@, rows_view(g.rows@)))
}

/// The locked list of a family: one group per file, files in the order
/// their first entry comes, each with its entries in order.
pub open spec fn locked_groups(model: UiProjection, id: Seq<char>) -> Seq<
    (Seq<char>, Seq<(Seq<char>, Seq<char>)>),
> {
    let rows = located_rows(family_entries(model.structured_families@, id));
    first_occurrences(rows.map_values(|r: (Seq<char>, (Seq<char>, Seq<char>))| r.0)).map_values(
        |p: Seq<char>| (p, rows_from(rows, p)),
    )
}

/// Each entry of the family as its file and its row.
fn family_located_rows(model: &UiProjection, family_id: &str) -> (r: Vec<(String, StructuredEntryRow)>)
    ensures
        r@.map_values(|x: (String, StructuredEntryRow)| (x.0@, (x.1.text@, x.1.origin@)))
            == located_rows(family_entries(model.structured_families@, family_id@)),
{
    let families = &model.structured_families;
    let mut out: Vec<(String, StructuredEntryRow)> = Vec::new();
    let mut i: usize = 0;
    while i < families.len()
        invariant
            i <= families@.len(),
            families@ == model.structured_families@,
            out@.map_values(|x: (String, StructuredEntryRow)| (x.0@, (x.1.text@, x.1.origin@)))
                == located_rows(family_entries(families@.take(i as int), family_id@)),
        decreases families@.len() - i,
    {
        let family = &families[i];
        let ghost before = family_entries(families@.take(i as int), family_id@);
        assert(families@.take(i + 1).drop_last() =~= families@.take(i as int));
        assert(families@.take(i + 1).last() == families@[i as int]);
        if str_eq(family.family_id.as_str(), family_id) {
            let mut j: usize = 0;
            while j < family.entries.len()
                invariant
                    j <= family.entries@.len(),
                    out@.map_values(
                        |x: (String, StructuredEntryRow)| (x.0@, (x.1.text@, x.1.origin@)),
                    ) == located_rows(before + family.entries@.take(j as int)),
                decreases family.entries@.len() - j,
            {
                let e = &family.entries[j];
                let text = trim_str(e.raw_line.as_str()).to_string();
                let mut origin = "line ".to_string();
                push_decimal(&mut origin, e.line_number);
                let ghost prev = out@;
                out.push((e.source_path.clone(), StructuredEntryRow { text, origin }));
                assert(located_rows(before + family.entries@.take(j + 1)) =~= located_rows(
                    before + family.entries@.take(j as int),
                ).push((e.source_path@, locked_row(*e))));
                assert(out@.map_values(
                    |x: (String, StructuredEntryRow)| (x.0@, (x.1.text@, x.1.origin@)),
                ) =~= prev.map_values(
                    |x: (String, StructuredEntryRow)| (x.0@, (x.1.text@, x.1.origin@)),
                ).push((e.source_path@, locked_row(*e))));
                j = j + 1;
            }
            assert(family.entries@.take(j as int) =~= family.entries@);
        } else {
            assert(before + Seq::<UiStructuredEntry>::empty() =~= before);
        }
        i = i + 1;
    }
    assert(families@.take(i as int) =~= families@);
    out
}

pub fn locked_entry_groups(model: &UiProjection, family_id: &str) -> (r: Vec<EntryGroup>)
    ensures
        groups_view(r@) == locked_groups(*model, family_id@),
{
    let located = family_located_rows(model, family_id);
    let ghost rows = located_rows(family_entries(model.structured_families@, family_id@));
    let ghost all_paths = rows.map_values(|r: (Seq<char>, (Seq<char>, Seq<char>))| r.0);
    let mut paths: Vec<String> = Vec::new();
    let mut i: usize = 0;
    while i < located.len()
        invariant
            i <= located@.len(),
            located@.map_values(|x: (String, StructuredEntryRow)| (x.0@, (x.1.text@, x.1.origin@)))
                == rows,
            all_paths == rows.map_values(|r: (Seq<char>, (Seq<char>, Seq<char>))| r.0),
            strings_view(paths@) == first_occurrences(all_paths.take(i as int)),
        decreases located@.len() - i,
    {
        assert(all_paths.take(i + 1).drop_last() =~= all_paths.take(i as int));
        assert(all_paths[i as int] == located@[i as int].0@);
        if !contains_line(&paths, located[i].0.as_str()) {
            let ghost before = strings_view(paths@);
            paths.push(located[i].0.clone());
            assert(strings_view(paths@) =~= before.push(located@[i as int].0@));
        }
        i = i + 1;
    }
    assert(all_paths.take(i as int) =~= all_paths);
    let mut groups: Vec<EntryGroup> = Vec::new();
    let mut k: usize = 0;
    while k < paths.len()
        invariant
            k <= paths@.len(),
            located@.map_values(|x: (String, StructuredEntryRow)| (x.0@, (x.1.text@, x.1.origin@)))
                == rows,
            groups_view(groups@) == strings_view(paths@).take(k as int).map_values(
                |p: Seq<char>| (p, rows_from(rows, p)),
            ),
        decreases paths@.len() - k,
    {
        let path = &paths[k];
        let mut group_rows: Vec<StructuredEntryRow> = Vec::new();
        let mut j: usize = 0;
        while j < located.len()
            invariant
                j <= located@.len(),
                located@.map_values(
                    |x: (String, StructuredEntryRow)| (x.0@, (x.1.text@, x.1.origin@)),
                ) == rows,
                rows_view(group_rows@) == rows_from(rows.take(j as int), path@),
            decreases located@.len() - j,
        {
            assert(rows.take(j + 1).drop_last() =~= rows.take(j as int));
            assert(rows.take(j + 1).last() == rows[j as int]);
            assert(rows[j as int] == (located@[j as int].0@, (
                located@[j as int].1.text@,
                located@[j as int].1.origin@,
            )));
            if str_eq(located[j].0.as_str(), path.as_str()) {
                let row = &located[j].1;
                let ghost before = rows_view(group_rows@);
                group_rows.push(StructuredEntryRow { text: row.text.clone(), origin: row.origin.clone() });
                assert(rows_view(group_rows@) =~= before.push((row.text@, row.origin@)));
                assert(rows_from(rows.take(j + 1), path@) =~= rows_from(rows.take(j as int), path@)
                    + seq![rows[j as int].1]);
            } else {
                assert(rows_from(rows.take(j + 1), path@) =~= rows_from(rows.take(j as int), path@)
                    + Seq::<(Seq<char>, Seq<char>)>::empty());
            }
            j = j + 1;
        }
        assert(rows.take(j as int) =~= rows);
        let ghost before = groups_view(groups@);
        let ghost p = path@;
        groups.push(EntryGroup { path: path.clone(), rows: group_rows });
        assert(groups_view(groups@) =~= before.push((p, rows_from(rows, p))));
        assert(strings_view(paths@).take(k + 1) =~= strings_view(paths@).take(k as int).push(p));
        k = k + 1;
    }
    assert(strings_view(paths@).take(k as int) =~= strings_view(paths@));
    groups
}

/// How many rows a list of groups holds.
pub open spec fn group_row_count(groups: Seq<(Seq<char>, Seq<(Seq<char>, Seq<char>)>)>) -> nat
    decreases groups.len(),
{
    if groups.len() == 0 {
        0
    } else {
        group_row_count(groups.drop_last()) + groups.last().1.len()
    }
}

/// The paths of `rows`, in order.
pub open spec fn row_paths(rows: Seq<(Seq<char>, (Seq<char>, Seq<char>))>) -> Seq<Seq<char>> {
    rows.map_values(|r: (Seq<char>, (Seq<char>, Seq<char>))| r.0)
}

proof fn lemma_rows_from_absent(rows: Seq<(Seq<char>, (Seq<char>, Seq<char>))>, p: Seq<char>)
    requires
        !row_paths(rows).contains(p),
    ensures
        rows_from(rows, p).len() == 0,
    decreases rows.len(),
{
    if rows.len() > 0 {
        let front = rows.drop_last();
        assert(row_paths(rows)[rows.len() - 1] == rows.last().0);
        if row_paths(front).contains(p) {
            let j = choose|j: int| 0 <= j < row_paths(front).len() && row_paths(front)[j] == p;
            assert(row_paths(rows)[j] == p);
        }
        lemma_rows_from_absent(front, p);
    }
}

proof fn lemma_group_count_push(
    rows: Seq<(Seq<char>, (Seq<char>, Seq<char>))>,
    r: (Seq<char>, (Seq<char>, Seq<char>)),
    ps: Seq<Seq<char>>,
)
    requires
        ps.no_duplicates(),
    ensures
        group_row_count(ps.map_values(|p: Seq<char>| (p, rows_from(rows.push(r), p))))
            == group_row_count(ps.map_values(|p: Seq<char>| (p, rows_from(rows, p)))) + if ps.contains(
            r.0,
        ) {
            1int
        } else {
            0int
        },
    decreases ps.len(),
{
    let after = ps.map_values(|p: Seq<char>| (p, rows_from(rows.push(r), p)));
    let before = ps.map_values(|p: Seq<char>| (p, rows_from(rows, p)));
    if ps.len() > 0 {
        let front = ps.drop_last();
        let q = ps.last();
        assert(front.no_duplicates());
        lemma_group_count_push(rows, r, front);
        assert(after.drop_last() =~= front.map_values(
            |p: Seq<char>| (p, rows_from(rows.push(r), p)),
        ));
        assert(before.drop_last() =~= front.map_values(|p: Seq<char>| (p, rows_from(rows, p))));
        assert(rows.push(r).drop_last() =~= rows);
        assert(after.last().1 == rows_from(rows.push(r), q));
        assert(before.last().1 == rows_from(rows, q));
        assert(ps.contains(r.0) <==> (front.contains(r.0) || q == r.0)) by {
            if ps.contains(r.0) {
                let j = choose|j: int| 0 <= j < ps.len() && ps[j] == r.0;
                if j < ps.len() - 1 {
                    assert(front[j] == r.0);
                }
            }
            if front.contains(r.0) {
                let j = choose|j: int| 0 <= j < front.len() && front[j] == r.0;
                assert(ps[j] == r.0);
            }
            if q == r.0 {
                assert(ps[ps.len() - 1] == r.0);
            }
        }
        if front.contains(r.0) && q == r.0 {
            let j = choose|j: int| 0 <= j < front.len() && front[j] == r.0;
            assert(ps[j] == ps[ps.len() - 1]);
        }
    }
}

proof fn lemma_groups_hold_every_row(rows: Seq<(Seq<char>, (Seq<char>, Seq<char>))>)
    ensures
        group_row_count(
            first_occurrences(row_paths(rows)).map_values(|p: Seq<char>| (p, rows_from(rows, p))),
        ) == rows.len(),
    decreases rows.len(),
{
    if rows.len() == 0 {
        assert(row_paths(rows) =~= Seq::<Seq<char>>::empty());
        assert(first_occurrences(row_paths(rows)).map_values(
            |p: Seq<char>| (p, rows_from(rows, p)),
        ) =~= Seq::<(Seq<char>, Seq<(Seq<char>, Seq<char>)>)>::empty());
    } else {
        let front = rows.drop_last();
        let r = rows.last();
        assert(front.push(r) =~= rows);
        lemma_groups_hold_every_row(front);
        assert(row_paths(rows).drop_last() =~= row_paths(front));
        assert(row_paths(rows).last() == r.0);
        let f = first_occurrences(row_paths(front));
        lemma_first_occurrences(row_paths(front));
        lemma_group_count_push(front, r, f);
        if f.contains(r.0) {
            assert(first_occurrences(row_paths(rows)) == f);
        } else {
            assert(first_occurrences(row_paths(rows)) == f.push(r.0));
            assert(!row_paths(front).contains(r.0));
            lemma_rows_from_absent(front, r.0);
            let g = f.push(r.0).map_values(|p: Seq<char>| (p, rows_from(rows, p)));
            assert(g.drop_last() =~= f.map_values(|p: Seq<char>| (p, rows_from(rows, p))));
            assert(rows_from(rows, r.0) =~= rows_from(front, r.0) + seq![r.1]);
        }
    }
}

/// The locked list holds every entry of the family exactly once: its files
/// are distinct, and its groups together hold as many rows as the family
/// has entries.
pub proof fn law_locked_list_lists_each_entry_once(model: UiProjection, id: Seq<char>)
    ensures
        locked_groups(model, id).map_values(
            |g: (Seq<char>, Seq<(Seq<char>, Seq<char>)>)| g.0,
        ).no_duplicates(),
        group_row_count(locked_groups(model, id)) == family_entries(
            model.structured_families@,
            id,
        ).len(),
{
    let rows = located_rows(family_entries(model.structured_families@, id));
    let f = first_occurrences(row_paths(rows));
    assert(rows.map_values(|r: (Seq<char>, (Seq<char>, Seq<char>))| r.0) == row_paths(rows));
    lemma_first_occurrences(row_paths(rows));
    lemma_groups_hold_every_row(rows);
    assert(locked_groups(model, id).map_values(
        |g: (Seq<char>, Seq<(Seq<char>, Seq<char>)>)| g.0,
    ) =~= f);
}

} // verus!
