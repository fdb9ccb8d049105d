# hyprland_settings

A verified library for a Hyprland settings editor, written in Verus.

`src/` holds the logic, each function proved against its contract:

- `value/`: the setting value checks (colors, gradients, paths, sanitized
  strings, scroll-point lists, two-number vectors) and their messages.
  Where a check depends on floating point (an `rgba` alpha in range, a
  finite angle or number, a positive step) the caller answers through a
  closure; the contracts hold for whatever predicate the closure computes.
- `validation.rs`, `export.rs`: the exported metadata bundle and the checks
  that accept or refuse it, with the first failed check as the error and its
  message. Sets of row ids are computed as vectors with a sorted,
  repeat-free listing rather than as `BTreeSet<String>`: vstd's `BTreeSet`
  specifications hold only for key types known to obey the ordering laws
  (`key_obeys_cmp_spec`), which vstd establishes for integers and tuples of
  them but not for `String`, so with `String` keys nothing about the set's
  contents or iteration order could be proved.
- `write_classification.rs`: which settings may be written, their value
  kinds, finite choices and write policies; `allowlist_laws.rs` proves facts
  about those tables as written (every toggle and high-risk row is found on
  the allowlist, the finite-choice rows are exactly the finite-choice kind,
  each choice table offers two or more distinct values).
- `write_enablement_readiness.rs`, `write_advanced_confirmation.rs`,
  `write_backup_plan.rs`, `write_target_candidate.rs`, `write_flow.rs`:
  the write review state and its user-facing lines.
- `ux_presentation.rs`: sidebar pages, labels, status chips, swatches.
- `ui/`: the window model (tabs, settings, row details), the screen shader
  advisory action, and the text the window shows: row and detail-pane text
  (`window_text.rs`, `detail_text.rs`), the inline color control's state
  (`color_control.rs` proves that written state reads back the same), the
  connected config files review (`connected_files.rs`), structured family
  cards and entry lists (`structured_text.rs`), the pending changes grouped
  by page, what the next save would write, and the save loop as a step
  function from progress and one save result to the next progress and
  action (`pending_save.rs`), the color picker's starting color,
  remembered colors and hex entry (`color_picker.rs`) and status labels (`review_labels.rs`).
- `text.rs`, `lines.rs`, `id_list.rs`, `stable_sort.rs`: string, line-list,
  id-list and stable-sort building blocks with their specifications.

Trusted items (Verus believes their contracts): `text::push_char`
(`String::push`), `ux_presentation::uppercase_of` (`char::to_uppercase`)
with its named result `char_uppercase`, `write_backup_plan::with_extension`
(`Path::with_extension`) with its named result `path_with_extension`, and
`ui::connected_files::path_eq` (`Path`'s `==`) with its named result
`paths_equal`, and `validation::debug_list` (`{:?}` of a list of strings)
with its named result `debug_string_list`.

`app/` is a small command-line front end: it checks a value of a given kind
(`check <kind> <value>`), lists the sidebar pages (`pages`), and supplies the
floating-point answers and the float-holding value types. `tests/` exercises
the library on concrete values.
