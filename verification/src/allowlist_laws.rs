//! Facts about the write allowlists that hold of the tables as written:
//! every boolean toggle row and every high-risk row is found on the safe
//! write allowlist, the finite-choice rows are exactly those whose allowlist
//! value kind is a finite choice, and each of their choice tables offers at
//! least two distinct values.
use vstd::prelude::*;
use crate::write_classification::{
    ecosystem_policy, find_safe_row, lemma_find_safe_row_concat, names, safe_row,
    safe_rows_part_0, safe_rows_part_1, safe_rows_part_2, safe_rows_part_3, safe_rows_part_4,
    safe_rows_part_5, safe_rows_part_6, spec_conflict_finite_choice_rows,
    spec_ecosystem_high_risk_writable_rows, spec_finite_choice_options,
    spec_remaining_finite_choice_rows, spec_safe_writable_rows, spec_safe_writable_toggle_rows,
    FiniteChoiceOption, SafeWritableRow, ScalarWriteValueKind,
};

use crate::write_classification::{
    spec_layout_selection_choices, spec_input_follow_mouse_choices, spec_input_touchpad_tap_button_map_choices, spec_master_new_status_choices, spec_master_new_on_active_choices, spec_master_orientation_choices, spec_scrolling_direction_choices, spec_master_center_master_fallback_choices, spec_input_scroll_method_choices, spec_general_resize_corner_choices, spec_input_focus_on_close_choices, spec_input_float_switch_override_focus_choices, spec_input_off_window_axis_events_choices, spec_input_emulate_discrete_scroll_choices, spec_input_touchpad_drag_lock_choices, spec_input_touchpad_drag_3fg_choices, spec_input_virtualkeyboard_share_states_choices, spec_group_drag_into_group_choices, spec_dwindle_force_split_choices, spec_dwindle_split_bias_choices, spec_scrolling_focus_fit_method_choices, spec_misc_vrr_choices, spec_misc_on_focus_under_fullscreen_choices,
};

verus! {

/// A lookup in `rows` finds nothing when no row has the id.
proof fn lemma_none_when_absent(rows: Seq<SafeWritableRow>, id: Seq<char>)
    requires
        forall|j: int| 0 <= j < rows.len() ==> (#[trigger] rows[j]).row_id@ != id,
    ensures
        find_safe_row(rows, id) is None,
    decreases rows.len(),
{
    if rows.len() > 0 {
        assert forall|j: int| 0 <= j < rows.drop_first().len() implies (#[trigger] rows.drop_first()[j]).row_id@ != id by {
            assert(rows.drop_first()[j] == rows[j + 1]);
        }
        lemma_none_when_absent(rows.drop_first(), id);
    }
}

/// A lookup finds the first row with the id.
proof fn lemma_find_at(rows: Seq<SafeWritableRow>, id: Seq<char>, k: int)
    requires
        0 <= k < rows.len(),
        rows[k].row_id@ == id,
        forall|j: int| 0 <= j < k ==> (#[trigger] rows[j]).row_id@ != id,
    ensures
        find_safe_row(rows, id) == Some(rows[k]),
    decreases k,
{
    if k > 0 {
        assert forall|j: int| 0 <= j < k - 1 implies (#[trigger] rows.drop_first()[j]).row_id@ != id by {
            assert(rows.drop_first()[j] == rows[j + 1]);
        }
        assert(rows.drop_first()[k - 1] == rows[k]);
        lemma_find_at(rows.drop_first(), id, k - 1);
    }
}

/// What a lookup finds is a row of the table, with the id looked up.
proof fn lemma_found_is_row(rows: Seq<SafeWritableRow>, id: Seq<char>)
    ensures
        find_safe_row(rows, id) matches Some(r) ==> r.row_id@ == id && exists|k: int|
            0 <= k < rows.len() && rows[k] == r,
    decreases rows.len(),
{
    if rows.len() > 0 && rows[0].row_id@ != id {
        lemma_found_is_row(rows.drop_first(), id);
        if find_safe_row(rows, id) is Some {
            let r = find_safe_row(rows, id)->0;
            let k = choose|k: int| 0 <= k < rows.drop_first().len() && rows.drop_first()[k] == r;
            assert(rows[k + 1] == r);
        }
    } else if rows.len() > 0 {
        assert(rows[0] == rows[0]);
    }
}

/// The allowlist lookup, part by part.
proof fn lemma_safe_row_by_part(id: Seq<char>)
    ensures
        safe_row(id) == if find_safe_row(safe_rows_part_0(), id) is Some {
            find_safe_row(safe_rows_part_0(), id)
        } else if find_safe_row(safe_rows_part_1(), id) is Some {
            find_safe_row(safe_rows_part_1(), id)
        } else if find_safe_row(safe_rows_part_2(), id) is Some {
            find_safe_row(safe_rows_part_2(), id)
        } else if find_safe_row(safe_rows_part_3(), id) is Some {
            find_safe_row(safe_rows_part_3(), id)
        } else if find_safe_row(safe_rows_part_4(), id) is Some {
            find_safe_row(safe_rows_part_4(), id)
        } else if find_safe_row(safe_rows_part_5(), id) is Some {
            find_safe_row(safe_rows_part_5(), id)
        } else {
            find_safe_row(safe_rows_part_6(), id)
        },
{
    let p0 = safe_rows_part_0();
    let p1 = safe_rows_part_1();
    let p2 = safe_rows_part_2();
    let p3 = safe_rows_part_3();
    let p4 = safe_rows_part_4();
    let p5 = safe_rows_part_5();
    let p6 = safe_rows_part_6();
    lemma_find_safe_row_concat(p0, p1, id);
    lemma_find_safe_row_concat(p0 + p1, p2, id);
    lemma_find_safe_row_concat(p0 + p1 + p2, p3, id);
    lemma_find_safe_row_concat(p0 + p1 + p2 + p3, p4, id);
    lemma_find_safe_row_concat(p0 + p1 + p2 + p3 + p4, p5, id);
    lemma_find_safe_row_concat(p0 + p1 + p2 + p3 + p4 + p5, p6, id);
}

proof fn lemma_part_0_id_lengths()
    ensures
        safe_rows_part_0()[0].row_id@.len() == 20,
        safe_rows_part_0()[1].row_id@.len() == 23,
        safe_rows_part_0()[2].row_id@.len() == 32,
        safe_rows_part_0()[3].row_id@.len() == 23,
        safe_rows_part_0()[4].row_id@.len() == 30,
        safe_rows_part_0()[5].row_id@.len() == 33,
        safe_rows_part_0()[6].row_id@.len() == 23,
        safe_rows_part_0()[7].row_id@.len() == 22,
        safe_rows_part_0()[8].row_id@.len() == 29,
        safe_rows_part_0()[9].row_id@.len() == 20,
        safe_rows_part_0()[10].row_id@.len() == 26,
        safe_rows_part_0()[11].row_id@.len() == 24,
        safe_rows_part_0()[12].row_id@.len() == 29,
        safe_rows_part_0()[13].row_id@.len() == 20,
        safe_rows_part_0()[14].row_id@.len() == 25,
        safe_rows_part_0()[15].row_id@.len() == 23,
        safe_rows_part_0()[16].row_id@.len() == 23,
        safe_rows_part_0()[17].row_id@.len() == 30,
        safe_rows_part_0()[18].row_id@.len() == 23,
        safe_rows_part_0()[19].row_id@.len() == 32,
        safe_rows_part_0()[20].row_id@.len() == 24,
        safe_rows_part_0()[21].row_id@.len() == 24,
        safe_rows_part_0()[22].row_id@.len() == 18,
        safe_rows_part_0()[23].row_id@.len() == 19,
        safe_rows_part_0()[24].row_id@.len() == 22,
        safe_rows_part_0()[25].row_id@.len() == 19,
        safe_rows_part_0()[26].row_id@.len() == 25,
        safe_rows_part_0()[27].row_id@.len() == 27,
        safe_rows_part_0()[28].row_id@.len() == 18,
        safe_rows_part_0()[29].row_id@.len() == 31,
        safe_rows_part_0()[30].row_id@.len() == 23,
        safe_rows_part_0()[31].row_id@.len() == 22,
        safe_rows_part_0()[32].row_id@.len() == 24,
        safe_rows_part_0()[33].row_id@.len() == 22,
        safe_rows_part_0()[34].row_id@.len() == 28,
        safe_rows_part_0()[35].row_id@.len() == 24,
        safe_rows_part_0()[36].row_id@.len() == 33,
        safe_rows_part_0()[37].row_id@.len() == 31,
        safe_rows_part_0()[38].row_id@.len() == 40,
        safe_rows_part_0()[39].row_id@.len() == 29,
{
    reveal_strlit("appearance.dim.modal");
    reveal_strlit("appearance.dim.inactive");
    reveal_strlit("appearance.border_part_of_window");
    reveal_strlit("appearance.blur.enabled");
    reveal_strlit("appearance.blur.ignore_opacity");
    reveal_strlit("appearance.blur.new_optimizations");
    reveal_strlit("appearance.blur.special");
    reveal_strlit("appearance.blur.popups");
    reveal_strlit("appearance.blur.input_methods");
    reveal_strlit("appearance.blur.size");
    reveal_strlit("appearance.blur.brightness");
    reveal_strlit("appearance.blur.contrast");
    reveal_strlit("appearance.fullscreen_opacity");
    reveal_strlit("appearance.blur.xray");
    reveal_strlit("appearance.shadow.enabled");
    reveal_strlit("appearance.shadow.sharp");
    reveal_strlit("appearance.shadow.range");
    reveal_strlit("appearance.shadow.render_power");
    reveal_strlit("decoration.shadow.color");
    reveal_strlit("decoration.shadow.color_inactive");
    reveal_strlit("decoration.shadow.offset");
    reveal_strlit("decoration.screen_shader");
    reveal_strlit("appearance.gaps_in");
    reveal_strlit("appearance.gaps_out");
    reveal_strlit("appearance.border_size");
    reveal_strlit("appearance.rounding");
    reveal_strlit("appearance.active_opacity");
    reveal_strlit("appearance.inactive_opacity");
    reveal_strlit("animations.enabled");
    reveal_strlit("animations.workspace_wraparound");
    reveal_strlit("appearance.glow.enabled");
    reveal_strlit("group.groupbar.enabled");
    reveal_strlit("group.groupbar.gradients");
    reveal_strlit("group.groupbar.stacked");
    reveal_strlit("group.groupbar.render_titles");
    reveal_strlit("group.groupbar.scrolling");
    reveal_strlit("group.groupbar.middle_click_close");
    reveal_strlit("group.groupbar.round_only_edges");
    reveal_strlit("group.groupbar.gradient_round_only_edges");
    reveal_strlit("group.groupbar.keep_upper_gap");
}

proof fn lemma_part_1_id_lengths()
    ensures
        safe_rows_part_1()[0].row_id@.len() == 19,
        safe_rows_part_1()[1].row_id@.len() == 26,
        safe_rows_part_1()[2].row_id@.len() == 29,
        safe_rows_part_1()[3].row_id@.len() == 23,
        safe_rows_part_1()[4].row_id@.len() == 25,
        safe_rows_part_1()[5].row_id@.len() == 30,
        safe_rows_part_1()[6].row_id@.len() == 27,
        safe_rows_part_1()[7].row_id@.len() == 33,
        safe_rows_part_1()[8].row_id@.len() == 19,
        safe_rows_part_1()[9].row_id@.len() == 31,
        safe_rows_part_1()[10].row_id@.len() == 27,
        safe_rows_part_1()[11].row_id@.len() == 23,
        safe_rows_part_1()[12].row_id@.len() == 27,
        safe_rows_part_1()[13].row_id@.len() == 36,
        safe_rows_part_1()[14].row_id@.len() == 29,
        safe_rows_part_1()[15].row_id@.len() == 22,
        safe_rows_part_1()[16].row_id@.len() == 24,
        safe_rows_part_1()[17].row_id@.len() == 31,
        safe_rows_part_1()[18].row_id@.len() == 22,
        safe_rows_part_1()[19].row_id@.len() == 8,
        safe_rows_part_1()[20].row_id@.len() == 28,
        safe_rows_part_1()[21].row_id@.len() == 27,
        safe_rows_part_1()[22].row_id@.len() == 23,
        safe_rows_part_1()[23].row_id@.len() == 22,
        safe_rows_part_1()[24].row_id@.len() == 31,
        safe_rows_part_1()[25].row_id@.len() == 22,
        safe_rows_part_1()[26].row_id@.len() == 30,
        safe_rows_part_1()[27].row_id@.len() == 35,
        safe_rows_part_1()[28].row_id@.len() == 20,
        safe_rows_part_1()[29].row_id@.len() == 21,
        safe_rows_part_1()[30].row_id@.len() == 14,
        safe_rows_part_1()[31].row_id@.len() == 23,
        safe_rows_part_1()[32].row_id@.len() == 24,
        safe_rows_part_1()[33].row_id@.len() == 27,
        safe_rows_part_1()[34].row_id@.len() == 25,
        safe_rows_part_1()[35].row_id@.len() == 26,
        safe_rows_part_1()[36].row_id@.len() == 33,
        safe_rows_part_1()[37].row_id@.len() == 14,
        safe_rows_part_1()[38].row_id@.len() == 15,
        safe_rows_part_1()[39].row_id@.len() == 16,
{
    reveal_strlit("group.groupbar.blur");
    reveal_strlit("misc.disable_hyprland_logo");
    reveal_strlit("misc.disable_splash_rendering");
    reveal_strlit("misc.name_vk_after_proc");
    reveal_strlit("misc.always_follow_on_dnd");
    reveal_strlit("misc.layers_hog_keyboard_focus");
    reveal_strlit("misc.animate_manual_resizes");
    reveal_strlit("misc.animate_mouse_windowdragging");
    reveal_strlit("misc.enable_swallow");
    reveal_strlit("misc.mouse_move_focuses_monitor");
    reveal_strlit("misc.close_special_on_empty");
    reveal_strlit("misc.middle_click_paste");
    reveal_strlit("misc.disable_xdg_env_checks");
    reveal_strlit("misc.disable_hyprland_guiutils_check");
    reveal_strlit("misc.disable_watchdog_warning");
    reveal_strlit("misc.enable_anr_dialog");
    reveal_strlit("misc.screencopy_force_8b");
    reveal_strlit("misc.disable_scale_notification");
    reveal_strlit("misc.size_limits_tiled");
    reveal_strlit("misc.vrr");
    reveal_strlit("misc.mouse_move_enables_dpms");
    reveal_strlit("misc.key_press_enables_dpms");
    reveal_strlit("misc.disable_autoreload");
    reveal_strlit("misc.focus_on_activate");
    reveal_strlit("misc.allow_session_lock_restore");
    reveal_strlit("misc.session_lock_xray");
    reveal_strlit("misc.on_focus_under_fullscreen");
    reveal_strlit("misc.exit_window_retains_fullscreen");
    reveal_strlit("windows.snap.enabled");
    reveal_strlit("general.allow_tearing");
    reveal_strlit("general.locale");
    reveal_strlit("windows.snap.window_gap");
    reveal_strlit("windows.snap.monitor_gap");
    reveal_strlit("general.col.inactive_border");
    reveal_strlit("general.col.active_border");
    reveal_strlit("general.col.nogroup_border");
    reveal_strlit("general.col.nogroup_border_active");
    reveal_strlit("input.kb_model");
    reveal_strlit("input.kb_layout");
    reveal_strlit("input.kb_variant");
}

proof fn lemma_part_2_id_lengths()
    ensures
        safe_rows_part_2()[0].row_id@.len() == 16,
        safe_rows_part_2()[1].row_id@.len() == 14,
        safe_rows_part_2()[2].row_id@.len() == 25,
        safe_rows_part_2()[3].row_id@.len() == 19,
        safe_rows_part_2()[4].row_id@.len() == 19,
        safe_rows_part_2()[5].row_id@.len() == 13,
        safe_rows_part_2()[6].row_id@.len() == 28,
        safe_rows_part_2()[7].row_id@.len() == 24,
        safe_rows_part_2()[8].row_id@.len() == 29,
        safe_rows_part_2()[9].row_id@.len() == 33,
        safe_rows_part_2()[10].row_id@.len() == 21,
        safe_rows_part_2()[11].row_id@.len() == 30,
        safe_rows_part_2()[12].row_id@.len() == 25,
        safe_rows_part_2()[13].row_id@.len() == 34,
        safe_rows_part_2()[14].row_id@.len() == 39,
        safe_rows_part_2()[15].row_id@.len() == 41,
        safe_rows_part_2()[16].row_id@.len() == 26,
        safe_rows_part_2()[17].row_id@.len() == 23,
        safe_rows_part_2()[18].row_id@.len() == 25,
        safe_rows_part_2()[19].row_id@.len() == 32,
        safe_rows_part_2()[20].row_id@.len() == 30,
        safe_rows_part_2()[21].row_id@.len() == 25,
        safe_rows_part_2()[22].row_id@.len() == 27,
        safe_rows_part_2()[23].row_id@.len() == 32,
        safe_rows_part_2()[24].row_id@.len() == 34,
        safe_rows_part_2()[25].row_id@.len() == 15,
        safe_rows_part_2()[26].row_id@.len() == 21,
        safe_rows_part_2()[27].row_id@.len() == 16,
        safe_rows_part_2()[28].row_id@.len() == 23,
        safe_rows_part_2()[29].row_id@.len() == 18,
        safe_rows_part_2()[30].row_id@.len() == 28,
        safe_rows_part_2()[31].row_id@.len() == 33,
        safe_rows_part_2()[32].row_id@.len() == 22,
        safe_rows_part_2()[33].row_id@.len() == 21,
        safe_rows_part_2()[34].row_id@.len() == 23,
        safe_rows_part_2()[35].row_id@.len() == 25,
        safe_rows_part_2()[36].row_id@.len() == 23,
        safe_rows_part_2()[37].row_id@.len() == 22,
        safe_rows_part_2()[38].row_id@.len() == 21,
        safe_rows_part_2()[39].row_id@.len() == 24,
{
    reveal_strlit("input.kb_options");
    reveal_strlit("input.kb_rules");
    reveal_strlit("input.pointer_sensitivity");
    reveal_strlit("input.accel_profile");
    reveal_strlit("input.scroll_points");
    reveal_strlit("input.kb_file");
    reveal_strlit("input.tablet.region_position");
    reveal_strlit("input.tablet.region_size");
    reveal_strlit("input.tablet.active_area_size");
    reveal_strlit("input.tablet.active_area_position");
    reveal_strlit("decoration.glow.color");
    reveal_strlit("decoration.glow.color_inactive");
    reveal_strlit("group.groupbar.text_color");
    reveal_strlit("group.groupbar.text_color_inactive");
    reveal_strlit("group.groupbar.text_color_locked_active");
    reveal_strlit("group.groupbar.text_color_locked_inactive");
    reveal_strlit("group.groupbar.font_family");
    reveal_strlit("group.col.border_active");
    reveal_strlit("group.col.border_inactive");
    reveal_strlit("group.col.border_locked_inactive");
    reveal_strlit("group.col.border_locked_active");
    reveal_strlit("group.groupbar.col.active");
    reveal_strlit("group.groupbar.col.inactive");
    reveal_strlit("group.groupbar.col.locked_active");
    reveal_strlit("group.groupbar.col.locked_inactive");
    reveal_strlit("misc.col.splash");
    reveal_strlit("misc.background_color");
    reveal_strlit("misc.font_family");
    reveal_strlit("misc.splash_font_family");
    reveal_strlit("misc.swallow_regex");
    reveal_strlit("misc.swallow_exception_regex");
    reveal_strlit("layout.single_window_aspect_ratio");
    reveal_strlit("appearance.blur.passes");
    reveal_strlit("appearance.blur.noise");
    reveal_strlit("appearance.shadow.scale");
    reveal_strlit("appearance.rounding_power");
    reveal_strlit("appearance.dim.strength");
    reveal_strlit("appearance.dim.special");
    reveal_strlit("appearance.dim.around");
    reveal_strlit("appearance.blur.vibrancy");
}

proof fn lemma_part_3_id_lengths()
    ensures
        safe_rows_part_3()[0].row_id@.len() == 33,
        safe_rows_part_3()[1].row_id@.len() == 34,
        safe_rows_part_3()[2].row_id@.len() == 41,
        safe_rows_part_3()[3].row_id@.len() == 21,
        safe_rows_part_3()[4].row_id@.len() == 28,
        safe_rows_part_3()[5].row_id@.len() == 18,
        safe_rows_part_3()[6].row_id@.len() == 23,
        safe_rows_part_3()[7].row_id@.len() == 16,
        safe_rows_part_3()[8].row_id@.len() == 25,
        safe_rows_part_3()[9].row_id@.len() == 24,
        safe_rows_part_3()[10].row_id@.len() == 31,
        safe_rows_part_3()[11].row_id@.len() == 28,
        safe_rows_part_3()[12].row_id@.len() == 21,
        safe_rows_part_3()[13].row_id@.len() == 27,
        safe_rows_part_3()[14].row_id@.len() == 25,
        safe_rows_part_3()[15].row_id@.len() == 29,
        safe_rows_part_3()[16].row_id@.len() == 24,
        safe_rows_part_3()[17].row_id@.len() == 26,
        safe_rows_part_3()[18].row_id@.len() == 17,
        safe_rows_part_3()[19].row_id@.len() == 18,
        safe_rows_part_3()[20].row_id@.len() == 20,
        safe_rows_part_3()[21].row_id@.len() == 14,
        safe_rows_part_3()[22].row_id@.len() == 17,
        safe_rows_part_3()[23].row_id@.len() == 19,
        safe_rows_part_3()[24].row_id@.len() == 24,
        safe_rows_part_3()[25].row_id@.len() == 19,
        safe_rows_part_3()[26].row_id@.len() == 19,
        safe_rows_part_3()[27].row_id@.len() == 20,
        safe_rows_part_3()[28].row_id@.len() == 28,
        safe_rows_part_3()[29].row_id@.len() == 18,
        safe_rows_part_3()[30].row_id@.len() == 20,
        safe_rows_part_3()[31].row_id@.len() == 19,
        safe_rows_part_3()[32].row_id@.len() == 33,
        safe_rows_part_3()[33].row_id@.len() == 25,
        safe_rows_part_3()[34].row_id@.len() == 28,
        safe_rows_part_3()[35].row_id@.len() == 29,
        safe_rows_part_3()[36].row_id@.len() == 25,
        safe_rows_part_3()[37].row_id@.len() == 35,
        safe_rows_part_3()[38].row_id@.len() == 29,
        safe_rows_part_3()[39].row_id@.len() == 28,
{
    reveal_strlit("appearance.blur.vibrancy_darkness");
    reveal_strlit("appearance.blur.popups_ignorealpha");
    reveal_strlit("appearance.blur.input_methods_ignorealpha");
    reveal_strlit("appearance.glow.range");
    reveal_strlit("appearance.glow.render_power");
    reveal_strlit("general.float_gaps");
    reveal_strlit("general.gaps_workspaces");
    reveal_strlit("layout.selection");
    reveal_strlit("general.no_focus_fallback");
    reveal_strlit("general.resize_on_border");
    reveal_strlit("general.extend_border_grab_area");
    reveal_strlit("general.hover_icon_on_border");
    reveal_strlit("general.resize_corner");
    reveal_strlit("general.snap.border_overlap");
    reveal_strlit("general.snap.respect_gaps");
    reveal_strlit("general.modal_parent_blocking");
    reveal_strlit("input.numlock_by_default");
    reveal_strlit("input.resolve_binds_by_sym");
    reveal_strlit("input.repeat_rate");
    reveal_strlit("input.repeat_delay");
    reveal_strlit("input.force_no_accel");
    reveal_strlit("input.rotation");
    reveal_strlit("input.left_handed");
    reveal_strlit("input.scroll_button");
    reveal_strlit("input.scroll_button_lock");
    reveal_strlit("input.scroll_factor");
    reveal_strlit("input.scroll_method");
    reveal_strlit("input.natural_scroll");
    reveal_strlit("input.follow_mouse_threshold");
    reveal_strlit("input.follow_mouse");
    reveal_strlit("input.focus_on_close");
    reveal_strlit("input.mouse_refocus");
    reveal_strlit("input.float_switch_override_focus");
    reveal_strlit("input.special_fallthrough");
    reveal_strlit("input.off_window_axis_events");
    reveal_strlit("input.emulate_discrete_scroll");
    reveal_strlit("input.follow_mouse_shrink");
    reveal_strlit("input.touchpad.disable_while_typing");
    reveal_strlit("input.touchpad.natural_scroll");
    reveal_strlit("input.touchpad.scroll_factor");
}

proof fn lemma_part_4_id_lengths()
    ensures
        safe_rows_part_4()[0].row_id@.len() == 38,
        safe_rows_part_4()[1].row_id@.len() == 35,
        safe_rows_part_4()[2].row_id@.len() == 27,
        safe_rows_part_4()[3].row_id@.len() == 24,
        safe_rows_part_4()[4].row_id@.len() == 29,
        safe_rows_part_4()[5].row_id@.len() == 27,
        safe_rows_part_4()[6].row_id@.len() == 21,
        safe_rows_part_4()[7].row_id@.len() == 21,
        safe_rows_part_4()[8].row_id@.len() == 23,
        safe_rows_part_4()[9].row_id@.len() == 27,
        safe_rows_part_4()[10].row_id@.len() == 25,
        safe_rows_part_4()[11].row_id@.len() == 24,
        safe_rows_part_4()[12].row_id@.len() == 34,
        safe_rows_part_4()[13].row_id@.len() == 46,
        safe_rows_part_4()[14].row_id@.len() == 22,
        safe_rows_part_4()[15].row_id@.len() == 37,
        safe_rows_part_4()[16].row_id@.len() == 27,
        safe_rows_part_4()[17].row_id@.len() == 19,
        safe_rows_part_4()[18].row_id@.len() == 24,
        safe_rows_part_4()[19].row_id@.len() == 33,
        safe_rows_part_4()[20].row_id@.len() == 30,
        safe_rows_part_4()[21].row_id@.len() == 31,
        safe_rows_part_4()[22].row_id@.len() == 37,
        safe_rows_part_4()[23].row_id@.len() == 43,
        safe_rows_part_4()[24].row_id@.len() == 37,
        safe_rows_part_4()[25].row_id@.len() == 35,
        safe_rows_part_4()[26].row_id@.len() == 39,
        safe_rows_part_4()[27].row_id@.len() == 49,
        safe_rows_part_4()[28].row_id@.len() == 32,
        safe_rows_part_4()[29].row_id@.len() == 30,
        safe_rows_part_4()[30].row_id@.len() == 26,
        safe_rows_part_4()[31].row_id@.len() == 36,
        safe_rows_part_4()[32].row_id@.len() == 35,
        safe_rows_part_4()[33].row_id@.len() == 26,
        safe_rows_part_4()[34].row_id@.len() == 26,
        safe_rows_part_4()[35].row_id@.len() == 26,
        safe_rows_part_4()[36].row_id@.len() == 30,
        safe_rows_part_4()[37].row_id@.len() == 16,
        safe_rows_part_4()[38].row_id@.len() == 21,
        safe_rows_part_4()[39].row_id@.len() == 42,
{
    reveal_strlit("input.touchpad.middle_button_emulation");
    reveal_strlit("input.touchpad.clickfinger_behavior");
    reveal_strlit("input.touchpad.tap-to-click");
    reveal_strlit("input.touchpad.drag_lock");
    reveal_strlit("input.touchpad.tap_button_map");
    reveal_strlit("input.touchpad.tap-and-drag");
    reveal_strlit("input.touchpad.flip_x");
    reveal_strlit("input.touchpad.flip_y");
    reveal_strlit("input.touchpad.drag_3fg");
    reveal_strlit("input.touchdevice.transform");
    reveal_strlit("input.touchdevice.enabled");
    reveal_strlit("input.touchdevice.output");
    reveal_strlit("input.virtualkeyboard.share_states");
    reveal_strlit("input.virtualkeyboard.release_pressed_on_close");
    reveal_strlit("input.tablet.transform");
    reveal_strlit("input.tablet.absolute_region_position");
    reveal_strlit("input.tablet.relative_input");
    reveal_strlit("input.tablet.output");
    reveal_strlit("input.tablet.left_handed");
    reveal_strlit("gestures.workspace_swipe_distance");
    reveal_strlit("gestures.workspace_swipe_touch");
    reveal_strlit("gestures.workspace_swipe_invert");
    reveal_strlit("gestures.workspace_swipe_touch_invert");
    reveal_strlit("gestures.workspace_swipe_min_speed_to_force");
    reveal_strlit("gestures.workspace_swipe_cancel_ratio");
    reveal_strlit("gestures.workspace_swipe_create_new");
    reveal_strlit("gestures.workspace_swipe_direction_lock");
    reveal_strlit("gestures.workspace_swipe_direction_lock_threshold");
    reveal_strlit("gestures.workspace_swipe_forever");
    reveal_strlit("gestures.workspace_swipe_use_r");
    reveal_strlit("gestures.close_max_timeout");
    reveal_strlit("gestures.scrolling.move_snap_to_grid");
    reveal_strlit("gestures.scrolling.move_snap_cursor");
    reveal_strlit("group.insert_after_current");
    reveal_strlit("group.focus_removed_window");
    reveal_strlit("group.merge_groups_on_drag");
    reveal_strlit("group.merge_groups_on_groupbar");
    reveal_strlit("group.auto_group");
    reveal_strlit("group.drag_into_group");
    reveal_strlit("group.merge_floated_into_tiled_on_groupbar");
}

proof fn lemma_part_5_id_lengths()
    ensures
        safe_rows_part_5()[0].row_id@.len() == 30,
        safe_rows_part_5()[1].row_id@.len() == 33,
        safe_rows_part_5()[2].row_id@.len() == 35,
        safe_rows_part_5()[3].row_id@.len() == 24,
        safe_rows_part_5()[4].row_id@.len() == 21,
        safe_rows_part_5()[5].row_id@.len() == 28,
        safe_rows_part_5()[6].row_id@.len() == 31,
        safe_rows_part_5()[7].row_id@.len() == 23,
        safe_rows_part_5()[8].row_id@.len() == 23,
        safe_rows_part_5()[9].row_id@.len() == 29,
        safe_rows_part_5()[10].row_id@.len() == 32,
        safe_rows_part_5()[11].row_id@.len() == 38,
        safe_rows_part_5()[12].row_id@.len() == 23,
        safe_rows_part_5()[13].row_id@.len() == 22,
        safe_rows_part_5()[14].row_id@.len() == 26,
        safe_rows_part_5()[15].row_id@.len() == 27,
        safe_rows_part_5()[16].row_id@.len() == 28,
        safe_rows_part_5()[17].row_id@.len() == 31,
        safe_rows_part_5()[18].row_id@.len() == 25,
        safe_rows_part_5()[19].row_id@.len() == 26,
        safe_rows_part_5()[20].row_id@.len() == 21,
        safe_rows_part_5()[21].row_id@.len() == 27,
        safe_rows_part_5()[22].row_id@.len() == 24,
        safe_rows_part_5()[23].row_id@.len() == 30,
        safe_rows_part_5()[24].row_id@.len() == 38,
        safe_rows_part_5()[25].row_id@.len() == 28,
        safe_rows_part_5()[26].row_id@.len() == 25,
        safe_rows_part_5()[27].row_id@.len() == 28,
        safe_rows_part_5()[28].row_id@.len() == 23,
        safe_rows_part_5()[29].row_id@.len() == 33,
        safe_rows_part_5()[30].row_id@.len() == 33,
        safe_rows_part_5()[31].row_id@.len() == 30,
        safe_rows_part_5()[32].row_id@.len() == 39,
        safe_rows_part_5()[33].row_id@.len() == 20,
        safe_rows_part_5()[34].row_id@.len() == 26,
        safe_rows_part_5()[35].row_id@.len() == 43,
        safe_rows_part_5()[36].row_id@.len() == 19,
        safe_rows_part_5()[37].row_id@.len() == 22,
        safe_rows_part_5()[38].row_id@.len() == 19,
        safe_rows_part_5()[39].row_id@.len() == 22,
{
    reveal_strlit("group.group_on_movetoworkspace");
    reveal_strlit("group.groupbar.font_weight_active");
    reveal_strlit("group.groupbar.font_weight_inactive");
    reveal_strlit("group.groupbar.font_size");
    reveal_strlit("group.groupbar.height");
    reveal_strlit("group.groupbar.indicator_gap");
    reveal_strlit("group.groupbar.indicator_height");
    reveal_strlit("group.groupbar.priority");
    reveal_strlit("group.groupbar.rounding");
    reveal_strlit("group.groupbar.rounding_power");
    reveal_strlit("group.groupbar.gradient_rounding");
    reveal_strlit("group.groupbar.gradient_rounding_power");
    reveal_strlit("group.groupbar.gaps_out");
    reveal_strlit("group.groupbar.gaps_in");
    reveal_strlit("group.groupbar.text_offset");
    reveal_strlit("group.groupbar.text_padding");
    reveal_strlit("misc.force_default_wallpaper");
    reveal_strlit("misc.initial_workspace_tracking");
    reveal_strlit("misc.render_unfocused_fps");
    reveal_strlit("misc.lockdead_screen_delay");
    reveal_strlit("misc.anr_missed_pings");
    reveal_strlit("binds.pass_mouse_when_bound");
    reveal_strlit("binds.scroll_event_delay");
    reveal_strlit("binds.workspace_back_and_forth");
    reveal_strlit("binds.hide_special_on_workspace_change");
    reveal_strlit("binds.allow_workspace_cycles");
    reveal_strlit("binds.workspace_center_on");
    reveal_strlit("binds.focus_preferred_method");
    reveal_strlit("binds.ignore_group_lock");
    reveal_strlit("binds.movefocus_cycles_groupfirst");
    reveal_strlit("binds.movefocus_cycles_fullscreen");
    reveal_strlit("binds.disable_keybind_grabbing");
    reveal_strlit("binds.window_direction_monitor_fallback");
    reveal_strlit("binds.drag_threshold");
    reveal_strlit("binds.allow_pin_fullscreen");
    reveal_strlit("layout.single_window_aspect_ratio_tolerance");
    reveal_strlit("dwindle.force_split");
    reveal_strlit("dwindle.preserve_split");
    reveal_strlit("dwindle.smart_split");
    reveal_strlit("dwindle.smart_resizing");
}

proof fn lemma_part_6_id_lengths()
    ensures
        safe_rows_part_6()[0].row_id@.len() == 36,
        safe_rows_part_6()[1].row_id@.len() == 28,
        safe_rows_part_6()[2].row_id@.len() == 30,
        safe_rows_part_6()[3].row_id@.len() == 29,
        safe_rows_part_6()[4].row_id@.len() == 27,
        safe_rows_part_6()[5].row_id@.len() == 18,
        safe_rows_part_6()[6].row_id@.len() == 26,
        safe_rows_part_6()[7].row_id@.len() == 24,
        safe_rows_part_6()[8].row_id@.len() == 27,
        safe_rows_part_6()[9].row_id@.len() == 12,
        safe_rows_part_6()[10].row_id@.len() == 17,
        safe_rows_part_6()[11].row_id@.len() == 17,
        safe_rows_part_6()[12].row_id@.len() == 20,
        safe_rows_part_6()[13].row_id@.len() == 18,
        safe_rows_part_6()[14].row_id@.len() == 36,
        safe_rows_part_6()[15].row_id@.len() == 30,
        safe_rows_part_6()[16].row_id@.len() == 29,
        safe_rows_part_6()[17].row_id@.len() == 21,
        safe_rows_part_6()[18].row_id@.len() == 21,
        safe_rows_part_6()[19].row_id@.len() == 27,
        safe_rows_part_6()[20].row_id@.len() == 22,
        safe_rows_part_6()[21].row_id@.len() == 26,
        safe_rows_part_6()[22].row_id@.len() == 22,
        safe_rows_part_6()[23].row_id@.len() == 28,
        safe_rows_part_6()[24].row_id@.len() == 32,
        safe_rows_part_6()[25].row_id@.len() == 20,
        safe_rows_part_6()[26].row_id@.len() == 22,
        safe_rows_part_6()[27].row_id@.len() == 19,
        safe_rows_part_6()[28].row_id@.len() == 34,
        safe_rows_part_6()[29].row_id@.len() == 24,
        safe_rows_part_6()[30].row_id@.len() == 25,
        safe_rows_part_6()[31].row_id@.len() == 29,
{
    reveal_strlit("dwindle.permanent_direction_override");
    reveal_strlit("dwindle.special_scale_factor");
    reveal_strlit("dwindle.split_width_multiplier");
    reveal_strlit("dwindle.use_active_for_splits");
    reveal_strlit("dwindle.default_split_ratio");
    reveal_strlit("dwindle.split_bias");
    reveal_strlit("dwindle.precise_mouse_move");
    reveal_strlit("master.allow_small_split");
    reveal_strlit("master.special_scale_factor");
    reveal_strlit("master.mfact");
    reveal_strlit("master.new_on_top");
    reveal_strlit("master.new_status");
    reveal_strlit("master.new_on_active");
    reveal_strlit("master.orientation");
    reveal_strlit("master.slave_count_for_center_master");
    reveal_strlit("master.center_ignores_reserved");
    reveal_strlit("master.center_master_fallback");
    reveal_strlit("master.smart_resizing");
    reveal_strlit("master.drop_at_cursor");
    reveal_strlit("master.always_keep_position");
    reveal_strlit("scrolling.column_width");
    reveal_strlit("scrolling.focus_fit_method");
    reveal_strlit("scrolling.follow_focus");
    reveal_strlit("scrolling.follow_min_visible");
    reveal_strlit("scrolling.explicit_column_widths");
    reveal_strlit("scrolling.wrap_focus");
    reveal_strlit("scrolling.wrap_swapcol");
    reveal_strlit("scrolling.direction");
    reveal_strlit("scrolling.fullscreen_on_one_column");
    reveal_strlit("ecosystem.no_update_news");
    reveal_strlit("ecosystem.no_donation_nag");
    reveal_strlit("ecosystem.enforce_permissions");
}

proof fn lemma_lookup_appearance_dim_modal()
    ensures
        safe_row("appearance.dim.modal"@) == Some(safe_rows_part_0()[0]),
        safe_rows_part_0()[0] == (SafeWritableRow { row_id: "appearance.dim.modal", official_setting: "decoration.dim_modal", value_kind: ScalarWriteValueKind::Boolean }),
{
    reveal_strlit("appearance.dim.modal");
    lemma_part_0_id_lengths();
    lemma_find_at(safe_rows_part_0(), "appearance.dim.modal"@, 0);
    lemma_safe_row_by_part("appearance.dim.modal"@);
}

proof fn lemma_lookup_appearance_dim_inactive()
    ensures
        safe_row("appearance.dim.inactive"@) == Some(safe_rows_part_0()[1]),
        safe_rows_part_0()[1] == (SafeWritableRow { row_id: "appearance.dim.inactive", official_setting: "decoration.dim_inactive", value_kind: ScalarWriteValueKind::Boolean }),
{
    reveal_strlit("appearance.dim.inactive");
    lemma_part_0_id_lengths();
    lemma_find_at(safe_rows_part_0(), "appearance.dim.inactive"@, 1);
    lemma_safe_row_by_part("appearance.dim.inactive"@);
}

proof fn lemma_lookup_appearance_border_part_of_window()
    ensures
        safe_row("appearance.border_part_of_window"@) == Some(safe_rows_part_0()[2]),
        safe_rows_part_0()[2] == (SafeWritableRow { row_id: "appearance.border_part_of_window", official_setting: "decoration.border_part_of_window", value_kind: ScalarWriteValueKind::Boolean }),
{
    reveal_strlit("appearance.border_part_of_window");
    lemma_part_0_id_lengths();
    lemma_find_at(safe_rows_part_0(), "appearance.border_part_of_window"@, 2);
    lemma_safe_row_by_part("appearance.border_part_of_window"@);
}

proof fn lemma_lookup_appearance_blur_enabled()
    ensures
        safe_row("appearance.blur.enabled"@) == Some(safe_rows_part_0()[3]),
        safe_rows_part_0()[3] == (SafeWritableRow { row_id: "appearance.blur.enabled", official_setting: "decoration.blur.enabled", value_kind: ScalarWriteValueKind::Boolean }),
{
    reveal_strlit("appearance.blur.enabled");
    lemma_part_0_id_lengths();
    reveal_strlit("appearance.dim.inactive");
    assert(safe_rows_part_0()[1].row_id@[11] != "appearance.blur.enabled"@[11]);
    lemma_find_at(safe_rows_part_0(), "appearance.blur.enabled"@, 3);
    lemma_safe_row_by_part("appearance.blur.enabled"@);
}

proof fn lemma_lookup_appearance_blur_ignore_opacity()
    ensures
        safe_row("appearance.blur.ignore_opacity"@) == Some(safe_rows_part_0()[4]),
        safe_rows_part_0()[4] == (SafeWritableRow { row_id: "appearance.blur.ignore_opacity", official_setting: "decoration.blur.ignore_opacity", value_kind: ScalarWriteValueKind::Boolean }),
{
    reveal_strlit("appearance.blur.ignore_opacity");
    lemma_part_0_id_lengths();
    lemma_find_at(safe_rows_part_0(), "appearance.blur.ignore_opacity"@, 4);
    lemma_safe_row_by_part("appearance.blur.ignore_opacity"@);
}

proof fn lemma_lookup_appearance_blur_new_optimizations()
    ensures
        safe_row("appearance.blur.new_optimizations"@) == Some(safe_rows_part_0()[5]),
        safe_rows_part_0()[5] == (SafeWritableRow { row_id: "appearance.blur.new_optimizations", official_setting: "decoration.blur.new_optimizations", value_kind: ScalarWriteValueKind::Boolean }),
{
    reveal_strlit("appearance.blur.new_optimizations");
    lemma_part_0_id_lengths();
    lemma_find_at(safe_rows_part_0(), "appearance.blur.new_optimizations"@, 5);
    lemma_safe_row_by_part("appearance.blur.new_optimizations"@);
}

proof fn lemma_lookup_appearance_blur_special()
    ensures
        safe_row("appearance.blur.special"@) == Some(safe_rows_part_0()[6]),
        safe_rows_part_0()[6] == (SafeWritableRow { row_id: "appearance.blur.special", official_setting: "decoration.blur.special", value_kind: ScalarWriteValueKind::Boolean }),
{
    reveal_strlit("appearance.blur.special");
    lemma_part_0_id_lengths();
    reveal_strlit("appearance.dim.inactive");
    assert(safe_rows_part_0()[1].row_id@[11] != "appearance.blur.special"@[11]);
    reveal_strlit("appearance.blur.enabled");
    assert(safe_rows_part_0()[3].row_id@[16] != "appearance.blur.special"@[16]);
    lemma_find_at(safe_rows_part_0(), "appearance.blur.special"@, 6);
    lemma_safe_row_by_part("appearance.blur.special"@);
}

proof fn lemma_lookup_appearance_blur_popups()
    ensures
        safe_row("appearance.blur.popups"@) == Some(safe_rows_part_0()[7]),
        safe_rows_part_0()[7] == (SafeWritableRow { row_id: "appearance.blur.popups", official_setting: "decoration.blur.popups", value_kind: ScalarWriteValueKind::Boolean }),
{
    reveal_strlit("appearance.blur.popups");
    lemma_part_0_id_lengths();
    lemma_find_at(safe_rows_part_0(), "appearance.blur.popups"@, 7);
    lemma_safe_row_by_part("appearance.blur.popups"@);
}

proof fn lemma_lookup_appearance_blur_input_methods()
    ensures
        safe_row("appearance.blur.input_methods"@) == Some(safe_rows_part_0()[8]),
        safe_rows_part_0()[8] == (SafeWritableRow { row_id: "appearance.blur.input_methods", official_setting: "decoration.blur.input_methods", value_kind: ScalarWriteValueKind::Boolean }),
{
    reveal_strlit("appearance.blur.input_methods");
    lemma_part_0_id_lengths();
    lemma_find_at(safe_rows_part_0(), "appearance.blur.input_methods"@, 8);
    lemma_safe_row_by_part("appearance.blur.input_methods"@);
}

proof fn lemma_lookup_appearance_shadow_enabled()
    ensures
        safe_row("appearance.shadow.enabled"@) == Some(safe_rows_part_0()[14]),
        safe_rows_part_0()[14] == (SafeWritableRow { row_id: "appearance.shadow.enabled", official_setting: "decoration.shadow.enabled", value_kind: ScalarWriteValueKind::Boolean }),
{
    reveal_strlit("appearance.shadow.enabled");
    lemma_part_0_id_lengths();
    lemma_find_at(safe_rows_part_0(), "appearance.shadow.enabled"@, 14);
    lemma_safe_row_by_part("appearance.shadow.enabled"@);
}

proof fn lemma_lookup_appearance_shadow_sharp()
    ensures
        safe_row("appearance.shadow.sharp"@) == Some(safe_rows_part_0()[15]),
        safe_rows_part_0()[15] == (SafeWritableRow { row_id: "appearance.shadow.sharp", official_setting: "decoration.shadow.sharp", value_kind: ScalarWriteValueKind::Boolean }),
{
    reveal_strlit("appearance.shadow.sharp");
    lemma_part_0_id_lengths();
    reveal_strlit("appearance.dim.inactive");
    assert(safe_rows_part_0()[1].row_id@[11] != "appearance.shadow.sharp"@[11]);
    reveal_strlit("appearance.blur.enabled");
    assert(safe_rows_part_0()[3].row_id@[11] != "appearance.shadow.sharp"@[11]);
    reveal_strlit("appearance.blur.special");
    assert(safe_rows_part_0()[6].row_id@[11] != "appearance.shadow.sharp"@[11]);
    lemma_find_at(safe_rows_part_0(), "appearance.shadow.sharp"@, 15);
    lemma_safe_row_by_part("appearance.shadow.sharp"@);
}

proof fn lemma_lookup_appearance_glow_enabled()
    ensures
        safe_row("appearance.glow.enabled"@) == Some(safe_rows_part_0()[30]),
        safe_rows_part_0()[30] == (SafeWritableRow { row_id: "appearance.glow.enabled", official_setting: "decoration.glow.enabled", value_kind: ScalarWriteValueKind::Boolean }),
{
    reveal_strlit("appearance.glow.enabled");
    lemma_part_0_id_lengths();
    reveal_strlit("appearance.dim.inactive");
    assert(safe_rows_part_0()[1].row_id@[11] != "appearance.glow.enabled"@[11]);
    reveal_strlit("appearance.blur.enabled");
    assert(safe_rows_part_0()[3].row_id@[11] != "appearance.glow.enabled"@[11]);
    reveal_strlit("appearance.blur.special");
    assert(safe_rows_part_0()[6].row_id@[11] != "appearance.glow.enabled"@[11]);
    reveal_strlit("appearance.shadow.sharp");
    assert(safe_rows_part_0()[15].row_id@[11] != "appearance.glow.enabled"@[11]);
    reveal_strlit("appearance.shadow.range");
    assert(safe_rows_part_0()[16].row_id@[11] != "appearance.glow.enabled"@[11]);
    reveal_strlit("decoration.shadow.color");
    assert(safe_rows_part_0()[18].row_id@[0] != "appearance.glow.enabled"@[0]);
    lemma_find_at(safe_rows_part_0(), "appearance.glow.enabled"@, 30);
    lemma_safe_row_by_part("appearance.glow.enabled"@);
}

proof fn lemma_lookup_animations_enabled()
    ensures
        safe_row("animations.enabled"@) == Some(safe_rows_part_0()[28]),
        safe_rows_part_0()[28] == (SafeWritableRow { row_id: "animations.enabled", official_setting: "animations.enabled", value_kind: ScalarWriteValueKind::Boolean }),
{
    reveal_strlit("animations.enabled");
    lemma_part_0_id_lengths();
    reveal_strlit("appearance.gaps_in");
    assert(safe_rows_part_0()[22].row_id@[1] != "animations.enabled"@[1]);
    lemma_find_at(safe_rows_part_0(), "animations.enabled"@, 28);
    lemma_safe_row_by_part("animations.enabled"@);
}

proof fn lemma_lookup_animations_workspace_wraparound()
    ensures
        safe_row("animations.workspace_wraparound"@) == Some(safe_rows_part_0()[29]),
        safe_rows_part_0()[29] == (SafeWritableRow { row_id: "animations.workspace_wraparound", official_setting: "animations.workspace_wraparound", value_kind: ScalarWriteValueKind::Boolean }),
{
    reveal_strlit("animations.workspace_wraparound");
    lemma_part_0_id_lengths();
    lemma_find_at(safe_rows_part_0(), "animations.workspace_wraparound"@, 29);
    lemma_safe_row_by_part("animations.workspace_wraparound"@);
}

proof fn lemma_lookup_group_groupbar_enabled()
    ensures
        safe_row("group.groupbar.enabled"@) == Some(safe_rows_part_0()[31]),
        safe_rows_part_0()[31] == (SafeWritableRow { row_id: "group.groupbar.enabled", official_setting: "group.groupbar.enabled", value_kind: ScalarWriteValueKind::Boolean }),
{
    reveal_strlit("group.groupbar.enabled");
    lemma_part_0_id_lengths();
    reveal_strlit("appearance.blur.popups");
    assert(safe_rows_part_0()[7].row_id@[0] != "group.groupbar.enabled"@[0]);
    reveal_strlit("appearance.border_size");
    assert(safe_rows_part_0()[24].row_id@[0] != "group.groupbar.enabled"@[0]);
    lemma_find_at(safe_rows_part_0(), "group.groupbar.enabled"@, 31);
    lemma_safe_row_by_part("group.groupbar.enabled"@);
}

proof fn lemma_lookup_group_groupbar_gradients()
    ensures
        safe_row("group.groupbar.gradients"@) == Some(safe_rows_part_0()[32]),
        safe_rows_part_0()[32] == (SafeWritableRow { row_id: "group.groupbar.gradients", official_setting: "group.groupbar.gradients", value_kind: ScalarWriteValueKind::Boolean }),
{
    reveal_strlit("group.groupbar.gradients");
    lemma_part_0_id_lengths();
    reveal_strlit("appearance.blur.contrast");
    assert(safe_rows_part_0()[11].row_id@[0] != "group.groupbar.gradients"@[0]);
    reveal_strlit("decoration.shadow.offset");
    assert(safe_rows_part_0()[20].row_id@[0] != "group.groupbar.gradients"@[0]);
    reveal_strlit("decoration.screen_shader");
    assert(safe_rows_part_0()[21].row_id@[0] != "group.groupbar.gradients"@[0]);
    lemma_find_at(safe_rows_part_0(), "group.groupbar.gradients"@, 32);
    lemma_safe_row_by_part("group.groupbar.gradients"@);
}

proof fn lemma_lookup_group_groupbar_stacked()
    ensures
        safe_row("group.groupbar.stacked"@) == Some(safe_rows_part_0()[33]),
        safe_rows_part_0()[33] == (SafeWritableRow { row_id: "group.groupbar.stacked", official_setting: "group.groupbar.stacked", value_kind: ScalarWriteValueKind::Boolean }),
{
    reveal_strlit("group.groupbar.stacked");
    lemma_part_0_id_lengths();
    reveal_strlit("appearance.blur.popups");
    assert(safe_rows_part_0()[7].row_id@[0] != "group.groupbar.stacked"@[0]);
    reveal_strlit("appearance.border_size");
    assert(safe_rows_part_0()[24].row_id@[0] != "group.groupbar.stacked"@[0]);
    reveal_strlit("group.groupbar.enabled");
    assert(safe_rows_part_0()[31].row_id@[15] != "group.groupbar.stacked"@[15]);
    lemma_find_at(safe_rows_part_0(), "group.groupbar.stacked"@, 33);
    lemma_safe_row_by_part("group.groupbar.stacked"@);
}

proof fn lemma_lookup_group_groupbar_render_titles()
    ensures
        safe_row("group.groupbar.render_titles"@) == Some(safe_rows_part_0()[34]),
        safe_rows_part_0()[34] == (SafeWritableRow { row_id: "group.groupbar.render_titles", official_setting: "group.groupbar.render_titles", value_kind: ScalarWriteValueKind::Boolean }),
{
    reveal_strlit("group.groupbar.render_titles");
    lemma_part_0_id_lengths();
    lemma_find_at(safe_rows_part_0(), "group.groupbar.render_titles"@, 34);
    lemma_safe_row_by_part("group.groupbar.render_titles"@);
}

proof fn lemma_lookup_group_groupbar_scrolling()
    ensures
        safe_row("group.groupbar.scrolling"@) == Some(safe_rows_part_0()[35]),
        safe_rows_part_0()[35] == (SafeWritableRow { row_id: "group.groupbar.scrolling", official_setting: "group.groupbar.scrolling", value_kind: ScalarWriteValueKind::Boolean }),
{
    reveal_strlit("group.groupbar.scrolling");
    lemma_part_0_id_lengths();
    reveal_strlit("appearance.blur.contrast");
    assert(safe_rows_part_0()[11].row_id@[0] != "group.groupbar.scrolling"@[0]);
    reveal_strlit("decoration.shadow.offset");
    assert(safe_rows_part_0()[20].row_id@[0] != "group.groupbar.scrolling"@[0]);
    reveal_strlit("decoration.screen_shader");
    assert(safe_rows_part_0()[21].row_id@[0] != "group.groupbar.scrolling"@[0]);
    reveal_strlit("group.groupbar.gradients");
    assert(safe_rows_part_0()[32].row_id@[15] != "group.groupbar.scrolling"@[15]);
    lemma_find_at(safe_rows_part_0(), "group.groupbar.scrolling"@, 35);
    lemma_safe_row_by_part("group.groupbar.scrolling"@);
}

proof fn lemma_lookup_group_groupbar_middle_click_close()
    ensures
        safe_row("group.groupbar.middle_click_close"@) == Some(safe_rows_part_0()[36]),
        safe_rows_part_0()[36] == (SafeWritableRow { row_id: "group.groupbar.middle_click_close", official_setting: "group.groupbar.middle_click_close", value_kind: ScalarWriteValueKind::Boolean }),
{
    reveal_strlit("group.groupbar.middle_click_close");
    lemma_part_0_id_lengths();
    reveal_strlit("appearance.blur.new_optimizations");
    assert(safe_rows_part_0()[5].row_id@[0] != "group.groupbar.middle_click_close"@[0]);
    lemma_find_at(safe_rows_part_0(), "group.groupbar.middle_click_close"@, 36);
    lemma_safe_row_by_part("group.groupbar.middle_click_close"@);
}

proof fn lemma_lookup_group_groupbar_round_only_edges()
    ensures
        safe_row("group.groupbar.round_only_edges"@) == Some(safe_rows_part_0()[37]),
        safe_rows_part_0()[37] == (SafeWritableRow { row_id: "group.groupbar.round_only_edges", official_setting: "group.groupbar.round_only_edges", value_kind: ScalarWriteValueKind::Boolean }),
{
    reveal_strlit("group.groupbar.round_only_edges");
    lemma_part_0_id_lengths();
    reveal_strlit("animations.workspace_wraparound");
    assert(safe_rows_part_0()[29].row_id@[0] != "group.groupbar.round_only_edges"@[0]);
    lemma_find_at(safe_rows_part_0(), "group.groupbar.round_only_edges"@, 37);
    lemma_safe_row_by_part("group.groupbar.round_only_edges"@);
}

proof fn lemma_lookup_group_groupbar_gradient_round_only_edges()
    ensures
        safe_row("group.groupbar.gradient_round_only_edges"@) == Some(safe_rows_part_0()[38]),
        safe_rows_part_0()[38] == (SafeWritableRow { row_id: "group.groupbar.gradient_round_only_edges", official_setting: "group.groupbar.gradient_round_only_edges", value_kind: ScalarWriteValueKind::Boolean }),
{
    reveal_strlit("group.groupbar.gradient_round_only_edges");
    lemma_part_0_id_lengths();
    lemma_find_at(safe_rows_part_0(), "group.groupbar.gradient_round_only_edges"@, 38);
    lemma_safe_row_by_part("group.groupbar.gradient_round_only_edges"@);
}

proof fn lemma_lookup_group_groupbar_keep_upper_gap()
    ensures
        safe_row("group.groupbar.keep_upper_gap"@) == Some(safe_rows_part_0()[39]),
        safe_rows_part_0()[39] == (SafeWritableRow { row_id: "group.groupbar.keep_upper_gap", official_setting: "group.groupbar.keep_upper_gap", value_kind: ScalarWriteValueKind::Boolean }),
{
    reveal_strlit("group.groupbar.keep_upper_gap");
    lemma_part_0_id_lengths();
    reveal_strlit("appearance.blur.input_methods");
    assert(safe_rows_part_0()[8].row_id@[0] != "group.groupbar.keep_upper_gap"@[0]);
    reveal_strlit("appearance.fullscreen_opacity");
    assert(safe_rows_part_0()[12].row_id@[0] != "group.groupbar.keep_upper_gap"@[0]);
    lemma_find_at(safe_rows_part_0(), "group.groupbar.keep_upper_gap"@, 39);
    lemma_safe_row_by_part("group.groupbar.keep_upper_gap"@);
}

proof fn lemma_lookup_group_groupbar_blur()
    ensures
        safe_row("group.groupbar.blur"@) == Some(safe_rows_part_1()[0]),
        safe_rows_part_1()[0] == (SafeWritableRow { row_id: "group.groupbar.blur", official_setting: "group.groupbar.blur", value_kind: ScalarWriteValueKind::Boolean }),
{
    reveal_strlit("group.groupbar.blur");
    lemma_part_0_id_lengths();
    lemma_part_1_id_lengths();
    reveal_strlit("appearance.gaps_out");
    assert(safe_rows_part_0()[23].row_id@[0] != "group.groupbar.blur"@[0]);
    reveal_strlit("appearance.rounding");
    assert(safe_rows_part_0()[25].row_id@[0] != "group.groupbar.blur"@[0]);
    lemma_none_when_absent(safe_rows_part_0(), "group.groupbar.blur"@);
    lemma_find_at(safe_rows_part_1(), "group.groupbar.blur"@, 0);
    lemma_safe_row_by_part("group.groupbar.blur"@);
}

proof fn lemma_lookup_misc_disable_hyprland_logo()
    ensures
        safe_row("misc.disable_hyprland_logo"@) == Some(safe_rows_part_1()[1]),
        safe_rows_part_1()[1] == (SafeWritableRow { row_id: "misc.disable_hyprland_logo", official_setting: "misc.disable_hyprland_logo", value_kind: ScalarWriteValueKind::Boolean }),
{
    reveal_strlit("misc.disable_hyprland_logo");
    lemma_part_0_id_lengths();
    lemma_part_1_id_lengths();
    reveal_strlit("appearance.blur.brightness");
    assert(safe_rows_part_0()[10].row_id@[0] != "misc.disable_hyprland_logo"@[0]);
    lemma_none_when_absent(safe_rows_part_0(), "misc.disable_hyprland_logo"@);
    lemma_find_at(safe_rows_part_1(), "misc.disable_hyprland_logo"@, 1);
    lemma_safe_row_by_part("misc.disable_hyprland_logo"@);
}

proof fn lemma_lookup_misc_disable_splash_rendering()
    ensures
        safe_row("misc.disable_splash_rendering"@) == Some(safe_rows_part_1()[2]),
        safe_rows_part_1()[2] == (SafeWritableRow { row_id: "misc.disable_splash_rendering", official_setting: "misc.disable_splash_rendering", value_kind: ScalarWriteValueKind::Boolean }),
{
    reveal_strlit("misc.disable_splash_rendering");
    lemma_part_0_id_lengths();
    lemma_part_1_id_lengths();
    reveal_strlit("appearance.blur.input_methods");
    assert(safe_rows_part_0()[8].row_id@[0] != "misc.disable_splash_rendering"@[0]);
    reveal_strlit("appearance.fullscreen_opacity");
    assert(safe_rows_part_0()[12].row_id@[0] != "misc.disable_splash_rendering"@[0]);
    reveal_strlit("group.groupbar.keep_upper_gap");
    assert(safe_rows_part_0()[39].row_id@[0] != "misc.disable_splash_rendering"@[0]);
    lemma_none_when_absent(safe_rows_part_0(), "misc.disable_splash_rendering"@);
    lemma_find_at(safe_rows_part_1(), "misc.disable_splash_rendering"@, 2);
    lemma_safe_row_by_part("misc.disable_splash_rendering"@);
}

proof fn lemma_lookup_misc_name_vk_after_proc()
    ensures
        safe_row("misc.name_vk_after_proc"@) == Some(safe_rows_part_1()[3]),
        safe_rows_part_1()[3] == (SafeWritableRow { row_id: "misc.name_vk_after_proc", official_setting: "misc.name_vk_after_proc", value_kind: ScalarWriteValueKind::Boolean }),
{
    reveal_strlit("misc.name_vk_after_proc");
    lemma_part_0_id_lengths();
    lemma_part_1_id_lengths();
    reveal_strlit("appearance.dim.inactive");
    assert(safe_rows_part_0()[1].row_id@[0] != "misc.name_vk_after_proc"@[0]);
    reveal_strlit("appearance.blur.enabled");
    assert(safe_rows_part_0()[3].row_id@[0] != "misc.name_vk_after_proc"@[0]);
    reveal_strlit("appearance.blur.special");
    assert(safe_rows_part_0()[6].row_id@[0] != "misc.name_vk_after_proc"@[0]);
    reveal_strlit("appearance.shadow.sharp");
    assert(safe_rows_part_0()[15].row_id@[0] != "misc.name_vk_after_proc"@[0]);
    reveal_strlit("appearance.shadow.range");
    assert(safe_rows_part_0()[16].row_id@[0] != "misc.name_vk_after_proc"@[0]);
    reveal_strlit("decoration.shadow.color");
    assert(safe_rows_part_0()[18].row_id@[0] != "misc.name_vk_after_proc"@[0]);
    reveal_strlit("appearance.glow.enabled");
    assert(safe_rows_part_0()[30].row_id@[0] != "misc.name_vk_after_proc"@[0]);
    lemma_none_when_absent(safe_rows_part_0(), "misc.name_vk_after_proc"@);
    lemma_find_at(safe_rows_part_1(), "misc.name_vk_after_proc"@, 3);
    lemma_safe_row_by_part("misc.name_vk_after_proc"@);
}

proof fn lemma_lookup_misc_always_follow_on_dnd()
    ensures
        safe_row("misc.always_follow_on_dnd"@) == Some(safe_rows_part_1()[4]),
        safe_rows_part_1()[4] == (SafeWritableRow { row_id: "misc.always_follow_on_dnd", official_setting: "misc.always_follow_on_dnd", value_kind: ScalarWriteValueKind::Boolean }),
{
    reveal_strlit("misc.always_follow_on_dnd");
    lemma_part_0_id_lengths();
    lemma_part_1_id_lengths();
    reveal_strlit("appearance.shadow.enabled");
    assert(safe_rows_part_0()[14].row_id@[0] != "misc.always_follow_on_dnd"@[0]);
    reveal_strlit("appearance.active_opacity");
    assert(safe_rows_part_0()[26].row_id@[0] != "misc.always_follow_on_dnd"@[0]);
    lemma_none_when_absent(safe_rows_part_0(), "misc.always_follow_on_dnd"@);
    lemma_find_at(safe_rows_part_1(), "misc.always_follow_on_dnd"@, 4);
    lemma_safe_row_by_part("misc.always_follow_on_dnd"@);
}

proof fn lemma_lookup_misc_layers_hog_keyboard_focus()
    ensures
        safe_row("misc.layers_hog_keyboard_focus"@) == Some(safe_rows_part_1()[5]),
        safe_rows_part_1()[5] == (SafeWritableRow { row_id: "misc.layers_hog_keyboard_focus", official_setting: "misc.layers_hog_keyboard_focus", value_kind: ScalarWriteValueKind::Boolean }),
{
    reveal_strlit("misc.layers_hog_keyboard_focus");
    lemma_part_0_id_lengths();
    lemma_part_1_id_lengths();
    reveal_strlit("appearance.blur.ignore_opacity");
    assert(safe_rows_part_0()[4].row_id@[0] != "misc.layers_hog_keyboard_focus"@[0]);
    reveal_strlit("appearance.shadow.render_power");
    assert(safe_rows_part_0()[17].row_id@[0] != "misc.layers_hog_keyboard_focus"@[0]);
    lemma_none_when_absent(safe_rows_part_0(), "misc.layers_hog_keyboard_focus"@);
    lemma_find_at(safe_rows_part_1(), "misc.layers_hog_keyboard_focus"@, 5);
    lemma_safe_row_by_part("misc.layers_hog_keyboard_focus"@);
}

proof fn lemma_lookup_misc_animate_manual_resizes()
    ensures
        safe_row("misc.animate_manual_resizes"@) == Some(safe_rows_part_1()[6]),
        safe_rows_part_1()[6] == (SafeWritableRow { row_id: "misc.animate_manual_resizes", official_setting: "misc.animate_manual_resizes", value_kind: ScalarWriteValueKind::Boolean }),
{
    reveal_strlit("misc.animate_manual_resizes");
    lemma_part_0_id_lengths();
    lemma_part_1_id_lengths();
    reveal_strlit("appearance.inactive_opacity");
    assert(safe_rows_part_0()[27].row_id@[0] != "misc.animate_manual_resizes"@[0]);
    lemma_none_when_absent(safe_rows_part_0(), "misc.animate_manual_resizes"@);
    lemma_find_at(safe_rows_part_1(), "misc.animate_manual_resizes"@, 6);
    lemma_safe_row_by_part("misc.animate_manual_resizes"@);
}

proof fn lemma_lookup_misc_animate_mouse_windowdragging()
    ensures
        safe_row("misc.animate_mouse_windowdragging"@) == Some(safe_rows_part_1()[7]),
        safe_rows_part_1()[7] == (SafeWritableRow { row_id: "misc.animate_mouse_windowdragging", official_setting: "misc.animate_mouse_windowdragging", value_kind: ScalarWriteValueKind::Boolean }),
{
    reveal_strlit("misc.animate_mouse_windowdragging");
    lemma_part_0_id_lengths();
    lemma_part_1_id_lengths();
    reveal_strlit("appearance.blur.new_optimizations");
    assert(safe_rows_part_0()[5].row_id@[0] != "misc.animate_mouse_windowdragging"@[0]);
    reveal_strlit("group.groupbar.middle_click_close");
    assert(safe_rows_part_0()[36].row_id@[0] != "misc.animate_mouse_windowdragging"@[0]);
    lemma_none_when_absent(safe_rows_part_0(), "misc.animate_mouse_windowdragging"@);
    lemma_find_at(safe_rows_part_1(), "misc.animate_mouse_windowdragging"@, 7);
    lemma_safe_row_by_part("misc.animate_mouse_windowdragging"@);
}

proof fn lemma_lookup_misc_enable_swallow()
    ensures
        safe_row("misc.enable_swallow"@) == Some(safe_rows_part_1()[8]),
        safe_rows_part_1()[8] == (SafeWritableRow { row_id: "misc.enable_swallow", official_setting: "misc.enable_swallow", value_kind: ScalarWriteValueKind::Boolean }),
{
    reveal_strlit("misc.enable_swallow");
    lemma_part_0_id_lengths();
    lemma_part_1_id_lengths();
    reveal_strlit("appearance.gaps_out");
    assert(safe_rows_part_0()[23].row_id@[0] != "misc.enable_swallow"@[0]);
    reveal_strlit("appearance.rounding");
    assert(safe_rows_part_0()[25].row_id@[0] != "misc.enable_swallow"@[0]);
    reveal_strlit("group.groupbar.blur");
    assert(safe_rows_part_1()[0].row_id@[0] != "misc.enable_swallow"@[0]);
    lemma_none_when_absent(safe_rows_part_0(), "misc.enable_swallow"@);
    lemma_find_at(safe_rows_part_1(), "misc.enable_swallow"@, 8);
    lemma_safe_row_by_part("misc.enable_swallow"@);
}

proof fn lemma_lookup_misc_mouse_move_focuses_monitor()
    ensures
        safe_row("misc.mouse_move_focuses_monitor"@) == Some(safe_rows_part_1()[9]),
        safe_rows_part_1()[9] == (SafeWritableRow { row_id: "misc.mouse_move_focuses_monitor", official_setting: "misc.mouse_move_focuses_monitor", value_kind: ScalarWriteValueKind::Boolean }),
{
    reveal_strlit("misc.mouse_move_focuses_monitor");
    lemma_part_0_id_lengths();
    lemma_part_1_id_lengths();
    reveal_strlit("animations.workspace_wraparound");
    assert(safe_rows_part_0()[29].row_id@[0] != "misc.mouse_move_focuses_monitor"@[0]);
    reveal_strlit("group.groupbar.round_only_edges");
    assert(safe_rows_part_0()[37].row_id@[0] != "misc.mouse_move_focuses_monitor"@[0]);
    lemma_none_when_absent(safe_rows_part_0(), "misc.mouse_move_focuses_monitor"@);
    lemma_find_at(safe_rows_part_1(), "misc.mouse_move_focuses_monitor"@, 9);
    lemma_safe_row_by_part("misc.mouse_move_focuses_monitor"@);
}

proof fn lemma_lookup_misc_close_special_on_empty()
    ensures
        safe_row("misc.close_special_on_empty"@) == Some(safe_rows_part_1()[10]),
        safe_rows_part_1()[10] == (SafeWritableRow { row_id: "misc.close_special_on_empty", official_setting: "misc.close_special_on_empty", value_kind: ScalarWriteValueKind::Boolean }),
{
    reveal_strlit("misc.close_special_on_empty");
    lemma_part_0_id_lengths();
    lemma_part_1_id_lengths();
    reveal_strlit("appearance.inactive_opacity");
    assert(safe_rows_part_0()[27].row_id@[0] != "misc.close_special_on_empty"@[0]);
    reveal_strlit("misc.animate_manual_resizes");
    assert(safe_rows_part_1()[6].row_id@[5] != "misc.close_special_on_empty"@[5]);
    lemma_none_when_absent(safe_rows_part_0(), "misc.close_special_on_empty"@);
    lemma_find_at(safe_rows_part_1(), "misc.close_special_on_empty"@, 10);
    lemma_safe_row_by_part("misc.close_special_on_empty"@);
}

proof fn lemma_lookup_misc_middle_click_paste()
    ensures
        safe_row("misc.middle_click_paste"@) == Some(safe_rows_part_1()[11]),
        safe_rows_part_1()[11] == (SafeWritableRow { row_id: "misc.middle_click_paste", official_setting: "misc.middle_click_paste", value_kind: ScalarWriteValueKind::Boolean }),
{
    reveal_strlit("misc.middle_click_paste");
    lemma_part_0_id_lengths();
    lemma_part_1_id_lengths();
    reveal_strlit("appearance.dim.inactive");
    assert(safe_rows_part_0()[1].row_id@[0] != "misc.middle_click_paste"@[0]);
    reveal_strlit("appearance.blur.enabled");
    assert(safe_rows_part_0()[3].row_id@[0] != "misc.middle_click_paste"@[0]);
    reveal_strlit("appearance.blur.special");
    assert(safe_rows_part_0()[6].row_id@[0] != "misc.middle_click_paste"@[0]);
    reveal_strlit("appearance.shadow.sharp");
    assert(safe_rows_part_0()[15].row_id@[0] != "misc.middle_click_paste"@[0]);
    reveal_strlit("appearance.shadow.range");
    assert(safe_rows_part_0()[16].row_id@[0] != "misc.middle_click_paste"@[0]);
    reveal_strlit("decoration.shadow.color");
    assert(safe_rows_part_0()[18].row_id@[0] != "misc.middle_click_paste"@[0]);
    reveal_strlit("appearance.glow.enabled");
    assert(safe_rows_part_0()[30].row_id@[0] != "misc.middle_click_paste"@[0]);
    reveal_strlit("misc.name_vk_after_proc");
    assert(safe_rows_part_1()[3].row_id@[5] != "misc.middle_click_paste"@[5]);
    lemma_none_when_absent(safe_rows_part_0(), "misc.middle_click_paste"@);
    lemma_find_at(safe_rows_part_1(), "misc.middle_click_paste"@, 11);
    lemma_safe_row_by_part("misc.middle_click_paste"@);
}

proof fn lemma_lookup_misc_disable_xdg_env_checks()
    ensures
        safe_row("misc.disable_xdg_env_checks"@) == Some(safe_rows_part_1()[12]),
        safe_rows_part_1()[12] == (SafeWritableRow { row_id: "misc.disable_xdg_env_checks", official_setting: "misc.disable_xdg_env_checks", value_kind: ScalarWriteValueKind::Boolean }),
{
    reveal_strlit("misc.disable_xdg_env_checks");
    lemma_part_0_id_lengths();
    lemma_part_1_id_lengths();
    reveal_strlit("appearance.inactive_opacity");
    assert(safe_rows_part_0()[27].row_id@[0] != "misc.disable_xdg_env_checks"@[0]);
    reveal_strlit("misc.animate_manual_resizes");
    assert(safe_rows_part_1()[6].row_id@[5] != "misc.disable_xdg_env_checks"@[5]);
    reveal_strlit("misc.close_special_on_empty");
    assert(safe_rows_part_1()[10].row_id@[5] != "misc.disable_xdg_env_checks"@[5]);
    lemma_none_when_absent(safe_rows_part_0(), "misc.disable_xdg_env_checks"@);
    lemma_find_at(safe_rows_part_1(), "misc.disable_xdg_env_checks"@, 12);
    lemma_safe_row_by_part("misc.disable_xdg_env_checks"@);
}

proof fn lemma_lookup_misc_disable_hyprland_guiutils_check()
    ensures
        safe_row("misc.disable_hyprland_guiutils_check"@) == Some(safe_rows_part_1()[13]),
        safe_rows_part_1()[13] == (SafeWritableRow { row_id: "misc.disable_hyprland_guiutils_check", official_setting: "misc.disable_hyprland_guiutils_check", value_kind: ScalarWriteValueKind::Boolean }),
{
    reveal_strlit("misc.disable_hyprland_guiutils_check");
    lemma_part_0_id_lengths();
    lemma_part_1_id_lengths();
    lemma_none_when_absent(safe_rows_part_0(), "misc.disable_hyprland_guiutils_check"@);
    lemma_find_at(safe_rows_part_1(), "misc.disable_hyprland_guiutils_check"@, 13);
    lemma_safe_row_by_part("misc.disable_hyprland_guiutils_check"@);
}

proof fn lemma_lookup_misc_disable_watchdog_warning()
    ensures
        safe_row("misc.disable_watchdog_warning"@) == Some(safe_rows_part_1()[14]),
        safe_rows_part_1()[14] == (SafeWritableRow { row_id: "misc.disable_watchdog_warning", official_setting: "misc.disable_watchdog_warning", value_kind: ScalarWriteValueKind::Boolean }),
{
    reveal_strlit("misc.disable_watchdog_warning");
    lemma_part_0_id_lengths();
    lemma_part_1_id_lengths();
    reveal_strlit("appearance.blur.input_methods");
    assert(safe_rows_part_0()[8].row_id@[0] != "misc.disable_watchdog_warning"@[0]);
    reveal_strlit("appearance.fullscreen_opacity");
    assert(safe_rows_part_0()[12].row_id@[0] != "misc.disable_watchdog_warning"@[0]);
    reveal_strlit("group.groupbar.keep_upper_gap");
    assert(safe_rows_part_0()[39].row_id@[0] != "misc.disable_watchdog_warning"@[0]);
    reveal_strlit("misc.disable_splash_rendering");
    assert(safe_rows_part_1()[2].row_id@[13] != "misc.disable_watchdog_warning"@[13]);
    lemma_none_when_absent(safe_rows_part_0(), "misc.disable_watchdog_warning"@);
    lemma_find_at(safe_rows_part_1(), "misc.disable_watchdog_warning"@, 14);
    lemma_safe_row_by_part("misc.disable_watchdog_warning"@);
}

proof fn lemma_lookup_misc_enable_anr_dialog()
    ensures
        safe_row("misc.enable_anr_dialog"@) == Some(safe_rows_part_1()[15]),
        safe_rows_part_1()[15] == (SafeWritableRow { row_id: "misc.enable_anr_dialog", official_setting: "misc.enable_anr_dialog", value_kind: ScalarWriteValueKind::Boolean }),
{
    reveal_strlit("misc.enable_anr_dialog");
    lemma_part_0_id_lengths();
    lemma_part_1_id_lengths();
    reveal_strlit("appearance.blur.popups");
    assert(safe_rows_part_0()[7].row_id@[0] != "misc.enable_anr_dialog"@[0]);
    reveal_strlit("appearance.border_size");
    assert(safe_rows_part_0()[24].row_id@[0] != "misc.enable_anr_dialog"@[0]);
    reveal_strlit("group.groupbar.enabled");
    assert(safe_rows_part_0()[31].row_id@[0] != "misc.enable_anr_dialog"@[0]);
    reveal_strlit("group.groupbar.stacked");
    assert(safe_rows_part_0()[33].row_id@[0] != "misc.enable_anr_dialog"@[0]);
    lemma_none_when_absent(safe_rows_part_0(), "misc.enable_anr_dialog"@);
    lemma_find_at(safe_rows_part_1(), "misc.enable_anr_dialog"@, 15);
    lemma_safe_row_by_part("misc.enable_anr_dialog"@);
}

proof fn lemma_lookup_misc_screencopy_force_8b()
    ensures
        safe_row("misc.screencopy_force_8b"@) == Some(safe_rows_part_1()[16]),
        safe_rows_part_1()[16] == (SafeWritableRow { row_id: "misc.screencopy_force_8b", official_setting: "misc.screencopy_force_8b", value_kind: ScalarWriteValueKind::Boolean }),
{
    reveal_strlit("misc.screencopy_force_8b");
    lemma_part_0_id_lengths();
    lemma_part_1_id_lengths();
    reveal_strlit("appearance.blur.contrast");
    assert(safe_rows_part_0()[11].row_id@[0] != "misc.screencopy_force_8b"@[0]);
    reveal_strlit("decoration.shadow.offset");
    assert(safe_rows_part_0()[20].row_id@[0] != "misc.screencopy_force_8b"@[0]);
    reveal_strlit("decoration.screen_shader");
    assert(safe_rows_part_0()[21].row_id@[0] != "misc.screencopy_force_8b"@[0]);
    reveal_strlit("group.groupbar.gradients");
    assert(safe_rows_part_0()[32].row_id@[0] != "misc.screencopy_force_8b"@[0]);
    reveal_strlit("group.groupbar.scrolling");
    assert(safe_rows_part_0()[35].row_id@[0] != "misc.screencopy_force_8b"@[0]);
    lemma_none_when_absent(safe_rows_part_0(), "misc.screencopy_force_8b"@);
    lemma_find_at(safe_rows_part_1(), "misc.screencopy_force_8b"@, 16);
    lemma_safe_row_by_part("misc.screencopy_force_8b"@);
}

proof fn lemma_lookup_misc_disable_scale_notification()
    ensures
        safe_row("misc.disable_scale_notification"@) == Some(safe_rows_part_1()[17]),
        safe_rows_part_1()[17] == (SafeWritableRow { row_id: "misc.disable_scale_notification", official_setting: "misc.disable_scale_notification", value_kind: ScalarWriteValueKind::Boolean }),
{
    reveal_strlit("misc.disable_scale_notification");
    lemma_part_0_id_lengths();
    lemma_part_1_id_lengths();
    reveal_strlit("animations.workspace_wraparound");
    assert(safe_rows_part_0()[29].row_id@[0] != "misc.disable_scale_notification"@[0]);
    reveal_strlit("group.groupbar.round_only_edges");
    assert(safe_rows_part_0()[37].row_id@[0] != "misc.disable_scale_notification"@[0]);
    reveal_strlit("misc.mouse_move_focuses_monitor");
    assert(safe_rows_part_1()[9].row_id@[5] != "misc.disable_scale_notification"@[5]);
    lemma_none_when_absent(safe_rows_part_0(), "misc.disable_scale_notification"@);
    lemma_find_at(safe_rows_part_1(), "misc.disable_scale_notification"@, 17);
    lemma_safe_row_by_part("misc.disable_scale_notification"@);
}

proof fn lemma_lookup_misc_size_limits_tiled()
    ensures
        safe_row("misc.size_limits_tiled"@) == Some(safe_rows_part_1()[18]),
        safe_rows_part_1()[18] == (SafeWritableRow { row_id: "misc.size_limits_tiled", official_setting: "misc.size_limits_tiled", value_kind: ScalarWriteValueKind::Boolean }),
{
    reveal_strlit("misc.size_limits_tiled");
    lemma_part_0_id_lengths();
    lemma_part_1_id_lengths();
    reveal_strlit("appearance.blur.popups");
    assert(safe_rows_part_0()[7].row_id@[0] != "misc.size_limits_tiled"@[0]);
    reveal_strlit("appearance.border_size");
    assert(safe_rows_part_0()[24].row_id@[0] != "misc.size_limits_tiled"@[0]);
    reveal_strlit("group.groupbar.enabled");
    assert(safe_rows_part_0()[31].row_id@[0] != "misc.size_limits_tiled"@[0]);
    reveal_strlit("group.groupbar.stacked");
    assert(safe_rows_part_0()[33].row_id@[0] != "misc.size_limits_tiled"@[0]);
    reveal_strlit("misc.enable_anr_dialog");
    assert(safe_rows_part_1()[15].row_id@[5] != "misc.size_limits_tiled"@[5]);
    lemma_none_when_absent(safe_rows_part_0(), "misc.size_limits_tiled"@);
    lemma_find_at(safe_rows_part_1(), "misc.size_limits_tiled"@, 18);
    lemma_safe_row_by_part("misc.size_limits_tiled"@);
}

proof fn lemma_lookup_windows_snap_enabled()
    ensures
        safe_row("windows.snap.enabled"@) == Some(safe_rows_part_1()[28]),
        safe_rows_part_1()[28] == (SafeWritableRow { row_id: "windows.snap.enabled", official_setting: "general.snap.enabled", value_kind: ScalarWriteValueKind::Boolean }),
{
    reveal_strlit("windows.snap.enabled");
    lemma_part_0_id_lengths();
    lemma_part_1_id_lengths();
    reveal_strlit("appearance.dim.modal");
    assert(safe_rows_part_0()[0].row_id@[0] != "windows.snap.enabled"@[0]);
    reveal_strlit("appearance.blur.size");
    assert(safe_rows_part_0()[9].row_id@[0] != "windows.snap.enabled"@[0]);
    reveal_strlit("appearance.blur.xray");
    assert(safe_rows_part_0()[13].row_id@[0] != "windows.snap.enabled"@[0]);
    lemma_none_when_absent(safe_rows_part_0(), "windows.snap.enabled"@);
    lemma_find_at(safe_rows_part_1(), "windows.snap.enabled"@, 28);
    lemma_safe_row_by_part("windows.snap.enabled"@);
}

proof fn lemma_lookup_ecosystem_no_update_news()
    ensures
        safe_row("ecosystem.no_update_news"@) == Some(safe_rows_part_6()[29]),
        safe_rows_part_6()[29] == (SafeWritableRow { row_id: "ecosystem.no_update_news", official_setting: "ecosystem.no_update_news", value_kind: ScalarWriteValueKind::Boolean }),
{
    reveal_strlit("ecosystem.no_update_news");
    lemma_part_0_id_lengths();
    lemma_part_1_id_lengths();
    lemma_part_2_id_lengths();
    lemma_part_3_id_lengths();
    lemma_part_4_id_lengths();
    lemma_part_5_id_lengths();
    lemma_part_6_id_lengths();
    reveal_strlit("appearance.blur.contrast");
    assert(safe_rows_part_0()[11].row_id@[0] != "ecosystem.no_update_news"@[0]);
    reveal_strlit("decoration.shadow.offset");
    assert(safe_rows_part_0()[20].row_id@[0] != "ecosystem.no_update_news"@[0]);
    reveal_strlit("decoration.screen_shader");
    assert(safe_rows_part_0()[21].row_id@[0] != "ecosystem.no_update_news"@[0]);
    reveal_strlit("group.groupbar.gradients");
    assert(safe_rows_part_0()[32].row_id@[0] != "ecosystem.no_update_news"@[0]);
    reveal_strlit("group.groupbar.scrolling");
    assert(safe_rows_part_0()[35].row_id@[0] != "ecosystem.no_update_news"@[0]);
    reveal_strlit("misc.screencopy_force_8b");
    assert(safe_rows_part_1()[16].row_id@[0] != "ecosystem.no_update_news"@[0]);
    reveal_strlit("windows.snap.monitor_gap");
    assert(safe_rows_part_1()[32].row_id@[0] != "ecosystem.no_update_news"@[0]);
    reveal_strlit("input.tablet.region_size");
    assert(safe_rows_part_2()[7].row_id@[0] != "ecosystem.no_update_news"@[0]);
    reveal_strlit("appearance.blur.vibrancy");
    assert(safe_rows_part_2()[39].row_id@[0] != "ecosystem.no_update_news"@[0]);
    reveal_strlit("general.resize_on_border");
    assert(safe_rows_part_3()[9].row_id@[0] != "ecosystem.no_update_news"@[0]);
    reveal_strlit("input.numlock_by_default");
    assert(safe_rows_part_3()[16].row_id@[0] != "ecosystem.no_update_news"@[0]);
    reveal_strlit("input.scroll_button_lock");
    assert(safe_rows_part_3()[24].row_id@[0] != "ecosystem.no_update_news"@[0]);
    reveal_strlit("input.touchpad.drag_lock");
    assert(safe_rows_part_4()[3].row_id@[0] != "ecosystem.no_update_news"@[0]);
    reveal_strlit("input.touchdevice.output");
    assert(safe_rows_part_4()[11].row_id@[0] != "ecosystem.no_update_news"@[0]);
    reveal_strlit("input.tablet.left_handed");
    assert(safe_rows_part_4()[18].row_id@[0] != "ecosystem.no_update_news"@[0]);
    reveal_strlit("group.groupbar.font_size");
    assert(safe_rows_part_5()[3].row_id@[0] != "ecosystem.no_update_news"@[0]);
    reveal_strlit("binds.scroll_event_delay");
    assert(safe_rows_part_5()[22].row_id@[0] != "ecosystem.no_update_news"@[0]);
    reveal_strlit("master.allow_small_split");
    assert(safe_rows_part_6()[7].row_id@[0] != "ecosystem.no_update_news"@[0]);
    lemma_none_when_absent(safe_rows_part_0(), "ecosystem.no_update_news"@);
    lemma_none_when_absent(safe_rows_part_1(), "ecosystem.no_update_news"@);
    lemma_none_when_absent(safe_rows_part_2(), "ecosystem.no_update_news"@);
    lemma_none_when_absent(safe_rows_part_3(), "ecosystem.no_update_news"@);
    lemma_none_when_absent(safe_rows_part_4(), "ecosystem.no_update_news"@);
    lemma_none_when_absent(safe_rows_part_5(), "ecosystem.no_update_news"@);
    lemma_find_at(safe_rows_part_6(), "ecosystem.no_update_news"@, 29);
    lemma_safe_row_by_part("ecosystem.no_update_news"@);
}

proof fn lemma_lookup_ecosystem_no_donation_nag()
    ensures
        safe_row("ecosystem.no_donation_nag"@) == Some(safe_rows_part_6()[30]),
        safe_rows_part_6()[30] == (SafeWritableRow { row_id: "ecosystem.no_donation_nag", official_setting: "ecosystem.no_donation_nag", value_kind: ScalarWriteValueKind::Boolean }),
{
    reveal_strlit("ecosystem.no_donation_nag");
    lemma_part_0_id_lengths();
    lemma_part_1_id_lengths();
    lemma_part_2_id_lengths();
    lemma_part_3_id_lengths();
    lemma_part_4_id_lengths();
    lemma_part_5_id_lengths();
    lemma_part_6_id_lengths();
    reveal_strlit("appearance.shadow.enabled");
    assert(safe_rows_part_0()[14].row_id@[0] != "ecosystem.no_donation_nag"@[0]);
    reveal_strlit("appearance.active_opacity");
    assert(safe_rows_part_0()[26].row_id@[0] != "ecosystem.no_donation_nag"@[0]);
    reveal_strlit("misc.always_follow_on_dnd");
    assert(safe_rows_part_1()[4].row_id@[0] != "ecosystem.no_donation_nag"@[0]);
    reveal_strlit("general.col.active_border");
    assert(safe_rows_part_1()[34].row_id@[0] != "ecosystem.no_donation_nag"@[0]);
    reveal_strlit("input.pointer_sensitivity");
    assert(safe_rows_part_2()[2].row_id@[0] != "ecosystem.no_donation_nag"@[0]);
    reveal_strlit("group.groupbar.text_color");
    assert(safe_rows_part_2()[12].row_id@[0] != "ecosystem.no_donation_nag"@[0]);
    reveal_strlit("group.col.border_inactive");
    assert(safe_rows_part_2()[18].row_id@[0] != "ecosystem.no_donation_nag"@[0]);
    reveal_strlit("group.groupbar.col.active");
    assert(safe_rows_part_2()[21].row_id@[0] != "ecosystem.no_donation_nag"@[0]);
    reveal_strlit("appearance.rounding_power");
    assert(safe_rows_part_2()[35].row_id@[0] != "ecosystem.no_donation_nag"@[0]);
    reveal_strlit("general.no_focus_fallback");
    assert(safe_rows_part_3()[8].row_id@[0] != "ecosystem.no_donation_nag"@[0]);
    reveal_strlit("general.snap.respect_gaps");
    assert(safe_rows_part_3()[14].row_id@[0] != "ecosystem.no_donation_nag"@[0]);
    reveal_strlit("input.special_fallthrough");
    assert(safe_rows_part_3()[33].row_id@[0] != "ecosystem.no_donation_nag"@[0]);
    reveal_strlit("input.follow_mouse_shrink");
    assert(safe_rows_part_3()[36].row_id@[0] != "ecosystem.no_donation_nag"@[0]);
    reveal_strlit("input.touchdevice.enabled");
    assert(safe_rows_part_4()[10].row_id@[0] != "ecosystem.no_donation_nag"@[0]);
    reveal_strlit("misc.render_unfocused_fps");
    assert(safe_rows_part_5()[18].row_id@[0] != "ecosystem.no_donation_nag"@[0]);
    reveal_strlit("binds.workspace_center_on");
    assert(safe_rows_part_5()[26].row_id@[0] != "ecosystem.no_donation_nag"@[0]);
    lemma_none_when_absent(safe_rows_part_0(), "ecosystem.no_donation_nag"@);
    lemma_none_when_absent(safe_rows_part_1(), "ecosystem.no_donation_nag"@);
    lemma_none_when_absent(safe_rows_part_2(), "ecosystem.no_donation_nag"@);
    lemma_none_when_absent(safe_rows_part_3(), "ecosystem.no_donation_nag"@);
    lemma_none_when_absent(safe_rows_part_4(), "ecosystem.no_donation_nag"@);
    lemma_none_when_absent(safe_rows_part_5(), "ecosystem.no_donation_nag"@);
    lemma_find_at(safe_rows_part_6(), "ecosystem.no_donation_nag"@, 30);
    lemma_safe_row_by_part("ecosystem.no_donation_nag"@);
}

proof fn lemma_lookup_ecosystem_enforce_permissions()
    ensures
        safe_row("ecosystem.enforce_permissions"@) == Some(safe_rows_part_6()[31]),
        safe_rows_part_6()[31] == (SafeWritableRow { row_id: "ecosystem.enforce_permissions", official_setting: "ecosystem.enforce_permissions", value_kind: ScalarWriteValueKind::Boolean }),
{
    reveal_strlit("ecosystem.enforce_permissions");
    lemma_part_0_id_lengths();
    lemma_part_1_id_lengths();
    lemma_part_2_id_lengths();
    lemma_part_3_id_lengths();
    lemma_part_4_id_lengths();
    lemma_part_5_id_lengths();
    lemma_part_6_id_lengths();
    reveal_strlit("appearance.blur.input_methods");
    assert(safe_rows_part_0()[8].row_id@[0] != "ecosystem.enforce_permissions"@[0]);
    reveal_strlit("appearance.fullscreen_opacity");
    assert(safe_rows_part_0()[12].row_id@[0] != "ecosystem.enforce_permissions"@[0]);
    reveal_strlit("group.groupbar.keep_upper_gap");
    assert(safe_rows_part_0()[39].row_id@[0] != "ecosystem.enforce_permissions"@[0]);
    reveal_strlit("misc.disable_splash_rendering");
    assert(safe_rows_part_1()[2].row_id@[0] != "ecosystem.enforce_permissions"@[0]);
    reveal_strlit("misc.disable_watchdog_warning");
    assert(safe_rows_part_1()[14].row_id@[0] != "ecosystem.enforce_permissions"@[0]);
    reveal_strlit("input.tablet.active_area_size");
    assert(safe_rows_part_2()[8].row_id@[0] != "ecosystem.enforce_permissions"@[0]);
    reveal_strlit("general.modal_parent_blocking");
    assert(safe_rows_part_3()[15].row_id@[0] != "ecosystem.enforce_permissions"@[0]);
    reveal_strlit("input.emulate_discrete_scroll");
    assert(safe_rows_part_3()[35].row_id@[0] != "ecosystem.enforce_permissions"@[0]);
    reveal_strlit("input.touchpad.natural_scroll");
    assert(safe_rows_part_3()[38].row_id@[0] != "ecosystem.enforce_permissions"@[0]);
    reveal_strlit("input.touchpad.tap_button_map");
    assert(safe_rows_part_4()[4].row_id@[0] != "ecosystem.enforce_permissions"@[0]);
    reveal_strlit("group.groupbar.rounding_power");
    assert(safe_rows_part_5()[9].row_id@[0] != "ecosystem.enforce_permissions"@[0]);
    reveal_strlit("dwindle.use_active_for_splits");
    assert(safe_rows_part_6()[3].row_id@[0] != "ecosystem.enforce_permissions"@[0]);
    reveal_strlit("master.center_master_fallback");
    assert(safe_rows_part_6()[16].row_id@[0] != "ecosystem.enforce_permissions"@[0]);
    lemma_none_when_absent(safe_rows_part_0(), "ecosystem.enforce_permissions"@);
    lemma_none_when_absent(safe_rows_part_1(), "ecosystem.enforce_permissions"@);
    lemma_none_when_absent(safe_rows_part_2(), "ecosystem.enforce_permissions"@);
    lemma_none_when_absent(safe_rows_part_3(), "ecosystem.enforce_permissions"@);
    lemma_none_when_absent(safe_rows_part_4(), "ecosystem.enforce_permissions"@);
    lemma_none_when_absent(safe_rows_part_5(), "ecosystem.enforce_permissions"@);
    lemma_find_at(safe_rows_part_6(), "ecosystem.enforce_permissions"@, 31);
    lemma_safe_row_by_part("ecosystem.enforce_permissions"@);
}

proof fn lemma_lookup_general_resize_corner()
    ensures
        safe_row("general.resize_corner"@) == Some(safe_rows_part_3()[12]),
        safe_rows_part_3()[12] == (SafeWritableRow { row_id: "general.resize_corner", official_setting: "general.resize_corner", value_kind: ScalarWriteValueKind::FiniteChoice }),
{
    reveal_strlit("general.resize_corner");
    lemma_part_0_id_lengths();
    lemma_part_1_id_lengths();
    lemma_part_2_id_lengths();
    lemma_part_3_id_lengths();
    reveal_strlit("general.allow_tearing");
    assert(safe_rows_part_1()[29].row_id@[8] != "general.resize_corner"@[8]);
    reveal_strlit("decoration.glow.color");
    assert(safe_rows_part_2()[10].row_id@[0] != "general.resize_corner"@[0]);
    reveal_strlit("misc.background_color");
    assert(safe_rows_part_2()[26].row_id@[0] != "general.resize_corner"@[0]);
    reveal_strlit("appearance.blur.noise");
    assert(safe_rows_part_2()[33].row_id@[0] != "general.resize_corner"@[0]);
    reveal_strlit("appearance.dim.around");
    assert(safe_rows_part_2()[38].row_id@[0] != "general.resize_corner"@[0]);
    reveal_strlit("appearance.glow.range");
    assert(safe_rows_part_3()[3].row_id@[0] != "general.resize_corner"@[0]);
    lemma_none_when_absent(safe_rows_part_0(), "general.resize_corner"@);
    lemma_none_when_absent(safe_rows_part_1(), "general.resize_corner"@);
    lemma_none_when_absent(safe_rows_part_2(), "general.resize_corner"@);
    lemma_find_at(safe_rows_part_3(), "general.resize_corner"@, 12);
    lemma_safe_row_by_part("general.resize_corner"@);
}

proof fn lemma_lookup_input_focus_on_close()
    ensures
        safe_row("input.focus_on_close"@) == Some(safe_rows_part_3()[30]),
        safe_rows_part_3()[30] == (SafeWritableRow { row_id: "input.focus_on_close", official_setting: "input.focus_on_close", value_kind: ScalarWriteValueKind::FiniteChoice }),
{
    reveal_strlit("input.focus_on_close");
    lemma_part_0_id_lengths();
    lemma_part_1_id_lengths();
    lemma_part_2_id_lengths();
    lemma_part_3_id_lengths();
    reveal_strlit("appearance.dim.modal");
    assert(safe_rows_part_0()[0].row_id@[0] != "input.focus_on_close"@[0]);
    reveal_strlit("appearance.blur.size");
    assert(safe_rows_part_0()[9].row_id@[0] != "input.focus_on_close"@[0]);
    reveal_strlit("appearance.blur.xray");
    assert(safe_rows_part_0()[13].row_id@[0] != "input.focus_on_close"@[0]);
    reveal_strlit("windows.snap.enabled");
    assert(safe_rows_part_1()[28].row_id@[0] != "input.focus_on_close"@[0]);
    reveal_strlit("input.force_no_accel");
    assert(safe_rows_part_3()[20].row_id@[8] != "input.focus_on_close"@[8]);
    reveal_strlit("input.natural_scroll");
    assert(safe_rows_part_3()[27].row_id@[6] != "input.focus_on_close"@[6]);
    lemma_none_when_absent(safe_rows_part_0(), "input.focus_on_close"@);
    lemma_none_when_absent(safe_rows_part_1(), "input.focus_on_close"@);
    lemma_none_when_absent(safe_rows_part_2(), "input.focus_on_close"@);
    lemma_find_at(safe_rows_part_3(), "input.focus_on_close"@, 30);
    lemma_safe_row_by_part("input.focus_on_close"@);
}

proof fn lemma_lookup_input_float_switch_override_focus()
    ensures
        safe_row("input.float_switch_override_focus"@) == Some(safe_rows_part_3()[32]),
        safe_rows_part_3()[32] == (SafeWritableRow { row_id: "input.float_switch_override_focus", official_setting: "input.float_switch_override_focus", value_kind: ScalarWriteValueKind::FiniteChoice }),
{
    reveal_strlit("input.float_switch_override_focus");
    lemma_part_0_id_lengths();
    lemma_part_1_id_lengths();
    lemma_part_2_id_lengths();
    lemma_part_3_id_lengths();
    reveal_strlit("appearance.blur.new_optimizations");
    assert(safe_rows_part_0()[5].row_id@[0] != "input.float_switch_override_focus"@[0]);
    reveal_strlit("group.groupbar.middle_click_close");
    assert(safe_rows_part_0()[36].row_id@[0] != "input.float_switch_override_focus"@[0]);
    reveal_strlit("misc.animate_mouse_windowdragging");
    assert(safe_rows_part_1()[7].row_id@[0] != "input.float_switch_override_focus"@[0]);
    reveal_strlit("general.col.nogroup_border_active");
    assert(safe_rows_part_1()[36].row_id@[0] != "input.float_switch_override_focus"@[0]);
    reveal_strlit("input.tablet.active_area_position");
    assert(safe_rows_part_2()[9].row_id@[6] != "input.float_switch_override_focus"@[6]);
    reveal_strlit("layout.single_window_aspect_ratio");
    assert(safe_rows_part_2()[31].row_id@[0] != "input.float_switch_override_focus"@[0]);
    reveal_strlit("appearance.blur.vibrancy_darkness");
    assert(safe_rows_part_3()[0].row_id@[0] != "input.float_switch_override_focus"@[0]);
    lemma_none_when_absent(safe_rows_part_0(), "input.float_switch_override_focus"@);
    lemma_none_when_absent(safe_rows_part_1(), "input.float_switch_override_focus"@);
    lemma_none_when_absent(safe_rows_part_2(), "input.float_switch_override_focus"@);
    lemma_find_at(safe_rows_part_3(), "input.float_switch_override_focus"@, 32);
    lemma_safe_row_by_part("input.float_switch_override_focus"@);
}

proof fn lemma_lookup_input_off_window_axis_events()
    ensures
        safe_row("input.off_window_axis_events"@) == Some(safe_rows_part_3()[34]),
        safe_rows_part_3()[34] == (SafeWritableRow { row_id: "input.off_window_axis_events", official_setting: "input.off_window_axis_events", value_kind: ScalarWriteValueKind::FiniteChoice }),
{
    reveal_strlit("input.off_window_axis_events");
    lemma_part_0_id_lengths();
    lemma_part_1_id_lengths();
    lemma_part_2_id_lengths();
    lemma_part_3_id_lengths();
    reveal_strlit("group.groupbar.render_titles");
    assert(safe_rows_part_0()[34].row_id@[0] != "input.off_window_axis_events"@[0]);
    reveal_strlit("misc.mouse_move_enables_dpms");
    assert(safe_rows_part_1()[20].row_id@[0] != "input.off_window_axis_events"@[0]);
    reveal_strlit("input.tablet.region_position");
    assert(safe_rows_part_2()[6].row_id@[6] != "input.off_window_axis_events"@[6]);
    reveal_strlit("misc.swallow_exception_regex");
    assert(safe_rows_part_2()[30].row_id@[0] != "input.off_window_axis_events"@[0]);
    reveal_strlit("appearance.glow.render_power");
    assert(safe_rows_part_3()[4].row_id@[0] != "input.off_window_axis_events"@[0]);
    reveal_strlit("general.hover_icon_on_border");
    assert(safe_rows_part_3()[11].row_id@[0] != "input.off_window_axis_events"@[0]);
    reveal_strlit("input.follow_mouse_threshold");
    assert(safe_rows_part_3()[28].row_id@[6] != "input.off_window_axis_events"@[6]);
    lemma_none_when_absent(safe_rows_part_0(), "input.off_window_axis_events"@);
    lemma_none_when_absent(safe_rows_part_1(), "input.off_window_axis_events"@);
    lemma_none_when_absent(safe_rows_part_2(), "input.off_window_axis_events"@);
    lemma_find_at(safe_rows_part_3(), "input.off_window_axis_events"@, 34);
    lemma_safe_row_by_part("input.off_window_axis_events"@);
}

proof fn lemma_lookup_input_emulate_discrete_scroll()
    ensures
        safe_row("input.emulate_discrete_scroll"@) == Some(safe_rows_part_3()[35]),
        safe_rows_part_3()[35] == (SafeWritableRow { row_id: "input.emulate_discrete_scroll", official_setting: "input.emulate_discrete_scroll", value_kind: ScalarWriteValueKind::FiniteChoice }),
{
    reveal_strlit("input.emulate_discrete_scroll");
    lemma_part_0_id_lengths();
    lemma_part_1_id_lengths();
    lemma_part_2_id_lengths();
    lemma_part_3_id_lengths();
    reveal_strlit("appearance.blur.input_methods");
    assert(safe_rows_part_0()[8].row_id@[0] != "input.emulate_discrete_scroll"@[0]);
    reveal_strlit("appearance.fullscreen_opacity");
    assert(safe_rows_part_0()[12].row_id@[0] != "input.emulate_discrete_scroll"@[0]);
    reveal_strlit("group.groupbar.keep_upper_gap");
    assert(safe_rows_part_0()[39].row_id@[0] != "input.emulate_discrete_scroll"@[0]);
    reveal_strlit("misc.disable_splash_rendering");
    assert(safe_rows_part_1()[2].row_id@[0] != "input.emulate_discrete_scroll"@[0]);
    reveal_strlit("misc.disable_watchdog_warning");
    assert(safe_rows_part_1()[14].row_id@[0] != "input.emulate_discrete_scroll"@[0]);
    reveal_strlit("input.tablet.active_area_size");
    assert(safe_rows_part_2()[8].row_id@[6] != "input.emulate_discrete_scroll"@[6]);
    reveal_strlit("general.modal_parent_blocking");
    assert(safe_rows_part_3()[15].row_id@[0] != "input.emulate_discrete_scroll"@[0]);
    lemma_none_when_absent(safe_rows_part_0(), "input.emulate_discrete_scroll"@);
    lemma_none_when_absent(safe_rows_part_1(), "input.emulate_discrete_scroll"@);
    lemma_none_when_absent(safe_rows_part_2(), "input.emulate_discrete_scroll"@);
    lemma_find_at(safe_rows_part_3(), "input.emulate_discrete_scroll"@, 35);
    lemma_safe_row_by_part("input.emulate_discrete_scroll"@);
}

proof fn lemma_lookup_input_touchpad_drag_lock()
    ensures
        safe_row("input.touchpad.drag_lock"@) == Some(safe_rows_part_4()[3]),
        safe_rows_part_4()[3] == (SafeWritableRow { row_id: "input.touchpad.drag_lock", official_setting: "input.touchpad.drag_lock", value_kind: ScalarWriteValueKind::FiniteChoice }),
{
    reveal_strlit("input.touchpad.drag_lock");
    lemma_part_0_id_lengths();
    lemma_part_1_id_lengths();
    lemma_part_2_id_lengths();
    lemma_part_3_id_lengths();
    lemma_part_4_id_lengths();
    reveal_strlit("appearance.blur.contrast");
    assert(safe_rows_part_0()[11].row_id@[0] != "input.touchpad.drag_lock"@[0]);
    reveal_strlit("decoration.shadow.offset");
    assert(safe_rows_part_0()[20].row_id@[0] != "input.touchpad.drag_lock"@[0]);
    reveal_strlit("decoration.screen_shader");
    assert(safe_rows_part_0()[21].row_id@[0] != "input.touchpad.drag_lock"@[0]);
    reveal_strlit("group.groupbar.gradients");
    assert(safe_rows_part_0()[32].row_id@[0] != "input.touchpad.drag_lock"@[0]);
    reveal_strlit("group.groupbar.scrolling");
    assert(safe_rows_part_0()[35].row_id@[0] != "input.touchpad.drag_lock"@[0]);
    reveal_strlit("misc.screencopy_force_8b");
    assert(safe_rows_part_1()[16].row_id@[0] != "input.touchpad.drag_lock"@[0]);
    reveal_strlit("windows.snap.monitor_gap");
    assert(safe_rows_part_1()[32].row_id@[0] != "input.touchpad.drag_lock"@[0]);
    reveal_strlit("input.tablet.region_size");
    assert(safe_rows_part_2()[7].row_id@[7] != "input.touchpad.drag_lock"@[7]);
    reveal_strlit("appearance.blur.vibrancy");
    assert(safe_rows_part_2()[39].row_id@[0] != "input.touchpad.drag_lock"@[0]);
    reveal_strlit("general.resize_on_border");
    assert(safe_rows_part_3()[9].row_id@[0] != "input.touchpad.drag_lock"@[0]);
    reveal_strlit("input.numlock_by_default");
    assert(safe_rows_part_3()[16].row_id@[6] != "input.touchpad.drag_lock"@[6]);
    reveal_strlit("input.scroll_button_lock");
    assert(safe_rows_part_3()[24].row_id@[6] != "input.touchpad.drag_lock"@[6]);
    lemma_none_when_absent(safe_rows_part_0(), "input.touchpad.drag_lock"@);
    lemma_none_when_absent(safe_rows_part_1(), "input.touchpad.drag_lock"@);
    lemma_none_when_absent(safe_rows_part_2(), "input.touchpad.drag_lock"@);
    lemma_none_when_absent(safe_rows_part_3(), "input.touchpad.drag_lock"@);
    lemma_find_at(safe_rows_part_4(), "input.touchpad.drag_lock"@, 3);
    lemma_safe_row_by_part("input.touchpad.drag_lock"@);
}

proof fn lemma_lookup_input_touchpad_drag_3fg()
    ensures
        safe_row("input.touchpad.drag_3fg"@) == Some(safe_rows_part_4()[8]),
        safe_rows_part_4()[8] == (SafeWritableRow { row_id: "input.touchpad.drag_3fg", official_setting: "input.touchpad.drag_3fg", value_kind: ScalarWriteValueKind::FiniteChoice }),
{
    reveal_strlit("input.touchpad.drag_3fg");
    lemma_part_0_id_lengths();
    lemma_part_1_id_lengths();
    lemma_part_2_id_lengths();
    lemma_part_3_id_lengths();
    lemma_part_4_id_lengths();
    reveal_strlit("appearance.dim.inactive");
    assert(safe_rows_part_0()[1].row_id@[0] != "input.touchpad.drag_3fg"@[0]);
    reveal_strlit("appearance.blur.enabled");
    assert(safe_rows_part_0()[3].row_id@[0] != "input.touchpad.drag_3fg"@[0]);
    reveal_strlit("appearance.blur.special");
    assert(safe_rows_part_0()[6].row_id@[0] != "input.touchpad.drag_3fg"@[0]);
    reveal_strlit("appearance.shadow.sharp");
    assert(safe_rows_part_0()[15].row_id@[0] != "input.touchpad.drag_3fg"@[0]);
    reveal_strlit("appearance.shadow.range");
    assert(safe_rows_part_0()[16].row_id@[0] != "input.touchpad.drag_3fg"@[0]);
    reveal_strlit("decoration.shadow.color");
    assert(safe_rows_part_0()[18].row_id@[0] != "input.touchpad.drag_3fg"@[0]);
    reveal_strlit("appearance.glow.enabled");
    assert(safe_rows_part_0()[30].row_id@[0] != "input.touchpad.drag_3fg"@[0]);
    reveal_strlit("misc.name_vk_after_proc");
    assert(safe_rows_part_1()[3].row_id@[0] != "input.touchpad.drag_3fg"@[0]);
    reveal_strlit("misc.middle_click_paste");
    assert(safe_rows_part_1()[11].row_id@[0] != "input.touchpad.drag_3fg"@[0]);
    reveal_strlit("misc.disable_autoreload");
    assert(safe_rows_part_1()[22].row_id@[0] != "input.touchpad.drag_3fg"@[0]);
    reveal_strlit("windows.snap.window_gap");
    assert(safe_rows_part_1()[31].row_id@[0] != "input.touchpad.drag_3fg"@[0]);
    reveal_strlit("group.col.border_active");
    assert(safe_rows_part_2()[17].row_id@[0] != "input.touchpad.drag_3fg"@[0]);
    reveal_strlit("misc.splash_font_family");
    assert(safe_rows_part_2()[28].row_id@[0] != "input.touchpad.drag_3fg"@[0]);
    reveal_strlit("appearance.shadow.scale");
    assert(safe_rows_part_2()[34].row_id@[0] != "input.touchpad.drag_3fg"@[0]);
    reveal_strlit("appearance.dim.strength");
    assert(safe_rows_part_2()[36].row_id@[0] != "input.touchpad.drag_3fg"@[0]);
    reveal_strlit("general.gaps_workspaces");
    assert(safe_rows_part_3()[6].row_id@[0] != "input.touchpad.drag_3fg"@[0]);
    lemma_none_when_absent(safe_rows_part_0(), "input.touchpad.drag_3fg"@);
    lemma_none_when_absent(safe_rows_part_1(), "input.touchpad.drag_3fg"@);
    lemma_none_when_absent(safe_rows_part_2(), "input.touchpad.drag_3fg"@);
    lemma_none_when_absent(safe_rows_part_3(), "input.touchpad.drag_3fg"@);
    lemma_find_at(safe_rows_part_4(), "input.touchpad.drag_3fg"@, 8);
    lemma_safe_row_by_part("input.touchpad.drag_3fg"@);
}

proof fn lemma_lookup_input_virtualkeyboard_share_states()
    ensures
        safe_row("input.virtualkeyboard.share_states"@) == Some(safe_rows_part_4()[12]),
        safe_rows_part_4()[12] == (SafeWritableRow { row_id: "input.virtualkeyboard.share_states", official_setting: "input.virtualkeyboard.share_states", value_kind: ScalarWriteValueKind::FiniteChoice }),
{
    reveal_strlit("input.virtualkeyboard.share_states");
    lemma_part_0_id_lengths();
    lemma_part_1_id_lengths();
    lemma_part_2_id_lengths();
    lemma_part_3_id_lengths();
    lemma_part_4_id_lengths();
    reveal_strlit("group.groupbar.text_color_inactive");
    assert(safe_rows_part_2()[13].row_id@[0] != "input.virtualkeyboard.share_states"@[0]);
    reveal_strlit("group.groupbar.col.locked_inactive");
    assert(safe_rows_part_2()[24].row_id@[0] != "input.virtualkeyboard.share_states"@[0]);
    reveal_strlit("appearance.blur.popups_ignorealpha");
    assert(safe_rows_part_3()[1].row_id@[0] != "input.virtualkeyboard.share_states"@[0]);
    lemma_none_when_absent(safe_rows_part_0(), "input.virtualkeyboard.share_states"@);
    lemma_none_when_absent(safe_rows_part_1(), "input.virtualkeyboard.share_states"@);
    lemma_none_when_absent(safe_rows_part_2(), "input.virtualkeyboard.share_states"@);
    lemma_none_when_absent(safe_rows_part_3(), "input.virtualkeyboard.share_states"@);
    lemma_find_at(safe_rows_part_4(), "input.virtualkeyboard.share_states"@, 12);
    lemma_safe_row_by_part("input.virtualkeyboard.share_states"@);
}

proof fn lemma_lookup_group_drag_into_group()
    ensures
        safe_row("group.drag_into_group"@) == Some(safe_rows_part_4()[38]),
        safe_rows_part_4()[38] == (SafeWritableRow { row_id: "group.drag_into_group", official_setting: "group.drag_into_group", value_kind: ScalarWriteValueKind::FiniteChoice }),
{
    reveal_strlit("group.drag_into_group");
    lemma_part_0_id_lengths();
    lemma_part_1_id_lengths();
    lemma_part_2_id_lengths();
    lemma_part_3_id_lengths();
    lemma_part_4_id_lengths();
    reveal_strlit("general.allow_tearing");
    assert(safe_rows_part_1()[29].row_id@[1] != "group.drag_into_group"@[1]);
    reveal_strlit("decoration.glow.color");
    assert(safe_rows_part_2()[10].row_id@[0] != "group.drag_into_group"@[0]);
    reveal_strlit("misc.background_color");
    assert(safe_rows_part_2()[26].row_id@[0] != "group.drag_into_group"@[0]);
    reveal_strlit("appearance.blur.noise");
    assert(safe_rows_part_2()[33].row_id@[0] != "group.drag_into_group"@[0]);
    reveal_strlit("appearance.dim.around");
    assert(safe_rows_part_2()[38].row_id@[0] != "group.drag_into_group"@[0]);
    reveal_strlit("appearance.glow.range");
    assert(safe_rows_part_3()[3].row_id@[0] != "group.drag_into_group"@[0]);
    reveal_strlit("general.resize_corner");
    assert(safe_rows_part_3()[12].row_id@[1] != "group.drag_into_group"@[1]);
    reveal_strlit("input.touchpad.flip_x");
    assert(safe_rows_part_4()[6].row_id@[0] != "group.drag_into_group"@[0]);
    reveal_strlit("input.touchpad.flip_y");
    assert(safe_rows_part_4()[7].row_id@[0] != "group.drag_into_group"@[0]);
    lemma_none_when_absent(safe_rows_part_0(), "group.drag_into_group"@);
    lemma_none_when_absent(safe_rows_part_1(), "group.drag_into_group"@);
    lemma_none_when_absent(safe_rows_part_2(), "group.drag_into_group"@);
    lemma_none_when_absent(safe_rows_part_3(), "group.drag_into_group"@);
    lemma_find_at(safe_rows_part_4(), "group.drag_into_group"@, 38);
    lemma_safe_row_by_part("group.drag_into_group"@);
}

proof fn lemma_lookup_dwindle_force_split()
    ensures
        safe_row("dwindle.force_split"@) == Some(safe_rows_part_5()[36]),
        safe_rows_part_5()[36] == (SafeWritableRow { row_id: "dwindle.force_split", official_setting: "dwindle.force_split", value_kind: ScalarWriteValueKind::FiniteChoice }),
{
    reveal_strlit("dwindle.force_split");
    lemma_part_0_id_lengths();
    lemma_part_1_id_lengths();
    lemma_part_2_id_lengths();
    lemma_part_3_id_lengths();
    lemma_part_4_id_lengths();
    lemma_part_5_id_lengths();
    reveal_strlit("appearance.gaps_out");
    assert(safe_rows_part_0()[23].row_id@[0] != "dwindle.force_split"@[0]);
    reveal_strlit("appearance.rounding");
    assert(safe_rows_part_0()[25].row_id@[0] != "dwindle.force_split"@[0]);
    reveal_strlit("group.groupbar.blur");
    assert(safe_rows_part_1()[0].row_id@[0] != "dwindle.force_split"@[0]);
    reveal_strlit("misc.enable_swallow");
    assert(safe_rows_part_1()[8].row_id@[0] != "dwindle.force_split"@[0]);
    reveal_strlit("input.accel_profile");
    assert(safe_rows_part_2()[3].row_id@[0] != "dwindle.force_split"@[0]);
    reveal_strlit("input.scroll_points");
    assert(safe_rows_part_2()[4].row_id@[0] != "dwindle.force_split"@[0]);
    reveal_strlit("input.scroll_button");
    assert(safe_rows_part_3()[23].row_id@[0] != "dwindle.force_split"@[0]);
    reveal_strlit("input.scroll_factor");
    assert(safe_rows_part_3()[25].row_id@[0] != "dwindle.force_split"@[0]);
    reveal_strlit("input.scroll_method");
    assert(safe_rows_part_3()[26].row_id@[0] != "dwindle.force_split"@[0]);
    reveal_strlit("input.mouse_refocus");
    assert(safe_rows_part_3()[31].row_id@[0] != "dwindle.force_split"@[0]);
    reveal_strlit("input.tablet.output");
    assert(safe_rows_part_4()[17].row_id@[0] != "dwindle.force_split"@[0]);
    lemma_none_when_absent(safe_rows_part_0(), "dwindle.force_split"@);
    lemma_none_when_absent(safe_rows_part_1(), "dwindle.force_split"@);
    lemma_none_when_absent(safe_rows_part_2(), "dwindle.force_split"@);
    lemma_none_when_absent(safe_rows_part_3(), "dwindle.force_split"@);
    lemma_none_when_absent(safe_rows_part_4(), "dwindle.force_split"@);
    lemma_find_at(safe_rows_part_5(), "dwindle.force_split"@, 36);
    lemma_safe_row_by_part("dwindle.force_split"@);
}

proof fn lemma_lookup_dwindle_split_bias()
    ensures
        safe_row("dwindle.split_bias"@) == Some(safe_rows_part_6()[5]),
        safe_rows_part_6()[5] == (SafeWritableRow { row_id: "dwindle.split_bias", official_setting: "dwindle.split_bias", value_kind: ScalarWriteValueKind::FiniteChoice }),
{
    reveal_strlit("dwindle.split_bias");
    lemma_part_0_id_lengths();
    lemma_part_1_id_lengths();
    lemma_part_2_id_lengths();
    lemma_part_3_id_lengths();
    lemma_part_4_id_lengths();
    lemma_part_5_id_lengths();
    lemma_part_6_id_lengths();
    reveal_strlit("appearance.gaps_in");
    assert(safe_rows_part_0()[22].row_id@[0] != "dwindle.split_bias"@[0]);
    reveal_strlit("animations.enabled");
    assert(safe_rows_part_0()[28].row_id@[0] != "dwindle.split_bias"@[0]);
    reveal_strlit("misc.swallow_regex");
    assert(safe_rows_part_2()[29].row_id@[0] != "dwindle.split_bias"@[0]);
    reveal_strlit("general.float_gaps");
    assert(safe_rows_part_3()[5].row_id@[0] != "dwindle.split_bias"@[0]);
    reveal_strlit("input.repeat_delay");
    assert(safe_rows_part_3()[19].row_id@[0] != "dwindle.split_bias"@[0]);
    reveal_strlit("input.follow_mouse");
    assert(safe_rows_part_3()[29].row_id@[0] != "dwindle.split_bias"@[0]);
    lemma_none_when_absent(safe_rows_part_0(), "dwindle.split_bias"@);
    lemma_none_when_absent(safe_rows_part_1(), "dwindle.split_bias"@);
    lemma_none_when_absent(safe_rows_part_2(), "dwindle.split_bias"@);
    lemma_none_when_absent(safe_rows_part_3(), "dwindle.split_bias"@);
    lemma_none_when_absent(safe_rows_part_4(), "dwindle.split_bias"@);
    lemma_none_when_absent(safe_rows_part_5(), "dwindle.split_bias"@);
    lemma_find_at(safe_rows_part_6(), "dwindle.split_bias"@, 5);
    lemma_safe_row_by_part("dwindle.split_bias"@);
}

proof fn lemma_lookup_scrolling_focus_fit_method()
    ensures
        safe_row("scrolling.focus_fit_method"@) == Some(safe_rows_part_6()[21]),
        safe_rows_part_6()[21] == (SafeWritableRow { row_id: "scrolling.focus_fit_method", official_setting: "scrolling.focus_fit_method", value_kind: ScalarWriteValueKind::FiniteChoice }),
{
    reveal_strlit("scrolling.focus_fit_method");
    lemma_part_0_id_lengths();
    lemma_part_1_id_lengths();
    lemma_part_2_id_lengths();
    lemma_part_3_id_lengths();
    lemma_part_4_id_lengths();
    lemma_part_5_id_lengths();
    lemma_part_6_id_lengths();
    reveal_strlit("appearance.blur.brightness");
    assert(safe_rows_part_0()[10].row_id@[0] != "scrolling.focus_fit_method"@[0]);
    reveal_strlit("misc.disable_hyprland_logo");
    assert(safe_rows_part_1()[1].row_id@[0] != "scrolling.focus_fit_method"@[0]);
    reveal_strlit("general.col.nogroup_border");
    assert(safe_rows_part_1()[35].row_id@[0] != "scrolling.focus_fit_method"@[0]);
    reveal_strlit("group.groupbar.font_family");
    assert(safe_rows_part_2()[16].row_id@[0] != "scrolling.focus_fit_method"@[0]);
    reveal_strlit("input.resolve_binds_by_sym");
    assert(safe_rows_part_3()[17].row_id@[0] != "scrolling.focus_fit_method"@[0]);
    reveal_strlit("gestures.close_max_timeout");
    assert(safe_rows_part_4()[30].row_id@[0] != "scrolling.focus_fit_method"@[0]);
    reveal_strlit("group.insert_after_current");
    assert(safe_rows_part_4()[33].row_id@[0] != "scrolling.focus_fit_method"@[0]);
    reveal_strlit("group.focus_removed_window");
    assert(safe_rows_part_4()[34].row_id@[0] != "scrolling.focus_fit_method"@[0]);
    reveal_strlit("group.merge_groups_on_drag");
    assert(safe_rows_part_4()[35].row_id@[0] != "scrolling.focus_fit_method"@[0]);
    reveal_strlit("group.groupbar.text_offset");
    assert(safe_rows_part_5()[14].row_id@[0] != "scrolling.focus_fit_method"@[0]);
    reveal_strlit("misc.lockdead_screen_delay");
    assert(safe_rows_part_5()[19].row_id@[0] != "scrolling.focus_fit_method"@[0]);
    reveal_strlit("binds.allow_pin_fullscreen");
    assert(safe_rows_part_5()[34].row_id@[0] != "scrolling.focus_fit_method"@[0]);
    reveal_strlit("dwindle.precise_mouse_move");
    assert(safe_rows_part_6()[6].row_id@[0] != "scrolling.focus_fit_method"@[0]);
    lemma_none_when_absent(safe_rows_part_0(), "scrolling.focus_fit_method"@);
    lemma_none_when_absent(safe_rows_part_1(), "scrolling.focus_fit_method"@);
    lemma_none_when_absent(safe_rows_part_2(), "scrolling.focus_fit_method"@);
    lemma_none_when_absent(safe_rows_part_3(), "scrolling.focus_fit_method"@);
    lemma_none_when_absent(safe_rows_part_4(), "scrolling.focus_fit_method"@);
    lemma_none_when_absent(safe_rows_part_5(), "scrolling.focus_fit_method"@);
    lemma_find_at(safe_rows_part_6(), "scrolling.focus_fit_method"@, 21);
    lemma_safe_row_by_part("scrolling.focus_fit_method"@);
}

proof fn lemma_lookup_layout_selection()
    ensures
        safe_row("layout.selection"@) == Some(safe_rows_part_3()[7]),
        safe_rows_part_3()[7] == (SafeWritableRow { row_id: "layout.selection", official_setting: "general.layout", value_kind: ScalarWriteValueKind::FiniteChoice }),
{
    reveal_strlit("layout.selection");
    lemma_part_0_id_lengths();
    lemma_part_1_id_lengths();
    lemma_part_2_id_lengths();
    lemma_part_3_id_lengths();
    reveal_strlit("input.kb_variant");
    assert(safe_rows_part_1()[39].row_id@[0] != "layout.selection"@[0]);
    reveal_strlit("input.kb_options");
    assert(safe_rows_part_2()[0].row_id@[0] != "layout.selection"@[0]);
    reveal_strlit("misc.font_family");
    assert(safe_rows_part_2()[27].row_id@[0] != "layout.selection"@[0]);
    lemma_none_when_absent(safe_rows_part_0(), "layout.selection"@);
    lemma_none_when_absent(safe_rows_part_1(), "layout.selection"@);
    lemma_none_when_absent(safe_rows_part_2(), "layout.selection"@);
    lemma_find_at(safe_rows_part_3(), "layout.selection"@, 7);
    lemma_safe_row_by_part("layout.selection"@);
}

proof fn lemma_lookup_input_follow_mouse()
    ensures
        safe_row("input.follow_mouse"@) == Some(safe_rows_part_3()[29]),
        safe_rows_part_3()[29] == (SafeWritableRow { row_id: "input.follow_mouse", official_setting: "input.follow_mouse", value_kind: ScalarWriteValueKind::FiniteChoice }),
{
    reveal_strlit("input.follow_mouse");
    lemma_part_0_id_lengths();
    lemma_part_1_id_lengths();
    lemma_part_2_id_lengths();
    lemma_part_3_id_lengths();
    reveal_strlit("appearance.gaps_in");
    assert(safe_rows_part_0()[22].row_id@[0] != "input.follow_mouse"@[0]);
    reveal_strlit("animations.enabled");
    assert(safe_rows_part_0()[28].row_id@[0] != "input.follow_mouse"@[0]);
    reveal_strlit("misc.swallow_regex");
    assert(safe_rows_part_2()[29].row_id@[0] != "input.follow_mouse"@[0]);
    reveal_strlit("general.float_gaps");
    assert(safe_rows_part_3()[5].row_id@[0] != "input.follow_mouse"@[0]);
    reveal_strlit("input.repeat_delay");
    assert(safe_rows_part_3()[19].row_id@[6] != "input.follow_mouse"@[6]);
    lemma_none_when_absent(safe_rows_part_0(), "input.follow_mouse"@);
    lemma_none_when_absent(safe_rows_part_1(), "input.follow_mouse"@);
    lemma_none_when_absent(safe_rows_part_2(), "input.follow_mouse"@);
    lemma_find_at(safe_rows_part_3(), "input.follow_mouse"@, 29);
    lemma_safe_row_by_part("input.follow_mouse"@);
}

proof fn lemma_lookup_input_scroll_method()
    ensures
        safe_row("input.scroll_method"@) == Some(safe_rows_part_3()[26]),
        safe_rows_part_3()[26] == (SafeWritableRow { row_id: "input.scroll_method", official_setting: "input.scroll_method", value_kind: ScalarWriteValueKind::FiniteChoice }),
{
    reveal_strlit("input.scroll_method");
    lemma_part_0_id_lengths();
    lemma_part_1_id_lengths();
    lemma_part_2_id_lengths();
    lemma_part_3_id_lengths();
    reveal_strlit("appearance.gaps_out");
    assert(safe_rows_part_0()[23].row_id@[0] != "input.scroll_method"@[0]);
    reveal_strlit("appearance.rounding");
    assert(safe_rows_part_0()[25].row_id@[0] != "input.scroll_method"@[0]);
    reveal_strlit("group.groupbar.blur");
    assert(safe_rows_part_1()[0].row_id@[0] != "input.scroll_method"@[0]);
    reveal_strlit("misc.enable_swallow");
    assert(safe_rows_part_1()[8].row_id@[0] != "input.scroll_method"@[0]);
    reveal_strlit("input.accel_profile");
    assert(safe_rows_part_2()[3].row_id@[6] != "input.scroll_method"@[6]);
    reveal_strlit("input.scroll_points");
    assert(safe_rows_part_2()[4].row_id@[13] != "input.scroll_method"@[13]);
    reveal_strlit("input.scroll_button");
    assert(safe_rows_part_3()[23].row_id@[13] != "input.scroll_method"@[13]);
    reveal_strlit("input.scroll_factor");
    assert(safe_rows_part_3()[25].row_id@[13] != "input.scroll_method"@[13]);
    lemma_none_when_absent(safe_rows_part_0(), "input.scroll_method"@);
    lemma_none_when_absent(safe_rows_part_1(), "input.scroll_method"@);
    lemma_none_when_absent(safe_rows_part_2(), "input.scroll_method"@);
    lemma_find_at(safe_rows_part_3(), "input.scroll_method"@, 26);
    lemma_safe_row_by_part("input.scroll_method"@);
}

proof fn lemma_lookup_input_touchpad_tap_button_map()
    ensures
        safe_row("input.touchpad.tap_button_map"@) == Some(safe_rows_part_4()[4]),
        safe_rows_part_4()[4] == (SafeWritableRow { row_id: "input.touchpad.tap_button_map", official_setting: "input.touchpad.tap_button_map", value_kind: ScalarWriteValueKind::FiniteChoice }),
{
    reveal_strlit("input.touchpad.tap_button_map");
    lemma_part_0_id_lengths();
    lemma_part_1_id_lengths();
    lemma_part_2_id_lengths();
    lemma_part_3_id_lengths();
    lemma_part_4_id_lengths();
    reveal_strlit("appearance.blur.input_methods");
    assert(safe_rows_part_0()[8].row_id@[0] != "input.touchpad.tap_button_map"@[0]);
    reveal_strlit("appearance.fullscreen_opacity");
    assert(safe_rows_part_0()[12].row_id@[0] != "input.touchpad.tap_button_map"@[0]);
    reveal_strlit("group.groupbar.keep_upper_gap");
    assert(safe_rows_part_0()[39].row_id@[0] != "input.touchpad.tap_button_map"@[0]);
    reveal_strlit("misc.disable_splash_rendering");
    assert(safe_rows_part_1()[2].row_id@[0] != "input.touchpad.tap_button_map"@[0]);
    reveal_strlit("misc.disable_watchdog_warning");
    assert(safe_rows_part_1()[14].row_id@[0] != "input.touchpad.tap_button_map"@[0]);
    reveal_strlit("input.tablet.active_area_size");
    assert(safe_rows_part_2()[8].row_id@[7] != "input.touchpad.tap_button_map"@[7]);
    reveal_strlit("general.modal_parent_blocking");
    assert(safe_rows_part_3()[15].row_id@[0] != "input.touchpad.tap_button_map"@[0]);
    reveal_strlit("input.emulate_discrete_scroll");
    assert(safe_rows_part_3()[35].row_id@[6] != "input.touchpad.tap_button_map"@[6]);
    reveal_strlit("input.touchpad.natural_scroll");
    assert(safe_rows_part_3()[38].row_id@[15] != "input.touchpad.tap_button_map"@[15]);
    lemma_none_when_absent(safe_rows_part_0(), "input.touchpad.tap_button_map"@);
    lemma_none_when_absent(safe_rows_part_1(), "input.touchpad.tap_button_map"@);
    lemma_none_when_absent(safe_rows_part_2(), "input.touchpad.tap_button_map"@);
    lemma_none_when_absent(safe_rows_part_3(), "input.touchpad.tap_button_map"@);
    lemma_find_at(safe_rows_part_4(), "input.touchpad.tap_button_map"@, 4);
    lemma_safe_row_by_part("input.touchpad.tap_button_map"@);
}

proof fn lemma_lookup_master_new_status()
    ensures
        safe_row("master.new_status"@) == Some(safe_rows_part_6()[11]),
        safe_rows_part_6()[11] == (SafeWritableRow { row_id: "master.new_status", official_setting: "master.new_status", value_kind: ScalarWriteValueKind::FiniteChoice }),
{
    reveal_strlit("master.new_status");
    lemma_part_0_id_lengths();
    lemma_part_1_id_lengths();
    lemma_part_2_id_lengths();
    lemma_part_3_id_lengths();
    lemma_part_4_id_lengths();
    lemma_part_5_id_lengths();
    lemma_part_6_id_lengths();
    reveal_strlit("input.repeat_rate");
    assert(safe_rows_part_3()[18].row_id@[0] != "master.new_status"@[0]);
    reveal_strlit("input.left_handed");
    assert(safe_rows_part_3()[22].row_id@[0] != "master.new_status"@[0]);
    reveal_strlit("master.new_on_top");
    assert(safe_rows_part_6()[10].row_id@[11] != "master.new_status"@[11]);
    lemma_none_when_absent(safe_rows_part_0(), "master.new_status"@);
    lemma_none_when_absent(safe_rows_part_1(), "master.new_status"@);
    lemma_none_when_absent(safe_rows_part_2(), "master.new_status"@);
    lemma_none_when_absent(safe_rows_part_3(), "master.new_status"@);
    lemma_none_when_absent(safe_rows_part_4(), "master.new_status"@);
    lemma_none_when_absent(safe_rows_part_5(), "master.new_status"@);
    lemma_find_at(safe_rows_part_6(), "master.new_status"@, 11);
    lemma_safe_row_by_part("master.new_status"@);
}

proof fn lemma_lookup_master_new_on_active()
    ensures
        safe_row("master.new_on_active"@) == Some(safe_rows_part_6()[12]),
        safe_rows_part_6()[12] == (SafeWritableRow { row_id: "master.new_on_active", official_setting: "master.new_on_active", value_kind: ScalarWriteValueKind::FiniteChoice }),
{
    reveal_strlit("master.new_on_active");
    lemma_part_0_id_lengths();
    lemma_part_1_id_lengths();
    lemma_part_2_id_lengths();
    lemma_part_3_id_lengths();
    lemma_part_4_id_lengths();
    lemma_part_5_id_lengths();
    lemma_part_6_id_lengths();
    reveal_strlit("appearance.dim.modal");
    assert(safe_rows_part_0()[0].row_id@[0] != "master.new_on_active"@[0]);
    reveal_strlit("appearance.blur.size");
    assert(safe_rows_part_0()[9].row_id@[0] != "master.new_on_active"@[0]);
    reveal_strlit("appearance.blur.xray");
    assert(safe_rows_part_0()[13].row_id@[0] != "master.new_on_active"@[0]);
    reveal_strlit("windows.snap.enabled");
    assert(safe_rows_part_1()[28].row_id@[0] != "master.new_on_active"@[0]);
    reveal_strlit("input.force_no_accel");
    assert(safe_rows_part_3()[20].row_id@[0] != "master.new_on_active"@[0]);
    reveal_strlit("input.natural_scroll");
    assert(safe_rows_part_3()[27].row_id@[0] != "master.new_on_active"@[0]);
    reveal_strlit("input.focus_on_close");
    assert(safe_rows_part_3()[30].row_id@[0] != "master.new_on_active"@[0]);
    reveal_strlit("binds.drag_threshold");
    assert(safe_rows_part_5()[33].row_id@[0] != "master.new_on_active"@[0]);
    lemma_none_when_absent(safe_rows_part_0(), "master.new_on_active"@);
    lemma_none_when_absent(safe_rows_part_1(), "master.new_on_active"@);
    lemma_none_when_absent(safe_rows_part_2(), "master.new_on_active"@);
    lemma_none_when_absent(safe_rows_part_3(), "master.new_on_active"@);
    lemma_none_when_absent(safe_rows_part_4(), "master.new_on_active"@);
    lemma_none_when_absent(safe_rows_part_5(), "master.new_on_active"@);
    lemma_find_at(safe_rows_part_6(), "master.new_on_active"@, 12);
    lemma_safe_row_by_part("master.new_on_active"@);
}

proof fn lemma_lookup_master_orientation()
    ensures
        safe_row("master.orientation"@) == Some(safe_rows_part_6()[13]),
        safe_rows_part_6()[13] == (SafeWritableRow { row_id: "master.orientation", official_setting: "master.orientation", value_kind: ScalarWriteValueKind::FiniteChoice }),
{
    reveal_strlit("master.orientation");
    lemma_part_0_id_lengths();
    lemma_part_1_id_lengths();
    lemma_part_2_id_lengths();
    lemma_part_3_id_lengths();
    lemma_part_4_id_lengths();
    lemma_part_5_id_lengths();
    lemma_part_6_id_lengths();
    reveal_strlit("appearance.gaps_in");
    assert(safe_rows_part_0()[22].row_id@[0] != "master.orientation"@[0]);
    reveal_strlit("animations.enabled");
    assert(safe_rows_part_0()[28].row_id@[0] != "master.orientation"@[0]);
    reveal_strlit("misc.swallow_regex");
    assert(safe_rows_part_2()[29].row_id@[1] != "master.orientation"@[1]);
    reveal_strlit("general.float_gaps");
    assert(safe_rows_part_3()[5].row_id@[0] != "master.orientation"@[0]);
    reveal_strlit("input.repeat_delay");
    assert(safe_rows_part_3()[19].row_id@[0] != "master.orientation"@[0]);
    reveal_strlit("input.follow_mouse");
    assert(safe_rows_part_3()[29].row_id@[0] != "master.orientation"@[0]);
    reveal_strlit("dwindle.split_bias");
    assert(safe_rows_part_6()[5].row_id@[0] != "master.orientation"@[0]);
    lemma_none_when_absent(safe_rows_part_0(), "master.orientation"@);
    lemma_none_when_absent(safe_rows_part_1(), "master.orientation"@);
    lemma_none_when_absent(safe_rows_part_2(), "master.orientation"@);
    lemma_none_when_absent(safe_rows_part_3(), "master.orientation"@);
    lemma_none_when_absent(safe_rows_part_4(), "master.orientation"@);
    lemma_none_when_absent(safe_rows_part_5(), "master.orientation"@);
    lemma_find_at(safe_rows_part_6(), "master.orientation"@, 13);
    lemma_safe_row_by_part("master.orientation"@);
}

proof fn lemma_lookup_scrolling_direction()
    ensures
        safe_row("scrolling.direction"@) == Some(safe_rows_part_6()[27]),
        safe_rows_part_6()[27] == (SafeWritableRow { row_id: "scrolling.direction", official_setting: "scrolling.direction", value_kind: ScalarWriteValueKind::FiniteChoice }),
{
    reveal_strlit("scrolling.direction");
    lemma_part_0_id_lengths();
    lemma_part_1_id_lengths();
    lemma_part_2_id_lengths();
    lemma_part_3_id_lengths();
    lemma_part_4_id_lengths();
    lemma_part_5_id_lengths();
    lemma_part_6_id_lengths();
    reveal_strlit("appearance.gaps_out");
    assert(safe_rows_part_0()[23].row_id@[0] != "scrolling.direction"@[0]);
    reveal_strlit("appearance.rounding");
    assert(safe_rows_part_0()[25].row_id@[0] != "scrolling.direction"@[0]);
    reveal_strlit("group.groupbar.blur");
    assert(safe_rows_part_1()[0].row_id@[0] != "scrolling.direction"@[0]);
    reveal_strlit("misc.enable_swallow");
    assert(safe_rows_part_1()[8].row_id@[0] != "scrolling.direction"@[0]);
    reveal_strlit("input.accel_profile");
    assert(safe_rows_part_2()[3].row_id@[0] != "scrolling.direction"@[0]);
    reveal_strlit("input.scroll_points");
    assert(safe_rows_part_2()[4].row_id@[0] != "scrolling.direction"@[0]);
    reveal_strlit("input.scroll_button");
    assert(safe_rows_part_3()[23].row_id@[0] != "scrolling.direction"@[0]);
    reveal_strlit("input.scroll_factor");
    assert(safe_rows_part_3()[25].row_id@[0] != "scrolling.direction"@[0]);
    reveal_strlit("input.scroll_method");
    assert(safe_rows_part_3()[26].row_id@[0] != "scrolling.direction"@[0]);
    reveal_strlit("input.mouse_refocus");
    assert(safe_rows_part_3()[31].row_id@[0] != "scrolling.direction"@[0]);
    reveal_strlit("input.tablet.output");
    assert(safe_rows_part_4()[17].row_id@[0] != "scrolling.direction"@[0]);
    reveal_strlit("dwindle.force_split");
    assert(safe_rows_part_5()[36].row_id@[0] != "scrolling.direction"@[0]);
    reveal_strlit("dwindle.smart_split");
    assert(safe_rows_part_5()[38].row_id@[0] != "scrolling.direction"@[0]);
    lemma_none_when_absent(safe_rows_part_0(), "scrolling.direction"@);
    lemma_none_when_absent(safe_rows_part_1(), "scrolling.direction"@);
    lemma_none_when_absent(safe_rows_part_2(), "scrolling.direction"@);
    lemma_none_when_absent(safe_rows_part_3(), "scrolling.direction"@);
    lemma_none_when_absent(safe_rows_part_4(), "scrolling.direction"@);
    lemma_none_when_absent(safe_rows_part_5(), "scrolling.direction"@);
    lemma_find_at(safe_rows_part_6(), "scrolling.direction"@, 27);
    lemma_safe_row_by_part("scrolling.direction"@);
}

proof fn lemma_lookup_master_center_master_fallback()
    ensures
        safe_row("master.center_master_fallback"@) == Some(safe_rows_part_6()[16]),
        safe_rows_part_6()[16] == (SafeWritableRow { row_id: "master.center_master_fallback", official_setting: "master.center_master_fallback", value_kind: ScalarWriteValueKind::FiniteChoice }),
{
    reveal_strlit("master.center_master_fallback");
    lemma_part_0_id_lengths();
    lemma_part_1_id_lengths();
    lemma_part_2_id_lengths();
    lemma_part_3_id_lengths();
    lemma_part_4_id_lengths();
    lemma_part_5_id_lengths();
    lemma_part_6_id_lengths();
    reveal_strlit("appearance.blur.input_methods");
    assert(safe_rows_part_0()[8].row_id@[0] != "master.center_master_fallback"@[0]);
    reveal_strlit("appearance.fullscreen_opacity");
    assert(safe_rows_part_0()[12].row_id@[0] != "master.center_master_fallback"@[0]);
    reveal_strlit("group.groupbar.keep_upper_gap");
    assert(safe_rows_part_0()[39].row_id@[0] != "master.center_master_fallback"@[0]);
    reveal_strlit("misc.disable_splash_rendering");
    assert(safe_rows_part_1()[2].row_id@[1] != "master.center_master_fallback"@[1]);
    reveal_strlit("misc.disable_watchdog_warning");
    assert(safe_rows_part_1()[14].row_id@[1] != "master.center_master_fallback"@[1]);
    reveal_strlit("input.tablet.active_area_size");
    assert(safe_rows_part_2()[8].row_id@[0] != "master.center_master_fallback"@[0]);
    reveal_strlit("general.modal_parent_blocking");
    assert(safe_rows_part_3()[15].row_id@[0] != "master.center_master_fallback"@[0]);
    reveal_strlit("input.emulate_discrete_scroll");
    assert(safe_rows_part_3()[35].row_id@[0] != "master.center_master_fallback"@[0]);
    reveal_strlit("input.touchpad.natural_scroll");
    assert(safe_rows_part_3()[38].row_id@[0] != "master.center_master_fallback"@[0]);
    reveal_strlit("input.touchpad.tap_button_map");
    assert(safe_rows_part_4()[4].row_id@[0] != "master.center_master_fallback"@[0]);
    reveal_strlit("group.groupbar.rounding_power");
    assert(safe_rows_part_5()[9].row_id@[0] != "master.center_master_fallback"@[0]);
    reveal_strlit("dwindle.use_active_for_splits");
    assert(safe_rows_part_6()[3].row_id@[0] != "master.center_master_fallback"@[0]);
    lemma_none_when_absent(safe_rows_part_0(), "master.center_master_fallback"@);
    lemma_none_when_absent(safe_rows_part_1(), "master.center_master_fallback"@);
    lemma_none_when_absent(safe_rows_part_2(), "master.center_master_fallback"@);
    lemma_none_when_absent(safe_rows_part_3(), "master.center_master_fallback"@);
    lemma_none_when_absent(safe_rows_part_4(), "master.center_master_fallback"@);
    lemma_none_when_absent(safe_rows_part_5(), "master.center_master_fallback"@);
    lemma_find_at(safe_rows_part_6(), "master.center_master_fallback"@, 16);
    lemma_safe_row_by_part("master.center_master_fallback"@);
}

proof fn lemma_lookup_misc_vrr()
    ensures
        safe_row("misc.vrr"@) == Some(safe_rows_part_1()[19]),
        safe_rows_part_1()[19] == (SafeWritableRow { row_id: "misc.vrr", official_setting: "misc.vrr", value_kind: ScalarWriteValueKind::FiniteChoice }),
{
    reveal_strlit("misc.vrr");
    lemma_part_0_id_lengths();
    lemma_part_1_id_lengths();
    lemma_none_when_absent(safe_rows_part_0(), "misc.vrr"@);
    lemma_find_at(safe_rows_part_1(), "misc.vrr"@, 19);
    lemma_safe_row_by_part("misc.vrr"@);
}

proof fn lemma_lookup_misc_on_focus_under_fullscreen()
    ensures
        safe_row("misc.on_focus_under_fullscreen"@) == Some(safe_rows_part_1()[26]),
        safe_rows_part_1()[26] == (SafeWritableRow { row_id: "misc.on_focus_under_fullscreen", official_setting: "misc.on_focus_under_fullscreen", value_kind: ScalarWriteValueKind::FiniteChoice }),
{
    reveal_strlit("misc.on_focus_under_fullscreen");
    lemma_part_0_id_lengths();
    lemma_part_1_id_lengths();
    reveal_strlit("appearance.blur.ignore_opacity");
    assert(safe_rows_part_0()[4].row_id@[0] != "misc.on_focus_under_fullscreen"@[0]);
    reveal_strlit("appearance.shadow.render_power");
    assert(safe_rows_part_0()[17].row_id@[0] != "misc.on_focus_under_fullscreen"@[0]);
    reveal_strlit("misc.layers_hog_keyboard_focus");
    assert(safe_rows_part_1()[5].row_id@[5] != "misc.on_focus_under_fullscreen"@[5]);
    lemma_none_when_absent(safe_rows_part_0(), "misc.on_focus_under_fullscreen"@);
    lemma_find_at(safe_rows_part_1(), "misc.on_focus_under_fullscreen"@, 26);
    lemma_safe_row_by_part("misc.on_focus_under_fullscreen"@);
}

/// Every boolean toggle row is on the safe write allowlist, under its own
/// id, with its official setting and the boolean value kind.
pub proof fn law_toggle_rows_are_allowlisted()
    ensures
        forall|i: int| #![trigger spec_safe_writable_toggle_rows()[i]]
            0 <= i < spec_safe_writable_toggle_rows().len() ==> safe_row(
                spec_safe_writable_toggle_rows()[i].0@,
            ) == Some(
                SafeWritableRow {
                    row_id: spec_safe_writable_toggle_rows()[i].0,
                    official_setting: spec_safe_writable_toggle_rows()[i].1,
                    value_kind: ScalarWriteValueKind::Boolean,
                },
            ),
{
    lemma_lookup_appearance_dim_modal();
    lemma_lookup_appearance_dim_inactive();
    lemma_lookup_appearance_border_part_of_window();
    lemma_lookup_appearance_blur_enabled();
    lemma_lookup_appearance_blur_ignore_opacity();
    lemma_lookup_appearance_blur_new_optimizations();
    lemma_lookup_appearance_blur_special();
    lemma_lookup_appearance_blur_popups();
    lemma_lookup_appearance_blur_input_methods();
    lemma_lookup_appearance_shadow_enabled();
    lemma_lookup_appearance_shadow_sharp();
    lemma_lookup_appearance_glow_enabled();
    lemma_lookup_animations_enabled();
    lemma_lookup_animations_workspace_wraparound();
    lemma_lookup_group_groupbar_enabled();
    lemma_lookup_group_groupbar_gradients();
    lemma_lookup_group_groupbar_stacked();
    lemma_lookup_group_groupbar_render_titles();
    lemma_lookup_group_groupbar_scrolling();
    lemma_lookup_group_groupbar_middle_click_close();
    lemma_lookup_group_groupbar_round_only_edges();
    lemma_lookup_group_groupbar_gradient_round_only_edges();
    lemma_lookup_group_groupbar_keep_upper_gap();
    lemma_lookup_group_groupbar_blur();
    lemma_lookup_misc_disable_hyprland_logo();
    lemma_lookup_misc_disable_splash_rendering();
    lemma_lookup_misc_name_vk_after_proc();
    lemma_lookup_misc_always_follow_on_dnd();
    lemma_lookup_misc_layers_hog_keyboard_focus();
    lemma_lookup_misc_animate_manual_resizes();
    lemma_lookup_misc_animate_mouse_windowdragging();
    lemma_lookup_misc_enable_swallow();
    lemma_lookup_misc_mouse_move_focuses_monitor();
    lemma_lookup_misc_close_special_on_empty();
    lemma_lookup_misc_middle_click_paste();
    lemma_lookup_misc_disable_xdg_env_checks();
    lemma_lookup_misc_disable_hyprland_guiutils_check();
    lemma_lookup_misc_disable_watchdog_warning();
    lemma_lookup_misc_enable_anr_dialog();
    lemma_lookup_misc_screencopy_force_8b();
    lemma_lookup_misc_disable_scale_notification();
    lemma_lookup_misc_size_limits_tiled();
    lemma_lookup_windows_snap_enabled();
}

/// The allowlist lookup finds only rows with the id looked up.
pub proof fn law_safe_row_has_the_id(id: Seq<char>)
    ensures
        safe_row(id) matches Some(r) ==> r.row_id@ == id,
{
    lemma_found_is_row(spec_safe_writable_rows(), id);
}

/// Every high-risk writable row is on the safe write allowlist, and its
/// policy's recovery bucket is the ecosystem permission policy.
pub proof fn law_high_risk_rows_are_allowlisted(id: Seq<char>)
    requires
        names(spec_ecosystem_high_risk_writable_rows()).contains(id),
    ensures
        safe_row(id) is Some,
        ecosystem_policy().recovery_bucket@ == "ecosystem-permission-policy"@,
{
    lemma_lookup_ecosystem_no_update_news();
    lemma_lookup_ecosystem_no_donation_nag();
    lemma_lookup_ecosystem_enforce_permissions();
    let k = choose|k: int| 0 <= k < names(spec_ecosystem_high_risk_writable_rows()).len() && names(spec_ecosystem_high_risk_writable_rows())[k] == id;
}

/// The rows named as finite-choice rows.
pub open spec fn named_finite_choice_row(id: Seq<char>) -> bool {
    ||| names(spec_conflict_finite_choice_rows()).contains(id)
    ||| names(spec_remaining_finite_choice_rows()).contains(id)
    ||| id == "misc.vrr"@
    ||| id == "misc.on_focus_under_fullscreen"@
}

proof fn lemma_part_0_finite_choice_rows_are_named()
    ensures
        forall|j: int| 0 <= j < safe_rows_part_0().len() && (#[trigger] safe_rows_part_0()[j]).value_kind == ScalarWriteValueKind::FiniteChoice ==> named_finite_choice_row(safe_rows_part_0()[j].row_id@),
{
}

proof fn lemma_part_1_finite_choice_rows_are_named()
    ensures
        forall|j: int| 0 <= j < safe_rows_part_1().len() && (#[trigger] safe_rows_part_1()[j]).value_kind == ScalarWriteValueKind::FiniteChoice ==> named_finite_choice_row(safe_rows_part_1()[j].row_id@),
{
}

proof fn lemma_part_2_finite_choice_rows_are_named()
    ensures
        forall|j: int| 0 <= j < safe_rows_part_2().len() && (#[trigger] safe_rows_part_2()[j]).value_kind == ScalarWriteValueKind::FiniteChoice ==> named_finite_choice_row(safe_rows_part_2()[j].row_id@),
{
}

proof fn lemma_part_3_finite_choice_rows_are_named()
    ensures
        forall|j: int| 0 <= j < safe_rows_part_3().len() && (#[trigger] safe_rows_part_3()[j]).value_kind == ScalarWriteValueKind::FiniteChoice ==> named_finite_choice_row(safe_rows_part_3()[j].row_id@),
{
    assert(names(spec_remaining_finite_choice_rows())[0] == "layout.selection"@);
    assert(names(spec_conflict_finite_choice_rows())[0] == "general.resize_corner"@);
    assert(names(spec_remaining_finite_choice_rows())[2] == "input.scroll_method"@);
    assert(names(spec_remaining_finite_choice_rows())[1] == "input.follow_mouse"@);
    assert(names(spec_conflict_finite_choice_rows())[1] == "input.focus_on_close"@);
    assert(names(spec_conflict_finite_choice_rows())[2] == "input.float_switch_override_focus"@);
    assert(names(spec_conflict_finite_choice_rows())[3] == "input.off_window_axis_events"@);
    assert(names(spec_conflict_finite_choice_rows())[4] == "input.emulate_discrete_scroll"@);
}

proof fn lemma_part_4_finite_choice_rows_are_named()
    ensures
        forall|j: int| 0 <= j < safe_rows_part_4().len() && (#[trigger] safe_rows_part_4()[j]).value_kind == ScalarWriteValueKind::FiniteChoice ==> named_finite_choice_row(safe_rows_part_4()[j].row_id@),
{
    assert(names(spec_conflict_finite_choice_rows())[5] == "input.touchpad.drag_lock"@);
    assert(names(spec_remaining_finite_choice_rows())[3] == "input.touchpad.tap_button_map"@);
    assert(names(spec_conflict_finite_choice_rows())[6] == "input.touchpad.drag_3fg"@);
    assert(names(spec_conflict_finite_choice_rows())[7] == "input.virtualkeyboard.share_states"@);
    assert(names(spec_conflict_finite_choice_rows())[8] == "group.drag_into_group"@);
}

proof fn lemma_part_5_finite_choice_rows_are_named()
    ensures
        forall|j: int| 0 <= j < safe_rows_part_5().len() && (#[trigger] safe_rows_part_5()[j]).value_kind == ScalarWriteValueKind::FiniteChoice ==> named_finite_choice_row(safe_rows_part_5()[j].row_id@),
{
    assert(names(spec_conflict_finite_choice_rows())[9] == "dwindle.force_split"@);
}

proof fn lemma_part_6_finite_choice_rows_are_named()
    ensures
        forall|j: int| 0 <= j < safe_rows_part_6().len() && (#[trigger] safe_rows_part_6()[j]).value_kind == ScalarWriteValueKind::FiniteChoice ==> named_finite_choice_row(safe_rows_part_6()[j].row_id@),
{
    assert(names(spec_conflict_finite_choice_rows())[10] == "dwindle.split_bias"@);
    assert(names(spec_remaining_finite_choice_rows())[4] == "master.new_status"@);
    assert(names(spec_remaining_finite_choice_rows())[5] == "master.new_on_active"@);
    assert(names(spec_remaining_finite_choice_rows())[6] == "master.orientation"@);
    assert(names(spec_remaining_finite_choice_rows())[8] == "master.center_master_fallback"@);
    assert(names(spec_conflict_finite_choice_rows())[11] == "scrolling.focus_fit_method"@);
    assert(names(spec_remaining_finite_choice_rows())[7] == "scrolling.direction"@);
}

/// A row is a finite-choice row with a choice table exactly when the safe
/// write allowlist gives it the finite-choice value kind, and exactly when it
/// is one of the named finite-choice rows.
pub proof fn law_finite_choice_rows(id: Seq<char>)
    ensures
        spec_finite_choice_options(id) is Some <==> (safe_row(id) matches Some(r) && r.value_kind
            == ScalarWriteValueKind::FiniteChoice),
        spec_finite_choice_options(id) is Some <==> named_finite_choice_row(id),
{
    lemma_lookup_general_resize_corner();
    lemma_lookup_input_focus_on_close();
    lemma_lookup_input_float_switch_override_focus();
    lemma_lookup_input_off_window_axis_events();
    lemma_lookup_input_emulate_discrete_scroll();
    lemma_lookup_input_touchpad_drag_lock();
    lemma_lookup_input_touchpad_drag_3fg();
    lemma_lookup_input_virtualkeyboard_share_states();
    lemma_lookup_group_drag_into_group();
    lemma_lookup_dwindle_force_split();
    lemma_lookup_dwindle_split_bias();
    lemma_lookup_scrolling_focus_fit_method();
    lemma_lookup_layout_selection();
    lemma_lookup_input_follow_mouse();
    lemma_lookup_input_scroll_method();
    lemma_lookup_input_touchpad_tap_button_map();
    lemma_lookup_master_new_status();
    lemma_lookup_master_new_on_active();
    lemma_lookup_master_orientation();
    lemma_lookup_scrolling_direction();
    lemma_lookup_master_center_master_fallback();
    lemma_lookup_misc_vrr();
    lemma_lookup_misc_on_focus_under_fullscreen();
    lemma_safe_row_by_part(id);
    lemma_found_is_row(safe_rows_part_0(), id);
    lemma_part_0_finite_choice_rows_are_named();
    lemma_found_is_row(safe_rows_part_1(), id);
    lemma_part_1_finite_choice_rows_are_named();
    lemma_found_is_row(safe_rows_part_2(), id);
    lemma_part_2_finite_choice_rows_are_named();
    lemma_found_is_row(safe_rows_part_3(), id);
    lemma_part_3_finite_choice_rows_are_named();
    lemma_found_is_row(safe_rows_part_4(), id);
    lemma_part_4_finite_choice_rows_are_named();
    lemma_found_is_row(safe_rows_part_5(), id);
    lemma_part_5_finite_choice_rows_are_named();
    lemma_found_is_row(safe_rows_part_6(), id);
    lemma_part_6_finite_choice_rows_are_named();
    if names(spec_conflict_finite_choice_rows()).contains(id) {
        let k = choose|k: int| 0 <= k < names(spec_conflict_finite_choice_rows()).len() && names(spec_conflict_finite_choice_rows())[k] == id;
    }
    if names(spec_remaining_finite_choice_rows()).contains(id) {
        let k = choose|k: int| 0 <= k < names(spec_remaining_finite_choice_rows()).len() && names(spec_remaining_finite_choice_rows())[k] == id;
    }
    assert(names(spec_conflict_finite_choice_rows())[0] == "general.resize_corner"@);
    assert(names(spec_conflict_finite_choice_rows())[1] == "input.focus_on_close"@);
    assert(names(spec_conflict_finite_choice_rows())[2] == "input.float_switch_override_focus"@);
    assert(names(spec_conflict_finite_choice_rows())[3] == "input.off_window_axis_events"@);
    assert(names(spec_conflict_finite_choice_rows())[4] == "input.emulate_discrete_scroll"@);
    assert(names(spec_conflict_finite_choice_rows())[5] == "input.touchpad.drag_lock"@);
    assert(names(spec_conflict_finite_choice_rows())[6] == "input.touchpad.drag_3fg"@);
    assert(names(spec_conflict_finite_choice_rows())[7] == "input.virtualkeyboard.share_states"@);
    assert(names(spec_conflict_finite_choice_rows())[8] == "group.drag_into_group"@);
    assert(names(spec_conflict_finite_choice_rows())[9] == "dwindle.force_split"@);
    assert(names(spec_conflict_finite_choice_rows())[10] == "dwindle.split_bias"@);
    assert(names(spec_conflict_finite_choice_rows())[11] == "scrolling.focus_fit_method"@);
    assert(names(spec_remaining_finite_choice_rows())[0] == "layout.selection"@);
    assert(names(spec_remaining_finite_choice_rows())[1] == "input.follow_mouse"@);
    assert(names(spec_remaining_finite_choice_rows())[2] == "input.scroll_method"@);
    assert(names(spec_remaining_finite_choice_rows())[3] == "input.touchpad.tap_button_map"@);
    assert(names(spec_remaining_finite_choice_rows())[4] == "master.new_status"@);
    assert(names(spec_remaining_finite_choice_rows())[5] == "master.new_on_active"@);
    assert(names(spec_remaining_finite_choice_rows())[6] == "master.orientation"@);
    assert(names(spec_remaining_finite_choice_rows())[7] == "scrolling.direction"@);
    assert(names(spec_remaining_finite_choice_rows())[8] == "master.center_master_fallback"@);
}

/// A choice table offers at least two values, no two alike.
pub open spec fn distinct_choices(o: Seq<FiniteChoiceOption>) -> bool {
    &&& o.len() >= 2
    &&& forall|a: int, b: int| 0 <= a < b < o.len() ==> (#[trigger] o[a]).raw_value@ != (#[trigger] o[b]).raw_value@
}

proof fn lemma_layout_selection_choices_distinct()
    ensures
        distinct_choices(spec_layout_selection_choices()),
{
    reveal_strlit("dwindle");
    reveal_strlit("master");
    reveal_strlit("monocle");
    reveal_strlit("scrolling");
    assert(spec_layout_selection_choices()[0].raw_value@.len() != spec_layout_selection_choices()[1].raw_value@.len());
    assert(spec_layout_selection_choices()[0].raw_value@.len() != spec_layout_selection_choices()[2].raw_value@.len());
    assert(spec_layout_selection_choices()[0].raw_value@[0] != spec_layout_selection_choices()[3].raw_value@[0]);
    assert(spec_layout_selection_choices()[1].raw_value@.len() != spec_layout_selection_choices()[2].raw_value@.len());
    assert(spec_layout_selection_choices()[1].raw_value@.len() != spec_layout_selection_choices()[3].raw_value@.len());
    assert(spec_layout_selection_choices()[2].raw_value@.len() != spec_layout_selection_choices()[3].raw_value@.len());
}

proof fn lemma_input_follow_mouse_choices_distinct()
    ensures
        distinct_choices(spec_input_follow_mouse_choices()),
{
    reveal_strlit("0");
    reveal_strlit("1");
    reveal_strlit("2");
    reveal_strlit("3");
    assert(spec_input_follow_mouse_choices()[0].raw_value@[0] != spec_input_follow_mouse_choices()[1].raw_value@[0]);
    assert(spec_input_follow_mouse_choices()[0].raw_value@[0] != spec_input_follow_mouse_choices()[2].raw_value@[0]);
    assert(spec_input_follow_mouse_choices()[0].raw_value@[0] != spec_input_follow_mouse_choices()[3].raw_value@[0]);
    assert(spec_input_follow_mouse_choices()[1].raw_value@[0] != spec_input_follow_mouse_choices()[2].raw_value@[0]);
    assert(spec_input_follow_mouse_choices()[1].raw_value@[0] != spec_input_follow_mouse_choices()[3].raw_value@[0]);
    assert(spec_input_follow_mouse_choices()[2].raw_value@[0] != spec_input_follow_mouse_choices()[3].raw_value@[0]);
}

proof fn lemma_input_touchpad_tap_button_map_choices_distinct()
    ensures
        distinct_choices(spec_input_touchpad_tap_button_map_choices()),
{
    reveal_strlit("lmr");
    reveal_strlit("lrm");
    assert(spec_input_touchpad_tap_button_map_choices()[0].raw_value@[1] != spec_input_touchpad_tap_button_map_choices()[1].raw_value@[1]);
}

proof fn lemma_master_new_status_choices_distinct()
    ensures
        distinct_choices(spec_master_new_status_choices()),
{
    reveal_strlit("inherit");
    reveal_strlit("master");
    reveal_strlit("slave");
    assert(spec_master_new_status_choices()[0].raw_value@.len() != spec_master_new_status_choices()[1].raw_value@.len());
    assert(spec_master_new_status_choices()[0].raw_value@.len() != spec_master_new_status_choices()[2].raw_value@.len());
    assert(spec_master_new_status_choices()[1].raw_value@.len() != spec_master_new_status_choices()[2].raw_value@.len());
}

proof fn lemma_master_new_on_active_choices_distinct()
    ensures
        distinct_choices(spec_master_new_on_active_choices()),
{
    reveal_strlit("after");
    reveal_strlit("before");
    reveal_strlit("none");
    assert(spec_master_new_on_active_choices()[0].raw_value@.len() != spec_master_new_on_active_choices()[1].raw_value@.len());
    assert(spec_master_new_on_active_choices()[0].raw_value@.len() != spec_master_new_on_active_choices()[2].raw_value@.len());
    assert(spec_master_new_on_active_choices()[1].raw_value@.len() != spec_master_new_on_active_choices()[2].raw_value@.len());
}

proof fn lemma_master_orientation_choices_distinct()
    ensures
        distinct_choices(spec_master_orientation_choices()),
{
    reveal_strlit("bottom");
    reveal_strlit("center");
    reveal_strlit("left");
    reveal_strlit("right");
    reveal_strlit("top");
    assert(spec_master_orientation_choices()[0].raw_value@.len() != spec_master_orientation_choices()[1].raw_value@.len());
    assert(spec_master_orientation_choices()[0].raw_value@.len() != spec_master_orientation_choices()[2].raw_value@.len());
    assert(spec_master_orientation_choices()[0].raw_value@.len() != spec_master_orientation_choices()[3].raw_value@.len());
    assert(spec_master_orientation_choices()[0].raw_value@.len() != spec_master_orientation_choices()[4].raw_value@.len());
    assert(spec_master_orientation_choices()[1].raw_value@.len() != spec_master_orientation_choices()[2].raw_value@.len());
    assert(spec_master_orientation_choices()[1].raw_value@.len() != spec_master_orientation_choices()[3].raw_value@.len());
    assert(spec_master_orientation_choices()[1].raw_value@.len() != spec_master_orientation_choices()[4].raw_value@.len());
    assert(spec_master_orientation_choices()[2].raw_value@.len() != spec_master_orientation_choices()[3].raw_value@.len());
    assert(spec_master_orientation_choices()[2].raw_value@.len() != spec_master_orientation_choices()[4].raw_value@.len());
    assert(spec_master_orientation_choices()[3].raw_value@[0] != spec_master_orientation_choices()[4].raw_value@[0]);
}

proof fn lemma_scrolling_direction_choices_distinct()
    ensures
        distinct_choices(spec_scrolling_direction_choices()),
{
    reveal_strlit("down");
    reveal_strlit("left");
    reveal_strlit("right");
    reveal_strlit("up");
    assert(spec_scrolling_direction_choices()[0].raw_value@.len() != spec_scrolling_direction_choices()[1].raw_value@.len());
    assert(spec_scrolling_direction_choices()[0].raw_value@.len() != spec_scrolling_direction_choices()[2].raw_value@.len());
    assert(spec_scrolling_direction_choices()[0].raw_value@.len() != spec_scrolling_direction_choices()[3].raw_value@.len());
    assert(spec_scrolling_direction_choices()[1].raw_value@[0] != spec_scrolling_direction_choices()[2].raw_value@[0]);
    assert(spec_scrolling_direction_choices()[1].raw_value@.len() != spec_scrolling_direction_choices()[3].raw_value@.len());
    assert(spec_scrolling_direction_choices()[2].raw_value@.len() != spec_scrolling_direction_choices()[3].raw_value@.len());
}

proof fn lemma_master_center_master_fallback_choices_distinct()
    ensures
        distinct_choices(spec_master_center_master_fallback_choices()),
{
    reveal_strlit("bottom");
    reveal_strlit("left");
    reveal_strlit("right");
    reveal_strlit("top");
    assert(spec_master_center_master_fallback_choices()[0].raw_value@.len() != spec_master_center_master_fallback_choices()[1].raw_value@.len());
    assert(spec_master_center_master_fallback_choices()[0].raw_value@.len() != spec_master_center_master_fallback_choices()[2].raw_value@.len());
    assert(spec_master_center_master_fallback_choices()[0].raw_value@.len() != spec_master_center_master_fallback_choices()[3].raw_value@.len());
    assert(spec_master_center_master_fallback_choices()[1].raw_value@.len() != spec_master_center_master_fallback_choices()[2].raw_value@.len());
    assert(spec_master_center_master_fallback_choices()[1].raw_value@.len() != spec_master_center_master_fallback_choices()[3].raw_value@.len());
    assert(spec_master_center_master_fallback_choices()[2].raw_value@.len() != spec_master_center_master_fallback_choices()[3].raw_value@.len());
}

proof fn lemma_input_scroll_method_choices_distinct()
    ensures
        distinct_choices(spec_input_scroll_method_choices()),
{
    reveal_strlit("2fg");
    reveal_strlit("edge");
    reveal_strlit("no_scroll");
    reveal_strlit("on_button_down");
    assert(spec_input_scroll_method_choices()[0].raw_value@.len() != spec_input_scroll_method_choices()[1].raw_value@.len());
    assert(spec_input_scroll_method_choices()[0].raw_value@.len() != spec_input_scroll_method_choices()[2].raw_value@.len());
    assert(spec_input_scroll_method_choices()[0].raw_value@.len() != spec_input_scroll_method_choices()[3].raw_value@.len());
    assert(spec_input_scroll_method_choices()[1].raw_value@.len() != spec_input_scroll_method_choices()[2].raw_value@.len());
    assert(spec_input_scroll_method_choices()[1].raw_value@.len() != spec_input_scroll_method_choices()[3].raw_value@.len());
    assert(spec_input_scroll_method_choices()[2].raw_value@.len() != spec_input_scroll_method_choices()[3].raw_value@.len());
}

proof fn lemma_general_resize_corner_choices_distinct()
    ensures
        distinct_choices(spec_general_resize_corner_choices()),
{
    reveal_strlit("0");
    reveal_strlit("1");
    reveal_strlit("2");
    reveal_strlit("3");
    reveal_strlit("4");
    assert(spec_general_resize_corner_choices()[0].raw_value@[0] != spec_general_resize_corner_choices()[1].raw_value@[0]);
    assert(spec_general_resize_corner_choices()[0].raw_value@[0] != spec_general_resize_corner_choices()[2].raw_value@[0]);
    assert(spec_general_resize_corner_choices()[0].raw_value@[0] != spec_general_resize_corner_choices()[3].raw_value@[0]);
    assert(spec_general_resize_corner_choices()[0].raw_value@[0] != spec_general_resize_corner_choices()[4].raw_value@[0]);
    assert(spec_general_resize_corner_choices()[1].raw_value@[0] != spec_general_resize_corner_choices()[2].raw_value@[0]);
    assert(spec_general_resize_corner_choices()[1].raw_value@[0] != spec_general_resize_corner_choices()[3].raw_value@[0]);
    assert(spec_general_resize_corner_choices()[1].raw_value@[0] != spec_general_resize_corner_choices()[4].raw_value@[0]);
    assert(spec_general_resize_corner_choices()[2].raw_value@[0] != spec_general_resize_corner_choices()[3].raw_value@[0]);
    assert(spec_general_resize_corner_choices()[2].raw_value@[0] != spec_general_resize_corner_choices()[4].raw_value@[0]);
    assert(spec_general_resize_corner_choices()[3].raw_value@[0] != spec_general_resize_corner_choices()[4].raw_value@[0]);
}

proof fn lemma_input_focus_on_close_choices_distinct()
    ensures
        distinct_choices(spec_input_focus_on_close_choices()),
{
    reveal_strlit("0");
    reveal_strlit("1");
    reveal_strlit("2");
    assert(spec_input_focus_on_close_choices()[0].raw_value@[0] != spec_input_focus_on_close_choices()[1].raw_value@[0]);
    assert(spec_input_focus_on_close_choices()[0].raw_value@[0] != spec_input_focus_on_close_choices()[2].raw_value@[0]);
    assert(spec_input_focus_on_close_choices()[1].raw_value@[0] != spec_input_focus_on_close_choices()[2].raw_value@[0]);
}

proof fn lemma_input_float_switch_override_focus_choices_distinct()
    ensures
        distinct_choices(spec_input_float_switch_override_focus_choices()),
{
    reveal_strlit("0");
    reveal_strlit("1");
    reveal_strlit("2");
    assert(spec_input_float_switch_override_focus_choices()[0].raw_value@[0] != spec_input_float_switch_override_focus_choices()[1].raw_value@[0]);
    assert(spec_input_float_switch_override_focus_choices()[0].raw_value@[0] != spec_input_float_switch_override_focus_choices()[2].raw_value@[0]);
    assert(spec_input_float_switch_override_focus_choices()[1].raw_value@[0] != spec_input_float_switch_override_focus_choices()[2].raw_value@[0]);
}

proof fn lemma_input_off_window_axis_events_choices_distinct()
    ensures
        distinct_choices(spec_input_off_window_axis_events_choices()),
{
    reveal_strlit("0");
    reveal_strlit("1");
    reveal_strlit("2");
    reveal_strlit("3");
    assert(spec_input_off_window_axis_events_choices()[0].raw_value@[0] != spec_input_off_window_axis_events_choices()[1].raw_value@[0]);
    assert(spec_input_off_window_axis_events_choices()[0].raw_value@[0] != spec_input_off_window_axis_events_choices()[2].raw_value@[0]);
    assert(spec_input_off_window_axis_events_choices()[0].raw_value@[0] != spec_input_off_window_axis_events_choices()[3].raw_value@[0]);
    assert(spec_input_off_window_axis_events_choices()[1].raw_value@[0] != spec_input_off_window_axis_events_choices()[2].raw_value@[0]);
    assert(spec_input_off_window_axis_events_choices()[1].raw_value@[0] != spec_input_off_window_axis_events_choices()[3].raw_value@[0]);
    assert(spec_input_off_window_axis_events_choices()[2].raw_value@[0] != spec_input_off_window_axis_events_choices()[3].raw_value@[0]);
}

proof fn lemma_input_emulate_discrete_scroll_choices_distinct()
    ensures
        distinct_choices(spec_input_emulate_discrete_scroll_choices()),
{
    reveal_strlit("0");
    reveal_strlit("1");
    reveal_strlit("2");
    assert(spec_input_emulate_discrete_scroll_choices()[0].raw_value@[0] != spec_input_emulate_discrete_scroll_choices()[1].raw_value@[0]);
    assert(spec_input_emulate_discrete_scroll_choices()[0].raw_value@[0] != spec_input_emulate_discrete_scroll_choices()[2].raw_value@[0]);
    assert(spec_input_emulate_discrete_scroll_choices()[1].raw_value@[0] != spec_input_emulate_discrete_scroll_choices()[2].raw_value@[0]);
}

proof fn lemma_input_touchpad_drag_lock_choices_distinct()
    ensures
        distinct_choices(spec_input_touchpad_drag_lock_choices()),
{
    reveal_strlit("0");
    reveal_strlit("1");
    reveal_strlit("2");
    assert(spec_input_touchpad_drag_lock_choices()[0].raw_value@[0] != spec_input_touchpad_drag_lock_choices()[1].raw_value@[0]);
    assert(spec_input_touchpad_drag_lock_choices()[0].raw_value@[0] != spec_input_touchpad_drag_lock_choices()[2].raw_value@[0]);
    assert(spec_input_touchpad_drag_lock_choices()[1].raw_value@[0] != spec_input_touchpad_drag_lock_choices()[2].raw_value@[0]);
}

proof fn lemma_input_touchpad_drag_3fg_choices_distinct()
    ensures
        distinct_choices(spec_input_touchpad_drag_3fg_choices()),
{
    reveal_strlit("0");
    reveal_strlit("1");
    reveal_strlit("2");
    assert(spec_input_touchpad_drag_3fg_choices()[0].raw_value@[0] != spec_input_touchpad_drag_3fg_choices()[1].raw_value@[0]);
    assert(spec_input_touchpad_drag_3fg_choices()[0].raw_value@[0] != spec_input_touchpad_drag_3fg_choices()[2].raw_value@[0]);
    assert(spec_input_touchpad_drag_3fg_choices()[1].raw_value@[0] != spec_input_touchpad_drag_3fg_choices()[2].raw_value@[0]);
}

proof fn lemma_input_virtualkeyboard_share_states_choices_distinct()
    ensures
        distinct_choices(spec_input_virtualkeyboard_share_states_choices()),
{
    reveal_strlit("0");
    reveal_strlit("1");
    reveal_strlit("2");
    assert(spec_input_virtualkeyboard_share_states_choices()[0].raw_value@[0] != spec_input_virtualkeyboard_share_states_choices()[1].raw_value@[0]);
    assert(spec_input_virtualkeyboard_share_states_choices()[0].raw_value@[0] != spec_input_virtualkeyboard_share_states_choices()[2].raw_value@[0]);
    assert(spec_input_virtualkeyboard_share_states_choices()[1].raw_value@[0] != spec_input_virtualkeyboard_share_states_choices()[2].raw_value@[0]);
}

proof fn lemma_group_drag_into_group_choices_distinct()
    ensures
        distinct_choices(spec_group_drag_into_group_choices()),
{
    reveal_strlit("0");
    reveal_strlit("1");
    reveal_strlit("2");
    assert(spec_group_drag_into_group_choices()[0].raw_value@[0] != spec_group_drag_into_group_choices()[1].raw_value@[0]);
    assert(spec_group_drag_into_group_choices()[0].raw_value@[0] != spec_group_drag_into_group_choices()[2].raw_value@[0]);
    assert(spec_group_drag_into_group_choices()[1].raw_value@[0] != spec_group_drag_into_group_choices()[2].raw_value@[0]);
}

proof fn lemma_dwindle_force_split_choices_distinct()
    ensures
        distinct_choices(spec_dwindle_force_split_choices()),
{
    reveal_strlit("0");
    reveal_strlit("1");
    reveal_strlit("2");
    assert(spec_dwindle_force_split_choices()[0].raw_value@[0] != spec_dwindle_force_split_choices()[1].raw_value@[0]);
    assert(spec_dwindle_force_split_choices()[0].raw_value@[0] != spec_dwindle_force_split_choices()[2].raw_value@[0]);
    assert(spec_dwindle_force_split_choices()[1].raw_value@[0] != spec_dwindle_force_split_choices()[2].raw_value@[0]);
}

proof fn lemma_dwindle_split_bias_choices_distinct()
    ensures
        distinct_choices(spec_dwindle_split_bias_choices()),
{
    reveal_strlit("0");
    reveal_strlit("1");
    assert(spec_dwindle_split_bias_choices()[0].raw_value@[0] != spec_dwindle_split_bias_choices()[1].raw_value@[0]);
}

proof fn lemma_scrolling_focus_fit_method_choices_distinct()
    ensures
        distinct_choices(spec_scrolling_focus_fit_method_choices()),
{
    reveal_strlit("0");
    reveal_strlit("1");
    assert(spec_scrolling_focus_fit_method_choices()[0].raw_value@[0] != spec_scrolling_focus_fit_method_choices()[1].raw_value@[0]);
}

proof fn lemma_misc_vrr_choices_distinct()
    ensures
        distinct_choices(spec_misc_vrr_choices()),
{
    reveal_strlit("0");
    reveal_strlit("1");
    reveal_strlit("2");
    reveal_strlit("3");
    assert(spec_misc_vrr_choices()[0].raw_value@[0] != spec_misc_vrr_choices()[1].raw_value@[0]);
    assert(spec_misc_vrr_choices()[0].raw_value@[0] != spec_misc_vrr_choices()[2].raw_value@[0]);
    assert(spec_misc_vrr_choices()[0].raw_value@[0] != spec_misc_vrr_choices()[3].raw_value@[0]);
    assert(spec_misc_vrr_choices()[1].raw_value@[0] != spec_misc_vrr_choices()[2].raw_value@[0]);
    assert(spec_misc_vrr_choices()[1].raw_value@[0] != spec_misc_vrr_choices()[3].raw_value@[0]);
    assert(spec_misc_vrr_choices()[2].raw_value@[0] != spec_misc_vrr_choices()[3].raw_value@[0]);
}

proof fn lemma_misc_on_focus_under_fullscreen_choices_distinct()
    ensures
        distinct_choices(spec_misc_on_focus_under_fullscreen_choices()),
{
    reveal_strlit("0");
    reveal_strlit("1");
    reveal_strlit("2");
    assert(spec_misc_on_focus_under_fullscreen_choices()[0].raw_value@[0] != spec_misc_on_focus_under_fullscreen_choices()[1].raw_value@[0]);
    assert(spec_misc_on_focus_under_fullscreen_choices()[0].raw_value@[0] != spec_misc_on_focus_under_fullscreen_choices()[2].raw_value@[0]);
    assert(spec_misc_on_focus_under_fullscreen_choices()[1].raw_value@[0] != spec_misc_on_focus_under_fullscreen_choices()[2].raw_value@[0]);
}

/// Every choice table offers at least two distinct values.
pub proof fn law_choice_tables_are_distinct(id: Seq<char>)
    ensures
        spec_finite_choice_options(id) matches Some(o) ==> distinct_choices(o),
{
    lemma_layout_selection_choices_distinct();
    lemma_input_follow_mouse_choices_distinct();
    lemma_input_touchpad_tap_button_map_choices_distinct();
    lemma_master_new_status_choices_distinct();
    lemma_master_new_on_active_choices_distinct();
    lemma_master_orientation_choices_distinct();
    lemma_scrolling_direction_choices_distinct();
    lemma_master_center_master_fallback_choices_distinct();
    lemma_input_scroll_method_choices_distinct();
    lemma_general_resize_corner_choices_distinct();
    lemma_input_focus_on_close_choices_distinct();
    lemma_input_float_switch_override_focus_choices_distinct();
    lemma_input_off_window_axis_events_choices_distinct();
    lemma_input_emulate_discrete_scroll_choices_distinct();
    lemma_input_touchpad_drag_lock_choices_distinct();
    lemma_input_touchpad_drag_3fg_choices_distinct();
    lemma_input_virtualkeyboard_share_states_choices_distinct();
    lemma_group_drag_into_group_choices_distinct();
    lemma_dwindle_force_split_choices_distinct();
    lemma_dwindle_split_bias_choices_distinct();
    lemma_scrolling_focus_fit_method_choices_distinct();
    lemma_misc_vrr_choices_distinct();
    lemma_misc_on_focus_under_fullscreen_choices_distinct();
}

} // verus!
