use hyprland_settings::ui::APP_ID;

#[test]
fn app_id_uses_final_public_identity() {
    assert_eq!(APP_ID, "io.github.kyarorukyo.hyprlandsettings");
}
