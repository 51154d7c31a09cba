use openspace::keybinding::KeybindingProfileId;
use openspace::settings::{
    resolve_theme_id, ActiveThemeResolver, AppearanceSubscription, FontSettings, PointSize,
    PollingSystemAppearanceSource, Settings, SystemAppearance, SystemAppearanceSource, ThemeMode,
};
use openspace::theme::ThemeId;

struct MockSystemAppearanceSource {
    appearance: SystemAppearance,
}

impl MockSystemAppearanceSource {
    fn new(appearance: SystemAppearance) -> Self {
        Self { appearance }
    }
}

impl SystemAppearanceSource for MockSystemAppearanceSource {
    fn appearance(&self) -> SystemAppearance {
        self.appearance
    }

    fn has_room(&self) -> bool {
        true
    }

    fn subscribed(&self, _after: &Self, _handed: AppearanceSubscription) -> bool {
        true
    }

    fn current_appearance(&self) -> SystemAppearance {
        self.appearance
    }

    fn subscribe(&mut self) -> AppearanceSubscription {
        AppearanceSubscription { id: 0 }
    }
}

fn theme_settings(mode: ThemeMode) -> Settings {
    Settings {
        theme_mode: mode,
        theme_id_light: ThemeId::new("day"),
        theme_id_dark: ThemeId::new("night"),
        ..Settings::default()
    }
}

#[test]
fn settings_default_matches_documented_empty_file_shape() {
    let s = Settings::default();
    assert_eq!(s.theme_mode, ThemeMode::System);
    assert_eq!(s.theme_id_light.as_str(), "default-light");
    assert_eq!(s.theme_id_dark.as_str(), "default-dark");
    assert_eq!(s.default_provider, "local");
    assert_eq!(s.keybinding_profile.as_str(), "default");
    assert!(!s.update_check_enabled);
    assert_eq!(s.font_settings.editor_family, "monospace");
    assert!((f32::from_bits(s.font_settings.editor_size.bits) - 13.0).abs() < f32::EPSILON);
}

#[test]
fn default_fonts_have_documented_sizes() {
    let fonts = FontSettings::default();
    assert_eq!(fonts.ui_family, "sans-serif");
    assert_eq!(f32::from_bits(fonts.ui_size.bits), 14.0);
    assert_eq!(fonts.terminal_family, "monospace");
    assert_eq!(f32::from_bits(fonts.terminal_size.bits), 13.0);
}

#[test]
fn explicit_theme_modes_select_configured_slots() {
    assert_eq!(
        resolve_theme_id(&theme_settings(ThemeMode::Light), SystemAppearance::Dark).as_str(),
        "day"
    );
    assert_eq!(
        resolve_theme_id(&theme_settings(ThemeMode::Dark), SystemAppearance::Light).as_str(),
        "night"
    );
}

#[test]
fn system_mode_reads_initial_system_appearance() {
    let light = ActiveThemeResolver::new(
        theme_settings(ThemeMode::System),
        MockSystemAppearanceSource::new(SystemAppearance::Light),
    );
    assert_eq!(light.active_theme_id().as_str(), "day");

    let dark = ActiveThemeResolver::new(
        theme_settings(ThemeMode::System),
        MockSystemAppearanceSource::new(SystemAppearance::Dark),
    );
    assert_eq!(dark.active_theme_id().as_str(), "night");
}

#[test]
fn system_appearance_changes_emit_active_theme_changes() {
    let mut resolver = ActiveThemeResolver::new(
        theme_settings(ThemeMode::System),
        MockSystemAppearanceSource::new(SystemAppearance::Light),
    );
    let dark = resolver
        .apply_system_appearance(SystemAppearance::Dark)
        .expect("light to dark emits");
    assert_eq!(dark.theme_id.as_str(), "night");
    let light = resolver
        .apply_system_appearance(SystemAppearance::Light)
        .expect("dark to light emits");
    assert_eq!(light.theme_id.as_str(), "day");
    assert!(resolver.apply_system_appearance(SystemAppearance::Light).is_none());
}

#[test]
fn explicit_modes_ignore_system_appearance_changes() {
    let mut resolver = ActiveThemeResolver::new(
        theme_settings(ThemeMode::Light),
        MockSystemAppearanceSource::new(SystemAppearance::Light),
    );
    assert!(resolver
        .apply_system_appearance(SystemAppearance::Dark)
        .is_none());
    assert_eq!(resolver.active_theme_id().as_str(), "day");
}

#[test]
fn polling_fallback_notifies_subscribers_safely() {
    let mut source = PollingSystemAppearanceSource::new(SystemAppearance::Light);
    let rx = source.subscribe();
    source.poll_update(SystemAppearance::Dark);
    assert_eq!(
        source.next_change(&rx).expect("appearance event"),
        SystemAppearance::Dark
    );
}

#[test]
fn polling_reports_changes_only_and_in_order() {
    let mut source = PollingSystemAppearanceSource::new(SystemAppearance::Light);
    let early = source.subscribe();
    source.poll_update(SystemAppearance::Light);
    source.poll_update(SystemAppearance::Dark);
    let late = source.subscribe();
    source.poll_update(SystemAppearance::Dark);
    source.poll_update(SystemAppearance::Light);
    assert_eq!(source.current_appearance(), SystemAppearance::Light);
    assert_eq!(source.next_change(&early), Some(SystemAppearance::Dark));
    assert_eq!(source.next_change(&early), Some(SystemAppearance::Light));
    assert_eq!(source.next_change(&early), None);
    assert_eq!(source.next_change(&late), Some(SystemAppearance::Light));
    source.unsubscribe(late);
    source.poll_update(SystemAppearance::Dark);
    assert_eq!(source.next_change(&early), Some(SystemAppearance::Dark));
}

#[test]
fn resolver_subscribes_to_its_source() {
    let mut resolver = ActiveThemeResolver::new(
        theme_settings(ThemeMode::System),
        PollingSystemAppearanceSource::new(SystemAppearance::Dark),
    );
    let subscription = resolver.subscribe_system_appearance();
    assert_eq!(resolver.active_theme_id().as_str(), "night");
    resolver.source_mut().poll_update(SystemAppearance::Light);
    let change = resolver.source_mut().next_change(&subscription);
    assert_eq!(change, Some(SystemAppearance::Light));
    resolver.apply_system_appearance(SystemAppearance::Light);
    assert_eq!(resolver.active_theme_id().as_str(), "day");
    assert_eq!(resolver.source_mut().next_change(&subscription), None);
}

#[test]
fn point_sizes_compare_as_numbers() {
    let size = |v: f32| PointSize { bits: v.to_bits() };
    assert!(size(13.5) == size(13.5));
    assert!(size(13.5) != size(14.0));
    assert!(size(0.0) == size(-0.0));
    assert!(size(f32::NAN) != size(f32::NAN));
    assert!(size(f32::INFINITY) == size(f32::INFINITY));
    assert!(size(f32::INFINITY) != size(f32::NEG_INFINITY));
    for a in [0.0f32, -0.0, 1.0, -1.0, 12.5, f32::MIN_POSITIVE, f32::MAX, f32::NAN] {
        for b in [0.0f32, -0.0, 1.0, -1.0, 12.5, f32::MIN_POSITIVE, f32::MAX, f32::NAN] {
            assert_eq!(size(a) == size(b), a == b, "{a} {b}");
            assert_eq!(size(a).same_size(&size(b)), a == b);
        }
    }
}

#[test]
fn settings_agree_in_every_field() {
    let base = theme_settings(ThemeMode::System);
    assert!(base.same_settings(&base.clone()));
    let mut other = base.clone();
    other.keybinding_profile = KeybindingProfileId::new("vim");
    assert!(!base.same_settings(&other));
    let mut other = base.clone();
    other.font_settings.ui_size = PointSize { bits: 12.0f32.to_bits() };
    assert!(!base.same_settings(&other));
    let mut other = base.clone();
    other.update_check_enabled = true;
    assert!(!base.same_settings(&other));
}
