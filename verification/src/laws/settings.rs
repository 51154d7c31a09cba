//! What holds of settings, of the file that they are kept in, and of the active theme.

use vstd::prelude::*;

use crate::persistence::error::PersistenceError;
use crate::settings::{
    self, ActiveThemeChange, ActiveThemeResolver, AppearanceSubscription, FontSettings, PointSize,
    PollingSystemAppearanceSource, Settings, SystemAppearance, SystemAppearanceSource, ThemeMode,
};
use crate::store::settings_store::{DraftWrite, FileRead, SettingsChanged, SettingsStore};
use crate::theme::ThemeId;

verus! {

// ---------------------------------------------------------------------------
// Sizes
// ---------------------------------------------------------------------------

/// Whether the bits encode no number.
pub open spec fn is_nan(bits: u32) -> bool {
    0x7f80_0001 <= bits <= 0x7fff_ffff || 0xff80_0001 <= bits
}

/// Whether the bits encode zero, of either sign.
pub open spec fn is_zero(bits: u32) -> bool {
    bits == 0 || bits == 0x8000_0000
}

/// Two sizes are the same where their bits are, unless these encode no number. Of
/// different bits only the two zeros are the same.
pub proof fn law_same_size_is_numeric_equality(a: PointSize, b: PointSize, res: bool)
    requires
        call_ensures(PointSize::same_size, (&a, &b), res),
    ensures
        is_nan(a.bits) || is_nan(b.bits) ==> !res,
        a.bits == b.bits && !is_nan(a.bits) ==> res,
        a.bits != b.bits && res ==> is_zero(a.bits) && is_zero(b.bits),
        is_zero(a.bits) && is_zero(b.bits) ==> res,
{
}

/// Fonts are the same only where each family has the same text and each size the same
/// bits, zeros aside. Fonts whose sizes are numbers are the same as themselves.
pub proof fn law_same_fonts_compares_every_field(a: FontSettings, b: FontSettings, res: bool)
    requires
        call_ensures(FontSettings::same_fonts, (&a, &b), res),
    ensures
        a.ui_family@ != b.ui_family@ ==> !res,
        a.editor_family@ != b.editor_family@ ==> !res,
        a.terminal_family@ != b.terminal_family@ ==> !res,
        a.ui_size.bits != b.ui_size.bits && !is_zero(a.ui_size.bits) ==> !res,
        a.editor_size.bits != b.editor_size.bits && !is_zero(a.editor_size.bits) ==> !res,
        a.terminal_size.bits != b.terminal_size.bits && !is_zero(a.terminal_size.bits) ==> !res,
        a == b && !is_nan(a.ui_size.bits) && !is_nan(a.editor_size.bits) && !is_nan(
            a.terminal_size.bits,
        ) ==> res,
{
}

/// Settings that differ in any one field are not the same. Settings whose font sizes
/// are numbers are the same as themselves.
pub proof fn law_same_settings_compares_every_field(a: Settings, b: Settings, res: bool)
    requires
        call_ensures(Settings::same_settings, (&a, &b), res),
    ensures
        a.theme_mode != b.theme_mode ==> !res,
        a.theme_id_light.text() != b.theme_id_light.text() ==> !res,
        a.theme_id_dark.text() != b.theme_id_dark.text() ==> !res,
        a.default_provider@ != b.default_provider@ ==> !res,
        a.keybinding_profile.text() != b.keybinding_profile.text() ==> !res,
        a.update_check_enabled != b.update_check_enabled ==> !res,
        a.font_settings.ui_family@ != b.font_settings.ui_family@ ==> !res,
        a.font_settings.editor_family@ != b.font_settings.editor_family@ ==> !res,
        a.font_settings.terminal_family@ != b.font_settings.terminal_family@ ==> !res,
        differ(a.font_settings.ui_size, b.font_settings.ui_size) ==> !res,
        differ(a.font_settings.editor_size, b.font_settings.editor_size) ==> !res,
        differ(a.font_settings.terminal_size, b.font_settings.terminal_size) ==> !res,
        a == b && sizes_are_numbers(a) ==> res,
{
}

/// Whether two sizes are different numbers.
pub open spec fn differ(a: PointSize, b: PointSize) -> bool {
    a.bits != b.bits && !(is_zero(a.bits) && is_zero(b.bits))
}

/// Whether every font size is a number.
pub open spec fn sizes_are_numbers(settings: Settings) -> bool {
    &&& !is_nan(settings.font_settings.ui_size.bits)
    &&& !is_nan(settings.font_settings.editor_size.bits)
    &&& !is_nan(settings.font_settings.terminal_size.bits)
}

// ---------------------------------------------------------------------------
// The settings file
// ---------------------------------------------------------------------------

/// After the file was read again, everyone sees what it says: every field of the
/// settings in memory is that of the file, whatever was there before.
pub proof fn law_reload_follows_the_file(
    store: &mut SettingsStore,
    file: Settings,
    res: Option<SettingsChanged>,
    seen: Settings,
)
    requires
        call_ensures(SettingsStore::reload, (store, FileRead::Decoded(file)), res),
        call_ensures(SettingsStore::current, (&*final(store),), seen),
    ensures
        seen.theme_mode == file.theme_mode,
        seen.theme_id_light.text() == file.theme_id_light.text(),
        seen.theme_id_dark.text() == file.theme_id_dark.text(),
        seen.default_provider@ == file.default_provider@,
        seen.keybinding_profile.text() == file.keybinding_profile.text(),
        seen.update_check_enabled == file.update_check_enabled,
        seen.font_settings.ui_family@ == file.font_settings.ui_family@,
        seen.font_settings.editor_family@ == file.font_settings.editor_family@,
        seen.font_settings.terminal_family@ == file.font_settings.terminal_family@,
        !differ(seen.font_settings.ui_size, file.font_settings.ui_size),
        !differ(seen.font_settings.editor_size, file.font_settings.editor_size),
        !differ(seen.font_settings.terminal_size, file.font_settings.terminal_size),
{
}

/// Subscribers hear of a reload exactly when it changes something: where any one field
/// of the file differs from the settings in memory there is an event, with what everyone
/// sees from then on; where the file says the same there is none, and nothing changes.
pub proof fn law_reload_tells_of_every_change(
    store: &mut SettingsStore,
    file: Settings,
    res: Option<SettingsChanged>,
    before: Settings,
    seen: Settings,
)
    requires
        call_ensures(SettingsStore::current, (&*old(store),), before),
        call_ensures(SettingsStore::reload, (store, FileRead::Decoded(file)), res),
        call_ensures(SettingsStore::current, (&*final(store),), seen),
    ensures
        res is None ==> seen == before,
        res matches Some(event) ==> event.settings == file && seen == file,
        before == file && sizes_are_numbers(file) ==> res is None,
        before.theme_mode != file.theme_mode ==> res is Some,
        before.theme_id_light.text() != file.theme_id_light.text() ==> res is Some,
        before.theme_id_dark.text() != file.theme_id_dark.text() ==> res is Some,
        before.default_provider@ != file.default_provider@ ==> res is Some,
        before.keybinding_profile.text() != file.keybinding_profile.text() ==> res is Some,
        before.update_check_enabled != file.update_check_enabled ==> res is Some,
        before.font_settings.ui_family@ != file.font_settings.ui_family@ ==> res is Some,
        before.font_settings.editor_family@ != file.font_settings.editor_family@ ==> res is Some,
        before.font_settings.terminal_family@ != file.font_settings.terminal_family@
            ==> res is Some,
        differ(before.font_settings.ui_size, file.font_settings.ui_size) ==> res is Some,
        differ(before.font_settings.editor_size, file.font_settings.editor_size) ==> res is Some,
        differ(before.font_settings.terminal_size, file.font_settings.terminal_size)
            ==> res is Some,
{
}

/// A file that is missing, cannot be read or is malformed leaves what everyone sees as
/// it was, and no one hears of it. The path stays in any case.
pub proof fn law_bad_reload_changes_nothing(
    store: &mut SettingsStore,
    read: FileRead,
    res: Option<SettingsChanged>,
)
    requires
        call_ensures(SettingsStore::reload, (store, read), res),
    ensures
        !(read is Decoded) ==> res is None && final(store).settings() == old(store).settings(),
        final(store).location() == old(store).location(),
{
}

/// The settings that are loaded are those of the file, or the default ones where there
/// is no file. A file that is there but cannot be used is an error, never the default
/// settings: a malformed one of serialisation, any other of input or output.
pub proof fn law_load_takes_the_file_or_fails(
    path: &str,
    read: FileRead,
    res: Result<SettingsStore, PersistenceError>,
    default: Settings,
)
    requires
        call_ensures(SettingsStore::load, (path, read), res),
        call_ensures(Settings::default, (), default),
    ensures
        res is Ok <==> read is Missing || read is Decoded,
        res matches Ok(store) ==> store.location() == path@,
        read matches FileRead::Decoded(file) ==> res matches Ok(store) && store.settings() == file,
        read is Missing ==> (res matches Ok(store) && {
            let settings = store.settings();
            &&& settings.theme_mode == default.theme_mode
            &&& settings.theme_id_light.text() == default.theme_id_light.text()
            &&& settings.theme_id_dark.text() == default.theme_id_dark.text()
            &&& settings.default_provider@ == default.default_provider@
            &&& settings.keybinding_profile.text() == default.keybinding_profile.text()
            &&& settings.update_check_enabled == default.update_check_enabled
            &&& settings.font_settings.ui_family@ == default.font_settings.ui_family@
            &&& settings.font_settings.editor_family@ == default.font_settings.editor_family@
            &&& settings.font_settings.terminal_family@ == default.font_settings.terminal_family@
            &&& settings.font_settings.ui_size == default.font_settings.ui_size
            &&& settings.font_settings.editor_size == default.font_settings.editor_size
            &&& settings.font_settings.terminal_size == default.font_settings.terminal_size
        }),
        read matches FileRead::Malformed(err) ==> res matches Err(
            PersistenceError::SerializationError(m),
        ) && m@ == err@,
        read matches FileRead::Unreadable(err) ==> res matches Err(PersistenceError::IoError(m))
            && m@ == err@,
        read matches FileRead::Aborted(err) ==> res matches Err(PersistenceError::IoError(m))
            && m@.len() >= err@.len() && m@.skip(m@.len() - err@.len()) == err@,
{
    if let FileRead::Aborted(err) = read {
        let m = "settings load task panicked: "@ + err@;
        assert(m.skip(m.len() - err@.len()) =~= err@);
    }
}

/// An edit takes hold exactly where it succeeds, and it succeeds exactly where the draft
/// was written. Whoever made a failed edit is told why.
pub proof fn law_edit_takes_hold_when_written(
    store: &mut SettingsStore,
    draft: Settings,
    write: DraftWrite,
    res: Result<(), PersistenceError>,
    before: Settings,
    seen: Settings,
)
    requires
        call_ensures(SettingsStore::current, (&*old(store),), before),
        call_ensures(SettingsStore::finish_edit, (store, draft, write), res),
        call_ensures(SettingsStore::current, (&*final(store),), seen),
    ensures
        write is Written <==> res is Ok,
        res is Ok ==> seen == draft,
        res is Err ==> seen == before,
        final(store).location() == old(store).location(),
        write matches DraftWrite::Unencodable(err) ==> res matches Err(
            PersistenceError::SerializationError(m),
        ) && m@ == err@,
        write matches DraftWrite::Unwritable(err) ==> res matches Err(PersistenceError::IoError(m))
            && m@ == err@,
        write matches DraftWrite::Aborted(err) ==> res matches Err(PersistenceError::IoError(m))
            && m@.len() >= err@.len() && m@.skip(m@.len() - err@.len()) == err@,
{
    if let DraftWrite::Aborted(err) = write {
        let m = "settings write task panicked: "@ + err@;
        assert(m.skip(m.len() - err@.len()) =~= err@);
    }
}

// ---------------------------------------------------------------------------
// The active theme
// ---------------------------------------------------------------------------

/// The chosen theme is always one of the user's two. An explicit mode chooses its own
/// theme under either appearance; under the system mode the appearance chooses.
pub proof fn law_theme_fits_mode_and_appearance(
    settings: Settings,
    appearance: SystemAppearance,
    res: ThemeId,
)
    requires
        call_ensures(settings::resolve_theme_id, (&settings, appearance), res),
    ensures
        res == settings.theme_id_light || res == settings.theme_id_dark,
        settings.theme_mode is Light || (settings.theme_mode is System && appearance is Light)
            ==> res == settings.theme_id_light,
        settings.theme_mode is Dark || (settings.theme_mode is System && appearance is Dark)
            ==> res == settings.theme_id_dark,
{
}

/// Under the system mode the active theme follows the appearance, and every change of it
/// is told, with the theme that is active from then on. Under an explicit mode the
/// appearance changes nothing.
pub proof fn law_active_theme_follows_the_system<S: SystemAppearanceSource>(
    resolver: &mut ActiveThemeResolver<S>,
    appearance: SystemAppearance,
    res: Option<ActiveThemeChange>,
)
    requires
        call_ensures(
            ActiveThemeResolver::<S>::apply_system_appearance,
            (resolver, appearance),
            res,
        ),
    ensures
        final(resolver).settings() == old(resolver).settings(),
        old(resolver).settings().theme_mode != ThemeMode::System ==> res is None && final(resolver).active() == old(resolver).active(),
        old(resolver).settings().theme_mode == ThemeMode::System ==> final(resolver).active().text()
            == match appearance {
            SystemAppearance::Light => old(resolver).settings().theme_id_light.text(),
            SystemAppearance::Dark => old(resolver).settings().theme_id_dark.text(),
        },
        res is Some <==> final(resolver).active().text() != old(resolver).active().text(),
        res matches Some(change) ==> change.theme_id == final(resolver).active(),
        res is None ==> final(resolver).active() == old(resolver).active(),
{
}

/// A resolver starts with the theme that fits its settings and the appearance of its
/// source, and telling it that appearance changes nothing.
pub proof fn law_resolver_starts_up_to_date<S: SystemAppearanceSource>(
    settings: Settings,
    source: S,
    resolver: &mut ActiveThemeResolver<S>,
    res: Option<ActiveThemeChange>,
)
    requires
        call_ensures(ActiveThemeResolver::<S>::new, (settings, source), *old(resolver)),
        call_ensures(
            ActiveThemeResolver::<S>::apply_system_appearance,
            (resolver, source.appearance()),
            res,
        ),
    ensures
        old(resolver).settings() == settings,
        old(resolver).source() == source,
        settings.theme_mode is Light || (settings.theme_mode is System && source.appearance() is Light)
            ==> old(resolver).active() == settings.theme_id_light,
        settings.theme_mode is Dark || (settings.theme_mode is System && source.appearance() is Dark)
            ==> old(resolver).active() == settings.theme_id_dark,
        res is None,
        final(resolver).active() == old(resolver).active(),
{
}

// ---------------------------------------------------------------------------
// Announcing changes
// ---------------------------------------------------------------------------

/// A poll that finds another appearance puts it behind what waits for each subscriber; a
/// poll that finds the same one puts nothing there. No one is added or dropped, and the source
/// has the appearance that was found.
pub proof fn law_poll_announces_changes_only(
    source: &mut PollingSystemAppearanceSource,
    appearance: SystemAppearance,
    id: u64,
    seen: SystemAppearance,
)
    requires
        call_ensures(PollingSystemAppearanceSource::poll_update, (source, appearance), ()),
        call_ensures(PollingSystemAppearanceSource::current_appearance, (&*final(source),), seen),
    ensures
        seen == appearance,
        final(source).current() == appearance,
        final(source).waiting().dom().contains(id) <==> old(source).waiting().dom().contains(id),
        old(source).waiting().dom().contains(id) ==> {
            let before = old(source).waiting()[id];
            let after = final(source).waiting()[id];
            &&& appearance == old(source).current() ==> after == before
            &&& appearance != old(source).current() ==> after.len() == before.len() + 1
                && after.last() == appearance && after.drop_last() == before
        },
{
    let before = old(source).waiting()[id];
    assert(before.push(appearance).drop_last() =~= before);
}

/// A subscriber takes its changes oldest first, each once, without touching what waits
/// for another.
pub proof fn law_changes_are_taken_in_order(
    source: &mut PollingSystemAppearanceSource,
    subscription: AppearanceSubscription,
    res: Option<SystemAppearance>,
    other: u64,
)
    requires
        call_ensures(PollingSystemAppearanceSource::next_change, (source, &subscription), res),
        old(source).waiting().dom().contains(subscription.id),
    ensures
        ({
            let before = old(source).waiting()[subscription.id];
            let after = final(source).waiting()[subscription.id];
            &&& res matches Some(change) ==> seq![change] + after == before
            &&& res is None <==> before.len() == 0
            &&& res is None ==> after == before
        }),
        other != subscription.id ==> (final(source).waiting().dom().contains(other) <==> old(source).waiting().dom().contains(other)),
        other != subscription.id && old(source).waiting().dom().contains(other) ==> final(source).waiting()[other] == old(source).waiting()[other],
        final(source).current() == old(source).current(),
{
    let before = old(source).waiting()[subscription.id];
    if before.len() > 0 {
        assert(seq![before[0]] + before.drop_first() =~= before);
    }
}

/// A new subscriber hears of nothing that came before it, and no one else hears of it. Who
/// unsubscribes is gone, and only that one.
pub proof fn law_subscribers_come_and_go_alone(
    source: &mut PollingSystemAppearanceSource,
    subscription: AppearanceSubscription,
    left: &mut PollingSystemAppearanceSource,
    other: u64,
)
    requires
        call_ensures(PollingSystemAppearanceSource::subscribe, (source,), subscription),
        *old(left) == *final(source),
        call_ensures(PollingSystemAppearanceSource::unsubscribe, (left, subscription), ()),
    ensures
        !old(source).waiting().dom().contains(subscription.id),
        final(source).waiting().dom().contains(subscription.id),
        final(source).waiting()[subscription.id].len() == 0,
        other != subscription.id ==> (final(source).waiting().dom().contains(other) <==> old(source).waiting().dom().contains(other)),
        other != subscription.id && old(source).waiting().dom().contains(other) ==> final(source).waiting()[other] == old(source).waiting()[other],
        final(left).waiting() == old(source).waiting(),
        final(left).current() == old(source).current(),
{
    assert(final(left).waiting() =~= old(source).waiting());
}

// ---------------------------------------------------------------------------
// Defaults and copies
// ---------------------------------------------------------------------------

/// Without settings of one's own the theme goes with the system, whichever appearance it
/// has. Updates are not looked for, the editor and the terminal share a font, and the shell
/// has another one.
pub proof fn law_default_settings_follow_the_system(
    settings: Settings,
    fonts: FontSettings,
    mode: ThemeMode,
    appearance: SystemAppearance,
    theme: ThemeId,
)
    requires
        call_ensures(Settings::default, (), settings),
        call_ensures(FontSettings::default, (), fonts),
        call_ensures(ThemeMode::default, (), mode),
        call_ensures(settings::resolve_theme_id, (&settings, appearance), theme),
    ensures
        mode is System && settings.theme_mode is System,
        appearance is Light ==> theme.text() == "default-light"@,
        appearance is Dark ==> theme.text() == "default-dark"@,
        settings.default_provider@ == "local"@,
        settings.keybinding_profile.text() == "default"@,
        !settings.update_check_enabled,
        fonts.ui_family@ == "sans-serif"@,
        fonts.editor_family@ == "monospace"@ && fonts.terminal_family@ == "monospace"@,
        fonts.ui_size.bits == 0x4160_0000,
        fonts.editor_size.bits == 0x4150_0000 && fonts.terminal_size.bits == 0x4150_0000,
        settings.font_settings.ui_family@ == fonts.ui_family@,
        settings.font_settings.editor_family@ == fonts.editor_family@,
        settings.font_settings.terminal_family@ == fonts.terminal_family@,
        settings.font_settings.ui_size.bits == fonts.ui_size.bits,
        settings.font_settings.editor_size.bits == fonts.editor_size.bits,
        settings.font_settings.terminal_size.bits == fonts.terminal_size.bits,
{
}

/// A copy of the settings has every field of theirs.
pub proof fn law_copied_settings_are_the_same(
    settings: Settings,
    copy: Settings,
    fonts: FontSettings,
    copied_fonts: FontSettings,
    change: SettingsChanged,
    copied_change: SettingsChanged,
)
    requires
        call_ensures(Settings::clone, (&settings,), copy),
        call_ensures(FontSettings::clone, (&fonts,), copied_fonts),
        call_ensures(SettingsChanged::clone, (&change,), copied_change),
    ensures
        copy == settings,
        copied_fonts == fonts,
        copied_change.settings == change.settings,
{
}

/// The resolver shows the theme that it found active: the one that fits the settings and
/// the appearance that the source has at first, and then the one of the last change told.
/// Subscribing changes neither.
pub proof fn law_resolver_shows_the_active_theme<S: SystemAppearanceSource>(
    settings: Settings,
    source: S,
    first: ActiveThemeResolver<S>,
    shown: &ThemeId,
    resolver: &mut ActiveThemeResolver<S>,
    appearance: SystemAppearance,
    change: Option<ActiveThemeChange>,
    before: &ThemeId,
    after: &ThemeId,
    other: &mut ActiveThemeResolver<S>,
    subscription: AppearanceSubscription,
    quiet: &ThemeId,
    still: &ThemeId,
)
    requires
        call_ensures(ActiveThemeResolver::<S>::new, (settings, source), first),
        call_ensures(ActiveThemeResolver::<S>::active_theme_id, (&first,), shown),
        call_ensures(ActiveThemeResolver::<S>::active_theme_id, (&*old(resolver),), before),
        call_ensures(
            ActiveThemeResolver::<S>::apply_system_appearance,
            (resolver, appearance),
            change,
        ),
        call_ensures(ActiveThemeResolver::<S>::active_theme_id, (&*final(resolver),), after),
        call_ensures(ActiveThemeResolver::<S>::active_theme_id, (&*old(other),), quiet),
        call_ensures(
            ActiveThemeResolver::<S>::subscribe_system_appearance,
            (other,),
            subscription,
        ),
        call_ensures(ActiveThemeResolver::<S>::active_theme_id, (&*final(other),), still),
    ensures
        settings.theme_mode is Light || (settings.theme_mode is System && source.appearance() is Light)
            ==> *shown == settings.theme_id_light,
        settings.theme_mode is Dark || (settings.theme_mode is System && source.appearance() is Dark)
            ==> *shown == settings.theme_id_dark,
        change matches Some(c) ==> c.theme_id == *after && after.text() != before.text(),
        change is None ==> *after == *before,
        *still == *quiet,
        final(other).settings() == old(other).settings(),
{
}

/// A source that was just made has the appearance that it was given, and nobody waits for
/// its changes.
pub proof fn law_new_source_has_no_subscribers(
    appearance: SystemAppearance,
    source: PollingSystemAppearanceSource,
    seen: SystemAppearance,
)
    requires
        call_ensures(PollingSystemAppearanceSource::new, (appearance,), source),
        call_ensures(PollingSystemAppearanceSource::current_appearance, (&source,), seen),
    ensures
        seen == appearance,
        source.waiting().dom() =~= Set::empty(),
{
}

/// The store knows the path that it was loaded from.
pub proof fn law_store_knows_its_path(
    path: &str,
    read: FileRead,
    res: Result<SettingsStore, PersistenceError>,
    shown: &str,
)
    requires
        call_ensures(SettingsStore::load, (path, read), res),
        res matches Ok(store) ==> call_ensures(SettingsStore::path, (&store,), shown),
    ensures
        res is Ok ==> shown@ == path@,
{
}

} // verus!
