//! Settings: the typed content of `settings.toml`, and which theme is active.

use vstd::prelude::*;

use crate::keybinding::KeybindingProfileId;
use crate::numeral;
use crate::text;
use crate::theme::ThemeId;

verus! {

/// Which of the user's two themes is used.
#[derive(Debug, Clone, Copy, PartialEq, Eq, Hash, Structural)]
pub enum ThemeMode {
    /// Always the light one.
    Light,
    /// Always the dark one.
    Dark,
    /// The one that fits the system's appearance.
    System,
}

impl Default for ThemeMode {
    fn default() -> (res: Self)
        ensures
            res == ThemeMode::System,
    {
        ThemeMode::System
    }
}

// ---------------------------------------------------------------------------
// Fonts
// ---------------------------------------------------------------------------

/// A font size in points, held as the bits of a single-precision number.
#[derive(Debug, Clone, Copy)]
pub struct PointSize {
    /// The IEEE 754 binary32 encoding of the size.
    pub bits: u32,
}

impl PointSize {
    /// Whether the two sizes are equal numbers.
    pub open spec fn equals(self, other: PointSize) -> bool {
        numeral::equal_singles(self.bits, other.bits)
    }

    /// Whether the two sizes are equal numbers.
    pub fn same_size(&self, other: &PointSize) -> (res: bool)
        ensures
            res == self.equals(*other),
    {
        numeral::same_single(self.bits, other.bits)
    }
}

impl PartialEq for PointSize {
    fn eq(&self, other: &Self) -> (res: bool) {
        self.same_size(other)
    }
}

impl vstd::std_specs::cmp::PartialEqSpecImpl for PointSize {
    open spec fn obeys_eq_spec() -> bool {
        true
    }

    open spec fn eq_spec(&self, other: &Self) -> bool {
        self.equals(*other)
    }
}

/// Font family and size of each surface. A family is a list of fallbacks.
#[derive(Debug, PartialEq)]
pub struct FontSettings {
    /// Family of the shell.
    pub ui_family: String,
    /// Size of the shell.
    pub ui_size: PointSize,
    /// Family of the editor.
    pub editor_family: String,
    /// Size of the editor.
    pub editor_size: PointSize,
    /// Family of the terminal.
    pub terminal_family: String,
    /// Size of the terminal.
    pub terminal_size: PointSize,
}

impl Clone for FontSettings {
    fn clone(&self) -> (res: Self)
        ensures
            res == *self,
    {
        Self {
            ui_family: self.ui_family.clone(),
            ui_size: self.ui_size,
            editor_family: self.editor_family.clone(),
            editor_size: self.editor_size,
            terminal_family: self.terminal_family.clone(),
            terminal_size: self.terminal_size,
        }
    }
}

impl FontSettings {
    /// Whether the two settings agree in every field.
    pub open spec fn agrees(self, other: FontSettings) -> bool {
        &&& self.ui_family@ == other.ui_family@
        &&& self.ui_size.equals(other.ui_size)
        &&& self.editor_family@ == other.editor_family@
        &&& self.editor_size.equals(other.editor_size)
        &&& self.terminal_family@ == other.terminal_family@
        &&& self.terminal_size.equals(other.terminal_size)
    }

    /// Whether the two settings agree in every field.
    pub fn same_fonts(&self, other: &FontSettings) -> (res: bool)
        ensures
            res == self.agrees(*other),
    {
        text::same_text(self.ui_family.as_str(), other.ui_family.as_str())
            && self.ui_size.same_size(&other.ui_size) && text::same_text(
            self.editor_family.as_str(),
            other.editor_family.as_str(),
        ) && self.editor_size.same_size(&other.editor_size) && text::same_text(
            self.terminal_family.as_str(),
            other.terminal_family.as_str(),
        ) && self.terminal_size.same_size(&other.terminal_size)
    }
}

impl Default for FontSettings {
    /// Generic families, at 14 points for the shell and 13 for the others.
    fn default() -> (res: Self)
        ensures
            res.ui_family@ == "sans-serif"@,
            res.ui_size.bits == 0x4160_0000,
            res.editor_family@ == "monospace"@,
            res.editor_size.bits == 0x4150_0000,
            res.terminal_family@ == "monospace"@,
            res.terminal_size.bits == 0x4150_0000,
    {
        Self {
            ui_family: "sans-serif".to_owned(),
            ui_size: PointSize { bits: 0x4160_0000 },
            editor_family: "monospace".to_owned(),
            editor_size: PointSize { bits: 0x4150_0000 },
            terminal_family: "monospace".to_owned(),
            terminal_size: PointSize { bits: 0x4150_0000 },
        }
    }
}

// ---------------------------------------------------------------------------
// Settings
// ---------------------------------------------------------------------------

/// The application's settings. They hold no secrets: those live in a
/// [`SecretStore`](crate::ai::secret::SecretStore).
#[derive(Debug, PartialEq)]
pub struct Settings {
    /// Which theme is used.
    pub theme_mode: ThemeMode,
    /// The light theme.
    pub theme_id_light: ThemeId,
    /// The dark theme.
    pub theme_id_dark: ThemeId,
    /// The provider that new chats use.
    pub default_provider: String,
    /// Fonts.
    pub font_settings: FontSettings,
    /// The active profile of key bindings.
    pub keybinding_profile: KeybindingProfileId,
    /// Whether updates are looked for at startup.
    pub update_check_enabled: bool,
}

impl Clone for Settings {
    fn clone(&self) -> (res: Self)
        ensures
            res == *self,
    {
        Self {
            theme_mode: self.theme_mode,
            theme_id_light: self.theme_id_light.clone(),
            theme_id_dark: self.theme_id_dark.clone(),
            default_provider: self.default_provider.clone(),
            font_settings: self.font_settings.clone(),
            keybinding_profile: self.keybinding_profile.clone(),
            update_check_enabled: self.update_check_enabled,
        }
    }
}

impl Settings {
    /// Whether the two settings agree in every field.
    pub open spec fn agrees(self, other: Settings) -> bool {
        &&& self.theme_mode == other.theme_mode
        &&& self.theme_id_light.text() == other.theme_id_light.text()
        &&& self.theme_id_dark.text() == other.theme_id_dark.text()
        &&& self.default_provider@ == other.default_provider@
        &&& self.font_settings.agrees(other.font_settings)
        &&& self.keybinding_profile.text() == other.keybinding_profile.text()
        &&& self.update_check_enabled == other.update_check_enabled
    }

    /// Whether these are the settings that an empty file stands for.
    pub open spec fn is_default(self) -> bool {
        &&& self.theme_mode == ThemeMode::System
        &&& self.theme_id_light.text() == "default-light"@
        &&& self.theme_id_dark.text() == "default-dark"@
        &&& self.default_provider@ == "local"@
        &&& self.font_settings.ui_family@ == "sans-serif"@
        &&& self.font_settings.ui_size.bits == 0x4160_0000
        &&& self.font_settings.editor_family@ == "monospace"@
        &&& self.font_settings.editor_size.bits == 0x4150_0000
        &&& self.font_settings.terminal_family@ == "monospace"@
        &&& self.font_settings.terminal_size.bits == 0x4150_0000
        &&& self.keybinding_profile.text() == "default"@
        &&& !self.update_check_enabled
    }

    /// Whether the two settings agree in every field.
    pub fn same_settings(&self, other: &Settings) -> (res: bool)
        ensures
            res == self.agrees(*other),
    {
        self.theme_mode == other.theme_mode && text::same_text(
            self.theme_id_light.as_str(),
            other.theme_id_light.as_str(),
        ) && text::same_text(self.theme_id_dark.as_str(), other.theme_id_dark.as_str())
            && text::same_text(self.default_provider.as_str(), other.default_provider.as_str())
            && self.font_settings.same_fonts(&other.font_settings) && text::same_text(
            self.keybinding_profile.as_str(),
            other.keybinding_profile.as_str(),
        ) && self.update_check_enabled == other.update_check_enabled
    }
}

impl Default for Settings {
    fn default() -> (res: Self)
        ensures
            res.is_default(),
    {
        Self {
            theme_mode: ThemeMode::default(),
            theme_id_light: ThemeId::new("default-light"),
            theme_id_dark: ThemeId::new("default-dark"),
            default_provider: "local".to_owned(),
            font_settings: FontSettings::default(),
            keybinding_profile: KeybindingProfileId::new("default"),
            update_check_enabled: false,
        }
    }
}

// ---------------------------------------------------------------------------
// The system's appearance
// ---------------------------------------------------------------------------

/// How the system presents itself.
#[derive(Debug, Clone, Copy, PartialEq, Eq, Hash, Structural)]
pub enum SystemAppearance {
    Light,
    Dark,
}

/// A subscriber's claim on the changes that a source reports.
#[derive(Debug, PartialEq, Eq, Structural)]
pub struct AppearanceSubscription {
    /// Tells the subscribers of one source apart.
    pub id: u64,
}

/// Where the system's appearance is learned from.
pub trait SystemAppearanceSource: Send + Sync {
    /// The appearance as the source knows it.
    spec fn appearance(&self) -> SystemAppearance;

    /// Whether the source can take another subscriber.
    spec fn has_room(&self) -> bool;

    /// What subscribing does: whether it can take the source to `after` and hand
    /// out `handed`.
    spec fn subscribed(&self, after: &Self, handed: AppearanceSubscription) -> bool;

    /// The appearance as the source knows it.
    fn current_appearance(&self) -> (res: SystemAppearance)
        ensures
            res == self.appearance(),
    ;

    /// Asks to be told of changes from now on.
    fn subscribe(&mut self) -> (res: AppearanceSubscription)
        requires
            old(self).has_room(),
        ensures
            final(self).appearance() == old(self).appearance(),
            old(self).subscribed(final(self), res),
    ;
}

/// The changes that a subscriber has not taken yet, oldest first.
#[derive(Debug)]
struct Mailbox {
    id: u64,
    changes: Vec<SystemAppearance>,
}

spec fn by_subscriber(mailboxes: Seq<Mailbox>) -> Map<u64, Seq<SystemAppearance>>
    decreases mailboxes.len(),
{
    if mailboxes.len() == 0 {
        Map::empty()
    } else {
        by_subscriber(mailboxes.drop_last()).insert(
            mailboxes.last().id,
            mailboxes.last().changes@,
        )
    }
}

spec fn distinct_subscribers(mailboxes: Seq<Mailbox>) -> bool {
    forall|i: int, j: int|
        0 <= i < j < mailboxes.len() ==> (#[trigger] mailboxes[i]).id != (
        #[trigger] mailboxes[j]).id
}

proof fn lemma_by_subscriber(mailboxes: Seq<Mailbox>)
    requires
        distinct_subscribers(mailboxes),
    ensures
        forall|i: int|
            0 <= i < mailboxes.len() ==> by_subscriber(mailboxes).dom().contains(
                (#[trigger] mailboxes[i]).id,
            ) && by_subscriber(mailboxes)[mailboxes[i].id] == mailboxes[i].changes@,
        forall|id: u64| #[trigger]
            by_subscriber(mailboxes).dom().contains(id) ==> exists|i: int|
                0 <= i < mailboxes.len() && (#[trigger] mailboxes[i]).id == id,
    decreases mailboxes.len(),
{
    if mailboxes.len() > 0 {
        let before = mailboxes.drop_last();
        lemma_by_subscriber(before);
        let last = mailboxes.last();
        assert forall|i: int| 0 <= i < mailboxes.len() implies by_subscriber(
            mailboxes,
        ).dom().contains((#[trigger] mailboxes[i]).id) && by_subscriber(mailboxes)[mailboxes[i].id]
            == mailboxes[i].changes@ by {
            if i < before.len() {
                assert(before[i] == mailboxes[i]);
                assert(mailboxes[i].id != mailboxes[mailboxes.len() - 1].id);
            }
        }
        assert forall|id: u64| #[trigger] by_subscriber(mailboxes).dom().contains(id) implies exists|
            i: int,
        |
            0 <= i < mailboxes.len() && (#[trigger] mailboxes[i]).id == id by {
            if id == last.id {
                assert(mailboxes[mailboxes.len() - 1].id == id);
            } else {
                assert(by_subscriber(before).dom().contains(id));
                let i = choose|i: int| 0 <= i < before.len() && (#[trigger] before[i]).id == id;
                assert(mailboxes[i] == before[i]);
            }
        }
    }
}

/// What waits for each subscriber once `appearance` has been polled: a change of
/// the appearance waits for everyone, anything else for no one.
pub open spec fn waiting_after(
    current: SystemAppearance,
    waiting: Map<u64, Seq<SystemAppearance>>,
    appearance: SystemAppearance,
) -> Map<u64, Seq<SystemAppearance>> {
    if appearance == current {
        waiting
    } else {
        waiting.map_values(|changes: Seq<SystemAppearance>| changes.push(appearance))
    }
}

/// A source for platforms that do not announce changes: someone polls, and the
/// source passes changes on. Every subscriber gets each change that comes after
/// its subscription, in order, until it unsubscribes.
#[derive(Debug)]
pub struct PollingSystemAppearanceSource {
    appearance: SystemAppearance,
    mailboxes: Vec<Mailbox>,
    next_id: u64,
}

impl PollingSystemAppearanceSource {
    #[verifier::type_invariant]
    spec fn well_formed(self) -> bool {
        &&& distinct_subscribers(self.mailboxes@)
        &&& forall|i: int|
            0 <= i < self.mailboxes@.len() ==> (#[trigger] self.mailboxes@[i]).id < self.next_id
    }

    /// The appearance that was polled last.
    pub closed spec fn current(self) -> SystemAppearance {
        self.appearance
    }

    /// The changes that each subscriber has not taken yet, oldest first.
    pub closed spec fn waiting(self) -> Map<u64, Seq<SystemAppearance>> {
        by_subscriber(self.mailboxes@)
    }

    /// How many subscriptions have been made.
    pub closed spec fn subscriptions(self) -> u64 {
        self.next_id
    }

    /// A source without subscribers.
    #[must_use]
    pub fn new(initial: SystemAppearance) -> (res: Self)
        ensures
            res.current() == initial,
            res.waiting() == Map::<u64, Seq<SystemAppearance>>::empty(),
            res.subscriptions() == 0,
    {
        Self { appearance: initial, mailboxes: Vec::new(), next_id: 0 }
    }

    /// Takes note of a polled appearance. Where it differs from the last one,
    /// every subscriber gets it.
    pub fn poll_update(&mut self, appearance: SystemAppearance)
        ensures
            final(self).current() == appearance,
            final(self).subscriptions() == old(self).subscriptions(),
            final(self).waiting() == waiting_after(
                old(self).current(),
                old(self).waiting(),
                appearance,
            ),
    {
        proof {
            use_type_invariant(&*self);
        }
        if self.appearance == appearance {
            return;
        }
        self.appearance = appearance;
        let ghost before = self.mailboxes@;
        let ghost next_id = self.next_id;
        let mut old_boxes: Vec<Mailbox> = Vec::new();
        std::mem::swap(&mut old_boxes, &mut self.mailboxes);
        let mut mailboxes: Vec<Mailbox> = Vec::new();
        assert(before.take(0) =~= Seq::<Mailbox>::empty());
        let n: usize = old_boxes.len();
        for i in 0..n
            invariant
                n == before.len(),
                old_boxes@ == before,
                mailboxes@.len() == i,
                forall|j: int|
                    0 <= j < i ==> (#[trigger] mailboxes@[j]).id == before[j].id
                        && mailboxes@[j].changes@ == before[j].changes@.push(appearance),
        {
            let mut changes = old_boxes[i].changes.clone();
            assert(changes@ =~= before[i as int].changes@);
            changes.push(appearance);
            mailboxes.push(Mailbox { id: old_boxes[i].id, changes });
        }
        proof {
            assert forall|i: int, j: int| 0 <= i < j < mailboxes@.len() implies (
            #[trigger] mailboxes@[i]).id != (#[trigger] mailboxes@[j]).id by {
                assert(before[i].id != before[j].id);
            }
            lemma_by_subscriber(before);
            lemma_by_subscriber(mailboxes@);
            let wanted = by_subscriber(before).map_values(
                |changes: Seq<SystemAppearance>| changes.push(appearance),
            );
            let got = by_subscriber(mailboxes@);
            assert forall|id: u64| got.dom().contains(id) == wanted.dom().contains(id) by {
                if got.dom().contains(id) {
                    let i = choose|i: int|
                        0 <= i < mailboxes@.len() && (#[trigger] mailboxes@[i]).id == id;
                    assert(before[i].id == id);
                }
                if wanted.dom().contains(id) {
                    let i = choose|i: int| 0 <= i < before.len() && (#[trigger] before[i]).id == id;
                    assert(mailboxes@[i].id == id);
                }
            }
            assert forall|id: u64| got.dom().contains(id) implies #[trigger] got[id]
                == wanted[id] by {
                let i = choose|i: int|
                    0 <= i < mailboxes@.len() && (#[trigger] mailboxes@[i]).id == id;
                assert(before[i].id == id);
            }
            assert(got =~= wanted);
        }
        self.mailboxes = mailboxes;
    }

    fn position(&self, id: u64) -> (res: Option<usize>)
        ensures
            match res {
                Some(i) => i < self.mailboxes@.len() && self.mailboxes@[i as int].id == id,
                None => forall|i: int|
                    0 <= i < self.mailboxes@.len() ==> (#[trigger] self.mailboxes@[i]).id != id,
            },
    {
        for i in 0..self.mailboxes.len()
            invariant
                forall|j: int| 0 <= j < i ==> (#[trigger] self.mailboxes@[j]).id != id,
        {
            if self.mailboxes[i].id == id {
                return Some(i);
            }
        }
        None
    }

    /// Hands out the oldest change that the subscriber has not taken yet.
    pub fn next_change(&mut self, subscription: &AppearanceSubscription) -> (res: Option<
        SystemAppearance,
    >)
        ensures
            final(self).current() == old(self).current(),
            final(self).subscriptions() == old(self).subscriptions(),
            ({
                let id = subscription.id;
                let waiting = old(self).waiting();
                if waiting.dom().contains(id) && waiting[id].len() > 0 {
                    &&& res == Some(waiting[id][0])
                    &&& final(self).waiting() == waiting.insert(id, waiting[id].drop_first())
                } else {
                    &&& res is None
                    &&& final(self).waiting() == waiting
                }
            }),
    {
        proof {
            use_type_invariant(&*self);
            lemma_by_subscriber(self.mailboxes@);
        }
        let i = match self.position(subscription.id) {
            Some(i) => i,
            None => return None,
        };
        if self.mailboxes[i].changes.len() == 0 {
            return None;
        }
        let ghost before = self.mailboxes@;
        let mut mailboxes: Vec<Mailbox> = Vec::new();
        std::mem::swap(&mut mailboxes, &mut self.mailboxes);
        let mut changes = mailboxes[i].changes.clone();
        assert(changes@ =~= before[i as int].changes@);
        let first = changes.remove(0);
        let id = mailboxes[i].id;
        mailboxes.set(i, Mailbox { id, changes });
        proof {
            let after = mailboxes@;
            assert forall|a: int, b: int| 0 <= a < b < after.len() implies (
            #[trigger] after[a]).id != (#[trigger] after[b]).id by {
                assert(before[a].id != before[b].id);
            }
            lemma_by_subscriber(after);
            let wanted = by_subscriber(before).insert(
                id,
                before[i as int].changes@.drop_first(),
            );
            let got = by_subscriber(after);
            assert(changes@ =~= before[i as int].changes@.drop_first());
            assert forall|k: u64| got.dom().contains(k) == wanted.dom().contains(k) by {
                if got.dom().contains(k) {
                    let a = choose|a: int| 0 <= a < after.len() && (#[trigger] after[a]).id == k;
                    assert(before[a].id == k);
                }
                if wanted.dom().contains(k) {
                    if k == id {
                        assert(after[i as int].id == k);
                    } else {
                        let a = choose|a: int|
                            0 <= a < before.len() && (#[trigger] before[a]).id == k;
                        assert(after[a].id == k);
                    }
                }
            }
            assert forall|k: u64| got.dom().contains(k) implies #[trigger] got[k] == wanted[k] by {
                let a = choose|a: int| 0 <= a < after.len() && (#[trigger] after[a]).id == k;
                assert(before[a].id == k);
                if k == id {
                    assert(a == i);
                }
            }
            assert(got =~= wanted);
        }
        self.mailboxes = mailboxes;
        Some(first)
    }

    /// Ends a subscription. Changes that it has not taken are dropped.
    pub fn unsubscribe(&mut self, subscription: AppearanceSubscription)
        ensures
            final(self).current() == old(self).current(),
            final(self).subscriptions() == old(self).subscriptions(),
            final(self).waiting() == old(self).waiting().remove(subscription.id),
    {
        proof {
            use_type_invariant(&*self);
            lemma_by_subscriber(self.mailboxes@);
        }
        match self.position(subscription.id) {
            None => {
                assert(self.waiting().remove(subscription.id) =~= self.waiting());
            },
            Some(at) => {
                let ghost before = self.mailboxes@;
                let mut mailboxes: Vec<Mailbox> = Vec::new();
                std::mem::swap(&mut mailboxes, &mut self.mailboxes);
                mailboxes.remove(at);
                proof {
                    lemma_remove_subscriber(before, at as int);
                }
                self.mailboxes = mailboxes;
            },
        }
    }
}

proof fn lemma_remove_subscriber(before: Seq<Mailbox>, at: int)
    requires
        distinct_subscribers(before),
        0 <= at < before.len(),
    ensures
        distinct_subscribers(before.remove(at)),
        by_subscriber(before.remove(at)) == by_subscriber(before).remove(before[at].id),
        forall|i: int|
            0 <= i < before.remove(at).len() ==> exists|j: int|
                0 <= j < before.len() && #[trigger] before.remove(at)[i] == #[trigger] before[j],
{
    let after = before.remove(at);
    assert forall|i: int| 0 <= i < after.len() implies exists|j: int|
        0 <= j < before.len() && #[trigger] after[i] == #[trigger] before[j] by {
        let j = if i < at {
            i
        } else {
            i + 1
        };
        assert(after[i] == before[j]);
    }
    assert forall|i: int, j: int| 0 <= i < j < after.len() implies (#[trigger] after[i]).id != (
    #[trigger] after[j]).id by {
        let i0 = if i < at {
            i
        } else {
            i + 1
        };
        let j0 = if j < at {
            j
        } else {
            j + 1
        };
        assert(before[i0].id != before[j0].id);
    }
    lemma_by_subscriber(before);
    lemma_by_subscriber(after);
    let wanted = by_subscriber(before).remove(before[at].id);
    let got = by_subscriber(after);
    assert forall|k: u64| got.dom().contains(k) == wanted.dom().contains(k) by {
        if got.dom().contains(k) {
            let i = choose|i: int| 0 <= i < after.len() && (#[trigger] after[i]).id == k;
            let i0 = if i < at {
                i
            } else {
                i + 1
            };
            assert(before[i0].id == k);
            assert(before[i0].id != before[at].id);
        }
        if wanted.dom().contains(k) {
            let i = choose|i: int| 0 <= i < before.len() && (#[trigger] before[i]).id == k;
            let i0 = if i < at {
                i
            } else {
                i - 1
            };
            assert(after[i0].id == k);
        }
    }
    assert forall|k: u64| got.dom().contains(k) implies #[trigger] got[k] == wanted[k] by {
        let i = choose|i: int| 0 <= i < after.len() && (#[trigger] after[i]).id == k;
        let i0 = if i < at {
            i
        } else {
            i + 1
        };
        assert(before[i0].id == k);
    }
    assert(got =~= wanted);
}

impl SystemAppearanceSource for PollingSystemAppearanceSource {
    open spec fn appearance(&self) -> SystemAppearance {
        self.current()
    }

    open spec fn has_room(&self) -> bool {
        self.subscriptions() < u64::MAX
    }

    /// The subscriber is a new one, and nothing waits for it yet. What waits for
    /// the others stays.
    open spec fn subscribed(&self, after: &Self, handed: AppearanceSubscription) -> bool {
        &&& after.current() == self.current()
        &&& after.subscriptions() == self.subscriptions() + 1
        &&& !self.waiting().dom().contains(handed.id)
        &&& after.waiting() == self.waiting().insert(
            handed.id,
            Seq::<SystemAppearance>::empty(),
        )
    }

    fn current_appearance(&self) -> SystemAppearance {
        self.appearance
    }

    fn subscribe(&mut self) -> (res: AppearanceSubscription) {
        proof {
            use_type_invariant(&*self);
            lemma_by_subscriber(self.mailboxes@);
        }
        let id = self.next_id;
        let ghost before = self.mailboxes@;
        let mut mailboxes: Vec<Mailbox> = Vec::new();
        std::mem::swap(&mut mailboxes, &mut self.mailboxes);
        mailboxes.push(Mailbox { id, changes: Vec::new() });
        assert(mailboxes@.drop_last() =~= before);
        self.next_id = id + 1;
        self.mailboxes = mailboxes;
        AppearanceSubscription { id }
    }
}

// ---------------------------------------------------------------------------
// The active theme
// ---------------------------------------------------------------------------

/// Tells that another theme has become active.
#[derive(Debug, Clone, PartialEq, Eq)]
pub struct ActiveThemeChange {
    /// The theme.
    pub theme_id: ThemeId,
}

/// The theme that is active under the given settings and appearance.
pub open spec fn theme_for(settings: Settings, appearance: SystemAppearance) -> ThemeId {
    match settings.theme_mode {
        ThemeMode::Light => settings.theme_id_light,
        ThemeMode::Dark => settings.theme_id_dark,
        ThemeMode::System => match appearance {
            SystemAppearance::Light => settings.theme_id_light,
            SystemAppearance::Dark => settings.theme_id_dark,
        },
    }
}

/// The theme that is active under the given settings and appearance.
#[must_use]
pub fn resolve_theme_id(settings: &Settings, system_appearance: SystemAppearance) -> (res: ThemeId)
    ensures
        res == theme_for(*settings, system_appearance),
{
    match settings.theme_mode {
        ThemeMode::Light => settings.theme_id_light.clone(),
        ThemeMode::Dark => settings.theme_id_dark.clone(),
        ThemeMode::System => match system_appearance {
            SystemAppearance::Light => settings.theme_id_light.clone(),
            SystemAppearance::Dark => settings.theme_id_dark.clone(),
        },
    }
}

/// Keeps track of the active theme.
#[derive(Debug)]
pub struct ActiveThemeResolver<S> {
    settings: Settings,
    source: S,
    active_theme_id: ThemeId,
}

impl<S: SystemAppearanceSource> ActiveThemeResolver<S> {
    /// The settings that themes are chosen by.
    pub closed spec fn settings(self) -> Settings {
        self.settings
    }

    /// Where the system's appearance is learned from.
    pub closed spec fn source(self) -> S {
        self.source
    }

    /// The active theme.
    pub closed spec fn active(self) -> ThemeId {
        self.active_theme_id
    }

    /// A resolver that starts from the source's appearance.
    #[must_use]
    pub fn new(settings: Settings, source: S) -> (res: Self)
        ensures
            res.settings() == settings,
            res.source() == source,
            res.active() == theme_for(settings, source.appearance()),
    {
        let active_theme_id = resolve_theme_id(&settings, source.current_appearance());
        Self { settings, source, active_theme_id }
    }

    /// The active theme.
    #[must_use]
    pub fn active_theme_id(&self) -> (res: &ThemeId)
        ensures
            *res == self.active(),
    {
        &self.active_theme_id
    }

    /// Subscribes to the source's changes.
    #[must_use]
    pub fn subscribe_system_appearance(&mut self) -> (res: AppearanceSubscription)
        requires
            old(self).source().has_room(),
        ensures
            final(self).settings() == old(self).settings(),
            final(self).active() == old(self).active(),
            final(self).source().appearance() == old(self).source().appearance(),
            old(self).source().subscribed(&final(self).source(), res),
    {
        self.source.subscribe()
    }

    /// The source, for taking the changes of a subscription from it.
    #[must_use]
    pub fn source_mut(&mut self) -> (res: &mut S)
        ensures
            *res == old(self).source(),
            final(self).source() == *final(res),
            final(self).settings() == old(self).settings(),
            final(self).active() == old(self).active(),
    {
        &mut self.source
    }

    /// Takes note of the system's appearance. Where that makes another theme
    /// active, tells which.
    pub fn apply_system_appearance(&mut self, appearance: SystemAppearance) -> (res: Option<
        ActiveThemeChange,
    >)
        ensures
            final(self).settings() == old(self).settings(),
            final(self).source() == old(self).source(),
            ({
                let next = theme_for(old(self).settings(), appearance);
                if old(self).settings().theme_mode == ThemeMode::System && next.text() != old(
                    self,
                ).active().text() {
                    &&& res == Some(ActiveThemeChange { theme_id: next })
                    &&& final(self).active() == next
                } else {
                    &&& res is None
                    &&& final(self).active() == old(self).active()
                }
            }),
            old(self).settings().theme_mode == ThemeMode::System ==> final(self).active().text()
                == theme_for(old(self).settings(), appearance).text(),
    {
        if self.settings.theme_mode != ThemeMode::System {
            return None;
        }
        let next = resolve_theme_id(&self.settings, appearance);
        if text::same_text(next.as_str(), self.active_theme_id.as_str()) {
            return None;
        }
        self.active_theme_id = next.clone();
        Some(ActiveThemeChange { theme_id: next })
    }
}

// ---------------------------------------------------------------------------
// Laws
// ---------------------------------------------------------------------------

/// The explicit modes choose their theme whatever the system's appearance is;
/// the system mode chooses the theme that fits it.
pub proof fn law_theme_modes(settings: Settings, appearance: SystemAppearance)
    ensures
        settings.theme_mode == ThemeMode::Light ==> theme_for(settings, appearance)
            == settings.theme_id_light,
        settings.theme_mode == ThemeMode::Dark ==> theme_for(settings, appearance)
            == settings.theme_id_dark,
        settings.theme_mode == ThemeMode::System ==> theme_for(settings, appearance) == if appearance
            == SystemAppearance::Light {
            settings.theme_id_light
        } else {
            settings.theme_id_dark
        },
{
}

/// The changes among a run of polls: those that differ from the one before, the
/// first one from `start`.
pub open spec fn changes_among(
    start: SystemAppearance,
    polls: Seq<SystemAppearance>,
) -> Seq<SystemAppearance>
    decreases polls.len(),
{
    if polls.len() == 0 {
        Seq::empty()
    } else {
        let before = changes_among(start, polls.drop_last());
        if polls.last() == last_polled(start, polls.drop_last()) {
            before
        } else {
            before.push(polls.last())
        }
    }
}

/// The appearance after a run of polls.
pub open spec fn last_polled(
    start: SystemAppearance,
    polls: Seq<SystemAppearance>,
) -> SystemAppearance {
    if polls.len() == 0 {
        start
    } else {
        polls.last()
    }
}

/// What waits for each subscriber after a run of polls.
pub open spec fn waiting_after_all(
    start: SystemAppearance,
    waiting: Map<u64, Seq<SystemAppearance>>,
    polls: Seq<SystemAppearance>,
) -> Map<u64, Seq<SystemAppearance>>
    decreases polls.len(),
{
    if polls.len() == 0 {
        waiting
    } else {
        waiting_after(
            last_polled(start, polls.drop_last()),
            waiting_after_all(start, waiting, polls.drop_last()),
            polls.last(),
        )
    }
}

/// After any run of polls, exactly the changes among them wait for a subscriber,
/// in order, behind what waited for it before.
pub proof fn law_subscribers_get_every_change(
    start: SystemAppearance,
    waiting: Map<u64, Seq<SystemAppearance>>,
    polls: Seq<SystemAppearance>,
    id: u64,
)
    requires
        waiting.dom().contains(id),
    ensures
        waiting_after_all(start, waiting, polls).dom().contains(id),
        waiting_after_all(start, waiting, polls)[id] == waiting[id] + changes_among(start, polls),
    decreases polls.len(),
{
    if polls.len() > 0 {
        law_subscribers_get_every_change(start, waiting, polls.drop_last(), id);
    }
    assert(waiting_after_all(start, waiting, polls)[id] =~= waiting[id] + changes_among(
        start,
        polls,
    ));
}

} // verus!
