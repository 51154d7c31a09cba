//! The owner of `settings.toml`: the snapshot that everyone reads, and when it
//! changes.

use vstd::prelude::*;
use vstd::string::*;

use crate::numeral;
use crate::persistence::error::{PersistenceError, PersistenceErrorView};
use crate::settings::Settings;
use crate::store::writer;
use crate::store::writer::WriteAction;

verus! {

/// What came of reading the file.
#[derive(Debug)]
pub enum FileRead {
    /// There is no such file.
    Missing,
    /// It cannot be read.
    Unreadable(String),
    /// Reading was not carried out to its end.
    Aborted(String),
    /// Its content is malformed.
    Malformed(String),
    /// It holds these settings.
    Decoded(Settings),
}

/// What came of writing a draft.
#[derive(Debug, Clone, PartialEq, Eq)]
pub enum DraftWrite {
    /// The draft cannot be encoded.
    Unencodable(String),
    /// The file cannot be written.
    Unwritable(String),
    /// Writing was not carried out to its end.
    Aborted(String),
    /// The file holds the draft.
    Written,
}

/// Tells subscribers that the settings have changed.
#[derive(Debug, PartialEq)]
pub struct SettingsChanged {
    /// The settings as they are now.
    pub settings: Settings,
}

impl Clone for SettingsChanged {
    fn clone(&self) -> (res: Self)
        ensures
            res == *self,
    {
        Self { settings: self.settings.clone() }
    }
}

/// Whether a reload puts other settings in place of `snapshot`: the file can be
/// read and decoded, and does not say the same.
pub open spec fn replaces(read: FileRead, snapshot: Settings) -> bool {
    read matches FileRead::Decoded(settings) && !snapshot.agrees(settings)
}

/// The snapshot after a reload.
pub open spec fn reloaded(snapshot: Settings, read: FileRead) -> Settings {
    if replaces(read, snapshot) {
        read->Decoded_0
    } else {
        snapshot
    }
}

/// The snapshot after an edit: the draft becomes the snapshot if and only if it
/// was written.
pub open spec fn edited(snapshot: Settings, draft: Settings, write: DraftWrite) -> Settings {
    if write is Written {
        draft
    } else {
        snapshot
    }
}

/// How an edit ends.
pub open spec fn edit_result(write: DraftWrite) -> Result<(), PersistenceErrorView> {
    match write {
        DraftWrite::Written => Ok(()),
        DraftWrite::Unencodable(err) => Err(PersistenceErrorView::SerializationError(err@)),
        DraftWrite::Unwritable(err) => Err(PersistenceErrorView::IoError(err@)),
        DraftWrite::Aborted(err) => Err(
            PersistenceErrorView::IoError("settings write task panicked: "@ + err@),
        ),
    }
}

/// The in-process owner of the settings file.
#[derive(Debug)]
pub struct SettingsStore {
    path: String,
    snapshot: Settings,
}

impl SettingsStore {
    /// The path of the file.
    pub closed spec fn location(self) -> Seq<char> {
        self.path@
    }

    /// The settings as everyone sees them.
    pub closed spec fn settings(self) -> Settings {
        self.snapshot
    }

    /// The store of the file at `path`, given what came of reading it. A missing
    /// file stands for the default settings.
    pub fn load(path: &str, read: FileRead) -> (res: Result<Self, PersistenceError>)
        ensures
            match read {
                FileRead::Missing => res matches Ok(store) && store.location() == path@
                    && store.settings().is_default(),
                FileRead::Unreadable(err) => res matches Err(e) && e@
                    == PersistenceErrorView::IoError(err@),
                FileRead::Aborted(err) => res matches Err(e) && e@ == PersistenceErrorView::IoError(
                    "settings load task panicked: "@ + err@,
                ),
                FileRead::Malformed(err) => res matches Err(e) && e@
                    == PersistenceErrorView::SerializationError(err@),
                FileRead::Decoded(settings) => res matches Ok(store) && store.location() == path@
                    && store.settings() == settings,
            },
    {
        let snapshot = match read {
            FileRead::Missing => Settings::default(),
            FileRead::Unreadable(err) => {
                return Err(PersistenceError::IoError(err));
            },
            FileRead::Aborted(err) => {
                return Err(
                    PersistenceError::IoError(
                        "settings load task panicked: ".to_owned().concat(err.as_str()),
                    ),
                );
            },
            FileRead::Malformed(err) => {
                return Err(PersistenceError::SerializationError(err));
            },
            FileRead::Decoded(settings) => settings,
        };
        Ok(Self { path: path.to_owned(), snapshot })
    }

    /// The path of the file.
    #[must_use]
    pub fn path(&self) -> (res: &str)
        ensures
            res@ == self.location(),
    {
        self.path.as_str()
    }

    /// A copy of the settings as everyone sees them. An edit begins with it.
    #[must_use]
    pub fn current(&self) -> (res: Settings)
        ensures
            res == self.settings(),
    {
        self.snapshot.clone()
    }

    /// Ends an edit: the draft becomes the snapshot if and only if it was
    /// written.
    pub fn finish_edit(&mut self, draft: Settings, write: DraftWrite) -> (res: Result<
        (),
        PersistenceError,
    >)
        ensures
            final(self).location() == old(self).location(),
            final(self).settings() == edited(old(self).settings(), draft, write),
            match edit_result(write) {
                Ok(_) => res is Ok,
                Err(error) => res matches Err(e) && e@ == error,
            },
    {
        match write {
            DraftWrite::Unencodable(err) => Err(PersistenceError::SerializationError(err)),
            DraftWrite::Unwritable(err) => Err(PersistenceError::IoError(err)),
            DraftWrite::Aborted(err) => Err(
                PersistenceError::IoError(
                    "settings write task panicked: ".to_owned().concat(err.as_str()),
                ),
            ),
            DraftWrite::Written => {
                self.snapshot = draft;
                Ok(())
            },
        }
    }

    /// Takes in what came of reading the file again. The event goes to every
    /// subscriber; without one, nothing has changed.
    pub fn reload(&mut self, read: FileRead) -> (res: Option<SettingsChanged>)
        ensures
            final(self).location() == old(self).location(),
            final(self).settings() == reloaded(old(self).settings(), read),
            match res {
                Some(event) => replaces(read, old(self).settings()) && event.settings
                    == final(self).settings(),
                None => !replaces(read, old(self).settings()),
            },
    {
        match read {
            FileRead::Decoded(settings) => {
                if self.snapshot.same_settings(&settings) {
                    None
                } else {
                    let event = SettingsChanged { settings: settings.clone() };
                    self.snapshot = settings;
                    Some(event)
                }
            },
            _ => None,
        }
    }
}

/// A file that cannot be read or decoded leaves the snapshot as it was, without
/// an event.
pub proof fn law_faulty_file_changes_nothing(snapshot: Settings, read: FileRead)
    requires
        !(read is Decoded),
    ensures
        reloaded(snapshot, read) == snapshot,
        !replaces(read, snapshot),
{
}

/// Settings whose font sizes are numbers agree with themselves.
pub proof fn law_settings_agree_with_themselves(settings: Settings)
    requires
        numeral::magnitude(settings.font_settings.ui_size.bits) <= 0x7f80_0000,
        numeral::magnitude(settings.font_settings.editor_size.bits) <= 0x7f80_0000,
        numeral::magnitude(settings.font_settings.terminal_size.bits) <= 0x7f80_0000,
    ensures
        settings.agrees(settings),
{
}

/// Reading the same content again gives no second event: a subscriber wakes only
/// when the settings have changed.
pub proof fn law_same_content_is_silent(snapshot: Settings, settings: Settings)
    requires
        settings.agrees(settings),
    ensures
        !replaces(
            FileRead::Decoded(settings),
            reloaded(snapshot, FileRead::Decoded(settings)),
        ),
{
}

/// Right after an edit, the watcher finds the file to say what the snapshot says.
pub proof fn law_own_edit_is_silent(draft: Settings)
    requires
        draft.agrees(draft),
    ensures
        !replaces(FileRead::Decoded(draft), draft),
{
}

// ---------------------------------------------------------------------------
// Whole edits
// ---------------------------------------------------------------------------

/// The settings in memory, and the content of the file, where there is one.
pub struct ModelStore {
    pub memory: Settings,
    pub file: Option<Seq<u8>>,
}

/// One edit: what the mutator makes of a draft, and how the actions of replacing
/// the file go.
pub struct ModelEdit {
    pub mutator: spec_fn(Settings) -> Settings,
    pub outcomes: Seq<Result<(), String>>,
}

/// How settings are encoded.
pub type Encoding = spec_fn(Settings) -> Result<Seq<u8>, String>;

impl ModelEdit {
    /// Whether replacing the file was carried out to its end.
    pub open spec fn is_over(self) -> bool {
        writer::reached(self.outcomes) is Written || writer::reached(self.outcomes) is Failed
    }

    /// What comes of writing `draft`.
    pub open spec fn write(self, draft: Settings, encode: Encoding) -> DraftWrite {
        match encode(draft) {
            Err(err) => DraftWrite::Unencodable(err),
            Ok(_) => match writer::reached(self.outcomes) {
                WriteAction::Failed(err) => DraftWrite::Unwritable(err),
                _ => DraftWrite::Written,
            },
        }
    }
}

impl ModelStore {
    /// What is left when the draft of an edit is written, and how the edit ends.
    /// The file is replaced only where the draft can be encoded.
    pub open spec fn written(self, draft: Settings, edit: ModelEdit, encode: Encoding) -> (
        ModelStore,
        Result<(), PersistenceErrorView>,
    ) {
        let write = edit.write(draft, encode);
        (
            ModelStore {
                memory: edited(self.memory, draft, write),
                file: match encode(draft) {
                    Err(_) => self.file,
                    Ok(content) => writer::target_after(self.file, content, edit.outcomes),
                },
            },
            edit_result(write),
        )
    }

    /// What is left after an edit, and how it ends.
    pub open spec fn after(self, edit: ModelEdit, encode: Encoding) -> (
        ModelStore,
        Result<(), PersistenceErrorView>,
    ) {
        self.written((edit.mutator)(self.memory), edit, encode)
    }

    /// What is left after edits one after the other.
    pub open spec fn after_all(self, edits: Seq<ModelEdit>, encode: Encoding) -> ModelStore
        decreases edits.len(),
    {
        if edits.len() == 0 {
            self
        } else {
            self.after_all(edits.drop_last(), encode).after(edits.last(), encode).0
        }
    }

    /// Whether the file says what memory says. A missing file stands for the
    /// default settings.
    pub open spec fn is_in_step(self, decode: spec_fn(Seq<u8>) -> Option<Settings>) -> bool {
        match self.file {
            Some(content) => decode(content) == Some(self.memory),
            None => self.memory.is_default(),
        }
    }
}

/// An edit changes memory and file, or neither. It succeeds exactly where the
/// draft, which the mutator makes of the settings in memory, can be encoded and
/// written: then both hold it. A draft that cannot be encoded is a serialisation
/// error; a file that cannot be written is an input or output error.
pub proof fn law_edit_is_all_or_nothing(store: ModelStore, edit: ModelEdit, encode: Encoding)
    requires
        edit.is_over(),
    ensures
        ({
            let draft = (edit.mutator)(store.memory);
            let end = store.after(edit, encode);
            match (encode(draft), writer::reached(edit.outcomes)) {
                (Err(err), _) => end == (
                    store,
                    Err::<(), _>(PersistenceErrorView::SerializationError(err@)),
                ),
                (Ok(_), WriteAction::Failed(err)) => end == (
                    store,
                    Err::<(), _>(PersistenceErrorView::IoError(err@)),
                ),
                (Ok(content), _) => end == (
                    ModelStore { memory: draft, file: Some(content) },
                    Ok::<(), PersistenceErrorView>(()),
                ),
            }
        }),
{
    if let Ok(content) = encode((edit.mutator)(store.memory)) {
        writer::law_target_is_old_or_new(store.file, content, edit.outcomes);
    }
}

/// However many edits follow one another, and whichever of them fail, the file
/// says what memory says, if that was so before and decoding undoes encoding.
pub proof fn law_edits_keep_file_and_memory_in_step(
    store: ModelStore,
    edits: Seq<ModelEdit>,
    encode: Encoding,
    decode: spec_fn(Seq<u8>) -> Option<Settings>,
)
    requires
        store.is_in_step(decode),
        forall|i: int| 0 <= i < edits.len() ==> (#[trigger] edits[i]).is_over(),
        forall|s: Settings|
            #![trigger encode(s)]
            encode(s) is Ok ==> decode(encode(s)->Ok_0) == Some(s),
    ensures
        store.after_all(edits, encode).is_in_step(decode),
    decreases edits.len(),
{
    if edits.len() > 0 {
        law_edits_keep_file_and_memory_in_step(store, edits.drop_last(), encode, decode);
        assert(edits.last() == edits[edits.len() - 1]);
        law_edit_is_all_or_nothing(
            store.after_all(edits.drop_last(), encode),
            edits.last(),
            encode,
        );
    }
}

/// A step of edits that run at the same time.
pub enum EditStep {
    /// An edit takes the lock, and its mutator makes a draft of the settings in
    /// memory.
    Begin(ModelEdit),
    /// The edit that holds the lock writes its draft and gives the lock back.
    Finish,
}

/// Edits that run at the same time: what they have left so far, and the edit that
/// holds the lock, with its draft.
pub struct EditRun {
    pub store: ModelStore,
    pub held: Option<(ModelEdit, Settings)>,
}

/// The run after a step; none where the lock does not allow it: an edit begins
/// only while no other is under way.
pub open spec fn stepped(run: EditRun, step: EditStep, encode: Encoding) -> Option<EditRun> {
    match (step, run.held) {
        (EditStep::Begin(edit), None) => Some(
            EditRun { held: Some((edit, (edit.mutator)(run.store.memory))), ..run },
        ),
        (EditStep::Finish, Some((edit, draft))) => Some(
            EditRun { store: run.store.written(draft, edit, encode).0, held: None },
        ),
        _ => None,
    }
}

/// The run after steps, and the edits that are finished, in the order in which
/// they began; none where the lock does not allow the steps.
pub open spec fn scheduled(store: ModelStore, steps: Seq<EditStep>, encode: Encoding) -> Option<
    (EditRun, Seq<ModelEdit>),
>
    decreases steps.len(),
{
    if steps.len() == 0 {
        Some((EditRun { store, held: None }, Seq::empty()))
    } else {
        match scheduled(store, steps.drop_last(), encode) {
            None => None,
            Some((run, finished)) => match stepped(run, steps.last(), encode) {
                None => None,
                Some(next) => Some(
                    (
                        next,
                        match (steps.last(), run.held) {
                            (EditStep::Finish, Some((edit, _))) => finished.push(edit),
                            _ => finished,
                        },
                    ),
                ),
            },
        }
    }
}

/// Edits that run at the same time act as if one came after the other, in the
/// order in which they take the lock: what they leave is what the finished ones
/// leave one by one.
pub proof fn law_concurrent_edits_are_serial(
    store: ModelStore,
    steps: Seq<EditStep>,
    encode: Encoding,
)
    requires
        scheduled(store, steps, encode) is Some,
    ensures
        ({
            let (run, finished) = scheduled(store, steps, encode)->0;
            &&& run.store == store.after_all(finished, encode)
            &&& run.held matches Some((edit, draft)) ==> draft == (edit.mutator)(run.store.memory)
        }),
    decreases steps.len(),
{
    if steps.len() > 0 {
        law_concurrent_edits_are_serial(store, steps.drop_last(), encode);
        let (run, finished) = scheduled(store, steps.drop_last(), encode)->0;
        if let Some((edit, _)) = run.held {
            assert(finished.push(edit).drop_last() =~= finished);
            assert(finished.push(edit).last() == edit);
        }
    }
}

} // verus!
