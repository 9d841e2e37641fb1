//! Where the settings record is kept, and the order of work when it is saved
//! or loaded.
//!
//! The record lives in the file `settings.json` of the per-user configuration
//! directory of the application `(com, rhizos, cloud)`. It is always written
//! and read as a whole. Touching the file system and turning the record into
//! text and back are the embedding program's part. What to do next, and what
//! a failure amounts to, is decided here: [`save_settings`] and
//! [`load_settings`] name the first step, [`continue_save`] and
//! [`continue_load`] take the outcome of the step that was asked for and name
//! the next one, until the step is `Done`. [`begin_save`] and [`begin_load`]
//! do as the first two for a configuration directory of the caller's choice.

use vstd::prelude::*;
use crate::error::{LauncherError, LauncherErrorView};
use crate::files::{FilePath, FilePathView};
use crate::settings::{NodeSettings, NodeSettingsView};

verus! {

/// `directories::ProjectDirs`, the standard directories of one application.
/// A value of it is only carried from one call into that crate to the next.
#[verifier::external_type_specification]
#[verifier::external_body]
pub struct ExProjectDirs(directories::ProjectDirs);

/// Calls `directories::ProjectDirs::from`: the standard directories of the
/// named application for the current user, or `None` when the operating
/// system yields no home directory. The answer depends on the user's
/// environment, so nothing is claimed of it.
#[verifier::external_body]
fn project_dirs(qualifier: &str, organization: &str, application: &str) -> (dirs: Option<
    directories::ProjectDirs,
>) {
    directories::ProjectDirs::from(qualifier, organization, application)
}

/// Calls `directories::ProjectDirs::config_dir` and hands the path out as
/// text, `None` when the path is not valid Unicode. Nothing is claimed of
/// the text.
#[verifier::external_body]
fn config_dir_of(dirs: &directories::ProjectDirs) -> (dir: Option<String>) {
    dirs.config_dir().to_str().map(|text| text.to_owned())
}

/// The identity under which the application's directories are looked up:
/// qualifier, organization and application name.
pub fn application_identity() -> (identity: (&'static str, &'static str, &'static str))
    ensures
        identity.0@ == "com"@,
        identity.1@ == "rhizos"@,
        identity.2@ == "cloud"@,
{
    ("com", "rhizos", "cloud")
}

/// The per-user configuration directory of the application named by
/// [`application_identity`], `None` when it cannot be determined. The answer
/// depends on the user's environment.
pub fn config_dir() -> (dir: Option<String>) {
    let identity = application_identity();
    match project_dirs(identity.0, identity.1, identity.2) {
        Some(dirs) => config_dir_of(&dirs),
        None => None,
    }
}

/// The settings file of the configuration directory `dir`.
pub open spec fn settings_file_in(dir: Seq<char>) -> FilePathView {
    FilePathView { dir, name: "settings.json"@ }
}

/// The settings file of the configuration directory `dir`.
pub fn settings_file(dir: &str) -> (file: FilePath)
    ensures
        file@ == settings_file_in(dir@),
{
    FilePath { dir: dir.to_owned(), name: "settings.json".to_owned() }
}

/// What is to be done next in a save. The embedding program does it and
/// hands the outcome to [`continue_save`], until the step is `Done`.
#[derive(Debug, PartialEq, Eq)]
pub enum SaveStep {
    /// Create the directory of `file`, with its parents, unless it exists.
    CreateDir { file: FilePath, settings: NodeSettings },
    /// Turn the whole of `settings` into text.
    Encode { file: FilePath, settings: NodeSettings },
    /// Write `content` to `file`, replacing what the file held.
    Write { file: FilePath, content: String },
    /// The save has ended, well or with the failure given.
    Done(Result<(), LauncherError>),
}

/// Outcome of a step of a save; each failure carries its reason.
#[derive(Debug, PartialEq, Eq)]
pub enum SaveEvent {
    DirCreated(Result<(), String>),
    Encoded(Result<String, String>),
    Written(Result<(), String>),
}

/// Mathematical value of a [`SaveStep`].
pub enum SaveStepView {
    CreateDir { file: FilePathView, settings: NodeSettingsView },
    Encode { file: FilePathView, settings: NodeSettingsView },
    Write { file: FilePathView, content: Seq<char> },
    Done(Result<(), LauncherErrorView>),
}

/// Mathematical value of a [`SaveEvent`].
pub enum SaveEventView {
    DirCreated(Result<(), Seq<char>>),
    Encoded(Result<Seq<char>, Seq<char>>),
    Written(Result<(), Seq<char>>),
}

impl View for SaveStep {
    type V = SaveStepView;

    open spec fn view(&self) -> SaveStepView {
        match self {
            SaveStep::CreateDir { file, settings } => SaveStepView::CreateDir {
                file: file@,
                settings: settings@,
            },
            SaveStep::Encode { file, settings } => SaveStepView::Encode { file: file@, settings: settings@ },
            SaveStep::Write { file, content } => SaveStepView::Write { file: file@, content: content@ },
            SaveStep::Done(Ok(())) => SaveStepView::Done(Ok(())),
            SaveStep::Done(Err(failure)) => SaveStepView::Done(Err(failure@)),
        }
    }
}

impl View for SaveEvent {
    type V = SaveEventView;

    open spec fn view(&self) -> SaveEventView {
        match self {
            SaveEvent::DirCreated(Ok(())) => SaveEventView::DirCreated(Ok(())),
            SaveEvent::DirCreated(Err(reason)) => SaveEventView::DirCreated(Err(reason@)),
            SaveEvent::Encoded(Ok(text)) => SaveEventView::Encoded(Ok(text@)),
            SaveEvent::Encoded(Err(reason)) => SaveEventView::Encoded(Err(reason@)),
            SaveEvent::Written(Ok(())) => SaveEventView::Written(Ok(())),
            SaveEvent::Written(Err(reason)) => SaveEventView::Written(Err(reason@)),
        }
    }
}

/// First step of a save of `settings` into the configuration directory
/// `config_dir` (`None` when it could not be determined).
pub open spec fn save_begun(config_dir: Option<Seq<char>>, settings: NodeSettingsView) -> SaveStepView {
    match config_dir {
        Some(dir) => SaveStepView::CreateDir { file: settings_file_in(dir), settings },
        None => SaveStepView::Done(Err(LauncherErrorView::ConfigDirUnavailable(None))),
    }
}

/// The step after `step`, once `event` has come in. The directory is created
/// first, then the record is encoded, then the text is written; the first
/// failure ends the save. An event that does not answer `step` changes
/// nothing.
pub open spec fn save_continued(step: SaveStepView, event: SaveEventView) -> SaveStepView {
    match (step, event) {
        (SaveStepView::CreateDir { file, settings }, SaveEventView::DirCreated(Ok(()))) => SaveStepView::Encode {
            file,
            settings,
        },
        (
            SaveStepView::CreateDir { file, settings },
            SaveEventView::DirCreated(Err(reason)),
        ) => SaveStepView::Done(Err(LauncherErrorView::ConfigDirUnavailable(Some(reason)))),
        (
            SaveStepView::Encode { file, settings },
            SaveEventView::Encoded(Ok(content)),
        ) => SaveStepView::Write { file, content },
        (SaveStepView::Encode { file, settings }, SaveEventView::Encoded(Err(reason))) => SaveStepView::Done(
            Err(LauncherErrorView::SerializeFailed(reason)),
        ),
        (SaveStepView::Write { file, content }, SaveEventView::Written(Ok(()))) => SaveStepView::Done(
            Ok(()),
        ),
        (SaveStepView::Write { file, content }, SaveEventView::Written(Err(reason))) => SaveStepView::Done(
            Err(LauncherErrorView::WriteFailed(reason)),
        ),
        _ => step,
    }
}

/// First step of a save of `settings`. `config_dir` is the configuration
/// directory, `None` when it could not be determined.
pub fn begin_save(config_dir: Option<String>, settings: NodeSettings) -> (step: SaveStep)
    ensures
        step@ == save_begun(config_dir.deep_view(), settings@),
{
    match config_dir {
        Some(dir) => SaveStep::CreateDir { file: settings_file(dir.as_str()), settings },
        None => SaveStep::Done(Err(LauncherError::ConfigDirUnavailable(None))),
    }
}

/// The step after `step`, once `event` has come in.
pub fn continue_save(step: SaveStep, event: SaveEvent) -> (next: SaveStep)
    ensures
        next@ == save_continued(step@, event@),
{
    match (step, event) {
        (SaveStep::CreateDir { file, settings }, SaveEvent::DirCreated(Ok(()))) => SaveStep::Encode {
            file,
            settings,
        },
        (SaveStep::CreateDir { file, settings }, SaveEvent::DirCreated(Err(reason))) => SaveStep::Done(
            Err(LauncherError::ConfigDirUnavailable(Some(reason))),
        ),
        (SaveStep::Encode { file, settings }, SaveEvent::Encoded(Ok(content))) => SaveStep::Write {
            file,
            content,
        },
        (SaveStep::Encode { file, settings }, SaveEvent::Encoded(Err(reason))) => SaveStep::Done(
            Err(LauncherError::SerializeFailed(reason)),
        ),
        (SaveStep::Write { file, content }, SaveEvent::Written(Ok(()))) => SaveStep::Done(Ok(())),
        (SaveStep::Write { file, content }, SaveEvent::Written(Err(reason))) => SaveStep::Done(
            Err(LauncherError::WriteFailed(reason)),
        ),
        (step, _) => step,
    }
}

/// First step of a save of `settings` into the user's configuration
/// directory, wherever [`config_dir`] finds it.
pub fn save_settings(settings: NodeSettings) -> (step: SaveStep)
    ensures
        exists|dir: Option<Seq<char>>| step@ == #[trigger] save_begun(dir, settings@),
{
    let dir = config_dir();
    let step = begin_save(dir, settings);
    assert(step@ == save_begun(dir.deep_view(), settings@));
    step
}

/// What is to be done next in a load. The embedding program does it and
/// hands the outcome to [`continue_load`], until the step is `Done`.
#[derive(Debug, PartialEq, Eq)]
pub enum LoadStep {
    /// Read the whole of `file` as text.
    Read { file: FilePath },
    /// Turn `content` into a record.
    Decode { content: String },
    /// The load has ended with the stored record, or with `None` when there
    /// is no record to be had.
    Done(Option<NodeSettings>),
}

/// Outcome of a step of a load; `None` where the step failed.
#[derive(Debug, PartialEq, Eq)]
pub enum LoadEvent {
    FileRead(Option<String>),
    Decoded(Option<NodeSettings>),
}

/// Mathematical value of a [`LoadStep`].
pub enum LoadStepView {
    Read { file: FilePathView },
    Decode { content: Seq<char> },
    Done(Option<NodeSettingsView>),
}

/// Mathematical value of a [`LoadEvent`].
pub enum LoadEventView {
    FileRead(Option<Seq<char>>),
    Decoded(Option<NodeSettingsView>),
}

impl View for LoadStep {
    type V = LoadStepView;

    open spec fn view(&self) -> LoadStepView {
        match self {
            LoadStep::Read { file } => LoadStepView::Read { file: file@ },
            LoadStep::Decode { content } => LoadStepView::Decode { content: content@ },
            LoadStep::Done(Some(settings)) => LoadStepView::Done(Some(settings@)),
            LoadStep::Done(None) => LoadStepView::Done(None),
        }
    }
}

impl View for LoadEvent {
    type V = LoadEventView;

    open spec fn view(&self) -> LoadEventView {
        match self {
            LoadEvent::FileRead(Some(content)) => LoadEventView::FileRead(Some(content@)),
            LoadEvent::FileRead(None) => LoadEventView::FileRead(None),
            LoadEvent::Decoded(Some(settings)) => LoadEventView::Decoded(Some(settings@)),
            LoadEvent::Decoded(None) => LoadEventView::Decoded(None),
        }
    }
}

/// First step of a load from the configuration directory `config_dir`
/// (`None` when it could not be determined).
pub open spec fn load_begun(config_dir: Option<Seq<char>>) -> LoadStepView {
    match config_dir {
        Some(dir) => LoadStepView::Read { file: settings_file_in(dir) },
        None => LoadStepView::Done(None),
    }
}

/// The step after `step`, once `event` has come in. The file is read, then
/// its text is decoded; the first failure ends the load without a record. An
/// event that does not answer `step` changes nothing.
pub open spec fn load_continued(step: LoadStepView, event: LoadEventView) -> LoadStepView {
    match (step, event) {
        (LoadStepView::Read { file }, LoadEventView::FileRead(Some(content))) => LoadStepView::Decode {
            content,
        },
        (LoadStepView::Read { file }, LoadEventView::FileRead(None)) => LoadStepView::Done(None),
        (LoadStepView::Decode { content }, LoadEventView::Decoded(settings)) => LoadStepView::Done(
            settings,
        ),
        _ => step,
    }
}

/// First step of a load. `config_dir` is the configuration directory, `None`
/// when it could not be determined.
pub fn begin_load(config_dir: Option<String>) -> (step: LoadStep)
    ensures
        step@ == load_begun(config_dir.deep_view()),
{
    match config_dir {
        Some(dir) => LoadStep::Read { file: settings_file(dir.as_str()) },
        None => LoadStep::Done(None),
    }
}

/// The step after `step`, once `event` has come in.
pub fn continue_load(step: LoadStep, event: LoadEvent) -> (next: LoadStep)
    ensures
        next@ == load_continued(step@, event@),
{
    match (step, event) {
        (LoadStep::Read { file }, LoadEvent::FileRead(Some(content))) => LoadStep::Decode { content },
        (LoadStep::Read { file }, LoadEvent::FileRead(None)) => LoadStep::Done(None),
        (LoadStep::Decode { content }, LoadEvent::Decoded(settings)) => LoadStep::Done(settings),
        (step, _) => step,
    }
}

/// First step of a load from the user's configuration directory, wherever
/// [`config_dir`] finds it.
pub fn load_settings() -> (step: LoadStep)
    ensures
        exists|dir: Option<Seq<char>>| step@ == #[trigger] load_begun(dir),
{
    let dir = config_dir();
    let step = begin_load(dir);
    assert(step@ == load_begun(dir.deep_view()));
    step
}

/// Where a save of `settings` ends when its steps are answered in order:
/// `created`, `encoded` and `written` are the outcomes of creating the
/// directory, of encoding the record and of writing the file.
pub open spec fn save_ended(
    config_dir: Option<Seq<char>>,
    settings: NodeSettingsView,
    created: Result<(), Seq<char>>,
    encoded: Result<Seq<char>, Seq<char>>,
    written: Result<(), Seq<char>>,
) -> SaveStepView {
    save_continued(
        save_continued(
            save_continued(save_begun(config_dir, settings), SaveEventView::DirCreated(created)),
            SaveEventView::Encoded(encoded),
        ),
        SaveEventView::Written(written),
    )
}

/// Where a load ends when its steps are answered in order: `read` and
/// `decoded` are the outcomes of reading the file and of decoding its text.
pub open spec fn load_ended(
    config_dir: Option<Seq<char>>,
    read: Option<Seq<char>>,
    decoded: Option<NodeSettingsView>,
) -> LoadStepView {
    load_continued(
        load_continued(load_begun(config_dir), LoadEventView::FileRead(read)),
        LoadEventView::Decoded(decoded),
    )
}

/// A save ends well exactly when the configuration directory is known and
/// every step succeeded; otherwise it ends with the first failure, which is
/// never dropped.
pub proof fn lemma_save_reports_first_failure(
    config_dir: Option<Seq<char>>,
    settings: NodeSettingsView,
    created: Result<(), Seq<char>>,
    encoded: Result<Seq<char>, Seq<char>>,
    written: Result<(), Seq<char>>,
)
    ensures
        save_ended(config_dir, settings, created, encoded, written) == SaveStepView::Done(
            if config_dir is None {
                Err(LauncherErrorView::ConfigDirUnavailable(None))
            } else if created is Err {
                Err(LauncherErrorView::ConfigDirUnavailable(Some(created->Err_0)))
            } else if encoded is Err {
                Err(LauncherErrorView::SerializeFailed(encoded->Err_0))
            } else if written is Err {
                Err(LauncherErrorView::WriteFailed(written->Err_0))
            } else {
                Ok(())
            },
        ),
{
}

/// A load ends with the decoded record when the configuration directory is
/// known, the file could be read and its text could be decoded; in every
/// other case it ends without a record, and never with a failure.
pub proof fn lemma_load_yields_record_or_nothing(
    config_dir: Option<Seq<char>>,
    read: Option<Seq<char>>,
    decoded: Option<NodeSettingsView>,
)
    ensures
        load_ended(config_dir, read, decoded) == LoadStepView::Done(
            if config_dir is Some && read is Some {
                decoded
            } else {
                None
            },
        ),
{
}

/// A save and a load hand on what they are given, unchanged, and meet at
/// one file. A save of `settings` into `dir` asks for the whole of
/// `settings` to be encoded, and for the text that comes back to be written
/// as it is to the settings file of `dir`. A load from `dir` asks for that
/// same file to be read, and ends with the record that decoding gives for
/// the text that was read. Nothing is said here of what encoding and
/// decoding do, nor of what the file holds between the two.
pub proof fn lemma_save_and_load_hand_on_unchanged(
    dir: Seq<char>,
    settings: NodeSettingsView,
    text: Seq<char>,
    decoded: Option<NodeSettingsView>,
)
    ensures
        save_continued(save_begun(Some(dir), settings), SaveEventView::DirCreated(Ok(())))
            == (SaveStepView::Encode { file: settings_file_in(dir), settings }),
        save_continued(
            SaveStepView::Encode { file: settings_file_in(dir), settings },
            SaveEventView::Encoded(Ok(text)),
        ) == (SaveStepView::Write { file: settings_file_in(dir), content: text }),
        load_begun(Some(dir)) == (LoadStepView::Read { file: settings_file_in(dir) }),
        load_continued(load_begun(Some(dir)), LoadEventView::FileRead(Some(text)))
            == (LoadStepView::Decode { content: text }),
        load_ended(Some(dir), Some(text), decoded) == LoadStepView::Done(decoded),
{
}

} // verus!
