//! The update pipeline as a state machine.  A run walks strictly forward
//! through resolving the version, downloading the archive, unpacking it,
//! cleaning up the downloaded file and launching the installed executable;
//! any failure short-circuits the remaining stages.  Every decision is made
//! here by `step`; an unverified shell performs the emitted [`Action`] and
//! feeds the outcome back as the next [`Event`].

use vstd::prelude::*;
use crate::archive::{
    entries_of_archive, entry_model_safe, unpack_archive, vet_entries, TarEntry, TarEntryModel,
};
use crate::errors::UpdateError;
use crate::numbers::{valid_version_text, version_text_value};
use crate::urls::{archive_url_chars, download_url, version_url, version_url_chars};

verus! {

/// Which version the invocation asked for: a named request for the newest
/// version of the channel, or an explicit version number.
#[derive(Clone, Copy, PartialEq, Eq, Structural, Debug)]
pub enum VersionRequest {
    Latest,
    Explicit(i32),
}

/// The invocation configuration, immutable for the whole run.
#[derive(Debug, PartialEq, Eq)]
pub struct Config {
    pub platform: crate::platform::Platform,
    pub channel: String,
    pub version: VersionRequest,
    pub keep_download_file: bool,
    pub verbose: bool,
}

/// Where a run stands.  Control only ever moves forward, or into one of the
/// two failure stages.
#[derive(Clone, Copy, PartialEq, Eq, Structural, Debug)]
pub enum State {
    /// Nothing has happened yet.
    Start,
    /// The version request is out.
    FetchingVersion,
    /// The archive request for this version is out.
    FetchingArchive { version: i32 },
    /// The archive bytes are being written to the download file.
    SavingArchive,
    /// The old installation directory is being removed.
    PreparingDir,
    /// The download file is being read back for extraction.
    LoadingArchive,
    /// The decoded entries are being written to the working directory.
    WritingEntries,
    /// Extraction succeeded; the download file is being deleted.
    Cleaning,
    /// A stage failed after the download file was created; the file is being
    /// deleted before the failure is reported.
    CleaningAfterFailure { error: UpdateError },
    /// The installed executable is running.
    Launching,
    /// The run finished successfully.
    Done,
    /// The run failed.
    Failed { error: UpdateError },
}

/// What the shell reports back after performing an action.
#[derive(Debug, PartialEq, Eq)]
pub enum Event {
    /// Kicks off the run.
    Begin,
    /// A request could not be sent or its response not be received.
    TransportFailed,
    /// The version request came back with this status and body.
    TextResponse { status: u16, body: String },
    /// The archive request came back with this status and body.
    BytesResponse { status: u16, body: Vec<u8> },
    /// The archive bytes were written to the download file, or not.
    Saved { ok: bool },
    /// The removal of the old installation directory was attempted.
    DirRemoved,
    /// The download file was read back, or could not be.
    ArchiveLoaded { bytes: Option<Vec<u8>> },
    /// The decoded entries were written out, or not.
    EntriesWritten { ok: bool },
    /// The deletion of the download file was attempted.
    FileDeleted,
    /// The installed executable ran to completion, or could not be spawned.
    Launched { ok: bool },
}

/// What the machine asks the shell to do next.
#[derive(Debug, PartialEq, Eq)]
pub enum Action {
    /// Send a GET request and report status and text body.
    GetText { url: String },
    /// Send a GET request and report status and raw body.
    GetBytes { url: String },
    /// Write these bytes to this file.
    SaveArchive { path: String, bytes: Vec<u8> },
    /// Remove this directory, best effort.
    RemoveDir { path: String },
    /// Read this file back.
    LoadArchive { path: String },
    /// Write these entries below the working directory, preserving relative
    /// paths, modes, links and directory structure.  Every entry here has
    /// passed the path-safety vetting.
    WriteEntries { entries: Vec<TarEntry> },
    /// Delete this file, best effort.
    DeleteFile { path: String },
    /// Spawn this executable and wait for it.
    Launch { path: String },
    /// Stop, reporting this error if there is one.
    Finish { error: Option<UpdateError> },
    /// Do nothing; the machine saw an event it did not expect.
    Hold,
}

/// The mathematical image of an action.
pub enum ActionModel {
    GetText { url: Seq<char> },
    GetBytes { url: Seq<char> },
    SaveArchive { path: Seq<char>, bytes: Seq<u8> },
    RemoveDir { path: Seq<char> },
    LoadArchive { path: Seq<char> },
    WriteEntries { entries: Seq<TarEntryModel> },
    DeleteFile { path: Seq<char> },
    Launch { path: Seq<char> },
    Finish { error: Option<UpdateError> },
    Hold,
}

impl View for Action {
    type V = ActionModel;

    open spec fn view(&self) -> ActionModel {
        match self {
            Action::GetText { url } => ActionModel::GetText { url: url@ },
            Action::GetBytes { url } => ActionModel::GetBytes { url: url@ },
            Action::SaveArchive { path, bytes } => ActionModel::SaveArchive {
                path: path@,
                bytes: bytes@,
            },
            Action::RemoveDir { path } => ActionModel::RemoveDir { path: path@ },
            Action::LoadArchive { path } => ActionModel::LoadArchive { path: path@ },
            Action::WriteEntries { entries } => ActionModel::WriteEntries {
                entries: entries@.map_values(|t: TarEntry| t@),
            },
            Action::DeleteFile { path } => ActionModel::DeleteFile { path: path@ },
            Action::Launch { path } => ActionModel::Launch { path: path@ },
            Action::Finish { error } => ActionModel::Finish { error: *error },
            Action::Hold => ActionModel::Hold,
        }
    }
}

/// The fixed name of the download file.
pub open spec fn download_path_chars() -> Seq<char> {
    "download.tar.gz"@
}

/// The fixed name of the installation directory.
pub open spec fn install_dir_chars() -> Seq<char> {
    "chromapper"@
}

/// The fixed path of the installed executable.
pub open spec fn executable_path_chars() -> Seq<char> {
    "./chromapper/ChroMapper"@
}

/// The name of the download file.
pub fn download_path() -> (r: String)
    ensures
        r@ == download_path_chars(),
{
    String::from_str("download.tar.gz")
}

/// The name of the installation directory.
pub fn install_dir() -> (r: String)
    ensures
        r@ == install_dir_chars(),
{
    String::from_str("chromapper")
}

/// The path of the installed executable.
pub fn executable_path() -> (r: String)
    ensures
        r@ == executable_path_chars(),
{
    String::from_str("./chromapper/ChroMapper")
}

/// The state a failing stage moves to once the download file exists: the
/// file is deleted first unless it is to be retained.
pub open spec fn fail_cleanup_state(cfg: Config, err: UpdateError) -> State {
    if cfg.keep_download_file {
        State::Failed { error: err }
    } else {
        State::CleaningAfterFailure { error: err }
    }
}

/// The action a failing stage emits once the download file exists.
pub open spec fn fail_cleanup_action(cfg: Config, err: UpdateError) -> ActionModel {
    if cfg.keep_download_file {
        ActionModel::Finish { error: Some(err) }
    } else {
        ActionModel::DeleteFile { path: download_path_chars() }
    }
}

/// The state after one step of the pipeline.
pub open spec fn next_state(cfg: Config, s: State, e: Event) -> State {
    match (s, e) {
        (State::Start, Event::Begin) => match cfg.version {
            VersionRequest::Latest => State::FetchingVersion,
            VersionRequest::Explicit(v) => State::FetchingArchive { version: v },
        },
        (State::FetchingVersion, Event::TransportFailed) => (State::Failed {
            error: UpdateError::Network,
        }),
        (State::FetchingVersion, Event::TextResponse { status, body }) => {
            if status != 200 {
                State::Failed { error: UpdateError::Network }
            } else if valid_version_text(body@) {
                State::FetchingArchive { version: version_text_value(body@) as i32 }
            } else {
                State::Failed { error: UpdateError::Format }
            }
        },
        (State::FetchingArchive { version }, Event::TransportFailed) => (State::Failed {
            error: UpdateError::Network,
        }),
        (State::FetchingArchive { version }, Event::BytesResponse { status, body }) => {
            if status != 200 {
                State::Failed { error: UpdateError::Network }
            } else {
                State::SavingArchive
            }
        },
        (State::SavingArchive, Event::Saved { ok }) => {
            if ok {
                State::PreparingDir
            } else {
                fail_cleanup_state(cfg, UpdateError::LocalIo)
            }
        },
        (State::PreparingDir, Event::DirRemoved) => State::LoadingArchive,
        (State::LoadingArchive, Event::ArchiveLoaded { bytes }) => match bytes {
            Some(b) => match entries_of_archive(b@) {
                Some(es) => State::WritingEntries,
                None => fail_cleanup_state(cfg, UpdateError::LocalIo),
            },
            None => fail_cleanup_state(cfg, UpdateError::LocalIo),
        },
        (State::WritingEntries, Event::EntriesWritten { ok }) => {
            if !ok {
                fail_cleanup_state(cfg, UpdateError::LocalIo)
            } else if cfg.keep_download_file {
                State::Launching
            } else {
                State::Cleaning
            }
        },
        (State::Cleaning, Event::FileDeleted) => State::Launching,
        (State::CleaningAfterFailure { error }, Event::FileDeleted) => (State::Failed {
            error: error,
        }),
        (State::Launching, Event::Launched { ok }) => {
            if ok {
                State::Done
            } else {
                State::Failed { error: UpdateError::LocalIo }
            }
        },
        (other, _) => other,
    }
}

/// The action after one step of the pipeline.
pub open spec fn next_action(cfg: Config, s: State, e: Event) -> ActionModel {
    match (s, e) {
        (State::Start, Event::Begin) => match cfg.version {
            VersionRequest::Latest => (ActionModel::GetText {
                url: version_url_chars(cfg.channel@),
            }),
            VersionRequest::Explicit(v) => (ActionModel::GetBytes {
                url: archive_url_chars(cfg.platform, v as int),
            }),
        },
        (State::FetchingVersion, Event::TransportFailed) => (ActionModel::Finish {
            error: Some(UpdateError::Network),
        }),
        (State::FetchingVersion, Event::TextResponse { status, body }) => {
            if status != 200 {
                ActionModel::Finish { error: Some(UpdateError::Network) }
            } else if valid_version_text(body@) {
                ActionModel::GetBytes {
                    url: archive_url_chars(cfg.platform, version_text_value(body@)),
                }
            } else {
                ActionModel::Finish { error: Some(UpdateError::Format) }
            }
        },
        (State::FetchingArchive { version }, Event::TransportFailed) => (ActionModel::Finish {
            error: Some(UpdateError::Network),
        }),
        (State::FetchingArchive { version }, Event::BytesResponse { status, body }) => {
            if status != 200 {
                ActionModel::Finish { error: Some(UpdateError::Network) }
            } else {
                ActionModel::SaveArchive { path: download_path_chars(), bytes: body@ }
            }
        },
        (State::SavingArchive, Event::Saved { ok }) => {
            if ok {
                ActionModel::RemoveDir { path: install_dir_chars() }
            } else {
                fail_cleanup_action(cfg, UpdateError::LocalIo)
            }
        },
        (State::PreparingDir, Event::DirRemoved) => (ActionModel::LoadArchive {
            path: download_path_chars(),
        }),
        (State::LoadingArchive, Event::ArchiveLoaded { bytes }) => match bytes {
            Some(b) => match entries_of_archive(b@) {
                Some(es) => (ActionModel::WriteEntries {
                    entries: es.filter(|m: TarEntryModel| entry_model_safe(m)),
                }),
                None => fail_cleanup_action(cfg, UpdateError::LocalIo),
            },
            None => fail_cleanup_action(cfg, UpdateError::LocalIo),
        },
        (State::WritingEntries, Event::EntriesWritten { ok }) => {
            if !ok {
                fail_cleanup_action(cfg, UpdateError::LocalIo)
            } else if cfg.keep_download_file {
                ActionModel::Launch { path: executable_path_chars() }
            } else {
                ActionModel::DeleteFile { path: download_path_chars() }
            }
        },
        (State::Cleaning, Event::FileDeleted) => (ActionModel::Launch {
            path: executable_path_chars(),
        }),
        (State::CleaningAfterFailure { error }, Event::FileDeleted) => (ActionModel::Finish {
            error: Some(error),
        }),
        (State::Launching, Event::Launched { ok }) => {
            if ok {
                ActionModel::Finish { error: None }
            } else {
                ActionModel::Finish { error: Some(UpdateError::LocalIo) }
            }
        },
        (_, _) => ActionModel::Hold,
    }
}

fn fail_with_cleanup(cfg: &Config, err: UpdateError) -> (r: (State, Action))
    ensures
        r.0 == fail_cleanup_state(*cfg, err),
        r.1@ == fail_cleanup_action(*cfg, err),
{
    if cfg.keep_download_file {
        (State::Failed { error: err }, Action::Finish { error: Some(err) })
    } else {
        (State::CleaningAfterFailure { error: err }, Action::DeleteFile { path: download_path() })
    }
}

/// One step of the pipeline: from the configuration, the current state and
/// the latest outcome to the next state and the next piece of outside work.
pub fn step(cfg: &Config, s: State, e: Event) -> (r: (State, Action))
    ensures
        r.0 == next_state(*cfg, s, e),
        r.1@ == next_action(*cfg, s, e),
{
    match (s, e) {
        (State::Start, Event::Begin) => match cfg.version {
            VersionRequest::Latest => (
                State::FetchingVersion,
                Action::GetText { url: version_url(cfg.channel.as_str()) },
            ),
            VersionRequest::Explicit(v) => (
                State::FetchingArchive { version: v },
                Action::GetBytes { url: download_url(cfg.platform, v) },
            ),
        },
        (State::FetchingVersion, Event::TransportFailed) => (
            State::Failed { error: UpdateError::Network },
            Action::Finish { error: Some(UpdateError::Network) },
        ),
        (State::FetchingVersion, Event::TextResponse { status, body }) => {
            if status != 200 {
                (
                    State::Failed { error: UpdateError::Network },
                    Action::Finish { error: Some(UpdateError::Network) },
                )
            } else {
                match crate::numbers::parse_version(body.as_str()) {
                    Ok(v) => (
                        State::FetchingArchive { version: v },
                        Action::GetBytes { url: download_url(cfg.platform, v) },
                    ),
                    Err(_) => (
                        State::Failed { error: UpdateError::Format },
                        Action::Finish { error: Some(UpdateError::Format) },
                    ),
                }
            }
        },
        (State::FetchingArchive { version }, Event::TransportFailed) => (
            State::Failed { error: UpdateError::Network },
            Action::Finish { error: Some(UpdateError::Network) },
        ),
        (State::FetchingArchive { version }, Event::BytesResponse { status, body }) => {
            if status != 200 {
                (
                    State::Failed { error: UpdateError::Network },
                    Action::Finish { error: Some(UpdateError::Network) },
                )
            } else {
                (State::SavingArchive, Action::SaveArchive { path: download_path(), bytes: body })
            }
        },
        (State::SavingArchive, Event::Saved { ok }) => {
            if ok {
                (State::PreparingDir, Action::RemoveDir { path: install_dir() })
            } else {
                fail_with_cleanup(cfg, UpdateError::LocalIo)
            }
        },
        (State::PreparingDir, Event::DirRemoved) => (
            State::LoadingArchive,
            Action::LoadArchive { path: download_path() },
        ),
        (State::LoadingArchive, Event::ArchiveLoaded { bytes }) => match bytes {
            Some(b) => match unpack_archive(&b) {
                Ok(entries) => (
                    State::WritingEntries,
                    Action::WriteEntries { entries: vet_entries(entries) },
                ),
                Err(_) => fail_with_cleanup(cfg, UpdateError::LocalIo),
            },
            None => fail_with_cleanup(cfg, UpdateError::LocalIo),
        },
        (State::WritingEntries, Event::EntriesWritten { ok }) => {
            if !ok {
                fail_with_cleanup(cfg, UpdateError::LocalIo)
            } else if cfg.keep_download_file {
                (State::Launching, Action::Launch { path: executable_path() })
            } else {
                (State::Cleaning, Action::DeleteFile { path: download_path() })
            }
        },
        (State::Cleaning, Event::FileDeleted) => (
            State::Launching,
            Action::Launch { path: executable_path() },
        ),
        (State::CleaningAfterFailure { error }, Event::FileDeleted) => (
            State::Failed { error },
            Action::Finish { error: Some(error) },
        ),
        (State::Launching, Event::Launched { ok }) => {
            if ok {
                (State::Done, Action::Finish { error: None })
            } else {
                (
                    State::Failed { error: UpdateError::LocalIo },
                    Action::Finish { error: Some(UpdateError::LocalIo) },
                )
            }
        },
        (other, _) => (other, Action::Hold),
    }
}

/// Law: the machine never asks the shell to write an entry that could step
/// outside the working directory: every entry of every write action has
/// passed the safety vetting.
pub proof fn lemma_written_entries_are_vetted(cfg: Config, s: State, e: Event, i: int)
    ensures
        next_action(cfg, s, e) matches ActionModel::WriteEntries { entries } ==> (0 <= i
            < entries.len() ==> entry_model_safe(entries[i])),
{
    broadcast use vstd::seq_lib::group_filter_ensures;

}

/// How far along the pipeline a state stands.
pub open spec fn stage_rank(s: State) -> int {
    match s {
        State::Start => 0,
        State::FetchingVersion => 1,
        State::FetchingArchive { .. } => 2,
        State::SavingArchive => 3,
        State::PreparingDir => 4,
        State::LoadingArchive => 5,
        State::WritingEntries => 6,
        State::Cleaning => 7,
        State::CleaningAfterFailure { .. } => 7,
        State::Launching => 8,
        State::Done => 9,
        State::Failed { .. } => 9,
    }
}

/// Law: control flows strictly top to bottom.  No step ever moves a run to
/// an earlier stage, so no stage is retried or resumed.
pub proof fn lemma_pipeline_advances(cfg: Config, s: State, e: Event)
    ensures
        stage_rank(next_state(cfg, s, e)) >= stage_rank(s),
{
}

/// Law: the two terminal states absorb every further event, and a finished
/// run asks for no further work.
pub proof fn lemma_terminal_states_absorb(cfg: Config, err: UpdateError, e: Event)
    ensures
        next_state(cfg, State::Done, e) == State::Done,
        next_action(cfg, State::Done, e) == ActionModel::Hold,
        next_state(cfg, State::Failed { error: err }, e) == (State::Failed { error: err }),
        next_action(cfg, State::Failed { error: err }, e) == ActionModel::Hold,
{
}

/// Law: a failing step short-circuits the pipeline.  Whenever a step moves a
/// run into `Failed`, the only work it still asks for is the final report,
/// and whenever it moves a run into the failure-cleanup stage, the only work
/// it still asks for is the deletion of the download file.
pub proof fn lemma_failure_short_circuits(cfg: Config, s: State, e: Event)
    ensures
        next_state(cfg, s, e) is Failed && !(s is Failed) ==> next_action(cfg, s, e) matches
            ActionModel::Finish { error: Some(err) },
        next_state(cfg, s, e) is CleaningAfterFailure && !(s is CleaningAfterFailure)
            ==> next_action(cfg, s, e) == (ActionModel::DeleteFile {
            path: download_path_chars(),
        }),
{
}

/// Law: an explicitly requested version skips the version resolver.  The
/// first step of such a run immediately requests the archive for that
/// version, and no step of any run requests the version of a channel unless
/// the configuration asks for the latest version.
pub proof fn lemma_explicit_version_skips_resolver(cfg: Config, v: i32, s: State, e: Event)
    requires
        cfg.version == VersionRequest::Explicit(v),
    ensures
        next_state(cfg, State::Start, Event::Begin) == (State::FetchingArchive { version: v }),
        next_action(cfg, State::Start, Event::Begin) == (ActionModel::GetBytes {
            url: archive_url_chars(cfg.platform, v as int),
        }),
        !(next_action(cfg, s, e) is GetText),
{
}

/// Law: a version response that does not succeed with well-formed decimal
/// text aborts the run before any download is requested: a non-success
/// status fails with the network error, a malformed body with the format
/// error, and only a success status with valid text moves on to the
/// download of exactly that version.
pub proof fn lemma_version_response_gates_download(cfg: Config, status: u16, body: String)
    ensures
        status != 200 ==> next_state(cfg, State::FetchingVersion, Event::TextResponse { status, body })
            == (State::Failed { error: UpdateError::Network }),
        status == 200 && !valid_version_text(body@) ==> next_state(
            cfg,
            State::FetchingVersion,
            Event::TextResponse { status, body },
        ) == (State::Failed { error: UpdateError::Format }),
        !(status == 200 && valid_version_text(body@)) ==> next_action(
            cfg,
            State::FetchingVersion,
            Event::TextResponse { status, body },
        ) matches ActionModel::Finish { error: Some(err) },
        status == 200 && valid_version_text(body@) ==> next_state(
            cfg,
            State::FetchingVersion,
            Event::TextResponse { status, body },
        ) == (State::FetchingArchive { version: version_text_value(body@) as i32 })
            && next_action(cfg, State::FetchingVersion, Event::TextResponse { status, body })
            == (ActionModel::GetBytes {
            url: archive_url_chars(cfg.platform, version_text_value(body@)),
        }),
{
}

/// Law: a non-success archive response fails the run with the network error
/// before anything is written or extracted: nothing is saved, so extraction
/// is never reached.
pub proof fn lemma_archive_response_gates_extraction(
    cfg: Config,
    v: i32,
    status: u16,
    body: Vec<u8>,
)
    ensures
        status != 200 ==> next_state(
            cfg,
            State::FetchingArchive { version: v },
            Event::BytesResponse { status, body },
        ) == (State::Failed { error: UpdateError::Network }) && next_action(
            cfg,
            State::FetchingArchive { version: v },
            Event::BytesResponse { status, body },
        ) == (ActionModel::Finish { error: Some(UpdateError::Network) }),
        status == 200 ==> next_action(
            cfg,
            State::FetchingArchive { version: v },
            Event::BytesResponse { status, body },
        ) == (ActionModel::SaveArchive { path: download_path_chars(), bytes: body@ }),
{
}

/// Law: the retain flag alone decides what happens to the download file
/// after a successful extraction.  With the flag unset the file is deleted
/// before the launch; with it set the launch follows at once and no step of
/// the successful remainder deletes the file.
pub proof fn lemma_retain_flag_governs_cleanup(cfg: Config)
    ensures
        !cfg.keep_download_file ==> next_action(
            cfg,
            State::WritingEntries,
            Event::EntriesWritten { ok: true },
        ) == (ActionModel::DeleteFile { path: download_path_chars() }),
        cfg.keep_download_file ==> next_action(
            cfg,
            State::WritingEntries,
            Event::EntriesWritten { ok: true },
        ) == (ActionModel::Launch { path: executable_path_chars() }),
        cfg.keep_download_file ==> forall|s: State, e: Event|
            !(#[trigger] next_action(cfg, s, e) is DeleteFile),
{
}

} // verus!
