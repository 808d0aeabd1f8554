//! The job dispatcher: what a job does next, given what has just happened.
//!
//! A job moves through its phases one event at a time. Each step names the one
//! action the caller performs next; the caller hands back what came of it as the
//! next event. The dispatcher itself touches neither the network nor the disk.
//!
//! A job first looks for the cache root: a job is refused where the root does not
//! exist, and nothing creates it on a job's behalf. Reserving an entry creates
//! the entry's directory only. Then the job makes sure of the engine. The engine is uninitialized until an
//! installation is asked for, installing while the job waits for it, and ready
//! once the installation has succeeded. An installation that fails with the
//! signature of a corrupted archive is wiped, which leaves the engine
//! uninitialized again, and installed once more; a second failure ends the job.
//! With the engine ready the job resolves its URL, looks into the cache, and
//! fetches only what the cache does not hold.

use vstd::prelude::*;
use crate::cache::{
    cached_artifact, check_content_id, entry_path, is_content_id, is_valid_artifact,
    lemma_stored_artifact_is_found, listing, lookup, media_suffix, relative_path, Artifact,
    ArtifactView, FileEntry, FileEntryView,
};
use crate::config::Preferences;
use crate::engine::{
    classify_install_failure, has_corruption_signature, install_failure_kind,
    is_corruption_signature, EngineError, EngineErrorView,
};
use crate::filename::{destination_file_name, destination_name, sanitized, stripped};
use crate::text::{push_text, string_of};
use crate::youtube::{check_url_shape, has_url_shape};

verus! {

/// One request to fetch a URL.
#[derive(Debug, Clone, PartialEq, Eq)]
pub struct Job {
    pub url: String,
    pub job_id: String,
    /// When the job was submitted, in nanoseconds since the Unix epoch.
    pub submitted_at: u128,
}

/// What the fetch engine knows of a URL's content.
#[derive(Debug, Clone, PartialEq, Eq)]
pub struct Metadata {
    pub id: String,
    pub title: String,
}

pub struct MetadataView {
    pub id: Seq<char>,
    pub title: Seq<char>,
}

impl View for Metadata {
    type V = MetadataView;

    open spec fn view(&self) -> MetadataView {
        MetadataView { id: self.id@, title: self.title@ }
    }
}

/// Why a job failed.
#[derive(Debug, PartialEq, Eq)]
pub enum DispatchError {
    /// The URL does not have the shape of a video URL. Nothing was done for it.
    InvalidInput,
    /// The content identifier could not be had, with the reason.
    Resolution(String),
    /// The fetch engine failed.
    Engine(EngineError),
    /// The job's deadline passed before it was done.
    Timeout,
    /// The cache's directory could not be prepared, with the reason.
    CacheIo(String),
    /// The dispatcher was given a configuration it cannot work with.
    InvalidConfiguration,
}

pub enum DispatchErrorView {
    InvalidInput,
    Resolution(Seq<char>),
    Engine(EngineErrorView),
    Timeout,
    CacheIo(Seq<char>),
    InvalidConfiguration,
}

impl View for DispatchError {
    type V = DispatchErrorView;

    open spec fn view(&self) -> DispatchErrorView {
        match *self {
            DispatchError::InvalidInput => DispatchErrorView::InvalidInput,
            DispatchError::Resolution(message) => DispatchErrorView::Resolution(message@),
            DispatchError::Engine(error) => DispatchErrorView::Engine(error@),
            DispatchError::Timeout => DispatchErrorView::Timeout,
            DispatchError::CacheIo(message) => DispatchErrorView::CacheIo(message@),
            DispatchError::InvalidConfiguration => DispatchErrorView::InvalidConfiguration,
        }
    }
}

/// Where a job stands. Each phase but the last waits for one event.
#[derive(Debug, PartialEq, Eq)]
pub enum Phase {
    /// The cache root is being looked for.
    CheckingRoot,
    /// The engine is being installed; `retried` says that this is the second
    /// attempt, made after a corrupted installation was wiped.
    Installing { retried: bool },
    /// A corrupted installation is being removed.
    Wiping,
    /// The engine looks up the content's identifier and title.
    Resolving,
    /// The entry's directory is being listed.
    Probing { meta: Metadata },
    /// The entry's directory is being created.
    Reserving { meta: Metadata },
    /// The engine fetches the artifact.
    Fetching { artifact: Artifact },
    /// The entry's access marker is being stamped.
    Stamping { artifact: Artifact },
    /// The job is over.
    Finished,
}

pub enum PhaseView {
    CheckingRoot,
    Installing { retried: bool },
    Wiping,
    Resolving,
    Probing { meta: MetadataView },
    Reserving { meta: MetadataView },
    Fetching { artifact: ArtifactView },
    Stamping { artifact: ArtifactView },
    Finished,
}

impl View for Phase {
    type V = PhaseView;

    open spec fn view(&self) -> PhaseView {
        match *self {
            Phase::CheckingRoot => PhaseView::CheckingRoot,
            Phase::Installing { retried } => PhaseView::Installing { retried },
            Phase::Wiping => PhaseView::Wiping,
            Phase::Resolving => PhaseView::Resolving,
            Phase::Probing { meta } => PhaseView::Probing { meta: meta@ },
            Phase::Reserving { meta } => PhaseView::Reserving { meta: meta@ },
            Phase::Fetching { artifact } => PhaseView::Fetching { artifact: artifact@ },
            Phase::Stamping { artifact } => PhaseView::Stamping { artifact: artifact@ },
            Phase::Finished => PhaseView::Finished,
        }
    }
}

/// What came of the action a job asked for.
#[derive(Debug, PartialEq, Eq)]
pub enum Event {
    /// The cache root exists.
    RootFound,
    /// There is no cache root, with the path where it was looked for.
    RootMissing(String),
    /// The engine is installed and valid.
    InstallSucceeded,
    /// The installer failed, with its message.
    InstallFailed(String),
    /// The installation directory is gone, or could not be removed.
    Wiped,
    /// The engine resolved the URL.
    Resolved(Metadata),
    /// The engine could not resolve the URL.
    ResolveFailed(EngineError),
    /// The listing of the entry's directory, `None` where there is no such
    /// directory.
    Listed(Option<Vec<FileEntry>>),
    /// The entry's directory exists now.
    Reserved,
    /// The entry's directory could not be created, with the reason.
    ReserveFailed(String),
    /// The artifact is in place.
    Fetched,
    /// The engine could not fetch the artifact.
    FetchFailed(EngineError),
    /// The access marker was written, or could not be: a job does not fail over
    /// its marker.
    Stamped,
    /// The job's deadline has passed.
    DeadlineExceeded,
}

pub enum EventView {
    RootFound,
    RootMissing(Seq<char>),
    InstallSucceeded,
    InstallFailed(Seq<char>),
    Wiped,
    Resolved(MetadataView),
    ResolveFailed(EngineErrorView),
    Listed(Option<Seq<FileEntryView>>),
    Reserved,
    ReserveFailed(Seq<char>),
    Fetched,
    FetchFailed(EngineErrorView),
    Stamped,
    DeadlineExceeded,
}

impl View for Event {
    type V = EventView;

    open spec fn view(&self) -> EventView {
        match *self {
            Event::RootFound => EventView::RootFound,
            Event::RootMissing(path) => EventView::RootMissing(path@),
            Event::InstallSucceeded => EventView::InstallSucceeded,
            Event::InstallFailed(message) => EventView::InstallFailed(message@),
            Event::Wiped => EventView::Wiped,
            Event::Resolved(meta) => EventView::Resolved(meta@),
            Event::ResolveFailed(error) => EventView::ResolveFailed(error@),
            Event::Listed(entries) => EventView::Listed(
                match entries {
                    Some(entries) => Some(listing(entries@)),
                    None => None,
                },
            ),
            Event::Reserved => EventView::Reserved,
            Event::ReserveFailed(message) => EventView::ReserveFailed(message@),
            Event::Fetched => EventView::Fetched,
            Event::FetchFailed(error) => EventView::FetchFailed(error@),
            Event::Stamped => EventView::Stamped,
            Event::DeadlineExceeded => EventView::DeadlineExceeded,
        }
    }
}

/// What the caller does next for a job.
#[derive(Debug, PartialEq, Eq)]
pub enum Action {
    /// Nothing: the event was not the one the job waits for.
    Wait,
    /// See whether the cache root exists.
    CheckRoot,
    /// Install the engine's binaries, or find them installed and valid.
    EnsureInstalled,
    /// Remove the installation directory with all that is in it.
    WipeInstallation,
    /// Ask the engine for the identifier and title behind the URL.
    ResolveMetadata { url: String },
    /// List the directory of the entry.
    ListEntry { content_id: String },
    /// Create the directory of the entry unless it exists.
    Reserve { content_id: String },
    /// Fetch the URL into `destination`, a path relative to the cache root.
    Fetch { url: String, destination: String, preferences: Preferences },
    /// Set the entry's access marker to now.
    Stamp { content_id: String },
    /// Report the job's result.
    Finish(Result<Artifact, DispatchError>),
}

pub enum ActionView {
    Wait,
    CheckRoot,
    EnsureInstalled,
    WipeInstallation,
    ResolveMetadata { url: Seq<char> },
    ListEntry { content_id: Seq<char> },
    Reserve { content_id: Seq<char> },
    Fetch { url: Seq<char>, destination: Seq<char>, preferences: Preferences },
    Stamp { content_id: Seq<char> },
    Finish(Result<ArtifactView, DispatchErrorView>),
}

impl View for Action {
    type V = ActionView;

    open spec fn view(&self) -> ActionView {
        match *self {
            Action::Wait => ActionView::Wait,
            Action::CheckRoot => ActionView::CheckRoot,
            Action::EnsureInstalled => ActionView::EnsureInstalled,
            Action::WipeInstallation => ActionView::WipeInstallation,
            Action::ResolveMetadata { url } => ActionView::ResolveMetadata { url: url@ },
            Action::ListEntry { content_id } => ActionView::ListEntry { content_id: content_id@ },
            Action::Reserve { content_id } => ActionView::Reserve { content_id: content_id@ },
            Action::Fetch { url, destination, preferences } => ActionView::Fetch {
                url: url@,
                destination: destination@,
                preferences,
            },
            Action::Stamp { content_id } => ActionView::Stamp { content_id: content_id@ },
            Action::Finish(result) => ActionView::Finish(
                match result {
                    Ok(artifact) => Ok(artifact@),
                    Err(error) => Err(error@),
                },
            ),
        }
    }
}

/// What a job is told when the engine names content by an identifier that cannot
/// key a cache entry.
pub open spec fn unusable_identifier() -> Seq<char> {
    "content identifier cannot name a cache entry"@
}

/// What a job is told when there is no cache root at `path`.
pub open spec fn missing_root(path: Seq<char>) -> Seq<char> {
    "Download directory does not exist: "@ + path
        + ". Please create the directory or configure the DOWNLOAD_DIR environment variable."@
}

/// The dispatcher's settings, fixed when the service starts.
#[derive(Debug, Clone, Copy, PartialEq, Eq, Structural)]
pub struct Dispatcher {
    /// How many fetches may run at once.
    pub max_concurrent: usize,
    /// How long a job may take, in seconds.
    pub timeout_seconds: u64,
    /// Whether artifact names avoid the names reserved on Windows.
    pub windows_names: bool,
    /// What is asked of the engine for every fetch.
    pub preferences: Preferences,
}

/// The job is over with `error`.
pub open spec fn fail(error: DispatchErrorView) -> (PhaseView, ActionView) {
    (PhaseView::Finished, ActionView::Finish(Err(error)))
}

/// The first step of a job for `url`: a URL without the shape of a video URL is
/// turned away at once, and any other has the cache root looked for.
pub open spec fn first_step(shape_ok: bool) -> (PhaseView, ActionView) {
    if shape_ok {
        (PhaseView::CheckingRoot, ActionView::CheckRoot)
    } else {
        fail(DispatchErrorView::InvalidInput)
    }
}

/// After a failed installation: a corrupted installation is wiped, once, and
/// every other failure ends the job.
pub open spec fn after_install_failure(retried: bool, message: Seq<char>) -> (
    PhaseView,
    ActionView,
) {
    if !retried && is_corruption_signature(message) {
        (PhaseView::Wiping, ActionView::WipeInstallation)
    } else {
        fail(
            DispatchErrorView::Engine(
                EngineErrorView { kind: install_failure_kind(message), message },
            ),
        )
    }
}

/// After the engine resolved the URL: the entry of a usable identifier is listed.
pub open spec fn after_resolved(meta: MetadataView) -> (PhaseView, ActionView) {
    if is_content_id(meta.id) {
        (PhaseView::Probing { meta }, ActionView::ListEntry { content_id: meta.id })
    } else {
        fail(DispatchErrorView::Resolution(unusable_identifier()))
    }
}

/// After the entry was listed: a usable artifact is served, which takes a stamp
/// and nothing else; without one the entry is reserved for a fetch.
pub open spec fn after_listed(meta: MetadataView, entries: Option<Seq<FileEntryView>>) -> (
    PhaseView,
    ActionView,
) {
    let found = match entries {
        Some(entries) => cached_artifact(entries),
        None => None,
    };
    match found {
        Some(file_name) => (
            PhaseView::Stamping { artifact: ArtifactView { content_id: meta.id, file_name } },
            ActionView::Stamp { content_id: meta.id },
        ),
        None => (PhaseView::Reserving { meta }, ActionView::Reserve { content_id: meta.id }),
    }
}

/// After the entry was reserved: the engine fetches into the entry, under the
/// name made from the title.
pub open spec fn after_reserved(d: Dispatcher, url: Seq<char>, meta: MetadataView) -> (
    PhaseView,
    ActionView,
) {
    let file_name = destination_name(meta.title, d.windows_names);
    (
        PhaseView::Fetching { artifact: ArtifactView { content_id: meta.id, file_name } },
        ActionView::Fetch {
            url,
            destination: relative_path(meta.id, file_name),
            preferences: d.preferences,
        },
    )
}

/// The step a job takes on an event: its next phase and the action it asks for.
///
/// A finished job stays finished. A passed deadline ends any other job with
/// `Timeout`, whatever it waits for. An event that the phase does not wait for
/// changes nothing.
pub open spec fn next(d: Dispatcher, url: Seq<char>, phase: PhaseView, event: EventView) -> (
    PhaseView,
    ActionView,
) {
    if phase is Finished {
        (phase, ActionView::Wait)
    } else if event is DeadlineExceeded {
        fail(DispatchErrorView::Timeout)
    } else {
        match phase {
            PhaseView::CheckingRoot => match event {
                EventView::RootFound => (
                    PhaseView::Installing { retried: false },
                    ActionView::EnsureInstalled,
                ),
                EventView::RootMissing(path) => fail(DispatchErrorView::CacheIo(missing_root(path))),
                _ => (phase, ActionView::Wait),
            },
            PhaseView::Installing { retried } => match event {
                EventView::InstallSucceeded => (
                    PhaseView::Resolving,
                    ActionView::ResolveMetadata { url },
                ),
                EventView::InstallFailed(message) => after_install_failure(retried, message),
                _ => (phase, ActionView::Wait),
            },
            PhaseView::Wiping => match event {
                EventView::Wiped => (
                    PhaseView::Installing { retried: true },
                    ActionView::EnsureInstalled,
                ),
                _ => (phase, ActionView::Wait),
            },
            PhaseView::Resolving => match event {
                EventView::Resolved(meta) => after_resolved(meta),
                EventView::ResolveFailed(error) => fail(
                    DispatchErrorView::Resolution(error.message),
                ),
                _ => (phase, ActionView::Wait),
            },
            PhaseView::Probing { meta } => match event {
                EventView::Listed(entries) => after_listed(meta, entries),
                _ => (phase, ActionView::Wait),
            },
            PhaseView::Reserving { meta } => match event {
                EventView::Reserved => after_reserved(d, url, meta),
                EventView::ReserveFailed(message) => fail(DispatchErrorView::CacheIo(message)),
                _ => (phase, ActionView::Wait),
            },
            PhaseView::Fetching { artifact } => match event {
                EventView::Fetched => (
                    PhaseView::Stamping { artifact },
                    ActionView::Stamp { content_id: artifact.content_id },
                ),
                EventView::FetchFailed(error) => fail(DispatchErrorView::Engine(error)),
                _ => (phase, ActionView::Wait),
            },
            PhaseView::Stamping { artifact } => match event {
                EventView::Stamped => (PhaseView::Finished, ActionView::Finish(Ok(artifact))),
                _ => (phase, ActionView::Wait),
            },
            PhaseView::Finished => (phase, ActionView::Wait),
        }
    }
}

/// Nanoseconds in a second.
pub const NANOS_PER_SECOND: u128 = 1_000_000_000;

/// Whether a job submitted at `submitted_at` is past its deadline at `now`, both
/// in nanoseconds since the Unix epoch.
pub open spec fn deadline_passed(timeout_seconds: u64, submitted_at: u128, now: u128) -> bool {
    now - submitted_at >= timeout_seconds * NANOS_PER_SECOND
}

impl Dispatcher {
    /// Makes a dispatcher. A ceiling of zero fetches at once is no configuration
    /// to work with.
    pub fn new(
        max_concurrent: usize,
        timeout_seconds: u64,
        windows_names: bool,
        preferences: Preferences,
    ) -> (r: Result<Dispatcher, DispatchError>)
        ensures
            match r {
                Ok(d) => max_concurrent > 0 && d == (Dispatcher {
                    max_concurrent,
                    timeout_seconds,
                    windows_names,
                    preferences,
                }),
                Err(e) => max_concurrent == 0 && e@ == DispatchErrorView::InvalidConfiguration,
            },
    {
        if max_concurrent == 0 {
            Err(DispatchError::InvalidConfiguration)
        } else {
            Ok(Dispatcher { max_concurrent, timeout_seconds, windows_names, preferences })
        }
    }

    /// Starts a job whose URL was tested for its shape.
    pub fn start(&self, shape_ok: bool) -> (r: (Phase, Action))
        ensures
            (r.0@, r.1@) == first_step(shape_ok),
    {
        if shape_ok {
            (Phase::CheckingRoot, Action::CheckRoot)
        } else {
            (Phase::Finished, Action::Finish(Err(DispatchError::InvalidInput)))
        }
    }

    /// Starts a job: tests the shape of its URL and says what to do first.
    pub fn submit(&self, job: &Job) -> (r: (Phase, Action))
        ensures
            (r.0@, r.1@) == first_step(has_url_shape(job.url@)),
    {
        let shape_ok = check_url_shape(job.url.as_str());
        self.start(shape_ok)
    }

    /// Whether `job` is past its deadline at `now`, in nanoseconds since the Unix
    /// epoch.
    pub fn is_overdue(&self, job: &Job, now: u128) -> (r: bool)
        ensures
            r == deadline_passed(self.timeout_seconds, job.submitted_at, now),
    {
        let allowed: u128 = (self.timeout_seconds as u128) * NANOS_PER_SECOND;
        now >= job.submitted_at && now - job.submitted_at >= allowed
    }

    /// Takes `job` one step further: from the phase it is in and the event that
    /// has come to its next phase and the action to perform.
    pub fn step(&self, job: &Job, phase: Phase, event: Event) -> (r: (Phase, Action))
        ensures
            (r.0@, r.1@) == next(*self, job.url@, phase@, event@),
    {
        if let Phase::Finished = phase {
            return (phase, Action::Wait);
        }
        if let Event::DeadlineExceeded = event {
            return (Phase::Finished, Action::Finish(Err(DispatchError::Timeout)));
        }
        match phase {
            Phase::CheckingRoot => match event {
                Event::RootFound => (Phase::Installing { retried: false }, Action::EnsureInstalled),
                Event::RootMissing(path) => {
                    let mut out: Vec<char> = Vec::new();
                    push_text(&mut out, "Download directory does not exist: ");
                    push_text(&mut out, path.as_str());
                    push_text(
                        &mut out,
                        ". Please create the directory or configure the DOWNLOAD_DIR environment variable.",
                    );
                    (
                        Phase::Finished,
                        Action::Finish(Err(DispatchError::CacheIo(string_of(&out)))),
                    )
                },
                _ => (Phase::CheckingRoot, Action::Wait),
            },
            Phase::Installing { retried } => match event {
                Event::InstallSucceeded => (
                    Phase::Resolving,
                    Action::ResolveMetadata { url: job.url.clone() },
                ),
                Event::InstallFailed(message) => {
                    if !retried && has_corruption_signature(message.as_str()) {
                        (Phase::Wiping, Action::WipeInstallation)
                    } else {
                        let kind = classify_install_failure(message.as_str());
                        (
                            Phase::Finished,
                            Action::Finish(
                                Err(DispatchError::Engine(EngineError { kind, message })),
                            ),
                        )
                    }
                },
                _ => (Phase::Installing { retried }, Action::Wait),
            },
            Phase::Wiping => match event {
                Event::Wiped => (Phase::Installing { retried: true }, Action::EnsureInstalled),
                _ => (Phase::Wiping, Action::Wait),
            },
            Phase::Resolving => match event {
                Event::Resolved(meta) => {
                    if check_content_id(meta.id.as_str()) {
                        let content_id = meta.id.clone();
                        (Phase::Probing { meta }, Action::ListEntry { content_id })
                    } else {
                        (
                            Phase::Finished,
                            Action::Finish(
                                Err(
                                    DispatchError::Resolution(
                                        "content identifier cannot name a cache entry".to_owned(),
                                    ),
                                ),
                            ),
                        )
                    }
                },
                Event::ResolveFailed(error) => (
                    Phase::Finished,
                    Action::Finish(Err(DispatchError::Resolution(error.message))),
                ),
                _ => (Phase::Resolving, Action::Wait),
            },
            Phase::Probing { meta } => match event {
                Event::Listed(entries) => {
                    match lookup(meta.id.as_str(), entries.as_ref()) {
                        Some(artifact) => {
                            let content_id = meta.id;
                            (Phase::Stamping { artifact }, Action::Stamp { content_id })
                        },
                        None => {
                            let content_id = meta.id.clone();
                            (Phase::Reserving { meta }, Action::Reserve { content_id })
                        },
                    }
                },
                _ => (Phase::Probing { meta }, Action::Wait),
            },
            Phase::Reserving { meta } => match event {
                Event::Reserved => {
                    let file_name = destination_file_name(
                        meta.title.as_str(),
                        self.windows_names,
                    );
                    let destination = entry_path(meta.id.as_str(), file_name.as_str());
                    (
                        Phase::Fetching { artifact: Artifact { content_id: meta.id, file_name } },
                        Action::Fetch {
                            url: job.url.clone(),
                            destination,
                            preferences: self.preferences,
                        },
                    )
                },
                Event::ReserveFailed(message) => (
                    Phase::Finished,
                    Action::Finish(Err(DispatchError::CacheIo(message))),
                ),
                _ => (Phase::Reserving { meta }, Action::Wait),
            },
            Phase::Fetching { artifact } => match event {
                Event::Fetched => {
                    let content_id = artifact.content_id.clone();
                    (Phase::Stamping { artifact }, Action::Stamp { content_id })
                },
                Event::FetchFailed(error) => (
                    Phase::Finished,
                    Action::Finish(Err(DispatchError::Engine(error))),
                ),
                _ => (Phase::Fetching { artifact }, Action::Wait),
            },
            Phase::Stamping { artifact } => match event {
                Event::Stamped => (Phase::Finished, Action::Finish(Ok(artifact))),
                _ => (Phase::Stamping { artifact }, Action::Wait),
            },
            Phase::Finished => (Phase::Finished, Action::Wait),
        }
    }
}

/// The phase a job is in after a sequence of events.
pub open spec fn phase_after(
    d: Dispatcher,
    url: Seq<char>,
    phase: PhaseView,
    events: Seq<EventView>,
) -> PhaseView
    decreases events.len(),
{
    if events.len() == 0 {
        phase
    } else {
        phase_after(d, url, next(d, url, phase, events.first()).0, events.drop_first())
    }
}

/// The actions a job asks for as a sequence of events comes in, one for each
/// event.
pub open spec fn actions_of(
    d: Dispatcher,
    url: Seq<char>,
    phase: PhaseView,
    events: Seq<EventView>,
) -> Seq<ActionView>
    decreases events.len(),
{
    if events.len() == 0 {
        Seq::empty()
    } else {
        let step = next(d, url, phase, events.first());
        seq![step.1] + actions_of(d, url, step.0, events.drop_first())
    }
}

/// How many of `actions` ask to install the engine.
pub open spec fn installs(actions: Seq<ActionView>) -> nat
    decreases actions.len(),
{
    if actions.len() == 0 {
        0
    } else if actions.first() is EnsureInstalled {
        1 + installs(actions.drop_first())
    } else {
        installs(actions.drop_first())
    }
}

/// How many of `actions` ask the engine to fetch.
pub open spec fn fetches(actions: Seq<ActionView>) -> nat
    decreases actions.len(),
{
    if actions.len() == 0 {
        0
    } else if actions.first() is Fetch {
        1 + fetches(actions.drop_first())
    } else {
        fetches(actions.drop_first())
    }
}

/// How many installations a job in `phase` may still ask for.
pub open spec fn installs_left(phase: PhaseView) -> nat {
    match phase {
        PhaseView::CheckingRoot => 2,
        PhaseView::Installing { retried } => if retried {
            0
        } else {
            1
        },
        PhaseView::Wiping => 1,
        _ => 0,
    }
}

/// How many fetches a job in `phase` may still ask for.
pub open spec fn fetches_left(phase: PhaseView) -> nat {
    match phase {
        PhaseView::Fetching { .. } => 0,
        PhaseView::Stamping { .. } => 0,
        PhaseView::Finished => 0,
        _ => 1,
    }
}

/// Whatever events come, a job asks for no more installations than its phase
/// leaves it. A job starts with two left, so it never installs more than twice.
pub proof fn lemma_installs_bounded(
    d: Dispatcher,
    url: Seq<char>,
    phase: PhaseView,
    events: Seq<EventView>,
)
    ensures
        installs(actions_of(d, url, phase, events)) <= installs_left(phase),
        phase == first_step(true).0 ==> installs(actions_of(d, url, phase, events)) <= 2,
    decreases events.len(),
{
    if events.len() > 0 {
        let step = next(d, url, phase, events.first());
        let rest = actions_of(d, url, step.0, events.drop_first());
        lemma_installs_bounded(d, url, step.0, events.drop_first());
        let all = seq![step.1] + rest;
        assert(all.first() == step.1);
        assert(all.drop_first() == rest);
    }
}

/// Whatever events come, a job asks for at most one fetch, and for none once it
/// is fetching, stamping or finished.
pub proof fn lemma_fetches_bounded(
    d: Dispatcher,
    url: Seq<char>,
    phase: PhaseView,
    events: Seq<EventView>,
)
    ensures
        fetches(actions_of(d, url, phase, events)) <= fetches_left(phase),
    decreases events.len(),
{
    if events.len() > 0 {
        let step = next(d, url, phase, events.first());
        let rest = actions_of(d, url, step.0, events.drop_first());
        lemma_fetches_bounded(d, url, step.0, events.drop_first());
        let all = seq![step.1] + rest;
        assert(all.first() == step.1);
        assert(all.drop_first() == rest);
    }
}

/// A job whose entry holds a usable artifact serves that artifact: it asks for a
/// stamp, then reports the artifact, and never asks the engine to fetch, whatever
/// events follow the listing.
pub proof fn lemma_hit_serves_without_fetch(
    d: Dispatcher,
    url: Seq<char>,
    meta: MetadataView,
    entries: Seq<FileEntryView>,
    later: Seq<EventView>,
)
    requires
        cached_artifact(entries) is Some,
    ensures
        ({
            let artifact = ArtifactView {
                content_id: meta.id,
                file_name: cached_artifact(entries)->0,
            };
            let probing = PhaseView::Probing { meta };
            let listed = EventView::Listed(Some(entries));
            &&& next(d, url, probing, listed) == (
                PhaseView::Stamping { artifact },
                ActionView::Stamp { content_id: meta.id },
            )
            &&& next(d, url, PhaseView::Stamping { artifact }, EventView::Stamped) == (
                PhaseView::Finished,
                ActionView::Finish(Ok(artifact)),
            )
            &&& fetches(actions_of(d, url, probing, seq![listed] + later)) == 0
        }),
{
    let probing = PhaseView::Probing { meta };
    let listed = EventView::Listed(Some(entries));
    let events = seq![listed] + later;
    let step = next(d, url, probing, listed);
    assert(events.first() == listed);
    assert(events.drop_first() == later);
    lemma_fetches_bounded(d, url, step.0, later);
    let all = seq![step.1] + actions_of(d, url, step.0, later);
    assert(all.first() == step.1);
    assert(all.drop_first() == actions_of(d, url, step.0, later));
}

/// What a fetch has stored is served to the next job without a second fetch,
/// whatever the title was: a listing that holds the fetched file, regular and not
/// empty, under the name the fetch was given, is a hit. The job asks for a stamp
/// and never for a fetch, and it reports the very artifact that was fetched where
/// no other usable file stands before it in the listing.
pub proof fn lemma_fetched_artifact_is_served(
    d: Dispatcher,
    url: Seq<char>,
    meta: MetadataView,
    entries: Seq<FileEntryView>,
    at: int,
    later: Seq<EventView>,
)
    requires
        0 <= at < entries.len(),
        entries[at].is_file,
        entries[at].len > 0,
        entries[at].name == destination_name(meta.title, d.windows_names),
    ensures
        ({
            let fetched = ArtifactView {
                content_id: meta.id,
                file_name: destination_name(meta.title, d.windows_names),
            };
            let probing = PhaseView::Probing { meta };
            let listed = EventView::Listed(Some(entries));
            &&& next(d, url, probing, listed).1 == ActionView::Stamp { content_id: meta.id }
            &&& fetches(actions_of(d, url, probing, seq![listed] + later)) == 0
            &&& (forall|j: int| 0 <= j < at ==> !is_valid_artifact(#[trigger] entries[j]))
                ==> next(d, url, probing, listed).0 == PhaseView::Stamping { artifact: fetched }
                && next(d, url, PhaseView::Stamping { artifact: fetched }, EventView::Stamped).1
                == ActionView::Finish(Ok(fetched))
        }),
{
    let stem = sanitized(stripped(meta.title, d.windows_names));
    assert(destination_name(meta.title, d.windows_names) == stem + media_suffix());
    lemma_stored_artifact_is_found(entries, at, stem);
    lemma_hit_serves_without_fetch(d, url, meta, entries, later);
}

/// A job whose entry holds no usable artifact reserves the entry and then asks
/// for one fetch, of its own URL, into the entry, under the name made from the
/// title.
pub proof fn lemma_miss_fetches_once(
    d: Dispatcher,
    url: Seq<char>,
    meta: MetadataView,
    entries: Option<Seq<FileEntryView>>,
    later: Seq<EventView>,
)
    requires
        entries matches Some(files) ==> cached_artifact(files) is None,
    ensures
        ({
            let file_name = destination_name(meta.title, d.windows_names);
            let artifact = ArtifactView { content_id: meta.id, file_name };
            let probing = PhaseView::Probing { meta };
            let events = seq![EventView::Listed(entries), EventView::Reserved];
            &&& actions_of(d, url, probing, events) == seq![
                ActionView::Reserve { content_id: meta.id },
                ActionView::Fetch {
                    url,
                    destination: relative_path(meta.id, file_name),
                    preferences: d.preferences,
                },
            ]
            &&& phase_after(d, url, probing, events) == PhaseView::Fetching { artifact }
            &&& fetches(actions_of(d, url, probing, events + later)) == 1
        }),
{
    let file_name = destination_name(meta.title, d.windows_names);
    let artifact = ArtifactView { content_id: meta.id, file_name };
    let probing = PhaseView::Probing { meta };
    let reserving = PhaseView::Reserving { meta };
    let fetching = PhaseView::Fetching { artifact };
    let listed = EventView::Listed(entries);
    let events = seq![listed, EventView::Reserved];
    let reserve = ActionView::Reserve { content_id: meta.id };
    let fetch = ActionView::Fetch {
        url,
        destination: relative_path(meta.id, file_name),
        preferences: d.preferences,
    };
    assert(next(d, url, probing, listed) == (reserving, reserve));
    assert(next(d, url, reserving, EventView::Reserved) == (fetching, fetch));
    assert(events.drop_first() == seq![EventView::Reserved]);
    assert(events.drop_first().drop_first() == Seq::<EventView>::empty());
    assert(actions_of(d, url, fetching, Seq::empty()) == Seq::<ActionView>::empty());
    assert(actions_of(d, url, reserving, seq![EventView::Reserved]) == seq![fetch]);
    assert(actions_of(d, url, probing, events) == seq![reserve, fetch]);
    assert(phase_after(d, url, fetching, Seq::empty()) == fetching);
    assert(phase_after(d, url, reserving, seq![EventView::Reserved]) == fetching);
    assert(phase_after(d, url, probing, events) == fetching);

    let all = events + later;
    assert(all.first() == listed);
    let tail = all.drop_first();
    assert(tail == seq![EventView::Reserved] + later);
    assert(tail.first() == EventView::Reserved);
    assert(tail.drop_first() == later);
    lemma_fetches_bounded(d, url, fetching, later);
    let last = actions_of(d, url, fetching, later);
    let mid = seq![fetch] + last;
    assert(mid.first() == fetch && mid.drop_first() == last);
    assert(actions_of(d, url, reserving, tail) == mid);
    let whole = seq![reserve] + mid;
    assert(whole.first() == reserve && whole.drop_first() == mid);
    assert(actions_of(d, url, probing, all) == whole);
    assert(fetches(last) == 0);
    assert(fetches(mid) == 1);
    assert(fetches(whole) == 1);
}

/// A corrupted installation is wiped and installed once more, and a job whose
/// second installation succeeds goes on to resolve its URL.
pub proof fn lemma_recovery_retries_once(d: Dispatcher, url: Seq<char>, message: Seq<char>)
    requires
        is_corruption_signature(message),
    ensures
        ({
            let events = seq![
                EventView::InstallFailed(message),
                EventView::Wiped,
                EventView::InstallSucceeded,
            ];
            &&& actions_of(d, url, PhaseView::Installing { retried: false }, events) == seq![
                ActionView::WipeInstallation,
                ActionView::EnsureInstalled,
                ActionView::ResolveMetadata { url },
            ]
            &&& phase_after(d, url, PhaseView::Installing { retried: false }, events) == PhaseView::Resolving
        }),
{
    let e1 = EventView::InstallFailed(message);
    let events = seq![e1, EventView::Wiped, EventView::InstallSucceeded];
    let p0 = PhaseView::Installing { retried: false };
    let p2 = PhaseView::Installing { retried: true };
    let s1 = events.drop_first();
    let s2 = s1.drop_first();
    let s3 = s2.drop_first();
    assert(s1 == seq![EventView::Wiped, EventView::InstallSucceeded]);
    assert(s2 == seq![EventView::InstallSucceeded]);
    assert(s3 == Seq::<EventView>::empty());
    assert(actions_of(d, url, PhaseView::Resolving, s3) == Seq::<ActionView>::empty());
    assert(actions_of(d, url, p2, s2) == seq![ActionView::ResolveMetadata { url }]);
    assert(actions_of(d, url, PhaseView::Wiping, s1) == seq![
        ActionView::EnsureInstalled,
        ActionView::ResolveMetadata { url },
    ]);
    assert(phase_after(d, url, PhaseView::Resolving, s3) == PhaseView::Resolving);
    assert(phase_after(d, url, p2, s2) == PhaseView::Resolving);
    assert(phase_after(d, url, PhaseView::Wiping, s1) == PhaseView::Resolving);
}

/// A job whose second installation fails too is over: it reports the engine's
/// failure, corrupted where the message carries the signature, and asks for no
/// third installation, whatever events follow.
pub proof fn lemma_recovery_gives_up(
    d: Dispatcher,
    url: Seq<char>,
    first: Seq<char>,
    second: Seq<char>,
    later: Seq<EventView>,
)
    requires
        is_corruption_signature(first),
    ensures
        ({
            let events = seq![
                EventView::InstallFailed(first),
                EventView::Wiped,
                EventView::InstallFailed(second),
            ];
            &&& actions_of(d, url, PhaseView::Installing { retried: false }, events) == seq![
                ActionView::WipeInstallation,
                ActionView::EnsureInstalled,
                ActionView::Finish(
                    Err(
                        DispatchErrorView::Engine(
                            EngineErrorView {
                                kind: install_failure_kind(second),
                                message: second,
                            },
                        ),
                    ),
                ),
            ]
            &&& phase_after(d, url, PhaseView::Installing { retried: false }, events) == PhaseView::Finished
            &&& installs(actions_of(d, url, PhaseView::Installing { retried: false }, events + later)) == 1
        }),
{
    let e1 = EventView::InstallFailed(first);
    let e3 = EventView::InstallFailed(second);
    let events = seq![e1, EventView::Wiped, e3];
    let p0 = PhaseView::Installing { retried: false };
    let p2 = PhaseView::Installing { retried: true };
    let done = ActionView::Finish(
        Err(
            DispatchErrorView::Engine(
                EngineErrorView { kind: install_failure_kind(second), message: second },
            ),
        ),
    );
    let s1 = events.drop_first();
    let s2 = s1.drop_first();
    let s3 = s2.drop_first();
    assert(s1 == seq![EventView::Wiped, e3]);
    assert(s2 == seq![e3]);
    assert(s3 == Seq::<EventView>::empty());
    assert(actions_of(d, url, PhaseView::Finished, s3) == Seq::<ActionView>::empty());
    assert(actions_of(d, url, p2, s2) == seq![done]);
    assert(actions_of(d, url, PhaseView::Wiping, s1) == seq![ActionView::EnsureInstalled, done]);
    assert(phase_after(d, url, PhaseView::Finished, s3) == PhaseView::Finished);
    assert(phase_after(d, url, p2, s2) == PhaseView::Finished);
    assert(phase_after(d, url, PhaseView::Wiping, s1) == PhaseView::Finished);

    let all = events + later;
    let t1 = all.drop_first();
    let t2 = t1.drop_first();
    let t3 = t2.drop_first();
    assert(all.first() == e1);
    assert(t1 == seq![EventView::Wiped, e3] + later);
    assert(t1.first() == EventView::Wiped);
    assert(t2 == seq![e3] + later);
    assert(t2.first() == e3);
    assert(t3 == later);
    lemma_installs_bounded(d, url, PhaseView::Finished, later);
    let a3 = actions_of(d, url, PhaseView::Finished, later);
    let a2 = seq![done] + a3;
    assert(a2.first() == done && a2.drop_first() == a3);
    assert(actions_of(d, url, p2, t2) == a2);
    let a1 = seq![ActionView::EnsureInstalled] + a2;
    assert(a1.first() == ActionView::EnsureInstalled && a1.drop_first() == a2);
    assert(actions_of(d, url, PhaseView::Wiping, t1) == a1);
    let a0 = seq![ActionView::WipeInstallation] + a1;
    assert(a0.first() == ActionView::WipeInstallation && a0.drop_first() == a1);
    assert(actions_of(d, url, p0, all) == a0);
    assert(installs(a3) == 0);
    assert(installs(a2) == 0);
    assert(installs(a1) == 1);
    assert(installs(a0) == 1);
}

/// How many actions a job in `phase` may still ask for.
pub open spec fn actions_left(phase: PhaseView) -> nat {
    match phase {
        PhaseView::CheckingRoot => 9,
        PhaseView::Installing { retried } => if retried {
            6
        } else {
            8
        },
        PhaseView::Wiping => 7,
        PhaseView::Resolving => 5,
        PhaseView::Probing { .. } => 4,
        PhaseView::Reserving { .. } => 3,
        PhaseView::Fetching { .. } => 2,
        PhaseView::Stamping { .. } => 1,
        PhaseView::Finished => 0,
    }
}

/// Every step either changes nothing and asks for nothing, or brings the job
/// nearer its end. So a job is over after ten actions at most, its first
/// included, and never comes back to a phase it has left. A job reports its
/// result exactly when it finishes.
pub proof fn lemma_job_advances(d: Dispatcher, url: Seq<char>, phase: PhaseView, event: EventView)
    ensures
        ({
            let step = next(d, url, phase, event);
            if step.1 is Wait {
                step.0 == phase
            } else {
                actions_left(step.0) < actions_left(phase)
            }
        }),
        next(d, url, phase, event).1 is Finish <==> next(d, url, phase, event).0 is Finished
            && !(phase is Finished),
{
}

/// A passed deadline ends a job with `Timeout`, whatever the job waits for.
pub proof fn lemma_deadline_ends_job(d: Dispatcher, url: Seq<char>, phase: PhaseView)
    requires
        !(phase is Finished),
    ensures
        next(d, url, phase, EventView::DeadlineExceeded) == (
            PhaseView::Finished,
            ActionView::Finish(Err(DispatchErrorView::Timeout)),
        ),
{
}

/// A finished job stays finished and asks for nothing more.
pub proof fn lemma_finished_is_final(d: Dispatcher, url: Seq<char>, event: EventView)
    ensures
        next(d, url, PhaseView::Finished, event) == (PhaseView::Finished, ActionView::Wait),
{
}

} // verus!
