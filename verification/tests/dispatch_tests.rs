use std::collections::BTreeMap;

use snatchr::cache::{Artifact, FileEntry};
use snatchr::cleanup::{cleanup_old_files, EntryKind, Marker, RootEntry, SweepAction};
use snatchr::config::{
    AudioCodecPreferenceEnv, AudioQualityEnv, Preferences, VideoCodecPreferenceEnv,
    VideoQualityEnv,
};
use snatchr::dispatch::{Action, DispatchError, Dispatcher, Event, Job, Metadata, Phase};
use snatchr::engine::{EngineError, EngineErrorKind};

const MINUTE: u128 = 60_000_000_000;
const SECOND: u128 = 1_000_000_000;
const URL_A: &str = "https://www.youtube.com/watch?v=dQw4w9WgXcQ";
const ID_A: &str = "dQw4w9WgXcQ";

fn preferences() -> Preferences {
    Preferences {
        video_quality: VideoQualityEnv::Best,
        video_codec: VideoCodecPreferenceEnv::VP9,
        audio_quality: AudioQualityEnv::Best,
        audio_codec: AudioCodecPreferenceEnv::Opus,
    }
}

fn dispatcher() -> Dispatcher {
    Dispatcher::new(5, 300, false, preferences()).unwrap()
}

fn job(url: &str, submitted_at: u128) -> Job {
    Job { url: url.to_string(), job_id: "job-1".to_string(), submitted_at }
}

fn meta(id: &str, title: &str) -> Metadata {
    Metadata { id: id.to_string(), title: title.to_string() }
}

fn artifact(id: &str, name: &str) -> Artifact {
    Artifact { content_id: id.to_string(), file_name: name.to_string() }
}

fn engine_error(kind: EngineErrorKind, message: &str) -> EngineError {
    EngineError { kind, message: message.to_string() }
}

/// What a fetch does in the simulated world.
#[derive(Clone)]
enum Fetch {
    Completes,
    Fails(EngineErrorKind, &'static str),
    NeverReturns,
}

/// One cache entry of the simulated disk.
struct Entry {
    files: Vec<FileEntry>,
    marker: Option<u128>,
    modified: u128,
}

/// A simulated engine, disk and clock, with a count of every call made.
struct World {
    now: u128,
    root: Option<&'static str>,
    installs: Vec<Result<(), &'static str>>,
    metadata: Result<Metadata, EngineError>,
    fetch: Fetch,
    reserve_fails: bool,
    stamp_fails: bool,
    entries: BTreeMap<String, Entry>,
    installed: bool,
    root_calls: u32,
    install_calls: u32,
    wipe_calls: u32,
    resolve_calls: u32,
    list_calls: u32,
    reserve_calls: u32,
    fetch_calls: u32,
    stamp_calls: u32,
    fetched_to: Vec<String>,
}

impl World {
    fn new() -> World {
        World {
            now: 1_700_000_000 * SECOND,
            root: None,
            installs: vec![],
            metadata: Ok(meta(ID_A, "title")),
            fetch: Fetch::Completes,
            reserve_fails: false,
            stamp_fails: false,
            entries: BTreeMap::new(),
            installed: false,
            root_calls: 0,
            install_calls: 0,
            wipe_calls: 0,
            resolve_calls: 0,
            list_calls: 0,
            reserve_calls: 0,
            fetch_calls: 0,
            stamp_calls: 0,
            fetched_to: vec![],
        }
    }

    /// Performs one action and says what came of it. `None` stands for an action
    /// that never comes back.
    fn perform(&mut self, action: &Action) -> Option<Event> {
        match action {
            Action::CheckRoot => {
                self.root_calls += 1;
                Some(match self.root {
                    None => Event::RootFound,
                    Some(missing) => Event::RootMissing(missing.to_string()),
                })
            }
            Action::EnsureInstalled => {
                let outcome = if (self.install_calls as usize) < self.installs.len() {
                    self.installs[self.install_calls as usize]
                } else {
                    Ok(())
                };
                self.install_calls += 1;
                match outcome {
                    Ok(()) => {
                        self.installed = true;
                        Some(Event::InstallSucceeded)
                    }
                    Err(message) => Some(Event::InstallFailed(message.to_string())),
                }
            }
            Action::WipeInstallation => {
                self.wipe_calls += 1;
                self.installed = false;
                Some(Event::Wiped)
            }
            Action::ResolveMetadata { url } => {
                self.resolve_calls += 1;
                assert_eq!(url, URL_A);
                Some(match &self.metadata {
                    Ok(found) => Event::Resolved(found.clone()),
                    Err(error) => Event::ResolveFailed(error.clone()),
                })
            }
            Action::ListEntry { content_id } => {
                self.list_calls += 1;
                Some(Event::Listed(self.entries.get(content_id).map(|e| e.files.clone())))
            }
            Action::Reserve { content_id } => {
                self.reserve_calls += 1;
                if self.reserve_fails {
                    return Some(Event::ReserveFailed("read-only file system".to_string()));
                }
                let now = self.now;
                self.entries
                    .entry(content_id.clone())
                    .or_insert(Entry { files: vec![], marker: None, modified: now });
                Some(Event::Reserved)
            }
            Action::Fetch { url, destination, preferences: asked } => {
                self.fetch_calls += 1;
                assert_eq!(url, URL_A);
                assert_eq!(*asked, preferences());
                self.fetched_to.push(destination.clone());
                match self.fetch.clone() {
                    Fetch::Completes => {
                        let (id, name) = destination.split_once('/').unwrap();
                        let entry = self.entries.get_mut(id).unwrap();
                        entry.files.retain(|f| f.name != name);
                        entry.files.push(FileEntry { name: name.to_string(), is_file: true, len: 1024 });
                        Some(Event::Fetched)
                    }
                    Fetch::Fails(kind, message) => Some(Event::FetchFailed(engine_error(kind, message))),
                    Fetch::NeverReturns => None,
                }
            }
            Action::Stamp { content_id } => {
                self.stamp_calls += 1;
                if !self.stamp_fails {
                    let now = self.now;
                    if let Some(entry) = self.entries.get_mut(content_id) {
                        entry.marker = Some(now);
                        if !entry.files.iter().any(|f| f.name == ".last_accessed") {
                            entry.files.push(FileEntry {
                                name: ".last_accessed".to_string(),
                                is_file: true,
                                len: 0,
                            });
                        }
                    }
                }
                Some(Event::Stamped)
            }
            Action::Wait | Action::Finish(_) => panic!("nothing to perform for {:?}", action),
        }
    }

    /// Runs a job to its end, as the service does: an action that never comes
    /// back is cut short by the deadline.
    fn submit(&mut self, dispatcher: &Dispatcher, url: &str) -> Result<Artifact, DispatchError> {
        let job = job(url, self.now);
        let (mut phase, mut action) = dispatcher.submit(&job);
        for _ in 0..32 {
            if let Action::Finish(result) = action {
                assert_eq!(phase, Phase::Finished);
                return result;
            }
            let event = match self.perform(&action) {
                Some(event) => event,
                None => {
                    self.now = job.submitted_at + (dispatcher.timeout_seconds as u128) * SECOND;
                    assert!(dispatcher.is_overdue(&job, self.now));
                    Event::DeadlineExceeded
                }
            };
            let (next_phase, next_action) = dispatcher.step(&job, phase, event);
            phase = next_phase;
            action = next_action;
        }
        panic!("the job did not finish");
    }

    /// Sweeps the simulated cache root and says how many entries went.
    fn sweep(&mut self, ttl_minutes: u64) -> usize {
        let names: Vec<String> = self.entries.keys().cloned().collect();
        let listing: Vec<RootEntry> = names
            .iter()
            .map(|name| {
                let entry = &self.entries[name];
                RootEntry {
                    name: Some(name.clone()),
                    kind: EntryKind::Directory,
                    marker: match entry.marker {
                        Some(at) => Marker::Stamped(at),
                        None => Marker::Absent,
                    },
                    modified: Some(entry.modified),
                }
            })
            .collect();
        let plan = cleanup_old_files(&listing, self.now, ttl_minutes).unwrap();
        let mut removed = 0;
        for (name, action) in names.iter().zip(plan) {
            if action == SweepAction::RemoveDirectory {
                self.entries.remove(name);
                removed += 1;
            }
        }
        removed
    }
}

#[test]
fn submit_refuses_a_malformed_url_before_any_work() {
    let mut world = World::new();
    let result = world.submit(&dispatcher(), "https://example.com/video");
    assert_eq!(result, Err(DispatchError::InvalidInput));
    assert_eq!(world.root_calls, 0);
    assert_eq!(world.install_calls + world.resolve_calls + world.list_calls, 0);
    assert_eq!(world.reserve_calls + world.fetch_calls + world.stamp_calls, 0);
}

#[test]
fn submit_first_looks_for_the_cache_root() {
    let (phase, action) = dispatcher().submit(&job(URL_A, 0));
    assert_eq!(phase, Phase::CheckingRoot);
    assert_eq!(action, Action::CheckRoot);
    let (phase, action) = dispatcher().start(true);
    assert_eq!(phase, Phase::CheckingRoot);
    assert_eq!(action, Action::CheckRoot);
    let (phase, action) = dispatcher().start(false);
    assert_eq!(phase, Phase::Finished);
    assert_eq!(action, Action::Finish(Err(DispatchError::InvalidInput)));
}

#[test]
fn missing_cache_root_refuses_the_job() {
    let mut world = World::new();
    world.root = Some("./downloads");
    let result = world.submit(&dispatcher(), URL_A);
    assert_eq!(
        result,
        Err(DispatchError::CacheIo(
            "Download directory does not exist: ./downloads. Please create the directory or \
             configure the DOWNLOAD_DIR environment variable."
                .to_string()
        ))
    );
    assert_eq!(world.root_calls, 1);
    assert_eq!(world.install_calls + world.resolve_calls + world.list_calls, 0);
    assert_eq!(world.reserve_calls + world.fetch_calls + world.stamp_calls, 0);
}

#[test]
fn job_makes_ten_actions_at_most() {
    let mut world = World::new();
    world.installs = vec![Err("invalid Zip archive"), Ok(())];
    world.submit(&dispatcher(), URL_A).unwrap();
    let actions = world.root_calls
        + world.install_calls
        + world.wipe_calls
        + world.resolve_calls
        + world.list_calls
        + world.reserve_calls
        + world.fetch_calls
        + world.stamp_calls;
    assert_eq!(actions, 9);
}

#[test]
fn cache_miss_fetches_into_the_entry_and_stamps_it() {
    let mut world = World::new();
    world.metadata = Ok(meta(ID_A, "Never Gonna: Give You Up!"));
    let result = world.submit(&dispatcher(), URL_A);
    assert_eq!(result, Ok(artifact(ID_A, "Never_Gonna_Give_You_Up.mp4")));
    assert_eq!(world.fetched_to, vec![format!("{}/Never_Gonna_Give_You_Up.mp4", ID_A)]);
    assert_eq!(world.fetch_calls, 1);
    assert_eq!(world.reserve_calls, 1);
    assert_eq!(world.stamp_calls, 1);
    assert_eq!(world.entries[ID_A].marker, Some(world.now));
}

#[test]
fn cache_miss_then_hit_fetches_once() {
    let mut world = World::new();
    let first = world.submit(&dispatcher(), URL_A);
    assert_eq!(world.fetch_calls, 1);
    let second = world.submit(&dispatcher(), URL_A);
    assert_eq!(world.fetch_calls, 1);
    assert_eq!(first, Ok(artifact(ID_A, "title.mp4")));
    assert_eq!(second, first);
}

#[test]
fn cache_hit_is_repeatable_and_never_fetches() {
    let mut world = World::new();
    world.entries.insert(
        ID_A.to_string(),
        Entry {
            files: vec![FileEntry { name: "title.mp4".to_string(), is_file: true, len: 9 }],
            marker: None,
            modified: 0,
        },
    );
    for round in 1..=5 {
        let result = world.submit(&dispatcher(), URL_A);
        assert_eq!(result, Ok(artifact(ID_A, "title.mp4")));
        assert_eq!(world.fetch_calls, 0);
        assert_eq!(world.reserve_calls, 0);
        assert_eq!(world.stamp_calls, round);
    }
}

#[test]
fn cache_hit_stamps_the_marker() {
    let mut world = World::new();
    world.submit(&dispatcher(), URL_A).unwrap();
    let stamped_first = world.entries[ID_A].marker.unwrap();
    world.now += 9 * MINUTE;
    world.submit(&dispatcher(), URL_A).unwrap();
    assert_eq!(world.entries[ID_A].marker, Some(stamped_first + 9 * MINUTE));
}

#[test]
fn entry_without_a_usable_artifact_is_fetched_again() {
    let mut world = World::new();
    world.entries.insert(
        ID_A.to_string(),
        Entry {
            files: vec![FileEntry { name: "title.mp4".to_string(), is_file: true, len: 0 }],
            marker: Some(5),
            modified: 0,
        },
    );
    let result = world.submit(&dispatcher(), URL_A);
    assert_eq!(result, Ok(artifact(ID_A, "title.mp4")));
    assert_eq!(world.fetch_calls, 1);
    assert_eq!(world.reserve_calls, 1);
}

#[test]
fn failed_stamp_does_not_fail_the_job() {
    let mut world = World::new();
    world.stamp_fails = true;
    assert_eq!(world.submit(&dispatcher(), URL_A), Ok(artifact(ID_A, "title.mp4")));
    assert_eq!(world.entries[ID_A].marker, None);
}

#[test]
fn corrupted_installation_is_wiped_and_installed_once_more() {
    let mut world = World::new();
    world.installs = vec![Err("unpack: invalid Zip archive"), Ok(())];
    let result = world.submit(&dispatcher(), URL_A);
    assert_eq!(result, Ok(artifact(ID_A, "title.mp4")));
    assert_eq!(world.install_calls, 2);
    assert_eq!(world.wipe_calls, 1);
    assert_eq!(world.fetch_calls, 1);
}

#[test]
fn corrupted_installation_is_fatal_the_second_time() {
    let mut world = World::new();
    world.installs = vec![
        Err("Could not find EOCD"),
        Err("still broken: invalid Zip archive"),
        Ok(()),
    ];
    let result = world.submit(&dispatcher(), URL_A);
    assert_eq!(
        result,
        Err(DispatchError::Engine(engine_error(
            EngineErrorKind::CorruptedInstallation,
            "still broken: invalid Zip archive"
        )))
    );
    assert_eq!(world.install_calls, 2);
    assert_eq!(world.wipe_calls, 1);
    assert_eq!(world.resolve_calls + world.fetch_calls, 0);
}

#[test]
fn second_installation_may_fail_for_another_reason() {
    let mut world = World::new();
    world.installs = vec![Err("invalid Zip archive"), Err("no space left on device")];
    let result = world.submit(&dispatcher(), URL_A);
    assert_eq!(
        result,
        Err(DispatchError::Engine(engine_error(EngineErrorKind::Other, "no space left on device")))
    );
    assert_eq!(world.install_calls, 2);
    assert_eq!(world.wipe_calls, 1);
}

#[test]
fn other_installation_failures_are_not_retried() {
    let mut world = World::new();
    world.installs = vec![Err("permission denied"), Ok(())];
    let result = world.submit(&dispatcher(), URL_A);
    assert_eq!(
        result,
        Err(DispatchError::Engine(engine_error(EngineErrorKind::Other, "permission denied")))
    );
    assert_eq!(world.install_calls, 1);
    assert_eq!(world.wipe_calls, 0);
}

#[test]
fn failed_resolution_ends_the_job() {
    let mut world = World::new();
    world.metadata = Err(engine_error(EngineErrorKind::NetworkFailure, "video unavailable"));
    let result = world.submit(&dispatcher(), URL_A);
    assert_eq!(result, Err(DispatchError::Resolution("video unavailable".to_string())));
    assert_eq!(world.list_calls + world.fetch_calls, 0);
}

#[test]
fn unusable_identifier_ends_the_job() {
    for id in ["", "..", "a/b", "cache", "id with space"] {
        let mut world = World::new();
        world.metadata = Ok(meta(id, "title"));
        let result = world.submit(&dispatcher(), URL_A);
        assert_eq!(
            result,
            Err(DispatchError::Resolution(
                "content identifier cannot name a cache entry".to_string()
            )),
            "identifier {:?}",
            id
        );
        assert_eq!(world.list_calls + world.reserve_calls + world.fetch_calls, 0);
    }
}

#[test]
fn failed_reservation_is_a_cache_error() {
    let mut world = World::new();
    world.reserve_fails = true;
    let result = world.submit(&dispatcher(), URL_A);
    assert_eq!(result, Err(DispatchError::CacheIo("read-only file system".to_string())));
    assert_eq!(world.fetch_calls, 0);
}

#[test]
fn failed_fetch_is_reported_with_its_kind() {
    for kind in [
        EngineErrorKind::NotInstalled,
        EngineErrorKind::CorruptedInstallation,
        EngineErrorKind::NetworkFailure,
        EngineErrorKind::UnsupportedFormat,
        EngineErrorKind::Other,
    ] {
        let mut world = World::new();
        world.fetch = Fetch::Fails(kind, "fetch failed");
        let result = world.submit(&dispatcher(), URL_A);
        assert_eq!(result, Err(DispatchError::Engine(engine_error(kind, "fetch failed"))));
        assert_eq!(world.fetch_calls, 1);
        assert_eq!(world.install_calls, 1);
        assert_eq!(world.stamp_calls, 0);
    }
}

#[test]
fn fetch_that_never_returns_times_out() {
    let mut world = World::new();
    world.fetch = Fetch::NeverReturns;
    let started = world.now;
    let result = world.submit(&dispatcher(), URL_A);
    assert_eq!(result, Err(DispatchError::Timeout));
    assert_eq!(world.now, started + 300 * SECOND);
    assert_eq!(world.stamp_calls, 0);
}

#[test]
fn deadline_ends_a_job_in_any_phase() {
    let d = dispatcher();
    let j = job(URL_A, 0);
    let phases = vec![
        Phase::CheckingRoot,
        Phase::Installing { retried: false },
        Phase::Installing { retried: true },
        Phase::Wiping,
        Phase::Resolving,
        Phase::Probing { meta: meta(ID_A, "t") },
        Phase::Reserving { meta: meta(ID_A, "t") },
        Phase::Fetching { artifact: artifact(ID_A, "t.mp4") },
        Phase::Stamping { artifact: artifact(ID_A, "t.mp4") },
    ];
    for phase in phases {
        let (next, action) = d.step(&j, phase, Event::DeadlineExceeded);
        assert_eq!(next, Phase::Finished);
        assert_eq!(action, Action::Finish(Err(DispatchError::Timeout)));
    }
}

#[test]
fn finished_job_stays_finished() {
    let d = dispatcher();
    let j = job(URL_A, 0);
    for event in [Event::DeadlineExceeded, Event::Stamped, Event::InstallSucceeded, Event::Fetched] {
        assert_eq!(d.step(&j, Phase::Finished, event), (Phase::Finished, Action::Wait));
    }
}

#[test]
fn event_out_of_turn_changes_nothing() {
    let d = dispatcher();
    let j = job(URL_A, 0);
    assert_eq!(
        d.step(&j, Phase::Resolving, Event::Fetched),
        (Phase::Resolving, Action::Wait)
    );
    assert_eq!(
        d.step(&j, Phase::CheckingRoot, Event::InstallSucceeded),
        (Phase::CheckingRoot, Action::Wait)
    );
    assert_eq!(
        d.step(&j, Phase::Resolving, Event::RootFound),
        (Phase::Resolving, Action::Wait)
    );
    assert_eq!(
        d.step(&j, Phase::Installing { retried: true }, Event::Wiped),
        (Phase::Installing { retried: true }, Action::Wait)
    );
    assert_eq!(
        d.step(&j, Phase::Fetching { artifact: artifact(ID_A, "t.mp4") }, Event::Stamped),
        (Phase::Fetching { artifact: artifact(ID_A, "t.mp4") }, Action::Wait)
    );
    assert_eq!(
        d.step(&j, Phase::Probing { meta: meta(ID_A, "t") }, Event::Reserved),
        (Phase::Probing { meta: meta(ID_A, "t") }, Action::Wait)
    );
}

#[test]
fn each_step_asks_for_the_next_action() {
    let d = dispatcher();
    let j = job(URL_A, 0);
    assert_eq!(
        d.step(&j, Phase::CheckingRoot, Event::RootFound),
        (Phase::Installing { retried: false }, Action::EnsureInstalled)
    );
    assert_eq!(
        d.step(&j, Phase::Installing { retried: false }, Event::InstallSucceeded),
        (Phase::Resolving, Action::ResolveMetadata { url: URL_A.to_string() })
    );
    assert_eq!(
        d.step(&j, Phase::Installing { retried: false }, Event::InstallFailed("invalid Zip archive".to_string())),
        (Phase::Wiping, Action::WipeInstallation)
    );
    assert_eq!(
        d.step(&j, Phase::Wiping, Event::Wiped),
        (Phase::Installing { retried: true }, Action::EnsureInstalled)
    );
    assert_eq!(
        d.step(&j, Phase::Resolving, Event::Resolved(meta(ID_A, "t"))),
        (Phase::Probing { meta: meta(ID_A, "t") }, Action::ListEntry { content_id: ID_A.to_string() })
    );
    assert_eq!(
        d.step(&j, Phase::Probing { meta: meta(ID_A, "t") }, Event::Listed(None)),
        (Phase::Reserving { meta: meta(ID_A, "t") }, Action::Reserve { content_id: ID_A.to_string() })
    );
    assert_eq!(
        d.step(&j, Phase::Reserving { meta: meta(ID_A, "a title") }, Event::Reserved),
        (
            Phase::Fetching { artifact: artifact(ID_A, "a_title.mp4") },
            Action::Fetch {
                url: URL_A.to_string(),
                destination: format!("{}/a_title.mp4", ID_A),
                preferences: preferences(),
            }
        )
    );
    assert_eq!(
        d.step(&j, Phase::Fetching { artifact: artifact(ID_A, "a.mp4") }, Event::Fetched),
        (
            Phase::Stamping { artifact: artifact(ID_A, "a.mp4") },
            Action::Stamp { content_id: ID_A.to_string() }
        )
    );
    assert_eq!(
        d.step(&j, Phase::Stamping { artifact: artifact(ID_A, "a.mp4") }, Event::Stamped),
        (Phase::Finished, Action::Finish(Ok(artifact(ID_A, "a.mp4"))))
    );
}

#[test]
fn windows_names_are_avoided_where_the_dispatcher_says_so() {
    let j = job(URL_A, 0);
    let plain = Dispatcher::new(1, 1, false, preferences()).unwrap();
    let windows = Dispatcher::new(1, 1, true, preferences()).unwrap();
    let (phase, _) = plain.step(&j, Phase::Reserving { meta: meta(ID_A, "aux") }, Event::Reserved);
    assert_eq!(phase, Phase::Fetching { artifact: artifact(ID_A, "aux.mp4") });
    let (phase, _) = windows.step(&j, Phase::Reserving { meta: meta(ID_A, "aux") }, Event::Reserved);
    assert_eq!(phase, Phase::Fetching { artifact: artifact(ID_A, ".mp4") });
}

#[test]
fn job_is_overdue_from_its_deadline_on() {
    let d = Dispatcher::new(5, 300, false, preferences()).unwrap();
    let j = job(URL_A, 1_000);
    assert!(!d.is_overdue(&j, 0));
    assert!(!d.is_overdue(&j, 1_000));
    assert!(!d.is_overdue(&j, 1_000 + 300 * SECOND - 1));
    assert!(d.is_overdue(&j, 1_000 + 300 * SECOND));
    assert!(d.is_overdue(&j, u128::MAX));
    let patient = Dispatcher::new(5, u64::MAX, false, preferences()).unwrap();
    assert!(!patient.is_overdue(&job(URL_A, u128::MAX), u128::MAX - 1));
    let hasty = Dispatcher::new(5, 0, false, preferences()).unwrap();
    assert!(hasty.is_overdue(&j, 1_000));
}

#[test]
fn dispatcher_refuses_a_ceiling_of_zero() {
    assert_eq!(
        Dispatcher::new(0, 300, false, preferences()),
        Err(DispatchError::InvalidConfiguration)
    );
    assert!(Dispatcher::new(1, 0, true, preferences()).is_ok());
}

#[test]
fn entry_is_fetched_served_and_evicted_over_its_life() {
    let ttl = 10;
    let d = Dispatcher::new(5, 300, false, preferences()).unwrap();
    let mut world = World::new();
    let t0 = world.now;

    let fetched = world.submit(&d, URL_A);
    assert_eq!(fetched, Ok(artifact(ID_A, "title.mp4")));
    assert_eq!(world.fetched_to, vec![format!("{}/title.mp4", ID_A)]);
    assert_eq!(world.entries[ID_A].marker, Some(t0));

    world.now = t0 + 9 * MINUTE;
    assert_eq!(world.sweep(ttl), 0);
    let served = world.submit(&d, URL_A);
    assert_eq!(served, fetched);
    assert_eq!(world.fetch_calls, 1);
    assert_eq!(world.entries[ID_A].marker, Some(t0 + 9 * MINUTE));

    world.now = t0 + 10 * MINUTE;
    assert_eq!(world.sweep(ttl), 0);
    assert!(world.entries.contains_key(ID_A));

    world.now = t0 + 19 * MINUTE - 1;
    assert_eq!(world.sweep(ttl), 0);
    assert!(world.entries.contains_key(ID_A));

    world.now = t0 + 19 * MINUTE;
    assert_eq!(world.sweep(ttl), 1);
    assert!(!world.entries.contains_key(ID_A));

    let again = world.submit(&d, URL_A);
    assert_eq!(again, fetched);
    assert_eq!(world.fetch_calls, 2);
}

#[test]
fn title_without_a_usable_character_is_fetched_once() {
    for title in ["???", "!!!", "", " - _ ", "\u{65e5}\u{672c}\u{8a9e}", "\u{43f}\u{440}\u{438}\u{432}\u{435}\u{442}"] {
        let mut world = World::new();
        world.metadata = Ok(meta(ID_A, title));
        let first = world.submit(&dispatcher(), URL_A);
        assert_eq!(first, Ok(artifact(ID_A, ".mp4")), "title {:?}", title);
        assert_eq!(world.fetch_calls, 1);
        let second = world.submit(&dispatcher(), URL_A);
        assert_eq!(second, first, "title {:?}", title);
        assert_eq!(world.fetch_calls, 1);
        assert_eq!(world.reserve_calls, 1);
    }
}
