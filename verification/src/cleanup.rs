//! Eviction: which entries of the cache root a sweep removes, and when sweeps run.

use vstd::prelude::*;
use crate::cache::{reserved_directory, RESERVED_DIRECTORY};
use crate::text::{
    chars_of, decimal, ends_with, push_decimal, push_text, same_text, starts_with, string_of,
};

verus! {

/// Why a sweep could not run, or what stopped it.
#[derive(Debug, Clone, PartialEq, Eq)]
pub enum CleanupError {
    /// The file system failed, with its message.
    IoError(String),
    /// The clock could not be read, with its message.
    TimeError(String),
    /// The cache root is missing and could not be created.
    DirectoryNotFound,
    /// The time to live is zero, or too long to count in seconds.
    InvalidConfiguration,
}

pub enum CleanupErrorView {
    IoError(Seq<char>),
    TimeError(Seq<char>),
    DirectoryNotFound,
    InvalidConfiguration,
}

impl View for CleanupError {
    type V = CleanupErrorView;

    open spec fn view(&self) -> CleanupErrorView {
        match *self {
            CleanupError::IoError(message) => CleanupErrorView::IoError(message@),
            CleanupError::TimeError(message) => CleanupErrorView::TimeError(message@),
            CleanupError::DirectoryNotFound => CleanupErrorView::DirectoryNotFound,
            CleanupError::InvalidConfiguration => CleanupErrorView::InvalidConfiguration,
        }
    }
}

/// The words that describe a cleanup error.
pub open spec fn error_text(error: CleanupErrorView) -> Seq<char> {
    match error {
        CleanupErrorView::IoError(message) => "IO error: "@ + message,
        CleanupErrorView::TimeError(message) => "Time error: "@ + message,
        CleanupErrorView::DirectoryNotFound =>
            "Download directory not found or could not be created"@,
        CleanupErrorView::InvalidConfiguration => "Invalid cleanup configuration"@,
    }
}

impl CleanupError {
    /// Describes the error in words.
    pub fn message(&self) -> (text: String)
        ensures
            text@ == error_text(self@),
    {
        let mut out: Vec<char> = Vec::new();
        match self {
            CleanupError::IoError(message) => {
                push_text(&mut out, "IO error: ");
                push_text(&mut out, message.as_str());
            },
            CleanupError::TimeError(message) => {
                push_text(&mut out, "Time error: ");
                push_text(&mut out, message.as_str());
            },
            CleanupError::DirectoryNotFound => {
                push_text(&mut out, "Download directory not found or could not be created");
            },
            CleanupError::InvalidConfiguration => {
                push_text(&mut out, "Invalid cleanup configuration");
            },
        }
        string_of(&out)
    }
}

/// What kind of thing an entry of the cache root is.
#[derive(Debug, Clone, Copy, PartialEq, Eq, Structural)]
pub enum EntryKind {
    Directory,
    File,
    Other,
}

/// What is known of a directory's access marker.
#[derive(Debug, Clone, Copy, PartialEq, Eq, Structural)]
pub enum Marker {
    /// The directory holds no marker.
    Absent,
    /// The marker is there, but its modification time could not be read.
    Unreadable,
    /// The marker's modification time, in nanoseconds since the Unix epoch.
    Stamped(u128),
}

/// An entry directly under the cache root, as a sweep finds it.
#[derive(Debug, Clone, PartialEq, Eq)]
pub struct RootEntry {
    /// The entry's name, `None` where the name is not valid Unicode.
    pub name: Option<String>,
    pub kind: EntryKind,
    /// For a directory, the state of its access marker.
    pub marker: Marker,
    /// The entry's own modification time in nanoseconds since the Unix epoch,
    /// `None` where it could not be read.
    pub modified: Option<u128>,
}

pub struct RootEntryView {
    pub name: Option<Seq<char>>,
    pub kind: EntryKind,
    pub marker: Marker,
    pub modified: Option<u128>,
}

impl View for RootEntry {
    type V = RootEntryView;

    open spec fn view(&self) -> RootEntryView {
        RootEntryView {
            name: match self.name {
                Some(name) => Some(name@),
                None => None,
            },
            kind: self.kind,
            marker: self.marker,
            modified: self.modified,
        }
    }
}

/// What a sweep does with an entry.
#[derive(Debug, Clone, Copy, PartialEq, Eq, Structural)]
pub enum SweepAction {
    Keep,
    /// Remove the directory and all that is in it.
    RemoveDirectory,
    /// Remove the file.
    RemoveFile,
}

/// A file left behind by an unfinished download: its name begins with `temp_`,
/// or ends with `.tmp` or `.temp`.
pub open spec fn is_temporary_name(name: Seq<char>) -> bool {
    ||| "temp_"@.is_prefix_of(name)
    ||| ".tmp"@.is_suffix_of(name)
    ||| ".temp"@.is_suffix_of(name)
}

/// Whether a file of this name is a temporary file, which a sweep removes on
/// sight.
pub fn is_temporary_file(name: &str) -> (r: bool)
    ensures
        r == is_temporary_name(name@),
{
    let text = chars_of(name);
    let prefix = chars_of("temp_");
    let tmp = chars_of(".tmp");
    let temp = chars_of(".temp");
    starts_with(&text, &prefix) || ends_with(&text, &tmp) || ends_with(&text, &temp)
}

/// Whether a directory of this name is a cache entry: every directory is, but the
/// reserved one.
pub fn is_video_directory(name: &str) -> (r: bool)
    ensures
        r == (name@ != reserved_directory()),
{
    !same_text(name, RESERVED_DIRECTORY)
}

/// Nanoseconds in a minute.
pub const NANOS_PER_MINUTE: u128 = 60_000_000_000;

/// An entry last used at `last_access` has expired at `now` when the time between
/// them is the time to live or more. Times are in nanoseconds, the time to live in
/// minutes.
pub open spec fn is_expired(now: int, last_access: int, ttl_minutes: int) -> bool {
    now - last_access >= ttl_minutes * NANOS_PER_MINUTE
}

/// When a directory was last used: the time of its marker where it has one, else
/// its own modification time. `None` where that time could not be read.
pub open spec fn last_access(marker: Marker, modified: Option<u128>) -> Option<u128> {
    match marker {
        Marker::Stamped(at) => Some(at),
        Marker::Unreadable => None,
        Marker::Absent => modified,
    }
}

/// Whether a directory is due for removal: its last use is known and lies the
/// time to live or more before `now`.
pub open spec fn is_due(marker: Marker, modified: Option<u128>, now: u128, ttl_minutes: u64) -> bool {
    match last_access(marker, modified) {
        Some(at) => is_expired(now as int, at as int, ttl_minutes as int),
        None => false,
    }
}

/// What a sweep at `now` does with an entry of the cache root.
///
/// A directory is removed when it is a cache entry and due. A file is removed when
/// it is a temporary file, whatever its age. Everything else stays, and so does an
/// entry whose name cannot be read.
pub open spec fn sweep_action(entry: RootEntryView, now: u128, ttl_minutes: u64) -> SweepAction {
    match entry.name {
        None => SweepAction::Keep,
        Some(name) => match entry.kind {
            EntryKind::Directory => if name != reserved_directory() && is_due(
                entry.marker,
                entry.modified,
                now,
                ttl_minutes,
            ) {
                SweepAction::RemoveDirectory
            } else {
                SweepAction::Keep
            },
            EntryKind::File => if is_temporary_name(name) {
                SweepAction::RemoveFile
            } else {
                SweepAction::Keep
            },
            EntryKind::Other => SweepAction::Keep,
        },
    }
}

/// Decides whether a directory is due for removal at `now`.
pub fn remove_if_old(marker: Marker, modified: Option<u128>, now: u128, ttl_minutes: u64) -> (r:
    bool)
    ensures
        r == is_due(marker, modified, now, ttl_minutes),
{
    let at = match marker {
        Marker::Stamped(at) => Some(at),
        Marker::Unreadable => None,
        Marker::Absent => modified,
    };
    match at {
        Some(at) => {
            let ttl: u128 = (ttl_minutes as u128) * NANOS_PER_MINUTE;
            now >= at && now - at >= ttl
        },
        None => false,
    }
}

/// Decides what a sweep at `now` does with one entry of the cache root.
pub fn sweep_entry(entry: &RootEntry, now: u128, ttl_minutes: u64) -> (action: SweepAction)
    ensures
        action == sweep_action(entry@, now, ttl_minutes),
{
    match &entry.name {
        None => SweepAction::Keep,
        Some(name) => match entry.kind {
            EntryKind::Directory => {
                if is_video_directory(name.as_str()) && remove_if_old(
                    entry.marker,
                    entry.modified,
                    now,
                    ttl_minutes,
                ) {
                    SweepAction::RemoveDirectory
                } else {
                    SweepAction::Keep
                }
            },
            EntryKind::File => {
                if is_temporary_file(name.as_str()) {
                    SweepAction::RemoveFile
                } else {
                    SweepAction::Keep
                }
            },
            EntryKind::Other => SweepAction::Keep,
        },
    }
}

/// A sweep needs a time to live above zero.
pub fn check_time_to_live(ttl_minutes: u64) -> (r: Result<(), CleanupError>)
    ensures
        match r {
            Ok(_) => ttl_minutes > 0,
            Err(e) => ttl_minutes == 0 && e@ == CleanupErrorView::InvalidConfiguration,
        },
{
    if ttl_minutes == 0 {
        Err(CleanupError::InvalidConfiguration)
    } else {
        Ok(())
    }
}

/// Plans one sweep of the cache root at `now`: what to do with each entry, in the
/// order of the listing. A time to live of zero is refused.
pub fn cleanup_old_files(entries: &Vec<RootEntry>, now: u128, ttl_minutes: u64) -> (r: Result<
    Vec<SweepAction>,
    CleanupError,
>)
    ensures
        match r {
            Ok(plan) => {
                &&& ttl_minutes > 0
                &&& plan.len() == entries.len()
                &&& forall|i: int|
                    0 <= i < plan.len() ==> #[trigger] plan[i] == sweep_action(
                        entries[i]@,
                        now,
                        ttl_minutes,
                    )
            },
            Err(e) => ttl_minutes == 0 && e@ == CleanupErrorView::InvalidConfiguration,
        },
{
    match check_time_to_live(ttl_minutes) {
        Err(e) => {
            return Err(e);
        },
        Ok(_) => {},
    }
    let mut plan: Vec<SweepAction> = Vec::new();
    let mut i: usize = 0;
    while i < entries.len()
        invariant
            i <= entries.len(),
            plan.len() == i,
            forall|j: int|
                0 <= j < i ==> #[trigger] plan[j] == sweep_action(entries[j]@, now, ttl_minutes),
        decreases entries.len() - i,
    {
        plan.push(sweep_entry(&entries[i], now, ttl_minutes));
        i += 1;
    }
    Ok(plan)
}

/// How many removals succeeded.
pub open spec fn successes(outcomes: Seq<bool>) -> nat
    decreases outcomes.len(),
{
    if outcomes.len() == 0 {
        0
    } else if outcomes.last() {
        successes(outcomes.drop_last()) + 1
    } else {
        successes(outcomes.drop_last())
    }
}

/// Counts what a sweep removed, given for each removal it tried whether the
/// removal succeeded. A removal that failed is passed over and counts for nothing.
pub fn count_removed(outcomes: &Vec<bool>) -> (count: usize)
    ensures
        count == successes(outcomes@),
{
    let mut count: usize = 0;
    let mut i: usize = 0;
    while i < outcomes.len()
        invariant
            i <= outcomes.len(),
            count == successes(outcomes@.take(i as int)),
            count <= i,
        decreases outcomes.len() - i,
    {
        assert(outcomes@.take(i + 1).drop_last() == outcomes@.take(i as int));
        if outcomes[i] {
            count += 1;
        }
        i += 1;
    }
    assert(outcomes@.take(outcomes.len() as int) == outcomes@);
    count
}

/// The line that reports a sweep.
pub open spec fn cleanup_report(removed_count: nat) -> Seq<char> {
    if removed_count > 0 {
        "Cleanup completed: removed "@ + decimal(removed_count) + " old files/directories"@
    } else {
        "Cleanup completed: no old files found"@
    }
}

/// Words the result of a sweep for the log.
pub fn log_cleanup_result(removed_count: usize) -> (line: String)
    ensures
        line@ == cleanup_report(removed_count as nat),
{
    let mut out: Vec<char> = Vec::new();
    if removed_count > 0 {
        push_text(&mut out, "Cleanup completed: removed ");
        push_decimal(&mut out, removed_count as u64);
        push_text(&mut out, " old files/directories");
    } else {
        push_text(&mut out, "Cleanup completed: no old files found");
    }
    string_of(&out)
}

/// An entry whose marker was stamped at `stamped` is kept by every sweep before
/// its time to live is over and removed by every sweep from then on: present a
/// moment `margin` before `stamped` plus the time to live, gone a moment after.
pub proof fn lemma_ttl_boundary(entry: RootEntryView, stamped: u128, ttl_minutes: u64, margin: u128)
    requires
        entry.kind == EntryKind::Directory,
        entry.name matches Some(name) && name != reserved_directory(),
        entry.marker == Marker::Stamped(stamped),
        0 < margin <= ttl_minutes * NANOS_PER_MINUTE,
        stamped + ttl_minutes * NANOS_PER_MINUTE + margin <= u128::MAX,
    ensures
        sweep_action(
            entry,
            (stamped + ttl_minutes * NANOS_PER_MINUTE - margin) as u128,
            ttl_minutes,
        ) == SweepAction::Keep,
        sweep_action(
            entry,
            (stamped + ttl_minutes * NANOS_PER_MINUTE + margin) as u128,
            ttl_minutes,
        ) == SweepAction::RemoveDirectory,
        sweep_action(entry, (stamped + ttl_minutes * NANOS_PER_MINUTE) as u128, ttl_minutes)
            == SweepAction::RemoveDirectory,
{
}

/// A temporary file is removed by the sweep that finds it, whatever its age, the
/// time of the sweep and the time to live.
pub proof fn lemma_temporary_file_removed(entry: RootEntryView, now: u128, ttl_minutes: u64)
    requires
        entry.kind == EntryKind::File,
        entry.name matches Some(name) && is_temporary_name(name),
    ensures
        sweep_action(entry, now, ttl_minutes) == SweepAction::RemoveFile,
{
}

/// The reserved directory is kept by every sweep.
pub proof fn lemma_reserved_directory_kept(entry: RootEntryView, now: u128, ttl_minutes: u64)
    requires
        entry.kind == EntryKind::Directory,
        entry.name == Some(reserved_directory()),
    ensures
        sweep_action(entry, now, ttl_minutes) == SweepAction::Keep,
{
}

/// What the eviction scheduler is doing.
#[derive(Debug, Clone, Copy, PartialEq, Eq, Structural)]
pub enum SchedulerPhase {
    /// A sweep is under way.
    Sweeping,
    /// The scheduler waits for its period to pass.
    Waiting,
}

/// The eviction scheduler: it sweeps once when it starts and then once every
/// period, for ever.
#[derive(Debug, Clone, Copy, PartialEq, Eq, Structural)]
pub struct Scheduler {
    /// Seconds between sweeps: the time to live.
    pub period_seconds: u64,
    pub phase: SchedulerPhase,
}

/// What the scheduler is told.
#[derive(Debug, Clone, Copy, PartialEq, Eq, Structural)]
pub enum SchedulerEvent {
    /// The sweep is over, whether it worked or failed.
    SweepFinished,
    /// The period has passed.
    PeriodElapsed,
}

/// What the scheduler asks for.
#[derive(Debug, Clone, Copy, PartialEq, Eq, Structural)]
pub enum SchedulerAction {
    /// Nothing: the event was not the one the scheduler waits for.
    Idle,
    /// Sweep the cache root now.
    Sweep,
    /// Wait for so many seconds.
    Sleep { seconds: u64 },
}

/// Whether a time to live can be scheduled: it is not zero, and its seconds can be
/// counted.
pub open spec fn is_schedulable(ttl_minutes: u64) -> bool {
    0 < ttl_minutes && ttl_minutes * 60 <= u64::MAX
}

/// The scheduler's step on an event: after a sweep it sleeps for its period, and
/// when the period has passed it sweeps again.
pub open spec fn scheduler_next(scheduler: Scheduler, event: SchedulerEvent) -> (
    Scheduler,
    SchedulerAction,
) {
    match (scheduler.phase, event) {
        (SchedulerPhase::Sweeping, SchedulerEvent::SweepFinished) => (
            Scheduler { phase: SchedulerPhase::Waiting, ..scheduler },
            SchedulerAction::Sleep { seconds: scheduler.period_seconds },
        ),
        (SchedulerPhase::Waiting, SchedulerEvent::PeriodElapsed) => (
            Scheduler { phase: SchedulerPhase::Sweeping, ..scheduler },
            SchedulerAction::Sweep,
        ),
        _ => (scheduler, SchedulerAction::Idle),
    }
}

/// Starts the eviction scheduler for a time to live in minutes. The scheduler
/// begins with a sweep, so that what an earlier run left behind goes at once, and
/// its period is the time to live. A time to live of zero is refused, and so is
/// one whose seconds cannot be counted; no scheduler starts then.
pub fn start_cleanup_scheduler(ttl_minutes: u64) -> (r: Result<
    (Scheduler, SchedulerAction),
    CleanupError,
>)
    ensures
        match r {
            Ok(started) => is_schedulable(ttl_minutes) && started == (
                Scheduler { period_seconds: (ttl_minutes * 60) as u64, phase: SchedulerPhase::Sweeping },
                SchedulerAction::Sweep,
            ),
            Err(e) => !is_schedulable(ttl_minutes) && e@ == CleanupErrorView::InvalidConfiguration,
        },
{
    if ttl_minutes == 0 || ttl_minutes > u64::MAX / 60 {
        return Err(CleanupError::InvalidConfiguration);
    }
    Ok(
        (
            Scheduler { period_seconds: ttl_minutes * 60, phase: SchedulerPhase::Sweeping },
            SchedulerAction::Sweep,
        ),
    )
}

impl Scheduler {
    /// Takes the scheduler one step further.
    pub fn step(self, event: SchedulerEvent) -> (r: (Scheduler, SchedulerAction))
        ensures
            r == scheduler_next(self, event),
    {
        match (self.phase, event) {
            (SchedulerPhase::Sweeping, SchedulerEvent::SweepFinished) => (
                Scheduler { period_seconds: self.period_seconds, phase: SchedulerPhase::Waiting },
                SchedulerAction::Sleep { seconds: self.period_seconds },
            ),
            (SchedulerPhase::Waiting, SchedulerEvent::PeriodElapsed) => (
                Scheduler { period_seconds: self.period_seconds, phase: SchedulerPhase::Sweeping },
                SchedulerAction::Sweep,
            ),
            _ => (self, SchedulerAction::Idle),
        }
    }
}

/// The scheduler never stops and never changes its period: a sweep is followed by
/// a sleep of one period, and the sleep by the next sweep.
pub proof fn lemma_scheduler_round(scheduler: Scheduler)
    requires
        scheduler.phase == SchedulerPhase::Sweeping,
    ensures
        ({
            let slept = scheduler_next(scheduler, SchedulerEvent::SweepFinished);
            let swept = scheduler_next(slept.0, SchedulerEvent::PeriodElapsed);
            &&& slept.1 == SchedulerAction::Sleep { seconds: scheduler.period_seconds }
            &&& swept.1 == SchedulerAction::Sweep
            &&& swept.0 == scheduler
        }),
{
}

} // verus!
