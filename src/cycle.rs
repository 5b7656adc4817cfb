//! One check cycle: fetch, normalize, rotate the two snapshots, write the new
//! one, and compare it with the one before.
//!
//! The snapshots are modelled by [`Snapshots`]: each of the two files is
//! either absent or holds a text.  [`plan_cycle`] and [`outcome_of`] are the
//! decisions of a cycle whatever holds the files; [`SnapshotFiles`] holds them
//! in memory and [`run_cycle`] runs a whole cycle on it.
use vstd::prelude::*;
use crate::normalize::{normalize, strip_timestamps};

verus! {

/// How a cycle whose lookup went through ends.
#[derive(Clone, Copy, Debug, PartialEq, Eq, Structural)]
pub enum CheckOutcome {
    /// The new snapshot equals the previous one.
    Unchanged,
    /// The new snapshot differs from the previous one: the one outcome that alerts.
    Changed,
    /// The two snapshots could not be compared (there is no previous one, or
    /// a file went missing).
    ComparisonFailed,
}

/// Why a cycle, or the start of the watcher, failed.
#[derive(Clone, Copy, Debug, PartialEq, Eq, Structural)]
pub enum WatchError {
    /// The registry-server directory is absent at startup.
    StartupConfigMissing,
    /// The WHOIS lookup could not be performed.
    LookupError,
    /// The new snapshot could not be written.
    WriteError,
}

/// The two snapshot files: `None` where a file is absent.
pub struct Snapshots {
    pub current: Option<Seq<char>>,
    pub previous: Option<Seq<char>>,
}

/// No snapshot file exists yet.
pub open spec fn no_snapshots() -> Snapshots {
    Snapshots { current: None, previous: None }
}

/// The files after rotation and the write of `text`: the old current
/// snapshot becomes the previous one, and `text` the current one.
pub open spec fn rotate_and_write(m: Snapshots, text: Seq<char>) -> Snapshots {
    Snapshots { current: Some(text), previous: m.current }
}

/// Byte-for-byte comparison of the current snapshot with the previous one;
/// `None` where one of them is absent.
pub open spec fn compare_spec(m: Snapshots) -> Option<bool> {
    match (m.current, m.previous) {
        (Some(c), Some(p)) => Some(c == p),
        _ => None,
    }
}

/// The outcome that a comparison result gives.
pub open spec fn outcome_spec(same: Option<bool>) -> CheckOutcome {
    match same {
        Some(true) => CheckOutcome::Unchanged,
        Some(false) => CheckOutcome::Changed,
        None => CheckOutcome::ComparisonFailed,
    }
}

/// Whether an outcome raises an alert.
pub open spec fn notifies(outcome: CheckOutcome) -> bool {
    outcome == CheckOutcome::Changed
}

/// One cycle on the files `m`, where `fetched` is the raw WHOIS response, or
/// `None` when the lookup failed: the files after it, and its result.
pub open spec fn cycle_spec(m: Snapshots, fetched: Option<Seq<char>>) -> (Snapshots, Result<
    CheckOutcome,
    WatchError,
>) {
    match fetched {
        None => (m, Err(WatchError::LookupError)),
        Some(raw) => {
            let after = rotate_and_write(m, strip_timestamps(raw));
            (after, Ok(outcome_spec(compare_spec(after))))
        },
    }
}

/// The files after a cycle for each response of `raws` in turn, all of them
/// successful lookups.
pub open spec fn run_cycles(m: Snapshots, raws: Seq<Seq<char>>) -> Snapshots
    decreases raws.len(),
{
    if raws.len() == 0 {
        m
    } else {
        cycle_spec(run_cycles(m, raws.drop_last()), Some(raws.last())).0
    }
}

/// The text of a file that may be absent.
pub open spec fn text_of(f: Option<String>) -> Option<Seq<char>> {
    match f {
        Some(s) => Some(s@),
        None => None,
    }
}

/// The startup check: the watcher may start only when the registry-server
/// directory was found.
pub fn requirements(server_file_found: bool) -> (r: Result<(), WatchError>)
    ensures
        r == (if server_file_found {
            Ok(())
        } else {
            Err(WatchError::StartupConfigMissing)
        }),
{
    if server_file_found {
        Ok(())
    } else {
        Err(WatchError::StartupConfigMissing)
    }
}

/// The file operations of a cycle, in this order: remove the previous
/// snapshot, rename the current one to previous, write `text` as current.
pub struct RotationPlan {
    pub remove_previous: bool,
    pub rename_current: bool,
    pub text: String,
}

/// The lookup of the WHOIS record could not be performed.
#[derive(Clone, Copy, Debug, PartialEq, Eq, Structural)]
pub struct LookupFailed;

/// The raw response of a lookup, or `None` when it failed.
pub open spec fn fetched_text(fetched: Result<String, LookupFailed>) -> Option<Seq<char>> {
    match fetched {
        Ok(raw) => Some(raw@),
        Err(_) => None,
    }
}

/// The file operations of a cycle, given what the lookup returned and which
/// snapshot files exist.  A failed lookup plans nothing, so that the files
/// stay untouched.
pub fn plan_cycle(fetched: Result<String, LookupFailed>, current_exists: bool, previous_exists: bool) -> (r:
    Result<RotationPlan, WatchError>)
    ensures
        match fetched {
            Ok(raw) => r matches Ok(plan) && plan.remove_previous == previous_exists
                && plan.rename_current == current_exists && plan.text@ == strip_timestamps(raw@),
            Err(_) => r == Err::<RotationPlan, WatchError>(WatchError::LookupError),
        },
{
    match fetched {
        Ok(raw) => {
            let text = normalize(raw.as_str());
            Ok(RotationPlan { remove_previous: previous_exists, rename_current: current_exists, text })
        },
        Err(_) => Err(WatchError::LookupError),
    }
}

/// The outcome of a cycle from its comparison: `Some(same)` where the two
/// snapshots could be compared, `None` where they could not.
pub fn outcome_of(same: Option<bool>) -> (r: CheckOutcome)
    ensures
        r == outcome_spec(same),
{
    match same {
        Some(true) => CheckOutcome::Unchanged,
        Some(false) => CheckOutcome::Changed,
        None => CheckOutcome::ComparisonFailed,
    }
}

/// Whether the outcome calls for an alert: only a change does.
pub fn should_notify(outcome: CheckOutcome) -> (r: bool)
    ensures
        r == notifies(outcome),
{
    match outcome {
        CheckOutcome::Changed => true,
        _ => false,
    }
}

/// The two snapshot files held in memory.
pub struct SnapshotFiles {
    pub current: Option<String>,
    pub previous: Option<String>,
}

impl View for SnapshotFiles {
    type V = Snapshots;

    open spec fn view(&self) -> Snapshots {
        Snapshots { current: text_of(self.current), previous: text_of(self.previous) }
    }
}

impl SnapshotFiles {
    /// No snapshot file exists.
    pub fn new() -> (r: SnapshotFiles)
        ensures
            r@ == no_snapshots(),
    {
        SnapshotFiles { current: None, previous: None }
    }

    /// Carries out `plan`: removes the previous snapshot if asked, renames the
    /// current one if asked and present, then writes the plan's text.
    pub fn apply(&mut self, plan: RotationPlan)
        ensures
            final(self)@.current == Some(plan.text@),
            final(self)@.previous == (if plan.rename_current && old(self).current is Some {
                old(self)@.current
            } else if plan.remove_previous {
                None
            } else {
                old(self)@.previous
            }),
    {
        if plan.remove_previous {
            self.previous = None;
        }
        if plan.rename_current {
            let cur = self.current.take();
            if cur.is_some() {
                self.previous = cur;
            }
        }
        self.current = Some(plan.text);
    }

    /// Compares the current snapshot with the previous one.
    pub fn compare(&self) -> (r: Option<bool>)
        ensures
            r == compare_spec(self@),
    {
        match (&self.current, &self.previous) {
            (Some(c), Some(p)) => Some(String::eq(c, p)),
            _ => None,
        }
    }
}

/// One check cycle on the snapshots held in `files`, where `fetched` is what
/// the lookup returned.
pub fn run_cycle(files: &mut SnapshotFiles, fetched: Result<String, LookupFailed>) -> (r: Result<
    CheckOutcome,
    WatchError,
>)
    ensures
        (final(files)@, r) == cycle_spec(old(files)@, fetched_text(fetched)),
{
    let current_exists = files.current.is_some();
    let previous_exists = files.previous.is_some();
    match plan_cycle(fetched, current_exists, previous_exists) {
        Ok(plan) => {
            files.apply(plan);
            let same = files.compare();
            Ok(outcome_of(same))
        },
        Err(e) => Err(e),
    }
}

/// On the first cycle, when no snapshot file exists, a successful lookup
/// never ends in `Changed`, and it leaves a current snapshot holding the
/// normalized response.
pub proof fn lemma_first_cycle_never_changed(raw: Seq<char>)
    ensures
        cycle_spec(no_snapshots(), Some(raw)).1 is Ok,
        cycle_spec(no_snapshots(), Some(raw)).1 != Ok::<CheckOutcome, WatchError>(
            CheckOutcome::Changed,
        ),
        cycle_spec(no_snapshots(), Some(raw)).0.current == Some(strip_timestamps(raw)),
{
}

/// Two consecutive cycles whose responses normalize to the same text: the
/// second ends in `Unchanged`.
pub proof fn lemma_same_content_unchanged(m: Snapshots, raw1: Seq<char>, raw2: Seq<char>)
    requires
        strip_timestamps(raw1) == strip_timestamps(raw2),
    ensures
        cycle_spec(cycle_spec(m, Some(raw1)).0, Some(raw2)).1 == Ok::<CheckOutcome, WatchError>(
            CheckOutcome::Unchanged,
        ),
{
}

/// Two consecutive cycles whose responses normalize to different texts: the
/// second ends in `Changed`, the one outcome that alerts, and leaves the
/// first text as previous snapshot and the second as current.
pub proof fn lemma_changed_content_alerts(m: Snapshots, raw1: Seq<char>, raw2: Seq<char>)
    requires
        strip_timestamps(raw1) != strip_timestamps(raw2),
    ensures
        ({
            let (after, r) = cycle_spec(cycle_spec(m, Some(raw1)).0, Some(raw2));
            &&& r == Ok::<CheckOutcome, WatchError>(CheckOutcome::Changed)
            &&& notifies(CheckOutcome::Changed)
            &&& after.previous == Some(strip_timestamps(raw1))
            &&& after.current == Some(strip_timestamps(raw2))
        }),
{
}

/// Rotation loses nothing: after N >= 2 successful cycles the current
/// snapshot holds the Nth normalized response and the previous one the
/// (N-1)th.
pub proof fn lemma_rotation_keeps_last_two(m: Snapshots, raws: Seq<Seq<char>>)
    requires
        raws.len() >= 2,
    ensures
        run_cycles(m, raws).current == Some(strip_timestamps(raws[raws.len() - 1])),
        run_cycles(m, raws).previous == Some(strip_timestamps(raws[raws.len() - 2])),
{
    let before = raws.drop_last();
    assert(run_cycles(m, before) == cycle_spec(run_cycles(m, before.drop_last()), Some(before.last())).0);
}

/// A failed lookup leaves both snapshot files as they were and fails the
/// cycle with `LookupError`.
pub proof fn lemma_lookup_failure_leaves_files(m: Snapshots)
    ensures
        cycle_spec(m, None) == (m, Err::<CheckOutcome, WatchError>(WatchError::LookupError)),
{
}

} // verus!
