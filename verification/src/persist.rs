use vstd::prelude::*;
use crate::MAX_CLOCK_SECONDS;
use crate::MAX_DAY_NUMBER;
use crate::MAX_TARGET_MINUTES;
use crate::MAX_WORKED_SECONDS;
use crate::app::App;
use crate::app::AppModel;
use crate::app::Preset;
use crate::config::Config;
use crate::config::ConfigModel;
use crate::mode::AppMode;
use crate::stats::Stats;
use crate::stats::StatsModel;
use crate::task::Task;
use crate::task::TaskModel;
use crate::timer::Timer;
use crate::timer::TimerState;

verus! {

/// The persisted snapshot of the core: a strict subset of the in-memory
/// state.  Transient state — mode, input buffer, notification ledger, quit
/// flag, appearance settings — is deliberately absent and comes back as
/// defaults on load.
#[derive(Debug)]
pub struct PersistedState {
    pub tasks: Vec<Task>,
    pub selected_task: usize,
    pub next_task_id: u32,
    pub global_timer: Timer,
    pub presets: Vec<Preset>,
    pub stats: Stats,
}

/// Mathematical image of a snapshot.
#[verifier::ext_equal]
pub ghost struct PersistedModel {
    pub tasks: Seq<TaskModel>,
    pub selected_task: int,
    pub next_task_id: u32,
    pub global_timer: Timer,
    pub presets: Seq<(Seq<char>, i64)>,
    pub stats: StatsModel,
}

impl View for PersistedState {
    type V = PersistedModel;

    open spec fn view(&self) -> PersistedModel {
        PersistedModel {
            tasks: self.tasks@.map_values(|t: Task| t@),
            selected_task: self.selected_task as int,
            next_task_id: self.next_task_id,
            global_timer: self.global_timer,
            presets: self.presets@.map_values(|p: Preset| p@),
            stats: self.stats@,
        }
    }
}

/// Why a stored snapshot was rejected: its data contradicts the core's
/// invariants, so the file is treated as corrupt.
#[derive(Clone, Copy, Debug, PartialEq, Eq, Structural)]
pub enum LoadError {
    InvalidState,
}

/// Whether a snapshot satisfies every invariant the core maintains; only
/// such snapshots can be loaded.
pub open spec fn spec_persisted_valid(p: PersistedModel) -> bool {
    &&& (p.tasks.len() == 0 ==> p.selected_task == 0)
    &&& (p.tasks.len() > 0 ==> 0 <= p.selected_task < p.tasks.len())
    &&& 1 <= p.next_task_id
    &&& forall|i: int| 0 <= i < p.tasks.len() ==> (#[trigger] p.tasks[i]).wf()
    &&& forall|i: int| 0 <= i < p.tasks.len() ==> (#[trigger] p.tasks[i]).id < p.next_task_id
    &&& forall|i: int, j: int| 0 <= i < j < p.tasks.len() ==> p.tasks[i].id != p.tasks[j].id
    &&& p.global_timer.wf()
    &&& forall|i: int|
        0 <= i < p.presets.len() ==> 1 <= (#[trigger] p.presets[i]).1 <= MAX_TARGET_MINUTES
    &&& forall|i: int, j: int| 0 <= i < j < p.presets.len() ==> p.presets[i].0 != p.presets[j].0
    &&& p.stats.wf()
}

/// The core a valid snapshot rebuilds: the persisted fields as stored, the
/// transient fields at their defaults.
pub open spec fn spec_from_persisted(p: PersistedModel, config: ConfigModel) -> AppModel {
    AppModel {
        tasks: p.tasks,
        selected_task: p.selected_task,
        next_task_id: p.next_task_id,
        global_timer: p.global_timer,
        presets: p.presets,
        mode: AppMode::Normal,
        input_buffer: Seq::empty(),
        notifications_sent: Seq::empty(),
        config: config,
        should_quit: false,
        stats: p.stats,
    }
}

/// The snapshot a core projects to.
pub open spec fn spec_to_persisted(m: AppModel) -> PersistedModel {
    PersistedModel {
        tasks: m.tasks,
        selected_task: m.selected_task,
        next_task_id: m.next_task_id,
        global_timer: m.global_timer,
        presets: m.presets,
        stats: m.stats,
    }
}

impl Timer {
    /// Whether this timer satisfies its invariant; used to validate stored
    /// timers.
    pub fn check_wf(&self) -> (r: bool)
        ensures
            r == self.wf(),
    {
        let acc_ok = 0 <= self.accumulated_time && self.accumulated_time <= MAX_CLOCK_SECONDS;
        let started_ok = match self.started_at {
            Some(t) => matches!(self.state, TimerState::Running) && 0 <= t && t
                <= MAX_CLOCK_SECONDS,
            None => !matches!(self.state, TimerState::Running),
        };
        let target_ok = -MAX_CLOCK_SECONDS <= self.target_duration && self.target_duration
            <= MAX_CLOCK_SECONDS;
        acc_ok && started_ok && target_ok
    }
}

/// Whether every stored task is well-formed with an id below the counter.
fn tasks_fields_valid(tasks: &Vec<Task>, next_task_id: u32) -> (r: bool)
    ensures
        r == ((forall|i: int| 0 <= i < tasks@.len() ==> (#[trigger] tasks@[i])@.wf()) && (
        forall|i: int| 0 <= i < tasks@.len() ==> (#[trigger] tasks@[i])@.id < next_task_id)),
{
    let ghost view = tasks@;
    let mut i: usize = 0;
    while i < tasks.len()
        invariant
            0 <= i <= tasks@.len(),
            view == tasks@,
            forall|j: int| 0 <= j < i ==> (#[trigger] view[j])@.wf() && view[j]@.id < next_task_id,
        decreases tasks@.len() - i,
    {
        if tasks[i].id < 1 || tasks[i].id >= next_task_id || !tasks[i].timer.check_wf() {
            return false;
        }
        i = i + 1;
    }
    true
}

/// Whether the stored task ids are pairwise distinct.
fn task_ids_distinct(tasks: &Vec<Task>) -> (r: bool)
    ensures
        r == (forall|i: int, j: int|
            0 <= i < j < tasks@.len() ==> tasks@[i]@.id != tasks@[j]@.id),
{
    let ghost view = tasks@;
    let mut i: usize = 0;
    while i < tasks.len()
        invariant
            0 <= i <= tasks@.len(),
            view == tasks@,
            forall|a: int, b: int|
                0 <= a < b < tasks@.len() && a < i ==> view[a]@.id != view[b]@.id,
        decreases tasks@.len() - i,
    {
        let mut j: usize = i + 1;
        while j < tasks.len()
            invariant
                0 <= i < j <= tasks@.len(),
                view == tasks@,
                forall|b: int| i < b < j ==> view[i as int]@.id != view[b]@.id,
            decreases tasks@.len() - j,
        {
            if tasks[i].id == tasks[j].id {
                return false;
            }
            j = j + 1;
        }
        i = i + 1;
    }
    true
}

/// Whether the stored presets carry in-range minutes under distinct names.
fn presets_valid(presets: &Vec<Preset>) -> (r: bool)
    ensures
        r == ((forall|i: int|
            0 <= i < presets@.len() ==> 1 <= (#[trigger] presets@[i])@.1 <= MAX_TARGET_MINUTES) && (
        forall|i: int, j: int| 0 <= i < j < presets@.len() ==> presets@[i]@.0 != presets@[j]@.0)),
{
    let ghost view = presets@;
    let mut i: usize = 0;
    while i < presets.len()
        invariant
            0 <= i <= presets@.len(),
            view == presets@,
            forall|j: int| 0 <= j < i ==> 1 <= (#[trigger] view[j])@.1 <= MAX_TARGET_MINUTES,
            forall|a: int, b: int|
                0 <= a < b < presets@.len() && a < i ==> view[a]@.0 != view[b]@.0,
        decreases presets@.len() - i,
    {
        if presets[i].minutes < 1 || presets[i].minutes > MAX_TARGET_MINUTES {
            return false;
        }
        let mut j: usize = i + 1;
        while j < presets.len()
            invariant
                0 <= i < j <= presets@.len(),
                view == presets@,
                forall|b: int| i < b < j ==> view[i as int]@.0 != view[b]@.0,
            decreases presets@.len() - j,
        {
            if crate::textutil::str_eq(presets[i].name.as_str(), presets[j].name.as_str()) {
                return false;
            }
            j = j + 1;
        }
        i = i + 1;
    }
    true
}

/// Whether the stored statistics are in range with distinct category names.
fn stats_valid(stats: &Stats) -> (r: bool)
    ensures
        r == stats@.wf(),
{
    if stats.total_time_worked < 0 || stats.total_time_worked > MAX_WORKED_SECONDS {
        return false;
    }
    if stats.last_active_date < -MAX_DAY_NUMBER || stats.last_active_date > MAX_DAY_NUMBER {
        return false;
    }
    let ghost view = stats@.tasks_by_category;
    let mut i: usize = 0;
    while i < stats.tasks_by_category.len()
        invariant
            0 <= i <= stats@.tasks_by_category.len(),
            view == stats@.tasks_by_category,
            forall|a: int, b: int|
                0 <= a < b < view.len() && a < i ==> view[a].0 != view[b].0,
        decreases stats@.tasks_by_category.len() - i,
    {
        let mut j: usize = i + 1;
        while j < stats.tasks_by_category.len()
            invariant
                0 <= i < j <= stats@.tasks_by_category.len(),
                view == stats@.tasks_by_category,
                forall|b: int| i < b < j ==> view[i as int].0 != view[b].0,
            decreases stats@.tasks_by_category.len() - j,
        {
            if crate::textutil::str_eq(
                stats.tasks_by_category[i].name.as_str(),
                stats.tasks_by_category[j].name.as_str(),
            ) {
                proof {
                    assert(view[i as int] == stats.tasks_by_category@[i as int]@);
                    assert(view[j as int] == stats.tasks_by_category@[j as int]@);
                    assert(view[i as int].0 == view[j as int].0);
                }
                return false;
            }
            j = j + 1;
        }
        i = i + 1;
    }
    true
}

impl App {
    /// Projects the core onto its persisted snapshot.  The projection keeps
    /// every persisted field and drops the transient ones.
    pub fn to_persisted(&self) -> (p: PersistedState)
        ensures
            p@ == spec_to_persisted(self@),
    {
        let mut tasks: Vec<Task> = Vec::new();
        let mut i: usize = 0;
        while i < self.tasks.len()
            invariant
                0 <= i <= self@.tasks.len(),
                tasks@.len() == i,
                forall|j: int| 0 <= j < i ==> (#[trigger] tasks@[j])@ == self@.tasks[j],
            decreases self@.tasks.len() - i,
        {
            let t = self.tasks[i].clone();
            tasks.push(t);
            i = i + 1;
        }
        let mut presets: Vec<Preset> = Vec::new();
        let mut k: usize = 0;
        while k < self.presets.len()
            invariant
                0 <= k <= self@.presets.len(),
                presets@.len() == k,
                forall|j: int| 0 <= j < k ==> (#[trigger] presets@[j])@ == self@.presets[j],
            decreases self@.presets.len() - k,
        {
            let p = self.presets[k].clone();
            presets.push(p);
            k = k + 1;
        }
        let p = PersistedState {
            tasks,
            selected_task: self.selected_task,
            next_task_id: self.next_task_id,
            global_timer: self.global_timer,
            presets,
            stats: self.stats.clone(),
        };
        proof {
            assert(p@.tasks =~= spec_to_persisted(self@).tasks);
            assert(p@.presets =~= spec_to_persisted(self@).presets);
            assert(p@ =~= spec_to_persisted(self@));
        }
        p
    }

    /// Rebuilds a core from a stored snapshot, under the given appearance
    /// settings.  A snapshot that contradicts any core invariant is
    /// rejected as corrupt — exactly then — and an accepted one yields the
    /// stored data with the transient state back at defaults.
    pub fn from_persisted(persisted: PersistedState, config: Config) -> (r: Result<App, LoadError>)
        ensures
            r is Ok <==> spec_persisted_valid(persisted@),
            r matches Ok(app) ==> app@ == spec_from_persisted(persisted@, config@) && app@.wf(),
            r matches Err(e) ==> e == LoadError::InvalidState,
    {
        let task_count = persisted.tasks.len();
        if task_count == 0 && persisted.selected_task != 0 {
            return Err(LoadError::InvalidState);
        }
        if task_count > 0 && persisted.selected_task >= task_count {
            return Err(LoadError::InvalidState);
        }
        if persisted.next_task_id < 1 {
            return Err(LoadError::InvalidState);
        }
        if !tasks_fields_valid(&persisted.tasks, persisted.next_task_id) {
            proof {
                if spec_persisted_valid(persisted@) {
                    assert forall|i: int| 0 <= i < persisted.tasks@.len() implies (
                    #[trigger] persisted.tasks@[i])@.wf() && persisted.tasks@[i]@.id
                        < persisted.next_task_id by {
                        assert(persisted@.tasks[i] == persisted.tasks@[i]@);
                        assert(persisted@.tasks[i].wf());
                        assert(persisted@.tasks[i].id < persisted@.next_task_id);
                    }
                    assert(false);
                }
            }
            return Err(LoadError::InvalidState);
        }
        if !task_ids_distinct(&persisted.tasks) {
            proof {
                if spec_persisted_valid(persisted@) {
                    assert forall|i: int, j: int|
                        0 <= i < j < persisted.tasks@.len() implies persisted.tasks@[i]@.id
                        != persisted.tasks@[j]@.id by {
                        assert(persisted@.tasks[i] == persisted.tasks@[i]@);
                        assert(persisted@.tasks[j] == persisted.tasks@[j]@);
                        assert(persisted@.tasks[i].id != persisted@.tasks[j].id);
                    }
                    assert(false);
                }
            }
            return Err(LoadError::InvalidState);
        }
        if !persisted.global_timer.check_wf() {
            return Err(LoadError::InvalidState);
        }
        if !presets_valid(&persisted.presets) {
            proof {
                if spec_persisted_valid(persisted@) {
                    assert forall|i: int|
                        0 <= i < persisted.presets@.len() implies 1 <= (
                    #[trigger] persisted.presets@[i])@.1 <= MAX_TARGET_MINUTES by {
                        assert(persisted@.presets[i] == persisted.presets@[i]@);
                    }
                    assert forall|i: int, j: int|
                        0 <= i < j < persisted.presets@.len() implies persisted.presets@[i]@.0
                        != persisted.presets@[j]@.0 by {
                        assert(persisted@.presets[i] == persisted.presets@[i]@);
                        assert(persisted@.presets[j] == persisted.presets@[j]@);
                        assert(persisted@.presets[i].0 != persisted@.presets[j].0);
                    }
                    assert(false);
                }
            }
            return Err(LoadError::InvalidState);
        }
        if !stats_valid(&persisted.stats) {
            return Err(LoadError::InvalidState);
        }
        let app = App {
            tasks: persisted.tasks,
            selected_task: persisted.selected_task,
            next_task_id: persisted.next_task_id,
            global_timer: persisted.global_timer,
            presets: persisted.presets,
            mode: AppMode::Normal,
            input_buffer: Vec::new(),
            notifications_sent: Vec::new(),
            config,
            should_quit: false,
            stats: persisted.stats,
        };
        proof {
            assert(app@ =~= spec_from_persisted(persisted@, config@));
        }
        Ok(app)
    }
}

/// Round-trip persistence: a well-formed core's snapshot is always accepted
/// back, and rebuilding from it reproduces the task data, presets,
/// statistics and global timer exactly, with the transient state reset to
/// defaults.
pub proof fn lemma_persist_round_trip(m: AppModel, config: ConfigModel)
    requires
        m.wf(),
    ensures
        spec_persisted_valid(spec_to_persisted(m)),
        spec_from_persisted(spec_to_persisted(m), config) == (AppModel {
            mode: AppMode::Normal,
            input_buffer: Seq::empty(),
            notifications_sent: Seq::empty(),
            config: config,
            should_quit: false,
            ..m
        }),
        spec_from_persisted(spec_to_persisted(m), config).wf(),
{
    assert(spec_from_persisted(spec_to_persisted(m), config) =~= (AppModel {
        mode: AppMode::Normal,
        input_buffer: Seq::empty(),
        notifications_sent: Seq::empty(),
        config: config,
        should_quit: false,
        ..m
    }));
}

} // verus!
