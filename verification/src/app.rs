use vstd::prelude::*;
use crate::MAX_CLOCK_SECONDS;
use crate::MAX_DAY_NUMBER;
use crate::MAX_TARGET_MINUTES;
use crate::config::Config;
use crate::config::ConfigModel;
use crate::mode::AppMode;
use crate::stats::Stats;
use crate::stats::StatsModel;
use crate::task::CategoryModel;
use crate::task::Task;
use crate::task::TaskCategory;
use crate::task::TaskModel;
use crate::task::Priority;
use crate::timer::Timer;
use crate::timer::TimerState;

verus! {

broadcast use vstd::string::group_string_axioms;

/// A named shortcut mapping to a timer length in minutes.
#[derive(Debug)]
pub struct Preset {
    pub name: String,
    pub minutes: i64,
}

impl View for Preset {
    type V = (Seq<char>, i64);

    open spec fn view(&self) -> (Seq<char>, i64) {
        (self.name@, self.minutes)
    }
}

impl Clone for Preset {
    fn clone(&self) -> (r: Self)
        ensures
            r@ == self@,
    {
        Preset { name: self.name.clone(), minutes: self.minutes }
    }
}

/// The application core: the single mutable aggregate every collaborator
/// drives.  The task list is insertion-ordered; `notifications_sent` holds
/// the ids already notified since their last reset (the global timer uses
/// the reserved id 0; task ids start at 1).
#[derive(Debug)]
pub struct App {
    pub tasks: Vec<Task>,
    pub selected_task: usize,
    pub next_task_id: u32,
    pub global_timer: Timer,
    pub presets: Vec<Preset>,
    pub mode: AppMode,
    pub input_buffer: Vec<char>,
    pub notifications_sent: Vec<u32>,
    pub config: Config,
    pub should_quit: bool,
    pub stats: Stats,
}

/// Mathematical image of the application core.
#[verifier::ext_equal]
pub ghost struct AppModel {
    pub tasks: Seq<TaskModel>,
    pub selected_task: int,
    pub next_task_id: u32,
    pub global_timer: Timer,
    pub presets: Seq<(Seq<char>, i64)>,
    pub mode: AppMode,
    pub input_buffer: Seq<char>,
    pub notifications_sent: Seq<u32>,
    pub config: ConfigModel,
    pub should_quit: bool,
    pub stats: StatsModel,
}

impl View for App {
    type V = AppModel;

    open spec fn view(&self) -> AppModel {
        AppModel {
            tasks: self.tasks@.map_values(|t: Task| t@),
            selected_task: self.selected_task as int,
            next_task_id: self.next_task_id,
            global_timer: self.global_timer,
            presets: self.presets@.map_values(|p: Preset| p@),
            mode: self.mode,
            input_buffer: self.input_buffer@,
            notifications_sent: self.notifications_sent@,
            config: self.config@,
            should_quit: self.should_quit,
            stats: self.stats@,
        }
    }
}

/// `s` with every occurrence of `id` removed, order otherwise kept.
pub open spec fn spec_without_id(s: Seq<u32>, id: u32) -> Seq<u32> {
    s.filter(|n: u32| n != id)
}

/// What removal keeps: exactly the other ids, in order, duplicate-free if
/// the source was.
pub proof fn lemma_without_id_facts(s: Seq<u32>, id: u32)
    ensures
        forall|k: int|
            0 <= k < spec_without_id(s, id).len() ==> s.contains(
                #[trigger] spec_without_id(s, id)[k],
            ) && spec_without_id(s, id)[k] != id,
        forall|x: u32| s.contains(x) && x != id ==> #[trigger] spec_without_id(s, id).contains(x),
        (forall|i: int, j: int| 0 <= i < j < s.len() ==> s[i] != s[j]) ==> (forall|i: int, j: int|
            0 <= i < j < spec_without_id(s, id).len() ==> spec_without_id(s, id)[i]
                != spec_without_id(s, id)[j]),
    decreases s.len(),
{
    reveal(Seq::filter);
    let f = spec_without_id(s, id);
    if s.len() > 0 {
        let pre = s.drop_last();
        let fpre = spec_without_id(pre, id);
        lemma_without_id_facts(pre, id);
        assert(pre =~= s.take(s.len() - 1));
        assert forall|k: int|
            0 <= k < f.len() implies s.contains(#[trigger] f[k]) && f[k] != id by {
            if s.last() != id && k == f.len() - 1 {
                assert(f[k] == s.last());
                assert(s[s.len() - 1] == s.last());
            } else {
                assert(f[k] == fpre[k]);
                assert(pre.contains(fpre[k]) && fpre[k] != id);
                let j = choose|j: int| 0 <= j < pre.len() && pre[j] == fpre[k];
                assert(s[j] == fpre[k]);
            }
        }
        assert forall|x: u32| s.contains(x) && x != id implies #[trigger] f.contains(x) by {
            let j = choose|j: int| 0 <= j < s.len() && s[j] == x;
            if j < s.len() - 1 {
                assert(pre[j] == x);
                assert(pre.contains(x));
                assert(fpre.contains(x));
                let k = choose|k: int| 0 <= k < fpre.len() && fpre[k] == x;
                assert(f[k] == x);
            } else {
                assert(s.last() == x);
                assert(f.last() == x);
            }
        }
        if forall|i: int, j: int| 0 <= i < j < s.len() ==> s[i] != s[j] {
            assert(forall|i: int, j: int| 0 <= i < j < pre.len() ==> pre[i] != pre[j]);
            if s.last() != id {
                assert forall|i: int, j: int|
                    0 <= i < j < f.len() implies f[i] != f[j] by {
                    if j == f.len() - 1 {
                        assert(f[i] == fpre[i]);
                        assert(pre.contains(fpre[i]));
                        let k = choose|k: int| 0 <= k < pre.len() && pre[k] == fpre[i];
                        assert(s[k] == fpre[i]);
                        assert(s[s.len() - 1] == s.last());
                    }
                }
            }
        }
    }
}

/// Removes every occurrence of `id` from a notification ledger.
fn remove_id(v: &mut Vec<u32>, id: u32)
    ensures
        final(v)@ == spec_without_id(old(v)@, id),
{
    let ghost s = v@;
    let mut out: Vec<u32> = Vec::new();
    let mut i: usize = 0;
    proof {
        reveal(Seq::filter);
        assert(s.take(0).filter(|n: u32| n != id) =~= Seq::<u32>::empty());
        assert(out@ == spec_without_id(s.take(0), id));
    }
    while i < v.len()
        invariant
            0 <= i <= v@.len(),
            v@ == s,
            out@ == spec_without_id(s.take(i as int), id),
        decreases v@.len() - i,
    {
        let n = v[i];
        if n != id {
            out.push(n);
        }
        i = i + 1;
        proof {
            reveal(Seq::filter);
            assert(s.take(i as int).drop_last() =~= s.take(i as int - 1));
            assert(s.take(i as int).last() == s[i as int - 1]);
            assert(out@ == spec_without_id(s.take(i as int), id));
        }
    }
    proof {
        assert(s.take(s.len() as int) =~= s);
    }
    *v = out;
}

impl AppModel {
    /// Well-formedness of the whole core: the selection is in range (and
    /// rests at zero while the list is empty), task ids are positive,
    /// distinct and below the id counter, every timer is well-formed,
    /// presets carry positive in-range minutes under distinct names, the
    /// notification ledger holds distinct ids below the counter, and the
    /// statistics are well-formed.
    pub open spec fn wf(self) -> bool {
        &&& (self.tasks.len() == 0 ==> self.selected_task == 0)
        &&& (self.tasks.len() > 0 ==> 0 <= self.selected_task < self.tasks.len())
        &&& 1 <= self.next_task_id
        &&& forall|i: int| 0 <= i < self.tasks.len() ==> (#[trigger] self.tasks[i]).wf()
        &&& forall|i: int|
            0 <= i < self.tasks.len() ==> (#[trigger] self.tasks[i]).id < self.next_task_id
        &&& forall|i: int, j: int|
            0 <= i < j < self.tasks.len() ==> self.tasks[i].id != self.tasks[j].id
        &&& self.global_timer.wf()
        &&& forall|i: int|
            0 <= i < self.presets.len() ==> 1 <= (#[trigger] self.presets[i]).1
                <= MAX_TARGET_MINUTES
        &&& forall|i: int, j: int|
            0 <= i < j < self.presets.len() ==> self.presets[i].0 != self.presets[j].0
        &&& forall|i: int, j: int|
            0 <= i < j < self.notifications_sent.len() ==> self.notifications_sent[i]
                != self.notifications_sent[j]
        &&& forall|i: int|
            0 <= i < self.notifications_sent.len() ==> (#[trigger] self.notifications_sent[i])
                < self.next_task_id
        &&& self.stats.wf()
    }

    /// The freshly constructed core: no tasks, the standard presets, a
    /// 25-minute global timer, and the startup animation showing.
    pub open spec fn spec_initial(config: ConfigModel, today: i64) -> AppModel {
        AppModel {
            tasks: Seq::empty(),
            selected_task: 0,
            next_task_id: 1,
            global_timer: (Timer {
                state: TimerState::Idle,
                started_at: None,
                accumulated_time: 0,
                target_duration: 1500,
            }),
            presets: seq![("Long Break"@, 15i64), ("Pomodoro"@, 25i64), ("Short Break"@, 5i64)],
            mode: AppMode::StartupAnimation,
            input_buffer: Seq::empty(),
            notifications_sent: Seq::empty(),
            config: config,
            should_quit: false,
            stats: (StatsModel {
                total_completed: 0,
                total_time_worked: 0,
                daily_streak: 0,
                last_active_date: today,
                tasks_by_category: Seq::empty(),
            }),
        }
    }

    /// The task a fresh `add_task` appends: the next id, a default
    /// 25-minute timer, the catch-all category and medium priority.
    pub open spec fn spec_new_task(self, description: Seq<char>, now: i64) -> TaskModel {
        TaskModel {
            id: self.next_task_id,
            description: description,
            timer: (Timer {
                state: TimerState::Idle,
                started_at: None,
                accumulated_time: 0,
                target_duration: 1500,
            }),
            completed: false,
            category: CategoryModel::Other("General"@),
            priority: Priority::Medium,
            created_at: now,
            completed_at: None,
        }
    }

    /// The core after appending a task described by `description`.
    pub open spec fn spec_add_task(self, description: Seq<char>, now: i64) -> AppModel {
        AppModel {
            tasks: self.tasks.push(self.spec_new_task(description, now)),
            next_task_id: (self.next_task_id + 1) as u32,
            ..self
        }
    }

    /// The core after deleting the selected task: the task leaves the list,
    /// its id leaves the notification ledger, and the selection is clamped
    /// back into range.
    pub open spec fn spec_delete_selected(self) -> AppModel {
        if self.tasks.len() == 0 {
            self
        } else {
            let id = self.tasks[self.selected_task].id;
            let remaining = self.tasks.remove(self.selected_task);
            let selected = if remaining.len() == 0 {
                0int
            } else if self.selected_task >= remaining.len() {
                remaining.len() - 1
            } else {
                self.selected_task
            };
            AppModel {
                tasks: remaining,
                selected_task: selected,
                notifications_sent: spec_without_id(self.notifications_sent, id),
                ..self
            }
        }
    }

    /// The core after moving the selection one task up.
    pub open spec fn spec_move_selection_up(self) -> AppModel {
        AppModel {
            selected_task: if self.selected_task > 0 {
                self.selected_task - 1
            } else {
                0int
            },
            ..self
        }
    }

    /// The core after moving the selection one task down.
    pub open spec fn spec_move_selection_down(self) -> AppModel {
        AppModel {
            selected_task: if self.tasks.len() > 0 && self.selected_task + 1 < self.tasks.len() {
                self.selected_task + 1
            } else {
                self.selected_task
            },
            ..self
        }
    }

    /// The core after toggling the selected task's timer at instant `now`.
    pub open spec fn spec_toggle_selected_timer(self, now: i64) -> AppModel {
        if self.tasks.len() == 0 {
            self
        } else {
            let t = self.tasks[self.selected_task];
            AppModel {
                tasks: self.tasks.update(
                    self.selected_task,
                    TaskModel { timer: t.timer.spec_toggled(now), ..t },
                ),
                ..self
            }
        }
    }

    /// The core after resetting the selected task's timer: the timer goes
    /// back to Idle and the task's id is re-armed in the notification
    /// ledger.
    pub open spec fn spec_reset_selected_timer(self) -> AppModel {
        if self.tasks.len() == 0 {
            self
        } else {
            let t = self.tasks[self.selected_task];
            AppModel {
                tasks: self.tasks.update(
                    self.selected_task,
                    TaskModel { timer: t.timer.spec_reset(), ..t },
                ),
                notifications_sent: spec_without_id(self.notifications_sent, t.id),
                ..self
            }
        }
    }

    /// The core after retargeting the timer of the task at `idx` to
    /// `minutes` minutes: the timer restarts from Idle and the task's id is
    /// re-armed in the notification ledger.  Out-of-range indices change
    /// nothing.
    pub open spec fn spec_set_task_duration(self, idx: int, minutes: i64) -> AppModel {
        if 0 <= idx < self.tasks.len() {
            let t = self.tasks[idx];
            AppModel {
                tasks: self.tasks.update(
                    idx,
                    TaskModel {
                        timer: (Timer {
                            state: TimerState::Idle,
                            started_at: None,
                            accumulated_time: 0,
                            target_duration: (minutes * 60) as i64,
                        }),
                        ..t
                    },
                ),
                notifications_sent: spec_without_id(self.notifications_sent, t.id),
                ..self
            }
        } else {
            self
        }
    }

    /// The core after recategorising the task at `idx`.  Out-of-range
    /// indices change nothing.
    pub open spec fn spec_set_task_category(self, idx: int, category: CategoryModel) -> AppModel {
        if 0 <= idx < self.tasks.len() {
            let t = self.tasks[idx];
            AppModel { tasks: self.tasks.update(idx, TaskModel { category: category, ..t }), ..self }
        } else {
            self
        }
    }

    /// The minutes the named preset maps to, if the name is known.
    pub open spec fn spec_preset_minutes(self, name: Seq<char>) -> Option<i64> {
        if exists|i: int| 0 <= i < self.presets.len() && (#[trigger] self.presets[i]).0 == name {
            Some(
                self.presets[choose|i: int|
                    0 <= i < self.presets.len() && (#[trigger] self.presets[i]).0 == name].1,
            )
        } else {
            None
        }
    }

    /// The core after retargeting the task at `idx` from the named preset;
    /// an unknown name changes nothing.
    pub open spec fn spec_set_task_duration_from_preset(self, idx: int, name: Seq<char>) -> AppModel {
        match self.spec_preset_minutes(name) {
            Some(m) => self.spec_set_task_duration(idx, m),
            None => self,
        }
    }

    /// The core after flipping the selected task's completion at instant
    /// `now` on day `today`.  Completing stamps `completed_at` and records
    /// the completion in the statistics; un-completing clears the stamp and
    /// reverses nothing.
    pub open spec fn spec_toggle_completion(self, now: i64, today: i64) -> AppModel {
        if self.tasks.len() == 0 {
            self
        } else {
            let t = self.tasks[self.selected_task];
            if t.completed {
                AppModel {
                    tasks: self.tasks.update(
                        self.selected_task,
                        TaskModel { completed: false, completed_at: None, ..t },
                    ),
                    ..self
                }
            } else {
                AppModel {
                    tasks: self.tasks.update(
                        self.selected_task,
                        TaskModel { completed: true, completed_at: Some(now), ..t },
                    ),
                    stats: self.stats.spec_record(
                        t.timer.spec_elapsed(now) as i64,
                        t.category.spec_name(),
                        today,
                    ),
                    ..self
                }
            }
        }
    }

    /// What a terminator commits from the time-entry buffer: the buffer
    /// must be a non-empty, bounded ASCII-digit string naming a positive
    /// in-range number of minutes.
    pub open spec fn spec_commit_minutes(input: Seq<char>) -> Option<i64> {
        if 1 <= input.len() <= crate::textutil::MAX_PARSE_DIGITS && crate::textutil::spec_all_digits(
            input,
        ) && 1 <= crate::textutil::spec_digits_val(input) <= MAX_TARGET_MINUTES {
            Some(crate::textutil::spec_digits_val(input) as i64)
        } else {
            None
        }
    }

    /// The core after one keystroke `c` at instant `now`, per the mode
    /// state machine: text modes buffer characters until a newline commits
    /// (or an empty/invalid buffer commits nothing) and return to Normal;
    /// the preset overlay takes a one-based digit selection; every other
    /// mode ignores characters.
    pub open spec fn spec_handle_char(self, c: char, now: i64) -> AppModel {
        match self.mode {
            AppMode::AddingTask => {
                if c == '\n' {
                    let committed = if self.input_buffer.len() > 0 {
                        self.spec_add_task(self.input_buffer, now)
                    } else {
                        self
                    };
                    AppModel { input_buffer: Seq::empty(), mode: AppMode::Normal, ..committed }
                } else {
                    AppModel { input_buffer: self.input_buffer.push(c), ..self }
                }
            },
            AppMode::EditingTime(idx) => {
                if c == '\n' {
                    let committed = match AppModel::spec_commit_minutes(self.input_buffer) {
                        Some(m) => self.spec_set_task_duration(idx as int, m),
                        None => self,
                    };
                    AppModel { input_buffer: Seq::empty(), mode: AppMode::Normal, ..committed }
                } else if crate::textutil::spec_is_digit(c) {
                    AppModel { input_buffer: self.input_buffer.push(c), ..self }
                } else {
                    self
                }
            },
            AppMode::SelectingPreset(idx) => {
                if crate::textutil::spec_is_digit(c) && 1 <= crate::textutil::spec_digit_val(c)
                    <= self.presets.len() {
                    let m1 = self.spec_set_task_duration(
                        idx as int,
                        self.presets[crate::textutil::spec_digit_val(c) - 1].1,
                    );
                    AppModel { mode: AppMode::Normal, ..m1 }
                } else {
                    self
                }
            },
            _ => self,
        }
    }

    /// The core after a backspace: text-entry modes drop the last buffered
    /// character; every other mode ignores it.
    pub open spec fn spec_handle_backspace(self) -> AppModel {
        match self.mode {
            AppMode::AddingTask | AppMode::EditingTime(_) => {
                if self.input_buffer.len() > 0 {
                    AppModel { input_buffer: self.input_buffer.drop_last(), ..self }
                } else {
                    self
                }
            },
            _ => self,
        }
    }
}

impl App {

    /// A fresh core for day `today`.
    pub fn new(config: Config, today: i64) -> (r: App)
        requires
            -MAX_DAY_NUMBER <= today <= MAX_DAY_NUMBER,
        ensures
            r@ == AppModel::spec_initial(config@, today),
            r@.wf(),
    {
        let mut presets: Vec<Preset> = Vec::new();
        presets.push(Preset { name: String::from_str("Long Break"), minutes: 15 });
        presets.push(Preset { name: String::from_str("Pomodoro"), minutes: 25 });
        presets.push(Preset { name: String::from_str("Short Break"), minutes: 5 });
        let r = App {
            tasks: Vec::new(),
            selected_task: 0,
            next_task_id: 1,
            global_timer: Timer::new(25),
            presets,
            mode: AppMode::StartupAnimation,
            input_buffer: Vec::new(),
            notifications_sent: Vec::new(),
            config,
            should_quit: false,
            stats: Stats::new(today),
        };
        proof {
            reveal_strlit("Long Break");
            reveal_strlit("Pomodoro");
            reveal_strlit("Short Break");
            assert("Long Break"@.len() == 10);
            assert("Pomodoro"@.len() == 8);
            assert("Short Break"@.len() == 11);
            assert(r@ =~= AppModel::spec_initial(config@, today));
        }
        r
    }

    /// Appends a new task with a fresh id; ids are never reused, even after
    /// deletion.
    pub fn add_task(&mut self, description: String, now: i64)
        requires
            old(self)@.wf(),
            old(self)@.next_task_id < u32::MAX,
            0 <= now <= MAX_CLOCK_SECONDS,
        ensures
            final(self)@ == old(self)@.spec_add_task(description@, now),
            final(self)@.wf(),
    {
        let task = Task {
            id: self.next_task_id,
            description,
            timer: Timer::new(25),
            completed: false,
            category: TaskCategory::Other(String::from_str("General")),
            priority: Priority::Medium,
            created_at: now,
            completed_at: None,
        };
        self.tasks.push(task);
        self.next_task_id = self.next_task_id + 1;
        proof {
            assert(self@ =~= old(self)@.spec_add_task(description@, now));
        }
    }

    /// Removes the selected task, purges its id from the notification
    /// ledger, and clamps the selection back into range.  Does nothing on an
    /// empty list.
    pub fn delete_selected_task(&mut self)
        requires
            old(self)@.wf(),
        ensures
            final(self)@ == old(self)@.spec_delete_selected(),
            final(self)@.wf(),
    {
        if self.tasks.len() > 0 {
            let task = self.tasks.remove(self.selected_task);
            remove_id(&mut self.notifications_sent, task.id);
            if self.tasks.len() > 0 && self.selected_task >= self.tasks.len() {
                self.selected_task = self.tasks.len() - 1;
            } else if self.tasks.len() == 0 {
                self.selected_task = 0;
            }
            proof {
                assert(self@.tasks =~= old(self)@.spec_delete_selected().tasks);
                assert(self@ =~= old(self)@.spec_delete_selected());
                lemma_without_id_facts(old(self)@.notifications_sent, task@.id);
                assert forall|i: int| 0 <= i < self@.notifications_sent.len() implies (
                #[trigger] self@.notifications_sent[i]) < self@.next_task_id by {
                    let x = self@.notifications_sent[i];
                    assert(old(self)@.notifications_sent.contains(x));
                    let j = choose|j: int|
                        0 <= j < old(self)@.notifications_sent.len() && old(
                            self,
                        )@.notifications_sent[j] == x;
                }
            }
        }
    }

    /// Moves the selection one task up, stopping at the top.
    pub fn move_selection_up(&mut self)
        requires
            old(self)@.wf(),
        ensures
            final(self)@ == old(self)@.spec_move_selection_up(),
            final(self)@.wf(),
    {
        if self.selected_task > 0 {
            self.selected_task = self.selected_task - 1;
        }
        proof {
            assert(self@ =~= old(self)@.spec_move_selection_up());
        }
    }

    /// Moves the selection one task down, stopping at the bottom.
    pub fn move_selection_down(&mut self)
        requires
            old(self)@.wf(),
        ensures
            final(self)@ == old(self)@.spec_move_selection_down(),
            final(self)@.wf(),
    {
        if self.tasks.len() > 0 && self.selected_task + 1 < self.tasks.len() {
            self.selected_task = self.selected_task + 1;
        }
        proof {
            assert(self@ =~= old(self)@.spec_move_selection_down());
        }
    }

    /// Toggles the selected task's timer at instant `now`.  Does nothing on
    /// an empty list.
    pub fn toggle_selected_timer_at(&mut self, now: i64)
        requires
            old(self)@.wf(),
            0 <= now <= MAX_CLOCK_SECONDS,
        ensures
            final(self)@ == old(self)@.spec_toggle_selected_timer(now),
            final(self)@.wf(),
    {
        if self.tasks.len() > 0 {
            let mut task = self.tasks.remove(self.selected_task);
            task.timer.toggle_at(now);
            self.tasks.insert(self.selected_task, task);
            proof {
                assert(self@.tasks =~= old(self)@.spec_toggle_selected_timer(now).tasks);
                assert(self@ =~= old(self)@.spec_toggle_selected_timer(now));
            }
        }
    }

    /// Resets the selected task's timer and re-arms its completion
    /// notification.  Does nothing on an empty list.
    pub fn reset_selected_timer(&mut self)
        requires
            old(self)@.wf(),
        ensures
            final(self)@ == old(self)@.spec_reset_selected_timer(),
            final(self)@.wf(),
    {
        if self.tasks.len() > 0 {
            let mut task = self.tasks.remove(self.selected_task);
            task.timer.reset();
            remove_id(&mut self.notifications_sent, task.id);
            self.tasks.insert(self.selected_task, task);
            proof {
                assert(self@.tasks =~= old(self)@.spec_reset_selected_timer().tasks);
                assert(self@ =~= old(self)@.spec_reset_selected_timer());
                lemma_without_id_facts(old(self)@.notifications_sent, task@.id);
                assert forall|i: int| 0 <= i < self@.notifications_sent.len() implies (
                #[trigger] self@.notifications_sent[i]) < self@.next_task_id by {
                    let x = self@.notifications_sent[i];
                    assert(old(self)@.notifications_sent.contains(x));
                    let j = choose|j: int|
                        0 <= j < old(self)@.notifications_sent.len() && old(
                            self,
                        )@.notifications_sent[j] == x;
                }
            }
        }
    }

    /// Retargets the timer of the task at `task_idx` to `minutes` minutes;
    /// the timer always restarts and the completion notification is
    /// re-armed.  Does nothing for an out-of-range index.
    pub fn set_task_duration(&mut self, task_idx: usize, minutes: i64)
        requires
            old(self)@.wf(),
            1 <= minutes <= MAX_TARGET_MINUTES,
        ensures
            final(self)@ == old(self)@.spec_set_task_duration(task_idx as int, minutes),
            final(self)@.wf(),
    {
        if task_idx < self.tasks.len() {
            let mut task = self.tasks.remove(task_idx);
            task.timer = Timer::new(minutes);
            remove_id(&mut self.notifications_sent, task.id);
            self.tasks.insert(task_idx, task);
            proof {
                assert(self@.tasks =~= old(self)@.spec_set_task_duration(
                    task_idx as int,
                    minutes,
                ).tasks);
                assert(self@ =~= old(self)@.spec_set_task_duration(task_idx as int, minutes));
                lemma_without_id_facts(old(self)@.notifications_sent, task@.id);
                assert forall|i: int| 0 <= i < self@.notifications_sent.len() implies (
                #[trigger] self@.notifications_sent[i]) < self@.next_task_id by {
                    let x = self@.notifications_sent[i];
                    assert(old(self)@.notifications_sent.contains(x));
                    let j = choose|j: int|
                        0 <= j < old(self)@.notifications_sent.len() && old(
                            self,
                        )@.notifications_sent[j] == x;
                }
            }
        }
    }

    /// Recategorises the task at `task_idx`.  Does nothing for an
    /// out-of-range index.
    pub fn set_task_category(&mut self, task_idx: usize, category: TaskCategory)
        requires
            old(self)@.wf(),
        ensures
            final(self)@ == old(self)@.spec_set_task_category(task_idx as int, category@),
            final(self)@.wf(),
    {
        if task_idx < self.tasks.len() {
            let mut task = self.tasks.remove(task_idx);
            task.category = category;
            self.tasks.insert(task_idx, task);
            proof {
                assert(self@.tasks =~= old(self)@.spec_set_task_category(
                    task_idx as int,
                    category@,
                ).tasks);
                assert(self@ =~= old(self)@.spec_set_task_category(task_idx as int, category@));
            }
        }
    }

    /// Retargets the task at `task_idx` from the named preset.  An unknown
    /// preset name changes nothing.
    pub fn set_task_duration_from_preset(&mut self, task_idx: usize, preset_name: &str)
        requires
            old(self)@.wf(),
        ensures
            final(self)@ == old(self)@.spec_set_task_duration_from_preset(
                task_idx as int,
                preset_name@,
            ),
            final(self)@.wf(),
    {
        let minutes_opt = self.lookup_preset(preset_name);
        match minutes_opt {
            Some(minutes) => {
                self.set_task_duration(task_idx, minutes);
            },
            None => {},
        }
    }

    /// The minutes of the named preset, if any.
    pub fn lookup_preset(&self, preset_name: &str) -> (r: Option<i64>)
        requires
            self@.wf(),
        ensures
            r == self@.spec_preset_minutes(preset_name@),
            r matches Some(m) ==> 1 <= m <= MAX_TARGET_MINUTES,
    {
        let mut i: usize = 0;
        while i < self.presets.len()
            invariant
                0 <= i <= self@.presets.len(),
                self@.wf(),
                forall|j: int| 0 <= j < i ==> (#[trigger] self@.presets[j]).0 != preset_name@,
            decreases self@.presets.len() - i,
        {
            if crate::textutil::str_eq(self.presets[i].name.as_str(), preset_name) {
                proof {
                    let k = choose|j: int|
                        0 <= j < self@.presets.len() && self@.presets[j].0 == preset_name@;
                    assert(self@.presets[i as int].0 == preset_name@);
                    assert(k == i as int);
                }
                return Some(self.presets[i].minutes);
            }
            i = i + 1;
        }
        None
    }

    /// The preset names, in the order the selection overlay shows them.
    pub fn get_preset_names(&self) -> (r: Vec<String>)
        ensures
            r@.len() == self@.presets.len(),
            forall|i: int| 0 <= i < r@.len() ==> (#[trigger] r@[i])@ == self@.presets[i].0,
    {
        let mut names: Vec<String> = Vec::new();
        let mut i: usize = 0;
        while i < self.presets.len()
            invariant
                0 <= i <= self@.presets.len(),
                names@.len() == i,
                forall|j: int| 0 <= j < i ==> (#[trigger] names@[j])@ == self@.presets[j].0,
            decreases self@.presets.len() - i,
        {
            names.push(self.presets[i].name.clone());
            i = i + 1;
        }
        names
    }
}

} // verus!

verus! {

impl App {
    /// Flips the selected task's completion at instant `now` on day
    /// `today`.  Completing stamps the time and feeds the statistics;
    /// un-completing clears the stamp and reverses nothing.  Does nothing on
    /// an empty list.
    pub fn toggle_selected_task_completion(&mut self, now: i64, today: i64)
        requires
            old(self)@.wf(),
            0 <= now <= MAX_CLOCK_SECONDS,
            -MAX_DAY_NUMBER <= today <= MAX_DAY_NUMBER,
        ensures
            final(self)@ == old(self)@.spec_toggle_completion(now, today),
            final(self)@.wf(),
    {
        if self.tasks.len() > 0 {
            let mut task = self.tasks.remove(self.selected_task);
            if task.completed {
                task.completed = false;
                task.completed_at = None;
                self.tasks.insert(self.selected_task, task);
                proof {
                    assert(self@.tasks =~= old(self)@.spec_toggle_completion(now, today).tasks);
                    assert(self@ =~= old(self)@.spec_toggle_completion(now, today));
                }
            } else {
                task.completed = true;
                task.completed_at = Some(now);
                let elapsed = task.timer.get_elapsed_at(now);
                let name = task.category.name();
                self.stats.record_completion(elapsed, name, today);
                self.tasks.insert(self.selected_task, task);
                proof {
                    assert(self@.tasks =~= old(self)@.spec_toggle_completion(now, today).tasks);
                    assert(self@ =~= old(self)@.spec_toggle_completion(now, today));
                }
            }
        }
    }

    /// Feeds one finished task into the statistics, leaving everything else
    /// alone.
    pub fn update_stats(&mut self, task: &Task, now: i64, today: i64)
        requires
            old(self)@.wf(),
            task@.timer.wf(),
            0 <= now <= MAX_CLOCK_SECONDS,
            -MAX_DAY_NUMBER <= today <= MAX_DAY_NUMBER,
        ensures
            final(self)@ == (AppModel {
                stats: old(self)@.stats.spec_record(
                    task@.timer.spec_elapsed(now) as i64,
                    task@.category.spec_name(),
                    today,
                ),
                ..old(self)@
            }),
            final(self)@.wf(),
    {
        let elapsed = task.timer.get_elapsed_at(now);
        let name = task.category.name();
        self.stats.record_completion(elapsed, name, today);
        proof {
            assert(self@ =~= (AppModel {
                stats: old(self)@.stats.spec_record(
                    task@.timer.spec_elapsed(now) as i64,
                    task@.category.spec_name(),
                    today,
                ),
                ..old(self)@
            }));
        }
    }

    /// Routes one keystroke through the mode state machine at instant
    /// `now`.
    pub fn handle_char(&mut self, c: char, now: i64)
        requires
            old(self)@.wf(),
            old(self)@.mode is AddingTask ==> old(self)@.next_task_id < u32::MAX,
            0 <= now <= MAX_CLOCK_SECONDS,
        ensures
            final(self)@ == old(self)@.spec_handle_char(c, now),
            final(self)@.wf(),
    {
        match self.mode {
            AppMode::AddingTask => {
                if c == '\n' {
                    if self.input_buffer.len() > 0 {
                        let description = crate::textutil::string_from_chars(&self.input_buffer);
                        self.add_task(description, now);
                    }
                    self.input_buffer = Vec::new();
                    self.mode = AppMode::Normal;
                    proof {
                        assert(self@ =~= old(self)@.spec_handle_char(c, now));
                    }
                } else {
                    self.input_buffer.push(c);
                    proof {
                        assert(self@ =~= old(self)@.spec_handle_char(c, now));
                    }
                }
            },
            AppMode::EditingTime(idx) => {
                if c == '\n' {
                    match crate::textutil::parse_digits(&self.input_buffer) {
                        Some(minutes) => {
                            if 1 <= minutes && minutes <= MAX_TARGET_MINUTES {
                                self.set_task_duration(idx, minutes);
                            }
                        },
                        None => {},
                    }
                    self.input_buffer = Vec::new();
                    self.mode = AppMode::Normal;
                    proof {
                        assert(self@ =~= old(self)@.spec_handle_char(c, now));
                    }
                } else if crate::textutil::is_ascii_digit(c) {
                    self.input_buffer.push(c);
                    proof {
                        assert(self@ =~= old(self)@.spec_handle_char(c, now));
                    }
                } else {
                    proof {
                        assert(self@ =~= old(self)@.spec_handle_char(c, now));
                    }
                }
            },
            AppMode::SelectingPreset(idx) => {
                if crate::textutil::is_ascii_digit(c) {
                    let d = (c as u32 - 48) as usize;
                    if 1 <= d && d <= self.presets.len() {
                        let minutes = self.presets[d - 1].minutes;
                        self.set_task_duration(idx, minutes);
                        self.mode = AppMode::Normal;
                        proof {
                            assert(self@ =~= old(self)@.spec_handle_char(c, now));
                        }
                    }
                }
            },
            _ => {},
        }
    }

    /// Deletes the last buffered character in a text-entry mode.
    pub fn handle_backspace(&mut self)
        requires
            old(self)@.wf(),
        ensures
            final(self)@ == old(self)@.spec_handle_backspace(),
            final(self)@.wf(),
    {
        match self.mode {
            AppMode::AddingTask | AppMode::EditingTime(_) => {
                let popped = self.input_buffer.pop();
                proof {
                    assert(self@ =~= old(self)@.spec_handle_backspace());
                }
            },
            _ => {},
        }
    }
}

} // verus!

verus! {

/// One completion notification to deliver: the entity id, the title (the
/// timer's display name) and the fixed body text.
#[derive(Debug)]
pub struct CompletionNotice {
    pub id: u32,
    pub title: String,
    pub body: String,
}

impl View for CompletionNotice {
    type V = (u32, Seq<char>, Seq<char>);

    open spec fn view(&self) -> (u32, Seq<char>, Seq<char>) {
        (self.id, self.title@, self.body@)
    }
}

impl Clone for CompletionNotice {
    fn clone(&self) -> (r: Self)
        ensures
            r@ == self@,
    {
        CompletionNotice { id: self.id, title: self.title.clone(), body: self.body.clone() }
    }
}

/// Whether task `t` is due a notification against ledger `notified`: its
/// timer has completed, is still running, and its id has not been notified.
pub open spec fn spec_task_due(t: TaskModel, notified: Seq<u32>, now: i64) -> bool {
    &&& t.timer.spec_is_complete(now)
    &&& t.timer.state is Running
    &&& !notified.contains(t.id)
}

/// The tasks due a notification, in list order, all judged against the one
/// ledger `notified`.
pub open spec fn spec_due_tasks(tasks: Seq<TaskModel>, notified: Seq<u32>, now: i64) -> Seq<
    TaskModel,
>
    decreases tasks.len(),
{
    if tasks.len() == 0 {
        Seq::empty()
    } else {
        let pre = spec_due_tasks(tasks.drop_last(), notified, now);
        if spec_task_due(tasks.last(), notified, now) {
            pre.push(tasks.last())
        } else {
            pre
        }
    }
}

/// Every due task comes from the list and is due; every due list entry is
/// kept; and distinct ids stay distinct.
pub proof fn lemma_due_tasks_facts(tasks: Seq<TaskModel>, notified: Seq<u32>, now: i64)
    ensures
        forall|k: int|
            0 <= k < spec_due_tasks(tasks, notified, now).len() ==> tasks.contains(
                #[trigger] spec_due_tasks(tasks, notified, now)[k],
            ) && spec_task_due(spec_due_tasks(tasks, notified, now)[k], notified, now),
        forall|j: int|
            0 <= j < tasks.len() && spec_task_due(#[trigger] tasks[j], notified, now)
                ==> spec_due_tasks(tasks, notified, now).contains(tasks[j]),
        (forall|i: int, j: int| 0 <= i < j < tasks.len() ==> tasks[i].id != tasks[j].id) ==> (
        forall|i: int, j: int|
            0 <= i < j < spec_due_tasks(tasks, notified, now).len() ==> spec_due_tasks(
                tasks,
                notified,
                now,
            )[i].id != spec_due_tasks(tasks, notified, now)[j].id),
    decreases tasks.len(),
{
    let f = spec_due_tasks(tasks, notified, now);
    if tasks.len() > 0 {
        let pre = tasks.drop_last();
        let fpre = spec_due_tasks(pre, notified, now);
        lemma_due_tasks_facts(pre, notified, now);
        assert forall|k: int|
            0 <= k < f.len() implies tasks.contains(#[trigger] f[k]) && spec_task_due(
            f[k],
            notified,
            now,
        ) by {
            if spec_task_due(tasks.last(), notified, now) && k == f.len() - 1 {
                assert(f[k] == tasks.last());
                assert(tasks[tasks.len() - 1] == tasks.last());
            } else {
                assert(f[k] == fpre[k]);
                assert(pre.contains(fpre[k]));
                let j = choose|j: int| 0 <= j < pre.len() && pre[j] == fpre[k];
                assert(tasks[j] == fpre[k]);
            }
        }
        assert forall|j: int|
            0 <= j < tasks.len() && spec_task_due(#[trigger] tasks[j], notified, now) implies f.contains(
            tasks[j],
        ) by {
            if j < tasks.len() - 1 {
                assert(pre[j] == tasks[j]);
                assert(fpre.contains(tasks[j]));
                let k = choose|k: int| 0 <= k < fpre.len() && fpre[k] == tasks[j];
                assert(f[k] == tasks[j]);
            } else {
                assert(f.last() == tasks[j]);
            }
        }
        if forall|i: int, j: int| 0 <= i < j < tasks.len() ==> tasks[i].id != tasks[j].id {
            assert(forall|i: int, j: int| 0 <= i < j < pre.len() ==> pre[i].id != pre[j].id);
            if spec_task_due(tasks.last(), notified, now) {
                assert forall|i: int, j: int|
                    0 <= i < j < f.len() implies f[i].id != f[j].id by {
                    if j == f.len() - 1 {
                        assert(f[i] == fpre[i]);
                        assert(pre.contains(fpre[i]));
                        let k = choose|k: int| 0 <= k < pre.len() && pre[k] == fpre[i];
                        assert(tasks[k] == fpre[i]);
                        assert(tasks[tasks.len() - 1] == tasks.last());
                    }
                }
            }
        }
    }
}

impl AppModel {
    /// Whether the global timer is due a notification; it uses the reserved
    /// id 0.
    pub open spec fn spec_global_due(self, now: i64) -> bool {
        &&& self.global_timer.spec_is_complete(now)
        &&& self.global_timer.state is Running
        &&& !self.notifications_sent.contains(0u32)
    }

    /// The ids that one dispatcher pass notifies, global timer first, then
    /// due tasks in list order.
    pub open spec fn spec_fired_ids(self, now: i64) -> Seq<u32> {
        (if self.spec_global_due(now) {
            seq![0u32]
        } else {
            Seq::empty()
        }) + spec_due_ids(spec_due_tasks(self.tasks, self.notifications_sent, now))
    }

    /// The notifications one dispatcher pass delivers.
    pub open spec fn spec_notices(self, now: i64) -> Seq<(u32, Seq<char>, Seq<char>)> {
        (if self.spec_global_due(now) {
            seq![(0u32, "Global Timer"@, "Timer completed!"@)]
        } else {
            Seq::empty()
        }) + spec_due_notices(spec_due_tasks(self.tasks, self.notifications_sent, now))
    }

    /// The core after one dispatcher pass: the fired ids join the ledger;
    /// nothing else changes.
    pub open spec fn spec_after_notifications(self, now: i64) -> AppModel {
        AppModel { notifications_sent: self.notifications_sent + self.spec_fired_ids(now), ..self }
    }
}

/// The views of a batch of notices.
pub open spec fn spec_notice_views(s: Seq<CompletionNotice>) -> Seq<(u32, Seq<char>, Seq<char>)> {
    s.map_values(|n: CompletionNotice| n@)
}

/// The ids of a batch of due tasks.
pub open spec fn spec_due_ids(s: Seq<TaskModel>) -> Seq<u32> {
    s.map_values(|t: TaskModel| t.id)
}

/// The notices a batch of due tasks generates.
pub open spec fn spec_due_notices(s: Seq<TaskModel>) -> Seq<(u32, Seq<char>, Seq<char>)> {
    s.map_values(|t: TaskModel| (t.id, t.description, "Task timer completed!"@))
}

/// Whether `id` occurs in the ledger.
fn contains_id(v: &Vec<u32>, id: u32) -> (r: bool)
    ensures
        r == v@.contains(id),
{
    let mut i: usize = 0;
    while i < v.len()
        invariant
            0 <= i <= v@.len(),
            forall|j: int| 0 <= j < i ==> v@[j] != id,
        decreases v@.len() - i,
    {
        if v[i] == id {
            return true;
        }
        i = i + 1;
    }
    proof {
        if v@.contains(id) {
            let j = choose|j: int| 0 <= j < v@.len() && v@[j] == id;
        }
    }
    false
}

impl App {
    /// One dispatcher pass at instant `now`: finds every timer that has
    /// completed while Running and has not yet been notified, marks it in
    /// the ledger, and returns the notifications to deliver — exactly one
    /// per completion episode.
    #[verifier::rlimit(100)]
    pub fn check_and_notify_completions(&mut self, now: i64) -> (fired: Vec<CompletionNotice>)
        requires
            old(self)@.wf(),
            0 <= now <= MAX_CLOCK_SECONDS,
        ensures
            final(self)@ == old(self)@.spec_after_notifications(now),
            spec_notice_views(fired@) == old(self)@.spec_notices(now),
            final(self)@.wf(),
    {
        let ghost m0 = self@;
        let ghost notified0 = self.notifications_sent@;
        let mut fired: Vec<CompletionNotice> = Vec::new();
        if self.global_timer.is_complete_at(now) && matches!(self.global_timer.state, TimerState::Running)
            && !contains_id(&self.notifications_sent, 0) {
            fired.push(
                CompletionNotice {
                    id: 0,
                    title: String::from_str("Global Timer"),
                    body: String::from_str("Timer completed!"),
                },
            );
            self.notifications_sent.push(0);
        }
        let ghost ledger1 = self.notifications_sent@;
        let ghost fired1 = fired@;
        let mut i: usize = 0;
        while i < self.tasks.len()
            invariant
                0 <= i <= self@.tasks.len(),
                self@.tasks == m0.tasks,
                m0.wf(),
                0 <= now <= MAX_CLOCK_SECONDS,
                self@ == (AppModel { notifications_sent: self@.notifications_sent, ..m0 }),
                ledger1 == notified0 + (if m0.spec_global_due(now) {
                    seq![0u32]
                } else {
                    Seq::<u32>::empty()
                }),
                spec_notice_views(fired1) == (if m0.spec_global_due(now) {
                    seq![(0u32, "Global Timer"@, "Timer completed!"@)]
                } else {
                    Seq::<(u32, Seq<char>, Seq<char>)>::empty()
                }),
                self@.notifications_sent == ledger1 + spec_due_ids(
                    spec_due_tasks(m0.tasks.take(i as int), notified0, now),
                ),
                spec_notice_views(fired@) == spec_notice_views(fired1) + spec_due_notices(
                    spec_due_tasks(m0.tasks.take(i as int), notified0, now),
                ),
            decreases self@.tasks.len() - i,
        {
            let due = self.tasks[i].timer.is_complete_at(now) && matches!(
                self.tasks[i].timer.state,
                TimerState::Running,
            ) && !contains_id(&self.notifications_sent, self.tasks[i].id);
            proof {
                let t = m0.tasks[i as int];
                lemma_due_tasks_facts(m0.tasks.take(i as int), notified0, now);
                assert(m0.tasks.take(i as int + 1).drop_last() =~= m0.tasks.take(i as int));
                assert(m0.tasks.take(i as int + 1).last() == t);
                // The grown ledger holds `t.id` exactly when the pre-pass
                // ledger does: the appended ids are 0 and ids of earlier due
                // tasks, all different from `t.id`.
                assert(t.id >= 1);
                assert(self@.notifications_sent.contains(t.id) <==> notified0.contains(t.id)) by {
                    let cur = self@.notifications_sent;
                    let added = spec_due_tasks(m0.tasks.take(i as int), notified0, now);
                    if cur.contains(t.id) {
                        let k = choose|k: int| 0 <= k < cur.len() && cur[k] == t.id;
                        if k < notified0.len() {
                            assert(notified0[k] == t.id);
                        } else if k < ledger1.len() {
                            assert(ledger1[k] == 0u32);
                            assert(false);
                        } else {
                            let a = k - ledger1.len();
                            assert(spec_due_ids(added)[a] == t.id);
                            assert(added[a].id == t.id);
                            assert(m0.tasks.take(i as int).contains(added[a]));
                            let j = choose|j: int|
                                0 <= j < m0.tasks.take(i as int).len() && m0.tasks.take(
                                    i as int,
                                )[j] == added[a];
                            assert(m0.tasks[j] == added[a]);
                            assert(m0.tasks[j].id != m0.tasks[i as int].id);
                            assert(false);
                        }
                    }
                    if notified0.contains(t.id) {
                        let k = choose|k: int| 0 <= k < notified0.len() && notified0[k] == t.id;
                        assert(cur[k] == t.id);
                    }
                }
            }
            if due {
                proof {
                    assert(spec_notice_views(fired@) == spec_notice_views(fired1) + spec_due_notices(
                        spec_due_tasks(m0.tasks.take(i as int), notified0, now),
                    ));
                    assert(spec_notice_views(fired@).len() == fired@.len());
                    assert(fired@.len() == fired1.len() + spec_due_tasks(
                        m0.tasks.take(i as int),
                        notified0,
                        now,
                    ).len());
                }
                let ghost fired_prev = fired@;
                let title = self.tasks[i].description.clone();
                fired.push(
                    CompletionNotice {
                        id: self.tasks[i].id,
                        title,
                        body: String::from_str("Task timer completed!"),
                    },
                );
                self.notifications_sent.push(self.tasks[i].id);
                proof {
                    let t = m0.tasks[i as int];
                    assert(spec_task_due(t, notified0, now));
                    assert(fired@.last()@ == (t.id, t.description, "Task timer completed!"@));
                    assert(spec_due_tasks(m0.tasks.take(i as int + 1), notified0, now)
                        == spec_due_tasks(m0.tasks.take(i as int), notified0, now).push(t));
                    let due_old = spec_due_tasks(m0.tasks.take(i as int), notified0, now);
                    let due_new = spec_due_tasks(m0.tasks.take(i as int + 1), notified0, now);
                    let lhs = spec_notice_views(fired@);
                    let rhs = spec_notice_views(fired1) + spec_due_notices(due_new);
                    assert(fired@ == fired_prev.push(fired@.last()));
                    assert(lhs.len() == rhs.len());
                    assert forall|k: int| 0 <= k < lhs.len() implies lhs[k] == rhs[k] by {
                        assert(lhs[k] == fired@[k]@);
                        if k < fired_prev.len() {
                            assert(fired@[k] == fired_prev[k]);
                            assert(lhs[k] == spec_notice_views(fired_prev)[k]);
                            if k < fired1.len() {
                                assert(rhs[k] == spec_notice_views(fired1)[k]);
                            } else {
                                assert(spec_notice_views(fired_prev)[k] == spec_due_notices(
                                    due_old,
                                )[k - fired1.len()]);
                                assert(due_new[k - fired1.len()] == due_old[k - fired1.len()]);
                                assert(rhs[k] == spec_due_notices(due_new)[k - fired1.len()]);
                            }
                        } else {
                            assert(fired@[k] == fired@.last());
                            assert(due_new[k - fired1.len()] == t);
                            assert(rhs[k] == spec_due_notices(due_new)[k - fired1.len()]);
                        }
                    }
                    assert(lhs =~= rhs);
                }
            } else {
                proof {
                    let t = m0.tasks[i as int];
                    assert(!spec_task_due(t, notified0, now));
                    assert(spec_due_tasks(m0.tasks.take(i as int + 1), notified0, now)
                        == spec_due_tasks(m0.tasks.take(i as int), notified0, now));
                    assert(spec_notice_views(fired@) =~~= spec_notice_views(fired1)
                        + spec_due_notices(
                        spec_due_tasks(m0.tasks.take(i as int + 1), notified0, now),
                    ));
                }
            }
            i = i + 1;
            proof {
                assert(self@.notifications_sent =~= ledger1 + spec_due_ids(
                    spec_due_tasks(m0.tasks.take(i as int), notified0, now),
                ));
                assert(spec_notice_views(fired@) =~~= spec_notice_views(fired1) + spec_due_notices(
                    spec_due_tasks(m0.tasks.take(i as int), notified0, now),
                ));
            }
        }
        proof {
            assert(m0.tasks.take(m0.tasks.len() as int) =~= m0.tasks);
            assert(self@.notifications_sent =~= m0.notifications_sent + m0.spec_fired_ids(now));
            assert(self@ =~= m0.spec_after_notifications(now));
            assert(spec_notice_views(fired@) =~~= m0.spec_notices(now));
            // The grown ledger stays duplicate-free and below the id bound.
            lemma_due_tasks_facts(m0.tasks, notified0, now);
            let due = spec_due_tasks(m0.tasks, notified0, now);
            let ids = spec_due_ids(due);
            assert forall|a: int, b: int|
                0 <= a < b < self@.notifications_sent.len() implies self@.notifications_sent[a]
                != self@.notifications_sent[b] by {
                let cur = self@.notifications_sent;
                lemma_ledger_entry_cases(m0, now, a);
                lemma_ledger_entry_cases(m0, now, b);
            }
            assert forall|k: int|
                0 <= k < self@.notifications_sent.len() implies (
            #[trigger] self@.notifications_sent[k]) < self@.next_task_id by {
                lemma_ledger_entry_cases(m0, now, k);
            }
        }
        fired
    }
}

/// Where each entry of the post-dispatch ledger comes from: the old ledger,
/// the reserved global id, or a due task — and in the task case it is that
/// task's id, not previously notified.
pub proof fn lemma_ledger_entry_cases(m: AppModel, now: i64, k: int)
    requires
        m.wf(),
        0 <= k < m.spec_after_notifications(now).notifications_sent.len(),
    ensures
        ({
            let cur = m.spec_after_notifications(now).notifications_sent;
            let x = cur[k];
            ||| (k < m.notifications_sent.len() && m.notifications_sent[k] == x)
            ||| (x == 0 && !m.notifications_sent.contains(0u32) && k >= m.notifications_sent.len())
            ||| (exists|j: int|
                0 <= j < m.tasks.len() && (#[trigger] m.tasks[j]).id == x && spec_task_due(
                    m.tasks[j],
                    m.notifications_sent,
                    now,
                ) && k >= m.notifications_sent.len())
        }),
        ({
            let cur = m.spec_after_notifications(now).notifications_sent;
            (k >= m.notifications_sent.len() ==> !m.notifications_sent.contains(cur[k]))
        }),
        ({
            let cur = m.spec_after_notifications(now).notifications_sent;
            forall|k2: int|
                m.notifications_sent.len() <= k2 < cur.len() && k2 != k ==> cur[k2] != cur[k]
                    || k < m.notifications_sent.len()
        }),
{
    let cur = m.spec_after_notifications(now).notifications_sent;
    let fired = m.spec_fired_ids(now);
    let due = spec_due_tasks(m.tasks, m.notifications_sent, now);
    let ids = spec_due_ids(due);
    lemma_due_tasks_facts(m.tasks, m.notifications_sent, now);
    let base = m.notifications_sent.len() as int;
    let gl: int = if m.spec_global_due(now) {
        1
    } else {
        0
    };
    if k >= base {
        let f = k - base;
        assert(cur[k] == fired[f]);
        if f < gl {
            assert(fired[f] == 0u32);
        } else {
            assert(fired[f] == ids[f - gl]);
            assert(due[f - gl].id == ids[f - gl]);
            assert(m.tasks.contains(due[f - gl]));
            let j = choose|j: int| 0 <= j < m.tasks.len() && m.tasks[j] == due[f - gl];
            assert(m.tasks[j].id == cur[k] && spec_task_due(m.tasks[j], m.notifications_sent, now));
        }
    }
    assert forall|k2: int|
        base <= k2 < cur.len() && k2 != k && k >= base implies cur[k2] != cur[k] by {
        let f = k - base;
        let f2 = k2 - base;
        if f < gl {
            assert(fired[f] == 0u32);
            assert(fired[f2] == ids[f2 - gl]);
            assert(due[f2 - gl].id >= 1) by {
                assert(m.tasks.contains(due[f2 - gl]));
                let j = choose|j: int| 0 <= j < m.tasks.len() && m.tasks[j] == due[f2 - gl];
            }
        } else if f2 < gl {
            assert(fired[f2] == 0u32);
            assert(fired[f] == ids[f - gl]);
            assert(due[f - gl].id >= 1) by {
                assert(m.tasks.contains(due[f - gl]));
                let j = choose|j: int| 0 <= j < m.tasks.len() && m.tasks[j] == due[f - gl];
            }
        } else {
            assert(fired[f] == ids[f - gl] && fired[f2] == ids[f2 - gl]);
            assert(due[f - gl].id != due[f2 - gl].id);
        }
    }
}

} // verus!

verus! {

/// The summary triple a task listing shows for one task.
pub open spec fn spec_task_summary(t: TaskModel) -> (u32, Seq<char>, bool) {
    (t.id, t.description, t.completed)
}

/// The summaries of a task list, in order.
pub open spec fn spec_task_summaries(s: Seq<TaskModel>) -> Seq<(u32, Seq<char>, bool)> {
    s.map_values(|t: TaskModel| spec_task_summary(t))
}

/// The views of a built task listing.
pub open spec fn spec_listing_views(s: Seq<crate::ipc::Task>) -> Seq<(u32, Seq<char>, bool)> {
    s.map_values(|t: crate::ipc::Task| t@)
}

impl AppModel {
    /// The status reply: the global timer's state, its elapsed seconds, and
    /// its target floored at zero.
    pub open spec fn spec_status(self, now: i64) -> crate::ipc::TimerStatus {
        crate::ipc::TimerStatus {
            state: self.global_timer.state,
            elapsed: self.global_timer.spec_elapsed(now) as u64,
            total: (if self.global_timer.target_duration >= 0 {
                self.global_timer.target_duration as int
            } else {
                0int
            }) as u64,
        }
    }

    /// The core and reply after one command: Start, Pause and Resume all
    /// toggle the global timer; Stop and Reset reset it and re-arm its
    /// notification; Status and ListTasks answer without mutating; AddTask
    /// appends a task.
    pub open spec fn spec_apply_command(self, cmd: crate::ipc::CommandModel, now: i64) -> (
        AppModel,
        crate::ipc::ResponseModel,
    ) {
        match cmd {
            crate::ipc::CommandModel::Start | crate::ipc::CommandModel::Pause
                | crate::ipc::CommandModel::Resume => (
                AppModel { global_timer: self.global_timer.spec_toggled(now), ..self },
                crate::ipc::ResponseModel::Okay,
            ),
            crate::ipc::CommandModel::Stop | crate::ipc::CommandModel::Reset => (
                AppModel {
                    global_timer: self.global_timer.spec_reset(),
                    notifications_sent: spec_without_id(self.notifications_sent, 0),
                    ..self
                },
                crate::ipc::ResponseModel::Okay,
            ),
            crate::ipc::CommandModel::Status => (
                self,
                crate::ipc::ResponseModel::Status(self.spec_status(now)),
            ),
            crate::ipc::CommandModel::AddTask { description } => (
                self.spec_add_task(description, now),
                crate::ipc::ResponseModel::Okay,
            ),
            crate::ipc::CommandModel::ListTasks => (
                self,
                crate::ipc::ResponseModel::Tasks(spec_task_summaries(self.tasks)),
            ),
        }
    }
}

impl App {
    /// Toggles the selected task's timer at the current wall-clock instant.
    pub fn toggle_selected_timer(&mut self)
        requires
            old(self)@.wf(),
        ensures
            final(self)@.wf(),
            exists|now: i64|
                0 <= now <= MAX_CLOCK_SECONDS && final(self)@ == old(
                    self,
                )@.spec_toggle_selected_timer(now),
    {
        let now = crate::timer::clamp_clock(crate::clock::now_seconds());
        self.toggle_selected_timer_at(now);
        proof {
            assert(self@ == old(self)@.spec_toggle_selected_timer(now));
        }
    }

    /// A snapshot of the global timer for a status reply.
    pub fn get_status(&self, now: i64) -> (r: crate::ipc::TimerStatus)
        requires
            self@.wf(),
            0 <= now <= MAX_CLOCK_SECONDS,
        ensures
            r == self@.spec_status(now),
    {
        let elapsed = self.global_timer.get_elapsed_at(now);
        let total = if self.global_timer.target_duration >= 0 {
            self.global_timer.target_duration
        } else {
            0
        };
        crate::ipc::TimerStatus {
            state: self.global_timer.state,
            elapsed: elapsed as u64,
            total: total as u64,
        }
    }

    /// The task listing for a ListTasks reply: id, description and
    /// completion of every task, in list order.
    pub fn get_tasks(&self) -> (r: Vec<crate::ipc::Task>)
        ensures
            spec_listing_views(r@) == spec_task_summaries(self@.tasks),
    {
        let mut out: Vec<crate::ipc::Task> = Vec::new();
        let mut i: usize = 0;
        while i < self.tasks.len()
            invariant
                0 <= i <= self@.tasks.len(),
                out@.len() == i,
                forall|j: int|
                    0 <= j < i ==> (#[trigger] out@[j])@ == spec_task_summary(self@.tasks[j]),
            decreases self@.tasks.len() - i,
        {
            out.push(
                crate::ipc::Task {
                    id: self.tasks[i].id,
                    description: self.tasks[i].description.clone(),
                    completed: self.tasks[i].completed,
                },
            );
            i = i + 1;
        }
        proof {
            assert(spec_listing_views(out@) =~= spec_task_summaries(self@.tasks));
        }
        out
    }

    /// Applies one external command at instant `now` and builds the reply
    /// the client is owed.  The reply reflects the fully updated core.
    pub fn apply_command(&mut self, command: crate::ipc::Command, now: i64) -> (r:
        crate::ipc::Response)
        requires
            old(self)@.wf(),
            command@ is AddTask ==> old(self)@.next_task_id < u32::MAX,
            0 <= now <= MAX_CLOCK_SECONDS,
        ensures
            final(self)@ == old(self)@.spec_apply_command(command@, now).0,
            r@ == old(self)@.spec_apply_command(command@, now).1,
            final(self)@.wf(),
    {
        match command {
            crate::ipc::Command::Start | crate::ipc::Command::Pause | crate::ipc::Command::Resume => {
                self.global_timer.toggle_at(now);
                proof {
                    assert(self@ =~= old(self)@.spec_apply_command(command@, now).0);
                }
                crate::ipc::Response::Okay
            },
            crate::ipc::Command::Stop | crate::ipc::Command::Reset => {
                self.global_timer.reset();
                remove_id(&mut self.notifications_sent, 0);
                proof {
                    assert(self@ =~= old(self)@.spec_apply_command(command@, now).0);
                    lemma_without_id_facts(old(self)@.notifications_sent, 0);
                    assert forall|k: int| 0 <= k < self@.notifications_sent.len() implies (
                    #[trigger] self@.notifications_sent[k]) < self@.next_task_id by {
                        let x = self@.notifications_sent[k];
                        assert(old(self)@.notifications_sent.contains(x));
                        let j = choose|j: int|
                            0 <= j < old(self)@.notifications_sent.len() && old(
                                self,
                            )@.notifications_sent[j] == x;
                    }
                }
                crate::ipc::Response::Okay
            },
            crate::ipc::Command::Status => {
                let status = self.get_status(now);
                crate::ipc::Response::Status(status)
            },
            crate::ipc::Command::AddTask { description } => {
                self.add_task(description, now);
                crate::ipc::Response::Okay
            },
            crate::ipc::Command::ListTasks => {
                let tasks = self.get_tasks();
                let r = crate::ipc::Response::Tasks(tasks);
                proof {
                    assert(r@ =~~= old(self)@.spec_apply_command(command@, now).1);
                }
                r
            },
        }
    }
}

} // verus!

verus! {

/// The one-line statistics summary.
pub open spec fn spec_stats_summary(st: StatsModel) -> Seq<char> {
    "📊 Total: "@ + crate::textutil::spec_u64_string(st.total_completed as int) + " tasks | ⏱️ "@
        + crate::textutil::spec_u64_string(st.total_time_worked as int / 3600) + " hours | 🔥 "@
        + crate::textutil::spec_u64_string(st.daily_streak as int) + " day streak"@
}

/// The header line of a task export.
pub open spec fn spec_csv_header() -> Seq<char> {
    "Task,Category,Priority,Time Spent,Completed,Created,Completed At\n"@
}

/// One line of a task export: description, category and priority names,
/// elapsed minutes, completion flag, and the two date strings.
pub open spec fn spec_csv_row(
    t: TaskModel,
    created: Seq<char>,
    completed_at: Seq<char>,
    now: i64,
) -> Seq<char> {
    t.description + ","@ + t.category.spec_name() + ","@ + t.priority.spec_name() + ","@
        + crate::textutil::spec_u64_string(t.timer.spec_elapsed(now) / 60) + ","@ + (if t.completed {
        "true"@
    } else {
        "false"@
    }) + ","@ + created + ","@ + completed_at + "\n"@
}

/// The lines of a task export, one per task, given the date strings.
pub open spec fn spec_csv_rows(
    tasks: Seq<TaskModel>,
    created: Seq<Seq<char>>,
    completed: Seq<Seq<char>>,
    now: i64,
) -> Seq<char>
    decreases tasks.len(),
{
    if tasks.len() == 0 {
        Seq::empty()
    } else {
        spec_csv_rows(tasks.drop_last(), created.drop_last(), completed.drop_last(), now)
            + spec_csv_row(tasks.last(), created.last(), completed.last(), now)
    }
}

/// Builds one export line for a task, from the task and its two formatted
/// date strings.
pub fn csv_row(task: &Task, created: &str, completed_at: &str, now: i64) -> (r: String)
    requires
        task@.timer.wf(),
        0 <= now <= MAX_CLOCK_SECONDS,
    ensures
        r@ == spec_csv_row(task@, created@, completed_at@, now),
{
    let mut s = task.description.clone();
    s.append(",");
    let cat = task.category.name();
    s.append(cat.as_str());
    s.append(",");
    let pri = task.priority.name();
    s.append(pri.as_str());
    s.append(",");
    let minutes = (task.timer.get_elapsed_at(now) as u64) / 60;
    let m = crate::textutil::u64_to_string(minutes);
    s.append(m.as_str());
    s.append(",");
    if task.completed {
        s.append("true");
    } else {
        s.append("false");
    }
    s.append(",");
    s.append(created);
    s.append(",");
    s.append(completed_at);
    s.append("\n");
    proof {
        assert(s@ =~= spec_csv_row(task@, created@, completed_at@, now));
    }
    s
}

impl App {
    /// The one-line statistics summary shown in the dashboard.
    pub fn show_stats_summary(&self) -> (r: String)
        requires
            self@.stats.wf(),
        ensures
            r@ == spec_stats_summary(self@.stats),
    {
        let mut s = String::from_str("📊 Total: ");
        let n1 = crate::textutil::u64_to_string(self.stats.total_completed as u64);
        s.append(n1.as_str());
        s.append(" tasks | ⏱️ ");
        let hours = (self.stats.total_time_worked as u64) / 3600;
        let n2 = crate::textutil::u64_to_string(hours);
        s.append(n2.as_str());
        s.append(" hours | 🔥 ");
        let n3 = crate::textutil::u64_to_string(self.stats.daily_streak as u64);
        s.append(n3.as_str());
        s.append(" day streak");
        proof {
            assert(s@ =~= spec_stats_summary(self@.stats));
        }
        s
    }

    /// Exports the task list as comma-separated lines under a fixed
    /// header.  The two date columns are rendered by the clock's local
    /// calendar, so the contract fixes every other column exactly and names
    /// the date strings abstractly; a task never completed reads `N/A`.
    #[verifier::rlimit(60)]
    pub fn export_to_csv(&self, now: i64) -> (r: String)
        requires
            self@.wf(),
            0 <= now <= MAX_CLOCK_SECONDS,
        ensures
            exists|created: Seq<Seq<char>>, completed: Seq<Seq<char>>|
                {
                    &&& created.len() == self@.tasks.len()
                    &&& completed.len() == self@.tasks.len()
                    &&& (forall|i: int|
                        0 <= i < self@.tasks.len() && (#[trigger] self@.tasks[i]).completed_at
                            is None ==> completed[i] == "N/A"@)
                    &&& r@ == spec_csv_header() + spec_csv_rows(self@.tasks, created, completed, now)
                },
    {
        let mut s = String::from_str("Task,Category,Priority,Time Spent,Completed,Created,Completed At\n");
        let ghost mut created_g: Seq<Seq<char>> = Seq::empty();
        let ghost mut completed_g: Seq<Seq<char>> = Seq::empty();
        let mut i: usize = 0;
        while i < self.tasks.len()
            invariant
                0 <= i <= self@.tasks.len(),
                self@.wf(),
                0 <= now <= MAX_CLOCK_SECONDS,
                created_g.len() == i,
                completed_g.len() == i,
                forall|j: int|
                    0 <= j < i && (#[trigger] self@.tasks[j]).completed_at is None
                        ==> completed_g[j] == "N/A"@,
                s@ == spec_csv_header() + spec_csv_rows(
                    self@.tasks.take(i as int),
                    created_g,
                    completed_g,
                    now,
                ),
            decreases self@.tasks.len() - i,
        {
            let created = crate::clock::format_timestamp_minutes(self.tasks[i].created_at);
            let completed_str = match self.tasks[i].completed_at {
                Some(ts) => crate::clock::format_timestamp_minutes(ts),
                None => String::from_str("N/A"),
            };
            proof {
                assert(self@.tasks[i as int].wf());
            }
            let row = csv_row(&self.tasks[i], created.as_str(), completed_str.as_str(), now);
            s.append(row.as_str());
            proof {
                let ghost cg0 = created_g;
                let ghost dg0 = completed_g;
                created_g = created_g.push(created@);
                completed_g = completed_g.push(completed_str@);
                assert(self@.tasks.take(i as int + 1).drop_last() =~= self@.tasks.take(i as int));
                assert(created_g.drop_last() =~= cg0);
                assert(completed_g.drop_last() =~= dg0);
                assert(self@.tasks.take(i as int + 1).last() == self@.tasks[i as int]);
                assert(s@ =~= spec_csv_header() + spec_csv_rows(
                    self@.tasks.take(i as int + 1),
                    created_g,
                    completed_g,
                    now,
                ));
            }
            i = i + 1;
        }
        proof {
            assert(self@.tasks.take(self@.tasks.len() as int) =~= self@.tasks);
            assert(s@ == spec_csv_header() + spec_csv_rows(self@.tasks, created_g, completed_g, now));
        }
        s
    }
}

} // verus!

verus! {

/// Id stability: after adding a task "A" and then a task "B", deleting "A"
/// leaves "B"'s id unchanged, and the id counter stays above "A"'s id, so
/// no later add can re-issue it (see `lemma_ids_never_reused`).
pub proof fn lemma_id_stability(m: AppModel, d1: Seq<char>, d2: Seq<char>, n1: i64, n2: i64)
    requires
        m.wf(),
        m.next_task_id + 2 <= u32::MAX,
    ensures
        ({
            let ida = m.next_task_id;
            let m2 = m.spec_add_task(d1, n1).spec_add_task(d2, n2);
            let idb = m2.tasks.last().id;
            let m3 = AppModel { selected_task: m.tasks.len() as int, ..m2 }.spec_delete_selected();
            &&& idb == ida + 1
            &&& m3.tasks.len() == m.tasks.len() + 1
            &&& m3.tasks.last().id == idb
            &&& m3.next_task_id > ida
        }),
{
    let ida = m.next_task_id;
    let m1 = m.spec_add_task(d1, n1);
    let m2 = m1.spec_add_task(d2, n2);
    let m3 = AppModel { selected_task: m.tasks.len() as int, ..m2 }.spec_delete_selected();
    assert(m2.tasks.len() == m.tasks.len() + 2);
    assert(m2.tasks.last() == m1.spec_new_task(d2, n2));
    assert(m2.tasks.last().id == ida + 1);
    assert(m3.tasks == m2.tasks.remove(m.tasks.len() as int));
    assert(m3.tasks.last() == m3.tasks[m.tasks.len() as int]);
    assert(m3.tasks[m.tasks.len() as int] == m2.tasks[m.tasks.len() as int + 1]);
    assert(m3.tasks.last() == m2.tasks.last());
    assert(m3.next_task_id == ida + 2);
}

/// Once the id counter has passed an id, adding a task never re-issues it:
/// the fresh task takes the counter's current value, which only grows.
pub proof fn lemma_ids_never_reused(m: AppModel, d: Seq<char>, now: i64, id: u32)
    requires
        m.next_task_id > id,
        m.next_task_id < u32::MAX,
    ensures
        m.spec_add_task(d, now).tasks.last().id != id,
        m.spec_add_task(d, now).next_task_id > id,
{
}

/// One dispatcher pass only fires ids that are not yet in the ledger.
pub proof fn lemma_fired_ids_fresh(m: AppModel, now: i64)
    ensures
        forall|id: u32|
            #[trigger] m.spec_fired_ids(now).contains(id) ==> !m.notifications_sent.contains(id),
{
    lemma_due_tasks_facts(m.tasks, m.notifications_sent, now);
    let due = spec_due_tasks(m.tasks, m.notifications_sent, now);
    let ids = spec_due_ids(due);
    assert forall|id: u32|
        #[trigger] m.spec_fired_ids(now).contains(id) implies !m.notifications_sent.contains(
        id,
    ) by {
        let fired = m.spec_fired_ids(now);
        let k = choose|k: int| 0 <= k < fired.len() && fired[k] == id;
        let gl: int = if m.spec_global_due(now) {
            1
        } else {
            0
        };
        if k < gl {
            assert(id == 0u32);
        } else {
            assert(fired[k] == ids[k - gl]);
            assert(due[k - gl].id == id);
            assert(spec_task_due(due[k - gl], m.notifications_sent, now));
        }
    }
}

/// Notification edge-trigger: a pass fires an id at most once per
/// completion episode — it only fires ids not yet in the ledger, it puts
/// every fired id into the ledger, and a second pass at any instant, with
/// no reset in between, fires none of them again.  (A reset removes the id
/// from the ledger, which is what re-arms the next episode.)
pub proof fn lemma_notification_edge_trigger(m: AppModel, now: i64, now2: i64)
    requires
        m.wf(),
    ensures
        forall|id: u32|
            #[trigger] m.spec_fired_ids(now).contains(id) ==> !m.notifications_sent.contains(id),
        forall|id: u32|
            #[trigger] m.spec_fired_ids(now).contains(id) ==> m.spec_after_notifications(
                now,
            ).notifications_sent.contains(id),
        forall|id: u32|
            #[trigger] m.spec_fired_ids(now).contains(id) ==> !m.spec_after_notifications(
                now,
            ).spec_fired_ids(now2).contains(id),
{
    lemma_fired_ids_fresh(m, now);
    lemma_fired_ids_fresh(m.spec_after_notifications(now), now2);
    let fired = m.spec_fired_ids(now);
    let after = m.spec_after_notifications(now);
    assert forall|id: u32| #[trigger] fired.contains(id) implies after.notifications_sent.contains(
        id,
    ) by {
        let k = choose|k: int| 0 <= k < fired.len() && fired[k] == id;
        assert(after.notifications_sent[m.notifications_sent.len() + k] == id);
    }
}

/// Statistics asymmetry: completing the selected task records it in the
/// statistics once; un-completing it afterwards changes no statistic, so
/// the counters keep their post-completion values.
pub proof fn lemma_stats_asymmetry(m: AppModel, now: i64, now2: i64, today: i64, today2: i64)
    requires
        m.wf(),
        m.tasks.len() > 0,
        !m.tasks[m.selected_task].completed,
    ensures
        ({
            let t = m.tasks[m.selected_task];
            let m1 = m.spec_toggle_completion(now, today);
            let m2 = m1.spec_toggle_completion(now2, today2);
            &&& m1.stats == m.stats.spec_record(
                t.timer.spec_elapsed(now) as i64,
                t.category.spec_name(),
                today,
            )
            &&& m1.tasks[m.selected_task].completed == true
            &&& m2.stats == m1.stats
            &&& m2.tasks[m.selected_task].completed == false
        }),
{
}

} // verus!

verus! {

impl Clone for App {
    /// A deep copy of the core.
    fn clone(&self) -> (r: Self)
        ensures
            r@ == self@,
    {
        let mut tasks: Vec<Task> = Vec::new();
        let mut i: usize = 0;
        while i < self.tasks.len()
            invariant
                0 <= i <= self@.tasks.len(),
                tasks@.len() == i,
                forall|j: int| 0 <= j < i ==> (#[trigger] tasks@[j])@ == self@.tasks[j],
            decreases self@.tasks.len() - i,
        {
            let t = self.tasks[i].clone();
            tasks.push(t);
            i = i + 1;
        }
        let mut presets: Vec<Preset> = Vec::new();
        let mut k: usize = 0;
        while k < self.presets.len()
            invariant
                0 <= k <= self@.presets.len(),
                presets@.len() == k,
                forall|j: int| 0 <= j < k ==> (#[trigger] presets@[j])@ == self@.presets[j],
            decreases self@.presets.len() - k,
        {
            let p = self.presets[k].clone();
            presets.push(p);
            k = k + 1;
        }
        let mut input_buffer: Vec<char> = Vec::new();
        let mut a: usize = 0;
        while a < self.input_buffer.len()
            invariant
                0 <= a <= self@.input_buffer.len(),
                input_buffer@ == self@.input_buffer.take(a as int),
            decreases self@.input_buffer.len() - a,
        {
            input_buffer.push(self.input_buffer[a]);
            a = a + 1;
            proof {
                assert(input_buffer@ =~= self@.input_buffer.take(a as int));
            }
        }
        let mut notifications_sent: Vec<u32> = Vec::new();
        let mut b: usize = 0;
        while b < self.notifications_sent.len()
            invariant
                0 <= b <= self@.notifications_sent.len(),
                notifications_sent@ == self@.notifications_sent.take(b as int),
            decreases self@.notifications_sent.len() - b,
        {
            notifications_sent.push(self.notifications_sent[b]);
            b = b + 1;
            proof {
                assert(notifications_sent@ =~= self@.notifications_sent.take(b as int));
            }
        }
        let r = App {
            tasks,
            selected_task: self.selected_task,
            next_task_id: self.next_task_id,
            global_timer: self.global_timer,
            presets,
            mode: self.mode,
            input_buffer,
            notifications_sent,
            config: self.config.clone(),
            should_quit: self.should_quit,
            stats: self.stats.clone(),
        };
        proof {
            assert(self@.input_buffer.take(self@.input_buffer.len() as int) =~= self@.input_buffer);
            assert(self@.notifications_sent.take(self@.notifications_sent.len() as int)
                =~= self@.notifications_sent);
            assert(r@ =~= self@);
        }
        r
    }
}

} // verus!
