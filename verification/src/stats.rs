use vstd::prelude::*;
use vstd::pervasive::VecAdditionalExecFns;
use crate::MAX_CLOCK_SECONDS;
use crate::MAX_WORKED_SECONDS;
use crate::MAX_DAY_NUMBER;

verus! {

/// How many tasks of one category have been completed.  The name is the
/// category's display name.
#[derive(Debug)]
pub struct CategoryCount {
    pub name: String,
    pub count: u32,
}

impl Clone for CategoryCount {
    fn clone(&self) -> (r: Self)
        ensures
            r@ == self@,
    {
        CategoryCount { name: self.name.clone(), count: self.count }
    }
}

impl View for CategoryCount {
    type V = (Seq<char>, u32);

    open spec fn view(&self) -> (Seq<char>, u32) {
        (self.name@, self.count)
    }
}

/// Lifetime completion statistics.  `total_time_worked` is in seconds;
/// `last_active_date` is a civil day number (one more per calendar day).
/// Statistics only ever grow: un-completing a task reverses nothing.
#[derive(Debug)]
pub struct Stats {
    pub total_completed: u32,
    pub total_time_worked: i64,
    pub daily_streak: u32,
    pub last_active_date: i64,
    pub tasks_by_category: Vec<CategoryCount>,
}

/// Mathematical image of the statistics.
#[verifier::ext_equal]
pub ghost struct StatsModel {
    pub total_completed: u32,
    pub total_time_worked: i64,
    pub daily_streak: u32,
    pub last_active_date: i64,
    pub tasks_by_category: Seq<(Seq<char>, u32)>,
}

impl View for Stats {
    type V = StatsModel;

    open spec fn view(&self) -> StatsModel {
        StatsModel {
            total_completed: self.total_completed,
            total_time_worked: self.total_time_worked,
            daily_streak: self.daily_streak,
            last_active_date: self.last_active_date,
            tasks_by_category: self.tasks_by_category@.map_values(|c: CategoryCount| c@),
        }
    }
}

impl Clone for Stats {
    fn clone(&self) -> (r: Self)
        ensures
            r@ == self@,
    {
        let mut by_category: Vec<CategoryCount> = Vec::new();
        let mut i: usize = 0;
        while i < self.tasks_by_category.len()
            invariant
                0 <= i <= self.tasks_by_category.len(),
                by_category@.len() == i,
                forall|j: int| 0 <= j < i ==> #[trigger] by_category@[j]@ == self.tasks_by_category@[j]@,
            decreases self.tasks_by_category.len() - i,
        {
            let cc = self.tasks_by_category[i].clone();
            by_category.push(cc);
            i = i + 1;
        }
        proof {
            assert(by_category@.map_values(|c: CategoryCount| c@) =~= self.tasks_by_category@.map_values(
                |c: CategoryCount| c@,
            ));
        }
        let r = Stats {
            total_completed: self.total_completed,
            total_time_worked: self.total_time_worked,
            daily_streak: self.daily_streak,
            last_active_date: self.last_active_date,
            tasks_by_category: by_category,
        };
        proof {
            assert(r@ =~= self@);
        }
        r
    }
}

/// `x + 1`, held at the top of the `u32` range.
pub open spec fn spec_sat_inc_u32(x: u32) -> u32 {
    if x < u32::MAX {
        (x + 1) as u32
    } else {
        x
    }
}

/// `worked + elapsed`, held at the bound a statistics record may hold.
pub open spec fn spec_capped_work(worked: i64, elapsed: i64) -> i64 {
    if worked + elapsed > MAX_WORKED_SECONDS {
        MAX_WORKED_SECONDS
    } else {
        (worked + elapsed) as i64
    }
}

/// The streak after completing a task on `today`: unchanged on the same
/// calendar day, one longer on the very next day, reset to one otherwise.
pub open spec fn spec_streak_after(streak: u32, last_active: i64, today: i64) -> u32 {
    if today == last_active {
        streak
    } else if today == last_active + 1 {
        spec_sat_inc_u32(streak)
    } else {
        1u32
    }
}

/// The per-category counters after one completion of category `name`: the
/// existing counter is incremented, or a fresh one is appended.
pub open spec fn spec_bump_category(s: Seq<(Seq<char>, u32)>, name: Seq<char>) -> Seq<
    (Seq<char>, u32),
> {
    if exists|i: int| 0 <= i < s.len() && s[i].0 == name {
        let i = choose|i: int| 0 <= i < s.len() && s[i].0 == name;
        s.update(i, (name, spec_sat_inc_u32(s[i].1)))
    } else {
        s.push((name, 1u32))
    }
}

impl StatsModel {
    /// Well-formedness: worked time is a bounded non-negative count of
    /// seconds, the last-active day is a bounded day number, and category
    /// names appear at most once.
    pub open spec fn wf(self) -> bool {
        &&& 0 <= self.total_time_worked <= MAX_WORKED_SECONDS
        &&& -MAX_DAY_NUMBER <= self.last_active_date <= MAX_DAY_NUMBER
        &&& forall|i: int, j: int|
            0 <= i < j < self.tasks_by_category.len() ==> self.tasks_by_category[i].0
                != self.tasks_by_category[j].0
    }

    /// The statistics after recording one completion: one more completion,
    /// the task's elapsed seconds added to the worked total, its category
    /// counter bumped, and the streak advanced against `today`.
    pub open spec fn spec_record(self, elapsed: i64, name: Seq<char>, today: i64) -> StatsModel {
        StatsModel {
            total_completed: spec_sat_inc_u32(self.total_completed),
            total_time_worked: spec_capped_work(self.total_time_worked, elapsed),
            daily_streak: spec_streak_after(self.daily_streak, self.last_active_date, today),
            last_active_date: today,
            tasks_by_category: spec_bump_category(self.tasks_by_category, name),
        }
    }
}

impl Stats {
    /// A fresh record: nothing completed yet, last active on the creation
    /// day.
    pub fn new(today: i64) -> (r: Stats)
        requires
            -MAX_DAY_NUMBER <= today <= MAX_DAY_NUMBER,
        ensures
            r@ == (StatsModel {
                total_completed: 0,
                total_time_worked: 0,
                daily_streak: 0,
                last_active_date: today,
                tasks_by_category: Seq::<(Seq<char>, u32)>::empty(),
            }),
            r@.wf(),
    {
        let r = Stats {
            total_completed: 0,
            total_time_worked: 0,
            daily_streak: 0,
            last_active_date: today,
            tasks_by_category: Vec::new(),
        };
        proof {
            assert(r@ =~= (StatsModel {
                total_completed: 0,
                total_time_worked: 0,
                daily_streak: 0,
                last_active_date: today,
                tasks_by_category: Seq::<(Seq<char>, u32)>::empty(),
            }));
        }
        r
    }

    /// Records one completion.  This is the only operation that ever
    /// changes the statistics.
    pub fn record_completion(&mut self, elapsed: i64, category_name: String, today: i64)
        requires
            old(self)@.wf(),
            0 <= elapsed <= 2 * MAX_CLOCK_SECONDS,
            -MAX_DAY_NUMBER <= today <= MAX_DAY_NUMBER,
        ensures
            final(self)@ == old(self)@.spec_record(elapsed, category_name@, today),
            final(self)@.wf(),
    {
        let ghost m0 = self@;
        if self.total_completed < u32::MAX {
            self.total_completed = self.total_completed + 1;
        }
        if self.total_time_worked > MAX_WORKED_SECONDS - elapsed {
            self.total_time_worked = MAX_WORKED_SECONDS;
        } else {
            self.total_time_worked = self.total_time_worked + elapsed;
        }
        if today == self.last_active_date {
            // same day: streak unchanged
        } else if self.last_active_date < MAX_DAY_NUMBER && today == self.last_active_date + 1 {
            if self.daily_streak < u32::MAX {
                self.daily_streak = self.daily_streak + 1;
            }
        } else {
            self.daily_streak = 1;
        }
        self.last_active_date = today;
        let ghost cats0 = m0.tasks_by_category;
        let mut i: usize = 0;
        let mut found: bool = false;
        while i < self.tasks_by_category.len() && !found
            invariant
                0 <= i <= self.tasks_by_category.len(),
                self.tasks_by_category@.map_values(|c: CategoryCount| c@) == cats0,
                !found ==> forall|j: int| 0 <= j < i ==> cats0[j].0 != category_name@,
                found ==> i < cats0.len() && cats0[i as int].0 == category_name@,
            decreases self.tasks_by_category.len() - i + (if found { 0int } else { 1int }),
        {
            if self.tasks_by_category[i].name == category_name {
                found = true;
            } else {
                i = i + 1;
            }
        }
        if found {
            let count = self.tasks_by_category[i].count;
            let new_count = if count < u32::MAX {
                count + 1
            } else {
                count
            };
            let entry = CategoryCount { name: category_name, count: new_count };
            self.tasks_by_category.set(i, entry);
            proof {
                let picked = choose|k: int|
                    0 <= k < cats0.len() && cats0[k].0 == entry.name@;
                assert(cats0[i as int].0 == entry.name@);
                assert(picked == i as int);
                assert(self.tasks_by_category@.map_values(|c: CategoryCount| c@) =~= spec_bump_category(
                    cats0,
                    entry.name@,
                ));
            }
        } else {
            let entry = CategoryCount { name: category_name, count: 1 };
            self.tasks_by_category.push(entry);
            proof {
                assert(forall|j: int| 0 <= j < cats0.len() ==> cats0[j].0 != entry.name@);
                assert(self.tasks_by_category@.map_values(|c: CategoryCount| c@) =~= spec_bump_category(
                    cats0,
                    entry.name@,
                ));
            }
        }
        proof {
            assert(self@ =~= m0.spec_record(elapsed, category_name@, today));
        }
    }
}

/// Statistics asymmetry: recording never shrinks any counter, and nothing
/// else changes the statistics at all — so completing a task and then
/// un-completing it leaves every counter at its post-completion value.
pub proof fn lemma_stats_only_grow(m: StatsModel, elapsed: i64, name: Seq<char>, today: i64)
    requires
        m.wf(),
        0 <= elapsed,
    ensures
        m.spec_record(elapsed, name, today).total_completed >= m.total_completed,
        m.spec_record(elapsed, name, today).total_time_worked >= m.total_time_worked
            || m.spec_record(elapsed, name, today).total_time_worked == MAX_WORKED_SECONDS,
{
}

} // verus!
