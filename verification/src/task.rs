use vstd::prelude::*;
use crate::timer::Timer;

verus! {

/// What kind of work a task is; free-form kinds carry their own name.
#[derive(Debug, PartialEq, Eq)]
pub enum TaskCategory {
    Work,
    Personal,
    Study,
    Exercise,
    Other(String),
}

/// Mathematical image of a category: free-form kinds are reduced to their
/// character sequence.
#[verifier::ext_equal]
pub ghost enum CategoryModel {
    Work,
    Personal,
    Study,
    Exercise,
    Other(Seq<char>),
}

impl CategoryModel {
    /// The display name of the category, which also keys the per-category
    /// completion counters.
    pub open spec fn spec_name(self) -> Seq<char> {
        match self {
            CategoryModel::Work => "Work"@,
            CategoryModel::Personal => "Personal"@,
            CategoryModel::Study => "Study"@,
            CategoryModel::Exercise => "Exercise"@,
            CategoryModel::Other(name) => name,
        }
    }
}

impl View for TaskCategory {
    type V = CategoryModel;

    open spec fn view(&self) -> CategoryModel {
        match self {
            TaskCategory::Work => CategoryModel::Work,
            TaskCategory::Personal => CategoryModel::Personal,
            TaskCategory::Study => CategoryModel::Study,
            TaskCategory::Exercise => CategoryModel::Exercise,
            TaskCategory::Other(name) => CategoryModel::Other(name@),
        }
    }
}

impl Clone for TaskCategory {
    fn clone(&self) -> (r: Self)
        ensures
            r@ == self@,
    {
        match self {
            TaskCategory::Work => TaskCategory::Work,
            TaskCategory::Personal => TaskCategory::Personal,
            TaskCategory::Study => TaskCategory::Study,
            TaskCategory::Exercise => TaskCategory::Exercise,
            TaskCategory::Other(name) => TaskCategory::Other(name.clone()),
        }
    }
}

impl TaskCategory {
    /// The display name, used for rendering, counters and the data file.
    pub fn name(&self) -> (r: String)
        ensures
            r@ == self@.spec_name(),
    {
        match self {
            TaskCategory::Work => String::from_str("Work"),
            TaskCategory::Personal => String::from_str("Personal"),
            TaskCategory::Study => String::from_str("Study"),
            TaskCategory::Exercise => String::from_str("Exercise"),
            TaskCategory::Other(name) => name.clone(),
        }
    }
}

/// How urgent a task is.
#[derive(Clone, Copy, Debug, PartialEq, Eq, Structural)]
pub enum Priority {
    Low,
    Medium,
    High,
    Urgent,
}

impl Priority {
    /// The display name of the priority.
    pub open spec fn spec_name(self) -> Seq<char> {
        match self {
            Priority::Low => "Low"@,
            Priority::Medium => "Medium"@,
            Priority::High => "High"@,
            Priority::Urgent => "Urgent"@,
        }
    }

    pub fn name(&self) -> (r: String)
        ensures
            r@ == self.spec_name(),
    {
        match self {
            Priority::Low => String::from_str("Low"),
            Priority::Medium => String::from_str("Medium"),
            Priority::High => String::from_str("High"),
            Priority::Urgent => String::from_str("Urgent"),
        }
    }
}

/// One task: a description, its own timer, and bookkeeping metadata.
/// Instants are seconds since the Unix epoch.
#[derive(Debug)]
pub struct Task {
    pub id: u32,
    pub description: String,
    pub timer: Timer,
    pub completed: bool,
    pub category: TaskCategory,
    pub priority: Priority,
    pub created_at: i64,
    pub completed_at: Option<i64>,
}

/// Mathematical image of a task.
#[verifier::ext_equal]
pub ghost struct TaskModel {
    pub id: u32,
    pub description: Seq<char>,
    pub timer: Timer,
    pub completed: bool,
    pub category: CategoryModel,
    pub priority: Priority,
    pub created_at: i64,
    pub completed_at: Option<i64>,
}

impl View for Task {
    type V = TaskModel;

    open spec fn view(&self) -> TaskModel {
        TaskModel {
            id: self.id,
            description: self.description@,
            timer: self.timer,
            completed: self.completed,
            category: self.category@,
            priority: self.priority,
            created_at: self.created_at,
            completed_at: self.completed_at,
        }
    }
}

impl TaskModel {
    /// Well-formedness: ids are positive and the timer is well-formed.
    pub open spec fn wf(self) -> bool {
        &&& self.id >= 1
        &&& self.timer.wf()
    }
}

impl Clone for Task {
    fn clone(&self) -> (r: Self)
        ensures
            r@ == self@,
    {
        Task {
            id: self.id,
            description: self.description.clone(),
            timer: self.timer,
            completed: self.completed,
            category: self.category.clone(),
            priority: self.priority,
            created_at: self.created_at,
            completed_at: self.completed_at,
        }
    }
}

} // verus!
