use vstd::prelude::*;
use crate::timer::TimerState;

verus! {

/// A request an external client can send over the control channel.
#[derive(Debug)]
pub enum Command {
    Start,
    Pause,
    Resume,
    Stop,
    Reset,
    Status,
    AddTask { description: String },
    ListTasks,
}

/// Mathematical image of a command.
#[verifier::ext_equal]
pub ghost enum CommandModel {
    Start,
    Pause,
    Resume,
    Stop,
    Reset,
    Status,
    AddTask { description: Seq<char> },
    ListTasks,
}

impl View for Command {
    type V = CommandModel;

    open spec fn view(&self) -> CommandModel {
        match self {
            Command::Start => CommandModel::Start,
            Command::Pause => CommandModel::Pause,
            Command::Resume => CommandModel::Resume,
            Command::Stop => CommandModel::Stop,
            Command::Reset => CommandModel::Reset,
            Command::Status => CommandModel::Status,
            Command::AddTask { description } => (CommandModel::AddTask {
                description: description@,
            }),
            Command::ListTasks => CommandModel::ListTasks,
        }
    }
}

/// A snapshot of the global timer for a status reply.  `elapsed` and
/// `total` are in seconds; a negative target reads as zero.
#[derive(Clone, Copy, Debug, PartialEq, Eq, Structural)]
pub struct TimerStatus {
    pub state: TimerState,
    pub elapsed: u64,
    pub total: u64,
}

/// One line of a task listing.
#[derive(Debug)]
pub struct Task {
    pub id: u32,
    pub description: String,
    pub completed: bool,
}

impl View for Task {
    type V = (u32, Seq<char>, bool);

    open spec fn view(&self) -> (u32, Seq<char>, bool) {
        (self.id, self.description@, self.completed)
    }
}

impl Clone for Task {
    fn clone(&self) -> (r: Self)
        ensures
            r@ == self@,
    {
        Task { id: self.id, description: self.description.clone(), completed: self.completed }
    }
}

/// The reply to one command.
#[derive(Debug)]
pub enum Response {
    Okay,
    Status(TimerStatus),
    Tasks(Vec<Task>),
    Error(String),
}

/// Mathematical image of a reply.
#[verifier::ext_equal]
pub ghost enum ResponseModel {
    Okay,
    Status(TimerStatus),
    Tasks(Seq<(u32, Seq<char>, bool)>),
    Error(Seq<char>),
}

impl View for Response {
    type V = ResponseModel;

    open spec fn view(&self) -> ResponseModel {
        match self {
            Response::Okay => ResponseModel::Okay,
            Response::Status(s) => ResponseModel::Status(*s),
            Response::Tasks(ts) => ResponseModel::Tasks(ts@.map_values(|t: Task| t@)),
            Response::Error(e) => ResponseModel::Error(e@),
        }
    }
}

} // verus!
