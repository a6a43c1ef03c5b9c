//! The request shapes a caller hands the controller: a creation request with
//! the activity's content and state blob, and an update request with a fresh
//! state blob.

use vstd::prelude::*;

use crate::state_map::StateMap;

verus! {

/// Content of a task-queue activity: its identity, display strings, and the
/// open-ended state blob carrying the progress fields.
pub struct ActivityContentTaskQueue {
    pub id: String,
    pub title: String,
    pub text: String,
    pub task_name: String,
    pub task_type: String,
    pub task_icon: String,
    pub state: StateMap,
}

/// The mathematical content of a task-queue activity.
pub struct TaskQueueView {
    pub id: Seq<char>,
    pub title: Seq<char>,
    pub text: Seq<char>,
    pub task_name: Seq<char>,
    pub task_type: Seq<char>,
    pub task_icon: Seq<char>,
    pub state: Seq<(Seq<char>, Seq<char>)>,
}

impl View for ActivityContentTaskQueue {
    type V = TaskQueueView;

    open spec fn view(&self) -> TaskQueueView {
        TaskQueueView {
            id: self.id@,
            title: self.title@,
            text: self.text@,
            task_name: self.task_name@,
            task_type: self.task_type@,
            task_icon: self.task_icon@,
            state: self.state@,
        }
    }
}

/// The progress fields of a state blob, in their named wire shape.
pub struct ActivityContentTaskQueueBasicState {
    pub percent: String,
    pub progress: String,
}

/// Content of an activity, tagged by kind. Only the task-queue kind exists
/// today; the tag leaves room for more without breaking the wire contract.
pub enum ActivityContent {
    TaskQueue(ActivityContentTaskQueue),
}

/// A request to create the live activity.
pub struct CreateLiveActivityRequest {
    pub activity_content_v: u32,
    pub activity_content: ActivityContent,
}

/// The mathematical content of a creation request.
pub struct CreateRequestView {
    pub version: u32,
    pub task: TaskQueueView,
}

impl View for CreateLiveActivityRequest {
    type V = CreateRequestView;

    open spec fn view(&self) -> CreateRequestView {
        match self.activity_content {
            ActivityContent::TaskQueue(t) => CreateRequestView {
                version: self.activity_content_v,
                task: t@,
            },
        }
    }
}

/// A request to update the live activity with a fresh state blob.
pub struct UpdateLiveActivityRequest {
    pub state: StateMap,
}

impl View for UpdateLiveActivityRequest {
    type V = Seq<(Seq<char>, Seq<char>)>;

    open spec fn view(&self) -> Seq<(Seq<char>, Seq<char>)> {
        self.state@
    }
}

} // verus!
