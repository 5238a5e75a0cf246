//! A single task and its lifecycle: the four-state machine
//! (pending, in progress, paused, completed) together with the time
//! bookkeeping that yields the task's active duration.

use vstd::prelude::*;

verus! {

use crate::input::valid_title;

/// Upper bound on every timestamp and accumulated duration, in seconds.
/// Keeping times below it leaves all fixed-point products inside `u64`.
pub const TIME_MAX: u64 = 1_000_000_000_000;

/// A timestamp the core accepts: seconds of UTC time, bounded by `TIME_MAX`.
pub open spec fn valid_time(t: u64) -> bool {
    t <= TIME_MAX
}

#[derive(Clone, Copy, Debug, PartialEq, Eq, Structural)]
pub enum TaskStatus {
    Pending,
    InProgress,
    Paused,
    Completed,
}

impl TaskStatus {
    /// The label shown for each status.
    pub open spec fn label(self) -> Seq<char> {
        match self {
            TaskStatus::Pending => "Pending"@,
            TaskStatus::InProgress => "In Progress"@,
            TaskStatus::Paused => "Paused"@,
            TaskStatus::Completed => "Completed"@,
        }
    }

    pub fn as_str(&self) -> (r: &str)
        ensures
            r@ == self.label(),
    {
        match self {
            TaskStatus::Pending => "Pending",
            TaskStatus::InProgress => "In Progress",
            TaskStatus::Paused => "Paused",
            TaskStatus::Completed => "Completed",
        }
    }

    /// The code under which each status is stored.
    pub open spec fn code(self) -> Seq<char> {
        match self {
            TaskStatus::Pending => "Pending"@,
            TaskStatus::InProgress => "InProgress"@,
            TaskStatus::Paused => "Paused"@,
            TaskStatus::Completed => "Completed"@,
        }
    }

    pub fn as_code(&self) -> (r: &str)
        ensures
            r@ == self.code(),
    {
        match self {
            TaskStatus::Pending => "Pending",
            TaskStatus::InProgress => "InProgress",
            TaskStatus::Paused => "Paused",
            TaskStatus::Completed => "Completed",
        }
    }

    /// The status a stored code denotes; anything unrecognized reads as
    /// pending.
    pub open spec fn spec_from_code(s: Seq<char>) -> TaskStatus {
        if s == "InProgress"@ {
            TaskStatus::InProgress
        } else if s == "Paused"@ {
            TaskStatus::Paused
        } else if s == "Completed"@ {
            TaskStatus::Completed
        } else {
            TaskStatus::Pending
        }
    }

    pub fn from_code(s: &str) -> (r: TaskStatus)
        ensures
            r == TaskStatus::spec_from_code(s@),
    {
        if crate::input::str_eq(s, "InProgress") {
            TaskStatus::InProgress
        } else if crate::input::str_eq(s, "Paused") {
            TaskStatus::Paused
        } else if crate::input::str_eq(s, "Completed") {
            TaskStatus::Completed
        } else {
            TaskStatus::Pending
        }
    }
}

/// One user-created unit of work. Timestamps are seconds of UTC time;
/// `total_pause_duration` accumulates the seconds spent paused.
#[derive(Clone, Debug)]
pub struct Task {
    pub id: i64,
    pub title: String,
    pub difficulty: u8,
    pub status: TaskStatus,
    pub created_at: u64,
    pub started_at: Option<u64>,
    pub completed_at: Option<u64>,
    pub paused_at: Option<u64>,
    pub total_pause_duration: u64,
    pub points_earned: u64,
}

impl Task {
    /// Well-formedness: difficulty in range, a meaningful title, bounded
    /// times, and the timestamp fields coherent with the status. The key
    /// arithmetic fact is that the accumulated pause time never exceeds
    /// the span between start and the next recorded instant, so the
    /// active duration of a completed task is never negative.
    pub open spec fn wf(self) -> bool {
        &&& 1 <= self.difficulty <= 10
        &&& valid_title(self.title@)
        &&& valid_time(self.created_at)
        &&& self.total_pause_duration <= TIME_MAX
        &&& (self.started_at is Some ==> valid_time(self.started_at->0))
        &&& (self.completed_at is Some ==> valid_time(self.completed_at->0))
        &&& (self.paused_at is Some ==> valid_time(self.paused_at->0))
        &&& match self.status {
            TaskStatus::Pending => {
                &&& self.started_at is None
                &&& self.paused_at is None
                &&& self.completed_at is None
                &&& self.total_pause_duration == 0
                &&& self.points_earned == 0
            },
            TaskStatus::InProgress => {
                &&& self.started_at is Some
                &&& self.paused_at is None
                &&& self.completed_at is None
                &&& self.points_earned == 0
            },
            TaskStatus::Paused => {
                &&& self.started_at is Some
                &&& self.paused_at is Some
                &&& self.completed_at is None
                &&& self.points_earned == 0
                &&& self.started_at->0 + self.total_pause_duration <= self.paused_at->0
            },
            TaskStatus::Completed => {
                &&& self.completed_at is Some
                &&& self.paused_at is None
                &&& (self.started_at is Some ==> self.started_at->0 + self.total_pause_duration
                    <= self.completed_at->0)
                &&& (self.started_at is None ==> self.total_pause_duration == 0)
            },
        }
    }

    /// Runtime check for `wf`, for callers that load tasks from storage
    /// and must validate them before handing them to the library.
    pub fn check_wf(&self) -> (b: bool)
        ensures
            b == self.wf(),
    {
        let difficulty_ok = 1 <= self.difficulty && self.difficulty <= 10;
        let title_valid = crate::input::title_str_ok(self.title.as_str());
        let created_ok = self.created_at <= TIME_MAX;
        let pause_ok = self.total_pause_duration <= TIME_MAX;
        let started_ok = match self.started_at {
            Some(t) => t <= TIME_MAX,
            None => true,
        };
        let completed_ok = match self.completed_at {
            Some(t) => t <= TIME_MAX,
            None => true,
        };
        let paused_ok = match self.paused_at {
            Some(t) => t <= TIME_MAX,
            None => true,
        };
        let status_ok = match self.status {
            TaskStatus::Pending => self.started_at.is_none() && self.paused_at.is_none()
                && self.completed_at.is_none() && self.total_pause_duration == 0
                && self.points_earned == 0,
            TaskStatus::InProgress => self.started_at.is_some() && self.paused_at.is_none()
                && self.completed_at.is_none() && self.points_earned == 0,
            TaskStatus::Paused => self.started_at.is_some() && self.paused_at.is_some()
                && self.completed_at.is_none() && self.points_earned == 0 && pause_ok
                && started_ok && self.started_at.unwrap() + self.total_pause_duration
                <= self.paused_at.unwrap(),
            TaskStatus::Completed => self.completed_at.is_some() && self.paused_at.is_none()
                && (match self.started_at {
                    Some(s) => pause_ok && s <= TIME_MAX && s + self.total_pause_duration
                        <= self.completed_at.unwrap(),
                    None => self.total_pause_duration == 0,
                }),
        };
        difficulty_ok && title_valid && created_ok && pause_ok && started_ok && completed_ok
            && paused_ok && status_ok
    }

    /// The seconds a completed-and-started task was actively worked on.
    pub open spec fn active_seconds(self) -> int {
        self.completed_at->0 - self.started_at->0 - self.total_pause_duration
    }

    /// A freshly created task: pending, with no timestamps but its creation
    /// time, no pause debt and no points.
    pub fn new(id: i64, title: String, difficulty: u8, created_at: u64) -> (t: Task)
        requires
            valid_title(title@),
            1 <= difficulty <= 10,
            valid_time(created_at),
        ensures
            t.wf(),
            t.id == id,
            t.title == title,
            t.difficulty == difficulty,
            t.status is Pending,
            t.created_at == created_at,
            t.started_at is None,
            t.completed_at is None,
            t.paused_at is None,
            t.total_pause_duration == 0,
            t.points_earned == 0,
    {
        Task {
            id,
            title,
            difficulty,
            status: TaskStatus::Pending,
            created_at,
            started_at: None,
            completed_at: None,
            paused_at: None,
            total_pause_duration: 0,
            points_earned: 0,
        }
    }

    /// Whether the clock reading `now` is admissible for the next
    /// transition: it must not precede the instants already recorded,
    /// so pause intervals and active durations stay non-negative.
    pub open spec fn time_ok(self, now: u64) -> bool {
        match self.status {
            TaskStatus::InProgress => self.started_at->0 + self.total_pause_duration <= now,
            TaskStatus::Paused => self.paused_at->0 <= now,
            _ => true,
        }
    }

    /// Runtime check for `time_ok`, for callers that must validate a
    /// clock reading before asking for a transition.
    pub fn check_time_ok(&self, now: u64) -> (b: bool)
        requires
            self.wf(),
        ensures
            b == self.time_ok(now),
    {
        match self.status {
            TaskStatus::InProgress => self.started_at.unwrap() + self.total_pause_duration <= now,
            TaskStatus::Paused => self.paused_at.unwrap() <= now,
            _ => true,
        }
    }

    /// What a toggle request at instant `now` does to a task.
    pub open spec fn spec_toggle(self, now: u64) -> Task {
        match self.status {
            TaskStatus::Pending => Task {
                status: TaskStatus::InProgress,
                started_at: Some(now),
                ..self
            },
            TaskStatus::InProgress => Task { status: TaskStatus::Paused, paused_at: Some(now), ..self },
            TaskStatus::Paused => Task {
                status: TaskStatus::InProgress,
                paused_at: None,
                total_pause_duration: (self.total_pause_duration + (now - self.paused_at->0)) as u64,
                ..self
            },
            TaskStatus::Completed => self,
        }
    }

    /// Which step a toggle request performs, by the task's current status.
    pub open spec fn spec_toggle_step(self) -> ToggleStep {
        match self.status {
            TaskStatus::Pending => ToggleStep::Started,
            TaskStatus::InProgress => ToggleStep::Paused,
            TaskStatus::Paused => ToggleStep::Resumed,
            TaskStatus::Completed => ToggleStep::AlreadyCompleted,
        }
    }

    /// A toggle request cycles pending -> in progress -> paused -> in
    /// progress; a completed task is left untouched. Starting records the
    /// start time once; resuming folds the closed pause interval into
    /// `total_pause_duration`.
    pub fn toggle(&mut self, now: u64) -> (step: ToggleStep)
        requires
            old(self).wf(),
            valid_time(now),
            old(self).time_ok(now),
        ensures
            *final(self) == old(self).spec_toggle(now),
            step == old(self).spec_toggle_step(),
            final(self).wf(),
    {
        match self.status {
            TaskStatus::Pending => {
                self.status = TaskStatus::InProgress;
                self.started_at = Some(now);
                ToggleStep::Started
            },
            TaskStatus::InProgress => {
                self.status = TaskStatus::Paused;
                self.paused_at = Some(now);
                ToggleStep::Paused
            },
            TaskStatus::Paused => {
                let paused_at = self.paused_at.unwrap();
                self.total_pause_duration = self.total_pause_duration + (now - paused_at);
                self.status = TaskStatus::InProgress;
                self.paused_at = None;
                ToggleStep::Resumed
            },
            TaskStatus::Completed => ToggleStep::AlreadyCompleted,
        }
    }

    /// What an explicit completion request at instant `now` does to a task.
    pub open spec fn spec_complete(self, now: u64) -> Task {
        match self.status {
            TaskStatus::Completed => self,
            TaskStatus::Paused => Task {
                status: TaskStatus::Completed,
                paused_at: None,
                completed_at: Some(now),
                total_pause_duration: (self.total_pause_duration + (now - self.paused_at->0)) as u64,
                ..self
            },
            _ => Task { status: TaskStatus::Completed, completed_at: Some(now), ..self },
        }
    }

    /// Completion is one-way and reachable from any non-completed status;
    /// a pending task may be completed without ever starting. A paused
    /// task first folds its open pause interval into
    /// `total_pause_duration`, exactly as resuming would, so the recorded
    /// active duration stays non-negative. Returns whether anything
    /// changed: a completed task is left untouched.
    pub fn complete(&mut self, now: u64) -> (did: bool)
        requires
            old(self).wf(),
            valid_time(now),
            old(self).time_ok(now),
        ensures
            *final(self) == old(self).spec_complete(now),
            did == !(old(self).status is Completed),
            final(self).wf(),
    {
        match self.status {
            TaskStatus::Completed => false,
            TaskStatus::Paused => {
                let paused_at = self.paused_at.unwrap();
                self.total_pause_duration = self.total_pause_duration + (now - paused_at);
                self.paused_at = None;
                self.status = TaskStatus::Completed;
                self.completed_at = Some(now);
                true
            },
            _ => {
                self.status = TaskStatus::Completed;
                self.completed_at = Some(now);
                true
            },
        }
    }

    /// Record the points awarded for a completed task.
    pub fn award_points(&mut self, points: u64)
        requires
            old(self).wf(),
            old(self).status is Completed,
        ensures
            *final(self) == (Task { points_earned: points, ..*old(self) }),
            final(self).wf(),
    {
        self.points_earned = points;
    }

    /// What an edit does: it rewrites title and difficulty in place and
    /// touches nothing else — no status, no timestamps.
    pub open spec fn spec_edit(self, title: String, difficulty: u8) -> Task {
        Task { title, difficulty, ..self }
    }

    /// Rewrite title and difficulty of a task that is not yet completed.
    pub fn edit(&mut self, title: String, difficulty: u8)
        requires
            old(self).wf(),
            !(old(self).status is Completed),
            valid_title(title@),
            1 <= difficulty <= 10,
        ensures
            *final(self) == old(self).spec_edit(title, difficulty),
            final(self).wf(),
    {
        self.title = title;
        self.difficulty = difficulty;
    }
}

#[derive(Clone, Copy, Debug, PartialEq, Eq, Structural)]
pub enum ToggleStep {
    Started,
    Paused,
    Resumed,
    AlreadyCompleted,
}

/// Editing is idempotent: applying the same title and difficulty a second
/// time changes nothing beyond what the first application did.
pub proof fn lemma_edit_idempotent(t: Task, title: String, difficulty: u8)
    ensures
        t.spec_edit(title, difficulty).spec_edit(title, difficulty) == t.spec_edit(
            title,
            difficulty,
        ),
{
}

} // verus!
