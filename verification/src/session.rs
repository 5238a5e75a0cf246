//! The in-memory editing session: the task list and statistics the caller
//! loaded, the view and input-entry state, and every in-memory mutation
//! the surrounding shell performs on them. I/O — loading, persisting,
//! rendering — stays with the caller; each method here is a plain state
//! transformation.

use vstd::prelude::*;
use vstd::view::View as _;

verus! {

use crate::input::{
    digit_val,
    digits_value,
    is_digit_char,
    parse_difficulty,
    spec_difficulty,
    trim_chars,
    trimmed,
    valid_title,
};
use crate::scoring::{
    calculate_task_points,
    spec_task_points,
    spec_update_stats,
    update_stats_on_completion,
};
use crate::stats::UserStats;
use crate::task::{valid_time, Task, TaskStatus, ToggleStep, TIME_MAX};

#[derive(Clone, Copy, Debug, PartialEq, Eq, Structural)]
pub enum View {
    TaskList,
    Stats,
    Help,
}

#[derive(Clone, Copy, Debug, PartialEq, Eq, Structural)]
pub enum InputMode {
    Normal,
    AddingTask,
    EditingTask,
}

#[derive(Clone, Copy, Debug, PartialEq, Eq, Structural)]
pub enum InputFocus {
    Title,
    Difficulty,
}

/// What editing a task by id achieved.
#[derive(Clone, Copy, Debug, PartialEq, Eq, Structural)]
pub enum EditOutcome {
    Updated,
    AlreadyCompleted,
    NotFound,
}

/// What completing the selected task achieved.
#[derive(Clone, Copy, Debug, PartialEq, Eq, Structural)]
pub enum CompleteOutcome {
    NoTask,
    AlreadyCompleted,
    Completed(u64),
}

/// The whole in-memory state of one editing session. Text being entered
/// is kept as characters; the shell renders it as it likes.
pub struct Session {
    pub tasks: Vec<Task>,
    pub user_stats: UserStats,
    pub current_view: View,
    pub input_mode: InputMode,
    pub input_focus: InputFocus,
    pub selected_task_index: usize,
    pub show_completed: bool,
    pub input_buffer: Vec<char>,
    pub difficulty_input: Vec<char>,
    pub should_quit: bool,
    pub editing_task_id: Option<i64>,
}

impl Session {
    /// Well-formedness: every held task and the statistics record are
    /// themselves well-formed.
    pub open spec fn wf(self) -> bool {
        &&& forall|i: int| 0 <= i < self.tasks@.len() ==> (#[trigger] self.tasks@[i]).wf()
        &&& self.user_stats.wf()
    }

    /// A fresh session over loaded tasks and statistics: task-list view,
    /// normal input mode, nothing selected yet, nothing being entered.
    pub fn new(tasks: Vec<Task>, user_stats: UserStats) -> (s: Session)
        requires
            forall|i: int| 0 <= i < tasks@.len() ==> (#[trigger] tasks@[i]).wf(),
            user_stats.wf(),
        ensures
            s.wf(),
            s.tasks == tasks,
            s.user_stats == user_stats,
            s.current_view is TaskList,
            s.input_mode is Normal,
            s.input_focus is Title,
            s.selected_task_index == 0,
            !s.show_completed,
            s.input_buffer@.len() == 0,
            s.difficulty_input@.len() == 0,
            !s.should_quit,
            s.editing_task_id is None,
    {
        Session {
            tasks,
            user_stats,
            current_view: View::TaskList,
            input_mode: InputMode::Normal,
            input_focus: InputFocus::Title,
            selected_task_index: 0,
            show_completed: false,
            input_buffer: Vec::new(),
            difficulty_input: Vec::new(),
            should_quit: false,
            editing_task_id: None,
        }
    }

    /// Replace the task list, after the caller reloaded it.
    pub fn set_tasks(&mut self, tasks: Vec<Task>)
        requires
            old(self).wf(),
            forall|i: int| 0 <= i < tasks@.len() ==> (#[trigger] tasks@[i]).wf(),
        ensures
            *final(self) == (Session { tasks, ..*old(self) }),
            final(self).wf(),
    {
        self.tasks = tasks;
    }

    /// Replace the statistics record, after the caller reloaded it.
    pub fn set_user_stats(&mut self, user_stats: UserStats)
        requires
            old(self).wf(),
            user_stats.wf(),
        ensures
            *final(self) == (Session { user_stats, ..*old(self) }),
            final(self).wf(),
    {
        self.user_stats = user_stats;
    }

    /// The task the selection rests on, if the selection is in range.
    pub fn selected_task(&self) -> (r: Option<&Task>)
        ensures
            (r is Some) == (self.selected_task_index < self.tasks@.len()),
            r is Some ==> *r->0 == self.tasks@[self.selected_task_index as int],
    {
        if self.selected_task_index < self.tasks.len() {
            Some(&self.tasks[self.selected_task_index])
        } else {
            None
        }
    }

    pub fn move_selection_up(&mut self)
        ensures
            *final(self) == (Session {
                selected_task_index: if old(self).selected_task_index > 0 {
                    (old(self).selected_task_index - 1) as usize
                } else {
                    0
                },
                ..*old(self)
            }),
    {
        if self.selected_task_index > 0 {
            self.selected_task_index = self.selected_task_index - 1;
        }
    }

    pub fn move_selection_down(&mut self)
        ensures
            *final(self) == (Session {
                selected_task_index: if old(self).selected_task_index + 1
                    < old(self).tasks@.len() {
                    (old(self).selected_task_index + 1) as usize
                } else {
                    old(self).selected_task_index
                },
                ..*old(self)
            }),
    {
        let max_index = if self.tasks.len() > 0 {
            self.tasks.len() - 1
        } else {
            0
        };
        if self.selected_task_index < max_index {
            self.selected_task_index = self.selected_task_index + 1;
        }
    }

    /// Bring the selection back into range after the list shrank, as far
    /// as possible.
    pub fn clamp_selection(&mut self)
        ensures
            *final(self) == (Session {
                selected_task_index: if old(self).selected_task_index >= old(self).tasks@.len()
                    && old(self).tasks@.len() > 0 {
                    (old(self).tasks@.len() - 1) as usize
                } else {
                    old(self).selected_task_index
                },
                ..*old(self)
            }),
    {
        if self.selected_task_index >= self.tasks.len() && self.tasks.len() > 0 {
            self.selected_task_index = self.tasks.len() - 1;
        }
    }

    /// Open the entry form for a new task, difficulty prefilled with 5.
    pub fn start_add_task(&mut self)
        ensures
            *final(self) == (Session {
                input_mode: InputMode::AddingTask,
                input_focus: InputFocus::Title,
                input_buffer: final(self).input_buffer,
                difficulty_input: final(self).difficulty_input,
                ..*old(self)
            }),
            final(self).input_buffer@.len() == 0,
            final(self).difficulty_input@ == seq!['5'],
    {
        self.input_mode = InputMode::AddingTask;
        self.input_focus = InputFocus::Title;
        self.input_buffer = Vec::new();
        self.difficulty_input = vec!['5'];
    }

    /// Abandon the entry form.
    pub fn cancel_input(&mut self)
        ensures
            *final(self) == (Session {
                input_mode: InputMode::Normal,
                input_focus: InputFocus::Title,
                input_buffer: final(self).input_buffer,
                difficulty_input: final(self).difficulty_input,
                editing_task_id: None,
                ..*old(self)
            }),
            final(self).input_buffer@.len() == 0,
            final(self).difficulty_input@.len() == 0,
    {
        self.input_mode = InputMode::Normal;
        self.input_focus = InputFocus::Title;
        self.input_buffer = Vec::new();
        self.difficulty_input = Vec::new();
        self.editing_task_id = None;
    }

    /// Move the entry cursor between the title and difficulty fields.
    pub fn toggle_input_focus(&mut self)
        ensures
            *final(self) == (Session {
                input_focus: match old(self).input_focus {
                    InputFocus::Title => InputFocus::Difficulty,
                    InputFocus::Difficulty => InputFocus::Title,
                },
                ..*old(self)
            }),
    {
        self.input_focus = match self.input_focus {
            InputFocus::Title => InputFocus::Difficulty,
            InputFocus::Difficulty => InputFocus::Title,
        };
    }

    /// Type one character into the focused entry field. The difficulty
    /// field takes at most two characters, digits only.
    pub fn handle_input_char(&mut self, c: char)
        ensures
            old(self).input_focus is Title ==> *final(self) == (Session {
                input_buffer: final(self).input_buffer,
                ..*old(self)
            }) && final(self).input_buffer@ == old(self).input_buffer@.push(c),
            old(self).input_focus is Difficulty ==> *final(self) == (Session {
                difficulty_input: final(self).difficulty_input,
                ..*old(self)
            }) && final(self).difficulty_input@ == (if crate::input::is_digit_char(c) && old(
                self,
            ).difficulty_input@.len() < 2 {
                old(self).difficulty_input@.push(c)
            } else {
                old(self).difficulty_input@
            }),
    {
        match self.input_focus {
            InputFocus::Title => {
                self.input_buffer.push(c);
            },
            InputFocus::Difficulty => {
                let u = c as u32;
                if 0x30 <= u && u <= 0x39 && self.difficulty_input.len() < 2 {
                    self.difficulty_input.push(c);
                }
            },
        }
    }

    /// Erase the last character of the focused entry field.
    pub fn handle_input_backspace(&mut self)
        ensures
            old(self).input_focus is Title ==> *final(self) == (Session {
                input_buffer: final(self).input_buffer,
                ..*old(self)
            }) && final(self).input_buffer@ == (if old(self).input_buffer@.len() > 0 {
                old(self).input_buffer@.drop_last()
            } else {
                old(self).input_buffer@
            }),
            old(self).input_focus is Difficulty ==> *final(self) == (Session {
                difficulty_input: final(self).difficulty_input,
                ..*old(self)
            }) && final(self).difficulty_input@ == (if old(self).difficulty_input@.len() > 0 {
                old(self).difficulty_input@.drop_last()
            } else {
                old(self).difficulty_input@
            }),
    {
        match self.input_focus {
            InputFocus::Title => {
                let popped = self.input_buffer.pop();
            },
            InputFocus::Difficulty => {
                let popped = self.difficulty_input.pop();
            },
        }
    }

    /// Show or hide completed tasks; the selection starts over.
    pub fn toggle_completed_view(&mut self)
        ensures
            *final(self) == (Session {
                show_completed: !old(self).show_completed,
                selected_task_index: 0,
                ..*old(self)
            }),
    {
        self.show_completed = !self.show_completed;
        self.selected_task_index = 0;
    }

    pub fn switch_view(&mut self, view: View)
        ensures
            *final(self) == (Session { current_view: view, ..*old(self) }),
    {
        self.current_view = view;
    }

    /// Open the entry form over the selected task, prefilled with its
    /// title and difficulty; nothing happens when the selection is out
    /// of range.
    pub fn start_edit_task(&mut self)
        requires
            old(self).wf(),
        ensures
            final(self).wf(),
            old(self).selected_task_index >= old(self).tasks@.len() ==> *final(self) == *old(self),
            old(self).selected_task_index < old(self).tasks@.len() ==> {
                &&& *final(self) == (Session {
                    input_mode: InputMode::EditingTask,
                    input_focus: InputFocus::Title,
                    input_buffer: final(self).input_buffer,
                    difficulty_input: final(self).difficulty_input,
                    editing_task_id: Some(
                        old(self).tasks@[old(self).selected_task_index as int].id,
                    ),
                    ..*old(self)
                })
                &&& final(self).input_buffer@ == old(self).tasks@[old(
                    self,
                ).selected_task_index as int].title@
                &&& spec_difficulty(final(self).difficulty_input@) == old(self).tasks@[old(
                    self,
                ).selected_task_index as int].difficulty
            },
    {
        if self.selected_task_index < self.tasks.len() {
            let title_chars = crate::input::str_to_chars(
                self.tasks[self.selected_task_index].title.as_str(),
            );
            let difficulty = self.tasks[self.selected_task_index].difficulty;
            let id = self.tasks[self.selected_task_index].id;
            self.input_mode = InputMode::EditingTask;
            self.input_focus = InputFocus::Title;
            self.input_buffer = title_chars;
            self.difficulty_input = render_difficulty(difficulty);
            self.editing_task_id = Some(id);
        }
    }

    /// Read the entry form: the trimmed title and the parsed difficulty.
    /// Yields nothing — and the form must be rejected — exactly when the
    /// title is empty after trimming.
    pub fn parse_task_input(&self) -> (r: Option<(Vec<char>, u8)>)
        ensures
            (r is Some) == valid_title(self.input_buffer@),
            r is Some ==> {
                &&& r.unwrap().0@ == trimmed(self.input_buffer@)
                &&& valid_title(r.unwrap().0@)
                &&& r.unwrap().1 == spec_difficulty(self.difficulty_input@)
                &&& 1 <= r.unwrap().1 <= 10
            },
    {
        let title = trim_chars(self.input_buffer.as_slice());
        if title.len() == 0 {
            None
        } else {
            let difficulty = parse_difficulty(self.difficulty_input.as_slice());
            Some((title, difficulty))
        }
    }

    /// Rewrite title and difficulty of the first task with the given id,
    /// in place. A completed task is left untouched; so is everything
    /// else about the session.
    pub fn apply_edit(&mut self, task_id: i64, title: String, difficulty: u8) -> (outcome:
        EditOutcome)
        requires
            old(self).wf(),
            valid_title(title@),
            1 <= difficulty <= 10,
        ensures
            final(self).wf(),
            match spec_find_task(old(self).tasks@, task_id) {
                None => outcome is NotFound && *final(self) == *old(self),
                Some(i) => if old(self).tasks@[i].status is Completed {
                    outcome is AlreadyCompleted && *final(self) == *old(self)
                } else {
                    &&& outcome is Updated
                    &&& final(self).tasks@ == old(self).tasks@.update(
                        i,
                        old(self).tasks@[i].spec_edit(title, difficulty),
                    )
                    &&& *final(self) == (Session { tasks: final(self).tasks, ..*old(self) })
                },
            },
    {
        let ghost ts = self.tasks@;
        let n = self.tasks.len();
        let mut i: usize = 0;
        while i < n && self.tasks[i].id != task_id
            invariant
                i <= n,
                n == self.tasks@.len(),
                *self == *old(self),
                forall|j: int| 0 <= j < i ==> (#[trigger] self.tasks@[j]).id != task_id,
            decreases n - i,
        {
            i = i + 1;
        }
        proof {
            lemma_find_task_skip(ts, task_id, i as int);
        }
        if i == n {
            return EditOutcome::NotFound;
        }
        proof {
            assert(ts.subrange(i as int, n as int)[0] == ts[i as int]);
        }
        if self.tasks[i].status == TaskStatus::Completed {
            return EditOutcome::AlreadyCompleted;
        }
        let mut t = self.tasks.remove(i);
        t.edit(title, difficulty);
        self.tasks.insert(i, t);
        proof {
            assert(self.tasks@ =~= ts.update(i as int, ts[i as int].spec_edit(title, difficulty)));
        }
        EditOutcome::Updated
    }

    /// Toggle the selected task at instant `now`; nothing happens when
    /// the selection is out of range.
    pub fn toggle_selected_task(&mut self, now: u64) -> (r: Option<ToggleStep>)
        requires
            old(self).wf(),
            valid_time(now),
            old(self).selected_task_index < old(self).tasks@.len() ==> old(self).tasks@[old(
                self,
            ).selected_task_index as int].time_ok(now),
        ensures
            final(self).wf(),
            old(self).selected_task_index >= old(self).tasks@.len() ==> r is None && *final(self)
                == *old(self),
            old(self).selected_task_index < old(self).tasks@.len() ==> {
                &&& r == Some(
                    old(self).tasks@[old(self).selected_task_index as int].spec_toggle_step(),
                )
                &&& final(self).tasks@ == old(self).tasks@.update(
                    old(self).selected_task_index as int,
                    old(self).tasks@[old(self).selected_task_index as int].spec_toggle(now),
                )
                &&& *final(self) == (Session { tasks: final(self).tasks, ..*old(self) })
            },
    {
        let idx = self.selected_task_index;
        if idx >= self.tasks.len() {
            return None;
        }
        let ghost ts = self.tasks@;
        let mut t = self.tasks.remove(idx);
        let step = t.toggle(now);
        self.tasks.insert(idx, t);
        proof {
            assert(self.tasks@ =~= ts.update(idx as int, ts[idx as int].spec_toggle(now)));
        }
        Some(step)
    }

    /// Complete the selected task at instant `now`: fold any open pause,
    /// record the completion, compute the award from the statistics and
    /// the historical average, write it into the task, and apply the
    /// statistic mutations. An already-completed selection, or one out
    /// of range, changes nothing.
    pub fn complete_selected_task(&mut self, now: u64, avg_seconds: Option<u64>) -> (r:
        CompleteOutcome)
        requires
            old(self).wf(),
            valid_time(now),
            old(self).selected_task_index < old(self).tasks@.len() ==> old(self).tasks@[old(
                self,
            ).selected_task_index as int].time_ok(now),
            avg_seconds is Some ==> avg_seconds->0 <= TIME_MAX,
            old(self).user_stats.current_streak < u32::MAX,
            old(self).user_stats.tasks_completed < u32::MAX,
            old(self).user_stats.total_points + 6000 <= u64::MAX,
            old(self).user_stats.total_focus_time + TIME_MAX <= u64::MAX,
            old(self).user_stats.last_completion_date is Some ==> old(
                self,
            ).user_stats.last_completion_date->0 <= now,
        ensures
            final(self).wf(),
            old(self).selected_task_index >= old(self).tasks@.len() ==> r is NoTask && *final(self)
                == *old(self),
            (old(self).selected_task_index < old(self).tasks@.len() && old(self).tasks@[old(
                self,
            ).selected_task_index as int].status is Completed) ==> (r is AlreadyCompleted
                && *final(self) == *old(self)),
            old(self).selected_task_index < old(self).tasks@.len() && !(old(self).tasks@[old(
                self,
            ).selected_task_index as int].status is Completed) ==> {
                &&& r == CompleteOutcome::Completed(
                    spec_completion_points(
                        old(self).tasks@[old(self).selected_task_index as int],
                        now,
                        old(self).user_stats,
                        avg_seconds,
                    ),
                )
                &&& final(self).tasks@ == old(self).tasks@.update(
                    old(self).selected_task_index as int,
                    spec_completed_task(
                        old(self).tasks@[old(self).selected_task_index as int],
                        now,
                        old(self).user_stats,
                        avg_seconds,
                    ),
                )
                &&& final(self).user_stats == spec_update_stats(
                    old(self).user_stats,
                    spec_completed_task(
                        old(self).tasks@[old(self).selected_task_index as int],
                        now,
                        old(self).user_stats,
                        avg_seconds,
                    ),
                    spec_completion_points(
                        old(self).tasks@[old(self).selected_task_index as int],
                        now,
                        old(self).user_stats,
                        avg_seconds,
                    ),
                    now,
                )
                &&& *final(self) == (Session {
                    tasks: final(self).tasks,
                    user_stats: final(self).user_stats,
                    ..*old(self)
                })
            },
    {
        let idx = self.selected_task_index;
        if idx >= self.tasks.len() {
            return CompleteOutcome::NoTask;
        }
        if self.tasks[idx].status == TaskStatus::Completed {
            return CompleteOutcome::AlreadyCompleted;
        }
        let ghost ts = self.tasks@;
        let ghost old_stats = self.user_stats;
        let mut t = self.tasks.remove(idx);
        let did = t.complete(now);
        let points = calculate_task_points(&t, &self.user_stats, avg_seconds);
        t.award_points(points);
        update_stats_on_completion(&mut self.user_stats, &t, points, now);
        self.tasks.insert(idx, t);
        proof {
            assert(self.tasks@ =~= ts.update(
                idx as int,
                spec_completed_task(ts[idx as int], now, old_stats, avg_seconds),
            ));
        }
        CompleteOutcome::Completed(points)
    }
}

/// The difficulty as the digits shown in the entry field; reading the
/// field back yields the same difficulty.
fn render_difficulty(d: u8) -> (r: Vec<char>)
    requires
        1 <= d <= 10,
    ensures
        spec_difficulty(r@) == d,
        r@.len() <= 2,
{
    if d == 10 {
        let mut r: Vec<char> = Vec::new();
        r.push('1');
        r.push('0');
        proof {
            assert(digits_value(Seq::<char>::empty()) == 0);
            assert(r@.drop_last() =~= Seq::<char>::empty().push('1'));
            assert(Seq::<char>::empty().push('1').drop_last() =~= Seq::<char>::empty());
            assert(digits_value(Seq::<char>::empty().push('1')) == 1);
            assert(digits_value(r@) == 10);
        }
        r
    } else {
        let c = match d {
            1 => '1',
            2 => '2',
            3 => '3',
            4 => '4',
            5 => '5',
            6 => '6',
            7 => '7',
            8 => '8',
            _ => '9',
        };
        let mut r: Vec<char> = Vec::new();
        r.push(c);
        proof {
            assert(is_digit_char(c));
            assert(digit_val(c) == d as int);
            assert(digits_value(Seq::<char>::empty()) == 0);
            assert(r@.drop_last() =~= Seq::<char>::empty());
            assert(digits_value(r@) == d as int);
            assert(c != '+' && c != '-');
        }
        r
    }
}

/// The index of the first task with the given id, if any.
pub open spec fn spec_find_task(ts: Seq<Task>, id: i64) -> Option<int>
    decreases ts.len(),
{
    if ts.len() == 0 {
        None
    } else if ts[0].id == id {
        Some(0int)
    } else {
        match spec_find_task(ts.drop_first(), id) {
            Some(i) => Some(i + 1),
            None => None,
        }
    }
}

/// If the first `i` tasks do not carry the id, the search outcome is
/// decided by the rest of the list.
proof fn lemma_find_task_skip(ts: Seq<Task>, id: i64, i: int)
    requires
        0 <= i <= ts.len(),
        forall|j: int| 0 <= j < i ==> (#[trigger] ts[j]).id != id,
    ensures
        spec_find_task(ts, id) == match spec_find_task(ts.subrange(i, ts.len() as int), id) {
            Some(k) => Some(k + i),
            None => None::<int>,
        },
    decreases i,
{
    if i == 0 {
        assert(ts.subrange(0, ts.len() as int) =~= ts);
    } else {
        lemma_find_task_skip(ts, id, i - 1);
        let rest = ts.subrange(i - 1, ts.len() as int);
        assert(rest[0] == ts[i - 1]);
        assert(rest.drop_first() =~= ts.subrange(i, ts.len() as int));
    }
}

/// The task as completion at instant `now` records it, award included.
pub open spec fn spec_completed_task(t: Task, now: u64, s: UserStats, avg_seconds: Option<u64>) -> Task {
    Task {
        points_earned: spec_completion_points(t, now, s, avg_seconds),
        ..t.spec_complete(now)
    }
}

/// The points a completion at instant `now` awards.
pub open spec fn spec_completion_points(t: Task, now: u64, s: UserStats, avg_seconds: Option<u64>) -> u64 {
    (spec_task_points(t.spec_complete(now), s, avg_seconds) as u64)
}

} // verus!
