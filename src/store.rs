//! The task store: an ordered list of tasks, the selection into it, the
//! current input mode and the id counter.

use vstd::prelude::*;

verus! {

/// One task of the list.
pub struct Task {
    pub id: usize,
    pub title: String,
    pub description: String,
    pub completed: bool,
}

/// What a task holds, as mathematical values.
pub struct TaskView {
    pub id: nat,
    pub title: Seq<char>,
    pub description: Seq<char>,
    pub completed: bool,
}

impl View for Task {
    type V = TaskView;

    open spec fn view(&self) -> TaskView {
        TaskView {
            id: self.id as nat,
            title: self.title@,
            description: self.description@,
            completed: self.completed,
        }
    }
}

impl Task {
    /// A new, open task.
    pub fn new(id: usize, title: String, description: String) -> (r: Task)
        ensures
            r@ == (TaskView { id: id as nat, title: title@, description: description@, completed: false }),
    {
        Task { id, title, description, completed: false }
    }
}

/// How keystrokes are read: as commands, or as text for one field.
#[derive(Clone, Copy, Debug, PartialEq, Eq, Structural)]
pub enum Mode {
    Normal,
    AddTitle,
    EditTitle,
    EditDescription,
}

/// The whole state of an interactive session.
pub struct App {
    pub tasks: Vec<Task>,
    pub selected_index: usize,
    pub mode: Mode,
    pub input_buffer: String,
    pub next_id: usize,
}

/// The state of a session, as mathematical values.
pub struct AppView {
    pub tasks: Seq<TaskView>,
    pub selected: nat,
    pub mode: Mode,
    pub buffer: Seq<char>,
    pub next_id: nat,
}

/// The views of a list of tasks.
pub open spec fn tasks_view(v: Seq<Task>) -> Seq<TaskView> {
    v.map_values(|t: Task| t@)
}

impl View for App {
    type V = AppView;

    open spec fn view(&self) -> AppView {
        AppView {
            tasks: tasks_view(self.tasks@),
            selected: self.selected_index as nat,
            mode: self.mode,
            buffer: self.input_buffer@,
            next_id: self.next_id as nat,
        }
    }
}

/// The largest id in `ts`, or 0 when `ts` is empty.
pub open spec fn max_id(ts: Seq<TaskView>) -> nat
    decreases ts.len(),
{
    if ts.len() == 0 {
        0
    } else {
        let m = max_id(ts.drop_last());
        if ts.last().id > m {
            ts.last().id
        } else {
            m
        }
    }
}

/// The selection points into the list (or is 0 when the list is empty), and
/// every id is below the counter.
pub open spec fn well_formed(s: AppView) -> bool {
    &&& (if s.tasks.len() == 0 {
        s.selected == 0
    } else {
        s.selected < s.tasks.len()
    })
    &&& forall|i: int| 0 <= i < s.tasks.len() ==> #[trigger] s.tasks[i].id < s.next_id
}

/// The state that a session starts in with the tasks `ts` loaded.
pub open spec fn loaded(ts: Seq<TaskView>) -> AppView {
    AppView { tasks: ts, selected: 0, mode: Mode::Normal, buffer: Seq::empty(), next_id: max_id(ts) + 1 }
}

/// `s` with a new open task appended under the next id.
pub open spec fn add_spec(s: AppView, title: Seq<char>, description: Seq<char>) -> AppView {
    AppView {
        tasks: s.tasks.push(TaskView { id: s.next_id, title, description, completed: false }),
        next_id: s.next_id + 1,
        ..s
    }
}

/// The selection after the list shrank to `len` tasks.
pub open spec fn repaired(selected: nat, len: nat) -> nat {
    if selected >= len && len > 0 {
        (len - 1) as nat
    } else {
        selected
    }
}

/// `s` without the selected task, with the selection repaired.
pub open spec fn delete_spec(s: AppView) -> AppView {
    if s.selected < s.tasks.len() {
        let rest = s.tasks.remove(s.selected as int);
        AppView { tasks: rest, selected: repaired(s.selected, rest.len()), ..s }
    } else {
        s
    }
}

/// `s` with the selected task's completion flag flipped.
pub open spec fn toggle_spec(s: AppView) -> AppView {
    if s.selected < s.tasks.len() {
        let t = s.tasks[s.selected as int];
        AppView { tasks: s.tasks.update(s.selected as int, TaskView { completed: !t.completed, ..t }), ..s }
    } else {
        s
    }
}

/// `s` with the selected task's title replaced.
pub open spec fn edit_title_spec(s: AppView, title: Seq<char>) -> AppView {
    if s.selected < s.tasks.len() {
        let t = s.tasks[s.selected as int];
        AppView { tasks: s.tasks.update(s.selected as int, TaskView { title, ..t }), ..s }
    } else {
        s
    }
}

/// `s` with the selected task's description replaced.
pub open spec fn edit_description_spec(s: AppView, description: Seq<char>) -> AppView {
    if s.selected < s.tasks.len() {
        let t = s.tasks[s.selected as int];
        AppView { tasks: s.tasks.update(s.selected as int, TaskView { description, ..t }), ..s }
    } else {
        s
    }
}

/// `s` with the selection one up, where there is a task above.
pub open spec fn move_up_spec(s: AppView) -> AppView {
    if s.tasks.len() > 0 && s.selected > 0 {
        AppView { selected: (s.selected - 1) as nat, ..s }
    } else {
        s
    }
}

/// `s` with the selection one down, where there is a task below.
pub open spec fn move_down_spec(s: AppView) -> AppView {
    if s.tasks.len() > 0 && s.selected + 1 < s.tasks.len() {
        AppView { selected: s.selected + 1, ..s }
    } else {
        s
    }
}

impl App {
    /// The session's state is well formed.
    pub open spec fn wf(&self) -> bool {
        well_formed(self@)
    }

    /// A session with no tasks.
    pub fn new() -> (r: App)
        ensures
            r@ == loaded(Seq::empty()),
            r.wf(),
    {
        let r = App {
            tasks: Vec::new(),
            selected_index: 0,
            mode: Mode::Normal,
            input_buffer: String::new(),
            next_id: 1,
        };
        proof {
            assert(r@.tasks =~= Seq::<TaskView>::empty());
            assert(r@.buffer =~= Seq::<char>::empty());
        }
        r
    }

    /// A session over tasks read back from storage; the id counter resumes
    /// one above the largest id present.
    pub fn from_tasks(tasks: Vec<Task>) -> (r: App)
        requires
            forall|i: int| 0 <= i < tasks@.len() ==> #[trigger] tasks@[i].id < usize::MAX,
        ensures
            r@ == loaded(tasks_view(tasks@)),
            r.wf(),
    {
        let ghost ts = tasks_view(tasks@);
        let mut m: usize = 0;
        let mut i: usize = 0;
        while i < tasks.len()
            invariant
                i <= tasks@.len(),
                ts == tasks_view(tasks@),
                m == max_id(ts.subrange(0, i as int)),
                m < usize::MAX,
                forall|j: int| 0 <= j < tasks@.len() ==> #[trigger] tasks@[j].id < usize::MAX,
            decreases tasks@.len() - i,
        {
            proof {
                assert(ts.subrange(0, i as int + 1).drop_last() =~= ts.subrange(0, i as int));
            }
            if tasks[i].id > m {
                m = tasks[i].id;
            }
            i = i + 1;
        }
        proof {
            assert(ts.subrange(0, i as int) =~= ts);
            lemma_max_id_bounds(ts);
        }
        let r = App { tasks, selected_index: 0, mode: Mode::Normal, input_buffer: String::new(), next_id: m + 1 };
        proof {
            assert(r@.buffer =~= Seq::<char>::empty());
        }
        r
    }

    /// Appends a new open task under the next id.
    pub fn add_task(&mut self, title: String, description: String)
        requires
            old(self).wf(),
            old(self).next_id < usize::MAX,
        ensures
            final(self)@ == add_spec(old(self)@, title@, description@),
            final(self).wf(),
    {
        let task = Task::new(self.next_id, title, description);
        self.tasks.push(task);
        self.next_id = self.next_id + 1;
        proof {
            assert(self@.tasks =~= add_spec(old(self)@, title@, description@).tasks);
        }
    }

    /// Removes the selected task and keeps the selection inside the list.
    pub fn delete_task(&mut self)
        requires
            old(self).wf(),
        ensures
            final(self)@ == delete_spec(old(self)@),
            final(self).wf(),
    {
        if !self.tasks.is_empty() && self.selected_index < self.tasks.len() {
            self.tasks.remove(self.selected_index);
            if self.selected_index >= self.tasks.len() && !self.tasks.is_empty() {
                self.selected_index = self.tasks.len() - 1;
            }
            proof {
                assert(self@.tasks =~= old(self)@.tasks.remove(old(self).selected_index as int));
            }
        }
    }

    /// Flips the completion flag of the selected task.
    pub fn toggle_task(&mut self)
        requires
            old(self).wf(),
        ensures
            final(self)@ == toggle_spec(old(self)@),
            final(self).wf(),
    {
        if !self.tasks.is_empty() && self.selected_index < self.tasks.len() {
            let i = self.selected_index;
            let done = self.tasks[i].completed;
            self.tasks[i].completed = !done;
            proof {
                assert(self@.tasks =~= toggle_spec(old(self)@).tasks);
            }
        }
    }

    /// Replaces the title of the selected task.
    pub fn edit_current_task(&mut self, title: String)
        requires
            old(self).wf(),
        ensures
            final(self)@ == edit_title_spec(old(self)@, title@),
            final(self).wf(),
    {
        if !self.tasks.is_empty() && self.selected_index < self.tasks.len() {
            let i = self.selected_index;
            self.tasks[i].title = title;
            proof {
                assert(self@.tasks =~= edit_title_spec(old(self)@, title@).tasks);
            }
        }
    }

    /// Replaces the description of the selected task.
    pub fn edit_current_description(&mut self, description: String)
        requires
            old(self).wf(),
        ensures
            final(self)@ == edit_description_spec(old(self)@, description@),
            final(self).wf(),
    {
        if !self.tasks.is_empty() && self.selected_index < self.tasks.len() {
            let i = self.selected_index;
            self.tasks[i].description = description;
            proof {
                assert(self@.tasks =~= edit_description_spec(old(self)@, description@).tasks);
            }
        }
    }

    /// Moves the selection one task up.
    pub fn move_up(&mut self)
        requires
            old(self).wf(),
        ensures
            final(self)@ == move_up_spec(old(self)@),
            final(self).wf(),
    {
        if !self.tasks.is_empty() && self.selected_index > 0 {
            self.selected_index = self.selected_index - 1;
        }
    }

    /// Moves the selection one task down.
    pub fn move_down(&mut self)
        requires
            old(self).wf(),
        ensures
            final(self)@ == move_down_spec(old(self)@),
            final(self).wf(),
    {
        if !self.tasks.is_empty() && self.selected_index < self.tasks.len() - 1 {
            self.selected_index = self.selected_index + 1;
        }
    }
}

/// Whether a task file left in the working directory is to be moved to the
/// data directory: only when the data directory has none yet.
pub fn needs_migration(legacy_exists: bool, target_exists: bool) -> (r: bool)
    ensures
        r == (legacy_exists && !target_exists),
{
    legacy_exists && !target_exists
}

/// Every id in `ts` is at most `max_id(ts)`.
pub proof fn lemma_max_id_bounds(ts: Seq<TaskView>)
    ensures
        forall|i: int| 0 <= i < ts.len() ==> #[trigger] ts[i].id <= max_id(ts),
    decreases ts.len(),
{
    if ts.len() > 0 {
        lemma_max_id_bounds(ts.drop_last());
        assert forall|i: int| 0 <= i < ts.len() implies #[trigger] ts[i].id <= max_id(ts) by {
            if i < ts.len() - 1 {
                assert(ts[i] == ts.drop_last()[i]);
            }
        }
    }
}

} // verus!
