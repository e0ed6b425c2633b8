//! The steps of the commands that change files or the agent.

use vstd::prelude::*;
use vstd::string::StringExecFns;
use crate::paths::path_text;

verus! {

/// One step of a command that changes files or the agent.
#[derive(Debug)]
pub enum Task {
    /// Create a directory and those above it.
    CreateDir { path: Vec<u8> },
    WriteFile { path: Vec<u8>, contents: String },
    RemoveFile { path: Vec<u8> },
    /// Print a line.
    Print { line: String },
    /// Run launchctl. Where the run is not required, nothing depends on how it ends.
    Launchctl { args: Vec<String>, required: bool },
    /// Run launchctl to bring the agent of the property list `plist` into `domain`.
    Bootstrap { domain: String, plist: Vec<u8> },
}

pub enum TaskView {
    CreateDir { path: Seq<u8> },
    WriteFile { path: Seq<u8>, contents: Seq<char> },
    RemoveFile { path: Seq<u8> },
    Print { line: Seq<char> },
    Launchctl { args: Seq<Seq<char>>, required: bool },
    Bootstrap { domain: Seq<char>, plist: Seq<u8> },
}

impl View for Task {
    type V = TaskView;

    open spec fn view(&self) -> TaskView {
        match self {
            Task::CreateDir { path } => TaskView::CreateDir { path: path@ },
            Task::WriteFile { path, contents } => TaskView::WriteFile {
                path: path@,
                contents: contents@,
            },
            Task::RemoveFile { path } => TaskView::RemoveFile { path: path@ },
            Task::Print { line } => TaskView::Print { line: line@ },
            Task::Launchctl { args, required } => TaskView::Launchctl {
                args: crate::text::texts(args@),
                required: *required,
            },
            Task::Bootstrap { domain, plist } => TaskView::Bootstrap {
                domain: domain@,
                plist: plist@,
            },
        }
    }
}

/// A list of tasks.
pub open spec fn plan(tasks: Seq<Task>) -> Seq<TaskView> {
    tasks.map_values(|t: Task| t@)
}

/// The task after whose failure the others are still done.
pub open spec fn is_optional(t: TaskView) -> bool {
    t matches TaskView::Launchctl { required, .. } && !required
}

/// The tasks that follow are done: the task succeeded, or nothing depends on it.
pub open spec fn goes_on(t: TaskView, succeeded: bool) -> bool {
    succeeded || is_optional(t)
}

/// Tells whether the tasks that follow `task` are done. If they are not, the failure of `task` is
/// the failure of the whole.
pub fn go_on_after(task: &Task, succeeded: bool) -> (r: bool)
    ensures
        r == goes_on(task@, succeeded),
        r <==> succeeded || (task matches Task::Launchctl { required, .. } && !*required),
{
    succeeded || match task {
        Task::Launchctl { required, .. } => !*required,
        _ => false,
    }
}

/// What comes of doing the tasks in their order from the one at `i` on, where `succeeded` tells of
/// each whether it succeeds: how many tasks are attempted, counted from the first of all, and
/// whether the whole succeeds.
pub open spec fn outcome_from(tasks: Seq<TaskView>, succeeded: Seq<bool>, i: int) -> (int, bool)
    decreases tasks.len() - i,
{
    if i >= tasks.len() {
        (tasks.len() as int, true)
    } else if goes_on(tasks[i], succeeded[i]) {
        outcome_from(tasks, succeeded, i + 1)
    } else {
        (i + 1, false)
    }
}

/// What comes of doing the tasks in their order.
pub open spec fn plan_outcome(tasks: Seq<TaskView>, succeeded: Seq<bool>) -> (int, bool) {
    outcome_from(tasks, succeeded, 0)
}

/// A line is always printed.
pub open spec fn prints_succeed(tasks: Seq<TaskView>, succeeded: Seq<bool>) -> bool {
    forall|i: int| 0 <= i < tasks.len() && (#[trigger] tasks[i]) is Print ==> succeeded[i]
}

/// The file at `path` is removed in doing the tasks.
pub open spec fn removes(tasks: Seq<TaskView>, succeeded: Seq<bool>, path: Seq<u8>) -> bool {
    exists|i: int|
        0 <= i < plan_outcome(tasks, succeeded).0 && #[trigger] tasks[i] == (TaskView::RemoveFile {
            path,
        }) && succeeded[i]
}

/// What a task on files is doing, in words.
pub open spec fn task_text(t: TaskView) -> Option<Seq<char>> {
    match t {
        TaskView::CreateDir { path } => Some("creating "@ + crate::paths::shown_text(path)),
        TaskView::WriteFile { path, .. } => Some("writing "@ + crate::paths::shown_text(path)),
        TaskView::RemoveFile { path } => Some("removing "@ + crate::paths::shown_text(path)),
        _ => None,
    }
}

impl Task {
    /// What the task is doing, in words, if it is one on files.
    pub fn context(&self) -> (text: Option<String>)
        ensures
            match text {
                Some(m) => task_text(self@) == Some(m@),
                None => task_text(self@) is None,
            },
            text is Some <==> self is CreateDir || self is WriteFile || self is RemoveFile,
            self matches Task::CreateDir { path } ==> text->0@ == "creating "@
                + crate::paths::shown_text(path@),
            self matches Task::WriteFile { path, .. } ==> text->0@ == "writing "@
                + crate::paths::shown_text(path@),
            self matches Task::RemoveFile { path } ==> text->0@ == "removing "@
                + crate::paths::shown_text(path@),
    {
        match self {
            Task::CreateDir { path } => Some(with_path("creating ", path.as_slice())),
            Task::WriteFile { path, .. } => Some(with_path("writing ", path.as_slice())),
            Task::RemoveFile { path } => Some(with_path("removing ", path.as_slice())),
            _ => None,
        }
    }
}

/// `before` and the path.
fn with_path(before: &str, path: &[u8]) -> (text: String)
    ensures
        text@ == before@ + crate::paths::shown_text(path@),
{
    let mut text = before.to_owned();
    text.append(path_text(path).as_str());
    text
}

/// The first required task that fails is the last one attempted, and the whole then fails; if none
/// fails, all are attempted and the whole succeeds.
pub proof fn law_first_failure_ends_the_plan(tasks: Seq<TaskView>, succeeded: Seq<bool>)
    ensures
        ({
            let (attempted, ok) = plan_outcome(tasks, succeeded);
            &&& ok <==> forall|i: int|
                0 <= i < tasks.len() ==> goes_on(#[trigger] tasks[i], succeeded[i])
            &&& ok ==> attempted == tasks.len()
            &&& !ok ==> 1 <= attempted <= tasks.len() && !goes_on(
                tasks[attempted - 1],
                succeeded[attempted - 1],
            )
            &&& forall|i: int|
                0 <= i < attempted - 1 ==> goes_on(#[trigger] tasks[i], succeeded[i])
        }),
{
    lemma_outcome_from(tasks, succeeded, 0);
}

proof fn lemma_outcome_from(tasks: Seq<TaskView>, succeeded: Seq<bool>, start: int)
    requires
        0 <= start <= tasks.len(),
    ensures
        ({
            let (attempted, ok) = outcome_from(tasks, succeeded, start);
            &&& ok ==> attempted == tasks.len() && forall|i: int|
                start <= i < tasks.len() ==> goes_on(#[trigger] tasks[i], succeeded[i])
            &&& !ok ==> start < attempted <= tasks.len() && !goes_on(
                tasks[attempted - 1],
                succeeded[attempted - 1],
            )
            &&& forall|i: int|
                start <= i < attempted - 1 ==> goes_on(#[trigger] tasks[i], succeeded[i])
        }),
    decreases tasks.len() - start,
{
    if start < tasks.len() && goes_on(tasks[start], succeeded[start]) {
        lemma_outcome_from(tasks, succeeded, start + 1);
    }
}

/// Whether a task succeeds that nothing depends on changes nothing.
pub proof fn law_optional_task_does_not_matter(
    tasks: Seq<TaskView>,
    succeeded: Seq<bool>,
    i: int,
    other: bool,
)
    requires
        succeeded.len() == tasks.len(),
        0 <= i < tasks.len(),
        is_optional(tasks[i]),
    ensures
        plan_outcome(tasks, succeeded.update(i, other)) == plan_outcome(tasks, succeeded),
{
    lemma_optional_from(tasks, succeeded, i, other, 0);
}

proof fn lemma_optional_from(
    tasks: Seq<TaskView>,
    succeeded: Seq<bool>,
    i: int,
    other: bool,
    start: int,
)
    requires
        succeeded.len() == tasks.len(),
        0 <= i < tasks.len(),
        is_optional(tasks[i]),
        0 <= start <= tasks.len(),
    ensures
        outcome_from(tasks, succeeded.update(i, other), start) == outcome_from(
            tasks,
            succeeded,
            start,
        ),
    decreases tasks.len() - start,
{
    if start < tasks.len() {
        lemma_optional_from(tasks, succeeded, i, other, start + 1);
    }
}

/// The view of a task tells which it is and what it carries.
pub proof fn law_task_view_keeps_everything(t: Task, j: int)
    ensures
        t matches Task::CreateDir { path } ==> t@ == (TaskView::CreateDir { path: path@ }),
        t matches Task::WriteFile { path, contents } ==> t@ == (TaskView::WriteFile {
            path: path@,
            contents: contents@,
        }),
        t matches Task::RemoveFile { path } ==> t@ == (TaskView::RemoveFile { path: path@ }),
        t matches Task::Print { line } ==> t@ == (TaskView::Print { line: line@ }),
        t matches Task::Launchctl { args, required } ==> {
            &&& t@ is Launchctl
            &&& t@->required == required
            &&& t@->args.len() == args@.len()
            &&& 0 <= j < args@.len() ==> t@->args[j] == args@[j]@
        },
        t matches Task::Bootstrap { domain, plist } ==> t@ == (TaskView::Bootstrap {
            domain: domain@,
            plist: plist@,
        }),
{
}

/// A plan is its tasks, one by one.
pub proof fn law_plan_is_its_tasks(tasks: Seq<Task>, i: int)
    ensures
        plan(tasks).len() == tasks.len(),
        0 <= i < tasks.len() ==> plan(tasks)[i] == tasks[i]@,
{
}

/// All the tasks before the last one attempted succeeded or are runs of launchctl that are not
/// required. The whole succeeds if and only if that holds of all the tasks, and then all of them
/// are attempted; otherwise the last one attempted failed and is none of those runs.
pub proof fn law_only_unrequired_runs_may_fail(tasks: Seq<TaskView>, succeeded: Seq<bool>)
    ensures
        ({
            let (attempted, ok) = plan_outcome(tasks, succeeded);
            &&& 0 <= attempted <= tasks.len()
            &&& forall|i: int|
                0 <= i < attempted - 1 ==> (succeeded[i] || ((#[trigger] tasks[i]) is Launchctl
                    && !tasks[i]->required))
            &&& ok ==> attempted == tasks.len() && (tasks.len() > 0 ==> succeeded[tasks.len() - 1]
                || (tasks[tasks.len() - 1] is Launchctl && !tasks[tasks.len() - 1]->required))
            &&& !ok ==> attempted > 0 && !succeeded[attempted - 1] && (tasks[attempted
                - 1] is Launchctl ==> tasks[attempted - 1]->required)
        }),
{
    law_first_failure_ends_the_plan(tasks, succeeded);
    let (attempted, ok) = plan_outcome(tasks, succeeded);
    assert forall|i: int| 0 <= i < attempted - 1 implies succeeded[i] || ((
    #[trigger] tasks[i]) is Launchctl && !tasks[i]->required) by {
        assert(goes_on(tasks[i], succeeded[i]));
    }
    if ok && tasks.len() > 0 {
        assert(goes_on(tasks[tasks.len() - 1], succeeded[tasks.len() - 1]));
    }
}

/// A file is removed by its task if that is attempted and succeeds, and by no other.
pub proof fn law_removal_is_a_task(
    tasks: Seq<TaskView>,
    succeeded: Seq<bool>,
    path: Seq<u8>,
)
    ensures
        removes(tasks, succeeded, path) <==> exists|i: int|
            0 <= i < plan_outcome(tasks, succeeded).0 && succeeded[i] && #[trigger] tasks[i] == (
            TaskView::RemoveFile { path }),
        prints_succeed(tasks, succeeded) <==> !exists|i: int|
            0 <= i < tasks.len() && (#[trigger] tasks[i]) is Print && !succeeded[i],
{
}

/// What the tasks on files are called, word by word.
pub proof fn law_task_words(t: TaskView)
    ensures
        task_text(t) is Some <==> t is CreateDir || t is WriteFile || t is RemoveFile,
        t matches TaskView::CreateDir { path } ==> task_text(t)->0 == "creating "@
            + crate::paths::shown_text(path),
        t matches TaskView::WriteFile { path, .. } ==> task_text(t)->0 == "writing "@
            + crate::paths::shown_text(path),
        t matches TaskView::RemoveFile { path } ==> task_text(t)->0 == "removing "@
            + crate::paths::shown_text(path),
{
}

} // verus!
