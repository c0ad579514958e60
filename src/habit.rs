use vstd::prelude::*;

verus! {

/// A habit as the store holds it. Instants are milliseconds since the Unix
/// epoch.
#[derive(Debug, Clone)]
pub struct Habit {
    /// Store-assigned key, as lowercase hex; `None` until the store assigns it.
    pub id: Option<String>,
    pub title: String,
    pub description: Option<String>,
    /// `daily`, `weekly` or `monthly`; any other value records completions
    /// without progress.
    pub frequency: String,
    pub completed: bool,
    pub completion_count: u32,
    pub created_at: i64,
    pub last_completed: Option<i64>,
    pub completion_history: Vec<i64>,
    /// Key of the owning user, as lowercase hex.
    pub user_id: String,
}

/// The fields of a habit that its owner supplies.
#[derive(Debug, Clone)]
pub struct HabitRequest {
    pub title: String,
    pub description: Option<String>,
    pub frequency: String,
}

/// The outcome of a habit operation, as a message.
#[derive(Debug, Clone)]
pub struct HabitResponse {
    pub message: String,
}

/// Progress fields that a completion overwrites.
#[derive(Debug, Clone, Copy, PartialEq, Eq, Structural)]
pub struct ProgressUpdate {
    pub completion_count: u32,
    pub completed: bool,
    pub last_completed: i64,
}

/// What marking a habit complete does to its record.
#[derive(Debug, Clone, Copy, PartialEq, Eq, Structural)]
pub enum CompletionPlan {
    /// The instant is already in the history: nothing changes.
    AlreadyCompleted,
    /// Append `completed_at` to the history and, when present, overwrite the
    /// progress fields.
    Record { completed_at: i64, progress: Option<ProgressUpdate> },
}

pub open spec fn daily() -> Seq<char> {
    seq!['d', 'a', 'i', 'l', 'y']
}

pub open spec fn weekly() -> Seq<char> {
    seq!['w', 'e', 'e', 'k', 'l', 'y']
}

pub open spec fn monthly() -> Seq<char> {
    seq!['m', 'o', 'n', 't', 'h', 'l', 'y']
}

/// Completions in one period that finish a weekly habit.
pub const WEEKLY_TARGET: u32 = 7;

/// Completions in one period that finish a monthly habit.
pub const MONTHLY_TARGET: u32 = 30;

/// The count after one more completion, saturating at the largest `u32`.
pub open spec fn next_count(count: u32) -> u32 {
    if count == u32::MAX {
        count
    } else {
        (count + 1) as u32
    }
}

/// The progress fields after a completion at `now`, by frequency: a daily
/// habit is done at once and its count restarts at one; a weekly or monthly
/// habit counts up and is done from its target on; other frequencies have no
/// progress.
pub open spec fn progress_for(frequency: Seq<char>, count: u32, now: i64) -> Option<ProgressUpdate> {
    if frequency == daily() {
        Some(ProgressUpdate { completion_count: 1, completed: true, last_completed: now })
    } else if frequency == weekly() {
        Some(
            ProgressUpdate {
                completion_count: next_count(count),
                completed: next_count(count) >= WEEKLY_TARGET,
                last_completed: now,
            },
        )
    } else if frequency == monthly() {
        Some(
            ProgressUpdate {
                completion_count: next_count(count),
                completed: next_count(count) >= MONTHLY_TARGET,
                last_completed: now,
            },
        )
    } else {
        None
    }
}

/// A new habit for the user with key `user_id`, created at `now`: not
/// completed, no completions, empty history.
pub fn new_habit(payload: HabitRequest, user_id: String, now: i64) -> (h: Habit)
    ensures
        h.id is None,
        h.title == payload.title,
        h.description == payload.description,
        h.frequency == payload.frequency,
        !h.completed,
        h.completion_count == 0,
        h.created_at == now,
        h.last_completed is None,
        h.completion_history@ == Seq::<i64>::empty(),
        h.user_id == user_id,
{
    Habit {
        id: None,
        title: payload.title,
        description: payload.description,
        frequency: payload.frequency,
        completed: false,
        completion_count: 0,
        created_at: now,
        last_completed: None,
        completion_history: Vec::new(),
        user_id,
    }
}

/// Decides what marking `habit` complete at `now` does. A completion at an
/// instant already in the history is suppressed; otherwise the instant is
/// recorded, with the progress that the frequency gives.
pub fn plan_completion(habit: &Habit, now: i64) -> (r: CompletionPlan)
    ensures
        habit.completion_history@.contains(now) ==> r == CompletionPlan::AlreadyCompleted,
        !habit.completion_history@.contains(now) ==> r == (CompletionPlan::Record {
            completed_at: now,
            progress: progress_for(habit.frequency@, habit.completion_count, now),
        }),
{
    let mut i: usize = 0;
    while i < habit.completion_history.len()
        invariant
            0 <= i <= habit.completion_history@.len(),
            forall|j: int| 0 <= j < i ==> habit.completion_history@[j] != now,
        decreases habit.completion_history@.len() - i,
    {
        if habit.completion_history[i] == now {
            return CompletionPlan::AlreadyCompleted;
        }
        i = i + 1;
    }
    let count = habit.completion_count;
    let next = if count == u32::MAX {
        count
    } else {
        count + 1
    };
    let d = String::from_str("daily");
    let w = String::from_str("weekly");
    let m = String::from_str("monthly");
    proof {
        reveal_strlit("daily");
        reveal_strlit("weekly");
        reveal_strlit("monthly");
        assert(d@ == daily());
        assert(w@ == weekly());
        assert(m@ == monthly());
    }
    let progress = if habit.frequency == d {
        Some(ProgressUpdate { completion_count: 1, completed: true, last_completed: now })
    } else if habit.frequency == w {
        Some(ProgressUpdate { completion_count: next, completed: next >= WEEKLY_TARGET, last_completed: now })
    } else if habit.frequency == m {
        Some(ProgressUpdate { completion_count: next, completed: next >= MONTHLY_TARGET, last_completed: now })
    } else {
        None
    };
    CompletionPlan::Record { completed_at: now, progress }
}

} // verus!
