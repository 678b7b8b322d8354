//! The status and timing model of a task: a status drawn from a fixed
//! weighted table, and time fields that agree with the status.

use crate::instant::{instant_supported, MINUTE_MS};
use crate::models::{Task, TaskStatus};
use crate::random::{draw_index, uniform_below};
use crate::text::{decimal_text, lemma_decimal_text_injective, push_decimal};
use rand::rngs::StdRng;
use vstd::prelude::*;
use vstd::string::StringExecFns;

verus! {

/// The number of rolls of the status table: rolls are drawn from `0..100`.
pub const STATUS_ROLLS: u64 = 100;

/// The number of retries that every task is allowed.
pub const MAX_RETRIES: usize = 3;

/// The number of operator kinds.
pub const OPERATOR_COUNT: usize = 10;

/// The weight of a status in the table, in rolls out of a hundred.
pub open spec fn status_weight(s: TaskStatus) -> nat {
    match s {
        TaskStatus::PENDING => 10,
        TaskStatus::SUCCEEDED => 50,
        TaskStatus::QUEUED => 10,
        TaskStatus::RUNNING => 15,
        TaskStatus::FAILED => 10,
        TaskStatus::SKIPPED => 3,
        TaskStatus::PAUSED => 2,
    }
}

/// The first roll that gives a status. The rolls of a status are
/// consecutive, in the order PENDING, SUCCEEDED, QUEUED, RUNNING, FAILED,
/// SKIPPED, PAUSED.
pub open spec fn status_first_roll(s: TaskStatus) -> int {
    match s {
        TaskStatus::PENDING => 0,
        TaskStatus::SUCCEEDED => 10,
        TaskStatus::QUEUED => 60,
        TaskStatus::RUNNING => 70,
        TaskStatus::FAILED => 85,
        TaskStatus::SKIPPED => 95,
        TaskStatus::PAUSED => 98,
    }
}

/// The status that a roll gives.
pub open spec fn status_of_roll(roll: int) -> TaskStatus {
    if roll < 10 {
        TaskStatus::PENDING
    } else if roll < 60 {
        TaskStatus::SUCCEEDED
    } else if roll < 70 {
        TaskStatus::QUEUED
    } else if roll < 85 {
        TaskStatus::RUNNING
    } else if roll < 95 {
        TaskStatus::FAILED
    } else if roll < 98 {
        TaskStatus::SKIPPED
    } else {
        TaskStatus::PAUSED
    }
}

/// The rolls in `0..100` that give a status.
pub open spec fn rolls_of_status(s: TaskStatus) -> Set<int> {
    Set::new(|roll: int| 0 <= roll < STATUS_ROLLS && status_of_roll(roll) == s)
}

/// The status that a roll gives.
pub fn status_for_roll(roll: u64) -> (s: TaskStatus)
    ensures
        s == status_of_roll(roll as int),
{
    if roll < 10 {
        TaskStatus::PENDING
    } else if roll < 60 {
        TaskStatus::SUCCEEDED
    } else if roll < 70 {
        TaskStatus::QUEUED
    } else if roll < 85 {
        TaskStatus::RUNNING
    } else if roll < 95 {
        TaskStatus::FAILED
    } else if roll < 98 {
        TaskStatus::SKIPPED
    } else {
        TaskStatus::PAUSED
    }
}

/// The weights of the seven statuses sum to a hundred.
pub proof fn status_weights_sum_to_hundred()
    ensures
        status_weight(TaskStatus::PENDING) + status_weight(TaskStatus::SUCCEEDED) + status_weight(
            TaskStatus::QUEUED,
        ) + status_weight(TaskStatus::RUNNING) + status_weight(TaskStatus::FAILED) + status_weight(
            TaskStatus::SKIPPED,
        ) + status_weight(TaskStatus::PAUSED) == STATUS_ROLLS,
{
}

/// Of the hundred equally likely rolls, exactly as many give a status as its
/// weight says, so a uniform roll draws each status with the probability of
/// the table.
pub proof fn status_rolls_match_weights(s: TaskStatus)
    ensures
        rolls_of_status(s).finite(),
        rolls_of_status(s).len() == status_weight(s),
        forall|roll: int|
            0 <= roll < STATUS_ROLLS ==> (status_of_roll(roll) == s <==> status_first_roll(s)
                <= roll < status_first_roll(s) + status_weight(s)),
{
    let low = status_first_roll(s);
    let high = low + status_weight(s);
    vstd::set_lib::lemma_int_range(low, high);
    assert(rolls_of_status(s) =~= vstd::set_lib::set_int_range(low, high));
}

/// The time fields of a task.
#[derive(Debug, Clone, Copy, PartialEq, Eq, Structural)]
pub struct TaskTiming {
    pub start_time: Option<i64>,
    pub end_time: Option<i64>,
    pub duration: Option<u64>,
}

impl TaskStatus {
    /// Whether a task of this status has run to its end.
    pub open spec fn is_finished(self) -> bool {
        self == TaskStatus::SUCCEEDED || self == TaskStatus::FAILED
    }
}

/// Whether time fields agree with a status: a finished task has a start, an
/// end not before the start and the duration between them; a running task
/// has only a start; any other task has none of the three.
pub open spec fn timing_consistent(status: TaskStatus, timing: TaskTiming) -> bool {
    if status.is_finished() {
        &&& timing.start_time matches Some(start)
        &&& timing.end_time matches Some(end)
        &&& timing.duration matches Some(duration)
        &&& start <= end
        &&& end - start == duration
    } else if status == TaskStatus::RUNNING {
        &&& timing.start_time is Some
        &&& timing.end_time is None
        &&& timing.duration is None
    } else {
        &&& timing.start_time is None
        &&& timing.end_time is None
        &&& timing.duration is None
    }
}

/// The time fields of a task of the given status that started
/// `minutes_ago` minutes before `now` and, if finished, ran for
/// `duration_ms` milliseconds.
pub open spec fn timing_of(
    status: TaskStatus,
    now: i64,
    minutes_ago: u64,
    duration_ms: u64,
) -> TaskTiming {
    let start = (now - minutes_ago * MINUTE_MS) as i64;
    if status.is_finished() {
        TaskTiming {
            start_time: Some(start),
            end_time: Some((start + duration_ms) as i64),
            duration: Some(duration_ms),
        }
    } else if status == TaskStatus::RUNNING {
        TaskTiming { start_time: Some(start), end_time: None, duration: None }
    } else {
        TaskTiming { start_time: None, end_time: None, duration: None }
    }
}

/// Whether time fields are ones that the model can draw at `now`: a
/// finished task started 30 to 119 minutes ago and ran for 30 seconds or
/// more and less than 600; a running task started 5 to 29 minutes ago.
pub open spec fn timing_drawn_at(status: TaskStatus, now: i64, timing: TaskTiming) -> bool {
    if status.is_finished() {
        exists|minutes_ago: u64, duration_ms: u64|
            30 <= minutes_ago < 120 && 30_000 <= duration_ms < 600_000 && timing
                == #[trigger] timing_of(status, now, minutes_ago, duration_ms)
    } else if status == TaskStatus::RUNNING {
        exists|minutes_ago: u64|
            5 <= minutes_ago < 30 && timing == #[trigger] timing_of(status, now, minutes_ago, 0)
    } else {
        timing == timing_of(status, now, 0, 0)
    }
}

/// The time fields of a task, from its status and the two draws.
pub fn task_timing(status: TaskStatus, now: i64, minutes_ago: u64, duration_ms: u64) -> (t:
    TaskTiming)
    requires
        i64::MIN <= now - minutes_ago * MINUTE_MS,
        now - minutes_ago * MINUTE_MS + duration_ms <= i64::MAX,
    ensures
        t == timing_of(status, now, minutes_ago, duration_ms),
        timing_consistent(status, t),
{
    match status {
        TaskStatus::SUCCEEDED | TaskStatus::FAILED => {
            let start = now as i128 - (minutes_ago as i128) * (MINUTE_MS as i128);
            let end = start + duration_ms as i128;
            TaskTiming {
                start_time: Some(start as i64),
                end_time: Some(end as i64),
                duration: Some(duration_ms),
            }
        },
        TaskStatus::RUNNING => {
            let start = now as i128 - (minutes_ago as i128) * (MINUTE_MS as i128);
            TaskTiming { start_time: Some(start as i64), end_time: None, duration: None }
        },
        _ => TaskTiming { start_time: None, end_time: None, duration: None },
    }
}

/// Time fields that the model can draw at an instant agree with the status.
pub proof fn drawn_timing_is_consistent(status: TaskStatus, now: i64, timing: TaskTiming)
    requires
        instant_supported(now),
        timing_drawn_at(status, now, timing),
    ensures
        timing_consistent(status, timing),
{
}

/// Draws the time fields of a task of the given status.
pub fn draw_timing(status: TaskStatus, rng: &mut StdRng, now: i64) -> (t: TaskTiming)
    requires
        instant_supported(now),
    ensures
        timing_drawn_at(status, now, t),
        timing_consistent(status, t),
{
    match status {
        TaskStatus::SUCCEEDED | TaskStatus::FAILED => {
            let minutes_ago = uniform_below(rng, 30, 120);
            let duration_ms = uniform_below(rng, 30_000, 600_000);
            task_timing(status, now, minutes_ago, duration_ms)
        },
        TaskStatus::RUNNING => {
            let minutes_ago = uniform_below(rng, 5, 30);
            task_timing(status, now, minutes_ago, 0)
        },
        _ => task_timing(status, now, 0, 0),
    }
}

/// The name of an operator kind.
pub open spec fn operator_text(k: int) -> Seq<char> {
    if k == 0 {
        "PythonOperator"@
    } else if k == 1 {
        "BashOperator"@
    } else if k == 2 {
        "PostgresOperator"@
    } else if k == 3 {
        "MySqlOperator"@
    } else if k == 4 {
        "HttpSensor"@
    } else if k == 5 {
        "S3KeySensor"@
    } else if k == 6 {
        "EmailOperator"@
    } else if k == 7 {
        "SlackOperator"@
    } else if k == 8 {
        "SparkSubmitOperator"@
    } else {
        "DockerOperator"@
    }
}

/// The label of an operator kind in task names: its name without the word
/// `Operator`.
pub open spec fn operator_label_text(k: int) -> Seq<char> {
    if k == 0 {
        "Python"@
    } else if k == 1 {
        "Bash"@
    } else if k == 2 {
        "Postgres"@
    } else if k == 3 {
        "MySql"@
    } else if k == 4 {
        "HttpSensor"@
    } else if k == 5 {
        "S3KeySensor"@
    } else if k == 6 {
        "Email"@
    } else if k == 7 {
        "Slack"@
    } else if k == 8 {
        "SparkSubmit"@
    } else {
        "Docker"@
    }
}

/// The name of the operator kind with the given index.
pub fn operator_name(k: usize) -> (name: &'static str)
    ensures
        name@ == operator_text(k as int),
{
    if k == 0 {
        "PythonOperator"
    } else if k == 1 {
        "BashOperator"
    } else if k == 2 {
        "PostgresOperator"
    } else if k == 3 {
        "MySqlOperator"
    } else if k == 4 {
        "HttpSensor"
    } else if k == 5 {
        "S3KeySensor"
    } else if k == 6 {
        "EmailOperator"
    } else if k == 7 {
        "SlackOperator"
    } else if k == 8 {
        "SparkSubmitOperator"
    } else {
        "DockerOperator"
    }
}

/// The label of the operator kind with the given index.
pub fn operator_label(k: usize) -> (label: &'static str)
    ensures
        label@ == operator_label_text(k as int),
{
    if k == 0 {
        "Python"
    } else if k == 1 {
        "Bash"
    } else if k == 2 {
        "Postgres"
    } else if k == 3 {
        "MySql"
    } else if k == 4 {
        "HttpSensor"
    } else if k == 5 {
        "S3KeySensor"
    } else if k == 6 {
        "Email"
    } else if k == 7 {
        "Slack"
    } else if k == 8 {
        "SparkSubmit"
    } else {
        "Docker"
    }
}

/// An operator's name is its label, followed by the word `Operator` for all
/// kinds but the two sensors.
pub proof fn operator_label_is_name_without_suffix(k: int)
    requires
        0 <= k < OPERATOR_COUNT,
    ensures
        k == 4 || k == 5 ==> operator_text(k) == operator_label_text(k),
        k != 4 && k != 5 ==> operator_text(k) == operator_label_text(k) + "Operator"@,
{
    reveal_strlit("Operator");
    reveal_strlit("PythonOperator");
    reveal_strlit("Python");
    reveal_strlit("BashOperator");
    reveal_strlit("Bash");
    reveal_strlit("PostgresOperator");
    reveal_strlit("Postgres");
    reveal_strlit("MySqlOperator");
    reveal_strlit("MySql");
    reveal_strlit("EmailOperator");
    reveal_strlit("Email");
    reveal_strlit("SlackOperator");
    reveal_strlit("Slack");
    reveal_strlit("SparkSubmitOperator");
    reveal_strlit("SparkSubmit");
    reveal_strlit("DockerOperator");
    reveal_strlit("Docker");
    if k != 4 && k != 5 {
        assert(operator_text(k) =~= operator_label_text(k) + "Operator"@);
    }
}

/// The identifier of the task with index `i`: `task_` and the index.
pub open spec fn task_id_text(i: nat) -> Seq<char> {
    "task_"@ + decimal_text(i)
}

/// The display name of the task with index `i` of a workflow: `task_`, the
/// workflow identifier, the operator label and the index, joined by `_`.
pub open spec fn task_name_text(dag_id: Seq<char>, k: int, i: nat) -> Seq<char> {
    "task_"@ + dag_id + "_"@ + operator_label_text(k) + "_"@ + decimal_text(i)
}

/// Tasks with different indexes have different identifiers, so an
/// identifier names one index.
pub proof fn task_id_names_one_index(i: nat, j: nat)
    requires
        task_id_text(i) == task_id_text(j),
    ensures
        i == j,
{
    let p = "task_"@.len() as int;
    let a = task_id_text(i);
    let b = task_id_text(j);
    assert(decimal_text(i) =~= a.subrange(p, a.len() as int));
    assert(decimal_text(j) =~= b.subrange(p, b.len() as int));
    lemma_decimal_text_injective(i, j);
}

/// The identifier of the task with index `i`.
pub fn task_id(i: usize) -> (s: String)
    ensures
        s@ == task_id_text(i as nat),
{
    let mut s = "task_".to_owned();
    push_decimal(&mut s, i);
    s
}

/// The display name of the task with index `i`.
pub fn task_name(dag_id: &str, k: usize, i: usize) -> (s: String)
    ensures
        s@ == task_name_text(dag_id@, k as int, i as nat),
{
    let mut s = "task_".to_owned();
    s.append(dag_id);
    s.append("_");
    s.append(operator_label(k));
    s.append("_");
    push_decimal(&mut s, i);
    s
}

/// Whether a task is one that the model can produce for index `i` of the
/// workflow `dag_id` at the instant `now`.
pub open spec fn task_valid(t: Task, dag_id: Seq<char>, i: nat, now: i64) -> bool {
    let timing = TaskTiming {
        start_time: t.start_time,
        end_time: t.end_time,
        duration: t.duration,
    };
    &&& t.id@ == task_id_text(i)
    &&& exists|k: int|
        0 <= k < OPERATOR_COUNT && t.operator@ == #[trigger] operator_text(k) && t.name@
            == task_name_text(dag_id, k, i)
    &&& timing_drawn_at(t.status, now, timing)
    &&& timing_consistent(t.status, timing)
    &&& t.max_retries == MAX_RETRIES
    &&& t.retries < MAX_RETRIES
    &&& t.status != TaskStatus::FAILED ==> t.retries == 0
}

/// The task with index `i`, from its status, time fields, operator kind and
/// retry count.
pub fn make_task(
    dag_id: &str,
    i: usize,
    status: TaskStatus,
    timing: TaskTiming,
    k: usize,
    retries: usize,
) -> (t: Task)
    ensures
        t.id@ == task_id_text(i as nat),
        t.name@ == task_name_text(dag_id@, k as int, i as nat),
        t.operator@ == operator_text(k as int),
        t.status == status,
        t.start_time == timing.start_time,
        t.end_time == timing.end_time,
        t.duration == timing.duration,
        t.retries == retries,
        t.max_retries == MAX_RETRIES,
{
    Task {
        id: task_id(i),
        name: task_name(dag_id, k, i),
        status,
        duration: timing.duration,
        start_time: timing.start_time,
        end_time: timing.end_time,
        operator: operator_name(k).to_owned(),
        retries,
        max_retries: MAX_RETRIES,
    }
}

/// Draws the task with index `i` of a workflow: the status from the
/// weighted table, time fields for that status, an operator kind, and a
/// retry count below the maximum for a failed task.
pub fn generate_task(dag_id: &str, i: usize, rng: &mut StdRng, now: i64) -> (t: Task)
    requires
        instant_supported(now),
    ensures
        task_valid(t, dag_id@, i as nat, now),
{
    let roll = uniform_below(rng, 0, STATUS_ROLLS);
    let status = status_for_roll(roll);
    let timing = draw_timing(status, rng, now);
    let k = draw_index(rng, 0, OPERATOR_COUNT);
    let retries = if status == TaskStatus::FAILED {
        draw_index(rng, 0, MAX_RETRIES)
    } else {
        0
    };
    let t = make_task(dag_id, i, status, timing, k, retries);
    assert(t.operator@ == operator_text(k as int));
    t
}

} // verus!
