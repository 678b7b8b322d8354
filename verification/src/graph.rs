//! The task graph synthesizer: the number of tasks of a workflow, resolved
//! from its identifier, and edges that always lead from a lower task index
//! to a higher one.

use crate::instant::instant_supported;
use crate::models::{DAGGraph, Edge, Task};
use crate::random::{chance, draw_index};
use crate::status::{generate_task, task_id, task_id_names_one_index, task_id_text, task_valid};
use crate::text::{char_code, decimal_value, is_decimal_digit, text_eq, to_chars};
use rand::rngs::StdRng;
use vstd::prelude::*;

verus! {

/// The least number of tasks of any graph.
pub const MIN_TASKS: usize = 5;

/// The greatest number of tasks of any graph.
pub const MAX_TASKS: usize = 1000;

/// The number of tasks of a workflow whose identifier resolves to no size is
/// drawn from `MIN_TASKS..DEFAULT_TASKS_END`.
pub const DEFAULT_TASKS_END: usize = 20;

/// The greatest number of tasks for which edges are drawn task by task; a
/// larger graph gets a chain with block joins, fan-outs and cross-links.
pub const SMALL_GRAPH_MAX: usize = 50;

/// The size of a named test workflow, if the identifier is one.
pub open spec fn special_size(id: Seq<char>) -> Option<nat> {
    if id == "tiny_dag_5"@ {
        Some(5)
    } else if id == "small_dag_20"@ {
        Some(20)
    } else if id == "medium_dag_100"@ {
        Some(100)
    } else if id == "large_dag_500"@ {
        Some(500)
    } else if id == "huge_dag_1000"@ {
        Some(1000)
    } else {
        None
    }
}

/// The position of the first decimal digit at or after `i`, or the length
/// of the text if there is none.
pub open spec fn first_digit_from(id: Seq<char>, i: int) -> int
    decreases id.len() - i,
{
    if i < 0 || i >= id.len() {
        id.len() as int
    } else if is_decimal_digit(id[i]) {
        i
    } else {
        first_digit_from(id, i + 1)
    }
}

/// The position of the first character at or after `i` that is no decimal
/// digit, or the length of the text if there is none.
pub open spec fn digit_run_end(id: Seq<char>, i: int) -> int
    decreases id.len() - i,
{
    if i < 0 || i >= id.len() {
        id.len() as int
    } else if !is_decimal_digit(id[i]) {
        i
    } else {
        digit_run_end(id, i + 1)
    }
}

/// The first run of decimal digits in a text, if it holds a digit.
pub open spec fn first_digit_run(id: Seq<char>) -> Option<Seq<char>> {
    let start = first_digit_from(id, 0);
    if start >= id.len() {
        None
    } else {
        Some(id.subrange(start, digit_run_end(id, start)))
    }
}

/// A number brought into `MIN_TASKS..=MAX_TASKS`.
pub open spec fn clamp_size(v: nat) -> nat {
    if v < MIN_TASKS {
        MIN_TASKS as nat
    } else if v > MAX_TASKS {
        MAX_TASKS as nat
    } else {
        v
    }
}

/// The number of tasks that an identifier resolves to: the size of the
/// named test workflow if it is one; else the value of its first run of
/// digits, clamped, if it has one and the value fits in a `usize`; else
/// none, and the number is drawn.
pub open spec fn resolved_size(id: Seq<char>) -> Option<nat> {
    match special_size(id) {
        Some(n) => Some(n),
        None => match first_digit_run(id) {
            Some(run) => if decimal_value(run) <= usize::MAX {
                Some(clamp_size(decimal_value(run)))
            } else {
                None
            },
            None => None,
        },
    }
}

/// Whether a graph of the workflow may have `n` tasks.
pub open spec fn task_count_allowed(id: Seq<char>, n: nat) -> bool {
    match resolved_size(id) {
        Some(size) => n == size,
        None => MIN_TASKS <= n < DEFAULT_TASKS_END,
    }
}

/// Any size that an identifier resolves to lies in `MIN_TASKS..=MAX_TASKS`.
pub proof fn resolved_sizes_are_in_range(id: Seq<char>)
    ensures
        resolved_size(id) matches Some(n) ==> MIN_TASKS <= n <= MAX_TASKS,
{
}

/// The named test workflows resolve to exactly the sizes in their names.
pub proof fn named_workflows_resolve_to_their_sizes()
    ensures
        resolved_size("tiny_dag_5"@) == Some(5nat),
        resolved_size("small_dag_20"@) == Some(20nat),
        resolved_size("medium_dag_100"@) == Some(100nat),
        resolved_size("large_dag_500"@) == Some(500nat),
        resolved_size("huge_dag_1000"@) == Some(1000nat),
{
    reveal_strlit("tiny_dag_5");
    reveal_strlit("small_dag_20");
    reveal_strlit("medium_dag_100");
    reveal_strlit("large_dag_500");
    reveal_strlit("huge_dag_1000");
}

fn is_digit(c: char) -> (r: bool)
    ensures
        r == is_decimal_digit(c),
{
    let code = char_code(c);
    48 <= code && code <= 57
}

fn special_task_count(dag_id: &str) -> (r: Option<usize>)
    ensures
        special_size(dag_id@) == match r {
            Some(n) => Some(n as nat),
            None => None,
        },
{
    if text_eq(dag_id, "tiny_dag_5") {
        Some(5)
    } else if text_eq(dag_id, "small_dag_20") {
        Some(20)
    } else if text_eq(dag_id, "medium_dag_100") {
        Some(100)
    } else if text_eq(dag_id, "large_dag_500") {
        Some(500)
    } else if text_eq(dag_id, "huge_dag_1000") {
        Some(1000)
    } else {
        None
    }
}

/// A number brought into `MIN_TASKS..=MAX_TASKS`.
pub fn clamp_task_count(v: usize) -> (r: usize)
    ensures
        r == clamp_size(v as nat),
{
    if v < MIN_TASKS {
        MIN_TASKS
    } else if v > MAX_TASKS {
        MAX_TASKS
    } else {
        v
    }
}

/// The number of tasks that a workflow identifier resolves to, if any.
pub fn resolve_task_count(dag_id: &str) -> (r: Option<usize>)
    ensures
        resolved_size(dag_id@) == match r {
            Some(n) => Some(n as nat),
            None => None,
        },
{
    let special = special_task_count(dag_id);
    if special.is_some() {
        return special;
    }
    let chars = to_chars(dag_id);
    let ghost id = dag_id@;
    let mut start: usize = 0;
    while start < chars.len() && !is_digit(chars[start])
        invariant
            start <= chars.len(),
            chars@ == id,
            first_digit_from(id, 0) == first_digit_from(id, start as int),
        decreases chars.len() - start,
    {
        start = start + 1;
    }
    if start >= chars.len() {
        return None;
    }
    let mut end: usize = start;
    let mut value: usize = 0;
    let mut overflow = false;
    assert(id.subrange(start as int, end as int) =~= Seq::<char>::empty());
    while end < chars.len() && is_digit(chars[end])
        invariant
            start <= end <= chars.len(),
            chars@ == id,
            digit_run_end(id, start as int) == digit_run_end(id, end as int),
            !overflow ==> value == decimal_value(id.subrange(start as int, end as int)),
            overflow ==> decimal_value(id.subrange(start as int, end as int)) > usize::MAX,
        decreases chars.len() - end,
    {
        let d = (char_code(chars[end]) - 48) as usize;
        proof {
            let next = id.subrange(start as int, end + 1);
            assert(next.drop_last() =~= id.subrange(start as int, end as int));
            assert(next.last() == id[end as int]);
        }
        if !overflow {
            match value.checked_mul(10) {
                Some(tens) => match tens.checked_add(d) {
                    Some(v) => {
                        value = v;
                    },
                    None => {
                        overflow = true;
                    },
                },
                None => {
                    overflow = true;
                },
            }
        }
        end = end + 1;
    }
    if overflow {
        None
    } else {
        Some(clamp_task_count(value))
    }
}

/// An edge by the indexes of its two tasks: source, then target.
pub type EdgeIndexes = (usize, usize);

/// Whether some edge of the plan leads into the task `t`.
pub open spec fn has_edge_into(plan: Seq<EdgeIndexes>, t: int) -> bool {
    exists|k: int| 0 <= k < plan.len() && (#[trigger] plan[k]).1 == t
}

/// Whether every edge of the plan leads from a lower index to a higher one
/// below `n`.
pub open spec fn points_forward(plan: Seq<EdgeIndexes>, n: int) -> bool {
    forall|k: int| 0 <= k < plan.len() ==> (#[trigger] plan[k]).0 < plan[k].1 < n
}

/// The plan after the edges into task `i` are added: one edge from `branch`
/// if it is given, else from the task before `i`; then one from `extra` if
/// it is given and that edge is not there yet.
pub open spec fn small_step(
    plan: Seq<EdgeIndexes>,
    i: usize,
    branch: Option<usize>,
    extra: Option<usize>,
) -> Seq<EdgeIndexes> {
    let primary = match branch {
        Some(b) => b,
        None => (i - 1) as usize,
    };
    let with_primary = plan.push((primary, i));
    match extra {
        Some(e) => if with_primary.contains((e, i)) {
            with_primary
        } else {
            with_primary.push((e, i))
        },
        None => with_primary,
    }
}

/// The edges of a small graph for what was drawn: `branches[k]` and
/// `extras[k]` are the draws for the task `k + 1`, and the edges into the
/// tasks are added in the order of the tasks.
pub open spec fn small_plan_from(
    branches: Seq<Option<usize>>,
    extras: Seq<Option<usize>>,
) -> Seq<EdgeIndexes>
    decreases branches.len(),
{
    if branches.len() == 0 {
        Seq::empty()
    } else {
        small_step(
            small_plan_from(branches.drop_last(), extras.drop_last()),
            branches.len() as usize,
            branches.last(),
            extras.last(),
        )
    }
}

/// Whether the draws are ones that can be made for a small graph of `n`
/// tasks: one pair for each task after the first; a branch comes from a
/// task earlier than the one before, so task 1 has none; a second edge
/// comes from such a task too and only into a task after the third.
pub open spec fn small_draws_allowed(
    n: int,
    branches: Seq<Option<usize>>,
    extras: Seq<Option<usize>>,
) -> bool {
    &&& n <= usize::MAX
    &&& branches.len() == extras.len()
    &&& branches.len() == if n >= 1 {
        n - 1
    } else {
        0
    }
    &&& forall|k: int|
        0 <= k < branches.len() ==> ((#[trigger] branches[k]) matches Some(b) ==> b < k)
    &&& forall|k: int|
        0 <= k < extras.len() ==> ((#[trigger] extras[k]) matches Some(e) ==> e < k && k >= 2)
}

/// Whether the plan is one that can be drawn for a small graph of `n`
/// tasks.
pub open spec fn small_plan_valid(plan: Seq<EdgeIndexes>, n: int) -> bool {
    exists|branches: Seq<Option<usize>>, extras: Seq<Option<usize>>|
        small_draws_allowed(n, branches, extras) && plan == #[trigger] small_plan_from(
            branches,
            extras,
        )
}

/// The edges of a small graph up to the task `upto`, exclusive. Every edge
/// points forward, no edge occurs twice, the edges are ordered by target,
/// every task but the first has an edge into it, there are at most two
/// edges for each of them, and the first edge leads from task 0 to task 1.
pub open spec fn small_plan_covers(plan: Seq<EdgeIndexes>, upto: int) -> bool {
    &&& points_forward(plan, upto)
    &&& forall|a: int, b: int| 0 <= a < b < plan.len() ==> #[trigger] plan[a] != #[trigger] plan[b]
    &&& forall|a: int, b: int|
        0 <= a <= b < plan.len() ==> (#[trigger] plan[a]).1 <= (#[trigger] plan[b]).1
    &&& forall|a: int, b: int|
        0 <= a && a + 2 <= b < plan.len() ==> (#[trigger] plan[a]).1 < (#[trigger] plan[b]).1
    &&& forall|t: int| 1 <= t < upto ==> #[trigger] has_edge_into(plan, t)
    &&& upto <= 1 ==> plan.len() == 0
    &&& upto >= 2 ==> upto - 1 <= plan.len() <= 2 * (upto - 1) && plan[0] == (0usize, 1usize)
}

/// Whether the plan holds the edge from `source` to `target`.
pub fn plan_contains(plan: &Vec<EdgeIndexes>, source: usize, target: usize) -> (r: bool)
    ensures
        r == plan@.contains((source, target)),
{
    let mut k: usize = 0;
    while k < plan.len()
        invariant
            k <= plan.len(),
            forall|j: int| 0 <= j < k ==> plan@[j] != (source, target),
        decreases plan.len() - k,
    {
        let e = plan[k];
        if e.0 == source && e.1 == target {
            return true;
        }
        k = k + 1;
    }
    false
}

/// Adds the edges into task `i` of a small graph, from what was drawn for
/// it: `branch` is the earlier task that the first edge comes from where it
/// does not come from the task before, `extra` the source of a second edge.
pub fn small_regime_step(
    plan: &mut Vec<EdgeIndexes>,
    i: usize,
    branch: Option<usize>,
    extra: Option<usize>,
)
    requires
        i >= 1,
    ensures
        final(plan)@ == small_step(old(plan)@, i, branch, extra),
{
    let primary = match branch {
        Some(b) => b,
        None => i - 1,
    };
    plan.push((primary, i));
    match extra {
        Some(e) => {
            if !plan_contains(plan, e, i) {
                plan.push((e, i));
            }
        },
        None => {},
    }
}

/// A step of a small graph keeps the plan in order: where the plan covers
/// the tasks below `i` and the drawn sources are earlier than the task
/// before `i`, the plan after the step covers the tasks up to `i`.
pub proof fn small_step_covers(
    plan: Seq<EdgeIndexes>,
    i: usize,
    branch: Option<usize>,
    extra: Option<usize>,
)
    requires
        1 <= i,
        small_plan_covers(plan, i as int),
        branch matches Some(b) ==> b + 1 < i,
        extra matches Some(e) ==> e + 1 < i,
    ensures
        small_plan_covers(small_step(plan, i, branch, extra), i + 1),
{
    let primary = match branch {
        Some(b) => b,
        None => (i - 1) as usize,
    };
    let with_primary = plan.push((primary, i));
    let after = small_step(plan, i, branch, extra);
    assert(with_primary[plan.len() as int] == (primary, i));
    assert forall|t: int| 1 <= t < i + 1 implies #[trigger] has_edge_into(after, t) by {
        if t < i {
            assert(has_edge_into(plan, t));
            let k = choose|k: int| 0 <= k < plan.len() && (#[trigger] plan[k]).1 == t;
            assert(after[k] == plan[k]);
        } else {
            assert(after[plan.len() as int] == (primary, i));
        }
    }
    assert forall|a: int, b: int| 0 <= a < b < after.len() implies #[trigger] after[a]
        != #[trigger] after[b] by {
        if b < plan.len() {
            assert(after[a] == plan[a] && after[b] == plan[b]);
        } else if a < plan.len() {
            assert(after[a] == plan[a]);
            assert(plan[a].1 < i);
            assert(after[b].1 == i);
        } else {
            assert(a == plan.len() && b == plan.len() + 1);
            assert(after[a] == with_primary[a]);
            assert(!with_primary.contains(after[b]));
        }
    }
    assert forall|a: int, b: int| 0 <= a <= b < after.len() implies (#[trigger] after[a]).1 <= (
    #[trigger] after[b]).1 by {
        if b < plan.len() {
            assert(after[a] == plan[a] && after[b] == plan[b]);
        } else if a < plan.len() {
            assert(after[a] == plan[a]);
            assert(plan[a].1 < i);
            assert(after[b].1 == i);
        } else {
            assert(after[a].1 == i && after[b].1 == i);
        }
    }
    assert forall|a: int, b: int| 0 <= a && a + 2 <= b < after.len() implies (#[trigger] after[a]).1
        < (#[trigger] after[b]).1 by {
        if b < plan.len() {
            assert(after[a] == plan[a] && after[b] == plan[b]);
        } else {
            assert(a < plan.len());
            assert(after[a] == plan[a]);
            assert(plan[a].1 < i);
            assert(after[b].1 == i);
        }
    }
    assert forall|k: int| 0 <= k < after.len() implies (#[trigger] after[k]).0 < after[k].1 < i
        + 1 by {
        if k < plan.len() {
            assert(after[k] == plan[k]);
        }
    }
    if i >= 2 {
        assert(after[0] == plan[0]);
    } else {
        assert(after[0] == (0usize, 1usize));
    }
}

/// A plan drawn for a small graph is simple and connected: every edge
/// points forward, no edge occurs twice, and every task but the first has
/// one or two edges into it.
pub proof fn small_plan_is_simple_and_connected(
    n: int,
    branches: Seq<Option<usize>>,
    extras: Seq<Option<usize>>,
)
    requires
        small_draws_allowed(n, branches, extras),
    ensures
        small_plan_covers(small_plan_from(branches, extras), branches.len() as int + 1),
    decreases branches.len(),
{
    if branches.len() > 0 {
        let k = branches.len() - 1;
        let fewer = branches.drop_last();
        let fewer_extras = extras.drop_last();
        assert forall|j: int| 0 <= j < fewer.len() implies ((#[trigger] fewer[j]) matches Some(b)
            ==> b < j) by {
            assert(fewer[j] == branches[j]);
        }
        assert forall|j: int| 0 <= j < fewer_extras.len() implies ((
        #[trigger] fewer_extras[j]) matches Some(e) ==> e < j && j >= 2) by {
            assert(fewer_extras[j] == extras[j]);
        }
        assert(small_draws_allowed(n - 1, fewer, fewer_extras));
        small_plan_is_simple_and_connected(n - 1, fewer, fewer_extras);
        assert(branches.last() == branches[k]);
        assert(extras.last() == extras[k]);
        small_step_covers(
            small_plan_from(fewer, fewer_extras),
            branches.len() as usize,
            branches.last(),
            extras.last(),
        );
    }
}

/// Draws the edges of a small graph of `n` tasks. For each task after the
/// first, in order: with probability 7 in 10, and always for task 1, an
/// edge from the task before; else an edge from an earlier task drawn
/// uniformly. For each task after the third, with probability 3 in 10, one
/// more edge from a task drawn uniformly among those earlier than the task
/// before, unless that edge is there already.
pub fn small_edge_plan(n: usize, rng: &mut StdRng) -> (plan: Vec<EdgeIndexes>)
    ensures
        small_plan_valid(plan@, n as int),
{
    let mut plan: Vec<EdgeIndexes> = Vec::new();
    let ghost mut branches: Seq<Option<usize>> = Seq::empty();
    let ghost mut extras: Seq<Option<usize>> = Seq::empty();
    if n <= 1 {
        assert(small_draws_allowed(n as int, branches, extras));
        assert(plan@ =~= small_plan_from(branches, extras));
        return plan;
    }
    let mut i: usize = 1;
    assert(plan@ =~= small_plan_from(branches, extras));
    while i < n
        invariant
            1 <= i <= n,
            small_draws_allowed(i as int, branches, extras),
            plan@ == small_plan_from(branches, extras),
        decreases n - i,
    {
        let chain = chance(rng, 7, 10);
        let branch = if chain || i == 1 {
            None
        } else {
            Some(draw_index(rng, 0, i - 1))
        };
        let extra = if i > 2 && chance(rng, 3, 10) {
            Some(draw_index(rng, 0, i - 1))
        } else {
            None
        };
        small_regime_step(&mut plan, i, branch, extra);
        proof {
            let more = branches.push(branch);
            let more_extras = extras.push(extra);
            assert(more.drop_last() =~= branches);
            assert(more_extras.drop_last() =~= extras);
            assert forall|k: int| 0 <= k < more.len() implies ((#[trigger] more[k]) matches Some(b)
                ==> b < k) by {
                if k < branches.len() {
                    assert(more[k] == branches[k]);
                }
            }
            assert forall|k: int| 0 <= k < more_extras.len() implies ((
            #[trigger] more_extras[k]) matches Some(e) ==> e < k && k >= 2) by {
                if k < extras.len() {
                    assert(more_extras[k] == extras[k]);
                }
            }
            branches = more;
            extras = more_extras;
        }
        i = i + 1;
    }
    plan
}

/// The source of the chain edge into task `i` of a large graph: ten tasks
/// back for every tenth task, else the task before.
pub open spec fn chain_source_of(i: int) -> int {
    if i % 10 == 0 {
        i - 10
    } else {
        i - 1
    }
}

/// The source of the chain edge into task `i` of a large graph.
pub fn chain_source(i: usize) -> (s: usize)
    requires
        i >= 1,
    ensures
        s == chain_source_of(i as int),
        s < i,
{
    if i % 10 == 0 {
        i - 10
    } else {
        i - 1
    }
}

/// The target `distance` tasks ahead of task `i`, if the graph has it.
pub fn forward_target(i: usize, distance: usize, n: usize) -> (t: Option<usize>)
    ensures
        t == if i + distance < n {
            Some((i + distance) as usize)
        } else {
            None
        },
{
    match i.checked_add(distance) {
        Some(t) => if t < n {
            Some(t)
        } else {
            None
        },
        None => None,
    }
}

/// The chain of a large graph of `n` tasks: one edge into every task but
/// the first, in the order of the tasks.
pub open spec fn chain_plan(n: int) -> Seq<EdgeIndexes> {
    Seq::new(
        if n >= 1 {
            (n - 1) as nat
        } else {
            0
        },
        |k: int| (chain_source_of(k + 1) as usize, (k + 1) as usize),
    )
}

/// The edges from `source` to the tasks that lie the drawn distances
/// ahead, in the order of the draws; a draw whose target the graph lacks
/// gives no edge.
pub open spec fn forward_edges(source: int, distances: Seq<usize>, n: int) -> Seq<EdgeIndexes>
    decreases distances.len(),
{
    if distances.len() == 0 {
        Seq::empty()
    } else {
        let before = forward_edges(source, distances.drop_last(), n);
        if source + distances.last() < n {
            before.push((source as usize, (source + distances.last()) as usize))
        } else {
            before
        }
    }
}

/// The fan-outs of a large graph: `draws[m]` holds the distances drawn for
/// the task `5 * (m + 1)`.
pub open spec fn fan_plan(draws: Seq<Seq<usize>>, n: int) -> Seq<EdgeIndexes>
    decreases draws.len(),
{
    if draws.len() == 0 {
        Seq::empty()
    } else {
        fan_plan(draws.drop_last(), n) + forward_edges(5 * draws.len() as int, draws.last(), n)
    }
}

/// The cross-links of a large graph: `draws[m]` is the distance drawn for
/// the task `20 * (m + 1)`.
pub open spec fn link_plan(draws: Seq<usize>, n: int) -> Seq<EdgeIndexes>
    decreases draws.len(),
{
    if draws.len() == 0 {
        Seq::empty()
    } else {
        link_plan(draws.drop_last(), n) + forward_edges(
            20 * draws.len() as int,
            seq![draws.last()],
            n,
        )
    }
}

/// Whether the draws are ones that can be made for a large graph of `n`
/// tasks: for every task whose index is a positive multiple of five, two to
/// four distances of two to ten; for every task whose index is a positive
/// multiple of twenty, one distance of fifteen to thirty.
pub open spec fn large_draws_allowed(n: int, fans: Seq<Seq<usize>>, links: Seq<usize>) -> bool {
    &&& 1 <= n <= usize::MAX
    &&& fans.len() == (n - 1) / 5
    &&& links.len() == (n - 1) / 20
    &&& forall|m: int| 0 <= m < fans.len() ==> 2 <= (#[trigger] fans[m]).len() <= 4
    &&& forall|m: int, k: int|
        0 <= m < fans.len() && 0 <= k < fans[m].len() ==> 2 <= #[trigger] fans[m][k] <= 10
    &&& forall|m: int| 0 <= m < links.len() ==> 15 <= #[trigger] links[m] <= 30
}

/// The edges of a large graph of `n` tasks for what was drawn: the chain,
/// then the fan-outs, then the cross-links.
pub open spec fn large_plan_from(n: int, fans: Seq<Seq<usize>>, links: Seq<usize>) -> Seq<
    EdgeIndexes,
> {
    chain_plan(n) + fan_plan(fans, n) + link_plan(links, n)
}

/// Whether the plan is one that can be drawn for a large graph of `n`
/// tasks.
pub open spec fn large_plan_valid(plan: Seq<EdgeIndexes>, n: int) -> bool {
    exists|fans: Seq<Seq<usize>>, links: Seq<usize>|
        large_draws_allowed(n, fans, links) && plan == #[trigger] large_plan_from(n, fans, links)
}

/// Whether the plan is one that the synthesizer can draw for `n` tasks: by
/// the rule for small graphs up to `SMALL_GRAPH_MAX` tasks, by the rule
/// for large graphs above.
pub open spec fn plan_valid(plan: Seq<EdgeIndexes>, n: int) -> bool {
    if n <= SMALL_GRAPH_MAX {
        small_plan_valid(plan, n)
    } else {
        large_plan_valid(plan, n)
    }
}

/// Every edge drawn from `source` leads from it to a later task of the
/// graph.
pub proof fn forward_edges_point_forward(source: int, distances: Seq<usize>, n: int)
    requires
        0 <= source,
        n <= usize::MAX,
        forall|k: int| 0 <= k < distances.len() ==> 1 <= #[trigger] distances[k],
    ensures
        forward_edges(source, distances, n).len() <= distances.len(),
        forall|k: int|
            0 <= k < forward_edges(source, distances, n).len() ==> (#[trigger] forward_edges(
                source,
                distances,
                n,
            )[k]).0 == source && source < forward_edges(source, distances, n)[k].1 < n,
    decreases distances.len(),
{
    if distances.len() > 0 {
        let fewer = distances.drop_last();
        assert forall|k: int| 0 <= k < fewer.len() implies 1 <= #[trigger] fewer[k] by {
            assert(fewer[k] == distances[k]);
        }
        forward_edges_point_forward(source, fewer, n);
        assert(distances.last() == distances[distances.len() - 1]);
    }
}

/// Every fan-out leads forward, and there are at most four for each source.
pub proof fn fan_plan_points_forward(draws: Seq<Seq<usize>>, n: int)
    requires
        n <= usize::MAX,
        forall|m: int| 0 <= m < draws.len() ==> (#[trigger] draws[m]).len() <= 4,
        forall|m: int, k: int|
            0 <= m < draws.len() && 0 <= k < draws[m].len() ==> 2 <= #[trigger] draws[m][k] <= 10,
    ensures
        points_forward(fan_plan(draws, n), n),
        fan_plan(draws, n).len() <= 4 * draws.len(),
    decreases draws.len(),
{
    if draws.len() > 0 {
        let fewer = draws.drop_last();
        assert forall|m: int| 0 <= m < fewer.len() implies (#[trigger] fewer[m]).len() <= 4 by {
            assert(fewer[m] == draws[m]);
        }
        assert forall|m: int, k: int| 0 <= m < fewer.len() && 0 <= k < fewer[m].len() implies 2
            <= #[trigger] fewer[m][k] <= 10 by {
            assert(fewer[m] == draws[m]);
        }
        fan_plan_points_forward(fewer, n);
        let last = draws.last();
        assert(last == draws[draws.len() - 1]);
        forward_edges_point_forward(5 * draws.len() as int, last, n);
    }
}

/// Every cross-link leads forward, and there is at most one for each
/// source.
pub proof fn link_plan_points_forward(draws: Seq<usize>, n: int)
    requires
        n <= usize::MAX,
        forall|m: int| 0 <= m < draws.len() ==> 15 <= #[trigger] draws[m] <= 30,
    ensures
        points_forward(link_plan(draws, n), n),
        link_plan(draws, n).len() <= draws.len(),
    decreases draws.len(),
{
    if draws.len() > 0 {
        let fewer = draws.drop_last();
        assert forall|m: int| 0 <= m < fewer.len() implies 15 <= #[trigger] fewer[m] <= 30 by {
            assert(fewer[m] == draws[m]);
        }
        link_plan_points_forward(fewer, n);
        assert(draws.last() == draws[draws.len() - 1]);
        forward_edges_point_forward(20 * draws.len() as int, seq![draws.last()], n);
    }
}

/// Every edge of a plan that the synthesizer can draw leads from a lower
/// index to a higher one below the number of tasks.
pub proof fn valid_plan_points_forward(plan: Seq<EdgeIndexes>, n: int)
    requires
        1 <= n <= usize::MAX,
        plan_valid(plan, n),
    ensures
        points_forward(plan, n),
{
    if n <= SMALL_GRAPH_MAX {
        let (branches, extras) = choose|branches: Seq<Option<usize>>, extras: Seq<Option<usize>>|
            small_draws_allowed(n, branches, extras) && plan == #[trigger] small_plan_from(
                branches,
                extras,
            );
        small_plan_is_simple_and_connected(n, branches, extras);
    } else {
        let (fans, links) = choose|fans: Seq<Seq<usize>>, links: Seq<usize>|
            large_draws_allowed(n, fans, links) && plan == #[trigger] large_plan_from(
                n,
                fans,
                links,
            );
        fan_plan_points_forward(fans, n);
        link_plan_points_forward(links, n);
        let chain = chain_plan(n);
        assert forall|k: int| 0 <= k < plan.len() implies (#[trigger] plan[k]).0 < plan[k].1
            < n by {
            if k < chain.len() {
                assert(plan[k] == chain[k]);
            } else if k < chain.len() + fan_plan(fans, n).len() {
                assert(plan[k] == fan_plan(fans, n)[k - chain.len()]);
            } else {
                assert(plan[k] == link_plan(links, n)[k - chain.len() - fan_plan(fans, n).len()]);
            }
        }
    }
}

/// Draws the edges of a large graph of `n` tasks: the chain; then for
/// every task whose index is a positive multiple of five, two to four
/// fan-outs, each to a task two to ten ahead, where the graph has it; then
/// for every task whose index is a positive multiple of twenty, one
/// cross-link to a task fifteen to thirty ahead, where the graph has it.
pub fn large_edge_plan(n: usize, rng: &mut StdRng) -> (plan: Vec<EdgeIndexes>)
    requires
        n >= 1,
    ensures
        large_plan_valid(plan@, n as int),
{
    let mut plan: Vec<EdgeIndexes> = Vec::new();
    let mut i: usize = 1;
    while i < n
        invariant
            1 <= i <= n,
            plan@.len() == i - 1,
            forall|k: int|
                0 <= k < plan@.len() ==> #[trigger] plan@[k] == (
                    chain_source_of(k + 1) as usize,
                    (k + 1) as usize,
                ),
        decreases n - i,
    {
        plan.push((chain_source(i), i));
        i = i + 1;
    }
    let ghost chain = chain_plan(n as int);
    assert(plan@ =~= chain);
    let ghost mut fans: Seq<Seq<usize>> = Seq::empty();
    let fan_sources = (n - 1) / 5;
    let mut m: usize = 1;
    assert(plan@ =~= chain + fan_plan(fans, n as int));
    while m <= fan_sources
        invariant
            n >= 1,
            fan_sources == (n - 1) / 5,
            1 <= m <= fan_sources + 1,
            chain == chain_plan(n as int),
            fans.len() == m - 1,
            forall|j: int| 0 <= j < fans.len() ==> 2 <= (#[trigger] fans[j]).len() <= 4,
            forall|j: int, k: int|
                0 <= j < fans.len() && 0 <= k < fans[j].len() ==> 2 <= #[trigger] fans[j][k] <= 10,
            plan@ == chain + fan_plan(fans, n as int),
        decreases fan_sources + 1 - m,
    {
        let source = m * 5;
        let branches = draw_index(rng, 2, 5);
        let ghost mut distances: Seq<usize> = Seq::empty();
        let mut b: usize = 0;
        assert(plan@ =~= chain + fan_plan(fans, n as int) + forward_edges(
            source as int,
            distances,
            n as int,
        ));
        while b < branches
            invariant
                b <= branches <= 4,
                source == 5 * m,
                distances.len() == b,
                forall|k: int| 0 <= k < distances.len() ==> 2 <= #[trigger] distances[k] <= 10,
                plan@ == chain + fan_plan(fans, n as int) + forward_edges(
                    source as int,
                    distances,
                    n as int,
                ),
            decreases branches - b,
        {
            let distance = draw_index(rng, 2, 11);
            let ghost before = distances;
            proof {
                distances = before.push(distance);
                assert(distances.drop_last() =~= before);
                assert(distances.last() == distance);
            }
            match forward_target(source, distance, n) {
                Some(target) => {
                    plan.push((source, target));
                    assert(plan@ =~= chain + fan_plan(fans, n as int) + forward_edges(
                        source as int,
                        distances,
                        n as int,
                    ));
                },
                None => {},
            }
            b = b + 1;
        }
        proof {
            let more = fans.push(distances);
            assert(more.drop_last() =~= fans);
            assert(more.last() == distances);
            assert(plan@ =~= chain + fan_plan(more, n as int));
            assert forall|j: int| 0 <= j < more.len() implies 2 <= (#[trigger] more[j]).len()
                <= 4 by {
                if j < fans.len() {
                    assert(more[j] == fans[j]);
                }
            }
            assert forall|j: int, k: int| 0 <= j < more.len() && 0 <= k < more[j].len() implies 2
                <= #[trigger] more[j][k] <= 10 by {
                if j < fans.len() {
                    assert(more[j] == fans[j]);
                }
            }
            fans = more;
        }
        m = m + 1;
    }
    let ghost mut links: Seq<usize> = Seq::empty();
    let link_sources = (n - 1) / 20;
    let mut m: usize = 1;
    assert(plan@ =~= chain + fan_plan(fans, n as int) + link_plan(links, n as int));
    while m <= link_sources
        invariant
            n >= 1,
            link_sources == (n - 1) / 20,
            1 <= m <= link_sources + 1,
            links.len() == m - 1,
            forall|j: int| 0 <= j < links.len() ==> 15 <= #[trigger] links[j] <= 30,
            plan@ == chain + fan_plan(fans, n as int) + link_plan(links, n as int),
        decreases link_sources + 1 - m,
    {
        let source = m * 20;
        let distance = draw_index(rng, 15, 31);
        let ghost more = links.push(distance);
        proof {
            reveal_with_fuel(forward_edges, 2);
            assert(more.drop_last() =~= links);
            assert(more.last() == distance);
            assert(seq![distance].drop_last() =~= Seq::<usize>::empty());
            assert(seq![distance].last() == distance);
        }
        match forward_target(source, distance, n) {
            Some(target) => {
                plan.push((source, target));
                assert(plan@ =~= chain + fan_plan(fans, n as int) + link_plan(more, n as int));
            },
            None => {
                assert(plan@ =~= chain + fan_plan(fans, n as int) + link_plan(more, n as int));
            },
        }
        proof {
            assert forall|j: int| 0 <= j < more.len() implies 15 <= #[trigger] more[j] <= 30 by {
                if j < links.len() {
                    assert(more[j] == links[j]);
                }
            }
            links = more;
        }
        m = m + 1;
    }
    assert(large_draws_allowed(n as int, fans, links));
    assert(plan@ == large_plan_from(n as int, fans, links));
    plan
}

/// Draws the edges of a graph of `n` tasks, by the rule for its size.
pub fn edge_plan(n: usize, rng: &mut StdRng) -> (plan: Vec<EdgeIndexes>)
    requires
        n >= 1,
    ensures
        plan_valid(plan@, n as int),
{
    if n <= SMALL_GRAPH_MAX {
        small_edge_plan(n, rng)
    } else {
        large_edge_plan(n, rng)
    }
}

/// Whether the edges are those of the plan, each task named by its
/// identifier.
pub open spec fn edges_follow_plan(edges: Seq<Edge>, plan: Seq<EdgeIndexes>) -> bool {
    &&& edges.len() == plan.len()
    &&& forall|k: int|
        0 <= k < edges.len() ==> (#[trigger] edges[k]).source@ == task_id_text(plan[k].0 as nat)
            && edges[k].target@ == task_id_text(plan[k].1 as nat)
}

/// The edges of a plan, each task named by its identifier.
pub fn edges_of_plan(plan: &Vec<EdgeIndexes>) -> (edges: Vec<Edge>)
    ensures
        edges_follow_plan(edges@, plan@),
{
    let mut edges: Vec<Edge> = Vec::new();
    let mut k: usize = 0;
    while k < plan.len()
        invariant
            k <= plan.len(),
            edges@.len() == k,
            forall|j: int|
                0 <= j < k ==> (#[trigger] edges@[j]).source@ == task_id_text(plan@[j].0 as nat)
                    && edges@[j].target@ == task_id_text(plan@[j].1 as nat),
        decreases plan.len() - k,
    {
        let e = plan[k];
        edges.push(Edge { source: task_id(e.0), target: task_id(e.1) });
        k = k + 1;
    }
    edges
}

/// Whether a graph is one that the synthesizer can produce for the
/// workflow `dag_id` at the instant `now`.
pub open spec fn graph_valid(g: DAGGraph, dag_id: Seq<char>, now: i64) -> bool {
    &&& g.dag_id@ == dag_id
    &&& task_count_allowed(dag_id, g.tasks@.len())
    &&& forall|i: int|
        0 <= i < g.tasks@.len() ==> task_valid(#[trigger] g.tasks@[i], dag_id, i as nat, now)
    &&& exists|plan: Seq<EdgeIndexes>|
        edges_follow_plan(g.edges@, plan) && plan_valid(plan, g.tasks@.len() as int)
}

/// Whether the edge leads from the task with index `s` to the task with
/// index `t` of the graph.
pub open spec fn edge_joins(g: DAGGraph, e: Edge, s: int, t: int) -> bool {
    &&& 0 <= s < t < g.tasks@.len()
    &&& e.source@ == g.tasks@[s].id@
    &&& e.target@ == g.tasks@[t].id@
}

/// Whether the edge leads from a task of the graph to a task of the graph
/// with a higher index.
pub open spec fn edge_leads_forward(g: DAGGraph, e: Edge) -> bool {
    exists|s: int, t: int| #[trigger] edge_joins(g, e, s, t)
}

/// Every edge of a synthesized graph leads from an existing task to an
/// existing task of higher index, so the graph has no cycle; and no edge
/// leads into the first task.
pub proof fn synthesized_graph_is_acyclic(g: DAGGraph, dag_id: Seq<char>, now: i64)
    requires
        graph_valid(g, dag_id, now),
    ensures
        forall|k: int| 0 <= k < g.edges@.len() ==> edge_leads_forward(g, #[trigger] g.edges@[k]),
        g.tasks@.len() > 0 ==> forall|k: int|
            0 <= k < g.edges@.len() ==> (#[trigger] g.edges@[k]).target@ != g.tasks@[0].id@,
{
    let plan = choose|plan: Seq<EdgeIndexes>|
        edges_follow_plan(g.edges@, plan) && plan_valid(plan, g.tasks@.len() as int);
    resolved_sizes_are_in_range(dag_id);
    valid_plan_points_forward(plan, g.tasks@.len() as int);
    assert forall|k: int| 0 <= k < g.edges@.len() implies edge_leads_forward(
        g,
        #[trigger] g.edges@[k],
    ) by {
        let s = plan[k].0 as int;
        let t = plan[k].1 as int;
        assert(task_valid(g.tasks@[s], dag_id, s as nat, now));
        assert(task_valid(g.tasks@[t], dag_id, t as nat, now));
        assert(edge_joins(g, g.edges@[k], s, t));
    }
    if g.tasks@.len() > 0 {
        assert forall|k: int| 0 <= k < g.edges@.len() implies (#[trigger] g.edges@[k]).target@
            != g.tasks@[0].id@ by {
            assert(task_valid(g.tasks@[0], dag_id, 0nat, now));
            if g.edges@[k].target@ == g.tasks@[0].id@ {
                task_id_names_one_index(plan[k].1 as nat, 0);
            }
        }
    }
}

/// A synthesized graph has the number of tasks that its identifier
/// resolves to, and in any case at least `MIN_TASKS` and at most
/// `MAX_TASKS`; so the graphs of `tiny_dag_5` and `huge_dag_1000` always
/// have 5 and 1000 tasks.
pub proof fn synthesized_graph_has_the_resolved_size(g: DAGGraph, dag_id: Seq<char>, now: i64)
    requires
        graph_valid(g, dag_id, now),
    ensures
        resolved_size(dag_id) matches Some(n) ==> g.tasks@.len() == n,
        MIN_TASKS <= g.tasks@.len() <= MAX_TASKS,
        dag_id == "tiny_dag_5"@ ==> g.tasks@.len() == 5,
        dag_id == "huge_dag_1000"@ ==> g.tasks@.len() == 1000,
{
    resolved_sizes_are_in_range(dag_id);
    named_workflows_resolve_to_their_sizes();
}

/// Draws the tasks with the indexes `0..n` of a workflow.
pub fn generate_tasks(dag_id: &str, n: usize, rng: &mut StdRng, now: i64) -> (tasks: Vec<Task>)
    requires
        instant_supported(now),
    ensures
        tasks@.len() == n,
        forall|i: int| 0 <= i < n ==> task_valid(#[trigger] tasks@[i], dag_id@, i as nat, now),
{
    let mut tasks: Vec<Task> = Vec::new();
    let mut i: usize = 0;
    while i < n
        invariant
            i <= n,
            instant_supported(now),
            tasks@.len() == i,
            forall|j: int| 0 <= j < i ==> task_valid(#[trigger] tasks@[j], dag_id@, j as nat, now),
        decreases n - i,
    {
        let task = generate_task(dag_id, i, rng, now);
        tasks.push(task);
        i = i + 1;
    }
    tasks
}

/// The graph of a workflow with `n` tasks: the tasks drawn one by one, then
/// the edges.
pub fn generate_graph_of_size(dag_id: String, n: usize, rng: &mut StdRng, now: i64) -> (g:
    DAGGraph)
    requires
        instant_supported(now),
        n >= 1,
    ensures
        g.dag_id@ == dag_id@,
        g.tasks@.len() == n,
        forall|i: int| 0 <= i < n ==> task_valid(#[trigger] g.tasks@[i], dag_id@, i as nat, now),
        exists|plan: Seq<EdgeIndexes>|
            edges_follow_plan(g.edges@, plan) && plan_valid(plan, n as int),
{
    let tasks = generate_tasks(dag_id.as_str(), n, rng, now);
    let plan = edge_plan(n, rng);
    let edges = edges_of_plan(&plan);
    assert(edges_follow_plan(edges@, plan@) && plan_valid(plan@, n as int));
    DAGGraph { dag_id, tasks, edges }
}

/// Synthesizes the task graph of a workflow. The number of tasks is the
/// size that the identifier resolves to, or is drawn from
/// `MIN_TASKS..DEFAULT_TASKS_END` where it resolves to none.
pub fn generate_sample_dag_graph(dag_id: String, rng: &mut StdRng, now: i64) -> (g: DAGGraph)
    requires
        instant_supported(now),
    ensures
        graph_valid(g, dag_id@, now),
{
    let resolved = resolve_task_count(dag_id.as_str());
    proof {
        resolved_sizes_are_in_range(dag_id@);
    }
    let n = match resolved {
        Some(n) => n,
        None => draw_index(rng, MIN_TASKS, DEFAULT_TASKS_END),
    };
    generate_graph_of_size(dag_id, n, rng, now)
}

} // verus!
