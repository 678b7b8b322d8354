//! What the dashboard's pages decide without the service: how an input
//! changes the catalog query, the request that a query makes, which page a
//! path asks for, how a workflow's state and a graph are shown, and the
//! status that an action on a task asks for.

use crate::models::{DAGsQuery, TaskStatus, DAG};
use crate::text::{
    chars_occur_at, contains_text, decimal_text, occurs_at, push_decimal, text_contains, text_eq,
    to_chars,
};
use vstd::prelude::*;
use vstd::string::StringExecFns;

verus! {

/// The number of records a page that the catalog page starts with.
pub const INITIAL_LIMIT: usize = 10;

/// The direction of a sort.
#[derive(Debug, Clone, Copy, PartialEq, Eq, Structural)]
pub enum SortDirection {
    Ascending,
    Descending,
}

impl SortDirection {
    /// The keyword of the direction in a query.
    pub open spec fn keyword_text(self) -> Seq<char> {
        match self {
            SortDirection::Ascending => "asc"@,
            SortDirection::Descending => "desc"@,
        }
    }

    /// The keyword of the direction in a query.
    pub fn keyword(&self) -> (k: &'static str)
        ensures
            k@ == self.keyword_text(),
    {
        match self {
            SortDirection::Ascending => "asc",
            SortDirection::Descending => "desc",
        }
    }
}

/// The text of an input field as a filter: none where the field is empty.
pub fn filter_of_input(value: String) -> (r: Option<String>)
    ensures
        r == if value@.len() == 0 {
            None
        } else {
            Some(value)
        },
{
    if value.as_str().is_empty() {
        None
    } else {
        Some(value)
    }
}

/// The query with which the catalog page starts: the first page of ten
/// records, sorted by identifier, ascending, with no filter.
pub fn initial_query() -> (q: DAGsQuery)
    ensures
        q.page == Some(1usize),
        q.limit == Some(INITIAL_LIMIT),
        q.search is None,
        q.status is None,
        q.tags is None,
        q.sort_by matches Some(field) && field@ == "dag_id"@,
        q.sort_order matches Some(order) && order@ == "asc"@,
        q.well_formed(),
{
    DAGsQuery {
        page: Some(1),
        limit: Some(INITIAL_LIMIT),
        search: None,
        status: None,
        tags: None,
        sort_by: Some("dag_id".to_owned()),
        sort_order: Some("asc".to_owned()),
    }
}

/// The query after the search field changed to `value`: an empty field
/// takes the search filter away.
pub fn with_search(query: DAGsQuery, value: String) -> (q: DAGsQuery)
    ensures
        q == (DAGsQuery {
            search: if value@.len() == 0 {
                None
            } else {
                Some(value)
            },
            ..query
        }),
{
    let mut q = query;
    q.search = filter_of_input(value);
    q
}

/// The query after the status choice changed to `value`: the choice `all`
/// takes the status filter away.
pub fn with_status(query: DAGsQuery, value: String) -> (q: DAGsQuery)
    ensures
        q == (DAGsQuery {
            status: if value@ == "all"@ {
                None
            } else {
                Some(value)
            },
            ..query
        }),
{
    let mut q = query;
    if text_eq(value.as_str(), "all") {
        q.status = None;
    } else {
        q.status = Some(value);
    }
    q
}

/// The query after the tags field changed to `value`: an empty field takes
/// the tag filter away.
pub fn with_tags(query: DAGsQuery, value: String) -> (q: DAGsQuery)
    ensures
        q == (DAGsQuery {
            tags: if value@.len() == 0 {
                None
            } else {
                Some(value)
            },
            ..query
        }),
{
    let mut q = query;
    q.tags = filter_of_input(value);
    q
}

/// The query after the number of records a page changed: the new limit,
/// back on the first page.
pub fn with_limit(query: DAGsQuery, limit: usize) -> (q: DAGsQuery)
    ensures
        q == (DAGsQuery { limit: Some(limit), page: Some(1usize), ..query }),
{
    let mut q = query;
    q.limit = Some(limit);
    q.page = Some(1);
    q
}

/// The query after the table turned to the page `page`.
pub fn with_page(query: DAGsQuery, page: usize) -> (q: DAGsQuery)
    ensures
        q == (DAGsQuery { page: Some(page), ..query }),
{
    let mut q = query;
    q.page = Some(page);
    q
}

/// The query after a column was chosen to sort by.
pub fn with_sort(query: DAGsQuery, field: String, direction: SortDirection) -> (q: DAGsQuery)
    ensures
        q.sort_by == Some(field),
        q.sort_order matches Some(order) && order@ == direction.keyword_text(),
        q.page == query.page,
        q.limit == query.limit,
        q.search == query.search,
        q.status == query.status,
        q.tags == query.tags,
{
    let mut q = query;
    q.sort_by = Some(field);
    q.sort_order = Some(direction.keyword().to_owned());
    q
}

/// The status that an action on a task asks for: `force-success` asks for
/// SUCCEEDED, `retry` and `play` for RUNNING, `skip` for SKIPPED, `pause`
/// for PAUSED, and any other action for none.
pub open spec fn action_status(action: Seq<char>) -> Option<TaskStatus> {
    if action == "force-success"@ {
        Some(TaskStatus::SUCCEEDED)
    } else if action == "retry"@ || action == "play"@ {
        Some(TaskStatus::RUNNING)
    } else if action == "skip"@ {
        Some(TaskStatus::SKIPPED)
    } else if action == "pause"@ {
        Some(TaskStatus::PAUSED)
    } else {
        None
    }
}

/// The status that an action on a task asks for.
pub fn task_action_status(action: &str) -> (r: Option<TaskStatus>)
    ensures
        r == action_status(action@),
{
    if text_eq(action, "force-success") {
        Some(TaskStatus::SUCCEEDED)
    } else if text_eq(action, "retry") || text_eq(action, "play") {
        Some(TaskStatus::RUNNING)
    } else if text_eq(action, "skip") {
        Some(TaskStatus::SKIPPED)
    } else if text_eq(action, "pause") {
        Some(TaskStatus::PAUSED)
    } else {
        None
    }
}

/// The actions that the menu of a task offers, by the status of the task:
/// always `view`; for a failed task also `force-success` and `retry`, for a
/// pending or queued task `skip`, for a running task `pause`, and for a
/// paused task `play`.
pub open spec fn offered_actions_of(status: TaskStatus) -> Seq<Seq<char>> {
    match status {
        TaskStatus::FAILED => seq!["view"@, "force-success"@, "retry"@],
        TaskStatus::PENDING | TaskStatus::QUEUED => seq!["view"@, "skip"@],
        TaskStatus::RUNNING => seq!["view"@, "pause"@],
        TaskStatus::PAUSED => seq!["view"@, "play"@],
        _ => seq!["view"@],
    }
}

/// The views of string slices.
pub open spec fn slice_views(parts: Seq<&'static str>) -> Seq<Seq<char>> {
    parts.map_values(|s: &'static str| s@)
}

/// The actions that the menu of a task offers.
pub fn offered_actions(status: TaskStatus) -> (actions: Vec<&'static str>)
    ensures
        slice_views(actions@) == offered_actions_of(status),
{
    let mut actions: Vec<&'static str> = Vec::new();
    actions.push("view");
    match status {
        TaskStatus::FAILED => {
            actions.push("force-success");
            actions.push("retry");
        },
        TaskStatus::PENDING | TaskStatus::QUEUED => {
            actions.push("skip");
        },
        TaskStatus::RUNNING => {
            actions.push("pause");
        },
        TaskStatus::PAUSED => {
            actions.push("play");
        },
        _ => {},
    }
    assert(slice_views(actions@) =~= offered_actions_of(status));
    actions
}

/// Every action that a menu offers, but for `view`, asks for a status
/// other than the one that the task has.
pub proof fn offered_actions_change_the_status(status: TaskStatus, k: int)
    requires
        1 <= k < offered_actions_of(status).len(),
    ensures
        action_status(offered_actions_of(status)[k]) matches Some(asked) && asked != status,
{
    reveal_strlit("view");
    reveal_strlit("force-success");
    reveal_strlit("retry");
    reveal_strlit("play");
    reveal_strlit("skip");
    reveal_strlit("pause");
    assert("skip"@[0] != "play"@[0]);
    assert("retry"@[0] != "pause"@[0]);
    assert("retry"@.len() == 5 && "pause"@.len() == 5 && "skip"@.len() == 4 && "play"@.len() == 4);
    assert("force-success"@.len() == 13);
}

/// The class that marks the state of a workflow on its card.
pub open spec fn state_class_text(d: DAG) -> Seq<char> {
    if d.status_text() == "none"@ {
        ""@
    } else {
        "status-"@ + d.status_text()
    }
}

/// The words that tell the state of a workflow on its card.
pub open spec fn state_label_text(d: DAG) -> Seq<char> {
    if d.paused {
        "Paused"@
    } else if d.running_count > 0 {
        "Running"@
    } else if d.failed_count > 0 {
        "Failed"@
    } else if d.success_count > 0 {
        "Success"@
    } else {
        "No Status"@
    }
}

/// The class that marks the state of a workflow on its card.
pub fn state_class(d: &DAG) -> (class: &'static str)
    ensures
        class@ == state_class_text(*d),
{
    proof {
        reveal_strlit("none");
        reveal_strlit("paused");
        reveal_strlit("running");
        reveal_strlit("failed");
        reveal_strlit("success");
        reveal_strlit("status-");
        reveal_strlit("status-paused");
        reveal_strlit("status-running");
        reveal_strlit("status-failed");
        reveal_strlit("status-success");
        reveal_strlit("");
    }
    if d.paused {
        assert("status-paused"@ =~= "status-"@ + "paused"@);
        "status-paused"
    } else if d.running_count > 0 {
        assert("status-running"@ =~= "status-"@ + "running"@);
        "status-running"
    } else if d.failed_count > 0 {
        assert("status-failed"@ =~= "status-"@ + "failed"@);
        "status-failed"
    } else if d.success_count > 0 {
        assert("status-success"@ =~= "status-"@ + "success"@);
        "status-success"
    } else {
        ""
    }
}

/// The words that tell the state of a workflow on its card.
pub fn state_label(d: &DAG) -> (label: &'static str)
    ensures
        label@ == state_label_text(*d),
{
    if d.paused {
        "Paused"
    } else if d.running_count > 0 {
        "Running"
    } else if d.failed_count > 0 {
        "Failed"
    } else if d.success_count > 0 {
        "Success"
    } else {
        "No Status"
    }
}

/// The words on the button that pauses or resumes a workflow.
pub fn pause_toggle_text(paused: bool) -> (text: &'static str)
    ensures
        text@ == if paused {
            "Unpause"@
        } else {
            "Pause"@
        },
{
    if paused {
        "Unpause"
    } else {
        "Pause"
    }
}

/// The icon on the button that pauses or resumes a workflow.
pub fn pause_toggle_icon(paused: bool) -> (icon: &'static str)
    ensures
        icon@ == if paused {
            "fa-play"@
        } else {
            "fa-pause"@
        },
{
    if paused {
        "fa-play"
    } else {
        "fa-pause"
    }
}

/// What the table reports when its page changes.
#[derive(Debug, Clone, Copy, PartialEq, Eq, Structural)]
pub struct GridPaginationEvent {
    /// The page shown, counted from 1.
    pub current_page: usize,
    /// The number of rows a page.
    pub page_size: usize,
    /// The number of pages.
    pub total_pages: usize,
    /// The number of rows.
    pub row_count: usize,
}

/// The number of pages that the rows fill: none for no rows, else the
/// rows divided by the page size, rounded up; without bound where a page
/// holds no row.
pub open spec fn total_pages_of(row_count: nat, page_size: nat) -> nat {
    if row_count == 0 {
        0
    } else if page_size == 0 {
        usize::MAX as nat
    } else {
        ((row_count - 1) / page_size as int + 1) as nat
    }
}

/// The number of pages that the rows fill.
pub fn total_pages(row_count: usize, page_size: usize) -> (pages: usize)
    ensures
        pages == total_pages_of(row_count as nat, page_size as nat),
        page_size > 0 ==> pages * page_size >= row_count > (pages - 1) * page_size || row_count
            == 0,
{
    if row_count == 0 {
        0
    } else if page_size == 0 {
        usize::MAX
    } else {
        let full = (row_count - 1) / page_size;
        assert(full * page_size <= row_count - 1 < (full + 1) * page_size) by (nonlinear_arith)
            requires
                full == (row_count - 1) / page_size as int,
                page_size > 0,
                row_count >= 1,
        ;
        full + 1
    }
}

/// What the table reports when it shows the page with the given index,
/// counted from 0.
pub fn pagination_event(page_index: usize, page_size: usize, row_count: usize) -> (event:
    GridPaginationEvent)
    requires
        page_index < usize::MAX,
    ensures
        event == (GridPaginationEvent {
            current_page: (page_index + 1) as usize,
            page_size,
            total_pages: total_pages_of(row_count as nat, page_size as nat) as usize,
            row_count,
        }),
{
    GridPaginationEvent {
        current_page: page_index + 1,
        page_size,
        total_pages: total_pages(row_count, page_size),
        row_count,
    }
}

/// The least zoom of a graph, in percent.
pub const MIN_ZOOM_PERCENT: u32 = 10;

/// The greatest zoom of a graph, in percent.
pub const MAX_ZOOM_PERCENT: u32 = 250;

/// How a graph is laid out and shown: lengths in pixels, times in
/// milliseconds, the zoom in percent.
#[derive(Debug, Clone, Copy, PartialEq, Eq, Structural)]
pub struct GraphLayout {
    /// The distance between two nodes of a rank.
    pub node_separation: u32,
    /// The distance between two ranks.
    pub rank_separation: u32,
    /// The space around the graph.
    pub padding: u32,
    /// How long the layout is animated, if it is.
    pub animation_millis: Option<u32>,
    /// The zoom with which the graph is first shown.
    pub initial_zoom_percent: u32,
}

/// The layout of a graph by its number of tasks: the closer and smaller,
/// the more tasks; above 500 tasks without animation.
pub open spec fn layout_of(node_count: nat) -> GraphLayout {
    if node_count > 500 {
        GraphLayout {
            node_separation: 20,
            rank_separation: 40,
            padding: 5,
            animation_millis: None,
            initial_zoom_percent: 40,
        }
    } else if node_count > 100 {
        GraphLayout {
            node_separation: 30,
            rank_separation: 60,
            padding: 10,
            animation_millis: Some(300u32),
            initial_zoom_percent: 60,
        }
    } else {
        GraphLayout {
            node_separation: 40,
            rank_separation: 80,
            padding: 20,
            animation_millis: Some(500u32),
            initial_zoom_percent: 80,
        }
    }
}

/// The layout of a graph by its number of tasks.
pub fn graph_layout(node_count: usize) -> (layout: GraphLayout)
    ensures
        layout == layout_of(node_count as nat),
        MIN_ZOOM_PERCENT <= layout.initial_zoom_percent <= MAX_ZOOM_PERCENT,
{
    if node_count > 500 {
        GraphLayout {
            node_separation: 20,
            rank_separation: 40,
            padding: 5,
            animation_millis: None,
            initial_zoom_percent: 40,
        }
    } else if node_count > 100 {
        GraphLayout {
            node_separation: 30,
            rank_separation: 60,
            padding: 10,
            animation_millis: Some(300),
            initial_zoom_percent: 60,
        }
    } else {
        GraphLayout {
            node_separation: 40,
            rank_separation: 80,
            padding: 20,
            animation_millis: Some(500),
            initial_zoom_percent: 80,
        }
    }
}

/// The workflow whose graph a page path asks for: the path is `/dag/`, a
/// workflow identifier that is not empty, and `/graph`. Every other path
/// asks for the catalog.
pub open spec fn routed_dag_id(path: Seq<char>) -> Option<Seq<char>> {
    let prefix = "/dag/"@;
    let suffix = "/graph"@;
    if occurs_at(path, prefix, 0) && text_contains(path, suffix) && path.len() > prefix.len()
        + suffix.len() && occurs_at(path, suffix, path.len() - suffix.len()) {
        Some(path.subrange(prefix.len() as int, path.len() - suffix.len()))
    } else {
        None
    }
}

/// The workflow whose graph a page path asks for, if it asks for one.
pub fn graph_route_dag_id(path: &str) -> (r: Option<String>)
    ensures
        match r {
            Some(id) => routed_dag_id(path@) == Some(id@),
            None => routed_dag_id(path@) is None,
        },
{
    let chars = to_chars(path);
    let prefix = to_chars("/dag/");
    let suffix = to_chars("/graph");
    proof {
        reveal_strlit("/dag/");
        reveal_strlit("/graph");
    }
    if chars.len() <= prefix.len() + suffix.len() {
        return None;
    }
    if !chars_occur_at(&chars, &prefix, 0) || !contains_text(path, "/graph") {
        return None;
    }
    let end = chars.len() - suffix.len();
    if !chars_occur_at(&chars, &suffix, end) {
        return None;
    }
    let mut id = String::new();
    let mut k: usize = prefix.len();
    assert(id@ =~= path@.subrange(prefix@.len() as int, k as int));
    while k < end
        invariant
            prefix@.len() <= k <= end <= chars@.len(),
            chars@ == path@,
            id@ == path@.subrange(prefix@.len() as int, k as int),
        decreases end - k,
    {
        id.push(chars[k]);
        assert(id@ =~= path@.subrange(prefix@.len() as int, k + 1));
        k = k + 1;
    }
    Some(id)
}

/// The parameter of a number, if there is one: the key and the decimal
/// numeral.
pub open spec fn number_param(key: Seq<char>, value: Option<usize>) -> Seq<Seq<char>> {
    match value {
        Some(n) => seq![key + decimal_text(n as nat)],
        None => Seq::empty(),
    }
}

/// The parameter of a text, if there is one: the key and the text as it
/// stands.
pub open spec fn text_param(key: Seq<char>, value: Option<String>) -> Seq<Seq<char>> {
    match value {
        Some(text) => seq![key + text@],
        None => Seq::empty(),
    }
}

/// The parameters of a query, one for each field that it names, in the
/// order page, limit, search, status, tags, sort field, sort order.
pub open spec fn query_params(q: DAGsQuery) -> Seq<Seq<char>> {
    number_param("page="@, q.page) + number_param("limit="@, q.limit) + text_param(
        "search="@,
        q.search,
    ) + text_param("status="@, q.status) + text_param("tags="@, q.tags) + text_param(
        "sort_by="@,
        q.sort_by,
    ) + text_param("sort_order="@, q.sort_order)
}

/// The parts in order with `&` between each two.
pub open spec fn joined_params(parts: Seq<Seq<char>>) -> Seq<char>
    decreases parts.len(),
{
    if parts.len() == 0 {
        Seq::empty()
    } else if parts.len() == 1 {
        parts[0]
    } else {
        joined_params(parts.drop_last()) + "&"@ + parts.last()
    }
}

/// The path and parameters of the request for a page of the catalog.
pub open spec fn dags_request_text(q: DAGsQuery) -> Seq<char> {
    let params = query_params(q);
    if params.len() == 0 {
        "/api/dags"@
    } else {
        "/api/dags?"@ + joined_params(params)
    }
}

/// The path of the request for the graph of a workflow.
pub open spec fn graph_request_text(dag_id: Seq<char>) -> Seq<char> {
    "/api/dags/"@ + dag_id + "/graph"@
}

/// The views of strings.
pub open spec fn text_views(parts: Seq<String>) -> Seq<Seq<char>> {
    parts.map_values(|s: String| s@)
}

fn push_number_param(params: &mut Vec<String>, key: &str, value: Option<usize>)
    ensures
        text_views(final(params)@) == text_views(old(params)@) + number_param(key@, value),
{
    match value {
        Some(n) => {
            let mut param = key.to_owned();
            push_decimal(&mut param, n);
            let ghost before = params@;
            params.push(param);
            assert(text_views(params@) =~= text_views(before) + number_param(key@, value));
        },
        None => {
            assert(text_views(params@) =~= text_views(params@) + number_param(key@, value));
        },
    }
}

fn push_text_param(params: &mut Vec<String>, key: &str, value: &Option<String>)
    ensures
        text_views(final(params)@) == text_views(old(params)@) + text_param(key@, *value),
{
    match value {
        Some(text) => {
            let mut param = key.to_owned();
            param.append(text.as_str());
            let ghost before = params@;
            params.push(param);
            assert(text_views(params@) =~= text_views(before) + text_param(key@, *value));
        },
        None => {
            assert(text_views(params@) =~= text_views(params@) + text_param(key@, *value));
        },
    }
}

/// The path and parameters of the request for a page of the catalog.
pub fn dags_request_path(query: &DAGsQuery) -> (path: String)
    ensures
        path@ == dags_request_text(*query),
{
    let mut params: Vec<String> = Vec::new();
    assert(text_views(params@) =~= Seq::<Seq<char>>::empty());
    push_number_param(&mut params, "page=", query.page);
    push_number_param(&mut params, "limit=", query.limit);
    push_text_param(&mut params, "search=", &query.search);
    push_text_param(&mut params, "status=", &query.status);
    push_text_param(&mut params, "tags=", &query.tags);
    push_text_param(&mut params, "sort_by=", &query.sort_by);
    push_text_param(&mut params, "sort_order=", &query.sort_order);
    assert(text_views(params@) =~= query_params(*query));
    if params.len() == 0 {
        return "/api/dags".to_owned();
    }
    let mut path = "/api/dags?".to_owned();
    let ghost all = text_views(params@);
    let mut k: usize = 0;
    while k < params.len()
        invariant
            k <= params.len(),
            all == text_views(params@),
            path@ == "/api/dags?"@ + joined_params(all.take(k as int)),
        decreases params.len() - k,
    {
        proof {
            let next = all.take(k + 1);
            assert(next.drop_last() =~= all.take(k as int));
            assert(next.last() == params@[k as int]@);
            if k == 0 {
                assert(joined_params(all.take(0)) =~= Seq::<char>::empty());
            }
        }
        if k > 0 {
            path.append("&");
        }
        path.append(params[k].as_str());
        proof {
            assert(path@ =~= "/api/dags?"@ + joined_params(all.take(k + 1)));
        }
        k = k + 1;
    }
    assert(all.take(params@.len() as int) =~= all);
    path
}

/// The path of the request for the graph of a workflow.
pub fn graph_request_path(dag_id: &str) -> (path: String)
    ensures
        path@ == graph_request_text(dag_id@),
{
    let mut path = "/api/dags/".to_owned();
    path.append(dag_id);
    path.append("/graph");
    path
}

} // verus!
