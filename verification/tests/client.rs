use dag_monitor::client::{
    dags_request_path, filter_of_input, graph_layout, graph_request_path, graph_route_dag_id,
    initial_query, offered_actions, pagination_event, pause_toggle_icon, pause_toggle_text,
    state_class, state_label, task_action_status, total_pages, with_limit, with_page, with_search,
    with_sort, with_status, with_tags, GraphLayout, GridPaginationEvent, SortDirection,
};
use dag_monitor::models::{DAGsQuery, TaskStatus, DAG};

#[test]
fn initial_query_is_first_page_of_ten() {
    let q = initial_query();
    assert_eq!(
        q,
        DAGsQuery {
            page: Some(1),
            limit: Some(10),
            search: None,
            status: None,
            tags: None,
            sort_by: Some("dag_id".to_string()),
            sort_order: Some("asc".to_string()),
        }
    );
}

#[test]
fn inputs_change_one_field_of_the_query() {
    let q = initial_query();
    let q = with_search(q, "etl".to_string());
    assert_eq!(q.search.as_deref(), Some("etl"));
    let q = with_status(q, "paused".to_string());
    assert_eq!(q.status.as_deref(), Some("paused"));
    let q = with_tags(q, "ml,etl".to_string());
    assert_eq!(q.tags.as_deref(), Some("ml,etl"));
    let q = with_page(q, 4);
    assert_eq!(q.page, Some(4));
    assert_eq!((q.limit, q.search.as_deref()), (Some(10), Some("etl")));
    let q = with_search(q, String::new());
    assert_eq!(q.search, None);
    let q = with_status(q, "all".to_string());
    assert_eq!(q.status, None);
    let q = with_tags(q, String::new());
    assert_eq!(q.tags, None);
    assert_eq!(q, DAGsQuery { page: Some(4), ..initial_query() });
    assert_eq!(filter_of_input(" ".to_string()).as_deref(), Some(" "));
    assert_eq!(filter_of_input(String::new()), None);
}

#[test]
fn new_limit_goes_back_to_the_first_page() {
    let q = with_limit(with_page(initial_query(), 7), 50);
    assert_eq!((q.page, q.limit), (Some(1), Some(50)));
    assert_eq!(q.sort_by.as_deref(), Some("dag_id"));
}

#[test]
fn sort_choice_sets_field_and_keyword() {
    let q = with_sort(with_page(initial_query(), 3), "owner".to_string(), SortDirection::Descending);
    assert_eq!(q.sort_by.as_deref(), Some("owner"));
    assert_eq!(q.sort_order.as_deref(), Some("desc"));
    assert_eq!(q.page, Some(3));
    assert_eq!(SortDirection::Ascending.keyword(), "asc");
    assert_eq!(SortDirection::Descending.keyword(), "desc");
}

#[test]
fn actions_ask_for_statuses() {
    assert_eq!(task_action_status("force-success"), Some(TaskStatus::SUCCEEDED));
    assert_eq!(task_action_status("retry"), Some(TaskStatus::RUNNING));
    assert_eq!(task_action_status("play"), Some(TaskStatus::RUNNING));
    assert_eq!(task_action_status("skip"), Some(TaskStatus::SKIPPED));
    assert_eq!(task_action_status("pause"), Some(TaskStatus::PAUSED));
    assert_eq!(task_action_status("view"), None);
    assert_eq!(task_action_status("Retry"), None);
    assert_eq!(task_action_status(""), None);
}

#[test]
fn request_paths() {
    assert_eq!(dags_request_path(&DAGsQuery::default()), "/api/dags");
    assert_eq!(
        dags_request_path(&initial_query()),
        "/api/dags?page=1&limit=10&sort_by=dag_id&sort_order=asc"
    );
    let q = DAGsQuery {
        page: Some(12),
        limit: Some(0),
        search: Some("a b".to_string()),
        status: Some("failed".to_string()),
        tags: Some("ml,etl".to_string()),
        sort_by: Some("owner".to_string()),
        sort_order: Some("desc".to_string()),
    };
    assert_eq!(
        dags_request_path(&q),
        "/api/dags?page=12&limit=0&search=a b&status=failed&tags=ml,etl&sort_by=owner&sort_order=desc"
    );
    let q = DAGsQuery { tags: Some(String::new()), ..DAGsQuery::default() };
    assert_eq!(dags_request_path(&q), "/api/dags?tags=");
    assert_eq!(graph_request_path("tiny_dag_5"), "/api/dags/tiny_dag_5/graph");
}

fn record(paused: bool, running: usize, failed: usize, success: usize) -> DAG {
    DAG {
        id: 0,
        dag_id: "wf".to_string(),
        description: None,
        file_path: String::new(),
        owner: String::new(),
        paused,
        last_run: None,
        next_run: None,
        runs_count: running + failed + success,
        success_count: success,
        failed_count: failed,
        running_count: running,
        schedule_interval: String::new(),
        tags: Vec::new(),
        created_at: 0,
        updated_at: 0,
    }
}

#[test]
fn menus_offer_actions_by_status() {
    assert_eq!(offered_actions(TaskStatus::FAILED), vec!["view", "force-success", "retry"]);
    assert_eq!(offered_actions(TaskStatus::PENDING), vec!["view", "skip"]);
    assert_eq!(offered_actions(TaskStatus::QUEUED), vec!["view", "skip"]);
    assert_eq!(offered_actions(TaskStatus::RUNNING), vec!["view", "pause"]);
    assert_eq!(offered_actions(TaskStatus::PAUSED), vec!["view", "play"]);
    assert_eq!(offered_actions(TaskStatus::SUCCEEDED), vec!["view"]);
    assert_eq!(offered_actions(TaskStatus::SKIPPED), vec!["view"]);
    for status in [
        TaskStatus::FAILED,
        TaskStatus::PENDING,
        TaskStatus::QUEUED,
        TaskStatus::RUNNING,
        TaskStatus::PAUSED,
    ] {
        for action in &offered_actions(status)[1..] {
            let asked = task_action_status(action).unwrap();
            assert_ne!(asked, status);
        }
    }
}

#[test]
fn cards_show_the_state_of_a_workflow() {
    let table = [
        (record(true, 1, 1, 1), "status-paused", "Paused"),
        (record(false, 1, 1, 1), "status-running", "Running"),
        (record(false, 0, 1, 1), "status-failed", "Failed"),
        (record(false, 0, 0, 1), "status-success", "Success"),
        (record(false, 0, 0, 0), "", "No Status"),
    ];
    for (d, class, label) in &table {
        assert_eq!(state_class(d), *class);
        assert_eq!(state_label(d), *label);
    }
    assert_eq!((pause_toggle_text(true), pause_toggle_icon(true)), ("Unpause", "fa-play"));
    assert_eq!((pause_toggle_text(false), pause_toggle_icon(false)), ("Pause", "fa-pause"));
}

#[test]
fn layout_tightens_with_the_size_of_the_graph() {
    let standard = GraphLayout {
        node_separation: 40,
        rank_separation: 80,
        padding: 20,
        animation_millis: Some(500),
        initial_zoom_percent: 80,
    };
    let large = GraphLayout {
        node_separation: 30,
        rank_separation: 60,
        padding: 10,
        animation_millis: Some(300),
        initial_zoom_percent: 60,
    };
    let very_large = GraphLayout {
        node_separation: 20,
        rank_separation: 40,
        padding: 5,
        animation_millis: None,
        initial_zoom_percent: 40,
    };
    assert_eq!(graph_layout(0), standard);
    assert_eq!(graph_layout(100), standard);
    assert_eq!(graph_layout(101), large);
    assert_eq!(graph_layout(500), large);
    assert_eq!(graph_layout(501), very_large);
    assert_eq!(graph_layout(1000), very_large);
}

#[test]
fn page_paths_name_a_graph_or_the_catalog() {
    assert_eq!(graph_route_dag_id("/dag/tiny_dag_5/graph").as_deref(), Some("tiny_dag_5"));
    assert_eq!(graph_route_dag_id("/dag/a/graph").as_deref(), Some("a"));
    assert_eq!(graph_route_dag_id("/dag/a/b/graph").as_deref(), Some("a/b"));
    assert_eq!(graph_route_dag_id("/dag//graph/graph").as_deref(), Some("/graph"));
    assert_eq!(graph_route_dag_id("/dag/\u{00E9}/graph").as_deref(), Some("\u{00E9}"));
    for path in ["/", "", "/dag/", "/dag//graph", "/dag/graph", "/dag/a/graph/", "/dag/a/graphs",
        "/dags/a/graph", "dag/a/graph", "/dag/a", "/DAG/a/graph"]
    {
        assert_eq!(graph_route_dag_id(path), None, "{path}");
    }
}

#[test]
fn pages_of_a_table() {
    assert_eq!(total_pages(0, 10), 0);
    assert_eq!(total_pages(0, 0), 0);
    assert_eq!(total_pages(1, 10), 1);
    assert_eq!(total_pages(10, 10), 1);
    assert_eq!(total_pages(11, 10), 2);
    assert_eq!(total_pages(50, 25), 2);
    assert_eq!(total_pages(usize::MAX, 1), usize::MAX);
    assert_eq!(total_pages(5, 0), usize::MAX);
    assert_eq!(
        pagination_event(0, 10, 25),
        GridPaginationEvent { current_page: 1, page_size: 10, total_pages: 3, row_count: 25 }
    );
    assert_eq!(pagination_event(4, 10, 0).current_page, 5);
}
