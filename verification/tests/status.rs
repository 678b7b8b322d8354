use dag_monitor::graph::generate_sample_dag_graph;
use dag_monitor::models::TaskStatus;
use dag_monitor::random::draw_index;
use dag_monitor::status::{
    draw_timing, generate_task, make_task, operator_label, operator_name, status_for_roll,
    task_id, task_name, task_timing, TaskTiming,
};
use rand::rngs::StdRng;
use rand::SeedableRng;

const NOW: i64 = 1_700_000_000_000;

#[test]
fn status_table_bounds() {
    assert_eq!(status_for_roll(0), TaskStatus::PENDING);
    assert_eq!(status_for_roll(9), TaskStatus::PENDING);
    assert_eq!(status_for_roll(10), TaskStatus::SUCCEEDED);
    assert_eq!(status_for_roll(59), TaskStatus::SUCCEEDED);
    assert_eq!(status_for_roll(60), TaskStatus::QUEUED);
    assert_eq!(status_for_roll(69), TaskStatus::QUEUED);
    assert_eq!(status_for_roll(70), TaskStatus::RUNNING);
    assert_eq!(status_for_roll(84), TaskStatus::RUNNING);
    assert_eq!(status_for_roll(85), TaskStatus::FAILED);
    assert_eq!(status_for_roll(94), TaskStatus::FAILED);
    assert_eq!(status_for_roll(95), TaskStatus::SKIPPED);
    assert_eq!(status_for_roll(97), TaskStatus::SKIPPED);
    assert_eq!(status_for_roll(98), TaskStatus::PAUSED);
    assert_eq!(status_for_roll(99), TaskStatus::PAUSED);
}

#[test]
fn status_table_weights_count_rolls() {
    let count = |s: TaskStatus| (0..100).filter(|r| status_for_roll(*r) == s).count();
    assert_eq!(count(TaskStatus::PENDING), 10);
    assert_eq!(count(TaskStatus::SUCCEEDED), 50);
    assert_eq!(count(TaskStatus::QUEUED), 10);
    assert_eq!(count(TaskStatus::RUNNING), 15);
    assert_eq!(count(TaskStatus::FAILED), 10);
    assert_eq!(count(TaskStatus::SKIPPED), 3);
    assert_eq!(count(TaskStatus::PAUSED), 2);
}

#[test]
fn status_draws_converge_to_the_table() {
    let mut rng = StdRng::seed_from_u64(2024);
    let total = 100_000usize;
    let mut counts = [0usize; 7];
    for i in 0..total {
        let t = generate_task("wf", i, &mut rng, NOW);
        let slot = match t.status {
            TaskStatus::PENDING => 0,
            TaskStatus::SUCCEEDED => 1,
            TaskStatus::QUEUED => 2,
            TaskStatus::RUNNING => 3,
            TaskStatus::FAILED => 4,
            TaskStatus::SKIPPED => 5,
            TaskStatus::PAUSED => 6,
        };
        counts[slot] += 1;
    }
    let weights = [10.0f64, 50.0, 10.0, 15.0, 10.0, 3.0, 2.0];
    for (count, weight) in counts.iter().zip(weights) {
        let percent = *count as f64 * 100.0 / total as f64;
        assert!((percent - weight).abs() <= 1.5, "{percent} against {weight}");
    }
}

#[test]
fn timing_formula_values() {
    let t = task_timing(TaskStatus::SUCCEEDED, NOW, 45, 90_500);
    assert_eq!(
        t,
        TaskTiming {
            start_time: Some(NOW - 45 * 60_000),
            end_time: Some(NOW - 45 * 60_000 + 90_500),
            duration: Some(90_500),
        }
    );
    let t = task_timing(TaskStatus::FAILED, 0, 30, 30_000);
    assert_eq!(t.start_time, Some(-1_800_000));
    assert_eq!(t.end_time, Some(-1_770_000));
    let t = task_timing(TaskStatus::RUNNING, NOW, 5, 1234);
    assert_eq!(
        t,
        TaskTiming { start_time: Some(NOW - 300_000), end_time: None, duration: None }
    );
    for status in [TaskStatus::PENDING, TaskStatus::QUEUED, TaskStatus::SKIPPED, TaskStatus::PAUSED] {
        let t = task_timing(status, NOW, 45, 90_500);
        assert_eq!(t, TaskTiming { start_time: None, end_time: None, duration: None });
    }
}

#[test]
fn timing_at_the_edge_of_the_instants() {
    let t = task_timing(TaskStatus::SUCCEEDED, i64::MIN + 60_000, 1, 7);
    assert_eq!(t.start_time, Some(i64::MIN));
    assert_eq!(t.end_time, Some(i64::MIN + 7));
}

#[test]
fn drawn_timing_agrees_with_status() {
    let mut rng = StdRng::seed_from_u64(5);
    let g = generate_sample_dag_graph("huge_dag_1000".to_string(), &mut rng, NOW);
    for task in &g.tasks {
        match task.status {
            TaskStatus::SUCCEEDED | TaskStatus::FAILED => {
                let start = task.start_time.unwrap();
                let end = task.end_time.unwrap();
                let duration = task.duration.unwrap();
                assert!(start <= end);
                assert_eq!(end - start, duration as i64);
                assert!((30_000..600_000).contains(&duration));
                let ago = NOW - start;
                assert_eq!(ago % 60_000, 0);
                assert!((30..120).contains(&(ago / 60_000)));
            }
            TaskStatus::RUNNING => {
                let ago = NOW - task.start_time.unwrap();
                assert_eq!(ago % 60_000, 0);
                assert!((5..30).contains(&(ago / 60_000)));
                assert_eq!(task.end_time, None);
                assert_eq!(task.duration, None);
            }
            _ => {
                assert_eq!(task.start_time, None);
                assert_eq!(task.end_time, None);
                assert_eq!(task.duration, None);
            }
        }
    }
}

#[test]
fn draw_timing_for_each_status() {
    let mut rng = StdRng::seed_from_u64(9);
    for _ in 0..100 {
        let t = draw_timing(TaskStatus::RUNNING, &mut rng, NOW);
        assert!(t.start_time.is_some() && t.end_time.is_none() && t.duration.is_none());
        let t = draw_timing(TaskStatus::SKIPPED, &mut rng, NOW);
        assert_eq!(t, TaskTiming { start_time: None, end_time: None, duration: None });
        let t = draw_timing(TaskStatus::FAILED, &mut rng, NOW);
        assert_eq!(t.end_time.unwrap() - t.start_time.unwrap(), t.duration.unwrap() as i64);
    }
}

#[test]
fn retries_only_for_failed_tasks() {
    let mut rng = StdRng::seed_from_u64(3);
    let mut seen = [false; 3];
    for i in 0..5000 {
        let t = generate_task("wf", i, &mut rng, NOW);
        assert_eq!(t.max_retries, 3);
        assert!(t.retries < 3);
        if t.status == TaskStatus::FAILED {
            seen[t.retries] = true;
        } else {
            assert_eq!(t.retries, 0);
        }
    }
    assert_eq!(seen, [true, true, true]);
}

#[test]
fn operator_names_and_labels() {
    let names = [
        "PythonOperator",
        "BashOperator",
        "PostgresOperator",
        "MySqlOperator",
        "HttpSensor",
        "S3KeySensor",
        "EmailOperator",
        "SlackOperator",
        "SparkSubmitOperator",
        "DockerOperator",
    ];
    for (k, name) in names.iter().enumerate() {
        assert_eq!(operator_name(k), *name);
        assert_eq!(operator_label(k), name.replace("Operator", ""));
    }
}

#[test]
fn task_identifier_and_name() {
    assert_eq!(task_id(0), "task_0");
    assert_eq!(task_id(7), "task_7");
    assert_eq!(task_id(10), "task_10");
    assert_eq!(task_id(999), "task_999");
    assert_eq!(task_id(1_000_000), "task_1000000");
    assert_eq!(task_name("etl_daily_001", 0, 12), "task_etl_daily_001_Python_12");
    assert_eq!(task_name("x", 4, 0), "task_x_HttpSensor_0");
}

#[test]
fn make_task_fills_every_field() {
    let timing = TaskTiming { start_time: Some(5), end_time: Some(9), duration: Some(4) };
    let t = make_task("wf", 3, TaskStatus::FAILED, timing, 8, 2);
    assert_eq!(t.id, "task_3");
    assert_eq!(t.name, "task_wf_SparkSubmit_3");
    assert_eq!(t.operator, "SparkSubmitOperator");
    assert_eq!(t.status, TaskStatus::FAILED);
    assert_eq!((t.start_time, t.end_time, t.duration), (Some(5), Some(9), Some(4)));
    assert_eq!((t.retries, t.max_retries), (2, 3));
}

#[test]
fn generated_task_names_its_operator() {
    let mut rng = StdRng::seed_from_u64(1);
    for i in 0..200 {
        let t = generate_task("wf", i, &mut rng, NOW);
        let label = t.operator.replace("Operator", "");
        assert_eq!(t.name, format!("task_wf_{label}_{i}"));
        assert_eq!(t.id, format!("task_{i}"));
    }
}

#[test]
fn draws_stay_in_range_and_vary() {
    let mut rng = StdRng::seed_from_u64(17);
    let mut seen = [false; 4];
    for _ in 0..500 {
        let r = draw_index(&mut rng, 3, 7);
        assert!((3..7).contains(&r));
        seen[r - 3] = true;
    }
    assert_eq!(seen, [true; 4]);
    assert_eq!(draw_index(&mut rng, 9, 10), 9);
}
