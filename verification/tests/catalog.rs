use dag_monitor::catalog::{
    draw_filler_record, draw_special_record, file_path_of, filler_id, filler_record,
    generate_sample_dags, sample_tag_indexes, share_of, special_name, special_node_count,
    special_record, tag_name, tags_of, FillerDraws, SpecialDraws,
};
use dag_monitor::graph::resolve_task_count;
use rand::rngs::StdRng;
use rand::SeedableRng;

const NOW: i64 = 1_700_000_000_000;
const HOUR: i64 = 3_600_000;

const TAGS: [&str; 20] = [
    "production", "development", "staging", "testing", "data_warehouse", "data_lake", "batch",
    "streaming", "etl", "ml", "ai", "reporting", "monitoring", "cleanup", "validation",
    "transformation", "extraction", "loading", "high_priority", "low_priority",
];

#[test]
fn catalog_has_fillers_then_specials() {
    let mut rng = StdRng::seed_from_u64(1);
    let dags = generate_sample_dags(&mut rng, NOW);
    assert_eq!(dags.len(), 50);
    for (i, d) in dags.iter().take(45).enumerate() {
        assert_eq!(d.dag_id, filler_id(i));
    }
    let names = ["large_dag_500", "huge_dag_1000", "medium_dag_100", "small_dag_20", "tiny_dag_5"];
    for (j, name) in names.iter().enumerate() {
        assert_eq!(dags[45 + j].dag_id, *name);
    }
}

#[test]
fn catalog_identifiers_are_unique() {
    let mut rng = StdRng::seed_from_u64(2);
    let dags = generate_sample_dags(&mut rng, NOW);
    for (a, x) in dags.iter().enumerate() {
        for y in &dags[a + 1..] {
            assert_ne!(x.dag_id, y.dag_id);
        }
    }
}

#[test]
fn catalog_records_keep_their_invariants() {
    for seed in 0..20 {
        let mut rng = StdRng::seed_from_u64(seed);
        for d in generate_sample_dags(&mut rng, NOW) {
            if d.paused {
                assert_eq!(d.next_run, None);
            }
            assert!(d.runs_count >= d.success_count + d.failed_count);
            assert_eq!(d.file_path, format!("/home/airflow/dags/{}.py", d.dag_id));
            assert!(d.created_at <= d.updated_at && d.updated_at <= NOW);
        }
    }
}

#[test]
fn filler_identifier_values() {
    assert_eq!(filler_id(0), "etl_daily_000");
    assert_eq!(filler_id(1), "data_pipeline_hourly_001");
    assert_eq!(filler_id(13), "alert_products_013");
    assert_eq!(filler_id(14), "etl_orders_014");
    assert_eq!(filler_id(44), "process_sales_044");
    assert_eq!(filler_id(123), "validate_monthly_123");
    assert_eq!(filler_id(1234), "process_orders_1234");
    assert_eq!(file_path_of("etl_daily_000"), "/home/airflow/dags/etl_daily_000.py");
}

#[test]
fn share_is_rounded_to_nearest() {
    assert_eq!(share_of(0, 9899), 0);
    assert_eq!(share_of(99, 9899), 98);
    assert_eq!(share_of(10, 5000), 5);
    assert_eq!(share_of(3, 5000), 2);
    assert_eq!(share_of(1, 4999), 0);
    assert_eq!(share_of(7, 6400), 4);
    assert_eq!(share_of(7, 6500), 5);
    assert_eq!(share_of(1_000_000, 10_000), 1_000_000);
}

#[test]
fn filler_record_from_draws() {
    let draws = FillerDraws {
        paused: false,
        created_hours_ago: 100,
        updated_after_hours: 5,
        last_run_hours_ago: Some(3),
        next_run_in_hours: Some(47),
        runs_count: 80,
        success_rate: 7550,
        running_count: 2,
        tag_indexes: vec![8, 0, 19],
        described: true,
    };
    let d = filler_record(17, &draws, NOW, 99);
    assert_eq!(d.id, 99);
    assert_eq!(d.dag_id, "transform_refunds_017");
    assert_eq!(d.file_path, "/home/airflow/dags/transform_refunds_017.py");
    assert_eq!(d.owner, "data_analyst");
    assert!(!d.paused);
    assert_eq!(d.created_at, NOW - 100 * HOUR);
    assert_eq!(d.updated_at, NOW - 95 * HOUR);
    assert_eq!(d.last_run, Some(NOW - 3 * HOUR));
    assert_eq!(d.next_run, Some(NOW + 47 * HOUR));
    assert_eq!((d.runs_count, d.success_count, d.failed_count, d.running_count), (80, 60, 20, 2));
    assert_eq!(d.schedule_interval, "0 */2 * * *");
    assert_eq!(d.tags, vec!["etl", "production", "low_priority"]);
    assert_eq!(d.description.as_deref(), Some("DAG for processing refunds data"));
}

#[test]
fn paused_filler_record_has_no_next_run() {
    let draws = FillerDraws {
        paused: true,
        created_hours_ago: 24,
        updated_after_hours: 23,
        last_run_hours_ago: None,
        next_run_in_hours: None,
        runs_count: 0,
        success_rate: 5000,
        running_count: 0,
        tag_indexes: vec![3],
        described: false,
    };
    let d = filler_record(0, &draws, NOW, 0);
    assert!(d.paused);
    assert_eq!(d.next_run, None);
    assert_eq!(d.last_run, None);
    assert_eq!(d.description, None);
    assert_eq!(d.updated_at, NOW - HOUR);
    assert_eq!((d.runs_count, d.success_count, d.failed_count), (0, 0, 0));
    assert_eq!(d.owner, "admin");
    assert_eq!(d.schedule_interval, "* * * * *");
}

#[test]
fn drawn_filler_records_stay_in_range() {
    let mut rng = StdRng::seed_from_u64(8);
    let mut paused = 0;
    for i in 0..2000 {
        let d = draw_filler_record(i % 45, &mut rng, NOW);
        let created = (NOW - d.created_at) / HOUR;
        assert!((24..720).contains(&created));
        assert!((1..24).contains(&((d.updated_at - d.created_at) / HOUR)));
        if let Some(t) = d.last_run {
            assert!((1..48).contains(&((NOW - t) / HOUR)));
        }
        match d.next_run {
            Some(t) => {
                assert!(!d.paused);
                assert!((1..48).contains(&((t - NOW) / HOUR)));
            }
            None => assert!(d.paused),
        }
        assert!(d.runs_count < 100);
        assert!(d.success_count <= d.runs_count);
        assert!(2 * d.success_count + 1 >= d.runs_count);
        assert_eq!(d.failed_count, d.runs_count - d.success_count);
        assert!(d.running_count < 5);
        assert!((1..=3).contains(&d.tags.len()));
        for (a, tag) in d.tags.iter().enumerate() {
            assert!(TAGS.contains(&tag.as_str()));
            assert!(!d.tags[a + 1..].contains(tag));
        }
        if d.paused {
            paused += 1;
        }
    }
    assert!((300..500).contains(&paused), "{paused} paused of 2000");
}

#[test]
fn special_record_from_draws() {
    let draws = SpecialDraws {
        created_hours_ago: 30,
        updated_after_hours: 2,
        last_run_hours_ago: 1,
        next_run_in_hours: 23,
        runs_count: 12,
    };
    let d = special_record(1, draws, NOW, 5);
    assert_eq!(d.id, 5);
    assert_eq!(d.dag_id, "huge_dag_1000");
    assert_eq!(d.file_path, "/home/airflow/dags/huge_dag_1000.py");
    assert_eq!(d.owner, "airflow");
    assert!(!d.paused);
    assert_eq!(d.created_at, NOW - 30 * HOUR);
    assert_eq!(d.updated_at, NOW - 28 * HOUR);
    assert_eq!(d.last_run, Some(NOW - HOUR));
    assert_eq!(d.next_run, Some(NOW + 23 * HOUR));
    assert_eq!((d.runs_count, d.success_count, d.failed_count, d.running_count), (12, 11, 1, 0));
    assert_eq!(d.schedule_interval, "@daily");
    assert_eq!(d.tags, vec!["test", "performance", "nodes_1000"]);
    assert_eq!(d.description.as_deref(), Some("Test DAG with 1000 nodes"));
}

#[test]
fn drawn_special_records_look_successful() {
    let mut rng = StdRng::seed_from_u64(4);
    for j in 0..5 {
        let d = draw_special_record(j, &mut rng, NOW);
        assert!(!d.paused);
        assert!((5..20).contains(&d.runs_count));
        assert_eq!(d.success_count, d.runs_count - 1);
        assert_eq!(d.failed_count, 1);
        assert_eq!(d.running_count, 0);
        assert!(d.last_run.is_some() && d.next_run.is_some());
        assert_eq!(d.tags[2], format!("nodes_{}", special_node_count(j)));
    }
}

#[test]
fn special_table_mirrors_graph_sizes() {
    for j in 0..5 {
        assert_eq!(resolve_task_count(special_name(j)), Some(special_node_count(j)));
    }
}

#[test]
fn sampled_tags_are_distinct_and_shuffled() {
    let mut rng = StdRng::seed_from_u64(6);
    let all = sample_tag_indexes(&mut rng, 20);
    let mut sorted = all.clone();
    sorted.sort();
    assert_eq!(sorted, (0..20).collect::<Vec<usize>>());
    assert_ne!(all, sorted);
    assert!(sample_tag_indexes(&mut rng, 0).is_empty());
    let three = sample_tag_indexes(&mut rng, 3);
    assert_eq!(three.len(), 3);
    assert!(three[0] != three[1] && three[1] != three[2] && three[0] != three[2]);
}

#[test]
fn tags_by_their_places() {
    assert_eq!(tags_of(&vec![0, 19, 9]), vec!["production", "low_priority", "ml"]);
    for (k, tag) in TAGS.iter().enumerate() {
        assert_eq!(tag_name(k), *tag);
    }
}

#[test]
fn same_seed_gives_same_catalog_but_for_record_ids() {
    let mut a = StdRng::seed_from_u64(77);
    let mut b = StdRng::seed_from_u64(77);
    let x = generate_sample_dags(&mut a, NOW);
    let y = generate_sample_dags(&mut b, NOW);
    for (p, q) in x.iter().zip(&y) {
        let mut q = q.clone();
        q.id = p.id;
        assert_eq!(*p, q);
    }
}

#[test]
fn record_identifiers_are_random_uuids() {
    let mut rng = StdRng::seed_from_u64(9);
    let dags = generate_sample_dags(&mut rng, NOW);
    for (a, x) in dags.iter().enumerate() {
        assert_eq!((x.id >> 76) & 0xf, 4, "version of {:032x}", x.id);
        assert_eq!((x.id >> 62) & 0x3, 2, "variant of {:032x}", x.id);
        for y in &dags[a + 1..] {
            assert_ne!(x.id, y.id);
        }
    }
}
