use dag_monitor::graph::{
    chain_source, clamp_task_count, edge_plan, forward_target, generate_sample_dag_graph,
    large_edge_plan, plan_contains, resolve_task_count, small_edge_plan, small_regime_step,
};
use dag_monitor::models::DAGGraph;
use rand::rngs::StdRng;
use rand::SeedableRng;

const NOW: i64 = 1_700_000_000_000;

fn index_of(id: &str) -> usize {
    assert!(id.starts_with("task_"), "identifier {id} lacks the prefix");
    id["task_".len()..].parse().unwrap()
}

fn graph(id: &str, seed: u64) -> DAGGraph {
    let mut rng = StdRng::seed_from_u64(seed);
    generate_sample_dag_graph(id.to_string(), &mut rng, NOW)
}

#[test]
fn named_workflows_have_exact_sizes() {
    for seed in 0..5 {
        assert_eq!(graph("tiny_dag_5", seed).tasks.len(), 5);
        assert_eq!(graph("small_dag_20", seed).tasks.len(), 20);
        assert_eq!(graph("medium_dag_100", seed).tasks.len(), 100);
        assert_eq!(graph("large_dag_500", seed).tasks.len(), 500);
        assert_eq!(graph("huge_dag_1000", seed).tasks.len(), 1000);
    }
}

#[test]
fn digits_in_identifier_give_the_size() {
    assert_eq!(resolve_task_count("foo123bar"), Some(123));
    assert_eq!(graph("foo123bar", 1).tasks.len(), 123);
    assert_eq!(resolve_task_count("etl_daily_017"), Some(17));
    assert_eq!(resolve_task_count("a12b34"), Some(12));
}

#[test]
fn size_is_clamped() {
    assert_eq!(resolve_task_count("x3"), Some(5));
    assert_eq!(resolve_task_count("x0"), Some(5));
    assert_eq!(resolve_task_count("x5"), Some(5));
    assert_eq!(resolve_task_count("x1000"), Some(1000));
    assert_eq!(resolve_task_count("x1001"), Some(1000));
    assert_eq!(resolve_task_count("x5000"), Some(1000));
    assert_eq!(clamp_task_count(4), 5);
    assert_eq!(clamp_task_count(6), 6);
    assert_eq!(clamp_task_count(1001), 1000);
}

#[test]
fn named_size_wins_over_digits() {
    assert_eq!(resolve_task_count("tiny_dag_5"), Some(5));
    assert_eq!(resolve_task_count("huge_dag_1000"), Some(1000));
    assert_eq!(resolve_task_count("tiny_dag_50"), Some(50));
}

#[test]
fn identifier_without_usable_digits_resolves_to_none() {
    assert_eq!(resolve_task_count("no_digits_here"), None);
    assert_eq!(resolve_task_count(""), None);
    assert_eq!(resolve_task_count("n99999999999999999999999999999999999999"), None);
    assert_eq!(resolve_task_count("\u{0663}"), None);
}

#[test]
fn unresolved_size_is_drawn_from_default_range() {
    for seed in 0..200 {
        let n = graph("no_digits_here", seed).tasks.len();
        assert!((5..20).contains(&n), "{n} tasks");
    }
}

#[test]
fn every_edge_points_forward() {
    for id in ["tiny_dag_5", "small_dag_20", "wf_50", "wf_51", "medium_dag_100", "huge_dag_1000", "plain"] {
        for seed in 0..5 {
            let g = graph(id, seed);
            let n = g.tasks.len();
            for (i, task) in g.tasks.iter().enumerate() {
                assert_eq!(task.id, format!("task_{i}"));
            }
            for e in &g.edges {
                let s = index_of(&e.source);
                let t = index_of(&e.target);
                assert!(s < t && t < n, "edge {s} -> {t} of {n}");
                assert_ne!(t, 0);
            }
        }
    }
}

#[test]
fn small_plan_has_no_duplicate_and_reaches_every_task() {
    for n in [1usize, 2, 3, 5, 20, 50] {
        for seed in 0..20 {
            let mut rng = StdRng::seed_from_u64(seed);
            let plan = small_edge_plan(n, &mut rng);
            for (a, x) in plan.iter().enumerate() {
                for y in &plan[a + 1..] {
                    assert_ne!(x, y);
                }
            }
            for t in 1..n {
                let into = plan.iter().filter(|e| e.1 == t).count();
                assert!(into == 1 || into == 2, "{into} edges into {t}");
            }
            if n >= 2 {
                assert_eq!(plan[0], (0, 1));
                assert!(plan.len() >= n - 1 && plan.len() <= 2 * (n - 1));
            } else {
                assert!(plan.is_empty());
            }
        }
    }
}

#[test]
fn small_step_adds_chain_branch_and_extra_edges() {
    let mut plan = vec![(0, 1), (1, 2), (2, 3)];
    small_regime_step(&mut plan, 4, None, None);
    assert_eq!(plan, vec![(0, 1), (1, 2), (2, 3), (3, 4)]);
    small_regime_step(&mut plan, 5, Some(1), Some(1));
    assert_eq!(plan, vec![(0, 1), (1, 2), (2, 3), (3, 4), (1, 5)]);
    small_regime_step(&mut plan, 6, Some(2), Some(0));
    assert_eq!(plan, vec![(0, 1), (1, 2), (2, 3), (3, 4), (1, 5), (2, 6), (0, 6)]);
    small_regime_step(&mut plan, 7, None, Some(3));
    assert_eq!(plan.len(), 9);
    assert_eq!(plan[7], (6, 7));
    assert_eq!(plan[8], (3, 7));
    assert!(plan_contains(&plan, 3, 7));
    assert!(!plan_contains(&plan, 7, 3));
}

#[test]
fn large_plan_has_chain_fan_outs_and_cross_links() {
    for n in [51usize, 100, 500, 1000] {
        for seed in 0..5 {
            let mut rng = StdRng::seed_from_u64(seed);
            let plan = large_edge_plan(n, &mut rng);
            for i in 1..n {
                let source = if i % 10 == 0 { i - 10 } else { i - 1 };
                assert_eq!(plan[i - 1], (source, i));
            }
            let rest = &plan[n - 1..];
            let links_at = rest
                .iter()
                .position(|e| e.1 - e.0 > 10)
                .unwrap_or(rest.len());
            for e in &rest[..links_at] {
                assert!(e.0 >= 5 && e.0 % 5 == 0);
                assert!((2..=10).contains(&(e.1 - e.0)) && e.1 < n);
            }
            for e in &rest[links_at..] {
                assert!(e.0 >= 20 && e.0 % 20 == 0);
                assert!((15..=30).contains(&(e.1 - e.0)) && e.1 < n);
            }
            for s in (5..n).step_by(5) {
                assert!(rest[..links_at].iter().filter(|e| e.0 == s).count() <= 4);
            }
            for s in (20..n).step_by(20) {
                assert!(rest[links_at..].iter().filter(|e| e.0 == s).count() <= 1);
            }
        }
    }
}

#[test]
fn plan_rule_follows_the_size() {
    let mut rng = StdRng::seed_from_u64(11);
    let small = edge_plan(50, &mut rng);
    assert!(small.len() <= 2 * 49);
    let large = edge_plan(51, &mut rng);
    assert_eq!(large[9], (0, 10));
    assert_eq!(large[19], (10, 20));
    assert_eq!(large[18], (18, 19));
}

#[test]
fn chain_source_and_forward_target_values() {
    assert_eq!(chain_source(1), 0);
    assert_eq!(chain_source(9), 8);
    assert_eq!(chain_source(10), 0);
    assert_eq!(chain_source(11), 10);
    assert_eq!(chain_source(990), 980);
    assert_eq!(forward_target(5, 2, 8), Some(7));
    assert_eq!(forward_target(5, 3, 8), None);
    assert_eq!(forward_target(usize::MAX, 3, 8), None);
}

#[test]
fn same_seed_gives_same_graph() {
    assert_eq!(graph("medium_dag_100", 42), graph("medium_dag_100", 42));
    assert_eq!(graph("plain", 42), graph("plain", 42));
    assert_ne!(graph("medium_dag_100", 42).edges, graph("medium_dag_100", 43).edges);
}

#[test]
fn graph_keeps_the_identifier() {
    assert_eq!(graph("wf_7", 0).dag_id, "wf_7");
}
