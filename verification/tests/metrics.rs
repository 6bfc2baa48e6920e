use rust_agents::{get_metrics, AgentResult, ExecutionMetrics, Failure, Ratio, Wide};

fn completed(duration_ms: u128) -> AgentResult {
    AgentResult::from_outcome("id".to_string(), Ok(Some("text".to_string())), duration_ms)
}

fn failed(duration_ms: u128) -> AgentResult {
    AgentResult::from_outcome("id".to_string(), Err(Failure::Decode), duration_ms)
}

fn sum(low: u128) -> Wide {
    Wide { high: 0, low }
}

fn as_float(ratio: Ratio) -> f64 {
    (ratio.numerator.high as f64 * 2f64.powi(128) + ratio.numerator.low as f64)
        / ratio.denominator as f64
}

#[test]
fn metrics_of_nothing_are_zero() {
    let metrics = get_metrics(&Vec::new());
    assert_eq!(
        metrics,
        ExecutionMetrics {
            total_agents: 0,
            successful: 0,
            failed: 0,
            total_time: Wide { high: 0, low: 0 },
            average_time: Ratio { numerator: Wide { high: 0, low: 0 }, denominator: 1 },
        }
    );
    assert_eq!(metrics.total_time, Wide::zero());
    assert_eq!(as_float(metrics.average_time), 0.0);
}

#[test]
fn successful_and_failed_add_up() {
    let lists: Vec<Vec<AgentResult>> = vec![
        vec![],
        vec![completed(1)],
        vec![failed(1)],
        vec![completed(1), failed(2), completed(3), failed(4), failed(5)],
        (0..40).map(|i| if i % 3 == 0 { failed(i) } else { completed(i) }).collect(),
        vec![completed(u128::MAX), failed(u128::MAX), completed(u128::MAX)],
    ];
    for results in lists {
        let metrics = get_metrics(&results);
        assert_eq!(metrics.total_agents, results.len());
        assert_eq!(metrics.successful + metrics.failed, results.len());
        assert_eq!(metrics.failed, metrics.total_agents - metrics.successful);
    }
}

#[test]
fn counts_by_exact_status() {
    let mut odd = completed(5);
    odd.status = "COMPLETED".to_string();
    let mut unknown = completed(5);
    unknown.status = "running".to_string();
    let results = vec![completed(5), odd, failed(5), unknown, completed(5)];
    let metrics = get_metrics(&results);
    assert_eq!(metrics.total_agents, 5);
    assert_eq!(metrics.successful, 2);
    assert_eq!(metrics.failed, 3);
}

#[test]
fn total_and_average_time() {
    let results = vec![completed(100), failed(250), completed(50)];
    let metrics = get_metrics(&results);
    assert_eq!(metrics.total_time, sum(400));
    assert_eq!(metrics.average_time, Ratio { numerator: sum(400), denominator: 3 });
    assert!((as_float(metrics.average_time) - 400.0 / 3.0).abs() < 1e-9);

    let single = get_metrics(&vec![completed(7)]);
    assert_eq!(single.total_time, sum(7));
    assert_eq!(single.average_time, Ratio { numerator: sum(7), denominator: 1 });
    assert_eq!(as_float(single.average_time), 7.0);

    let idle = get_metrics(&vec![completed(0), completed(0)]);
    assert_eq!(idle.total_time, sum(0));
    assert_eq!(idle.average_time, Ratio { numerator: sum(0), denominator: 2 });
    assert_eq!(as_float(idle.average_time), 0.0);
}

#[test]
fn failed_results_count_in_the_times() {
    let metrics = get_metrics(&vec![failed(30), failed(10)]);
    assert_eq!(metrics.successful, 0);
    assert_eq!(metrics.failed, 2);
    assert_eq!(metrics.total_time, sum(40));
    assert_eq!(metrics.average_time, Ratio { numerator: sum(40), denominator: 2 });
    assert_eq!(as_float(metrics.average_time), 20.0);
}

#[test]
fn average_is_exact_where_it_is_no_whole_number() {
    let metrics = get_metrics(&vec![completed(1), completed(2)]);
    assert_eq!(metrics.total_time, sum(3));
    assert_eq!(metrics.average_time, Ratio { numerator: sum(3), denominator: 2 });
    assert_eq!(as_float(metrics.average_time), 1.5);
}

#[test]
fn widest_single_duration_fits_the_low_part() {
    let metrics = get_metrics(&vec![completed(u128::MAX - 1), failed(1)]);
    assert_eq!(metrics.total_time, Wide { high: 0, low: u128::MAX });
    assert_eq!(
        metrics.average_time,
        Ratio { numerator: Wide { high: 0, low: u128::MAX }, denominator: 2 }
    );
}

#[test]
fn total_time_carries_into_the_high_part() {
    let metrics = get_metrics(&vec![completed(u128::MAX), completed(1)]);
    assert_eq!(metrics.total_time, Wide { high: 1, low: 0 });

    let metrics = get_metrics(&vec![completed(u128::MAX), failed(u128::MAX)]);
    assert_eq!(metrics.total_time, Wide { high: 1, low: u128::MAX - 1 });

    let metrics =
        get_metrics(&vec![completed(u128::MAX), failed(u128::MAX), completed(u128::MAX), failed(5)]);
    assert_eq!(metrics.total_agents, 4);
    assert_eq!(metrics.total_time, Wide { high: 3, low: 2 });
    assert_eq!(metrics.average_time, Ratio { numerator: Wide { high: 3, low: 2 }, denominator: 4 });

    let half = u128::MAX / 2 + 1;
    let metrics = get_metrics(&vec![completed(half), failed(half), completed(7)]);
    assert_eq!(metrics.total_time, Wide { high: 1, low: 7 });
}
