use kube_workspace_operator::quantity::{parse_quantity, QuantityError};
use kube_workspace_operator::sweep::{
    pod_metrics_total_cpu, PodMetrics, PodMetricsContainer, PodMetricsContainerUsage,
};

#[test]
fn milli_rounds_up() {
    assert_eq!(parse_quantity("500m"), Ok(1));
    assert_eq!(parse_quantity("1000m"), Ok(1));
    assert_eq!(parse_quantity("1001m"), Ok(2));
    assert_eq!(parse_quantity("-1500m"), Ok(-1));
}

#[test]
fn binary_and_decimal_suffixes() {
    assert_eq!(parse_quantity("2Gi"), Ok(2 * (1i64 << 30)));
    assert_eq!(parse_quantity("3k"), Ok(3000));
    assert_eq!(parse_quantity("+4M"), Ok(4_000_000));
    assert_eq!(parse_quantity("1Mi"), Ok(1 << 20));
    assert_eq!(parse_quantity("1Ki"), Ok(1 << 20));
    assert_eq!(parse_quantity("5T"), Ok(5_000_000_000_000));
    assert_eq!(parse_quantity("1Pi"), Ok(1 << 50));
    assert_eq!(parse_quantity("2E"), Ok(2_000_000_000_000_000_000));
    assert_eq!(parse_quantity("1Ei"), Ok(1 << 60));
    assert_eq!(parse_quantity("42"), Ok(42));
    assert_eq!(parse_quantity("0"), Ok(0));
}

#[test]
fn large_values_saturate() {
    assert_eq!(parse_quantity("10E"), Ok(i64::MAX));
    assert_eq!(parse_quantity("-10E"), Ok(i64::MIN));
    assert_eq!(parse_quantity("9223372036854775807"), Ok(i64::MAX));
    assert_eq!(parse_quantity("-9223372036854775808"), Ok(i64::MIN));
}

#[test]
fn malformed_quantities() {
    assert_eq!(parse_quantity(""), Err(QuantityError::Empty));
    assert_eq!(parse_quantity("5X"), Err(QuantityError::UnknownSuffix));
    assert_eq!(parse_quantity("5mi"), Err(QuantityError::UnknownSuffix));
    assert_eq!(parse_quantity("5Gib"), Err(QuantityError::UnknownSuffix));
    assert_eq!(parse_quantity("x5"), Err(QuantityError::InvalidStart));
    assert_eq!(parse_quantity("-"), Err(QuantityError::InvalidNumber));
    assert_eq!(parse_quantity("+m"), Err(QuantityError::InvalidNumber));
    assert_eq!(parse_quantity("9223372036854775808"), Err(QuantityError::InvalidNumber));
    assert_eq!(parse_quantity("99999999999999999999999"), Err(QuantityError::InvalidNumber));
}

fn metrics(cpus: &[&str]) -> PodMetrics {
    PodMetrics {
        name: Some("workspace-alice".to_string()),
        containers: cpus
            .iter()
            .map(|c| PodMetricsContainer {
                name: "workspace".to_string(),
                usage: PodMetricsContainerUsage { cpu: c.to_string(), memory: "1Mi".to_string() },
            })
            .collect(),
    }
}

#[test]
fn total_cpu_sums_each_rounded_container() {
    assert_eq!(pod_metrics_total_cpu(&metrics(&["250m", "750m"])), Ok(2));
    assert_eq!(pod_metrics_total_cpu(&metrics(&["3", "4"])), Ok(7));
    assert_eq!(pod_metrics_total_cpu(&metrics(&[])), Ok(0));
    assert_eq!(pod_metrics_total_cpu(&metrics(&["5E", "5E"])), Ok(i64::MAX));
}

#[test]
fn total_cpu_reports_first_bad_container() {
    assert_eq!(pod_metrics_total_cpu(&metrics(&["1", "bad", "5X"])), Err(QuantityError::InvalidStart));
    assert_eq!(pod_metrics_total_cpu(&metrics(&["5X", "bad"])), Err(QuantityError::UnknownSuffix));
}
