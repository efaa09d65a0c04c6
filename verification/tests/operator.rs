use yubi::operator::cloud_sql_instance_status_operator::CloudSqlInstanceStatusOperator;
use yubi::operator::gke_cluster_status_operator::GKEClusterStatusOperator;
use yubi::operator::gke_node_pool_status_operator::GKENodePoolStatusOperator;
use yubi::spec::cluster_status::ClusterStatus;
use yubi::spec::node_pool_status::NodePoolStatus;
use yubi::spec::result::SpecResult;
use yubi::spec::sql_instance_status::SqlInstanceStatus;

fn cluster_operator(cluster: &str) -> GKEClusterStatusOperator {
    GKEClusterStatusOperator::new(
        format!("project"),
        format!("location"),
        cluster.to_string(),
        vec![ClusterStatus::Provisioning, ClusterStatus::Running],
    )
}

fn node_pool_operator(node_pool: &str) -> GKENodePoolStatusOperator {
    GKENodePoolStatusOperator::new(
        format!("project"),
        format!("location"),
        format!("cluster"),
        node_pool.to_string(),
        vec![NodePoolStatus::Provisioning, NodePoolStatus::Running],
    )
}

fn instance_operator(instance: &str) -> CloudSqlInstanceStatusOperator {
    CloudSqlInstanceStatusOperator::new(
        format!("project"),
        instance.to_string(),
        vec![SqlInstanceStatus::Unspecified, SqlInstanceStatus::Runnable],
    )
}

fn success(description: &str) -> SpecResult {
    SpecResult::Success { description: description.to_string() }
}

fn failure(description: &str) -> SpecResult {
    SpecResult::Failure { description: description.to_string() }
}

#[test]
fn test_cluster_compare() {
    let cases = vec![
        ("cluster-001", 0, failure("cluster-001 is Unspecified")),
        ("cluster-002", 1, success("cluster-002 is Provisioning")),
        ("cluster-003", 2, success("cluster-003 is Running")),
        ("cluster-004", 3, failure("cluster-004 is Reconciling")),
        ("cluster-005", 4, failure("cluster-005 is Stopping")),
        ("cluster-006", 5, failure("cluster-006 is Error")),
        ("cluster-007", 6, failure("cluster-007 is Degraded")),
    ];
    for (cluster, code, expected) in cases {
        let operator = cluster_operator(cluster);
        assert_eq!(operator.compare(code).unwrap(), expected);
    }
}

#[test]
fn test_cluster_check() {
    let cases = vec![
        ("cluster-001", 0, failure("cluster-001 is Unspecified")),
        ("cluster-002", 1, success("cluster-002 is Provisioning")),
        ("cluster-003", 2, success("cluster-003 is Running")),
        ("cluster-004", 3, failure("cluster-004 is Reconciling")),
        ("cluster-005", 4, failure("cluster-005 is Stopping")),
        ("cluster-006", 5, failure("cluster-006 is Error")),
        ("cluster-007", 6, failure("cluster-007 is Degraded")),
    ];
    for (cluster, code, expected) in cases {
        let operator = cluster_operator(cluster);
        assert_eq!(operator.check(Ok(code)).unwrap(), expected);
    }
}

#[test]
fn test_cluster_compare_with() {
    let operator = cluster_operator("c1");
    assert_eq!(operator.compare_with(ClusterStatus::Running), success("c1 is Running"));
    assert_eq!(operator.compare_with(ClusterStatus::Degraded), failure("c1 is Degraded"));
}

#[test]
fn test_node_pool_compare() {
    let cases = vec![
        ("node_pool-001", 0, failure("node_pool-001 is Unspecified")),
        ("node_pool-002", 1, success("node_pool-002 is Provisioning")),
        ("node_pool-003", 2, success("node_pool-003 is Running")),
        ("node_pool-004", 3, failure("node_pool-004 is RunningWithError")),
        ("node_pool-005", 4, failure("node_pool-005 is Reconciling")),
        ("node_pool-006", 5, failure("node_pool-006 is Stopping")),
        ("node_pool-007", 6, failure("node_pool-007 is Error")),
    ];
    for (node_pool, code, expected) in cases {
        let operator = node_pool_operator(node_pool);
        assert_eq!(operator.compare(code).unwrap(), expected);
        assert_eq!(operator.check(Ok(code)).unwrap(), expected);
    }
}

#[test]
fn test_sql_instance_compare() {
    let cases = vec![
        ("instance-001", 0, success("instance-001 is Unspecified")),
        ("instance-002", 1, success("instance-002 is Runnable")),
        ("instance-003", 2, failure("instance-003 is Suspended")),
        ("instance-004", 3, failure("instance-004 is PendingDelete")),
        ("instance-005", 4, failure("instance-005 is PendingCreate")),
        ("instance-006", 5, failure("instance-006 is Maintenance")),
        ("instance-007", 6, failure("instance-007 is Failed")),
        ("instance-008", 7, failure("instance-008 is OnlineMaintenance")),
    ];
    for (instance, code, expected) in cases {
        let operator = instance_operator(instance);
        assert_eq!(operator.compare(code).unwrap(), expected);
        assert_eq!(operator.check(Ok(code)).unwrap(), expected);
    }
}

#[test]
fn test_compare_is_success_exactly_for_members() {
    let all = [
        ClusterStatus::Unspecified,
        ClusterStatus::Provisioning,
        ClusterStatus::Running,
        ClusterStatus::Reconciling,
        ClusterStatus::Stopping,
        ClusterStatus::Error,
        ClusterStatus::Degraded,
    ];
    for subset in 0u32..128 {
        let accepted: Vec<ClusterStatus> =
            (0..7).filter(|bit| subset & (1 << bit) != 0).map(|bit| all[bit]).collect();
        let operator = GKEClusterStatusOperator::new(
            format!("p"),
            format!("l"),
            format!("c"),
            accepted.clone(),
        );
        for live in all {
            let description = format!("c is {}", live.to_string());
            let expected = if accepted.contains(&live) {
                SpecResult::Success { description }
            } else {
                SpecResult::Failure { description }
            };
            assert_eq!(operator.compare_with(live), expected);
        }
    }
}

#[test]
fn test_compare_twice_gives_the_same_outcome() {
    let operator = node_pool_operator("pool");
    for code in 0..7 {
        assert_eq!(operator.compare(code).unwrap(), operator.compare(code).unwrap());
    }
}

#[test]
fn test_compare_with_an_empty_expectation_always_fails() {
    let operator = CloudSqlInstanceStatusOperator::new(format!("p"), format!("i"), vec![]);
    assert_eq!(operator.compare_with(SqlInstanceStatus::Runnable), failure("i is Runnable"));
}

#[test]
fn test_check_hands_a_failed_fetch_on() {
    let operator = cluster_operator("c1");
    let error = operator.check(Err(anyhow::Error::msg("connection refused"))).unwrap_err();
    assert_eq!(format!("{}", error), "connection refused");
    let operator = node_pool_operator("np");
    let error = operator.check(Err(anyhow::Error::msg("timed out"))).unwrap_err();
    assert_eq!(format!("{}", error), "timed out");
    let operator = instance_operator("i1");
    let error = operator.check(Err(anyhow::Error::msg("denied"))).unwrap_err();
    assert_eq!(format!("{}", error), "denied");
}

#[test]
fn test_compare_refuses_a_code_outside_the_enumeration() {
    let error = cluster_operator("c1").compare(7).unwrap_err();
    assert_eq!(format!("{}", error), "c1 has an unrecognized status");
    let error = node_pool_operator("np1").compare(-1).unwrap_err();
    assert_eq!(format!("{}", error), "np1 has an unrecognized status");
    let error = instance_operator("i1").check(Ok(8)).unwrap_err();
    assert_eq!(format!("{}", error), "i1 has an unrecognized status");
}
