use yubi::client::FetchRequest;
use yubi::document::{Entry, Node, ParseError};
use yubi::spec::cluster_status::ClusterStatus;
use yubi::spec::node_pool_status::NodePoolStatus;
use yubi::spec::result::SpecResult;
use yubi::spec::sql_instance_status::SqlInstanceStatus;
use yubi::spec::Spec;

fn text(value: &str) -> Node {
    Node::Text(value.to_string())
}

fn entry(key: &str, value: Node) -> Entry {
    Entry { key: key.to_string(), value }
}

fn names(values: &[&str]) -> Node {
    Node::List(values.iter().map(|value| text(value)).collect())
}

fn cluster_spec(number: &str, status: Vec<ClusterStatus>) -> Spec {
    Spec::GKEClusterStatus {
        project: format!("project-{}", number),
        location: format!("location-{}", number),
        cluster: format!("cluster-{}", number),
        status,
    }
}

fn node_pool_spec(number: &str, status: Vec<NodePoolStatus>) -> Spec {
    Spec::GKENodePoolStatus {
        project: format!("project-{}", number),
        location: format!("location-{}", number),
        cluster: format!("cluster-{}", number),
        node_pool: format!("node_pool-{}", number),
        status,
    }
}

fn sql_instance_spec(number: &str, status: Vec<SqlInstanceStatus>) -> Spec {
    Spec::CloudSqlInstanceStatus {
        project: format!("project-{}", number),
        instance: format!("sql_instance-{}", number),
        status,
    }
}

fn cluster_document(number: &str, status: &[&str]) -> Node {
    Node::Table(vec![
        entry("operator", text("GKEClusterStatus")),
        entry("project", text(&format!("project-{}", number))),
        entry("location", text(&format!("location-{}", number))),
        entry("cluster", text(&format!("cluster-{}", number))),
        entry("status", names(status)),
    ])
}

fn node_pool_document(number: &str, status: &[&str]) -> Node {
    Node::Table(vec![
        entry("operator", text("GKENodePoolStatus")),
        entry("project", text(&format!("project-{}", number))),
        entry("location", text(&format!("location-{}", number))),
        entry("cluster", text(&format!("cluster-{}", number))),
        entry("node_pool", text(&format!("node_pool-{}", number))),
        entry("status", names(status)),
    ])
}

fn sql_instance_document(number: &str, status: &[&str]) -> Node {
    Node::Table(vec![
        entry("operator", text("CloudSqlInstanceStatus")),
        entry("project", text(&format!("project-{}", number))),
        entry("instance", text(&format!("sql_instance-{}", number))),
        entry("status", names(status)),
    ])
}

#[test]
fn test_spec_serialize_cluster_one_status() {
    let spec = cluster_spec("001", vec![ClusterStatus::Provisioning]);
    assert_eq!(spec.serialize(), cluster_document("001", &["Provisioning"]));
}

#[test]
fn test_spec_serialize_cluster_two_statuses() {
    let spec = cluster_spec("002", vec![ClusterStatus::Provisioning, ClusterStatus::Running]);
    assert_eq!(spec.serialize(), cluster_document("002", &["Provisioning", "Running"]));
}

#[test]
fn test_spec_serialize_node_pool_one_status() {
    let spec = node_pool_spec("001", vec![NodePoolStatus::Provisioning]);
    assert_eq!(spec.serialize(), node_pool_document("001", &["Provisioning"]));
}

#[test]
fn test_spec_serialize_node_pool_two_statuses() {
    let spec = node_pool_spec("002", vec![NodePoolStatus::Provisioning, NodePoolStatus::Running]);
    assert_eq!(spec.serialize(), node_pool_document("002", &["Provisioning", "Running"]));
}

#[test]
fn test_spec_serialize_sql_instance_one_status() {
    let spec = sql_instance_spec("001", vec![SqlInstanceStatus::Unspecified]);
    assert_eq!(spec.serialize(), sql_instance_document("001", &["Unspecified"]));
}

#[test]
fn test_spec_serialize_sql_instance_two_statuses() {
    let spec = sql_instance_spec(
        "002",
        vec![SqlInstanceStatus::Unspecified, SqlInstanceStatus::Runnable],
    );
    assert_eq!(spec.serialize(), sql_instance_document("002", &["Unspecified", "Runnable"]));
}

#[test]
fn test_spec_round_trip() {
    let specs = vec![
        cluster_spec("001", vec![ClusterStatus::Provisioning]),
        cluster_spec("002", vec![ClusterStatus::Provisioning, ClusterStatus::Running]),
        cluster_spec("003", vec![]),
        node_pool_spec("001", vec![NodePoolStatus::RunningWithError]),
        node_pool_spec("002", vec![NodePoolStatus::Error, NodePoolStatus::Stopping]),
        sql_instance_spec("001", vec![SqlInstanceStatus::OnlineMaintenance]),
        sql_instance_spec(
            "002",
            vec![
                SqlInstanceStatus::Runnable,
                SqlInstanceStatus::Failed,
                SqlInstanceStatus::Runnable,
            ],
        ),
    ];
    for spec in specs {
        assert_eq!(Spec::deserialize(&spec.serialize()), Ok(spec));
    }
}

#[test]
fn test_spec_deserialize_takes_entries_in_any_order_and_passes_over_others() {
    let document = Node::Table(vec![
        entry("status", names(&["Running"])),
        entry("comment", Node::Count(7)),
        entry("cluster", text("cluster-001")),
        entry("operator", text("GKEClusterStatus")),
        entry("location", text("location-001")),
        entry("node_pool", text("not a field of this kind")),
        entry("project", text("project-001")),
    ]);
    assert_eq!(
        Spec::deserialize(&document),
        Ok(cluster_spec("001", vec![ClusterStatus::Running]))
    );
}

#[test]
fn test_spec_deserialize_not_a_table() {
    assert_eq!(Spec::deserialize(&text("GKEClusterStatus")), Err(ParseError::NotATable));
    assert_eq!(Spec::deserialize(&Node::List(vec![])), Err(ParseError::NotATable));
    assert_eq!(Spec::deserialize(&Node::Count(1)), Err(ParseError::NotATable));
}

#[test]
fn test_spec_deserialize_missing_field() {
    assert_eq!(
        Spec::deserialize(&Node::Table(vec![])),
        Err(ParseError::MissingField { field: format!("operator") })
    );
    let document = Node::Table(vec![
        entry("operator", text("CloudSqlInstanceStatus")),
        entry("project", text("p")),
        entry("status", names(&["Runnable"])),
    ]);
    assert_eq!(
        Spec::deserialize(&document),
        Err(ParseError::MissingField { field: format!("instance") })
    );
    let document = Node::Table(vec![
        entry("operator", text("GKENodePoolStatus")),
        entry("project", text("p")),
        entry("location", text("l")),
        entry("cluster", text("c")),
        entry("node_pool", text("n")),
    ]);
    assert_eq!(
        Spec::deserialize(&document),
        Err(ParseError::MissingField { field: format!("status") })
    );
}

#[test]
fn test_spec_deserialize_duplicate_field() {
    let document = Node::Table(vec![
        entry("operator", text("CloudSqlInstanceStatus")),
        entry("project", text("p")),
        entry("instance", text("i")),
        entry("project", text("q")),
        entry("status", names(&["Runnable"])),
    ]);
    assert_eq!(
        Spec::deserialize(&document),
        Err(ParseError::DuplicateField { field: format!("project") })
    );
}

#[test]
fn test_spec_deserialize_invalid_field() {
    let document = Node::Table(vec![
        entry("operator", text("CloudSqlInstanceStatus")),
        entry("project", Node::Count(12)),
        entry("instance", text("i")),
        entry("status", names(&["Runnable"])),
    ]);
    assert_eq!(
        Spec::deserialize(&document),
        Err(ParseError::InvalidField { field: format!("project") })
    );
    let document = Node::Table(vec![
        entry("operator", text("CloudSqlInstanceStatus")),
        entry("project", text("p")),
        entry("instance", text("i")),
        entry("status", text("Runnable")),
    ]);
    assert_eq!(
        Spec::deserialize(&document),
        Err(ParseError::InvalidField { field: format!("status") })
    );
    let document = Node::Table(vec![entry("operator", Node::List(vec![]))]);
    assert_eq!(
        Spec::deserialize(&document),
        Err(ParseError::InvalidField { field: format!("operator") })
    );
}

#[test]
fn test_spec_deserialize_unknown_operator() {
    let document = Node::Table(vec![entry("operator", text("GKEClusterState"))]);
    assert_eq!(
        Spec::deserialize(&document),
        Err(ParseError::UnknownOperator { name: format!("GKEClusterState") })
    );
}

#[test]
fn test_spec_deserialize_unknown_status() {
    assert_eq!(
        Spec::deserialize(&cluster_document("001", &["Running", "RunningWithError"])),
        Err(ParseError::UnknownStatus { name: format!("RunningWithError") })
    );
    assert_eq!(
        Spec::deserialize(&sql_instance_document("001", &["Running"])),
        Err(ParseError::UnknownStatus { name: format!("Running") })
    );
}

#[test]
fn test_spec_deserialize_gives_the_first_error_in_field_order() {
    let document = Node::Table(vec![
        entry("operator", text("GKEClusterStatus")),
        entry("status", names(&["Nowhere"])),
        entry("cluster", Node::Count(1)),
        entry("project", text("p")),
    ]);
    assert_eq!(
        Spec::deserialize(&document),
        Err(ParseError::MissingField { field: format!("location") })
    );
}

#[test]
fn test_spec_deserialize_list() {
    let document = Node::List(vec![
        sql_instance_document("002", &["Unspecified", "Runnable"]),
        cluster_document("001", &["Provisioning"]),
        cluster_document("001", &["Provisioning"]),
    ]);
    assert_eq!(
        Spec::deserialize_list(&document),
        Ok(vec![
            sql_instance_spec(
                "002",
                vec![SqlInstanceStatus::Unspecified, SqlInstanceStatus::Runnable]
            ),
            cluster_spec("001", vec![ClusterStatus::Provisioning]),
            cluster_spec("001", vec![ClusterStatus::Provisioning]),
        ])
    );
    assert_eq!(Spec::deserialize_list(&Node::List(vec![])), Ok(vec![]));
}

#[test]
fn test_spec_deserialize_list_errors() {
    assert_eq!(
        Spec::deserialize_list(&cluster_document("001", &["Provisioning"])),
        Err(ParseError::NotAList)
    );
    let document = Node::List(vec![
        cluster_document("001", &["Provisioning"]),
        Node::Table(vec![entry("operator", text("Nothing"))]),
        text("neither"),
    ]);
    assert_eq!(
        Spec::deserialize_list(&document),
        Err(ParseError::UnknownOperator { name: format!("Nothing") })
    );
}

#[test]
fn test_parse_error_messages() {
    assert_eq!(ParseError::NotATable.to_string(), "expected a table");
    assert_eq!(ParseError::NotAList.to_string(), "expected a list");
    assert_eq!(
        ParseError::MissingField { field: format!("status") }.to_string(),
        "missing field `status`"
    );
    assert_eq!(
        ParseError::DuplicateField { field: format!("project") }.to_string(),
        "duplicate field `project`"
    );
    assert_eq!(
        ParseError::InvalidField { field: format!("cluster") }.to_string(),
        "invalid value for field `cluster`"
    );
    assert_eq!(
        ParseError::UnknownOperator { name: format!("X") }.to_string(),
        "unknown operator `X`"
    );
    assert_eq!(
        ParseError::UnknownStatus { name: format!("Y") }.to_string(),
        "unknown status `Y`"
    );
}

#[test]
fn test_spec_request() {
    assert_eq!(
        cluster_spec("001", vec![ClusterStatus::Running]).request(),
        FetchRequest::Cluster {
            name: format!("projects/project-001/locations/location-001/clusters/cluster-001")
        }
    );
    assert_eq!(
        node_pool_spec("002", vec![NodePoolStatus::Running]).request(),
        FetchRequest::NodePool {
            name: format!(
                "projects/project-002/locations/location-002/clusters/cluster-002/nodePools/node_pool-002"
            )
        }
    );
    assert_eq!(
        sql_instance_spec("003", vec![SqlInstanceStatus::Runnable]).request(),
        FetchRequest::SqlInstance {
            project: format!("project-003"),
            instance: format!("sql_instance-003")
        }
    );
}

#[test]
fn test_spec_check_running_cluster_succeeds() {
    let spec = Spec::GKEClusterStatus {
        project: format!("p"),
        location: format!("l"),
        cluster: format!("c1"),
        status: vec![ClusterStatus::Provisioning, ClusterStatus::Running],
    };
    assert_eq!(
        spec.check(Ok(2)).unwrap(),
        SpecResult::Success { description: format!("c1 is Running") }
    );
}

#[test]
fn test_spec_check_degraded_cluster_fails() {
    let spec = Spec::GKEClusterStatus {
        project: format!("p"),
        location: format!("l"),
        cluster: format!("c1"),
        status: vec![ClusterStatus::Provisioning, ClusterStatus::Running],
    };
    assert_eq!(
        spec.check(Ok(6)).unwrap(),
        SpecResult::Failure { description: format!("c1 is Degraded") }
    );
}

#[test]
fn test_spec_check_reads_the_code_by_the_kind() {
    let node_pool = node_pool_spec("001", vec![NodePoolStatus::RunningWithError]);
    assert_eq!(
        node_pool.check(Ok(3)).unwrap(),
        SpecResult::Success { description: format!("node_pool-001 is RunningWithError") }
    );
    let cluster = cluster_spec("001", vec![ClusterStatus::Reconciling]);
    assert_eq!(
        cluster.check(Ok(3)).unwrap(),
        SpecResult::Success { description: format!("cluster-001 is Reconciling") }
    );
    let instance = sql_instance_spec("001", vec![SqlInstanceStatus::Runnable]);
    assert_eq!(
        instance.check(Ok(3)).unwrap(),
        SpecResult::Failure { description: format!("sql_instance-001 is PendingDelete") }
    );
    assert_eq!(
        instance.check(Ok(7)).unwrap(),
        SpecResult::Failure { description: format!("sql_instance-001 is OnlineMaintenance") }
    );
}

#[test]
fn test_spec_check_errors() {
    let spec = cluster_spec("001", vec![ClusterStatus::Running]);
    let error = spec.check(Err(anyhow::Error::msg("connection refused"))).unwrap_err();
    assert_eq!(format!("{}", error), "connection refused");
    let error = spec.check(Ok(7)).unwrap_err();
    assert_eq!(format!("{}", error), "cluster-001 has an unrecognized status");
    let spec = node_pool_spec("001", vec![NodePoolStatus::Running]);
    let error = spec.check(Ok(-3)).unwrap_err();
    assert_eq!(format!("{}", error), "node_pool-001 has an unrecognized status");
}
