use yubi::document::{Node, ParseError};
use yubi::spec::cluster_status::ClusterStatus;
use yubi::spec::node_pool_status::NodePoolStatus;
use yubi::spec::sql_instance_status::SqlInstanceStatus;

#[test]
fn test_cluster_status_names() {
    assert_eq!(ClusterStatus::Unspecified.to_string(), "Unspecified");
    assert_eq!(ClusterStatus::Provisioning.to_string(), "Provisioning");
    assert_eq!(ClusterStatus::Running.to_string(), "Running");
    assert_eq!(ClusterStatus::Reconciling.to_string(), "Reconciling");
    assert_eq!(ClusterStatus::Stopping.to_string(), "Stopping");
    assert_eq!(ClusterStatus::Error.to_string(), "Error");
    assert_eq!(ClusterStatus::Degraded.to_string(), "Degraded");
}

#[test]
fn test_node_pool_status_names() {
    assert_eq!(NodePoolStatus::Unspecified.to_string(), "Unspecified");
    assert_eq!(NodePoolStatus::Provisioning.to_string(), "Provisioning");
    assert_eq!(NodePoolStatus::Running.to_string(), "Running");
    assert_eq!(NodePoolStatus::RunningWithError.to_string(), "RunningWithError");
    assert_eq!(NodePoolStatus::Reconciling.to_string(), "Reconciling");
    assert_eq!(NodePoolStatus::Stopping.to_string(), "Stopping");
    assert_eq!(NodePoolStatus::Error.to_string(), "Error");
}

#[test]
fn test_sql_instance_status_names() {
    assert_eq!(SqlInstanceStatus::Unspecified.to_string(), "Unspecified");
    assert_eq!(SqlInstanceStatus::Runnable.to_string(), "Runnable");
    assert_eq!(SqlInstanceStatus::Suspended.to_string(), "Suspended");
    assert_eq!(SqlInstanceStatus::PendingDelete.to_string(), "PendingDelete");
    assert_eq!(SqlInstanceStatus::PendingCreate.to_string(), "PendingCreate");
    assert_eq!(SqlInstanceStatus::Maintenance.to_string(), "Maintenance");
    assert_eq!(SqlInstanceStatus::Failed.to_string(), "Failed");
    assert_eq!(SqlInstanceStatus::OnlineMaintenance.to_string(), "OnlineMaintenance");
}

#[test]
fn test_cluster_status_serialize() {
    assert_eq!(ClusterStatus::Unspecified.serialize(), Node::Text(format!("Unspecified")));
    assert_eq!(ClusterStatus::Degraded.serialize(), Node::Text(format!("Degraded")));
}

#[test]
fn test_node_pool_status_serialize() {
    assert_eq!(
        NodePoolStatus::RunningWithError.serialize(),
        Node::Text(format!("RunningWithError"))
    );
}

#[test]
fn test_sql_instance_status_serialize() {
    assert_eq!(
        SqlInstanceStatus::OnlineMaintenance.serialize(),
        Node::Text(format!("OnlineMaintenance"))
    );
}

#[test]
fn test_cluster_status_from_code() {
    assert_eq!(ClusterStatus::from_code(0), Some(ClusterStatus::Unspecified));
    assert_eq!(ClusterStatus::from_code(1), Some(ClusterStatus::Provisioning));
    assert_eq!(ClusterStatus::from_code(2), Some(ClusterStatus::Running));
    assert_eq!(ClusterStatus::from_code(3), Some(ClusterStatus::Reconciling));
    assert_eq!(ClusterStatus::from_code(4), Some(ClusterStatus::Stopping));
    assert_eq!(ClusterStatus::from_code(5), Some(ClusterStatus::Error));
    assert_eq!(ClusterStatus::from_code(6), Some(ClusterStatus::Degraded));
    assert_eq!(ClusterStatus::from_code(7), None);
    assert_eq!(ClusterStatus::from_code(-1), None);
}

#[test]
fn test_node_pool_status_from_code() {
    assert_eq!(NodePoolStatus::from_code(0), Some(NodePoolStatus::Unspecified));
    assert_eq!(NodePoolStatus::from_code(1), Some(NodePoolStatus::Provisioning));
    assert_eq!(NodePoolStatus::from_code(2), Some(NodePoolStatus::Running));
    assert_eq!(NodePoolStatus::from_code(3), Some(NodePoolStatus::RunningWithError));
    assert_eq!(NodePoolStatus::from_code(4), Some(NodePoolStatus::Reconciling));
    assert_eq!(NodePoolStatus::from_code(5), Some(NodePoolStatus::Stopping));
    assert_eq!(NodePoolStatus::from_code(6), Some(NodePoolStatus::Error));
    assert_eq!(NodePoolStatus::from_code(7), None);
    assert_eq!(NodePoolStatus::from_code(i32::MIN), None);
}

#[test]
fn test_sql_instance_status_from_code() {
    assert_eq!(SqlInstanceStatus::from_code(0), Some(SqlInstanceStatus::Unspecified));
    assert_eq!(SqlInstanceStatus::from_code(1), Some(SqlInstanceStatus::Runnable));
    assert_eq!(SqlInstanceStatus::from_code(2), Some(SqlInstanceStatus::Suspended));
    assert_eq!(SqlInstanceStatus::from_code(3), Some(SqlInstanceStatus::PendingDelete));
    assert_eq!(SqlInstanceStatus::from_code(4), Some(SqlInstanceStatus::PendingCreate));
    assert_eq!(SqlInstanceStatus::from_code(5), Some(SqlInstanceStatus::Maintenance));
    assert_eq!(SqlInstanceStatus::from_code(6), Some(SqlInstanceStatus::Failed));
    assert_eq!(SqlInstanceStatus::from_code(7), Some(SqlInstanceStatus::OnlineMaintenance));
    assert_eq!(SqlInstanceStatus::from_code(8), None);
    assert_eq!(SqlInstanceStatus::from_code(i32::MAX), None);
}

#[test]
fn test_status_from_name_reads_every_name_back() {
    for code in 0..7 {
        let status = ClusterStatus::from_code(code).unwrap();
        assert_eq!(ClusterStatus::from_name(&status.to_string()), Some(status));
        let status = NodePoolStatus::from_code(code).unwrap();
        assert_eq!(NodePoolStatus::from_name(&status.to_string()), Some(status));
    }
    for code in 0..8 {
        let status = SqlInstanceStatus::from_code(code).unwrap();
        assert_eq!(SqlInstanceStatus::from_name(&status.to_string()), Some(status));
    }
}

#[test]
fn test_status_from_name_keeps_the_kinds_apart() {
    assert_eq!(ClusterStatus::from_name(&format!("RunningWithError")), None);
    assert_eq!(NodePoolStatus::from_name(&format!("Degraded")), None);
    assert_eq!(SqlInstanceStatus::from_name(&format!("Running")), None);
    assert_eq!(ClusterStatus::from_name(&format!("running")), None);
    assert_eq!(ClusterStatus::from_name(&format!("")), None);
}

#[test]
fn test_status_is_among() {
    let accepted = vec![ClusterStatus::Provisioning, ClusterStatus::Running];
    assert!(ClusterStatus::Running.is_among(&accepted));
    assert!(ClusterStatus::Provisioning.is_among(&accepted));
    assert!(!ClusterStatus::Degraded.is_among(&accepted));
    assert!(!ClusterStatus::Running.is_among(&vec![]));
}

#[test]
fn test_status_serialize_all_keeps_order_and_repeats() {
    let node = SqlInstanceStatus::serialize_all(&vec![
        SqlInstanceStatus::Runnable,
        SqlInstanceStatus::Unspecified,
        SqlInstanceStatus::Runnable,
    ]);
    assert_eq!(
        node,
        Node::List(vec![
            Node::Text(format!("Runnable")),
            Node::Text(format!("Unspecified")),
            Node::Text(format!("Runnable")),
        ])
    );
    assert_eq!(ClusterStatus::serialize_all(&vec![]), Node::List(vec![]));
}

#[test]
fn test_status_deserialize_all() {
    let items = vec![Node::Text(format!("Provisioning")), Node::Text(format!("Running"))];
    assert_eq!(
        NodePoolStatus::deserialize_all(&items),
        Ok(vec![NodePoolStatus::Provisioning, NodePoolStatus::Running])
    );
    assert_eq!(ClusterStatus::deserialize_all(&vec![]), Ok(vec![]));
}

#[test]
fn test_status_deserialize_all_gives_the_first_error() {
    let items = vec![
        Node::Text(format!("Running")),
        Node::Text(format!("Sleeping")),
        Node::Count(3),
    ];
    assert_eq!(
        ClusterStatus::deserialize_all(&items),
        Err(ParseError::UnknownStatus { name: format!("Sleeping") })
    );
    let items = vec![Node::List(vec![]), Node::Text(format!("Sleeping"))];
    assert_eq!(
        ClusterStatus::deserialize_all(&items),
        Err(ParseError::InvalidField { field: format!("status") })
    );
}
