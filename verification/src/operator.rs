pub mod cloud_sql_instance_status_operator;
pub mod gke_cluster_status_operator;
pub mod gke_node_pool_status_operator;
