use vstd::prelude::*;

verus! {

/// The resource name of a cluster, as the container API takes it.
pub open spec fn cluster_resource_name(
    project: Seq<char>,
    location: Seq<char>,
    cluster: Seq<char>,
) -> Seq<char> {
    "projects/"@ + project + "/locations/"@ + location + "/clusters/"@ + cluster
}

/// The resource name of a node pool, as the container API takes it.
pub open spec fn node_pool_resource_name(
    project: Seq<char>,
    location: Seq<char>,
    cluster: Seq<char>,
    node_pool: Seq<char>,
) -> Seq<char> {
    cluster_resource_name(project, location, cluster) + "/nodePools/"@ + node_pool
}

/// Builds the resource name under which a cluster is asked for.
pub fn cluster_name(project: &String, location: &String, cluster: &String) -> (name: String)
    ensures
        name@ == cluster_resource_name(project@, location@, cluster@),
{
    let mut name = String::from_str("projects/");
    name.append(project.as_str());
    name.append("/locations/");
    name.append(location.as_str());
    name.append("/clusters/");
    name.append(cluster.as_str());
    name
}

/// Builds the resource name under which a node pool is asked for.
pub fn node_pool_name(
    project: &String,
    location: &String,
    cluster: &String,
    node_pool: &String,
) -> (name: String)
    ensures
        name@ == node_pool_resource_name(project@, location@, cluster@, node_pool@),
{
    let mut name = cluster_name(project, location, cluster);
    name.append("/nodePools/");
    name.append(node_pool.as_str());
    name
}

} // verus!
