pub mod gke_client;

use vstd::prelude::*;

verus! {

/// What has to be fetched from the control plane to evaluate one expectation.
#[derive(Debug, PartialEq, Eq, Clone)]
pub enum FetchRequest {
    /// The status of the GKE cluster of this resource name.
    Cluster { name: String },
    /// The status of the GKE node pool of this resource name.
    NodePool { name: String },
    /// The state of this Cloud SQL instance.
    SqlInstance { project: String, instance: String },
}

/// What a [`FetchRequest`] holds, as a mathematical value.
pub enum FetchRequestView {
    Cluster { name: Seq<char> },
    NodePool { name: Seq<char> },
    SqlInstance { project: Seq<char>, instance: Seq<char> },
}

impl View for FetchRequest {
    type V = FetchRequestView;

    open spec fn view(&self) -> FetchRequestView {
        match self {
            FetchRequest::Cluster { name } => FetchRequestView::Cluster { name: name@ },
            FetchRequest::NodePool { name } => FetchRequestView::NodePool { name: name@ },
            FetchRequest::SqlInstance { project, instance } => FetchRequestView::SqlInstance {
                project: project@,
                instance: instance@,
            },
        }
    }
}

} // verus!
