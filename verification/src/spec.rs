pub mod cluster_status;
pub mod node_pool_status;
pub mod result;
pub mod spec_response;
pub mod sql_instance_status;

use crate::client::gke_client::{
    cluster_name, cluster_resource_name, node_pool_name, node_pool_resource_name,
};
use crate::client::{FetchRequest, FetchRequestView};
use crate::document::{
    agrees, entry_views, find_list, find_text, item_views, lemma_field_at, lemma_list_view,
    lemma_table_view, list_field, text_field, text_is, Entry, Node, NodeView, ParseError,
    ParseErrorView,
};
use crate::error::error_text;
use crate::operator::cloud_sql_instance_status_operator::CloudSqlInstanceStatusOperator;
use crate::operator::gke_cluster_status_operator::GKEClusterStatusOperator;
use crate::operator::gke_node_pool_status_operator::GKENodePoolStatusOperator;
use crate::spec::cluster_status::ClusterStatus;
use crate::spec::node_pool_status::NodePoolStatus;
use crate::spec::result::{SpecResult, SpecResultView};
use crate::spec::sql_instance_status::SqlInstanceStatus;
use vstd::prelude::*;

verus! {

/// One expectation: a resource, named by its coordinates, and the statuses in
/// which it may be found.
#[derive(Debug, PartialEq, Eq, Hash, Clone)]
pub enum Spec {
    GKEClusterStatus { project: String, location: String, cluster: String, status: Vec<ClusterStatus> },
    GKENodePoolStatus {
        project: String,
        location: String,
        cluster: String,
        node_pool: String,
        status: Vec<NodePoolStatus>,
    },
    CloudSqlInstanceStatus { project: String, instance: String, status: Vec<SqlInstanceStatus> },
}

/// What a [`Spec`] holds, as a mathematical value.
pub enum SpecView {
    GKEClusterStatus {
        project: Seq<char>,
        location: Seq<char>,
        cluster: Seq<char>,
        status: Seq<ClusterStatus>,
    },
    GKENodePoolStatus {
        project: Seq<char>,
        location: Seq<char>,
        cluster: Seq<char>,
        node_pool: Seq<char>,
        status: Seq<NodePoolStatus>,
    },
    CloudSqlInstanceStatus { project: Seq<char>, instance: Seq<char>, status: Seq<SqlInstanceStatus> },
}

impl SpecView {
    /// The name of the resource that the expectation is about, as it is
    /// written in descriptions.
    pub open spec fn subject(self) -> Seq<char> {
        match self {
            SpecView::GKEClusterStatus { cluster, .. } => cluster,
            SpecView::GKENodePoolStatus { node_pool, .. } => node_pool,
            SpecView::CloudSqlInstanceStatus { instance, .. } => instance,
        }
    }

    /// The name of the status that `code` stands for in the enumeration of
    /// this kind of resource, if it stands for one.
    pub open spec fn live_name(self, code: int) -> Option<Seq<char>> {
        match self {
            SpecView::GKEClusterStatus { .. } => match ClusterStatus::of_code(code) {
                Some(live) => Some(live.name()),
                None => None,
            },
            SpecView::GKENodePoolStatus { .. } => match NodePoolStatus::of_code(code) {
                Some(live) => Some(live.name()),
                None => None,
            },
            SpecView::CloudSqlInstanceStatus { .. } => match SqlInstanceStatus::of_code(code) {
                Some(live) => Some(live.name()),
                None => None,
            },
        }
    }

    /// Whether `code` stands for one of the accepted statuses.
    pub open spec fn accepts(self, code: int) -> bool {
        match self {
            SpecView::GKEClusterStatus { status, .. } => match ClusterStatus::of_code(code) {
                Some(live) => status.contains(live),
                None => false,
            },
            SpecView::GKENodePoolStatus { status, .. } => match NodePoolStatus::of_code(code) {
                Some(live) => status.contains(live),
                None => false,
            },
            SpecView::CloudSqlInstanceStatus { status, .. } => match SqlInstanceStatus::of_code(
                code,
            ) {
                Some(live) => status.contains(live),
                None => false,
            },
        }
    }

    /// The outcome of the expectation on a resource whose status came as
    /// `code`; none where the code is outside the enumeration.
    pub open spec fn outcome(self, code: int) -> Option<SpecResultView> {
        match self.live_name(code) {
            Some(name) => Some(
                SpecResultView::verdict(self.accepts(code), self.subject() + " is "@ + name),
            ),
            None => None,
        }
    }

    /// The message of the error that answers a status code outside the
    /// enumeration.
    pub open spec fn unrecognized(self) -> Seq<char> {
        self.subject() + " has an unrecognized status"@
    }

    /// What has to be fetched to evaluate the expectation.
    pub open spec fn request(self) -> FetchRequestView {
        match self {
            SpecView::GKEClusterStatus { project, location, cluster, .. } => FetchRequestView::Cluster {
                name: cluster_resource_name(project, location, cluster),
            },
            SpecView::GKENodePoolStatus {
                project,
                location,
                cluster,
                node_pool,
                ..
            } => FetchRequestView::NodePool {
                name: node_pool_resource_name(project, location, cluster, node_pool),
            },
            SpecView::CloudSqlInstanceStatus { project, instance, .. } => FetchRequestView::SqlInstance {
                project,
                instance,
            },
        }
    }

    /// The expectation that a document stands for. The document must be a
    /// table whose entry `operator` is the tag of a kind of expectation; the
    /// fields of that kind are then read in the order of their declaration,
    /// each from the one entry under its key, and the first that cannot be
    /// read gives the error. Entries under other keys are passed over.
    pub open spec fn parse(node: NodeView) -> Result<SpecView, ParseErrorView> {
        match node {
            NodeView::Table(entries) => match text_field(entries, "operator"@) {
                Ok(tag) => if tag == "GKEClusterStatus"@ {
                    Self::parse_cluster(entries)
                } else if tag == "GKENodePoolStatus"@ {
                    Self::parse_node_pool(entries)
                } else if tag == "CloudSqlInstanceStatus"@ {
                    Self::parse_sql_instance(entries)
                } else {
                    Err(ParseErrorView::UnknownOperator { name: tag })
                },
                Err(error) => Err(error),
            },
            _ => Err(ParseErrorView::NotATable),
        }
    }

    /// The expectations that `items` stand for, in order; where some item
    /// stands for none, the error of the first such item.
    pub open spec fn parse_each(items: Seq<NodeView>) -> Result<Seq<SpecView>, ParseErrorView>
        decreases items.len(),
    {
        if items.len() == 0 {
            Ok(Seq::empty())
        } else {
            match Self::parse_each(items.drop_last()) {
                Ok(front) => match Self::parse(items.last()) {
                    Ok(spec) => Ok(front.push(spec)),
                    Err(error) => Err(error),
                },
                Err(error) => Err(error),
            }
        }
    }

    /// The expectations that a document lists: the document must be a list,
    /// and each of its items an expectation.
    pub open spec fn parse_list(node: NodeView) -> Result<Seq<SpecView>, ParseErrorView> {
        match node {
            NodeView::List(items) => Self::parse_each(items),
            _ => Err(ParseErrorView::NotAList),
        }
    }

    /// Once a front part of `items` fails to be read, the whole fails with the
    /// same error.
    pub proof fn lemma_first_error_stands(items: Seq<NodeView>, k: int)
        requires
            0 <= k <= items.len(),
            Self::parse_each(items.take(k)) is Err,
        ensures
            Self::parse_each(items) == Self::parse_each(items.take(k)),
        decreases items.len(),
    {
        if k == items.len() {
            assert(items.take(k) =~= items);
        } else {
            assert(items.drop_last().take(k) =~= items.take(k));
            Self::lemma_first_error_stands(items.drop_last(), k);
        }
    }

    /// The expectation on a cluster that the entries of a table stand for.
    pub open spec fn parse_cluster(entries: Seq<(Seq<char>, NodeView)>) -> Result<
        SpecView,
        ParseErrorView,
    > {
        match text_field(entries, "project"@) {
            Ok(project) => match text_field(entries, "location"@) {
                Ok(location) => match text_field(entries, "cluster"@) {
                    Ok(cluster) => match list_field(entries, "status"@) {
                        Ok(items) => match ClusterStatus::parse_all(items) {
                            Ok(status) => Ok(
                                SpecView::GKEClusterStatus { project, location, cluster, status },
                            ),
                            Err(error) => Err(error),
                        },
                        Err(error) => Err(error),
                    },
                    Err(error) => Err(error),
                },
                Err(error) => Err(error),
            },
            Err(error) => Err(error),
        }
    }

    /// The expectation on a node pool that the entries of a table stand for.
    pub open spec fn parse_node_pool(entries: Seq<(Seq<char>, NodeView)>) -> Result<
        SpecView,
        ParseErrorView,
    > {
        match text_field(entries, "project"@) {
            Ok(project) => match text_field(entries, "location"@) {
                Ok(location) => match text_field(entries, "cluster"@) {
                    Ok(cluster) => match text_field(entries, "node_pool"@) {
                        Ok(node_pool) => match list_field(entries, "status"@) {
                            Ok(items) => match NodePoolStatus::parse_all(items) {
                                Ok(status) => Ok(
                                    SpecView::GKENodePoolStatus {
                                        project,
                                        location,
                                        cluster,
                                        node_pool,
                                        status,
                                    },
                                ),
                                Err(error) => Err(error),
                            },
                            Err(error) => Err(error),
                        },
                        Err(error) => Err(error),
                    },
                    Err(error) => Err(error),
                },
                Err(error) => Err(error),
            },
            Err(error) => Err(error),
        }
    }

    /// The expectation on a Cloud SQL instance that the entries of a table
    /// stand for.
    pub open spec fn parse_sql_instance(entries: Seq<(Seq<char>, NodeView)>) -> Result<
        SpecView,
        ParseErrorView,
    > {
        match text_field(entries, "project"@) {
            Ok(project) => match text_field(entries, "instance"@) {
                Ok(instance) => match list_field(entries, "status"@) {
                    Ok(items) => match SqlInstanceStatus::parse_all(items) {
                        Ok(status) => Ok(
                            SpecView::CloudSqlInstanceStatus { project, instance, status },
                        ),
                        Err(error) => Err(error),
                    },
                    Err(error) => Err(error),
                },
                Err(error) => Err(error),
            },
            Err(error) => Err(error),
        }
    }

    /// The document form of the expectation: the tag first, then the
    /// coordinates in the order of their declaration, the accepted statuses
    /// last.
    pub open spec fn document(self) -> NodeView {
        match self {
            SpecView::GKEClusterStatus { project, location, cluster, status } => NodeView::Table(
                seq![
                    ("operator"@, NodeView::Text("GKEClusterStatus"@)),
                    ("project"@, NodeView::Text(project)),
                    ("location"@, NodeView::Text(location)),
                    ("cluster"@, NodeView::Text(cluster)),
                    ("status"@, NodeView::List(ClusterStatus::documents(status))),
                ],
            ),
            SpecView::GKENodePoolStatus {
                project,
                location,
                cluster,
                node_pool,
                status,
            } => NodeView::Table(
                seq![
                    ("operator"@, NodeView::Text("GKENodePoolStatus"@)),
                    ("project"@, NodeView::Text(project)),
                    ("location"@, NodeView::Text(location)),
                    ("cluster"@, NodeView::Text(cluster)),
                    ("node_pool"@, NodeView::Text(node_pool)),
                    ("status"@, NodeView::List(NodePoolStatus::documents(status))),
                ],
            ),
            SpecView::CloudSqlInstanceStatus { project, instance, status } => NodeView::Table(
                seq![
                    ("operator"@, NodeView::Text("CloudSqlInstanceStatus"@)),
                    ("project"@, NodeView::Text(project)),
                    ("instance"@, NodeView::Text(instance)),
                    ("status"@, NodeView::List(SqlInstanceStatus::documents(status))),
                ],
            ),
        }
    }
}

/// The outcome of an expectation on a status of its enumeration goes by
/// membership alone: a success exactly when the status is one of the accepted
/// ones, a failure otherwise, never an error; and it says of the resource
/// that it is in that status.
pub proof fn lemma_outcome_by_membership(spec: SpecView, code: int)
    requires
        spec.live_name(code) is Some,
    ensures
        spec.outcome(code) matches Some(outcome) && {
            &&& outcome is Success <==> spec.accepts(code)
            &&& outcome is Failure <==> !spec.accepts(code)
            &&& !(outcome is Error)
            &&& outcome.description() == spec.subject() + " is "@ + spec.live_name(code)->Some_0
        },
{
}

/// The values that `specs` hold, one for each, in the same order.
pub open spec fn spec_views(specs: Seq<Spec>) -> Seq<SpecView> {
    specs.map_values(|spec: Spec| spec@)
}

/// Writing an expectation and reading it back gives the same expectation, for
/// every kind and for accepted-status lists of every length.
pub proof fn lemma_round_trip(spec: SpecView)
    ensures
        SpecView::parse(spec.document()) == Ok::<SpecView, ParseErrorView>(spec),
{
    reveal_strlit("operator");
    reveal_strlit("project");
    reveal_strlit("location");
    reveal_strlit("cluster");
    reveal_strlit("node_pool");
    reveal_strlit("instance");
    reveal_strlit("status");
    reveal_strlit("GKEClusterStatus");
    reveal_strlit("GKENodePoolStatus");
    reveal_strlit("CloudSqlInstanceStatus");
    assert("operator"@.len() == 8 && "operator"@[0] == 'o');
    assert("project"@.len() == 7 && "project"@[0] == 'p');
    assert("location"@.len() == 8 && "location"@[0] == 'l');
    assert("cluster"@.len() == 7 && "cluster"@[0] == 'c');
    assert("node_pool"@.len() == 9);
    assert("instance"@.len() == 8 && "instance"@[0] == 'i');
    assert("status"@.len() == 6);
    assert("GKEClusterStatus"@.len() == 16);
    assert("GKENodePoolStatus"@.len() == 17);
    assert("CloudSqlInstanceStatus"@.len() == 22);
    let entries = spec.document()->Table_0;
    lemma_field_at(entries, "operator"@, 0);
    lemma_field_at(entries, "project"@, 1);
    match spec {
        SpecView::GKEClusterStatus { project, location, cluster, status } => {
            assert(entries.len() == 5);
            lemma_field_at(entries, "location"@, 2);
            lemma_field_at(entries, "cluster"@, 3);
            lemma_field_at(entries, "status"@, 4);
            ClusterStatus::lemma_documents_are_read_back(status);
        },
        SpecView::GKENodePoolStatus { project, location, cluster, node_pool, status } => {
            assert(entries.len() == 6);
            lemma_field_at(entries, "location"@, 2);
            lemma_field_at(entries, "cluster"@, 3);
            lemma_field_at(entries, "node_pool"@, 4);
            lemma_field_at(entries, "status"@, 5);
            NodePoolStatus::lemma_documents_are_read_back(status);
        },
        SpecView::CloudSqlInstanceStatus { project, instance, status } => {
            assert(entries.len() == 4);
            lemma_field_at(entries, "instance"@, 2);
            lemma_field_at(entries, "status"@, 3);
            SqlInstanceStatus::lemma_documents_are_read_back(status);
        },
    }
}

impl View for Spec {
    type V = SpecView;

    open spec fn view(&self) -> SpecView {
        match self {
            Spec::GKEClusterStatus { project, location, cluster, status } => SpecView::GKEClusterStatus {
                project: project@,
                location: location@,
                cluster: cluster@,
                status: status@,
            },
            Spec::GKENodePoolStatus {
                project,
                location,
                cluster,
                node_pool,
                status,
            } => SpecView::GKENodePoolStatus {
                project: project@,
                location: location@,
                cluster: cluster@,
                node_pool: node_pool@,
                status: status@,
            },
            Spec::CloudSqlInstanceStatus { project, instance, status } => SpecView::CloudSqlInstanceStatus {
                project: project@,
                instance: instance@,
                status: status@,
            },
        }
    }
}

impl Spec {
    /// Says what has to be fetched to evaluate the expectation: the kind of
    /// resource, and the coordinates in the form in which its API takes them.
    pub fn request(&self) -> (request: FetchRequest)
        ensures
            request@ == self@.request(),
    {
        match self {
            Spec::GKEClusterStatus { project, location, cluster, status: _ } => FetchRequest::Cluster {
                name: cluster_name(project, location, cluster),
            },
            Spec::GKENodePoolStatus {
                project,
                location,
                cluster,
                node_pool,
                status: _,
            } => FetchRequest::NodePool {
                name: node_pool_name(project, location, cluster, node_pool),
            },
            Spec::CloudSqlInstanceStatus { project, instance, status: _ } => FetchRequest::SqlInstance {
                project: project.clone(),
                instance: instance.clone(),
            },
        }
    }

    /// Evaluates the expectation on what the fetch gave, through the operator
    /// of its kind, and returns the operator's answer unchanged: an outcome
    /// where a status of the enumeration came, the fetch's own error where the
    /// fetch failed, and an error where the code stands for no status.
    pub fn check(&self, fetched: Result<i32, anyhow::Error>) -> (result: Result<
        SpecResult,
        anyhow::Error,
    >)
        ensures
            match fetched {
                Ok(code) => match self@.outcome(code as int) {
                    Some(expected) => result matches Ok(outcome) && outcome@ == expected,
                    None => result matches Err(error) && error_text(error)
                        == self@.unrecognized(),
                },
                Err(error) => result == Err::<SpecResult, anyhow::Error>(error),
            },
    {
        match self {
            Spec::GKEClusterStatus { project, location, cluster, status } => {
                let accepted = status.clone();
                assert(accepted@ =~= status@);
                GKEClusterStatusOperator::new(
                    project.clone(),
                    location.clone(),
                    cluster.clone(),
                    accepted,
                ).check(fetched)
            },
            Spec::GKENodePoolStatus { project, location, cluster, node_pool, status } => {
                let accepted = status.clone();
                assert(accepted@ =~= status@);
                GKENodePoolStatusOperator::new(
                    project.clone(),
                    location.clone(),
                    cluster.clone(),
                    node_pool.clone(),
                    accepted,
                ).check(fetched)
            },
            Spec::CloudSqlInstanceStatus { project, instance, status } => {
                let accepted = status.clone();
                assert(accepted@ =~= status@);
                CloudSqlInstanceStatusOperator::new(
                    project.clone(),
                    instance.clone(),
                    accepted,
                ).check(fetched)
            },
        }
    }

    /// Reads an expectation from a document.
    pub fn deserialize(node: &Node) -> (parsed: Result<Spec, ParseError>)
        ensures
            agrees(parsed, SpecView::parse(node@)),
    {
        match node {
            Node::Table(entries) => {
                proof {
                    lemma_table_view(*entries);
                }
                let tag = find_text(entries, "operator")?;
                if text_is(tag, "GKEClusterStatus") {
                    Self::deserialize_cluster(entries)
                } else if text_is(tag, "GKENodePoolStatus") {
                    Self::deserialize_node_pool(entries)
                } else if text_is(tag, "CloudSqlInstanceStatus") {
                    Self::deserialize_sql_instance(entries)
                } else {
                    Err(ParseError::UnknownOperator { name: tag.clone() })
                }
            },
            _ => Err(ParseError::NotATable),
        }
    }

    /// Reads the expectations that a document lists, in their order. The
    /// first item that is no expectation fails the whole: nothing is skipped.
    pub fn deserialize_list(node: &Node) -> (parsed: Result<Vec<Spec>, ParseError>)
        ensures
            match SpecView::parse_list(node@) {
                Ok(specs) => parsed matches Ok(got) && spec_views(got@) == specs,
                Err(error) => parsed matches Err(got) && got@ == error,
            },
    {
        match node {
            Node::List(items) => {
                proof {
                    lemma_list_view(*items);
                }
                let ghost views = item_views(items@);
                let mut specs: Vec<Spec> = Vec::new();
                let mut i: usize = 0;
                assert(views.take(0) =~= Seq::<NodeView>::empty());
                assert(spec_views(specs@) =~= Seq::<SpecView>::empty());
                while i < items.len()
                    invariant
                        i <= items@.len(),
                        views == item_views(items@),
                        node@ == NodeView::List(views),
                        SpecView::parse_each(views.take(i as int)) == Ok::<
                            Seq<SpecView>,
                            ParseErrorView,
                        >(spec_views(specs@)),
                    decreases items@.len() - i,
                {
                    proof {
                        assert(views.take(i + 1).drop_last() =~= views.take(i as int));
                        assert(views.take(i + 1).last() == items@[i as int]@);
                    }
                    let ghost before = spec_views(specs@);
                    match Self::deserialize(&items[i]) {
                        Ok(spec) => {
                            specs.push(spec);
                            assert(spec_views(specs@) =~= before.push(spec@));
                        },
                        Err(error) => {
                            proof {
                                SpecView::lemma_first_error_stands(views, i + 1);
                            }
                            return Err(error);
                        },
                    }
                    i += 1;
                }
                assert(views.take(i as int) =~= views);
                Ok(specs)
            },
            _ => Err(ParseError::NotAList),
        }
    }

    fn deserialize_cluster(entries: &Vec<Entry>) -> (parsed: Result<Spec, ParseError>)
        ensures
            agrees(parsed, SpecView::parse_cluster(entry_views(entries@))),
    {
        let project = find_text(entries, "project")?;
        let location = find_text(entries, "location")?;
        let cluster = find_text(entries, "cluster")?;
        let items = find_list(entries, "status")?;
        let status = ClusterStatus::deserialize_all(items)?;
        Ok(
            Spec::GKEClusterStatus {
                project: project.clone(),
                location: location.clone(),
                cluster: cluster.clone(),
                status,
            },
        )
    }

    fn deserialize_node_pool(entries: &Vec<Entry>) -> (parsed: Result<Spec, ParseError>)
        ensures
            agrees(parsed, SpecView::parse_node_pool(entry_views(entries@))),
    {
        let project = find_text(entries, "project")?;
        let location = find_text(entries, "location")?;
        let cluster = find_text(entries, "cluster")?;
        let node_pool = find_text(entries, "node_pool")?;
        let items = find_list(entries, "status")?;
        let status = NodePoolStatus::deserialize_all(items)?;
        Ok(
            Spec::GKENodePoolStatus {
                project: project.clone(),
                location: location.clone(),
                cluster: cluster.clone(),
                node_pool: node_pool.clone(),
                status,
            },
        )
    }

    fn deserialize_sql_instance(entries: &Vec<Entry>) -> (parsed: Result<Spec, ParseError>)
        ensures
            agrees(parsed, SpecView::parse_sql_instance(entry_views(entries@))),
    {
        let project = find_text(entries, "project")?;
        let instance = find_text(entries, "instance")?;
        let items = find_list(entries, "status")?;
        let status = SqlInstanceStatus::deserialize_all(items)?;
        Ok(
            Spec::CloudSqlInstanceStatus {
                project: project.clone(),
                instance: instance.clone(),
                status,
            },
        )
    }

    /// Writes the expectation as a table: the tag under `operator`, the
    /// coordinates, and the list of accepted statuses under `status`.
    pub fn serialize(&self) -> (node: Node)
        ensures
            node@ == self@.document(),
    {
        let mut entries: Vec<Entry> = Vec::new();
        match self {
            Spec::GKEClusterStatus { project, location, cluster, status } => {
                entries.push(Entry::new("operator", Node::text("GKEClusterStatus")));
                entries.push(Entry::new("project", Node::Text(project.clone())));
                entries.push(Entry::new("location", Node::Text(location.clone())));
                entries.push(Entry::new("cluster", Node::Text(cluster.clone())));
                entries.push(Entry::new("status", ClusterStatus::serialize_all(status)));
                proof {
                    assert(entries@[1].value@ == NodeView::Text(project@));
                    assert(entries@[2].value@ == NodeView::Text(location@));
                    assert(entries@[3].value@ == NodeView::Text(cluster@));
                }
            },
            Spec::GKENodePoolStatus { project, location, cluster, node_pool, status } => {
                entries.push(Entry::new("operator", Node::text("GKENodePoolStatus")));
                entries.push(Entry::new("project", Node::Text(project.clone())));
                entries.push(Entry::new("location", Node::Text(location.clone())));
                entries.push(Entry::new("cluster", Node::Text(cluster.clone())));
                entries.push(Entry::new("node_pool", Node::Text(node_pool.clone())));
                entries.push(Entry::new("status", NodePoolStatus::serialize_all(status)));
                proof {
                    assert(entries@[1].value@ == NodeView::Text(project@));
                    assert(entries@[2].value@ == NodeView::Text(location@));
                    assert(entries@[3].value@ == NodeView::Text(cluster@));
                    assert(entries@[4].value@ == NodeView::Text(node_pool@));
                }
            },
            Spec::CloudSqlInstanceStatus { project, instance, status } => {
                entries.push(Entry::new("operator", Node::text("CloudSqlInstanceStatus")));
                entries.push(Entry::new("project", Node::Text(project.clone())));
                entries.push(Entry::new("instance", Node::Text(instance.clone())));
                entries.push(Entry::new("status", SqlInstanceStatus::serialize_all(status)));
                proof {
                    assert(entries@[1].value@ == NodeView::Text(project@));
                    assert(entries@[2].value@ == NodeView::Text(instance@));
                }
            },
        }
        let node = Node::Table(entries);
        proof {
            assert(node@->Table_0 =~= self@.document()->Table_0);
        }
        node
    }
}

} // verus!
