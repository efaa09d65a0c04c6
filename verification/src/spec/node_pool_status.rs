use crate::document::{item_views, text_is, Node, NodeView, ParseError, ParseErrorView};
use vstd::prelude::*;

verus! {

/// The states in which a GKE node pool can be.
#[derive(Debug, Clone, Copy, PartialEq, Eq, Hash, Structural)]
pub enum NodePoolStatus {
    Unspecified,
    Provisioning,
    Running,
    RunningWithError,
    Reconciling,
    Stopping,
    Error,
}

impl NodePoolStatus {
    /// The name under which the status is written in documents and messages.
    pub open spec fn name(self) -> Seq<char> {
        match self {
            NodePoolStatus::Unspecified => "Unspecified"@,
            NodePoolStatus::Provisioning => "Provisioning"@,
            NodePoolStatus::Running => "Running"@,
            NodePoolStatus::RunningWithError => "RunningWithError"@,
            NodePoolStatus::Reconciling => "Reconciling"@,
            NodePoolStatus::Stopping => "Stopping"@,
            NodePoolStatus::Error => "Error"@,
        }
    }

    /// The status that the control plane encodes as `code`, if there is one.
    pub open spec fn of_code(code: int) -> Option<NodePoolStatus> {
        if code == 0 {
            Some(NodePoolStatus::Unspecified)
        } else if code == 1 {
            Some(NodePoolStatus::Provisioning)
        } else if code == 2 {
            Some(NodePoolStatus::Running)
        } else if code == 3 {
            Some(NodePoolStatus::RunningWithError)
        } else if code == 4 {
            Some(NodePoolStatus::Reconciling)
        } else if code == 5 {
            Some(NodePoolStatus::Stopping)
        } else if code == 6 {
            Some(NodePoolStatus::Error)
        } else {
            None
        }
    }

    /// The document forms of `statuses`, one text node for each, in order.
    pub open spec fn documents(statuses: Seq<NodePoolStatus>) -> Seq<NodeView> {
        Seq::new(statuses.len(), |i: int| NodeView::Text(statuses[i].name()))
    }

    /// The status that goes by `name`, if there is one.
    pub open spec fn of_name(name: Seq<char>) -> Option<NodePoolStatus> {
        if name == "Unspecified"@ {
            Some(NodePoolStatus::Unspecified)
        } else if name == "Provisioning"@ {
            Some(NodePoolStatus::Provisioning)
        } else if name == "Running"@ {
            Some(NodePoolStatus::Running)
        } else if name == "RunningWithError"@ {
            Some(NodePoolStatus::RunningWithError)
        } else if name == "Reconciling"@ {
            Some(NodePoolStatus::Reconciling)
        } else if name == "Stopping"@ {
            Some(NodePoolStatus::Stopping)
        } else if name == "Error"@ {
            Some(NodePoolStatus::Error)
        } else {
            None
        }
    }

    /// The status that a document node stands for: the node must be a text
    /// that holds the name of a status.
    pub open spec fn parse(node: NodeView) -> Result<NodePoolStatus, ParseErrorView> {
        match node {
            NodeView::Text(name) => match Self::of_name(name) {
                Some(status) => Ok(status),
                None => Err(ParseErrorView::UnknownStatus { name }),
            },
            _ => Err(ParseErrorView::InvalidField { field: "status"@ }),
        }
    }

    /// The statuses that `items` stand for, in order; where some item stands
    /// for none, the error of the first such item.
    pub open spec fn parse_all(items: Seq<NodeView>) -> Result<Seq<NodePoolStatus>, ParseErrorView>
        decreases items.len(),
    {
        if items.len() == 0 {
            Ok(Seq::empty())
        } else {
            match Self::parse_all(items.drop_last()) {
                Ok(front) => match Self::parse(items.last()) {
                    Ok(status) => Ok(front.push(status)),
                    Err(error) => Err(error),
                },
                Err(error) => Err(error),
            }
        }
    }

    /// Every status is read back from its own name.
    pub proof fn lemma_name_is_read_back(status: NodePoolStatus)
        ensures
            Self::of_name(status.name()) == Some(status),
    {
        reveal_strlit("Unspecified");
        reveal_strlit("Provisioning");
        reveal_strlit("Running");
        reveal_strlit("RunningWithError");
        reveal_strlit("Reconciling");
        reveal_strlit("Stopping");
        reveal_strlit("Error");
        assert("Unspecified"@.len() == 11);
        assert("Provisioning"@.len() == 12);
        assert("Running"@.len() == 7);
        assert("RunningWithError"@.len() == 16);
        assert("Reconciling"@.len() == 11);
        assert("Stopping"@.len() == 8);
        assert("Error"@.len() == 5);
        assert("Unspecified"@[0] == 'U');
        assert("Reconciling"@[0] == 'R');
    }

    /// A list of statuses is read back from its document form, whatever
    /// its length.
    pub proof fn lemma_documents_are_read_back(statuses: Seq<NodePoolStatus>)
        ensures
            Self::parse_all(Self::documents(statuses)) == Ok::<Seq<NodePoolStatus>, ParseErrorView>(statuses),
        decreases statuses.len(),
    {
        let items = Self::documents(statuses);
        if statuses.len() > 0 {
            let front = statuses.drop_last();
            Self::lemma_documents_are_read_back(front);
            Self::lemma_name_is_read_back(statuses.last());
            assert(items.drop_last() =~= Self::documents(front));
            assert(front.push(statuses.last()) =~= statuses);
        } else {
            assert(statuses =~= Seq::empty());
        }
    }

    /// Once a front part of `items` fails to be read, the whole fails with the
    /// same error.
    pub proof fn lemma_first_error_stands(items: Seq<NodeView>, k: int)
        requires
            0 <= k <= items.len(),
            Self::parse_all(items.take(k)) is Err,
        ensures
            Self::parse_all(items) == Self::parse_all(items.take(k)),
        decreases items.len(),
    {
        if k == items.len() {
            assert(items.take(k) =~= items);
        } else {
            assert(items.drop_last().take(k) =~= items.take(k));
            Self::lemma_first_error_stands(items.drop_last(), k);
        }
    }

    /// Decodes a status code received from the control plane. A code outside
    /// the enumeration is not coerced to any status.
    pub fn from_code(code: i32) -> (status: Option<NodePoolStatus>)
        ensures
            status == Self::of_code(code as int),
    {
        match code {
            0 => Some(NodePoolStatus::Unspecified),
            1 => Some(NodePoolStatus::Provisioning),
            2 => Some(NodePoolStatus::Running),
            3 => Some(NodePoolStatus::RunningWithError),
            4 => Some(NodePoolStatus::Reconciling),
            5 => Some(NodePoolStatus::Stopping),
            6 => Some(NodePoolStatus::Error),
            _ => None,
        }
    }

    /// The status name as an owned string.
    pub fn to_string(&self) -> (text: String)
        ensures
            text@ == self.name(),
    {
        match self {
            NodePoolStatus::Unspecified => String::from_str("Unspecified"),
            NodePoolStatus::Provisioning => String::from_str("Provisioning"),
            NodePoolStatus::Running => String::from_str("Running"),
            NodePoolStatus::RunningWithError => String::from_str("RunningWithError"),
            NodePoolStatus::Reconciling => String::from_str("Reconciling"),
            NodePoolStatus::Stopping => String::from_str("Stopping"),
            NodePoolStatus::Error => String::from_str("Error"),
        }
    }

    /// Reads a status from its name.
    pub fn from_name(name: &String) -> (status: Option<NodePoolStatus>)
        ensures
            status == Self::of_name(name@),
    {
        if text_is(name, "Unspecified") {
            Some(NodePoolStatus::Unspecified)
        } else if text_is(name, "Provisioning") {
            Some(NodePoolStatus::Provisioning)
        } else if text_is(name, "Running") {
            Some(NodePoolStatus::Running)
        } else if text_is(name, "RunningWithError") {
            Some(NodePoolStatus::RunningWithError)
        } else if text_is(name, "Reconciling") {
            Some(NodePoolStatus::Reconciling)
        } else if text_is(name, "Stopping") {
            Some(NodePoolStatus::Stopping)
        } else if text_is(name, "Error") {
            Some(NodePoolStatus::Error)
        } else {
            None
        }
    }

    /// Reads a status from a document node.
    pub fn deserialize(node: &Node) -> (parsed: Result<NodePoolStatus, ParseError>)
        ensures
            match Self::parse(node@) {
                Ok(status) => parsed == Ok::<NodePoolStatus, ParseError>(status),
                Err(error) => parsed matches Err(got) && got@ == error,
            },
    {
        match node {
            Node::Text(name) => match Self::from_name(name) {
                Some(status) => Ok(status),
                None => Err(ParseError::UnknownStatus { name: name.clone() }),
            },
            _ => Err(ParseError::InvalidField { field: String::from_str("status") }),
        }
    }

    /// Reads a list of statuses from the items of a list node, in order.
    pub fn deserialize_all(items: &Vec<Node>) -> (parsed: Result<Vec<NodePoolStatus>, ParseError>)
        ensures
            match Self::parse_all(item_views(items@)) {
                Ok(statuses) => parsed matches Ok(got) && got@ == statuses,
                Err(error) => parsed matches Err(got) && got@ == error,
            },
    {
        let ghost views = item_views(items@);
        let mut statuses: Vec<NodePoolStatus> = Vec::new();
        let mut i: usize = 0;
        assert(views.take(0) =~= Seq::<NodeView>::empty());
        while i < items.len()
            invariant
                i <= items@.len(),
                views == item_views(items@),
                Self::parse_all(views.take(i as int)) == Ok::<Seq<NodePoolStatus>, ParseErrorView>(statuses@),
            decreases items@.len() - i,
        {
            proof {
                assert(views.take(i + 1).drop_last() =~= views.take(i as int));
                assert(views.take(i + 1).last() == items@[i as int]@);
            }
            match Self::deserialize(&items[i]) {
                Ok(status) => {
                    statuses.push(status);
                },
                Err(error) => {
                    proof {
                        Self::lemma_first_error_stands(views, i + 1);
                    }
                    return Err(error);
                },
            }
            i += 1;
        }
        assert(views.take(i as int) =~= views);
        Ok(statuses)
    }

    /// Whether the status is one of `statuses`.
    pub fn is_among(&self, statuses: &Vec<NodePoolStatus>) -> (found: bool)
        ensures
            found == statuses@.contains(*self),
    {
        let mut i: usize = 0;
        while i < statuses.len()
            invariant
                i <= statuses@.len(),
                forall|j: int| 0 <= j < i ==> statuses@[j] != *self,
            decreases statuses@.len() - i,
        {
            if statuses[i] == *self {
                return true;
            }
            i += 1;
        }
        false
    }

    /// Writes the status as a text node that holds its name.
    pub fn serialize(&self) -> (node: Node)
        ensures
            node@ == NodeView::Text(self.name()),
    {
        Node::Text(self.to_string())
    }

    /// Writes `statuses` as a list of their names, in the order given.
    pub fn serialize_all(statuses: &Vec<NodePoolStatus>) -> (node: Node)
        ensures
            node@ == NodeView::List(Self::documents(statuses@)),
    {
        let mut items: Vec<Node> = Vec::new();
        let mut i: usize = 0;
        while i < statuses.len()
            invariant
                i <= statuses@.len(),
                items@.len() == i,
                forall|j: int| 0 <= j < i ==> (#[trigger] items@[j])@ == NodeView::Text(statuses@[j].name()),
            decreases statuses@.len() - i,
        {
            items.push(statuses[i].serialize());
            i += 1;
        }
        let node = Node::List(items);
        proof {
            assert(node@->List_0 =~= Self::documents(statuses@));
        }
        node
    }
}

} // verus!
