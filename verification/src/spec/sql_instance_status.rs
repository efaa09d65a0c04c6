use crate::document::{item_views, text_is, Node, NodeView, ParseError, ParseErrorView};
use vstd::prelude::*;

verus! {

/// The states in which a Cloud SQL instance can be.
#[derive(Debug, Clone, Copy, PartialEq, Eq, Hash, Structural)]
pub enum SqlInstanceStatus {
    Unspecified,
    Runnable,
    Suspended,
    PendingDelete,
    PendingCreate,
    Maintenance,
    Failed,
    OnlineMaintenance,
}

impl SqlInstanceStatus {
    /// The name under which the status is written in documents and messages.
    pub open spec fn name(self) -> Seq<char> {
        match self {
            SqlInstanceStatus::Unspecified => "Unspecified"@,
            SqlInstanceStatus::Runnable => "Runnable"@,
            SqlInstanceStatus::Suspended => "Suspended"@,
            SqlInstanceStatus::PendingDelete => "PendingDelete"@,
            SqlInstanceStatus::PendingCreate => "PendingCreate"@,
            SqlInstanceStatus::Maintenance => "Maintenance"@,
            SqlInstanceStatus::Failed => "Failed"@,
            SqlInstanceStatus::OnlineMaintenance => "OnlineMaintenance"@,
        }
    }

    /// The status that the control plane encodes as `code`, if there is one.
    pub open spec fn of_code(code: int) -> Option<SqlInstanceStatus> {
        if code == 0 {
            Some(SqlInstanceStatus::Unspecified)
        } else if code == 1 {
            Some(SqlInstanceStatus::Runnable)
        } else if code == 2 {
            Some(SqlInstanceStatus::Suspended)
        } else if code == 3 {
            Some(SqlInstanceStatus::PendingDelete)
        } else if code == 4 {
            Some(SqlInstanceStatus::PendingCreate)
        } else if code == 5 {
            Some(SqlInstanceStatus::Maintenance)
        } else if code == 6 {
            Some(SqlInstanceStatus::Failed)
        } else if code == 7 {
            Some(SqlInstanceStatus::OnlineMaintenance)
        } else {
            None
        }
    }

    /// The document forms of `statuses`, one text node for each, in order.
    pub open spec fn documents(statuses: Seq<SqlInstanceStatus>) -> Seq<NodeView> {
        Seq::new(statuses.len(), |i: int| NodeView::Text(statuses[i].name()))
    }

    /// The status that goes by `name`, if there is one.
    pub open spec fn of_name(name: Seq<char>) -> Option<SqlInstanceStatus> {
        if name == "Unspecified"@ {
            Some(SqlInstanceStatus::Unspecified)
        } else if name == "Runnable"@ {
            Some(SqlInstanceStatus::Runnable)
        } else if name == "Suspended"@ {
            Some(SqlInstanceStatus::Suspended)
        } else if name == "PendingDelete"@ {
            Some(SqlInstanceStatus::PendingDelete)
        } else if name == "PendingCreate"@ {
            Some(SqlInstanceStatus::PendingCreate)
        } else if name == "Maintenance"@ {
            Some(SqlInstanceStatus::Maintenance)
        } else if name == "Failed"@ {
            Some(SqlInstanceStatus::Failed)
        } else if name == "OnlineMaintenance"@ {
            Some(SqlInstanceStatus::OnlineMaintenance)
        } else {
            None
        }
    }

    /// The status that a document node stands for: the node must be a text
    /// that holds the name of a status.
    pub open spec fn parse(node: NodeView) -> Result<SqlInstanceStatus, ParseErrorView> {
        match node {
            NodeView::Text(name) => match Self::of_name(name) {
                Some(status) => Ok(status),
                None => Err(ParseErrorView::UnknownStatus { name }),
            },
            _ => Err(ParseErrorView::InvalidField { field: "status"@ }),
        }
    }

    /// The statuses that `items` stand for, in order; where some item stands
    /// for none, the error of the first such item.
    pub open spec fn parse_all(items: Seq<NodeView>) -> Result<Seq<SqlInstanceStatus>, ParseErrorView>
        decreases items.len(),
    {
        if items.len() == 0 {
            Ok(Seq::empty())
        } else {
            match Self::parse_all(items.drop_last()) {
                Ok(front) => match Self::parse(items.last()) {
                    Ok(status) => Ok(front.push(status)),
                    Err(error) => Err(error),
                },
                Err(error) => Err(error),
            }
        }
    }

    /// Every status is read back from its own name.
    pub proof fn lemma_name_is_read_back(status: SqlInstanceStatus)
        ensures
            Self::of_name(status.name()) == Some(status),
    {
        reveal_strlit("Unspecified");
        reveal_strlit("Runnable");
        reveal_strlit("Suspended");
        reveal_strlit("PendingDelete");
        reveal_strlit("PendingCreate");
        reveal_strlit("Maintenance");
        reveal_strlit("Failed");
        reveal_strlit("OnlineMaintenance");
        assert("Unspecified"@.len() == 11);
        assert("Runnable"@.len() == 8);
        assert("Suspended"@.len() == 9);
        assert("PendingDelete"@.len() == 13);
        assert("PendingCreate"@.len() == 13);
        assert("Maintenance"@.len() == 11);
        assert("Failed"@.len() == 6);
        assert("OnlineMaintenance"@.len() == 17);
        assert("Unspecified"@[0] == 'U');
        assert("Maintenance"@[0] == 'M');
        assert("PendingDelete"@[7] == 'D');
        assert("PendingCreate"@[7] == 'C');
    }

    /// A list of statuses is read back from its document form, whatever
    /// its length.
    pub proof fn lemma_documents_are_read_back(statuses: Seq<SqlInstanceStatus>)
        ensures
            Self::parse_all(Self::documents(statuses)) == Ok::<Seq<SqlInstanceStatus>, ParseErrorView>(statuses),
        decreases statuses.len(),
    {
        let items = Self::documents(statuses);
        if statuses.len() > 0 {
            let front = statuses.drop_last();
            Self::lemma_documents_are_read_back(front);
            Self::lemma_name_is_read_back(statuses.last());
            assert(items.drop_last() =~= Self::documents(front));
            assert(front.push(statuses.last()) =~= statuses);
        } else {
            assert(statuses =~= Seq::empty());
        }
    }

    /// Once a front part of `items` fails to be read, the whole fails with the
    /// same error.
    pub proof fn lemma_first_error_stands(items: Seq<NodeView>, k: int)
        requires
            0 <= k <= items.len(),
            Self::parse_all(items.take(k)) is Err,
        ensures
            Self::parse_all(items) == Self::parse_all(items.take(k)),
        decreases items.len(),
    {
        if k == items.len() {
            assert(items.take(k) =~= items);
        } else {
            assert(items.drop_last().take(k) =~= items.take(k));
            Self::lemma_first_error_stands(items.drop_last(), k);
        }
    }

    /// Decodes a status code received from the control plane. A code outside
    /// the enumeration is not coerced to any status.
    pub fn from_code(code: i32) -> (status: Option<SqlInstanceStatus>)
        ensures
            status == Self::of_code(code as int),
    {
        match code {
            0 => Some(SqlInstanceStatus::Unspecified),
            1 => Some(SqlInstanceStatus::Runnable),
            2 => Some(SqlInstanceStatus::Suspended),
            3 => Some(SqlInstanceStatus::PendingDelete),
            4 => Some(SqlInstanceStatus::PendingCreate),
            5 => Some(SqlInstanceStatus::Maintenance),
            6 => Some(SqlInstanceStatus::Failed),
            7 => Some(SqlInstanceStatus::OnlineMaintenance),
            _ => None,
        }
    }

    /// The status name as an owned string.
    pub fn to_string(&self) -> (text: String)
        ensures
            text@ == self.name(),
    {
        match self {
            SqlInstanceStatus::Unspecified => String::from_str("Unspecified"),
            SqlInstanceStatus::Runnable => String::from_str("Runnable"),
            SqlInstanceStatus::Suspended => String::from_str("Suspended"),
            SqlInstanceStatus::PendingDelete => String::from_str("PendingDelete"),
            SqlInstanceStatus::PendingCreate => String::from_str("PendingCreate"),
            SqlInstanceStatus::Maintenance => String::from_str("Maintenance"),
            SqlInstanceStatus::Failed => String::from_str("Failed"),
            SqlInstanceStatus::OnlineMaintenance => String::from_str("OnlineMaintenance"),
        }
    }

    /// Reads a status from its name.
    pub fn from_name(name: &String) -> (status: Option<SqlInstanceStatus>)
        ensures
            status == Self::of_name(name@),
    {
        if text_is(name, "Unspecified") {
            Some(SqlInstanceStatus::Unspecified)
        } else if text_is(name, "Runnable") {
            Some(SqlInstanceStatus::Runnable)
        } else if text_is(name, "Suspended") {
            Some(SqlInstanceStatus::Suspended)
        } else if text_is(name, "PendingDelete") {
            Some(SqlInstanceStatus::PendingDelete)
        } else if text_is(name, "PendingCreate") {
            Some(SqlInstanceStatus::PendingCreate)
        } else if text_is(name, "Maintenance") {
            Some(SqlInstanceStatus::Maintenance)
        } else if text_is(name, "Failed") {
            Some(SqlInstanceStatus::Failed)
        } else if text_is(name, "OnlineMaintenance") {
            Some(SqlInstanceStatus::OnlineMaintenance)
        } else {
            None
        }
    }

    /// Reads a status from a document node.
    pub fn deserialize(node: &Node) -> (parsed: Result<SqlInstanceStatus, ParseError>)
        ensures
            match Self::parse(node@) {
                Ok(status) => parsed == Ok::<SqlInstanceStatus, ParseError>(status),
                Err(error) => parsed matches Err(got) && got@ == error,
            },
    {
        match node {
            Node::Text(name) => match Self::from_name(name) {
                Some(status) => Ok(status),
                None => Err(ParseError::UnknownStatus { name: name.clone() }),
            },
            _ => Err(ParseError::InvalidField { field: String::from_str("status") }),
        }
    }

    /// Reads a list of statuses from the items of a list node, in order.
    pub fn deserialize_all(items: &Vec<Node>) -> (parsed: Result<Vec<SqlInstanceStatus>, ParseError>)
        ensures
            match Self::parse_all(item_views(items@)) {
                Ok(statuses) => parsed matches Ok(got) && got@ == statuses,
                Err(error) => parsed matches Err(got) && got@ == error,
            },
    {
        let ghost views = item_views(items@);
        let mut statuses: Vec<SqlInstanceStatus> = Vec::new();
        let mut i: usize = 0;
        assert(views.take(0) =~= Seq::<NodeView>::empty());
        while i < items.len()
            invariant
                i <= items@.len(),
                views == item_views(items@),
                Self::parse_all(views.take(i as int)) == Ok::<Seq<SqlInstanceStatus>, ParseErrorView>(statuses@),
            decreases items@.len() - i,
        {
            proof {
                assert(views.take(i + 1).drop_last() =~= views.take(i as int));
                assert(views.take(i + 1).last() == items@[i as int]@);
            }
            match Self::deserialize(&items[i]) {
                Ok(status) => {
                    statuses.push(status);
                },
                Err(error) => {
                    proof {
                        Self::lemma_first_error_stands(views, i + 1);
                    }
                    return Err(error);
                },
            }
            i += 1;
        }
        assert(views.take(i as int) =~= views);
        Ok(statuses)
    }

    /// Whether the status is one of `statuses`.
    pub fn is_among(&self, statuses: &Vec<SqlInstanceStatus>) -> (found: bool)
        ensures
            found == statuses@.contains(*self),
    {
        let mut i: usize = 0;
        while i < statuses.len()
            invariant
                i <= statuses@.len(),
                forall|j: int| 0 <= j < i ==> statuses@[j] != *self,
            decreases statuses@.len() - i,
        {
            if statuses[i] == *self {
                return true;
            }
            i += 1;
        }
        false
    }

    /// Writes the status as a text node that holds its name.
    pub fn serialize(&self) -> (node: Node)
        ensures
            node@ == NodeView::Text(self.name()),
    {
        Node::Text(self.to_string())
    }

    /// Writes `statuses` as a list of their names, in the order given.
    pub fn serialize_all(statuses: &Vec<SqlInstanceStatus>) -> (node: Node)
        ensures
            node@ == NodeView::List(Self::documents(statuses@)),
    {
        let mut items: Vec<Node> = Vec::new();
        let mut i: usize = 0;
        while i < statuses.len()
            invariant
                i <= statuses@.len(),
                items@.len() == i,
                forall|j: int| 0 <= j < i ==> (#[trigger] items@[j])@ == NodeView::Text(statuses@[j].name()),
            decreases statuses@.len() - i,
        {
            items.push(statuses[i].serialize());
            i += 1;
        }
        let node = Node::List(items);
        proof {
            assert(node@->List_0 =~= Self::documents(statuses@));
        }
        node
    }
}

} // verus!
