use vstd::prelude::*;

verus! {

/// A structured document: the form in which expectations are read and
/// reports are written. The entries of a table and the items of a list keep
/// the order in which they were put in.
#[derive(Debug, PartialEq, Eq)]
pub enum Node {
    Text(String),
    Count(usize),
    List(Vec<Node>),
    Table(Vec<Entry>),
}

/// One keyed entry of a table.
#[derive(Debug, PartialEq, Eq)]
pub struct Entry {
    pub key: String,
    pub value: Node,
}

/// What a [`Node`] holds, as a mathematical value.
pub enum NodeView {
    Text(Seq<char>),
    Count(nat),
    List(Seq<NodeView>),
    Table(Seq<(Seq<char>, NodeView)>),
}

impl View for Node {
    type V = NodeView;

    open spec fn view(&self) -> NodeView
        decreases self,
    {
        match self {
            Node::Text(text) => NodeView::Text(text@),
            Node::Count(count) => NodeView::Count(*count as nat),
            Node::List(items) => NodeView::List(
                Seq::new(items@.len(), |i: int| if 0 <= i < items@.len() { items@[i]@ } else { NodeView::Count(0) }),
            ),
            Node::Table(entries) => NodeView::Table(
                Seq::new(
                    entries@.len(),
                    |i: int| if 0 <= i < entries@.len() { (entries@[i].key@, entries@[i].value@) } else { (Seq::empty(), NodeView::Count(0)) },
                ),
            ),
        }
    }
}

/// The keys and values of `entries`, in order.
pub open spec fn entry_views(entries: Seq<Entry>) -> Seq<(Seq<char>, NodeView)> {
    Seq::new(entries.len(), |i: int| (entries[i].key@, entries[i].value@))
}

/// The values of `items`, in order.
pub open spec fn item_views(items: Seq<Node>) -> Seq<NodeView> {
    Seq::new(items.len(), |i: int| items[i]@)
}

/// A table holds the keys and values of its entries, in their order.
pub proof fn lemma_table_view(entries: Vec<Entry>)
    ensures
        Node::Table(entries)@ == NodeView::Table(entry_views(entries@)),
{
    reveal_with_fuel(<Node as View>::view, 2);
    assert(Node::Table(entries)@->Table_0 =~= entry_views(entries@));
}

/// A list holds the values of its items, in their order.
pub proof fn lemma_list_view(items: Vec<Node>)
    ensures
        Node::List(items)@ == NodeView::List(item_views(items@)),
{
    reveal_with_fuel(<Node as View>::view, 2);
    assert(Node::List(items)@->List_0 =~= item_views(items@));
}

/// Why a document is not the expectation that it should be.
#[derive(Debug, PartialEq, Eq, Clone)]
pub enum ParseError {
    /// The document is not a table.
    NotATable,
    /// The document is not a list.
    NotAList,
    /// The table has no entry under this key.
    MissingField { field: String },
    /// The table has more than one entry under this key.
    DuplicateField { field: String },
    /// The entry under this key does not have the form that the field takes.
    InvalidField { field: String },
    /// No kind of expectation goes by this tag.
    UnknownOperator { name: String },
    /// The enumeration of the resource has no status of this name.
    UnknownStatus { name: String },
}

/// What a [`ParseError`] holds, as a mathematical value.
pub enum ParseErrorView {
    NotATable,
    NotAList,
    MissingField { field: Seq<char> },
    DuplicateField { field: Seq<char> },
    InvalidField { field: Seq<char> },
    UnknownOperator { name: Seq<char> },
    UnknownStatus { name: Seq<char> },
}

impl View for ParseError {
    type V = ParseErrorView;

    open spec fn view(&self) -> ParseErrorView {
        match self {
            ParseError::NotATable => ParseErrorView::NotATable,
            ParseError::NotAList => ParseErrorView::NotAList,
            ParseError::MissingField { field } => ParseErrorView::MissingField { field: field@ },
            ParseError::DuplicateField { field } => ParseErrorView::DuplicateField { field: field@ },
            ParseError::InvalidField { field } => ParseErrorView::InvalidField { field: field@ },
            ParseError::UnknownOperator { name } => ParseErrorView::UnknownOperator { name: name@ },
            ParseError::UnknownStatus { name } => ParseErrorView::UnknownStatus { name: name@ },
        }
    }
}

impl ParseErrorView {
    /// The message that tells the reader what is wrong.
    pub open spec fn message(self) -> Seq<char> {
        match self {
            ParseErrorView::NotATable => "expected a table"@,
            ParseErrorView::NotAList => "expected a list"@,
            ParseErrorView::MissingField { field } => "missing field `"@ + field + "`"@,
            ParseErrorView::DuplicateField { field } => "duplicate field `"@ + field + "`"@,
            ParseErrorView::InvalidField { field } => "invalid value for field `"@ + field + "`"@,
            ParseErrorView::UnknownOperator { name } => "unknown operator `"@ + name + "`"@,
            ParseErrorView::UnknownStatus { name } => "unknown status `"@ + name + "`"@,
        }
    }
}

impl ParseError {
    /// The message that tells the reader what is wrong.
    pub fn to_string(&self) -> (text: String)
        ensures
            text@ == self@.message(),
    {
        match self {
            ParseError::NotATable => String::from_str("expected a table"),
            ParseError::NotAList => String::from_str("expected a list"),
            ParseError::MissingField { field } => quoted("missing field `", field),
            ParseError::DuplicateField { field } => quoted("duplicate field `", field),
            ParseError::InvalidField { field } => quoted("invalid value for field `", field),
            ParseError::UnknownOperator { name } => quoted("unknown operator `", name),
            ParseError::UnknownStatus { name } => quoted("unknown status `", name),
        }
    }
}

fn quoted(lead: &str, name: &String) -> (text: String)
    ensures
        text@ == lead@ + name@ + "`"@,
{
    let mut text = String::from_str(lead);
    text.append(name.as_str());
    text.append("`");
    text
}

/// Whether a parse came out as the model says: with the value that the model
/// gives, or with the error that it gives.
pub open spec fn agrees<T: View, E: View>(parsed: Result<T, E>, model: Result<T::V, E::V>) -> bool {
    match model {
        Ok(value) => parsed matches Ok(got) && got@ == value,
        Err(error) => parsed matches Err(got) && got@ == error,
    }
}

/// Whether `entries` has an entry under `key`.
pub open spec fn has_key(entries: Seq<(Seq<char>, NodeView)>, key: Seq<char>) -> bool {
    exists|i: int| 0 <= i < entries.len() && (#[trigger] entries[i]).0 == key
}

/// Whether `entries` has at most one entry under `key`.
pub open spec fn key_is_unique(entries: Seq<(Seq<char>, NodeView)>, key: Seq<char>) -> bool {
    forall|i: int, j: int|
        0 <= i < entries.len() && 0 <= j < entries.len() && (#[trigger] entries[i]).0 == key && (
        #[trigger] entries[j]).0 == key ==> i == j
}

/// The value that `entries` holds under `key`: the table must have exactly
/// one entry under it. Entries under other keys are passed over.
pub open spec fn field(entries: Seq<(Seq<char>, NodeView)>, key: Seq<char>) -> Result<
    NodeView,
    ParseErrorView,
> {
    if !has_key(entries, key) {
        Err(ParseErrorView::MissingField { field: key })
    } else if !key_is_unique(entries, key) {
        Err(ParseErrorView::DuplicateField { field: key })
    } else {
        Ok(entries[choose|i: int| 0 <= i < entries.len() && (#[trigger] entries[i]).0 == key].1)
    }
}

/// The text that `entries` holds under `key`.
pub open spec fn text_field(entries: Seq<(Seq<char>, NodeView)>, key: Seq<char>) -> Result<
    Seq<char>,
    ParseErrorView,
> {
    match field(entries, key) {
        Ok(NodeView::Text(text)) => Ok(text),
        Ok(_) => Err(ParseErrorView::InvalidField { field: key }),
        Err(error) => Err(error),
    }
}

/// The list that `entries` holds under `key`.
pub open spec fn list_field(entries: Seq<(Seq<char>, NodeView)>, key: Seq<char>) -> Result<
    Seq<NodeView>,
    ParseErrorView,
> {
    match field(entries, key) {
        Ok(NodeView::List(items)) => Ok(items),
        Ok(_) => Err(ParseErrorView::InvalidField { field: key }),
        Err(error) => Err(error),
    }
}

/// Where exactly one entry stands under `key`, the lookup gives its value.
pub proof fn lemma_field_at(entries: Seq<(Seq<char>, NodeView)>, key: Seq<char>, i: int)
    requires
        0 <= i < entries.len(),
        entries[i].0 == key,
        forall|j: int| 0 <= j < entries.len() && j != i ==> (#[trigger] entries[j]).0 != key,
    ensures
        field(entries, key) == Ok::<NodeView, ParseErrorView>(entries[i].1),
{
    let chosen = choose|j: int| 0 <= j < entries.len() && (#[trigger] entries[j]).0 == key;
    assert(chosen == i);
}

/// Whether `text` reads as `literal`.
pub fn text_is(text: &String, literal: &str) -> (same: bool)
    ensures
        same == (text@ == literal@),
{
    let other = String::from_str(literal);
    *text == other
}

/// Looks up the one entry of a table that stands under `key`.
pub fn find<'a>(entries: &'a Vec<Entry>, key: &str) -> (found: Result<&'a Node, ParseError>)
    ensures
        match field(entry_views(entries@), key@) {
            Ok(value) => found matches Ok(node) && node@ == value,
            Err(error) => found matches Err(got) && got@ == error,
        },
{
    let ghost views = entry_views(entries@);
    let mut place: Option<usize> = None;
    let mut i: usize = 0;
    while i < entries.len()
        invariant
            i <= entries@.len(),
            views == entry_views(entries@),
            match place {
                Some(k) => k < i && views[k as int].0 == key@,
                None => true,
            },
            forall|j: int| 0 <= j < i && Some(j as usize) != place ==> (#[trigger] views[j]).0 != key@,
        decreases entries@.len() - i,
    {
        if text_is(&entries[i].key, key) {
            assert(views[i as int].0 == key@);
            match place {
                Some(k) => {
                    assert(!key_is_unique(views, key@)) by {
                        assert(views[k as int].0 == key@ && views[i as int].0 == key@);
                    }
                    return Err(ParseError::DuplicateField { field: String::from_str(key) });
                },
                None => {
                    place = Some(i);
                },
            }
        }
        i += 1;
    }
    match place {
        Some(k) => {
            proof {
                assert(views[k as int].0 == key@);
                let chosen = choose|i: int| 0 <= i < views.len() && (#[trigger] views[i]).0 == key@;
                assert(chosen == k);
            }
            Ok(&entries[k].value)
        },
        None => Err(ParseError::MissingField { field: String::from_str(key) }),
    }
}

/// Looks up the text that stands under `key`.
pub fn find_text<'a>(entries: &'a Vec<Entry>, key: &str) -> (found: Result<&'a String, ParseError>)
    ensures
        match text_field(entry_views(entries@), key@) {
            Ok(value) => found matches Ok(text) && text@ == value,
            Err(error) => found matches Err(got) && got@ == error,
        },
{
    match find(entries, key) {
        Ok(Node::Text(text)) => Ok(text),
        Ok(_) => Err(ParseError::InvalidField { field: String::from_str(key) }),
        Err(error) => Err(error),
    }
}

/// Looks up the list that stands under `key`.
pub fn find_list<'a>(entries: &'a Vec<Entry>, key: &str) -> (found: Result<
    &'a Vec<Node>,
    ParseError,
>)
    ensures
        match list_field(entry_views(entries@), key@) {
            Ok(value) => found matches Ok(items) && item_views(items@) == value,
            Err(error) => found matches Err(got) && got@ == error,
        },
{
    match find(entries, key) {
        Ok(Node::List(items)) => {
            proof {
                lemma_list_view(*items);
            }
            Ok(items)
        },
        Ok(_) => Err(ParseError::InvalidField { field: String::from_str(key) }),
        Err(error) => Err(error),
    }
}

impl Node {
    /// A text node that holds `text`.
    pub fn text(text: &str) -> (node: Node)
        ensures
            node@ == NodeView::Text(text@),
    {
        Node::Text(String::from_str(text))
    }
}

impl Entry {
    /// The entry that puts `value` under `key`.
    pub fn new(key: &str, value: Node) -> (entry: Entry)
        ensures
            entry.key@ == key@,
            entry.value == value,
    {
        Entry { key: String::from_str(key), value }
    }
}

} // verus!
