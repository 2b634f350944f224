//! The message model: what the unit and the client say to each other.
//!
//! Every type has a mathematical view, reached with `@`, in which text is a
//! sequence of characters and a list is a sequence. A floating-point number is
//! held by the bit pattern of its IEEE 754 double.

use vstd::prelude::*;

verus! {

/// What a configured output drives.
#[derive(Debug, PartialEq, Eq, Clone, Copy)]
pub enum OutputType {
    Ignition,
    Fuel,
    Disabled,
}

/// A configured output: its pin, what it drives, whether it is inverted, and
/// its phase angle (the bits of a double).
#[derive(Debug, PartialEq, Eq, Clone, Copy)]
pub struct OutputValue {
    pub pin: u32,
    pub output_type: OutputType,
    pub inverted: bool,
    pub angle: u64,
}

/// One telemetry sample value: an integer, or the bits of a double.
#[derive(Debug, PartialEq, Eq, Clone, Copy)]
pub enum FeedValue {
    Int(u32),
    Float(u64),
}

/// One step into the unit's configuration tree.
#[derive(Debug, PartialEq, Eq)]
pub enum StructurePathElement {
    ArrayIndex(u32),
    MapField(String),
}

/// View of a [`StructurePathElement`].
pub enum PathElementView {
    ArrayIndex(u32),
    MapField(Seq<char>),
}

impl View for StructurePathElement {
    type V = PathElementView;

    open spec fn view(&self) -> PathElementView {
        match self {
            StructurePathElement::ArrayIndex(i) => PathElementView::ArrayIndex(*i),
            StructurePathElement::MapField(s) => PathElementView::MapField(s@),
        }
    }
}

impl Clone for StructurePathElement {
    fn clone(&self) -> (r: Self)
        ensures
            r@ == self@,
    {
        match self {
            StructurePathElement::ArrayIndex(i) => StructurePathElement::ArrayIndex(*i),
            StructurePathElement::MapField(s) => StructurePathElement::MapField(s.clone()),
        }
    }
}

/// A path into the unit's configuration tree, outermost step first.
#[derive(Debug, PartialEq, Eq)]
pub struct StructurePath(pub Vec<StructurePathElement>);

impl View for StructurePath {
    type V = Seq<PathElementView>;

    open spec fn view(&self) -> Seq<PathElementView> {
        Seq::new(self.0@.len(), |i: int| self.0@[i]@)
    }
}

impl StructurePath {
    /// The empty path.
    pub fn new() -> (r: StructurePath)
        ensures
            r@ == Seq::<PathElementView>::empty(),
    {
        let r = StructurePath(Vec::new());
        r
    }

    /// The path extended by a step into the map field named `s`.
    pub fn add_str(self, s: &str) -> (r: StructurePath)
        ensures
            r@ == self@.push(PathElementView::MapField(s@)),
    {
        let mut elements = self.0;
        elements.push(StructurePathElement::MapField(String::from_str(s)));
        let r = StructurePath(elements);
        r
    }

    /// The path extended by a step to the array element at `u`.
    pub fn add_index(self, u: u32) -> (r: StructurePath)
        ensures
            r@ == self@.push(PathElementView::ArrayIndex(u)),
    {
        let mut elements = self.0;
        elements.push(StructurePathElement::ArrayIndex(u));
        let r = StructurePath(elements);
        r
    }
}

impl Clone for StructurePath {
    fn clone(&self) -> (r: Self)
        ensures
            r@ == self@,
    {
        let mut elements: Vec<StructurePathElement> = Vec::new();
        let mut i: usize = 0;
        while i < self.0.len()
            invariant
                i <= self.0@.len(),
                elements@.len() == i,
                forall|k: int| 0 <= k < i ==> (#[trigger] elements@[k])@ == self.0@[k]@,
            decreases self.0@.len() - i,
        {
            elements.push(self.0[i].clone());
            i += 1;
        }
        let r = StructurePath(elements);
        r
    }
}

/// The description of a leaf of the configuration tree: the name of its type
/// and a sentence for a person.
#[derive(Debug, PartialEq, Eq)]
pub struct StructureLeaf {
    pub _type: String,
    pub description: String,
}

/// View of a [`StructureLeaf`].
pub struct LeafView {
    pub kind: Seq<char>,
    pub description: Seq<char>,
}

impl View for StructureLeaf {
    type V = LeafView;

    open spec fn view(&self) -> LeafView {
        LeafView { kind: self._type@, description: self.description@ }
    }
}

impl Clone for StructureLeaf {
    fn clone(&self) -> (r: Self)
        ensures
            r@ == self@,
    {
        StructureLeaf { _type: self._type.clone(), description: self.description.clone() }
    }
}

/// A request from the client to the unit.
#[derive(Debug, PartialEq, Eq)]
pub enum RequestMessage {
    Ping { id: u32 },
    Structure { id: u32 },
    Get { id: u32, path: StructurePath },
}

/// View of a [`RequestMessage`].
pub enum RequestView {
    Ping { id: u32 },
    Structure { id: u32 },
    Get { id: u32, path: Seq<PathElementView> },
}

impl View for RequestMessage {
    type V = RequestView;

    open spec fn view(&self) -> RequestView {
        match self {
            RequestMessage::Ping { id } => RequestView::Ping { id: *id },
            RequestMessage::Structure { id } => RequestView::Structure { id: *id },
            RequestMessage::Get { id, path } => RequestView::Get { id: *id, path: path@ },
        }
    }
}

impl Clone for RequestMessage {
    fn clone(&self) -> (r: Self)
        ensures
            r@ == self@,
    {
        match self {
            RequestMessage::Ping { id } => RequestMessage::Ping { id: *id },
            RequestMessage::Structure { id } => RequestMessage::Structure { id: *id },
            RequestMessage::Get { id, path } => RequestMessage::Get { id: *id, path: path.clone() },
        }
    }
}

/// The value that answers a request. A mapping keeps its entries in a list,
/// in the order in which they were given.
#[derive(Debug, PartialEq, Eq)]
pub enum ResponseValue {
    Str(String),
    Float(u64),
    Int(u32),
    Bool(bool),
    Output(OutputValue),
    Array(Vec<ResponseValue>),
    Leaf(StructureLeaf),
    Mapping(Vec<(String, ResponseValue)>),
    Empty,
}

/// View of a [`ResponseValue`].
pub enum ResponseView {
    Str(Seq<char>),
    Float(u64),
    Int(u32),
    Bool(bool),
    Output(OutputValue),
    Array(Seq<ResponseView>),
    Leaf(LeafView),
    Mapping(Seq<(Seq<char>, ResponseView)>),
    Empty,
}

impl ResponseView {
    /// No mapping in the value, at any depth, names a key twice.
    pub open spec fn wf(self) -> bool
        decreases self,
    {
        match self {
            ResponseView::Array(items) => forall|i: int|
                0 <= i < items.len() ==> (#[trigger] items[i]).wf(),
            ResponseView::Mapping(entries) => {
                &&& forall|i: int| 0 <= i < entries.len() ==> (#[trigger] entries[i]).1.wf()
                &&& forall|i: int, j: int|
                    0 <= i < j < entries.len() ==> (#[trigger] entries[i]).0 != (
                    #[trigger] entries[j]).0
            },
            _ => true,
        }
    }
}

/// The views of a list of response values.
pub open spec fn response_views(items: Seq<ResponseValue>) -> Seq<ResponseView>
    decreases items,
{
    Seq::new(
        items.len(),
        |i: int|
            if 0 <= i < items.len() {
                items[i].model()
            } else {
                ResponseView::Empty
            },
    )
}

/// The views of the entries of a mapping.
pub open spec fn mapping_views(entries: Seq<(String, ResponseValue)>) -> Seq<
    (Seq<char>, ResponseView),
>
    decreases entries,
{
    Seq::new(
        entries.len(),
        |i: int|
            if 0 <= i < entries.len() {
                (entries[i].0@, entries[i].1.model())
            } else {
                (Seq::empty(), ResponseView::Empty)
            },
    )
}

impl ResponseValue {
    /// The value in mathematical form.
    pub open spec fn model(&self) -> ResponseView
        decreases self,
    {
        match self {
            ResponseValue::Str(s) => ResponseView::Str(s@),
            ResponseValue::Float(bits) => ResponseView::Float(*bits),
            ResponseValue::Int(n) => ResponseView::Int(*n),
            ResponseValue::Bool(b) => ResponseView::Bool(*b),
            ResponseValue::Output(o) => ResponseView::Output(*o),
            ResponseValue::Array(items) => ResponseView::Array(response_views(items@)),
            ResponseValue::Leaf(l) => ResponseView::Leaf(l@),
            ResponseValue::Mapping(entries) => ResponseView::Mapping(mapping_views(entries@)),
            ResponseValue::Empty => ResponseView::Empty,
        }
    }
}

impl View for ResponseValue {
    type V = ResponseView;

    open spec fn view(&self) -> ResponseView {
        self.model()
    }
}

impl Clone for ResponseValue {
    fn clone(&self) -> (r: Self)
        ensures
            r@ == self@,
        decreases self,
    {
        match self {
            ResponseValue::Str(s) => ResponseValue::Str(s.clone()),
            ResponseValue::Float(bits) => ResponseValue::Float(*bits),
            ResponseValue::Int(n) => ResponseValue::Int(*n),
            ResponseValue::Bool(b) => ResponseValue::Bool(*b),
            ResponseValue::Output(o) => ResponseValue::Output(*o),
            ResponseValue::Array(items) => {
                let mut copy: Vec<ResponseValue> = Vec::new();
                let mut i: usize = 0;
                while i < items.len()
                    invariant
                        i <= items@.len(),
                        copy@.len() == i,
                        self == ResponseValue::Array(*items),
                        forall|k: int| 0 <= k < i ==> (#[trigger] copy@[k])@ == items@[k]@,
                    decreases items@.len() - i,
                {
                    assert(self matches ResponseValue::Array(v) && v == items);
                    copy.push(items[i].clone());
                    i += 1;
                }
                assert(response_views(copy@) =~= response_views(items@));
                let r = ResponseValue::Array(copy);
                r
            },
            ResponseValue::Leaf(l) => ResponseValue::Leaf(l.clone()),
            ResponseValue::Mapping(entries) => {
                let mut copy: Vec<(String, ResponseValue)> = Vec::new();
                let mut i: usize = 0;
                while i < entries.len()
                    invariant
                        i <= entries@.len(),
                        copy@.len() == i,
                        self == ResponseValue::Mapping(*entries),
                        forall|k: int|
                            0 <= k < i ==> (#[trigger] copy@[k]).0@ == entries@[k].0@
                                && copy@[k].1@ == entries@[k].1@,
                    decreases entries@.len() - i,
                {
                    let key = entries[i].0.clone();
                    assert(self matches ResponseValue::Mapping(v) && v == entries);
                    let value = entries[i].1.clone();
                    copy.push((key, value));
                    i += 1;
                }
                assert(mapping_views(copy@) =~= mapping_views(entries@));
                let r = ResponseValue::Mapping(copy);
                r
            },
            ResponseValue::Empty => ResponseValue::Empty,
        }
    }
}

/// A message of the protocol.
#[derive(Debug, PartialEq, Eq)]
pub enum Message {
    /// Names the columns of every feed sample that follows.
    Description { keys: Vec<String> },
    /// One telemetry sample, a value for each column.
    Feed { values: Vec<FeedValue> },
    /// A request from the client.
    Request(RequestMessage),
    /// The unit's answer to a request.
    Response { id: u32, response: ResponseValue },
}

/// View of a [`Message`].
pub enum MessageView {
    Description { keys: Seq<Seq<char>> },
    Feed { values: Seq<FeedValue> },
    Request(RequestView),
    Response { id: u32, response: ResponseView },
}

impl MessageView {
    /// No mapping in the message names a key twice.
    pub open spec fn wf(self) -> bool {
        match self {
            MessageView::Response { id, response } => response.wf(),
            _ => true,
        }
    }
}

impl View for Message {
    type V = MessageView;

    open spec fn view(&self) -> MessageView {
        match self {
            Message::Description { keys } => MessageView::Description { keys: keys.deep_view() },
            Message::Feed { values } => MessageView::Feed { values: values@ },
            Message::Request(request) => MessageView::Request(request@),
            Message::Response { id, response } => MessageView::Response {
                id: *id,
                response: response@,
            },
        }
    }
}

/// A copy of `keys`, text for text.
pub fn clone_keys(keys: &Vec<String>) -> (r: Vec<String>)
    ensures
        r.deep_view() == keys.deep_view(),
{
    let mut copy: Vec<String> = Vec::new();
    let mut i: usize = 0;
    while i < keys.len()
        invariant
            i <= keys@.len(),
            copy@.len() == i,
            forall|k: int| 0 <= k < i ==> (#[trigger] copy@[k])@ == keys@[k]@,
        decreases keys@.len() - i,
    {
        copy.push(keys[i].clone());
        i += 1;
    }
    copy
}

/// A copy of `values`.
pub fn clone_values(values: &Vec<FeedValue>) -> (r: Vec<FeedValue>)
    ensures
        r@ == values@,
{
    let mut copy: Vec<FeedValue> = Vec::new();
    let mut i: usize = 0;
    while i < values.len()
        invariant
            i <= values@.len(),
            copy@.len() == i,
            forall|k: int| 0 <= k < i ==> #[trigger] copy@[k] == values@[k],
        decreases values@.len() - i,
    {
        copy.push(values[i]);
        i += 1;
    }
    copy
}

impl Clone for Message {
    fn clone(&self) -> (r: Self)
        ensures
            r@ == self@,
    {
        match self {
            Message::Description { keys } => Message::Description { keys: clone_keys(keys) },
            Message::Feed { values } => Message::Feed { values: clone_values(values) },
            Message::Request(request) => Message::Request(request.clone()),
            Message::Response { id, response } => Message::Response {
                id: *id,
                response: response.clone(),
            },
        }
    }
}

} // verus!
