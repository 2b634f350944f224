//! From a message to the data item that stands for it.

use crate::cbor::{entry_trees, item_trees, Item, Tree};
use crate::codec::schema::{
    entry, feed_value_tree, leaf_tree, mapping_trees, message_tree, number, output_tree,
    output_type_tag, path_element_tree, request_entries, response_tree, response_trees,
};
use crate::interface::{
    mapping_views, response_views, FeedValue, Message, OutputType, OutputValue, RequestMessage,
    ResponseValue, StructureLeaf, StructurePath, StructurePathElement,
};
use vstd::prelude::*;

verus! {

/// The text item that holds `s`.
fn text_item(s: &str) -> (item: Item)
    ensures
        item@ == Tree::Text(s@),
{
    Item::Text(String::from_str(s))
}

/// The integer item that holds `n`.
fn number_item(n: u32) -> (item: Item)
    ensures
        item@ == number(n),
{
    Item::Integer(n as i128)
}

/// An entry with the text `key` as its key.
fn entry_item(key: &str, value: Item) -> (e: (Item, Item))
    ensures
        (e.0@, e.1@) == entry(key@, value@),
{
    (text_item(key), value)
}

/// The item that stands for a sample value.
fn feed_value_item(v: &FeedValue) -> (item: Item)
    ensures
        item@ == feed_value_tree(*v),
{
    match v {
        FeedValue::Int(n) => number_item(*n),
        FeedValue::Float(bits) => Item::Float(*bits),
    }
}

/// The item that stands for a path step.
fn path_element_item(e: &StructurePathElement) -> (item: Item)
    ensures
        item@ == path_element_tree(e@),
{
    match e {
        StructurePathElement::ArrayIndex(i) => number_item(*i),
        StructurePathElement::MapField(s) => Item::Text(s.clone()),
    }
}

/// The tag that names a kind of output.
fn output_type_name(kind: OutputType) -> (tag: &'static str)
    ensures
        tag@ == output_type_tag(kind),
{
    match kind {
        OutputType::Ignition => "ignition",
        OutputType::Fuel => "fuel",
        OutputType::Disabled => "disabled",
    }
}

/// The map that stands for an output.
fn output_item(o: &OutputValue) -> (item: Item)
    ensures
        item@ == output_tree(*o),
{
    let mut entries: Vec<(Item, Item)> = Vec::new();
    entries.push(entry_item("pin", number_item(o.pin)));
    entries.push(entry_item("type", text_item(output_type_name(o.output_type))));
    entries.push(entry_item("inverted", Item::Bool(o.inverted)));
    entries.push(entry_item("angle", Item::Float(o.angle)));
    assert(entry_trees(entries@) =~= output_tree(*o)->Table_0);
    Item::Table(entries)
}

/// The map that stands for a leaf.
fn leaf_item(l: &StructureLeaf) -> (item: Item)
    ensures
        item@ == leaf_tree(l@),
{
    let mut entries: Vec<(Item, Item)> = Vec::new();
    entries.push(entry_item("type", Item::Text(l._type.clone())));
    entries.push(entry_item("description", Item::Text(l.description.clone())));
    assert(entry_trees(entries@) =~= leaf_tree(l@)->Table_0);
    Item::Table(entries)
}

/// The item that stands for a response value.
pub fn response_item(v: &ResponseValue) -> (item: Item)
    ensures
        item@ == response_tree(v@),
    decreases v,
{
    match v {
        ResponseValue::Str(s) => Item::Text(s.clone()),
        ResponseValue::Float(bits) => Item::Float(*bits),
        ResponseValue::Int(n) => number_item(*n),
        ResponseValue::Bool(b) => Item::Bool(*b),
        ResponseValue::Output(o) => output_item(o),
        ResponseValue::Array(values) => {
            let mut items: Vec<Item> = Vec::new();
            let mut i: usize = 0;
            while i < values.len()
                invariant
                    i <= values@.len(),
                    items@.len() == i,
                    v matches ResponseValue::Array(held) && held == values,
                    forall|k: int|
                        0 <= k < i ==> (#[trigger] items@[k])@ == response_tree(values@[k]@),
                decreases values@.len() - i,
            {
                items.push(response_item(&values[i]));
                i += 1;
            }
            assert(item_trees(items@) =~= response_trees(response_views(values@)));
            Item::Array(items)
        },
        ResponseValue::Leaf(l) => leaf_item(l),
        ResponseValue::Mapping(entries) => {
            let mut items: Vec<(Item, Item)> = Vec::new();
            let mut i: usize = 0;
            while i < entries.len()
                invariant
                    i <= entries@.len(),
                    items@.len() == i,
                    v matches ResponseValue::Mapping(held) && held == entries,
                    forall|k: int|
                        0 <= k < i ==> ((#[trigger] items@[k]).0@, items@[k].1@) == entry(
                            entries@[k].0@,
                            response_tree(entries@[k].1@),
                        ),
                decreases entries@.len() - i,
            {
                let key = Item::Text(entries[i].0.clone());
                let value = response_item(&entries[i].1);
                items.push((key, value));
                i += 1;
            }
            assert(entry_trees(items@) =~= mapping_trees(mapping_views(entries@)));
            Item::Table(items)
        },
        ResponseValue::Empty => Item::Null,
    }
}

/// The array that stands for a path.
fn path_item(path: &StructurePath) -> (item: Item)
    ensures
        item@ == Tree::Array(Seq::new(path@.len(), |i: int| path_element_tree(path@[i]))),
{
    let mut items: Vec<Item> = Vec::new();
    let mut i: usize = 0;
    while i < path.0.len()
        invariant
            i <= path.0@.len(),
            items@.len() == i,
            forall|k: int| 0 <= k < i ==> (#[trigger] items@[k])@ == path_element_tree(path.0@[k]@),
        decreases path.0@.len() - i,
    {
        items.push(path_element_item(&path.0[i]));
        i += 1;
    }
    assert(item_trees(items@) =~= Seq::new(path@.len(), |i: int| path_element_tree(path@[i])));
    Item::Array(items)
}

/// Appends the entries that stand for a request.
fn push_request_entries(entries: &mut Vec<(Item, Item)>, r: &RequestMessage)
    ensures
        entry_trees(final(entries)@) == entry_trees(old(entries)@) + request_entries(r@),
{
    match r {
        RequestMessage::Ping { id } => {
            entries.push(entry_item("method", text_item("ping")));
            entries.push(entry_item("id", number_item(*id)));
        },
        RequestMessage::Structure { id } => {
            entries.push(entry_item("method", text_item("structure")));
            entries.push(entry_item("id", number_item(*id)));
        },
        RequestMessage::Get { id, path } => {
            entries.push(entry_item("method", text_item("get")));
            entries.push(entry_item("id", number_item(*id)));
            entries.push(entry_item("path", path_item(path)));
        },
    }
}

impl Message {
    /// The data item that stands for the message on the wire. Every message
    /// has one.
    pub fn to_item(&self) -> (item: Item)
        ensures
            item@ == message_tree(self@),
    {
        let mut entries: Vec<(Item, Item)> = Vec::new();
        match self {
            Message::Description { keys } => {
                let mut items: Vec<Item> = Vec::new();
                let mut i: usize = 0;
                while i < keys.len()
                    invariant
                        i <= keys@.len(),
                        items@.len() == i,
                        forall|k: int| 0 <= k < i ==> (#[trigger] items@[k])@ == Tree::Text(keys@[k]@),
                    decreases keys@.len() - i,
                {
                    items.push(Item::Text(keys[i].clone()));
                    i += 1;
                }
                assert(item_trees(items@) =~= Seq::new(
                    keys.deep_view().len(),
                    |i: int| Tree::Text(keys.deep_view()[i]),
                ));
                entries.push(entry_item("type", text_item("description")));
                entries.push(entry_item("keys", Item::Array(items)));
                assert(entry_trees(entries@) =~= message_tree(self@)->Table_0);
            },
            Message::Feed { values } => {
                let mut items: Vec<Item> = Vec::new();
                let mut i: usize = 0;
                while i < values.len()
                    invariant
                        i <= values@.len(),
                        items@.len() == i,
                        forall|k: int|
                            0 <= k < i ==> (#[trigger] items@[k])@ == feed_value_tree(values@[k]),
                    decreases values@.len() - i,
                {
                    items.push(feed_value_item(&values[i]));
                    i += 1;
                }
                assert(item_trees(items@) =~= Seq::new(
                    values@.len(),
                    |i: int| feed_value_tree(values@[i]),
                ));
                entries.push(entry_item("type", text_item("feed")));
                entries.push(entry_item("values", Item::Array(items)));
                assert(entry_trees(entries@) =~= message_tree(self@)->Table_0);
            },
            Message::Request(r) => {
                entries.push(entry_item("type", text_item("request")));
                assert(entry_trees(entries@) =~= seq![entry("type"@, Tree::Text("request"@))]);
                push_request_entries(&mut entries, r);
            },
            Message::Response { id, response } => {
                entries.push(entry_item("type", text_item("response")));
                entries.push(entry_item("id", number_item(*id)));
                entries.push(entry_item("response", response_item(response)));
                assert(entry_trees(entries@) =~= message_tree(self@)->Table_0);
            },
        }
        Item::Table(entries)
    }
}

} // verus!
