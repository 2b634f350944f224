//! CBOR data items: what one frame of the wire holds before the message
//! schema is applied to it.
//!
//! Parsing bytes is left to `serde_cbor`. This module declares that crate's
//! `Value` to the verifier, takes one apart, and rebuilds it as an [`Item`],
//! a tree that verified code can read.

use serde_cbor::Value;
use vstd::prelude::*;

verus! {

/// A CBOR data item. A floating-point number is held by the bits of its
/// double; a map is the list of its entries.
#[derive(Debug, PartialEq, Eq)]
pub enum Item {
    Null,
    Bool(bool),
    Integer(i128),
    Float(u64),
    Bytes(Vec<u8>),
    Text(String),
    Array(Vec<Item>),
    Table(Vec<(Item, Item)>),
    Tag(u64, Box<Item>),
}

/// View of an [`Item`].
pub enum Tree {
    Null,
    Bool(bool),
    Integer(int),
    Float(u64),
    Bytes(Seq<u8>),
    Text(Seq<char>),
    Array(Seq<Tree>),
    Table(Seq<(Tree, Tree)>),
    Tag(u64, Box<Tree>),
}

/// The views of a list of items.
pub open spec fn item_trees(items: Seq<Item>) -> Seq<Tree>
    decreases items,
{
    Seq::new(
        items.len(),
        |i: int|
            if 0 <= i < items.len() {
                items[i].tree()
            } else {
                Tree::Null
            },
    )
}

/// The views of a list of entries.
pub open spec fn entry_trees(entries: Seq<(Item, Item)>) -> Seq<(Tree, Tree)>
    decreases entries,
{
    Seq::new(
        entries.len(),
        |i: int|
            if 0 <= i < entries.len() {
                (entries[i].0.tree(), entries[i].1.tree())
            } else {
                (Tree::Null, Tree::Null)
            },
    )
}

impl Item {
    /// The item in mathematical form.
    pub open spec fn tree(&self) -> Tree
        decreases self,
    {
        match self {
            Item::Null => Tree::Null,
            Item::Bool(b) => Tree::Bool(*b),
            Item::Integer(n) => Tree::Integer(*n as int),
            Item::Float(bits) => Tree::Float(*bits),
            Item::Bytes(b) => Tree::Bytes(b@),
            Item::Text(s) => Tree::Text(s@),
            Item::Array(items) => Tree::Array(item_trees(items@)),
            Item::Table(entries) => Tree::Table(entry_trees(entries@)),
            Item::Tag(tag, inner) => Tree::Tag(*tag, Box::new(inner.tree())),
        }
    }
}

impl View for Item {
    type V = Tree;

    open spec fn view(&self) -> Tree {
        self.tree()
    }
}

/// `serde_cbor::Value`, the parsed form of a CBOR data item. The verifier sees
/// nothing inside it; [`value_tree`] names what it holds.
#[verifier::external_type_specification]
#[verifier::external_body]
pub struct ExValue(Value);

/// The data item that a `serde_cbor::Value` holds: a map as the list of its
/// entries in the order in which the `Value` walks them, a float by the bits
/// of its double.
pub uninterp spec fn value_tree(v: Value) -> Tree;

/// What `serde_cbor::from_slice` makes of `bytes` when asked for a `Value`:
/// `None` where it reports an error, as it does for bytes that are not one
/// well-formed CBOR item and nothing after it; else the item that the value
/// holds.
pub uninterp spec fn parsed(bytes: Seq<u8>) -> Option<Tree>;

/// One level of a `serde_cbor::Value`: its variant, with the children still
/// unopened.
enum Node {
    Null,
    Bool(bool),
    Integer(i128),
    Float(u64),
    Bytes(Vec<u8>),
    Text(String),
    Array(Vec<Value>),
    Table(Vec<(Value, Value)>),
    Tag(u64, Box<Value>),
}

/// The items that a list of values holds.
spec fn trees(values: Seq<Value>) -> Seq<Tree> {
    Seq::new(values.len(), |i: int| value_tree(values[i]))
}

/// The entries that a list of pairs of values holds.
spec fn tree_pairs(entries: Seq<(Value, Value)>) -> Seq<(Tree, Tree)> {
    Seq::new(entries.len(), |i: int| (value_tree(entries[i].0), value_tree(entries[i].1)))
}

/// The item that a node stands for, its children read through
/// [`value_tree`].
spec fn node_tree(n: Node) -> Tree {
    match n {
        Node::Null => Tree::Null,
        Node::Bool(b) => Tree::Bool(b),
        Node::Integer(i) => Tree::Integer(i as int),
        Node::Float(bits) => Tree::Float(bits),
        Node::Bytes(b) => Tree::Bytes(b@),
        Node::Text(s) => Tree::Text(s@),
        Node::Array(children) => Tree::Array(trees(children@)),
        Node::Table(entries) => Tree::Table(tree_pairs(entries@)),
        Node::Tag(tag, inner) => Tree::Tag(tag, Box::new(value_tree(*inner))),
    }
}

/// Calls `serde_cbor::from_slice` for a `Value` and drops the error's detail.
/// The contract gives the outcome its name: the call fails exactly where
/// [`parsed`] is `None`, and a value that it returns holds the item that
/// [`parsed`] names. The call depends on the bytes alone.
#[verifier::external_body]
fn parse_value(bytes: &[u8]) -> (r: Option<Value>)
    ensures
        r matches Some(v) ==> parsed(bytes@) == Some(value_tree(v)),
        r is None ==> parsed(bytes@) is None,
{
    serde_cbor::from_slice::<Value>(bytes).ok()
}

/// Tells the variants of a `serde_cbor::Value` apart and moves the fields
/// out, one level deep. A float gives its bits, a map its entries in the
/// map's own order. The variant that the crate hides stands for no data and
/// is read as null.
#[verifier::external_body]
fn open_value(v: Value) -> (n: Node)
    ensures
        node_tree(n) == value_tree(v),
{
    match v {
        Value::Null => Node::Null,
        Value::Bool(b) => Node::Bool(b),
        Value::Integer(i) => Node::Integer(i),
        Value::Float(x) => Node::Float(x.to_bits()),
        Value::Bytes(b) => Node::Bytes(b),
        Value::Text(s) => Node::Text(s),
        Value::Array(children) => Node::Array(children),
        Value::Map(entries) => Node::Table(entries.into_iter().collect()),
        Value::Tag(tag, inner) => Node::Tag(tag, inner),
        _ => Node::Null,
    }
}

/// The elements of `v`, last first.
fn reversed<T>(v: Vec<T>) -> (r: Vec<T>)
    ensures
        r@ == v@.reverse(),
{
    let mut rest = v;
    let mut out: Vec<T> = Vec::new();
    while rest.len() > 0
        invariant
            rest@.len() + out@.len() == v@.len(),
            forall|k: int| 0 <= k < rest@.len() ==> rest@[k] == v@[k],
            forall|k: int| 0 <= k < out@.len() ==> out@[k] == v@[v@.len() - 1 - k],
        decreases rest@.len(),
    {
        let x = rest.pop().unwrap();
        out.push(x);
    }
    out
}

/// Rebuilds a parsed value as an item.
fn lift(v: Value) -> (item: Item)
    ensures
        item@ == value_tree(v),
    decreases value_tree(v),
{
    match open_value(v) {
        Node::Null => Item::Null,
        Node::Bool(b) => Item::Bool(b),
        Node::Integer(i) => Item::Integer(i),
        Node::Float(bits) => Item::Float(bits),
        Node::Bytes(b) => Item::Bytes(b),
        Node::Text(s) => Item::Text(s),
        Node::Array(children) => {
            let ghost all = children@;
            let mut rest = reversed(children);
            let mut items: Vec<Item> = Vec::new();
            while rest.len() > 0
                invariant
                    value_tree(v) == Tree::Array(trees(all)),
                    rest@.len() + items@.len() == all.len(),
                    forall|k: int| 0 <= k < rest@.len() ==> rest@[k] == all[all.len() - 1 - k],
                    forall|k: int|
                        0 <= k < items@.len() ==> (#[trigger] items@[k])@ == value_tree(all[k]),
                decreases rest@.len(),
            {
                let child = rest.pop().unwrap();
                proof {
                    let at = items@.len() as int;
                    assert(value_tree(v)->Array_0 == trees(all));
                    assert(decreases_to!(trees(all) => trees(all)[at]));
                }
                let item = lift(child);
                items.push(item);
            }
            let r = Item::Array(items);
            assert(item_trees(items@) =~= trees(all));
            r
        },
        Node::Table(entries) => {
            let ghost all = entries@;
            let mut rest = reversed(entries);
            let mut items: Vec<(Item, Item)> = Vec::new();
            while rest.len() > 0
                invariant
                    value_tree(v) == Tree::Table(tree_pairs(all)),
                    rest@.len() + items@.len() == all.len(),
                    forall|k: int| 0 <= k < rest@.len() ==> rest@[k] == all[all.len() - 1 - k],
                    forall|k: int|
                        0 <= k < items@.len() ==> (#[trigger] items@[k]).0@ == value_tree(
                            all[k].0,
                        ) && items@[k].1@ == value_tree(all[k].1),
                decreases rest@.len(),
            {
                let (key, value) = rest.pop().unwrap();
                proof {
                    let at = items@.len() as int;
                    assert(value_tree(v)->Table_0 == tree_pairs(all));
                    assert(decreases_to!(tree_pairs(all)[at] => tree_pairs(all)[at].0));
                    assert(decreases_to!(tree_pairs(all)[at] => tree_pairs(all)[at].1));
                }
                let key_item = lift(key);
                let value_item = lift(value);
                items.push((key_item, value_item));
            }
            let r = Item::Table(items);
            assert(entry_trees(items@) =~= tree_pairs(all));
            r
        },
        Node::Tag(tag, inner) => {
            proof {
                assert(value_tree(v) matches Tree::Tag(_, held) && *held == value_tree(*inner));
            }
            let item = lift(*inner);
            Item::Tag(tag, Box::new(item))
        },
    }
}

impl Item {
    /// Parses one frame as a single CBOR data item. `None` where the bytes
    /// are no well-formed item, or are more than one.
    pub fn parse(bytes: &[u8]) -> (r: Option<Item>)
        ensures
            r matches Some(item) ==> parsed(bytes@) == Some(item@),
            r is None ==> parsed(bytes@) is None,
    {
        match parse_value(bytes) {
            Some(v) => Some(lift(v)),
            None => None,
        }
    }
}

} // verus!
