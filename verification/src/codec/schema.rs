//! The schema as mathematics: which data item stands for which message, and
//! which message a data item stands for.

use crate::cbor::Tree;
use crate::interface::{
    FeedValue, LeafView, MessageView, OutputType, OutputValue, PathElementView, RequestView,
    ResponseView,
};
use vstd::prelude::*;

verus! {

/// The value of the first entry of `entries` whose key is the text `key`.
pub open spec fn field(entries: Seq<(Tree, Tree)>, key: Seq<char>) -> Option<Tree>
    decreases entries.len(),
{
    if entries.len() == 0 {
        None
    } else if entries[0].0 == Tree::Text(key) {
        Some(entries[0].1)
    } else {
        field(entries.subrange(1, entries.len() as int), key)
    }
}

/// The number that `t` holds, if it is an integer of 32 bits without sign.
pub open spec fn u32_of(t: Tree) -> Option<u32> {
    match t {
        Tree::Integer(n) => if 0 <= n <= u32::MAX {
            Some(n as u32)
        } else {
            None
        },
        _ => None,
    }
}

/// The text that `t` holds, if it is text.
pub open spec fn text_of(t: Tree) -> Option<Seq<char>> {
    match t {
        Tree::Text(s) => Some(s),
        _ => None,
    }
}

/// The sample value that `t` stands for: an integer before a float.
pub open spec fn feed_value_of(t: Tree) -> Option<FeedValue> {
    match t {
        Tree::Integer(n) => if 0 <= n <= u32::MAX {
            Some(FeedValue::Int(n as u32))
        } else {
            None
        },
        Tree::Float(bits) => Some(FeedValue::Float(bits)),
        _ => None,
    }
}

/// The path step that `t` stands for: an index before a field name.
pub open spec fn path_element_of(t: Tree) -> Option<PathElementView> {
    match t {
        Tree::Integer(n) => if 0 <= n <= u32::MAX {
            Some(PathElementView::ArrayIndex(n as u32))
        } else {
            None
        },
        Tree::Text(s) => Some(PathElementView::MapField(s)),
        _ => None,
    }
}

/// The texts that the elements of `items` hold. `None` if one is no text.
pub open spec fn texts_of(items: Seq<Tree>) -> Option<Seq<Seq<char>>> {
    if forall|i: int| 0 <= i < items.len() ==> text_of(#[trigger] items[i]) is Some {
        Some(Seq::new(items.len(), |i: int| text_of(items[i])->Some_0))
    } else {
        None
    }
}

/// The sample values that the elements of `items` stand for. `None` if one
/// stands for none.
pub open spec fn feed_values_of(items: Seq<Tree>) -> Option<Seq<FeedValue>> {
    if forall|i: int| 0 <= i < items.len() ==> feed_value_of(#[trigger] items[i]) is Some {
        Some(Seq::new(items.len(), |i: int| feed_value_of(items[i])->Some_0))
    } else {
        None
    }
}

/// The path that the elements of `items` stand for. `None` if one stands for
/// no step.
pub open spec fn path_of(items: Seq<Tree>) -> Option<Seq<PathElementView>> {
    if forall|i: int| 0 <= i < items.len() ==> path_element_of(#[trigger] items[i]) is Some {
        Some(Seq::new(items.len(), |i: int| path_element_of(items[i])->Some_0))
    } else {
        None
    }
}

/// The kind of output that the tag names.
pub open spec fn output_type_of(tag: Seq<char>) -> Option<OutputType> {
    if tag == "ignition"@ {
        Some(OutputType::Ignition)
    } else if tag == "fuel"@ {
        Some(OutputType::Fuel)
    } else if tag == "disabled"@ {
        Some(OutputType::Disabled)
    } else {
        None
    }
}

/// The tag that names a kind of output.
pub open spec fn output_type_tag(kind: OutputType) -> Seq<char> {
    match kind {
        OutputType::Ignition => "ignition"@,
        OutputType::Fuel => "fuel"@,
        OutputType::Disabled => "disabled"@,
    }
}

/// The output that a map with these entries stands for: it needs a `pin`, a
/// `type` that names a kind, an `inverted` flag and an `angle`.
pub open spec fn output_of(entries: Seq<(Tree, Tree)>) -> Option<OutputValue> {
    match (
        field(entries, "pin"@),
        field(entries, "type"@),
        field(entries, "inverted"@),
        field(entries, "angle"@),
    ) {
        (Some(pin), Some(Tree::Text(tag)), Some(Tree::Bool(inverted)), Some(Tree::Float(angle))) => {
            match (u32_of(pin), output_type_of(tag)) {
                (Some(pin), Some(output_type)) => Some(
                    OutputValue { pin, output_type, inverted, angle },
                ),
                _ => None,
            }
        },
        _ => None,
    }
}

/// The leaf that a map with these entries stands for: it needs a `type` and
/// a `description`, both text.
pub open spec fn leaf_of(entries: Seq<(Tree, Tree)>) -> Option<LeafView> {
    match (field(entries, "type"@), field(entries, "description"@)) {
        (Some(Tree::Text(kind)), Some(Tree::Text(description))) => Some(
            LeafView { kind, description },
        ),
        _ => None,
    }
}

/// The response values that the elements of `items` stand for. `None` if one
/// of them stands for none.
pub open spec fn responses_of(items: Seq<Tree>) -> Option<Seq<ResponseView>>
    decreases items,
{
    if forall|i: int| 0 <= i < items.len() ==> response_of(#[trigger] items[i]) is Some {
        Some(
            Seq::new(
                items.len(),
                |i: int|
                    if 0 <= i < items.len() {
                        response_of(items[i])->Some_0
                    } else {
                        ResponseView::Empty
                    },
            ),
        )
    } else {
        None
    }
}

/// The mapping that a map with these entries stands for: every key is text,
/// no key comes twice, and every value stands for a response value.
pub open spec fn mapping_of(entries: Seq<(Tree, Tree)>) -> Option<Seq<(Seq<char>, ResponseView)>>
    decreases entries,
{
    if (forall|i: int|
        0 <= i < entries.len() ==> (#[trigger] entries[i]).0 is Text && response_of(entries[i].1)
            is Some) && (forall|i: int, j: int|
        0 <= i < j < entries.len() ==> (#[trigger] entries[i]).0 != (#[trigger] entries[j]).0) {
        Some(
            Seq::new(
                entries.len(),
                |i: int|
                    if 0 <= i < entries.len() {
                        (entries[i].0->Text_0, response_of(entries[i].1)->Some_0)
                    } else {
                        (Seq::empty(), ResponseView::Empty)
                    },
            ),
        )
    } else {
        None
    }
}

/// The response value that `t` stands for. The shapes are tried in this
/// order: text, float, integer, boolean, output, array, leaf, mapping, null.
pub open spec fn response_of(t: Tree) -> Option<ResponseView>
    decreases t,
{
    match t {
        Tree::Text(s) => Some(ResponseView::Str(s)),
        Tree::Float(bits) => Some(ResponseView::Float(bits)),
        Tree::Integer(n) => if 0 <= n <= u32::MAX {
            Some(ResponseView::Int(n as u32))
        } else {
            None
        },
        Tree::Bool(b) => Some(ResponseView::Bool(b)),
        Tree::Array(items) => match responses_of(items) {
            Some(values) => Some(ResponseView::Array(values)),
            None => None,
        },
        Tree::Table(entries) => match output_of(entries) {
            Some(output) => Some(ResponseView::Output(output)),
            None => match leaf_of(entries) {
                Some(leaf) => Some(ResponseView::Leaf(leaf)),
                None => match mapping_of(entries) {
                    Some(mapping) => Some(ResponseView::Mapping(mapping)),
                    None => None,
                },
            },
        },
        Tree::Null => Some(ResponseView::Empty),
        _ => None,
    }
}

/// The request that a map with these entries stands for: its `method` names
/// the kind, its `id` is the number, and a `get` has a `path`.
pub open spec fn request_of(entries: Seq<(Tree, Tree)>) -> Option<RequestView> {
    match (field(entries, "method"@), field(entries, "id"@)) {
        (Some(Tree::Text(method)), Some(id)) => match u32_of(id) {
            Some(id) => if method == "ping"@ {
                Some(RequestView::Ping { id })
            } else if method == "structure"@ {
                Some(RequestView::Structure { id })
            } else if method == "get"@ {
                match field(entries, "path"@) {
                    Some(Tree::Array(steps)) => match path_of(steps) {
                        Some(path) => Some(RequestView::Get { id, path }),
                        None => None,
                    },
                    _ => None,
                }
            } else {
                None
            },
            None => None,
        },
        _ => None,
    }
}

/// The message that `t` stands for, if it stands for one.
pub open spec fn message_of(t: Tree) -> Option<MessageView> {
    match t {
        Tree::Table(entries) => match field(entries, "type"@) {
            Some(Tree::Text(kind)) => if kind == "description"@ {
                match field(entries, "keys"@) {
                    Some(Tree::Array(items)) => match texts_of(items) {
                        Some(keys) => Some(MessageView::Description { keys }),
                        None => None,
                    },
                    _ => None,
                }
            } else if kind == "feed"@ {
                match field(entries, "values"@) {
                    Some(Tree::Array(items)) => match feed_values_of(items) {
                        Some(values) => Some(MessageView::Feed { values }),
                        None => None,
                    },
                    _ => None,
                }
            } else if kind == "request"@ {
                match request_of(entries) {
                    Some(request) => Some(MessageView::Request(request)),
                    None => None,
                }
            } else if kind == "response"@ {
                match (field(entries, "id"@), field(entries, "response"@)) {
                    (Some(id), Some(value)) => match (u32_of(id), response_of(value)) {
                        (Some(id), Some(response)) => Some(MessageView::Response { id, response }),
                        _ => None,
                    },
                    _ => None,
                }
            } else {
                None
            },
            _ => None,
        },
        _ => None,
    }
}

/// The entry of a map with the text `key` as its key.
pub open spec fn entry(key: Seq<char>, value: Tree) -> (Tree, Tree) {
    (Tree::Text(key), value)
}

/// The item that stands for a number.
pub open spec fn number(n: u32) -> Tree {
    Tree::Integer(n as int)
}

/// The item that stands for a sample value.
pub open spec fn feed_value_tree(v: FeedValue) -> Tree {
    match v {
        FeedValue::Int(n) => number(n),
        FeedValue::Float(bits) => Tree::Float(bits),
    }
}

/// The item that stands for a path step.
pub open spec fn path_element_tree(e: PathElementView) -> Tree {
    match e {
        PathElementView::ArrayIndex(i) => number(i),
        PathElementView::MapField(s) => Tree::Text(s),
    }
}

/// The map that stands for an output.
pub open spec fn output_tree(o: OutputValue) -> Tree {
    Tree::Table(
        seq![
            entry("pin"@, number(o.pin)),
            entry("type"@, Tree::Text(output_type_tag(o.output_type))),
            entry("inverted"@, Tree::Bool(o.inverted)),
            entry("angle"@, Tree::Float(o.angle)),
        ],
    )
}

/// The map that stands for a leaf.
pub open spec fn leaf_tree(l: LeafView) -> Tree {
    Tree::Table(
        seq![entry("type"@, Tree::Text(l.kind)), entry("description"@, Tree::Text(l.description))],
    )
}

/// The items that stand for a list of response values.
pub open spec fn response_trees(values: Seq<ResponseView>) -> Seq<Tree>
    decreases values,
{
    Seq::new(
        values.len(),
        |i: int|
            if 0 <= i < values.len() {
                response_tree(values[i])
            } else {
                Tree::Null
            },
    )
}

/// The entries that stand for those of a mapping.
pub open spec fn mapping_trees(entries: Seq<(Seq<char>, ResponseView)>) -> Seq<(Tree, Tree)>
    decreases entries,
{
    Seq::new(
        entries.len(),
        |i: int|
            if 0 <= i < entries.len() {
                entry(entries[i].0, response_tree(entries[i].1))
            } else {
                (Tree::Null, Tree::Null)
            },
    )
}

/// The item that stands for a response value.
pub open spec fn response_tree(v: ResponseView) -> Tree
    decreases v,
{
    match v {
        ResponseView::Str(s) => Tree::Text(s),
        ResponseView::Float(bits) => Tree::Float(bits),
        ResponseView::Int(n) => number(n),
        ResponseView::Bool(b) => Tree::Bool(b),
        ResponseView::Output(o) => output_tree(o),
        ResponseView::Array(values) => Tree::Array(response_trees(values)),
        ResponseView::Leaf(l) => leaf_tree(l),
        ResponseView::Mapping(entries) => Tree::Table(mapping_trees(entries)),
        ResponseView::Empty => Tree::Null,
    }
}

/// The entries that stand for a request, after the `type` of its message.
pub open spec fn request_entries(r: RequestView) -> Seq<(Tree, Tree)> {
    match r {
        RequestView::Ping { id } => seq![
            entry("method"@, Tree::Text("ping"@)),
            entry("id"@, number(id)),
        ],
        RequestView::Structure { id } => seq![
            entry("method"@, Tree::Text("structure"@)),
            entry("id"@, number(id)),
        ],
        RequestView::Get { id, path } => seq![
            entry("method"@, Tree::Text("get"@)),
            entry("id"@, number(id)),
            entry(
                "path"@,
                Tree::Array(Seq::new(path.len(), |i: int| path_element_tree(path[i]))),
            ),
        ],
    }
}

/// The map that stands for a message.
pub open spec fn message_tree(m: MessageView) -> Tree {
    match m {
        MessageView::Description { keys } => Tree::Table(
            seq![
                entry("type"@, Tree::Text("description"@)),
                entry("keys"@, Tree::Array(Seq::new(keys.len(), |i: int| Tree::Text(keys[i])))),
            ],
        ),
        MessageView::Feed { values } => Tree::Table(
            seq![
                entry("type"@, Tree::Text("feed"@)),
                entry(
                    "values"@,
                    Tree::Array(Seq::new(values.len(), |i: int| feed_value_tree(values[i]))),
                ),
            ],
        ),
        MessageView::Request(r) => Tree::Table(
            seq![entry("type"@, Tree::Text("request"@))] + request_entries(r),
        ),
        MessageView::Response { id, response } => Tree::Table(
            seq![
                entry("type"@, Tree::Text("response"@)),
                entry("id"@, number(id)),
                entry("response"@, response_tree(response)),
            ],
        ),
    }
}

} // verus!
