//! What holds of the schema as a whole: a message survives the way to its
//! data item and back.

use crate::cbor::Tree;
use crate::codec::schema::{
    entry, feed_value_tree, feed_values_of, field, leaf_of, leaf_tree, mapping_of, mapping_trees,
    message_of, message_tree, output_of, output_tree, output_type_of, output_type_tag,
    path_element_tree, path_of, response_of, response_tree, response_trees, responses_of, texts_of,
};
use crate::interface::{LeafView, MessageView, OutputType, OutputValue, RequestView, ResponseView};
use vstd::prelude::*;

verus! {

/// No mapping in the value, at any depth, can be taken for an output or for
/// a leaf: none has entries that together make up either. Such a mapping
/// shares its data item with the output or the leaf, and the order of the
/// shapes gives the item to them.
pub open spec fn unambiguous(v: ResponseView) -> bool
    decreases v,
{
    match v {
        ResponseView::Array(values) => forall|i: int|
            0 <= i < values.len() ==> unambiguous(#[trigger] values[i]),
        ResponseView::Mapping(entries) => {
            &&& output_of(mapping_trees(entries)) is None
            &&& leaf_of(mapping_trees(entries)) is None
            &&& forall|i: int| 0 <= i < entries.len() ==> unambiguous((#[trigger] entries[i]).1)
        },
        _ => true,
    }
}

/// The names of the schema are all different from one another where the
/// schema tells by them.
proof fn lemma_names_differ()
    ensures
        "type"@ != "keys"@,
        "type"@ != "values"@,
        "type"@ != "method"@,
        "type"@ != "id"@,
        "type"@ != "path"@,
        "type"@ != "response"@,
        "type"@ != "pin"@,
        "type"@ != "inverted"@,
        "type"@ != "angle"@,
        "type"@ != "description"@,
        "method"@ != "id"@,
        "method"@ != "path"@,
        "id"@ != "path"@,
        "id"@ != "response"@,
        "pin"@ != "inverted"@,
        "pin"@ != "angle"@,
        "inverted"@ != "angle"@,
        "description"@ != "pin"@,
        "description"@ != "feed"@,
        "description"@ != "request"@,
        "description"@ != "response"@,
        "feed"@ != "request"@,
        "feed"@ != "response"@,
        "request"@ != "response"@,
        "ping"@ != "structure"@,
        "ping"@ != "get"@,
        "structure"@ != "get"@,
        "ignition"@ != "fuel"@,
        "ignition"@ != "disabled"@,
        "fuel"@ != "disabled"@,
{
    reveal_strlit("type");
    reveal_strlit("keys");
    reveal_strlit("values");
    reveal_strlit("method");
    reveal_strlit("id");
    reveal_strlit("path");
    reveal_strlit("response");
    reveal_strlit("pin");
    reveal_strlit("inverted");
    reveal_strlit("angle");
    reveal_strlit("description");
    reveal_strlit("feed");
    reveal_strlit("request");
    reveal_strlit("ping");
    reveal_strlit("structure");
    reveal_strlit("get");
    reveal_strlit("ignition");
    reveal_strlit("fuel");
    reveal_strlit("disabled");
    assert("type"@.len() == 4);
    assert("keys"@.len() == 4);
    assert("values"@.len() == 6);
    assert("method"@.len() == 6);
    assert("id"@.len() == 2);
    assert("path"@.len() == 4);
    assert("response"@.len() == 8);
    assert("pin"@.len() == 3);
    assert("inverted"@.len() == 8);
    assert("angle"@.len() == 5);
    assert("description"@.len() == 11);
    assert("feed"@.len() == 4);
    assert("request"@.len() == 7);
    assert("ping"@.len() == 4);
    assert("structure"@.len() == 9);
    assert("get"@.len() == 3);
    assert("ignition"@.len() == 8);
    assert("fuel"@.len() == 4);
    assert("disabled"@.len() == 8);
    assert("type"@[0] != "keys"@[0]);
    assert("type"@[0] != "path"@[0]);
    assert("ignition"@[0] != "disabled"@[0]);
}

/// The tag of a kind of output names that kind.
pub proof fn lemma_output_type_round_trip(kind: OutputType)
    ensures
        output_type_of(output_type_tag(kind)) == Some(kind),
{
    lemma_names_differ();
}

/// An output is read back from its map.
pub proof fn lemma_output_round_trip(o: OutputValue)
    ensures
        output_tree(o) matches Tree::Table(entries) && output_of(entries) == Some(o),
{
    lemma_names_differ();
    lemma_output_type_round_trip(o.output_type);
    let entries = output_tree(o)->Table_0;
    lemma_field_at(entries, "pin"@, 0);
    lemma_field_at(entries, "type"@, 1);
    lemma_field_at(entries, "inverted"@, 2);
    lemma_field_at(entries, "angle"@, 3);
}

/// A leaf is read back from its map, which cannot be taken for an output.
pub proof fn lemma_leaf_round_trip(l: LeafView)
    ensures
        leaf_tree(l) matches Tree::Table(entries) && output_of(entries) is None && leaf_of(entries)
            == Some(l),
{
    lemma_names_differ();
    let entries = leaf_tree(l)->Table_0;
    lemma_field_absent(entries, "pin"@);
    lemma_field_at(entries, "type"@, 0);
    lemma_field_at(entries, "description"@, 1);
}

/// The entry at `i` gives the field `key` if it has that key and no entry
/// before it has.
pub proof fn lemma_field_at(entries: Seq<(Tree, Tree)>, key: Seq<char>, i: int)
    requires
        0 <= i < entries.len(),
        entries[i].0 == Tree::Text(key),
        forall|k: int| 0 <= k < i ==> (#[trigger] entries[k]).0 != Tree::Text(key),
    ensures
        field(entries, key) == Some(entries[i].1),
    decreases i,
{
    if i > 0 {
        let rest = entries.subrange(1, entries.len() as int);
        assert(entries[0].0 != Tree::Text(key));
        assert forall|k: int| 0 <= k < i - 1 implies (#[trigger] rest[k]).0 != Tree::Text(key) by {
            assert(rest[k] == entries[k + 1]);
        }
        lemma_field_at(rest, key, i - 1);
    }
}

/// There is no field `key` where no entry has that key.
pub proof fn lemma_field_absent(entries: Seq<(Tree, Tree)>, key: Seq<char>)
    requires
        forall|k: int| 0 <= k < entries.len() ==> (#[trigger] entries[k]).0 != Tree::Text(key),
    ensures
        field(entries, key) is None,
    decreases entries.len(),
{
    if entries.len() > 0 {
        let rest = entries.subrange(1, entries.len() as int);
        assert(entries[0].0 != Tree::Text(key));
        assert forall|k: int| 0 <= k < rest.len() implies (#[trigger] rest[k]).0 != Tree::Text(
            key,
        ) by {
            assert(rest[k] == entries[k + 1]);
        }
        lemma_field_absent(rest, key);
    }
}

/// A response value is read back from its data item, provided that no
/// mapping in it names a key twice or can be taken for an output or a leaf.
pub proof fn lemma_response_round_trip(v: ResponseView)
    requires
        v.wf(),
        unambiguous(v),
    ensures
        response_of(response_tree(v)) == Some(v),
    decreases v,
{
    match v {
        ResponseView::Output(o) => {
            lemma_output_round_trip(o);
        },
        ResponseView::Leaf(l) => {
            lemma_leaf_round_trip(l);
        },
        ResponseView::Array(values) => {
            let items = response_trees(values);
            assert forall|i: int| 0 <= i < items.len() implies response_of(#[trigger] items[i])
                == Some(values[i]) by {
                lemma_response_round_trip(values[i]);
            }
            assert(responses_of(items)->Some_0 =~= values);
        },
        ResponseView::Mapping(entries) => {
            let items = mapping_trees(entries);
            assert forall|i: int| 0 <= i < items.len() implies (#[trigger] items[i]).0
                == Tree::Text(entries[i].0) && response_of(items[i].1) == Some(entries[i].1) by {
                lemma_response_round_trip(entries[i].1);
            }
            assert forall|i: int, j: int| 0 <= i < j < items.len() implies (#[trigger] items[i]).0
                != (#[trigger] items[j]).0 by {
                assert(entries[i].0 != entries[j].0);
            }
            assert(mapping_of(items)->Some_0 =~= entries);
        },
        _ => {},
    }
}

/// Round trip. The data item of a message stands for that message and no
/// other, provided that no mapping in it names a key twice or can be taken
/// for an output or a leaf.
pub proof fn lemma_round_trip(m: MessageView)
    requires
        m.wf(),
        m matches MessageView::Response { response, .. } ==> unambiguous(response),
    ensures
        message_of(message_tree(m)) == Some(m),
{
    lemma_names_differ();
    let entries = message_tree(m)->Table_0;
    lemma_field_at(entries, "type"@, 0);
    match m {
        MessageView::Description { keys } => {
            lemma_field_at(entries, "keys"@, 1);
            let items = Seq::new(keys.len(), |i: int| Tree::Text(keys[i]));
            assert(texts_of(items)->Some_0 =~= keys);
        },
        MessageView::Feed { values } => {
            lemma_field_at(entries, "values"@, 1);
            let items = Seq::new(values.len(), |i: int| feed_value_tree(values[i]));
            assert(feed_values_of(items)->Some_0 =~= values);
        },
        MessageView::Request(r) => {
            lemma_field_at(entries, "method"@, 1);
            lemma_field_at(entries, "id"@, 2);
            match r {
                RequestView::Get { id, path } => {
                    lemma_field_at(entries, "path"@, 3);
                    let items = Seq::new(path.len(), |i: int| path_element_tree(path[i]));
                    assert(path_of(items)->Some_0 =~= path);
                },
                _ => {},
            }
        },
        MessageView::Response { id, response } => {
            lemma_field_at(entries, "id"@, 1);
            lemma_field_at(entries, "response"@, 2);
            lemma_response_round_trip(response);
        },
    }
}

/// What is read from a data item is well formed: no mapping in it names a
/// key twice.
pub proof fn lemma_response_of_is_wf(t: Tree)
    ensures
        response_of(t) matches Some(v) ==> v.wf(),
    decreases t,
{
    match t {
        Tree::Array(items) => {
            if responses_of(items) is Some {
                let values = responses_of(items)->Some_0;
                assert forall|i: int| 0 <= i < values.len() implies (#[trigger] values[i]).wf() by {
                    lemma_response_of_is_wf(items[i]);
                }
            }
        },
        Tree::Table(entries) => {
            if output_of(entries) is None && leaf_of(entries) is None && mapping_of(entries)
                is Some {
                let mapping = mapping_of(entries)->Some_0;
                assert forall|i: int| 0 <= i < mapping.len() implies (#[trigger] mapping[i]).1.wf() by {
                    lemma_response_of_is_wf(entries[i].1);
                }
                assert forall|i: int, j: int| 0 <= i < j < mapping.len() implies (
                #[trigger] mapping[i]).0 != (#[trigger] mapping[j]).0 by {
                    assert(entries[i].0 != entries[j].0);
                }
            }
        },
        _ => {},
    }
}

/// Every message that is read from a data item is well formed.
pub proof fn lemma_message_of_is_wf(t: Tree)
    ensures
        message_of(t) matches Some(m) ==> m.wf(),
{
    match t {
        Tree::Table(entries) => {
            match field(entries, "response"@) {
                Some(value) => {
                    lemma_response_of_is_wf(value);
                },
                None => {},
            }
        },
        _ => {},
    }
}

/// No two entries have the same key.
pub open spec fn distinct_keys(entries: Seq<(Tree, Tree)>) -> bool {
    forall|i: int, j: int|
        0 <= i < j < entries.len() ==> (#[trigger] entries[i]).0 != (#[trigger] entries[j]).0
}

/// The two lists hold the same entries, in whatever order.
pub open spec fn same_entries(a: Seq<(Tree, Tree)>, b: Seq<(Tree, Tree)>) -> bool {
    forall|e: (Tree, Tree)| a.contains(e) <==> b.contains(e)
}

/// A field that is found is the value of an entry with that key.
pub proof fn lemma_field_is_entry(entries: Seq<(Tree, Tree)>, key: Seq<char>)
    ensures
        match field(entries, key) {
            Some(value) => entries.contains((Tree::Text(key), value)),
            None => forall|i: int|
                0 <= i < entries.len() ==> (#[trigger] entries[i]).0 != Tree::Text(key),
        },
    decreases entries.len(),
{
    if entries.len() > 0 {
        if entries[0].0 == Tree::Text(key) {
            assert(entries[0] == (Tree::Text(key), entries[0].1));
        } else {
            let rest = entries.subrange(1, entries.len() as int);
            lemma_field_is_entry(rest, key);
            match field(rest, key) {
                Some(value) => {
                    let i = choose|i: int| 0 <= i < rest.len() && rest[i] == (Tree::Text(key), value);
                    assert(entries[i + 1] == (Tree::Text(key), value));
                },
                None => {
                    assert forall|i: int| 0 <= i < entries.len() implies (#[trigger] entries[i]).0
                        != Tree::Text(key) by {
                        if i > 0 {
                            assert(rest[i - 1] == entries[i]);
                        }
                    }
                },
            }
        }
    }
}

/// The order of the entries of a map does not matter to its fields, as long
/// as no key comes twice.
pub proof fn lemma_field_order_free(a: Seq<(Tree, Tree)>, b: Seq<(Tree, Tree)>, key: Seq<char>)
    requires
        distinct_keys(a),
        same_entries(a, b),
    ensures
        field(a, key) == field(b, key),
{
    lemma_field_is_entry(a, key);
    lemma_field_is_entry(b, key);
    match field(a, key) {
        Some(value) => {
            let found = (Tree::Text(key), value);
            assert(b.contains(found));
            let at = choose|i: int| 0 <= i < b.len() && b[i] == found;
            assert(b[at].0 == Tree::Text(key));
            let other = (Tree::Text(key), field(b, key)->Some_0);
            assert(a.contains(other));
            let i = choose|i: int| 0 <= i < a.len() && a[i] == found;
            let j = choose|j: int| 0 <= j < a.len() && a[j] == other;
            assert(a[i].0 == a[j].0);
        },
        None => {
            if field(b, key) is Some {
                let other = (Tree::Text(key), field(b, key)->Some_0);
                assert(a.contains(other));
                let j = choose|j: int| 0 <= j < a.len() && a[j] == other;
                assert(a[j].0 == Tree::Text(key));
            }
        },
    }
}

/// Which message a map stands for does not depend on the order of its
/// entries, as long as no key comes twice.
pub proof fn lemma_message_order_free(a: Seq<(Tree, Tree)>, b: Seq<(Tree, Tree)>)
    requires
        distinct_keys(a),
        same_entries(a, b),
    ensures
        message_of(Tree::Table(a)) == message_of(Tree::Table(b)),
{
    lemma_field_order_free(a, b, "type"@);
    lemma_field_order_free(a, b, "keys"@);
    lemma_field_order_free(a, b, "values"@);
    lemma_field_order_free(a, b, "method"@);
    lemma_field_order_free(a, b, "id"@);
    lemma_field_order_free(a, b, "path"@);
    lemma_field_order_free(a, b, "response"@);
}

/// Whether a map stands for an output or for a leaf, and for which, does not
/// depend on the order of its entries, as long as no key comes twice.
pub proof fn lemma_shape_order_free(a: Seq<(Tree, Tree)>, b: Seq<(Tree, Tree)>)
    requires
        distinct_keys(a),
        same_entries(a, b),
    ensures
        output_of(a) == output_of(b),
        leaf_of(a) == leaf_of(b),
{
    lemma_field_order_free(a, b, "pin"@);
    lemma_field_order_free(a, b, "type"@);
    lemma_field_order_free(a, b, "inverted"@);
    lemma_field_order_free(a, b, "angle"@);
    lemma_field_order_free(a, b, "description"@);
}

} // verus!
