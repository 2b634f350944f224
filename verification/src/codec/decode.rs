//! From a data item to the message that it stands for.

use crate::cbor::{entry_trees, item_trees, Item, Tree};
use crate::codec::laws::{lemma_message_of_is_wf, lemma_response_of_is_wf};
use crate::codec::schema::{
    feed_value_of, feed_values_of, field, leaf_of, mapping_of, message_of, output_of,
    output_type_of, path_element_of, path_of, request_of, response_of, responses_of, text_of,
    texts_of, u32_of,
};
use crate::interface::{
    mapping_views, response_views, FeedValue, Message, OutputType, OutputValue, RequestMessage,
    ResponseValue, StructureLeaf, StructurePath, StructurePathElement,
};
use vstd::prelude::*;

verus! {

/// The value of the first entry whose key is the text `key`.
fn find<'a>(entries: &'a Vec<(Item, Item)>, key: &str) -> (r: Option<&'a Item>)
    ensures
        match r {
            Some(value) => field(entry_trees(entries@), key@) == Some(value@),
            None => field(entry_trees(entries@), key@) is None,
        },
{
    let wanted = String::from_str(key);
    let ghost all = entry_trees(entries@);
    let mut i: usize = 0;
    assert(all.subrange(0, all.len() as int) =~= all);
    while i < entries.len()
        invariant
            i <= entries@.len(),
            all == entry_trees(entries@),
            wanted@ == key@,
            field(all, key@) == field(all.subrange(i as int, all.len() as int), key@),
        decreases entries@.len() - i,
    {
        let ghost rest = all.subrange(i as int, all.len() as int);
        match &entries[i].0 {
            Item::Text(s) => {
                if *s == wanted {
                    return Some(&entries[i].1);
                }
            },
            _ => {},
        }
        assert(rest.subrange(1, rest.len() as int) =~= all.subrange(i + 1, all.len() as int));
        i += 1;
    }
    None
}

/// The number that the item holds, if it is an integer of 32 bits without
/// sign.
fn u32_from(item: &Item) -> (r: Option<u32>)
    ensures
        r == u32_of(item@),
{
    match item {
        Item::Integer(n) => {
            if 0 <= *n && *n <= 0xffff_ffff {
                Some(*n as u32)
            } else {
                None
            }
        },
        _ => None,
    }
}

/// The sample value that the item stands for.
fn feed_value_from(item: &Item) -> (r: Option<FeedValue>)
    ensures
        r == feed_value_of(item@),
{
    match item {
        Item::Integer(n) => {
            if 0 <= *n && *n <= 0xffff_ffff {
                Some(FeedValue::Int(*n as u32))
            } else {
                None
            }
        },
        Item::Float(bits) => Some(FeedValue::Float(*bits)),
        _ => None,
    }
}

/// The path step that the item stands for.
fn path_element_from(item: &Item) -> (r: Option<StructurePathElement>)
    ensures
        match r {
            Some(e) => path_element_of(item@) == Some(e@),
            None => path_element_of(item@) is None,
        },
{
    match item {
        Item::Integer(n) => {
            if 0 <= *n && *n <= 0xffff_ffff {
                Some(StructurePathElement::ArrayIndex(*n as u32))
            } else {
                None
            }
        },
        Item::Text(s) => Some(StructurePathElement::MapField(s.clone())),
        _ => None,
    }
}

/// The texts that the items hold.
fn texts_from(items: &Vec<Item>) -> (r: Option<Vec<String>>)
    ensures
        match r {
            Some(texts) => texts_of(item_trees(items@)) == Some(texts.deep_view()),
            None => texts_of(item_trees(items@)) is None,
        },
{
    let ghost all = item_trees(items@);
    let mut texts: Vec<String> = Vec::new();
    let mut i: usize = 0;
    while i < items.len()
        invariant
            i <= items@.len(),
            texts@.len() == i,
            all == item_trees(items@),
            forall|k: int| 0 <= k < i ==> text_of(#[trigger] all[k]) == Some(texts@[k]@),
        decreases items@.len() - i,
    {
        match &items[i] {
            Item::Text(s) => {
                texts.push(s.clone());
            },
            _ => {
                assert(text_of(all[i as int]) is None);
                return None;
            },
        }
        i += 1;
    }
    Some(texts)
}

/// The sample values that the items stand for.
fn feed_values_from(items: &Vec<Item>) -> (r: Option<Vec<FeedValue>>)
    ensures
        match r {
            Some(values) => feed_values_of(item_trees(items@)) == Some(values@),
            None => feed_values_of(item_trees(items@)) is None,
        },
{
    let ghost all = item_trees(items@);
    let mut values: Vec<FeedValue> = Vec::new();
    let mut i: usize = 0;
    while i < items.len()
        invariant
            i <= items@.len(),
            values@.len() == i,
            all == item_trees(items@),
            forall|k: int| 0 <= k < i ==> feed_value_of(#[trigger] all[k]) == Some(values@[k]),
        decreases items@.len() - i,
    {
        match feed_value_from(&items[i]) {
            Some(v) => {
                values.push(v);
            },
            None => {
                assert(feed_value_of(all[i as int]) is None);
                return None;
            },
        }
        i += 1;
    }
    Some(values)
}

/// The path that the items stand for.
fn path_from(items: &Vec<Item>) -> (r: Option<StructurePath>)
    ensures
        match r {
            Some(path) => path_of(item_trees(items@)) == Some(path@),
            None => path_of(item_trees(items@)) is None,
        },
{
    let ghost all = item_trees(items@);
    let mut steps: Vec<StructurePathElement> = Vec::new();
    let mut i: usize = 0;
    while i < items.len()
        invariant
            i <= items@.len(),
            steps@.len() == i,
            all == item_trees(items@),
            forall|k: int| 0 <= k < i ==> path_element_of(#[trigger] all[k]) == Some(steps@[k]@),
        decreases items@.len() - i,
    {
        match path_element_from(&items[i]) {
            Some(e) => {
                steps.push(e);
            },
            None => {
                assert(path_element_of(all[i as int]) is None);
                return None;
            },
        }
        i += 1;
    }
    let path = StructurePath(steps);
    Some(path)
}

/// The kind of output that the tag names.
fn output_type_from(tag: &String) -> (r: Option<OutputType>)
    ensures
        r == output_type_of(tag@),
{
    if *tag == String::from_str("ignition") {
        Some(OutputType::Ignition)
    } else if *tag == String::from_str("fuel") {
        Some(OutputType::Fuel)
    } else if *tag == String::from_str("disabled") {
        Some(OutputType::Disabled)
    } else {
        None
    }
}

/// The output that a map with these entries stands for.
fn output_from(entries: &Vec<(Item, Item)>) -> (r: Option<OutputValue>)
    ensures
        r == output_of(entry_trees(entries@)),
{
    let pin = match find(entries, "pin") {
        Some(item) => match u32_from(item) {
            Some(pin) => pin,
            None => {
                return None;
            },
        },
        None => {
            return None;
        },
    };
    let output_type = match find(entries, "type") {
        Some(Item::Text(tag)) => match output_type_from(tag) {
            Some(kind) => kind,
            None => {
                return None;
            },
        },
        _ => {
            return None;
        },
    };
    let inverted = match find(entries, "inverted") {
        Some(Item::Bool(b)) => *b,
        _ => {
            return None;
        },
    };
    let angle = match find(entries, "angle") {
        Some(Item::Float(bits)) => *bits,
        _ => {
            return None;
        },
    };
    Some(OutputValue { pin, output_type, inverted, angle })
}

/// The leaf that a map with these entries stands for.
fn leaf_from(entries: &Vec<(Item, Item)>) -> (r: Option<StructureLeaf>)
    ensures
        match r {
            Some(leaf) => leaf_of(entry_trees(entries@)) == Some(leaf@),
            None => leaf_of(entry_trees(entries@)) is None,
        },
{
    match find(entries, "type") {
        Some(Item::Text(kind)) => match find(entries, "description") {
            Some(Item::Text(description)) => Some(
                StructureLeaf { _type: kind.clone(), description: description.clone() },
            ),
            _ => None,
        },
        _ => None,
    }
}

/// Whether `key` is the key of one of `entries`.
fn has_key(entries: &Vec<(String, ResponseValue)>, key: &String) -> (r: bool)
    ensures
        r == exists|k: int| 0 <= k < entries@.len() && (#[trigger] entries@[k]).0@ == key@,
{
    let mut i: usize = 0;
    while i < entries.len()
        invariant
            i <= entries@.len(),
            forall|k: int| 0 <= k < i ==> (#[trigger] entries@[k]).0@ != key@,
        decreases entries@.len() - i,
    {
        if entries[i].0 == *key {
            return true;
        }
        i += 1;
    }
    false
}

/// The mapping that a map with these entries stands for.
fn mapping_from(entries: &Vec<(Item, Item)>) -> (r: Option<Vec<(String, ResponseValue)>>)
    ensures
        match r {
            Some(mapping) => mapping_of(entry_trees(entries@)) == Some(mapping_views(mapping@)),
            None => mapping_of(entry_trees(entries@)) is None,
        },
    decreases entries,
{
    let ghost all = entry_trees(entries@);
    let mut mapping: Vec<(String, ResponseValue)> = Vec::new();
    let mut i: usize = 0;
    while i < entries.len()
        invariant
            i <= entries@.len(),
            mapping@.len() == i,
            all == entry_trees(entries@),
            forall|k: int|
                0 <= k < i ==> (#[trigger] all[k]).0 == Tree::Text(mapping@[k].0@) && response_of(
                    all[k].1,
                ) == Some(mapping@[k].1@),
            forall|j: int, k: int|
                0 <= j < k < i ==> (#[trigger] all[j]).0 != (#[trigger] all[k]).0,
        decreases entries@.len() - i,
    {
        let key = match &entries[i].0 {
            Item::Text(s) => s.clone(),
            _ => {
                return None;
            },
        };
        let value = match response_from(&entries[i].1) {
            Some(v) => v,
            None => {
                assert(response_of(all[i as int].1) is None);
                return None;
            },
        };
        if has_key(&mapping, &key) {
            proof {
                let j = choose|j: int| 0 <= j < mapping@.len() && (#[trigger] mapping@[j]).0@ == key@;
                assert(all[j].0 == all[i as int].0);
            }
            return None;
        }
        mapping.push((key, value));
        i += 1;
    }
    Some(mapping)
}

/// The response values that the items stand for.
fn responses_from(items: &Vec<Item>) -> (r: Option<Vec<ResponseValue>>)
    ensures
        match r {
            Some(values) => responses_of(item_trees(items@)) == Some(response_views(values@)),
            None => responses_of(item_trees(items@)) is None,
        },
    decreases items,
{
    let ghost all = item_trees(items@);
    let mut values: Vec<ResponseValue> = Vec::new();
    let mut i: usize = 0;
    while i < items.len()
        invariant
            i <= items@.len(),
            values@.len() == i,
            all == item_trees(items@),
            forall|k: int| 0 <= k < i ==> response_of(#[trigger] all[k]) == Some(values@[k]@),
        decreases items@.len() - i,
    {
        match response_from(&items[i]) {
            Some(v) => {
                values.push(v);
            },
            None => {
                assert(response_of(all[i as int]) is None);
                return None;
            },
        }
        i += 1;
    }
    Some(values)
}

/// The response value that the item stands for, `None` if it stands for
/// none. A value that is returned names no key twice in any mapping.
pub fn response_from(item: &Item) -> (r: Option<ResponseValue>)
    ensures
        match r {
            Some(value) => response_of(item@) == Some(value@) && value@.wf(),
            None => response_of(item@) is None,
        },
    decreases item,
{
    proof {
        lemma_response_of_is_wf(item@);
    }
    match item {
        Item::Text(s) => Some(ResponseValue::Str(s.clone())),
        Item::Float(bits) => Some(ResponseValue::Float(*bits)),
        Item::Integer(n) => {
            if 0 <= *n && *n <= 0xffff_ffff {
                Some(ResponseValue::Int(*n as u32))
            } else {
                None
            }
        },
        Item::Bool(b) => Some(ResponseValue::Bool(*b)),
        Item::Array(items) => match responses_from(items) {
            Some(values) => Some(ResponseValue::Array(values)),
            None => None,
        },
        Item::Table(entries) => match output_from(entries) {
            Some(output) => Some(ResponseValue::Output(output)),
            None => match leaf_from(entries) {
                Some(leaf) => Some(ResponseValue::Leaf(leaf)),
                None => match mapping_from(entries) {
                    Some(mapping) => Some(ResponseValue::Mapping(mapping)),
                    None => None,
                },
            },
        },
        Item::Null => Some(ResponseValue::Empty),
        _ => None,
    }
}

/// The request that a map with these entries stands for.
fn request_from(entries: &Vec<(Item, Item)>) -> (r: Option<RequestMessage>)
    ensures
        match r {
            Some(request) => request_of(entry_trees(entries@)) == Some(request@),
            None => request_of(entry_trees(entries@)) is None,
        },
{
    let method = match find(entries, "method") {
        Some(Item::Text(method)) => method,
        _ => {
            return None;
        },
    };
    let id = match find(entries, "id") {
        Some(item) => match u32_from(item) {
            Some(id) => id,
            None => {
                return None;
            },
        },
        None => {
            return None;
        },
    };
    if *method == String::from_str("ping") {
        Some(RequestMessage::Ping { id })
    } else if *method == String::from_str("structure") {
        Some(RequestMessage::Structure { id })
    } else if *method == String::from_str("get") {
        match find(entries, "path") {
            Some(Item::Array(steps)) => match path_from(steps) {
                Some(path) => Some(RequestMessage::Get { id, path }),
                None => None,
            },
            _ => None,
        }
    } else {
        None
    }
}

impl Message {
    /// The message that the data item stands for, `None` if it stands for
    /// none. A message that is returned names no key twice in any mapping.
    pub fn from_item(item: &Item) -> (r: Option<Message>)
        ensures
            match r {
                Some(message) => message_of(item@) == Some(message@) && message@.wf(),
                None => message_of(item@) is None,
            },
    {
        proof {
            lemma_message_of_is_wf(item@);
        }
        let entries = match item {
            Item::Table(entries) => entries,
            _ => {
                return None;
            },
        };
        let kind = match find(entries, "type") {
            Some(Item::Text(kind)) => kind,
            _ => {
                return None;
            },
        };
        if *kind == String::from_str("description") {
            match find(entries, "keys") {
                Some(Item::Array(items)) => match texts_from(items) {
                    Some(keys) => Some(Message::Description { keys }),
                    None => None,
                },
                _ => None,
            }
        } else if *kind == String::from_str("feed") {
            match find(entries, "values") {
                Some(Item::Array(items)) => match feed_values_from(items) {
                    Some(values) => Some(Message::Feed { values }),
                    None => None,
                },
                _ => None,
            }
        } else if *kind == String::from_str("request") {
            match request_from(entries) {
                Some(request) => Some(Message::Request(request)),
                None => None,
            }
        } else if *kind == String::from_str("response") {
            let id = match find(entries, "id") {
                Some(item) => match u32_from(item) {
                    Some(id) => id,
                    None => {
                        return None;
                    },
                },
                None => {
                    return None;
                },
            };
            match find(entries, "response") {
                Some(value) => match response_from(value) {
                    Some(response) => Some(Message::Response { id, response }),
                    None => None,
                },
                None => None,
            }
        } else {
            None
        }
    }
}

} // verus!
