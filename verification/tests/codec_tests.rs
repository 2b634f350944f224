use std::collections::BTreeMap;
use viaems::cbor::Item;
use viaems::codec::decode::response_from;
use viaems::codec::encode::response_item;
use viaems::codec::{decode, DecodeError};
use viaems::interface::{
    FeedValue, Message, OutputType, OutputValue, RequestMessage, ResponseValue, StructureLeaf,
    StructurePath,
};

fn text(s: &str) -> Item {
    Item::Text(s.to_string())
}

fn entry(key: &str, value: Item) -> (Item, Item) {
    (text(key), value)
}

fn to_value(item: &Item) -> serde_cbor::Value {
    match item {
        Item::Null => serde_cbor::Value::Null,
        Item::Bool(b) => serde_cbor::Value::Bool(*b),
        Item::Integer(n) => serde_cbor::Value::Integer(*n),
        Item::Float(bits) => serde_cbor::Value::Float(f64::from_bits(*bits)),
        Item::Bytes(b) => serde_cbor::Value::Bytes(b.clone()),
        Item::Text(s) => serde_cbor::Value::Text(s.clone()),
        Item::Array(items) => serde_cbor::Value::Array(items.iter().map(to_value).collect()),
        Item::Table(entries) => {
            let mut map = BTreeMap::new();
            for (k, v) in entries {
                map.insert(to_value(k), to_value(v));
            }
            serde_cbor::Value::Map(map)
        }
        Item::Tag(tag, inner) => serde_cbor::Value::Tag(*tag, Box::new(to_value(inner))),
    }
}

fn encode(message: &Message) -> Vec<u8> {
    serde_cbor::to_vec(&to_value(&message.to_item())).unwrap()
}

fn leaf(kind: &str, description: &str) -> ResponseValue {
    ResponseValue::Leaf(StructureLeaf {
        _type: kind.to_string(),
        description: description.to_string(),
    })
}

fn output(pin: u32, output_type: OutputType, inverted: bool, angle: f64) -> ResponseValue {
    ResponseValue::Output(OutputValue { pin, output_type, inverted, angle: angle.to_bits() })
}

fn sample_messages() -> Vec<Message> {
    vec![
        Message::Description { keys: vec![] },
        Message::Description { keys: vec!["rpm".to_string(), "map".to_string()] },
        Message::Feed { values: vec![] },
        Message::Feed {
            values: vec![
                FeedValue::Int(0),
                FeedValue::Int(u32::MAX),
                FeedValue::Float(0.0f64.to_bits()),
                FeedValue::Float(98.5f64.to_bits()),
                FeedValue::Float((-1.0e300f64).to_bits()),
                FeedValue::Float(f64::INFINITY.to_bits()),
            ],
        },
        Message::Request(RequestMessage::Ping { id: 0 }),
        Message::Request(RequestMessage::Structure { id: 70000 }),
        Message::Request(RequestMessage::Get { id: 3, path: StructurePath::new() }),
        Message::Request(RequestMessage::Get {
            id: 3,
            path: StructurePath::new().add_str("outputs").add_index(2).add_str("pin"),
        }),
        Message::Response { id: 1, response: ResponseValue::Str("hello".to_string()) },
        Message::Response { id: 1, response: ResponseValue::Str(String::new()) },
        Message::Response { id: 2, response: ResponseValue::Float(2.5f64.to_bits()) },
        Message::Response { id: 2, response: ResponseValue::Float(1.0f64.to_bits()) },
        Message::Response { id: 3, response: ResponseValue::Int(1) },
        Message::Response { id: 4, response: ResponseValue::Bool(true) },
        Message::Response { id: 4, response: ResponseValue::Bool(false) },
        Message::Response { id: 5, response: output(4, OutputType::Fuel, true, 180.0) },
        Message::Response { id: 5, response: output(0, OutputType::Ignition, false, 0.0) },
        Message::Response { id: 5, response: output(9, OutputType::Disabled, false, 359.5) },
        Message::Response { id: 6, response: ResponseValue::Array(vec![]) },
        Message::Response {
            id: 6,
            response: ResponseValue::Array(vec![
                ResponseValue::Int(1),
                ResponseValue::Str("1".to_string()),
                ResponseValue::Float(1.0f64.to_bits()),
                ResponseValue::Bool(true),
                ResponseValue::Empty,
                ResponseValue::Array(vec![ResponseValue::Empty]),
            ]),
        },
        Message::Response { id: 7, response: leaf("uint32", "pin number") },
        Message::Response { id: 8, response: ResponseValue::Mapping(vec![]) },
        Message::Response {
            id: 8,
            response: ResponseValue::Mapping(vec![
                ("a".to_string(), ResponseValue::Int(1)),
                ("b".to_string(), leaf("float", "angle")),
                ("cc".to_string(), output(1, OutputType::Fuel, false, 1.5)),
                (
                    "ddd".to_string(),
                    ResponseValue::Mapping(vec![("type".to_string(), ResponseValue::Int(3))]),
                ),
            ]),
        },
        Message::Response { id: 9, response: ResponseValue::Empty },
    ]
}

const DESCRIPTION: [u8; 32] = [
    0xa2, 0x64, 0x74, 0x79, 0x70, 0x65, 0x6b, 0x64, 0x65, 0x73, 0x63, 0x72, 0x69, 0x70, 0x74, 0x69,
    0x6f, 0x6e, 0x64, 0x6b, 0x65, 0x79, 0x73, 0x82, 0x63, 0x72, 0x70, 0x6d, 0x63, 0x6d, 0x61, 0x70,
];

const FEED: [u8; 36] = [
    0xa2, 0x64, 0x74, 0x79, 0x70, 0x65, 0x64, 0x66, 0x65, 0x65, 0x64, 0x66, 0x76, 0x61, 0x6c, 0x75,
    0x65, 0x73, 0x83, 0x19, 0x03, 0x84, 0xfa, 0x42, 0xc5, 0x00, 0x00, 0xfb, 0x3f, 0xb9, 0x99, 0x99,
    0x99, 0x99, 0x99, 0x9a,
];

const PING: [u8; 30] = [
    0xa3, 0x64, 0x74, 0x79, 0x70, 0x65, 0x67, 0x72, 0x65, 0x71, 0x75, 0x65, 0x73, 0x74, 0x66, 0x6d,
    0x65, 0x74, 0x68, 0x6f, 0x64, 0x64, 0x70, 0x69, 0x6e, 0x67, 0x62, 0x69, 0x64, 0x05,
];

const STRUCTURE: [u8; 39] = [
    0xa3, 0x64, 0x74, 0x79, 0x70, 0x65, 0x67, 0x72, 0x65, 0x71, 0x75, 0x65, 0x73, 0x74, 0x66, 0x6d,
    0x65, 0x74, 0x68, 0x6f, 0x64, 0x69, 0x73, 0x74, 0x72, 0x75, 0x63, 0x74, 0x75, 0x72, 0x65, 0x62,
    0x69, 0x64, 0x1a, 0x00, 0x01, 0x11, 0x70,
];

const GET: [u8; 48] = [
    0xa4, 0x64, 0x74, 0x79, 0x70, 0x65, 0x67, 0x72, 0x65, 0x71, 0x75, 0x65, 0x73, 0x74, 0x66, 0x6d,
    0x65, 0x74, 0x68, 0x6f, 0x64, 0x63, 0x67, 0x65, 0x74, 0x62, 0x69, 0x64, 0x03, 0x64, 0x70, 0x61,
    0x74, 0x68, 0x83, 0x67, 0x6f, 0x75, 0x74, 0x70, 0x75, 0x74, 0x73, 0x02, 0x63, 0x70, 0x69, 0x6e,
];

const RESPONSE_OUTPUT: [u8; 65] = [
    0xa3, 0x64, 0x74, 0x79, 0x70, 0x65, 0x68, 0x72, 0x65, 0x73, 0x70, 0x6f, 0x6e, 0x73, 0x65, 0x62,
    0x69, 0x64, 0x07, 0x68, 0x72, 0x65, 0x73, 0x70, 0x6f, 0x6e, 0x73, 0x65, 0xa4, 0x63, 0x70, 0x69,
    0x6e, 0x04, 0x64, 0x74, 0x79, 0x70, 0x65, 0x64, 0x66, 0x75, 0x65, 0x6c, 0x68, 0x69, 0x6e, 0x76,
    0x65, 0x72, 0x74, 0x65, 0x64, 0xf5, 0x65, 0x61, 0x6e, 0x67, 0x6c, 0x65, 0xfa, 0x43, 0x34, 0x00,
    0x00,
];

const RESPONSE_LEAF: [u8; 64] = [
    0xa3, 0x64, 0x74, 0x79, 0x70, 0x65, 0x68, 0x72, 0x65, 0x73, 0x70, 0x6f, 0x6e, 0x73, 0x65, 0x62,
    0x69, 0x64, 0x08, 0x68, 0x72, 0x65, 0x73, 0x70, 0x6f, 0x6e, 0x73, 0x65, 0xa2, 0x64, 0x74, 0x79,
    0x70, 0x65, 0x66, 0x75, 0x69, 0x6e, 0x74, 0x33, 0x32, 0x6b, 0x64, 0x65, 0x73, 0x63, 0x72, 0x69,
    0x70, 0x74, 0x69, 0x6f, 0x6e, 0x6a, 0x70, 0x69, 0x6e, 0x20, 0x6e, 0x75, 0x6d, 0x62, 0x65, 0x72,
];

const RESPONSE_MAPPING: [u8; 51] = [
    0xa3, 0x64, 0x74, 0x79, 0x70, 0x65, 0x68, 0x72, 0x65, 0x73, 0x70, 0x6f, 0x6e, 0x73, 0x65, 0x62,
    0x69, 0x64, 0x09, 0x68, 0x72, 0x65, 0x73, 0x70, 0x6f, 0x6e, 0x73, 0x65, 0xa3, 0x61, 0x61, 0x01,
    0x61, 0x62, 0x84, 0xf5, 0xf6, 0x61, 0x78, 0xfa, 0x40, 0x20, 0x00, 0x00, 0x61, 0x63, 0xa1, 0x61,
    0x64, 0x61, 0x65,
];

const RESPONSE_NULL: [u8; 29] = [
    0xa3, 0x64, 0x74, 0x79, 0x70, 0x65, 0x68, 0x72, 0x65, 0x73, 0x70, 0x6f, 0x6e, 0x73, 0x65, 0x62,
    0x69, 0x64, 0x01, 0x68, 0x72, 0x65, 0x73, 0x70, 0x6f, 0x6e, 0x73, 0x65, 0xf6,
];

const FEED_WITH_TYPE_LAST: [u8; 20] = [
    0xa2, 0x66, 0x76, 0x61, 0x6c, 0x75, 0x65, 0x73, 0x81, 0x01, 0x64, 0x74, 0x79, 0x70, 0x65, 0x64,
    0x66, 0x65, 0x65, 0x64,
];

const FEED_NEGATIVE: [u8; 20] = [
    0xa2, 0x64, 0x74, 0x79, 0x70, 0x65, 0x64, 0x66, 0x65, 0x65, 0x64, 0x66, 0x76, 0x61, 0x6c, 0x75,
    0x65, 0x73, 0x81, 0x20,
];

const FEED_TOO_BIG: [u8; 28] = [
    0xa2, 0x64, 0x74, 0x79, 0x70, 0x65, 0x64, 0x66, 0x65, 0x65, 0x64, 0x66, 0x76, 0x61, 0x6c, 0x75,
    0x65, 0x73, 0x81, 0x1b, 0x00, 0x00, 0x00, 0x01, 0x00, 0x00, 0x00, 0x00,
];

const FEED_MAX: [u8; 24] = [
    0xa2, 0x64, 0x74, 0x79, 0x70, 0x65, 0x64, 0x66, 0x65, 0x65, 0x64, 0x66, 0x76, 0x61, 0x6c, 0x75,
    0x65, 0x73, 0x81, 0x1a, 0xff, 0xff, 0xff, 0xff,
];

const UNKNOWN_TYPE: [u8; 12] =
    [0xa1, 0x64, 0x74, 0x79, 0x70, 0x65, 0x65, 0x68, 0x65, 0x6c, 0x6c, 0x6f];

const DESCRIPTION_WITH_EXTRA: [u8; 31] = [
    0xa3, 0x64, 0x74, 0x79, 0x70, 0x65, 0x6b, 0x64, 0x65, 0x73, 0x63, 0x72, 0x69, 0x70, 0x74, 0x69,
    0x6f, 0x6e, 0x64, 0x6b, 0x65, 0x79, 0x73, 0x80, 0x65, 0x65, 0x78, 0x74, 0x72, 0x61, 0x01,
];

const RESPONSE_BYTES: [u8; 31] = [
    0xa3, 0x64, 0x74, 0x79, 0x70, 0x65, 0x68, 0x72, 0x65, 0x73, 0x70, 0x6f, 0x6e, 0x73, 0x65, 0x62,
    0x69, 0x64, 0x01, 0x68, 0x72, 0x65, 0x73, 0x70, 0x6f, 0x6e, 0x73, 0x65, 0x42, 0x61, 0x62,
];

#[test]
fn decode_description() {
    assert_eq!(
        decode(&DESCRIPTION),
        Ok(Message::Description { keys: vec!["rpm".to_string(), "map".to_string()] })
    );
}

#[test]
fn decode_feed_keeps_integers_and_floats_apart() {
    assert_eq!(
        decode(&FEED),
        Ok(Message::Feed {
            values: vec![
                FeedValue::Int(900),
                FeedValue::Float(0x4058a00000000000),
                FeedValue::Float(0x3fb999999999999a),
            ],
        })
    );
    assert_eq!(f64::from_bits(0x4058a00000000000), 98.5);
    assert_eq!(f64::from_bits(0x3fb999999999999a), 0.1);
}

#[test]
fn decode_requests() {
    assert_eq!(decode(&PING), Ok(Message::Request(RequestMessage::Ping { id: 5 })));
    assert_eq!(decode(&STRUCTURE), Ok(Message::Request(RequestMessage::Structure { id: 70000 })));
    assert_eq!(
        decode(&GET),
        Ok(Message::Request(RequestMessage::Get {
            id: 3,
            path: StructurePath::new().add_str("outputs").add_index(2).add_str("pin"),
        }))
    );
}

#[test]
fn decode_response_output() {
    assert_eq!(
        decode(&RESPONSE_OUTPUT),
        Ok(Message::Response { id: 7, response: output(4, OutputType::Fuel, true, 180.0) })
    );
}

#[test]
fn decode_response_leaf() {
    assert_eq!(
        decode(&RESPONSE_LEAF),
        Ok(Message::Response { id: 8, response: leaf("uint32", "pin number") })
    );
}

#[test]
fn decode_response_mapping() {
    assert_eq!(
        decode(&RESPONSE_MAPPING),
        Ok(Message::Response {
            id: 9,
            response: ResponseValue::Mapping(vec![
                ("a".to_string(), ResponseValue::Int(1)),
                (
                    "b".to_string(),
                    ResponseValue::Array(vec![
                        ResponseValue::Bool(true),
                        ResponseValue::Empty,
                        ResponseValue::Str("x".to_string()),
                        ResponseValue::Float(2.5f64.to_bits()),
                    ]),
                ),
                (
                    "c".to_string(),
                    ResponseValue::Mapping(vec![(
                        "d".to_string(),
                        ResponseValue::Str("e".to_string()),
                    )]),
                ),
            ]),
        })
    );
}

#[test]
fn decode_response_null() {
    assert_eq!(decode(&RESPONSE_NULL), Ok(Message::Response { id: 1, response: ResponseValue::Empty }));
}

#[test]
fn decode_does_not_depend_on_entry_order() {
    assert_eq!(decode(&FEED_WITH_TYPE_LAST), Ok(Message::Feed { values: vec![FeedValue::Int(1)] }));
}

#[test]
fn decode_passes_over_unknown_entries() {
    assert_eq!(decode(&DESCRIPTION_WITH_EXTRA), Ok(Message::Description { keys: vec![] }));
}

#[test]
fn decode_takes_largest_integer() {
    assert_eq!(decode(&FEED_MAX), Ok(Message::Feed { values: vec![FeedValue::Int(u32::MAX)] }));
}

#[test]
fn decode_rejects_bytes_that_are_no_cbor() {
    assert_eq!(decode(&[]), Err(DecodeError::Malformed));
    assert_eq!(decode(&[0xff]), Err(DecodeError::Malformed));
    assert_eq!(decode(&[0x1c]), Err(DecodeError::Malformed));
    assert_eq!(decode(&DESCRIPTION[..31]), Err(DecodeError::Malformed));
    assert_eq!(decode(&[0x62, 0xff, 0xfe]), Err(DecodeError::Malformed));
}

#[test]
fn decode_rejects_trailing_bytes() {
    let mut bytes = PING.to_vec();
    bytes.push(0x00);
    assert_eq!(decode(&bytes), Err(DecodeError::Malformed));
}

#[test]
fn decode_rejects_items_that_are_no_message() {
    assert_eq!(decode(&[0x82, 0x01, 0x02]), Err(DecodeError::NotAMessage));
    assert_eq!(decode(&[0xf6]), Err(DecodeError::NotAMessage));
    assert_eq!(decode(&[0xa0]), Err(DecodeError::NotAMessage));
    assert_eq!(decode(&UNKNOWN_TYPE), Err(DecodeError::NotAMessage));
    assert_eq!(decode(&FEED_NEGATIVE), Err(DecodeError::NotAMessage));
    assert_eq!(decode(&FEED_TOO_BIG), Err(DecodeError::NotAMessage));
    assert_eq!(decode(&RESPONSE_BYTES), Err(DecodeError::NotAMessage));
}

#[test]
fn to_item_of_description() {
    let message = Message::Description { keys: vec!["rpm".to_string()] };
    assert_eq!(
        message.to_item(),
        Item::Table(vec![
            entry("type", text("description")),
            entry("keys", Item::Array(vec![text("rpm")])),
        ])
    );
}

#[test]
fn to_item_of_feed() {
    let message =
        Message::Feed { values: vec![FeedValue::Int(7), FeedValue::Float(1.5f64.to_bits())] };
    assert_eq!(
        message.to_item(),
        Item::Table(vec![
            entry("type", text("feed")),
            entry("values", Item::Array(vec![Item::Integer(7), Item::Float(1.5f64.to_bits())])),
        ])
    );
}

#[test]
fn to_item_of_requests() {
    assert_eq!(
        Message::Request(RequestMessage::Ping { id: 5 }).to_item(),
        Item::Table(vec![
            entry("type", text("request")),
            entry("method", text("ping")),
            entry("id", Item::Integer(5)),
        ])
    );
    assert_eq!(
        Message::Request(RequestMessage::Structure { id: 6 }).to_item(),
        Item::Table(vec![
            entry("type", text("request")),
            entry("method", text("structure")),
            entry("id", Item::Integer(6)),
        ])
    );
    assert_eq!(
        Message::Request(RequestMessage::Get {
            id: 7,
            path: StructurePath::new().add_index(1).add_str("x"),
        })
        .to_item(),
        Item::Table(vec![
            entry("type", text("request")),
            entry("method", text("get")),
            entry("id", Item::Integer(7)),
            entry("path", Item::Array(vec![Item::Integer(1), text("x")])),
        ])
    );
}

#[test]
fn to_item_of_response() {
    let message = Message::Response { id: 2, response: output(4, OutputType::Ignition, true, 90.0) };
    assert_eq!(
        message.to_item(),
        Item::Table(vec![
            entry("type", text("response")),
            entry("id", Item::Integer(2)),
            entry(
                "response",
                Item::Table(vec![
                    entry("pin", Item::Integer(4)),
                    entry("type", text("ignition")),
                    entry("inverted", Item::Bool(true)),
                    entry("angle", Item::Float(90.0f64.to_bits())),
                ]),
            ),
        ])
    );
}

#[test]
fn response_item_of_each_shape() {
    assert_eq!(response_item(&ResponseValue::Str("s".to_string())), text("s"));
    assert_eq!(response_item(&ResponseValue::Float(5)), Item::Float(5));
    assert_eq!(response_item(&ResponseValue::Int(5)), Item::Integer(5));
    assert_eq!(response_item(&ResponseValue::Bool(false)), Item::Bool(false));
    assert_eq!(response_item(&ResponseValue::Empty), Item::Null);
    assert_eq!(
        response_item(&ResponseValue::Array(vec![ResponseValue::Empty, ResponseValue::Int(1)])),
        Item::Array(vec![Item::Null, Item::Integer(1)])
    );
    assert_eq!(
        response_item(&leaf("t", "d")),
        Item::Table(vec![entry("type", text("t")), entry("description", text("d"))])
    );
    assert_eq!(
        response_item(&ResponseValue::Mapping(vec![("k".to_string(), ResponseValue::Int(1))])),
        Item::Table(vec![entry("k", Item::Integer(1))])
    );
}

#[test]
fn from_item_reads_back_every_sample() {
    for message in sample_messages() {
        assert_eq!(Message::from_item(&message.to_item()), Some(message));
    }
}

#[test]
fn bytes_round_trip_for_every_sample() {
    for message in sample_messages() {
        assert_eq!(decode(&encode(&message)), Ok(message));
    }
}

#[test]
fn integer_is_not_read_as_float() {
    assert_eq!(response_from(&Item::Integer(1)), Some(ResponseValue::Int(1)));
    assert_eq!(response_from(&Item::Float(1.0f64.to_bits())), Some(ResponseValue::Float(1.0f64.to_bits())));
    assert_eq!(response_from(&text("1")), Some(ResponseValue::Str("1".to_string())));
    assert_eq!(response_from(&Item::Bool(true)), Some(ResponseValue::Bool(true)));
}

#[test]
fn response_shapes_are_tried_in_order() {
    let both = Item::Table(vec![
        entry("description", text("d")),
        entry("angle", Item::Float(0)),
        entry("inverted", Item::Bool(false)),
        entry("type", text("fuel")),
        entry("pin", Item::Integer(1)),
    ]);
    assert_eq!(
        response_from(&both),
        Some(ResponseValue::Output(OutputValue {
            pin: 1,
            output_type: OutputType::Fuel,
            inverted: false,
            angle: 0,
        }))
    );
    let leaf_like = Item::Table(vec![
        entry("description", text("d")),
        entry("type", text("fuel")),
        entry("pin", Item::Integer(1)),
    ]);
    assert_eq!(response_from(&leaf_like), Some(leaf("fuel", "d")));
    let plain = Item::Table(vec![entry("type", text("fuel")), entry("pin", Item::Integer(1))]);
    assert_eq!(
        response_from(&plain),
        Some(ResponseValue::Mapping(vec![
            ("type".to_string(), ResponseValue::Str("fuel".to_string())),
            ("pin".to_string(), ResponseValue::Int(1)),
        ]))
    );
}

#[test]
fn output_with_unknown_kind_is_no_output() {
    let item = Item::Table(vec![
        entry("pin", Item::Integer(1)),
        entry("type", text("spark")),
        entry("inverted", Item::Bool(false)),
        entry("angle", Item::Float(0)),
    ]);
    assert_eq!(
        response_from(&item),
        Some(ResponseValue::Mapping(vec![
            ("pin".to_string(), ResponseValue::Int(1)),
            ("type".to_string(), ResponseValue::Str("spark".to_string())),
            ("inverted".to_string(), ResponseValue::Bool(false)),
            ("angle".to_string(), ResponseValue::Float(0)),
        ]))
    );
}

#[test]
fn mapping_that_looks_like_a_leaf_comes_back_as_leaf() {
    let mapping = ResponseValue::Mapping(vec![
        ("type".to_string(), ResponseValue::Str("a".to_string())),
        ("description".to_string(), ResponseValue::Str("b".to_string())),
    ]);
    assert_eq!(response_from(&response_item(&mapping)), Some(leaf("a", "b")));
}

#[test]
fn response_from_rejects_what_has_no_shape() {
    assert_eq!(response_from(&Item::Integer(-1)), None);
    assert_eq!(response_from(&Item::Integer(1 << 32)), None);
    assert_eq!(response_from(&Item::Bytes(vec![1])), None);
    assert_eq!(response_from(&Item::Tag(1, Box::new(Item::Null))), None);
    assert_eq!(response_from(&Item::Array(vec![Item::Integer(-1)])), None);
    assert_eq!(response_from(&Item::Table(vec![(Item::Integer(1), Item::Null)])), None);
    assert_eq!(response_from(&Item::Table(vec![entry("a", Item::Bytes(vec![]))])), None);
}

#[test]
fn mapping_with_a_key_twice_is_rejected() {
    let item = Item::Table(vec![entry("a", Item::Integer(1)), entry("a", Item::Integer(2))]);
    assert_eq!(response_from(&item), None);
}

#[test]
fn first_of_two_entries_with_one_key_counts() {
    let item = Item::Table(vec![
        entry("type", text("feed")),
        entry("type", text("description")),
        entry("values", Item::Array(vec![])),
        entry("keys", Item::Array(vec![])),
    ]);
    assert_eq!(Message::from_item(&item), Some(Message::Feed { values: vec![] }));
}

#[test]
fn from_item_rejects_incomplete_messages() {
    assert_eq!(Message::from_item(&Item::Null), None);
    assert_eq!(Message::from_item(&Item::Table(vec![])), None);
    assert_eq!(Message::from_item(&Item::Table(vec![entry("type", Item::Integer(1))])), None);
    assert_eq!(Message::from_item(&Item::Table(vec![entry("type", text("description"))])), None);
    assert_eq!(
        Message::from_item(&Item::Table(vec![
            entry("type", text("description")),
            entry("keys", Item::Array(vec![Item::Integer(1)])),
        ])),
        None
    );
    assert_eq!(Message::from_item(&Item::Table(vec![entry("type", text("feed"))])), None);
    assert_eq!(
        Message::from_item(&Item::Table(vec![
            entry("type", text("feed")),
            entry("values", Item::Array(vec![text("x")])),
        ])),
        None
    );
    assert_eq!(
        Message::from_item(&Item::Table(vec![
            entry("type", text("request")),
            entry("method", text("ping")),
        ])),
        None
    );
    assert_eq!(
        Message::from_item(&Item::Table(vec![
            entry("type", text("request")),
            entry("method", text("reboot")),
            entry("id", Item::Integer(1)),
        ])),
        None
    );
    assert_eq!(
        Message::from_item(&Item::Table(vec![
            entry("type", text("request")),
            entry("method", text("get")),
            entry("id", Item::Integer(1)),
        ])),
        None
    );
    assert_eq!(
        Message::from_item(&Item::Table(vec![
            entry("type", text("request")),
            entry("method", text("get")),
            entry("id", Item::Integer(1)),
            entry("path", Item::Array(vec![Item::Bool(true)])),
        ])),
        None
    );
    assert_eq!(
        Message::from_item(&Item::Table(vec![
            entry("type", text("response")),
            entry("id", Item::Integer(1)),
        ])),
        None
    );
    assert_eq!(
        Message::from_item(&Item::Table(vec![
            entry("type", text("response")),
            entry("response", Item::Null),
        ])),
        None
    );
}

#[test]
fn parse_gives_the_item_of_the_frame() {
    assert_eq!(Item::parse(&[0x05]), Some(Item::Integer(5)));
    assert_eq!(Item::parse(&[0x20]), Some(Item::Integer(-1)));
    assert_eq!(
        Item::parse(&[0x3b, 0xff, 0xff, 0xff, 0xff, 0xff, 0xff, 0xff, 0xff]),
        Some(Item::Integer(-(1i128 << 64)))
    );
    assert_eq!(Item::parse(&[0xf4]), Some(Item::Bool(false)));
    assert_eq!(Item::parse(&[0xf5]), Some(Item::Bool(true)));
    assert_eq!(Item::parse(&[0xf6]), Some(Item::Null));
    assert_eq!(Item::parse(&[0xf9, 0x3c, 0x00]), Some(Item::Float(1.0f64.to_bits())));
    assert_eq!(Item::parse(&[0xfa, 0x40, 0x20, 0x00, 0x00]), Some(Item::Float(2.5f64.to_bits())));
    assert_eq!(Item::parse(&[0x42, 0x01, 0x02]), Some(Item::Bytes(vec![1, 2])));
    assert_eq!(Item::parse(&[0x61, 0x61]), Some(text("a")));
    assert_eq!(
        Item::parse(&[0x82, 0x01, 0x81, 0x02]),
        Some(Item::Array(vec![Item::Integer(1), Item::Array(vec![Item::Integer(2)])]))
    );
    assert_eq!(
        Item::parse(&[0xa2, 0x61, 0x62, 0x02, 0x01, 0x61, 0x61]),
        Some(Item::Table(vec![(Item::Integer(1), text("a")), entry("b", Item::Integer(2))]))
    );
    assert_eq!(Item::parse(&[]), None);
    assert_eq!(Item::parse(&[0x82, 0x01]), None);
}
