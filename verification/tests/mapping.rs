use netcom::dto::ResultMap;
use netcom::mapping::{FieldBinding, NetcomSync, ParamRecord};
use netcom::netcom::{FrameProgress, NetcomClient};
use netcom::netstring::encode_netstring;
use netcom::ops::{RdOp, WrOp};

fn binding(field: &str, param: &str, value: &str) -> FieldBinding {
    FieldBinding {
        field: field.to_string(),
        param: param.to_string(),
        value: value.to_string(),
    }
}

#[test]
fn record_emits_one_read_op_per_binding_in_order() {
    let record = ParamRecord {
        fields: vec![binding("a", "dev.a", "1.0"), binding("b", "dev.b", "2.0")],
    };
    let ops = record.to_rdops();
    assert_eq!(
        ops,
        vec![
            RdOp::Default {
                p: "dev.a".to_string()
            },
            RdOp::Default {
                p: "dev.b".to_string()
            },
        ]
    );
}

#[test]
fn record_emits_one_write_op_per_binding_in_order() {
    let record = ParamRecord {
        fields: vec![binding("a", "dev.a", "1.0"), binding("b", "dev.b", "2.0")],
    };
    let ops = record.to_wrops();
    assert_eq!(
        ops,
        vec![
            WrOp::Default {
                p: "dev.a".to_string(),
                v: "1.0".to_string()
            },
            WrOp::Default {
                p: "dev.b".to_string(),
                v: "2.0".to_string()
            },
        ]
    );
}

#[test]
fn apply_result_overwrites_present_and_keeps_absent_and_null() {
    let mut record = ParamRecord {
        fields: vec![
            binding("a", "dev.a", "1.0"),
            binding("b", "dev.b", "2.0"),
            binding("c", "dev.c", "3.0"),
        ],
    };
    let result = ResultMap::new(vec![
        ("dev.a".to_string(), Some("9.5".to_string())),
        ("dev.b".to_string(), None),
    ]);
    record.apply_result(&result);
    assert_eq!(record.fields[0].value, "9.5");
    assert_eq!(record.fields[1].value, "2.0");
    assert_eq!(record.fields[2].value, "3.0");
    assert_eq!(record.fields[0].param, "dev.a");
    assert_eq!(record.fields[0].field, "a");
}

#[test]
fn apply_result_twice_changes_nothing_more() {
    let mut record = ParamRecord {
        fields: vec![binding("a", "dev.a", "1.0"), binding("b", "dev.b", "2.0")],
    };
    let result = ResultMap::new(vec![("dev.a".to_string(), Some("4.25".to_string()))]);
    record.apply_result(&result);
    let after_once = record.fields.clone();
    record.apply_result(&result);
    assert_eq!(record.fields, after_once);
}

#[test]
fn result_map_distinguishes_absent_null_and_present() {
    let map = ResultMap::new(vec![
        ("a".to_string(), Some("1.5".to_string())),
        ("b".to_string(), None),
    ]);
    assert_eq!(map.len(), 2);
    assert_eq!(map.get(&"a".to_string()), Some(Some("1.5".to_string())));
    assert_eq!(map.get(&"b".to_string()), Some(None));
    assert_eq!(map.get(&"c".to_string()), None);
}

#[test]
fn whole_record_read_is_one_round_trip() {
    let mut client = NetcomClient::new("localhost", 7878);
    let frame = encode_netstring(br#"{"version":"3.0"}"#);
    let payload = match client.feed(&frame) {
        FrameProgress::Ready(p) => p,
        other => panic!("expected a whole frame, got {:?}", other),
    };
    client.on_handshake_frame(&payload).unwrap();

    let mut record = ParamRecord {
        fields: vec![binding("x", "dev.x", "0.0"), binding("y", "dev.y", "0.0")],
    };
    let _frame = client.begin_read("dev", record.to_rdops()).unwrap();
    let response = encode_netstring(br#"{"R":"read","result":{"dev.x":7.5,"dev.y":null}}"#);
    let payload = match client.feed(&response) {
        FrameProgress::Ready(p) => p,
        other => panic!("expected a whole frame, got {:?}", other),
    };
    let map = client.finish_read(&payload).unwrap();
    record.apply_result(&map);
    assert_eq!(record.fields[0].value, "7.5");
    assert_eq!(record.fields[1].value, "0.0");
}
