use netcom::dto::{
    ClientInfoResponseDto, DeviceDto, DeviceListResponseDto, ReadResponseDto, ResultMap,
    UpgradeResponseDto, WriteResponseDto,
};
use netcom::json::check_number_text;
use netcom::ops::{check_write_ops, WrOp};

#[test]
fn accepts_json_number_tokens() {
    let valid = [
        "0", "-0", "7", "242.0", "3.14159", "-2.5", "1e9", "1E9", "2e+3", "2e-3", "-0.5E-3",
        "10", "1000000000.25",
    ];
    for case in valid {
        assert!(check_number_text(case), "rejected {}", case);
    }
}

#[test]
fn rejects_malformed_number_tokens() {
    let invalid = [
        "", "-", "+1", "01", "1.", ".5", "1.e3", "1e", "1e+", "abc", "1 ", " 1", "0x10", "1,5",
        "NaN", "inf",
    ];
    for case in invalid {
        assert!(!check_number_text(case), "accepted {}", case);
    }
}

#[test]
fn response_envelopes_carry_their_fields() {
    let upgrade = UpgradeResponseDto {
        version: "3.0".to_string(),
    };
    assert_eq!(upgrade.version, "3.0");

    let devices = DeviceListResponseDto {
        r: "device-list".to_string(),
        devices: vec![DeviceDto {
            id: 4,
            network: 1,
            name: "pump".to_string(),
            description: "main pump".to_string(),
            device_type: "pump".to_string(),
        }],
    };
    assert_eq!(devices.devices[0].id, 4);

    let info = ClientInfoResponseDto {
        r: "client-info".to_string(),
    };
    assert_eq!(info.r, "client-info");

    let read = ReadResponseDto {
        r: "read".to_string(),
        result: ResultMap::new(vec![("a".to_string(), Some("1.0".to_string()))]),
    };
    assert_eq!(read.result.get(&"a".to_string()), Some(Some("1.0".to_string())));

    let write = WriteResponseDto {
        r: "write".to_string(),
        result: ResultMap::new(vec![("b".to_string(), None)]),
    };
    assert_eq!(write.result.get(&"b".to_string()), Some(None));
}

#[test]
fn write_ops_are_held_to_the_number_grammar() {
    let good = vec![
        WrOp::Default {
            p: "a".to_string(),
            v: "242.0".to_string(),
        },
        WrOp::WithType {
            p: "b".to_string(),
            t: "i16".to_string(),
            v: "1.0".to_string(),
        },
    ];
    assert!(check_write_ops(&good));

    let injecting = vec![WrOp::Default {
        p: "a".to_string(),
        v: "1,\"x\":0".to_string(),
    }];
    assert!(!check_write_ops(&injecting));

    assert!(check_write_ops(&[]));
}
