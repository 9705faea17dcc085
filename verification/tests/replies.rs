use wiz_rpc::error::{QueryError, SerializationError, SyncError, WizNetError};
use wiz_rpc::model::{parse_response, RPCError, RPCErrorData, RPCResponse, RPCResult, ResponseParams};
use wiz_rpc::{Fingerprint, Method};

fn params() -> ResponseParams {
    ResponseParams {
        mac: Some("a8bb50aabbcc".to_string()),
        home_id: None,
        room_id: None,
        group_id: None,
        rgn: None,
        module_name: Some("ESP01_SHRGB1C_31".to_string()),
        fw_version: None,
        drv_conf: Some(vec![serde_json::Number::from(20), serde_json::Number::from(2)]),
        ping: None,
        fade_in: None,
        fade_out: None,
        fade_night: None,
        dft_dim: None,
        po: None,
        min_dimming: None,
        rssi: Some(serde_json::Number::from(-60)),
        src: None,
        state: Some(true),
        scene_id: None,
        temp: None,
        dimming: None,
        success: Some(true),
    }
}

fn result(method: &str, id: Option<u32>, with_params: bool) -> RPCResult {
    RPCResult {
        method: method.to_string(),
        env: "pro".to_string(),
        result: if with_params { Some(params()) } else { None },
        id,
    }
}

fn error(code: i32) -> RPCError {
    RPCError {
        method: Some("setPilot".to_string()),
        env: "pro".to_string(),
        error: RPCErrorData {
            code,
            message: "boom".to_string(),
            data: Some(serde_json::Value::Bool(true)),
        },
        id: Some(3),
    }
}

#[test]
fn results_keep_method_result_and_id() {
    let r = result("getSystemConfig", Some(12), true).to_wizres(None).unwrap();
    assert_eq!(r.method, Method::GetSystemConfig);
    assert_eq!(r.fingerprint, Some(Fingerprint { id: Some(12) }));
    let p = r.result.unwrap();
    assert_eq!(p.module_name.as_deref(), Some("ESP01_SHRGB1C_31"));
    assert_eq!(p.rssi, Some(serde_json::Number::from(-60)));
    let r = result("reboot", None, false).to_wizres(Some([1, 2, 3, 4, 5, 6])).unwrap();
    assert_eq!(r.method, Method::Reboot);
    assert!(r.fingerprint.is_none());
    assert!(r.result.is_none());
}

#[test]
fn results_with_unknown_methods_fail() {
    let r = result("getCoffee", Some(1), true).to_wizres(None);
    assert!(matches!(
        r,
        Err(QueryError::Serialization(SerializationError::MethodNameDeserialization))
    ));
}

#[test]
fn error_codes_name_their_error() {
    let cases = [
        (-32700, "Parse"),
        (-32600, "InvalidRequest"),
        (-32601, "MethodNotFound"),
        (-32602, "InvalidParameters"),
        (-32603, "Internal"),
    ];
    for (code, name) in cases {
        let e = WizNetError::from_rpc_error(error(code));
        let ok = match (&e, name) {
            (WizNetError::Parse { data }, "Parse") => data == &Some(serde_json::Value::Bool(true)),
            (WizNetError::InvalidRequest { .. }, "InvalidRequest") => true,
            (WizNetError::MethodNotFound { .. }, "MethodNotFound") => true,
            (WizNetError::InvalidParameters { .. }, "InvalidParameters") => true,
            (WizNetError::Internal { .. }, "Internal") => true,
            _ => false,
        };
        assert!(ok, "code {} gave {:?}", code, e);
    }
}

#[test]
fn other_error_codes_are_unknown() {
    for code in [-32000, -32050, -32099, 0, 1, -1, i32::MIN, i32::MAX] {
        match WizNetError::from_rpc_error(error(code)) {
            WizNetError::Unknown { message, data } => {
                assert_eq!(message, "boom");
                assert_eq!(data, Some(serde_json::Value::Bool(true)));
            }
            other => panic!("code {} gave {:?}", code, other),
        }
    }
}

#[test]
fn replies_are_interpreted() {
    assert!(matches!(
        parse_response(None),
        Err(QueryError::Serialization(SerializationError::ValueDeserialization))
    ));
    assert!(matches!(
        parse_response(Some(RPCResponse::Error(error(-32601)))),
        Err(QueryError::RPC(WizNetError::MethodNotFound { .. }))
    ));
    let ok = parse_response(Some(RPCResponse::Result(result("setState", Some(5), true)))).unwrap();
    assert_eq!(ok.method, Method::SetState);
    assert_eq!(ok.result.unwrap().success, Some(true));
    assert!(matches!(
        parse_response(Some(RPCResponse::Result(result("SETSTATE", Some(5), true)))),
        Err(QueryError::Serialization(SerializationError::MethodNameDeserialization))
    ));
}

#[test]
fn errors_convert_into_query_errors() {
    let e: QueryError = std::io::ErrorKind::WouldBlock.into();
    assert!(matches!(e, QueryError::WouldBlock));
    let e: QueryError = std::io::ErrorKind::TimedOut.into();
    match e {
        QueryError::Network(inner) => assert_eq!(inner.kind(), std::io::ErrorKind::TimedOut),
        other => panic!("{:?}", other),
    }
    let e: QueryError = std::io::Error::new(std::io::ErrorKind::InvalidData, "x").into();
    match e {
        QueryError::Network(inner) => assert_eq!(inner.kind(), std::io::ErrorKind::InvalidData),
        other => panic!("{:?}", other),
    }
    let bad = serde_json::from_str::<serde_json::Value>("{").unwrap_err();
    let e: QueryError = bad.into();
    assert!(matches!(e, QueryError::Serialization(SerializationError::Serde)));
}

#[test]
fn reply_kinds_are_named_after_their_member() {
    assert_eq!(RPCResponse::Result(result("reboot", None, false)).as_str(), "result");
    assert_eq!(RPCResponse::Error(error(-1)).as_str(), "error");
}

#[test]
fn synchronisation_errors_convert_into_query_errors() {
    let (tx, rx) = tokio::sync::oneshot::channel::<u8>();
    drop(tx);
    let e: QueryError = rx.blocking_recv().unwrap_err().into();
    assert!(matches!(e, QueryError::Sync(SyncError::ChannelReceive)));
}

#[test]
fn lock_and_task_errors_convert_into_query_errors() {
    let m = tokio::sync::Mutex::new(0u8);
    let _held = m.try_lock().unwrap();
    let e: QueryError = m.try_lock().unwrap_err().into();
    assert!(matches!(e, QueryError::Sync(SyncError::RwLock)));

    let rt = tokio::runtime::Runtime::new().unwrap();
    let handle = rt.spawn(async { tokio::time::sleep(std::time::Duration::from_secs(60)).await });
    handle.abort();
    let e: QueryError = rt.block_on(handle).unwrap_err().into();
    assert!(matches!(e, QueryError::Sync(SyncError::JoinTask)));
}
