use wiz_rpc::json::params_json;
use wiz_rpc::model::{RPCRequest, RequestKind, WizRPCRequest};
use wiz_rpc::params::{JsonInt, OptionalRequestParams, RequestParams, ToStruct};
use wiz_rpc::{Method, Param};

fn text(bytes: Vec<u8>) -> String {
    String::from_utf8(bytes).unwrap()
}

#[test]
fn method_names_follow_the_wire_protocol() {
    assert_eq!(Method::GetSystemConfig.as_str(), "getSystemConfig");
    assert_eq!(Method::SetPilot.to_string(), "setPilot");
    assert_eq!(Method::Ping.as_str(), "PING");
    assert_eq!(Method::RegisteredDevice.as_str(), "REGISTERED_DEVICE");
    assert_eq!(Method::SyncBroadcastPilot.as_str(), "syncBroadcastPilot");
}

#[test]
fn method_names_read_back() {
    let all = [
        Method::GetPower, Method::GetSystemConfig, Method::GetModelConfig, Method::GetUserConfig,
        Method::GetWifiConfig, Method::GetDevInfo, Method::GetPilot, Method::SetPilot,
        Method::SetState, Method::SetDevInfo, Method::SetSchd, Method::SetSchdPset,
        Method::SetWifiConfig, Method::SetFavs, Method::Reset, Method::Reboot, Method::SyncPilot,
        Method::SyncUserConfig, Method::SyncSchdPset, Method::SyncBroadcastPilot,
        Method::SyncSystemConfig, Method::SyncConfig, Method::SyncAlarm, Method::Pulse,
        Method::Registration, Method::Ping, Method::RegisteredDevice,
    ];
    for m in all {
        assert_eq!(Method::from_name(m.as_str()), Some(m));
    }
}

#[test]
fn unknown_method_names_are_rejected() {
    assert_eq!(Method::from_name("getpower"), None);
    assert_eq!(Method::from_name("ping"), None);
    assert_eq!(Method::from_name(""), None);
    assert_eq!(Method::from_name("getPower "), None);
}

#[test]
fn one_param_fills_its_field() {
    let p = Param::Brightness(Some(JsonInt::from_u64(75))).to_option_struct();
    assert_eq!(p.brightness, Some(JsonInt::PosInt(75)));
    assert_eq!(p.state, None);
    assert_eq!(p.scene_id, None);
    assert_eq!(OptionalRequestParams::empty().temp, None);
}

#[test]
fn applying_overwrites_every_field() {
    let mut target = RequestParams::empty();
    target.state = Some(true);
    target.r = Some(JsonInt::from_u64(1));
    Param::G(Some(JsonInt::from_u64(2))).to_option_struct().apply_to(&mut target);
    assert_eq!(target.state, None);
    assert_eq!(target.r, None);
    assert_eq!(target.g, Some(JsonInt::PosInt(2)));
}

#[test]
fn the_last_param_of_a_list_wins() {
    let params = vec![
        Param::State(Some(true)),
        Param::Brightness(Some(JsonInt::from_u64(50))),
        Param::Temp(Some(JsonInt::from_u64(2700))),
    ];
    let s = params.to_struct();
    assert_eq!(s.temp, Some(JsonInt::PosInt(2700)));
    assert_eq!(s.state, None);
    assert_eq!(s.brightness, None);
    assert_eq!(Vec::<Param>::new().to_struct(), RequestParams::empty());
}

#[test]
fn numbers_convert_both_ways() {
    assert_eq!(JsonInt::from_i64(-5), JsonInt::NegInt(-5));
    assert_eq!(JsonInt::from_i64(5), JsonInt::PosInt(5));
    assert_eq!(JsonInt::from_i64(0), JsonInt::PosInt(0));
    assert_eq!(JsonInt::from_i64(i64::MIN), JsonInt::NegInt(i64::MIN));
}

#[test]
fn params_serialise_in_field_order() {
    let mut p = RequestParams::empty();
    assert_eq!(text(params_json(&p)), "{}");
    p.scene_id = Some(JsonInt::from_u64(4));
    p.state = Some(false);
    p.r = Some(JsonInt::from_i64(-12));
    p.w = Some(JsonInt::from_u64(0));
    assert_eq!(text(params_json(&p)), "{\"state\":false,\"r\":-12,\"w\":0,\"sceneId\":4}");
    p.state = Some(true);
    p.speed = Some(JsonInt::NegInt(i64::MIN));
    assert_eq!(
        text(params_json(&p)),
        "{\"state\":true,\"speed\":-9223372036854775808,\"r\":-12,\"w\":0,\"sceneId\":4}"
    );
}

#[test]
fn request_objects_serialise_compactly() {
    let r = RPCRequest::new_with_id(Method::GetPilot, None, 42);
    assert_eq!(r.method, "getPilot");
    assert_eq!(text(r.to_json()), "{\"method\":\"getPilot\",\"id\":42}");
    let mut p = RequestParams::empty();
    p.brightness = Some(JsonInt::from_u64(10));
    let r = RPCRequest::new_with_id(Method::SetPilot, Some(p), u32::MAX);
    assert_eq!(
        text(r.to_json()),
        "{\"method\":\"setPilot\",\"params\":{\"brightness\":10},\"id\":4294967295}"
    );
    let bare = RPCRequest { method: "x".to_string(), params: None, id: None };
    assert_eq!(text(bare.to_json()), "{\"method\":\"x\"}");
}

#[test]
fn method_strings_are_escaped() {
    let r = RPCRequest { method: "a\"b\\c\nd\u{1}e\u{7f}é".to_string(), params: Some(RequestParams::empty()), id: Some(0) };
    assert_eq!(
        text(r.to_json()),
        "{\"method\":\"a\\\"b\\\\c\\nd\\u0001e\u{7f}é\",\"params\":{},\"id\":0}"
    );
    let r = RPCRequest { method: "\u{8}\u{c}\r\t\u{1f}".to_string(), params: None, id: None };
    assert_eq!(text(r.to_json()), "{\"method\":\"\\b\\f\\r\\t\\u001f\"}");
}

#[test]
fn random_request_objects_carry_an_id() {
    let r = RPCRequest::new(Method::Reboot, None);
    assert_eq!(r.method, "reboot");
    assert!(r.id.is_some());
    assert!(r.params.is_none());
}

#[test]
fn set_state_request_bytes() {
    let on = WizRPCRequest::new(Some("Office".to_string()), Method::SetState, Some(vec![Param::State(Some(true))]));
    assert_eq!(on.kind, RequestKind::Send);
    assert_eq!(on.device.as_deref(), Some("Office"));
    assert_eq!(
        text(on.to_raw_with_id(7)),
        "{\"method\":\"setState\",\"params\":{\"state\":true},\"id\":7}"
    );
    let plain = WizRPCRequest::new(Some("Office".to_string()), Method::GetSystemConfig, None);
    assert_eq!(text(plain.to_raw_with_id(1)), "{\"method\":\"getSystemConfig\",\"id\":1}");
}

#[test]
fn ping_requests_are_empty_objects() {
    let ping = WizRPCRequest::new_with_kind(None, Method::Ping, Some(vec![Param::State(Some(true))]), RequestKind::Ping);
    assert_eq!(ping.kind, RequestKind::Ping);
    assert_eq!(text(ping.clone().to_raw_with_id(9)), "{}");
    assert_eq!(text(ping.to_raw().unwrap()), "{}");
}

#[test]
fn raw_requests_get_a_random_id() {
    let req = WizRPCRequest::new(None, Method::SetPilot, Some(vec![Param::SceneId(Some(JsonInt::from_u64(12)))]));
    let raw = text(req.to_raw().unwrap());
    let prefix = "{\"method\":\"setPilot\",\"params\":{\"sceneId\":12},\"id\":";
    assert!(raw.starts_with(prefix));
    assert!(raw.ends_with('}'));
    let id = &raw[prefix.len()..raw.len() - 1];
    assert!(id.parse::<u32>().is_ok());
}

#[test]
fn default_request_kind_is_send() {
    assert_eq!(RequestKind::default(), RequestKind::Send);
}
