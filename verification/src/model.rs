//! Messages exchanged with a device: the request a caller builds, the
//! JSON-RPC objects on the wire, and the response handed back.

use vstd::prelude::*;
use vstd::string::StringSliceAdditionalSpecFns;
use rand::Rng;
use crate::error::{QueryError, SerializationError, WizNetError, wiz_error_from};
use crate::json::{decimal, join_members, json_object, json_params, json_string, member, params_json, with_member, write_decimal, write_member, write_string};
use crate::method::{Method, lemma_method_wire_names, method_name, method_named};
use crate::params::{RequestParams, RequestParamsFieldType, ToStruct, params_of_list};

verus! {

/// A JSON number reported by a device, carried as it was received.
#[verifier::external_type_specification]
#[verifier::external_body]
pub struct ExReportedNumber(serde_json::Number);

/// Fields a device may report in the `result` object of a reply.
#[derive(Debug, Clone)]
pub struct ResponseParams {
    pub mac: Option<String>,
    pub home_id: Option<serde_json::Number>,
    pub room_id: Option<serde_json::Number>,
    pub group_id: Option<serde_json::Number>,
    pub rgn: Option<String>,
    pub module_name: Option<String>,
    pub fw_version: Option<String>,
    pub drv_conf: Option<Vec<serde_json::Number>>,
    pub ping: Option<serde_json::Number>,
    pub fade_in: Option<serde_json::Number>,
    pub fade_out: Option<serde_json::Number>,
    pub fade_night: Option<serde_json::Number>,
    pub dft_dim: Option<serde_json::Number>,
    pub po: Option<bool>,
    pub min_dimming: Option<serde_json::Number>,
    pub rssi: Option<serde_json::Number>,
    pub src: Option<String>,
    pub state: Option<bool>,
    pub scene_id: Option<serde_json::Number>,
    pub temp: Option<serde_json::Number>,
    pub dimming: Option<serde_json::Number>,
    pub success: Option<bool>,
}

/// Fingerprint with the return ID of a message.
#[derive(Debug, Clone, Copy, PartialEq, Eq)]
pub struct Fingerprint {
    pub id: Option<u32>,
}

/// An IP address, by its octets.
#[derive(Debug, Clone, Copy)]
pub enum IpAddress {
    V4([u8; 4]),
    V6([u8; 16]),
}

/// Data definition for talking with a WiZ device.
#[derive(Debug, Clone, Copy)]
pub struct Target {
    pub address: IpAddress,
    pub mac: [u8; 6],
}

/// The `error` object of a JSON-RPC error reply.
#[derive(Debug, Clone)]
pub struct RPCErrorData {
    pub code: i32,
    pub message: String,
    pub data: Option<serde_json::Value>,
}

/// A JSON-RPC error reply.
#[derive(Debug, Clone)]
pub struct RPCError {
    pub method: Option<String>,
    pub env: String,
    pub error: RPCErrorData,
    pub id: Option<u32>,
}

/// A JSON-RPC success reply.
#[derive(Debug, Clone)]
pub struct RPCResult {
    pub method: String,
    pub env: String,
    pub result: Option<ResponseParams>,
    pub id: Option<u32>,
}

/// A JSON-RPC reply of either kind.
#[derive(Debug, Clone)]
pub enum RPCResponse {
    Result(RPCResult),
    Error(RPCError),
}

/// A JSON-RPC request object as it is serialised.
#[derive(Debug, Clone)]
pub struct RPCRequest {
    pub method: String,
    pub params: Option<RequestParams>,
    pub id: Option<u32>,
}

/// How a request is to be carried out.
#[derive(Debug, Clone, Copy, PartialEq, Eq)]
pub enum RequestKind {
    Send,
    Ping,
    Mac,
    Discovery,
}

/// Serializable data for performing a request to a device.
#[derive(Debug, Clone)]
pub struct WizRPCRequest {
    pub device: Option<String>,
    pub method: Method,
    pub params: Option<Vec<RequestParamsFieldType>>,
    pub kind: RequestKind,
}

/// Deserialized response from a device.
#[derive(Debug, Clone)]
pub struct WizRPCResponse {
    pub method: Method,
    pub result: Option<ResponseParams>,
    pub fingerprint: Option<Fingerprint>,
}

impl Default for RequestKind {
    fn default() -> (r: Self)
        ensures
            r == RequestKind::Send,
    {
        RequestKind::Send
    }
}

/// The JSON text of a request object with the given members; `params` and
/// `id` are left out when absent.
pub open spec fn request_json(method: Seq<char>, params: Option<RequestParams>, id: Option<u32>) -> Seq<u8> {
    let m = seq![member("method".spec_bytes(), json_string(vstd::utf8::encode_utf8(method)))];
    let m = with_member(m, "params".spec_bytes(), match params {
        Some(p) => Some(json_params(p)),
        None => None,
    });
    let m = with_member(m, "id".spec_bytes(), match id {
        Some(i) => Some(decimal(i as nat)),
        None => None,
    });
    json_object(m)
}

/// The parameters a request sends for its list of parameters.
pub open spec fn sent_params(params: Option<Vec<RequestParamsFieldType>>) -> Option<RequestParams> {
    match params {
        Some(v) => Some(params_of_list(v@)),
        None => None,
    }
}

/// The bytes a request is sent as when its request object carries `id`.
/// A ping is the empty object; every other method is a full request object.
pub open spec fn raw_request(method: Method, params: Option<Vec<RequestParamsFieldType>>, id: u32) -> Seq<u8> {
    if method == Method::Ping {
        seq![0x7bu8, 0x7du8]
    } else {
        request_json(method_name(method), sent_params(params), Some(id))
    }
}

/// The fingerprint a reply with the given id carries.
pub open spec fn fingerprint_of(id: Option<u32>) -> Option<Fingerprint> {
    match id {
        Some(i) => Some(Fingerprint { id: Some(i) }),
        None => None,
    }
}

/// What a success reply is turned into: its method must be a known name.
pub open spec fn response_from_result(res: RPCResult) -> Result<WizRPCResponse, QueryError> {
    match method_named(res.method@) {
        Some(m) => Ok(WizRPCResponse { method: m, result: res.result, fingerprint: fingerprint_of(res.id) }),
        None => Err(QueryError::Serialization(SerializationError::MethodNameDeserialization)),
    }
}

/// What a decoded reply is turned into; `None` stands for bytes that did not
/// decode as a reply.
pub open spec fn response_from_reply(reply: Option<RPCResponse>) -> Result<WizRPCResponse, QueryError> {
    match reply {
        None => Err(QueryError::Serialization(SerializationError::ValueDeserialization)),
        Some(RPCResponse::Error(e)) => Err(QueryError::RPC(wiz_error_from(e))),
        Some(RPCResponse::Result(res)) => response_from_result(res),
    }
}

/// A success reply is understood exactly when some method carries its method
/// name; the response then has that method, the reply's result unchanged and
/// a fingerprint holding the reply's id, with or without an id. Otherwise it
/// is a method-name error.
pub proof fn lemma_success_reply_kept(res: RPCResult)
    ensures
        response_from_result(res) is Err <==> (forall|m: Method| method_name(m) != res.method@),
        response_from_result(res) is Err ==> response_from_result(res) == Err::<WizRPCResponse, QueryError>(
            QueryError::Serialization(SerializationError::MethodNameDeserialization),
        ),
        response_from_result(res) is Ok ==> method_name(response_from_result(res)->Ok_0.method) == res.method@,
        response_from_result(res) is Ok ==> response_from_result(res)->Ok_0.result == res.result,
        response_from_result(res) is Ok ==> (response_from_result(res)->Ok_0.fingerprint is Some <==> res.id is Some),
        response_from_result(res) is Ok ==> (res.id is Some ==> response_from_result(res)->Ok_0.fingerprint
            == Some(Fingerprint { id: res.id })),
{
    lemma_method_wire_names(res.method@);
    if response_from_result(res) is Err {
        assert forall|m: Method| method_name(m) != res.method@ by {
            if method_name(m) == res.method@ {
                crate::method::lemma_method_name_roundtrip(m);
            }
        }
    }
}

/// A decoded reply that is an error becomes the device error its code names;
/// a success reply is interpreted as above; undecodable bytes are a
/// deserialization error.
pub proof fn lemma_reply_kinds(reply: Option<RPCResponse>)
    ensures
        reply is None ==> response_from_reply(reply) == Err::<WizRPCResponse, QueryError>(
            QueryError::Serialization(SerializationError::ValueDeserialization),
        ),
        reply matches Some(RPCResponse::Error(e)) ==> response_from_reply(reply) == Err::<WizRPCResponse, QueryError>(
            QueryError::RPC(wiz_error_from(e)),
        ),
        reply matches Some(RPCResponse::Result(res)) ==> response_from_reply(reply) == response_from_result(res),
{
}

/// A fresh random request id, drawn from the thread-local generator of `rand`.
/// Nothing is promised of the value.
#[verifier::external_body]
fn random_request_id() -> u32 {
    rand::thread_rng().gen::<u32>()
}

impl RPCResponse {
    /// The member that holds the outcome: `result` or `error`.
    pub fn as_str(&self) -> (r: &'static str)
        ensures
            r@ == (match self {
                RPCResponse::Result(_) => "result"@,
                RPCResponse::Error(_) => "error"@,
            }),
    {
        match self {
            RPCResponse::Result(_) => "result",
            RPCResponse::Error(_) => "error",
        }
    }
}

impl RPCRequest {
    /// A request object for `method` carrying `params` and the id `id`.
    pub fn new_with_id(method: Method, params: Option<RequestParams>, id: u32) -> (r: Self)
        ensures
            r.method@ == method_name(method),
            r.params == params,
            r.id == Some(id),
    {
        RPCRequest { method: method.to_string(), params, id: Some(id) }
    }

    /// A request object for `method` carrying `params` and a random id.
    pub fn new(method: Method, params: Option<RequestParams>) -> (r: Self)
        ensures
            r.method@ == method_name(method),
            r.params == params,
            r.id is Some,
    {
        Self::new_with_id(method, params, random_request_id())
    }

    /// The JSON text of this request object.
    pub fn to_json(&self) -> (r: Vec<u8>)
        ensures
            r@ == request_json(self.method@, self.params, self.id),
    {
        let mut out: Vec<u8> = Vec::new();
        out.push(0x7b);
        let mut name: Vec<u8> = Vec::new();
        write_string(&mut name, self.method.as_str().as_bytes());
        assert(out@ =~= seq![0x7bu8] + join_members(Seq::empty()));
        write_member(&mut out, true, Ghost(Seq::empty()), "method", name.as_slice());
        let ghost ms = seq![member("method".spec_bytes(), name@)];
        assert(Seq::<Seq<u8>>::empty().push(member("method".spec_bytes(), name@)) =~= ms);
        let ghost ms2 = with_member(ms, "params".spec_bytes(), match self.params {
            Some(p) => Some(json_params(p)),
            None => None,
        });
        match &self.params {
            Some(p) => {
                let text = params_json(p);
                write_member(&mut out, false, Ghost(ms), "params", text.as_slice());
            },
            None => {},
        }
        match self.id {
            Some(i) => {
                let mut text: Vec<u8> = Vec::new();
                write_decimal(&mut text, i as u64);
                assert(text@ =~= decimal(i as nat));
                write_member(&mut out, false, Ghost(ms2), "id", text.as_slice());
            },
            None => {},
        }
        out.push(0x7d);
        assert(out@ =~= request_json(self.method@, self.params, self.id));
        out
    }
}

impl RPCResult {
    /// The response a success reply stands for; fails when its method name is unknown.
    pub fn to_wizres(self, _mac: Option<[u8; 6]>) -> (r: Result<WizRPCResponse, QueryError>)
        ensures
            r == response_from_result(self),
    {
        let method = match Method::from_name(self.method.as_str()) {
            Some(m) => m,
            None => {
                return Err(QueryError::Serialization(SerializationError::MethodNameDeserialization));
            },
        };
        let fingerprint = match self.id {
            Some(id) => Some(Fingerprint { id: Some(id) }),
            None => None,
        };
        Ok(WizRPCResponse { method, result: self.result, fingerprint })
    }
}

/// The response a decoded reply stands for: an error reply becomes the
/// matching [`WizNetError`], a success reply its [`WizRPCResponse`], and
/// `None` (bytes that did not decode) a deserialization error.
pub fn parse_response(reply: Option<RPCResponse>) -> (r: Result<WizRPCResponse, QueryError>)
    ensures
        r == response_from_reply(reply),
{
    match reply {
        None => Err(QueryError::Serialization(SerializationError::ValueDeserialization)),
        Some(RPCResponse::Error(e)) => Err(QueryError::RPC(WizNetError::from_rpc_error(e))),
        Some(RPCResponse::Result(res)) => res.to_wizres(None),
    }
}

impl WizRPCRequest {
    /// A request with every field given.
    pub fn new_with_kind(
        device: Option<String>,
        method: Method,
        params: Option<Vec<RequestParamsFieldType>>,
        kind: RequestKind,
    ) -> (r: Self)
        ensures
            r.device == device,
            r.method == method,
            r.params == params,
            r.kind == kind,
    {
        WizRPCRequest { device, method, params, kind }
    }

    /// A request of the default kind, [`RequestKind::Send`].
    pub fn new(device: Option<String>, method: Method, params: Option<Vec<RequestParamsFieldType>>) -> (r: Self)
        ensures
            r.device == device,
            r.method == method,
            r.params == params,
            r.kind == RequestKind::Send,
    {
        WizRPCRequest { device, method, params, kind: RequestKind::default() }
    }

    /// The bytes this request is sent as when its request object carries `id`.
    pub fn to_raw_with_id(self, id: u32) -> (r: Vec<u8>)
        ensures
            r@ == raw_request(self.method, self.params, id),
    {
        let params = match self.params {
            Some(list) => Some(list.to_struct()),
            None => None,
        };
        match self.method {
            Method::Ping => {
                let mut out: Vec<u8> = Vec::new();
                out.push(0x7b);
                out.push(0x7d);
                assert(out@ =~= seq![0x7bu8, 0x7du8]);
                out
            },
            _ => {
                let request = RPCRequest::new_with_id(self.method, params, id);
                request.to_json()
            },
        }
    }

    /// The bytes this request is sent as; the request object gets a random id.
    pub fn to_raw(self) -> (r: Result<Vec<u8>, QueryError>)
        ensures
            match r {
                Ok(bytes) => exists|id: u32| bytes@ == raw_request(self.method, self.params, id),
                Err(_) => false,
            },
    {
        let id = random_request_id();
        let bytes = self.to_raw_with_id(id);
        Ok(bytes)
    }
}

} // verus!
