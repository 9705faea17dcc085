//! Request parameters: the struct sent on the wire, its all-optional twin,
//! and the one-field-at-a-time enum callers build requests from.

use vstd::prelude::*;

verus! {

/// An integer JSON number, as it appears in request parameters.
#[derive(Debug, Clone, Copy, PartialEq, Eq)]
pub enum JsonInt {
    PosInt(u64),
    NegInt(i64),
}

impl JsonInt {
    /// The integer this number denotes.
    pub open spec fn value(self) -> int {
        match self {
            JsonInt::PosInt(n) => n as int,
            JsonInt::NegInt(n) => n as int,
        }
    }

    /// The number holding `n`.
    pub fn from_u64(n: u64) -> (r: JsonInt)
        ensures
            r == JsonInt::PosInt(n),
    {
        JsonInt::PosInt(n)
    }

    /// The number holding `n`; non-negative values are stored unsigned.
    pub fn from_i64(n: i64) -> (r: JsonInt)
        ensures
            r.value() == n,
            n < 0 <==> r is NegInt,
    {
        if n < 0 {
            JsonInt::NegInt(n)
        } else {
            JsonInt::PosInt(n as u64)
        }
    }
}

/// Parameters of a request, as they are serialised into its `params` object.
#[derive(Debug, Clone, Copy, PartialEq, Eq)]
pub struct RequestParams {
    pub state: Option<bool>,
    pub speed: Option<JsonInt>,
    pub ratio: Option<JsonInt>,
    pub brightness: Option<JsonInt>,
    pub temp: Option<JsonInt>,
    pub r: Option<JsonInt>,
    pub g: Option<JsonInt>,
    pub b: Option<JsonInt>,
    pub c: Option<JsonInt>,
    pub w: Option<JsonInt>,
    pub scene_id: Option<JsonInt>,
}

/// A copy of [`RequestParams`] used to overwrite one with another.
#[derive(Debug, Clone, Copy, PartialEq, Eq)]
pub struct OptionalRequestParams {
    pub state: Option<bool>,
    pub speed: Option<JsonInt>,
    pub ratio: Option<JsonInt>,
    pub brightness: Option<JsonInt>,
    pub temp: Option<JsonInt>,
    pub r: Option<JsonInt>,
    pub g: Option<JsonInt>,
    pub b: Option<JsonInt>,
    pub c: Option<JsonInt>,
    pub w: Option<JsonInt>,
    pub scene_id: Option<JsonInt>,
}

/// One request parameter, named after the field of [`RequestParams`] it fills.
#[derive(Debug, Clone, Copy, PartialEq, Eq)]
pub enum RequestParamsFieldType {
    State(Option<bool>),
    Speed(Option<JsonInt>),
    Ratio(Option<JsonInt>),
    Brightness(Option<JsonInt>),
    Temp(Option<JsonInt>),
    R(Option<JsonInt>),
    G(Option<JsonInt>),
    B(Option<JsonInt>),
    C(Option<JsonInt>),
    W(Option<JsonInt>),
    SceneId(Option<JsonInt>),
}

/// The parameters with every field absent.
pub open spec fn empty_params() -> RequestParams {
    RequestParams {
        state: None,
        speed: None,
        ratio: None,
        brightness: None,
        temp: None,
        r: None,
        g: None,
        b: None,
        c: None,
        w: None,
        scene_id: None,
    }
}

/// The optional parameters with every field absent.
pub open spec fn empty_optional_params() -> OptionalRequestParams {
    OptionalRequestParams {
        state: None,
        speed: None,
        ratio: None,
        brightness: None,
        temp: None,
        r: None,
        g: None,
        b: None,
        c: None,
        w: None,
        scene_id: None,
    }
}

/// The parameters that hold exactly the field `p` names, with `p`'s value.
pub open spec fn single_param(p: RequestParamsFieldType) -> OptionalRequestParams {
    match p {
        RequestParamsFieldType::State(x) => OptionalRequestParams { state: x, ..empty_optional_params() },
        RequestParamsFieldType::Speed(x) => OptionalRequestParams { speed: x, ..empty_optional_params() },
        RequestParamsFieldType::Ratio(x) => OptionalRequestParams { ratio: x, ..empty_optional_params() },
        RequestParamsFieldType::Brightness(x) => OptionalRequestParams { brightness: x, ..empty_optional_params() },
        RequestParamsFieldType::Temp(x) => OptionalRequestParams { temp: x, ..empty_optional_params() },
        RequestParamsFieldType::R(x) => OptionalRequestParams { r: x, ..empty_optional_params() },
        RequestParamsFieldType::G(x) => OptionalRequestParams { g: x, ..empty_optional_params() },
        RequestParamsFieldType::B(x) => OptionalRequestParams { b: x, ..empty_optional_params() },
        RequestParamsFieldType::C(x) => OptionalRequestParams { c: x, ..empty_optional_params() },
        RequestParamsFieldType::W(x) => OptionalRequestParams { w: x, ..empty_optional_params() },
        RequestParamsFieldType::SceneId(x) => OptionalRequestParams { scene_id: x, ..empty_optional_params() },
    }
}

/// The request parameters holding the same fields as `o`.
pub open spec fn as_request_params(o: OptionalRequestParams) -> RequestParams {
    RequestParams {
        state: o.state,
        speed: o.speed,
        ratio: o.ratio,
        brightness: o.brightness,
        temp: o.temp,
        r: o.r,
        g: o.g,
        b: o.b,
        c: o.c,
        w: o.w,
        scene_id: o.scene_id,
    }
}

/// The parameters a list of parameters is sent as: every parameter rewrites the
/// whole struct, so only the last one is left, alone.
pub open spec fn params_of_list(ps: Seq<RequestParamsFieldType>) -> RequestParams {
    if ps.len() == 0 {
        empty_params()
    } else {
        as_request_params(single_param(ps.last()))
    }
}

/// Each parameter fills the field it is named after and no other, both in
/// its optional struct and in what a list holding just it is sent as.
pub proof fn lemma_param_fills_its_field(flag: Option<bool>, x: Option<JsonInt>)
    ensures
        single_param(RequestParamsFieldType::State(flag)) == (OptionalRequestParams { state: flag, speed: None, ratio: None, brightness: None, temp: None, r: None, g: None, b: None, c: None, w: None, scene_id: None }),
        params_of_list(seq![RequestParamsFieldType::State(flag)]) == (RequestParams { state: flag, speed: None, ratio: None, brightness: None, temp: None, r: None, g: None, b: None, c: None, w: None, scene_id: None }),
        single_param(RequestParamsFieldType::Speed(x)) == (OptionalRequestParams { state: None, speed: x, ratio: None, brightness: None, temp: None, r: None, g: None, b: None, c: None, w: None, scene_id: None }),
        params_of_list(seq![RequestParamsFieldType::Speed(x)]) == (RequestParams { state: None, speed: x, ratio: None, brightness: None, temp: None, r: None, g: None, b: None, c: None, w: None, scene_id: None }),
        single_param(RequestParamsFieldType::Ratio(x)) == (OptionalRequestParams { state: None, speed: None, ratio: x, brightness: None, temp: None, r: None, g: None, b: None, c: None, w: None, scene_id: None }),
        params_of_list(seq![RequestParamsFieldType::Ratio(x)]) == (RequestParams { state: None, speed: None, ratio: x, brightness: None, temp: None, r: None, g: None, b: None, c: None, w: None, scene_id: None }),
        single_param(RequestParamsFieldType::Brightness(x)) == (OptionalRequestParams { state: None, speed: None, ratio: None, brightness: x, temp: None, r: None, g: None, b: None, c: None, w: None, scene_id: None }),
        params_of_list(seq![RequestParamsFieldType::Brightness(x)]) == (RequestParams { state: None, speed: None, ratio: None, brightness: x, temp: None, r: None, g: None, b: None, c: None, w: None, scene_id: None }),
        single_param(RequestParamsFieldType::Temp(x)) == (OptionalRequestParams { state: None, speed: None, ratio: None, brightness: None, temp: x, r: None, g: None, b: None, c: None, w: None, scene_id: None }),
        params_of_list(seq![RequestParamsFieldType::Temp(x)]) == (RequestParams { state: None, speed: None, ratio: None, brightness: None, temp: x, r: None, g: None, b: None, c: None, w: None, scene_id: None }),
        single_param(RequestParamsFieldType::R(x)) == (OptionalRequestParams { state: None, speed: None, ratio: None, brightness: None, temp: None, r: x, g: None, b: None, c: None, w: None, scene_id: None }),
        params_of_list(seq![RequestParamsFieldType::R(x)]) == (RequestParams { state: None, speed: None, ratio: None, brightness: None, temp: None, r: x, g: None, b: None, c: None, w: None, scene_id: None }),
        single_param(RequestParamsFieldType::G(x)) == (OptionalRequestParams { state: None, speed: None, ratio: None, brightness: None, temp: None, r: None, g: x, b: None, c: None, w: None, scene_id: None }),
        params_of_list(seq![RequestParamsFieldType::G(x)]) == (RequestParams { state: None, speed: None, ratio: None, brightness: None, temp: None, r: None, g: x, b: None, c: None, w: None, scene_id: None }),
        single_param(RequestParamsFieldType::B(x)) == (OptionalRequestParams { state: None, speed: None, ratio: None, brightness: None, temp: None, r: None, g: None, b: x, c: None, w: None, scene_id: None }),
        params_of_list(seq![RequestParamsFieldType::B(x)]) == (RequestParams { state: None, speed: None, ratio: None, brightness: None, temp: None, r: None, g: None, b: x, c: None, w: None, scene_id: None }),
        single_param(RequestParamsFieldType::C(x)) == (OptionalRequestParams { state: None, speed: None, ratio: None, brightness: None, temp: None, r: None, g: None, b: None, c: x, w: None, scene_id: None }),
        params_of_list(seq![RequestParamsFieldType::C(x)]) == (RequestParams { state: None, speed: None, ratio: None, brightness: None, temp: None, r: None, g: None, b: None, c: x, w: None, scene_id: None }),
        single_param(RequestParamsFieldType::W(x)) == (OptionalRequestParams { state: None, speed: None, ratio: None, brightness: None, temp: None, r: None, g: None, b: None, c: None, w: x, scene_id: None }),
        params_of_list(seq![RequestParamsFieldType::W(x)]) == (RequestParams { state: None, speed: None, ratio: None, brightness: None, temp: None, r: None, g: None, b: None, c: None, w: x, scene_id: None }),
        single_param(RequestParamsFieldType::SceneId(x)) == (OptionalRequestParams { state: None, speed: None, ratio: None, brightness: None, temp: None, r: None, g: None, b: None, c: None, w: None, scene_id: x }),
        params_of_list(seq![RequestParamsFieldType::SceneId(x)]) == (RequestParams { state: None, speed: None, ratio: None, brightness: None, temp: None, r: None, g: None, b: None, c: None, w: None, scene_id: x }),
{
}

/// Adding a parameter at the end of a list makes the list send exactly what
/// that parameter sends alone: earlier parameters are discarded.
pub proof fn lemma_last_param_wins(ps: Seq<RequestParamsFieldType>, p: RequestParamsFieldType)
    ensures
        params_of_list(ps.push(p)) == params_of_list(seq![p]),
{
}

impl RequestParams {
    /// The parameters with every field absent.
    pub fn empty() -> (r: Self)
        ensures
            r == empty_params(),
    {
        RequestParams {
            state: None,
            speed: None,
            ratio: None,
            brightness: None,
            temp: None,
            r: None,
            g: None,
            b: None,
            c: None,
            w: None,
            scene_id: None,
        }
    }
}

impl OptionalRequestParams {
    /// The optional parameters with every field absent.
    pub fn empty() -> (r: Self)
        ensures
            r == empty_optional_params(),
    {
        OptionalRequestParams {
            state: None,
            speed: None,
            ratio: None,
            brightness: None,
            temp: None,
            r: None,
            g: None,
            b: None,
            c: None,
            w: None,
            scene_id: None,
        }
    }

    /// Writes every field of `self` over the matching field of `t`, absent
    /// fields included.
    pub fn apply_to(self, t: &mut RequestParams)
        ensures
            *final(t) == as_request_params(self),
    {
        t.state = self.state;
        t.speed = self.speed;
        t.ratio = self.ratio;
        t.brightness = self.brightness;
        t.temp = self.temp;
        t.r = self.r;
        t.g = self.g;
        t.b = self.b;
        t.c = self.c;
        t.w = self.w;
        t.scene_id = self.scene_id;
    }
}

impl RequestParamsFieldType {
    /// The optional parameters holding only this parameter.
    pub fn to_option_struct(self) -> (r: OptionalRequestParams)
        ensures
            r == single_param(self),
    {
        let mut params_struct = OptionalRequestParams::empty();
        match self {
            RequestParamsFieldType::State(x) => {
                params_struct.state = x;
                params_struct
            }
            RequestParamsFieldType::Speed(x) => {
                params_struct.speed = x;
                params_struct
            }
            RequestParamsFieldType::Ratio(x) => {
                params_struct.ratio = x;
                params_struct
            }
            RequestParamsFieldType::Brightness(x) => {
                params_struct.brightness = x;
                params_struct
            }
            RequestParamsFieldType::Temp(x) => {
                params_struct.temp = x;
                params_struct
            }
            RequestParamsFieldType::R(x) => {
                params_struct.r = x;
                params_struct
            }
            RequestParamsFieldType::G(x) => {
                params_struct.g = x;
                params_struct
            }
            RequestParamsFieldType::B(x) => {
                params_struct.b = x;
                params_struct
            }
            RequestParamsFieldType::C(x) => {
                params_struct.c = x;
                params_struct
            }
            RequestParamsFieldType::W(x) => {
                params_struct.w = x;
                params_struct
            }
            RequestParamsFieldType::SceneId(x) => {
                params_struct.scene_id = x;
                params_struct
            }
        }
    }
}

/// Conversion of a list of parameters into the struct that is sent.
pub trait ToStruct {
    fn to_struct(self) -> RequestParams;
}

impl ToStruct for Vec<RequestParamsFieldType> {
    fn to_struct(self) -> (r: RequestParams)
        ensures
            r == params_of_list(self@),
    {
        let mut params_struct = RequestParams::empty();
        let n = self.len();
        let mut i: usize = 0;
        while i < n
            invariant
                n == self@.len(),
                0 <= i <= n,
                params_struct == params_of_list(self@.take(i as int)),
            decreases n - i,
        {
            let param = self[i];
            param.to_option_struct().apply_to(&mut params_struct);
            i = i + 1;
            assert(self@.take(i as int).last() == param);
        }
        assert(self@.take(n as int) =~= self@);
        params_struct
    }
}

} // verus!
