use vstd::prelude::*;

verus! {

/// A script-neutral value, as it crosses the boundary between host and script.
pub enum Value {
    Null,
    Bool(bool),
    /// Every script number that the host reads is an integer here.
    Int(i128),
    Str(String),
    /// A record of named text fields, in field order.
    Record(Vec<(String, String)>),
}

/// The mathematical view of a [`Value`].
pub ghost enum Json {
    Null,
    Bool(bool),
    Int(int),
    Str(Seq<char>),
    Record(Seq<(Seq<char>, Seq<char>)>),
}

/// The shape of a value, as a decode error reports it.
#[derive(Clone, Copy, Debug, PartialEq, Eq, Structural)]
pub enum Shape {
    Null,
    Bool,
    Int,
    Str,
    Record,
}

/// Why an encoded value could not be read as the native type that was asked for.
#[derive(Clone, Copy, Debug, PartialEq, Eq, Structural)]
pub enum DecodeError {
    /// The value has another shape than the one expected.
    Mismatch { expected: Shape, actual: Shape },
    /// The value is an integer that the native integer type cannot hold.
    OutOfRange { expected: Shape },
    /// The call carried another number of arguments than the handler takes.
    ArgCount { expected: usize, actual: usize },
}

pub open spec fn fields_view(f: Seq<(String, String)>) -> Seq<(Seq<char>, Seq<char>)> {
    f.map_values(|p: (String, String)| (p.0@, p.1@))
}

impl View for Value {
    type V = Json;

    open spec fn view(&self) -> Json {
        match self {
            Value::Null => Json::Null,
            Value::Bool(b) => Json::Bool(*b),
            Value::Int(i) => Json::Int(*i as int),
            Value::Str(s) => Json::Str(s@),
            Value::Record(f) => Json::Record(fields_view(f@)),
        }
    }
}

pub open spec fn shape_of(v: Json) -> Shape {
    match v {
        Json::Null => Shape::Null,
        Json::Bool(_) => Shape::Bool,
        Json::Int(_) => Shape::Int,
        Json::Str(_) => Shape::Str,
        Json::Record(_) => Shape::Record,
    }
}

/// What decoding `v` as a 32-bit signed integer gives.
pub open spec fn decode_i32_spec(v: Json) -> Result<i32, DecodeError> {
    match v {
        Json::Int(i) => if i32::MIN <= i <= i32::MAX {
            Ok(i as i32)
        } else {
            Err(DecodeError::OutOfRange { expected: Shape::Int })
        },
        _ => Err(DecodeError::Mismatch { expected: Shape::Int, actual: shape_of(v) }),
    }
}

/// What decoding `v` as an unsigned 64-bit integer gives.
pub open spec fn decode_u64_spec(v: Json) -> Result<u64, DecodeError> {
    match v {
        Json::Int(i) => if 0 <= i <= u64::MAX {
            Ok(i as u64)
        } else {
            Err(DecodeError::OutOfRange { expected: Shape::Int })
        },
        _ => Err(DecodeError::Mismatch { expected: Shape::Int, actual: shape_of(v) }),
    }
}

/// What decoding `v` as a string gives: its characters.
pub open spec fn decode_str_spec(v: Json) -> Result<Seq<char>, DecodeError> {
    match v {
        Json::Str(s) => Ok(s),
        _ => Err(DecodeError::Mismatch { expected: Shape::Str, actual: shape_of(v) }),
    }
}

impl Value {
    /// The shape of this value.
    pub fn shape(&self) -> (r: Shape)
        ensures
            r == shape_of(self@),
    {
        match self {
            Value::Null => Shape::Null,
            Value::Bool(_) => Shape::Bool,
            Value::Int(_) => Shape::Int,
            Value::Str(_) => Shape::Str,
            Value::Record(_) => Shape::Record,
        }
    }
}

/// Encodes a 32-bit signed integer.
pub fn encode_i32(x: i32) -> (r: Value)
    ensures
        r@ == Json::Int(x as int),
{
    Value::Int(x as i128)
}

/// Encodes an unsigned 64-bit integer.
pub fn encode_u64(x: u64) -> (r: Value)
    ensures
        r@ == Json::Int(x as int),
{
    Value::Int(x as i128)
}

/// Encodes a string.
pub fn encode_str(s: String) -> (r: Value)
    ensures
        r@ == Json::Str(s@),
{
    Value::Str(s)
}

/// Decodes a 32-bit signed integer; any other value is a decode error.
pub fn decode_i32(v: &Value) -> (r: Result<i32, DecodeError>)
    ensures
        r == decode_i32_spec(v@),
{
    match v {
        Value::Int(i) => {
            if i32::MIN as i128 <= *i && *i <= i32::MAX as i128 {
                Ok(*i as i32)
            } else {
                Err(DecodeError::OutOfRange { expected: Shape::Int })
            }
        },
        _ => Err(DecodeError::Mismatch { expected: Shape::Int, actual: v.shape() }),
    }
}

/// Decodes an unsigned 64-bit integer; any other value is a decode error.
pub fn decode_u64(v: &Value) -> (r: Result<u64, DecodeError>)
    ensures
        r == decode_u64_spec(v@),
{
    match v {
        Value::Int(i) => {
            if 0 <= *i && *i <= u64::MAX as i128 {
                Ok(*i as u64)
            } else {
                Err(DecodeError::OutOfRange { expected: Shape::Int })
            }
        },
        _ => Err(DecodeError::Mismatch { expected: Shape::Int, actual: v.shape() }),
    }
}

/// Decodes a string; any other value is a decode error.
pub fn decode_str(v: &Value) -> (r: Result<String, DecodeError>)
    ensures
        r is Ok <==> decode_str_spec(v@) is Ok,
        r is Ok ==> decode_str_spec(v@) == Ok::<Seq<char>, DecodeError>(r->Ok_0@),
        r is Err ==> decode_str_spec(v@) == Err::<Seq<char>, DecodeError>(r->Err_0),
{
    match v {
        Value::Str(s) => Ok(s.clone()),
        _ => Err(DecodeError::Mismatch { expected: Shape::Str, actual: v.shape() }),
    }
}

/// Decoding an encoded integer gives the integer back.
pub proof fn lemma_i32_round_trip(x: i32)
    ensures
        decode_i32_spec(Json::Int(x as int)) == Ok::<i32, DecodeError>(x),
{
}

/// Decoding an encoded unsigned integer gives the integer back.
pub proof fn lemma_u64_round_trip(x: u64)
    ensures
        decode_u64_spec(Json::Int(x as int)) == Ok::<u64, DecodeError>(x),
{
}

/// Decoding an encoded string gives its characters back.
pub proof fn lemma_str_round_trip(s: Seq<char>)
    ensures
        decode_str_spec(Json::Str(s)) == Ok::<Seq<char>, DecodeError>(s),
{
}

} // verus!
