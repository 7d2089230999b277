//! The envelope codec: a request is `{"id", "method", "params"}` on the
//! wire, a reply is read by extracting its `result` member.

use crate::error::Error;
use crate::json::{
    clone_json, copy_bytes, json_get, json_model, json_pair_models, parse_json, spec_field,
    spec_json, spec_ser, to_bytes, Json, JsonModel,
};
use crate::keys::{k_id, k_method, k_params, k_result, key_id, key_method, key_params, key_result};
use vstd::prelude::*;

verus! {

/// The model of a request envelope: `{"id":1,"method":m,"params":p}`.
/// The id is a fixed sentinel; replies are not correlated by id.
pub open spec fn spec_request(method: Seq<u8>, params: JsonModel) -> JsonModel {
    JsonModel::Obj(
        seq![
            (key_id(), JsonModel::Int(1)),
            (key_method(), JsonModel::Str(method)),
            (key_params(), params),
        ],
    )
}

/// The wire bytes of a request envelope.
pub open spec fn spec_request_bytes(method: Seq<u8>, params: JsonModel) -> Seq<u8> {
    spec_ser(spec_request(method, params))
}

/// Builds the wire bytes of one request.
pub fn encode_request(method: &Vec<u8>, params: Json) -> (r: Vec<u8>)
    ensures
        r@ == spec_request_bytes(method@, json_model(params)),
{
    let ghost pm = json_model(params);
    let mut pairs: Vec<(Vec<u8>, Json)> = Vec::new();
    pairs.push((k_id(), Json::Int(1)));
    pairs.push((k_method(), Json::Str(copy_bytes(method))));
    pairs.push((k_params(), params));
    proof {
        assert(json_pair_models(pairs@) =~= seq![
            (key_id(), JsonModel::Int(1)),
            (key_method(), JsonModel::Str(method@)),
            (key_params(), pm),
        ]);
    }
    to_bytes(&Json::Obj(pairs))
}

/// The payload a reply carries: its `result` member, or `Null` when the
/// member is absent or the reply is not an object.
pub open spec fn spec_reply_result(m: JsonModel) -> JsonModel {
    match spec_field(m, key_result()) {
        Some(r) => r,
        None => JsonModel::Null,
    }
}

/// Decodes one reply datagram: parses the envelope and extracts its
/// `result` member. Malformed bytes are a codec error. The reply id is
/// never compared with the request id: the first datagram received on the
/// exchange's endpoint is taken as the answer.
pub fn decode_reply(bytes: &[u8]) -> (r: Result<Json, Error>)
    ensures
        match r {
            Ok(v) => spec_json(bytes@) matches Some(m) && json_model(v) == spec_reply_result(m),
            Err(e) => spec_json(bytes@) is None && e is Codec,
        },
{
    match parse_json(bytes) {
        None => Err(Error::Codec),
        Some(v) => {
            let kr = k_result();
            match json_get(&v, kr.as_slice()) {
                Some(x) => Ok(clone_json(x)),
                None => Ok(Json::Null),
            }
        },
    }
}

} // verus!
