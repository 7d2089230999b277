//! The mode-change command: validation of the requested operating mode and
//! its caller configuration, and the `ES.SetMode` request payload.

use crate::codec::{encode_request, spec_request_bytes};
use crate::error::{Error, ValidationError};
use crate::json::{
    bytes_eq, clone_json, copy_bytes, json_get, json_model, json_pair_models, spec_field, Json,
    JsonModel,
};
use crate::keys::{
    k_ai_cfg, k_auto_cfg, k_config, k_enable, k_id, k_manual_cfg, k_mode, k_passive_cfg,
    k_set_result, key_ai_cfg, key_auto_cfg, key_config, key_enable, key_id, key_manual_cfg,
    key_mode, key_passive_cfg, key_set_result, m_es_set_mode, method_es_set_mode, v_ai, v_auto,
    v_manual, v_passive, val_ai, val_auto, val_manual, val_passive,
};
use crate::store::DeviceStore;
use vstd::prelude::*;

verus! {

/// Whether `mode` names a known operating mode.
pub open spec fn spec_known_mode(mode: Seq<u8>) -> bool {
    mode == val_auto() || mode == val_ai() || mode == val_manual() || mode == val_passive()
}

/// The sub-configuration key of a known mode: `auto_cfg` for `Auto`, and
/// so on.
pub open spec fn spec_cfg_key(mode: Seq<u8>) -> Seq<u8> {
    if mode == val_auto() {
        key_auto_cfg()
    } else if mode == val_ai() {
        key_ai_cfg()
    } else if mode == val_manual() {
        key_manual_cfg()
    } else {
        key_passive_cfg()
    }
}

/// The `{"enable":1}` sub-configuration synthesized for Auto and AI.
pub open spec fn spec_enable_cfg() -> JsonModel {
    JsonModel::Obj(seq![(key_enable(), JsonModel::Int(1))])
}

/// The mode-change configuration value `{mode: <name>, <mode>_cfg: <sub>}`.
pub open spec fn spec_mode_config(mode: Seq<u8>, sub: JsonModel) -> JsonModel {
    JsonModel::Obj(seq![(key_mode(), JsonModel::Str(mode)), (spec_cfg_key(mode), sub)])
}

/// The model of an optional borrowed value.
pub open spec fn opt_model(config: Option<&Json>) -> Option<JsonModel> {
    match config {
        Some(c) => Some(json_model(*c)),
        None => None,
    }
}

/// What validating a mode name and caller configuration yields.
pub enum ModeOutcome {
    /// The mode name is unknown.
    Unknown,
    /// The mode needs a caller configuration and none was given.
    NeedsConfig,
    /// The caller configuration lacks the required sub-configuration.
    MissingSub,
    /// The built configuration value.
    Built(JsonModel),
}

/// The validation rules of the mode command, in order: the name must be
/// known; Auto and AI need no caller configuration and get `{"enable":1}`;
/// Manual and Passive require a configuration carrying their
/// sub-configuration, which is passed through verbatim.
pub open spec fn spec_mode_outcome(mode: Seq<u8>, config: Option<JsonModel>) -> ModeOutcome {
    if !spec_known_mode(mode) {
        ModeOutcome::Unknown
    } else if mode == val_auto() || mode == val_ai() {
        ModeOutcome::Built(spec_mode_config(mode, spec_enable_cfg()))
    } else {
        match config {
            None => ModeOutcome::NeedsConfig,
            Some(c) => match spec_field(c, spec_cfg_key(mode)) {
                Some(sub) => ModeOutcome::Built(spec_mode_config(mode, sub)),
                None => ModeOutcome::MissingSub,
            },
        }
    }
}

/// Validates a requested mode and caller configuration and builds the
/// configuration value of the mode-change request; no network is involved.
pub fn build_mode_config(mode: &Vec<u8>, config: Option<&Json>) -> (r: Result<
    Json,
    ValidationError,
>)
    ensures
        match spec_mode_outcome(mode@, opt_model(config)) {
            ModeOutcome::Unknown => r matches Err(ValidationError::UnknownMode(m)) && m@ == mode@,
            ModeOutcome::NeedsConfig => r matches Err(ValidationError::ConfigRequired(k)) && k@
                == spec_cfg_key(mode@),
            ModeOutcome::MissingSub => r matches Err(ValidationError::MissingCfg(k)) && k@
                == spec_cfg_key(mode@),
            ModeOutcome::Built(cfg) => r matches Ok(v) && json_model(v) == cfg,
        },
{
    let va = v_auto();
    let vi = v_ai();
    let vm = v_manual();
    let vp = v_passive();
    let is_auto = bytes_eq(mode, va.as_slice());
    let is_ai = bytes_eq(mode, vi.as_slice());
    let is_manual = bytes_eq(mode, vm.as_slice());
    let is_passive = bytes_eq(mode, vp.as_slice());
    if !(is_auto || is_ai || is_manual || is_passive) {
        return Err(ValidationError::UnknownMode(copy_bytes(mode)));
    }
    if is_auto || is_ai {
        let mut sub: Vec<(Vec<u8>, Json)> = Vec::new();
        sub.push((k_enable(), Json::Int(1)));
        proof {
            assert(json_pair_models(sub@) =~= seq![(key_enable(), JsonModel::Int(1))]);
        }
        let subv = Json::Obj(sub);
        let ck = if is_auto {
            k_auto_cfg()
        } else {
            k_ai_cfg()
        };
        let mut pairs: Vec<(Vec<u8>, Json)> = Vec::new();
        pairs.push((k_mode(), Json::Str(copy_bytes(mode))));
        pairs.push((ck, subv));
        proof {
            assert(json_pair_models(pairs@) =~= seq![
                (key_mode(), JsonModel::Str(mode@)),
                (spec_cfg_key(mode@), spec_enable_cfg()),
            ]);
        }
        return Ok(Json::Obj(pairs));
    }
    let ck = if is_manual {
        k_manual_cfg()
    } else {
        k_passive_cfg()
    };
    match config {
        None => Err(ValidationError::ConfigRequired(ck)),
        Some(c) => {
            match json_get(c, ck.as_slice()) {
                None => Err(ValidationError::MissingCfg(ck)),
                Some(sub) => {
                    let ghost subm = json_model(*sub);
                    let subv = clone_json(sub);
                    let mut pairs: Vec<(Vec<u8>, Json)> = Vec::new();
                    pairs.push((k_mode(), Json::Str(copy_bytes(mode))));
                    pairs.push((ck, subv));
                    proof {
                        assert(json_pair_models(pairs@) =~= seq![
                            (key_mode(), JsonModel::Str(mode@)),
                            (spec_cfg_key(mode@), subm),
                        ]);
                    }
                    Ok(Json::Obj(pairs))
                },
            }
        },
    }
}

/// The parameter payload of the mode-change request: `{id:0, config:cfg}`.
pub open spec fn spec_set_mode_params(cfg: JsonModel) -> JsonModel {
    JsonModel::Obj(seq![(key_id(), JsonModel::Int(0)), (key_config(), cfg)])
}

/// Prepares a mode change against the selected device: checks that a
/// device is selected, validates the mode and configuration, and yields
/// the target together with the ready `ES.SetMode` request bytes. The
/// caller sends the bytes and hands the decoded reply to
/// `set_mode_result`.
pub fn set_mode(store: &DeviceStore, mode: &Vec<u8>, config: Option<&Json>) -> (r: Result<
    (Vec<u8>, u16, Vec<u8>),
    Error,
>)
    ensures
        match store.host {
            None => r matches Err(e) && e is Configuration,
            Some(h) => (match spec_mode_outcome(mode@, opt_model(config)) {
                ModeOutcome::Unknown => r matches Err(Error::Validation(
                    ValidationError::UnknownMode(m),
                )) && m@ == mode@,
                ModeOutcome::NeedsConfig => r matches Err(Error::Validation(
                    ValidationError::ConfigRequired(k),
                )) && k@ == spec_cfg_key(mode@),
                ModeOutcome::MissingSub => r matches Err(Error::Validation(
                    ValidationError::MissingCfg(k),
                )) && k@ == spec_cfg_key(mode@),
                ModeOutcome::Built(cfg) => r matches Ok((hh, p, req)) && hh@ == h@ && p
                    == store.port && req@ == spec_request_bytes(
                    method_es_set_mode(),
                    spec_set_mode_params(cfg),
                ),
            }),
        },
{
    let (host, port) = match store.require_target() {
        Ok(t) => t,
        Err(e) => {
            return Err(e);
        },
    };
    let cfg = match build_mode_config(mode, config) {
        Ok(v) => v,
        Err(e) => {
            return Err(Error::Validation(e));
        },
    };
    let ghost cfgm = json_model(cfg);
    let mut params: Vec<(Vec<u8>, Json)> = Vec::new();
    params.push((k_id(), Json::Int(0)));
    params.push((k_config(), cfg));
    proof {
        assert(json_pair_models(params@) =~= seq![
            (key_id(), JsonModel::Int(0)),
            (key_config(), cfgm),
        ]);
    }
    let m = m_es_set_mode();
    let req = encode_request(&m, Json::Obj(params));
    Ok((host, port, req))
}

/// Reads the reply of a mode change: the `set_result` boolean verbatim
/// when present; success when it is absent or not a boolean. A
/// malformed-but-non-erroring device reply therefore reads as success.
pub fn set_mode_result(result: &Json) -> (r: bool)
    ensures
        r == (match spec_field(json_model(*result), key_set_result()) {
            Some(JsonModel::Bool(b)) => b,
            _ => true,
        }),
{
    let ks = k_set_result();
    match json_get(result, ks.as_slice()) {
        Some(x) => match x {
            Json::Bool(b) => *b,
            _ => true,
        },
        None => true,
    }
}

} // verus!
