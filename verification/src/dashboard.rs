//! The dashboard: six status queries issued in a fixed order against the
//! selected device, each decoded into a typed record. A transport failure
//! aborts the whole aggregation; a payload that does not fit its record
//! only turns that one section unknown. The finished snapshot carries the
//! local wall-clock time.

use crate::codec::{encode_request, spec_request_bytes};
use crate::discovery::{ble_mac_params, spec_ble_mac_params};
use crate::error::Error;
use crate::json::{
    copy_bytes, int_bytes, json_get, json_model, json_pair_models, spec_field, spec_int_bytes,
    Json, JsonModel,
};
use crate::keys::{
    k_a_power, k_b_power, k_bat_cap, k_bat_capacity, k_bat_power, k_bat_soc, k_bat_temp,
    k_ble_mac, k_c_power, k_charg_flag, k_ct_state, k_device, k_dischrg_flag, k_id, k_ip, k_mode,
    k_offgrid_power, k_ongrid_power, k_pv_power, k_rated_capacity, k_rssi, k_soc, k_ssid,
    k_sta_ip, k_total_grid_input_energy, k_total_grid_output_energy, k_total_load_energy,
    k_total_power, k_total_pv_energy, k_ver, k_wifi_mac, k_wifi_name, key_a_power, key_b_power,
    key_bat_cap, key_bat_capacity, key_bat_power, key_bat_soc, key_bat_temp, key_ble_mac,
    key_c_power, key_charg_flag, key_ct_state, key_device, key_dischrg_flag, key_id, key_ip,
    key_mode, key_offgrid_power, key_ongrid_power, key_pv_power, key_rated_capacity, key_rssi,
    key_soc, key_ssid, key_sta_ip, key_total_grid_input_energy, key_total_grid_output_energy,
    key_total_load_energy, key_total_power, key_total_pv_energy, key_ver, key_wifi_mac,
    key_wifi_name, method_bat_get_status, method_em_get_status, method_es_get_mode,
    method_es_get_status, method_get_device, method_wifi_get_status, m_bat_get_status,
    m_em_get_status, m_es_get_mode, m_es_get_status, m_get_device, m_wifi_get_status,
};
use crate::store::{opt_bytes, DeviceStore};
use vstd::prelude::*;

verus! {

// ---------------------------------------------------------------------------
// Reading one optional member of a status payload
// ---------------------------------------------------------------------------

/// Whether a member can be read as an optional string: absent and null are
/// unknown, a string is a value, anything else fails the whole record.
pub open spec fn str_field_ok(m: JsonModel, key: Seq<u8>) -> bool {
    match spec_field(m, key) {
        None => true,
        Some(JsonModel::Null) => true,
        Some(JsonModel::Str(_)) => true,
        Some(_) => false,
    }
}

/// The optional string a member carries.
pub open spec fn str_field(m: JsonModel, key: Seq<u8>) -> Option<Seq<u8>> {
    match spec_field(m, key) {
        Some(JsonModel::Str(s)) => Some(s),
        _ => None,
    }
}

/// Whether a member can be read as an optional unsigned 32-bit integer.
pub open spec fn u32_field_ok(m: JsonModel, key: Seq<u8>) -> bool {
    match spec_field(m, key) {
        None => true,
        Some(JsonModel::Null) => true,
        Some(JsonModel::Int(n)) => 0 <= n <= 0xffffffff,
        Some(_) => false,
    }
}

/// The optional unsigned 32-bit integer a member carries.
pub open spec fn u32_field(m: JsonModel, key: Seq<u8>) -> Option<u32> {
    match spec_field(m, key) {
        Some(JsonModel::Int(n)) => if 0 <= n <= 0xffffffff {
            Some(n as u32)
        } else {
            None
        },
        _ => None,
    }
}

/// Whether a member can be read as an optional signed 32-bit integer.
pub open spec fn i32_field_ok(m: JsonModel, key: Seq<u8>) -> bool {
    match spec_field(m, key) {
        None => true,
        Some(JsonModel::Null) => true,
        Some(JsonModel::Int(n)) => -0x80000000 <= n <= 0x7fffffff,
        Some(_) => false,
    }
}

/// The optional signed 32-bit integer a member carries.
pub open spec fn i32_field(m: JsonModel, key: Seq<u8>) -> Option<i32> {
    match spec_field(m, key) {
        Some(JsonModel::Int(n)) => if -0x80000000 <= n <= 0x7fffffff {
            Some(n as i32)
        } else {
            None
        },
        _ => None,
    }
}

/// Whether a member can be read as an optional boolean.
pub open spec fn bool_field_ok(m: JsonModel, key: Seq<u8>) -> bool {
    match spec_field(m, key) {
        None => true,
        Some(JsonModel::Null) => true,
        Some(JsonModel::Bool(_)) => true,
        Some(_) => false,
    }
}

/// The optional boolean a member carries.
pub open spec fn bool_field(m: JsonModel, key: Seq<u8>) -> Option<bool> {
    match spec_field(m, key) {
        Some(JsonModel::Bool(b)) => Some(b),
        _ => None,
    }
}

/// Whether a member can be read as an optional number. Numbers are carried
/// as their decimal text, exactly as the device sent them.
pub open spec fn num_field_ok(m: JsonModel, key: Seq<u8>) -> bool {
    match spec_field(m, key) {
        None => true,
        Some(JsonModel::Null) => true,
        Some(JsonModel::Int(_)) => true,
        Some(JsonModel::Num(_)) => true,
        Some(_) => false,
    }
}

/// The optional number text a member carries.
pub open spec fn num_field(m: JsonModel, key: Seq<u8>) -> Option<Seq<u8>> {
    match spec_field(m, key) {
        Some(JsonModel::Int(n)) => Some(spec_int_bytes(n)),
        Some(JsonModel::Num(s)) => Some(s),
        _ => None,
    }
}

fn get_str(v: &Json, key: &Vec<u8>) -> (r: Result<Option<Vec<u8>>, ()>)
    ensures
        r is Ok <==> str_field_ok(json_model(*v), key@),
        (match r {
            Ok(o) => opt_bytes(o) == str_field(json_model(*v), key@),
            Err(_) => true,
        }),
{
    match json_get(v, key.as_slice()) {
        None => Ok(None),
        Some(x) => match x {
            Json::Null => Ok(None),
            Json::Str(s) => Ok(Some(copy_bytes(s))),
            _ => Err(()),
        },
    }
}

fn get_u32(v: &Json, key: &Vec<u8>) -> (r: Result<Option<u32>, ()>)
    ensures
        r is Ok <==> u32_field_ok(json_model(*v), key@),
        (match r {
            Ok(o) => o == u32_field(json_model(*v), key@),
            Err(_) => true,
        }),
{
    match json_get(v, key.as_slice()) {
        None => Ok(None),
        Some(x) => match x {
            Json::Null => Ok(None),
            Json::Int(n) => {
                if 0 <= *n && *n <= 0xffffffff {
                    Ok(Some(*n as u32))
                } else {
                    Err(())
                }
            },
            _ => Err(()),
        },
    }
}

fn get_i32(v: &Json, key: &Vec<u8>) -> (r: Result<Option<i32>, ()>)
    ensures
        r is Ok <==> i32_field_ok(json_model(*v), key@),
        (match r {
            Ok(o) => o == i32_field(json_model(*v), key@),
            Err(_) => true,
        }),
{
    match json_get(v, key.as_slice()) {
        None => Ok(None),
        Some(x) => match x {
            Json::Null => Ok(None),
            Json::Int(n) => {
                if -0x80000000 <= *n && *n <= 0x7fffffff {
                    Ok(Some(*n as i32))
                } else {
                    Err(())
                }
            },
            _ => Err(()),
        },
    }
}

fn get_bool(v: &Json, key: &Vec<u8>) -> (r: Result<Option<bool>, ()>)
    ensures
        r is Ok <==> bool_field_ok(json_model(*v), key@),
        (match r {
            Ok(o) => o == bool_field(json_model(*v), key@),
            Err(_) => true,
        }),
{
    match json_get(v, key.as_slice()) {
        None => Ok(None),
        Some(x) => match x {
            Json::Null => Ok(None),
            Json::Bool(b) => Ok(Some(*b)),
            _ => Err(()),
        },
    }
}

fn get_num(v: &Json, key: &Vec<u8>) -> (r: Result<Option<Vec<u8>>, ()>)
    ensures
        r is Ok <==> num_field_ok(json_model(*v), key@),
        (match r {
            Ok(o) => opt_bytes(o) == num_field(json_model(*v), key@),
            Err(_) => true,
        }),
{
    match json_get(v, key.as_slice()) {
        None => Ok(None),
        Some(x) => match x {
            Json::Null => Ok(None),
            Json::Int(n) => Ok(Some(int_bytes(*n))),
            Json::Num(s) => Ok(Some(copy_bytes(s))),
            _ => Err(()),
        },
    }
}

// ---------------------------------------------------------------------------
// The six status records
// ---------------------------------------------------------------------------

/// The typed record of one `Marstek.GetDevice` reply. An absent or null
/// member is unknown, never a default value.
#[derive(Debug, PartialEq, Eq, Clone)]
pub struct DeviceInfo {
    pub device: Option<Vec<u8>>,
    pub ver: Option<u32>,
    pub ble_mac: Option<Vec<u8>>,
    pub wifi_mac: Option<Vec<u8>>,
    pub wifi_name: Option<Vec<u8>>,
    pub ip: Option<Vec<u8>>,
}

/// Whether a payload decodes into `DeviceInfo` as a whole: it is an
/// object and every known member present has the right type.
pub open spec fn device_info_ok(m: JsonModel) -> bool {
    &&& m is Obj
    &&& str_field_ok(m, key_device())
    &&& u32_field_ok(m, key_ver())
    &&& str_field_ok(m, key_ble_mac())
    &&& str_field_ok(m, key_wifi_mac())
    &&& str_field_ok(m, key_wifi_name())
    &&& str_field_ok(m, key_ip())
}

/// How a decoded `DeviceInfo` relates to the payload it came from:
/// member by member when the whole record decodes, all unknown
/// otherwise.
pub open spec fn device_info_decoded(m: JsonModel, r: DeviceInfo) -> bool {
    &&& opt_bytes(r.device) == (if device_info_ok(m) {
        str_field(m, key_device())
    } else {
        Option::<Seq<u8>>::None
    })
    &&& r.ver == (if device_info_ok(m) {
        u32_field(m, key_ver())
    } else {
        Option::<u32>::None
    })
    &&& opt_bytes(r.ble_mac) == (if device_info_ok(m) {
        str_field(m, key_ble_mac())
    } else {
        Option::<Seq<u8>>::None
    })
    &&& opt_bytes(r.wifi_mac) == (if device_info_ok(m) {
        str_field(m, key_wifi_mac())
    } else {
        Option::<Seq<u8>>::None
    })
    &&& opt_bytes(r.wifi_name) == (if device_info_ok(m) {
        str_field(m, key_wifi_name())
    } else {
        Option::<Seq<u8>>::None
    })
    &&& opt_bytes(r.ip) == (if device_info_ok(m) {
        str_field(m, key_ip())
    } else {
        Option::<Seq<u8>>::None
    })
}

/// Whether every member of the record is unknown.
pub open spec fn device_info_unknown(r: DeviceInfo) -> bool {
    &&& r.device is None
    &&& r.ver is None
    &&& r.ble_mac is None
    &&& r.wifi_mac is None
    &&& r.wifi_name is None
    &&& r.ip is None
}

impl DeviceInfo {
    /// The record with every member unknown.
    pub fn unknown() -> (r: DeviceInfo)
        ensures
            device_info_unknown(r),
    {
        DeviceInfo { device: None, ver: None, ble_mac: None, wifi_mac: None, wifi_name: None, ip: None }
    }
}

fn decode_device_info_strict(v: &Json) -> (r: Result<DeviceInfo, ()>)
    ensures
        r is Ok <==> device_info_ok(json_model(*v)),
        (match r {
            Ok(rec) => device_info_ok(json_model(*v)) && ({
                let m = json_model(*v);
                &&& opt_bytes(rec.device) == str_field(m, key_device())
                &&& rec.ver == u32_field(m, key_ver())
                &&& opt_bytes(rec.ble_mac) == str_field(m, key_ble_mac())
                &&& opt_bytes(rec.wifi_mac) == str_field(m, key_wifi_mac())
                &&& opt_bytes(rec.wifi_name) == str_field(m, key_wifi_name())
                &&& opt_bytes(rec.ip) == str_field(m, key_ip())
            }),
            Err(_) => true,
        }),
{
    match v {
        Json::Obj(_) => {},
        _ => {
            return Err(());
        },
    }
    let kk_device = k_device();
    let device = match get_str(v, &kk_device) {
        Ok(o) => o,
        Err(_) => {
            return Err(());
        },
    };
    let kk_ver = k_ver();
    let ver = match get_u32(v, &kk_ver) {
        Ok(o) => o,
        Err(_) => {
            return Err(());
        },
    };
    let kk_ble_mac = k_ble_mac();
    let ble_mac = match get_str(v, &kk_ble_mac) {
        Ok(o) => o,
        Err(_) => {
            return Err(());
        },
    };
    let kk_wifi_mac = k_wifi_mac();
    let wifi_mac = match get_str(v, &kk_wifi_mac) {
        Ok(o) => o,
        Err(_) => {
            return Err(());
        },
    };
    let kk_wifi_name = k_wifi_name();
    let wifi_name = match get_str(v, &kk_wifi_name) {
        Ok(o) => o,
        Err(_) => {
            return Err(());
        },
    };
    let kk_ip = k_ip();
    let ip = match get_str(v, &kk_ip) {
        Ok(o) => o,
        Err(_) => {
            return Err(());
        },
    };
    Ok(DeviceInfo { device, ver, ble_mac, wifi_mac, wifi_name, ip })
}

/// Decodes one `Marstek.GetDevice` payload, substituting the all-unknown
/// record when the payload does not fit the record's shape.
pub fn decode_device_info(v: &Json) -> (r: DeviceInfo)
    ensures
        device_info_decoded(json_model(*v), r),
{
    match decode_device_info_strict(v) {
        Ok(rec) => rec,
        Err(_) => DeviceInfo::unknown(),
    }
}

/// The typed record of one `Bat.GetStatus` reply. An absent or null
/// member is unknown, never a default value.
#[derive(Debug, PartialEq, Eq, Clone)]
pub struct BatteryStatus {
    pub soc: Option<u32>,
    pub charg_flag: Option<bool>,
    pub dischrg_flag: Option<bool>,
    pub bat_temp: Option<Vec<u8>>,
    pub bat_capacity: Option<Vec<u8>>,
    pub rated_capacity: Option<Vec<u8>>,
}

/// Whether a payload decodes into `BatteryStatus` as a whole: it is an
/// object and every known member present has the right type.
pub open spec fn battery_status_ok(m: JsonModel) -> bool {
    &&& m is Obj
    &&& u32_field_ok(m, key_soc())
    &&& bool_field_ok(m, key_charg_flag())
    &&& bool_field_ok(m, key_dischrg_flag())
    &&& num_field_ok(m, key_bat_temp())
    &&& num_field_ok(m, key_bat_capacity())
    &&& num_field_ok(m, key_rated_capacity())
}

/// How a decoded `BatteryStatus` relates to the payload it came from:
/// member by member when the whole record decodes, all unknown
/// otherwise.
pub open spec fn battery_status_decoded(m: JsonModel, r: BatteryStatus) -> bool {
    &&& r.soc == (if battery_status_ok(m) {
        u32_field(m, key_soc())
    } else {
        Option::<u32>::None
    })
    &&& r.charg_flag == (if battery_status_ok(m) {
        bool_field(m, key_charg_flag())
    } else {
        Option::<bool>::None
    })
    &&& r.dischrg_flag == (if battery_status_ok(m) {
        bool_field(m, key_dischrg_flag())
    } else {
        Option::<bool>::None
    })
    &&& opt_bytes(r.bat_temp) == (if battery_status_ok(m) {
        num_field(m, key_bat_temp())
    } else {
        Option::<Seq<u8>>::None
    })
    &&& opt_bytes(r.bat_capacity) == (if battery_status_ok(m) {
        num_field(m, key_bat_capacity())
    } else {
        Option::<Seq<u8>>::None
    })
    &&& opt_bytes(r.rated_capacity) == (if battery_status_ok(m) {
        num_field(m, key_rated_capacity())
    } else {
        Option::<Seq<u8>>::None
    })
}

/// Whether every member of the record is unknown.
pub open spec fn battery_status_unknown(r: BatteryStatus) -> bool {
    &&& r.soc is None
    &&& r.charg_flag is None
    &&& r.dischrg_flag is None
    &&& r.bat_temp is None
    &&& r.bat_capacity is None
    &&& r.rated_capacity is None
}

impl BatteryStatus {
    /// The record with every member unknown.
    pub fn unknown() -> (r: BatteryStatus)
        ensures
            battery_status_unknown(r),
    {
        BatteryStatus { soc: None, charg_flag: None, dischrg_flag: None, bat_temp: None, bat_capacity: None, rated_capacity: None }
    }
}

fn decode_battery_status_strict(v: &Json) -> (r: Result<BatteryStatus, ()>)
    ensures
        r is Ok <==> battery_status_ok(json_model(*v)),
        (match r {
            Ok(rec) => battery_status_ok(json_model(*v)) && ({
                let m = json_model(*v);
                &&& rec.soc == u32_field(m, key_soc())
                &&& rec.charg_flag == bool_field(m, key_charg_flag())
                &&& rec.dischrg_flag == bool_field(m, key_dischrg_flag())
                &&& opt_bytes(rec.bat_temp) == num_field(m, key_bat_temp())
                &&& opt_bytes(rec.bat_capacity) == num_field(m, key_bat_capacity())
                &&& opt_bytes(rec.rated_capacity) == num_field(m, key_rated_capacity())
            }),
            Err(_) => true,
        }),
{
    match v {
        Json::Obj(_) => {},
        _ => {
            return Err(());
        },
    }
    let kk_soc = k_soc();
    let soc = match get_u32(v, &kk_soc) {
        Ok(o) => o,
        Err(_) => {
            return Err(());
        },
    };
    let kk_charg_flag = k_charg_flag();
    let charg_flag = match get_bool(v, &kk_charg_flag) {
        Ok(o) => o,
        Err(_) => {
            return Err(());
        },
    };
    let kk_dischrg_flag = k_dischrg_flag();
    let dischrg_flag = match get_bool(v, &kk_dischrg_flag) {
        Ok(o) => o,
        Err(_) => {
            return Err(());
        },
    };
    let kk_bat_temp = k_bat_temp();
    let bat_temp = match get_num(v, &kk_bat_temp) {
        Ok(o) => o,
        Err(_) => {
            return Err(());
        },
    };
    let kk_bat_capacity = k_bat_capacity();
    let bat_capacity = match get_num(v, &kk_bat_capacity) {
        Ok(o) => o,
        Err(_) => {
            return Err(());
        },
    };
    let kk_rated_capacity = k_rated_capacity();
    let rated_capacity = match get_num(v, &kk_rated_capacity) {
        Ok(o) => o,
        Err(_) => {
            return Err(());
        },
    };
    Ok(BatteryStatus { soc, charg_flag, dischrg_flag, bat_temp, bat_capacity, rated_capacity })
}

/// Decodes one `Bat.GetStatus` payload, substituting the all-unknown
/// record when the payload does not fit the record's shape.
pub fn decode_battery_status(v: &Json) -> (r: BatteryStatus)
    ensures
        battery_status_decoded(json_model(*v), r),
{
    match decode_battery_status_strict(v) {
        Ok(rec) => rec,
        Err(_) => BatteryStatus::unknown(),
    }
}

/// The typed record of one `ES.GetStatus` reply. An absent or null
/// member is unknown, never a default value.
#[derive(Debug, PartialEq, Eq, Clone)]
pub struct EnergyStatus {
    pub bat_soc: Option<u32>,
    pub bat_cap: Option<Vec<u8>>,
    pub pv_power: Option<Vec<u8>>,
    pub ongrid_power: Option<Vec<u8>>,
    pub offgrid_power: Option<Vec<u8>>,
    pub bat_power: Option<Vec<u8>>,
    pub total_pv_energy: Option<Vec<u8>>,
    pub total_grid_output_energy: Option<Vec<u8>>,
    pub total_grid_input_energy: Option<Vec<u8>>,
    pub total_load_energy: Option<Vec<u8>>,
}

/// Whether a payload decodes into `EnergyStatus` as a whole: it is an
/// object and every known member present has the right type.
pub open spec fn energy_status_ok(m: JsonModel) -> bool {
    &&& m is Obj
    &&& u32_field_ok(m, key_bat_soc())
    &&& num_field_ok(m, key_bat_cap())
    &&& num_field_ok(m, key_pv_power())
    &&& num_field_ok(m, key_ongrid_power())
    &&& num_field_ok(m, key_offgrid_power())
    &&& num_field_ok(m, key_bat_power())
    &&& num_field_ok(m, key_total_pv_energy())
    &&& num_field_ok(m, key_total_grid_output_energy())
    &&& num_field_ok(m, key_total_grid_input_energy())
    &&& num_field_ok(m, key_total_load_energy())
}

/// How a decoded `EnergyStatus` relates to the payload it came from:
/// member by member when the whole record decodes, all unknown
/// otherwise.
pub open spec fn energy_status_decoded(m: JsonModel, r: EnergyStatus) -> bool {
    &&& r.bat_soc == (if energy_status_ok(m) {
        u32_field(m, key_bat_soc())
    } else {
        Option::<u32>::None
    })
    &&& opt_bytes(r.bat_cap) == (if energy_status_ok(m) {
        num_field(m, key_bat_cap())
    } else {
        Option::<Seq<u8>>::None
    })
    &&& opt_bytes(r.pv_power) == (if energy_status_ok(m) {
        num_field(m, key_pv_power())
    } else {
        Option::<Seq<u8>>::None
    })
    &&& opt_bytes(r.ongrid_power) == (if energy_status_ok(m) {
        num_field(m, key_ongrid_power())
    } else {
        Option::<Seq<u8>>::None
    })
    &&& opt_bytes(r.offgrid_power) == (if energy_status_ok(m) {
        num_field(m, key_offgrid_power())
    } else {
        Option::<Seq<u8>>::None
    })
    &&& opt_bytes(r.bat_power) == (if energy_status_ok(m) {
        num_field(m, key_bat_power())
    } else {
        Option::<Seq<u8>>::None
    })
    &&& opt_bytes(r.total_pv_energy) == (if energy_status_ok(m) {
        num_field(m, key_total_pv_energy())
    } else {
        Option::<Seq<u8>>::None
    })
    &&& opt_bytes(r.total_grid_output_energy) == (if energy_status_ok(m) {
        num_field(m, key_total_grid_output_energy())
    } else {
        Option::<Seq<u8>>::None
    })
    &&& opt_bytes(r.total_grid_input_energy) == (if energy_status_ok(m) {
        num_field(m, key_total_grid_input_energy())
    } else {
        Option::<Seq<u8>>::None
    })
    &&& opt_bytes(r.total_load_energy) == (if energy_status_ok(m) {
        num_field(m, key_total_load_energy())
    } else {
        Option::<Seq<u8>>::None
    })
}

/// Whether every member of the record is unknown.
pub open spec fn energy_status_unknown(r: EnergyStatus) -> bool {
    &&& r.bat_soc is None
    &&& r.bat_cap is None
    &&& r.pv_power is None
    &&& r.ongrid_power is None
    &&& r.offgrid_power is None
    &&& r.bat_power is None
    &&& r.total_pv_energy is None
    &&& r.total_grid_output_energy is None
    &&& r.total_grid_input_energy is None
    &&& r.total_load_energy is None
}

impl EnergyStatus {
    /// The record with every member unknown.
    pub fn unknown() -> (r: EnergyStatus)
        ensures
            energy_status_unknown(r),
    {
        EnergyStatus { bat_soc: None, bat_cap: None, pv_power: None, ongrid_power: None, offgrid_power: None, bat_power: None, total_pv_energy: None, total_grid_output_energy: None, total_grid_input_energy: None, total_load_energy: None }
    }
}

fn decode_energy_status_strict(v: &Json) -> (r: Result<EnergyStatus, ()>)
    ensures
        r is Ok <==> energy_status_ok(json_model(*v)),
        (match r {
            Ok(rec) => energy_status_ok(json_model(*v)) && ({
                let m = json_model(*v);
                &&& rec.bat_soc == u32_field(m, key_bat_soc())
                &&& opt_bytes(rec.bat_cap) == num_field(m, key_bat_cap())
                &&& opt_bytes(rec.pv_power) == num_field(m, key_pv_power())
                &&& opt_bytes(rec.ongrid_power) == num_field(m, key_ongrid_power())
                &&& opt_bytes(rec.offgrid_power) == num_field(m, key_offgrid_power())
                &&& opt_bytes(rec.bat_power) == num_field(m, key_bat_power())
                &&& opt_bytes(rec.total_pv_energy) == num_field(m, key_total_pv_energy())
                &&& opt_bytes(rec.total_grid_output_energy) == num_field(m, key_total_grid_output_energy())
                &&& opt_bytes(rec.total_grid_input_energy) == num_field(m, key_total_grid_input_energy())
                &&& opt_bytes(rec.total_load_energy) == num_field(m, key_total_load_energy())
            }),
            Err(_) => true,
        }),
{
    match v {
        Json::Obj(_) => {},
        _ => {
            return Err(());
        },
    }
    let kk_bat_soc = k_bat_soc();
    let bat_soc = match get_u32(v, &kk_bat_soc) {
        Ok(o) => o,
        Err(_) => {
            return Err(());
        },
    };
    let kk_bat_cap = k_bat_cap();
    let bat_cap = match get_num(v, &kk_bat_cap) {
        Ok(o) => o,
        Err(_) => {
            return Err(());
        },
    };
    let kk_pv_power = k_pv_power();
    let pv_power = match get_num(v, &kk_pv_power) {
        Ok(o) => o,
        Err(_) => {
            return Err(());
        },
    };
    let kk_ongrid_power = k_ongrid_power();
    let ongrid_power = match get_num(v, &kk_ongrid_power) {
        Ok(o) => o,
        Err(_) => {
            return Err(());
        },
    };
    let kk_offgrid_power = k_offgrid_power();
    let offgrid_power = match get_num(v, &kk_offgrid_power) {
        Ok(o) => o,
        Err(_) => {
            return Err(());
        },
    };
    let kk_bat_power = k_bat_power();
    let bat_power = match get_num(v, &kk_bat_power) {
        Ok(o) => o,
        Err(_) => {
            return Err(());
        },
    };
    let kk_total_pv_energy = k_total_pv_energy();
    let total_pv_energy = match get_num(v, &kk_total_pv_energy) {
        Ok(o) => o,
        Err(_) => {
            return Err(());
        },
    };
    let kk_total_grid_output_energy = k_total_grid_output_energy();
    let total_grid_output_energy = match get_num(v, &kk_total_grid_output_energy) {
        Ok(o) => o,
        Err(_) => {
            return Err(());
        },
    };
    let kk_total_grid_input_energy = k_total_grid_input_energy();
    let total_grid_input_energy = match get_num(v, &kk_total_grid_input_energy) {
        Ok(o) => o,
        Err(_) => {
            return Err(());
        },
    };
    let kk_total_load_energy = k_total_load_energy();
    let total_load_energy = match get_num(v, &kk_total_load_energy) {
        Ok(o) => o,
        Err(_) => {
            return Err(());
        },
    };
    Ok(EnergyStatus { bat_soc, bat_cap, pv_power, ongrid_power, offgrid_power, bat_power, total_pv_energy, total_grid_output_energy, total_grid_input_energy, total_load_energy })
}

/// Decodes one `ES.GetStatus` payload, substituting the all-unknown
/// record when the payload does not fit the record's shape.
pub fn decode_energy_status(v: &Json) -> (r: EnergyStatus)
    ensures
        energy_status_decoded(json_model(*v), r),
{
    match decode_energy_status_strict(v) {
        Ok(rec) => rec,
        Err(_) => EnergyStatus::unknown(),
    }
}

/// The typed record of one `ES.GetMode` reply. An absent or null
/// member is unknown, never a default value.
#[derive(Debug, PartialEq, Eq, Clone)]
pub struct ModeStatus {
    pub mode: Option<Vec<u8>>,
    pub ongrid_power: Option<Vec<u8>>,
    pub offgrid_power: Option<Vec<u8>>,
    pub bat_soc: Option<u32>,
}

/// Whether a payload decodes into `ModeStatus` as a whole: it is an
/// object and every known member present has the right type.
pub open spec fn mode_status_ok(m: JsonModel) -> bool {
    &&& m is Obj
    &&& str_field_ok(m, key_mode())
    &&& num_field_ok(m, key_ongrid_power())
    &&& num_field_ok(m, key_offgrid_power())
    &&& u32_field_ok(m, key_bat_soc())
}

/// How a decoded `ModeStatus` relates to the payload it came from:
/// member by member when the whole record decodes, all unknown
/// otherwise.
pub open spec fn mode_status_decoded(m: JsonModel, r: ModeStatus) -> bool {
    &&& opt_bytes(r.mode) == (if mode_status_ok(m) {
        str_field(m, key_mode())
    } else {
        Option::<Seq<u8>>::None
    })
    &&& opt_bytes(r.ongrid_power) == (if mode_status_ok(m) {
        num_field(m, key_ongrid_power())
    } else {
        Option::<Seq<u8>>::None
    })
    &&& opt_bytes(r.offgrid_power) == (if mode_status_ok(m) {
        num_field(m, key_offgrid_power())
    } else {
        Option::<Seq<u8>>::None
    })
    &&& r.bat_soc == (if mode_status_ok(m) {
        u32_field(m, key_bat_soc())
    } else {
        Option::<u32>::None
    })
}

/// Whether every member of the record is unknown.
pub open spec fn mode_status_unknown(r: ModeStatus) -> bool {
    &&& r.mode is None
    &&& r.ongrid_power is None
    &&& r.offgrid_power is None
    &&& r.bat_soc is None
}

impl ModeStatus {
    /// The record with every member unknown.
    pub fn unknown() -> (r: ModeStatus)
        ensures
            mode_status_unknown(r),
    {
        ModeStatus { mode: None, ongrid_power: None, offgrid_power: None, bat_soc: None }
    }
}

fn decode_mode_status_strict(v: &Json) -> (r: Result<ModeStatus, ()>)
    ensures
        r is Ok <==> mode_status_ok(json_model(*v)),
        (match r {
            Ok(rec) => mode_status_ok(json_model(*v)) && ({
                let m = json_model(*v);
                &&& opt_bytes(rec.mode) == str_field(m, key_mode())
                &&& opt_bytes(rec.ongrid_power) == num_field(m, key_ongrid_power())
                &&& opt_bytes(rec.offgrid_power) == num_field(m, key_offgrid_power())
                &&& rec.bat_soc == u32_field(m, key_bat_soc())
            }),
            Err(_) => true,
        }),
{
    match v {
        Json::Obj(_) => {},
        _ => {
            return Err(());
        },
    }
    let kk_mode = k_mode();
    let mode = match get_str(v, &kk_mode) {
        Ok(o) => o,
        Err(_) => {
            return Err(());
        },
    };
    let kk_ongrid_power = k_ongrid_power();
    let ongrid_power = match get_num(v, &kk_ongrid_power) {
        Ok(o) => o,
        Err(_) => {
            return Err(());
        },
    };
    let kk_offgrid_power = k_offgrid_power();
    let offgrid_power = match get_num(v, &kk_offgrid_power) {
        Ok(o) => o,
        Err(_) => {
            return Err(());
        },
    };
    let kk_bat_soc = k_bat_soc();
    let bat_soc = match get_u32(v, &kk_bat_soc) {
        Ok(o) => o,
        Err(_) => {
            return Err(());
        },
    };
    Ok(ModeStatus { mode, ongrid_power, offgrid_power, bat_soc })
}

/// Decodes one `ES.GetMode` payload, substituting the all-unknown
/// record when the payload does not fit the record's shape.
pub fn decode_mode_status(v: &Json) -> (r: ModeStatus)
    ensures
        mode_status_decoded(json_model(*v), r),
{
    match decode_mode_status_strict(v) {
        Ok(rec) => rec,
        Err(_) => ModeStatus::unknown(),
    }
}

/// The typed record of one `EM.GetStatus` reply. An absent or null
/// member is unknown, never a default value.
#[derive(Debug, PartialEq, Eq, Clone)]
pub struct MeterStatus {
    pub ct_state: Option<u32>,
    pub a_power: Option<Vec<u8>>,
    pub b_power: Option<Vec<u8>>,
    pub c_power: Option<Vec<u8>>,
    pub total_power: Option<Vec<u8>>,
}

/// Whether a payload decodes into `MeterStatus` as a whole: it is an
/// object and every known member present has the right type.
pub open spec fn meter_status_ok(m: JsonModel) -> bool {
    &&& m is Obj
    &&& u32_field_ok(m, key_ct_state())
    &&& num_field_ok(m, key_a_power())
    &&& num_field_ok(m, key_b_power())
    &&& num_field_ok(m, key_c_power())
    &&& num_field_ok(m, key_total_power())
}

/// How a decoded `MeterStatus` relates to the payload it came from:
/// member by member when the whole record decodes, all unknown
/// otherwise.
pub open spec fn meter_status_decoded(m: JsonModel, r: MeterStatus) -> bool {
    &&& r.ct_state == (if meter_status_ok(m) {
        u32_field(m, key_ct_state())
    } else {
        Option::<u32>::None
    })
    &&& opt_bytes(r.a_power) == (if meter_status_ok(m) {
        num_field(m, key_a_power())
    } else {
        Option::<Seq<u8>>::None
    })
    &&& opt_bytes(r.b_power) == (if meter_status_ok(m) {
        num_field(m, key_b_power())
    } else {
        Option::<Seq<u8>>::None
    })
    &&& opt_bytes(r.c_power) == (if meter_status_ok(m) {
        num_field(m, key_c_power())
    } else {
        Option::<Seq<u8>>::None
    })
    &&& opt_bytes(r.total_power) == (if meter_status_ok(m) {
        num_field(m, key_total_power())
    } else {
        Option::<Seq<u8>>::None
    })
}

/// Whether every member of the record is unknown.
pub open spec fn meter_status_unknown(r: MeterStatus) -> bool {
    &&& r.ct_state is None
    &&& r.a_power is None
    &&& r.b_power is None
    &&& r.c_power is None
    &&& r.total_power is None
}

impl MeterStatus {
    /// The record with every member unknown.
    pub fn unknown() -> (r: MeterStatus)
        ensures
            meter_status_unknown(r),
    {
        MeterStatus { ct_state: None, a_power: None, b_power: None, c_power: None, total_power: None }
    }
}

fn decode_meter_status_strict(v: &Json) -> (r: Result<MeterStatus, ()>)
    ensures
        r is Ok <==> meter_status_ok(json_model(*v)),
        (match r {
            Ok(rec) => meter_status_ok(json_model(*v)) && ({
                let m = json_model(*v);
                &&& rec.ct_state == u32_field(m, key_ct_state())
                &&& opt_bytes(rec.a_power) == num_field(m, key_a_power())
                &&& opt_bytes(rec.b_power) == num_field(m, key_b_power())
                &&& opt_bytes(rec.c_power) == num_field(m, key_c_power())
                &&& opt_bytes(rec.total_power) == num_field(m, key_total_power())
            }),
            Err(_) => true,
        }),
{
    match v {
        Json::Obj(_) => {},
        _ => {
            return Err(());
        },
    }
    let kk_ct_state = k_ct_state();
    let ct_state = match get_u32(v, &kk_ct_state) {
        Ok(o) => o,
        Err(_) => {
            return Err(());
        },
    };
    let kk_a_power = k_a_power();
    let a_power = match get_num(v, &kk_a_power) {
        Ok(o) => o,
        Err(_) => {
            return Err(());
        },
    };
    let kk_b_power = k_b_power();
    let b_power = match get_num(v, &kk_b_power) {
        Ok(o) => o,
        Err(_) => {
            return Err(());
        },
    };
    let kk_c_power = k_c_power();
    let c_power = match get_num(v, &kk_c_power) {
        Ok(o) => o,
        Err(_) => {
            return Err(());
        },
    };
    let kk_total_power = k_total_power();
    let total_power = match get_num(v, &kk_total_power) {
        Ok(o) => o,
        Err(_) => {
            return Err(());
        },
    };
    Ok(MeterStatus { ct_state, a_power, b_power, c_power, total_power })
}

/// Decodes one `EM.GetStatus` payload, substituting the all-unknown
/// record when the payload does not fit the record's shape.
pub fn decode_meter_status(v: &Json) -> (r: MeterStatus)
    ensures
        meter_status_decoded(json_model(*v), r),
{
    match decode_meter_status_strict(v) {
        Ok(rec) => rec,
        Err(_) => MeterStatus::unknown(),
    }
}

/// The typed record of one `Wifi.GetStatus` reply. An absent or null
/// member is unknown, never a default value.
#[derive(Debug, PartialEq, Eq, Clone)]
pub struct WifiStatus {
    pub ssid: Option<Vec<u8>>,
    pub rssi: Option<i32>,
    pub sta_ip: Option<Vec<u8>>,
}

/// Whether a payload decodes into `WifiStatus` as a whole: it is an
/// object and every known member present has the right type.
pub open spec fn wifi_status_ok(m: JsonModel) -> bool {
    &&& m is Obj
    &&& str_field_ok(m, key_ssid())
    &&& i32_field_ok(m, key_rssi())
    &&& str_field_ok(m, key_sta_ip())
}

/// How a decoded `WifiStatus` relates to the payload it came from:
/// member by member when the whole record decodes, all unknown
/// otherwise.
pub open spec fn wifi_status_decoded(m: JsonModel, r: WifiStatus) -> bool {
    &&& opt_bytes(r.ssid) == (if wifi_status_ok(m) {
        str_field(m, key_ssid())
    } else {
        Option::<Seq<u8>>::None
    })
    &&& r.rssi == (if wifi_status_ok(m) {
        i32_field(m, key_rssi())
    } else {
        Option::<i32>::None
    })
    &&& opt_bytes(r.sta_ip) == (if wifi_status_ok(m) {
        str_field(m, key_sta_ip())
    } else {
        Option::<Seq<u8>>::None
    })
}

/// Whether every member of the record is unknown.
pub open spec fn wifi_status_unknown(r: WifiStatus) -> bool {
    &&& r.ssid is None
    &&& r.rssi is None
    &&& r.sta_ip is None
}

impl WifiStatus {
    /// The record with every member unknown.
    pub fn unknown() -> (r: WifiStatus)
        ensures
            wifi_status_unknown(r),
    {
        WifiStatus { ssid: None, rssi: None, sta_ip: None }
    }
}

fn decode_wifi_status_strict(v: &Json) -> (r: Result<WifiStatus, ()>)
    ensures
        r is Ok <==> wifi_status_ok(json_model(*v)),
        (match r {
            Ok(rec) => wifi_status_ok(json_model(*v)) && ({
                let m = json_model(*v);
                &&& opt_bytes(rec.ssid) == str_field(m, key_ssid())
                &&& rec.rssi == i32_field(m, key_rssi())
                &&& opt_bytes(rec.sta_ip) == str_field(m, key_sta_ip())
            }),
            Err(_) => true,
        }),
{
    match v {
        Json::Obj(_) => {},
        _ => {
            return Err(());
        },
    }
    let kk_ssid = k_ssid();
    let ssid = match get_str(v, &kk_ssid) {
        Ok(o) => o,
        Err(_) => {
            return Err(());
        },
    };
    let kk_rssi = k_rssi();
    let rssi = match get_i32(v, &kk_rssi) {
        Ok(o) => o,
        Err(_) => {
            return Err(());
        },
    };
    let kk_sta_ip = k_sta_ip();
    let sta_ip = match get_str(v, &kk_sta_ip) {
        Ok(o) => o,
        Err(_) => {
            return Err(());
        },
    };
    Ok(WifiStatus { ssid, rssi, sta_ip })
}

/// Decodes one `Wifi.GetStatus` payload, substituting the all-unknown
/// record when the payload does not fit the record's shape.
pub fn decode_wifi_status(v: &Json) -> (r: WifiStatus)
    ensures
        wifi_status_decoded(json_model(*v), r),
{
    match decode_wifi_status_strict(v) {
        Ok(rec) => rec,
        Err(_) => WifiStatus::unknown(),
    }
}


// ---------------------------------------------------------------------------
// Aggregation
// ---------------------------------------------------------------------------

/// The finished snapshot: the six records and the local time of assembly,
/// built fresh on every aggregation.
#[derive(Debug, PartialEq, Eq, Clone)]
pub struct DashboardData {
    pub device: DeviceInfo,
    pub battery: BatteryStatus,
    pub energy: EnergyStatus,
    pub mode: ModeStatus,
    pub meter: MeterStatus,
    pub wifi: WifiStatus,
    pub timestamp: String,
}

/// The method of the dashboard query at `step` (0 through 5): device
/// identity, energy, battery, wifi, mode, meter, strictly in this order.
pub open spec fn spec_query_method(step: int) -> Seq<u8> {
    if step == 0 {
        method_get_device()
    } else if step == 1 {
        method_es_get_status()
    } else if step == 2 {
        method_bat_get_status()
    } else if step == 3 {
        method_wifi_get_status()
    } else if step == 4 {
        method_es_get_mode()
    } else {
        method_em_get_status()
    }
}

/// The parameter value of the dashboard query at `step`: `{"ble_mac":"0"}`
/// for the device-identity query, `{"id":0}` for the rest.
pub open spec fn spec_query_params(step: int) -> JsonModel {
    if step == 0 {
        spec_ble_mac_params()
    } else {
        JsonModel::Obj(seq![(key_id(), JsonModel::Int(0))])
    }
}

/// One dashboard aggregation in progress: which query comes next, and the
/// sections decoded so far.
pub struct DashboardBuilder {
    pub step: u8,
    pub device: DeviceInfo,
    pub energy: EnergyStatus,
    pub battery: BatteryStatus,
    pub wifi: WifiStatus,
    pub mode: ModeStatus,
    pub meter: MeterStatus,
}

impl DashboardBuilder {
    /// Begins an aggregation against the selected device; a configuration
    /// error when none has been selected, before any network attempt.
    pub fn new(store: &DeviceStore) -> (r: Result<(Vec<u8>, u16, DashboardBuilder), Error>)
        ensures
            match store.host {
                None => r matches Err(e) && e is Configuration,
                Some(h) => r matches Ok((hh, p, b)) && hh@ == h@ && p == store.port && b.step == 0
                    && device_info_unknown(b.device) && energy_status_unknown(b.energy)
                    && battery_status_unknown(b.battery) && wifi_status_unknown(b.wifi)
                    && mode_status_unknown(b.mode) && meter_status_unknown(b.meter),
            },
    {
        let (host, port) = match store.require_target() {
            Ok(t) => t,
            Err(e) => {
                return Err(e);
            },
        };
        Ok(
            (
                host,
                port,
                DashboardBuilder {
                    step: 0,
                    device: DeviceInfo::unknown(),
                    energy: EnergyStatus::unknown(),
                    battery: BatteryStatus::unknown(),
                    wifi: WifiStatus::unknown(),
                    mode: ModeStatus::unknown(),
                    meter: MeterStatus::unknown(),
                },
            ),
        )
    }

    /// The request bytes of the next query; nothing once all six are done.
    pub fn next_request(&self) -> (r: Option<Vec<u8>>)
        ensures
            self.step >= 6 ==> r is None,
            self.step < 6 ==> (r matches Some(b) && b@ == spec_request_bytes(
                spec_query_method(self.step as int),
                spec_query_params(self.step as int),
            )),
    {
        if self.step >= 6 {
            return None;
        }
        let params: Json = if self.step == 0 {
            ble_mac_params()
        } else {
            let mut pairs: Vec<(Vec<u8>, Json)> = Vec::new();
            pairs.push((k_id(), Json::Int(0)));
            proof {
                assert(json_pair_models(pairs@) =~= seq![(key_id(), JsonModel::Int(0))]);
            }
            Json::Obj(pairs)
        };
        let m: Vec<u8> = if self.step == 0 {
            m_get_device()
        } else if self.step == 1 {
            m_es_get_status()
        } else if self.step == 2 {
            m_bat_get_status()
        } else if self.step == 3 {
            m_wifi_get_status()
        } else if self.step == 4 {
            m_es_get_mode()
        } else {
            m_em_get_status()
        };
        Some(encode_request(&m, params))
    }

    /// Takes the outcome of the current query. A transport or envelope
    /// failure aborts the aggregation, handing the failure back with
    /// nothing changed; a successful exchange decodes into the section of
    /// the current step only, unknown-valued when the payload does not fit
    /// its record, and moves on to the next query.
    pub fn apply_reply(&mut self, reply: Result<Json, Error>) -> (r: Result<(), Error>)
        requires
            old(self).step < 6,
        ensures
            match reply {
                Err(e) => r matches Err(e2) && e2 == e && *final(self) == *old(self),
                Ok(v) => r is Ok && final(self).step == old(self).step + 1 && (old(self).step == 0
                    ==> device_info_decoded(json_model(v), final(self).device)) && (old(self).step
                    != 0 ==> final(self).device == old(self).device) && (old(self).step == 1
                    ==> energy_status_decoded(json_model(v), final(self).energy)) && (old(
                    self,
                ).step != 1 ==> final(self).energy == old(self).energy) && (old(self).step == 2
                    ==> battery_status_decoded(json_model(v), final(self).battery)) && (old(
                    self,
                ).step != 2 ==> final(self).battery == old(self).battery) && (old(self).step == 3
                    ==> wifi_status_decoded(json_model(v), final(self).wifi)) && (old(self).step
                    != 3 ==> final(self).wifi == old(self).wifi) && (old(self).step == 4
                    ==> mode_status_decoded(json_model(v), final(self).mode)) && (old(self).step
                    != 4 ==> final(self).mode == old(self).mode) && (old(self).step == 5
                    ==> meter_status_decoded(json_model(v), final(self).meter)) && (old(self).step
                    != 5 ==> final(self).meter == old(self).meter),
            },
    {
        match reply {
            Err(e) => Err(e),
            Ok(v) => {
                if self.step == 0 {
                    self.device = decode_device_info(&v);
                } else if self.step == 1 {
                    self.energy = decode_energy_status(&v);
                } else if self.step == 2 {
                    self.battery = decode_battery_status(&v);
                } else if self.step == 3 {
                    self.wifi = decode_wifi_status(&v);
                } else if self.step == 4 {
                    self.mode = decode_mode_status(&v);
                } else {
                    self.meter = decode_meter_status(&v);
                }
                self.step = self.step + 1;
                Ok(())
            },
        }
    }

    /// Stamps and assembles the snapshot once all six queries are done.
    pub fn finish(self) -> (r: DashboardData)
        requires
            self.step >= 6,
        ensures
            r.device == self.device,
            r.battery == self.battery,
            r.energy == self.energy,
            r.mode == self.mode,
            r.meter == self.meter,
            r.wifi == self.wifi,
            r.timestamp@.len() == 8,
    {
        DashboardData {
            device: self.device,
            battery: self.battery,
            energy: self.energy,
            mode: self.mode,
            meter: self.meter,
            wifi: self.wifi,
            timestamp: local_time_hhmmss(),
        }
    }
}

/// Relies on chrono: `Local::now()` read once and formatted `%H:%M:%S`,
/// which is always eight characters, a zero-padded two-digit hour, minute
/// and second with colons between. Only the length is assumed here; the
/// time itself depends on the wall clock.
#[verifier::external_body]
fn local_time_hhmmss() -> (r: String)
    ensures
        r@.len() == 8,
{
    chrono::Local::now().format("%H:%M:%S").to_string()
}

} // verus!
