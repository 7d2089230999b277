//! The fixed byte strings of the wire protocol: member keys, method
//! names and mode names, each in a spec form and an executable form.

use vstd::prelude::*;

verus! {

/// The member key `id`.
pub open spec fn key_id() -> Seq<u8> {
    seq![0x69u8, 0x64u8]
}

pub(crate) fn k_id() -> (r: Vec<u8>)
    ensures
        r@ == key_id(),
{
    let v: Vec<u8> = vec![0x69u8, 0x64u8];
    assert(v@ =~= key_id());
    v
}

/// The member key `method`.
pub open spec fn key_method() -> Seq<u8> {
    seq![0x6du8, 0x65u8, 0x74u8, 0x68u8, 0x6fu8, 0x64u8]
}

pub(crate) fn k_method() -> (r: Vec<u8>)
    ensures
        r@ == key_method(),
{
    let v: Vec<u8> = vec![0x6du8, 0x65u8, 0x74u8, 0x68u8, 0x6fu8, 0x64u8];
    assert(v@ =~= key_method());
    v
}

/// The member key `params`.
pub open spec fn key_params() -> Seq<u8> {
    seq![0x70u8, 0x61u8, 0x72u8, 0x61u8, 0x6du8, 0x73u8]
}

pub(crate) fn k_params() -> (r: Vec<u8>)
    ensures
        r@ == key_params(),
{
    let v: Vec<u8> = vec![0x70u8, 0x61u8, 0x72u8, 0x61u8, 0x6du8, 0x73u8];
    assert(v@ =~= key_params());
    v
}

/// The member key `result`.
pub open spec fn key_result() -> Seq<u8> {
    seq![0x72u8, 0x65u8, 0x73u8, 0x75u8, 0x6cu8, 0x74u8]
}

pub(crate) fn k_result() -> (r: Vec<u8>)
    ensures
        r@ == key_result(),
{
    let v: Vec<u8> = vec![0x72u8, 0x65u8, 0x73u8, 0x75u8, 0x6cu8, 0x74u8];
    assert(v@ =~= key_result());
    v
}

/// The member key `config`.
pub open spec fn key_config() -> Seq<u8> {
    seq![0x63u8, 0x6fu8, 0x6eu8, 0x66u8, 0x69u8, 0x67u8]
}

pub(crate) fn k_config() -> (r: Vec<u8>)
    ensures
        r@ == key_config(),
{
    let v: Vec<u8> = vec![0x63u8, 0x6fu8, 0x6eu8, 0x66u8, 0x69u8, 0x67u8];
    assert(v@ =~= key_config());
    v
}

/// The member key `mode`.
pub open spec fn key_mode() -> Seq<u8> {
    seq![0x6du8, 0x6fu8, 0x64u8, 0x65u8]
}

pub(crate) fn k_mode() -> (r: Vec<u8>)
    ensures
        r@ == key_mode(),
{
    let v: Vec<u8> = vec![0x6du8, 0x6fu8, 0x64u8, 0x65u8];
    assert(v@ =~= key_mode());
    v
}

/// The member key `enable`.
pub open spec fn key_enable() -> Seq<u8> {
    seq![0x65u8, 0x6eu8, 0x61u8, 0x62u8, 0x6cu8, 0x65u8]
}

pub(crate) fn k_enable() -> (r: Vec<u8>)
    ensures
        r@ == key_enable(),
{
    let v: Vec<u8> = vec![0x65u8, 0x6eu8, 0x61u8, 0x62u8, 0x6cu8, 0x65u8];
    assert(v@ =~= key_enable());
    v
}

/// The member key `auto_cfg`.
pub open spec fn key_auto_cfg() -> Seq<u8> {
    seq![0x61u8, 0x75u8, 0x74u8, 0x6fu8, 0x5fu8, 0x63u8, 0x66u8, 0x67u8]
}

pub(crate) fn k_auto_cfg() -> (r: Vec<u8>)
    ensures
        r@ == key_auto_cfg(),
{
    let v: Vec<u8> = vec![0x61u8, 0x75u8, 0x74u8, 0x6fu8, 0x5fu8, 0x63u8, 0x66u8, 0x67u8];
    assert(v@ =~= key_auto_cfg());
    v
}

/// The member key `ai_cfg`.
pub open spec fn key_ai_cfg() -> Seq<u8> {
    seq![0x61u8, 0x69u8, 0x5fu8, 0x63u8, 0x66u8, 0x67u8]
}

pub(crate) fn k_ai_cfg() -> (r: Vec<u8>)
    ensures
        r@ == key_ai_cfg(),
{
    let v: Vec<u8> = vec![0x61u8, 0x69u8, 0x5fu8, 0x63u8, 0x66u8, 0x67u8];
    assert(v@ =~= key_ai_cfg());
    v
}

/// The member key `manual_cfg`.
pub open spec fn key_manual_cfg() -> Seq<u8> {
    seq![0x6du8, 0x61u8, 0x6eu8, 0x75u8, 0x61u8, 0x6cu8, 0x5fu8, 0x63u8, 0x66u8, 0x67u8]
}

pub(crate) fn k_manual_cfg() -> (r: Vec<u8>)
    ensures
        r@ == key_manual_cfg(),
{
    let v: Vec<u8> = vec![0x6du8, 0x61u8, 0x6eu8, 0x75u8, 0x61u8, 0x6cu8, 0x5fu8, 0x63u8, 0x66u8, 0x67u8];
    assert(v@ =~= key_manual_cfg());
    v
}

/// The member key `passive_cfg`.
pub open spec fn key_passive_cfg() -> Seq<u8> {
    seq![0x70u8, 0x61u8, 0x73u8, 0x73u8, 0x69u8, 0x76u8, 0x65u8, 0x5fu8, 0x63u8, 0x66u8, 0x67u8]
}

pub(crate) fn k_passive_cfg() -> (r: Vec<u8>)
    ensures
        r@ == key_passive_cfg(),
{
    let v: Vec<u8> = vec![0x70u8, 0x61u8, 0x73u8, 0x73u8, 0x69u8, 0x76u8, 0x65u8, 0x5fu8, 0x63u8, 0x66u8, 0x67u8];
    assert(v@ =~= key_passive_cfg());
    v
}

/// The member key `set_result`.
pub open spec fn key_set_result() -> Seq<u8> {
    seq![0x73u8, 0x65u8, 0x74u8, 0x5fu8, 0x72u8, 0x65u8, 0x73u8, 0x75u8, 0x6cu8, 0x74u8]
}

pub(crate) fn k_set_result() -> (r: Vec<u8>)
    ensures
        r@ == key_set_result(),
{
    let v: Vec<u8> = vec![0x73u8, 0x65u8, 0x74u8, 0x5fu8, 0x72u8, 0x65u8, 0x73u8, 0x75u8, 0x6cu8, 0x74u8];
    assert(v@ =~= key_set_result());
    v
}

/// The member key `ble_mac`.
pub open spec fn key_ble_mac() -> Seq<u8> {
    seq![0x62u8, 0x6cu8, 0x65u8, 0x5fu8, 0x6du8, 0x61u8, 0x63u8]
}

pub(crate) fn k_ble_mac() -> (r: Vec<u8>)
    ensures
        r@ == key_ble_mac(),
{
    let v: Vec<u8> = vec![0x62u8, 0x6cu8, 0x65u8, 0x5fu8, 0x6du8, 0x61u8, 0x63u8];
    assert(v@ =~= key_ble_mac());
    v
}

/// The member key `device`.
pub open spec fn key_device() -> Seq<u8> {
    seq![0x64u8, 0x65u8, 0x76u8, 0x69u8, 0x63u8, 0x65u8]
}

pub(crate) fn k_device() -> (r: Vec<u8>)
    ensures
        r@ == key_device(),
{
    let v: Vec<u8> = vec![0x64u8, 0x65u8, 0x76u8, 0x69u8, 0x63u8, 0x65u8];
    assert(v@ =~= key_device());
    v
}

/// The member key `ver`.
pub open spec fn key_ver() -> Seq<u8> {
    seq![0x76u8, 0x65u8, 0x72u8]
}

pub(crate) fn k_ver() -> (r: Vec<u8>)
    ensures
        r@ == key_ver(),
{
    let v: Vec<u8> = vec![0x76u8, 0x65u8, 0x72u8];
    assert(v@ =~= key_ver());
    v
}

/// The member key `wifi_mac`.
pub open spec fn key_wifi_mac() -> Seq<u8> {
    seq![0x77u8, 0x69u8, 0x66u8, 0x69u8, 0x5fu8, 0x6du8, 0x61u8, 0x63u8]
}

pub(crate) fn k_wifi_mac() -> (r: Vec<u8>)
    ensures
        r@ == key_wifi_mac(),
{
    let v: Vec<u8> = vec![0x77u8, 0x69u8, 0x66u8, 0x69u8, 0x5fu8, 0x6du8, 0x61u8, 0x63u8];
    assert(v@ =~= key_wifi_mac());
    v
}

/// The member key `wifi_name`.
pub open spec fn key_wifi_name() -> Seq<u8> {
    seq![0x77u8, 0x69u8, 0x66u8, 0x69u8, 0x5fu8, 0x6eu8, 0x61u8, 0x6du8, 0x65u8]
}

pub(crate) fn k_wifi_name() -> (r: Vec<u8>)
    ensures
        r@ == key_wifi_name(),
{
    let v: Vec<u8> = vec![0x77u8, 0x69u8, 0x66u8, 0x69u8, 0x5fu8, 0x6eu8, 0x61u8, 0x6du8, 0x65u8];
    assert(v@ =~= key_wifi_name());
    v
}

/// The member key `ip`.
pub open spec fn key_ip() -> Seq<u8> {
    seq![0x69u8, 0x70u8]
}

pub(crate) fn k_ip() -> (r: Vec<u8>)
    ensures
        r@ == key_ip(),
{
    let v: Vec<u8> = vec![0x69u8, 0x70u8];
    assert(v@ =~= key_ip());
    v
}

/// The member key `soc`.
pub open spec fn key_soc() -> Seq<u8> {
    seq![0x73u8, 0x6fu8, 0x63u8]
}

pub(crate) fn k_soc() -> (r: Vec<u8>)
    ensures
        r@ == key_soc(),
{
    let v: Vec<u8> = vec![0x73u8, 0x6fu8, 0x63u8];
    assert(v@ =~= key_soc());
    v
}

/// The member key `charg_flag`.
pub open spec fn key_charg_flag() -> Seq<u8> {
    seq![0x63u8, 0x68u8, 0x61u8, 0x72u8, 0x67u8, 0x5fu8, 0x66u8, 0x6cu8, 0x61u8, 0x67u8]
}

pub(crate) fn k_charg_flag() -> (r: Vec<u8>)
    ensures
        r@ == key_charg_flag(),
{
    let v: Vec<u8> = vec![0x63u8, 0x68u8, 0x61u8, 0x72u8, 0x67u8, 0x5fu8, 0x66u8, 0x6cu8, 0x61u8, 0x67u8];
    assert(v@ =~= key_charg_flag());
    v
}

/// The member key `dischrg_flag`.
pub open spec fn key_dischrg_flag() -> Seq<u8> {
    seq![0x64u8, 0x69u8, 0x73u8, 0x63u8, 0x68u8, 0x72u8, 0x67u8, 0x5fu8, 0x66u8, 0x6cu8, 0x61u8, 0x67u8]
}

pub(crate) fn k_dischrg_flag() -> (r: Vec<u8>)
    ensures
        r@ == key_dischrg_flag(),
{
    let v: Vec<u8> = vec![0x64u8, 0x69u8, 0x73u8, 0x63u8, 0x68u8, 0x72u8, 0x67u8, 0x5fu8, 0x66u8, 0x6cu8, 0x61u8, 0x67u8];
    assert(v@ =~= key_dischrg_flag());
    v
}

/// The member key `bat_temp`.
pub open spec fn key_bat_temp() -> Seq<u8> {
    seq![0x62u8, 0x61u8, 0x74u8, 0x5fu8, 0x74u8, 0x65u8, 0x6du8, 0x70u8]
}

pub(crate) fn k_bat_temp() -> (r: Vec<u8>)
    ensures
        r@ == key_bat_temp(),
{
    let v: Vec<u8> = vec![0x62u8, 0x61u8, 0x74u8, 0x5fu8, 0x74u8, 0x65u8, 0x6du8, 0x70u8];
    assert(v@ =~= key_bat_temp());
    v
}

/// The member key `bat_capacity`.
pub open spec fn key_bat_capacity() -> Seq<u8> {
    seq![0x62u8, 0x61u8, 0x74u8, 0x5fu8, 0x63u8, 0x61u8, 0x70u8, 0x61u8, 0x63u8, 0x69u8, 0x74u8, 0x79u8]
}

pub(crate) fn k_bat_capacity() -> (r: Vec<u8>)
    ensures
        r@ == key_bat_capacity(),
{
    let v: Vec<u8> = vec![0x62u8, 0x61u8, 0x74u8, 0x5fu8, 0x63u8, 0x61u8, 0x70u8, 0x61u8, 0x63u8, 0x69u8, 0x74u8, 0x79u8];
    assert(v@ =~= key_bat_capacity());
    v
}

/// The member key `rated_capacity`.
pub open spec fn key_rated_capacity() -> Seq<u8> {
    seq![0x72u8, 0x61u8, 0x74u8, 0x65u8, 0x64u8, 0x5fu8, 0x63u8, 0x61u8, 0x70u8, 0x61u8, 0x63u8, 0x69u8, 0x74u8, 0x79u8]
}

pub(crate) fn k_rated_capacity() -> (r: Vec<u8>)
    ensures
        r@ == key_rated_capacity(),
{
    let v: Vec<u8> = vec![0x72u8, 0x61u8, 0x74u8, 0x65u8, 0x64u8, 0x5fu8, 0x63u8, 0x61u8, 0x70u8, 0x61u8, 0x63u8, 0x69u8, 0x74u8, 0x79u8];
    assert(v@ =~= key_rated_capacity());
    v
}

/// The member key `bat_soc`.
pub open spec fn key_bat_soc() -> Seq<u8> {
    seq![0x62u8, 0x61u8, 0x74u8, 0x5fu8, 0x73u8, 0x6fu8, 0x63u8]
}

pub(crate) fn k_bat_soc() -> (r: Vec<u8>)
    ensures
        r@ == key_bat_soc(),
{
    let v: Vec<u8> = vec![0x62u8, 0x61u8, 0x74u8, 0x5fu8, 0x73u8, 0x6fu8, 0x63u8];
    assert(v@ =~= key_bat_soc());
    v
}

/// The member key `bat_cap`.
pub open spec fn key_bat_cap() -> Seq<u8> {
    seq![0x62u8, 0x61u8, 0x74u8, 0x5fu8, 0x63u8, 0x61u8, 0x70u8]
}

pub(crate) fn k_bat_cap() -> (r: Vec<u8>)
    ensures
        r@ == key_bat_cap(),
{
    let v: Vec<u8> = vec![0x62u8, 0x61u8, 0x74u8, 0x5fu8, 0x63u8, 0x61u8, 0x70u8];
    assert(v@ =~= key_bat_cap());
    v
}

/// The member key `pv_power`.
pub open spec fn key_pv_power() -> Seq<u8> {
    seq![0x70u8, 0x76u8, 0x5fu8, 0x70u8, 0x6fu8, 0x77u8, 0x65u8, 0x72u8]
}

pub(crate) fn k_pv_power() -> (r: Vec<u8>)
    ensures
        r@ == key_pv_power(),
{
    let v: Vec<u8> = vec![0x70u8, 0x76u8, 0x5fu8, 0x70u8, 0x6fu8, 0x77u8, 0x65u8, 0x72u8];
    assert(v@ =~= key_pv_power());
    v
}

/// The member key `ongrid_power`.
pub open spec fn key_ongrid_power() -> Seq<u8> {
    seq![0x6fu8, 0x6eu8, 0x67u8, 0x72u8, 0x69u8, 0x64u8, 0x5fu8, 0x70u8, 0x6fu8, 0x77u8, 0x65u8, 0x72u8]
}

pub(crate) fn k_ongrid_power() -> (r: Vec<u8>)
    ensures
        r@ == key_ongrid_power(),
{
    let v: Vec<u8> = vec![0x6fu8, 0x6eu8, 0x67u8, 0x72u8, 0x69u8, 0x64u8, 0x5fu8, 0x70u8, 0x6fu8, 0x77u8, 0x65u8, 0x72u8];
    assert(v@ =~= key_ongrid_power());
    v
}

/// The member key `offgrid_power`.
pub open spec fn key_offgrid_power() -> Seq<u8> {
    seq![0x6fu8, 0x66u8, 0x66u8, 0x67u8, 0x72u8, 0x69u8, 0x64u8, 0x5fu8, 0x70u8, 0x6fu8, 0x77u8, 0x65u8, 0x72u8]
}

pub(crate) fn k_offgrid_power() -> (r: Vec<u8>)
    ensures
        r@ == key_offgrid_power(),
{
    let v: Vec<u8> = vec![0x6fu8, 0x66u8, 0x66u8, 0x67u8, 0x72u8, 0x69u8, 0x64u8, 0x5fu8, 0x70u8, 0x6fu8, 0x77u8, 0x65u8, 0x72u8];
    assert(v@ =~= key_offgrid_power());
    v
}

/// The member key `bat_power`.
pub open spec fn key_bat_power() -> Seq<u8> {
    seq![0x62u8, 0x61u8, 0x74u8, 0x5fu8, 0x70u8, 0x6fu8, 0x77u8, 0x65u8, 0x72u8]
}

pub(crate) fn k_bat_power() -> (r: Vec<u8>)
    ensures
        r@ == key_bat_power(),
{
    let v: Vec<u8> = vec![0x62u8, 0x61u8, 0x74u8, 0x5fu8, 0x70u8, 0x6fu8, 0x77u8, 0x65u8, 0x72u8];
    assert(v@ =~= key_bat_power());
    v
}

/// The member key `total_pv_energy`.
pub open spec fn key_total_pv_energy() -> Seq<u8> {
    seq![0x74u8, 0x6fu8, 0x74u8, 0x61u8, 0x6cu8, 0x5fu8, 0x70u8, 0x76u8, 0x5fu8, 0x65u8, 0x6eu8, 0x65u8, 0x72u8, 0x67u8, 0x79u8]
}

pub(crate) fn k_total_pv_energy() -> (r: Vec<u8>)
    ensures
        r@ == key_total_pv_energy(),
{
    let v: Vec<u8> = vec![0x74u8, 0x6fu8, 0x74u8, 0x61u8, 0x6cu8, 0x5fu8, 0x70u8, 0x76u8, 0x5fu8, 0x65u8, 0x6eu8, 0x65u8, 0x72u8, 0x67u8, 0x79u8];
    assert(v@ =~= key_total_pv_energy());
    v
}

/// The member key `total_grid_output_energy`.
pub open spec fn key_total_grid_output_energy() -> Seq<u8> {
    seq![0x74u8, 0x6fu8, 0x74u8, 0x61u8, 0x6cu8, 0x5fu8, 0x67u8, 0x72u8, 0x69u8, 0x64u8, 0x5fu8, 0x6fu8, 0x75u8, 0x74u8, 0x70u8, 0x75u8, 0x74u8, 0x5fu8, 0x65u8, 0x6eu8, 0x65u8, 0x72u8, 0x67u8, 0x79u8]
}

pub(crate) fn k_total_grid_output_energy() -> (r: Vec<u8>)
    ensures
        r@ == key_total_grid_output_energy(),
{
    let v: Vec<u8> = vec![0x74u8, 0x6fu8, 0x74u8, 0x61u8, 0x6cu8, 0x5fu8, 0x67u8, 0x72u8, 0x69u8, 0x64u8, 0x5fu8, 0x6fu8, 0x75u8, 0x74u8, 0x70u8, 0x75u8, 0x74u8, 0x5fu8, 0x65u8, 0x6eu8, 0x65u8, 0x72u8, 0x67u8, 0x79u8];
    assert(v@ =~= key_total_grid_output_energy());
    v
}

/// The member key `total_grid_input_energy`.
pub open spec fn key_total_grid_input_energy() -> Seq<u8> {
    seq![0x74u8, 0x6fu8, 0x74u8, 0x61u8, 0x6cu8, 0x5fu8, 0x67u8, 0x72u8, 0x69u8, 0x64u8, 0x5fu8, 0x69u8, 0x6eu8, 0x70u8, 0x75u8, 0x74u8, 0x5fu8, 0x65u8, 0x6eu8, 0x65u8, 0x72u8, 0x67u8, 0x79u8]
}

pub(crate) fn k_total_grid_input_energy() -> (r: Vec<u8>)
    ensures
        r@ == key_total_grid_input_energy(),
{
    let v: Vec<u8> = vec![0x74u8, 0x6fu8, 0x74u8, 0x61u8, 0x6cu8, 0x5fu8, 0x67u8, 0x72u8, 0x69u8, 0x64u8, 0x5fu8, 0x69u8, 0x6eu8, 0x70u8, 0x75u8, 0x74u8, 0x5fu8, 0x65u8, 0x6eu8, 0x65u8, 0x72u8, 0x67u8, 0x79u8];
    assert(v@ =~= key_total_grid_input_energy());
    v
}

/// The member key `total_load_energy`.
pub open spec fn key_total_load_energy() -> Seq<u8> {
    seq![0x74u8, 0x6fu8, 0x74u8, 0x61u8, 0x6cu8, 0x5fu8, 0x6cu8, 0x6fu8, 0x61u8, 0x64u8, 0x5fu8, 0x65u8, 0x6eu8, 0x65u8, 0x72u8, 0x67u8, 0x79u8]
}

pub(crate) fn k_total_load_energy() -> (r: Vec<u8>)
    ensures
        r@ == key_total_load_energy(),
{
    let v: Vec<u8> = vec![0x74u8, 0x6fu8, 0x74u8, 0x61u8, 0x6cu8, 0x5fu8, 0x6cu8, 0x6fu8, 0x61u8, 0x64u8, 0x5fu8, 0x65u8, 0x6eu8, 0x65u8, 0x72u8, 0x67u8, 0x79u8];
    assert(v@ =~= key_total_load_energy());
    v
}

/// The member key `ct_state`.
pub open spec fn key_ct_state() -> Seq<u8> {
    seq![0x63u8, 0x74u8, 0x5fu8, 0x73u8, 0x74u8, 0x61u8, 0x74u8, 0x65u8]
}

pub(crate) fn k_ct_state() -> (r: Vec<u8>)
    ensures
        r@ == key_ct_state(),
{
    let v: Vec<u8> = vec![0x63u8, 0x74u8, 0x5fu8, 0x73u8, 0x74u8, 0x61u8, 0x74u8, 0x65u8];
    assert(v@ =~= key_ct_state());
    v
}

/// The member key `a_power`.
pub open spec fn key_a_power() -> Seq<u8> {
    seq![0x61u8, 0x5fu8, 0x70u8, 0x6fu8, 0x77u8, 0x65u8, 0x72u8]
}

pub(crate) fn k_a_power() -> (r: Vec<u8>)
    ensures
        r@ == key_a_power(),
{
    let v: Vec<u8> = vec![0x61u8, 0x5fu8, 0x70u8, 0x6fu8, 0x77u8, 0x65u8, 0x72u8];
    assert(v@ =~= key_a_power());
    v
}

/// The member key `b_power`.
pub open spec fn key_b_power() -> Seq<u8> {
    seq![0x62u8, 0x5fu8, 0x70u8, 0x6fu8, 0x77u8, 0x65u8, 0x72u8]
}

pub(crate) fn k_b_power() -> (r: Vec<u8>)
    ensures
        r@ == key_b_power(),
{
    let v: Vec<u8> = vec![0x62u8, 0x5fu8, 0x70u8, 0x6fu8, 0x77u8, 0x65u8, 0x72u8];
    assert(v@ =~= key_b_power());
    v
}

/// The member key `c_power`.
pub open spec fn key_c_power() -> Seq<u8> {
    seq![0x63u8, 0x5fu8, 0x70u8, 0x6fu8, 0x77u8, 0x65u8, 0x72u8]
}

pub(crate) fn k_c_power() -> (r: Vec<u8>)
    ensures
        r@ == key_c_power(),
{
    let v: Vec<u8> = vec![0x63u8, 0x5fu8, 0x70u8, 0x6fu8, 0x77u8, 0x65u8, 0x72u8];
    assert(v@ =~= key_c_power());
    v
}

/// The member key `total_power`.
pub open spec fn key_total_power() -> Seq<u8> {
    seq![0x74u8, 0x6fu8, 0x74u8, 0x61u8, 0x6cu8, 0x5fu8, 0x70u8, 0x6fu8, 0x77u8, 0x65u8, 0x72u8]
}

pub(crate) fn k_total_power() -> (r: Vec<u8>)
    ensures
        r@ == key_total_power(),
{
    let v: Vec<u8> = vec![0x74u8, 0x6fu8, 0x74u8, 0x61u8, 0x6cu8, 0x5fu8, 0x70u8, 0x6fu8, 0x77u8, 0x65u8, 0x72u8];
    assert(v@ =~= key_total_power());
    v
}

/// The member key `ssid`.
pub open spec fn key_ssid() -> Seq<u8> {
    seq![0x73u8, 0x73u8, 0x69u8, 0x64u8]
}

pub(crate) fn k_ssid() -> (r: Vec<u8>)
    ensures
        r@ == key_ssid(),
{
    let v: Vec<u8> = vec![0x73u8, 0x73u8, 0x69u8, 0x64u8];
    assert(v@ =~= key_ssid());
    v
}

/// The member key `rssi`.
pub open spec fn key_rssi() -> Seq<u8> {
    seq![0x72u8, 0x73u8, 0x73u8, 0x69u8]
}

pub(crate) fn k_rssi() -> (r: Vec<u8>)
    ensures
        r@ == key_rssi(),
{
    let v: Vec<u8> = vec![0x72u8, 0x73u8, 0x73u8, 0x69u8];
    assert(v@ =~= key_rssi());
    v
}

/// The member key `sta_ip`.
pub open spec fn key_sta_ip() -> Seq<u8> {
    seq![0x73u8, 0x74u8, 0x61u8, 0x5fu8, 0x69u8, 0x70u8]
}

pub(crate) fn k_sta_ip() -> (r: Vec<u8>)
    ensures
        r@ == key_sta_ip(),
{
    let v: Vec<u8> = vec![0x73u8, 0x74u8, 0x61u8, 0x5fu8, 0x69u8, 0x70u8];
    assert(v@ =~= key_sta_ip());
    v
}

/// The value text `Auto`.
pub open spec fn val_auto() -> Seq<u8> {
    seq![0x41u8, 0x75u8, 0x74u8, 0x6fu8]
}

pub(crate) fn v_auto() -> (r: Vec<u8>)
    ensures
        r@ == val_auto(),
{
    let v: Vec<u8> = vec![0x41u8, 0x75u8, 0x74u8, 0x6fu8];
    assert(v@ =~= val_auto());
    v
}

/// The value text `AI`.
pub open spec fn val_ai() -> Seq<u8> {
    seq![0x41u8, 0x49u8]
}

pub(crate) fn v_ai() -> (r: Vec<u8>)
    ensures
        r@ == val_ai(),
{
    let v: Vec<u8> = vec![0x41u8, 0x49u8];
    assert(v@ =~= val_ai());
    v
}

/// The value text `Manual`.
pub open spec fn val_manual() -> Seq<u8> {
    seq![0x4du8, 0x61u8, 0x6eu8, 0x75u8, 0x61u8, 0x6cu8]
}

pub(crate) fn v_manual() -> (r: Vec<u8>)
    ensures
        r@ == val_manual(),
{
    let v: Vec<u8> = vec![0x4du8, 0x61u8, 0x6eu8, 0x75u8, 0x61u8, 0x6cu8];
    assert(v@ =~= val_manual());
    v
}

/// The value text `Passive`.
pub open spec fn val_passive() -> Seq<u8> {
    seq![0x50u8, 0x61u8, 0x73u8, 0x73u8, 0x69u8, 0x76u8, 0x65u8]
}

pub(crate) fn v_passive() -> (r: Vec<u8>)
    ensures
        r@ == val_passive(),
{
    let v: Vec<u8> = vec![0x50u8, 0x61u8, 0x73u8, 0x73u8, 0x69u8, 0x76u8, 0x65u8];
    assert(v@ =~= val_passive());
    v
}

/// The value text `0`.
pub open spec fn val_zero_text() -> Seq<u8> {
    seq![0x30u8]
}

pub(crate) fn v_zero_text() -> (r: Vec<u8>)
    ensures
        r@ == val_zero_text(),
{
    let v: Vec<u8> = vec![0x30u8];
    assert(v@ =~= val_zero_text());
    v
}

/// The method name `Marstek.GetDevice`.
pub open spec fn method_get_device() -> Seq<u8> {
    seq![0x4du8, 0x61u8, 0x72u8, 0x73u8, 0x74u8, 0x65u8, 0x6bu8, 0x2eu8, 0x47u8, 0x65u8, 0x74u8, 0x44u8, 0x65u8, 0x76u8, 0x69u8, 0x63u8, 0x65u8]
}

pub(crate) fn m_get_device() -> (r: Vec<u8>)
    ensures
        r@ == method_get_device(),
{
    let v: Vec<u8> = vec![0x4du8, 0x61u8, 0x72u8, 0x73u8, 0x74u8, 0x65u8, 0x6bu8, 0x2eu8, 0x47u8, 0x65u8, 0x74u8, 0x44u8, 0x65u8, 0x76u8, 0x69u8, 0x63u8, 0x65u8];
    assert(v@ =~= method_get_device());
    v
}

/// The method name `ES.GetStatus`.
pub open spec fn method_es_get_status() -> Seq<u8> {
    seq![0x45u8, 0x53u8, 0x2eu8, 0x47u8, 0x65u8, 0x74u8, 0x53u8, 0x74u8, 0x61u8, 0x74u8, 0x75u8, 0x73u8]
}

pub(crate) fn m_es_get_status() -> (r: Vec<u8>)
    ensures
        r@ == method_es_get_status(),
{
    let v: Vec<u8> = vec![0x45u8, 0x53u8, 0x2eu8, 0x47u8, 0x65u8, 0x74u8, 0x53u8, 0x74u8, 0x61u8, 0x74u8, 0x75u8, 0x73u8];
    assert(v@ =~= method_es_get_status());
    v
}

/// The method name `Bat.GetStatus`.
pub open spec fn method_bat_get_status() -> Seq<u8> {
    seq![0x42u8, 0x61u8, 0x74u8, 0x2eu8, 0x47u8, 0x65u8, 0x74u8, 0x53u8, 0x74u8, 0x61u8, 0x74u8, 0x75u8, 0x73u8]
}

pub(crate) fn m_bat_get_status() -> (r: Vec<u8>)
    ensures
        r@ == method_bat_get_status(),
{
    let v: Vec<u8> = vec![0x42u8, 0x61u8, 0x74u8, 0x2eu8, 0x47u8, 0x65u8, 0x74u8, 0x53u8, 0x74u8, 0x61u8, 0x74u8, 0x75u8, 0x73u8];
    assert(v@ =~= method_bat_get_status());
    v
}

/// The method name `Wifi.GetStatus`.
pub open spec fn method_wifi_get_status() -> Seq<u8> {
    seq![0x57u8, 0x69u8, 0x66u8, 0x69u8, 0x2eu8, 0x47u8, 0x65u8, 0x74u8, 0x53u8, 0x74u8, 0x61u8, 0x74u8, 0x75u8, 0x73u8]
}

pub(crate) fn m_wifi_get_status() -> (r: Vec<u8>)
    ensures
        r@ == method_wifi_get_status(),
{
    let v: Vec<u8> = vec![0x57u8, 0x69u8, 0x66u8, 0x69u8, 0x2eu8, 0x47u8, 0x65u8, 0x74u8, 0x53u8, 0x74u8, 0x61u8, 0x74u8, 0x75u8, 0x73u8];
    assert(v@ =~= method_wifi_get_status());
    v
}

/// The method name `ES.GetMode`.
pub open spec fn method_es_get_mode() -> Seq<u8> {
    seq![0x45u8, 0x53u8, 0x2eu8, 0x47u8, 0x65u8, 0x74u8, 0x4du8, 0x6fu8, 0x64u8, 0x65u8]
}

pub(crate) fn m_es_get_mode() -> (r: Vec<u8>)
    ensures
        r@ == method_es_get_mode(),
{
    let v: Vec<u8> = vec![0x45u8, 0x53u8, 0x2eu8, 0x47u8, 0x65u8, 0x74u8, 0x4du8, 0x6fu8, 0x64u8, 0x65u8];
    assert(v@ =~= method_es_get_mode());
    v
}

/// The method name `EM.GetStatus`.
pub open spec fn method_em_get_status() -> Seq<u8> {
    seq![0x45u8, 0x4du8, 0x2eu8, 0x47u8, 0x65u8, 0x74u8, 0x53u8, 0x74u8, 0x61u8, 0x74u8, 0x75u8, 0x73u8]
}

pub(crate) fn m_em_get_status() -> (r: Vec<u8>)
    ensures
        r@ == method_em_get_status(),
{
    let v: Vec<u8> = vec![0x45u8, 0x4du8, 0x2eu8, 0x47u8, 0x65u8, 0x74u8, 0x53u8, 0x74u8, 0x61u8, 0x74u8, 0x75u8, 0x73u8];
    assert(v@ =~= method_em_get_status());
    v
}

/// The method name `ES.SetMode`.
pub open spec fn method_es_set_mode() -> Seq<u8> {
    seq![0x45u8, 0x53u8, 0x2eu8, 0x53u8, 0x65u8, 0x74u8, 0x4du8, 0x6fu8, 0x64u8, 0x65u8]
}

pub(crate) fn m_es_set_mode() -> (r: Vec<u8>)
    ensures
        r@ == method_es_set_mode(),
{
    let v: Vec<u8> = vec![0x45u8, 0x53u8, 0x2eu8, 0x53u8, 0x65u8, 0x74u8, 0x4du8, 0x6fu8, 0x64u8, 0x65u8];
    assert(v@ =~= method_es_set_mode());
    v
}

} // verus!
