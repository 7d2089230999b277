//! Broadcast discovery: the fixed discovery request, and the collection of
//! replies deduplicated by source address. The hosting application owns
//! the broadcast socket; every datagram it receives is handed here, and a
//! receive timeout ends the scan.

use crate::json::{
    bytes_eq, copy_bytes, json_get, json_model, json_pair_models, parse_json, spec_field, spec_json,
    spec_ser, to_bytes, Json, JsonModel,
};
use crate::keys::{
    k_ble_mac, k_device, k_id, k_method, k_params, k_result, k_ver, key_ble_mac, key_device, key_id, key_method,
    key_params, key_result, key_ver, m_get_device, method_get_device, v_zero_text, val_zero_text,
};
use crate::store::{opt_bytes, DEFAULT_PORT};
use vstd::prelude::*;

verus! {

/// One device observed during a scan: keyed by the sender's address, with
/// what its own reply carried. Entries live only as long as one scan.
pub struct DiscoveredDevice {
    pub ip: Vec<u8>,
    pub port: u16,
    pub device: Option<Vec<u8>>,
    pub ver: Option<u32>,
}

/// The model of one discovered device.
pub struct DiscoveredModel {
    pub ip: Seq<u8>,
    pub port: u16,
    pub device: Option<Seq<u8>>,
    pub ver: Option<u32>,
}

/// The model of one entry.
pub open spec fn dev_model(d: DiscoveredDevice) -> DiscoveredModel {
    DiscoveredModel { ip: d.ip@, port: d.port, device: opt_bytes(d.device), ver: d.ver }
}

/// The models of a sequence of entries.
pub open spec fn devs_model(s: Seq<DiscoveredDevice>) -> Seq<DiscoveredModel> {
    Seq::new(s.len(), |i: int| dev_model(s[i]))
}

/// The parameter value `{"ble_mac":"0"}` of the device-identity query.
pub open spec fn spec_ble_mac_params() -> JsonModel {
    JsonModel::Obj(seq![(key_ble_mac(), JsonModel::Str(val_zero_text()))])
}

/// The `{"ble_mac":"0"}` parameter value as an owned JSON value.
pub(crate) fn ble_mac_params() -> (r: Json)
    ensures
        json_model(r) == spec_ble_mac_params(),
{
    let mut pairs: Vec<(Vec<u8>, Json)> = Vec::new();
    pairs.push((k_ble_mac(), Json::Str(v_zero_text())));
    proof {
        assert(json_pair_models(pairs@) =~= seq![
            (key_ble_mac(), JsonModel::Str(val_zero_text())),
        ]);
    }
    Json::Obj(pairs)
}

/// The fixed broadcast discovery request
/// `{"id":0,"method":"Marstek.GetDevice","params":{"ble_mac":"0"}}`.
pub open spec fn spec_discovery_model() -> JsonModel {
    JsonModel::Obj(
        seq![
            (key_id(), JsonModel::Int(0)),
            (key_method(), JsonModel::Str(method_get_device())),
            (key_params(), spec_ble_mac_params()),
        ],
    )
}

/// The wire bytes of the discovery request.
pub open spec fn spec_discovery_request() -> Seq<u8> {
    spec_ser(spec_discovery_model())
}

/// Builds the fixed discovery request bytes, to be broadcast on the
/// default port.
pub fn discovery_request() -> (r: Vec<u8>)
    ensures
        r@ == spec_discovery_request(),
{
    let mut pairs: Vec<(Vec<u8>, Json)> = Vec::new();
    pairs.push((k_id(), Json::Int(0)));
    pairs.push((k_method(), Json::Str(m_get_device())));
    pairs.push((k_params(), ble_mac_params()));
    proof {
        assert(json_pair_models(pairs@) =~= seq![
            (key_id(), JsonModel::Int(0)),
            (key_method(), JsonModel::Str(method_get_device())),
            (key_params(), spec_ble_mac_params()),
        ]);
    }
    to_bytes(&Json::Obj(pairs))
}

/// The device name a discovery reply payload carries, when it is a string.
pub open spec fn spec_name_of(res: JsonModel) -> Option<Seq<u8>> {
    match spec_field(res, key_device()) {
        Some(JsonModel::Str(s)) => Some(s),
        _ => None,
    }
}

/// The version a discovery reply payload carries: a non-negative integer,
/// truncated to 32 bits.
pub open spec fn spec_ver_of(res: JsonModel) -> Option<u32> {
    match spec_field(res, key_ver()) {
        Some(JsonModel::Int(n)) => if n >= 0 {
            Some((n % 0x100000000) as u32)
        } else {
            None
        },
        _ => None,
    }
}

/// Whether some entry already carries this source address.
pub open spec fn spec_seen(devs: Seq<DiscoveredModel>, ip: Seq<u8>) -> bool {
    exists|k: int| 0 <= k < devs.len() && devs[k].ip == ip
}

/// What one received datagram does to the accumulated entries: a reply
/// that parses and carries a `result` member from a source address not yet
/// seen appends one entry (first seen wins); everything else, a malformed
/// datagram included, leaves the scan as it was and does not end it.
pub open spec fn spec_scan_step(
    devs: Seq<DiscoveredModel>,
    payload: Seq<u8>,
    ip: Seq<u8>,
) -> Seq<DiscoveredModel> {
    match spec_json(payload) {
        Some(m) => match spec_field(m, key_result()) {
            Some(res) => if spec_seen(devs, ip) {
                devs
            } else {
                devs.push(
                    DiscoveredModel {
                        ip: ip,
                        port: DEFAULT_PORT,
                        device: spec_name_of(res),
                        ver: spec_ver_of(res),
                    },
                )
            },
            None => devs,
        },
        None => devs,
    }
}

/// The entries accumulated over the first `k` datagrams of a scan.
pub open spec fn spec_scan(datagrams: Seq<(Seq<u8>, Seq<u8>)>, k: int) -> Seq<DiscoveredModel>
    decreases k,
{
    if k <= 0 {
        Seq::empty()
    } else {
        spec_scan_step(spec_scan(datagrams, k - 1), datagrams[k - 1].0, datagrams[k - 1].1)
    }
}

/// The state of one discovery scan.
pub struct DiscoveryScan {
    pub devices: Vec<DiscoveredDevice>,
}

impl DiscoveryScan {
    /// A scan with no replies seen yet.
    pub fn new() -> (r: DiscoveryScan)
        ensures
            r.devices@.len() == 0,
    {
        DiscoveryScan { devices: Vec::new() }
    }

    fn seen(&self, ip: &Vec<u8>) -> (r: bool)
        ensures
            r == spec_seen(devs_model(self.devices@), ip@),
    {
        let n = self.devices.len();
        for k in 0..n
            invariant
                n == self.devices@.len(),
                forall|t: int| 0 <= t < k ==> devs_model(self.devices@)[t].ip != ip@,
        {
            if bytes_eq(&self.devices[k].ip, ip.as_slice()) {
                assert(devs_model(self.devices@)[k as int].ip == ip@);
                return true;
            }
            assert(devs_model(self.devices@)[k as int].ip != ip@);
        }
        false
    }

    /// Takes one received datagram into the scan, exactly as
    /// `spec_scan_step` says: record the sender once, ignore the rest.
    pub fn process_datagram(&mut self, payload: &[u8], ip: Vec<u8>)
        ensures
            devs_model(final(self).devices@) == spec_scan_step(
                devs_model(old(self).devices@),
                payload@,
                ip@,
            ),
    {
        let ghost devs0 = devs_model(self.devices@);
        let parsed = match parse_json(payload) {
            Some(v) => v,
            None => {
                return ;
            },
        };
        let kr = k_result();
        let res = match json_get(&parsed, kr.as_slice()) {
            Some(x) => x,
            None => {
                return ;
            },
        };
        if self.seen(&ip) {
            return ;
        }
        let kd = k_device();
        let name: Option<Vec<u8>> = match json_get(res, kd.as_slice()) {
            Some(x) => match x {
                Json::Str(s) => Some(copy_bytes(s)),
                _ => None,
            },
            None => None,
        };
        let kv = k_ver();
        let ver: Option<u32> = match json_get(res, kv.as_slice()) {
            Some(x) => match x {
                Json::Int(n) => if *n >= 0 {
                    Some(((*n as u64) % 0x100000000) as u32)
                } else {
                    None
                },
                _ => None,
            },
            None => None,
        };
        self.devices.push(DiscoveredDevice { ip, port: DEFAULT_PORT, device: name, ver });
        proof {
            assert(devs_model(self.devices@) =~= devs0.push(
                dev_model(self.devices@.last()),
            ));
        }
    }
}

/// The `result` member of the parse of a datagram; `Null` when there is
/// none (used only where its presence was already established).
pub open spec fn spec_reply_of(payload: Seq<u8>) -> JsonModel {
    match spec_json(payload) {
        Some(m) => match spec_field(m, key_result()) {
            Some(res) => res,
            None => JsonModel::Null,
        },
        None => JsonModel::Null,
    }
}

/// The models of a sequence of (payload, source address) datagrams.
pub open spec fn dg_models(s: Seq<(Vec<u8>, Vec<u8>)>) -> Seq<(Seq<u8>, Seq<u8>)> {
    Seq::new(s.len(), |i: int| (s[i].0@, s[i].1@))
}

/// Runs one whole scan over the datagrams received before the timeout, in
/// order of arrival: exactly the fold of `spec_scan_step`. May yield an
/// empty list.
pub fn discover_devices(datagrams: &Vec<(Vec<u8>, Vec<u8>)>) -> (r: Vec<DiscoveredDevice>)
    ensures
        devs_model(r@) == spec_scan(dg_models(datagrams@), datagrams@.len() as int),
{
    let mut scan = DiscoveryScan::new();
    proof {
        assert(devs_model(scan.devices@) =~= spec_scan(dg_models(datagrams@), 0));
    }
    let n = datagrams.len();
    for k in 0..n
        invariant
            n == datagrams@.len(),
            devs_model(scan.devices@) == spec_scan(dg_models(datagrams@), k as int),
    {
        let ip = copy_bytes(&datagrams[k].1);
        scan.process_datagram(datagrams[k].0.as_slice(), ip);
    }
    scan.devices
}


/// Whether a datagram is a well-formed discovery reply: it parses, and it
/// carries a `result` member.
pub open spec fn spec_dg_valid(d: (Seq<u8>, Seq<u8>)) -> bool {
    &&& spec_json(d.0) is Some
    &&& spec_field(spec_json(d.0)->0, key_result()) is Some
}

/// Law: whatever a scan receives, the entries it accumulates carry
/// pairwise distinct source addresses: a duplicate reply from an
/// already-seen address never creates a second entry.
pub proof fn lemma_scan_unique(datagrams: Seq<(Seq<u8>, Seq<u8>)>, k: int)
    ensures
        forall|a: int, b: int|
            0 <= a < b < spec_scan(datagrams, k).len() ==> spec_scan(datagrams, k)[a].ip
                != spec_scan(datagrams, k)[b].ip,
    decreases k,
{
    if k > 0 {
        lemma_scan_unique(datagrams, k - 1);
        let prev = spec_scan(datagrams, k - 1);
        let cur = spec_scan(datagrams, k);
        if cur.len() > prev.len() {
            assert(!spec_seen(prev, datagrams[k - 1].1));
            assert forall|a: int, b: int| 0 <= a < b < cur.len() implies cur[a].ip != cur[b].ip by {
                if b < prev.len() {
                    assert(prev[a].ip != prev[b].ip);
                } else {
                    assert(cur[b].ip == datagrams[k - 1].1);
                    assert(cur[a] == prev[a]);
                    if cur[a].ip == cur[b].ip {
                        assert(spec_seen(prev, datagrams[k - 1].1));
                    }
                }
            }
        }
    }
}

/// Law: a scan over datagrams that all parse as replies carrying a
/// `result` member, sent from pairwise distinct addresses, yields exactly
/// one entry per datagram, in order, each populated from the sender's own
/// reply and carrying the default port.
pub proof fn lemma_scan_counts(datagrams: Seq<(Seq<u8>, Seq<u8>)>, k: int)
    requires
        0 <= k <= datagrams.len(),
        forall|j: int| 0 <= j < datagrams.len() ==> spec_dg_valid(#[trigger] datagrams[j]),
        forall|a: int, b: int| 0 <= a < b < datagrams.len() ==> datagrams[a].1 != datagrams[b].1,
    ensures
        spec_scan(datagrams, k).len() == k,
        forall|j: int|
            0 <= j < k ==> {
                let e = #[trigger] spec_scan(datagrams, k)[j];
                &&& e.ip == datagrams[j].1
                &&& e.port == DEFAULT_PORT
                &&& e.device == spec_name_of(spec_reply_of(datagrams[j].0))
                &&& e.ver == spec_ver_of(spec_reply_of(datagrams[j].0))
            },
    decreases k,
{
    if k > 0 {
        lemma_scan_counts(datagrams, k - 1);
        let prev = spec_scan(datagrams, k - 1);
        let d = datagrams[k - 1];
        assert(spec_dg_valid(d));
        assert(!spec_seen(prev, d.1)) by {
            if spec_seen(prev, d.1) {
                let w = choose|w: int| 0 <= w < prev.len() && prev[w].ip == d.1;
                assert(datagrams[w].1 == datagrams[k - 1].1);
            }
        }
        let m = spec_json(d.0)->0;
        let res = spec_field(m, key_result())->0;
        assert(spec_reply_of(d.0) == res);
        assert(spec_scan(datagrams, k) == prev.push(
            DiscoveredModel {
                ip: d.1,
                port: DEFAULT_PORT,
                device: spec_name_of(res),
                ver: spec_ver_of(res),
            },
        ));
    }
}

} // verus!
