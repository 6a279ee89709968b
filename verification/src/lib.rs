//! Core of a Hue bridge emulator: the Zigbee wire codecs, the entertainment
//! stream engine, the resource store and the service supervisor, each stated
//! over a mathematical model and proved against it.
use vstd::prelude::*;

pub mod api;
pub mod error;
pub mod json;
pub mod resource;
pub mod stream;
pub mod svc;
pub mod wire;
pub mod zcl;
pub mod zigbee;

verus! {

/// Model identifier reported by a second-generation bridge.
pub const HUE_BRIDGE_V2_MODEL_ID: &'static str = "BSB002";

/// Software version a bridge reports unless configured otherwise.
pub const HUE_BRIDGE_V2_DEFAULT_SWVERSION: u64 = 1_968_096_020;

/// API version string a bridge reports unless configured otherwise.
pub const HUE_BRIDGE_V2_DEFAULT_APIVERSION: &'static str = "1.68.0";

/// The time zone that the bridge reports where the machine's is not known.
pub const UNKNOWN_TIMEZONE: &'static str = "none";

/// Calls `iana_time_zone::get_timezone`. Trusted; the answer depends on the
/// machine, and nothing is claimed of it.
#[verifier::external_body]
fn local_timezone() -> Option<String> {
    iana_time_zone::get_timezone().ok()
}

/// The IANA name of the machine's time zone, or `none` where it is not
/// known.
pub fn best_guess_timezone() -> String {
    timezone_or_unknown(local_timezone())
}

/// The name of the time zone `found`, or `none` where none was found.
pub fn timezone_or_unknown(found: Option<String>) -> (tz: String)
    ensures
        match found {
            Some(name) => tz == name,
            None => tz@ == UNKNOWN_TIMEZONE@,
        },
{
    match found {
        Some(name) => name,
        None => UNKNOWN_TIMEZONE.to_string(),
    }
}

/// The eight bytes of a bridge identifier, given the six bytes of the MAC
/// address it is derived from: `ff fe` is spliced in after the third byte.
pub open spec fn bridge_id_bytes(mac: Seq<u8>) -> Seq<u8>
    recommends
        mac.len() == 6,
{
    seq![mac[0], mac[1], mac[2], 0xFFu8, 0xFEu8, mac[3], mac[4], mac[5]]
}

/// Raw bridge identifier for the MAC address `mac`.
pub fn bridge_id_raw(mac: [u8; 6]) -> (id: [u8; 8])
    ensures
        id@ == bridge_id_bytes(mac@),
{
    let id = [mac[0], mac[1], mac[2], 0xFF, 0xFE, mac[3], mac[4], mac[5]];
    assert(id@ =~= bridge_id_bytes(mac@));
    id
}

/// Bridge identifier for the MAC address `mac`, as sixteen lowercase
/// hexadecimal digits.
pub fn bridge_id(mac: [u8; 6]) -> (id: String)
    ensures
        id@ == wire::hex_string(bridge_id_bytes(mac@)),
{
    let raw = bridge_id_raw(mac);
    wire::hex_encode(raw.as_slice())
}

} // verus!
