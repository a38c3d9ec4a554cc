//! Broker topic naming.
//!
//! The root topic is `esp32/<device-id>`, where the device identifier is
//! the station MAC address in its canonical text form; the two measurement
//! sub-topics are `<root>/PM25` and `<root>/PM10`.

use vstd::prelude::*;
use vstd::string::StringExecFns;
use crate::text::spec_digit;

verus! {

/// The uppercase hexadecimal digit character for `d`.
pub open spec fn spec_hex_digit(d: int) -> char {
    if d < 10 {
        spec_digit(d)
    } else if d == 10 {
        'A'
    } else if d == 11 {
        'B'
    } else if d == 12 {
        'C'
    } else if d == 13 {
        'D'
    } else if d == 14 {
        'E'
    } else {
        'F'
    }
}

/// One byte as two uppercase hexadecimal digits.
pub open spec fn spec_hex_pair(b: int) -> Seq<char> {
    seq![spec_hex_digit(b / 16), spec_hex_digit(b % 16)]
}

/// The canonical text form of a six-byte MAC address: uppercase
/// hexadecimal byte pairs separated by colons, `AB:0D:EF:12:34:56`.
pub open spec fn spec_mac(b: Seq<u8>) -> Seq<char>
    recommends
        b.len() == 6,
{
    spec_hex_pair(b[0] as int) + seq![':'] + spec_hex_pair(b[1] as int) + seq![':']
        + spec_hex_pair(b[2] as int) + seq![':'] + spec_hex_pair(b[3] as int) + seq![':']
        + spec_hex_pair(b[4] as int) + seq![':'] + spec_hex_pair(b[5] as int)
}

/// Relies on `macaddr::MacAddr`'s `Display` implementation: a six-byte
/// address is written as uppercase hexadecimal byte pairs separated by
/// colons.
#[verifier::external_body]
fn mac_display(mac: &[u8; 6]) -> (r: String)
    ensures
        r@ == spec_mac(mac@),
{
    format!("{}", macaddr::MacAddr::from(*mac))
}

/// The per-device root topic for `mac`: `esp32/` followed by the MAC
/// address in canonical text form.
pub fn root_topic(mac: &[u8; 6]) -> (r: String)
    ensures
        r@ == "esp32/"@ + spec_mac(mac@),
{
    let m = mac_display(mac);
    String::from_str("esp32/").concat(m.as_str())
}

/// The PM2.5 sub-topic under `root`.
pub fn pm25_topic(root: &str) -> (r: String)
    ensures
        r@ == root@ + "/PM25"@,
{
    String::from_str(root).concat("/PM25")
}

/// The PM10 sub-topic under `root`.
pub fn pm10_topic(root: &str) -> (r: String)
    ensures
        r@ == root@ + "/PM10"@,
{
    String::from_str(root).concat("/PM10")
}

} // verus!
