//! Decoding the scanner's captured stdout into result records.
//!
//! The policy is the output-protocol contract: the bytes must be valid text,
//! the text must be valid JSON; a non-array top-level value yields an empty
//! record sequence, while an array is decoded element by element, and any
//! element that does not have the record shape fails the whole call.

use vstd::prelude::*;
use crate::json::{Json, JsonNum, jfield, get_field};
use crate::records::{Service, Ports, Info, ServiceV, PortsV, InfoV, ScanError, opt_str_view};
use crate::outside::{json_of, parse_json, utf8_to_string};
use vstd::utf8::{valid_utf8, decode_utf8};

verus! {

/// Decode an optional string field: absent or null is `None`; a string is its
/// content; any other value is a shape error.
pub open spec fn spec_opt_string(fields: Seq<(String, Json)>, key: Seq<char>) -> Result<
    Option<Seq<char>>,
    (),
> {
    match jfield(fields, key) {
        None => Ok(None),
        Some(Json::Null) => Ok(None),
        Some(Json::Str(s)) => Ok(Some(s@)),
        Some(_) => Err(()),
    }
}

/// Decode an optional unsigned field: absent or null is `None`; a number is
/// accepted exactly when it is an integer that fits in `u32`.
pub open spec fn spec_opt_u32(fields: Seq<(String, Json)>, key: Seq<char>) -> Result<
    Option<u32>,
    (),
> {
    match jfield(fields, key) {
        None => Ok(None),
        Some(Json::Null) => Ok(None),
        Some(Json::Num(JsonNum::UInt(u))) => if u <= u32::MAX as u64 {
            Ok(Some(u as u32))
        } else {
            Err(())
        },
        Some(_) => Err(()),
    }
}

/// Decode a service record: it must be an object; unknown fields are ignored.
pub open spec fn spec_decode_service(j: Json) -> Result<ServiceV, ()> {
    match j {
        Json::Obj(fields) => match (
            spec_opt_string(fields@, "name"@),
            spec_opt_string(fields@, "banner"@),
        ) {
            (Ok(name), Ok(banner)) => Ok(ServiceV { name, banner }),
            _ => Err(()),
        },
        _ => Err(()),
    }
}

/// Decode an optional nested service: absent or null is `None`; anything else
/// must decode as a service record.
pub open spec fn spec_opt_service(fields: Seq<(String, Json)>, key: Seq<char>) -> Result<
    Option<ServiceV>,
    (),
> {
    match jfield(fields, key) {
        None => Ok(None),
        Some(Json::Null) => Ok(None),
        Some(j) => match spec_decode_service(j) {
            Ok(s) => Ok(Some(s)),
            Err(_) => Err(()),
        },
    }
}

/// Decode one port record: it must be an object with the port-record fields,
/// each independently optional.
pub open spec fn spec_decode_port(j: Json) -> Result<PortsV, ()> {
    match j {
        Json::Obj(fields) => match (
            spec_opt_u32(fields@, "port"@),
            spec_opt_string(fields@, "proto"@),
            spec_opt_string(fields@, "status"@),
            spec_opt_string(fields@, "reason"@),
            spec_opt_service(fields@, "service"@),
            spec_opt_u32(fields@, "ttl"@),
        ) {
            (Ok(port), Ok(proto), Ok(status), Ok(reason), Ok(service), Ok(ttl)) => Ok(
                PortsV { port, proto, status, reason, service, ttl },
            ),
            _ => Err(()),
        },
        _ => Err(()),
    }
}

/// Decode a sequence of port records; every element must have the port-record
/// shape, in which case the order is kept.
pub open spec fn spec_ports_array(items: Seq<Json>) -> Result<Seq<PortsV>, ()> {
    if forall|i: int| 0 <= i < items.len() ==> (#[trigger] spec_decode_port(items[i])) is Ok {
        Ok(Seq::new(items.len(), |i: int| spec_decode_port(items[i])->Ok_0))
    } else {
        Err(())
    }
}

/// Decode the optional port list of a host: absent or null is `None`; it must
/// otherwise be an array of port records.
pub open spec fn spec_opt_ports(fields: Seq<(String, Json)>, key: Seq<char>) -> Result<
    Option<Seq<PortsV>>,
    (),
> {
    match jfield(fields, key) {
        None => Ok(None),
        Some(Json::Null) => Ok(None),
        Some(Json::Arr(items)) => match spec_ports_array(items@) {
            Ok(ps) => Ok(Some(ps)),
            Err(_) => Err(()),
        },
        Some(_) => Err(()),
    }
}

/// Decode one host record: it must be an object with the result-record
/// fields, each independently optional; unknown fields are ignored.
pub open spec fn spec_decode_info(j: Json) -> Result<InfoV, ()> {
    match j {
        Json::Obj(fields) => match (
            spec_opt_string(fields@, "ip"@),
            spec_opt_string(fields@, "timestamp"@),
            spec_opt_ports(fields@, "ports"@),
        ) {
            (Ok(ip), Ok(timestamp), Ok(ports)) => Ok(InfoV { ip, timestamp, ports }),
            _ => Err(()),
        },
        _ => Err(()),
    }
}

/// Decode a whole parsed output: a non-array value is tolerated as an empty
/// record sequence; an array must decode element by element.
pub open spec fn spec_decode_records(j: Json) -> Result<Seq<InfoV>, ()> {
    match j {
        Json::Arr(items) => if forall|i: int|
            0 <= i < items@.len() ==> (#[trigger] spec_decode_info(items@[i])) is Ok {
            Ok(Seq::new(items@.len(), |i: int| spec_decode_info(items@[i])->Ok_0))
        } else {
            Err(())
        },
        _ => Ok(Seq::<InfoV>::empty()),
    }
}

/// Read an optional string field out of an object's fields.
fn get_opt_string(fields: &Vec<(String, Json)>, key: &str) -> (r: Result<Option<String>, ScanError>)
    ensures
        match spec_opt_string(fields@, key@) {
            Ok(o) => r matches Ok(ro) && opt_str_view(ro) == o,
            Err(_) => r matches Err(e) && e == ScanError::OutputParseError,
        },
{
    match get_field(fields, key) {
        None => Ok(None),
        Some(Json::Null) => Ok(None),
        Some(Json::Str(s)) => Ok(Some(s.clone())),
        Some(_) => Err(ScanError::OutputParseError),
    }
}

/// Read an optional unsigned field out of an object's fields.
fn get_opt_u32(fields: &Vec<(String, Json)>, key: &str) -> (r: Result<Option<u32>, ScanError>)
    ensures
        match spec_opt_u32(fields@, key@) {
            Ok(o) => r matches Ok(ro) && ro == o,
            Err(_) => r matches Err(e) && e == ScanError::OutputParseError,
        },
{
    match get_field(fields, key) {
        None => Ok(None),
        Some(Json::Null) => Ok(None),
        Some(Json::Num(JsonNum::UInt(u))) => {
            if *u <= u32::MAX as u64 {
                Ok(Some(*u as u32))
            } else {
                Err(ScanError::OutputParseError)
            }
        },
        Some(_) => Err(ScanError::OutputParseError),
    }
}

/// Decode a service record from a JSON value.
fn decode_service(j: &Json) -> (r: Result<Service, ScanError>)
    ensures
        match spec_decode_service(*j) {
            Ok(sv) => r matches Ok(s) && s@ == sv,
            Err(_) => r matches Err(e) && e == ScanError::OutputParseError,
        },
{
    match j {
        Json::Obj(fields) => {
            let name = match get_opt_string(fields, "name") {
                Ok(v) => v,
                Err(e) => return Err(e),
            };
            let banner = match get_opt_string(fields, "banner") {
                Ok(v) => v,
                Err(e) => return Err(e),
            };
            Ok(Service { name, banner })
        },
        _ => Err(ScanError::OutputParseError),
    }
}

/// Decode one port record from a JSON value.
fn decode_port(j: &Json) -> (r: Result<Ports, ScanError>)
    ensures
        match spec_decode_port(*j) {
            Ok(pv) => r matches Ok(p) && p@ == pv,
            Err(_) => r matches Err(e) && e == ScanError::OutputParseError,
        },
{
    match j {
        Json::Obj(fields) => {
            let port = match get_opt_u32(fields, "port") {
                Ok(v) => v,
                Err(e) => return Err(e),
            };
            let proto = match get_opt_string(fields, "proto") {
                Ok(v) => v,
                Err(e) => return Err(e),
            };
            let status = match get_opt_string(fields, "status") {
                Ok(v) => v,
                Err(e) => return Err(e),
            };
            let reason = match get_opt_string(fields, "reason") {
                Ok(v) => v,
                Err(e) => return Err(e),
            };
            let service = match get_field(fields, "service") {
                None => None,
                Some(Json::Null) => None,
                Some(sj) => match decode_service(sj) {
                    Ok(s) => Some(s),
                    Err(e) => return Err(e),
                },
            };
            let ttl = match get_opt_u32(fields, "ttl") {
                Ok(v) => v,
                Err(e) => return Err(e),
            };
            Ok(Ports { port, proto, status, reason, service, ttl })
        },
        _ => Err(ScanError::OutputParseError),
    }
}

/// Decode an array of port records, keeping their order.
fn decode_ports_array(items: &Vec<Json>) -> (r: Result<Vec<Ports>, ScanError>)
    ensures
        match spec_ports_array(items@) {
            Ok(ps) => r matches Ok(v) && v@.map_values(|p: Ports| p@) == ps,
            Err(_) => r matches Err(e) && e == ScanError::OutputParseError,
        },
{
    let mut out: Vec<Ports> = Vec::new();
    let mut i: usize = 0;
    while i < items.len()
        invariant
            i <= items@.len(),
            out@.len() == i,
            forall|k: int|
                0 <= k < i ==> (#[trigger] spec_decode_port(items@[k])) is Ok && out@[k]@
                    == spec_decode_port(items@[k])->Ok_0,
        decreases items@.len() - i,
    {
        match decode_port(&items[i]) {
            Ok(p) => out.push(p),
            Err(e) => {
                assert(!(spec_decode_port(items@[i as int]) is Ok));
                return Err(e);
            },
        }
        i += 1;
    }
    proof {
        assert(out@.map_values(|p: Ports| p@) =~= spec_ports_array(items@)->Ok_0);
    }
    Ok(out)
}

/// Decode one host record from a JSON value.
fn decode_info(j: &Json) -> (r: Result<Info, ScanError>)
    ensures
        match spec_decode_info(*j) {
            Ok(iv) => r matches Ok(x) && x@ == iv,
            Err(_) => r matches Err(e) && e == ScanError::OutputParseError,
        },
{
    match j {
        Json::Obj(fields) => {
            let ip = match get_opt_string(fields, "ip") {
                Ok(v) => v,
                Err(e) => return Err(e),
            };
            let timestamp = match get_opt_string(fields, "timestamp") {
                Ok(v) => v,
                Err(e) => return Err(e),
            };
            let ports = match get_field(fields, "ports") {
                None => None,
                Some(Json::Null) => None,
                Some(Json::Arr(items)) => match decode_ports_array(items) {
                    Ok(ps) => Some(ps),
                    Err(e) => return Err(e),
                },
                Some(_) => return Err(ScanError::OutputParseError),
            };
            Ok(Info { ip, timestamp, ports })
        },
        _ => Err(ScanError::OutputParseError),
    }
}

/// Decode a whole parsed output value into the record sequence.
#[verifier::loop_isolation(false)]
pub fn decode_records(j: &Json) -> (r: Result<Vec<Info>, ScanError>)
    ensures
        match spec_decode_records(*j) {
            Ok(s) => r matches Ok(v) && v@.map_values(|x: Info| x@) == s,
            Err(_) => r matches Err(e) && e == ScanError::OutputParseError,
        },
{
    match j {
        Json::Arr(items) => {
            let mut out: Vec<Info> = Vec::new();
            let mut i: usize = 0;
            while i < items.len()
                invariant
                    i <= items@.len(),
                    out@.len() == i,
                    forall|k: int|
                        0 <= k < i ==> (#[trigger] spec_decode_info(items@[k])) is Ok && out@[k]@
                            == spec_decode_info(items@[k])->Ok_0,
                decreases items@.len() - i,
            {
                match decode_info(&items[i]) {
                    Ok(x) => out.push(x),
                    Err(e) => {
                        proof {
                            assert(!(spec_decode_info(items@[i as int]) is Ok));
                        }
                        return Err(e);
                    },
                }
                i += 1;
            }
            proof {
                assert(out@.map_values(|x: Info| x@) =~= spec_decode_records(*j)->Ok_0);
            }
            Ok(out)
        },
        _ => {
            let out: Vec<Info> = Vec::new();
            proof {
                assert(out@.map_values(|x: Info| x@) =~= Seq::<InfoV>::empty());
            }
            Ok(out)
        },
    }
}

/// Decode the captured stdout bytes of one scanner run.
///
/// The bytes must be valid text, the text valid JSON. A non-array top-level
/// value yields the empty record sequence; an array is decoded element by
/// element and any malformed element fails the whole call.
pub fn decode_output(bytes: Vec<u8>) -> (r: Result<Vec<Info>, ScanError>)
    ensures
        !valid_utf8(bytes@) ==> (r matches Err(e) && e == ScanError::EncodingError),
        valid_utf8(bytes@) ==> match json_of(decode_utf8(bytes@)) {
            None => r matches Err(e) && e == ScanError::OutputParseError,
            Some(j) => match spec_decode_records(j) {
                Ok(s) => r matches Ok(v) && v@.map_values(|x: Info| x@) == s,
                Err(_) => r matches Err(e) && e == ScanError::OutputParseError,
            },
        },
{
    let text = match utf8_to_string(bytes) {
        Some(s) => s,
        None => return Err(ScanError::EncodingError),
    };
    let parsed = match parse_json(text.as_str()) {
        Some(j) => j,
        None => return Err(ScanError::OutputParseError),
    };
    decode_records(&parsed)
}

} // verus!
