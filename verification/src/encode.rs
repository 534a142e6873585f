//! Encoding result records back into the JSON model.
//!
//! Each encoder omits absent fields instead of emitting null, and its
//! contract is the round trip: the encoded value decodes back to the record
//! it came from.

use vstd::prelude::*;
use crate::json::{Json, JsonNum, jfield, lemma_jfield_push_hit, lemma_jfield_push_miss};
use crate::records::{Service, Ports, Info};
use crate::decode::{
    spec_decode_service, spec_decode_port, spec_decode_info, spec_ports_array,
};

verus! {

/// The record field names are pairwise distinct.
proof fn lemma_keys_distinct()
    ensures
        "name"@ != "banner"@,
        "port"@ != "proto"@,
        "port"@ != "status"@,
        "port"@ != "reason"@,
        "port"@ != "service"@,
        "port"@ != "ttl"@,
        "proto"@ != "status"@,
        "proto"@ != "reason"@,
        "proto"@ != "service"@,
        "proto"@ != "ttl"@,
        "status"@ != "reason"@,
        "status"@ != "service"@,
        "status"@ != "ttl"@,
        "reason"@ != "service"@,
        "reason"@ != "ttl"@,
        "service"@ != "ttl"@,
        "ip"@ != "timestamp"@,
        "ip"@ != "ports"@,
        "timestamp"@ != "ports"@,
{
    reveal_strlit("name");
    reveal_strlit("banner");
    reveal_strlit("port");
    reveal_strlit("proto");
    reveal_strlit("status");
    reveal_strlit("reason");
    reveal_strlit("service");
    reveal_strlit("ttl");
    reveal_strlit("ip");
    reveal_strlit("timestamp");
    reveal_strlit("ports");
    assert("name"@.len() == 4);
    assert("banner"@.len() == 6);
    assert("port"@.len() == 4);
    assert("proto"@.len() == 5);
    assert("status"@.len() == 6);
    assert("reason"@.len() == 6);
    assert("service"@.len() == 7);
    assert("ttl"@.len() == 3);
    assert("ip"@.len() == 2);
    assert("timestamp"@.len() == 9);
    assert("ports"@.len() == 5);
    assert("status"@[0] != "reason"@[0]);
    assert("name"@[0] != "port"@[0]);
}

/// Encode a service record; absent fields are omitted, and the result decodes
/// back to the record.
pub fn encode_service(s: &Service) -> (r: Json)
    ensures
        spec_decode_service(r) == Ok::<_, ()>(s@),
        r matches Json::Obj(fields) && (s.name is None ==> jfield(fields@, "name"@) is None) && (
        s.banner is None ==> jfield(fields@, "banner"@) is None),
{
    proof {
        lemma_keys_distinct();
    }
    let mut fields: Vec<(String, Json)> = Vec::new();
    if let Some(name) = &s.name {
        let k = "name".to_owned();
        let v = Json::Str(name.clone());
        proof {
            lemma_jfield_push_hit(fields@, k, v, "name"@);
            lemma_jfield_push_miss(fields@, k, v, "banner"@);
        }
        fields.push((k, v));
    }
    if let Some(banner) = &s.banner {
        let k = "banner".to_owned();
        let v = Json::Str(banner.clone());
        proof {
            lemma_jfield_push_hit(fields@, k, v, "banner"@);
            lemma_jfield_push_miss(fields@, k, v, "name"@);
        }
        fields.push((k, v));
    }
    Json::Obj(fields)
}

/// Encode one port record; absent fields are omitted, and the result decodes
/// back to the record.
pub fn encode_port(p: &Ports) -> (r: Json)
    ensures
        spec_decode_port(r) == Ok::<_, ()>(p@),
        r matches Json::Obj(fields) && (p.port is None ==> jfield(fields@, "port"@) is None) && (
        p.proto is None ==> jfield(fields@, "proto"@) is None) && (p.status is None ==> jfield(
            fields@,
            "status"@,
        ) is None) && (p.reason is None ==> jfield(fields@, "reason"@) is None) && (
        p.service is None ==> jfield(fields@, "service"@) is None) && (p.ttl is None ==> jfield(
            fields@,
            "ttl"@,
        ) is None),
{
    proof {
        lemma_keys_distinct();
    }
    let mut fields: Vec<(String, Json)> = Vec::new();
    if let Some(port) = &p.port {
        let k = "port".to_owned();
        let v = Json::Num(JsonNum::UInt(*port as u64));
        proof {
            lemma_jfield_push_hit(fields@, k, v, "port"@);
            lemma_jfield_push_miss(fields@, k, v, "proto"@);
            lemma_jfield_push_miss(fields@, k, v, "status"@);
            lemma_jfield_push_miss(fields@, k, v, "reason"@);
            lemma_jfield_push_miss(fields@, k, v, "service"@);
            lemma_jfield_push_miss(fields@, k, v, "ttl"@);
        }
        fields.push((k, v));
    }
    if let Some(proto) = &p.proto {
        let k = "proto".to_owned();
        let v = Json::Str(proto.clone());
        proof {
            lemma_jfield_push_hit(fields@, k, v, "proto"@);
            lemma_jfield_push_miss(fields@, k, v, "port"@);
            lemma_jfield_push_miss(fields@, k, v, "status"@);
            lemma_jfield_push_miss(fields@, k, v, "reason"@);
            lemma_jfield_push_miss(fields@, k, v, "service"@);
            lemma_jfield_push_miss(fields@, k, v, "ttl"@);
        }
        fields.push((k, v));
    }
    if let Some(status) = &p.status {
        let k = "status".to_owned();
        let v = Json::Str(status.clone());
        proof {
            lemma_jfield_push_hit(fields@, k, v, "status"@);
            lemma_jfield_push_miss(fields@, k, v, "port"@);
            lemma_jfield_push_miss(fields@, k, v, "proto"@);
            lemma_jfield_push_miss(fields@, k, v, "reason"@);
            lemma_jfield_push_miss(fields@, k, v, "service"@);
            lemma_jfield_push_miss(fields@, k, v, "ttl"@);
        }
        fields.push((k, v));
    }
    if let Some(reason) = &p.reason {
        let k = "reason".to_owned();
        let v = Json::Str(reason.clone());
        proof {
            lemma_jfield_push_hit(fields@, k, v, "reason"@);
            lemma_jfield_push_miss(fields@, k, v, "port"@);
            lemma_jfield_push_miss(fields@, k, v, "proto"@);
            lemma_jfield_push_miss(fields@, k, v, "status"@);
            lemma_jfield_push_miss(fields@, k, v, "service"@);
            lemma_jfield_push_miss(fields@, k, v, "ttl"@);
        }
        fields.push((k, v));
    }
    if let Some(service) = &p.service {
        let k = "service".to_owned();
        let v = encode_service(service);
        proof {
            lemma_jfield_push_hit(fields@, k, v, "service"@);
            lemma_jfield_push_miss(fields@, k, v, "port"@);
            lemma_jfield_push_miss(fields@, k, v, "proto"@);
            lemma_jfield_push_miss(fields@, k, v, "status"@);
            lemma_jfield_push_miss(fields@, k, v, "reason"@);
            lemma_jfield_push_miss(fields@, k, v, "ttl"@);
        }
        fields.push((k, v));
    }
    if let Some(ttl) = &p.ttl {
        let k = "ttl".to_owned();
        let v = Json::Num(JsonNum::UInt(*ttl as u64));
        proof {
            lemma_jfield_push_hit(fields@, k, v, "ttl"@);
            lemma_jfield_push_miss(fields@, k, v, "port"@);
            lemma_jfield_push_miss(fields@, k, v, "proto"@);
            lemma_jfield_push_miss(fields@, k, v, "status"@);
            lemma_jfield_push_miss(fields@, k, v, "reason"@);
            lemma_jfield_push_miss(fields@, k, v, "service"@);
        }
        fields.push((k, v));
    }
    Json::Obj(fields)
}

/// Encode one host record; absent fields are omitted, and the result decodes
/// back to the record. This is the round-trip law: decoding the encoding of
/// any record yields that record again.
pub fn encode_info(info: &Info) -> (r: Json)
    ensures
        spec_decode_info(r) == Ok::<_, ()>(info@),
        r matches Json::Obj(fields) && (info.ip is None ==> jfield(fields@, "ip"@) is None) && (
        info.timestamp is None ==> jfield(fields@, "timestamp"@) is None) && (info.ports is None
            ==> jfield(fields@, "ports"@) is None),
{
    proof {
        lemma_keys_distinct();
    }
    let mut fields: Vec<(String, Json)> = Vec::new();
    if let Some(ip) = &info.ip {
        let k = "ip".to_owned();
        let v = Json::Str(ip.clone());
        proof {
            lemma_jfield_push_hit(fields@, k, v, "ip"@);
            lemma_jfield_push_miss(fields@, k, v, "timestamp"@);
            lemma_jfield_push_miss(fields@, k, v, "ports"@);
        }
        fields.push((k, v));
    }
    if let Some(timestamp) = &info.timestamp {
        let k = "timestamp".to_owned();
        let v = Json::Str(timestamp.clone());
        proof {
            lemma_jfield_push_hit(fields@, k, v, "timestamp"@);
            lemma_jfield_push_miss(fields@, k, v, "ip"@);
            lemma_jfield_push_miss(fields@, k, v, "ports"@);
        }
        fields.push((k, v));
    }
    if let Some(ports) = &info.ports {
        let mut arr: Vec<Json> = Vec::new();
        let mut i: usize = 0;
        while i < ports.len()
            invariant
                i <= ports@.len(),
                arr@.len() == i,
                forall|k: int|
                    0 <= k < i ==> (#[trigger] spec_decode_port(arr@[k])) == Ok::<_, ()>(
                        ports@[k]@,
                    ),
            decreases ports@.len() - i,
        {
            let e = encode_port(&ports[i]);
            arr.push(e);
            i += 1;
        }
        proof {
            assert(spec_ports_array(arr@) is Ok);
            assert(spec_ports_array(arr@)->Ok_0 =~= ports@.map_values(|p: Ports| p@));
        }
        let k = "ports".to_owned();
        let v = Json::Arr(arr);
        proof {
            lemma_jfield_push_hit(fields@, k, v, "ports"@);
            lemma_jfield_push_miss(fields@, k, v, "ip"@);
            lemma_jfield_push_miss(fields@, k, v, "timestamp"@);
        }
        fields.push((k, v));
    }
    Json::Obj(fields)
}

} // verus!
