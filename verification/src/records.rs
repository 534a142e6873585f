//! Typed result records decoded from the scanner's JSON output, their
//! mathematical views, and the error taxonomy.

use vstd::prelude::*;

verus! {

/// Optional service details observed on a port.
///
/// Every field is independently optional: the scanner may omit any of them.
#[derive(Debug, Clone, PartialEq)]
pub struct Service {
    pub name: Option<String>,
    pub banner: Option<String>,
}

/// One observed port on a discovered host.
#[derive(Debug, Clone, PartialEq)]
pub struct Ports {
    pub port: Option<u32>,
    pub proto: Option<String>,
    pub status: Option<String>,
    pub reason: Option<String>,
    pub service: Option<Service>,
    pub ttl: Option<u32>,
}

/// One discovered host: the result record of a scan.
#[derive(Debug, Clone, PartialEq)]
pub struct Info {
    pub ip: Option<String>,
    pub timestamp: Option<String>,
    pub ports: Option<Vec<Ports>>,
}

/// Mathematical view of a `Service`.
#[verifier::ext_equal]
pub struct ServiceV {
    pub name: Option<Seq<char>>,
    pub banner: Option<Seq<char>>,
}

/// Mathematical view of a `Ports` record.
#[verifier::ext_equal]
pub struct PortsV {
    pub port: Option<u32>,
    pub proto: Option<Seq<char>>,
    pub status: Option<Seq<char>>,
    pub reason: Option<Seq<char>>,
    pub service: Option<ServiceV>,
    pub ttl: Option<u32>,
}

/// Mathematical view of an `Info` record.
#[verifier::ext_equal]
pub struct InfoV {
    pub ip: Option<Seq<char>>,
    pub timestamp: Option<Seq<char>>,
    pub ports: Option<Seq<PortsV>>,
}

/// The view of an optional string: the character sequence, if present.
pub open spec fn opt_str_view(o: Option<String>) -> Option<Seq<char>> {
    match o {
        Some(s) => Some(s@),
        None => None,
    }
}

impl View for Service {
    type V = ServiceV;

    open spec fn view(&self) -> ServiceV {
        ServiceV { name: opt_str_view(self.name), banner: opt_str_view(self.banner) }
    }
}

impl View for Ports {
    type V = PortsV;

    open spec fn view(&self) -> PortsV {
        PortsV {
            port: self.port,
            proto: opt_str_view(self.proto),
            status: opt_str_view(self.status),
            reason: opt_str_view(self.reason),
            service: match self.service {
                Some(s) => Some(s@),
                None => None,
            },
            ttl: self.ttl,
        }
    }
}

impl View for Info {
    type V = InfoV;

    open spec fn view(&self) -> InfoV {
        InfoV {
            ip: opt_str_view(self.ip),
            timestamp: opt_str_view(self.timestamp),
            ports: match self.ports {
                Some(v) => Some(v@.map_values(|p: Ports| p@)),
                None => None,
            },
        }
    }
}

/// Why one call of the scanner front-end failed. Each variant is terminal:
/// nothing is retried.
#[derive(Debug, Clone, Copy, PartialEq, Eq, Structural)]
pub enum ScanError {
    /// The external executable could not be found or spawned.
    ProcessSpawnError,
    /// The captured output bytes are not valid text.
    EncodingError,
    /// The output text is not valid JSON, or an array element does not have
    /// the result-record shape.
    OutputParseError,
}

} // verus!
