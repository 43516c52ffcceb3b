//! Records of paired remote sessions in both connection directions.
use vstd::prelude::*;
use crate::text::str_eq;

verus! {

/// The concrete carrier of a Link session.
#[derive(Clone, Copy, Debug, PartialEq, Eq, Structural)]
pub enum LinkTransportPreference {
    Http,
    WebSocket,
}

/// The CLI spelling of a carrier.
pub open spec fn transport_name(t: LinkTransportPreference) -> Seq<char> {
    match t {
        LinkTransportPreference::Http => "http"@,
        LinkTransportPreference::WebSocket => "ws"@,
    }
}

/// Parses the explicit Link carrier selection accepted by the CLI.
pub fn parse_link_transport(value: &str) -> (r: Result<LinkTransportPreference, String>)
    ensures
        match r {
            Ok(t) => value@ == transport_name(t),
            Err(e) => value@ != "http"@ && value@ != "ws"@ && e@ == "Link transport must be http or ws"@,
        },
{
    if str_eq(value, "http") {
        Ok(LinkTransportPreference::Http)
    } else if str_eq(value, "ws") {
        Ok(LinkTransportPreference::WebSocket)
    } else {
        Err(String::from_str("Link transport must be http or ws"))
    }
}

/// Returns the stable CLI spelling for one Link carrier selection.
pub fn link_transport_name(value: &LinkTransportPreference) -> (r: &'static str)
    ensures
        r@ == transport_name(*value),
{
    match value {
        LinkTransportPreference::Http => "http",
        LinkTransportPreference::WebSocket => "ws",
    }
}

/// Reading back the spelling of a carrier gives that carrier.
pub proof fn law_transport_name_round_trip(t: LinkTransportPreference)
    ensures
        transport_name(t) == "http"@ ==> t == LinkTransportPreference::Http,
        transport_name(t) == "ws"@ ==> t == LinkTransportPreference::WebSocket,
        transport_name(t) == "http"@ || transport_name(t) == "ws"@,
{
    reveal_strlit("http");
    reveal_strlit("ws");
    assert("http"@.len() == 4);
    assert("ws"@.len() == 2);
}

/// Platform and model of a device taking part in a pairing.
#[derive(Clone, Debug)]
pub struct RemoteDeviceInfo {
    pub platform: String,
    pub model: String,
}

/// A named outbound pairing held by this device.
#[derive(Clone, Debug)]
pub struct PairedRemoteSessionRecord {
    pub baseUrl: String,
    pub sessionId: String,
    pub deviceId: String,
    pub coreDeviceId: String,
    pub remoteDeviceInfo: RemoteDeviceInfo,
    pub pairingServiceVersion: i32,
    pub sessionSecret: String,
    pub transport: LinkTransportPreference,
}

/// An inbound pairing accepted by this device.
#[derive(Clone, Debug)]
pub struct AcceptedRemoteSessionRecord {
    pub deviceId: String,
    pub deviceInfo: RemoteDeviceInfo,
    pub pairingServiceVersion: i32,
    pub sessionSecret: String,
}

} // verus!
