//! `POST /v1/tunnels`: a new TCP tunnel with a public port is handed to
//! the listener manager at once.

use vstd::prelude::*;

use crate::db::tunnels::{Tunnel, TunnelWithZid};
use crate::text::str_eq;

verus! {

/// Body of `POST /v1/tunnels`.
pub struct CreateTunnel {
    pub device_id: i64,
    pub kind: String,
    pub local_port: i64,
    pub public_hostname: Option<String>,
    pub public_port: Option<i64>,
}

/// The listener the manager is told about for a new `tunnel` of the
/// device `zid` in org `org_slug`: one for a TCP tunnel with a public
/// port, none otherwise. Ports keep their low 16 bits.
pub fn listener_for(tunnel: &Tunnel, zid: String, org_slug: String) -> (r: Option<TunnelWithZid>)
    ensures
        (r is Some) == (tunnel.kind@ == "tcp"@ && tunnel.public_port is Some),
        r matches Some(t) ==> {
            &&& t.id == tunnel.id
            &&& t.device_id == tunnel.device_id
            &&& t.zid@ == zid@
            &&& t.org_slug@ == org_slug@
            &&& t.kind@ == "tcp"@
            &&& t.local_port == tunnel.local_port as u16
            &&& t.public_port == tunnel.public_port->0 as u16
            &&& t.enabled
        },
{
    if !str_eq(tunnel.kind.as_str(), "tcp") {
        return None;
    }
    match tunnel.public_port {
        None => None,
        Some(p) => Some(
            TunnelWithZid {
                id: tunnel.id,
                device_id: tunnel.device_id,
                zid,
                org_slug,
                kind: "tcp".to_owned(),
                local_port: tunnel.local_port as u16,
                public_port: p as u16,
                enabled: true,
            },
        ),
    }
}

} // verus!
