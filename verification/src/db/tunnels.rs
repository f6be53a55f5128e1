//! Tunnels: rows of the `tunnels` table, and the shape the TCP
//! listener manager works from.

use vstd::prelude::*;

verus! {

/// One row of the `tunnels` table.
#[derive(Debug, Clone)]
pub struct Tunnel {
    pub id: i64,
    pub device_id: i64,
    pub kind: String,
    pub local_port: i64,
    pub public_hostname: Option<String>,
    pub public_port: Option<i64>,
    pub enabled: bool,
    pub created_at: i64,
}

/// A TCP tunnel joined with its device's zid and org slug. Ports are
/// the stored values narrowed to 16 bits.
#[derive(Debug, Clone)]
pub struct TunnelWithZid {
    pub id: i64,
    pub device_id: i64,
    pub zid: String,
    pub org_slug: String,
    pub kind: String,
    pub local_port: u16,
    pub public_port: u16,
    pub enabled: bool,
}

} // verus!
