//! The settings of a server.

use vstd::prelude::*;
use vstd::string::StringExecFns;
use crate::text::{decimal_nat, owned, push_decimal};

verus! {

/// Where the server listens and how much it admits.
#[derive(Debug)]
pub struct ServerConfig {
    pub host: String,
    pub port: u16,
    pub max_players_per_room: usize,
    pub max_rooms: usize,
}

impl ServerConfig {
    /// The address to listen on: the host, a colon and the port.
    pub open spec fn addr_text(&self) -> Seq<char> {
        self.host@ + ":"@ + decimal_nat(self.port as nat)
    }

    /// The address to listen on: the host, a colon and the port.
    pub fn addr(&self) -> (r: String)
        ensures
            r@ == self.addr_text(),
    {
        let mut addr = self.host.clone();
        addr.append(":");
        push_decimal(&mut addr, self.port as u64);
        addr
    }
}

impl Default for ServerConfig {
    /// Every interface, port 3000, six players to a room and a hundred rooms.
    fn default() -> (r: Self)
        ensures
            r.host@ == "0.0.0.0"@,
            r.port == 3000,
            r.max_players_per_room == 6,
            r.max_rooms == 100,
    {
        ServerConfig { host: owned("0.0.0.0"), port: 3000, max_players_per_room: 6, max_rooms: 100 }
    }
}

} // verus!
