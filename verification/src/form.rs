//! The address fields that the user fills in, and what a choice of interface
//! puts into them.

use crate::addr::Ipv4;
use crate::netif::Netif;
use vstd::prelude::*;
use vstd::string::StringExecFns;

verus! {

/// The address fields of the three transports.
#[derive(Clone, Debug, PartialEq, Eq)]
pub struct AddressForm {
    pub netif_selected: usize,
    pub local_ip: String,
    pub local_port_udp: String,
    pub broadcast_ip_udp: String,
    pub broadcast_ip_manual_udp: String,
    pub remote_ip_udp: String,
    pub remote_port_udp: String,
    pub local_port_tcp_server: String,
    pub local_port_tcp_client: String,
    pub remote_ip_tcpserver: String,
    pub remote_port_tcpserver: String,
}

/// The address fields as plain values.
pub struct AddressFormView {
    pub netif_selected: nat,
    pub local_ip: Seq<char>,
    pub local_port_udp: Seq<char>,
    pub broadcast_ip_udp: Seq<char>,
    pub broadcast_ip_manual_udp: Seq<char>,
    pub remote_ip_udp: Seq<char>,
    pub remote_port_udp: Seq<char>,
    pub local_port_tcp_server: Seq<char>,
    pub local_port_tcp_client: Seq<char>,
    pub remote_ip_tcpserver: Seq<char>,
    pub remote_port_tcpserver: Seq<char>,
}

impl View for AddressForm {
    type V = AddressFormView;

    open spec fn view(&self) -> AddressFormView {
        AddressFormView {
            netif_selected: self.netif_selected as nat,
            local_ip: self.local_ip@,
            local_port_udp: self.local_port_udp@,
            broadcast_ip_udp: self.broadcast_ip_udp@,
            broadcast_ip_manual_udp: self.broadcast_ip_manual_udp@,
            remote_ip_udp: self.remote_ip_udp@,
            remote_port_udp: self.remote_port_udp@,
            local_port_tcp_server: self.local_port_tcp_server@,
            local_port_tcp_client: self.local_port_tcp_client@,
            remote_ip_tcpserver: self.remote_ip_tcpserver@,
            remote_port_tcpserver: self.remote_port_tcpserver@,
        }
    }
}

/// The text of a broadcast address, empty where there is none.
pub open spec fn broadcast_text(bc: Option<Ipv4>) -> Seq<char> {
    match bc {
        Some(ip) => ip.text(),
        None => Seq::empty(),
    }
}

/// The fields for the interface `netif`, chosen at place `index`: its own
/// address to bind, port 0 for every local port, its broadcast address, and
/// a start for the remote addresses. The remote ports and the manual
/// broadcast address are empty.
pub open spec fn fields_for(netif: Netif, index: nat) -> AddressFormView {
    AddressFormView {
        netif_selected: index,
        local_ip: netif.ip.text(),
        local_port_udp: "0"@,
        broadcast_ip_udp: broadcast_text(netif.bc),
        broadcast_ip_manual_udp: Seq::empty(),
        remote_ip_udp: netif.template(),
        remote_port_udp: Seq::empty(),
        local_port_tcp_server: "0"@,
        local_port_tcp_client: "0"@,
        remote_ip_tcpserver: netif.template(),
        remote_port_tcpserver: Seq::empty(),
    }
}

/// `ip`, a colon, `port`.
pub open spec fn socket_text(ip: Seq<char>, port: Seq<char>) -> Seq<char> {
    ip + ":"@ + port
}

/// The address that a UDP send goes to: the remote address without
/// broadcast; with it, the manual broadcast address where one is given, else
/// the interface's.
pub open spec fn destination_ip(f: AddressFormView, broadcast: bool) -> Seq<char> {
    if !broadcast {
        f.remote_ip_udp
    } else if f.broadcast_ip_manual_udp.len() > 0 {
        f.broadcast_ip_manual_udp
    } else {
        f.broadcast_ip_udp
    }
}

/// `ip`, a colon, `port`.
pub fn socket_string(ip: &str, port: &str) -> (s: String)
    ensures
        s@ == socket_text(ip@, port@),
{
    let mut s = String::from_str(ip);
    s.append(":");
    s.append(port);
    s
}

impl AddressForm {
    /// A form with every field empty.
    pub fn new() -> (f: AddressForm)
        ensures
            f@.netif_selected == 0,
            f@.local_ip.len() == 0,
            f@.local_port_udp.len() == 0,
            f@.broadcast_ip_udp.len() == 0,
            f@.broadcast_ip_manual_udp.len() == 0,
            f@.remote_ip_udp.len() == 0,
            f@.remote_port_udp.len() == 0,
            f@.local_port_tcp_server.len() == 0,
            f@.local_port_tcp_client.len() == 0,
            f@.remote_ip_tcpserver.len() == 0,
            f@.remote_port_tcpserver.len() == 0,
    {
        AddressForm {
            netif_selected: 0,
            local_ip: String::new(),
            local_port_udp: String::new(),
            broadcast_ip_udp: String::new(),
            broadcast_ip_manual_udp: String::new(),
            remote_ip_udp: String::new(),
            remote_port_udp: String::new(),
            local_port_tcp_server: String::new(),
            local_port_tcp_client: String::new(),
            remote_ip_tcpserver: String::new(),
            remote_port_tcpserver: String::new(),
        }
    }

    /// Chooses the interface at `index` of `netifs` and fills the fields for
    /// it. An index behind the end changes nothing.
    pub fn apply_netif_selection(&mut self, netifs: &Vec<Netif>, index: usize)
        ensures
            index < netifs@.len() ==> final(self)@ == fields_for(netifs@[index as int], index as nat),
            index >= netifs@.len() ==> final(self)@ == old(self)@,
    {
        if index < netifs.len() {
            let netif = &netifs[index];
            self.netif_selected = index;
            self.local_ip = netif.ip.to_text();
            self.local_port_udp = String::from_str("0");
            self.broadcast_ip_udp = match netif.bc {
                Some(ip) => ip.to_text(),
                None => String::new(),
            };
            self.broadcast_ip_manual_udp = String::new();
            self.remote_ip_udp = netif.remote_ip_template();
            self.remote_port_udp = String::new();
            self.local_port_tcp_server = String::from_str("0");
            self.local_port_tcp_client = String::from_str("0");
            self.remote_ip_tcpserver = netif.remote_ip_template();
            self.remote_port_tcpserver = String::new();
        }
    }

    /// The local address to bind the UDP socket to.
    pub fn udp_local(&self) -> (s: String)
        ensures
            s@ == socket_text(self@.local_ip, self@.local_port_udp),
    {
        socket_string(self.local_ip.as_str(), self.local_port_udp.as_str())
    }

    /// The address that a UDP send goes to, with broadcast switched as
    /// `broadcast` says.
    pub fn udp_destination(&self, broadcast: bool) -> (s: String)
        ensures
            s@ == socket_text(destination_ip(self@, broadcast), self@.remote_port_udp),
    {
        let ip = if !broadcast {
            self.remote_ip_udp.as_str()
        } else if !self.broadcast_ip_manual_udp.as_str().is_empty() {
            self.broadcast_ip_manual_udp.as_str()
        } else {
            self.broadcast_ip_udp.as_str()
        };
        socket_string(ip, self.remote_port_udp.as_str())
    }

    /// The local address for the TCP server to listen on.
    pub fn tcp_server_local(&self) -> (s: String)
        ensures
            s@ == socket_text(self@.local_ip, self@.local_port_tcp_server),
    {
        socket_string(self.local_ip.as_str(), self.local_port_tcp_server.as_str())
    }

    /// The address of the server that the TCP client connects to.
    pub fn tcp_client_remote(&self) -> (s: String)
        ensures
            s@ == socket_text(self@.remote_ip_tcpserver, self@.remote_port_tcpserver),
    {
        socket_string(self.remote_ip_tcpserver.as_str(), self.remote_port_tcpserver.as_str())
    }
}

} // verus!
