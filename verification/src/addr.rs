//! IP addresses and socket addresses as plain values.

use crate::text::{decimal, decimal_chars, hexadecimal, hexadecimal_chars, string_from_chars};
use vstd::prelude::*;

verus! {

/// An IPv4 address by its four octets, first octet first.
#[derive(Clone, Copy, Debug, PartialEq, Eq, Structural, Hash)]
pub struct Ipv4(pub u8, pub u8, pub u8, pub u8);

impl Ipv4 {
    /// The address with the octets `o`, first octet first.
    pub fn from_octets(o: [u8; 4]) -> (ip: Ipv4)
        ensures
            ip == Ipv4(o[0], o[1], o[2], o[3]),
    {
        Ipv4(o[0], o[1], o[2], o[3])
    }

    /// The octets of the address, first octet first.
    pub fn octets(&self) -> (o: [u8; 4])
        ensures
            o[0] == self.0,
            o[1] == self.1,
            o[2] == self.2,
            o[3] == self.3,
    {
        [self.0, self.1, self.2, self.3]
    }

    /// `127.0.0.1`
    pub fn localhost() -> (ip: Ipv4)
        ensures
            ip == Ipv4(127, 0, 0, 1),
    {
        Ipv4(127, 0, 0, 1)
    }

    /// `0.0.0.0`, the address that stands for every local interface.
    pub fn unspecified() -> (ip: Ipv4)
        ensures
            ip == Ipv4(0, 0, 0, 0),
    {
        Ipv4(0, 0, 0, 0)
    }

    /// Whether the address lies in `127.0.0.0/8`.
    pub open spec fn loopback(self) -> bool {
        self.0 == 127
    }

    /// Whether the address is `0.0.0.0`.
    pub open spec fn zero(self) -> bool {
        self.0 == 0 && self.1 == 0 && self.2 == 0 && self.3 == 0
    }

    /// The address in dotted decimal.
    pub open spec fn text(self) -> Seq<char> {
        decimal(self.0 as nat) + seq!['.'] + decimal(self.1 as nat) + seq!['.'] + decimal(
            self.2 as nat,
        ) + seq!['.'] + decimal(self.3 as nat)
    }

    /// The first three octets in dotted decimal, each followed by a dot.
    pub open spec fn prefix_text(self) -> Seq<char> {
        decimal(self.0 as nat) + seq!['.'] + decimal(self.1 as nat) + seq!['.'] + decimal(
            self.2 as nat,
        ) + seq!['.']
    }

    /// Whether the address lies in `127.0.0.0/8`.
    pub fn is_loopback(&self) -> (b: bool)
        ensures
            b == self.loopback(),
    {
        self.0 == 127
    }

    /// Whether the address is `0.0.0.0`.
    pub fn is_unspecified(&self) -> (b: bool)
        ensures
            b == self.zero(),
    {
        self.0 == 0 && self.1 == 0 && self.2 == 0 && self.3 == 0
    }

    /// The characters of the first three octets, each followed by a dot.
    pub fn prefix_chars(&self) -> (v: Vec<char>)
        ensures
            v@ == self.prefix_text(),
    {
        let mut v = decimal_chars(self.0 as u64);
        v.push('.');
        let mut b = decimal_chars(self.1 as u64);
        v.append(&mut b);
        v.push('.');
        let mut c = decimal_chars(self.2 as u64);
        v.append(&mut c);
        v.push('.');
        proof {
            assert(v@ =~= self.prefix_text());
        }
        v
    }

    /// The characters of the address in dotted decimal.
    pub fn text_chars(&self) -> (v: Vec<char>)
        ensures
            v@ == self.text(),
    {
        let mut v = self.prefix_chars();
        let mut d = decimal_chars(self.3 as u64);
        v.append(&mut d);
        proof {
            assert(v@ =~= self.text());
        }
        v
    }

    /// The address in dotted decimal.
    pub fn to_text(&self) -> (s: String)
        ensures
            s@ == self.text(),
    {
        string_from_chars(self.text_chars())
    }
}

/// An IPv6 address by its eight groups, first group first.
#[derive(Clone, Copy, Debug, PartialEq, Eq, Structural, Hash)]
pub struct Ipv6(pub u16, pub u16, pub u16, pub u16, pub u16, pub u16, pub u16, pub u16);

impl Ipv6 {
    /// The address with the groups `g`, first group first.
    pub fn from_segments(g: [u16; 8]) -> (ip: Ipv6)
        ensures
            ip == Ipv6(g[0], g[1], g[2], g[3], g[4], g[5], g[6], g[7]),
    {
        Ipv6(g[0], g[1], g[2], g[3], g[4], g[5], g[6], g[7])
    }

    /// The groups of the address, first group first.
    pub fn segments(&self) -> (g: [u16; 8])
        ensures
            g[0] == self.0,
            g[1] == self.1,
            g[2] == self.2,
            g[3] == self.3,
            g[4] == self.4,
            g[5] == self.5,
            g[6] == self.6,
            g[7] == self.7,
    {
        [self.0, self.1, self.2, self.3, self.4, self.5, self.6, self.7]
    }

    /// The address written in full: its eight groups in lower-case
    /// hexadecimal with colons between them, no run of zeros left out.
    pub open spec fn text(self) -> Seq<char> {
        hexadecimal(self.0 as nat) + seq![':'] + hexadecimal(self.1 as nat) + seq![':']
            + hexadecimal(self.2 as nat) + seq![':'] + hexadecimal(self.3 as nat) + seq![':']
            + hexadecimal(self.4 as nat) + seq![':'] + hexadecimal(self.5 as nat) + seq![':']
            + hexadecimal(self.6 as nat) + seq![':'] + hexadecimal(self.7 as nat)
    }

    /// The characters of the address written in full.
    pub fn text_chars(&self) -> (v: Vec<char>)
        ensures
            v@ == self.text(),
    {
        let mut v = hexadecimal_chars(self.0 as u64);
        v.push(':');
        let mut g = hexadecimal_chars(self.1 as u64);
        v.append(&mut g);
        v.push(':');
        let mut g = hexadecimal_chars(self.2 as u64);
        v.append(&mut g);
        v.push(':');
        let mut g = hexadecimal_chars(self.3 as u64);
        v.append(&mut g);
        v.push(':');
        let mut g = hexadecimal_chars(self.4 as u64);
        v.append(&mut g);
        v.push(':');
        let mut g = hexadecimal_chars(self.5 as u64);
        v.append(&mut g);
        v.push(':');
        let mut g = hexadecimal_chars(self.6 as u64);
        v.append(&mut g);
        v.push(':');
        let mut g = hexadecimal_chars(self.7 as u64);
        v.append(&mut g);
        proof {
            assert(v@ =~= self.text());
        }
        v
    }
}

/// An IPv6 address as a socket holds it: with the flow label and the scope
/// that belong to the socket address.
#[derive(Clone, Copy, Debug, PartialEq, Eq, Structural, Hash)]
pub struct V6Host {
    pub addr: Ipv6,
    pub flowinfo: u32,
    pub scope_id: u32,
}

impl V6Host {
    /// The address in full, followed by `%` and the scope where the scope is
    /// not zero. The flow label is not written.
    pub open spec fn text(self) -> Seq<char> {
        if self.scope_id == 0 {
            self.addr.text()
        } else {
            self.addr.text() + seq!['%'] + decimal(self.scope_id as nat)
        }
    }

    /// The characters of the address with its scope.
    pub fn text_chars(&self) -> (v: Vec<char>)
        ensures
            v@ == self.text(),
    {
        let mut v = self.addr.text_chars();
        if self.scope_id != 0 {
            v.push('%');
            let mut scope = decimal_chars(self.scope_id as u64);
            v.append(&mut scope);
            proof {
                assert(v@ =~= self.text());
            }
        }
        v
    }
}

/// The host part of a socket address, of either family.
#[derive(Clone, Copy, Debug, PartialEq, Eq, Structural, Hash)]
pub enum Ip {
    V4(Ipv4),
    V6(V6Host),
}

/// A socket address: what names one end of a connection.
#[derive(Clone, Copy, Debug, PartialEq, Eq, Structural, Hash)]
pub struct Endpoint {
    pub ip: Ip,
    pub port: u16,
}

impl Endpoint {
    /// The IPv4 socket address of `ip` and `port`.
    pub fn v4(ip: Ipv4, port: u16) -> (e: Endpoint)
        ensures
            e == (Endpoint { ip: Ip::V4(ip), port }),
    {
        Endpoint { ip: Ip::V4(ip), port }
    }

    /// The IPv6 socket address of `host` and `port`.
    pub fn v6(host: V6Host, port: u16) -> (e: Endpoint)
        ensures
            e == (Endpoint { ip: Ip::V6(host), port }),
    {
        Endpoint { ip: Ip::V6(host), port }
    }

    /// The address as `a.b.c.d:port`, or for IPv6 as `[groups]:port`, the
    /// groups written in full.
    pub open spec fn text(self) -> Seq<char> {
        match self.ip {
            Ip::V4(ip) => ip.text() + seq![':'] + decimal(self.port as nat),
            Ip::V6(host) => seq!['['] + host.text() + seq![']', ':'] + decimal(self.port as nat),
        }
    }

    /// The address as text.
    pub fn to_text(&self) -> (s: String)
        ensures
            s@ == self.text(),
    {
        let mut p = decimal_chars(self.port as u64);
        match self.ip {
            Ip::V4(ip) => {
                let mut v = ip.text_chars();
                v.push(':');
                v.append(&mut p);
                proof {
                    assert(v@ =~= self.text());
                }
                string_from_chars(v)
            },
            Ip::V6(host) => {
                let mut v: Vec<char> = Vec::new();
                v.push('[');
                let mut h = host.text_chars();
                v.append(&mut h);
                v.push(']');
                v.push(':');
                v.append(&mut p);
                proof {
                    assert(v@ =~= self.text());
                }
                string_from_chars(v)
            },
        }
    }
}

} // verus!
