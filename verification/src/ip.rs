//! IP addresses.

pub mod parse;
pub mod text;

use crate::ip::parse::{parse_ip, parse_ip_spec};
use crate::ip::text::{ip_text, push_ip};
use vstd::prelude::*;

verus! {

/// An IPv4 address: its four octets, first one first.
#[derive(Clone, Copy, Debug, PartialEq, Eq, Structural, Hash, PartialOrd, Ord)]
pub struct Ipv4Address(pub u8, pub u8, pub u8, pub u8);

/// An IPv6 address: its eight 16-bit segments, first one first.
#[derive(Clone, Copy, Debug, PartialEq, Eq, Structural, Hash, PartialOrd, Ord)]
pub struct Ipv6Address(pub u16, pub u16, pub u16, pub u16, pub u16, pub u16, pub u16, pub u16);

/// An IP address of either version.
#[derive(Clone, Copy, Debug, PartialEq, Eq, Structural, Hash, PartialOrd, Ord)]
pub enum IpAddress {
    V4(Ipv4Address),
    V6(Ipv6Address),
}

impl Ipv4Address {
    /// The address `127.0.0.1`.
    pub fn localhost() -> (r: Ipv4Address)
        ensures
            r == Ipv4Address(127, 0, 0, 1),
    {
        Ipv4Address(127, 0, 0, 1)
    }

    /// The address with the given octets.
    pub fn new(a: u8, b: u8, c: u8, d: u8) -> (r: Ipv4Address)
        ensures
            r == Ipv4Address(a, b, c, d),
    {
        Ipv4Address(a, b, c, d)
    }

    /// The four octets, in order.
    pub open spec fn octets(self) -> Seq<u8> {
        seq![self.0, self.1, self.2, self.3]
    }
}

impl Ipv6Address {
    /// The address with the given segments.
    pub fn new(a: u16, b: u16, c: u16, d: u16, e: u16, f: u16, g: u16, h: u16) -> (r: Ipv6Address)
        ensures
            r == Ipv6Address(a, b, c, d, e, f, g, h),
    {
        Ipv6Address(a, b, c, d, e, f, g, h)
    }

    /// The eight segments, in order.
    pub open spec fn segments(self) -> Seq<u16> {
        seq![self.0, self.1, self.2, self.3, self.4, self.5, self.6, self.7]
    }

    /// The address with the given eight segments.
    pub open spec fn from_segments(s: Seq<u16>) -> Ipv6Address {
        Ipv6Address(s[0], s[1], s[2], s[3], s[4], s[5], s[6], s[7])
    }

    /// The segment at `i`.
    pub(crate) fn segment(&self, i: usize) -> (r: u16)
        requires
            i < 8,
        ensures
            r == self.segments()[i as int],
    {
        match i {
            0 => self.0,
            1 => self.1,
            2 => self.2,
            3 => self.3,
            4 => self.4,
            5 => self.5,
            6 => self.6,
            _ => self.7,
        }
    }
}

impl IpAddress {
    /// Reads an IP address from its text: `1.2.3.4`, or `1::2`.
    pub fn parse(text: &str) -> (r: Option<IpAddress>)
        ensures
            r == parse_ip_spec(text@),
    {
        parse_ip(text)
    }

    /// Writes the IP address as text.
    pub fn to_string(&self) -> (r: String)
        ensures
            r@ == ip_text(*self),
    {
        let mut out = String::new();
        push_ip(&mut out, self);
        proof {
            assert(out@ =~= ip_text(*self));
        }
        out
    }
}

} // verus!
