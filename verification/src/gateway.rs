//! The device's own address on the temporary access point.

use vstd::prelude::*;
use vstd::string::*;
use crate::text::{decimal, push_decimal};

verus! {

/// An IPv4 address, held as its four octets, first octet first.
#[derive(Clone, Copy, Debug, PartialEq, Eq, Structural)]
pub struct Gateway {
    pub a: u8,
    pub b: u8,
    pub c: u8,
    pub d: u8,
}

impl Gateway {
    /// The address `a.b.c.d`.
    pub fn new(a: u8, b: u8, c: u8, d: u8) -> (gateway: Gateway)
        ensures
            gateway == (Gateway { a, b, c, d }),
    {
        Gateway { a, b, c, d }
    }

    /// The address in dotted decimal notation: what a client has to put in
    /// its `Host` header to address the portal itself.
    pub open spec fn text(self) -> Seq<char> {
        decimal(self.a as nat) + seq!['.'] + decimal(self.b as nat) + seq!['.'] + decimal(
            self.c as nat,
        ) + seq!['.'] + decimal(self.d as nat)
    }

    /// Appends the dotted decimal notation to `out`.
    pub fn push_text(&self, out: &mut String)
        ensures
            final(out)@ == old(out)@ + self.text(),
    {
        proof {
            reveal_strlit(".");
        }
        push_decimal(out, self.a as u16);
        out.append(".");
        push_decimal(out, self.b as u16);
        out.append(".");
        push_decimal(out, self.c as u16);
        out.append(".");
        push_decimal(out, self.d as u16);
        assert(out@ =~= old(out)@ + self.text());
    }

    /// The dotted decimal notation as a string.
    pub fn to_text(&self) -> (s: String)
        ensures
            s@ == self.text(),
    {
        let mut s = String::new();
        self.push_text(&mut s);
        assert(s@ =~= self.text());
        s
    }

    /// The root of the portal as a URL: where a client that asked for
    /// another host is sent.
    pub open spec fn root_url(self) -> Seq<char> {
        "http://"@ + self.text() + "/"@
    }

    /// The root of the portal as a URL.
    pub fn to_root_url(&self) -> (url: String)
        ensures
            url@ == self.root_url(),
    {
        let mut url = String::from_str("http://");
        self.push_text(&mut url);
        url.append("/");
        assert(url@ =~= self.root_url());
        url
    }

    /// The socket address on which the portal listens.
    pub open spec fn listen_address(self, port: u16) -> Seq<char> {
        self.text() + seq![':'] + decimal(port as nat)
    }

    /// The socket address on which the portal listens, as `a.b.c.d:port`.
    pub fn to_listen_address(&self, port: u16) -> (address: String)
        ensures
            address@ == self.listen_address(port),
    {
        proof {
            reveal_strlit(":");
        }
        let mut address = String::new();
        self.push_text(&mut address);
        address.append(":");
        push_decimal(&mut address, port);
        assert(address@ =~= self.listen_address(port));
        address
    }
}

} // verus!
