//! The local preview server, as far as it is data.

use vstd::prelude::*;
use vstd::string::*;
use crate::text::{decimal, decimal_string};

verus! {

/// A server for the files of a directory.
#[derive(Clone, Debug)]
pub struct Server {
    public_dir: String,
    port: u16,
}

impl Server {
    /// The directory that is served.
    pub closed spec fn directory(&self) -> Seq<char> {
        self.public_dir@
    }

    /// The port on which is served.
    pub closed spec fn on_port(&self) -> u16 {
        self.port
    }

    pub fn new(public_dir: String, port: u16) -> (r: Self)
        ensures
            r.directory() == public_dir@,
            r.on_port() == port,
    {
        Server { public_dir, port }
    }

    /// The directory that is served.
    pub fn public_dir(&self) -> (r: &str)
        ensures
            r@ == self.directory(),
    {
        self.public_dir.as_str()
    }

    /// The port on which is served.
    pub fn port(&self) -> (r: u16)
        ensures
            r == self.on_port(),
    {
        self.port
    }

    /// The address the server binds to: every interface, at its port.
    pub fn bind_address(&self) -> (r: String)
        ensures
            r@ == "0.0.0.0:"@ + decimal(self.on_port() as nat),
    {
        let mut out = "0.0.0.0:".to_string();
        let digits = decimal_string(self.port as u64);
        out.append(digits.as_str());
        out
    }

    /// The address under which the site is reached on this machine.
    pub fn local_url(&self) -> (r: String)
        ensures
            r@ == "http://localhost:"@ + decimal(self.on_port() as nat),
    {
        let mut out = "http://localhost:".to_string();
        let digits = decimal_string(self.port as u64);
        out.append(digits.as_str());
        out
    }
}

} // verus!
