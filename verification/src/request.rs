//! What the handler is given: the configuration, the request, and what was found on disk.

use vstd::prelude::*;
use vstd::string::*;
use crate::error::Cause;

verus! {

/// The configuration of the server. It is made once and never changed.
#[derive(Clone, Debug, PartialEq, Eq)]
pub struct Config {
    /// The address to listen on, as `IP:PORT`.
    pub addr: String,
    /// The port of the reload channel.
    pub ws_port: u16,
    /// The directory that files are served from.
    pub root_dir: String,
}

/// A `Config` as a mathematical value.
pub struct ConfigView {
    pub addr: Seq<char>,
    pub ws_port: u16,
    pub root_dir: Seq<char>,
}

impl View for Config {
    type V = ConfigView;

    open spec fn view(&self) -> ConfigView {
        ConfigView { addr: self.addr@, ws_port: self.ws_port, root_dir: self.root_dir@ }
    }
}

impl Default for Config {
    /// All interfaces on port 4000, the reload channel on port 8090, the current directory.
    fn default() -> (c: Config)
        ensures
            c@ == (ConfigView { addr: "0.0.0.0:4000"@, ws_port: 8090, root_dir: "."@ }),
    {
        Config {
            addr: String::from_str("0.0.0.0:4000"),
            ws_port: 8090,
            root_dir: String::from_str("."),
        }
    }
}

/// A request, as far as the handler reads it: the method, the path as it was sent
/// (still percent-encoded, without the query), and the query after the `?`, if any.
#[derive(Clone, Debug, PartialEq, Eq)]
pub struct Request {
    pub method: String,
    pub path: String,
    pub query: Option<String>,
}

/// A `Request` as a mathematical value.
pub struct RequestView {
    pub method: Seq<char>,
    pub path: Seq<char>,
    pub query: Option<Seq<char>>,
}

impl View for Request {
    type V = RequestView;

    open spec fn view(&self) -> RequestView {
        RequestView {
            method: self.method@,
            path: self.path@,
            query: match self.query {
                Some(q) => Some(q@),
                None => None,
            },
        }
    }
}

/// What was found on disk for a request: whether its local path is a directory, and
/// how opening the file to serve went, with the file's length where it went well.
#[derive(Debug, PartialEq, Eq)]
pub struct Probe {
    pub is_dir: bool,
    pub opened: Result<u64, Cause>,
}

/// A `Probe` as a mathematical value.
pub struct ProbeView {
    pub is_dir: bool,
    pub opened: Result<u64, Seq<Seq<char>>>,
}

impl View for Probe {
    type V = ProbeView;

    open spec fn view(&self) -> ProbeView {
        ProbeView {
            is_dir: self.is_dir,
            opened: match self.opened {
                Ok(len) => Ok(len),
                Err(c) => Err(c@),
            },
        }
    }
}

} // verus!
