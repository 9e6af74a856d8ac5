//! Read-only queries to the venue's info endpoint.
use crate::msgpack::push_all;
use crate::topic::{json_member, json_string, push_json_string, utf8};
use vstd::prelude::*;

verus! {

/// A query; its body is `{"type": ...}` with the query's own members.
#[derive(Clone, Debug)]
pub enum InfoRequest {
    Meta { dex: Option<String> },
    PerpDeployAuctionStatus,
}

impl InfoRequest {
    pub open spec fn kind(self) -> Seq<char> {
        match self {
            InfoRequest::Meta { .. } => "meta"@,
            InfoRequest::PerpDeployAuctionStatus => "perpDeployAuctionStatus"@,
        }
    }

    /// The JSON body of the query; an absent dex is left out.
    pub open spec fn json(self) -> Seq<u8> {
        utf8("{"@) + json_string(utf8("type"@)) + utf8(":"@) + json_string(utf8(self.kind()))
            + match self {
            InfoRequest::Meta { dex: Some(d) } => json_member("dex"@, json_string(utf8(d@))),
            _ => Seq::empty(),
        } + utf8("}"@)
    }

    pub fn to_json(&self) -> (r: Vec<u8>)
        ensures
            r@ == self.json(),
    {
        let mut out: Vec<u8> = Vec::new();
        push_all(&mut out, "{".as_bytes());
        push_json_string(&mut out, "type".as_bytes());
        push_all(&mut out, ":".as_bytes());
        let ghost head = out@;
        match self {
            InfoRequest::Meta { dex } => {
                push_json_string(&mut out, "meta".as_bytes());
                match dex {
                    Some(d) => {
                        push_all(&mut out, ",".as_bytes());
                        push_json_string(&mut out, "dex".as_bytes());
                        push_all(&mut out, ":".as_bytes());
                        push_json_string(&mut out, d.as_str().as_bytes());
                    },
                    None => {},
                }
            },
            InfoRequest::PerpDeployAuctionStatus => {
                push_json_string(&mut out, "perpDeployAuctionStatus".as_bytes());
            },
        }
        push_all(&mut out, "}".as_bytes());
        assert(out@ =~= self.json());
        out
    }
}

/// The keep-alive frame.
#[derive(Clone, Copy, Debug)]
pub struct Ping {
    pub method: &'static str,
}

impl Ping {
    pub open spec fn json(self) -> Seq<u8> {
        utf8("{"@) + json_string(utf8("method"@)) + utf8(":"@) + json_string(utf8(self.method@))
            + utf8("}"@)
    }

    pub fn new() -> (r: Ping)
        ensures
            r.method@ == "ping"@,
    {
        Ping { method: "ping" }
    }

    pub fn to_json(&self) -> (r: Vec<u8>)
        ensures
            r@ == self.json(),
    {
        let mut out: Vec<u8> = Vec::new();
        push_all(&mut out, "{".as_bytes());
        push_json_string(&mut out, "method".as_bytes());
        push_all(&mut out, ":".as_bytes());
        push_json_string(&mut out, self.method.as_bytes());
        push_all(&mut out, "}".as_bytes());
        assert(out@ =~= self.json());
        out
    }
}

/// A request to move a spot token, as a caller states it.
#[derive(Clone, Debug)]
pub struct SpotTransferRequest {
    pub amount: String,
    pub destination: String,
    pub token: String,
}

} // verus!
