//! The requests that an access makes of the filesystem, and the replies it
//! takes back. The library decides; its caller performs each request and
//! hands back what came of it.
use vstd::prelude::*;
use crate::decimal::encoded_value;
use crate::error::AccessError;

verus! {

/// An operation on the filesystem that an access needs done.
#[derive(Debug, Clone)]
pub enum Request {
    /// Is this path a directory? Answered by `Reply::Flag`.
    IsDir(String),
    /// The next entry of this directory's listing, the first on the first
    /// request for it. Answered by `Reply::Entry`.
    NextEntry(String),
    /// Does this path exist? Answered by `Reply::Flag`.
    Exists(String),
    /// The whole contents of this file. Answered by `Reply::Contents`.
    Read(String),
    /// Replace the contents of this file by these bytes. Answered by `Reply::Written`.
    Write(String, Vec<u8>),
}

/// What came of a request.
#[derive(Debug)]
pub enum Reply {
    Flag(bool),
    /// The path of the next entry; `None` past the last one; `Err` with the
    /// reason where the directory could not be listed.
    Entry(Option<Result<String, String>>),
    Contents(Result<Vec<u8>, String>),
    Written(Result<(), String>),
}

/// What an access does next: a request, or its outcome.
#[derive(Debug)]
pub enum Step<T> {
    Perform(Request),
    Finished(Result<T, AccessError>),
}

/// Relies on `String::push_str`: appends the characters of `string`.
pub assume_specification[ String::push_str ](s: &mut String, string: &str)
    ensures
        final(s)@ == old(s)@ + string@,
;

/// The path of the entry `name` of the directory `dir`.
pub open spec fn joined(dir: Seq<char>, name: Seq<char>) -> Seq<char> {
    dir + seq!['/'] + name
}

pub fn join_path(dir: &str, name: &str) -> (r: String)
    ensures
        r@ == joined(dir@, name@),
{
    let mut r = dir.to_owned();
    let sep = "/";
    proof {
        reveal_strlit("/");
    }
    r.push_str(sep);
    r.push_str(name);
    r
}

/// A read or a write of one control file that has been located.
#[derive(Debug, Clone)]
pub struct NodeAccess {
    pub path: String,
    /// The value to write, or `None` to read the file.
    pub setting: Option<u32>,
}

/// Whether `q` is the request that `a` makes.
pub open spec fn node_request(a: NodeAccess, q: Request) -> bool {
    match a.setting {
        None => q matches Request::Read(p) && p@ == a.path@,
        Some(v) => q matches Request::Write(p, b) && p@ == a.path@ && b@ == encoded_value(v),
    }
}

/// The outcome of `a` given `reply`: the value read, or the value written.
pub open spec fn node_outcome(a: NodeAccess, reply: Reply, r: Result<u32, AccessError>) -> bool {
    match (a.setting, reply) {
        (None, Reply::Contents(Err(e))) => r matches Err(AccessError::ReadFailed(p, f)) && p@ == a.path@ && f@ == e@,
        (None, Reply::Contents(Ok(b))) => match crate::decimal::decoded_value(b@) {
            Ok(v) => r == Ok::<u32, AccessError>(v),
            Err(crate::decimal::DecodeError::NotText) => r matches Err(AccessError::NotText(p)) && p@ == a.path@,
            Err(crate::decimal::DecodeError::NotANumber) => r matches Err(AccessError::NotANumber(p)) && p@ == a.path@,
        },
        (Some(v), Reply::Written(Ok(_))) => r == Ok::<u32, AccessError>(v),
        (Some(_), Reply::Written(Err(e))) => r matches Err(AccessError::WriteFailed(p, f)) && p@ == a.path@ && f@ == e@,
        _ => r matches Err(AccessError::UnexpectedReply),
    }
}

impl NodeAccess {
    /// The request that performs this access.
    pub fn request(&self) -> (q: Request)
        ensures
            node_request(*self, q),
    {
        match self.setting {
            None => Request::Read(self.path.clone()),
            Some(v) => Request::Write(self.path.clone(), crate::decimal::encode_u32(v)),
        }
    }

    /// The outcome, once `reply` answers the request: the value read, or the
    /// value written.
    pub fn finish(&self, reply: Reply) -> (r: Result<u32, AccessError>)
        ensures
            node_outcome(*self, reply, r),
    {
        match (self.setting, reply) {
            (None, Reply::Contents(Err(e))) => Err(AccessError::ReadFailed(self.path.clone(), e)),
            (None, Reply::Contents(Ok(b))) => match crate::decimal::decode_u32(b.as_slice()) {
                Ok(v) => Ok(v),
                Err(crate::decimal::DecodeError::NotText) => Err(AccessError::NotText(self.path.clone())),
                Err(crate::decimal::DecodeError::NotANumber) => Err(AccessError::NotANumber(self.path.clone())),
            },
            (Some(v), Reply::Written(Ok(_))) => Ok(v),
            (Some(_), Reply::Written(Err(e))) => Err(AccessError::WriteFailed(self.path.clone(), e)),
            _ => Err(AccessError::UnexpectedReply),
        }
    }
}

/// A value written to a control file is read back unchanged: the bytes that
/// the write of `v` hands over, once read, decode to `v`.
pub proof fn lemma_write_then_read(v: u32, path: String, q: Request)
    requires
        node_request(NodeAccess { path: path, setting: Some(v) }, q),
    ensures
        q matches Request::Write(p, b) && node_outcome(
            NodeAccess { path: path, setting: None },
            Reply::Contents(Ok(b)),
            Ok(v),
        ),
{
    crate::decimal::lemma_round_trip(v);
}

} // verus!
