//! Structured failures that the backend reports or that a handler raises itself.

use vstd::prelude::*;

verus! {

/// Classification of a failure.
#[derive(Clone, Copy, Debug, PartialEq, Eq, Structural)]
pub enum ErrCode {
    Bug,
    Timeout,
    RemoteRejected,
    BadRemoteReply,
    EntityNotFound,
    NoShard,
    AccessDenied,
    SessionExpired,
    EntityConflict,
}

impl ErrCode {
    /// The number that stands for a code in a rendered error.
    pub open spec fn number(self) -> u64 {
        match self {
            ErrCode::Bug => 0,
            ErrCode::Timeout => 1,
            ErrCode::RemoteRejected => 2,
            ErrCode::BadRemoteReply => 3,
            ErrCode::EntityNotFound => 4,
            ErrCode::NoShard => 6,
            ErrCode::AccessDenied => 7,
            ErrCode::SessionExpired => 8,
            ErrCode::EntityConflict => 9,
        }
    }

    /// The number that stands for a code in a rendered error.
    pub fn value(&self) -> (n: u64)
        ensures
            n == self.number(),
    {
        match self {
            ErrCode::Bug => 0,
            ErrCode::Timeout => 1,
            ErrCode::RemoteRejected => 2,
            ErrCode::BadRemoteReply => 3,
            ErrCode::EntityNotFound => 4,
            ErrCode::NoShard => 6,
            ErrCode::AccessDenied => 7,
            ErrCode::SessionExpired => 8,
            ErrCode::EntityConflict => 9,
        }
    }
}

/// A failure with its classification and a message for the reader.
#[derive(Clone, Debug, PartialEq, Eq)]
pub struct NetError {
    pub code: ErrCode,
    pub msg: String,
}

/// What a `NetError` stands for.
pub struct NetErrorView {
    pub code: ErrCode,
    pub msg: Seq<char>,
}

impl View for NetError {
    type V = NetErrorView;

    open spec fn view(&self) -> NetErrorView {
        NetErrorView { code: self.code, msg: self.msg@ }
    }
}

/// Builds a failure from a code and a message.
pub fn err(code: ErrCode, msg: &str) -> (e: NetError)
    ensures
        e@ == (NetErrorView { code, msg: msg@ }),
{
    NetError { code, msg: msg.to_owned() }
}

} // verus!
