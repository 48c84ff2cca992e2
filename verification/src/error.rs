//! The errors of the library.

use aria2_rs::Error as RpcFailure;
use std::time::Duration;
use vstd::prelude::*;

verus! {

/// `aria2_rs::Error`, the error of an RPC call. Opaque: it is only carried.
#[verifier::external_type_specification]
#[verifier::external_body]
pub struct ExRpcFailure(RpcFailure);

/// `std::io::Error`, the error of spawning a process. Opaque: it is only
/// carried.
#[verifier::external_type_specification]
#[verifier::external_body]
pub struct ExIoError(std::io::Error);

/// What an operation of the downloader can fail with.
#[derive(Debug)]
pub enum Error {
    /// `aria2c` could not be spawned.
    ProcessStart(std::io::Error),
    /// `aria2c` was spawned, but its RPC port did not answer in time.
    ConnectTimeout(Duration),
    /// The URI list was empty, or one of its URIs was blank.
    InvalidInput { message: String },
    /// An RPC request failed.
    Rpc(RpcFailure),
    /// The operation needs a process and none is held.
    NotRunning,
    /// The download ended in aria2's error state.
    DownloadFailed { gid: String, message: String },
    /// The progress channel was closed.
    ChannelClosed,
}

impl From<RpcFailure> for Error {
    fn from(failure: RpcFailure) -> (error: Error) {
        Error::Rpc(failure)
    }
}

impl vstd::std_specs::convert::FromSpecImpl<RpcFailure> for Error {
    open spec fn obeys_from_spec() -> bool {
        true
    }

    open spec fn from_spec(failure: RpcFailure) -> Error {
        Error::Rpc(failure)
    }
}

/// What a finished RPC call means to the caller: its reply, or
/// [`Error::Rpc`] with the failure it ended in.
pub fn rpc_result<T>(reply: Result<T, RpcFailure>) -> (result: Result<T, Error>)
    ensures
        result == (match reply {
            Ok(value) => Ok::<T, Error>(value),
            Err(failure) => Err::<T, Error>(Error::Rpc(failure)),
        }),
{
    match reply {
        Ok(value) => Ok(value),
        Err(failure) => Err(Error::from(failure)),
    }
}

/// What an attempt to spawn `aria2c` means to the caller: the child, or
/// [`Error::ProcessStart`] with the reason.
pub fn spawn_result<T>(child: Result<T, std::io::Error>) -> (result: Result<T, Error>)
    ensures
        result == (match child {
            Ok(value) => Ok::<T, Error>(value),
            Err(reason) => Err::<T, Error>(Error::ProcessStart(reason)),
        }),
{
    match child {
        Ok(value) => Ok(value),
        Err(reason) => Err(Error::ProcessStart(reason)),
    }
}

} // verus!
