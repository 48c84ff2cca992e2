//! Connecting to the RPC server of a process that was just started.

use crate::error::Error;
use crate::settings::whole_seconds;
use aria2_rs::Error as RpcFailure;
use std::time::Duration;
use vstd::prelude::*;

verus! {

/// How long to keep trying to connect to a new process.
pub const CONNECT_TIMEOUT_SECS: u64 = 10;

/// The pause between two attempts.
pub const RETRY_PAUSE_MILLIS: u64 = 200;

/// What to do after an attempt to connect.
pub enum ConnectStep<C> {
    /// Go on with this client.
    Connected(C),
    /// Try again after [`RETRY_PAUSE_MILLIS`].
    Retry,
    /// Give up.
    Failed(Error),
}

/// Decides what to do after an attempt to connect has ended, `elapsed_nanos`
/// after the first one began. A failed attempt is repeated until
/// `timeout_secs` have passed.
pub fn connect_step<C>(
    attempt: Result<C, RpcFailure>,
    elapsed_nanos: u128,
    timeout_secs: u64,
) -> (step: ConnectStep<C>)
    ensures
        step == (match attempt {
            Ok(client) => ConnectStep::Connected(client),
            Err(_) => if elapsed_nanos < timeout_secs * 1_000_000_000 {
                ConnectStep::Retry
            } else {
                ConnectStep::Failed(Error::ConnectTimeout(whole_seconds(timeout_secs)))
            },
        }),
{
    match attempt {
        Ok(client) => ConnectStep::Connected(client),
        Err(_) => {
            if elapsed_nanos < timeout_secs as u128 * 1_000_000_000 {
                ConnectStep::Retry
            } else {
                ConnectStep::Failed(Error::ConnectTimeout(Duration::from_secs(timeout_secs)))
            }
        },
    }
}

} // verus!
