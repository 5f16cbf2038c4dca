//! Client of the service manager: services are reached by name through the
//! manager's port, after a permission check on the calling process.
//!
//! This module builds the requests and reads the answers; sending them and the
//! framing of the message are the caller's.
use vstd::prelude::*;
use crate::error::{Error, KernelError};

verus! {

/// Command that asks for a session to a registered service.
pub const CMD_GET_SERVICE: u32 = 1;
/// Command that registers a service and asks for its port.
pub const CMD_REGISTER_SERVICE: u32 = 2;

/// A handle to the client side of a session.
#[derive(Clone, Copy, Debug, PartialEq, Eq, Structural)]
pub struct ClientSession(pub u32);

/// A handle to a port on which a service accepts sessions.
#[derive(Clone, Copy, Debug, PartialEq, Eq, Structural)]
pub struct ServerPort(pub u32);

/// Main interface of the service manager: a session to its port.
#[derive(Clone, Copy, Debug, PartialEq, Eq, Structural)]
pub struct IUserInterface(pub ClientSession);

/// What to do after one attempt to connect to the manager's port.
#[derive(Clone, Copy, Debug, PartialEq, Eq, Structural)]
pub enum ConnectStep {
    /// Connected.
    Connected(IUserInterface),
    /// The port does not exist yet: yield, then try again.
    Retry,
    /// Give up with this error.
    Failed(Error),
}

/// A request to the manager: its command and the raw bytes of its arguments,
/// laid out as a C struct on a little-endian machine.
#[derive(Debug)]
pub struct Request {
    pub session: u32,
    pub cmd_id: u32,
    pub raw: Vec<u8>,
}

/// The answer to a request, as far as it matters here.
#[derive(Clone, Copy, Debug)]
pub struct Reply {
    /// Why the kernel did not deliver the request or its answer, if it did not.
    pub send_error: Option<KernelError>,
    /// The result code the manager answered with: zero for success.
    pub result_code: u32,
    /// The handle moved to the caller, if the answer carries one.
    pub handle: Option<u32>,
}

/// Byte `i` of `v` in little-endian order.
pub open spec fn le_byte(v: u64, i: int) -> u8 {
    ((v >> ((8 * i) as u64)) & 0xff) as u8
}

/// The `n` low bytes of `v`, least significant first.
pub open spec fn le_bytes(v: u64, n: nat) -> Seq<u8> {
    Seq::new(n, |i: int| le_byte(v, i))
}

/// Arguments of the get-service command: the name.
pub open spec fn get_service_raw(name: u64) -> Seq<u8> {
    le_bytes(name, 8)
}

/// Arguments of the register-service command: the name, the light flag, three
/// bytes of padding, the maximum number of sessions.
pub open spec fn register_service_raw(name: u64, is_light: bool, max_handles: u32) -> Seq<u8> {
    le_bytes(name, 8) + seq![if is_light { 1u8 } else { 0u8 }, 0u8, 0u8, 0u8]
        + le_bytes(max_handles as u64, 4)
}

/// The handle an answer gives, or the error it carries: first a failed
/// delivery, then a nonzero result code, then a missing handle.
pub open spec fn reply_handle(reply: Reply) -> Result<u32, Error> {
    match reply.send_error {
        Some(e) => Err(Error::Kernel(e)),
        None => if reply.result_code != 0 {
            Err(Error::Service(reply.result_code))
        } else {
            match reply.handle {
                Some(h) => Ok(h),
                None => Err(Error::MissingHandle),
            }
        },
    }
}

/// Appends the `n` low bytes of `v`, least significant first.
fn push_le(out: &mut Vec<u8>, v: u64, n: usize)
    requires
        n <= 8,
    ensures
        final(out)@ == old(out)@ + le_bytes(v, n as nat),
{
    let start = out.len();
    let mut i: usize = 0;
    while i < n
        invariant
            i <= n <= 8,
            out@.len() == old(out)@.len() + i,
            start == old(out)@.len(),
            out@ =~= old(out)@ + le_bytes(v, i as nat),
        decreases n - i,
    {
        out.push(((v >> ((8 * i) as u64)) & 0xff) as u8);
        i = i + 1;
        assert(out@ =~= old(out)@ + le_bytes(v, i as nat));
    }
}

/// The handle an answer gives, or the error it carries.
fn read_reply(reply: Reply) -> (r: Result<u32, Error>)
    ensures
        r == reply_handle(reply),
{
    match reply.send_error {
        Some(e) => Err(Error::Kernel(e)),
        None => if reply.result_code != 0 {
            Err(Error::Service(reply.result_code))
        } else {
            match reply.handle {
                Some(h) => Ok(h),
                None => Err(Error::MissingHandle),
            }
        },
    }
}

impl IUserInterface {
    /// The decision after one attempt to connect to the manager's port: a
    /// session is the interface; a missing port means wait and retry; any
    /// other error ends the attempt.
    pub fn raw_new(connect: Result<u32, KernelError>) -> (r: ConnectStep)
        ensures
            connect is Ok ==> r == ConnectStep::Connected(
                IUserInterface(ClientSession(connect->Ok_0)),
            ),
            connect == Err::<u32, KernelError>(KernelError::NoSuchEntry) ==> r == ConnectStep::Retry,
            connect is Err && connect != Err::<u32, KernelError>(KernelError::NoSuchEntry) ==> r
                == ConnectStep::Failed(Error::Kernel(connect->Err_0)),
    {
        match connect {
            Ok(s) => ConnectStep::Connected(IUserInterface(ClientSession(s))),
            Err(KernelError::NoSuchEntry) => ConnectStep::Retry,
            Err(e) => ConnectStep::Failed(Error::Kernel(e)),
        }
    }

    /// The request for a session to the service called `name`.
    pub fn get_service(&self, name: u64) -> (r: Request)
        ensures
            r.session == (self.0).0,
            r.cmd_id == CMD_GET_SERVICE,
            r.raw@ == get_service_raw(name),
    {
        let mut raw: Vec<u8> = Vec::new();
        push_le(&mut raw, name, 8);
        assert(raw@ =~= get_service_raw(name));
        Request { session: (self.0).0, cmd_id: CMD_GET_SERVICE, raw }
    }

    /// The session that the answer to a get-service request gives.
    pub fn get_service_reply(reply: Reply) -> (r: Result<ClientSession, Error>)
        ensures
            r == match reply_handle(reply) {
                Ok(h) => Ok(ClientSession(h)),
                Err(e) => Err(e),
            },
    {
        match read_reply(reply) {
            Ok(h) => Ok(ClientSession(h)),
            Err(e) => Err(e),
        }
    }

    /// The request to register the service called `name`, accepting at most
    /// `max_handles` sessions.
    pub fn register_service(&self, name: u64, is_light: bool, max_handles: u32) -> (r: Request)
        ensures
            r.session == (self.0).0,
            r.cmd_id == CMD_REGISTER_SERVICE,
            r.raw@ == register_service_raw(name, is_light, max_handles),
    {
        let mut raw: Vec<u8> = Vec::new();
        push_le(&mut raw, name, 8);
        raw.push(if is_light { 1u8 } else { 0u8 });
        raw.push(0u8);
        raw.push(0u8);
        raw.push(0u8);
        push_le(&mut raw, max_handles as u64, 4);
        assert(raw@ =~= register_service_raw(name, is_light, max_handles));
        Request { session: (self.0).0, cmd_id: CMD_REGISTER_SERVICE, raw }
    }

    /// The port that the answer to a register-service request gives.
    pub fn register_service_reply(reply: Reply) -> (r: Result<ServerPort, Error>)
        ensures
            r == match reply_handle(reply) {
                Ok(h) => Ok(ServerPort(h)),
                Err(e) => Err(e),
            },
    {
        match read_reply(reply) {
            Ok(h) => Ok(ServerPort(h)),
            Err(e) => Err(e),
        }
    }
}

} // verus!
