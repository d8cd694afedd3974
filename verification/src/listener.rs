use vstd::prelude::*;
use vstd::string::StringExecFns;

use crate::addr::{BindAddr, Family, HostIp};
use crate::platform::{reuse_port_supported_spec, Platform};

verus! {

/// Declares socket2's raw socket type so that it can pass through
/// signatures; Verus sees nothing inside a value of it.
#[verifier::external_type_specification]
#[verifier::external_body]
pub struct ExSocket(socket2::Socket);

/// Declares tokio's asynchronous TCP listener type; opaque to Verus.
#[verifier::external_type_specification]
#[verifier::external_body]
pub struct ExTcpListener(tokio::net::TcpListener);

/// The connection-queue depth handed to listen: how many fully established
/// connections may wait to be accepted before the kernel turns further ones
/// away.
pub const DEFAULT_BACKLOG: i32 = 1024;

/// The step of listener construction at which a failure happened.
#[derive(Clone, Copy, Debug, PartialEq, Eq, Structural)]
pub enum BuildStep {
    Allocate,
    ReuseAddr,
    ReusePort,
    Bind,
    Listen,
    Nonblocking,
    Convert,
}

/// A fatal startup error: the step that failed, and the text of the
/// operating-system error behind it.
#[derive(Debug)]
pub struct BuildError {
    pub step: BuildStep,
    pub message: String,
}

/// The fixed label naming a construction step in error descriptions.
pub open spec fn step_label(s: BuildStep) -> Seq<char> {
    match s {
        BuildStep::Allocate => "socket allocation failed"@,
        BuildStep::ReuseAddr => "enabling address reuse failed"@,
        BuildStep::ReusePort => "enabling port reuse failed"@,
        BuildStep::Bind => "bind failed"@,
        BuildStep::Listen => "listen failed"@,
        BuildStep::Nonblocking => "setting non-blocking mode failed"@,
        BuildStep::Convert => "conversion to the async listener failed"@,
    }
}

fn step_label_str(step: BuildStep) -> (r: &'static str)
    ensures
        r@ == step_label(step),
{
    match step {
        BuildStep::Allocate => "socket allocation failed",
        BuildStep::ReuseAddr => "enabling address reuse failed",
        BuildStep::ReusePort => "enabling port reuse failed",
        BuildStep::Bind => "bind failed",
        BuildStep::Listen => "listen failed",
        BuildStep::Nonblocking => "setting non-blocking mode failed",
        BuildStep::Convert => "conversion to the async listener failed",
    }
}

impl BuildError {
    /// A one-line description: which step failed, and the OS error text.
    pub fn describe(&self) -> (r: String)
        ensures
            r@ == step_label(self.step) + ": "@ + self.message@,
    {
        let mut s = step_label_str(self.step).to_owned();
        s.append(": ");
        s.append(self.message.as_str());
        s
    }
}

/// A fully configured listening socket, wrapped for the asynchronous
/// runtime, together with the record of how it was configured.
pub struct ReuseListener {
    pub inner: tokio::net::TcpListener,
    pub addr: BindAddr,
    pub family: Family,
    pub reuse_port: bool,
    pub backlog: i32,
    pub nonblocking: bool,
}

impl ReuseListener {
    /// A well-formed listener: its family matches its address, its backlog
    /// is the fixed default, and it is non-blocking.
    pub open spec fn wf(self) -> bool {
        &&& self.family == self.addr.family_spec()
        &&& self.backlog == DEFAULT_BACKLOG
        &&& self.nonblocking
    }

    /// Hands the runtime's listener out; ownership moves to the caller and
    /// the configuration record is dropped.
    pub fn into_inner(self) -> tokio::net::TcpListener {
        self.inner
    }
}

/// Relies on socket2::Socket::new: allocates a streaming TCP socket of the
/// given family.  Success depends on the operating system, so nothing is
/// promised of the outcome.
#[verifier::external_body]
fn socket_new(family: Family) -> (r: Result<socket2::Socket, String>) {
    let domain = match family {
        Family::Inet => socket2::Domain::IPV4,
        Family::Inet6 => socket2::Domain::IPV6,
    };
    socket2::Socket::new(domain, socket2::Type::STREAM, Some(socket2::Protocol::TCP))
        .map_err(|e| e.to_string())
}

/// Relies on socket2::Socket::set_reuse_address: sets SO_REUSEADDR on the
/// socket.
#[verifier::external_body]
fn socket_set_reuse_address(s: &socket2::Socket, on: bool) -> (r: Result<(), String>) {
    s.set_reuse_address(on).map_err(|e| e.to_string())
}

/// Relies on socket2::Socket::set_reuse_port: sets SO_REUSEPORT on the
/// socket.
#[verifier::external_body]
fn socket_set_reuse_port(s: &socket2::Socket, on: bool) -> (r: Result<(), String>) {
    s.set_reuse_port(on).map_err(|e| e.to_string())
}

/// Relies on socket2::Socket::bind, and on socket2::SockAddr's conversion
/// from a standard socket address built out of the plain octets, segments
/// and port of the given address.
#[verifier::external_body]
fn socket_bind(s: &socket2::Socket, addr: &BindAddr) -> (r: Result<(), String>) {
    let ip = match addr.ip {
        HostIp::V4(o) => core::net::IpAddr::V4(core::net::Ipv4Addr::new(o[0], o[1], o[2], o[3])),
        HostIp::V6(g) => core::net::IpAddr::V6(core::net::Ipv6Addr::from(g)),
    };
    s.bind(&socket2::SockAddr::from(core::net::SocketAddr::new(ip, addr.port)))
        .map_err(|e| e.to_string())
}

/// Relies on socket2::Socket::listen: puts the socket into listening state
/// with the given backlog.
#[verifier::external_body]
fn socket_listen(s: &socket2::Socket, backlog: i32) -> (r: Result<(), String>) {
    s.listen(backlog).map_err(|e| e.to_string())
}

/// Relies on socket2::Socket::set_nonblocking: switches the socket into
/// non-blocking mode.
#[verifier::external_body]
fn socket_set_nonblocking(s: &socket2::Socket, on: bool) -> (r: Result<(), String>) {
    s.set_nonblocking(on).map_err(|e| e.to_string())
}

/// Relies on socket2's conversion of a socket into a standard TCP listener
/// (a move of the file descriptor that changes no socket option) and on
/// tokio::net::TcpListener::from_std.  from_std panics when no tokio
/// runtime with I/O enabled is active, so callers run inside the runtime.
#[verifier::external_body]
fn socket_into_tokio(s: socket2::Socket) -> (r: Result<tokio::net::TcpListener, String>) {
    match tokio::net::TcpListener::from_std(s.into()) {
        Ok(l) => Ok(l),
        Err(e) => Err(e.to_string()),
    }
}

/// Builds the listener, all or nothing: family from the address, allocate,
/// enable address reuse, enable port reuse exactly where the platform
/// supports it, bind, listen with the default backlog, set non-blocking,
/// and hand the socket to the asynchronous runtime.  A failing step aborts
/// construction and names itself in the error.  The final conversion
/// registers the socket with the tokio runtime, so this runs inside one.
pub fn build_listener(addr: &BindAddr, platform: Platform) -> (r: Result<
    ReuseListener,
    BuildError,
>)
    ensures
        r matches Ok(l) ==> {
            &&& l.wf()
            &&& l.addr == *addr
            &&& l.family == addr.family_spec()
            &&& l.reuse_port == reuse_port_supported_spec(platform)
            &&& l.backlog == DEFAULT_BACKLOG
            &&& l.nonblocking
        },
        r matches Err(e) && e.step is ReusePort ==> reuse_port_supported_spec(platform),
{
    let family = addr.family();
    let sock = match socket_new(family) {
        Ok(s) => s,
        Err(m) => {
            return Err(BuildError { step: BuildStep::Allocate, message: m });
        },
    };
    if let Err(m) = socket_set_reuse_address(&sock, true) {
        return Err(BuildError { step: BuildStep::ReuseAddr, message: m });
    }
    let use_reuse_port = platform.reuse_port_supported();
    if use_reuse_port {
        if let Err(m) = socket_set_reuse_port(&sock, true) {
            return Err(BuildError { step: BuildStep::ReusePort, message: m });
        }
    }
    if let Err(m) = socket_bind(&sock, addr) {
        return Err(BuildError { step: BuildStep::Bind, message: m });
    }
    if let Err(m) = socket_listen(&sock, DEFAULT_BACKLOG) {
        return Err(BuildError { step: BuildStep::Listen, message: m });
    }
    if let Err(m) = socket_set_nonblocking(&sock, true) {
        return Err(BuildError { step: BuildStep::Nonblocking, message: m });
    }
    let inner = match socket_into_tokio(sock) {
        Ok(l) => l,
        Err(m) => {
            return Err(BuildError { step: BuildStep::Convert, message: m });
        },
    };
    Ok(
        ReuseListener {
            inner,
            addr: *addr,
            family,
            reuse_port: use_reuse_port,
            backlog: DEFAULT_BACKLOG,
            nonblocking: true,
        },
    )
}

} // verus!
