use vstd::prelude::*;

verus! {

/// The target platform the binary was built for, as far as the listener
/// builder cares: only whether the platform belongs to the family that
/// offers the port-reuse socket option.  `Other` stands for every
/// platform outside that set.
#[derive(Clone, Copy, Debug, PartialEq, Eq, Structural)]
pub enum Platform {
    Linux,
    Android,
    Macos,
    Ios,
    Freebsd,
    Openbsd,
    Netbsd,
    Other,
}

/// The capability table: port-reuse (SO_REUSEPORT) is available exactly on
/// the Linux, Android, macOS, iOS, FreeBSD, OpenBSD and NetBSD families.
pub open spec fn reuse_port_supported_spec(p: Platform) -> bool {
    match p {
        Platform::Linux => true,
        Platform::Android => true,
        Platform::Macos => true,
        Platform::Ios => true,
        Platform::Freebsd => true,
        Platform::Openbsd => true,
        Platform::Netbsd => true,
        Platform::Other => false,
    }
}

impl Platform {
    /// Whether this platform offers the port-reuse socket option.  On an
    /// unsupported platform the option is never requested and the server
    /// still runs, single-process only.
    pub fn reuse_port_supported(&self) -> (b: bool)
        ensures
            b == reuse_port_supported_spec(*self),
    {
        match self {
            Platform::Other => false,
            _ => true,
        }
    }
}

} // verus!
