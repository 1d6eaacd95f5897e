use vstd::prelude::*;

verus! {

/// A connection stream that can be moved between the scheduler's worker
/// threads; the HTTP client adds its read and write capabilities on top.
pub trait HyperIo: Unpin + Send {}

impl<T: Unpin + Send> HyperIo for T {}


/// Where the connection to the server under test goes.
pub enum Target {
    /// A TCP endpoint on the IPv4 loopback interface.
    Tcp { port: u16 },
    /// A filesystem path naming a Unix domain socket.
    Unix { path: String },
}

/// A connection target that is not configured exactly once.
#[derive(PartialEq, Eq, Structural, Debug, Clone, Copy)]
pub enum ConfigError {
    /// Neither a port nor a socket path was given.
    NoTarget,
    /// Both a port and a socket path were given.
    BothTargets,
}

impl ConfigError {
    /// The message shown to the operator.
    pub fn message(&self) -> (r: &'static str) {
        "Either server port or unix socket path must be specified"
    }
}

/// Picks the single connection target; this performs no I/O.
pub fn select_target(server_port: Option<u16>, unix_socket_path: Option<String>) -> (r: Result<
    Target,
    ConfigError,
>)
    ensures
        (server_port is None && unix_socket_path is None) <==> r == Err::<Target, _>(
            ConfigError::NoTarget,
        ),
        (server_port is Some && unix_socket_path is Some) <==> r == Err::<Target, _>(
            ConfigError::BothTargets,
        ),
        server_port is Some && unix_socket_path is None ==> r == Ok::<_, ConfigError>(
            Target::Tcp { port: server_port->0 },
        ),
        server_port is None && unix_socket_path is Some ==> (r matches Ok(Target::Unix { path })
            && path@ == unix_socket_path->0@),
{
    match (server_port, unix_socket_path) {
        (Some(port), None) => Ok(Target::Tcp { port }),
        (None, Some(path)) => Ok(Target::Unix { path }),
        (None, None) => Err(ConfigError::NoTarget),
        (Some(_), Some(_)) => Err(ConfigError::BothTargets),
    }
}

} // verus!
