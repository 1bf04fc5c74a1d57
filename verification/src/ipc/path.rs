//! The names of the local endpoints, derived from the current user.

use vstd::prelude::*;

use crate::encoding::base64_url_text;
use crate::encoding::digest_name;
use crate::encoding::sha256_digest;
use crate::text::joined;

verus! {

/// The platforms that name their endpoints differently.
#[derive(Debug, Clone, Copy, PartialEq, Eq)]
pub enum Platform {
    Windows,
    MacOs,
    Linux,
}

/// Why an endpoint cannot be named.
#[derive(Debug, Clone, Copy, PartialEq, Eq)]
pub enum PathError {
    /// Neither an override nor the home directory is known.
    NoHomeDirectory,
}

/// The name of a named pipe for the user whose home directory has the given
/// encoded bytes: one pipe per user, without reserved characters.
pub open spec fn windows_pipe_name(home: Seq<u8>, name: Seq<char>) -> Seq<char> {
    "\\\\.\\pipe\\"@ + base64_url_text(sha256_digest(home)) + ".app."@ + name
}

/// The path of an endpoint on macOS.
pub open spec fn macos_socket_name(name: Seq<char>) -> Seq<char> {
    "/tmp/app."@ + name
}

/// The directory of the endpoints on Linux, below the user's cache
/// directory.
pub open spec fn linux_socket_directory(cache_directory: Seq<char>) -> Seq<char> {
    cache_directory + "/com.bitwarden.desktop"@
}

/// The path of an endpoint on Linux.
pub open spec fn linux_socket_name(cache_directory: Seq<char>, name: Seq<char>) -> Seq<char> {
    linux_socket_directory(cache_directory) + "/app."@ + name
}

/// The path of the agent's socket: the override where one is given, else the
/// socket file in the home directory.
pub open spec fn agent_socket_name(override_path: Option<Seq<char>>, home: Option<Seq<char>>)
    -> Result<Seq<char>, PathError> {
    match override_path {
        Some(path) => Ok(path),
        None => match home {
            Some(directory) => Ok(directory + "/.bitwarden-ssh-agent.sock"@),
            None => Err(PathError::NoHomeDirectory),
        },
    }
}

impl PathError {
    /// What the error says.
    pub fn message(&self) -> (text: String)
        ensures
            text@ == "Could not determine home directory"@,
    {
        "Could not determine home directory".to_owned()
    }
}

/// Names the pipe of an endpoint on Windows. The home directory is hashed,
/// which keeps reserved characters out of the name and bounds its length.
pub fn windows_path(home: &[u8], name: &str) -> (path: String)
    ensures
        path@ == windows_pipe_name(home@, name@),
{
    let hash = digest_name(home);
    let prefix = joined("\\\\.\\pipe\\", hash.as_str());
    let stem = joined(prefix.as_str(), ".app.");
    joined(stem.as_str(), name)
}

/// Names the socket of an endpoint on macOS.
pub fn macos_path(name: &str) -> (path: String)
    ensures
        path@ == macos_socket_name(name@),
{
    joined("/tmp/app.", name)
}

/// Names the directory of the endpoints on Linux; it may have to be
/// created.
pub fn linux_directory(cache_directory: &str) -> (path: String)
    ensures
        path@ == linux_socket_directory(cache_directory@),
{
    joined(cache_directory, "/com.bitwarden.desktop")
}

/// Names the socket of an endpoint on Linux.
pub fn linux_path(cache_directory: &str, name: &str) -> (path: String)
    ensures
        path@ == linux_socket_name(cache_directory@, name@),
{
    let directory = linux_directory(cache_directory);
    let stem = joined(directory.as_str(), "/app.");
    joined(stem.as_str(), name)
}

/// Resolve the path to the IPC socket. `home` holds the encoded bytes of the
/// home directory and is read on Windows; `cache_directory` is read on
/// Linux.
pub fn path(platform: Platform, home: &[u8], cache_directory: &str, name: &str) -> (path: String)
    ensures
        path@ == match platform {
            Platform::Windows => windows_pipe_name(home@, name@),
            Platform::MacOs => macos_socket_name(name@),
            Platform::Linux => linux_socket_name(cache_directory@, name@),
        },
{
    match platform {
        Platform::Windows => windows_path(home, name),
        Platform::MacOs => macos_path(name),
        Platform::Linux => linux_path(cache_directory, name),
    }
}

/// Resolves the path of the agent's socket from the override of the
/// environment and the home directory.
pub fn agent_socket_path(override_path: Option<String>, home: Option<String>) -> (path: Result<
    String,
    PathError,
>)
    ensures
        match path {
            Ok(found) => agent_socket_name(
                match override_path {
                    Some(given) => Some(given@),
                    None => None,
                },
                match home {
                    Some(directory) => Some(directory@),
                    None => None,
                },
            ) == Ok::<Seq<char>, PathError>(found@),
            Err(error) => override_path is None && home is None && error
                == PathError::NoHomeDirectory,
        },
{
    match override_path {
        Some(path) => Ok(path),
        None => match home {
            Some(directory) => Ok(joined(directory.as_str(), "/.bitwarden-ssh-agent.sock")),
            None => Err(PathError::NoHomeDirectory),
        },
    }
}

} // verus!
