//! Message numbers of the SSH agent protocol.

use vstd::prelude::*;

verus! {

/// The agent could not do what was asked.
pub const FAILURE: u8 = 5;

/// The agent did what was asked, and has nothing to say.
pub const SUCCESS: u8 = 6;

/// Asks for the list of keys.
pub const REQUEST_IDENTITIES: u8 = 11;

/// Answers with the list of keys.
pub const IDENTITIES_ANSWER: u8 = 12;

/// Asks for a signature.
pub const SIGN_REQUEST: u8 = 13;

/// Answers with a signature.
pub const SIGN_RESPONSE: u8 = 14;

/// Asks for an extension by its name.
pub const EXTENSION: u8 = 27;

/// The name of the extension that binds a session to a host key.
pub const SESSION_BIND: &'static str = "session-bind@openssh.com";

} // verus!
