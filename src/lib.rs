//! Native host logic for a desktop text-transformation utility: a capped
//! execution-log history, the state of the global capture shortcut, the
//! split of the setup file from its secret, and the credential-vault calls
//! that hold that secret.

pub mod history;
pub mod text;
pub mod vault;
pub mod shortcut;
pub mod setup;
pub mod permissions;
