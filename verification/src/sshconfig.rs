//! Connection target records taken from an SSH client configuration.

use vstd::prelude::*;

verus! {

/// Key elements of one SSH configuration entry.
///
/// Parsing the configuration file is a collaborator's concern; the record
/// itself is plain data that identifies one connection target.
#[derive(Clone, Debug, Hash, PartialEq, Eq)]
pub struct SshConfigItem {
    /// Alias name in the configuration.
    pub host: String,
    /// User name.
    pub user: String,
    /// IP or DNS.
    pub hostname: String,
}

} // verus!
