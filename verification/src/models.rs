//! The data carried between the client and the backup server.
//!
//! These are plain values: the binary that embeds this library converts
//! between them and the JSON bodies of the HTTP API.

use vstd::prelude::*;

verus! {

/// The full server state returned by the information call: storage totals
/// and the lists of connected servers and tracked files.  It is fetched once
/// per command and is the sole source of truth for that command.
#[derive(Debug, PartialEq, Eq, Clone)]
pub struct InfoRoot {
    /// The total available space for backup in bytes.
    pub total_usage_size: u64,
    /// The space used on the server for backups in bytes.
    pub used_data: u64,
    /// The amount of data in bytes that is not secured on any remote server.
    pub data_unsecured: u64,
    /// The amount of data in bytes that is only secured on one remote server.
    pub data_secured: u64,
    /// The amount of data in bytes that is secured on two remote servers.
    pub data_safely_secured: u64,
    /// The list of added servers.
    pub servers: Vec<InfoServer>,
    /// The list of files tracked on the server.
    pub files: Vec<InfoFile>,
}

/// One connected server in the [`InfoRoot::servers`] list.
#[derive(Debug, PartialEq, Eq, Clone)]
pub struct InfoServer {
    /// The hostname of the server.
    pub hostname: String,
    /// Collection of known old hostnames for the server.
    pub old_hostnames: Vec<String>,
    /// The name of the owner of the server.
    pub owner: String,
    /// The size of blocks on the server in bytes.
    pub block_size: u64,
    /// The amount of free blocks on the server.
    pub free_blocks: u64,
    /// The amount of blocks used by this server on the remote server.
    pub used_blocks: u64,
    /// The portion of blocks in percent that are checked on every healthcheck.
    pub healthcheck_percent: u8,
    /// The interval in minutes where healthchecks are done.
    pub healthcheck_interval: u64,
    /// If this server is verified on our server.
    pub is_verified: bool,
    /// If this server has verified our server.
    pub is_confirmed: bool,
    /// If this server is healthy.
    pub healthy: bool,
}

/// One tracked file in the [`InfoRoot::files`] list.  The server assigns the
/// identifier; the path is the synchronization key and is matched against
/// local paths by exact string equality, with no normalization.
#[derive(Debug, PartialEq, Eq, Clone)]
pub struct InfoFile {
    /// The identifier of the file on the server.
    pub id: String,
    /// The local path of the file on the machine.
    pub path: String,
    /// The Unix timestamp in whole seconds of the last modification of the
    /// file version held by the server.
    pub last_modified: i64,
}

/// The response to registering a new file: the identifier the server
/// assigned to it.
#[derive(Debug, PartialEq, Eq, Clone)]
pub struct FilePostRoot {
    /// The identifier of the file on the server.
    pub id: String,
}

/// The response to the server-discovery call.
#[derive(Debug, PartialEq, Eq, Clone)]
pub struct ServerRoot {
    /// The list of discovered servers that have not been added yet.
    pub servers: Vec<ServerItem>,
}

/// One discovered server in the [`ServerRoot::servers`] list.
#[derive(Debug, PartialEq, Eq, Clone)]
pub struct ServerItem {
    /// The hostname of the server.
    pub hostname: String,
    /// The name of the owner of the server.
    pub owner: String,
    /// The size of blocks on the server in bytes.
    pub block_size: u64,
    /// The amount of free blocks on the server.
    pub free_blocks: u64,
    /// The portion of blocks in percent that are checked on every healthcheck.
    pub healthcheck_percent: u8,
    /// The interval in minutes where healthchecks are done.
    pub healthcheck_interval: u64,
    /// The list of hash methods that both sides support.
    pub hash_methods: Vec<String>,
}

/// The response to adding or confirming a server: the backup code that the
/// user must write down.
#[derive(Debug, PartialEq, Eq, Clone)]
pub struct NewServerRoot {
    /// The backup code that needs to be saved somewhere.
    pub backup_code: String,
}

/// The request body used when a call carries no payload: the body is nothing
/// but the wrapper around the fresh nonce.
#[derive(Debug, PartialEq, Eq, Clone)]
pub struct EmptyBody {
    /// Nonce for the signature, fresh per request.
    pub nonce: String,
}

/// The request body used to register a new file.
#[derive(Debug, PartialEq, Eq, Clone)]
pub struct PostFileBody {
    /// The local path of the file on the machine.
    pub path: String,
    /// Nonce for the signature, fresh per request.
    pub nonce: String,
}

/// The contents of the configuration file: the base URL of the API.
#[derive(Debug, PartialEq, Eq, Clone)]
pub struct JsonConfig {
    /// The base URL of the API.
    pub url: String,
}

/// The mutual-verification state of a connected server, derived from its two
/// state flags.
#[derive(Clone, Copy, Debug, PartialEq, Eq, Structural)]
pub enum ServerTrust {
    /// Verified on both sides; the server is usable.
    Confirmed,
    /// Verified here, still waiting for the remote side to confirm.
    WaitingForRemote,
    /// Confirmed remotely, still waiting for confirmation here.
    WaitingForConfirmation,
    /// Neither flag is set: an illegal record, reported and skipped rather
    /// than treated as fatal.
    Illegal,
}

/// The verification state that a pair of flags denotes.
pub open spec fn spec_server_trust(is_verified: bool, is_confirmed: bool) -> ServerTrust {
    if is_verified && is_confirmed {
        ServerTrust::Confirmed
    } else if is_verified {
        ServerTrust::WaitingForRemote
    } else if is_confirmed {
        ServerTrust::WaitingForConfirmation
    } else {
        ServerTrust::Illegal
    }
}

impl InfoServer {
    /// Classify the mutual-verification state of this server.
    pub fn trust(&self) -> (r: ServerTrust)
        ensures
            r == spec_server_trust(self.is_verified, self.is_confirmed),
    {
        if self.is_verified && self.is_confirmed {
            ServerTrust::Confirmed
        } else if self.is_verified {
            ServerTrust::WaitingForRemote
        } else if self.is_confirmed {
            ServerTrust::WaitingForConfirmation
        } else {
            ServerTrust::Illegal
        }
    }
}

/// The share of `total` taken by `part`, in whole percent, rounded down.
/// Used for the storage statistics of the status display.
pub fn percent_of(part: u64, total: u64) -> (r: u64)
    requires
        total > 0,
        part <= total,
    ensures
        r == part as int * 100 / total as int,
        r <= 100,
{
    proof {
        assert(part as int * 100 <= total as int * 100) by (nonlinear_arith)
            requires
                part <= total,
        ;
        assert(part as int * 100 / total as int <= 100) by (nonlinear_arith)
            requires
                total > 0,
                part as int * 100 <= total as int * 100,
        ;
    }
    ((part as u128) * 100 / (total as u128)) as u64
}

} // verus!
