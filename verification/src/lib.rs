//! Verified core of a command-line client that keeps a set of local files
//! synchronized with a remote backup service over an authenticated HTTP API.
//!
//! The crate contains the decision logic of the client, with contracts
//! checked by Verus:
//!
//! - [`reconcile`]: the pure per-file reconciliation rules that compare local
//!   and remote modification timestamps and produce a verdict.
//! - [`sync`]: the orchestration layer that turns verdicts into planned
//!   transfer actions for a full sweep or a single file.
//! - [`envelope`]: construction of signed, replay-resistant request
//!   envelopes (random nonce, JSON body, RSA-SHA256 signature).
//! - [`models`]: the data carried between the client and the server.
//! - [`errors`]: the error values reported for refused operations.
//! - [`cli`]: the command-line grammar of the client.
//!
//! All network and filesystem traffic is left to the binary that embeds this
//! library; the library itself only decides and builds values.

pub mod cli;
pub mod envelope;
pub mod errors;
pub mod models;
pub mod reconcile;
pub mod sync;

pub use reconcile::LocalFileState;
pub use reconcile::Verdict;
