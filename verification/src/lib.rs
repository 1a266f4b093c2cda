//! Lifecycle of locally captured secrets that are known to their users only by
//! opaque handles.
pub mod allowlist;
pub mod cgroups;
pub mod clock;
pub mod environment;
pub mod flow;
pub mod framing;
pub mod identity;
pub mod keyring;
pub mod laws;
pub mod lifecycle;
pub mod number;
pub mod paths;
pub mod process;
pub mod promises;
pub mod reconcile;
pub mod record;
pub mod requests;
pub mod run;
pub mod secrecy;
pub mod secret;
pub mod state;
pub mod status;
pub mod steps;
pub mod text;
pub mod textmap;
pub mod token;
pub mod trust;
pub mod validate;
