//! Errors raised while setting up shares.
use vstd::prelude::*;

verus! {

/// Declares `std::io::Error` so that errors can carry it; nothing is assumed
/// of its contents.
#[verifier::external_type_specification]
#[verifier::external_body]
pub struct ExIoError(std::io::Error);

/// Everything that can go wrong while preparing shares for a VM.
#[derive(Debug)]
pub enum ShareError {
    /// The path of a share could not be turned into a mount unit name; holds
    /// the path.
    InvalidMountTagError(String),
    /// The virtio-fs daemon of a share could not be started.
    VirtiofsdError(std::io::Error),
    /// A mount unit file could not be created or written.
    MountUnitGenerationError(std::io::Error),
    /// No directory is being shared.
    EmptyShareError,
}

} // verus!
