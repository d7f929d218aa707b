//! Host-side plumbing for sharing directories into a QEMU guest over
//! virtio-fs: naming of each share, the mount units the guest consumes, and
//! the hypervisor arguments that wire everything together.
pub mod error;
pub mod laws;
pub mod share;
pub mod shares;
pub mod text;
