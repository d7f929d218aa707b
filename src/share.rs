//! One directory shared into the guest through virtio-fs.
use vstd::prelude::*;
use vstd::string::*;

use vstd::utf8::{decode_utf8, valid_utf8};

use crate::error::ShareError;
use crate::text::{
    decimal, decimal_string, join_path, join_path_string, strings_view, trim_string, trimmed,
    utf8_string,
};

verus! {

/// What the caller asks of one share.
pub struct ShareOpts {
    /// Directory on the host to export; the guest mounts it at the same path.
    pub path: String,
    /// Whether the guest mounts it read-only.
    pub read_only: bool,
    /// Tag the guest mounts it by, in place of the one derived from the index.
    pub mount_tag: Option<String>,
}

/// The tag a share gets when none is given explicitly.
pub open spec fn default_mount_tag(id: nat) -> Seq<char> {
    "fs"@ + decimal(id)
}

/// The mount tag of a share: the explicit one if any, else the default.
pub open spec fn mount_tag_of(explicit: Option<String>, id: nat) -> Seq<char> {
    match explicit {
        Some(t) => t@,
        None => default_mount_tag(id),
    }
}

/// The name of the character device of a share; it depends on the index
/// alone.
pub open spec fn chardev_name(id: nat) -> Seq<char> {
    "fs_chardev"@ + decimal(id)
}

/// The mount option that sets the access mode.
pub open spec fn access_mode(read_only: bool) -> Seq<char> {
    if read_only {
        "ro"@
    } else {
        "rw"@
    }
}

/// A mount unit up to its access mode.
pub open spec fn unit_content_head(tag: Seq<char>, mountpoint: Seq<char>) -> Seq<char> {
    "[Unit]\nDescription=Mount "@ + tag + " at "@ + mountpoint
        + "\nRequires=systemd-modules-load.service\nAfter=systemd-modules-load.service\nBefore=local-fs.target\n\n[Mount]\nWhat="@
        + tag + "\nWhere="@ + mountpoint + "\nType=virtiofs\nOptions="@
}

/// The text of the mount unit that mounts the virtio-fs export `tag` at
/// `mountpoint`.
pub open spec fn unit_content(tag: Seq<char>, mountpoint: Seq<char>, read_only: bool) -> Seq<char> {
    unit_content_head(tag, mountpoint) + access_mode(read_only)
}

/// The hypervisor arguments of a share: a character device on the socket,
/// then the vhost-user-fs device that uses it.
pub open spec fn share_args(chardev: Seq<char>, socket: Seq<char>, tag: Seq<char>) -> Seq<Seq<char>> {
    seq![
        "-chardev"@,
        "socket,id="@ + chardev + ",path="@ + socket,
        "-device"@,
        "vhost-user-fs-pci,queue-size=1024,chardev="@ + chardev + ",tag="@ + tag,
    ]
}

/// The arguments that start the virtio-fs daemon of a share.
pub open spec fn daemon_args(socket: Seq<char>, source: Seq<char>) -> Seq<Seq<char>> {
    seq!["--socket-path="@ + socket, "-o"@, "source="@ + source, "-o"@, "cache=always"@]
}

/// The unit name read from what the path escaper printed: `None` when it
/// could not be run or failed, or when its output is not UTF-8.
pub open spec fn escaped_unit_name(output: Option<Vec<u8>>) -> Option<Seq<char>> {
    match output {
        Some(bytes) => if valid_utf8(bytes@) {
            Some(trimmed(decode_utf8(bytes@)))
        } else {
            None
        },
        None => None,
    }
}

/// One shared directory with its place among the shares of a VM.
pub struct VirtiofsShare {
    opts: ShareOpts,
    /// Position among the shares; makes the default tag, the character
    /// device and the socket unique.
    id: usize,
    /// Directory holding the sockets of all shares.
    state_dir: String,
}

impl VirtiofsShare {
    pub closed spec fn spec_opts(&self) -> ShareOpts {
        self.opts
    }

    pub closed spec fn spec_id(&self) -> nat {
        self.id as nat
    }

    pub closed spec fn spec_state_dir(&self) -> Seq<char> {
        self.state_dir@
    }

    pub open spec fn spec_path(&self) -> Seq<char> {
        self.spec_opts().path@
    }

    pub open spec fn spec_mount_tag(&self) -> Seq<char> {
        mount_tag_of(self.spec_opts().mount_tag, self.spec_id())
    }

    pub open spec fn spec_chardev_node(&self) -> Seq<char> {
        chardev_name(self.spec_id())
    }

    pub open spec fn spec_socket_path(&self) -> Seq<char> {
        join_path(self.spec_state_dir(), self.spec_mount_tag())
    }

    pub open spec fn spec_unit_content(&self) -> Seq<char> {
        unit_content(self.spec_mount_tag(), self.spec_path(), self.spec_opts().read_only)
    }

    pub open spec fn spec_qemu_args(&self) -> Seq<Seq<char>> {
        share_args(self.spec_chardev_node(), self.spec_socket_path(), self.spec_mount_tag())
    }

    /// A share of the directory in `opts`, at position `id`, with its socket
    /// under `state_dir`.
    pub fn new(opts: ShareOpts, id: usize, state_dir: String) -> (r: Self)
        ensures
            r.spec_opts() == opts,
            r.spec_id() == id as nat,
            r.spec_state_dir() == state_dir@,
    {
        VirtiofsShare { opts, id, state_dir }
    }

    /// The directory this share exports.
    pub fn path(&self) -> (r: &str)
        ensures
            r@ == self.spec_path(),
    {
        self.opts.path.as_str()
    }

    /// The tag the guest mounts this share by.
    pub fn mount_tag(&self) -> (r: String)
        ensures
            r@ == self.spec_mount_tag(),
    {
        match &self.opts.mount_tag {
            Some(tag) => tag.clone(),
            None => {
                let mut r = String::from_str("fs");
                r.append(decimal_string(self.id).as_str());
                r
            },
        }
    }

    /// The id of the character device that carries this share's socket.
    pub fn chardev_node(&self) -> (r: String)
        ensures
            r@ == self.spec_chardev_node(),
    {
        let mut r = String::from_str("fs_chardev");
        r.append(decimal_string(self.id).as_str());
        r
    }

    /// The socket the daemon of this share listens on.
    pub fn socket_path(&self) -> (r: String)
        ensures
            r@ == self.spec_socket_path(),
    {
        join_path_string(self.state_dir.as_str(), self.mount_tag().as_str())
    }

    /// The text of the mount unit that mounts this share in the guest.
    pub fn mount_unit_content(&self) -> (r: String)
        ensures
            r@ == self.spec_unit_content(),
    {
        let tag = self.mount_tag();
        let mountpoint = self.opts.path.as_str();
        let mut r = String::from_str("[Unit]\nDescription=Mount ");
        r.append(tag.as_str());
        r.append(" at ");
        r.append(mountpoint);
        r.append(
            "\nRequires=systemd-modules-load.service\nAfter=systemd-modules-load.service\nBefore=local-fs.target\n\n[Mount]\nWhat=",
        );
        r.append(tag.as_str());
        r.append("\nWhere=");
        r.append(mountpoint);
        r.append("\nType=virtiofs\nOptions=");
        if self.opts.read_only {
            r.append("ro");
        } else {
            r.append("rw");
        }
        r
    }

    /// The file name of this share's mount unit, from the output of
    /// `systemd-escape --suffix=mount --path` run on the share's path; `None`
    /// stands for an escaper that could not be run or exited with an error.
    pub fn mount_unit_name(&self, escaped: Option<Vec<u8>>) -> (r: Result<String, ShareError>)
        ensures
            escaped_unit_name(escaped) matches Some(name) ==> (r matches Ok(s) && s@ == name),
            escaped_unit_name(escaped) is None ==> (r matches Err(
                ShareError::InvalidMountTagError(p),
            ) && p@ == self.spec_path()),
    {
        let text = match &escaped {
            Some(bytes) => utf8_string(bytes.as_slice()),
            None => None,
        };
        match text {
            Some(t) => Ok(trim_string(t.as_str())),
            None => Err(ShareError::InvalidMountTagError(self.opts.path.clone())),
        }
    }

    /// The arguments for the virtio-fs daemon that serves this share: its
    /// socket, the exported directory, and caching always on.
    pub fn virtiofsd_args(&self) -> (r: Vec<String>)
        ensures
            strings_view(r@) == daemon_args(self.spec_socket_path(), self.spec_path()),
    {
        let mut socket = String::from_str("--socket-path=");
        socket.append(self.socket_path().as_str());
        let mut source = String::from_str("source=");
        source.append(self.opts.path.as_str());
        let mut r: Vec<String> = Vec::new();
        r.push(socket);
        r.push(String::from_str("-o"));
        r.push(source);
        r.push(String::from_str("-o"));
        r.push(String::from_str("cache=always"));
        assert(strings_view(r@) =~= daemon_args(self.spec_socket_path(), self.spec_path()));
        r
    }

    /// The hypervisor arguments for this share: the character device on its
    /// socket, then the vhost-user-fs device bound to it.
    pub fn qemu_args(&self) -> (r: Vec<String>)
        ensures
            strings_view(r@) == self.spec_qemu_args(),
    {
        let chardev = self.chardev_node();
        let mut socket = String::from_str("socket,id=");
        socket.append(chardev.as_str());
        socket.append(",path=");
        socket.append(self.socket_path().as_str());
        let mut device = String::from_str("vhost-user-fs-pci,queue-size=1024,chardev=");
        device.append(chardev.as_str());
        device.append(",tag=");
        device.append(self.mount_tag().as_str());
        let mut r: Vec<String> = Vec::new();
        r.push(String::from_str("-chardev"));
        r.push(socket);
        r.push(String::from_str("-device"));
        r.push(device);
        assert(strings_view(r@) =~= self.spec_qemu_args());
        r
    }
}

} // verus!
