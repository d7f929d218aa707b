//! All the shares of one VM, and the arguments and unit files that wire them
//! into it.
use vstd::prelude::*;
use vstd::string::*;

use crate::error::ShareError;
use crate::share::{escaped_unit_name, VirtiofsShare};
use crate::text::{decimal, decimal_string, join_path, join_path_string, strings_view};

verus! {

/// The read-only 9p export of the unit files directory, through which the
/// guest's mount generator finds the mount units before any virtio-fs share
/// is mounted.
pub open spec fn setup_share_args(unit_files_dir: Seq<char>) -> Seq<Seq<char>> {
    seq![
        "-virtfs"@,
        "local,path="@ + unit_files_dir
            + ",security_model=none,multidevs=remap,mount_tag=exports,readonly=on"@,
    ]
}

/// The shared memory backend of `mem_mb` megabytes on the VM's single NUMA
/// node, which the virtio-fs daemons map.
pub open spec fn memory_args(mem_mb: nat) -> Seq<Seq<char>> {
    seq![
        "-object"@,
        "memory-backend-memfd,id=mem,share=on,size="@ + decimal(mem_mb) + "M"@,
        "-numa"@,
        "node,memdev=mem"@,
    ]
}

/// The arguments of each share in turn.
pub open spec fn all_share_args(shares: Seq<VirtiofsShare>) -> Seq<Seq<char>>
    decreases shares.len(),
{
    if shares.len() == 0 {
        seq![]
    } else {
        all_share_args(shares.drop_last()) + shares.last().spec_qemu_args()
    }
}

/// A mount unit file to be written: where, and what.
pub struct UnitFile {
    pub path: String,
    pub content: String,
}

/// The shares of one VM, never empty, with the VM's memory size and the
/// directory that receives the mount unit files.
pub struct Shares {
    shares: Vec<VirtiofsShare>,
    /// Memory of the VM in megabytes; must match its `-m` argument.
    mem_mb: usize,
    /// Directory exported to the guest with the unit files of all shares.
    unit_files_dir: String,
}

impl Shares {
    pub closed spec fn spec_shares(&self) -> Seq<VirtiofsShare> {
        self.shares@
    }

    pub closed spec fn spec_mem_mb(&self) -> nat {
        self.mem_mb as nat
    }

    pub closed spec fn spec_unit_files_dir(&self) -> Seq<char> {
        self.unit_files_dir@
    }

    #[verifier::type_invariant]
    spec fn nonempty(&self) -> bool {
        self.shares@.len() > 0
    }

    /// The full argument list: each share's arguments in order, then the
    /// unit files export, then the memory backend.
    pub open spec fn spec_qemu_args(&self) -> Seq<Seq<char>> {
        all_share_args(self.spec_shares()) + setup_share_args(self.spec_unit_files_dir())
            + memory_args(self.spec_mem_mb())
    }

    /// A set of `shares`, refused when empty.
    pub fn new(shares: Vec<VirtiofsShare>, mem_mb: usize, unit_files_dir: String) -> (r: Result<
        Self,
        ShareError,
    >)
        ensures
            shares@.len() == 0 <==> r matches Err(ShareError::EmptyShareError),
            r matches Ok(s) ==> (s.spec_shares() == shares@ && s.spec_mem_mb() == mem_mb as nat
                && s.spec_unit_files_dir() == unit_files_dir@),
            r is Ok || r matches Err(ShareError::EmptyShareError),
    {
        if shares.len() == 0 {
            return Err(ShareError::EmptyShareError);
        }
        Ok(Shares { shares, mem_mb, unit_files_dir })
    }

    /// The shares, in order.
    pub fn shares(&self) -> (r: &Vec<VirtiofsShare>)
        ensures
            r@ == self.spec_shares(),
    {
        &self.shares
    }

    /// The mount unit file of the share at `index`, given what the path
    /// escaper printed for its path (see `VirtiofsShare::mount_unit_name`).
    pub fn unit_file(&self, index: usize, escaped: Option<Vec<u8>>) -> (r: Result<
        UnitFile,
        ShareError,
    >)
        requires
            index < self.spec_shares().len(),
        ensures
            escaped_unit_name(escaped) matches Some(name) ==> (r matches Ok(f) && f.path@
                == join_path(self.spec_unit_files_dir(), name) && f.content@
                == self.spec_shares()[index as int].spec_unit_content()),
            escaped_unit_name(escaped) is None ==> (r matches Err(
                ShareError::InvalidMountTagError(p),
            ) && p@ == self.spec_shares()[index as int].spec_path()),
    {
        let share = &self.shares[index];
        let name = share.mount_unit_name(escaped)?;
        Ok(
            UnitFile {
                path: join_path_string(self.unit_files_dir.as_str(), name.as_str()),
                content: share.mount_unit_content(),
            },
        )
    }

    /// The 9p export of the unit files directory, read-only and tagged
    /// `exports`.
    pub fn setup_share_qemu_args(&self) -> (r: Vec<String>)
        ensures
            strings_view(r@) == setup_share_args(self.spec_unit_files_dir()),
    {
        let mut export = String::from_str("local,path=");
        export.append(self.unit_files_dir.as_str());
        export.append(",security_model=none,multidevs=remap,mount_tag=exports,readonly=on");
        let mut r: Vec<String> = Vec::new();
        r.push(String::from_str("-virtfs"));
        r.push(export);
        assert(strings_view(r@) =~= setup_share_args(self.spec_unit_files_dir()));
        r
    }

    /// The shared memory backend the virtio-fs daemons need, sized to the
    /// VM's memory.
    pub fn memory_file_qemu_args(&self) -> (r: Vec<String>)
        ensures
            strings_view(r@) == memory_args(self.spec_mem_mb()),
    {
        let mut object = String::from_str("memory-backend-memfd,id=mem,share=on,size=");
        object.append(decimal_string(self.mem_mb).as_str());
        object.append("M");
        let mut r: Vec<String> = Vec::new();
        r.push(String::from_str("-object"));
        r.push(object);
        r.push(String::from_str("-numa"));
        r.push(String::from_str("node,memdev=mem"));
        assert(strings_view(r@) =~= memory_args(self.spec_mem_mb()));
        r
    }

    /// The hypervisor arguments for all shares, the unit files export and
    /// the memory backend.
    pub fn qemu_args(&self) -> (r: Vec<String>)
        ensures
            strings_view(r@) == self.spec_qemu_args(),
    {
        let mut args: Vec<String> = Vec::new();
        let mut i: usize = 0;
        while i < self.shares.len()
            invariant
                i <= self.shares@.len(),
                strings_view(args@) == all_share_args(self.shares@.subrange(0, i as int)),
            decreases self.shares@.len() - i,
        {
            let ghost before = args@;
            let mut share_args = self.shares[i].qemu_args();
            args.append(&mut share_args);
            proof {
                let prefix = self.shares@.subrange(0, i + 1);
                assert(prefix.drop_last() =~= self.shares@.subrange(0, i as int));
                assert(strings_view(args@) =~= strings_view(before) + self.shares@[i as int].spec_qemu_args());
            }
            i += 1;
        }
        assert(self.shares@.subrange(0, i as int) =~= self.shares@);
        let ghost shares_part = args@;
        let mut setup = self.setup_share_qemu_args();
        args.append(&mut setup);
        let ghost with_setup = args@;
        let mut memory = self.memory_file_qemu_args();
        args.append(&mut memory);
        assert(strings_view(with_setup) =~= strings_view(shares_part) + setup_share_args(self.spec_unit_files_dir()));
        assert(strings_view(args@) =~= self.spec_qemu_args());
        args
    }
}

} // verus!
