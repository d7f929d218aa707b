//! Properties that hold across the functions of this crate.
use vstd::prelude::*;
use vstd::seq_lib::lemma_multiset_commutative;

use crate::share::{
    access_mode, chardev_name, default_mount_tag, unit_content_head, VirtiofsShare,
};
use crate::shares::{all_share_args, memory_args, setup_share_args, Shares};
use crate::text::{decimal, digit_char, join_path};

verus! {

/// The decimal rendering has a single digit exactly for numbers below ten.
pub proof fn lemma_decimal_len(n: nat)
    ensures
        decimal(n).len() >= 1,
        decimal(n).len() == 1 <==> n < 10,
    decreases n,
{
    if n >= 10 {
        lemma_decimal_len(n / 10);
    }
}

/// Different numbers have different decimal renderings.
pub proof fn lemma_decimal_injective(a: nat, b: nat)
    requires
        decimal(a) == decimal(b),
    ensures
        a == b,
    decreases a,
{
    lemma_decimal_len(a);
    lemma_decimal_len(b);
    if a < 10 {
        assert(decimal(a)[0] == digit_char(a));
        assert(decimal(b)[0] == digit_char(b));
    } else {
        assert(decimal(a).drop_last() =~= decimal(a / 10));
        assert(decimal(b).drop_last() =~= decimal(b / 10));
        assert(decimal(a).last() == digit_char(a % 10));
        assert(decimal(b).last() == digit_char(b % 10));
        lemma_decimal_injective(a / 10, b / 10);
    }
}

proof fn lemma_prefix_cancel(p: Seq<char>, x: Seq<char>, y: Seq<char>)
    requires
        p + x == p + y,
    ensures
        x == y,
{
    assert(x =~= (p + x).subrange(p.len() as int, (p + x).len() as int));
    assert(y =~= (p + y).subrange(p.len() as int, (p + y).len() as int));
}

/// Without an explicit tag a share is named after its index: tag `fs<index>`,
/// character device `fs_chardev<index>`, and the socket is the tag under the
/// state directory.
pub proof fn lemma_default_naming(s: VirtiofsShare)
    requires
        s.spec_opts().mount_tag is None,
    ensures
        s.spec_mount_tag() == "fs"@ + decimal(s.spec_id()),
        s.spec_chardev_node() == "fs_chardev"@ + decimal(s.spec_id()),
        s.spec_socket_path() == join_path(s.spec_state_dir(), s.spec_mount_tag()),
{
}

/// Two shares with default tags, different indices and one state directory
/// differ in tag, character device and socket.
pub proof fn lemma_default_names_distinct(a: VirtiofsShare, b: VirtiofsShare)
    requires
        a.spec_opts().mount_tag is None,
        b.spec_opts().mount_tag is None,
        a.spec_id() != b.spec_id(),
        a.spec_state_dir() == b.spec_state_dir(),
    ensures
        a.spec_mount_tag() != b.spec_mount_tag(),
        a.spec_chardev_node() != b.spec_chardev_node(),
        a.spec_socket_path() != b.spec_socket_path(),
{
    reveal_strlit("fs");
    if a.spec_mount_tag() == b.spec_mount_tag() {
        lemma_prefix_cancel("fs"@, decimal(a.spec_id()), decimal(b.spec_id()));
        lemma_decimal_injective(a.spec_id(), b.spec_id());
    }
    if a.spec_chardev_node() == b.spec_chardev_node() {
        lemma_prefix_cancel("fs_chardev"@, decimal(a.spec_id()), decimal(b.spec_id()));
        lemma_decimal_injective(a.spec_id(), b.spec_id());
    }
    let dir = a.spec_state_dir();
    let ta = a.spec_mount_tag();
    let tb = b.spec_mount_tag();
    assert(ta[0] == 'f');
    assert(tb[0] == 'f');
    if a.spec_socket_path() == b.spec_socket_path() {
        if dir.len() == 0 || dir.last() == '/' {
            lemma_prefix_cancel(dir, ta, tb);
        } else {
            lemma_prefix_cancel(dir.push('/'), ta, tb);
        }
    }
}

/// An explicit tag replaces the default one and leaves the character device,
/// which only the index names, as it is.
pub proof fn lemma_explicit_tag(a: VirtiofsShare, b: VirtiofsShare)
    requires
        a.spec_id() == b.spec_id(),
    ensures
        a.spec_opts().mount_tag matches Some(t) ==> a.spec_mount_tag() == t@,
        a.spec_chardev_node() == b.spec_chardev_node(),
        a.spec_chardev_node() == chardev_name(a.spec_id()),
{
}

/// The mount unit text depends on the options and the index alone, and its
/// access mode is `ro` exactly when the share is read-only.
pub proof fn lemma_unit_content(a: VirtiofsShare, b: VirtiofsShare)
    requires
        a.spec_opts() == b.spec_opts(),
        a.spec_id() == b.spec_id(),
    ensures
        a.spec_unit_content() == b.spec_unit_content(),
        a.spec_unit_content() == unit_content_head(a.spec_mount_tag(), a.spec_path()) + "ro"@
            <==> a.spec_opts().read_only,
        a.spec_unit_content() == unit_content_head(a.spec_mount_tag(), a.spec_path()) + "rw"@
            <==> !a.spec_opts().read_only,
{
    reveal_strlit("ro");
    reveal_strlit("rw");
    assert("ro"@[1] != "rw"@[1]);
    let head = unit_content_head(a.spec_mount_tag(), a.spec_path());
    if a.spec_unit_content() == head + "ro"@ {
        lemma_prefix_cancel(head, access_mode(a.spec_opts().read_only), "ro"@);
    }
    if a.spec_unit_content() == head + "rw"@ {
        lemma_prefix_cancel(head, access_mode(a.spec_opts().read_only), "rw"@);
    }
}

/// A share has four arguments, and its character device id stands both in
/// the character device and in the device that uses it.
pub proof fn lemma_share_args_shape(s: VirtiofsShare)
    ensures
        s.spec_qemu_args().len() == 4,
        s.spec_qemu_args()[0] == "-chardev"@,
        s.spec_qemu_args()[2] == "-device"@,
        s.spec_qemu_args()[1].subrange(
            "socket,id="@.len() as int,
            ("socket,id="@.len() + s.spec_chardev_node().len()) as int,
        ) == s.spec_chardev_node(),
        s.spec_qemu_args()[3].subrange(
            "vhost-user-fs-pci,queue-size=1024,chardev="@.len() as int,
            ("vhost-user-fs-pci,queue-size=1024,chardev="@.len() + s.spec_chardev_node().len()) as int,
        ) == s.spec_chardev_node(),
{
    let c = s.spec_chardev_node();
    let p1 = "socket,id="@;
    let p3 = "vhost-user-fs-pci,queue-size=1024,chardev="@;
    assert((p1 + c + ",path="@ + s.spec_socket_path()).subrange(p1.len() as int, (p1.len() + c.len()) as int) =~= c);
    assert((p3 + c + ",tag="@ + s.spec_mount_tag()).subrange(p3.len() as int, (p3.len() + c.len()) as int) =~= c);
}

/// The size of the memory backend is the VM's memory in decimal followed by
/// `M`.
pub proof fn lemma_memory_size(mem_mb: nat)
    ensures
        memory_args(mem_mb).len() == 4,
        memory_args(mem_mb)[1] == "memory-backend-memfd,id=mem,share=on,size="@ + (decimal(
            mem_mb,
        ) + "M"@),
{
    assert(memory_args(mem_mb)[1] =~= "memory-backend-memfd,id=mem,share=on,size="@ + (decimal(
        mem_mb,
    ) + "M"@));
}

/// Each share's four arguments lie in order at four times its position.
pub proof fn lemma_all_share_args(shares: Seq<VirtiofsShare>)
    ensures
        all_share_args(shares).len() == 4 * shares.len(),
        forall|i: int|
            0 <= i < shares.len() ==> #[trigger] all_share_args(shares).subrange(4 * i, 4 * i + 4)
                == shares[i].spec_qemu_args(),
    decreases shares.len(),
{
    if shares.len() > 0 {
        let init = shares.drop_last();
        lemma_all_share_args(init);
        let all = all_share_args(shares);
        assert forall|i: int| 0 <= i < shares.len() implies #[trigger] all.subrange(4 * i, 4 * i + 4)
            == shares[i].spec_qemu_args() by {
            if i < init.len() {
                assert(all.subrange(4 * i, 4 * i + 4) =~= all_share_args(init).subrange(4 * i, 4 * i + 4));
                assert(init[i] == shares[i]);
            } else {
                assert(all.subrange(4 * i, 4 * i + 4) =~= shares.last().spec_qemu_args());
            }
        }
    }
}

/// The arguments of a share set are, as a multiset, the union of those of
/// its shares, of the unit files export and of the memory backend; each
/// share's character device comes right before its device.
pub proof fn lemma_qemu_args_parts(s: Shares)
    ensures
        s.spec_qemu_args().to_multiset() == all_share_args(s.spec_shares()).to_multiset().add(
            setup_share_args(s.spec_unit_files_dir()).to_multiset(),
        ).add(memory_args(s.spec_mem_mb()).to_multiset()),
        forall|i: int|
            0 <= i < s.spec_shares().len() ==> #[trigger] s.spec_qemu_args().subrange(4 * i, 4 * i + 4)
                == s.spec_shares()[i].spec_qemu_args(),
        s.spec_qemu_args().subrange(
            4 * s.spec_shares().len() as int,
            4 * s.spec_shares().len() as int + 2,
        ) == setup_share_args(s.spec_unit_files_dir()),
        s.spec_qemu_args().subrange(
            4 * s.spec_shares().len() as int + 2,
            4 * s.spec_shares().len() as int + 6,
        ) == memory_args(s.spec_mem_mb()),
{
    let a = all_share_args(s.spec_shares());
    let b = setup_share_args(s.spec_unit_files_dir());
    let c = memory_args(s.spec_mem_mb());
    let n = s.spec_shares().len() as int;
    lemma_all_share_args(s.spec_shares());
    lemma_multiset_commutative(a, b);
    lemma_multiset_commutative(a + b, c);
    let all = s.spec_qemu_args();
    assert forall|i: int| 0 <= i < n implies #[trigger] all.subrange(4 * i, 4 * i + 4)
        == s.spec_shares()[i].spec_qemu_args() by {
        assert(all.subrange(4 * i, 4 * i + 4) =~= a.subrange(4 * i, 4 * i + 4));
    }
    assert(all.subrange(4 * n, 4 * n + 2) =~= b);
    assert(all.subrange(4 * n + 2, 4 * n + 6) =~= c);
}

} // verus!
