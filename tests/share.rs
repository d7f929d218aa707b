use antlir2_vm::error::ShareError;
use antlir2_vm::share::{ShareOpts, VirtiofsShare};
use antlir2_vm::shares::Shares;
use antlir2_vm::text::{decimal_string, join_path_string};

fn opts(path: &str, read_only: bool, mount_tag: Option<&str>) -> ShareOpts {
    ShareOpts {
        path: path.to_string(),
        read_only,
        mount_tag: mount_tag.map(|t| t.to_string()),
    }
}

fn escaped(name: &str) -> Option<Vec<u8>> {
    Some(format!("{}\n", name).into_bytes())
}

#[test]
fn test_virtiofs_share() {
    // Read-only mount without mount_tag
    let share = VirtiofsShare::new(
        opts("/this/is/a/test", true, None),
        3,
        "/tmp/test".to_string(),
    );

    assert_eq!(&share.mount_tag(), "fs3");
    assert_eq!(&share.chardev_node(), "fs_chardev3");
    assert_eq!(share.socket_path(), "/tmp/test/fs3".to_string());
    assert_eq!(
        share
            .mount_unit_name(escaped("this-is-a-test.mount"))
            .expect("Invalid mount unit name"),
        "this-is-a-test.mount".to_string(),
    );
    let mount_unit_content = r#"[Unit]
Description=Mount fs3 at /this/is/a/test
Requires=systemd-modules-load.service
After=systemd-modules-load.service
Before=local-fs.target

[Mount]
What=fs3
Where=/this/is/a/test
Type=virtiofs
Options=ro"#;
    assert_eq!(&share.mount_unit_content(), mount_unit_content);
    assert_eq!(
        share.qemu_args().join(" "),
        "-chardev socket,id=fs_chardev3,path=/tmp/test/fs3 \
        -device vhost-user-fs-pci,queue-size=1024,chardev=fs_chardev3,tag=fs3",
    );

    // RW mount with custom mount_tag
    let share = VirtiofsShare::new(
        opts("/this/is/a/test", false, Some("whatever")),
        3,
        "/tmp/test".to_string(),
    );

    assert_eq!(&share.mount_tag(), "whatever");
    assert_eq!(&share.chardev_node(), "fs_chardev3");
    assert_eq!(share.socket_path(), "/tmp/test/whatever".to_string());
    assert_eq!(
        share
            .mount_unit_name(escaped("this-is-a-test.mount"))
            .expect("Invalid mount unit name"),
        "this-is-a-test.mount".to_string(),
    );
    let mount_unit_content = r#"[Unit]
Description=Mount whatever at /this/is/a/test
Requires=systemd-modules-load.service
After=systemd-modules-load.service
Before=local-fs.target

[Mount]
What=whatever
Where=/this/is/a/test
Type=virtiofs
Options=rw"#;
    assert_eq!(&share.mount_unit_content(), mount_unit_content);
    assert_eq!(
        share.qemu_args().join(" "),
        "-chardev socket,id=fs_chardev3,path=/tmp/test/whatever \
        -device vhost-user-fs-pci,queue-size=1024,chardev=fs_chardev3,tag=whatever",
    );
}

#[test]
fn test_shares() {
    let share = VirtiofsShare::new(
        opts("/this/is/a/test", true, None),
        3,
        "/tmp/test".to_string(),
    );
    let dir = "/tmp/units".to_string();
    let shares = Shares::new(vec![share], 1024, dir.clone()).expect("Failed to create Shares");

    let file = match shares.unit_file(0, escaped("this-is-a-test.mount")) {
        Ok(f) => f,
        Err(_) => panic!("Failed to generate unit files"),
    };
    assert_eq!(file.path, format!("{}/this-is-a-test.mount", dir));
    assert_eq!(file.content, shares.shares()[0].mount_unit_content());

    assert_eq!(
        shares.setup_share_qemu_args().join(" "),
        format!(
            "-virtfs local,path={},security_model=none,multidevs=remap,mount_tag=exports,readonly=on",
            dir,
        ),
    );
    assert_eq!(
        shares.memory_file_qemu_args().join(" "),
        "-object memory-backend-memfd,id=mem,share=on,size=1024M -numa node,memdev=mem",
    );
    let qemu_args = shares.qemu_args().join(" ");
    let setup_share_qemu_args = shares.setup_share_qemu_args().join(" ");
    assert!(qemu_args.contains(&setup_share_qemu_args));
    let memory_file_qemu_args = shares.memory_file_qemu_args().join(" ");
    assert!(qemu_args.contains(&memory_file_qemu_args));
    shares.shares().iter().for_each(|x| {
        let share_args = x.qemu_args().join(" ");
        assert!(qemu_args.contains(&share_args))
    });
}

#[test]
fn default_names_follow_index() {
    for id in [0usize, 7, 42, 1000] {
        let share = VirtiofsShare::new(opts("/srv/data", false, None), id, "/run/vm".to_string());
        assert_eq!(share.mount_tag(), format!("fs{}", id));
        assert_eq!(share.chardev_node(), format!("fs_chardev{}", id));
        assert_eq!(share.socket_path(), format!("/run/vm/fs{}", id));
    }
}

#[test]
fn default_names_distinct_across_indices() {
    let a = VirtiofsShare::new(opts("/a", true, None), 1, "/s".to_string());
    let b = VirtiofsShare::new(opts("/a", true, None), 10, "/s".to_string());
    assert_ne!(a.mount_tag(), b.mount_tag());
    assert_ne!(a.chardev_node(), b.chardev_node());
    assert_ne!(a.socket_path(), b.socket_path());
}

#[test]
fn explicit_tag_leaves_chardev() {
    let plain = VirtiofsShare::new(opts("/a", true, None), 5, "/s".to_string());
    let tagged = VirtiofsShare::new(opts("/a", true, Some("data")), 5, "/s".to_string());
    assert_eq!(tagged.mount_tag(), "data");
    assert_eq!(tagged.chardev_node(), plain.chardev_node());
    assert_eq!(tagged.socket_path(), "/s/data");
}

#[test]
fn unit_content_is_deterministic_and_mode_follows_read_only() {
    let a = VirtiofsShare::new(opts("/m", true, None), 2, "/s".to_string());
    let b = VirtiofsShare::new(opts("/m", true, None), 2, "/other".to_string());
    assert_eq!(a.mount_unit_content(), b.mount_unit_content());
    assert!(a.mount_unit_content().ends_with("\nOptions=ro"));
    let c = VirtiofsShare::new(opts("/m", false, None), 2, "/s".to_string());
    assert!(c.mount_unit_content().ends_with("\nOptions=rw"));
}

#[test]
fn share_args_have_four_tokens_with_one_chardev() {
    let share = VirtiofsShare::new(opts("/x", false, Some("t")), 12, "/s/".to_string());
    let args = share.qemu_args();
    assert_eq!(args.len(), 4);
    assert_eq!(args[0], "-chardev");
    assert_eq!(args[1], "socket,id=fs_chardev12,path=/s/t");
    assert_eq!(args[2], "-device");
    assert_eq!(args[3], "vhost-user-fs-pci,queue-size=1024,chardev=fs_chardev12,tag=t");
}

#[test]
fn empty_share_set_is_refused() {
    assert!(matches!(
        Shares::new(vec![], 512, "/u".to_string()),
        Err(ShareError::EmptyShareError)
    ));
    let share = VirtiofsShare::new(opts("/x", false, None), 0, "/s".to_string());
    assert!(Shares::new(vec![share], 512, "/u".to_string()).is_ok());
}

#[test]
fn memory_size_is_mem_mb_in_megabytes() {
    let share = VirtiofsShare::new(opts("/x", false, None), 0, "/s".to_string());
    let shares = Shares::new(vec![share], 4096, "/u".to_string()).expect("shares");
    assert_eq!(
        shares.memory_file_qemu_args(),
        vec![
            "-object".to_string(),
            "memory-backend-memfd,id=mem,share=on,size=4096M".to_string(),
            "-numa".to_string(),
            "node,memdev=mem".to_string(),
        ]
    );
}

#[test]
fn qemu_args_keep_order_of_parts() {
    let a = VirtiofsShare::new(opts("/a", true, None), 0, "/s".to_string());
    let b = VirtiofsShare::new(opts("/b", false, Some("bee")), 1, "/s".to_string());
    let shares = Shares::new(vec![a, b], 256, "/u".to_string()).expect("shares");
    let mut expected = shares.shares()[0].qemu_args();
    expected.extend(shares.shares()[1].qemu_args());
    expected.extend(shares.setup_share_qemu_args());
    expected.extend(shares.memory_file_qemu_args());
    let args = shares.qemu_args();
    assert_eq!(args, expected);
    assert_eq!(args.len(), 14);
    assert_eq!(args[0], "-chardev");
    assert_eq!(args[2], "-device");
    assert_eq!(args[4], "-chardev");
    assert_eq!(args[6], "-device");
    assert_eq!(args[7], "vhost-user-fs-pci,queue-size=1024,chardev=fs_chardev1,tag=bee");
}

#[test]
fn unit_name_errors_name_the_path() {
    let share = VirtiofsShare::new(opts("/some/dir", true, None), 0, "/s".to_string());
    match share.mount_unit_name(None) {
        Err(ShareError::InvalidMountTagError(p)) => assert_eq!(p, "/some/dir"),
        _ => panic!("expected an invalid mount tag error"),
    }
    match share.mount_unit_name(Some(vec![0x73, 0xff, 0xfe])) {
        Err(ShareError::InvalidMountTagError(p)) => assert_eq!(p, "/some/dir"),
        _ => panic!("expected an invalid mount tag error"),
    }
}

#[test]
fn unit_name_is_trimmed() {
    let share = VirtiofsShare::new(opts("/some/dir", true, None), 0, "/s".to_string());
    let name = share
        .mount_unit_name(Some(b"  some-dir.mount\n".to_vec()))
        .expect("valid name");
    assert_eq!(name, "some-dir.mount");
}

#[test]
fn unit_file_of_failing_escape() {
    let share = VirtiofsShare::new(opts("/some/dir", true, None), 0, "/s".to_string());
    let shares = Shares::new(vec![share], 64, "/u/".to_string()).expect("shares");
    assert!(matches!(
        shares.unit_file(0, None),
        Err(ShareError::InvalidMountTagError(_))
    ));
    let file = match shares.unit_file(0, escaped("some-dir.mount")) {
        Ok(f) => f,
        Err(_) => panic!("unit file"),
    };
    assert_eq!(file.path, "/u/some-dir.mount");
}

#[test]
fn virtiofsd_args_point_at_socket_and_source() {
    let share = VirtiofsShare::new(opts("/data", true, None), 4, "/run".to_string());
    assert_eq!(
        share.virtiofsd_args(),
        vec![
            "--socket-path=/run/fs4".to_string(),
            "-o".to_string(),
            "source=/data".to_string(),
            "-o".to_string(),
            "cache=always".to_string(),
        ]
    );
}

#[test]
fn decimal_rendering() {
    assert_eq!(decimal_string(0), "0");
    assert_eq!(decimal_string(9), "9");
    assert_eq!(decimal_string(10), "10");
    assert_eq!(decimal_string(1024), "1024");
    assert_eq!(decimal_string(usize::MAX), usize::MAX.to_string());
}

#[test]
fn path_joining() {
    assert_eq!(join_path_string("/tmp/test", "fs3"), "/tmp/test/fs3");
    assert_eq!(join_path_string("/tmp/test/", "fs3"), "/tmp/test/fs3");
    assert_eq!(join_path_string("", "fs3"), "fs3");
    assert_eq!(join_path_string("/tmp/test", "/abs/tag"), "/abs/tag");
}
