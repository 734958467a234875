use mbus_events::mount::{MountInfo, MountIter};
use mbus_events::nvme::{Subsystem, SubsystemAddr, SubsystemAddrExt, SubsystemValues, NvmeError};

fn values(nqn: &str, serial: &str, model: &str, address: &str) -> SubsystemValues {
    SubsystemValues {
        nqn: nqn.to_string(),
        state: "live".to_string(),
        transport: "tcp".to_string(),
        address: address.to_string(),
        serial: serial.to_string(),
        model: model.to_string(),
    }
}

#[test]
fn address_tokens_are_parsed_and_matched() {
    let ext = SubsystemAddrExt::parse("traddr=10.1.0.2,trsvcid=8420,hostnqn=x");
    assert_eq!(ext.tr_addr, Some("10.1.0.2".to_string()));
    assert_eq!(ext.tr_svc_id, Some("8420".to_string()));
    assert_eq!(ext.src_addr, None);
    assert_eq!(ext.unknowns, vec![("hostnqn".to_string(), "x".to_string())]);
    assert!(ext.match_host_port("10.1.0.2", "8420"));
    assert!(!ext.match_host_port("10.1.0.2", "8421"));
    assert!(!ext.match_host_port("10.1.0.3", "8420"));

    let addr = SubsystemAddr::new("traddr=10.1.0.2,trsvcid=8420".to_string());
    assert!(addr.match_host_port("10.1.0.2", "8420"));
    assert_eq!(addr.as_str(), "traddr=10.1.0.2,trsvcid=8420");
    let pairs = addr.collect();
    assert_eq!(pairs.len(), 2);
    assert_eq!(pairs[0], ("traddr".to_string(), "10.1.0.2".to_string()));
    assert_eq!(addr.to_raw(), "traddr=10.1.0.2,trsvcid=8420");
}

#[test]
fn later_tokens_override_earlier_ones() {
    let ext = SubsystemAddrExt::parse("traddr=a,traddr=b");
    assert_eq!(ext.tr_addr, Some("b".to_string()));
}

#[test]
fn subsystems_are_built_from_controller_paths() {
    let subsystem = Subsystem::new(
        "/sys/devices/virtual/nvme-fabrics/ctl/nvme3",
        values("nqn-1", "serial-1", "model-1", "traddr=h,trsvcid=1"),
    )
    .unwrap();
    assert_eq!(subsystem.name, "nvme3");
    assert_eq!(subsystem.instance, 3);
    assert_eq!(subsystem.nqn, "nqn-1");
    assert_eq!(subsystem.state, "live");

    // A missing serial or model marks a discovery controller.
    let discovery = Subsystem::new(
        "/sys/devices/virtual/nvme-fabrics/ctl/nvme0",
        values("nqn-d", "", "model", "traddr=h"),
    );
    assert!(matches!(discovery, Err(NvmeError::CtlNotFound { .. })));

    // A path outside the fabrics prefix is rejected.
    let wrong = Subsystem::new("/sys/class/nvme/nvme0", values("n", "s", "m", "a"));
    assert!(matches!(wrong, Err(NvmeError::InvalidPath { .. })));
}

#[test]
fn subsystem_lookup_by_endpoint_and_nqn() {
    let build = |name: &str, nqn: &str, address: &str| {
        Subsystem::new(
            &format!("/sys/devices/virtual/nvme-fabrics/ctl/{name}"),
            values(nqn, "s", "m", address),
        )
        .unwrap()
    };
    let list = vec![
        build("nvme0", "nqn-a", "traddr=10.0.0.1,trsvcid=4420"),
        build("nvme1", "nqn-b", "traddr=10.0.0.2,trsvcid=4420"),
        build("nvme2", "nqn-b", "traddr=10.0.0.2,trsvcid=8009"),
    ];
    let found = Subsystem::get(list, "10.0.0.2", 4420, "TCP", "nqn-b").unwrap();
    assert_eq!(found.name, "nvme1");

    let list = vec![build("nvme0", "nqn-a", "traddr=10.0.0.1,trsvcid=4420")];
    let missing = Subsystem::get(list, "10.0.0.9", 4420, "tcp", "nqn-a");
    assert!(matches!(missing, Err(NvmeError::SubsystemNotFound { port: 4420, .. })));

    let list = vec![
        build("nvme0", "nqn-a", "traddr=h,trsvcid=1"),
        build("nvme1", "nqn-b", "traddr=h,trsvcid=2"),
        build("nvme2", "nqn-a", "traddr=h,trsvcid=3"),
    ];
    let matching = Subsystem::try_from_nqn(list, "nqn-a").unwrap();
    assert_eq!(matching.len(), 2);
    assert_eq!(matching[0].name, "nvme0");
    assert_eq!(matching[1].name, "nvme2");

    let list = vec![build("nvme0", "nqn-a", "traddr=h,trsvcid=1")];
    assert!(matches!(
        Subsystem::try_from_nqn(list, "nqn-z"),
        Err(NvmeError::NqnNotFound { .. })
    ));
}

#[test]
fn mount_lines_parse_into_entries() {
    let mount = MountInfo::from_str("/dev/sda1 /boot ext4 rw,relatime 0 0").unwrap();
    assert_eq!(mount.source, "/dev/sda1");
    assert_eq!(mount.dest, "/boot");
    assert_eq!(mount.fstype, "ext4");
    assert_eq!(mount.options, vec!["rw".to_string(), "relatime".to_string()]);

    // Octal escapes encode spaces in paths.
    let mount = MountInfo::from_str("/dev/sdb1 /mnt/with\\040space ext4 rw").unwrap();
    assert_eq!(mount.dest, "/mnt/with space");

    // Dump and pass fields must be numeric when present.
    let bad = MountInfo::from_str("/dev/sda1 /boot ext4 rw x 0");
    assert_eq!(bad.unwrap_err().why, "dump value is not a number");
    let bad = MountInfo::from_str("/dev/sda1 /boot ext4 rw 0 99999999999");
    assert_eq!(bad.unwrap_err().why, "pass value is not a number");

    let bad = MountInfo::from_str("/dev/sda1 /boot ext4");
    assert_eq!(bad.unwrap_err().why, "missing options");

    let bad = MountInfo::from_str("/dev/sda1 /mnt/trunc\\04 ext4 rw");
    assert_eq!(bad.unwrap_err().why, "truncated octal code");

    let bad = MountInfo::from_str("/dev/sda1 /mnt/bad\\09a ext4 rw");
    assert_eq!(bad.unwrap_err().why, "invalid digit found in string");
}

#[test]
fn mount_tables_iterate_and_answer_queries() {
    let content = "# a comment\n\n/dev/sda1 / ext4 rw 0 0\nproc /proc proc rw 0 0\n";
    let mut mounts = MountIter::new_from_reader(content);
    let first = mounts.next_entry().unwrap().unwrap();
    assert_eq!(first.source, "/dev/sda1");
    let second = mounts.next_entry().unwrap().unwrap();
    assert_eq!(second.source, "proc");
    assert!(mounts.next_entry().is_none());

    assert_eq!(MountIter::source_mounted_at(content, "/dev/sda1", "/").unwrap(), true);
    assert_eq!(MountIter::source_mounted_at(content, "/dev/sda1", "/boot").unwrap(), false);
    assert_eq!(MountIter::source_mounted_at(content, "/dev/sdb1", "/").unwrap(), false);
}
