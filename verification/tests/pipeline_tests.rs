use dysk::col::Col;
use dysk::lustre::{collect_lustre_mounts, obd_statfs, TargetProbe, CODE_NO_DEVICE, CODE_TRY_AGAIN};
use dysk::meta::LustreInfoTable;
use dysk::mount::{DeviceId, Mount, MountInfo, MountKind, Stats, StatsResult};
use dysk::order::Order;
use dysk::pipeline::{finalize_mounts, multi_mount_entries, prepare_mounts, PathQuery};

fn ordinary(fs: &str, mount_point: &str, major: u32, minor: u32, blocks: u64) -> Mount {
    Mount {
        kind: MountKind::Ordinary,
        info: MountInfo {
            id: None,
            parent: None,
            dev: DeviceId { major, minor },
            root: String::new(),
            mount_point: mount_point.to_string(),
            fs: fs.to_string(),
            fs_type: "ext4".to_string(),
            bound: false,
        },
        fs_label: None,
        disk: Some("SSD".to_string()),
        stats: StatsResult::Known(Stats {
            bsize: 4096,
            blocks,
            bused: blocks / 2,
            bfree: blocks / 2,
            bavail: blocks / 2,
            inodes: None,
        }),
        uuid: None,
        part_uuid: None,
    }
}

fn statfs(bsize: u32, blocks: u64, bfree: u64, bavail: u64, files: u64, ffree: u64) -> obd_statfs {
    let mut st = obd_statfs::default();
    st.os_bsize = bsize;
    st.os_blocks = blocks;
    st.os_bfree = bfree;
    st.os_bavail = bavail;
    st.os_files = files;
    st.os_ffree = ffree;
    st
}

fn probe(rc: i32, st: obd_statfs, uuid: &str) -> TargetProbe {
    TargetProbe { rc, statfs: st, uuid: uuid.to_string() }
}

#[test]
fn two_ordinary_mounts_sorted_by_size_descending() {
    let catalog = vec![
        ordinary("/dev/sda1", "/", 8, 1, 500),
        ordinary("/dev/sdb1", "/data", 8, 17, 1000),
    ];
    let table = LustreInfoTable::new();
    let (rows, view) = prepare_mounts(
        catalog,
        Vec::new(),
        false,
        Col::Size,
        Order::Desc,
        None,
        &table,
    )
        .unwrap();
    assert!(!view);
    let (rows, _) = finalize_mounts(rows, view);
    assert_eq!(rows.len(), 2);
    assert_eq!(rows[0].info.fs, "/dev/sdb1", "largest first");
    assert_eq!(rows[1].info.fs, "/dev/sda1");
}

#[test]
fn cluster_view_shows_components_then_aggregate() {
    let mdts = vec![
        probe(0, statfs(4096, 10, 5, 5, 1000, 400), "scratch-MDT0000_UUID"),
        probe(CODE_NO_DEVICE, obd_statfs::default(), ""),
    ];
    let osts = vec![
        probe(0, statfs(4096, 100, 60, 50, 0, 0), "scratch-OST0000_UUID"),
        probe(CODE_TRY_AGAIN, obd_statfs::default(), ""),
        probe(0, statfs(4096, 200, 120, 100, 0, 0), "scratch-OST0002_UUID"),
        probe(CODE_NO_DEVICE, obd_statfs::default(), ""),
    ];
    let discovered = collect_lustre_mounts("/mnt/scratch", "scratch", &mdts, &osts);
    let catalog = vec![ordinary("/dev/sda1", "/", 8, 1, 500)];
    let table = LustreInfoTable::new();
    let (rows, view) = prepare_mounts(
        catalog,
        discovered,
        false,
        Col::Size,
        Order::Desc,
        None,
        &table,
    )
        .unwrap();
    assert!(view, "cluster rows present and no show-all flag");
    let (rows, _) = finalize_mounts(rows, view);
    assert_eq!(rows.len(), 4);
    assert_eq!(rows[0].info.fs, "scratch-MDT0000_UUID");
    assert_eq!(rows[1].info.fs, "scratch-OST0000_UUID");
    assert_eq!(rows[2].info.fs, "scratch-OST0002_UUID");
    assert_eq!(rows[3].info.fs, "scratch@lustre", "aggregate last");
}

#[test]
fn show_all_keeps_ordinary_rows_beside_cluster_rows() {
    let mdts = vec![probe(CODE_NO_DEVICE, obd_statfs::default(), "")];
    let osts = vec![
        probe(0, statfs(4096, 100, 60, 50, 0, 0), "l-OST0000_UUID"),
        probe(CODE_NO_DEVICE, obd_statfs::default(), ""),
    ];
    let discovered = collect_lustre_mounts("/mnt/l", "l", &mdts, &osts);
    let catalog = vec![ordinary("/dev/sda1", "/", 8, 1, 500)];
    let table = LustreInfoTable::new();
    let (rows, view) = prepare_mounts(
        catalog,
        discovered,
        true,
        Col::Size,
        Order::Desc,
        None,
        &table,
    )
        .unwrap();
    assert!(!view);
    assert_eq!(rows.len(), 3);
}

#[test]
fn failed_path_lookup_aborts_with_the_message() {
    let catalog = vec![ordinary("/dev/sda1", "/", 8, 1, 500)];
    let table = LustreInfoTable::new();
    let r = prepare_mounts(
        catalog,
        Vec::new(),
        false,
        Col::Size,
        Order::Desc,
        Some(Err("No such file or directory (os error 2)".to_string())),
        &table,
    );
    match r {
        Err(msg) => assert_eq!(msg, "No such file or directory (os error 2)"),
        Ok(_) => panic!("a failed path lookup must abort"),
    }
}

#[test]
fn path_on_unknown_device_leaves_no_rows() {
    let catalog = vec![ordinary("/dev/sda1", "/", 8, 1, 500)];
    let table = LustreInfoTable::new();
    let (rows, _) = prepare_mounts(
        catalog,
        Vec::new(),
        false,
        Col::Size,
        Order::Desc,
        Some(Ok(PathQuery {
            dev: DeviceId { major: 9, minor: 9 },
            is_cluster_path: false,
            path: "/elsewhere".to_string(),
        })),
        &table,
    )
        .unwrap();
    assert!(rows.is_empty());
}

#[test]
fn cluster_path_restricts_by_prefix() {
    let mdts = vec![probe(CODE_NO_DEVICE, obd_statfs::default(), "")];
    let osts = vec![
        probe(0, statfs(4096, 100, 60, 50, 0, 0), "l-OST0000_UUID"),
        probe(CODE_NO_DEVICE, obd_statfs::default(), ""),
    ];
    let discovered = collect_lustre_mounts("/mnt/l", "l", &mdts, &osts);
    let catalog = vec![ordinary("/dev/sda1", "/", 8, 1, 500)];
    let table = LustreInfoTable::new();
    let (rows, _) = prepare_mounts(
        catalog,
        discovered,
        false,
        Col::Size,
        Order::Desc,
        Some(Ok(PathQuery {
            dev: DeviceId { major: 0, minor: 0 },
            is_cluster_path: true,
            path: "/mnt/l/projects".to_string(),
        })),
        &table,
    )
        .unwrap();
    assert_eq!(rows.len(), 1, "only the aggregate mounted above the path");
    assert_eq!(rows[0].info.fs, "l@lustre");
}

#[test]
fn server_component_catalog_rows_are_dropped() {
    let mut server_row = ordinary("srv", "/srv/lustre-ost0", 9, 0, 10);
    server_row.info.fs_type = "lustre".to_string();
    let catalog = vec![server_row, ordinary("/dev/sda1", "/", 8, 1, 500)];
    let table = LustreInfoTable::new();
    let (rows, view) = prepare_mounts(
        catalog,
        Vec::new(),
        true,
        Col::Size,
        Order::Desc,
        None,
        &table,
    )
        .unwrap();
    assert!(!view);
    assert_eq!(rows.len(), 1);
    assert_eq!(rows[0].info.fs, "/dev/sda1");
}

#[test]
fn summary_reports_only_multi_path_filesystems() {
    let entries = vec![
        ("ext4".to_string(), vec!["/".to_string(), "/mnt/bind".to_string()]),
        ("xfs".to_string(), vec!["/data".to_string()]),
    ];
    let multi = multi_mount_entries(entries);
    assert_eq!(multi.len(), 1);
    assert_eq!(multi[0].0, "ext4");
}
