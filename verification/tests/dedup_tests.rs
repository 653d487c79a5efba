use dysk::dedup::{check_duplicate, choose_representative_mount, replace_lustre_client_mounts};
use dysk::mount::{DeviceId, Mount, MountInfo, MountKind, Stats, StatsResult};

fn record(fs: &str, fs_type: &str, mount_point: &str, major: u32, minor: u32) -> Mount {
    Mount {
        kind: MountKind::Ordinary,
        info: MountInfo {
            id: None,
            parent: None,
            dev: DeviceId { major, minor },
            root: String::new(),
            mount_point: mount_point.to_string(),
            fs: fs.to_string(),
            fs_type: fs_type.to_string(),
            bound: false,
        },
        fs_label: None,
        disk: Some("SSD".to_string()),
        stats: StatsResult::Known(Stats {
            bsize: 4096,
            blocks: 100,
            bused: 50,
            bfree: 50,
            bavail: 50,
            inodes: None,
        }),
        uuid: None,
        part_uuid: None,
    }
}

fn cluster_record(fs: &str, mount_point: &str, kind: MountKind) -> Mount {
    let mut m = record(fs, "lustre", mount_point, 0, 0);
    m.kind = kind;
    m
}

#[test]
fn representative_prefers_root_path() {
    let group = vec![
        record("dev", "ext4", "/home", 8, 1),
        record("dev", "ext4", "/", 8, 1),
        record("dev", "ext4", "/a", 8, 1),
    ];
    let rep = choose_representative_mount(group);
    assert_eq!(rep.info.mount_point, "/");
}

#[test]
fn representative_prefers_shortest_then_lexicographic() {
    let group = vec![
        record("dev", "ext4", "/abc", 8, 1),
        record("dev", "ext4", "/zb", 8, 1),
        record("dev", "ext4", "/ab", 8, 1),
    ];
    let rep = choose_representative_mount(group);
    assert_eq!(rep.info.mount_point, "/ab");
}

#[test]
fn representative_prefers_an_aggregate_record() {
    let group = vec![
        cluster_record("a@lustre", "/mnt/zz", MountKind::Ordinary),
        cluster_record("a@lustre", "/mnt/a", MountKind::ClusterAggregate),
    ];
    let rep = choose_representative_mount(group);
    assert_eq!(rep.kind, MountKind::ClusterAggregate);
    assert_eq!(rep.info.mount_point, "/mnt/a");
}

#[test]
fn duplicate_devices_collapse_to_one_row() {
    let mounts = vec![
        record("/dev/sda1", "ext4", "/", 8, 1),
        record("/dev/sda1", "ext4", "/mnt/bind", 8, 1),
        record("/dev/sdb1", "ext4", "/data", 8, 17),
    ];
    let (deduped, summary) = check_duplicate(mounts);
    assert_eq!(deduped.len(), 2);
    assert_eq!(deduped[0].info.mount_point, "/");
    assert_eq!(deduped[1].info.mount_point, "/data");
    assert_eq!(summary.len(), 2);
    assert_eq!(summary[0].0, "ext4");
    assert_eq!(summary[0].1, vec!["/".to_string(), "/mnt/bind".to_string()]);
    assert_eq!(summary[1].1, vec!["/data".to_string()]);
}

#[test]
fn cluster_rows_are_never_merged() {
    let mounts = vec![
        cluster_record("l-MDT0000_UUID", "/mnt/l[MDT:0]", MountKind::ClusterComponent),
        cluster_record("l-OST0000_UUID", "/mnt/l[OST:0]", MountKind::ClusterComponent),
        cluster_record("l@lustre", "/mnt/l", MountKind::ClusterAggregate),
    ];
    let (deduped, summary) = check_duplicate(mounts);
    assert_eq!(deduped.len(), 3);
    assert!(summary.is_empty(), "lone cluster rows are not listed");
}

#[test]
fn cluster_rows_sharing_a_name_stay_distinct() {
    let mounts = vec![
        cluster_record("same", "/mnt/l[MDT:0]", MountKind::ClusterComponent),
        cluster_record("same", "/mnt/l[OST:0]", MountKind::ClusterComponent),
    ];
    let (deduped, _) = check_duplicate(mounts);
    assert_eq!(deduped.len(), 2);
}

#[test]
fn replacing_client_rows_swaps_matching_mount_points() {
    let mut mounts = vec![
        record("/dev/sda1", "ext4", "/", 8, 1),
        cluster_record("old", "/mnt/l", MountKind::Ordinary),
    ];
    let discovered = vec![
        cluster_record("l@lustre", "/mnt/l", MountKind::ClusterAggregate),
        cluster_record("m@lustre", "/mnt/m", MountKind::ClusterAggregate),
    ];
    replace_lustre_client_mounts(&mut mounts, discovered);
    assert_eq!(mounts.len(), 3);
    assert_eq!(mounts[1].info.fs, "l@lustre", "replaced in place");
    assert_eq!(mounts[2].info.fs, "m@lustre", "appended");
}

#[test]
fn replacing_skips_component_rows() {
    let mut mounts = vec![record("/dev/sda1", "ext4", "/", 8, 1)];
    let discovered = vec![
        cluster_record("l-OST0000_UUID", "/mnt/l[OST:0]", MountKind::ClusterComponent),
    ];
    replace_lustre_client_mounts(&mut mounts, discovered);
    assert_eq!(mounts.len(), 1);
}
