use dysk::col::Col;
use dysk::meta::{set_lustre_info, LustreInfo, LustreInfoTable};
use dysk::mount::{DeviceId, Inodes, Mount, MountInfo, MountKind, Stats, StatsResult};
use dysk::order::Order;
use dysk::sort::{sort_lustre_mounts, sort_mounts};

fn plain(fs: &str, mount_point: &str, blocks: u64) -> Mount {
    Mount {
        kind: MountKind::Ordinary,
        info: MountInfo {
            id: None,
            parent: None,
            dev: DeviceId { major: 8, minor: 1 },
            root: String::new(),
            mount_point: mount_point.to_string(),
            fs: fs.to_string(),
            fs_type: "ext4".to_string(),
            bound: false,
        },
        fs_label: None,
        disk: None,
        stats: StatsResult::Known(Stats {
            bsize: 4096,
            blocks,
            bused: blocks / 2,
            bfree: blocks / 2,
            bavail: blocks / 4,
            inodes: Some(Inodes { files: 100, ffree: 50, favail: 50 }),
        }),
        uuid: None,
        part_uuid: None,
    }
}

fn cluster(fs: &str, mount_point: &str, kind: MountKind) -> Mount {
    let mut m = plain(fs, mount_point, 10);
    m.info.fs_type = "lustre".to_string();
    m.kind = kind;
    m
}

#[test]
fn sort_by_size_descending_orders_largest_first() {
    let mut v = vec![plain("a", "/a", 10), plain("b", "/b", 30), plain("c", "/c", 20)];
    let table = LustreInfoTable::new();
    sort_mounts(&mut v, Col::Size, Order::Desc, &table);
    let names: Vec<&str> = v.iter().map(|m| m.info.fs.as_str()).collect();
    assert_eq!(names, vec!["b", "c", "a"]);
}

#[test]
fn sort_by_size_puts_missing_figures_last_when_descending() {
    let mut no_stats = plain("x", "/x", 0);
    no_stats.stats = StatsResult::Absent;
    let mut v = vec![no_stats, plain("y", "/y", 5)];
    let table = LustreInfoTable::new();
    sort_mounts(&mut v, Col::Size, Order::Desc, &table);
    assert_eq!(v[0].info.fs, "y");
    assert_eq!(v[1].info.fs, "x");
}

#[test]
fn sort_by_label_puts_labelled_rows_first() {
    let mut a = plain("a", "/a", 1);
    a.fs_label = Some("data".to_string());
    let b = plain("b", "/b", 1);
    let mut c = plain("c", "/c", 1);
    c.fs_label = Some("arch".to_string());
    let mut v = vec![b, a, c];
    let table = LustreInfoTable::new();
    sort_mounts(&mut v, Col::Label, Order::Asc, &table);
    let names: Vec<&str> = v.iter().map(|m| m.info.fs.as_str()).collect();
    assert_eq!(names, vec!["c", "a", "b"], "labels in order, missing label last");
}

#[test]
fn sort_is_stable_for_equal_keys() {
    let mut v = vec![plain("first", "/1", 10), plain("second", "/2", 10)];
    let table = LustreInfoTable::new();
    sort_mounts(&mut v, Col::Size, Order::Desc, &table);
    assert_eq!(v[0].info.fs, "first");
    assert_eq!(v[1].info.fs, "second");
}

#[test]
fn sort_by_use_share_compares_fractions_exactly() {
    let mut fuller = plain("fuller", "/f", 10);
    match &mut fuller.stats {
        StatsResult::Known(s) => {
            s.blocks = 3;
            s.bavail = 1;
        },
        _ => unreachable!(),
    }
    let mut emptier = plain("emptier", "/e", 10);
    match &mut emptier.stats {
        StatsResult::Known(s) => {
            s.blocks = 2;
            s.bavail = 1;
        },
        _ => unreachable!(),
    }
    let mut v = vec![fuller, emptier];
    let table = LustreInfoTable::new();
    sort_mounts(&mut v, Col::Use, Order::Asc, &table);
    assert_eq!(v[0].info.fs, "emptier", "1/2 used sorts before 2/3 used");
}

#[test]
fn sort_by_stripe_count_uses_the_metadata_table() {
    let mut table = LustreInfoTable::new();
    let mut wide = LustreInfo::new();
    wide.stripe_count = Some(8);
    set_lustre_info(&mut table, "/mnt/w".to_string(), wide);
    let mut narrow = LustreInfo::new();
    narrow.stripe_count = Some(2);
    set_lustre_info(&mut table, "/mnt/n".to_string(), narrow);

    let a = cluster("w@lustre", "/mnt/w", MountKind::ClusterAggregate);
    let b = cluster("n@lustre", "/mnt/n", MountKind::ClusterAggregate);
    let c = cluster("o@lustre", "/mnt/o", MountKind::ClusterAggregate);
    let mut v = vec![a, b, c];
    sort_mounts(&mut v, Col::StripeCount, Order::Asc, &table);
    let points: Vec<&str> = v.iter().map(|m| m.info.mount_point.as_str()).collect();
    assert_eq!(points, vec!["/mnt/o", "/mnt/n", "/mnt/w"], "missing metadata counts as zero");
}

#[test]
fn topology_order_places_metadata_targets_first_and_aggregate_last() {
    let mut v = vec![
        cluster("l@lustre", "/mnt/l", MountKind::ClusterAggregate),
        cluster("l-OST0002_UUID", "/mnt/l[OST:2]", MountKind::ClusterComponent),
        cluster("l-MDT0000_UUID", "/mnt/l[MDT:0]", MountKind::ClusterComponent),
        cluster("l-OST0000_UUID", "/mnt/l[OST:0]", MountKind::ClusterComponent),
    ];
    sort_lustre_mounts(&mut v);
    let names: Vec<&str> = v.iter().map(|m| m.info.fs.as_str()).collect();
    assert_eq!(
        names,
        vec!["l-MDT0000_UUID", "l-OST0000_UUID", "l-OST0002_UUID", "l@lustre"],
    );
}

#[test]
fn topology_order_falls_back_to_names() {
    let mut v = vec![
        cluster("zeta", "/mnt/z", MountKind::ClusterComponent),
        cluster("alpha", "/mnt/a", MountKind::ClusterComponent),
    ];
    sort_lustre_mounts(&mut v);
    assert_eq!(v[0].info.fs, "alpha");
}
