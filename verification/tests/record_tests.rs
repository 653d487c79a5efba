use dysk::meta::{get_lustre_info, set_lustre_info, LustreInfo, LustreInfoTable};
use dysk::mount::{DeviceId, Inodes, Mount, MountInfo, MountKind, Stats, StatsResult};
use dysk::normal::is_normal;
use dysk::col::extract_fsname;
use dysk::strings::{parse_u32, str_contains, u32_to_dec_str, u32_to_hex4_str};

fn base(fs: &str, fs_type: &str) -> Mount {
    Mount {
        kind: MountKind::Ordinary,
        info: MountInfo {
            id: Some(1),
            parent: Some(0),
            dev: DeviceId { major: 8, minor: 1 },
            root: String::new(),
            mount_point: "/".to_string(),
            fs: fs.to_string(),
            fs_type: fs_type.to_string(),
            bound: false,
        },
        fs_label: None,
        disk: Some("SSD".to_string()),
        stats: StatsResult::Known(Stats {
            bsize: 4096,
            blocks: 100,
            bused: 60,
            bfree: 40,
            bavail: 40,
            inodes: Some(Inodes { files: 100, ffree: 70, favail: 70 }),
        }),
        uuid: None,
        part_uuid: None,
    }
}

#[test]
fn normal_gate_accepts_a_disk_backed_mount() {
    assert!(is_normal(&base("/dev/sda1", "ext4")));
}

#[test]
fn normal_gate_always_accepts_cluster_rows() {
    let mut m = base("l@lustre", "lustre");
    m.disk = None;
    m.stats = StatsResult::Absent;
    assert!(is_normal(&m));
}

#[test]
fn normal_gate_rejects_bound_mounts_and_bundle_type() {
    let mut bound = base("/dev/sda1", "ext4");
    bound.info.bound = true;
    assert!(!is_normal(&bound));

    let bundle = base("/dev/loop0", "squashfs");
    assert!(!is_normal(&bundle));
}

#[test]
fn normal_gate_rejects_diskless_local_mounts_without_figures() {
    let mut m = base("tmpfs", "tmpfs");
    m.disk = None;
    m.stats = StatsResult::Absent;
    assert!(!is_normal(&m));
}

#[test]
fn normal_gate_accepts_remote_and_unreachable_mounts() {
    let mut m = base("server:/export", "nfs");
    m.disk = None;
    m.stats = StatsResult::Unreachable;
    assert!(is_normal(&m));
}

#[test]
fn display_name_is_the_path_for_cluster_rows() {
    let mut m = base("l-MDT0000_UUID", "lustre");
    m.info.mount_point = "/mnt/l[MDT:0]".to_string();
    assert_eq!(extract_fsname(&m), "/mnt/l[MDT:0]");
    assert_eq!(extract_fsname(&base("/dev/sda1", "ext4")), "ext4");
}

#[test]
fn stats_accessors_scale_by_block_size() {
    let m = base("/dev/sda1", "ext4");
    let s = m.stats().unwrap();
    assert_eq!(s.size(), 4096 * 100);
    assert_eq!(s.used(), 4096 * 60);
    assert_eq!(s.available(), 4096 * 40);
    assert_eq!(m.inodes().unwrap().used(), 30);
}

#[test]
fn metadata_table_returns_the_last_record_for_a_path() {
    let mut table = LustreInfoTable::new();
    assert!(get_lustre_info(&table, "/mnt/l").is_none());

    let mut first = LustreInfo::new();
    first.stripe_count = Some(1);
    set_lustre_info(&mut table, "/mnt/l".to_string(), first);

    let mut second = LustreInfo::new();
    second.stripe_count = Some(4);
    second.pool_name = Some("flash".to_string());
    set_lustre_info(&mut table, "/mnt/l".to_string(), second);

    let got = get_lustre_info(&table, "/mnt/l").unwrap();
    assert_eq!(got.stripe_count, Some(4));
    assert_eq!(got.pool_name.as_deref(), Some("flash"));
    assert!(get_lustre_info(&table, "/mnt/other").is_none());
}

#[test]
fn decimal_and_hex_formatting() {
    assert_eq!(u32_to_dec_str(0), "0");
    assert_eq!(u32_to_dec_str(65534), "65534");
    assert_eq!(u32_to_hex4_str(0), "0000");
    assert_eq!(u32_to_hex4_str(255), "00ff");
    assert_eq!(u32_to_hex4_str(0xabc), "0abc");
}

#[test]
fn decimal_parsing_accepts_digits_only() {
    assert_eq!(parse_u32("0012"), Some(12));
    assert_eq!(parse_u32("+7"), Some(7));
    assert_eq!(parse_u32("4294967295"), Some(u32::MAX));
    assert_eq!(parse_u32("4294967296"), None);
    assert_eq!(parse_u32(""), None);
    assert_eq!(parse_u32("12a"), None);
    assert_eq!(parse_u32("-1"), None);
}

#[test]
fn substring_search_matches_anywhere() {
    assert!(str_contains("/srv/lustre-ost0", "-ost"));
    assert!(!str_contains("/home", "ost"));
    assert!(str_contains("abc", ""));
}
