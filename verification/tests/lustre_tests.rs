use dysk::lustre::{
    classify_statfs_code, collect_lustre_layout_info, collect_lustre_mounts,
    create_lustre_client_mount, create_lustre_component_mount, extract_component_info,
    is_lustre_server_component, obd_statfs, parse_lustre_component, LayoutProbe, ProbeOutcome,
    TargetFamily, TargetProbe, CODE_NO_DATA, CODE_NO_DEVICE, CODE_TRY_AGAIN,
};
use dysk::mount::{MountKind, StatsResult};

fn statfs(bsize: u32, blocks: u64, bfree: u64, bavail: u64, files: u64, ffree: u64) -> obd_statfs {
    let mut st = obd_statfs::default();
    st.os_bsize = bsize;
    st.os_blocks = blocks;
    st.os_bfree = bfree;
    st.os_bavail = bavail;
    st.os_files = files;
    st.os_ffree = ffree;
    st
}

fn probe(rc: i32, st: obd_statfs, uuid: &str) -> TargetProbe {
    TargetProbe { rc, statfs: st, uuid: uuid.to_string() }
}

#[test]
fn classify_each_native_code() {
    assert_eq!(classify_statfs_code(CODE_NO_DEVICE), ProbeOutcome::Terminate);
    assert_eq!(classify_statfs_code(CODE_TRY_AGAIN), ProbeOutcome::Skip);
    assert_eq!(classify_statfs_code(0), ProbeOutcome::Emit { active: true });
    assert_eq!(classify_statfs_code(CODE_NO_DATA), ProbeOutcome::Emit { active: false });
    assert_eq!(classify_statfs_code(-5), ProbeOutcome::Skip);
}

#[test]
fn component_record_fields() {
    let st = statfs(4096, 100, 60, 50, 10, 5);
    let m = create_lustre_component_mount(
        "/mnt/scratch",
        "scratch",
        &st,
        "scratch-OST0001_UUID",
        TargetFamily::Ost,
        1,
        0,
    );
    assert_eq!(m.kind, MountKind::ClusterComponent);
    assert_eq!(m.info.fs, "scratch-OST0001_UUID");
    assert_eq!(m.info.fs_type, "lustre");
    assert_eq!(m.info.mount_point, "/mnt/scratch[OST:1]");
    assert_eq!(m.info.dev.major, 2);
    assert_eq!(m.info.dev.minor, 1);
    assert_eq!(m.fs_label.as_deref(), Some("scratch-OST"));
    assert_eq!(m.uuid.as_deref(), Some("scratch-OST0001_UUID"));
    match m.stats {
        StatsResult::Known(s) => {
            assert_eq!(s.bsize, 4096);
            assert_eq!(s.blocks, 100);
            assert_eq!(s.bused, 50);
            assert_eq!(s.bfree, 60);
            assert_eq!(s.bavail, 50);
            let inodes = s.inodes.unwrap();
            assert_eq!(inodes.files, 10);
            assert_eq!(inodes.ffree, 5);
            assert_eq!(inodes.favail, 5);
        },
        _ => panic!("expected figures"),
    }
}

#[test]
fn component_record_without_uuid_gets_hex_placeholder() {
    let st = statfs(4096, 1, 1, 1, 0, 0);
    let m = create_lustre_component_mount("/mnt/l", "l", &st, "", TargetFamily::Mdt, 255, 0);
    assert_eq!(m.info.fs, "MDT:00ff");
    assert_eq!(m.info.mount_point, "/mnt/l[MDT:255]");
    assert!(m.uuid.is_none());
    assert_eq!(m.info.dev.major, 1);
}

#[test]
fn inactive_component_is_marked_unreachable() {
    let st = statfs(4096, 100, 60, 50, 10, 5);
    let m = create_lustre_component_mount(
        "/mnt/l",
        "l",
        &st,
        "l-MDT0000_UUID",
        TargetFamily::Mdt,
        0,
        CODE_NO_DATA,
    );
    assert_eq!(m.stats, StatsResult::Unreachable);
}

#[test]
fn aggregate_sums_object_targets_and_metadata_files() {
    let osts = vec![
        probe(0, statfs(4096, 100, 60, 50, 0, 0), "a"),
        probe(CODE_TRY_AGAIN, obd_statfs::default(), ""),
        probe(0, statfs(8192, 200, 120, 100, 0, 0), "b"),
        probe(CODE_NO_DEVICE, obd_statfs::default(), ""),
    ];
    let mdts = vec![
        probe(0, statfs(4096, 10, 5, 5, 1000, 400), "m"),
        probe(CODE_NO_DEVICE, obd_statfs::default(), ""),
    ];
    let m = create_lustre_client_mount("/mnt/scratch", "scratch", &osts, &mdts);
    assert_eq!(m.kind, MountKind::ClusterAggregate);
    assert_eq!(m.info.fs, "scratch@lustre");
    assert_eq!(m.info.mount_point, "/mnt/scratch");
    assert_eq!(m.fs_label.as_deref(), Some("Lustre-scratch"));
    match m.stats {
        StatsResult::Known(s) => {
            assert_eq!(s.bsize, 4096, "block size of the first successful target");
            assert_eq!(s.blocks, 300);
            assert_eq!(s.bfree, 180);
            assert_eq!(s.bavail, 150);
            let inodes = s.inodes.unwrap();
            assert_eq!(inodes.files, 1000);
            assert_eq!(inodes.ffree, 400);
        },
        _ => panic!("expected figures"),
    }
}

#[test]
fn aggregate_without_object_target_success_is_unreachable() {
    let osts = vec![probe(CODE_NO_DEVICE, obd_statfs::default(), "")];
    let mdts = vec![probe(0, statfs(4096, 10, 5, 5, 1000, 400), "m")];
    let m = create_lustre_client_mount("/mnt/l", "l", &osts, &mdts);
    assert_eq!(m.stats, StatsResult::Unreachable);
}

#[test]
fn discovery_emits_three_components_and_one_aggregate() {
    let mdts = vec![
        probe(0, statfs(4096, 10, 5, 5, 1000, 400), "scratch-MDT0000_UUID"),
        probe(CODE_NO_DEVICE, obd_statfs::default(), ""),
    ];
    let osts = vec![
        probe(0, statfs(4096, 100, 60, 50, 0, 0), "scratch-OST0000_UUID"),
        probe(CODE_TRY_AGAIN, obd_statfs::default(), ""),
        probe(0, statfs(4096, 200, 120, 100, 0, 0), "scratch-OST0002_UUID"),
        probe(CODE_NO_DEVICE, obd_statfs::default(), ""),
    ];
    let mounts = collect_lustre_mounts("/mnt/scratch", "scratch", &mdts, &osts);
    assert_eq!(mounts.len(), 4);
    assert_eq!(mounts[0].info.fs, "scratch-MDT0000_UUID");
    assert_eq!(mounts[1].info.fs, "scratch-OST0000_UUID");
    assert_eq!(mounts[2].info.fs, "scratch-OST0002_UUID");
    assert_eq!(mounts[3].info.fs, "scratch@lustre");
    assert_eq!(mounts[1].info.mount_point, "/mnt/scratch[OST:0]");
    assert_eq!(mounts[2].info.mount_point, "/mnt/scratch[OST:2]");
}

#[test]
fn discovery_terminal_code_at_index_zero_yields_no_records() {
    let mdts = vec![probe(CODE_NO_DEVICE, obd_statfs::default(), "")];
    let osts = vec![
        probe(0, statfs(4096, 100, 60, 50, 0, 0), "l-OST0000_UUID"),
        probe(CODE_NO_DEVICE, obd_statfs::default(), ""),
    ];
    let mounts = collect_lustre_mounts("/mnt/l", "l", &mdts, &osts);
    assert_eq!(mounts.len(), 2, "one object target and the aggregate");
    assert_eq!(mounts[0].info.fs, "l-OST0000_UUID");
    assert_eq!(mounts[1].info.fs, "l@lustre");
}

#[test]
fn discovery_never_reuses_an_index() {
    let mdts: Vec<TargetProbe> = Vec::new();
    let osts = vec![
        probe(CODE_TRY_AGAIN, obd_statfs::default(), ""),
        probe(0, statfs(4096, 1, 1, 1, 0, 0), ""),
        probe(-7, obd_statfs::default(), ""),
        probe(CODE_NO_DATA, obd_statfs::default(), ""),
    ];
    let mounts = collect_lustre_mounts("/mnt/l", "l", &mdts, &osts);
    assert_eq!(mounts.len(), 3);
    assert_eq!(mounts[0].info.mount_point, "/mnt/l[OST:1]");
    assert_eq!(mounts[1].info.mount_point, "/mnt/l[OST:3]");
}

#[test]
fn parse_component_names() {
    assert_eq!(
        parse_lustre_component("lustre-MDT0000_UUID"),
        Some(("MDT".to_string(), 0)),
    );
    assert_eq!(
        parse_lustre_component("scratch-OST0012_UUID"),
        Some(("OST".to_string(), 12)),
    );
    assert_eq!(parse_lustre_component("filesystem_summary"), None);
    assert_eq!(parse_lustre_component("lustre-MDT_UUID"), None);
    assert_eq!(parse_lustre_component("nodashes"), None);
}

#[test]
fn extract_component_identity_from_paths() {
    assert_eq!(
        extract_component_info("/mnt/l[MDT:0]"),
        (Some("MDT".to_string()), Some(0)),
    );
    assert_eq!(
        extract_component_info("/mnt/l[OST:12]"),
        (Some("OST".to_string()), Some(12)),
    );
    assert_eq!(extract_component_info("/mnt/l"), (Some("CLIENT".to_string()), None));
    assert_eq!(extract_component_info("/mnt/l[weird"), (None, None));
}

#[test]
fn server_component_path_heuristic() {
    assert!(is_lustre_server_component("/srv/lustre-ost0"));
    assert!(is_lustre_server_component("/srv/scratch/ost1"));
    assert!(is_lustre_server_component("/srv/lustre/mdt0"));
    assert!(!is_lustre_server_component("/home"));
    assert!(!is_lustre_server_component("/srv/ostrich"));
}

#[test]
fn layout_info_keeps_validated_query_values() {
    let layout = LayoutProbe {
        stripe_count: Some(4),
        stripe_size: Some(1 << 20),
        pool_name: Some("flash".to_string()),
        mirror_count: Some(2),
    };
    let info = collect_lustre_layout_info("/mnt/l", Some(layout));
    assert_eq!(info.stripe_count, Some(4));
    assert_eq!(info.stripe_size, Some(1 << 20));
    assert_eq!(info.pool_name.as_deref(), Some("flash"));
    assert_eq!(info.mirror_count, Some(2));
    assert_eq!(info.lustre_version, None, "no source supplies a version");
    assert_eq!(info.component_type.as_deref(), Some("CLIENT"));
    assert_eq!(info.component_index, None);
}

#[test]
fn layout_info_discards_out_of_range_values() {
    let layout = LayoutProbe {
        stripe_count: Some(5000),
        stripe_size: Some(1024),
        pool_name: Some(String::new()),
        mirror_count: Some(0),
    };
    let info = collect_lustre_layout_info("/mnt/l", Some(layout));
    assert_eq!(info.stripe_count, None, "out of range, so discarded rather than reported");
    assert_eq!(info.stripe_size, None);
    assert_eq!(info.pool_name, None, "an empty name means the unnamed pool");
    assert_eq!(info.mirror_count, None);
    assert_eq!(info.lustre_version, None);
}

#[test]
fn layout_info_without_an_answer_reports_nothing() {
    let info = collect_lustre_layout_info("/mnt/l", None);
    assert_eq!(info.component_type.as_deref(), Some("CLIENT"));
    assert_eq!(info.component_index, None);
    assert_eq!(info.stripe_count, None);
    assert_eq!(info.stripe_size, None);
    assert_eq!(info.pool_name, None);
    assert_eq!(info.mirror_count, None);
    assert_eq!(info.lustre_version, None);
}

#[test]
fn layout_info_for_component_path_keeps_identity_only() {
    let info = collect_lustre_layout_info("/mnt/l[OST:3]", None);
    assert_eq!(info.component_type.as_deref(), Some("OST"));
    assert_eq!(info.component_index, Some(3));
    assert_eq!(info.stripe_count, None);
    assert_eq!(info.lustre_version, None);
    assert_eq!(info.pool_name, None);
}
