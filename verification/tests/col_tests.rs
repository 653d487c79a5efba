use dysk::col::{all_cols, default_cols, Alignment, Col};
use dysk::cols::{adjust_cols_for_cluster_view, lustre_default_cols, parse_cols};
use dysk::order::Order;

#[test]
fn parse_every_canonical_name_round_trips() {
    for c in all_cols() {
        let parsed = Col::parse(c.name());
        assert_eq!(parsed.unwrap(), c, "name {:?}", c.name());
    }
}

#[test]
fn parse_every_alias_round_trips() {
    for c in all_cols() {
        for alias in c.aliases() {
            let parsed = Col::parse(alias);
            assert_eq!(parsed.unwrap(), c, "alias {:?}", alias);
        }
    }
}

#[test]
fn parse_unknown_token_keeps_the_token() {
    let e = Col::parse("frobnicate").unwrap_err();
    assert_eq!(e.raw, "frobnicate");
}

#[test]
fn parse_known_tokens_exactly() {
    assert_eq!(Col::parse("dev").unwrap(), Col::Dev);
    assert_eq!(Col::parse("device_id").unwrap(), Col::Dev);
    assert_eq!(Col::parse("inodes").unwrap(), Col::InodesUse);
    assert_eq!(Col::parse("stripes").unwrap(), Col::StripeCount);
    assert_eq!(Col::parse("comp_idx").unwrap(), Col::ComponentIndex);
}

#[test]
fn default_sort_is_size_descending() {
    assert_eq!(Col::default_sort_col(), Col::Size);
    assert_eq!(Col::Size.default_sort_order(), Order::Desc);
    assert_eq!(Col::Filesystem.default_sort_order(), Order::Asc);
    assert_eq!(Col::MirrorCount.default_sort_order(), Order::Desc);
}

#[test]
fn default_columns_are_the_documented_six() {
    let d = default_cols();
    assert_eq!(
        d,
        vec![Col::Filesystem, Col::Used, Col::Use, Col::Free, Col::Size, Col::MountPoint],
    );
    for c in all_cols() {
        assert_eq!(c.is_default(), d.contains(&c));
    }
}

#[test]
fn titles_follow_inode_mode() {
    assert_eq!(Col::Size.title(false), "bytes total");
    assert_eq!(Col::Size.title(true), "inodes total");
    assert_eq!(Col::StripeCount.title(false), "stripe count");
}

#[test]
fn alignments_match_the_table_layout() {
    assert_eq!(Col::Label.header_align(), Alignment::Left);
    assert_eq!(Col::Size.header_align(), Alignment::Center);
    assert_eq!(Col::PoolName.content_align(), Alignment::Left);
    assert_eq!(Col::Used.content_align(), Alignment::Center);
}

#[test]
fn descriptions_name_the_cluster_columns() {
    assert_eq!(Col::StripeCount.description(), "number of OSTs file data is striped across");
    assert_eq!(Col::Dev.description(), "device id");
}

#[test]
fn parse_cols_replacement_list() {
    let v = parse_cols("fs+used").unwrap();
    assert_eq!(v, vec![Col::Filesystem, Col::Used]);
}

#[test]
fn parse_cols_empty_gives_defaults() {
    assert_eq!(parse_cols("").unwrap(), default_cols());
}

#[test]
fn parse_cols_incremental_add_and_remove() {
    let v = parse_cols("+uuid").unwrap();
    let mut expected = default_cols();
    expected.push(Col::Uuid);
    assert_eq!(v, expected);

    let v = parse_cols("-mount").unwrap();
    let expected: Vec<Col> = default_cols().into_iter().filter(|c| *c != Col::MountPoint).collect();
    assert_eq!(v, expected);
}

#[test]
fn parse_cols_default_token_expands() {
    let v = parse_cols("uuid+default").unwrap();
    let mut expected = vec![Col::Uuid];
    expected.extend(default_cols());
    assert_eq!(v, expected);
}

#[test]
fn parse_cols_rejects_unknown_token() {
    let e = parse_cols("fs+nope").unwrap_err();
    assert_eq!(e.raw, "nope");
}

#[test]
fn cluster_view_adjusts_only_the_default_set() {
    let adjusted = adjust_cols_for_cluster_view(&default_cols()).unwrap();
    assert_eq!(adjusted, lustre_default_cols());
    assert_eq!(
        lustre_default_cols(),
        vec![Col::Filesystem, Col::Used, Col::Use, Col::Free, Col::Size, Col::FsName],
    );
    let custom = vec![Col::Uuid];
    assert!(adjust_cols_for_cluster_view(&custom).is_none());
}
