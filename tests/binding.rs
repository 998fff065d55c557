use sled_nif::config::{ConfigOptions, Configuration, Setting};
use sled_nif::engine::{
    build_configuration, engine_failure, looked_up, open_path, opened, written, Lookup,
};
use sled_nif::options::{decode_segment_mode, decode_tri_state, BindingError, SegmentMode, TriState};

fn empty_options() -> ConfigOptions {
    ConfigOptions {
        path: None,
        flush_every_ms: None,
        temporary: None,
        create_new: None,
        cache_capacity: None,
        print_profile_on_drop: None,
        use_compression: None,
        compression_factor: None,
        snapshot_after_ops: None,
        segment_cleanup_threshold: None,
        segment_cleanup_skew: None,
        segment_mode: "nil".to_string(),
        snapshot_path: None,
        idgen_persist_interval: None,
        read_only: None,
    }
}

fn temporary_options(path: &str) -> ConfigOptions {
    let mut o = empty_options();
    o.path = Some(path.to_string());
    o.temporary = Some(true);
    o
}

#[test]
fn tri_state_legal_shapes_decode() {
    assert_eq!(decode_tri_state::<u64>(None), Ok(TriState::Unspecified));
    assert_eq!(decode_tri_state(Some((true, Some(250u64)))), Ok(TriState::EnabledWith(250)));
    assert_eq!(decode_tri_state::<u64>(Some((false, None))), Ok(TriState::Disabled));
    assert_eq!(
        decode_tri_state(Some((true, Some("/tmp/snap".to_string())))),
        Ok(TriState::EnabledWith("/tmp/snap".to_string()))
    );
}

#[test]
fn tri_state_contradictions_are_refused() {
    assert_eq!(decode_tri_state::<u64>(Some((true, None))), Err(BindingError::InvalidArgument));
    assert_eq!(decode_tri_state(Some((false, Some(7u64)))), Err(BindingError::InvalidArgument));
    assert_eq!(
        decode_tri_state::<String>(Some((true, None))),
        Err(BindingError::InvalidArgument)
    );
    assert_eq!(
        decode_tri_state(Some((false, Some("p".to_string())))),
        Err(BindingError::InvalidArgument)
    );
}

#[test]
fn segment_mode_tags() {
    assert_eq!(decode_segment_mode("linear"), Ok(Some(SegmentMode::Linear)));
    assert_eq!(decode_segment_mode("gc"), Ok(Some(SegmentMode::Gc)));
    assert_eq!(decode_segment_mode("nil"), Ok(None));
    assert_eq!(decode_segment_mode("bogus"), Err(BindingError::InvalidArgument));
    assert_eq!(decode_segment_mode(""), Err(BindingError::InvalidArgument));
    assert_eq!(decode_segment_mode("gcx"), Err(BindingError::InvalidArgument));
}

#[test]
fn gc_tag_builds_and_bogus_tag_fails() {
    let mut o = empty_options();
    o.segment_mode = "gc".to_string();
    let c = build_configuration(o).unwrap();
    assert_eq!(c.settings().segment_mode, Some(SegmentMode::Gc));
    let mut o = empty_options();
    o.segment_mode = "bogus".to_string();
    assert_eq!(build_configuration(o).err(), Some(BindingError::InvalidArgument));
}

#[test]
fn flush_enabled_without_value_is_refused() {
    let mut o = empty_options();
    o.flush_every_ms = Some((true, None));
    assert_eq!(build_configuration(o).err(), Some(BindingError::InvalidArgument));
}

#[test]
fn snapshot_disabled_with_value_is_refused() {
    let mut o = empty_options();
    o.snapshot_path = Some((false, Some("/tmp/snap".to_string())));
    assert_eq!(build_configuration(o).err(), Some(BindingError::InvalidArgument));
}

#[test]
fn build_sets_exactly_the_given_fields() {
    let mut o = empty_options();
    o.path = Some("/tmp/cfg".to_string());
    o.flush_every_ms = Some((false, None));
    o.cache_capacity = Some(1024);
    o.snapshot_path = Some((true, Some("/tmp/snap".to_string())));
    o.read_only = Some(true);
    o.segment_mode = "linear".to_string();
    let c = build_configuration(o).unwrap();
    let s = c.settings();
    assert_eq!(s.path, Some("/tmp/cfg".to_string()));
    assert_eq!(s.flush_every_ms, Some(None));
    assert_eq!(s.cache_capacity, Some(1024));
    assert_eq!(s.snapshot_path, Some(Some("/tmp/snap".to_string())));
    assert_eq!(s.read_only, Some(true));
    assert_eq!(s.segment_mode, Some(SegmentMode::Linear));
    assert_eq!(s.temporary, None);
    assert_eq!(s.compression_factor, None);
    assert_eq!(s.idgen_persist_interval, None);
}

#[test]
fn empty_record_leaves_every_default() {
    let c = build_configuration(empty_options()).unwrap();
    assert_eq!(*c.settings(), Configuration::unset());
}

#[test]
fn rebuilding_gives_equal_settings() {
    let make = || {
        let mut o = empty_options();
        o.path = Some("/tmp/same".to_string());
        o.flush_every_ms = Some((true, Some(100)));
        o.compression_factor = Some(9);
        o
    };
    let a = build_configuration(make()).unwrap();
    let b = build_configuration(make()).unwrap();
    assert_eq!(a.settings(), b.settings());
}

#[test]
fn settings_apply_in_any_order() {
    let settings = vec![
        Setting::Path("/tmp/order".to_string()),
        Setting::CacheCapacity(4096),
        Setting::FlushEveryMs(None),
        Setting::SegmentMode(SegmentMode::Gc),
    ];
    let mut forward = Configuration::unset();
    for s in settings.iter() {
        forward = forward.apply(s.clone());
    }
    let mut backward = Configuration::unset();
    for s in settings.iter().rev() {
        backward = backward.apply(s.clone());
    }
    assert_eq!(forward, backward);
    assert_eq!(forward.cache_capacity, Some(4096));
    assert_eq!(forward.flush_every_ms, Some(None));
}

#[test]
fn later_setting_of_same_field_wins() {
    let c = Configuration::unset()
        .apply(Setting::CacheCapacity(1))
        .apply(Setting::CacheCapacity(2));
    assert_eq!(c.cache_capacity, Some(2));
}

#[test]
fn inspect_shows_engine_settings() {
    let mut o = empty_options();
    o.cache_capacity = Some(1024);
    let c = build_configuration(o).unwrap();
    let text = c.inspect();
    assert!(text.contains("cache_capacity: 1024"));
}

#[test]
fn scenario_open_insert_get() {
    let mut o = empty_options();
    o.path = Some("/tmp/x".to_string());
    o.cache_capacity = Some(1024);
    let c = build_configuration(o).unwrap();
    let d = c.open().unwrap();
    assert_eq!(d.insert(b"a".to_vec(), b"1".to_vec()), Ok(()));
    assert_eq!(d.get(b"a"), Ok(Lookup::Found(b"1".to_vec())));
    assert_eq!(d.get(b"missing"), Ok(Lookup::Absent));
}

#[test]
fn values_round_trip_byte_for_byte() {
    let c = build_configuration(temporary_options("/tmp/sled_nif_round_trip")).unwrap();
    let d = c.open().unwrap();
    let binary = vec![0u8, 1, 0, 255, 0];
    d.insert(b"zeros".to_vec(), binary.clone()).unwrap();
    d.insert(b"empty".to_vec(), Vec::new()).unwrap();
    d.insert(vec![0u8, 0], b"key with zeros".to_vec()).unwrap();
    assert_eq!(d.get(b"zeros"), Ok(Lookup::Found(binary)));
    assert_eq!(d.get(b"empty"), Ok(Lookup::Found(Vec::new())));
    assert_eq!(d.get(&[0u8, 0]), Ok(Lookup::Found(b"key with zeros".to_vec())));
}

#[test]
fn never_inserted_key_is_absent_not_empty() {
    let c = build_configuration(temporary_options("/tmp/sled_nif_absent")).unwrap();
    let d = c.open().unwrap();
    let r = d.get(b"nothing here");
    assert_eq!(r, Ok(Lookup::Absent));
    assert_ne!(r, Ok(Lookup::Found(Vec::new())));
}

#[test]
fn overwrite_keeps_last_value() {
    let c = build_configuration(temporary_options("/tmp/sled_nif_overwrite")).unwrap();
    let d = c.open().unwrap();
    d.insert(b"k".to_vec(), b"first".to_vec()).unwrap();
    d.insert(b"k".to_vec(), b"second".to_vec()).unwrap();
    assert_eq!(d.get(b"k"), Ok(Lookup::Found(b"second".to_vec())));
}

#[test]
fn open_under_a_file_fails_with_engine_error() {
    match open_path("/dev/null/sled_nif_db") {
        Err(BindingError::EngineError(reason)) => assert!(!reason.is_empty()),
        Err(BindingError::InvalidArgument) => panic!("wrong failure kind"),
        Ok(_) => panic!("a database was opened under a file"),
    }
}

#[test]
fn configured_open_under_a_file_fails_with_engine_error() {
    let mut o = empty_options();
    o.path = Some("/dev/null/sled_nif_cfg_db".to_string());
    let c = build_configuration(o).unwrap();
    assert!(matches!(c.open(), Err(BindingError::EngineError(_))));
}

#[test]
fn engine_failure_carries_reason() {
    let e = engine_failure(sled::Error::Unsupported("no such thing".to_string()));
    assert_eq!(e, BindingError::EngineError("Unsupported: no such thing".to_string()));
}

#[test]
fn looked_up_maps_each_outcome() {
    assert_eq!(looked_up(Ok(Some(vec![0u8, 9]))), Ok(Lookup::Found(vec![0u8, 9])));
    assert_eq!(looked_up(Ok(Some(Vec::new()))), Ok(Lookup::Found(Vec::new())));
    assert_eq!(looked_up(Ok(None)), Ok(Lookup::Absent));
    assert_eq!(
        looked_up(Err(sled::Error::Unsupported("x".to_string()))),
        Err(BindingError::EngineError("Unsupported: x".to_string()))
    );
}

#[test]
fn written_and_opened_map_failures() {
    assert_eq!(written(Ok(())), Ok(()));
    assert_eq!(
        written(Err(sled::Error::ReportableBug("b".to_string()))).err().map(|e| matches!(e, BindingError::EngineError(_))),
        Some(true)
    );
    assert!(matches!(
        opened(Err(sled::Error::Unsupported("u".to_string()))),
        Err(BindingError::EngineError(_))
    ));
}

#[test]
fn built_configuration_matches_settings_in_reverse_order() {
    let mut o = empty_options();
    o.path = Some("/tmp/reverse".to_string());
    o.flush_every_ms = Some((true, Some(1000)));
    o.use_compression = Some(false);
    o.segment_mode = "linear".to_string();
    o.idgen_persist_interval = Some(77);
    let built = build_configuration(o).unwrap();
    let by_hand = Configuration::unset()
        .apply(Setting::IdgenPersistInterval(77))
        .apply(Setting::SegmentMode(SegmentMode::Linear))
        .apply(Setting::UseCompression(false))
        .apply(Setting::FlushEveryMs(Some(1000)))
        .apply(Setting::Path("/tmp/reverse".to_string()));
    assert_eq!(*built.settings(), by_hand);
}

#[test]
fn small_cache_capacity_is_refused_on_open() {
    let mut o = temporary_options("/tmp/sled_nif_small_cache");
    o.cache_capacity = Some(100);
    let c = build_configuration(o).unwrap();
    assert!(matches!(c.open(), Err(BindingError::EngineError(_))));
}

#[test]
fn smallest_cache_capacity_opens() {
    let mut o = temporary_options("/tmp/sled_nif_min_cache");
    o.cache_capacity = Some(256);
    let c = build_configuration(o).unwrap();
    let d = c.open().unwrap();
    assert_eq!(d.get(b"k"), Ok(Lookup::Absent));
}

#[test]
fn inspect_shows_defaults_and_settings() {
    let mut o = empty_options();
    o.flush_every_ms = Some((false, None));
    o.compression_factor = Some(-3);
    o.create_new = Some(true);
    let text = build_configuration(o).unwrap().inspect();
    assert!(text.contains("flush_every_ms: None"));
    assert!(text.contains("compression_factor: -3"));
    assert!(text.contains("create_new: true"));
    assert!(text.contains("cache_capacity: 1073741824"));
    assert!(text.contains("idgen_persist_interval: 1000000"));
    let mut o = empty_options();
    o.flush_every_ms = Some((true, Some(250)));
    let text = build_configuration(o).unwrap().inspect();
    assert!(text.contains("flush_every_ms: Some(250)"));
}
