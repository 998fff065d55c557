//! The configuration model: the host's option record, the settings it asks
//! for, and the configuration that results from applying them.
use vstd::prelude::*;
use crate::options::{
    decode_segment_mode, decode_tri_state, segment_mode_of, segment_tag_known, tri_state_of,
    tri_state_well_formed, BindingError, SegmentMode, TriState,
};

verus! {

/// The option record as the host sends it. Every field may be absent; the
/// two tri-state fields are `(enabled, value)` pairs, and `segment_mode` is
/// one of the tags `nil`, `linear` or `gc`.
pub struct ConfigOptions {
    pub path: Option<String>,
    pub flush_every_ms: Option<(bool, Option<u64>)>,
    pub temporary: Option<bool>,
    pub create_new: Option<bool>,
    pub cache_capacity: Option<u64>,
    pub print_profile_on_drop: Option<bool>,
    pub use_compression: Option<bool>,
    pub compression_factor: Option<i32>,
    pub snapshot_after_ops: Option<u64>,
    pub segment_cleanup_threshold: Option<u8>,
    pub segment_cleanup_skew: Option<usize>,
    pub segment_mode: String,
    pub snapshot_path: Option<(bool, Option<String>)>,
    pub idgen_persist_interval: Option<u64>,
    pub read_only: Option<bool>,
}

/// A configuration: for each setting, `None` leaves the engine's default and
/// `Some` holds the value asked for. For `flush_every_ms` and `snapshot_path`
/// a value of `None` switches the feature off.
#[derive(Debug, Clone, PartialEq, Eq)]
pub struct Configuration {
    pub path: Option<String>,
    pub flush_every_ms: Option<Option<u64>>,
    pub temporary: Option<bool>,
    pub create_new: Option<bool>,
    pub cache_capacity: Option<u64>,
    pub print_profile_on_drop: Option<bool>,
    pub use_compression: Option<bool>,
    pub compression_factor: Option<i32>,
    pub snapshot_after_ops: Option<u64>,
    pub segment_cleanup_threshold: Option<u8>,
    pub segment_cleanup_skew: Option<usize>,
    pub segment_mode: Option<SegmentMode>,
    pub snapshot_path: Option<Option<String>>,
    pub idgen_persist_interval: Option<u64>,
    pub read_only: Option<bool>,
}

/// One setting, naming the field it targets and the value it gives it.
#[derive(Debug, Clone, PartialEq, Eq)]
pub enum Setting {
    Path(String),
    FlushEveryMs(Option<u64>),
    Temporary(bool),
    CreateNew(bool),
    CacheCapacity(u64),
    PrintProfileOnDrop(bool),
    UseCompression(bool),
    CompressionFactor(i32),
    SnapshotAfterOps(u64),
    SegmentCleanupThreshold(u8),
    SegmentCleanupSkew(usize),
    SegmentMode(SegmentMode),
    SnapshotPath(Option<String>),
    IdgenPersistInterval(u64),
    ReadOnly(bool),
}

/// The configuration in which every setting is left to the engine.
pub open spec fn unset_configuration() -> Configuration {
    Configuration {
        path: None,
        flush_every_ms: None,
        temporary: None,
        create_new: None,
        cache_capacity: None,
        print_profile_on_drop: None,
        use_compression: None,
        compression_factor: None,
        snapshot_after_ops: None,
        segment_cleanup_threshold: None,
        segment_cleanup_skew: None,
        segment_mode: None,
        snapshot_path: None,
        idgen_persist_interval: None,
        read_only: None,
    }
}

/// The field that a setting targets, as a position in the record.
pub open spec fn field_of(s: Setting) -> int {
    match s {
        Setting::Path(_) => 0,
        Setting::FlushEveryMs(_) => 1,
        Setting::Temporary(_) => 2,
        Setting::CreateNew(_) => 3,
        Setting::CacheCapacity(_) => 4,
        Setting::PrintProfileOnDrop(_) => 5,
        Setting::UseCompression(_) => 6,
        Setting::CompressionFactor(_) => 7,
        Setting::SnapshotAfterOps(_) => 8,
        Setting::SegmentCleanupThreshold(_) => 9,
        Setting::SegmentCleanupSkew(_) => 10,
        Setting::SegmentMode(_) => 11,
        Setting::SnapshotPath(_) => 12,
        Setting::IdgenPersistInterval(_) => 13,
        Setting::ReadOnly(_) => 14,
    }
}

/// The configuration `c` with the one field that `s` targets set.
pub open spec fn apply_setting(c: Configuration, s: Setting) -> Configuration {
    match s {
        Setting::Path(v) => Configuration { path: Some(v), ..c },
        Setting::FlushEveryMs(v) => Configuration { flush_every_ms: Some(v), ..c },
        Setting::Temporary(v) => Configuration { temporary: Some(v), ..c },
        Setting::CreateNew(v) => Configuration { create_new: Some(v), ..c },
        Setting::CacheCapacity(v) => Configuration { cache_capacity: Some(v), ..c },
        Setting::PrintProfileOnDrop(v) => Configuration { print_profile_on_drop: Some(v), ..c },
        Setting::UseCompression(v) => Configuration { use_compression: Some(v), ..c },
        Setting::CompressionFactor(v) => Configuration { compression_factor: Some(v), ..c },
        Setting::SnapshotAfterOps(v) => Configuration { snapshot_after_ops: Some(v), ..c },
        Setting::SegmentCleanupThreshold(v) => Configuration {
            segment_cleanup_threshold: Some(v),
            ..c
        },
        Setting::SegmentCleanupSkew(v) => Configuration { segment_cleanup_skew: Some(v), ..c },
        Setting::SegmentMode(v) => Configuration { segment_mode: Some(v), ..c },
        Setting::SnapshotPath(v) => Configuration { snapshot_path: Some(v), ..c },
        Setting::IdgenPersistInterval(v) => Configuration { idgen_persist_interval: Some(v), ..c },
        Setting::ReadOnly(v) => Configuration { read_only: Some(v), ..c },
    }
}

/// The configuration that results from applying `ss` to `c`, first to last.
pub open spec fn apply_all(c: Configuration, ss: Seq<Setting>) -> Configuration
    decreases ss.len(),
{
    if ss.len() == 0 {
        c
    } else {
        apply_setting(apply_all(c, ss.drop_last()), ss.last())
    }
}

/// No two settings of `ss` target the same field.
pub open spec fn independent(ss: Seq<Setting>) -> bool {
    forall|i: int, j: int|
        0 <= i < ss.len() && 0 <= j < ss.len() && i != j ==> field_of(ss[i]) != field_of(ss[j])
}

impl Configuration {
    /// The configuration in which every setting is left to the engine.
    pub fn unset() -> (r: Configuration)
        ensures
            r == unset_configuration(),
    {
        Configuration {
            path: None,
            flush_every_ms: None,
            temporary: None,
            create_new: None,
            cache_capacity: None,
            print_profile_on_drop: None,
            use_compression: None,
            compression_factor: None,
            snapshot_after_ops: None,
            segment_cleanup_threshold: None,
            segment_cleanup_skew: None,
            segment_mode: None,
            snapshot_path: None,
            idgen_persist_interval: None,
            read_only: None,
        }
    }

    /// Sets the one field that `s` targets and keeps all others.
    pub fn apply(self, s: Setting) -> (r: Configuration)
        ensures
            r == apply_setting(self, s),
    {
        match s {
            Setting::Path(v) => Configuration { path: Some(v), ..self },
            Setting::FlushEveryMs(v) => Configuration { flush_every_ms: Some(v), ..self },
            Setting::Temporary(v) => Configuration { temporary: Some(v), ..self },
            Setting::CreateNew(v) => Configuration { create_new: Some(v), ..self },
            Setting::CacheCapacity(v) => Configuration { cache_capacity: Some(v), ..self },
            Setting::PrintProfileOnDrop(v) => Configuration {
                print_profile_on_drop: Some(v),
                ..self
            },
            Setting::UseCompression(v) => Configuration { use_compression: Some(v), ..self },
            Setting::CompressionFactor(v) => Configuration { compression_factor: Some(v), ..self },
            Setting::SnapshotAfterOps(v) => Configuration { snapshot_after_ops: Some(v), ..self },
            Setting::SegmentCleanupThreshold(v) => Configuration {
                segment_cleanup_threshold: Some(v),
                ..self
            },
            Setting::SegmentCleanupSkew(v) => Configuration {
                segment_cleanup_skew: Some(v),
                ..self
            },
            Setting::SegmentMode(v) => Configuration { segment_mode: Some(v), ..self },
            Setting::SnapshotPath(v) => Configuration { snapshot_path: Some(v), ..self },
            Setting::IdgenPersistInterval(v) => Configuration {
                idgen_persist_interval: Some(v),
                ..self
            },
            Setting::ReadOnly(v) => Configuration { read_only: Some(v), ..self },
        }
    }
}

/// The setting that a decoded tri-state asks for: nothing, off, or a value.
pub open spec fn tri_state_setting<T>(t: TriState<T>) -> Option<Option<T>> {
    match t {
        TriState::Unspecified => None,
        TriState::Disabled => Some(None),
        TriState::EnabledWith(v) => Some(Some(v)),
    }
}

/// The optional setting that field `i` of a host record asks for.
pub open spec fn requested_option(o: ConfigOptions, i: int) -> Option<Setting> {
    if i == 0 {
        match o.path {
            Some(v) => Some(Setting::Path(v)),
            None => None,
        }
    } else if i == 1 {
        match tri_state_setting(tri_state_of(o.flush_every_ms)) {
            Some(v) => Some(Setting::FlushEveryMs(v)),
            None => None,
        }
    } else if i == 2 {
        match o.temporary {
            Some(v) => Some(Setting::Temporary(v)),
            None => None,
        }
    } else if i == 3 {
        match o.create_new {
            Some(v) => Some(Setting::CreateNew(v)),
            None => None,
        }
    } else if i == 4 {
        match o.cache_capacity {
            Some(v) => Some(Setting::CacheCapacity(v)),
            None => None,
        }
    } else if i == 5 {
        match o.print_profile_on_drop {
            Some(v) => Some(Setting::PrintProfileOnDrop(v)),
            None => None,
        }
    } else if i == 6 {
        match o.use_compression {
            Some(v) => Some(Setting::UseCompression(v)),
            None => None,
        }
    } else if i == 7 {
        match o.compression_factor {
            Some(v) => Some(Setting::CompressionFactor(v)),
            None => None,
        }
    } else if i == 8 {
        match o.snapshot_after_ops {
            Some(v) => Some(Setting::SnapshotAfterOps(v)),
            None => None,
        }
    } else if i == 9 {
        match o.segment_cleanup_threshold {
            Some(v) => Some(Setting::SegmentCleanupThreshold(v)),
            None => None,
        }
    } else if i == 10 {
        match o.segment_cleanup_skew {
            Some(v) => Some(Setting::SegmentCleanupSkew(v)),
            None => None,
        }
    } else if i == 11 {
        match segment_mode_of(o.segment_mode@) {
            Some(v) => Some(Setting::SegmentMode(v)),
            None => None,
        }
    } else if i == 12 {
        match tri_state_setting(tri_state_of(o.snapshot_path)) {
            Some(v) => Some(Setting::SnapshotPath(v)),
            None => None,
        }
    } else if i == 13 {
        match o.idgen_persist_interval {
            Some(v) => Some(Setting::IdgenPersistInterval(v)),
            None => None,
        }
    } else {
        match o.read_only {
            Some(v) => Some(Setting::ReadOnly(v)),
            None => None,
        }
    }
}

/// The optional setting that each field of a host record asks for, in the
/// order of the record's fields.
pub open spec fn requested_options(o: ConfigOptions) -> Seq<Option<Setting>> {
    Seq::new(15, |i: int| requested_option(o, i))
}

/// The configuration after applying `s` when it is there.
pub open spec fn apply_optional(c: Configuration, s: Option<Setting>) -> Configuration {
    match s {
        Some(x) => apply_setting(c, x),
        None => c,
    }
}

/// The configuration after applying, first to last, each setting of `os`
/// that is there.
pub open spec fn apply_options(c: Configuration, os: Seq<Option<Setting>>) -> Configuration
    decreases os.len(),
{
    if os.len() == 0 {
        c
    } else {
        apply_optional(apply_options(c, os.drop_last()), os.last())
    }
}

/// Whether every field of the host's record has a legal shape.
pub open spec fn options_valid(o: ConfigOptions) -> bool {
    tri_state_well_formed(o.flush_every_ms) && segment_tag_known(o.segment_mode@)
        && tri_state_well_formed(o.snapshot_path)
}

/// The configuration that a valid host record describes.
pub open spec fn configuration_of(o: ConfigOptions) -> Configuration {
    Configuration {
        path: o.path,
        flush_every_ms: tri_state_setting(tri_state_of(o.flush_every_ms)),
        temporary: o.temporary,
        create_new: o.create_new,
        cache_capacity: o.cache_capacity,
        print_profile_on_drop: o.print_profile_on_drop,
        use_compression: o.use_compression,
        compression_factor: o.compression_factor,
        snapshot_after_ops: o.snapshot_after_ops,
        segment_cleanup_threshold: o.segment_cleanup_threshold,
        segment_cleanup_skew: o.segment_cleanup_skew,
        segment_mode: segment_mode_of(o.segment_mode@),
        snapshot_path: tri_state_setting(tri_state_of(o.snapshot_path)),
        idgen_persist_interval: o.idgen_persist_interval,
        read_only: o.read_only,
    }
}

/// Turns a decoded tri-state into the setting it asks for.
pub fn tri_state_choice<T>(t: TriState<T>) -> (r: Option<Option<T>>)
    ensures
        r == tri_state_setting(t),
{
    match t {
        TriState::Unspecified => None,
        TriState::Disabled => Some(None),
        TriState::EnabledWith(v) => Some(Some(v)),
    }
}

impl Configuration {
    /// Decodes the host's record into a configuration that sets exactly the
    /// fields the record holds. A malformed tri-state pair or an unknown segment
    /// mode tag refuses the whole record with `InvalidArgument`.
    pub fn from_options(o: ConfigOptions) -> (r: Result<Configuration, BindingError>)
        ensures
            r is Ok <==> options_valid(o),
            r matches Err(e) ==> e == BindingError::InvalidArgument,
            r matches Ok(c) ==> c == configuration_of(o),
            r matches Ok(c) ==> c == apply_all(unset_configuration(), requested_settings(o)),
    {
        proof {
            lemma_requested_independent(o);
            lemma_build_order_independent(o, requested_settings(o));
        }
        let ghost o0 = o;
        let ConfigOptions {
            path,
            flush_every_ms,
            temporary,
            create_new,
            cache_capacity,
            print_profile_on_drop,
            use_compression,
            compression_factor,
            snapshot_after_ops,
            segment_cleanup_threshold,
            segment_cleanup_skew,
            segment_mode,
            snapshot_path,
            idgen_persist_interval,
            read_only,
        } = o;
        let flush = match decode_tri_state(flush_every_ms) {
            Ok(t) => t,
            Err(e) => return Err(e),
        };
        let mode = match decode_segment_mode(segment_mode.as_str()) {
            Ok(m) => m,
            Err(e) => return Err(e),
        };
        let snapshot = match decode_tri_state(snapshot_path) {
            Ok(t) => t,
            Err(e) => return Err(e),
        };
        let c = Configuration {
            path,
            flush_every_ms: tri_state_choice(flush),
            temporary,
            create_new,
            cache_capacity,
            print_profile_on_drop,
            use_compression,
            compression_factor,
            snapshot_after_ops,
            segment_cleanup_threshold,
            segment_cleanup_skew,
            segment_mode: mode,
            snapshot_path: tri_state_choice(snapshot),
            idgen_persist_interval,
            read_only,
        };
        assert(c == configuration_of(o0));
        Ok(c)
    }
}

/// The configuration that a valid host record describes, restricted to its
/// first `k` fields; the others are left unset.
spec fn configuration_prefix(o: ConfigOptions, k: int) -> Configuration {
    let t = configuration_of(o);
    Configuration {
        path: if k > 0 {
            t.path
        } else {
            None
        },
        flush_every_ms: if k > 1 {
            t.flush_every_ms
        } else {
            None
        },
        temporary: if k > 2 {
            t.temporary
        } else {
            None
        },
        create_new: if k > 3 {
            t.create_new
        } else {
            None
        },
        cache_capacity: if k > 4 {
            t.cache_capacity
        } else {
            None
        },
        print_profile_on_drop: if k > 5 {
            t.print_profile_on_drop
        } else {
            None
        },
        use_compression: if k > 6 {
            t.use_compression
        } else {
            None
        },
        compression_factor: if k > 7 {
            t.compression_factor
        } else {
            None
        },
        snapshot_after_ops: if k > 8 {
            t.snapshot_after_ops
        } else {
            None
        },
        segment_cleanup_threshold: if k > 9 {
            t.segment_cleanup_threshold
        } else {
            None
        },
        segment_cleanup_skew: if k > 10 {
            t.segment_cleanup_skew
        } else {
            None
        },
        segment_mode: if k > 11 {
            t.segment_mode
        } else {
            None
        },
        snapshot_path: if k > 12 {
            t.snapshot_path
        } else {
            None
        },
        idgen_persist_interval: if k > 13 {
            t.idgen_persist_interval
        } else {
            None
        },
        read_only: if k > 14 {
            t.read_only
        } else {
            None
        },
    }
}

/// The settings of `os` that are there, in order.
pub open spec fn present(os: Seq<Option<Setting>>) -> Seq<Setting>
    decreases os.len(),
{
    if os.len() == 0 {
        Seq::empty()
    } else {
        match os.last() {
            Some(x) => present(os.drop_last()).push(x),
            None => present(os.drop_last()),
        }
    }
}

/// Applying the first `k` optional settings that a host record asks for to
/// the unset configuration sets exactly its first `k` fields.
proof fn lemma_options_prefix(o: ConfigOptions, k: int)
    requires
        0 <= k <= 15,
    ensures
        apply_options(unset_configuration(), requested_options(o).take(k)) == configuration_prefix(
            o,
            k,
        ),
    decreases k,
{
    let os = requested_options(o);
    if k == 0 {
        assert(os.take(0) =~= Seq::<Option<Setting>>::empty());
    } else {
        lemma_options_prefix(o, k - 1);
        assert(os.take(k).drop_last() =~= os.take(k - 1));
        assert(os.take(k).last() == os[k - 1]);
    }
}

/// Applying the settings that a valid host record asks for, one field after
/// another, to the unset configuration gives the configuration it describes.
proof fn lemma_options_as_settings(o: ConfigOptions)
    ensures
        apply_options(unset_configuration(), requested_options(o)) == configuration_of(o),
{
    lemma_options_prefix(o, 15);
    assert(requested_options(o).take(15) =~= requested_options(o));
}

/// Skipping the absent entries of `os` changes nothing: applying the
/// optional settings equals applying the ones that are there.
proof fn lemma_apply_present(c: Configuration, os: Seq<Option<Setting>>)
    ensures
        apply_options(c, os) == apply_all(c, present(os)),
    decreases os.len(),
{
    if os.len() > 0 {
        lemma_apply_present(c, os.drop_last());
        if os.last() is Some {
            assert(present(os).drop_last() =~= present(os.drop_last()));
        }
    }
}

/// When each entry of `os` that is there targets the field at its own
/// position, the settings that are there are independent and target
/// fields below `os.len()`.
proof fn lemma_present_independent(os: Seq<Option<Setting>>)
    requires
        forall|i: int| 0 <= i < os.len() && (#[trigger] os[i]) is Some ==> field_of(os[i]->0) == i,
    ensures
        independent(present(os)),
        forall|j: int| 0 <= j < present(os).len() ==> field_of(#[trigger] present(os)[j]) < os.len(),
    decreases os.len(),
{
    if os.len() > 0 {
        let rest = os.drop_last();
        assert forall|i: int| 0 <= i < rest.len() && (#[trigger] rest[i]) is Some implies field_of(
            rest[i]->0) == i by {
            assert(rest[i] == os[i]);
        }
        lemma_present_independent(rest);
    }
}

/// The settings that a host record asks for, one per field it holds, in
/// the order of the record's fields.
pub open spec fn requested_settings(o: ConfigOptions) -> Seq<Setting> {
    present(requested_options(o))
}

/// No two of the settings a host record asks for target the same field.
pub proof fn lemma_requested_independent(o: ConfigOptions)
    ensures
        independent(requested_settings(o)),
{
    let os = requested_options(o);
    assert forall|i: int| 0 <= i < os.len() && (#[trigger] os[i]) is Some implies field_of(
        os[i]->0) == i by {
        assert(os[i] == requested_option(o, i));
    }
    lemma_present_independent(os);
}

/// Applying the settings a host record asks for, in any order, gives the
/// configuration the record describes: every sequence of independent
/// settings that holds exactly those settings leads from the unset
/// configuration to `configuration_of(o)`.
pub proof fn lemma_build_order_independent(o: ConfigOptions, ss: Seq<Setting>)
    requires
        independent(ss),
        ss.to_set() == requested_settings(o).to_set(),
    ensures
        apply_all(unset_configuration(), ss) == configuration_of(o),
{
    lemma_requested_independent(o);
    lemma_options_as_settings(o);
    lemma_apply_present(unset_configuration(), requested_options(o));
    lemma_order_independent(unset_configuration(), requested_settings(o), ss);
}

/// Two settings that target different fields can be applied in either order.
pub proof fn lemma_apply_commutes(c: Configuration, a: Setting, b: Setting)
    requires
        field_of(a) != field_of(b),
    ensures
        apply_setting(apply_setting(c, a), b) == apply_setting(apply_setting(c, b), a),
{
}


/// Applying a sequence of independent settings equals applying all but the
/// `k`-th of them and then the `k`-th.
proof fn lemma_apply_one_last(c: Configuration, ss: Seq<Setting>, k: int)
    requires
        independent(ss),
        0 <= k < ss.len(),
    ensures
        apply_all(c, ss) == apply_setting(apply_all(c, ss.remove(k)), ss[k]),
    decreases ss.len(),
{
    let n = ss.len();
    if k == n - 1 {
        assert(ss.remove(k) =~= ss.drop_last());
    } else {
        let pre = ss.drop_last();
        assert forall|i: int, j: int|
            0 <= i < pre.len() && 0 <= j < pre.len() && i != j implies field_of(pre[i]) != field_of(
            pre[j]) by {
            assert(pre[i] == ss[i] && pre[j] == ss[j]);
        }
        lemma_apply_one_last(c, pre, k);
        let rest = ss.remove(k);
        assert(rest.drop_last() =~= pre.remove(k));
        assert(rest.last() == ss.last());
        assert(field_of(ss[k]) != field_of(ss[n - 1]));
        lemma_apply_commutes(apply_all(c, pre.remove(k)), ss[k], ss.last());
    }
}

/// Independent settings give the same configuration in whatever order they
/// are applied: two sequences of independent settings that hold the same
/// settings lead from any configuration to the same result.
pub proof fn lemma_order_independent(c: Configuration, s1: Seq<Setting>, s2: Seq<Setting>)
    requires
        independent(s1),
        independent(s2),
        s1.to_set() == s2.to_set(),
    ensures
        apply_all(c, s1) == apply_all(c, s2),
    decreases s2.len(),
{
    if s2.len() == 0 {
        if s1.len() > 0 {
            assert(s1.to_set().contains(s1[0]));
            assert(!s2.to_set().contains(s1[0]));
        }
    } else {
        let x = s2.last();
        assert(s2.to_set().contains(x));
        assert(s1.contains(x));
        let k = choose|k: int| 0 <= k < s1.len() && s1[k] == x;
        lemma_apply_one_last(c, s1, k);
        let r1 = s1.remove(k);
        let r2 = s2.drop_last();
        assert forall|i: int, j: int|
            0 <= i < r1.len() && 0 <= j < r1.len() && i != j implies field_of(r1[i]) != field_of(
            r1[j]) by {
            let ii = if i < k { i } else { i + 1 };
            let jj = if j < k { j } else { j + 1 };
            assert(r1[i] == s1[ii] && r1[j] == s1[jj]);
        }
        assert forall|i: int, j: int|
            0 <= i < r2.len() && 0 <= j < r2.len() && i != j implies field_of(r2[i]) != field_of(
            r2[j]) by {
            assert(r2[i] == s2[i] && r2[j] == s2[j]);
        }
        assert forall|y: Setting| r1.to_set().contains(y) == r2.to_set().contains(y) by {
            if r1.contains(y) {
                let i = choose|i: int| 0 <= i < r1.len() && r1[i] == y;
                let ii = if i < k { i } else { i + 1 };
                assert(s1[ii] == y);
                assert(s1.to_set().contains(y));
                assert(s2.contains(y));
                let j = choose|j: int| 0 <= j < s2.len() && s2[j] == y;
                assert(j != s2.len() - 1);
                assert(r2[j] == y);
            }
            if r2.contains(y) {
                let j = choose|j: int| 0 <= j < r2.len() && r2[j] == y;
                assert(s2[j] == y);
                assert(s2.to_set().contains(y));
                assert(s1.contains(y));
                let i = choose|i: int| 0 <= i < s1.len() && s1[i] == y;
                assert(i != k);
                let ii = if i < k { i } else { i - 1 };
                assert(r1[ii] == y);
            }
        }
        assert(r1.to_set() =~= r2.to_set());
        lemma_order_independent(c, r1, r2);
    }
}

} // verus!
