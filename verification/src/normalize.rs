//! The event normalizer: turns one raw, OS-reported change notification
//! (a kind tag plus the attached paths) into zero or more canonical
//! `EventRecord`s, discarding noise.

use vstd::prelude::*;
use crate::record::{ChangeType, EventRecord, RecordModel, models_of, views_of};

verus! {

/// The raw notification kinds the normalizer distinguishes. A platform
/// watcher's notification is reduced to one of these tags before it
/// reaches the normalizer.
#[derive(Clone, Copy, PartialEq, Eq, Structural, Debug)]
pub enum RawKind {
    /// Something was created.
    Create,
    /// Something was removed.
    Remove,
    /// A metadata-only modification (permissions, timestamps): noise.
    MetadataModify,
    /// The "old name" half of a rename reported as two notifications.
    RenameFrom,
    /// The "new name" half of a rename reported as two notifications.
    RenameTo,
    /// A rename reported atomically as a single notification.
    RenameAny,
    /// Any other modification (content, or a name change of another shape).
    OtherModify,
    /// Any notification kind not covered above: dropped by design.
    Other,
}

/// The exhaustive classification of raw kinds into change tags.
/// `None` means the notification produces no records.
pub open spec fn spec_classify(k: RawKind) -> Option<ChangeType> {
    match k {
        RawKind::Create => Some(ChangeType::Create),
        RawKind::Remove => Some(ChangeType::Remove),
        RawKind::MetadataModify => None,
        RawKind::RenameFrom => Some(ChangeType::RenameFrom),
        RawKind::RenameTo => Some(ChangeType::RenameTo),
        RawKind::RenameAny => Some(ChangeType::Renamed),
        RawKind::OtherModify => Some(ChangeType::Modify),
        RawKind::Other => None,
    }
}

/// Classifies a raw notification kind.
pub fn classify(k: RawKind) -> (r: Option<ChangeType>)
    ensures
        r == spec_classify(k),
{
    match k {
        RawKind::Create => Some(ChangeType::Create),
        RawKind::Remove => Some(ChangeType::Remove),
        RawKind::MetadataModify => None,
        RawKind::RenameFrom => Some(ChangeType::RenameFrom),
        RawKind::RenameTo => Some(ChangeType::RenameTo),
        RawKind::RenameAny => Some(ChangeType::Renamed),
        RawKind::OtherModify => Some(ChangeType::Modify),
        RawKind::Other => None,
    }
}

/// The final segment of a path: the characters after the last `/`.
/// Empty when the path is empty or ends in `/`.
pub open spec fn final_segment(s: Seq<char>) -> Seq<char>
    decreases s.len(),
{
    if s.len() == 0 {
        s
    } else if s[s.len() - 1] == '/' {
        Seq::empty()
    } else {
        final_segment(s.drop_last()).push(s[s.len() - 1])
    }
}

/// A one-character segment `.`: the current directory, not a file name.
pub open spec fn is_dot(seg: Seq<char>) -> bool {
    seg.len() == 1 && seg[0] == '.'
}

/// A two-character segment `..`: the parent directory, not a file name.
pub open spec fn is_dotdot(seg: Seq<char>) -> bool {
    seg.len() == 2 && seg[0] == '.' && seg[1] == '.'
}

/// The file name a path decomposes into, empty when it has none: trailing
/// separators and trailing `.` segments are ignored, a path whose last real
/// segment is `..` (or that has no segment left) has no file name, and
/// otherwise the file name is that segment.
pub open spec fn path_file_name(s: Seq<char>) -> Seq<char>
    decreases s.len(),
{
    if s.len() == 0 {
        Seq::empty()
    } else if s[s.len() - 1] == '/' {
        path_file_name(s.drop_last())
    } else {
        let seg = final_segment(s);
        if is_dot(seg) {
            path_file_name(s.drop_last())
        } else if is_dotdot(seg) {
            Seq::empty()
        } else {
            seg
        }
    }
}

/// A path can become a record exactly when it decomposes into a file name.
pub open spec fn has_valid_segment(s: Seq<char>) -> bool {
    path_file_name(s).len() > 0
}

/// When no `/` occurs at or after position `i`, and position `i` is the
/// start of the string or preceded by a `/`, the final segment is exactly
/// the suffix from `i`.
proof fn lemma_final_segment_suffix(s: Seq<char>, i: int)
    requires
        0 <= i <= s.len(),
        forall|j: int| i <= j < s.len() ==> s[j] != '/',
        i == 0 || s[i - 1] == '/',
    ensures
        final_segment(s) == s.subrange(i, s.len() as int),
    decreases s.len() - i,
{
    if s.len() == i {
        if i == 0 {
            assert(final_segment(s) =~= s.subrange(0, 0));
        } else {
            assert(s[s.len() - 1] == '/');
            assert(final_segment(s) =~= s.subrange(i, s.len() as int));
        }
    } else {
        assert(s[s.len() - 1] != '/');
        lemma_final_segment_suffix(s.drop_last(), i);
        assert(s.drop_last().subrange(i, s.len() - 1) =~= s.subrange(i, s.len() - 1));
        assert(s.subrange(i, s.len() - 1).push(s[s.len() - 1]) =~= s.subrange(
            i,
            s.len() as int,
        ));
    }
}

/// Trailing separators do not change the file name a path decomposes into.
proof fn lemma_trailing_slashes_ignored(s: Seq<char>, e: int)
    requires
        0 <= e <= s.len(),
        forall|j: int| e <= j < s.len() ==> s[j] == '/',
    ensures
        path_file_name(s) == path_file_name(s.subrange(0, e)),
    decreases s.len() - e,
{
    if s.len() > e {
        assert(s[s.len() - 1] == '/');
        assert(s.drop_last() =~= s.subrange(0, s.len() - 1));
        lemma_trailing_slashes_ignored(s.subrange(0, s.len() - 1), e);
        assert(s.subrange(0, s.len() - 1).subrange(0, e) =~= s.subrange(0, e));
    } else {
        assert(s.subrange(0, e) =~= s);
    }
}

/// Decomposes the prefix of `path` before position `end`, as
/// `path_file_name` says.
fn file_name_upto(path: &str, end: usize) -> (r: Option<String>)
    requires
        end <= path@.len(),
    ensures
        r is Some <==> path_file_name(path@.subrange(0, end as int)).len() > 0,
        (match r {
            Some(f) => f@ == path_file_name(path@.subrange(0, end as int)),
            None => true,
        }),
    decreases end,
{
    let mut e: usize = end;
    while e > 0 && path.get_char(e - 1) == '/'
        invariant
            e <= end,
            end <= path@.len(),
            forall|j: int| e <= j < end ==> path@[j] == '/',
        decreases e,
    {
        e = e - 1;
    }
    proof {
        let s = path@.subrange(0, end as int);
        lemma_trailing_slashes_ignored(s, e as int);
        assert(s.subrange(0, e as int) =~= path@.subrange(0, e as int));
    }
    if e == 0 {
        return None;
    }
    let mut i: usize = e;
    while i > 0 && path.get_char(i - 1) != '/'
        invariant
            i <= e,
            0 < e <= path@.len(),
            path@[e - 1] != '/',
            forall|j: int| i <= j < e ==> path@[j] != '/',
        decreases i,
    {
        i = i - 1;
    }
    let ghost t = path@.subrange(0, e as int);
    proof {
        lemma_final_segment_suffix(t, i as int);
        assert(t.subrange(i as int, e as int) =~= path@.subrange(i as int, e as int));
        assert(final_segment(t) == path@.subrange(i as int, e as int));
        assert(i < e);
    }
    if e - i == 1 && path.get_char(i) == '.' {
        proof {
            assert(is_dot(final_segment(t)));
            assert(t.drop_last() =~= path@.subrange(0, i as int));
        }
        return file_name_upto(path, i);
    }
    if e - i == 2 && path.get_char(i) == '.' && path.get_char(i + 1) == '.' {
        proof {
            assert(is_dotdot(final_segment(t)));
        }
        return None;
    }
    proof {
        assert(!is_dot(final_segment(t)));
        assert(!is_dotdot(final_segment(t)));
        assert(path_file_name(t) == final_segment(t));
    }
    let seg = path.substring_char(i, e);
    Some(seg.to_owned())
}

/// Extracts the file name a path decomposes into, or `None` when it has
/// none (empty, all separators, or a last segment of `..`). Such a path is
/// dropped by the normalizer, silently.
pub fn file_name_of(path: &str) -> (r: Option<String>)
    ensures
        r is Some <==> has_valid_segment(path@),
        (match r {
            Some(f) => f@ == path_file_name(path@),
            None => true,
        }),
{
    let n = path.unicode_len();
    proof {
        assert(path@.subrange(0, path@.len() as int) =~= path@);
    }
    file_name_upto(path, n)
}

/// The records a notification yields: one per attached path that
/// decomposes into a file name, in path order, all sharing the change tag
/// and the timestamp, with the id drawn from `ids` at the path's position.
pub open spec fn spec_records(
    ct: ChangeType,
    paths: Seq<Seq<char>>,
    ids: Seq<Seq<char>>,
    ts: int,
) -> Seq<RecordModel>
    decreases paths.len(),
{
    if paths.len() == 0 {
        Seq::empty()
    } else {
        let rest = spec_records(ct, paths.drop_first(), ids.drop_first(), ts);
        if has_valid_segment(paths[0]) {
            seq![
                RecordModel {
                    id: ids[0],
                    timestamp: ts,
                    change_type: ct,
                    path: paths[0],
                    file_name: path_file_name(paths[0]),
                },
            ] + rest
        } else {
            rest
        }
    }
}

/// Builds the records for one classified notification, given the fresh ids
/// (one per path; an id at a dropped path's position is discarded) and the
/// detection timestamp.
pub fn build_records(
    ct: ChangeType,
    paths: &Vec<String>,
    ids: &Vec<String>,
    timestamp: i64,
) -> (r: Vec<EventRecord>)
    requires
        ids@.len() == paths@.len(),
    ensures
        models_of(r@) == spec_records(ct, views_of(paths@), views_of(ids@), timestamp as int),
{
    let ghost all_paths = views_of(paths@);
    let ghost all_ids = views_of(ids@);
    let ghost ts = timestamp as int;
    let mut r: Vec<EventRecord> = Vec::new();
    let mut k: usize = 0;
    proof {
        assert(all_paths.skip(0) =~= all_paths);
        assert(all_ids.skip(0) =~= all_ids);
        assert(models_of(r@) + spec_records(ct, all_paths, all_ids, ts) =~= spec_records(
            ct,
            all_paths,
            all_ids,
            ts,
        ));
    }
    while k < paths.len()
        invariant
            k <= paths@.len(),
            ids@.len() == paths@.len(),
            all_paths == views_of(paths@),
            all_ids == views_of(ids@),
            ts == timestamp as int,
            models_of(r@) + spec_records(ct, all_paths.skip(k as int), all_ids.skip(k as int), ts)
                == spec_records(ct, all_paths, all_ids, ts),
        decreases paths@.len() - k,
    {
        let ghost r_before = r@;
        proof {
            assert(all_paths.skip(k as int)[0] == paths@[k as int]@);
            assert(all_ids.skip(k as int)[0] == ids@[k as int]@);
            assert(all_paths.skip(k as int).drop_first() =~= all_paths.skip(k + 1));
            assert(all_ids.skip(k as int).drop_first() =~= all_ids.skip(k + 1));
        }
        match file_name_of(paths[k].as_str()) {
            Some(file_name) => {
                let rec = EventRecord {
                    id: ids[k].clone(),
                    timestamp,
                    change_type: ct,
                    path: paths[k].clone(),
                    file_name,
                };
                r.push(rec);
                proof {
                    assert(models_of(r@) =~= models_of(r_before).push(rec@));
                    assert(models_of(r@) + spec_records(
                        ct,
                        all_paths.skip(k + 1),
                        all_ids.skip(k + 1),
                        ts,
                    ) =~= spec_records(ct, all_paths, all_ids, ts));
                }
            },
            None => {
            },
        }
        k = k + 1;
    }
    proof {
        assert(all_paths.skip(paths@.len() as int) =~= Seq::<Seq<char>>::empty());
        assert(models_of(r@) + Seq::<RecordModel>::empty() =~= models_of(r@));
    }
    r
}

/// Relies on `uuid::Uuid::new_v4` and its `Display` form: a fresh random
/// version-4 UUID, rendered as the 36-character hyphenated string. The value
/// is random; nothing more is assumed of it.
#[verifier::external_body]
fn fresh_id() -> (r: String)
    ensures
        r@.len() == 36,
{
    uuid::Uuid::new_v4().to_string()
}

/// Relies on `std::time::SystemTime::now` and `duration_since(UNIX_EPOCH)`:
/// the clock's whole seconds since the Unix epoch, saturated at the type's
/// bound, or 0 when the clock reads before the epoch. Beyond being
/// non-negative the value depends on the clock; nothing more is assumed.
#[verifier::external_body]
fn now_unix_secs() -> (r: i64)
    ensures
        r >= 0,
{
    match std::time::SystemTime::now().duration_since(std::time::UNIX_EPOCH) {
        Ok(d) => i64::try_from(d.as_secs()).unwrap_or(i64::MAX),
        Err(_) => 0,
    }
}

/// Normalizes one raw notification: classifies its kind, and for each
/// attached path that decomposes into a file name builds one record carrying a
/// fresh id and the detection timestamp. Unclassified and metadata-only
/// notifications yield nothing.
pub fn normalize(kind: RawKind, paths: &Vec<String>) -> (r: Vec<EventRecord>)
    ensures
        (match spec_classify(kind) {
            None => r@.len() == 0,
            Some(ct) => exists|ids: Seq<Seq<char>>, ts: int|
                ids.len() == paths@.len() && 0 <= ts <= i64::MAX && (forall|j: int|
                    0 <= j < ids.len() ==> (#[trigger] ids[j]).len() == 36) && models_of(r@)
                    == spec_records(ct, views_of(paths@), ids, ts),
        }),
{
    match classify(kind) {
        None => Vec::new(),
        Some(ct) => {
            let ts = now_unix_secs();
            let mut ids: Vec<String> = Vec::new();
            let mut k: usize = 0;
            while k < paths.len()
                invariant
                    k <= paths@.len(),
                    ids@.len() == k,
                    forall|j: int| 0 <= j < k ==> (#[trigger] ids@[j])@.len() == 36,
                decreases paths@.len() - k,
            {
                ids.push(fresh_id());
                k = k + 1;
            }
            let r = build_records(ct, paths, &ids, ts);
            proof {
                assert(forall|j: int|
                    0 <= j < views_of(ids@).len() ==> (#[trigger] views_of(ids@)[j]).len()
                        == 36);
            }
            r
        },
    }
}

/// Law: a metadata-only modification is classified as noise, so the
/// normalizer produces the empty sequence for it, whatever paths the
/// notification carries (`normalize` ensures an empty result whenever the
/// classification is `None`). The same holds of unclassified kinds.
pub proof fn lemma_metadata_only_yields_nothing()
    ensures
        spec_classify(RawKind::MetadataModify) is None,
        spec_classify(RawKind::Other) is None,
{
}

/// Law: the two halves of a split rename classify as `rename_from` and
/// `rename_to`, never as `renamed`; an atomic rename classifies as `renamed`.
pub proof fn lemma_rename_classification()
    ensures
        spec_classify(RawKind::RenameFrom) == Some(ChangeType::RenameFrom),
        spec_classify(RawKind::RenameTo) == Some(ChangeType::RenameTo),
        spec_classify(RawKind::RenameAny) == Some(ChangeType::Renamed),
        spec_classify(RawKind::RenameFrom) != Some(ChangeType::Renamed),
        spec_classify(RawKind::RenameTo) != Some(ChangeType::Renamed),
{
}

/// Law: when every attached path decomposes into a file name, a classified
/// notification with N paths yields exactly N records; the k-th record
/// carries the k-th id, the k-th path and its file name, the shared change
/// tag and the shared timestamp. Distinct ids hence give each record a
/// unique id.
pub proof fn lemma_valid_paths_yield_one_record_each(
    ct: ChangeType,
    paths: Seq<Seq<char>>,
    ids: Seq<Seq<char>>,
    ts: int,
)
    requires
        ids.len() == paths.len(),
        forall|k: int| 0 <= k < paths.len() ==> has_valid_segment(#[trigger] paths[k]),
    ensures
        spec_records(ct, paths, ids, ts).len() == paths.len(),
        forall|k: int|
            0 <= k < paths.len() ==> {
                let rec = #[trigger] spec_records(ct, paths, ids, ts)[k];
                rec.change_type == ct && rec.id == ids[k] && rec.path == paths[k]
                    && rec.file_name == path_file_name(paths[k]) && rec.timestamp == ts
            },
        (forall|a: int, b: int| 0 <= a < b < ids.len() ==> ids[a] != ids[b]) ==> (forall|
            a: int,
            b: int,
        |
            0 <= a < b < paths.len() ==> spec_records(ct, paths, ids, ts)[a].id != spec_records(
                ct,
                paths,
                ids,
                ts,
            )[b].id),
    decreases paths.len(),
{
    if paths.len() > 0 {
        lemma_valid_paths_yield_one_record_each(ct, paths.drop_first(), ids.drop_first(), ts);
        assert(forall|k: int|
            1 <= k < paths.len() ==> spec_records(ct, paths, ids, ts)[k] == spec_records(
                ct,
                paths.drop_first(),
                ids.drop_first(),
                ts,
            )[k - 1]);
    }
}

} // verus!
