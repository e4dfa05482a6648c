//! The face repository: build poses from parsed input records and hand one
//! out at random.
//!
//! A record-per-line input source is parsed outside the library; the
//! repository receives one optional record per line, keeps the parseable
//! ones in order, and silently discards the rest, so a partially corrupt
//! source never prevents startup.  Raw coordinates are normalized once at
//! load time: halved and offset by a fixed margin, keeping animated jitter
//! inside the visible surface.

use vstd::prelude::*;

use crate::pose::label_index;
use crate::pose::label_index_spec;
use crate::pose::LogLine;
use crate::pose::PointData;
use crate::pose::Pose;
use crate::pose::LABEL_COUNT;
use crate::rng::random_index;

verus! {

/// The fixed margin added to every halved raw coordinate at load time.
pub const COORD_MARGIN: i32 = 50;

/// Truncating halving, exactly as the executable `/ 2` computes it on a
/// possibly negative coordinate.
pub open spec fn halve_spec(x: int) -> int {
    if x >= 0 {
        x / 2
    } else {
        -((-x) / 2)
    }
}

/// Load-time normalization of one raw coordinate.
pub open spec fn normalize_spec(x: int) -> int {
    halve_spec(x) + COORD_MARGIN
}

/// Normalize one raw coordinate: halve it and add the fixed margin.
pub fn normalize_coord(x: i32) -> (r: i32)
    ensures
        r == normalize_spec(x as int),
{
    x / 2 + COORD_MARGIN
}

/// Load-time normalization of a whole raw keypoint.
pub open spec fn normalize_point_spec(p: PointData) -> PointData {
    PointData { x: normalize_spec(p.x as int) as i32, y: normalize_spec(p.y as int) as i32 }
}

/// What a pose slot holds after walking a record's raw entries in order:
/// the last entry whose label names the slot wins, normalized; no such
/// entry leaves the slot empty.
pub open spec fn slot_of_entries(entries: Seq<(String, PointData)>, k: int) -> Option<PointData>
    decreases entries.len(),
{
    if entries.len() == 0 {
        None
    } else {
        let last = entries[entries.len() - 1];
        if label_index_spec(last.0@) == Some(k) {
            Some(normalize_point_spec(last.1))
        } else {
            slot_of_entries(entries.drop_last(), k)
        }
    }
}

/// Build the pose a raw record describes: entries with a label outside the
/// alphabet are ignored, the rest land in their slot, normalized.
pub fn pose_from_record(rec: &LogLine) -> (r: Pose)
    ensures
        r.wf(),
        forall|k: int|
            0 <= k < LABEL_COUNT ==> r.spec_get(k) == slot_of_entries(rec.message.points@, k),
{
    let mut p = Pose::empty();
    let mut i: usize = 0;
    while i < rec.message.points.len()
        invariant
            p.wf(),
            i <= rec.message.points@.len(),
            forall|k: int|
                0 <= k < LABEL_COUNT ==> p.spec_get(k) == slot_of_entries(
                    rec.message.points@.take(i as int),
                    k,
                ),
        decreases rec.message.points@.len() - i,
    {
        let entry = &rec.message.points[i];
        let ghost prefix = rec.message.points@.take(i as int);
        let ghost next_prefix = rec.message.points@.take(i as int + 1);
        proof {
            assert(next_prefix.drop_last() =~= prefix);
            assert(next_prefix[next_prefix.len() - 1] == rec.message.points@[i as int]);
        }
        match label_index(entry.0.as_str()) {
            Some(k) => {
                let q = PointData { x: normalize_coord(entry.1.x), y: normalize_coord(entry.1.y) };
                p.set(k, q);
            },
            None => {},
        }
        i = i + 1;
    }
    proof {
        assert(rec.message.points@.take(rec.message.points@.len() as int) =~= rec.message.points@);
    }
    p
}

/// The records kept from a parsed input source: the parseable lines, in
/// order, each standing for one pose.
pub open spec fn kept_records(records: Seq<Option<LogLine>>) -> Seq<LogLine>
    decreases records.len(),
{
    if records.len() == 0 {
        Seq::empty()
    } else {
        match records.last() {
            Some(rec) => kept_records(records.drop_last()).push(rec),
            None => kept_records(records.drop_last()),
        }
    }
}

/// The repository's loaded pose collection: immutable once built.
pub struct FaceRepo {
    poses: Vec<Pose>,
}

impl FaceRepo {
    /// Every loaded pose holds one slot per label.
    pub closed spec fn wf(self) -> bool {
        forall|i: int| 0 <= i < self.poses@.len() ==> (#[trigger] self.poses@[i]).wf()
    }

    /// How many poses the repository loaded.
    pub closed spec fn len(self) -> nat {
        self.poses@.len()
    }

    /// The pose loaded from the `i`-th parseable record.
    pub closed spec fn spec_pose(self, i: int) -> Pose {
        self.poses@[i]
    }

    /// How many poses the repository loaded.
    pub fn face_count(&self) -> (r: usize)
        ensures
            r == self.len(),
    {
        self.poses.len()
    }

    /// Build the repository from one optional record per input line:
    /// exactly the parseable lines yield a pose each, in input order, and
    /// the malformed ones are discarded silently.
    pub fn from_records(records: &Vec<Option<LogLine>>) -> (r: FaceRepo)
        ensures
            r.wf(),
            r.len() == kept_records(records@).len(),
            forall|j: int, k: int|
                0 <= j < r.len() && 0 <= k < LABEL_COUNT ==> r.spec_pose(j).spec_get(k)
                    == slot_of_entries(kept_records(records@)[j].message.points@, k),
    {
        let mut poses: Vec<Pose> = Vec::new();
        let mut i: usize = 0;
        while i < records.len()
            invariant
                i <= records@.len(),
                poses@.len() == kept_records(records@.take(i as int)).len(),
                forall|j: int| 0 <= j < poses@.len() ==> (#[trigger] poses@[j]).wf(),
                forall|j: int, k: int|
                    0 <= j < poses@.len() && 0 <= k < LABEL_COUNT ==> poses@[j].spec_get(k)
                        == slot_of_entries(
                        kept_records(records@.take(i as int))[j].message.points@,
                        k,
                    ),
            decreases records@.len() - i,
        {
            let ghost prefix = records@.take(i as int);
            let ghost next_prefix = records@.take(i as int + 1);
            proof {
                assert(next_prefix.drop_last() =~= prefix);
                assert(next_prefix.last() == records@[i as int]);
            }
            match &records[i] {
                Some(rec) => {
                    let p = pose_from_record(rec);
                    poses.push(p);
                },
                None => {},
            }
            i = i + 1;
        }
        proof {
            assert(records@.take(records@.len() as int) =~= records@);
        }
        FaceRepo { poses }
    }

    /// Select one loaded pose uniformly at random.  Calling this on an
    /// empty repository is a precondition violation: no valid fallback
    /// exists.
    pub fn get_random_face(&self) -> (r: Pose)
        requires
            self.wf(),
            self.len() > 0,
        ensures
            r.wf(),
            exists|i: int| 0 <= i < self.len() && crate::pose::pose_eq(r, self.spec_pose(i)),
    {
        let i = random_index(self.poses.len());
        let r = self.poses[i].duplicate();
        proof {
            assert(crate::pose::pose_eq(r, self.spec_pose(i as int)));
        }
        r
    }
}

} // verus!
