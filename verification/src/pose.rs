//! The face data model: keypoints, raw input records, and poses.
//!
//! A pose maps a small fixed alphabet of labels (`a` through `r`) to integer
//! pixel keypoints.  Raw input records carry free-form label strings; a pose
//! stores one optional keypoint slot per label of the alphabet.

use vstd::prelude::*;

verus! {

/// How many labels the pose alphabet has (`a` through `r`).
pub const LABEL_COUNT: usize = 18;

/// An integer (x, y) pixel coordinate.
#[derive(Clone, Copy, Debug, PartialEq, Eq, Structural)]
pub struct PointData {
    pub x: i32,
    pub y: i32,
}

/// One keypoint of a raw input record, under its raw label string.
#[derive(Debug)]
pub struct Message {
    pub emo: String,
    pub points: Vec<(String, PointData)>,
}

/// One raw input record: a severity level and a labelled point set.
#[derive(Debug)]
pub struct LogLine {
    pub level: String,
    pub message: Message,
}

/// A face pose: one optional keypoint per label of the alphabet.
#[derive(Debug)]
pub struct Pose {
    pts: Vec<Option<PointData>>,
}

/// Two poses agree slot for slot.
pub open spec fn pose_eq(a: Pose, b: Pose) -> bool {
    &&& a.wf()
    &&& b.wf()
    &&& forall|k: int| 0 <= k < LABEL_COUNT ==> a.spec_get(k) == b.spec_get(k)
}

/// The slot index a raw label string names, if it is a single letter of the
/// alphabet `a` through `r`.
pub open spec fn label_index_spec(s: Seq<char>) -> Option<int> {
    if s.len() == 1 && 'a' as int <= s[0] as int <= 'r' as int {
        Some(s[0] as int - 'a' as int)
    } else {
        None
    }
}

/// Map a raw label string to its slot index, or `None` for a label outside
/// the alphabet.
pub fn label_index(s: &str) -> (r: Option<usize>)
    ensures
        r is Some <==> label_index_spec(s@) is Some,
        r is Some ==> r->0 as int == label_index_spec(s@)->0 && r->0 < LABEL_COUNT,
{
    if s.unicode_len() == 1 {
        let c = s.get_char(0);
        let u = c as u32;
        if 97 <= u && u <= 114 {
            Some((u - 97) as usize)
        } else {
            None
        }
    } else {
        None
    }
}

impl Pose {
    /// A pose always holds exactly one slot per label of the alphabet.
    pub closed spec fn wf(self) -> bool {
        self.pts@.len() == LABEL_COUNT
    }

    /// The keypoint stored for slot `k`, if any.
    pub closed spec fn spec_get(self, k: int) -> Option<PointData> {
        self.pts@[k]
    }

    /// A pose with every slot empty.
    pub fn empty() -> (r: Pose)
        ensures
            r.wf(),
            forall|k: int| 0 <= k < LABEL_COUNT ==> r.spec_get(k) is None,
    {
        let mut pts: Vec<Option<PointData>> = Vec::new();
        let mut i: usize = 0;
        while i < LABEL_COUNT
            invariant
                i <= LABEL_COUNT,
                pts@.len() == i,
                forall|k: int| 0 <= k < i ==> pts@[k] is None,
            decreases LABEL_COUNT - i,
        {
            pts.push(None);
            i = i + 1;
        }
        Pose { pts }
    }

    /// Store a keypoint in slot `k`, replacing what the slot held.
    pub fn set(&mut self, k: usize, p: PointData)
        requires
            old(self).wf(),
            k < LABEL_COUNT,
        ensures
            final(self).wf(),
            final(self).spec_get(k as int) == Some(p),
            forall|j: int|
                0 <= j < LABEL_COUNT && j != k ==> final(self).spec_get(j) == old(
                    self,
                ).spec_get(j),
    {
        self.pts.set(k, Some(p));
    }

    /// An independent copy of the pose, slot for slot.
    pub fn duplicate(&self) -> (r: Pose)
        requires
            self.wf(),
        ensures
            pose_eq(r, *self),
    {
        let mut r = Pose::empty();
        let mut k: usize = 0;
        while k < LABEL_COUNT
            invariant
                self.wf(),
                r.wf(),
                k <= LABEL_COUNT,
                forall|j: int| 0 <= j < k ==> r.spec_get(j) == self.spec_get(j),
                forall|j: int| k <= j < LABEL_COUNT ==> r.spec_get(j) is None,
            decreases LABEL_COUNT - k,
        {
            match self.get(k) {
                Some(p) => {
                    r.set(k, p);
                },
                None => {},
            }
            k = k + 1;
        }
        r
    }

    /// Read the keypoint in slot `k`, if any.
    pub fn get(&self, k: usize) -> (r: Option<PointData>)
        requires
            self.wf(),
            k < LABEL_COUNT,
        ensures
            r == self.spec_get(k as int),
    {
        self.pts[k]
    }
}

} // verus!
