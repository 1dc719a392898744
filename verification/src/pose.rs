//! The dual pose cache: two independently addressable bone-transform
//! buffers, one per transmission branch, plus the last applied view angle
//! and time.

use vstd::prelude::*;
use crate::angle::Angle;

verus! {

/// Number of bone transforms a pose buffer holds.
pub const POSE_BONES: usize = 128;

/// Bone mask of the first solve pass each tick requests.
pub const PRIMARY_BONE_MASK: u32 = 0x0000_0100;

/// Bone mask of the second solve pass each tick requests.
pub const SECONDARY_BONE_MASK: u32 = 0x000F_FF00;

/// Which of the two pose buffers a tick populates.
#[derive(Clone, Copy, Debug, PartialEq, Eq, Structural)]
pub enum PoseBranch {
    /// The pose matching the packet that went out this tick.
    Transmitted,
    /// The pose matching the true, untransmitted orientation.
    True,
}

/// One world-space bone transform: a three-by-four matrix in row-major
/// order, fixed point.
#[derive(Clone, Copy, Debug, PartialEq, Eq)]
pub struct BoneTransform {
    pub cells: [i64; 12],
}

impl BoneTransform {
    /// The all-zero transform.
    pub fn zeroed() -> (b: BoneTransform)
        ensures
            b.cells@ == Seq::new(12, |i: int| 0i64),
    {
        let cells = [0i64; 12];
        proof {
            assert(cells@ =~= Seq::new(12, |i: int| 0i64));
        }
        BoneTransform { cells }
    }
}

/// A solved pose: the bone transforms, the mask of bones that were
/// solved, and the view angle and time the solve used.
pub struct PoseBuffer {
    pub bones: Vec<BoneTransform>,
    pub mask: u32,
    pub view_angle: Angle,
    pub time: i64,
}

impl PoseBuffer {
    /// A pose buffer always holds exactly `POSE_BONES` transforms.
    pub open spec fn wf(self) -> bool {
        self.bones@.len() == POSE_BONES
    }

    /// An empty buffer: all transforms zero, nothing solved.
    pub fn new() -> (b: PoseBuffer)
        ensures
            b.wf(),
            b.mask == 0u32,
            b.view_angle == (Angle { pitch: 0, yaw: 0, roll: 0 }),
            b.time == 0i64,
    {
        let mut bones: Vec<BoneTransform> = Vec::new();
        let mut i: usize = 0;
        while i < POSE_BONES
            invariant
                i <= POSE_BONES,
                bones@.len() == i,
            decreases POSE_BONES - i,
        {
            bones.push(BoneTransform::zeroed());
            i = i + 1;
        }
        PoseBuffer { bones, mask: 0, view_angle: Angle { pitch: 0, yaw: 0, roll: 0 }, time: 0 }
    }
}

/// The two pose buffers and the last applied view angle and time. The
/// buffer a tick does not select keeps its previous contents; readers must
/// pick the buffer matching the last transmission decision.
pub struct PoseCache {
    pub transmitted: PoseBuffer,
    pub true_pose: PoseBuffer,
    pub last_view_angle: Angle,
    pub last_time: i64,
}

impl PoseCache {
    /// Both buffers full-sized.
    pub open spec fn wf(self) -> bool {
        self.transmitted.wf() && self.true_pose.wf()
    }

    /// Two empty buffers sharing no storage.
    pub fn new() -> (c: PoseCache)
        ensures
            c.wf(),
            c.last_view_angle == (Angle { pitch: 0, yaw: 0, roll: 0 }),
            c.last_time == 0i64,
    {
        PoseCache {
            transmitted: PoseBuffer::new(),
            true_pose: PoseBuffer::new(),
            last_view_angle: Angle { pitch: 0, yaw: 0, roll: 0 },
            last_time: 0,
        }
    }

    /// Overwrite the selected branch's buffer with a freshly solved pose;
    /// the other branch keeps its previous contents untouched. Only a
    /// true-branch store updates the last applied view angle and time.
    pub fn store_pose(
        &mut self,
        branch: PoseBranch,
        bones: Vec<BoneTransform>,
        mask: u32,
        view_angle: Angle,
        time: i64,
    )
        requires
            old(self).wf(),
            bones@.len() == POSE_BONES,
        ensures
            final(self).wf(),
            branch is Transmitted ==> final(self).transmitted == (PoseBuffer {
                bones,
                mask,
                view_angle,
                time,
            }),
            branch is Transmitted ==> final(self).true_pose == old(self).true_pose,
            branch is Transmitted ==> final(self).last_view_angle == old(self).last_view_angle,
            branch is Transmitted ==> final(self).last_time == old(self).last_time,
            branch is True ==> final(self).true_pose == (PoseBuffer {
                bones,
                mask,
                view_angle,
                time,
            }),
            branch is True ==> final(self).transmitted == old(self).transmitted,
            branch is True ==> final(self).last_view_angle == view_angle,
            branch is True ==> final(self).last_time == time,
    {
        match branch {
            PoseBranch::Transmitted => {
                self.transmitted = PoseBuffer { bones, mask, view_angle, time };
            },
            PoseBranch::True => {
                self.true_pose = PoseBuffer { bones, mask, view_angle, time };
                self.last_view_angle = view_angle;
                self.last_time = time;
            },
        }
    }

    /// Read-only view of the buffer for one branch.
    pub fn get_pose_buffer(&self, branch: PoseBranch) -> (b: &PoseBuffer)
        ensures
            branch is Transmitted ==> b == &self.transmitted,
            branch is True ==> b == &self.true_pose,
    {
        match branch {
            PoseBranch::Transmitted => &self.transmitted,
            PoseBranch::True => &self.true_pose,
        }
    }

    /// The view angle last applied on the true branch.
    pub fn current_view_angle(&self) -> (a: Angle)
        ensures
            a == self.last_view_angle,
    {
        self.last_view_angle
    }

    /// The solve time last recorded on the true branch.
    pub fn current_time(&self) -> (t: i64)
        ensures
            t == self.last_time,
    {
        self.last_time
    }
}

} // verus!
