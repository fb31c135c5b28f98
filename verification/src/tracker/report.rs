//! Face-tracking reports and the sources that rules read from them.
use vstd::prelude::*;

verus! {

/// One frame of tracking data. The scalar type `T` is the tracker's number type.
pub struct TrackingReport<T> {
    pub blink: T,
    pub blink_left: T,
    pub blink_right: T,
    pub eyebrow_quirk: T,
    pub eyebrow_quirk_left: T,
    pub eyebrow_quirk_right: T,
    pub eyebrow_steepness: T,
    pub eyebrow_steepness_left: T,
    pub eyebrow_steepness_right: T,
    pub eyebrow_updown: T,
    pub eyebrow_updown_left: T,
    pub eyebrow_updown_right: T,
    pub mouth_open: T,
    pub mouth_wide: T,
    pub head_rotation: [T; 4],
    pub face_position: [T; 2],
    pub left_gaze: [T; 2],
    pub right_gaze: [T; 2],
    pub gaze: [T; 2],
}

/// A scalar measurement of a tracking report.
#[derive(Debug, Clone, Copy, PartialEq, Eq, Structural)]
pub enum FloatSource {
    Blink,
    BlinkLeft,
    BlinkRight,
    EyebrowQuirk,
    EyebrowQuirkLeft,
    EyebrowQuirkRight,
    EyebrowSteepness,
    EyebrowSteepnessLeft,
    EyebrowSteepnessRight,
    EyebrowUpdown,
    EyebrowUpdownLeft,
    EyebrowUpdownRight,
    MouthOpen,
    MouthWide,
}

/// A rotation measurement of a tracking report (a quaternion `[x, y, z, w]`).
#[derive(Debug, Clone, Copy, PartialEq, Eq, Structural)]
pub enum QuatSource {
    HeadRotation,
}

/// A two-dimensional measurement of a tracking report.
#[derive(Debug, Clone, Copy, PartialEq, Eq, Structural)]
pub enum Vec2Source {
    FacePosition,
    LeftGaze,
    RightGaze,
    Gaze,
}

impl FloatSource {
    /// The field of `report` that this source names.
    pub open spec fn field<T>(self, report: TrackingReport<T>) -> T {
        match self {
            FloatSource::Blink => report.blink,
            FloatSource::BlinkLeft => report.blink_left,
            FloatSource::BlinkRight => report.blink_right,
            FloatSource::EyebrowQuirk => report.eyebrow_quirk,
            FloatSource::EyebrowQuirkLeft => report.eyebrow_quirk_left,
            FloatSource::EyebrowQuirkRight => report.eyebrow_quirk_right,
            FloatSource::EyebrowSteepness => report.eyebrow_steepness,
            FloatSource::EyebrowSteepnessLeft => report.eyebrow_steepness_left,
            FloatSource::EyebrowSteepnessRight => report.eyebrow_steepness_right,
            FloatSource::EyebrowUpdown => report.eyebrow_updown,
            FloatSource::EyebrowUpdownLeft => report.eyebrow_updown_left,
            FloatSource::EyebrowUpdownRight => report.eyebrow_updown_right,
            FloatSource::MouthOpen => report.mouth_open,
            FloatSource::MouthWide => report.mouth_wide,
        }
    }

    /// Reads the measurement that this source names from `report`.
    pub fn select<T: Copy>(&self, report: &TrackingReport<T>) -> (value: T)
        ensures
            value == self.field(*report),
    {
        match self {
            FloatSource::Blink => report.blink,
            FloatSource::BlinkLeft => report.blink_left,
            FloatSource::BlinkRight => report.blink_right,
            FloatSource::EyebrowQuirk => report.eyebrow_quirk,
            FloatSource::EyebrowQuirkLeft => report.eyebrow_quirk_left,
            FloatSource::EyebrowQuirkRight => report.eyebrow_quirk_right,
            FloatSource::EyebrowSteepness => report.eyebrow_steepness,
            FloatSource::EyebrowSteepnessLeft => report.eyebrow_steepness_left,
            FloatSource::EyebrowSteepnessRight => report.eyebrow_steepness_right,
            FloatSource::EyebrowUpdown => report.eyebrow_updown,
            FloatSource::EyebrowUpdownLeft => report.eyebrow_updown_left,
            FloatSource::EyebrowUpdownRight => report.eyebrow_updown_right,
            FloatSource::MouthOpen => report.mouth_open,
            FloatSource::MouthWide => report.mouth_wide,
        }
    }
}

impl QuatSource {
    /// Reads the rotation that this source names from `report`, as reported by the
    /// tracker (before mirroring).
    pub fn select<T: Copy>(&self, report: &TrackingReport<T>) -> (value: [T; 4])
        ensures
            value@ == report.head_rotation@,
    {
        match self {
            QuatSource::HeadRotation => report.head_rotation,
        }
    }
}

impl Vec2Source {
    /// The field of `report` that this source names.
    pub open spec fn field<T>(self, report: TrackingReport<T>) -> [T; 2] {
        match self {
            Vec2Source::FacePosition => report.face_position,
            Vec2Source::LeftGaze => report.left_gaze,
            Vec2Source::RightGaze => report.right_gaze,
            Vec2Source::Gaze => report.gaze,
        }
    }

    /// Reads the vector that this source names from `report`, as reported by the
    /// tracker (before mirroring).
    pub fn select<T: Copy>(&self, report: &TrackingReport<T>) -> (value: [T; 2])
        ensures
            value == self.field(*report),
    {
        match self {
            Vec2Source::FacePosition => report.face_position,
            Vec2Source::LeftGaze => report.left_gaze,
            Vec2Source::RightGaze => report.right_gaze,
            Vec2Source::Gaze => report.gaze,
        }
    }
}

} // verus!
