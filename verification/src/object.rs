//! Per-object state: category tags, the bounded track window and the two
//! derived kinematic estimates.

use vstd::prelude::*;

use crate::model::{Coords, Scalar};

verus! {

/// Upper bound on the track window: the window is a fixed-size sliding
/// window of the most recent eligible positions, newest first.
pub const MAX_TRACK_LENGTH: usize = 30;

/// A category tag attached to a tracked object by the feed.
#[derive(Clone, Copy, Debug, PartialEq, Eq, Hash, Structural)]
pub enum Tag {
    Air,
    Ground,
    Sea,
    Weapon,
    Sensor,
    Navaid,
    Misc,
    Static,
    Heavy,
    Medium,
    Light,
    Minor,
    Slow,
    Fast,
    FixedWing,
    Rotorcraft,
    Armor,
    AntiAircraft,
    Vehicle,
    Watercraft,
    Human,
    Biologic,
    Missile,
    Rocket,
    Bomb,
    Torpedo,
    Projectile,
    Beam,
    Decoy,
    Building,
    Bullseye,
    Waypoint,
}

/// One retained position: the frame timestamp current when the position
/// became known, and the merged coordinates at that moment.
#[derive(Clone, Copy, Debug)]
pub struct TrackPoint {
    pub timestamp: Scalar,
    pub coords: Coords,
}

/// The speed estimate of an object, kept as the exact inputs the estimate is
/// derived from. The display boundary evaluates it numerically: `Unknown`
/// renders as 0, `InsufficientData` as the -1 sentinel, and `Basis` as
/// great-circle distance (each endpoint offset by the session reference
/// point) over elapsed time, in knots.
#[derive(Clone, Copy, Debug)]
pub enum SpeedEstimate {
    /// No estimate was ever attempted for this object.
    Unknown,
    /// An estimate was attempted with fewer than two track points.
    InsufficientData,
    /// Derived from the newest and the oldest retained track point.
    Basis {
        front: TrackPoint,
        back: TrackPoint,
        reference_latitude: Scalar,
        reference_longitude: Scalar,
    },
}

/// The altitude-rate estimate of an object. The display boundary renders
/// `Insufficient` as 0 (indistinguishable from level flight) and `Basis` as
/// the altitude delta over elapsed time, in thousands of feet per minute.
#[derive(Clone, Copy, Debug)]
pub enum AltitudeRateEstimate {
    /// No estimate, or an estimate attempted with fewer than two track points.
    Insufficient,
    /// Derived from the newest and the oldest retained track point.
    Basis { front: TrackPoint, back: TrackPoint },
}

/// One tracked object, reconstructed from the deltas that referenced its id.
#[derive(Debug)]
pub struct TacviewObject {
    /// Most-recent-first sliding window of eligible positions.
    pub tracks: Vec<TrackPoint>,
    pub estimated_speed: SpeedEstimate,
    pub estimated_altitude_rate: AltitudeRateEstimate,
    pub coords: Option<Coords>,
    pub name: Option<String>,
    pub ty: Option<Vec<Tag>>,
    pub callsign: Option<String>,
    pub pilot: Option<String>,
    pub squawk: Option<String>,
    pub group: Option<String>,
    pub coalition: Option<String>,
}

/// The mathematical value of a tracked object.
pub struct ObjectView {
    pub tracks: Seq<TrackPoint>,
    pub estimated_speed: SpeedEstimate,
    pub estimated_altitude_rate: AltitudeRateEstimate,
    pub coords: Option<Coords>,
    pub name: Option<Seq<char>>,
    pub ty: Option<Seq<Tag>>,
    pub callsign: Option<Seq<char>>,
    pub pilot: Option<Seq<char>>,
    pub squawk: Option<Seq<char>>,
    pub group: Option<Seq<char>>,
    pub coalition: Option<Seq<char>>,
}

pub open spec fn view_opt_string(s: Option<String>) -> Option<Seq<char>> {
    match s {
        Some(x) => Some(x@),
        None => None,
    }
}

pub open spec fn view_opt_tags(s: Option<Vec<Tag>>) -> Option<Seq<Tag>> {
    match s {
        Some(x) => Some(x@),
        None => None,
    }
}

impl View for TacviewObject {
    type V = ObjectView;

    open spec fn view(&self) -> ObjectView {
        ObjectView {
            tracks: self.tracks@,
            estimated_speed: self.estimated_speed,
            estimated_altitude_rate: self.estimated_altitude_rate,
            coords: self.coords,
            name: view_opt_string(self.name),
            ty: view_opt_tags(self.ty),
            callsign: view_opt_string(self.callsign),
            pilot: view_opt_string(self.pilot),
            squawk: view_opt_string(self.squawk),
            group: view_opt_string(self.group),
            coalition: view_opt_string(self.coalition),
        }
    }
}

/// A freshly created object: no position, no metadata, no track history.
pub open spec fn spec_default_object() -> ObjectView {
    ObjectView {
        tracks: Seq::empty(),
        estimated_speed: SpeedEstimate::Unknown,
        estimated_altitude_rate: AltitudeRateEstimate::Insufficient,
        coords: None,
        name: None,
        ty: None,
        callsign: None,
        pilot: None,
        squawk: None,
        group: None,
        coalition: None,
    }
}

/// An object is well formed when its track window respects the cap.
pub open spec fn object_wf(o: ObjectView) -> bool {
    o.tracks.len() <= MAX_TRACK_LENGTH
}

/// Membership of a tag in an optional tag set; an absent set contains nothing.
pub open spec fn spec_has_tag(ty: Option<Seq<Tag>>, tag: Tag) -> bool {
    match ty {
        Some(tags) => tags.contains(tag),
        None => false,
    }
}

/// The track window after recording one point: the new point in front,
/// then the previous window, truncated to the cap.
pub open spec fn spec_push_track(tracks: Seq<TrackPoint>, p: TrackPoint) -> Seq<TrackPoint> {
    let grown = seq![p] + tracks;
    if grown.len() <= MAX_TRACK_LENGTH {
        grown
    } else {
        grown.take(MAX_TRACK_LENGTH as int)
    }
}

/// The speed estimate derived from a track window and the session reference
/// point: the sentinel when fewer than two points exist, otherwise the
/// newest and oldest retained points.
pub open spec fn spec_speed_estimate(
    tracks: Seq<TrackPoint>,
    reference_latitude: Scalar,
    reference_longitude: Scalar,
) -> SpeedEstimate {
    if tracks.len() < 2 {
        SpeedEstimate::InsufficientData
    } else {
        SpeedEstimate::Basis {
            front: tracks[0],
            back: tracks[tracks.len() - 1],
            reference_latitude,
            reference_longitude,
        }
    }
}

/// The altitude-rate estimate derived from a track window: zero-rendered
/// when fewer than two points exist, otherwise the newest and oldest
/// retained points.
pub open spec fn spec_altitude_rate_estimate(tracks: Seq<TrackPoint>) -> AltitudeRateEstimate {
    if tracks.len() < 2 {
        AltitudeRateEstimate::Insufficient
    } else {
        AltitudeRateEstimate::Basis { front: tracks[0], back: tracks[tracks.len() - 1] }
    }
}

fn contains_tag(tags: &Vec<Tag>, tag: Tag) -> (r: bool)
    ensures
        r == tags@.contains(tag),
{
    let mut i: usize = 0;
    while i < tags.len()
        invariant
            i <= tags.len(),
            forall|j: int| 0 <= j < i ==> tags@[j] != tag,
        decreases tags.len() - i,
    {
        if tags[i] == tag {
            assert(tags@[i as int] == tag);
            return true;
        }
        i += 1;
    }
    false
}

impl TacviewObject {
    /// Creates the default-initialized object a first delta gives rise to.
    pub fn new() -> (r: TacviewObject)
        ensures
            r@ == spec_default_object(),
            object_wf(r@),
    {
        TacviewObject {
            tracks: Vec::new(),
            estimated_speed: SpeedEstimate::Unknown,
            estimated_altitude_rate: AltitudeRateEstimate::Insufficient,
            coords: None,
            name: None,
            ty: None,
            callsign: None,
            pilot: None,
            squawk: None,
            group: None,
            coalition: None,
        }
    }

    /// Whether the object currently carries `tag`.
    pub fn has_tag(&self, tag: Tag) -> (r: bool)
        ensures
            r == spec_has_tag(self@.ty, tag),
    {
        match &self.ty {
            Some(tags) => contains_tag(tags, tag),
            None => false,
        }
    }

    /// Pushes a new point to the front of the track window, then truncates
    /// the window to the most recent `MAX_TRACK_LENGTH` points.
    pub fn record_track_point(&mut self, timestamp: Scalar, coords: Coords)
        ensures
            final(self)@ == (ObjectView {
                tracks: spec_push_track(old(self)@.tracks, TrackPoint { timestamp, coords }),
                ..old(self)@
            }),
            final(self)@.tracks.len() <= MAX_TRACK_LENGTH,
    {
        let p = TrackPoint { timestamp, coords };
        self.tracks.insert(0, p);
        proof {
            assert(self.tracks@ =~= seq![p] + old(self).tracks@);
        }
        self.tracks.truncate(MAX_TRACK_LENGTH);
        proof {
            assert(self@.tracks =~= spec_push_track(old(self)@.tracks, p));
        }
    }

    /// Re-derives the speed estimate from the current track window and the
    /// session reference point: the sentinel when fewer than two points
    /// exist, otherwise the newest (front) and oldest retained (back) points.
    pub fn update_estimated_speed(&mut self, reference_latitude: Scalar, reference_longitude: Scalar)
        ensures
            final(self)@ == (ObjectView {
                estimated_speed: spec_speed_estimate(
                    old(self)@.tracks,
                    reference_latitude,
                    reference_longitude,
                ),
                ..old(self)@
            }),
    {
        if self.tracks.len() < 2 {
            self.estimated_speed = SpeedEstimate::InsufficientData;
        } else {
            let front = self.tracks[0];
            let back = self.tracks[self.tracks.len() - 1];
            self.estimated_speed = SpeedEstimate::Basis {
                front,
                back,
                reference_latitude,
                reference_longitude,
            };
        }
    }

    /// Re-derives the altitude-rate estimate from the current track window:
    /// zero-rendered when fewer than two points exist, otherwise the newest
    /// and oldest retained points.
    pub fn update_estimated_altitude_rate(&mut self)
        ensures
            final(self)@ == (ObjectView {
                estimated_altitude_rate: spec_altitude_rate_estimate(old(self)@.tracks),
                ..old(self)@
            }),
    {
        if self.tracks.len() < 2 {
            self.estimated_altitude_rate = AltitudeRateEstimate::Insufficient;
        } else {
            let front = self.tracks[0];
            let back = self.tracks[self.tracks.len() - 1];
            self.estimated_altitude_rate = AltitudeRateEstimate::Basis { front, back };
        }
    }
}

fn clone_tracks(v: &Vec<TrackPoint>) -> (r: Vec<TrackPoint>)
    ensures
        r@ == v@,
{
    let mut r: Vec<TrackPoint> = Vec::new();
    let mut i: usize = 0;
    while i < v.len()
        invariant
            i <= v.len(),
            r@ == v@.take(i as int),
        decreases v.len() - i,
    {
        r.push(v[i]);
        proof {
            assert(r@ =~= v@.take(i + 1 as int));
        }
        i += 1;
    }
    proof {
        assert(v@.take(v@.len() as int) =~= v@);
    }
    r
}

pub fn clone_tag_list(v: &Vec<Tag>) -> (r: Vec<Tag>)
    ensures
        r@ == v@,
{
    let mut r: Vec<Tag> = Vec::new();
    let mut i: usize = 0;
    while i < v.len()
        invariant
            i <= v.len(),
            r@ == v@.take(i as int),
        decreases v.len() - i,
    {
        r.push(v[i]);
        proof {
            assert(r@ =~= v@.take(i + 1 as int));
        }
        i += 1;
    }
    proof {
        assert(v@.take(v@.len() as int) =~= v@);
    }
    r
}

pub fn clone_opt_string(s: &Option<String>) -> (r: Option<String>)
    ensures
        view_opt_string(r) == view_opt_string(*s),
{
    match s {
        Some(x) => Some(x.clone()),
        None => None,
    }
}

impl Clone for TacviewObject {
    /// A value copy with the same mathematical value; used to freeze
    /// bullseye reference objects and to snapshot state.
    fn clone(&self) -> (r: Self)
        ensures
            r@ == self@,
    {
        TacviewObject {
            tracks: clone_tracks(&self.tracks),
            estimated_speed: self.estimated_speed,
            estimated_altitude_rate: self.estimated_altitude_rate,
            coords: self.coords,
            name: clone_opt_string(&self.name),
            ty: match &self.ty {
                Some(tags) => Some(clone_tag_list(tags)),
                None => None,
            },
            callsign: clone_opt_string(&self.callsign),
            pilot: clone_opt_string(&self.pilot),
            squawk: clone_opt_string(&self.squawk),
            group: clone_opt_string(&self.group),
            coalition: clone_opt_string(&self.coalition),
        }
    }
}

} // verus!
