//! The entity model: raw telemetry scalars, partial coordinates and the
//! field-by-field merge rule that turns coordinate deltas into absolute
//! positions.

use vstd::prelude::*;

verus! {

/// A raw telemetry scalar (a position, an angle, an altitude or a feed
/// timestamp), carried as an opaque 64-bit word.
///
/// The engine stores scalars, copies them field by field and tests their
/// presence, but never interprets them numerically. The display boundary,
/// which owns all numeric evaluation (geodesy and kinematics), reads each
/// word as the bit pattern of an IEEE 754 double.
pub type Scalar = u64;

/// A partial position/orientation patch as carried by one telemetry delta.
/// An absent field means "keep the last known value".
#[derive(Clone, Copy, Debug)]
pub struct Coords {
    pub longitude: Option<Scalar>,
    pub latitude: Option<Scalar>,
    pub altitude: Option<Scalar>,
    pub u: Option<Scalar>,
    pub v: Option<Scalar>,
    pub roll: Option<Scalar>,
    pub pitch: Option<Scalar>,
    pub yaw: Option<Scalar>,
    pub heading: Option<Scalar>,
}

impl Coords {
    /// A coordinate value with every field unknown.
    pub open spec fn spec_empty() -> Coords {
        Coords {
            longitude: None,
            latitude: None,
            altitude: None,
            u: None,
            v: None,
            roll: None,
            pitch: None,
            yaw: None,
            heading: None,
        }
    }

    pub fn empty() -> (r: Coords)
        ensures
            r == Coords::spec_empty(),
    {
        Coords {
            longitude: None,
            latitude: None,
            altitude: None,
            u: None,
            v: None,
            roll: None,
            pitch: None,
            yaw: None,
            heading: None,
        }
    }

    /// A coordinate is eligible to produce a track point only once latitude,
    /// longitude and altitude are all populated.
    pub open spec fn spec_track_eligible(self) -> bool {
        self.latitude is Some && self.longitude is Some && self.altitude is Some
    }

    pub fn track_eligible(&self) -> (r: bool)
        ensures
            r == self.spec_track_eligible(),
    {
        self.latitude.is_some() && self.longitude.is_some() && self.altitude.is_some()
    }
}

/// The merge rule for one coordinate delta: every field present in `delta`
/// overwrites the matching field of `base`; every absent field keeps the
/// value it had in `base`.
pub open spec fn spec_merge(base: Coords, delta: Coords) -> Coords {
    Coords {
        longitude: if delta.longitude is Some { delta.longitude } else { base.longitude },
        latitude: if delta.latitude is Some { delta.latitude } else { base.latitude },
        altitude: if delta.altitude is Some { delta.altitude } else { base.altitude },
        u: if delta.u is Some { delta.u } else { base.u },
        v: if delta.v is Some { delta.v } else { base.v },
        roll: if delta.roll is Some { delta.roll } else { base.roll },
        pitch: if delta.pitch is Some { delta.pitch } else { base.pitch },
        yaw: if delta.yaw is Some { delta.yaw } else { base.yaw },
        heading: if delta.heading is Some { delta.heading } else { base.heading },
    }
}

/// Merges one coordinate delta into a base coordinate. Fields present in the
/// delta are overwritten exactly; fields absent from the delta retain their
/// prior value. An empty delta leaves the base unchanged.
pub fn merge_coordinates(base: Coords, delta: Coords) -> (merged: Coords)
    ensures
        merged == spec_merge(base, delta),
{
    Coords {
        longitude: if delta.longitude.is_some() { delta.longitude } else { base.longitude },
        latitude: if delta.latitude.is_some() { delta.latitude } else { base.latitude },
        altitude: if delta.altitude.is_some() { delta.altitude } else { base.altitude },
        u: if delta.u.is_some() { delta.u } else { base.u },
        v: if delta.v.is_some() { delta.v } else { base.v },
        roll: if delta.roll.is_some() { delta.roll } else { base.roll },
        pitch: if delta.pitch.is_some() { delta.pitch } else { base.pitch },
        yaw: if delta.yaw.is_some() { delta.yaw } else { base.yaw },
        heading: if delta.heading.is_some() { delta.heading } else { base.heading },
    }
}

/// Merging an empty delta changes nothing.
pub proof fn lemma_merge_empty_delta(base: Coords)
    ensures
        spec_merge(base, Coords::spec_empty()) == base,
{
}

} // verus!
