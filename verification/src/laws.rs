//! Session-wide laws of the transition rule, stated and proved once so a
//! reader need not derive them from the individual contracts.

use vstd::prelude::*;

use crate::engine::{
    apply_global_properties, apply_object_properties, blue_bullseye_coalition,
    red_bullseye_coalition, spec_update, update_context, StateView, UpdateContext,
};
use crate::object::{
    object_wf, spec_altitude_rate_estimate, spec_default_object, spec_has_tag, spec_push_track,
    spec_speed_estimate, AltitudeRateEstimate, ObjectView, SpeedEstimate, Tag, TrackPoint,
    MAX_TRACK_LENGTH,
};
use crate::records::{GlobalProperty, GlobalPropertiesView, ObjectProperty, Record};
use crate::model::Scalar;

verus! {

/// Every track window in the session respects the cap.
pub open spec fn session_tracks_bounded(s: StateView) -> bool {
    &&& forall|id: u64|
        #[trigger] s.objects.dom().contains(id) ==> object_wf(s.objects[id])
    &&& match s.blue_bullseye {
        Some(o) => object_wf(o),
        None => true,
    }
    &&& match s.red_bullseye {
        Some(o) => object_wf(o),
        None => true,
    }
}

proof fn lemma_apply_properties_preserve_cap(
    ctx: UpdateContext,
    obj: ObjectView,
    props: Seq<ObjectProperty>,
)
    requires
        object_wf(obj),
    ensures
        object_wf(apply_object_properties(ctx, obj, props)),
    decreases props.len(),
{
    if props.len() == 0 {
    } else {
        lemma_apply_properties_preserve_cap(ctx, obj, props.drop_last());
    }
}

/// The track window law: applying any record to a session whose windows all
/// hold at most the cap leaves every window — of mapped objects and of the
/// two bullseye slots alike — at most the cap.
pub proof fn lemma_update_preserves_track_cap(s: StateView, record: Record)
    requires
        session_tracks_bounded(s),
    ensures
        session_tracks_bounded(spec_update(s, record)),
{
    match record {
        Record::Update(id, props) => {
            let base = if s.objects.dom().contains(id) {
                s.objects[id]
            } else {
                spec_default_object()
            };
            lemma_apply_properties_preserve_cap(update_context(s), base, props@);
        },
        _ => {},
    }
}

/// The window after recording a point is the new point followed by the
/// previous window, truncated to the cap: the most recent points, newest
/// first.
pub proof fn lemma_push_track_window_shape(tracks: Seq<TrackPoint>, p: TrackPoint)
    ensures
        spec_push_track(tracks, p).len() == if tracks.len() + 1 <= MAX_TRACK_LENGTH {
            (tracks.len() + 1) as int
        } else {
            MAX_TRACK_LENGTH as int
        },
        spec_push_track(tracks, p)[0] == p,
        forall|i: int|
            1 <= i < spec_push_track(tracks, p).len() ==> spec_push_track(tracks, p)[i] == tracks[i
                - 1],
{
}

/// The window an object would hold after any history of recorded points: the
/// most recent ones, newest first, capped.
pub open spec fn recent_window(history: Seq<TrackPoint>) -> Seq<TrackPoint> {
    let newest_first = history.reverse();
    if newest_first.len() <= MAX_TRACK_LENGTH {
        newest_first
    } else {
        newest_first.take(MAX_TRACK_LENGTH as int)
    }
}

/// The track window law, over whole histories: if a window holds the most
/// recent points of some history, newest first, then after recording one
/// more point it holds the most recent points of the extended history. So by
/// induction from the empty window, a window always holds the (at most) 30
/// most recent eligible points in newest-first order.
pub proof fn lemma_window_holds_most_recent(history: Seq<TrackPoint>, p: TrackPoint)
    ensures
        spec_push_track(recent_window(history), p) == recent_window(history.push(p)),
{
    assert(history.push(p).reverse() =~= seq![p] + history.reverse());
    assert(spec_push_track(recent_window(history), p) =~= recent_window(history.push(p)));
}

/// The speed estimate is the insufficient-data sentinel exactly when fewer
/// than two track points exist.
pub proof fn lemma_speed_sentinel(tracks: Seq<TrackPoint>, rlat: Scalar, rlon: Scalar)
    ensures
        (tracks.len() < 2) <==> (spec_speed_estimate(tracks, rlat, rlon)
            is InsufficientData),
{
}

/// The altitude-rate estimate is the zero-rendered sentinel exactly when
/// fewer than two track points exist.
pub proof fn lemma_altitude_rate_sentinel(tracks: Seq<TrackPoint>)
    ensures
        (tracks.len() < 2) <==> (spec_altitude_rate_estimate(tracks) is Insufficient),
{
}

/// A Remove record always leaves its id absent from the object mapping,
/// whatever the prior state held.
pub proof fn lemma_remove_leaves_id_absent(s: StateView, id: u64)
    ensures
        !spec_update(s, Record::Remove(id)).objects.dom().contains(id),
{
}

/// A GlobalProperties record only changes the fields its deltas name; every
/// field no delta names keeps its prior value.
pub proof fn lemma_globals_change_only_named_fields(
    g: GlobalPropertiesView,
    props: Seq<GlobalProperty>,
)
    ensures
        (forall|i: int| 0 <= i < props.len() ==> !(#[trigger] props[i] is ReferenceTime))
            ==> apply_global_properties(g, props).reference_time == g.reference_time,
        (forall|i: int| 0 <= i < props.len() ==> !(#[trigger] props[i] is Author))
            ==> apply_global_properties(g, props).author == g.author,
        (forall|i: int| 0 <= i < props.len() ==> !(#[trigger] props[i] is Title))
            ==> apply_global_properties(g, props).title == g.title,
        (forall|i: int| 0 <= i < props.len() ==> !(#[trigger] props[i] is Comments))
            ==> apply_global_properties(g, props).comments == g.comments,
        (forall|i: int| 0 <= i < props.len() ==> !(#[trigger] props[i] is ReferenceLongitude))
            ==> apply_global_properties(g, props).reference_longitude == g.reference_longitude,
        (forall|i: int| 0 <= i < props.len() ==> !(#[trigger] props[i] is ReferenceLatitude))
            ==> apply_global_properties(g, props).reference_latitude == g.reference_latitude,
    decreases props.len(),
{
    if props.len() == 0 {
    } else {
        lemma_globals_change_only_named_fields(g, props.drop_last());
        assert(forall|i: int|
            0 <= i < props.drop_last().len() ==> #[trigger] props.drop_last()[i] == props[i]);
        assert(props.last() == props[props.len() - 1]);
    }
}

/// Two Update records for the same never-seen id accumulate: after both, the
/// object is the second record's deltas applied to the first record's result,
/// which itself started from the default object.
pub proof fn lemma_second_update_extends_first(
    s: StateView,
    id: u64,
    props1: Vec<ObjectProperty>,
    props2: Vec<ObjectProperty>,
)
    requires
        !s.objects.dom().contains(id),
    ensures
        ({
            let s1 = spec_update(s, Record::Update(id, props1));
            let s2 = spec_update(s1, Record::Update(id, props2));
            &&& s2.objects.dom().contains(id)
            &&& s2.objects[id] == apply_object_properties(
                update_context(s1),
                apply_object_properties(update_context(s), spec_default_object(), props1@),
                props2@,
            )
        }),
{
}

/// Bullseye classification: after an Update, an object carrying the Bullseye
/// tag replaces exactly the slot its coalition designates (blue for the one
/// designated coalition value, red for the other), leaving the other slot
/// alone; an object without the tag leaves both slots alone.
pub proof fn lemma_bullseye_classification(s: StateView, id: u64, props: Vec<ObjectProperty>)
    ensures
        ({
            let base = if s.objects.dom().contains(id) {
                s.objects[id]
            } else {
                spec_default_object()
            };
            let obj = apply_object_properties(update_context(s), base, props@);
            let s1 = spec_update(s, Record::Update(id, props));
            &&& (spec_has_tag(obj.ty, Tag::Bullseye) && obj.coalition == Some(
                blue_bullseye_coalition(),
            ) ==> s1.blue_bullseye == Some(obj) && s1.red_bullseye == s.red_bullseye)
            &&& (spec_has_tag(obj.ty, Tag::Bullseye) && obj.coalition == Some(
                red_bullseye_coalition(),
            ) ==> s1.red_bullseye == Some(obj) && s1.blue_bullseye == s.blue_bullseye)
            &&& (!spec_has_tag(obj.ty, Tag::Bullseye) ==> s1.blue_bullseye == s.blue_bullseye
                && s1.red_bullseye == s.red_bullseye)
        }),
{
    reveal_strlit("Enemies");
    reveal_strlit("Allies");
    assert(blue_bullseye_coalition().len() == 7);
    assert(red_bullseye_coalition().len() == 6);
}

} // verus!
