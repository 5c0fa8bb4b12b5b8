//! The state-reconstruction engine: the session aggregate and the transition
//! rule that folds one delta record at a time into it.

use vstd::prelude::*;
use vstd::string::StringExecFns;

use crate::model::{merge_coordinates, spec_merge, Coords, Scalar};
use crate::object::{
    spec_altitude_rate_estimate, spec_default_object, spec_has_tag, spec_push_track,
    spec_speed_estimate, view_opt_string, ObjectView, TacviewObject, Tag, TrackPoint,
};
use crate::object_map::ObjectMap;
use crate::records::{
    spec_default_globals, GlobalProperties, GlobalPropertiesView, GlobalProperty, Header,
    HeaderView, ObjectProperty, Record,
};

verus! {

/// The coalition value whose bullseye object fills the blue slot.
pub open spec fn blue_bullseye_coalition() -> Seq<char> {
    "Enemies"@
}

/// The coalition value whose bullseye object fills the red slot.
pub open spec fn red_bullseye_coalition() -> Seq<char> {
    "Allies"@
}

pub open spec fn view_opt_object(o: Option<TacviewObject>) -> Option<ObjectView> {
    match o {
        Some(x) => Some(x@),
        None => None,
    }
}

/// The reconstructed session: the aggregate root the ingestion path writes
/// and the publication path reads.
#[derive(Debug)]
pub struct TacviewState {
    pub header: Header,
    pub global_properties: GlobalProperties,
    pub objects: ObjectMap,
    pub current_timeframe: Option<Scalar>,
    pub blue_bullseye: Option<TacviewObject>,
    pub red_bullseye: Option<TacviewObject>,
}

/// The mathematical value of a session.
pub struct StateView {
    pub header: HeaderView,
    pub global_properties: GlobalPropertiesView,
    pub objects: Map<u64, ObjectView>,
    pub current_timeframe: Option<Scalar>,
    pub blue_bullseye: Option<ObjectView>,
    pub red_bullseye: Option<ObjectView>,
}

impl View for TacviewState {
    type V = StateView;

    open spec fn view(&self) -> StateView {
        StateView {
            header: self.header@,
            global_properties: self.global_properties@,
            objects: self.objects@,
            current_timeframe: self.current_timeframe,
            blue_bullseye: view_opt_object(self.blue_bullseye),
            red_bullseye: view_opt_object(self.red_bullseye),
        }
    }
}

/// One global-property delta overwrites exactly the field it names;
/// unrecognized kinds are ignored.
pub open spec fn apply_global_property(
    g: GlobalPropertiesView,
    p: GlobalProperty,
) -> GlobalPropertiesView {
    match p {
        GlobalProperty::ReferenceTime(t) => GlobalPropertiesView { reference_time: Some(t), ..g },
        GlobalProperty::Author(v) => GlobalPropertiesView { author: Some(v@), ..g },
        GlobalProperty::Title(v) => GlobalPropertiesView { title: Some(v@), ..g },
        GlobalProperty::Comments(v) => GlobalPropertiesView { comments: Some(v@), ..g },
        GlobalProperty::ReferenceLongitude(v) => GlobalPropertiesView {
            reference_longitude: Some(v),
            ..g
        },
        GlobalProperty::ReferenceLatitude(v) => GlobalPropertiesView {
            reference_latitude: Some(v),
            ..g
        },
        GlobalProperty::Unrecognized => g,
    }
}

/// An ordered list of global-property deltas, applied left to right.
pub open spec fn apply_global_properties(
    g: GlobalPropertiesView,
    props: Seq<GlobalProperty>,
) -> GlobalPropertiesView
    decreases props.len(),
{
    if props.len() == 0 {
        g
    } else {
        apply_global_property(apply_global_properties(g, props.drop_last()), props.last())
    }
}

/// The parts of the session an object update reads but does not change.
pub struct UpdateContext {
    pub current_timeframe: Option<Scalar>,
    pub reference_latitude: Option<Scalar>,
    pub reference_longitude: Option<Scalar>,
}

pub open spec fn update_context(s: StateView) -> UpdateContext {
    UpdateContext {
        current_timeframe: s.current_timeframe,
        reference_latitude: s.global_properties.reference_latitude,
        reference_longitude: s.global_properties.reference_longitude,
    }
}

/// One coordinate delta: merge into the last known coordinates, then — only
/// when a frame timestamp is known, the object carries the Air tag and the
/// merged coordinates are track-eligible — record a track point and re-derive
/// the kinematic estimates (the speed estimate only when both reference
/// latitude and longitude are known).
pub open spec fn apply_coord_delta(ctx: UpdateContext, obj: ObjectView, delta: Coords) -> ObjectView {
    let base = match obj.coords {
        Some(c) => c,
        None => Coords::spec_empty(),
    };
    let merged = spec_merge(base, delta);
    let with_coords = ObjectView { coords: Some(merged), ..obj };
    match ctx.current_timeframe {
        Some(tf) => {
            if spec_has_tag(with_coords.ty, Tag::Air) && merged.spec_track_eligible() {
                let tracks = spec_push_track(
                    with_coords.tracks,
                    TrackPoint { timestamp: tf, coords: merged },
                );
                let speed = match (ctx.reference_latitude, ctx.reference_longitude) {
                    (Some(rlat), Some(rlon)) => spec_speed_estimate(tracks, rlat, rlon),
                    _ => with_coords.estimated_speed,
                };
                ObjectView {
                    tracks,
                    estimated_speed: speed,
                    estimated_altitude_rate: spec_altitude_rate_estimate(tracks),
                    ..with_coords
                }
            } else {
                with_coords
            }
        },
        None => with_coords,
    }
}

/// One object-property delta; plain properties overwrite their field, the
/// tag set is replaced wholesale, unrecognized kinds are ignored.
pub open spec fn apply_object_property(
    ctx: UpdateContext,
    obj: ObjectView,
    p: ObjectProperty,
) -> ObjectView {
    match p {
        ObjectProperty::T(c) => apply_coord_delta(ctx, obj, c),
        ObjectProperty::Name(v) => ObjectView { name: Some(v@), ..obj },
        ObjectProperty::Type(v) => ObjectView { ty: Some(v@), ..obj },
        ObjectProperty::Callsign(v) => ObjectView { callsign: Some(v@), ..obj },
        ObjectProperty::Pilot(v) => ObjectView { pilot: Some(v@), ..obj },
        ObjectProperty::Squawk(v) => ObjectView { squawk: Some(v@), ..obj },
        ObjectProperty::Group(v) => ObjectView { group: Some(v@), ..obj },
        ObjectProperty::Coalition(v) => ObjectView { coalition: Some(v@), ..obj },
        ObjectProperty::Unrecognized => obj,
    }
}

/// An ordered list of object-property deltas, applied left to right.
pub open spec fn apply_object_properties(
    ctx: UpdateContext,
    obj: ObjectView,
    props: Seq<ObjectProperty>,
) -> ObjectView
    decreases props.len(),
{
    if props.len() == 0 {
        obj
    } else {
        apply_object_property(
            ctx,
            apply_object_properties(ctx, obj, props.drop_last()),
            props.last(),
        )
    }
}

/// After an update, an object carrying the Bullseye tag replaces the slot
/// its coalition designates; any other object leaves both slots alone.
pub open spec fn spec_classify_bullseye(
    obj: ObjectView,
    blue: Option<ObjectView>,
    red: Option<ObjectView>,
) -> (Option<ObjectView>, Option<ObjectView>) {
    if spec_has_tag(obj.ty, Tag::Bullseye) {
        if obj.coalition == Some(blue_bullseye_coalition()) {
            (Some(obj), red)
        } else if obj.coalition == Some(red_bullseye_coalition()) {
            (blue, Some(obj))
        } else {
            (blue, red)
        }
    } else {
        (blue, red)
    }
}

/// The transition rule: the session that results from applying one delta
/// record to a session.
pub open spec fn spec_update(s: StateView, record: Record) -> StateView {
    match record {
        Record::Remove(id) => StateView { objects: s.objects.remove(id), ..s },
        Record::Frame(t) => StateView { current_timeframe: Some(t), ..s },
        Record::Event(_) => s,
        Record::GlobalProperties(props) => StateView {
            global_properties: apply_global_properties(s.global_properties, props@),
            ..s
        },
        Record::Update(id, props) => {
            let base = if s.objects.dom().contains(id) {
                s.objects[id]
            } else {
                spec_default_object()
            };
            let obj = apply_object_properties(update_context(s), base, props@);
            let slots = spec_classify_bullseye(obj, s.blue_bullseye, s.red_bullseye);
            StateView {
                objects: s.objects.insert(id, obj),
                blue_bullseye: slots.0,
                red_bullseye: slots.1,
                ..s
            }
        },
    }
}

/// The session a fresh connection starts from: the connection's header and
/// empty defaults.
pub open spec fn initial_state(h: HeaderView) -> StateView {
    StateView {
        header: h,
        global_properties: spec_default_globals(),
        objects: Map::empty(),
        current_timeframe: None,
        blue_bullseye: None,
        red_bullseye: None,
    }
}

/// Whether an optional coalition value equals a designated literal.
fn opt_string_equals(s: &Option<String>, designated: &str) -> (r: bool)
    ensures
        r == (view_opt_string(*s) == Some(designated@)),
{
    match s {
        Some(x) => {
            let d = String::from_str(designated);
            *x == d
        },
        None => false,
    }
}

fn apply_global_deltas(globals: &mut GlobalProperties, props: &Vec<GlobalProperty>)
    ensures
        final(globals)@ == apply_global_properties(old(globals)@, props@),
{
    let mut i: usize = 0;
    while i < props.len()
        invariant
            i <= props.len(),
            globals@ == apply_global_properties(old(globals)@, props@.take(i as int)),
        decreases props.len() - i,
    {
        match &props[i] {
            GlobalProperty::ReferenceTime(t) => {
                globals.reference_time = Some(*t);
            },
            GlobalProperty::Author(v) => {
                globals.author = Some(v.clone());
            },
            GlobalProperty::Title(v) => {
                globals.title = Some(v.clone());
            },
            GlobalProperty::Comments(v) => {
                globals.comments = Some(v.clone());
            },
            GlobalProperty::ReferenceLongitude(v) => {
                globals.reference_longitude = Some(*v);
            },
            GlobalProperty::ReferenceLatitude(v) => {
                globals.reference_latitude = Some(*v);
            },
            GlobalProperty::Unrecognized => {},
        }
        proof {
            assert(props@.take(i as int + 1).drop_last() =~= props@.take(i as int));
            assert(props@.take(i as int + 1).last() == props@[i as int]);
        }
        i += 1;
    }
    proof {
        assert(props@.take(props@.len() as int) =~= props@);
    }
}

impl TacviewState {
    /// The representation invariant of the aggregate.
    pub open spec fn wf(&self) -> bool {
        self.objects.wf()
    }

    /// The session a fresh connection starts from.
    pub fn new(header: Header) -> (r: TacviewState)
        ensures
            r.wf(),
            r@ == initial_state(header@),
    {
        TacviewState {
            header,
            global_properties: GlobalProperties::new(),
            objects: ObjectMap::new(),
            current_timeframe: None,
            blue_bullseye: None,
            red_bullseye: None,
        }
    }

    /// Applies one delta record, in stream order: the only way the session
    /// ever changes.
    pub fn update(&mut self, record: Record)
        requires
            old(self).wf(),
        ensures
            final(self).wf(),
            final(self)@ == spec_update(old(self)@, record),
    {
        let ghost r0 = record;
        match record {
            Record::Remove(id) => {
                self.objects.remove(id);
            },
            Record::Frame(t) => {
                self.current_timeframe = Some(t);
            },
            Record::Event(_payload) => {},
            Record::GlobalProperties(props) => {
                apply_global_deltas(&mut self.global_properties, &props);
            },
            Record::Update(id, props) => {
                let ghost base = if old(self)@.objects.dom().contains(id) {
                    old(self)@.objects[id]
                } else {
                    spec_default_object()
                };
                let ghost ctx = update_context(old(self)@);
                let mut object = match self.objects.take(id) {
                    Some(o) => o,
                    None => TacviewObject::new(),
                };
                assert(object@ == base);
                let mut i: usize = 0;
                while i < props.len()
                    invariant
                        i <= props.len(),
                        object@ == apply_object_properties(ctx, base, props@.take(i as int)),
                        ctx == update_context(old(self)@),
                        self.objects.wf(),
                        self.objects@ == old(self)@.objects.remove(id),
                        self.header == old(self).header,
                        self.global_properties == old(self).global_properties,
                        self.current_timeframe == old(self).current_timeframe,
                        self.blue_bullseye == old(self).blue_bullseye,
                        self.red_bullseye == old(self).red_bullseye,
                    decreases props.len() - i,
                {
                    let ghost prev = object@;
                    match &props[i] {
                        ObjectProperty::T(c) => {
                            let object_coords = match object.coords {
                                Some(cc) => cc,
                                None => Coords::empty(),
                            };
                            let merged = merge_coordinates(object_coords, *c);
                            object.coords = Some(merged);
                            if let Some(timeframe) = self.current_timeframe {
                                if object.has_tag(Tag::Air) && merged.track_eligible() {
                                    object.record_track_point(timeframe, merged);
                                    if let Some(reference_latitude) =
                                        self.global_properties.reference_latitude {
                                        if let Some(reference_longitude) =
                                            self.global_properties.reference_longitude {
                                            object.update_estimated_speed(
                                                reference_latitude,
                                                reference_longitude,
                                            );
                                        }
                                    }
                                    object.update_estimated_altitude_rate();
                                }
                            }
                            assert(object@ == apply_coord_delta(ctx, prev, *c));
                        },
                        ObjectProperty::Name(v) => {
                            object.name = Some(v.clone());
                        },
                        ObjectProperty::Type(v) => {
                            object.ty = Some(crate::object::clone_tag_list(v));
                        },
                        ObjectProperty::Callsign(v) => {
                            object.callsign = Some(v.clone());
                        },
                        ObjectProperty::Pilot(v) => {
                            object.pilot = Some(v.clone());
                        },
                        ObjectProperty::Squawk(v) => {
                            object.squawk = Some(v.clone());
                        },
                        ObjectProperty::Group(v) => {
                            object.group = Some(v.clone());
                        },
                        ObjectProperty::Coalition(v) => {
                            object.coalition = Some(v.clone());
                        },
                        ObjectProperty::Unrecognized => {},
                    }
                    proof {
                        assert(object@ == apply_object_property(ctx, prev, props@[i as int]));
                        assert(props@.take(i as int + 1).drop_last() =~= props@.take(i as int));
                        assert(props@.take(i as int + 1).last() == props@[i as int]);
                    }
                    i += 1;
                }
                proof {
                    assert(props@.take(props@.len() as int) =~= props@);
                }
                if object.has_tag(Tag::Bullseye) {
                    if opt_string_equals(&object.coalition, "Enemies") {
                        self.blue_bullseye = Some(object.clone());
                    } else if opt_string_equals(&object.coalition, "Allies") {
                        self.red_bullseye = Some(object.clone());
                    }
                }
                self.objects.insert_new(id, object);
                proof {
                    assert(old(self)@.objects.remove(id).insert(id, object@) =~= old(
                        self,
                    )@.objects.insert(id, object@));
                }
            },
        }
        assert(self@ == spec_update(old(self)@, r0));
    }
}

/// The lazy-init-on-first-record rule the ingestion loop follows: if no
/// session exists yet, one is created from the connection's header and empty
/// defaults; then the record is applied.
pub fn apply_to_session(session: &mut Option<TacviewState>, header: &Header, record: Record)
    requires
        match *old(session) {
            Some(s) => s.wf(),
            None => true,
        },
    ensures
        match *final(session) {
            Some(s) => s.wf() && s@ == spec_update(
                match *old(session) {
                    Some(prev) => prev@,
                    None => initial_state(header@),
                },
                record,
            ),
            None => false,
        },
{
    let mut state = match session.take() {
        Some(s) => s,
        None => TacviewState::new(header.clone()),
    };
    state.update(record);
    *session = Some(state);
}

} // verus!
