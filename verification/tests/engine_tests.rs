use tacview_live::engine::TacviewState;
use tacview_live::model::{Coords, Scalar};
use tacview_live::object::{AltitudeRateEstimate, SpeedEstimate, TacviewObject, Tag};
use tacview_live::records::{GlobalProperty, Header, ObjectProperty, Record};

fn header() -> Header {
    Header {
        file_type: "text/acmi/tacview".to_string(),
        file_version: "2.2".to_string(),
    }
}

fn state() -> TacviewState {
    TacviewState::new(header())
}

fn bits(x: f64) -> Scalar {
    x.to_bits()
}

fn coords_lla(lat: f64, lon: f64, alt: f64) -> Coords {
    let mut c = Coords::empty();
    c.latitude = Some(bits(lat));
    c.longitude = Some(bits(lon));
    c.altitude = Some(bits(alt));
    c
}

fn air_object(s: &mut TacviewState, id: u64) {
    s.update(Record::Update(id, vec![ObjectProperty::Type(vec![Tag::Air])]));
}

fn object<'a>(s: &'a TacviewState, id: u64) -> &'a TacviewObject {
    s.objects.get(id).expect("object should exist")
}

#[test]
fn merge_overwrites_present_fields_and_keeps_absent_ones() {
    let mut base = Coords::empty();
    base.latitude = Some(bits(10.0));
    base.longitude = Some(bits(20.0));
    base.heading = Some(bits(90.0));

    let mut delta = Coords::empty();
    delta.latitude = Some(bits(11.5));
    delta.altitude = Some(bits(3000.0));

    let merged = tacview_live::model::merge_coordinates(base, delta);
    assert_eq!(merged.latitude, Some(bits(11.5)));
    assert_eq!(merged.altitude, Some(bits(3000.0)));
    assert_eq!(merged.longitude, Some(bits(20.0)));
    assert_eq!(merged.heading, Some(bits(90.0)));
    assert_eq!(merged.roll, None);
}

#[test]
fn merge_with_empty_delta_is_a_no_op() {
    let mut base = Coords::empty();
    base.latitude = Some(bits(-33.0));
    base.yaw = Some(bits(1.25));
    let merged = tacview_live::model::merge_coordinates(base, Coords::empty());
    assert_eq!(merged.latitude, base.latitude);
    assert_eq!(merged.yaw, base.yaw);
    assert_eq!(merged.altitude, None);
}

#[test]
fn track_window_is_capped_and_newest_first() {
    let mut s = state();
    air_object(&mut s, 1);
    for step in 0..35u32 {
        let t = f64::from(step);
        s.update(Record::Frame(bits(t)));
        s.update(Record::Update(
            1,
            vec![ObjectProperty::T(coords_lla(10.0 + f64::from(step), 20.0, 1000.0))],
        ));
    }
    let obj = object(&s, 1);
    assert_eq!(obj.tracks.len(), 30);
    assert_eq!(obj.tracks[0].timestamp, bits(34.0));
    assert_eq!(obj.tracks[29].timestamp, bits(5.0));
    assert_eq!(obj.tracks[0].coords.latitude, Some(bits(44.0)));
}

#[test]
fn no_track_point_without_a_frame_timestamp() {
    let mut s = state();
    air_object(&mut s, 1);
    s.update(Record::Update(1, vec![ObjectProperty::T(coords_lla(1.0, 2.0, 3.0))]));
    let obj = object(&s, 1);
    assert_eq!(obj.tracks.len(), 0);
    assert_eq!(obj.coords.unwrap().latitude, Some(bits(1.0)));
}

#[test]
fn no_track_point_without_the_air_tag() {
    let mut s = state();
    s.update(Record::Frame(bits(1.0)));
    s.update(Record::Update(
        7,
        vec![
            ObjectProperty::Type(vec![Tag::Ground]),
            ObjectProperty::T(coords_lla(1.0, 2.0, 3.0)),
        ],
    ));
    assert_eq!(object(&s, 7).tracks.len(), 0);
}

#[test]
fn no_track_point_until_coordinates_are_track_eligible() {
    let mut s = state();
    air_object(&mut s, 1);
    s.update(Record::Frame(bits(1.0)));
    let mut partial = Coords::empty();
    partial.latitude = Some(bits(1.0));
    partial.longitude = Some(bits(2.0));
    s.update(Record::Update(1, vec![ObjectProperty::T(partial)]));
    assert_eq!(object(&s, 1).tracks.len(), 0);

    let mut alt_only = Coords::empty();
    alt_only.altitude = Some(bits(500.0));
    s.update(Record::Frame(bits(2.0)));
    s.update(Record::Update(1, vec![ObjectProperty::T(alt_only)]));
    assert_eq!(object(&s, 1).tracks.len(), 1);
}

#[test]
fn speed_is_the_sentinel_with_fewer_than_two_points() {
    let mut s = state();
    s.update(Record::GlobalProperties(vec![
        GlobalProperty::ReferenceLatitude(bits(30.0)),
        GlobalProperty::ReferenceLongitude(bits(40.0)),
    ]));
    air_object(&mut s, 1);
    s.update(Record::Frame(bits(1.0)));
    s.update(Record::Update(1, vec![ObjectProperty::T(coords_lla(1.0, 2.0, 3.0))]));
    let obj = object(&s, 1);
    assert_eq!(obj.tracks.len(), 1);
    assert!(matches!(obj.estimated_speed, SpeedEstimate::InsufficientData));
    assert!(matches!(obj.estimated_altitude_rate, AltitudeRateEstimate::Insufficient));
}

#[test]
fn speed_basis_uses_newest_and_oldest_points_and_the_reference() {
    let mut s = state();
    s.update(Record::GlobalProperties(vec![
        GlobalProperty::ReferenceLatitude(bits(30.0)),
        GlobalProperty::ReferenceLongitude(bits(40.0)),
    ]));
    air_object(&mut s, 1);
    s.update(Record::Frame(bits(10.0)));
    s.update(Record::Update(1, vec![ObjectProperty::T(coords_lla(1.0, 2.0, 100.0))]));
    s.update(Record::Frame(bits(20.0)));
    s.update(Record::Update(1, vec![ObjectProperty::T(coords_lla(1.5, 2.5, 200.0))]));
    let obj = object(&s, 1);
    assert_eq!(obj.tracks.len(), 2);
    match obj.estimated_speed {
        SpeedEstimate::Basis { front, back, reference_latitude, reference_longitude } => {
            assert_eq!(front.timestamp, bits(20.0));
            assert_eq!(back.timestamp, bits(10.0));
            assert_eq!(front.coords.latitude, Some(bits(1.5)));
            assert_eq!(back.coords.latitude, Some(bits(1.0)));
            assert_eq!(reference_latitude, bits(30.0));
            assert_eq!(reference_longitude, bits(40.0));
        },
        _ => panic!("expected a speed basis"),
    }
    match obj.estimated_altitude_rate {
        AltitudeRateEstimate::Basis { front, back } => {
            assert_eq!(front.coords.altitude, Some(bits(200.0)));
            assert_eq!(back.coords.altitude, Some(bits(100.0)));
        },
        _ => panic!("expected an altitude-rate basis"),
    }
}

#[test]
fn speed_is_untouched_while_the_reference_point_is_unknown() {
    let mut s = state();
    air_object(&mut s, 1);
    s.update(Record::Frame(bits(1.0)));
    s.update(Record::Update(1, vec![ObjectProperty::T(coords_lla(1.0, 2.0, 3.0))]));
    s.update(Record::Frame(bits(2.0)));
    s.update(Record::Update(1, vec![ObjectProperty::T(coords_lla(1.1, 2.1, 3.1))]));
    let obj = object(&s, 1);
    assert_eq!(obj.tracks.len(), 2);
    assert!(matches!(obj.estimated_speed, SpeedEstimate::Unknown));
    assert!(matches!(obj.estimated_altitude_rate, AltitudeRateEstimate::Basis { .. }));
}

#[test]
fn remove_leaves_the_id_absent() {
    let mut s = state();
    s.update(Record::Update(9, vec![ObjectProperty::Name("F-16".to_string())]));
    assert!(s.objects.get(9).is_some());
    s.update(Record::Remove(9));
    assert!(s.objects.get(9).is_none());
    s.update(Record::Remove(9));
    assert!(s.objects.get(9).is_none());
    assert_eq!(s.objects.len(), 0);
}

#[test]
fn global_properties_only_change_the_named_fields() {
    let mut s = state();
    s.update(Record::GlobalProperties(vec![GlobalProperty::Author("Alice".to_string())]));
    s.update(Record::GlobalProperties(vec![GlobalProperty::Title("Mission 1".to_string())]));
    assert_eq!(s.global_properties.author.as_deref(), Some("Alice"));
    assert_eq!(s.global_properties.title.as_deref(), Some("Mission 1"));
    assert_eq!(s.global_properties.comments, None);
    assert_eq!(s.global_properties.reference_time, None);
}

#[test]
fn reference_time_and_coordinates_are_stored() {
    let mut s = state();
    s.update(Record::GlobalProperties(vec![
        GlobalProperty::ReferenceTime(1_600_000_000_000_000_000),
        GlobalProperty::ReferenceLongitude(bits(42.5)),
        GlobalProperty::ReferenceLatitude(bits(-7.25)),
        GlobalProperty::Unrecognized,
    ]));
    assert_eq!(s.global_properties.reference_time, Some(1_600_000_000_000_000_000));
    assert_eq!(s.global_properties.reference_longitude, Some(bits(42.5)));
    assert_eq!(s.global_properties.reference_latitude, Some(bits(-7.25)));
}

#[test]
fn second_update_for_the_same_id_merges_with_the_first() {
    let mut s = state();
    s.update(Record::Update(3, vec![ObjectProperty::Name("F-16".to_string())]));
    s.update(Record::Update(3, vec![ObjectProperty::Callsign("Viper1".to_string())]));
    let obj = object(&s, 3);
    assert_eq!(obj.name.as_deref(), Some("F-16"));
    assert_eq!(obj.callsign.as_deref(), Some("Viper1"));
}

#[test]
fn update_overwrites_plain_fields_and_replaces_the_tag_set() {
    let mut s = state();
    s.update(Record::Update(
        3,
        vec![
            ObjectProperty::Pilot("Maverick".to_string()),
            ObjectProperty::Squawk("1200".to_string()),
            ObjectProperty::Group("CVW-8".to_string()),
            ObjectProperty::Type(vec![Tag::Air, Tag::FixedWing]),
            ObjectProperty::Unrecognized,
        ],
    ));
    s.update(Record::Update(3, vec![ObjectProperty::Type(vec![Tag::Ground])]));
    let obj = object(&s, 3);
    assert_eq!(obj.pilot.as_deref(), Some("Maverick"));
    assert_eq!(obj.squawk.as_deref(), Some("1200"));
    assert_eq!(obj.group.as_deref(), Some("CVW-8"));
    assert_eq!(obj.ty.as_deref(), Some(&[Tag::Ground][..]));
}

#[test]
fn bullseye_objects_fill_the_slot_their_coalition_designates() {
    let mut s = state();
    s.update(Record::Update(
        100,
        vec![
            ObjectProperty::Type(vec![Tag::Navaid, Tag::Static, Tag::Bullseye]),
            ObjectProperty::Coalition("Enemies".to_string()),
            ObjectProperty::Name("blue reference".to_string()),
        ],
    ));
    s.update(Record::Update(
        101,
        vec![
            ObjectProperty::Type(vec![Tag::Bullseye]),
            ObjectProperty::Coalition("Allies".to_string()),
            ObjectProperty::Name("red reference".to_string()),
        ],
    ));
    let blue = s.blue_bullseye.as_ref().expect("blue slot filled");
    let red = s.red_bullseye.as_ref().expect("red slot filled");
    assert_eq!(blue.name.as_deref(), Some("blue reference"));
    assert_eq!(red.name.as_deref(), Some("red reference"));

    s.update(Record::Update(
        102,
        vec![
            ObjectProperty::Type(vec![Tag::Bullseye]),
            ObjectProperty::Coalition("Enemies".to_string()),
            ObjectProperty::Name("newer blue reference".to_string()),
        ],
    ));
    let blue = s.blue_bullseye.as_ref().expect("blue slot still filled");
    assert_eq!(blue.name.as_deref(), Some("newer blue reference"));
    let red = s.red_bullseye.as_ref().expect("red slot untouched");
    assert_eq!(red.name.as_deref(), Some("red reference"));
}

#[test]
fn coordinates_merge_across_records() {
    let mut s = state();
    let mut first = Coords::empty();
    first.latitude = Some(bits(10.0));
    first.longitude = Some(bits(20.0));
    s.update(Record::Update(1, vec![ObjectProperty::T(first)]));

    let mut second = Coords::empty();
    second.altitude = Some(bits(5000.0));
    second.latitude = Some(bits(10.5));
    s.update(Record::Update(1, vec![ObjectProperty::T(second)]));

    let coords = object(&s, 1).coords.expect("coords present");
    assert_eq!(coords.latitude, Some(bits(10.5)));
    assert_eq!(coords.longitude, Some(bits(20.0)));
    assert_eq!(coords.altitude, Some(bits(5000.0)));
}

#[test]
fn bullseye_with_an_undesignated_coalition_fills_no_slot() {
    let mut s = state();
    s.update(Record::Update(
        50,
        vec![
            ObjectProperty::Type(vec![Tag::Bullseye]),
            ObjectProperty::Coalition("Neutral".to_string()),
        ],
    ));
    assert!(s.blue_bullseye.is_none());
    assert!(s.red_bullseye.is_none());
}

#[test]
fn objects_without_the_bullseye_tag_leave_the_slots_alone() {
    let mut s = state();
    s.update(Record::Update(
        5,
        vec![
            ObjectProperty::Type(vec![Tag::Air]),
            ObjectProperty::Coalition("Enemies".to_string()),
        ],
    ));
    assert!(s.blue_bullseye.is_none());
    assert!(s.red_bullseye.is_none());
}

#[test]
fn event_records_have_no_state_effect() {
    let mut s = state();
    s.update(Record::Update(1, vec![ObjectProperty::Name("A".to_string())]));
    s.update(Record::Event("LeftArea".to_string()));
    assert_eq!(s.objects.len(), 1);
    assert_eq!(object(&s, 1).name.as_deref(), Some("A"));
    assert!(s.current_timeframe.is_none());
}

#[test]
fn frame_records_set_the_current_timeframe() {
    let mut s = state();
    assert_eq!(s.current_timeframe, None);
    s.update(Record::Frame(bits(12.5)));
    assert_eq!(s.current_timeframe, Some(bits(12.5)));
    s.update(Record::Frame(bits(13.0)));
    assert_eq!(s.current_timeframe, Some(bits(13.0)));
}
