//! The protocol surface the engine consumes: the connection header, the
//! session-wide global properties and the typed delta records.

use vstd::prelude::*;

use crate::model::{Coords, Scalar};
use crate::object::{clone_opt_string, view_opt_string, Tag};

verus! {

/// The immutable metadata a connection carries, captured once at session
/// start.
#[derive(Debug)]
pub struct Header {
    pub file_type: String,
    pub file_version: String,
}

/// The mathematical value of a header.
pub struct HeaderView {
    pub file_type: Seq<char>,
    pub file_version: Seq<char>,
}

impl View for Header {
    type V = HeaderView;

    open spec fn view(&self) -> HeaderView {
        HeaderView { file_type: self.file_type@, file_version: self.file_version@ }
    }
}

impl Clone for Header {
    fn clone(&self) -> (r: Self)
        ensures
            r@ == self@,
    {
        Header { file_type: self.file_type.clone(), file_version: self.file_version.clone() }
    }
}

/// Session-wide properties, overwritten field by field by global-property
/// deltas and never removed. The reference time is carried as nanoseconds
/// since the Unix epoch.
#[derive(Debug)]
pub struct GlobalProperties {
    pub reference_time: Option<i128>,
    pub author: Option<String>,
    pub title: Option<String>,
    pub comments: Option<String>,
    pub reference_longitude: Option<Scalar>,
    pub reference_latitude: Option<Scalar>,
}

/// The mathematical value of the global properties.
pub struct GlobalPropertiesView {
    pub reference_time: Option<i128>,
    pub author: Option<Seq<char>>,
    pub title: Option<Seq<char>>,
    pub comments: Option<Seq<char>>,
    pub reference_longitude: Option<Scalar>,
    pub reference_latitude: Option<Scalar>,
}

impl View for GlobalProperties {
    type V = GlobalPropertiesView;

    open spec fn view(&self) -> GlobalPropertiesView {
        GlobalPropertiesView {
            reference_time: self.reference_time,
            author: view_opt_string(self.author),
            title: view_opt_string(self.title),
            comments: view_opt_string(self.comments),
            reference_longitude: self.reference_longitude,
            reference_latitude: self.reference_latitude,
        }
    }
}

/// Global properties with every field still unknown.
pub open spec fn spec_default_globals() -> GlobalPropertiesView {
    GlobalPropertiesView {
        reference_time: None,
        author: None,
        title: None,
        comments: None,
        reference_longitude: None,
        reference_latitude: None,
    }
}

impl GlobalProperties {
    pub fn new() -> (r: GlobalProperties)
        ensures
            r@ == spec_default_globals(),
    {
        GlobalProperties {
            reference_time: None,
            author: None,
            title: None,
            comments: None,
            reference_longitude: None,
            reference_latitude: None,
        }
    }
}

impl Clone for GlobalProperties {
    fn clone(&self) -> (r: Self)
        ensures
            r@ == self@,
    {
        GlobalProperties {
            reference_time: self.reference_time,
            author: clone_opt_string(&self.author),
            title: clone_opt_string(&self.title),
            comments: clone_opt_string(&self.comments),
            reference_longitude: self.reference_longitude,
            reference_latitude: self.reference_latitude,
        }
    }
}

/// One session-wide property delta.
#[derive(Debug)]
pub enum GlobalProperty {
    ReferenceTime(i128),
    Author(String),
    Title(String),
    Comments(String),
    ReferenceLongitude(Scalar),
    ReferenceLatitude(Scalar),
    /// A property kind this engine does not track; applying it is a no-op.
    Unrecognized,
}

/// One per-object property delta.
#[derive(Debug)]
pub enum ObjectProperty {
    /// A coordinate patch (the feed's transform property).
    T(Coords),
    Name(String),
    Type(Vec<Tag>),
    Callsign(String),
    Pilot(String),
    Squawk(String),
    Group(String),
    Coalition(String),
    /// A property kind this engine does not track; applying it is a no-op.
    Unrecognized,
}

/// One unit of the telemetry stream.
#[derive(Debug)]
pub enum Record {
    /// Delete the object with this id, if present.
    Remove(u64),
    /// A new frame timestamp; gates whether coordinate updates may produce
    /// track points.
    Frame(Scalar),
    /// An in-world event; carried by the protocol but without state effect.
    Event(String),
    /// An ordered list of session-wide property deltas.
    GlobalProperties(Vec<GlobalProperty>),
    /// An ordered list of property deltas for one object id.
    Update(u64, Vec<ObjectProperty>),
}

} // verus!
