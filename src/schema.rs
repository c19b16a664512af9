//! The objects of an infrastructure as the checks see them, and the error
//! records that the checks produce.
use vstd::prelude::*;

verus! {

/// The kind of an infrastructure object.
#[derive(Clone, Copy, Debug, PartialEq, Eq, Structural, Hash)]
pub enum ObjectType {
    TrackSection,
    Signal,
    SpeedSection,
    Detector,
    TrackSectionLink,
    Switch,
    SwitchType,
    BufferStop,
    Route,
    OperationalPoint,
}

/// A pointer to an object: its kind and its identifier.
#[derive(Clone, Debug)]
pub struct ObjectRef {
    pub obj_type: ObjectType,
    pub obj_id: String,
}

/// What an `ObjectRef` stands for.
pub struct ObjectRefView {
    pub obj_type: ObjectType,
    pub obj_id: Seq<char>,
}

impl View for ObjectRef {
    type V = ObjectRefView;

    open spec fn view(&self) -> ObjectRefView {
        ObjectRefView { obj_type: self.obj_type, obj_id: self.obj_id@ }
    }
}

impl ObjectRef {
    pub fn new(obj_type: ObjectType, obj_id: &str) -> (r: ObjectRef)
        ensures
            r@ == (ObjectRefView { obj_type, obj_id: obj_id@ }),
    {
        ObjectRef { obj_type, obj_id: obj_id.to_owned() }
    }
}

impl PartialEq for ObjectRef {
    fn eq(&self, o: &ObjectRef) -> (r: bool) {
        self.obj_type == o.obj_type && self.obj_id == o.obj_id
    }
}

impl vstd::std_specs::cmp::PartialEqSpecImpl for ObjectRef {
    open spec fn obeys_eq_spec() -> bool {
        true
    }

    open spec fn eq_spec(&self, o: &ObjectRef) -> bool {
        self@ == o@
    }
}

/// A track section, seen as the coordinate range `[0, length]` along it.
///
/// Lengths and positions along a track are whole numbers of one unit of
/// distance, the same for every object of the cache.
#[derive(Clone, Debug)]
pub struct TrackSectionCache {
    pub obj_id: String,
    pub length: i64,
}

pub struct TrackSectionView {
    pub obj_id: Seq<char>,
    pub length: int,
}

impl View for TrackSectionCache {
    type V = TrackSectionView;

    open spec fn view(&self) -> TrackSectionView {
        TrackSectionView { obj_id: self.obj_id@, length: self.length as int }
    }
}

impl TrackSectionCache {
    pub fn new(obj_id: &str, length: i64) -> (r: TrackSectionCache)
        ensures
            r@ == (TrackSectionView { obj_id: obj_id@, length: length as int }),
    {
        TrackSectionCache { obj_id: obj_id.to_owned(), length }
    }
}

/// A detector: it lies on the track section `track`, at `position` along it.
#[derive(Clone, Debug)]
pub struct DetectorCache {
    pub obj_id: String,
    pub track: String,
    pub position: i64,
}

pub struct DetectorView {
    pub obj_id: Seq<char>,
    pub track: Seq<char>,
    pub position: int,
}

impl View for DetectorCache {
    type V = DetectorView;

    open spec fn view(&self) -> DetectorView {
        DetectorView { obj_id: self.obj_id@, track: self.track@, position: self.position as int }
    }
}

impl DetectorCache {
    pub fn new(obj_id: &str, track: &str, position: i64) -> (r: DetectorCache)
        ensures
            r@ == (DetectorView { obj_id: obj_id@, track: track@, position: position as int }),
    {
        DetectorCache { obj_id: obj_id.to_owned(), track: track.to_owned(), position }
    }
}

/// What went wrong with an object.
#[derive(Clone, Debug)]
pub enum InfraErrorType {
    /// The field points at an object that does not exist.
    InvalidReference { reference: ObjectRef },
    /// The field holds `position`, which lies outside the inclusive range
    /// `expected_range`.
    OutOfRange { position: i64, expected_range: [i64; 2] },
}

pub enum InfraErrorTypeView {
    InvalidReference { reference: ObjectRefView },
    OutOfRange { position: int, low: int, high: int },
}

impl View for InfraErrorType {
    type V = InfraErrorTypeView;

    open spec fn view(&self) -> InfraErrorTypeView {
        match self {
            InfraErrorType::InvalidReference { reference } => InfraErrorTypeView::InvalidReference {
                reference: reference@,
            },
            InfraErrorType::OutOfRange { position, expected_range } => InfraErrorTypeView::OutOfRange {
                position: *position as int,
                low: expected_range[0] as int,
                high: expected_range[1] as int,
            },
        }
    }
}

impl PartialEq for InfraErrorType {
    fn eq(&self, o: &InfraErrorType) -> (r: bool) {
        match (self, o) {
            (
                InfraErrorType::InvalidReference { reference: a },
                InfraErrorType::InvalidReference { reference: b },
            ) => a.eq(b),
            (
                InfraErrorType::OutOfRange { position: p, expected_range: a },
                InfraErrorType::OutOfRange { position: q, expected_range: b },
            ) => *p == *q && a[0] == b[0] && a[1] == b[1],
            _ => false,
        }
    }
}

impl vstd::std_specs::cmp::PartialEqSpecImpl for InfraErrorType {
    open spec fn obeys_eq_spec() -> bool {
        true
    }

    open spec fn eq_spec(&self, o: &InfraErrorType) -> bool {
        self@ == o@
    }
}

/// One finding of a check: the offending object, the field at fault, and
/// what is wrong with it.
#[derive(Clone, Debug)]
pub struct InfraError {
    pub obj_id: String,
    pub obj_type: ObjectType,
    pub field: String,
    pub sub_type: InfraErrorType,
}

pub struct InfraErrorView {
    pub obj_id: Seq<char>,
    pub obj_type: ObjectType,
    pub field: Seq<char>,
    pub sub_type: InfraErrorTypeView,
}

impl View for InfraError {
    type V = InfraErrorView;

    open spec fn view(&self) -> InfraErrorView {
        InfraErrorView {
            obj_id: self.obj_id@,
            obj_type: self.obj_type,
            field: self.field@,
            sub_type: self.sub_type@,
        }
    }
}

impl PartialEq for InfraError {
    fn eq(&self, o: &InfraError) -> (r: bool) {
        self.obj_id == o.obj_id && self.obj_type == o.obj_type && self.field == o.field
            && self.sub_type.eq(&o.sub_type)
    }
}

impl vstd::std_specs::cmp::PartialEqSpecImpl for InfraError {
    open spec fn obeys_eq_spec() -> bool {
        true
    }

    open spec fn eq_spec(&self, o: &InfraError) -> bool {
        self@ == o@
    }
}

/// The views of a list of errors, in order.
pub open spec fn errors_view(errors: Seq<InfraError>) -> Seq<InfraErrorView> {
    errors.map_values(|e: InfraError| e@)
}

impl InfraError {
    /// An error on `detector`: its field `field` points at `reference`, which
    /// does not exist.
    pub fn new_invalid_reference(detector: &DetectorCache, field: &str, reference: ObjectRef) -> (r:
        InfraError)
        ensures
            r@ == (InfraErrorView {
                obj_id: detector.obj_id@,
                obj_type: ObjectType::Detector,
                field: field@,
                sub_type: InfraErrorTypeView::InvalidReference { reference: reference@ },
            }),
    {
        InfraError {
            obj_id: detector.obj_id.clone(),
            obj_type: ObjectType::Detector,
            field: field.to_owned(),
            sub_type: InfraErrorType::InvalidReference { reference },
        }
    }

    /// An error on `detector`: its field `field` holds `position`, outside the
    /// inclusive range `expected_range`.
    pub fn new_out_of_range(
        detector: &DetectorCache,
        field: &str,
        position: i64,
        expected_range: [i64; 2],
    ) -> (r: InfraError)
        ensures
            r@ == (InfraErrorView {
                obj_id: detector.obj_id@,
                obj_type: ObjectType::Detector,
                field: field@,
                sub_type: InfraErrorTypeView::OutOfRange {
                    position: position as int,
                    low: expected_range[0] as int,
                    high: expected_range[1] as int,
                },
            }),
    {
        InfraError {
            obj_id: detector.obj_id.clone(),
            obj_type: ObjectType::Detector,
            field: field.to_owned(),
            sub_type: InfraErrorType::OutOfRange { position, expected_range },
        }
    }
}

} // verus!
