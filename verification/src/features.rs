//! The tagged feature-collection value model.
//!
//! A feature collection bundles geometries, validity times and typed
//! attribute columns in columnar form.  The union is closed over four
//! geometry kinds; the multi-point kind is carried in full, the line and
//! polygon kinds expose their planned buffer shape but are not yet
//! dispatched (using one fails with `UnsupportedGeometry`).
//!
//! Output collections are built through `FeatureCollectionBatchBuilder`,
//! which receives device-read buffers and finishes into a collection.

use vstd::prelude::*;
use vstd::string::*;

use crate::error::Error;
use crate::geo_transform::Coordinate2D;
use crate::raster::TimeInterval;

verus! {

/// The closed set of geometry kinds.
#[derive(Debug, Clone, Copy, PartialEq, Eq, Structural)]
pub enum VectorDataType {
    Data,
    MultiPoint,
    MultiLineString,
    MultiPolygon,
}

/// The closed set of attribute column types.
#[derive(Debug, Clone, Copy, PartialEq, Eq, Structural)]
pub enum FeatureDataType {
    Text,
    Number,
    Decimal,
    Categorical,
}

/// A named, typed attribute column of a collection's schema.
#[derive(Debug, Clone, PartialEq, Eq)]
pub struct ColumnSpec {
    pub name: String,
    pub data_type: FeatureDataType,
}

/// The type of the first column called `name`, if any.
pub open spec fn column_type_of(columns: Seq<ColumnSpec>, name: Seq<char>) -> Option<
    FeatureDataType,
>
    decreases columns.len(),
{
    if columns.len() == 0 {
        Option::None
    } else if columns[0].name@ == name {
        Option::Some(columns[0].data_type)
    } else {
        column_type_of(columns.drop_first(), name)
    }
}

/// Looks a column up by name in a schema.
pub fn column_type_in(columns: &Vec<ColumnSpec>, name: &str) -> (r: Option<FeatureDataType>)
    ensures
        r == column_type_of(columns@, name@),
{
    let key: String = name.to_owned();
    let mut i: usize = 0;
    proof {
        assert(columns@.skip(0) =~= columns@);
    }
    while i < columns.len()
        invariant
            0 <= i <= columns@.len(),
            key@ == name@,
            column_type_of(columns@, name@) == column_type_of(columns@.skip(i as int), name@),
        decreases columns@.len() - i,
    {
        proof {
            assert(columns@.skip(i as int)[0] == columns@[i as int]);
            assert(columns@.skip(i as int).drop_first() =~= columns@.skip(i as int + 1));
        }
        if columns[i].name.eq(&key) {
            return Option::Some(columns[i].data_type);
        }
        i = i + 1;
    }
    proof {
        assert(columns@.skip(i as int) =~= Seq::<ColumnSpec>::empty());
    }
    Option::None
}

/// A columnar multi-point collection: a flat coordinate list partitioned
/// into features by an offset list.
#[derive(Debug, Clone, PartialEq, Eq)]
pub struct MultiPointCollection {
    pub coordinates: Vec<Coordinate2D>,
    pub multipoint_offsets: Vec<i32>,
    pub time_intervals: Vec<TimeInterval>,
    pub columns: Vec<ColumnSpec>,
}

impl MultiPointCollection {
    /// Well-formedness: the offsets partition the coordinates, one
    /// interval per feature.
    pub open spec fn is_valid(self) -> bool {
        &&& self.multipoint_offsets@.len() == self.time_intervals@.len() + 1
        &&& self.coordinates@.len() <= i32::MAX
        &&& self.multipoint_offsets@[0] == 0
        &&& self.multipoint_offsets@.last() == self.coordinates@.len()
        &&& forall|i: int|
            0 <= i < self.multipoint_offsets@.len() - 1 ==> #[trigger] self.multipoint_offsets@[i]
                <= self.multipoint_offsets@[i + 1]
    }

    /// Builds a collection from its columnar parts, which must partition
    /// the coordinates.
    pub fn from_data(
        coordinates: Vec<Coordinate2D>,
        multipoint_offsets: Vec<i32>,
        time_intervals: Vec<TimeInterval>,
        columns: Vec<ColumnSpec>,
    ) -> (r: Self)
        requires
            multipoint_offsets@.len() == time_intervals@.len() + 1,
            coordinates@.len() <= i32::MAX,
            multipoint_offsets@[0] == 0,
            multipoint_offsets@.last() == coordinates@.len(),
            forall|i: int|
                0 <= i < multipoint_offsets@.len() - 1 ==> #[trigger] multipoint_offsets@[i]
                    <= multipoint_offsets@[i + 1],
        ensures
            r.coordinates == coordinates,
            r.multipoint_offsets == multipoint_offsets,
            r.time_intervals == time_intervals,
            r.columns == columns,
            r.is_valid(),
    {
        MultiPointCollection { coordinates, multipoint_offsets, time_intervals, columns }
    }

    /// The number of features, one validity interval each.
    pub fn num_features(&self) -> (r: usize)
        ensures
            r == self.time_intervals@.len(),
    {
        self.time_intervals.len()
    }

    /// The number of coordinates over all features.
    pub fn num_coords(&self) -> (r: usize)
        ensures
            r == self.coordinates@.len(),
    {
        self.coordinates.len()
    }

    /// The type of the column called `name`, if the schema has one.
    pub fn column_type(&self, name: &str) -> (r: Option<FeatureDataType>)
        ensures
            r == column_type_of(self.columns@, name@),
    {
        column_type_in(&self.columns, name)
    }
}

/// An attribute-only collection: no geometry.
#[derive(Debug, Clone, PartialEq, Eq)]
pub struct DataCollection {
    pub time_intervals: Vec<TimeInterval>,
    pub columns: Vec<ColumnSpec>,
}

impl DataCollection {
    /// The type of the column called `name`, if the schema has one.
    pub fn column_type(&self, name: &str) -> (r: Option<FeatureDataType>)
        ensures
            r == column_type_of(self.columns@, name@),
    {
        column_type_in(&self.columns, name)
    }
}

/// The planned columnar shape of a multi-line-string collection: flat
/// coordinates with per-line and per-feature offsets.  Declared but not
/// yet dispatched.
#[derive(Debug, Clone, PartialEq, Eq)]
pub struct MultiLineStringCollection {
    pub coordinates: Vec<Coordinate2D>,
    pub line_offsets: Vec<i32>,
    pub feature_offsets: Vec<i32>,
    pub time_intervals: Vec<TimeInterval>,
    pub columns: Vec<ColumnSpec>,
}

impl MultiLineStringCollection {
    /// The type of the column called `name`, if the schema has one.
    pub fn column_type(&self, name: &str) -> (r: Option<FeatureDataType>)
        ensures
            r == column_type_of(self.columns@, name@),
    {
        column_type_in(&self.columns, name)
    }
}

/// The planned columnar shape of a multi-polygon collection: flat
/// coordinates with per-ring, per-polygon and per-feature offsets.
/// Declared but not yet dispatched.
#[derive(Debug, Clone, PartialEq, Eq)]
pub struct MultiPolygonCollection {
    pub coordinates: Vec<Coordinate2D>,
    pub ring_offsets: Vec<i32>,
    pub polygon_offsets: Vec<i32>,
    pub feature_offsets: Vec<i32>,
    pub time_intervals: Vec<TimeInterval>,
    pub columns: Vec<ColumnSpec>,
}

impl MultiPolygonCollection {
    /// The type of the column called `name`, if the schema has one.
    pub fn column_type(&self, name: &str) -> (r: Option<FeatureDataType>)
        ensures
            r == column_type_of(self.columns@, name@),
    {
        column_type_in(&self.columns, name)
    }
}

/// The tagged union over the geometry kinds.
#[derive(Debug, Clone, PartialEq, Eq)]
pub enum TypedFeatureCollection {
    Data(DataCollection),
    MultiPoint(MultiPointCollection),
    MultiLineString(MultiLineStringCollection),
    MultiPolygon(MultiPolygonCollection),
}

impl TypedFeatureCollection {
    /// The geometry tag of a collection.
    pub open spec fn vector_data_type_spec(self) -> VectorDataType {
        match self {
            TypedFeatureCollection::Data(_) => VectorDataType::Data,
            TypedFeatureCollection::MultiPoint(_) => VectorDataType::MultiPoint,
            TypedFeatureCollection::MultiLineString(_) => VectorDataType::MultiLineString,
            TypedFeatureCollection::MultiPolygon(_) => VectorDataType::MultiPolygon,
        }
    }

    /// Executable form of `vector_data_type_spec`.
    pub fn vector_data_type(&self) -> (r: VectorDataType)
        ensures
            r == self.vector_data_type_spec(),
    {
        match self {
            TypedFeatureCollection::Data(_) => VectorDataType::Data,
            TypedFeatureCollection::MultiPoint(_) => VectorDataType::MultiPoint,
            TypedFeatureCollection::MultiLineString(_) => VectorDataType::MultiLineString,
            TypedFeatureCollection::MultiPolygon(_) => VectorDataType::MultiPolygon,
        }
    }

    /// The schema of the collection, whatever its geometry kind.
    pub open spec fn columns_spec(self) -> Seq<ColumnSpec> {
        match self {
            TypedFeatureCollection::Data(c) => c.columns@,
            TypedFeatureCollection::MultiPoint(c) => c.columns@,
            TypedFeatureCollection::MultiLineString(c) => c.columns@,
            TypedFeatureCollection::MultiPolygon(c) => c.columns@,
        }
    }

    /// The type of the column called `name`, if the schema has one.
    pub fn column_type(&self, name: &str) -> (r: Option<FeatureDataType>)
        ensures
            r == column_type_of(self.columns_spec(), name@),
    {
        match self {
            TypedFeatureCollection::Data(c) => c.column_type(name),
            TypedFeatureCollection::MultiPoint(c) => c.column_type(name),
            TypedFeatureCollection::MultiLineString(c) => c.column_type(name),
            TypedFeatureCollection::MultiPolygon(c) => c.column_type(name),
        }
    }

    /// The number of features, one validity interval each.
    pub fn num_features(&self) -> (r: usize)
        ensures
            r == match self {
                TypedFeatureCollection::Data(c) => c.time_intervals@.len(),
                TypedFeatureCollection::MultiPoint(c) => c.time_intervals@.len(),
                TypedFeatureCollection::MultiLineString(c) => c.time_intervals@.len(),
                TypedFeatureCollection::MultiPolygon(c) => c.time_intervals@.len(),
            },
    {
        match self {
            TypedFeatureCollection::Data(c) => c.time_intervals.len(),
            TypedFeatureCollection::MultiPoint(c) => c.time_intervals.len(),
            TypedFeatureCollection::MultiLineString(c) => c.time_intervals.len(),
            TypedFeatureCollection::MultiPolygon(c) => c.time_intervals.len(),
        }
    }

    /// The number of coordinates over all features; an attribute-only
    /// collection has none.
    pub fn num_coords(&self) -> (r: usize)
        ensures
            r == match self {
                TypedFeatureCollection::Data(_) => 0int,
                TypedFeatureCollection::MultiPoint(c) => c.coordinates@.len() as int,
                TypedFeatureCollection::MultiLineString(c) => c.coordinates@.len() as int,
                TypedFeatureCollection::MultiPolygon(c) => c.coordinates@.len() as int,
            },
    {
        match self {
            TypedFeatureCollection::Data(_) => 0,
            TypedFeatureCollection::MultiPoint(c) => c.coordinates.len(),
            TypedFeatureCollection::MultiLineString(c) => c.coordinates.len(),
            TypedFeatureCollection::MultiPolygon(c) => c.coordinates.len(),
        }
    }

    /// Borrows the multi-point collection when that is the kind.
    pub fn get_points(&self) -> (r: Option<&MultiPointCollection>)
        ensures
            match r {
                Option::Some(c) => self matches TypedFeatureCollection::MultiPoint(d) && *c == d,
                Option::None => !(self matches TypedFeatureCollection::MultiPoint(_)),
            },
    {
        match self {
            TypedFeatureCollection::MultiPoint(c) => Option::Some(c),
            _ => Option::None,
        }
    }
}

/// Builds one output collection per run from device-read buffers.
#[derive(Debug, Clone, PartialEq, Eq)]
pub struct FeatureCollectionBatchBuilder {
    pub output_type: VectorDataType,
    pub num_features: usize,
    pub num_coords: usize,
    pub points: Option<(Vec<Coordinate2D>, Vec<i32>)>,
    pub time_intervals: Option<Vec<TimeInterval>>,
    pub output: Option<TypedFeatureCollection>,
}

impl FeatureCollectionBatchBuilder {
    /// A fresh builder: geometry kind and counts fixed, nothing received
    /// yet.
    pub fn new(output_type: VectorDataType, num_features: usize, num_coords: usize) -> (r: Self)
        ensures
            r.output_type == output_type,
            r.num_features == num_features,
            r.num_coords == num_coords,
            r.points is None,
            r.time_intervals is None,
            r.output is None,
    {
        FeatureCollectionBatchBuilder {
            output_type,
            num_features,
            num_coords,
            points: Option::None,
            time_intervals: Option::None,
            output: Option::None,
        }
    }

    /// The number of features the output will hold.
    pub fn num_features(&self) -> (r: usize)
        ensures
            r == self.num_features,
    {
        self.num_features
    }

    /// The number of coordinates the output will hold.
    pub fn num_coords(&self) -> (r: usize)
        ensures
            r == self.num_coords,
    {
        self.num_coords
    }

    /// Receives the device-read point buffers.
    pub fn set_points(&mut self, coordinates: Vec<Coordinate2D>, offsets: Vec<i32>)
        ensures
            final(self).points == Option::Some((coordinates, offsets)),
            final(self).output_type == old(self).output_type,
            final(self).num_features == old(self).num_features,
            final(self).num_coords == old(self).num_coords,
            final(self).time_intervals == old(self).time_intervals,
            final(self).output == old(self).output,
    {
        self.points = Option::Some((coordinates, offsets));
    }

    /// Gives every feature the unbounded validity interval.
    pub fn set_default_time_intervals(&mut self)
        ensures
            final(self).time_intervals matches Option::Some(t) && t@.len() == old(
                self,
            ).num_features && forall|i: int|
                0 <= i < t@.len() ==> t@[i] == (TimeInterval {
                    start: i64::MIN,
                    end: i64::MAX,
                }),
            final(self).output_type == old(self).output_type,
            final(self).num_features == old(self).num_features,
            final(self).num_coords == old(self).num_coords,
            final(self).points == old(self).points,
            final(self).output == old(self).output,
    {
        let n = self.num_features;
        let mut t: Vec<TimeInterval> = Vec::new();
        let mut i: usize = 0;
        while i < n
            invariant
                0 <= i <= n,
                t@.len() == i,
                forall|j: int|
                    0 <= j < i ==> t@[j] == (TimeInterval { start: i64::MIN, end: i64::MAX }),
            decreases n - i,
        {
            t.push(TimeInterval::default());
            i = i + 1;
        }
        self.time_intervals = Option::Some(t);
    }

    /// Finishes the output collection from what was received.  The
    /// points and times must have been set for the multi-point kind and
    /// the times for the attribute-only kind; line and polygon kinds are
    /// not yet dispatched and fail.  The finished collection carries no
    /// attribute columns: column readback is future work.
    pub fn finish(&mut self) -> (r: Result<(), Error>)
        requires
            old(self).output_type == VectorDataType::MultiPoint ==> old(self).points is Some && old(
                self,
            ).time_intervals is Some,
            old(self).output_type == VectorDataType::Data ==> old(self).time_intervals is Some,
        ensures
            final(self).output_type == old(self).output_type,
            final(self).num_features == old(self).num_features,
            final(self).num_coords == old(self).num_coords,
            final(self).points == old(self).points,
            final(self).time_intervals == old(self).time_intervals,
            old(self).output_type == VectorDataType::MultiPoint ==> r is Ok && (final(self).output
                matches Option::Some(TypedFeatureCollection::MultiPoint(mc)) && old(self).points
                matches Option::Some(p) && old(self).time_intervals matches Option::Some(t)
                && mc.coordinates@ == p.0@ && mc.multipoint_offsets@ == p.1@ && mc.time_intervals@
                == t@ && mc.columns@.len() == 0),
            old(self).output_type == VectorDataType::Data ==> r is Ok && (final(self).output
                matches Option::Some(TypedFeatureCollection::Data(dc)) && old(self).time_intervals
                matches Option::Some(t) && dc.time_intervals@ == t@ && dc.columns@.len() == 0),
            old(self).output_type == VectorDataType::MultiLineString || old(self).output_type
                == VectorDataType::MultiPolygon ==> r == Result::<(), Error>::Err(
                Error::UnsupportedGeometry,
            ) && final(self).output == old(self).output,
    {
        match self.output_type {
            VectorDataType::MultiPoint => {
                let (coordinates, offsets) = match &self.points {
                    Option::Some(p) => (p.0.clone(), p.1.clone()),
                    Option::None => {
                        proof {
                            assert(false);
                        }
                        (Vec::new(), Vec::new())
                    },
                };
                let time_intervals = match &self.time_intervals {
                    Option::Some(t) => t.clone(),
                    Option::None => {
                        proof {
                            assert(false);
                        }
                        Vec::new()
                    },
                };
                self.output = Option::Some(
                    TypedFeatureCollection::MultiPoint(
                        MultiPointCollection {
                            coordinates,
                            multipoint_offsets: offsets,
                            time_intervals,
                            columns: Vec::new(),
                        },
                    ),
                );
                Result::Ok(())
            },
            VectorDataType::Data => {
                let time_intervals = match &self.time_intervals {
                    Option::Some(t) => t.clone(),
                    Option::None => {
                        proof {
                            assert(false);
                        }
                        Vec::new()
                    },
                };
                self.output = Option::Some(
                    TypedFeatureCollection::Data(
                        DataCollection { time_intervals, columns: Vec::new() },
                    ),
                );
                Result::Ok(())
            },
            VectorDataType::MultiLineString => Result::Err(Error::UnsupportedGeometry),
            VectorDataType::MultiPolygon => Result::Err(Error::UnsupportedGeometry),
        }
    }
}

} // verus!
