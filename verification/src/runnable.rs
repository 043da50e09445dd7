//! Per-invocation binding and transfer planning.
//!
//! A `CLProgramRunnable` is minted fresh from a compiled program, binds
//! concrete inputs and outputs against the declared argument schema, and
//! plans the transfers of one launch: which host values are uploaded
//! under which kernel argument name, which device buffers are allocated,
//! and how device-read buffers are written back into the host outputs.
//! The device work itself — allocating, enqueueing, reading — is carried
//! out by the host around this crate, command by command; everything
//! decided here is verified.
//!
//! A runnable is single-use: construct, bind, plan, read back, discard.

use vstd::prelude::*;

use crate::cl_program::{RasterArgument, VectorArgument, vector_arg_models};
use crate::decimal::{decimal_seq, indexed_name};
use crate::error::Error;
use crate::features::{
    FeatureCollectionBatchBuilder,
    TypedFeatureCollection,
    VectorDataType,
    column_type_of,
};
use crate::geo_transform::Coordinate2D;
use crate::raster::{Raster2D, RasterDataType, TypedRaster2D};
use crate::raster_info::{RasterInfo, raster_info_spec};

verus! {

/// The kernel argument name of input raster data at an index.
pub open spec fn in_data_name(i: int) -> Seq<char> {
    "IN"@ + decimal_seq(i as nat)
}

/// The kernel argument name of input raster metadata at an index.
pub open spec fn in_info_name(i: int) -> Seq<char> {
    "IN_INFO"@ + decimal_seq(i as nat)
}

/// The kernel argument name of output raster data at an index.
pub open spec fn out_data_name(i: int) -> Seq<char> {
    "OUT"@ + decimal_seq(i as nat)
}

/// The kernel argument name of output raster metadata at an index.
pub open spec fn out_info_name(i: int) -> Seq<char> {
    "OUT_INFO"@ + decimal_seq(i as nat)
}

/// The kernel argument name of input point coordinates at an index.
pub open spec fn in_point_coords_name(i: int) -> Seq<char> {
    "IN_POINT_COORDS"@ + decimal_seq(i as nat)
}

/// The kernel argument name of input point offsets at an index.
pub open spec fn in_point_offsets_name(i: int) -> Seq<char> {
    "IN_POINT_OFFSETS"@ + decimal_seq(i as nat)
}

/// The kernel argument name of output point coordinates at an index.
pub open spec fn out_point_coords_name(i: int) -> Seq<char> {
    "OUT_POINT_COORDS"@ + decimal_seq(i as nat)
}

/// The kernel argument name of output point offsets at an index.
pub open spec fn out_point_offsets_name(i: int) -> Seq<char> {
    "OUT_POINT_OFFSETS"@ + decimal_seq(i as nat)
}

/// One device action of the run protocol, to be carried out in list
/// order by the host: an upload binds a host value to a named kernel
/// argument, an allocation creates a writable device buffer for it.
/// Uploads refer to the bound inputs of the runnable by index.
#[derive(Debug, Clone, PartialEq, Eq)]
pub enum DeviceCommand {
    /// Upload the data of bound input raster `input_index`, read-only.
    UploadRasterData { name: String, input_index: usize },
    /// Upload a one-element metadata record buffer, read-only.
    UploadRasterInfo { name: String, info: RasterInfo },
    /// Allocate a writable device buffer of `len` elements of the type.
    AllocRasterData { name: String, data_type: RasterDataType, len: usize },
    /// Upload the flat coordinates of bound input features `input_index`.
    UploadPointCoords { name: String, input_index: usize },
    /// Upload the feature offsets of bound input features `input_index`.
    UploadPointOffsets { name: String, input_index: usize },
    /// Allocate a writable coordinate buffer of `len` pairs.
    AllocPointCoords { name: String, len: usize },
    /// Allocate a writable offset buffer of `len` entries.
    AllocPointOffsets { name: String, len: usize },
}

/// The mathematical model of a `DeviceCommand`: the name as a character
/// sequence, the rest as is.
pub enum DeviceCommandModel {
    UploadRasterData { name: Seq<char>, input_index: int },
    UploadRasterInfo { name: Seq<char>, info: RasterInfo },
    AllocRasterData { name: Seq<char>, data_type: RasterDataType, len: int },
    UploadPointCoords { name: Seq<char>, input_index: int },
    UploadPointOffsets { name: Seq<char>, input_index: int },
    AllocPointCoords { name: Seq<char>, len: int },
    AllocPointOffsets { name: Seq<char>, len: int },
}

impl View for DeviceCommand {
    type V = DeviceCommandModel;

    open spec fn view(&self) -> DeviceCommandModel {
        match self {
            DeviceCommand::UploadRasterData { name, input_index } => {
                DeviceCommandModel::UploadRasterData {
                    name: name@,
                    input_index: *input_index as int,
                }
            },
            DeviceCommand::UploadRasterInfo { name, info } => {
                DeviceCommandModel::UploadRasterInfo { name: name@, info: *info }
            },
            DeviceCommand::AllocRasterData { name, data_type, len } => {
                DeviceCommandModel::AllocRasterData {
                    name: name@,
                    data_type: *data_type,
                    len: *len as int,
                }
            },
            DeviceCommand::UploadPointCoords { name, input_index } => {
                DeviceCommandModel::UploadPointCoords {
                    name: name@,
                    input_index: *input_index as int,
                }
            },
            DeviceCommand::UploadPointOffsets { name, input_index } => {
                DeviceCommandModel::UploadPointOffsets {
                    name: name@,
                    input_index: *input_index as int,
                }
            },
            DeviceCommand::AllocPointCoords { name, len } => {
                DeviceCommandModel::AllocPointCoords { name: name@, len: *len as int }
            },
            DeviceCommand::AllocPointOffsets { name, len } => {
                DeviceCommandModel::AllocPointOffsets { name: name@, len: *len as int }
            },
        }
    }
}

/// The models of a command list, in order.
pub open spec fn command_models(cmds: Seq<DeviceCommand>) -> Seq<DeviceCommandModel> {
    cmds.map_values(|c: DeviceCommand| c@)
}

/// The readback plan of one output raster: element type and length of
/// the device buffer that the launch fills.
#[derive(Debug, Clone, Copy, PartialEq, Eq, Structural)]
pub struct RasterBufferPlan {
    pub data_type: RasterDataType,
    pub len: usize,
}

/// The readback plan of one output feature collection.
#[derive(Debug, Clone, Copy, PartialEq, Eq, Structural)]
pub enum FeatureBufferPlan {
    /// A multi-point output: a coordinate buffer and an offset buffer.
    Points { coords_len: usize, offsets_len: usize },
    /// An attribute-only output: no geometry buffers.
    NoGeo,
}

/// A device-read raster buffer, tagged like the element types.  The two
/// floating kinds carry bit patterns.
#[derive(Debug, Clone, PartialEq, Eq)]
pub enum RasterOutputBuffer {
    U8(Vec<u8>),
    U16(Vec<u16>),
    U32(Vec<u32>),
    U64(Vec<u64>),
    I8(Vec<i8>),
    I16(Vec<i16>),
    I32(Vec<i32>),
    I64(Vec<i64>),
    F32(Vec<u32>),
    F64(Vec<u64>),
}

impl RasterOutputBuffer {
    /// The element tag of the buffer.
    pub open spec fn data_type_spec(self) -> RasterDataType {
        match self {
            RasterOutputBuffer::U8(_) => RasterDataType::U8,
            RasterOutputBuffer::U16(_) => RasterDataType::U16,
            RasterOutputBuffer::U32(_) => RasterDataType::U32,
            RasterOutputBuffer::U64(_) => RasterDataType::U64,
            RasterOutputBuffer::I8(_) => RasterDataType::I8,
            RasterOutputBuffer::I16(_) => RasterDataType::I16,
            RasterOutputBuffer::I32(_) => RasterDataType::I32,
            RasterOutputBuffer::I64(_) => RasterDataType::I64,
            RasterOutputBuffer::F32(_) => RasterDataType::F32,
            RasterOutputBuffer::F64(_) => RasterDataType::F64,
        }
    }
}

/// The device-read point buffers of one multi-point feature output.
#[derive(Debug, Clone, PartialEq, Eq)]
pub struct PointBuffers {
    pub coords: Vec<Coordinate2D>,
    pub offsets: Vec<i32>,
}

/// What the host read back for one feature output.
#[derive(Debug, Clone, PartialEq, Eq)]
pub enum FeatureReadback {
    Points(PointBuffers),
    NoGeo,
}

/// Per-invocation binding of concrete inputs and outputs to a compiled
/// program's argument schema, and the transfer plans of its launch.
#[derive(Debug, Clone, PartialEq, Eq)]
pub struct CLProgramRunnable {
    pub input_raster_types: Vec<RasterArgument>,
    pub output_raster_types: Vec<RasterArgument>,
    pub input_rasters: Vec<Option<TypedRaster2D>>,
    pub output_rasters: Vec<Option<TypedRaster2D>>,
    pub input_feature_types: Vec<VectorArgument>,
    pub output_feature_types: Vec<VectorArgument>,
    pub input_features: Vec<Option<TypedFeatureCollection>>,
    pub output_features: Vec<Option<FeatureCollectionBatchBuilder>>,
    pub raster_output_buffers: Vec<RasterBufferPlan>,
    pub feature_output_buffers: Vec<FeatureBufferPlan>,
}

impl CLProgramRunnable {
    /// The descriptor lists are never touched after construction.
    pub open spec fn same_types(self, other: Self) -> bool {
        &&& self.input_raster_types@ == other.input_raster_types@
        &&& self.output_raster_types@ == other.output_raster_types@
        &&& vector_arg_models(self.input_feature_types@) == vector_arg_models(
            other.input_feature_types@,
        )
        &&& vector_arg_models(self.output_feature_types@) == vector_arg_models(
            other.output_feature_types@,
        )
    }

    /// Each binding list has one slot per declared descriptor.
    pub open spec fn is_consistent(self) -> bool {
        &&& self.input_rasters@.len() == self.input_raster_types@.len()
        &&& self.output_rasters@.len() == self.output_raster_types@.len()
        &&& self.input_features@.len() == self.input_feature_types@.len()
        &&& self.output_features@.len() == self.output_feature_types@.len()
    }

    /// A fresh runnable: every slot of every binding list unbound, no
    /// plans.
    pub open spec fn is_fresh(self) -> bool {
        &&& self.input_rasters@.len() == self.input_raster_types@.len()
        &&& self.output_rasters@.len() == self.output_raster_types@.len()
        &&& self.input_features@.len() == self.input_feature_types@.len()
        &&& self.output_features@.len() == self.output_feature_types@.len()
        &&& forall|i: int| 0 <= i < self.input_rasters@.len() ==> self.input_rasters@[i] is None
        &&& forall|i: int| 0 <= i < self.output_rasters@.len() ==> self.output_rasters@[i] is None
        &&& forall|i: int| 0 <= i < self.input_features@.len() ==> self.input_features@[i] is None
        &&& forall|i: int|
            0 <= i < self.output_features@.len() ==> self.output_features@[i] is None
        &&& self.raster_output_buffers@.len() == 0
        &&& self.feature_output_buffers@.len() == 0
    }

    /// Builds a fresh runnable for the given argument schema.
    pub fn new(
        input_raster_types: Vec<RasterArgument>,
        output_raster_types: Vec<RasterArgument>,
        input_feature_types: Vec<VectorArgument>,
        output_feature_types: Vec<VectorArgument>,
    ) -> (r: Self)
        ensures
            r.input_raster_types@ == input_raster_types@,
            r.output_raster_types@ == output_raster_types@,
            r.input_feature_types@ == input_feature_types@,
            r.output_feature_types@ == output_feature_types@,
            r.is_fresh(),
    {
        let input_rasters = none_slots::<TypedRaster2D>(input_raster_types.len());
        let output_rasters = none_slots::<TypedRaster2D>(output_raster_types.len());
        let input_features = none_slots::<TypedFeatureCollection>(input_feature_types.len());
        let output_features = none_slots::<FeatureCollectionBatchBuilder>(
            output_feature_types.len(),
        );
        CLProgramRunnable {
            input_raster_types,
            output_raster_types,
            input_rasters,
            output_rasters,
            input_feature_types,
            output_feature_types,
            input_features,
            output_features,
            raster_output_buffers: Vec::new(),
            feature_output_buffers: Vec::new(),
        }
    }

    /// Everything but the input raster bindings is unchanged.
    pub open spec fn only_input_rasters_changed(self, other: Self) -> bool {
        &&& self.same_types(other)
        &&& self.output_rasters@ == other.output_rasters@
        &&& self.input_features@ == other.input_features@
        &&& self.output_features@ == other.output_features@
        &&& self.raster_output_buffers@ == other.raster_output_buffers@
        &&& self.feature_output_buffers@ == other.feature_output_buffers@
    }

    /// Everything but the output raster bindings is unchanged.
    pub open spec fn only_output_rasters_changed(self, other: Self) -> bool {
        &&& self.same_types(other)
        &&& self.input_rasters@ == other.input_rasters@
        &&& self.input_features@ == other.input_features@
        &&& self.output_features@ == other.output_features@
        &&& self.raster_output_buffers@ == other.raster_output_buffers@
        &&& self.feature_output_buffers@ == other.feature_output_buffers@
    }

    /// Everything but the input feature bindings is unchanged.
    pub open spec fn only_input_features_changed(self, other: Self) -> bool {
        &&& self.same_types(other)
        &&& self.input_rasters@ == other.input_rasters@
        &&& self.output_rasters@ == other.output_rasters@
        &&& self.output_features@ == other.output_features@
        &&& self.raster_output_buffers@ == other.raster_output_buffers@
        &&& self.feature_output_buffers@ == other.feature_output_buffers@
    }

    /// Everything but the output feature bindings is unchanged.
    pub open spec fn only_output_features_changed(self, other: Self) -> bool {
        &&& self.same_types(other)
        &&& self.input_rasters@ == other.input_rasters@
        &&& self.output_rasters@ == other.output_rasters@
        &&& self.input_features@ == other.input_features@
        &&& self.raster_output_buffers@ == other.raster_output_buffers@
        &&& self.feature_output_buffers@ == other.feature_output_buffers@
    }

    /// Binds an input raster tile to a declared slot.  Fails with
    /// `InvalidRasterIndex` outside the declared range and with
    /// `InvalidRasterDataType` when the element tag differs from the
    /// declared descriptor; on success only that slot changes.
    pub fn set_input_raster(&mut self, idx: usize, raster: TypedRaster2D) -> (r: Result<(), Error>)
        requires
            old(self).is_consistent(),
        ensures
            final(self).is_consistent(),
            old(self).only_input_rasters_changed(*final(self)),
            idx >= old(self).input_raster_types@.len() ==> r == Result::<(), Error>::Err(
                Error::InvalidRasterIndex,
            ) && final(self).input_rasters@ == old(self).input_rasters@,
            idx < old(self).input_raster_types@.len() && raster.raster_data_type_spec() != old(
                self,
            ).input_raster_types@[idx as int].data_type ==> r == Result::<(), Error>::Err(
                Error::InvalidRasterDataType,
            ) && final(self).input_rasters@ == old(self).input_rasters@,
            idx < old(self).input_raster_types@.len() && raster.raster_data_type_spec() == old(
                self,
            ).input_raster_types@[idx as int].data_type ==> r is Ok && final(self).input_rasters@
                == old(self).input_rasters@.update(idx as int, Option::Some(raster)),
    {
        if idx >= self.input_raster_types.len() {
            return Result::Err(Error::InvalidRasterIndex);
        }
        if !raster_data_type_eq(raster.raster_data_type(), self.input_raster_types[idx].data_type) {
            return Result::Err(Error::InvalidRasterDataType);
        }
        self.input_rasters.set(idx, Option::Some(raster));
        Result::Ok(())
    }

    /// Binds an output raster tile to a declared slot; the launch reads
    /// back into its data.  Same validation as for inputs, against the
    /// output descriptors.
    pub fn set_output_raster(&mut self, idx: usize, raster: TypedRaster2D) -> (r: Result<
        (),
        Error,
    >)
        requires
            old(self).is_consistent(),
        ensures
            final(self).is_consistent(),
            old(self).only_output_rasters_changed(*final(self)),
            idx >= old(self).output_raster_types@.len() ==> r == Result::<(), Error>::Err(
                Error::InvalidRasterIndex,
            ) && final(self).output_rasters@ == old(self).output_rasters@,
            idx < old(self).output_raster_types@.len() && raster.raster_data_type_spec() != old(
                self,
            ).output_raster_types@[idx as int].data_type ==> r == Result::<(), Error>::Err(
                Error::InvalidRasterDataType,
            ) && final(self).output_rasters@ == old(self).output_rasters@,
            idx < old(self).output_raster_types@.len() && raster.raster_data_type_spec() == old(
                self,
            ).output_raster_types@[idx as int].data_type ==> r is Ok && final(self).output_rasters@
                == old(self).output_rasters@.update(idx as int, Option::Some(raster)),
    {
        if idx >= self.output_raster_types.len() {
            return Result::Err(Error::InvalidRasterIndex);
        }
        if !raster_data_type_eq(raster.raster_data_type(), self.output_raster_types[idx].data_type)
        {
            return Result::Err(Error::InvalidRasterDataType);
        }
        self.output_rasters.set(idx, Option::Some(raster));
        Result::Ok(())
    }

    /// Binds an input feature collection to a declared slot.  Fails with
    /// `InvalidFeaturesIndex` outside the declared range, with
    /// `InvalidVectorDataType` when the geometry tag differs from the
    /// declared descriptor, and with the first schema disagreement —
    /// `MissingColumn` or `ColumnTypeMismatch` — among the declared
    /// columns; on success only that slot changes.
    pub fn set_input_features(&mut self, idx: usize, features: TypedFeatureCollection) -> (r:
        Result<(), Error>)
        requires
            old(self).is_consistent(),
        ensures
            final(self).is_consistent(),
            old(self).only_input_features_changed(*final(self)),
            idx >= old(self).input_feature_types@.len() ==> r == Result::<(), Error>::Err(
                Error::InvalidFeaturesIndex,
            ) && final(self).input_features@ == old(self).input_features@,
            idx < old(self).input_feature_types@.len()
                && features.vector_data_type_spec() != old(self).input_feature_types@[
                idx as int
            ]@.vector_type ==> r == Result::<(), Error>::Err(Error::InvalidVectorDataType)
                && final(self).input_features@ == old(self).input_features@,
            idx < old(self).input_feature_types@.len()
                && features.vector_data_type_spec() == old(self).input_feature_types@[
                idx as int
            ]@.vector_type ==> match schema_error(
                old(self).input_feature_types@[idx as int]@,
                features.columns_spec(),
                0,
            ) {
                Option::Some(e) => r == Result::<(), Error>::Err(e) && final(self).input_features@
                    == old(self).input_features@,
                Option::None => r is Ok && final(self).input_features@ == old(
                    self,
                ).input_features@.update(idx as int, Option::Some(features)),
            },
    {
        if idx >= self.input_feature_types.len() {
            return Result::Err(Error::InvalidFeaturesIndex);
        }
        if !vector_data_type_eq(
            features.vector_data_type(),
            self.input_feature_types[idx].vector_type,
        ) {
            return Result::Err(Error::InvalidVectorDataType);
        }
        let n = if self.input_feature_types[idx].columns.len()
            <= self.input_feature_types[idx].column_types.len() {
            self.input_feature_types[idx].columns.len()
        } else {
            self.input_feature_types[idx].column_types.len()
        };
        let ghost model = self.input_feature_types@[idx as int]@;
        let ghost cols = features.columns_spec();
        let mut i: usize = 0;
        while i < n
            invariant
                *self == *old(self),
                old(self).is_consistent(),
                0 <= i <= n,
                idx < self.input_feature_types@.len(),
                model == self.input_feature_types@[idx as int]@,
                n == min_len(model),
                cols == features.columns_spec(),
                features.vector_data_type_spec() == model.vector_type,
                schema_error(model, cols, 0) == schema_error(model, cols, i as int),
            decreases n - i,
        {
            proof {
                assert(model.columns.len() == self.input_feature_types@[
                    idx as int
                ].columns@.len());
                assert(model.columns[i as int] == self.input_feature_types@[
                    idx as int
                ].columns@.map_values(|s: String| s@)[i as int]);
            }
            let declared_type = self.input_feature_types[idx].column_types[i];
            match features.column_type(self.input_feature_types[idx].columns[i].as_str()) {
                Option::None => {
                    return Result::Err(Error::MissingColumn);
                },
                Option::Some(t) => {
                    if !feature_data_type_eq(t, declared_type) {
                        return Result::Err(Error::ColumnTypeMismatch);
                    }
                },
            }
            i = i + 1;
        }
        self.input_features.set(idx, Option::Some(features));
        Result::Ok(())
    }

    /// Binds an output collection builder to a declared slot.  Only the
    /// index is validated: the output's columns and times are the
    /// builder's business.
    pub fn set_output_features(&mut self, idx: usize, features: FeatureCollectionBatchBuilder) -> (
        r: Result<(), Error>)
        requires
            old(self).is_consistent(),
        ensures
            final(self).is_consistent(),
            old(self).only_output_features_changed(*final(self)),
            idx >= old(self).output_feature_types@.len() ==> r == Result::<(), Error>::Err(
                Error::InvalidFeaturesIndex,
            ) && final(self).output_features@ == old(self).output_features@,
            idx < old(self).output_feature_types@.len() ==> r is Ok && final(self).output_features@
                == old(self).output_features@.update(idx as int, Option::Some(features)),
    {
        if idx >= self.output_feature_types.len() {
            return Result::Err(Error::InvalidFeaturesIndex);
        }
        self.output_features.set(idx, Option::Some(features));
        Result::Ok(())
    }

    /// Everything but the raster readback plans is unchanged.
    pub open spec fn only_raster_plans_changed(self, other: Self) -> bool {
        &&& self.same_types(other)
        &&& self.input_rasters@ == other.input_rasters@
        &&& self.output_rasters@ == other.output_rasters@
        &&& self.input_features@ == other.input_features@
        &&& self.output_features@ == other.output_features@
        &&& self.feature_output_buffers@ == other.feature_output_buffers@
    }

    /// Plans the raster transfers of a launch: checks that every
    /// declared raster slot is bound (else `UnspecifiedRaster`), returns
    /// the upload and allocation commands in calling-convention order,
    /// and records the readback plan of each output buffer.
    pub fn set_raster_arguments(&mut self) -> (r: Result<Vec<DeviceCommand>, Error>)
        requires
            old(self).is_consistent(),
        ensures
            final(self).is_consistent(),
            old(self).only_raster_plans_changed(*final(self)),
            !(all_bound(old(self).input_rasters@) && all_bound(old(self).output_rasters@)) ==> r
                == Result::<Vec<DeviceCommand>, Error>::Err(Error::UnspecifiedRaster)
                && *final(self) == *old(self),
            all_bound(old(self).input_rasters@) && all_bound(old(self).output_rasters@) ==> (r
                matches Ok(cmds) && command_models(cmds@) == input_raster_commands(
                old(self).input_rasters@,
                0,
            ) + output_raster_commands(old(self).output_rasters@, 0)
                && final(self).raster_output_buffers@ == old(self).raster_output_buffers@
                + output_buffer_plans(
                old(self).output_rasters@,
                0,
            )),
    {
        let mut i: usize = 0;
        while i < self.input_rasters.len()
            invariant
                *self == *old(self),
                old(self).is_consistent(),
                0 <= i <= self.input_rasters@.len(),
                forall|j: int| 0 <= j < i ==> self.input_rasters@[j] is Some,
            decreases self.input_rasters@.len() - i,
        {
            if self.input_rasters[i].is_none() {
                return Result::Err(Error::UnspecifiedRaster);
            }
            i = i + 1;
        }
        let mut i: usize = 0;
        while i < self.output_rasters.len()
            invariant
                *self == *old(self),
                old(self).is_consistent(),
                all_bound(self.input_rasters@),
                0 <= i <= self.output_rasters@.len(),
                forall|j: int| 0 <= j < i ==> self.output_rasters@[j] is Some,
            decreases self.output_rasters@.len() - i,
        {
            if self.output_rasters[i].is_none() {
                return Result::Err(Error::UnspecifiedRaster);
            }
            i = i + 1;
        }
        let ghost inputs = self.input_rasters@;
        let ghost outputs = self.output_rasters@;
        let mut cmds: Vec<DeviceCommand> = Vec::new();
        let mut idx: usize = 0;
        while idx < self.input_rasters.len()
            invariant
                *self == *old(self),
                old(self).is_consistent(),
                inputs == self.input_rasters@,
                outputs == self.output_rasters@,
                all_bound(inputs) && all_bound(outputs),
                0 <= idx <= inputs.len(),
                command_models(cmds@) + input_raster_commands(inputs, idx as int)
                    == input_raster_commands(inputs, 0),
            decreases inputs.len() - idx,
        {
            let ghost cmds0 = cmds@;
            let name = indexed_name("IN", idx);
            cmds.push(DeviceCommand::UploadRasterData { name, input_index: idx });
            let info_name = indexed_name("IN_INFO", idx);
            let info = match &self.input_rasters[idx] {
                Option::Some(rs) => RasterInfo::from_raster(rs),
                Option::None => {
                    proof {
                        assert(false);
                    }
                    return Result::Err(Error::UnspecifiedRaster);
                },
            };
            cmds.push(DeviceCommand::UploadRasterInfo { name: info_name, info });
            proof {
                reveal_strlit("IN");
                reveal_strlit("IN_INFO");
                let m1 = DeviceCommandModel::UploadRasterData {
                    name: in_data_name(idx as int),
                    input_index: idx as int,
                };
                let m2 = DeviceCommandModel::UploadRasterInfo {
                    name: in_info_name(idx as int),
                    info: raster_info_spec(opt_value(inputs[idx as int])),
                };
                assert(command_models(cmds@) =~= command_models(cmds0) + seq![m1, m2]);
                assert(input_raster_commands(inputs, idx as int) == seq![m1, m2]
                    + input_raster_commands(inputs, idx as int + 1));
                assert(command_models(cmds@) + input_raster_commands(inputs, idx as int + 1)
                    =~= command_models(cmds0) + input_raster_commands(inputs, idx as int));
            }
            idx = idx + 1;
        }
        proof {
            assert(command_models(cmds@) + input_raster_commands(inputs, inputs.len() as int)
                =~= command_models(cmds@));
        }
        let mut plans: Vec<RasterBufferPlan> = Vec::new();
        let mut idx: usize = 0;
        while idx < self.output_rasters.len()
            invariant
                *self == *old(self),
                old(self).is_consistent(),
                inputs == self.input_rasters@,
                outputs == self.output_rasters@,
                all_bound(inputs) && all_bound(outputs),
                0 <= idx <= outputs.len(),
                command_models(cmds@) + output_raster_commands(outputs, idx as int)
                    == input_raster_commands(inputs, 0) + output_raster_commands(outputs, 0),
                plans@ + output_buffer_plans(outputs, idx as int) == output_buffer_plans(
                    outputs,
                    0,
                ),
            decreases outputs.len() - idx,
        {
            let ghost cmds0 = cmds@;
            let (data_type, len) = match &self.output_rasters[idx] {
                Option::Some(rs) => (rs.raster_data_type(), rs.data_len()),
                Option::None => {
                    proof {
                        assert(false);
                    }
                    return Result::Err(Error::UnspecifiedRaster);
                },
            };
            let name = indexed_name("OUT", idx);
            cmds.push(DeviceCommand::AllocRasterData { name, data_type, len });
            let info_name = indexed_name("OUT_INFO", idx);
            let info = match &self.output_rasters[idx] {
                Option::Some(rs) => RasterInfo::from_raster(rs),
                Option::None => {
                    proof {
                        assert(false);
                    }
                    return Result::Err(Error::UnspecifiedRaster);
                },
            };
            cmds.push(DeviceCommand::UploadRasterInfo { name: info_name, info });
            plans.push(RasterBufferPlan { data_type, len });
            proof {
                reveal_strlit("OUT");
                reveal_strlit("OUT_INFO");
                let m1 = DeviceCommandModel::AllocRasterData {
                    name: out_data_name(idx as int),
                    data_type: opt_value(outputs[idx as int]).raster_data_type_spec(),
                    len: opt_value(outputs[idx as int]).data_len_spec(),
                };
                let m2 = DeviceCommandModel::UploadRasterInfo {
                    name: out_info_name(idx as int),
                    info: raster_info_spec(opt_value(outputs[idx as int])),
                };
                let ghost plans0 = plans@.drop_last();
                assert(command_models(cmds@) =~= command_models(cmds0) + seq![m1, m2]);
                assert(output_raster_commands(outputs, idx as int) == seq![m1, m2]
                    + output_raster_commands(outputs, idx as int + 1));
                assert(command_models(cmds@) + output_raster_commands(outputs, idx as int + 1)
                    =~= command_models(cmds0) + output_raster_commands(outputs, idx as int));
                assert(output_buffer_plans(outputs, idx as int) == seq![
                    RasterBufferPlan {
                        data_type: opt_value(outputs[idx as int]).raster_data_type_spec(),
                        len: opt_value(outputs[idx as int]).data_len_spec() as usize,
                    },
                ] + output_buffer_plans(outputs, idx as int + 1));
                assert(plans@ + output_buffer_plans(outputs, idx as int + 1) =~= plans0
                    + output_buffer_plans(outputs, idx as int));
            }
            idx = idx + 1;
        }
        proof {
            assert(command_models(cmds@) + output_raster_commands(outputs, outputs.len() as int)
                =~= command_models(cmds@));
            assert(plans@ + output_buffer_plans(outputs, outputs.len() as int) =~= plans@);
        }
        self.raster_output_buffers.append(&mut plans);
        Result::Ok(cmds)
    }

    /// Everything but the feature readback plans is unchanged.
    pub open spec fn only_feature_plans_changed(self, other: Self) -> bool {
        &&& self.same_types(other)
        &&& self.input_rasters@ == other.input_rasters@
        &&& self.output_rasters@ == other.output_rasters@
        &&& self.input_features@ == other.input_features@
        &&& self.output_features@ == other.output_features@
        &&& self.raster_output_buffers@ == other.raster_output_buffers@
    }

    /// Plans the feature transfers of a launch: checks that every
    /// declared feature slot is bound (else `UnspecifiedFeatures`) and
    /// that no line or polygon collection is involved (else
    /// `UnsupportedGeometry`), returns the upload and allocation
    /// commands in calling-convention order, and records the readback
    /// plan of each output.
    pub fn set_feature_arguments(&mut self) -> (r: Result<Vec<DeviceCommand>, Error>)
        requires
            old(self).is_consistent(),
            forall|i: int|
                0 <= i < old(self).output_features@.len() && old(self).output_features@[i] is Some
                    ==> opt_value(#[trigger] old(self).output_features@[i]).num_features
                    < usize::MAX,
        ensures
            final(self).is_consistent(),
            old(self).only_feature_plans_changed(*final(self)),
            !all_bound(old(self).input_features@) ==> r == Result::<Vec<DeviceCommand>, Error>::Err(
                Error::UnspecifiedFeatures,
            ) && *final(self) == *old(self),
            all_bound(old(self).input_features@) && unsupported_input_features(
                old(self).input_features@,
            ) ==> r == Result::<Vec<DeviceCommand>, Error>::Err(Error::UnsupportedGeometry)
                && *final(self) == *old(self),
            all_bound(old(self).input_features@) && !unsupported_input_features(
                old(self).input_features@,
            ) && !all_bound(old(self).output_features@) ==> r == Result::<
                Vec<DeviceCommand>,
                Error,
            >::Err(Error::UnspecifiedFeatures) && *final(self) == *old(self),
            all_bound(old(self).input_features@) && !unsupported_input_features(
                old(self).input_features@,
            ) && all_bound(old(self).output_features@) && unsupported_output_features(
                old(self).output_features@,
            ) ==> r == Result::<Vec<DeviceCommand>, Error>::Err(Error::UnsupportedGeometry)
                && *final(self) == *old(self),
            all_bound(old(self).input_features@) && !unsupported_input_features(
                old(self).input_features@,
            ) && all_bound(old(self).output_features@) && !unsupported_output_features(
                old(self).output_features@,
            ) ==> (r matches Ok(cmds) && command_models(cmds@) == input_feature_commands(
                old(self).input_features@,
                0,
            ) + output_feature_commands(old(self).output_features@, 0)
                && final(self).feature_output_buffers@ == old(self).feature_output_buffers@
                + feature_plans(old(self).output_features@, 0)),
    {
        let mut i: usize = 0;
        while i < self.input_features.len()
            invariant
                *self == *old(self),
                old(self).is_consistent(),
                0 <= i <= self.input_features@.len(),
                forall|j: int| 0 <= j < i ==> self.input_features@[j] is Some,
            decreases self.input_features@.len() - i,
        {
            if self.input_features[i].is_none() {
                return Result::Err(Error::UnspecifiedFeatures);
            }
            i = i + 1;
        }
        let ghost inputs = self.input_features@;
        let ghost outputs = self.output_features@;
        let mut cmds: Vec<DeviceCommand> = Vec::new();
        let mut idx: usize = 0;
        while idx < self.input_features.len()
            invariant
                *self == *old(self),
                old(self).is_consistent(),
                inputs == self.input_features@,
                all_bound(inputs),
                0 <= idx <= inputs.len(),
                forall|j: int|
                    0 <= j < idx ==> !(opt_value(#[trigger] inputs[j])
                        matches TypedFeatureCollection::MultiLineString(_)) && !(opt_value(
                        inputs[j],
                    ) matches TypedFeatureCollection::MultiPolygon(_)),
                command_models(cmds@) + input_feature_commands(inputs, idx as int)
                    == input_feature_commands(inputs, 0),
            decreases inputs.len() - idx,
        {
            let ghost cmds0 = cmds@;
            match &self.input_features[idx] {
                Option::Some(TypedFeatureCollection::Data(_)) => {
                    proof {
                        assert(input_feature_commands(inputs, idx as int)
                            == input_feature_commands(inputs, idx as int + 1));
                    }
                },
                Option::Some(TypedFeatureCollection::MultiPoint(_)) => {
                    let name = indexed_name("IN_POINT_COORDS", idx);
                    cmds.push(DeviceCommand::UploadPointCoords { name, input_index: idx });
                    let name = indexed_name("IN_POINT_OFFSETS", idx);
                    cmds.push(DeviceCommand::UploadPointOffsets { name, input_index: idx });
                    proof {
                        let m1 = DeviceCommandModel::UploadPointCoords {
                            name: in_point_coords_name(idx as int),
                            input_index: idx as int,
                        };
                        let m2 = DeviceCommandModel::UploadPointOffsets {
                            name: in_point_offsets_name(idx as int),
                            input_index: idx as int,
                        };
                        assert(command_models(cmds@) =~= command_models(cmds0) + seq![m1, m2]);
                        assert(input_feature_commands(inputs, idx as int) == seq![m1, m2]
                            + input_feature_commands(inputs, idx as int + 1));
                        assert(command_models(cmds@) + input_feature_commands(
                            inputs,
                            idx as int + 1,
                        ) =~= command_models(cmds0) + input_feature_commands(inputs, idx as int));
                    }
                },
                Option::Some(TypedFeatureCollection::MultiLineString(_)) => {
                    return Result::Err(Error::UnsupportedGeometry);
                },
                Option::Some(TypedFeatureCollection::MultiPolygon(_)) => {
                    return Result::Err(Error::UnsupportedGeometry);
                },
                Option::None => {
                    proof {
                        assert(false);
                    }
                    return Result::Err(Error::UnspecifiedFeatures);
                },
            }
            idx = idx + 1;
        }
        let mut i: usize = 0;
        while i < self.output_features.len()
            invariant
                *self == *old(self),
                old(self).is_consistent(),
                inputs == self.input_features@,
                all_bound(inputs),
                !unsupported_input_features(inputs),
                command_models(cmds@) == input_feature_commands(inputs, 0),
                0 <= i <= self.output_features@.len(),
                forall|j: int| 0 <= j < i ==> self.output_features@[j] is Some,
            decreases self.output_features@.len() - i,
        {
            if self.output_features[i].is_none() {
                return Result::Err(Error::UnspecifiedFeatures);
            }
            i = i + 1;
        }
        proof {
            assert(command_models(cmds@) + input_feature_commands(inputs, inputs.len() as int)
                =~= command_models(cmds@));
        }
        let mut plans: Vec<FeatureBufferPlan> = Vec::new();
        let mut idx: usize = 0;
        while idx < self.output_features.len()
            invariant
                *self == *old(self),
                old(self).is_consistent(),
                forall|i: int|
                    0 <= i < old(self).output_features@.len() && old(self).output_features@[i]
                        is Some ==> opt_value(#[trigger] old(self).output_features@[i]).num_features
                        < usize::MAX,
                inputs == self.input_features@,
                outputs == self.output_features@,
                all_bound(inputs) && all_bound(outputs),
                !unsupported_input_features(inputs),
                0 <= idx <= outputs.len(),
                forall|j: int|
                    0 <= j < idx ==> opt_value(#[trigger] outputs[j]).output_type
                        != VectorDataType::MultiLineString && opt_value(outputs[j]).output_type
                        != VectorDataType::MultiPolygon,
                command_models(cmds@) + output_feature_commands(outputs, idx as int)
                    == input_feature_commands(inputs, 0) + output_feature_commands(outputs, 0),
                plans@ + feature_plans(outputs, idx as int) == feature_plans(outputs, 0),
            decreases outputs.len() - idx,
        {
            let ghost cmds0 = cmds@;
            let ghost plans0 = plans@;
            match &self.output_features[idx] {
                Option::Some(b) => {
                    match b.output_type {
                        VectorDataType::MultiPoint => {
                            let coords_len = b.num_coords();
                            let offsets_len = b.num_features() + 1;
                            let name = indexed_name("OUT_POINT_COORDS", idx);
                            cmds.push(DeviceCommand::AllocPointCoords { name, len: coords_len });
                            let name = indexed_name("OUT_POINT_OFFSETS", idx);
                            cmds.push(DeviceCommand::AllocPointOffsets { name, len: offsets_len });
                            plans.push(
                                FeatureBufferPlan::Points { coords_len, offsets_len },
                            );
                            proof {
                                let m1 = DeviceCommandModel::AllocPointCoords {
                                    name: out_point_coords_name(idx as int),
                                    len: opt_value(outputs[idx as int]).num_coords as int,
                                };
                                let m2 = DeviceCommandModel::AllocPointOffsets {
                                    name: out_point_offsets_name(idx as int),
                                    len: opt_value(outputs[idx as int]).num_features + 1,
                                };
                                assert(command_models(cmds@) =~= command_models(cmds0) + seq![
                                    m1,
                                    m2,
                                ]);
                                assert(output_feature_commands(outputs, idx as int) == seq![m1, m2]
                                    + output_feature_commands(outputs, idx as int + 1));
                                assert(command_models(cmds@) + output_feature_commands(
                                    outputs,
                                    idx as int + 1,
                                ) =~= command_models(cmds0) + output_feature_commands(
                                    outputs,
                                    idx as int,
                                ));
                                assert(feature_plans(outputs, idx as int) == seq![
                                    FeatureBufferPlan::Points {
                                        coords_len: opt_value(outputs[idx as int]).num_coords,
                                        offsets_len: (opt_value(outputs[idx as int]).num_features
                                            + 1) as usize,
                                    },
                                ] + feature_plans(outputs, idx as int + 1));
                                assert(plans@ + feature_plans(outputs, idx as int + 1) =~= plans0
                                    + feature_plans(outputs, idx as int));
                            }
                        },
                        VectorDataType::Data => {
                            plans.push(FeatureBufferPlan::NoGeo);
                            proof {
                                assert(output_feature_commands(outputs, idx as int)
                                    == output_feature_commands(outputs, idx as int + 1));
                                assert(feature_plans(outputs, idx as int) == seq![
                                    FeatureBufferPlan::NoGeo,
                                ] + feature_plans(outputs, idx as int + 1));
                                assert(plans@ + feature_plans(outputs, idx as int + 1) =~= plans0
                                    + feature_plans(outputs, idx as int));
                            }
                        },
                        VectorDataType::MultiLineString => {
                            return Result::Err(Error::UnsupportedGeometry);
                        },
                        VectorDataType::MultiPolygon => {
                            return Result::Err(Error::UnsupportedGeometry);
                        },
                    }
                },
                Option::None => {
                    proof {
                        assert(false);
                    }
                    return Result::Err(Error::UnspecifiedFeatures);
                },
            }
            idx = idx + 1;
        }
        proof {
            assert(command_models(cmds@) + output_feature_commands(outputs, outputs.len() as int)
                =~= command_models(cmds@));
            assert(plans@ + feature_plans(outputs, outputs.len() as int) =~= plans@);
        }
        self.feature_output_buffers.append(&mut plans);
        Result::Ok(cmds)
    }

    /// Writes the device-read buffers back into the host outputs and
    /// finalizes them: each output raster receives the buffer of its own
    /// element tag in place of its data, and each output builder
    /// receives its point buffers, default validity intervals, and is
    /// finished.  The results must line up with the recorded plans: one
    /// buffer of the matching tag per output raster, one readback of the
    /// matching kind per output builder.  The plans are drained.
    pub fn read_output_buffers(
        &mut self,
        raster_results: Vec<RasterOutputBuffer>,
        feature_results: Vec<FeatureReadback>,
    ) -> (r: Result<(), Error>)
        requires
            old(self).is_consistent(),
            raster_results@.len() == old(self).output_rasters@.len(),
            old(self).raster_output_buffers@.len() == old(self).output_rasters@.len(),
            forall|i: int|
                0 <= i < old(self).output_rasters@.len() ==> #[trigger] old(
                    self,
                ).output_rasters@[i] is Some && raster_results@[i].data_type_spec() == opt_value(
                    old(self).output_rasters@[i],
                ).raster_data_type_spec(),
            feature_results@.len() == old(self).output_features@.len(),
            old(self).feature_output_buffers@.len() == old(self).output_features@.len(),
            forall|j: int|
                0 <= j < old(self).output_features@.len() ==> #[trigger] old(
                    self,
                ).output_features@[j] is Some && (opt_value(old(self).output_features@[j]).output_type
                    == VectorDataType::MultiPoint <==> feature_results@[j] is Points) && (opt_value(
                    old(self).output_features@[j],
                ).output_type == VectorDataType::Data <==> feature_results@[j] is NoGeo),
        ensures
            r is Ok,
            final(self).is_consistent(),
            old(self).same_types(*final(self)),
            final(self).input_rasters@ == old(self).input_rasters@,
            final(self).input_features@ == old(self).input_features@,
            final(self).raster_output_buffers@.len() == 0,
            final(self).feature_output_buffers@.len() == 0,
            final(self).output_rasters@.len() == old(self).output_rasters@.len(),
            forall|i: int|
                0 <= i < old(self).output_rasters@.len() ==> final(self).output_rasters@[i]
                    == Option::Some(
                    apply_raster_readback(
                        opt_value(#[trigger] old(self).output_rasters@[i]),
                        raster_results@[i],
                    ),
                ),

            final(self).output_features@.len() == old(self).output_features@.len(),
            forall|j: int|
                0 <= j < old(self).output_features@.len() ==> #[trigger] final(self).output_features@[j]
                    is Some && builder_finished_with(
                    opt_value(old(self).output_features@[j]),
                    feature_results@[j],
                    opt_value(final(self).output_features@[j]),
                ),
    {
        let ghost rr0 = raster_results@;
        let mut rr = raster_results;
        let n = self.output_rasters.len();
        let mut i: usize = 0;
        while i < n
            invariant
                old(self).is_consistent(),
                self.is_consistent(),
                old(self).same_types(*self),
                n == old(self).output_rasters@.len(),
                self.output_rasters@.len() == n,
                self.input_rasters@ == old(self).input_rasters@,
                self.input_features@ == old(self).input_features@,
                self.output_features@ == old(self).output_features@,
                self.raster_output_buffers@ == old(self).raster_output_buffers@,
                self.feature_output_buffers@ == old(self).feature_output_buffers@,
                rr0.len() == n,
                forall|k: int|
                    0 <= k < n ==> #[trigger] old(self).output_rasters@[k] is Some
                        && rr0[k].data_type_spec() == opt_value(
                        old(self).output_rasters@[k],
                    ).raster_data_type_spec(),
                0 <= i <= n,
                rr@ == rr0.skip(i as int),
                forall|k: int|
                    0 <= k < i ==> #[trigger] self.output_rasters@[k] == Option::Some(
                        apply_raster_readback(opt_value(old(self).output_rasters@[k]), rr0[k]),
                    ),
                forall|k: int|
                    i <= k < n ==> #[trigger] self.output_rasters@[k] == old(
                        self,
                    ).output_rasters@[k],
            decreases n - i,
        {
            proof {
                assert(rr@[0] == rr0[i as int]);
            }
            let buf = rr.remove(0);
            let mut slot: Option<TypedRaster2D> = Option::None;
            self.output_rasters.set_and_swap(i, &mut slot);
            let new_val: TypedRaster2D = match (slot, buf) {
                (Option::Some(TypedRaster2D::U8(t)), RasterOutputBuffer::U8(d)) => TypedRaster2D::U8(
                    Raster2D {
                        dimension: t.dimension,
                        data_container: d,
                        no_data_value: t.no_data_value,
                        temporal_bounds: t.temporal_bounds,
                        geo_transform: t.geo_transform,
                    },
                ),
                (Option::Some(TypedRaster2D::U16(t)), RasterOutputBuffer::U16(d)) => TypedRaster2D::U16(
                    Raster2D {
                        dimension: t.dimension,
                        data_container: d,
                        no_data_value: t.no_data_value,
                        temporal_bounds: t.temporal_bounds,
                        geo_transform: t.geo_transform,
                    },
                ),
                (Option::Some(TypedRaster2D::U32(t)), RasterOutputBuffer::U32(d)) => TypedRaster2D::U32(
                    Raster2D {
                        dimension: t.dimension,
                        data_container: d,
                        no_data_value: t.no_data_value,
                        temporal_bounds: t.temporal_bounds,
                        geo_transform: t.geo_transform,
                    },
                ),
                (Option::Some(TypedRaster2D::U64(t)), RasterOutputBuffer::U64(d)) => TypedRaster2D::U64(
                    Raster2D {
                        dimension: t.dimension,
                        data_container: d,
                        no_data_value: t.no_data_value,
                        temporal_bounds: t.temporal_bounds,
                        geo_transform: t.geo_transform,
                    },
                ),
                (Option::Some(TypedRaster2D::I8(t)), RasterOutputBuffer::I8(d)) => TypedRaster2D::I8(
                    Raster2D {
                        dimension: t.dimension,
                        data_container: d,
                        no_data_value: t.no_data_value,
                        temporal_bounds: t.temporal_bounds,
                        geo_transform: t.geo_transform,
                    },
                ),
                (Option::Some(TypedRaster2D::I16(t)), RasterOutputBuffer::I16(d)) => TypedRaster2D::I16(
                    Raster2D {
                        dimension: t.dimension,
                        data_container: d,
                        no_data_value: t.no_data_value,
                        temporal_bounds: t.temporal_bounds,
                        geo_transform: t.geo_transform,
                    },
                ),
                (Option::Some(TypedRaster2D::I32(t)), RasterOutputBuffer::I32(d)) => TypedRaster2D::I32(
                    Raster2D {
                        dimension: t.dimension,
                        data_container: d,
                        no_data_value: t.no_data_value,
                        temporal_bounds: t.temporal_bounds,
                        geo_transform: t.geo_transform,
                    },
                ),
                (Option::Some(TypedRaster2D::I64(t)), RasterOutputBuffer::I64(d)) => TypedRaster2D::I64(
                    Raster2D {
                        dimension: t.dimension,
                        data_container: d,
                        no_data_value: t.no_data_value,
                        temporal_bounds: t.temporal_bounds,
                        geo_transform: t.geo_transform,
                    },
                ),
                (Option::Some(TypedRaster2D::F32(t)), RasterOutputBuffer::F32(d)) => TypedRaster2D::F32(
                    Raster2D {
                        dimension: t.dimension,
                        data_container: d,
                        no_data_value: t.no_data_value,
                        temporal_bounds: t.temporal_bounds,
                        geo_transform: t.geo_transform,
                    },
                ),
                (Option::Some(TypedRaster2D::F64(t)), RasterOutputBuffer::F64(d)) => TypedRaster2D::F64(
                    Raster2D {
                        dimension: t.dimension,
                        data_container: d,
                        no_data_value: t.no_data_value,
                        temporal_bounds: t.temporal_bounds,
                        geo_transform: t.geo_transform,
                    },
                ),
                _ => {
                    proof {
                        assert(false);
                    }
                    vstd::pervasive::unreached()
                },
            };
            self.output_rasters.set(i, Option::Some(new_val));
            i = i + 1;
        }
        let ghost fr0 = feature_results@;
        let mut fr = feature_results;
        let m = self.output_features.len();
        let mut j: usize = 0;
        while j < m
            invariant
                old(self).is_consistent(),
                self.is_consistent(),
                old(self).same_types(*self),
                m == old(self).output_features@.len(),
                self.output_features@.len() == m,
                self.input_rasters@ == old(self).input_rasters@,
                self.input_features@ == old(self).input_features@,
                self.raster_output_buffers@ == old(self).raster_output_buffers@,
                self.feature_output_buffers@ == old(self).feature_output_buffers@,
                self.output_rasters@.len() == old(self).output_rasters@.len(),
                forall|k: int|
                    0 <= k < old(self).output_rasters@.len() ==> #[trigger] self.output_rasters@[k]
                        == Option::Some(
                        apply_raster_readback(opt_value(old(self).output_rasters@[k]), rr0[k]),
                    ),
                fr0.len() == m,
                forall|k: int|
                    0 <= k < m ==> #[trigger] old(self).output_features@[k] is Some && (opt_value(
                        old(self).output_features@[k],
                    ).output_type == VectorDataType::MultiPoint <==> fr0[k] is Points) && (opt_value(
                        old(self).output_features@[k],
                    ).output_type == VectorDataType::Data <==> fr0[k] is NoGeo),
                0 <= j <= m,
                fr@ == fr0.skip(j as int),
                forall|k: int|
                    0 <= k < j ==> #[trigger] self.output_features@[k] is Some
                        && builder_finished_with(
                        opt_value(old(self).output_features@[k]),
                        fr0[k],
                        opt_value(self.output_features@[k]),
                    ),
                forall|k: int|
                    j <= k < m ==> #[trigger] self.output_features@[k] == old(
                        self,
                    ).output_features@[k],
            decreases m - j,
        {
            proof {
                assert(fr@[0] == fr0[j as int]);
            }
            let rb = fr.remove(0);
            let mut slot: Option<FeatureCollectionBatchBuilder> = Option::None;
            self.output_features.set_and_swap(j, &mut slot);
            let mut b = match slot {
                Option::Some(b) => b,
                Option::None => {
                    proof {
                        assert(false);
                    }
                    vstd::pervasive::unreached()
                },
            };
            match rb {
                FeatureReadback::Points(pb) => {
                    b.set_points(pb.coords, pb.offsets);
                    b.set_default_time_intervals();
                    match b.finish() {
                        Result::Ok(()) => {},
                        Result::Err(_) => {
                            proof {
                                assert(false);
                            }
                            return Result::Err(Error::UnsupportedGeometry);
                        },
                    }
                },
                FeatureReadback::NoGeo => {
                    b.set_default_time_intervals();
                    match b.finish() {
                        Result::Ok(()) => {},
                        Result::Err(_) => {
                            proof {
                                assert(false);
                            }
                            return Result::Err(Error::UnsupportedGeometry);
                        },
                    }
                },
            }
            self.output_features.set(j, Option::Some(b));
            j = j + 1;
        }
        self.raster_output_buffers.clear();
        self.feature_output_buffers.clear();
        Result::Ok(())
    }
}

/// A bound input collection of a geometry kind that is declared but not
/// yet dispatched.
pub open spec fn unsupported_input_features(inputs: Seq<Option<TypedFeatureCollection>>) -> bool {
    exists|i: int|
        0 <= i < inputs.len() && (opt_value(#[trigger] inputs[i])
            matches TypedFeatureCollection::MultiLineString(_) || opt_value(inputs[i])
            matches TypedFeatureCollection::MultiPolygon(_))
}

/// A bound output builder of a geometry kind that is declared but not
/// yet dispatched.
pub open spec fn unsupported_output_features(
    outputs: Seq<Option<FeatureCollectionBatchBuilder>>,
) -> bool {
    exists|i: int|
        0 <= i < outputs.len() && (opt_value(#[trigger] outputs[i]).output_type
            == VectorDataType::MultiLineString || opt_value(outputs[i]).output_type
            == VectorDataType::MultiPolygon)
}

/// The upload commands of the bound input collections from position `i`
/// on: a multi-point collection contributes its flat coordinates and its
/// offsets, an attribute-only collection contributes no geometry.
pub open spec fn input_feature_commands(
    inputs: Seq<Option<TypedFeatureCollection>>,
    i: int,
) -> Seq<DeviceCommandModel>
    decreases inputs.len() - i,
{
    if i < 0 || i >= inputs.len() {
        Seq::empty()
    } else {
        match opt_value(inputs[i]) {
            TypedFeatureCollection::MultiPoint(_) => seq![
                DeviceCommandModel::UploadPointCoords {
                    name: in_point_coords_name(i),
                    input_index: i,
                },
                DeviceCommandModel::UploadPointOffsets {
                    name: in_point_offsets_name(i),
                    input_index: i,
                },
            ] + input_feature_commands(inputs, i + 1),
            _ => input_feature_commands(inputs, i + 1),
        }
    }
}

/// The allocation commands of the bound output builders from position
/// `i` on: a multi-point output gets a coordinate buffer of its planned
/// size and an offset buffer of one entry per feature plus one.
pub open spec fn output_feature_commands(
    outputs: Seq<Option<FeatureCollectionBatchBuilder>>,
    i: int,
) -> Seq<DeviceCommandModel>
    decreases outputs.len() - i,
{
    if i < 0 || i >= outputs.len() {
        Seq::empty()
    } else {
        match opt_value(outputs[i]).output_type {
            VectorDataType::MultiPoint => seq![
                DeviceCommandModel::AllocPointCoords {
                    name: out_point_coords_name(i),
                    len: opt_value(outputs[i]).num_coords as int,
                },
                DeviceCommandModel::AllocPointOffsets {
                    name: out_point_offsets_name(i),
                    len: opt_value(outputs[i]).num_features + 1,
                },
            ] + output_feature_commands(outputs, i + 1),
            _ => output_feature_commands(outputs, i + 1),
        }
    }
}

/// The readback plans of the bound output builders from position `i`
/// on, one per output.
pub open spec fn feature_plans(outputs: Seq<Option<FeatureCollectionBatchBuilder>>, i: int) -> Seq<
    FeatureBufferPlan,
>
    decreases outputs.len() - i,
{
    if i < 0 || i >= outputs.len() {
        Seq::empty()
    } else {
        match opt_value(outputs[i]).output_type {
            VectorDataType::MultiPoint => seq![
                FeatureBufferPlan::Points {
                    coords_len: opt_value(outputs[i]).num_coords,
                    offsets_len: (opt_value(outputs[i]).num_features + 1) as usize,
                },
            ] + feature_plans(outputs, i + 1),
            VectorDataType::Data => seq![FeatureBufferPlan::NoGeo] + feature_plans(outputs, i + 1),
            _ => feature_plans(outputs, i + 1),
        }
    }
}

/// The tile after readback: the device-read buffer replaces the data,
/// every other field is kept.  Defined for a buffer of the tile's own
/// element tag.
pub open spec fn apply_raster_readback(t: TypedRaster2D, buf: RasterOutputBuffer) -> TypedRaster2D {
    match (t, buf) {
        (TypedRaster2D::U8(r), RasterOutputBuffer::U8(d)) => TypedRaster2D::U8(
            Raster2D {
                dimension: r.dimension,
                data_container: d,
                no_data_value: r.no_data_value,
                temporal_bounds: r.temporal_bounds,
                geo_transform: r.geo_transform,
            },
        ),
        (TypedRaster2D::U16(r), RasterOutputBuffer::U16(d)) => TypedRaster2D::U16(
            Raster2D {
                dimension: r.dimension,
                data_container: d,
                no_data_value: r.no_data_value,
                temporal_bounds: r.temporal_bounds,
                geo_transform: r.geo_transform,
            },
        ),
        (TypedRaster2D::U32(r), RasterOutputBuffer::U32(d)) => TypedRaster2D::U32(
            Raster2D {
                dimension: r.dimension,
                data_container: d,
                no_data_value: r.no_data_value,
                temporal_bounds: r.temporal_bounds,
                geo_transform: r.geo_transform,
            },
        ),
        (TypedRaster2D::U64(r), RasterOutputBuffer::U64(d)) => TypedRaster2D::U64(
            Raster2D {
                dimension: r.dimension,
                data_container: d,
                no_data_value: r.no_data_value,
                temporal_bounds: r.temporal_bounds,
                geo_transform: r.geo_transform,
            },
        ),
        (TypedRaster2D::I8(r), RasterOutputBuffer::I8(d)) => TypedRaster2D::I8(
            Raster2D {
                dimension: r.dimension,
                data_container: d,
                no_data_value: r.no_data_value,
                temporal_bounds: r.temporal_bounds,
                geo_transform: r.geo_transform,
            },
        ),
        (TypedRaster2D::I16(r), RasterOutputBuffer::I16(d)) => TypedRaster2D::I16(
            Raster2D {
                dimension: r.dimension,
                data_container: d,
                no_data_value: r.no_data_value,
                temporal_bounds: r.temporal_bounds,
                geo_transform: r.geo_transform,
            },
        ),
        (TypedRaster2D::I32(r), RasterOutputBuffer::I32(d)) => TypedRaster2D::I32(
            Raster2D {
                dimension: r.dimension,
                data_container: d,
                no_data_value: r.no_data_value,
                temporal_bounds: r.temporal_bounds,
                geo_transform: r.geo_transform,
            },
        ),
        (TypedRaster2D::I64(r), RasterOutputBuffer::I64(d)) => TypedRaster2D::I64(
            Raster2D {
                dimension: r.dimension,
                data_container: d,
                no_data_value: r.no_data_value,
                temporal_bounds: r.temporal_bounds,
                geo_transform: r.geo_transform,
            },
        ),
        (TypedRaster2D::F32(r), RasterOutputBuffer::F32(d)) => TypedRaster2D::F32(
            Raster2D {
                dimension: r.dimension,
                data_container: d,
                no_data_value: r.no_data_value,
                temporal_bounds: r.temporal_bounds,
                geo_transform: r.geo_transform,
            },
        ),
        (TypedRaster2D::F64(r), RasterOutputBuffer::F64(d)) => TypedRaster2D::F64(
            Raster2D {
                dimension: r.dimension,
                data_container: d,
                no_data_value: r.no_data_value,
                temporal_bounds: r.temporal_bounds,
                geo_transform: r.geo_transform,
            },
        ),
        (t, _) => t,
    }
}

/// Every interval of the list is the unbounded default, one per feature.
pub open spec fn default_intervals(t: Seq<crate::raster::TimeInterval>, n: int) -> bool {
    t.len() == n && forall|i: int|
        0 <= i < t.len() ==> t[i] == (crate::raster::TimeInterval { start: i64::MIN, end: i64::MAX })
}

/// The builder after readback: the device-read point buffers were
/// received, every feature got the default validity interval, and the
/// output collection was finished, with no attribute columns.
pub open spec fn builder_finished_with(
    old_b: FeatureCollectionBatchBuilder,
    rb: FeatureReadback,
    new_b: FeatureCollectionBatchBuilder,
) -> bool {
    &&& new_b.output_type == old_b.output_type
    &&& new_b.num_features == old_b.num_features
    &&& new_b.num_coords == old_b.num_coords
    &&& (new_b.time_intervals matches Option::Some(t) && default_intervals(
        t@,
        old_b.num_features as int,
    ))
    &&& match rb {
        FeatureReadback::Points(pb) => {
            &&& (new_b.points matches Option::Some(p) && p.0@ == pb.coords@ && p.1@ == pb.offsets@)
            &&& (new_b.output matches Option::Some(TypedFeatureCollection::MultiPoint(mc))
                && mc.coordinates@ == pb.coords@ && mc.multipoint_offsets@ == pb.offsets@
                && default_intervals(mc.time_intervals@, old_b.num_features as int)
                && mc.columns@.len() == 0)
        },
        FeatureReadback::NoGeo => {
            &&& new_b.points == old_b.points
            &&& (new_b.output matches Option::Some(TypedFeatureCollection::Data(dc))
                && default_intervals(dc.time_intervals@, old_b.num_features as int)
                && dc.columns@.len() == 0)
        },
    }
}

/// The value inside a bound slot.
pub open spec fn opt_value<T>(o: Option<T>) -> T {
    match o {
        Option::Some(v) => v,
        Option::None => vstd::pervasive::arbitrary(),
    }
}

/// Every slot of a binding list is bound.
pub open spec fn all_bound<T>(s: Seq<Option<T>>) -> bool {
    forall|i: int| 0 <= i < s.len() ==> s[i] is Some
}

/// The upload commands of the bound input rasters from position `i` on:
/// for each input, its data and a one-element metadata record.
pub open spec fn input_raster_commands(inputs: Seq<Option<TypedRaster2D>>, i: int) -> Seq<
    DeviceCommandModel,
>
    decreases inputs.len() - i,
{
    if i < 0 || i >= inputs.len() {
        Seq::empty()
    } else {
        seq![
            DeviceCommandModel::UploadRasterData { name: in_data_name(i), input_index: i },
            DeviceCommandModel::UploadRasterInfo {
                name: in_info_name(i),
                info: raster_info_spec(opt_value(inputs[i])),
            },
        ] + input_raster_commands(inputs, i + 1)
    }
}

/// The allocation and upload commands of the bound output rasters from
/// position `i` on: for each output, a writable buffer of its element
/// type and size and a one-element metadata record.
pub open spec fn output_raster_commands(outputs: Seq<Option<TypedRaster2D>>, i: int) -> Seq<
    DeviceCommandModel,
>
    decreases outputs.len() - i,
{
    if i < 0 || i >= outputs.len() {
        Seq::empty()
    } else {
        seq![
            DeviceCommandModel::AllocRasterData {
                name: out_data_name(i),
                data_type: opt_value(outputs[i]).raster_data_type_spec(),
                len: opt_value(outputs[i]).data_len_spec(),
            },
            DeviceCommandModel::UploadRasterInfo {
                name: out_info_name(i),
                info: raster_info_spec(opt_value(outputs[i])),
            },
        ] + output_raster_commands(outputs, i + 1)
    }
}

/// The readback plans of the bound output rasters from position `i` on.
pub open spec fn output_buffer_plans(outputs: Seq<Option<TypedRaster2D>>, i: int) -> Seq<
    RasterBufferPlan,
>
    decreases outputs.len() - i,
{
    if i < 0 || i >= outputs.len() {
        Seq::empty()
    } else {
        seq![
            RasterBufferPlan {
                data_type: opt_value(outputs[i]).raster_data_type_spec(),
                len: opt_value(outputs[i]).data_len_spec() as usize,
            },
        ] + output_buffer_plans(outputs, i + 1)
    }
}

/// How many declared columns a descriptor model carries: name and type
/// lists are paired entry by entry, extra entries of the longer list are
/// ignored.
pub open spec fn min_len(decl: crate::cl_program::VectorArgumentModel) -> int {
    if decl.columns.len() <= decl.column_types.len() {
        decl.columns.len() as int
    } else {
        decl.column_types.len() as int
    }
}

/// The first schema disagreement between the declared columns of a
/// descriptor and a collection's schema, checking declared columns in
/// order from position `i`: `MissingColumn` when a declared column is
/// absent, `ColumnTypeMismatch` when it is present with another type.
pub open spec fn schema_error(
    decl: crate::cl_program::VectorArgumentModel,
    cols: Seq<crate::features::ColumnSpec>,
    i: int,
) -> Option<Error>
    decreases min_len(decl) - i,
{
    if i < 0 || i >= min_len(decl) {
        Option::None
    } else {
        match column_type_of(cols, decl.columns[i]) {
            Option::None => Option::Some(Error::MissingColumn),
            Option::Some(t) => if t != decl.column_types[i] {
                Option::Some(Error::ColumnTypeMismatch)
            } else {
                schema_error(decl, cols, i + 1)
            },
        }
    }
}

/// Compares two geometry tags.
pub fn vector_data_type_eq(a: VectorDataType, b: VectorDataType) -> (r: bool)
    ensures
        r == (a == b),
{
    a == b
}

/// Compares two attribute column types.
pub fn feature_data_type_eq(
    a: crate::features::FeatureDataType,
    b: crate::features::FeatureDataType,
) -> (r: bool)
    ensures
        r == (a == b),
{
    a == b
}

/// Kernel reuse is memoryless: two runnables minted fresh for the same
/// argument schema agree in every run-relevant part — every binding
/// slot of both is unbound and neither has recorded plans — so nothing
/// of one invocation can reach the next through a runnable.  What a run
/// then writes is fixed by that runnable's own bindings and device
/// results alone: the planners return values equal to functions of the
/// bindings, and `read_output_buffers` writes values equal to functions
/// of the bindings and the results, as their contracts state.
pub proof fn lemma_kernel_reuse(a: CLProgramRunnable, b: CLProgramRunnable)
    requires
        a.is_fresh(),
        b.is_fresh(),
        a.input_raster_types@ == b.input_raster_types@,
        a.output_raster_types@ == b.output_raster_types@,
        vector_arg_models(a.input_feature_types@) == vector_arg_models(b.input_feature_types@),
        vector_arg_models(a.output_feature_types@) == vector_arg_models(b.output_feature_types@),
    ensures
        a.input_rasters@ == b.input_rasters@,
        a.output_rasters@ == b.output_rasters@,
        a.input_features@ == b.input_features@,
        a.output_features@ == b.output_features@,
        a.raster_output_buffers@ == b.raster_output_buffers@,
        a.feature_output_buffers@ == b.feature_output_buffers@,
{
    assert(a.input_feature_types@.len() == vector_arg_models(a.input_feature_types@).len());
    assert(b.input_feature_types@.len() == vector_arg_models(b.input_feature_types@).len());
    assert(a.output_feature_types@.len() == vector_arg_models(a.output_feature_types@).len());
    assert(b.output_feature_types@.len() == vector_arg_models(b.output_feature_types@).len());
    assert forall|i: int|
        0 <= i < a.input_rasters@.len() implies a.input_rasters@[i] == b.input_rasters@[i] by {
        assert(a.input_rasters@[i] is None && b.input_rasters@[i] is None);
    }
    assert(a.input_rasters@ =~= b.input_rasters@);
    assert forall|i: int|
        0 <= i < a.output_rasters@.len() implies a.output_rasters@[i] == b.output_rasters@[i] by {
        assert(a.output_rasters@[i] is None && b.output_rasters@[i] is None);
    }
    assert(a.output_rasters@ =~= b.output_rasters@);
    assert forall|i: int|
        0 <= i < a.input_features@.len() implies a.input_features@[i] == b.input_features@[i] by {
        assert(a.input_features@[i] is None && b.input_features@[i] is None);
    }
    assert(a.input_features@ =~= b.input_features@);
    assert forall|i: int|
        0 <= i < a.output_features@.len() implies a.output_features@[i]
        == b.output_features@[i] by {
        assert(a.output_features@[i] is None && b.output_features@[i] is None);
    }
    assert(a.output_features@ =~= b.output_features@);
    assert(a.raster_output_buffers@ =~= b.raster_output_buffers@);
    assert(a.feature_output_buffers@ =~= b.feature_output_buffers@);
}

/// A list of `n` unbound slots.
fn none_slots<T>(n: usize) -> (r: Vec<Option<T>>)
    ensures
        r@.len() == n,
        forall|i: int| 0 <= i < n ==> r@[i] is None,
{
    let mut v: Vec<Option<T>> = Vec::new();
    let mut i: usize = 0;
    while i < n
        invariant
            0 <= i <= n,
            v@.len() == i,
            forall|j: int| 0 <= j < i ==> v@[j] is None,
        decreases n - i,
    {
        v.push(Option::None);
        i = i + 1;
    }
    v
}

/// Compares two element tags.
pub fn raster_data_type_eq(a: RasterDataType, b: RasterDataType) -> (r: bool)
    ensures
        r == (a == b),
{
    a == b
}

} // verus!
