//! Kernel program declaration and compilation.
//!
//! A `CLProgram` accumulates typed raster and vector argument
//! descriptors and an iteration-type tag, generates the type prelude
//! that is prepended to the user's kernel source, and compiles into a
//! `CompiledCLProgram`: the immutable, shareable holder of the assembled
//! source, the kernel entry name and the argument schema, from which
//! single-use runnables are minted.  The device compiler consumes the
//! assembled source outside this crate; everything up to that hand-off —
//! the declaration gate, the generated prelude, the placeholder list and
//! the work size — is verified here.

use vstd::prelude::*;
use vstd::string::*;

use crate::decimal::{decimal_seq, decimal_string, indexed_name};
use crate::error::Error;
use crate::features::{FeatureDataType, VectorDataType};
use crate::raster::RasterDataType;
use crate::runnable::{CLProgramRunnable, DeviceCommand};

verus! {

/// Whether a kernel iterates over pixels, features or coordinates.
#[derive(Debug, Clone, Copy, PartialEq, Eq, Structural)]
pub enum IterationType {
    /// A two-dimensional kernel sized width by height.
    Raster,
    /// A one-dimensional kernel sized by the number of features.
    VectorFeatures,
    /// A one-dimensional kernel sized by the number of coordinates.
    VectorCoordinates,
}

/// The descriptor of one raster argument: its element type.
#[derive(Debug, Clone, Copy, PartialEq, Eq, Structural)]
pub struct RasterArgument {
    pub data_type: RasterDataType,
}

impl RasterArgument {
    /// Declares a raster argument of the given element type.
    pub fn new(data_type: RasterDataType) -> (r: Self)
        ensures
            r.data_type == data_type,
    {
        RasterArgument { data_type }
    }
}

/// The descriptor of one vector argument: its geometry kind and the
/// attribute columns, as parallel name and type lists, that a bound
/// collection must expose.
#[derive(Debug, PartialEq, Eq)]
pub struct VectorArgument {
    pub vector_type: VectorDataType,
    pub columns: Vec<String>,
    pub column_types: Vec<FeatureDataType>,
}

impl VectorArgument {
    /// Declares a vector argument.
    pub fn new(
        vector_type: VectorDataType,
        columns: Vec<String>,
        column_types: Vec<FeatureDataType>,
    ) -> (r: Self)
        ensures
            r.vector_type == vector_type,
            r.columns@ == columns@,
            r.column_types@ == column_types@,
    {
        VectorArgument { vector_type, columns, column_types }
    }
}

/// The mathematical model of a vector argument: the geometry kind and
/// the declared columns as character sequences and type tags.
pub struct VectorArgumentModel {
    pub vector_type: VectorDataType,
    pub columns: Seq<Seq<char>>,
    pub column_types: Seq<FeatureDataType>,
}

impl View for VectorArgument {
    type V = VectorArgumentModel;

    open spec fn view(&self) -> VectorArgumentModel {
        VectorArgumentModel {
            vector_type: self.vector_type,
            columns: self.columns@.map_values(|s: String| s@),
            column_types: self.column_types@,
        }
    }
}

/// The models of a descriptor list, in order.
pub open spec fn vector_arg_models(s: Seq<VectorArgument>) -> Seq<VectorArgumentModel> {
    s.map_values(|a: VectorArgument| a@)
}

impl Clone for VectorArgument {
    /// A clone keeps the geometry kind and the declared columns.
    fn clone(&self) -> (r: Self)
        ensures
            r@ == self@,
    {
        let columns = self.columns.clone();
        let column_types = self.column_types.clone();
        proof {
            assert forall|i: int|
                0 <= i < columns@.len() implies columns@[i] == self.columns@[i] by {
                assert(cloned::<String>(self.columns@[i], columns@[i]));
            }
            assert(columns@ =~= self.columns@);
            assert forall|i: int|
                0 <= i < column_types@.len() implies column_types@[i]
                == self.column_types@[i] by {
                assert(cloned::<FeatureDataType>(self.column_types@[i], column_types@[i]));
            }
            assert(column_types@ =~= self.column_types@);
        }
        VectorArgument { vector_type: self.vector_type, columns, column_types }
    }
}

/// The device-source type name of an element type.
pub open spec fn cl_type_name(t: RasterDataType) -> Seq<char> {
    match t {
        RasterDataType::U8 => "uchar"@,
        RasterDataType::U16 => "ushort"@,
        RasterDataType::U32 => "uint"@,
        RasterDataType::U64 => "ulong"@,
        RasterDataType::I8 => "char"@,
        RasterDataType::I16 => "short"@,
        RasterDataType::I32 => "int"@,
        RasterDataType::I64 => "long"@,
        RasterDataType::F32 => "float"@,
        RasterDataType::F64 => "double"@,
    }
}

/// The C struct of the per-raster metadata record and the convenience
/// accessor macro, as the prelude declares them before the user source.
pub open spec fn raster_info_header() -> Seq<char> {
    r####"
typedef struct {
	uint size[3];
	double origin[3];
	double scale[3];
	double min, max, no_data;
	ushort crs_code;
	ushort has_no_data;
} RasterInfo;

#define R(t,x,y) t ## _data[y * t ## _info->size[0] + x]
"####@
}

/// The no-data test macro of one input raster: floating element types
/// also count NaN as no data.
pub open spec fn isnodata_line(i: int, t: RasterDataType) -> Seq<char> {
    if t.is_float_spec() {
        "#define ISNODATA"@ + decimal_seq(i as nat)
            + "(v,i) (i->has_no_data && (isnan(v) || v == i->no_data))\n"@
    } else {
        "#define ISNODATA"@ + decimal_seq(i as nat) + "(v,i) (i->has_no_data && v == i->no_data)\n"@
    }
}

/// The typedef and no-data macro of each input raster from position `i`
/// on.
pub open spec fn input_typedef_lines(args: Seq<RasterArgument>, i: int) -> Seq<char>
    decreases args.len() - i,
{
    if i < 0 || i >= args.len() {
        Seq::empty()
    } else {
        "typedef "@ + cl_type_name(args[i].data_type) + " IN_TYPE"@ + decimal_seq(i as nat) + ";\n"@
            + isnodata_line(i, args[i].data_type) + input_typedef_lines(args, i + 1)
    }
}

/// The typedef of each output raster from position `i` on.
pub open spec fn output_typedef_lines(args: Seq<RasterArgument>, i: int) -> Seq<char>
    decreases args.len() - i,
{
    if i < 0 || i >= args.len() {
        Seq::empty()
    } else {
        "typedef "@ + cl_type_name(args[i].data_type) + " OUT_TYPE"@ + decimal_seq(i as nat)
            + ";\n"@ + output_typedef_lines(args, i + 1)
    }
}

/// The whole type prelude: empty without raster arguments, else the
/// metadata struct and macro, the input typedefs with their no-data
/// macros, and the output typedefs.
pub open spec fn type_definitions_spec(
    input_rasters: Seq<RasterArgument>,
    output_rasters: Seq<RasterArgument>,
) -> Seq<char> {
    if input_rasters.len() == 0 && output_rasters.len() == 0 {
        Seq::empty()
    } else {
        raster_info_header() + input_typedef_lines(input_rasters, 0) + output_typedef_lines(
            output_rasters,
            0,
        )
    }
}

/// The declaration gate: a raster-iterating program needs at least one
/// input and one output raster, a vector-iterating one at least one
/// input and one output feature list.
pub open spec fn valid_for_iteration_type(
    iteration_type: IterationType,
    n_input_rasters: int,
    n_output_rasters: int,
    n_input_features: int,
    n_output_features: int,
) -> bool {
    ((iteration_type == IterationType::VectorFeatures || iteration_type
        == IterationType::VectorCoordinates) && n_input_features > 0 && n_output_features > 0) || (
    iteration_type == IterationType::Raster && n_input_rasters > 0 && n_output_rasters > 0)
}

/// Accumulates argument descriptors and an iteration type, then compiles
/// into a reusable `CompiledCLProgram`.
#[derive(Debug, PartialEq, Eq)]
pub struct CLProgram {
    pub input_rasters: Vec<RasterArgument>,
    pub output_rasters: Vec<RasterArgument>,
    pub input_features: Vec<VectorArgument>,
    pub output_features: Vec<VectorArgument>,
    pub iteration_type: IterationType,
}

impl CLProgram {
    /// An empty declaration for the given iteration type.
    pub fn new(iteration_type: IterationType) -> (r: Self)
        ensures
            r.iteration_type == iteration_type,
            r.input_rasters@.len() == 0,
            r.output_rasters@.len() == 0,
            r.input_features@.len() == 0,
            r.output_features@.len() == 0,
    {
        CLProgram {
            input_rasters: Vec::new(),
            output_rasters: Vec::new(),
            input_features: Vec::new(),
            output_features: Vec::new(),
            iteration_type,
        }
    }

    /// Declares one more input raster argument.
    pub fn add_input_raster(&mut self, raster: RasterArgument)
        ensures
            final(self).input_rasters@ == old(self).input_rasters@.push(raster),
            final(self).output_rasters@ == old(self).output_rasters@,
            final(self).input_features@ == old(self).input_features@,
            final(self).output_features@ == old(self).output_features@,
            final(self).iteration_type == old(self).iteration_type,
    {
        self.input_rasters.push(raster);
    }

    /// Declares one more output raster argument.
    pub fn add_output_raster(&mut self, raster: RasterArgument)
        ensures
            final(self).output_rasters@ == old(self).output_rasters@.push(raster),
            final(self).input_rasters@ == old(self).input_rasters@,
            final(self).input_features@ == old(self).input_features@,
            final(self).output_features@ == old(self).output_features@,
            final(self).iteration_type == old(self).iteration_type,
    {
        self.output_rasters.push(raster);
    }

    /// Declares one more input feature argument.
    pub fn add_input_features(&mut self, vector_type: VectorArgument)
        ensures
            final(self).input_features@ == old(self).input_features@.push(vector_type),
            final(self).input_rasters@ == old(self).input_rasters@,
            final(self).output_rasters@ == old(self).output_rasters@,
            final(self).output_features@ == old(self).output_features@,
            final(self).iteration_type == old(self).iteration_type,
    {
        self.input_features.push(vector_type);
    }

    /// Declares one more output feature argument.
    pub fn add_output_features(&mut self, vector_type: VectorArgument)
        ensures
            final(self).output_features@ == old(self).output_features@.push(vector_type),
            final(self).input_rasters@ == old(self).input_rasters@,
            final(self).output_rasters@ == old(self).output_rasters@,
            final(self).input_features@ == old(self).input_features@,
            final(self).iteration_type == old(self).iteration_type,
    {
        self.output_features.push(vector_type);
    }

    /// The device-source type name of an element type.
    fn raster_data_type_to_cl(data_type: RasterDataType) -> (r: String)
        ensures
            r@ == cl_type_name(data_type),
    {
        String::from_str(
            match data_type {
                RasterDataType::U8 => "uchar",
                RasterDataType::U16 => "ushort",
                RasterDataType::U32 => "uint",
                RasterDataType::U64 => "ulong",
                RasterDataType::I8 => "char",
                RasterDataType::I16 => "short",
                RasterDataType::I32 => "int",
                RasterDataType::I64 => "long",
                RasterDataType::F32 => "float",
                RasterDataType::F64 => "double",
            },
        )
    }

    /// Generates the type prelude for the declared raster arguments.
    fn create_type_definitions(&self) -> (r: String)
        ensures
            r@ == type_definitions_spec(self.input_rasters@, self.output_rasters@),
    {
        let mut s = String::new();
        if self.input_rasters.len() == 0 && self.output_rasters.len() == 0 {
            return s;
        }
        s.append(
            r####"
typedef struct {
	uint size[3];
	double origin[3];
	double scale[3];
	double min, max, no_data;
	ushort crs_code;
	ushort has_no_data;
} RasterInfo;

#define R(t,x,y) t ## _data[y * t ## _info->size[0] + x]
"####,
        );
        let ghost ins = self.input_rasters@;
        let ghost outs = self.output_rasters@;
        let mut idx: usize = 0;
        while idx < self.input_rasters.len()
            invariant
                ins == self.input_rasters@,
                outs == self.output_rasters@,
                0 <= idx <= ins.len(),
                s@ + input_typedef_lines(ins, idx as int) == raster_info_header()
                    + input_typedef_lines(ins, 0),
            decreases ins.len() - idx,
        {
            let ghost s0 = s@;
            let t = self.input_rasters[idx].data_type;
            s.append("typedef ");
            let tn = Self::raster_data_type_to_cl(t);
            s.append(tn.as_str());
            s.append(" IN_TYPE");
            let d = decimal_string(idx);
            s.append(d.as_str());
            s.append(";\n");
            s.append("#define ISNODATA");
            let d2 = decimal_string(idx);
            s.append(d2.as_str());
            if t.is_float() {
                s.append("(v,i) (i->has_no_data && (isnan(v) || v == i->no_data))\n");
            } else {
                s.append("(v,i) (i->has_no_data && v == i->no_data)\n");
            }
            proof {
                assert(s@ =~= s0 + ("typedef "@ + cl_type_name(t) + " IN_TYPE"@ + decimal_seq(
                    idx as nat,
                ) + ";\n"@ + isnodata_line(idx as int, t)));
                assert(input_typedef_lines(ins, idx as int) == "typedef "@ + cl_type_name(t)
                    + " IN_TYPE"@ + decimal_seq(idx as nat) + ";\n"@ + isnodata_line(idx as int, t)
                    + input_typedef_lines(ins, idx as int + 1));
                assert(s@ + input_typedef_lines(ins, idx as int + 1) =~= s0 + input_typedef_lines(
                    ins,
                    idx as int,
                ));
            }
            idx = idx + 1;
        }
        proof {
            assert(s@ + input_typedef_lines(ins, ins.len() as int) =~= s@);
            assert(s@ + output_typedef_lines(outs, 0) =~= raster_info_header()
                + input_typedef_lines(ins, 0) + output_typedef_lines(outs, 0));
        }
        let mut idx: usize = 0;
        while idx < self.output_rasters.len()
            invariant
                ins == self.input_rasters@,
                outs == self.output_rasters@,
                0 <= idx <= outs.len(),
                s@ + output_typedef_lines(outs, idx as int) == raster_info_header()
                    + input_typedef_lines(ins, 0) + output_typedef_lines(outs, 0),
            decreases outs.len() - idx,
        {
            let ghost s0 = s@;
            let t = self.output_rasters[idx].data_type;
            s.append("typedef ");
            let tn = Self::raster_data_type_to_cl(t);
            s.append(tn.as_str());
            s.append(" OUT_TYPE");
            let d = decimal_string(idx);
            s.append(d.as_str());
            s.append(";\n");
            proof {
                assert(s@ =~= s0 + ("typedef "@ + cl_type_name(t) + " OUT_TYPE"@ + decimal_seq(
                    idx as nat,
                ) + ";\n"@));
                assert(output_typedef_lines(outs, idx as int) == "typedef "@ + cl_type_name(t)
                    + " OUT_TYPE"@ + decimal_seq(idx as nat) + ";\n"@ + output_typedef_lines(
                    outs,
                    idx as int + 1,
                ));
                assert(s@ + output_typedef_lines(outs, idx as int + 1) =~= s0
                    + output_typedef_lines(outs, idx as int));
            }
            idx = idx + 1;
        }
        proof {
            assert(s@ + output_typedef_lines(outs, outs.len() as int) =~= s@);
        }
        s
    }

    /// Compiles the declaration: validates the iteration-type minimums
    /// before anything else — a violation fails fast with
    /// `InvalidInputsForIterationType` and nothing reaches a device —
    /// then assembles the type prelude and the user source into the
    /// compiled program that the device compiler consumes.
    pub fn compile(self, source: &str, kernel_name: &str) -> (r: Result<CompiledCLProgram, Error>)
        ensures
            !valid_for_iteration_type(
                self.iteration_type,
                self.input_rasters@.len() as int,
                self.output_rasters@.len() as int,
                self.input_features@.len() as int,
                self.output_features@.len() as int,
            ) ==> r == Result::<CompiledCLProgram, Error>::Err(
                Error::InvalidInputsForIterationType,
            ),
            valid_for_iteration_type(
                self.iteration_type,
                self.input_rasters@.len() as int,
                self.output_rasters@.len() as int,
                self.input_features@.len() as int,
                self.output_features@.len() as int,
            ) ==> (r matches Ok(c) && c.source@ == type_definitions_spec(
                self.input_rasters@,
                self.output_rasters@,
            ) + source@ && c.kernel_name@ == kernel_name@ && c.iteration_type
                == self.iteration_type && c.input_raster_types@ == self.input_rasters@
                && c.output_raster_types@ == self.output_rasters@ && c.input_feature_types@
                == self.input_features@ && c.output_feature_types@ == self.output_features@),
    {
        let valid = match self.iteration_type {
            IterationType::Raster => self.input_rasters.len() > 0 && self.output_rasters.len() > 0,
            IterationType::VectorFeatures => self.input_features.len() > 0
                && self.output_features.len() > 0,
            IterationType::VectorCoordinates => self.input_features.len() > 0
                && self.output_features.len() > 0,
        };
        if !valid {
            return Result::Err(Error::InvalidInputsForIterationType);
        }
        let mut full_source = self.create_type_definitions();
        full_source.append(source);
        Result::Ok(
            CompiledCLProgram::new(
                full_source,
                String::from_str(kernel_name),
                self.iteration_type,
                self.input_rasters,
                self.output_rasters,
                self.input_features,
                self.output_features,
            ),
        )
    }
}

/// One named, initially unbound kernel argument of the calling
/// convention, to be declared on the device kernel builder before a run.
#[derive(Debug, Clone, PartialEq, Eq)]
pub struct ArgPlaceholder {
    pub name: String,
    pub kind: ArgKind,
}

/// What a placeholder stands for: a data buffer of an element type, a
/// one-element metadata record, or point geometry buffers.
#[derive(Debug, Clone, Copy, PartialEq, Eq, Structural)]
pub enum ArgKind {
    RasterData(RasterDataType),
    RasterInfoRecord,
    PointCoords,
    PointOffsets,
}

/// The mathematical model of a placeholder.
pub struct ArgPlaceholderModel {
    pub name: Seq<char>,
    pub kind: ArgKind,
}

impl View for ArgPlaceholder {
    type V = ArgPlaceholderModel;

    open spec fn view(&self) -> ArgPlaceholderModel {
        ArgPlaceholderModel { name: self.name@, kind: self.kind }
    }
}

/// The models of a placeholder list, in order.
pub open spec fn placeholder_models(s: Seq<ArgPlaceholder>) -> Seq<ArgPlaceholderModel> {
    s.map_values(|p: ArgPlaceholder| p@)
}

/// The placeholders of the input rasters from position `i` on: a data
/// buffer and a metadata record each.
pub open spec fn input_raster_placeholders(args: Seq<RasterArgument>, i: int) -> Seq<
    ArgPlaceholderModel,
>
    decreases args.len() - i,
{
    if i < 0 || i >= args.len() {
        Seq::empty()
    } else {
        seq![
            ArgPlaceholderModel {
                name: crate::runnable::in_data_name(i),
                kind: ArgKind::RasterData(args[i].data_type),
            },
            ArgPlaceholderModel {
                name: crate::runnable::in_info_name(i),
                kind: ArgKind::RasterInfoRecord,
            },
        ] + input_raster_placeholders(args, i + 1)
    }
}

/// The placeholders of the output rasters from position `i` on.
pub open spec fn output_raster_placeholders(args: Seq<RasterArgument>, i: int) -> Seq<
    ArgPlaceholderModel,
>
    decreases args.len() - i,
{
    if i < 0 || i >= args.len() {
        Seq::empty()
    } else {
        seq![
            ArgPlaceholderModel {
                name: crate::runnable::out_data_name(i),
                kind: ArgKind::RasterData(args[i].data_type),
            },
            ArgPlaceholderModel {
                name: crate::runnable::out_info_name(i),
                kind: ArgKind::RasterInfoRecord,
            },
        ] + output_raster_placeholders(args, i + 1)
    }
}

/// The placeholders of the input feature arguments from position `i`
/// on: a multi-point argument contributes coordinate and offset buffers,
/// an attribute-only argument contributes no geometry.
pub open spec fn input_feature_placeholders(args: Seq<VectorArgument>, i: int) -> Seq<
    ArgPlaceholderModel,
>
    decreases args.len() - i,
{
    if i < 0 || i >= args.len() {
        Seq::empty()
    } else {
        match args[i].vector_type {
            VectorDataType::MultiPoint => seq![
                ArgPlaceholderModel {
                    name: crate::runnable::in_point_coords_name(i),
                    kind: ArgKind::PointCoords,
                },
                ArgPlaceholderModel {
                    name: crate::runnable::in_point_offsets_name(i),
                    kind: ArgKind::PointOffsets,
                },
            ] + input_feature_placeholders(args, i + 1),
            _ => input_feature_placeholders(args, i + 1),
        }
    }
}

/// The placeholders of the output feature arguments from position `i`
/// on.
pub open spec fn output_feature_placeholders(args: Seq<VectorArgument>, i: int) -> Seq<
    ArgPlaceholderModel,
>
    decreases args.len() - i,
{
    if i < 0 || i >= args.len() {
        Seq::empty()
    } else {
        match args[i].vector_type {
            VectorDataType::MultiPoint => seq![
                ArgPlaceholderModel {
                    name: crate::runnable::out_point_coords_name(i),
                    kind: ArgKind::PointCoords,
                },
                ArgPlaceholderModel {
                    name: crate::runnable::out_point_offsets_name(i),
                    kind: ArgKind::PointOffsets,
                },
            ] + output_feature_placeholders(args, i + 1),
            _ => output_feature_placeholders(args, i + 1),
        }
    }
}

/// A declared vector argument of a geometry kind that is not yet
/// dispatched.
pub open spec fn unsupported_vector_args(args: Seq<VectorArgument>) -> bool {
    exists|i: int|
        0 <= i < args.len() && (#[trigger] args[i].vector_type == VectorDataType::MultiLineString
            || args[i].vector_type == VectorDataType::MultiPolygon)
}

/// An ND global work size: the backend chooses the local tiling.
#[derive(Debug, Clone, Copy, PartialEq, Eq, Structural)]
pub enum SpatialDims {
    One(usize),
    Two(usize, usize),
}

/// The work size of a launch: raster iteration is two-dimensional over
/// the first output raster's extent, vector iteration one-dimensional
/// over the first output's feature or coordinate count.
pub open spec fn work_size_spec(
    iteration_type: IterationType,
    runnable: crate::runnable::CLProgramRunnable,
) -> SpatialDims {
    match iteration_type {
        IterationType::Raster => SpatialDims::Two(
            crate::runnable::opt_value(runnable.output_rasters@[0]).dimension_spec().size_x,
            crate::runnable::opt_value(runnable.output_rasters@[0]).dimension_spec().size_y,
        ),
        IterationType::VectorFeatures => SpatialDims::One(
            crate::runnable::opt_value(runnable.output_features@[0]).num_features,
        ),
        IterationType::VectorCoordinates => SpatialDims::One(
            crate::runnable::opt_value(runnable.output_features@[0]).num_coords,
        ),
    }
}

/// Whether a work size covers no index at all.
pub open spec fn work_size_empty(dims: SpatialDims) -> bool {
    match dims {
        SpatialDims::One(n) => n == 0,
        SpatialDims::Two(w, h) => w == 0 || h == 0,
    }
}

/// Everything a launch needs from the host side: the placeholder
/// declarations, the transfer commands in order, and the work size.
#[derive(Debug, Clone, PartialEq, Eq)]
pub struct LaunchPlan {
    pub placeholders: Vec<ArgPlaceholder>,
    pub commands: Vec<DeviceCommand>,
    pub work_size: SpatialDims,
}

/// The immutable holder of an assembled program: its full source (type
/// prelude plus user source), kernel entry name, iteration type and
/// argument schema.  It mints fresh single-use runnables; the device
/// program compiled from `source` is managed by the host around this
/// crate and reused across runs.
#[derive(Debug, PartialEq, Eq)]
pub struct CompiledCLProgram {
    pub source: String,
    pub kernel_name: String,
    pub iteration_type: IterationType,
    pub input_raster_types: Vec<RasterArgument>,
    pub output_raster_types: Vec<RasterArgument>,
    pub input_feature_types: Vec<VectorArgument>,
    pub output_feature_types: Vec<VectorArgument>,
}

impl CompiledCLProgram {
    /// Packs an assembled program.
    pub fn new(
        source: String,
        kernel_name: String,
        iteration_type: IterationType,
        input_raster_types: Vec<RasterArgument>,
        output_raster_types: Vec<RasterArgument>,
        input_feature_types: Vec<VectorArgument>,
        output_feature_types: Vec<VectorArgument>,
    ) -> (r: Self)
        ensures
            r.source@ == source@,
            r.kernel_name@ == kernel_name@,
            r.iteration_type == iteration_type,
            r.input_raster_types@ == input_raster_types@,
            r.output_raster_types@ == output_raster_types@,
            r.input_feature_types@ == input_feature_types@,
            r.output_feature_types@ == output_feature_types@,
    {
        CompiledCLProgram {
            source,
            kernel_name,
            iteration_type,
            input_raster_types,
            output_raster_types,
            input_feature_types,
            output_feature_types,
        }
    }

    /// Mints a fresh, unbound runnable for this program's argument
    /// schema.  Every slot starts unbound and no plan is recorded, so
    /// nothing of an earlier run can reach a later one.
    pub fn runnable(&self) -> (r: CLProgramRunnable)
        ensures
            r.input_raster_types@ == self.input_raster_types@,
            r.output_raster_types@ == self.output_raster_types@,
            vector_arg_models(r.input_feature_types@) == vector_arg_models(
                self.input_feature_types@,
            ),
            vector_arg_models(r.output_feature_types@) == vector_arg_models(
                self.output_feature_types@,
            ),
            r.is_fresh(),
            r.is_consistent(),
    {
        let input_raster_types = self.input_raster_types.clone();
        let output_raster_types = self.output_raster_types.clone();
        let input_feature_types = self.input_feature_types.clone();
        let output_feature_types = self.output_feature_types.clone();
        proof {
            assert forall|i: int|
                0 <= i < input_raster_types@.len() implies input_raster_types@[i]
                == self.input_raster_types@[i] by {
                assert(cloned::<RasterArgument>(
                    self.input_raster_types@[i],
                    input_raster_types@[i],
                ));
            }
            assert(input_raster_types@ =~= self.input_raster_types@);
            assert forall|i: int|
                0 <= i < output_raster_types@.len() implies output_raster_types@[i]
                == self.output_raster_types@[i] by {
                assert(cloned::<RasterArgument>(
                    self.output_raster_types@[i],
                    output_raster_types@[i],
                ));
            }
            assert(output_raster_types@ =~= self.output_raster_types@);
            assert forall|i: int|
                0 <= i < input_feature_types@.len() implies input_feature_types@[i]@
                == self.input_feature_types@[i]@ by {
                assert(cloned::<VectorArgument>(
                    self.input_feature_types@[i],
                    input_feature_types@[i],
                ));
            }
            assert(vector_arg_models(input_feature_types@) =~= vector_arg_models(
                self.input_feature_types@,
            ));
            assert forall|i: int|
                0 <= i < output_feature_types@.len() implies output_feature_types@[i]@
                == self.output_feature_types@[i]@ by {
                assert(cloned::<VectorArgument>(
                    self.output_feature_types@[i],
                    output_feature_types@[i],
                ));
            }
            assert(vector_arg_models(output_feature_types@) =~= vector_arg_models(
                self.output_feature_types@,
            ));
        }
        CLProgramRunnable::new(
            input_raster_types,
            output_raster_types,
            input_feature_types,
            output_feature_types,
        )
    }

    /// Pushes the placeholder of one raster data buffer.
    fn add_data_buffer_placeholder(
        kernel: &mut Vec<ArgPlaceholder>,
        arg_name: String,
        data_type: RasterDataType,
    )
        ensures
            final(kernel)@ == old(kernel)@.push(
                ArgPlaceholder { name: arg_name, kind: ArgKind::RasterData(data_type) },
            ),
    {
        kernel.push(ArgPlaceholder { name: arg_name, kind: ArgKind::RasterData(data_type) });
    }

    /// Declares the named, initially unbound kernel arguments of the
    /// calling convention, in order, on the given builder list: data and
    /// metadata buffers per raster argument, coordinate and offset
    /// buffers per multi-point feature argument.  Fails with
    /// `UnsupportedGeometry` when a line or polygon argument is
    /// declared, leaving the builder untouched.
    pub fn set_argument_placeholders(&self, kernel: &mut Vec<ArgPlaceholder>) -> (r: Result<
        (),
        Error,
    >)
        ensures
            unsupported_vector_args(self.input_feature_types@) || unsupported_vector_args(
                self.output_feature_types@,
            ) ==> r == Result::<(), Error>::Err(Error::UnsupportedGeometry) && final(kernel)@
                == old(kernel)@,
            !(unsupported_vector_args(self.input_feature_types@) || unsupported_vector_args(
                self.output_feature_types@,
            )) ==> r is Ok && placeholder_models(final(kernel)@) == placeholder_models(old(kernel)@)
                + input_raster_placeholders(self.input_raster_types@, 0)
                + output_raster_placeholders(self.output_raster_types@, 0)
                + input_feature_placeholders(self.input_feature_types@, 0)
                + output_feature_placeholders(self.output_feature_types@, 0),
    {
        let ghost in_r = self.input_raster_types@;
        let ghost out_r = self.output_raster_types@;
        let ghost in_f = self.input_feature_types@;
        let ghost out_f = self.output_feature_types@;
        let mut v: Vec<ArgPlaceholder> = Vec::new();
        let mut idx: usize = 0;
        while idx < self.input_raster_types.len()
            invariant
                in_r == self.input_raster_types@,
                0 <= idx <= in_r.len(),
                placeholder_models(v@) + input_raster_placeholders(in_r, idx as int)
                    == input_raster_placeholders(in_r, 0),
            decreases in_r.len() - idx,
        {
            let ghost v0 = v@;
            Self::add_data_buffer_placeholder(
                &mut v,
                indexed_name("IN", idx),
                self.input_raster_types[idx].data_type,
            );
            v.push(
                ArgPlaceholder { name: indexed_name("IN_INFO", idx), kind: ArgKind::RasterInfoRecord },
            );
            proof {
                let m1 = ArgPlaceholderModel {
                    name: crate::runnable::in_data_name(idx as int),
                    kind: ArgKind::RasterData(in_r[idx as int].data_type),
                };
                let m2 = ArgPlaceholderModel {
                    name: crate::runnable::in_info_name(idx as int),
                    kind: ArgKind::RasterInfoRecord,
                };
                assert(placeholder_models(v@) =~= placeholder_models(v0) + seq![m1, m2]);
                assert(input_raster_placeholders(in_r, idx as int) == seq![m1, m2]
                    + input_raster_placeholders(in_r, idx as int + 1));
                assert(placeholder_models(v@) + input_raster_placeholders(in_r, idx as int + 1)
                    =~= placeholder_models(v0) + input_raster_placeholders(in_r, idx as int));
            }
            idx = idx + 1;
        }
        proof {
            assert(placeholder_models(v@) + input_raster_placeholders(in_r, in_r.len() as int)
                =~= placeholder_models(v@));
        }
        let mut idx: usize = 0;
        while idx < self.output_raster_types.len()
            invariant
                in_r == self.input_raster_types@,
                out_r == self.output_raster_types@,
                0 <= idx <= out_r.len(),
                placeholder_models(v@) + output_raster_placeholders(out_r, idx as int)
                    == input_raster_placeholders(in_r, 0) + output_raster_placeholders(out_r, 0),
            decreases out_r.len() - idx,
        {
            let ghost v0 = v@;
            Self::add_data_buffer_placeholder(
                &mut v,
                indexed_name("OUT", idx),
                self.output_raster_types[idx].data_type,
            );
            v.push(
                ArgPlaceholder {
                    name: indexed_name("OUT_INFO", idx),
                    kind: ArgKind::RasterInfoRecord,
                },
            );
            proof {
                let m1 = ArgPlaceholderModel {
                    name: crate::runnable::out_data_name(idx as int),
                    kind: ArgKind::RasterData(out_r[idx as int].data_type),
                };
                let m2 = ArgPlaceholderModel {
                    name: crate::runnable::out_info_name(idx as int),
                    kind: ArgKind::RasterInfoRecord,
                };
                assert(placeholder_models(v@) =~= placeholder_models(v0) + seq![m1, m2]);
                assert(output_raster_placeholders(out_r, idx as int) == seq![m1, m2]
                    + output_raster_placeholders(out_r, idx as int + 1));
                assert(placeholder_models(v@) + output_raster_placeholders(out_r, idx as int + 1)
                    =~= placeholder_models(v0) + output_raster_placeholders(out_r, idx as int));
            }
            idx = idx + 1;
        }
        proof {
            assert(placeholder_models(v@) + output_raster_placeholders(out_r, out_r.len() as int)
                =~= placeholder_models(v@));
        }
        let mut idx: usize = 0;
        while idx < self.input_feature_types.len()
            invariant
                in_r == self.input_raster_types@,
                out_r == self.output_raster_types@,
                in_f == self.input_feature_types@,
                0 <= idx <= in_f.len(),
                forall|j: int|
                    0 <= j < idx ==> #[trigger] in_f[j].vector_type
                        != VectorDataType::MultiLineString && in_f[j].vector_type
                        != VectorDataType::MultiPolygon,
                placeholder_models(v@) + input_feature_placeholders(in_f, idx as int)
                    == input_raster_placeholders(in_r, 0) + output_raster_placeholders(out_r, 0)
                    + input_feature_placeholders(in_f, 0),
            decreases in_f.len() - idx,
        {
            let ghost v0 = v@;
            match self.input_feature_types[idx].vector_type {
                VectorDataType::Data => {
                    proof {
                        assert(input_feature_placeholders(in_f, idx as int)
                            == input_feature_placeholders(in_f, idx as int + 1));
                    }
                },
                VectorDataType::MultiPoint => {
                    v.push(
                        ArgPlaceholder {
                            name: indexed_name("IN_POINT_COORDS", idx),
                            kind: ArgKind::PointCoords,
                        },
                    );
                    v.push(
                        ArgPlaceholder {
                            name: indexed_name("IN_POINT_OFFSETS", idx),
                            kind: ArgKind::PointOffsets,
                        },
                    );
                    proof {
                        let m1 = ArgPlaceholderModel {
                            name: crate::runnable::in_point_coords_name(idx as int),
                            kind: ArgKind::PointCoords,
                        };
                        let m2 = ArgPlaceholderModel {
                            name: crate::runnable::in_point_offsets_name(idx as int),
                            kind: ArgKind::PointOffsets,
                        };
                        assert(placeholder_models(v@) =~= placeholder_models(v0) + seq![m1, m2]);
                        assert(input_feature_placeholders(in_f, idx as int) == seq![m1, m2]
                            + input_feature_placeholders(in_f, idx as int + 1));
                        assert(placeholder_models(v@) + input_feature_placeholders(
                            in_f,
                            idx as int + 1,
                        ) =~= placeholder_models(v0) + input_feature_placeholders(
                            in_f,
                            idx as int,
                        ));
                    }
                },
                VectorDataType::MultiLineString => {
                    return Result::Err(Error::UnsupportedGeometry);
                },
                VectorDataType::MultiPolygon => {
                    return Result::Err(Error::UnsupportedGeometry);
                },
            }
            idx = idx + 1;
        }
        proof {
            assert(placeholder_models(v@) + input_feature_placeholders(in_f, in_f.len() as int)
                =~= placeholder_models(v@));
        }
        let mut idx: usize = 0;
        while idx < self.output_feature_types.len()
            invariant
                in_r == self.input_raster_types@,
                out_r == self.output_raster_types@,
                in_f == self.input_feature_types@,
                out_f == self.output_feature_types@,
                !unsupported_vector_args(in_f),
                0 <= idx <= out_f.len(),
                forall|j: int|
                    0 <= j < idx ==> #[trigger] out_f[j].vector_type
                        != VectorDataType::MultiLineString && out_f[j].vector_type
                        != VectorDataType::MultiPolygon,
                placeholder_models(v@) + output_feature_placeholders(out_f, idx as int)
                    == input_raster_placeholders(in_r, 0) + output_raster_placeholders(out_r, 0)
                    + input_feature_placeholders(in_f, 0) + output_feature_placeholders(out_f, 0),
            decreases out_f.len() - idx,
        {
            let ghost v0 = v@;
            match self.output_feature_types[idx].vector_type {
                VectorDataType::Data => {
                    proof {
                        assert(output_feature_placeholders(out_f, idx as int)
                            == output_feature_placeholders(out_f, idx as int + 1));
                    }
                },
                VectorDataType::MultiPoint => {
                    v.push(
                        ArgPlaceholder {
                            name: indexed_name("OUT_POINT_COORDS", idx),
                            kind: ArgKind::PointCoords,
                        },
                    );
                    v.push(
                        ArgPlaceholder {
                            name: indexed_name("OUT_POINT_OFFSETS", idx),
                            kind: ArgKind::PointOffsets,
                        },
                    );
                    proof {
                        let m1 = ArgPlaceholderModel {
                            name: crate::runnable::out_point_coords_name(idx as int),
                            kind: ArgKind::PointCoords,
                        };
                        let m2 = ArgPlaceholderModel {
                            name: crate::runnable::out_point_offsets_name(idx as int),
                            kind: ArgKind::PointOffsets,
                        };
                        assert(placeholder_models(v@) =~= placeholder_models(v0) + seq![m1, m2]);
                        assert(output_feature_placeholders(out_f, idx as int) == seq![m1, m2]
                            + output_feature_placeholders(out_f, idx as int + 1));
                        assert(placeholder_models(v@) + output_feature_placeholders(
                            out_f,
                            idx as int + 1,
                        ) =~= placeholder_models(v0) + output_feature_placeholders(
                            out_f,
                            idx as int,
                        ));
                    }
                },
                VectorDataType::MultiLineString => {
                    return Result::Err(Error::UnsupportedGeometry);
                },
                VectorDataType::MultiPolygon => {
                    return Result::Err(Error::UnsupportedGeometry);
                },
            }
            idx = idx + 1;
        }
        proof {
            assert(placeholder_models(v@) + output_feature_placeholders(out_f, out_f.len() as int)
                =~= placeholder_models(v@));
        }
        let ghost k0 = kernel@;
        let ghost v_snap = v@;
        kernel.append(&mut v);
        proof {
            assert(placeholder_models(kernel@) =~= placeholder_models(k0) + placeholder_models(
                v_snap,
            ));
        }
        Result::Ok(())
    }

    /// The work size of a launch, from the first bound output of the
    /// iteration type; a work size that covers no index fails with
    /// `EmptyWorkSize`.
    fn work_size(&self, runnable: &CLProgramRunnable) -> (r: Result<SpatialDims, Error>)
        requires
            self.iteration_type == IterationType::Raster ==> runnable.output_rasters@.len() > 0
                && runnable.output_rasters@[0] is Some,
            self.iteration_type != IterationType::Raster ==> runnable.output_features@.len() > 0
                && runnable.output_features@[0] is Some,
        ensures
            work_size_empty(work_size_spec(self.iteration_type, *runnable)) ==> r == Result::<
                SpatialDims,
                Error,
            >::Err(Error::EmptyWorkSize),
            !work_size_empty(work_size_spec(self.iteration_type, *runnable)) ==> r
                == Result::<SpatialDims, Error>::Ok(work_size_spec(self.iteration_type, *runnable)),
    {
        let dims: SpatialDims = match self.iteration_type {
            IterationType::Raster => {
                match &runnable.output_rasters[0] {
                    Option::Some(raster) => {
                        let dimension = raster.dimension();
                        SpatialDims::Two(dimension.size_of_x_axis(), dimension.size_of_y_axis())
                    },
                    Option::None => {
                        proof {
                            assert(false);
                        }
                        return Result::Err(Error::EmptyWorkSize);
                    },
                }
            },
            IterationType::VectorFeatures => {
                match &runnable.output_features[0] {
                    Option::Some(builder) => SpatialDims::One(builder.num_features()),
                    Option::None => {
                        proof {
                            assert(false);
                        }
                        return Result::Err(Error::EmptyWorkSize);
                    },
                }
            },
            IterationType::VectorCoordinates => {
                match &runnable.output_features[0] {
                    Option::Some(builder) => SpatialDims::One(builder.num_coords()),
                    Option::None => {
                        proof {
                            assert(false);
                        }
                        return Result::Err(Error::EmptyWorkSize);
                    },
                }
            },
        };
        let empty = match dims {
            SpatialDims::One(n) => n == 0,
            SpatialDims::Two(w, h) => w == 0 || h == 0,
        };
        if empty {
            Result::Err(Error::EmptyWorkSize)
        } else {
            Result::Ok(dims)
        }
    }

    /// The device-free part of the run protocol, in order: declare the
    /// argument placeholders, check that every declared slot is bound,
    /// plan the raster and feature transfers, and choose the work size.
    /// The host carries the returned plan out — placeholders, then
    /// commands, then one launch of the work size — and hands what it
    /// read back to `read_output_buffers`.
    pub fn prepare_run(&self, runnable: &mut CLProgramRunnable) -> (r: Result<LaunchPlan, Error>)
        requires
            old(runnable).is_consistent(),
            forall|i: int|
                0 <= i < old(runnable).output_features@.len() && old(runnable).output_features@[i]
                    is Some ==> crate::runnable::opt_value(
                    #[trigger] old(runnable).output_features@[i],
                ).num_features < usize::MAX,
            self.iteration_type == IterationType::Raster ==> old(
                runnable,
            ).output_rasters@.len() > 0,
            self.iteration_type != IterationType::Raster ==> old(
                runnable,
            ).output_features@.len() > 0,
        ensures
            final(runnable).is_consistent(),
            old(runnable).same_types(*final(runnable)),
            final(runnable).input_rasters@ == old(runnable).input_rasters@,
            final(runnable).output_rasters@ == old(runnable).output_rasters@,
            final(runnable).input_features@ == old(runnable).input_features@,
            final(runnable).output_features@ == old(runnable).output_features@,
            unsupported_vector_args(self.input_feature_types@) || unsupported_vector_args(
                self.output_feature_types@,
            ) ==> r == Result::<LaunchPlan, Error>::Err(Error::UnsupportedGeometry) && *final(runnable) == *old(runnable),
            !(unsupported_vector_args(self.input_feature_types@) || unsupported_vector_args(
                self.output_feature_types@,
            )) && !(crate::runnable::all_bound(old(runnable).input_rasters@)
                && crate::runnable::all_bound(old(runnable).output_rasters@)) ==> r == Result::<
                LaunchPlan,
                Error,
            >::Err(Error::UnspecifiedRaster) && *final(runnable) == *old(runnable),
            ({
                let ok_placeholders = !(unsupported_vector_args(self.input_feature_types@)
                    || unsupported_vector_args(self.output_feature_types@));
                let ok_rasters = crate::runnable::all_bound(old(runnable).input_rasters@)
                    && crate::runnable::all_bound(old(runnable).output_rasters@);
                let in_f = old(runnable).input_features@;
                let out_f = old(runnable).output_features@;
                &&& (ok_placeholders && ok_rasters && !crate::runnable::all_bound(in_f) ==> r
                    == Result::<LaunchPlan, Error>::Err(Error::UnspecifiedFeatures) && final(runnable).feature_output_buffers@ == old(runnable).feature_output_buffers@)
                &&& (ok_placeholders && ok_rasters && crate::runnable::all_bound(in_f)
                    && crate::runnable::unsupported_input_features(in_f) ==> r == Result::<
                    LaunchPlan,
                    Error,
                >::Err(Error::UnsupportedGeometry) && final(runnable).feature_output_buffers@
                    == old(runnable).feature_output_buffers@)
                &&& (ok_placeholders && ok_rasters && crate::runnable::all_bound(in_f)
                    && !crate::runnable::unsupported_input_features(in_f)
                    && !crate::runnable::all_bound(out_f) ==> r == Result::<
                    LaunchPlan,
                    Error,
                >::Err(Error::UnspecifiedFeatures) && final(runnable).feature_output_buffers@
                    == old(runnable).feature_output_buffers@)
                &&& (ok_placeholders && ok_rasters && crate::runnable::all_bound(in_f)
                    && !crate::runnable::unsupported_input_features(in_f)
                    && crate::runnable::all_bound(out_f)
                    && crate::runnable::unsupported_output_features(out_f) ==> r == Result::<
                    LaunchPlan,
                    Error,
                >::Err(Error::UnsupportedGeometry) && final(runnable).feature_output_buffers@
                    == old(runnable).feature_output_buffers@)
            }),
            ({
                let all_ok = !(unsupported_vector_args(self.input_feature_types@)
                    || unsupported_vector_args(self.output_feature_types@))
                    && crate::runnable::all_bound(old(runnable).input_rasters@)
                    && crate::runnable::all_bound(old(runnable).output_rasters@)
                    && crate::runnable::all_bound(old(runnable).input_features@)
                    && !crate::runnable::unsupported_input_features(old(runnable).input_features@)
                    && crate::runnable::all_bound(old(runnable).output_features@)
                    && !crate::runnable::unsupported_output_features(
                    old(runnable).output_features@,
                );
                &&& (all_ok ==> final(runnable).raster_output_buffers@ == old(
                    runnable,
                ).raster_output_buffers@ + crate::runnable::output_buffer_plans(
                    old(runnable).output_rasters@,
                    0,
                ) && final(runnable).feature_output_buffers@ == old(
                    runnable,
                ).feature_output_buffers@ + crate::runnable::feature_plans(
                    old(runnable).output_features@,
                    0,
                ))
                &&& (all_ok && work_size_empty(work_size_spec(self.iteration_type, *old(runnable)))
                    ==> r == Result::<LaunchPlan, Error>::Err(Error::EmptyWorkSize))
                &&& (all_ok && !work_size_empty(
                    work_size_spec(self.iteration_type, *old(runnable)),
                ) ==> (r matches Ok(plan) && placeholder_models(plan.placeholders@)
                    == input_raster_placeholders(self.input_raster_types@, 0)
                    + output_raster_placeholders(self.output_raster_types@, 0)
                    + input_feature_placeholders(self.input_feature_types@, 0)
                    + output_feature_placeholders(self.output_feature_types@, 0)
                    && crate::runnable::command_models(plan.commands@)
                    == crate::runnable::input_raster_commands(old(runnable).input_rasters@, 0)
                    + crate::runnable::output_raster_commands(old(runnable).output_rasters@, 0)
                    + crate::runnable::input_feature_commands(old(runnable).input_features@, 0)
                    + crate::runnable::output_feature_commands(old(runnable).output_features@, 0)
                    && plan.work_size == work_size_spec(self.iteration_type, *old(runnable))))
            }),
    {
        let mut placeholders: Vec<ArgPlaceholder> = Vec::new();
        match self.set_argument_placeholders(&mut placeholders) {
            Result::Ok(()) => {},
            Result::Err(e) => {
                return Result::Err(e);
            },
        }
        let mut commands = match runnable.set_raster_arguments() {
            Result::Ok(c) => c,
            Result::Err(e) => {
                return Result::Err(e);
            },
        };
        let mut feature_commands = match runnable.set_feature_arguments() {
            Result::Ok(c) => c,
            Result::Err(e) => {
                return Result::Err(e);
            },
        };
        let ghost c0 = commands@;
        let ghost f_snap = feature_commands@;
        commands.append(&mut feature_commands);
        proof {
            assert(crate::runnable::command_models(commands@)
                =~= crate::runnable::command_models(c0) + crate::runnable::command_models(f_snap));
        }
        let work_size = match self.work_size(runnable) {
            Result::Ok(w) => w,
            Result::Err(e) => {
                return Result::Err(e);
            },
        };
        Result::Ok(LaunchPlan { placeholders, commands, work_size })
    }
}

} // verus!
