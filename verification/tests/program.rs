use geokernels::cl_program::{CLProgram, IterationType, RasterArgument, VectorArgument};
use geokernels::error::Error;
use geokernels::features::VectorDataType;
use geokernels::raster::RasterDataType;

const HEADER: &str = r####"
typedef struct {
	uint size[3];
	double origin[3];
	double scale[3];
	double min, max, no_data;
	ushort crs_code;
	ushort has_no_data;
} RasterInfo;

#define R(t,x,y) t ## _data[y * t ## _info->size[0] + x]
"####;

#[test]
fn compile_gate_raster_requires_rasters() {
    let mut program = CLProgram::new(IterationType::Raster);
    program.add_input_raster(RasterArgument::new(RasterDataType::I32));
    let result = program.compile("void add() {}", "add");
    assert_eq!(result.unwrap_err(), Error::InvalidInputsForIterationType);
}

#[test]
fn compile_gate_raster_ignores_features() {
    let mut program = CLProgram::new(IterationType::Raster);
    program.add_input_features(VectorArgument::new(VectorDataType::MultiPoint, vec![], vec![]));
    program.add_output_features(VectorArgument::new(VectorDataType::MultiPoint, vec![], vec![]));
    let result = program.compile("__kernel void add() {}", "add");
    assert_eq!(result.unwrap_err(), Error::InvalidInputsForIterationType);
}

#[test]
fn compile_gate_vector_features_requires_features() {
    let mut program = CLProgram::new(IterationType::VectorFeatures);
    program.add_input_raster(RasterArgument::new(RasterDataType::I32));
    program.add_output_raster(RasterArgument::new(RasterDataType::I32));
    let result = program.compile("__kernel void f() {}", "f");
    assert_eq!(result.unwrap_err(), Error::InvalidInputsForIterationType);
}

#[test]
fn compile_gate_vector_coordinates_requires_features() {
    let mut program = CLProgram::new(IterationType::VectorCoordinates);
    program.add_input_features(VectorArgument::new(VectorDataType::MultiPoint, vec![], vec![]));
    let result = program.compile("__kernel void f() {}", "f");
    assert_eq!(result.unwrap_err(), Error::InvalidInputsForIterationType);
}

#[test]
fn compile_accepts_valid_raster_declaration() {
    let mut program = CLProgram::new(IterationType::Raster);
    program.add_input_raster(RasterArgument::new(RasterDataType::I32));
    program.add_output_raster(RasterArgument::new(RasterDataType::I64));
    let compiled = program.compile("BODY", "add").unwrap();
    assert_eq!(compiled.kernel_name, "add");
    assert_eq!(compiled.iteration_type, IterationType::Raster);
    assert_eq!(compiled.input_raster_types.len(), 1);
    assert_eq!(compiled.output_raster_types.len(), 1);
}

#[test]
fn compile_generates_exact_prelude_for_integers() {
    let mut program = CLProgram::new(IterationType::Raster);
    program.add_input_raster(RasterArgument::new(RasterDataType::I32));
    program.add_input_raster(RasterArgument::new(RasterDataType::U16));
    program.add_output_raster(RasterArgument::new(RasterDataType::I64));
    let compiled = program.compile("BODY", "add").unwrap();
    let expected = format!(
        "{}{}{}{}BODY",
        HEADER,
        "typedef int IN_TYPE0;\n#define ISNODATA0(v,i) (i->has_no_data && v == i->no_data)\n",
        "typedef ushort IN_TYPE1;\n#define ISNODATA1(v,i) (i->has_no_data && v == i->no_data)\n",
        "typedef long OUT_TYPE0;\n",
    );
    assert_eq!(compiled.source, expected);
}

#[test]
fn compile_generates_nan_aware_macro_for_floats() {
    let mut program = CLProgram::new(IterationType::Raster);
    program.add_input_raster(RasterArgument::new(RasterDataType::F32));
    program.add_output_raster(RasterArgument::new(RasterDataType::F64));
    let compiled = program.compile("BODY", "nd").unwrap();
    let expected = format!(
        "{}{}{}BODY",
        HEADER,
        "typedef float IN_TYPE0;\n#define ISNODATA0(v,i) (i->has_no_data && (isnan(v) || v == i->no_data))\n",
        "typedef double OUT_TYPE0;\n",
    );
    assert_eq!(compiled.source, expected);
}

#[test]
fn compile_emits_no_prelude_without_rasters() {
    let mut program = CLProgram::new(IterationType::VectorCoordinates);
    program.add_input_features(VectorArgument::new(VectorDataType::MultiPoint, vec![], vec![]));
    program.add_output_features(VectorArgument::new(VectorDataType::MultiPoint, vec![], vec![]));
    let compiled = program.compile("BODY", "pts").unwrap();
    assert_eq!(compiled.source, "BODY");
}

#[test]
fn prelude_indices_reach_double_digits() {
    let mut program = CLProgram::new(IterationType::Raster);
    for _ in 0..11 {
        program.add_input_raster(RasterArgument::new(RasterDataType::U8));
    }
    program.add_output_raster(RasterArgument::new(RasterDataType::U8));
    let compiled = program.compile("", "k").unwrap();
    assert!(compiled.source.contains("typedef uchar IN_TYPE10;"));
    assert!(compiled.source.contains("#define ISNODATA10(v,i)"));
}
