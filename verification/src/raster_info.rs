//! The device-visible per-raster metadata record.
//!
//! `RasterInfo` mirrors, field for field, the C struct that the
//! generated type prelude declares in kernel source: grid extent, origin
//! and scale, value range, the no-data sentinel and its presence flag.
//! Double-precision fields are carried as IEEE-754 bit patterns; the
//! host-side twin that is actually handed to the device pins the C
//! layout and padding.
//!
//! `from_raster` populates the extent and the no-data fields; origin,
//! scale, range and the CRS code are left zero until upstream routes
//! real values through (a documented gap of the extractor).

use vstd::prelude::*;

use crate::raster::TypedRaster2D;

verus! {

/// What `num_traits::ToPrimitive::to_f64` returns for a `u64`, as bits:
/// the double-precision value nearest the integer.
pub uninterp spec fn double_bits_of_u64(v: u64) -> u64;

/// What `num_traits::ToPrimitive::to_f64` returns for an `i64`, as bits:
/// the double-precision value nearest the integer.
pub uninterp spec fn double_bits_of_i64(v: i64) -> u64;

/// Relies on `num_traits::ToPrimitive::to_f64` for `u64`: the conversion
/// to double precision depends on the value alone and always succeeds.
#[verifier::external_body]
fn u64_to_double_bits(v: u64) -> (r: u64)
    ensures
        r == double_bits_of_u64(v),
{
    match num_traits::ToPrimitive::to_f64(&v) {
        Option::Some(x) => x.to_bits(),
        Option::None => 0,
    }
}

/// Relies on `num_traits::ToPrimitive::to_f64` for `i64`: the conversion
/// to double precision depends on the value alone and always succeeds.
#[verifier::external_body]
fn i64_to_double_bits(v: i64) -> (r: u64)
    ensures
        r == double_bits_of_i64(v),
{
    match num_traits::ToPrimitive::to_f64(&v) {
        Option::Some(x) => x.to_bits(),
        Option::None => 0,
    }
}

/// Normalizes a subnormal single-precision significand: doubles the
/// significand and lowers the exponent until the significand reaches the
/// implicit-one range.
pub open spec fn normalize_subnormal(f: int, e: int) -> (int, int)
    decreases 0x100_0000 - f,
{
    if f >= 0x80_0000 || f <= 0 {
        (f, e)
    } else {
        normalize_subnormal(2 * f, e - 1)
    }
}

/// The double-precision bit pattern of the value whose single-precision
/// bit pattern is `b`.  The widening is exact: the sign is kept, the
/// exponent is rebiased, the significand is shifted; subnormals are
/// normalized, infinities stay infinities, and a NaN keeps its payload
/// in the high significand bits.
pub open spec fn widen_single_bits(b: u32) -> u64 {
    let sign: u64 = if b >= 0x8000_0000 {
        0x8000_0000_0000_0000u64
    } else {
        0u64
    };
    let exp: u32 = (b >> 23) & 0xff;
    let frac: u32 = b & 0x7f_ffff;
    if exp == 0xff {
        sign | 0x7ff0_0000_0000_0000u64 | ((frac as u64) << 29)
    } else if exp == 0 {
        if frac == 0 {
            sign
        } else {
            let fe = normalize_subnormal(frac as int, -126);
            sign | (((fe.1 + 1023) as u64) << 52) | (((fe.0 - 0x80_0000) as u64) << 29)
        }
    } else {
        sign | (((exp + 896) as u64) << 52) | ((frac as u64) << 29)
    }
}

/// Executable form of `widen_single_bits`.
pub fn widen_single_bits_exec(b: u32) -> (r: u64)
    ensures
        r == widen_single_bits(b),
{
    let sign: u64 = if b >= 0x8000_0000 {
        0x8000_0000_0000_0000u64
    } else {
        0u64
    };
    let exp: u32 = (b >> 23) & 0xff;
    let frac: u32 = b & 0x7f_ffff;
    proof {
        assert((b >> 23) & 0xff < 0x100 && b & 0x7f_ffff < 0x80_0000) by (bit_vector);
    }
    if exp == 0xff {
        sign | 0x7ff0_0000_0000_0000u64 | ((frac as u64) << 29)
    } else if exp == 0 {
        if frac == 0 {
            sign
        } else {
            let mut f: u32 = frac;
            let mut e: i32 = -126;
            proof {
                vstd::arithmetic::power2::lemma2_to64();
            }
            while f < 0x80_0000
                invariant
                    0 < frac < 0x80_0000,
                    0 < f < 0x100_0000,
                    -149 <= e <= -126,
                    f as int == frac as int * vstd::arithmetic::power2::pow2((-126 - e) as nat),
                    normalize_subnormal(frac as int, -126) == normalize_subnormal(
                        f as int,
                        e as int,
                    ),
                decreases 0x100_0000 - f,
            {
                proof {
                    let k = (-126 - e) as nat;
                    vstd::arithmetic::power2::lemma_pow2_unfold(k + 1);
                    assert(frac as int * vstd::arithmetic::power2::pow2(k + 1) == 2 * (
                    frac as int * vstd::arithmetic::power2::pow2(k))) by (nonlinear_arith)
                        requires
                            vstd::arithmetic::power2::pow2(k + 1) == 2 * vstd::arithmetic::power2::pow2(k),
                    ;
                    assert(vstd::arithmetic::power2::pow2(k + 1) <= frac as int
                        * vstd::arithmetic::power2::pow2(k + 1)) by (nonlinear_arith)
                        requires
                            frac >= 1,
                            vstd::arithmetic::power2::pow2(k + 1) >= 0,
                    ;
                    if k + 1 >= 24 {
                        vstd::arithmetic::power2::lemma2_to64();
                        if k + 1 > 24 {
                            vstd::arithmetic::power2::lemma_pow2_strictly_increases(24, k + 1);
                        }
                        assert(false);
                    }
                    assert(normalize_subnormal(f as int, e as int) == normalize_subnormal(
                        2 * f as int,
                        e as int - 1,
                    ));
                }
                f = f * 2;
                e = e - 1;
            }
            proof {
                assert(normalize_subnormal(f as int, e as int) == (f as int, e as int));
            }
            sign | ((((e + 1023) as u64)) << 52) | (((f - 0x80_0000) as u64) << 29)
        }
    } else {
        sign | (((exp + 896) as u64) << 52) | ((frac as u64) << 29)
    }
}

/// The fixed-layout per-raster record the device reads: extent, origin
/// and scale per axis (the third axis is reserved and set to one), value
/// range, no-data sentinel and flag, and a CRS code.  Double-precision
/// fields hold bit patterns.  The host twin that is handed to the device
/// packs the three per-axis fields into arrays and pins the C layout.
#[derive(Debug, Clone, Copy, PartialEq, Eq, Structural)]
pub struct RasterInfo {
    pub size_x: u32,
    pub size_y: u32,
    pub size_z: u32,
    pub origin_x: u64,
    pub origin_y: u64,
    pub origin_z: u64,
    pub scale_x: u64,
    pub scale_y: u64,
    pub scale_z: u64,
    pub min: u64,
    pub max: u64,
    pub no_data: u64,
    pub crs_code: u16,
    pub has_no_data: u16,
}

/// The no-data field `from_raster` extracts: the double-precision bits
/// of the sentinel, or the bits of zero when the tile has none.
pub open spec fn no_data_bits_spec(raster: TypedRaster2D) -> u64 {
    match raster {
        TypedRaster2D::U8(t) => match t.no_data_value {
            Option::Some(v) => double_bits_of_u64(v as u64),
            Option::None => 0,
        },
        TypedRaster2D::U16(t) => match t.no_data_value {
            Option::Some(v) => double_bits_of_u64(v as u64),
            Option::None => 0,
        },
        TypedRaster2D::U32(t) => match t.no_data_value {
            Option::Some(v) => double_bits_of_u64(v as u64),
            Option::None => 0,
        },
        TypedRaster2D::U64(t) => match t.no_data_value {
            Option::Some(v) => double_bits_of_u64(v),
            Option::None => 0,
        },
        TypedRaster2D::I8(t) => match t.no_data_value {
            Option::Some(v) => double_bits_of_i64(v as i64),
            Option::None => 0,
        },
        TypedRaster2D::I16(t) => match t.no_data_value {
            Option::Some(v) => double_bits_of_i64(v as i64),
            Option::None => 0,
        },
        TypedRaster2D::I32(t) => match t.no_data_value {
            Option::Some(v) => double_bits_of_i64(v as i64),
            Option::None => 0,
        },
        TypedRaster2D::I64(t) => match t.no_data_value {
            Option::Some(v) => double_bits_of_i64(v),
            Option::None => 0,
        },
        TypedRaster2D::F32(t) => match t.no_data_value {
            Option::Some(v) => widen_single_bits(v),
            Option::None => 0,
        },
        TypedRaster2D::F64(t) => match t.no_data_value {
            Option::Some(v) => v,
            Option::None => 0,
        },
    }
}

/// What `from_raster` extracts from a tile: the extent is populated and
/// the third axis reserved as one, the no-data fields reflect the
/// sentinel, and origin, scale, range and the CRS code stay zero until
/// upstream provides them.
pub open spec fn raster_info_spec(raster: TypedRaster2D) -> RasterInfo {
    RasterInfo {
        size_x: raster.dimension_spec().size_x as u32,
        size_y: raster.dimension_spec().size_y as u32,
        size_z: 1,
        origin_x: 0,
        origin_y: 0,
        origin_z: 0,
        scale_x: 0,
        scale_y: 0,
        scale_z: 0,
        min: 0,
        max: 0,
        no_data: no_data_bits_spec(raster),
        crs_code: 0,
        has_no_data: if raster.has_no_data_spec() {
            1
        } else {
            0
        },
    }
}

impl RasterInfo {
    /// Extracts the record of a tile: the extent and the no-data fields
    /// are populated, the rest is zero until upstream provides it.
    pub fn from_raster(raster: &TypedRaster2D) -> (r: RasterInfo)
        ensures
            r == raster_info_spec(*raster),
    {
        let dimension = raster.dimension();
        let (no_data, has_no_data): (u64, u16) = match raster {
            TypedRaster2D::U8(t) => match t.no_data_value {
                Option::Some(v) => (u64_to_double_bits(v as u64), 1),
                Option::None => (0, 0),
            },
            TypedRaster2D::U16(t) => match t.no_data_value {
                Option::Some(v) => (u64_to_double_bits(v as u64), 1),
                Option::None => (0, 0),
            },
            TypedRaster2D::U32(t) => match t.no_data_value {
                Option::Some(v) => (u64_to_double_bits(v as u64), 1),
                Option::None => (0, 0),
            },
            TypedRaster2D::U64(t) => match t.no_data_value {
                Option::Some(v) => (u64_to_double_bits(v), 1),
                Option::None => (0, 0),
            },
            TypedRaster2D::I8(t) => match t.no_data_value {
                Option::Some(v) => (i64_to_double_bits(v as i64), 1),
                Option::None => (0, 0),
            },
            TypedRaster2D::I16(t) => match t.no_data_value {
                Option::Some(v) => (i64_to_double_bits(v as i64), 1),
                Option::None => (0, 0),
            },
            TypedRaster2D::I32(t) => match t.no_data_value {
                Option::Some(v) => (i64_to_double_bits(v as i64), 1),
                Option::None => (0, 0),
            },
            TypedRaster2D::I64(t) => match t.no_data_value {
                Option::Some(v) => (i64_to_double_bits(v), 1),
                Option::None => (0, 0),
            },
            TypedRaster2D::F32(t) => match t.no_data_value {
                Option::Some(v) => (widen_single_bits_exec(v), 1),
                Option::None => (0, 0),
            },
            TypedRaster2D::F64(t) => match t.no_data_value {
                Option::Some(v) => (v, 1),
                Option::None => (0, 0),
            },
        };
        RasterInfo {
            size_x: dimension.size_x as u32,
            size_y: dimension.size_y as u32,
            size_z: 1,
            origin_x: 0,
            origin_y: 0,
            origin_z: 0,
            scale_x: 0,
            scale_y: 0,
            scale_z: 0,
            min: 0,
            max: 0,
            no_data,
            crs_code: 0,
            has_no_data,
        }
    }
}

} // verus!
