//! Settings and lattice geometry of the wrapped 3D gradient-noise density
//! field.
//!
//! The field is computed in two steps. A coarse lattice of noise samples is
//! taken every `scale` blocks along each axis, one layer beyond the region on
//! each side; then the lattice is expanded into one value per block by
//! trilinear interpolation. This module holds the integer side of that work:
//! the settings and their validation, the sampling request handed to the
//! noise source, and the layouts of the lattice and of the dense field.
//!
//! Frequency and amplitude are single-precision floats. They are held here
//! as their IEEE-754 bit patterns (`f32::to_bits`), which the settings only
//! carry through to the noise source and to the amplification step.

use vstd::arithmetic::div_mod::{
    lemma_div_denominator, lemma_fundamental_div_mod, lemma_fundamental_div_mod_converse,
};
use vstd::prelude::*;

verus! {

/// Bit pattern of the default frequency, `0.02_f32`.
pub const DEFAULT_FREQUENCY_BITS: u32 = 0x3CA3_D70A;

/// Bit pattern of the default amplitude, `400.0_f32`.
pub const DEFAULT_AMPLITUDE_BITS: u32 = 0x43C8_0000;

/// Settings of one density-field generation.
///
/// The X and Z offsets are region coordinates: the field's absolute origin
/// is the offset times the horizontal size.
#[derive(Clone, Copy, Debug)]
pub struct Wrapped3DPerlinNoise {
    /// The seed used for noise generation.
    seed: u64,
    /// The frequency, as an `f32` bit pattern.
    frequency_bits: u32,
    /// The amplitude, as an `f32` bit pattern.
    amplitude_bits: u32,
    /// The size of the region along the X and Z axes.
    size_horizontal: u32,
    /// The size of the region along the Y axis.
    size_vertical: u32,
    /// The region coordinate along the X axis.
    offset_x: i32,
    /// The region coordinate along the Z axis.
    offset_z: i32,
    /// The lattice step along the X and Z axes; must divide `size_horizontal`.
    scale_horizontal: u32,
    /// The lattice step along the Y axis; must divide `size_vertical`.
    scale_vertical: u32,
}

/// The abstract value of a [`Wrapped3DPerlinNoise`].
pub ghost struct NoiseSettings {
    pub seed: u64,
    pub frequency_bits: u32,
    pub amplitude_bits: u32,
    pub size_horizontal: u32,
    pub size_vertical: u32,
    pub offset_x: i32,
    pub offset_z: i32,
    pub scale_horizontal: u32,
    pub scale_vertical: u32,
}

impl View for Wrapped3DPerlinNoise {
    type V = NoiseSettings;

    closed spec fn view(&self) -> NoiseSettings {
        NoiseSettings {
            seed: self.seed,
            frequency_bits: self.frequency_bits,
            amplitude_bits: self.amplitude_bits,
            size_horizontal: self.size_horizontal,
            size_vertical: self.size_vertical,
            offset_x: self.offset_x,
            offset_z: self.offset_z,
            scale_horizontal: self.scale_horizontal,
            scale_vertical: self.scale_vertical,
        }
    }
}

/// Why settings cannot be used to generate a field.
#[derive(Clone, Copy, Debug, PartialEq, Eq, Structural)]
pub enum NoiseError {
    /// A size or a scale is zero, or a scale does not divide its size.
    InvalidScale,
    /// The field or the lattice has more values than memory can index.
    TooLarge,
}

/// What is asked of the noise source: `count_x * count_y * count_z` samples
/// on the unit grid starting at the origin, in Y, then Z, then X major order.
#[derive(Clone, Copy, Debug, PartialEq, Eq, Structural)]
pub struct SampleRequest {
    pub origin_x: i64,
    pub origin_y: i64,
    pub origin_z: i64,
    pub count_x: usize,
    pub count_y: usize,
    pub count_z: usize,
}

/// Every size and scale is positive and each scale divides its size.
pub open spec fn scales_valid(c: NoiseSettings) -> bool {
    &&& c.size_horizontal > 0
    &&& c.size_vertical > 0
    &&& c.scale_horizontal > 0
    &&& c.scale_vertical > 0
    &&& c.size_horizontal % c.scale_horizontal == 0
    &&& c.size_vertical % c.scale_vertical == 0
}

/// Number of interpolation cells along X and along Z.
pub open spec fn subchunks_horizontal(c: NoiseSettings) -> int {
    c.size_horizontal as int / c.scale_horizontal as int
}

/// Number of interpolation cells along Y.
pub open spec fn subchunks_vertical(c: NoiseSettings) -> int {
    c.size_vertical as int / c.scale_vertical as int
}

/// Number of lattice points along X and along Z.
pub open spec fn lattice_width(c: NoiseSettings) -> int {
    subchunks_horizontal(c) + 1
}

/// Number of lattice points along Y.
pub open spec fn lattice_height(c: NoiseSettings) -> int {
    subchunks_vertical(c) + 1
}

/// Number of values in the lattice.
pub open spec fn lattice_len(c: NoiseSettings) -> int {
    lattice_width(c) * lattice_width(c) * lattice_height(c)
}

/// Number of values in the dense field.
pub open spec fn dense_len(c: NoiseSettings) -> int {
    c.size_horizontal as int * c.size_horizontal as int * c.size_vertical as int
}

/// Both the lattice and the dense field can be indexed by `usize`.
pub open spec fn fits(c: NoiseSettings) -> bool {
    &&& lattice_len(c) <= usize::MAX
    &&& dense_len(c) <= usize::MAX
}

/// The settings can be used to generate a field.
pub open spec fn valid(c: NoiseSettings) -> bool {
    scales_valid(c) && fits(c)
}

/// Position of lattice point `(x, y, z)` in the lattice.
pub open spec fn lattice_index(c: NoiseSettings, x: int, y: int, z: int) -> int {
    y * (lattice_width(c) * lattice_width(c)) + z * lattice_width(c) + x
}

/// Position of block `(x, y, z)` in the dense field.
pub open spec fn voxel_index(c: NoiseSettings, x: int, y: int, z: int) -> int {
    y * (c.size_horizontal as int * c.size_horizontal as int) + z * c.size_horizontal as int + x
}

/// Lattice coordinate of the region's first lattice point along the X axis.
/// The region offset is divided by the scale up front, so the lattice, not
/// the field, is the unit of translation in noise space.
pub open spec fn origin_x(c: NoiseSettings) -> int {
    subchunks_horizontal(c) * c.offset_x as int
}

/// Lattice coordinate of the region's first lattice point along the Z axis.
pub open spec fn origin_z(c: NoiseSettings) -> int {
    subchunks_horizontal(c) * c.offset_z as int
}

/// The sampling request for settings `c`, or why there is none.
pub open spec fn request_of(c: NoiseSettings) -> Result<SampleRequest, NoiseError> {
    if !scales_valid(c) {
        Err(NoiseError::InvalidScale)
    } else if !fits(c) {
        Err(NoiseError::TooLarge)
    } else {
        Ok(
            SampleRequest {
                origin_x: origin_x(c) as i64,
                origin_y: 0,
                origin_z: origin_z(c) as i64,
                count_x: lattice_width(c) as usize,
                count_y: lattice_height(c) as usize,
                count_z: lattice_width(c) as usize,
            },
        )
    }
}

/// `y * (s * s) + z * s + x` lies below `v * (s * s)` for coordinates in
/// range, and so do its partial sums.
proof fn lemma_index_bound(x: int, y: int, z: int, s: int, v: int)
    requires
        0 <= x < s,
        0 <= z < s,
        0 <= y < v,
    ensures
        0 <= z * s + x < s * s,
        0 <= y * (s * s) <= (v - 1) * (s * s),
        y * (s * s) + z * s + x < v * (s * s),
        s * s <= v * (s * s),
{
    assert(0 <= z * s <= (s - 1) * s) by (nonlinear_arith)
        requires
            0 <= z < s,
    ;
    assert((s - 1) * s + s == s * s) by (nonlinear_arith);
    assert(0 <= y * (s * s) <= (v - 1) * (s * s)) by (nonlinear_arith)
        requires
            0 <= y < v,
            s > 0,
    ;
    assert((v - 1) * (s * s) + s * s == v * (s * s)) by (nonlinear_arith);
    assert(s * s <= v * (s * s)) by (nonlinear_arith)
        requires
            v >= 1,
            s > 0,
    ;
}

/// A cell count times a region coordinate fits in `i64`.
proof fn lemma_offset_product(n: int, k: int)
    requires
        0 <= n <= u32::MAX,
        i32::MIN <= k <= i32::MAX,
    ensures
        i64::MIN <= n * k <= i64::MAX,
{
    assert(n * k <= 0xFFFF_FFFF * 0x8000_0000) by (nonlinear_arith)
        requires
            0 <= n <= 0xFFFF_FFFF,
            -0x8000_0000 <= k <= 0x7FFF_FFFF,
    ;
    assert(n * k >= -(0xFFFF_FFFF * 0x8000_0000)) by (nonlinear_arith)
        requires
            0 <= n <= 0xFFFF_FFFF,
            -0x8000_0000 <= k <= 0x7FFF_FFFF,
    ;
}

impl Wrapped3DPerlinNoise {
    /// Default settings with the given seed: a 16 x 256 x 16 region at
    /// region coordinates (0, 0), lattice steps of 4 horizontally and 8
    /// vertically, frequency 0.02 and amplitude 400.
    pub fn new(seed: u64) -> (r: Self)
        ensures
            r@ == (NoiseSettings {
                seed,
                frequency_bits: DEFAULT_FREQUENCY_BITS,
                amplitude_bits: DEFAULT_AMPLITUDE_BITS,
                size_horizontal: 16,
                size_vertical: 256,
                offset_x: 0,
                offset_z: 0,
                scale_horizontal: 4,
                scale_vertical: 8,
            }),
            valid(r@),
    {
        let r = Self {
            seed,
            frequency_bits: DEFAULT_FREQUENCY_BITS,
            amplitude_bits: DEFAULT_AMPLITUDE_BITS,
            size_horizontal: 16,
            size_vertical: 256,
            offset_x: 0,
            offset_z: 0,
            scale_horizontal: 4,
            scale_vertical: 8,
        };
        assert(lattice_len(r@) == 5 * 5 * 33);
        r
    }

    /// Sets the frequency, given as an `f32` bit pattern.
    pub fn with_frequency(self, frequency_bits: u32) -> (r: Self)
        ensures
            r@ == (NoiseSettings { frequency_bits, ..self@ }),
    {
        Self { frequency_bits, ..self }
    }

    /// Sets the amplitude, given as an `f32` bit pattern.
    pub fn with_amplitude(self, amplitude_bits: u32) -> (r: Self)
        ensures
            r@ == (NoiseSettings { amplitude_bits, ..self@ }),
    {
        Self { amplitude_bits, ..self }
    }

    /// Sets the size of the region: `xz` along X and Z, `y` along Y.
    pub fn with_size(self, xz: u32, y: u32) -> (r: Self)
        ensures
            r@ == (NoiseSettings { size_horizontal: xz, size_vertical: y, ..self@ }),
    {
        Self { size_horizontal: xz, size_vertical: y, ..self }
    }

    /// Sets the region coordinates along X and Z. They are multiplied by the
    /// horizontal size to obtain absolute coordinates.
    pub fn with_offset(self, x: i32, z: i32) -> (r: Self)
        ensures
            r@ == (NoiseSettings { offset_x: x, offset_z: z, ..self@ }),
    {
        Self { offset_x: x, offset_z: z, ..self }
    }

    /// Sets the lattice steps along X and Z (`horizontal`) and along Y
    /// (`vertical`). Values between lattice points are interpolated.
    pub fn with_scale(self, horizontal: u32, vertical: u32) -> (r: Self)
        ensures
            r@ == (NoiseSettings { scale_horizontal: horizontal, scale_vertical: vertical, ..self@ }),
    {
        Self { scale_horizontal: horizontal, scale_vertical: vertical, ..self }
    }

    /// The seed.
    pub fn seed(&self) -> (r: u64)
        ensures
            r == self@.seed,
    {
        self.seed
    }

    /// The frequency, as an `f32` bit pattern.
    pub fn frequency_bits(&self) -> (r: u32)
        ensures
            r == self@.frequency_bits,
    {
        self.frequency_bits
    }

    /// The amplitude, as an `f32` bit pattern.
    pub fn amplitude_bits(&self) -> (r: u32)
        ensures
            r == self@.amplitude_bits,
    {
        self.amplitude_bits
    }

    /// The size of the region along X and Z.
    pub fn size_horizontal(&self) -> (r: u32)
        ensures
            r == self@.size_horizontal,
    {
        self.size_horizontal
    }

    /// The size of the region along Y.
    pub fn size_vertical(&self) -> (r: u32)
        ensures
            r == self@.size_vertical,
    {
        self.size_vertical
    }

    /// The region coordinate along X.
    pub fn offset_x(&self) -> (r: i32)
        ensures
            r == self@.offset_x,
    {
        self.offset_x
    }

    /// The region coordinate along Z.
    pub fn offset_z(&self) -> (r: i32)
        ensures
            r == self@.offset_z,
    {
        self.offset_z
    }

    /// The lattice step along X and Z.
    pub fn scale_horizontal(&self) -> (r: u32)
        ensures
            r == self@.scale_horizontal,
    {
        self.scale_horizontal
    }

    /// The lattice step along Y.
    pub fn scale_vertical(&self) -> (r: u32)
        ensures
            r == self@.scale_vertical,
    {
        self.scale_vertical
    }

    /// Number of values in the dense field: one per block of the region.
    pub fn field_len(&self) -> (r: usize)
        requires
            valid(self@),
        ensures
            r == dense_len(self@),
    {
        let s: usize = self.size_horizontal as usize;
        proof {
            let v = self@.size_vertical as int;
            assert(s * s <= s * s * v) by (nonlinear_arith)
                requires
                    v >= 1,
            ;
        }
        s * s * (self.size_vertical as usize)
    }

    /// Number of values in the lattice.
    pub fn lattice_len(&self) -> (r: usize)
        requires
            valid(self@),
        ensures
            r == lattice_len(self@),
    {
        proof {
            let w = lattice_width(self@);
            let h = lattice_height(self@);
            assert(w <= w * w <= w * w * h && h <= w * w * h) by (nonlinear_arith)
                requires
                    w >= 1,
                    h >= 1,
            ;
        }
        let w: usize = (self.size_horizontal / self.scale_horizontal) as usize + 1;
        let h: usize = (self.size_vertical / self.scale_vertical) as usize + 1;
        w * w * h
    }

    /// The sampling request that these settings make of the noise source:
    /// `InvalidScale` unless every size and scale is positive and each scale
    /// divides its size, `TooLarge` unless the lattice and the field can be
    /// indexed by `usize`, and otherwise a request for the lattice, offset
    /// by the region coordinates times the number of cells per region.
    pub fn sample_request(&self) -> (r: Result<SampleRequest, NoiseError>)
        ensures
            r == request_of(self@),
    {
        if self.size_horizontal == 0 || self.size_vertical == 0 || self.scale_horizontal == 0
            || self.scale_vertical == 0 || self.size_horizontal % self.scale_horizontal != 0
            || self.size_vertical % self.scale_vertical != 0 {
            return Err(NoiseError::InvalidScale);
        }
        let sub_h: u32 = self.size_horizontal / self.scale_horizontal;
        let sub_v: u32 = self.size_vertical / self.scale_vertical;
        let width: u128 = sub_h as u128 + 1;
        let height: u128 = sub_v as u128 + 1;
        let sh: u128 = self.size_horizontal as u128;
        let sv: u128 = self.size_vertical as u128;
        assert(width * width <= 0x1_0000_0000u128 * 0x1_0000_0000u128) by (nonlinear_arith)
            requires
                1 <= width <= 0x1_0000_0000u128,
        ;
        assert(width * width * height <= 0x1_0000_0000_0000_0000u128 * 0x1_0000_0000u128)
            by (nonlinear_arith)
            requires
                width * width <= 0x1_0000_0000_0000_0000u128,
                1 <= height <= 0x1_0000_0000u128,
        ;
        assert(sh * sh <= 0x1_0000_0000u128 * 0x1_0000_0000u128) by (nonlinear_arith)
            requires
                sh <= 0x1_0000_0000u128,
        ;
        assert(sh * sh * sv <= 0x1_0000_0000_0000_0000u128 * 0x1_0000_0000u128) by (nonlinear_arith)
            requires
                sh * sh <= 0x1_0000_0000_0000_0000u128,
                sv <= 0x1_0000_0000u128,
        ;
        let lattice: u128 = width * width * height;
        let dense: u128 = sh * sh * sv;
        if lattice > usize::MAX as u128 || dense > usize::MAX as u128 {
            return Err(NoiseError::TooLarge);
        }
        proof {
            lemma_offset_product(sub_h as int, self.offset_x as int);
            lemma_offset_product(sub_h as int, self.offset_z as int);
            assert(width <= width * width * height && height <= width * width * height)
                by (nonlinear_arith)
                requires
                    width >= 1,
                    height >= 1,
            ;
        }
        Ok(
            SampleRequest {
                origin_x: sub_h as i64 * self.offset_x as i64,
                origin_y: 0,
                origin_z: sub_h as i64 * self.offset_z as i64,
                count_x: (sub_h as usize) + 1,
                count_y: (sub_v as usize) + 1,
                count_z: (sub_h as usize) + 1,
            },
        )
    }

    /// Position of lattice point `(x, y, z)` in the lattice returned by the
    /// noise source.
    pub fn uninterpolated_index(&self, x: usize, y: usize, z: usize) -> (r: usize)
        requires
            valid(self@),
            x <= subchunks_horizontal(self@),
            y <= subchunks_vertical(self@),
            z <= subchunks_horizontal(self@),
        ensures
            r == lattice_index(self@, x as int, y as int, z as int),
            r < lattice_len(self@),
    {
        proof {
            let w = lattice_width(self@);
            let h = lattice_height(self@);
            assert(w * w * h == h * (w * w) && w <= w * w * h) by (nonlinear_arith)
                requires
                    w >= 1,
                    h >= 1,
            ;
        }
        let length: usize = (self.size_horizontal / self.scale_horizontal) as usize + 1;
        proof {
            lemma_index_bound(x as int, y as int, z as int, length as int, lattice_height(self@));
        }
        y * (length * length) + (z * length) + x
    }

    /// Position of block `(x, y, z)` of the region in the dense field.
    pub fn voxel_index(&self, x: usize, y: usize, z: usize) -> (r: usize)
        requires
            valid(self@),
            x < self@.size_horizontal,
            y < self@.size_vertical,
            z < self@.size_horizontal,
        ensures
            r == voxel_index(self@, x as int, y as int, z as int),
            r < dense_len(self@),
    {
        let size: usize = self.size_horizontal as usize;
        proof {
            lemma_index_bound(x as int, y as int, z as int, size as int, self@.size_vertical as int);
            assert(size as int * size as int * self@.size_vertical as int == self@.size_vertical as int
                * (size as int * size as int)) by (nonlinear_arith);
        }
        y * (size * size) + (z * size) + x
    }
}

/// Position of block `(x, y, z)` in a 16-wide chunk column: the dense-field
/// layout of regions that are 16 blocks wide.
pub fn index(x: usize, y: usize, z: usize) -> (r: usize)
    requires
        x < 16,
        z < 16,
        y * 256 + 255 <= usize::MAX,
    ensures
        r == y * 256 + z * 16 + x,
{
    let (xx, yy, zz) = (x as u64, y as u64, z as u64);
    assert(yy < 0x100_0000_0000_0000u64);
    assert(((yy << 8u64) | (zz << 4u64)) | xx == yy * 256 + zz * 16 + xx) by (bit_vector)
        requires
            xx < 16,
            zz < 16,
            yy < 0x100_0000_0000_0000u64,
    ;
    (((yy << 8u64) | (zz << 4u64)) | xx) as usize
}

/// `a1 * m + b1 == a2 * m + b2` with both remainders below `m` only when
/// the pairs are equal.
proof fn lemma_digits_unique(a1: int, b1: int, a2: int, b2: int, m: int)
    requires
        m > 0,
        0 <= b1 < m,
        0 <= b2 < m,
        a1 * m + b1 == a2 * m + b2,
    ensures
        a1 == a2,
        b1 == b2,
{
    lemma_fundamental_div_mod_converse(a1 * m + b1, m, a1, b1);
    lemma_fundamental_div_mod_converse(a2 * m + b2, m, a2, b2);
}

/// The dense-field layout is a bijection between the blocks of the region
/// and the positions `0 .. dense_len`: each block has a position in range,
/// no two blocks share one, and position `i` is the block
/// `(i % size, i / size^2, (i / size) % size)`. A buffer of `dense_len`
/// values thus holds exactly one value per block.
pub proof fn lemma_voxel_layout(
    c: NoiseSettings,
    x1: int,
    y1: int,
    z1: int,
    x2: int,
    y2: int,
    z2: int,
    i: int,
)
    requires
        c.size_horizontal > 0,
        c.size_vertical > 0,
        0 <= x1 < c.size_horizontal,
        0 <= y1 < c.size_vertical,
        0 <= z1 < c.size_horizontal,
        0 <= x2 < c.size_horizontal,
        0 <= y2 < c.size_vertical,
        0 <= z2 < c.size_horizontal,
        0 <= i < dense_len(c),
    ensures
        0 <= voxel_index(c, x1, y1, z1) < dense_len(c),
        voxel_index(c, x1, y1, z1) == voxel_index(c, x2, y2, z2) ==> x1 == x2 && y1 == y2 && z1
            == z2,
        ({
            let s = c.size_horizontal as int;
            &&& 0 <= i / (s * s) < c.size_vertical
            &&& 0 <= (i / s) % s < s
            &&& 0 <= i % s < s
            &&& voxel_index(c, i % s, i / (s * s), (i / s) % s) == i
        }),
{
    let s = c.size_horizontal as int;
    let v = c.size_vertical as int;
    lemma_index_bound(x1, y1, z1, s, v);
    lemma_index_bound(x2, y2, z2, s, v);
    assert(s * s * v == v * (s * s)) by (nonlinear_arith);
    if voxel_index(c, x1, y1, z1) == voxel_index(c, x2, y2, z2) {
        lemma_digits_unique(y1, z1 * s + x1, y2, z2 * s + x2, s * s);
        assert(z1 * s + x1 == z2 * s + x2);
        lemma_digits_unique(z1, x1, z2, x2, s);
    }
    // Decompose i into its three digits.
    lemma_fundamental_div_mod(i, s);
    lemma_fundamental_div_mod(i / s, s);
    lemma_div_denominator(i, s, s);
    let q = i / s;
    let x = i % s;
    let z = q % s;
    let y = q / s;
    assert(0 <= q) by (nonlinear_arith)
        requires
            0 <= i,
            s > 0,
            q == i / s,
    ;
    assert(0 <= x < s && 0 <= z < s);
    assert(0 <= y) by (nonlinear_arith)
        requires
            0 <= q,
            s > 0,
            y == q / s,
    ;
    assert(i == y * (s * s) + z * s + x) by (nonlinear_arith)
        requires
            i == s * q + x,
            q == s * y + z,
    ;
    if y >= v {
        assert(y * (s * s) >= v * (s * s)) by (nonlinear_arith)
            requires
                y >= v,
                s > 0,
        ;
    }
}

/// The interpolation cells tile the region along each axis. With `size`
/// blocks and a lattice step `scale` that divides it, block `sub * scale +
/// block` of cell `sub` at step `block` lies in the region, no two (cell,
/// step) pairs reach the same block, and block `x` is reached by cell
/// `x / scale` at step `x % scale`. Visiting every cell and every step thus
/// writes every block of the field exactly once.
pub proof fn lemma_cells_tile_axis(
    size: int,
    scale: int,
    sub1: int,
    block1: int,
    sub2: int,
    block2: int,
    x: int,
)
    requires
        size > 0,
        scale > 0,
        size % scale == 0,
        0 <= sub1 < size / scale,
        0 <= block1 < scale,
        0 <= sub2 < size / scale,
        0 <= block2 < scale,
        0 <= x < size,
    ensures
        0 <= sub1 * scale + block1 < size,
        sub1 * scale + block1 == sub2 * scale + block2 ==> sub1 == sub2 && block1 == block2,
        0 <= x / scale < size / scale,
        0 <= x % scale < scale,
        x == (x / scale) * scale + x % scale,
{
    let n = size / scale;
    lemma_fundamental_div_mod(size, scale);
    assert(size == n * scale);
    assert(0 <= sub1 * scale + block1 < size) by (nonlinear_arith)
        requires
            0 <= sub1 < n,
            0 <= block1 < scale,
            size == n * scale,
    ;
    if sub1 * scale + block1 == sub2 * scale + block2 {
        lemma_digits_unique(sub1, block1, sub2, block2, scale);
    }
    lemma_fundamental_div_mod(x, scale);
    assert(x == (x / scale) * scale + x % scale) by (nonlinear_arith)
        requires
            x == scale * (x / scale) + x % scale,
    ;
    assert(0 <= x / scale < n) by (nonlinear_arith)
        requires
            0 <= x < size,
            size == n * scale,
            scale > 0,
            x == (x / scale) * scale + x % scale,
            0 <= x % scale < scale,
    ;
}

/// Neighbouring regions along X share a lattice plane. For settings `b`
/// that differ from `a` only in having the next region coordinate along X,
/// both requests ask for the same counts at the same Y and Z origin, and the
/// first lattice column of `b` is the last lattice column of `a`: the two
/// regions read one continuous noise lattice, with no seam between them.
pub proof fn lemma_seam_x(a: NoiseSettings, b: NoiseSettings)
    requires
        b.offset_x == a.offset_x + 1,
        b == (NoiseSettings { offset_x: b.offset_x, ..a }),
        request_of(a) is Ok,
    ensures
        request_of(b) is Ok,
        request_of(b)->Ok_0.origin_x == request_of(a)->Ok_0.origin_x + request_of(a)->Ok_0.count_x
            - 1,
        request_of(b)->Ok_0.origin_y == request_of(a)->Ok_0.origin_y,
        request_of(b)->Ok_0.origin_z == request_of(a)->Ok_0.origin_z,
        request_of(b)->Ok_0.count_x == request_of(a)->Ok_0.count_x,
        request_of(b)->Ok_0.count_y == request_of(a)->Ok_0.count_y,
        request_of(b)->Ok_0.count_z == request_of(a)->Ok_0.count_z,
{
    let n = subchunks_horizontal(a);
    assert(n >= 0);
    lemma_offset_product(n, a.offset_x as int);
    lemma_offset_product(n, b.offset_x as int);
    assert(n * b.offset_x == n * a.offset_x + n) by (nonlinear_arith)
        requires
            b.offset_x == a.offset_x + 1,
    ;
    let w = lattice_width(a);
    let h = lattice_height(a);
    assert(w <= w * w * h) by (nonlinear_arith)
        requires
            w >= 1,
            h >= 1,
    ;
}

/// Neighbouring regions along Z share a lattice plane, as along X.
pub proof fn lemma_seam_z(a: NoiseSettings, b: NoiseSettings)
    requires
        b.offset_z == a.offset_z + 1,
        b == (NoiseSettings { offset_z: b.offset_z, ..a }),
        request_of(a) is Ok,
    ensures
        request_of(b) is Ok,
        request_of(b)->Ok_0.origin_z == request_of(a)->Ok_0.origin_z + request_of(a)->Ok_0.count_z
            - 1,
        request_of(b)->Ok_0.origin_x == request_of(a)->Ok_0.origin_x,
        request_of(b)->Ok_0.origin_y == request_of(a)->Ok_0.origin_y,
        request_of(b)->Ok_0.count_x == request_of(a)->Ok_0.count_x,
        request_of(b)->Ok_0.count_y == request_of(a)->Ok_0.count_y,
        request_of(b)->Ok_0.count_z == request_of(a)->Ok_0.count_z,
{
    let n = subchunks_horizontal(a);
    assert(n >= 0);
    lemma_offset_product(n, a.offset_z as int);
    lemma_offset_product(n, b.offset_z as int);
    assert(n * b.offset_z == n * a.offset_z + n) by (nonlinear_arith)
        requires
            b.offset_z == a.offset_z + 1,
    ;
    let w = lattice_width(a);
    let h = lattice_height(a);
    assert(w <= w * w * h) by (nonlinear_arith)
        requires
            w >= 1,
            h >= 1,
    ;
}

/// Generation is a function of the settings alone: settings with the same
/// value make the same request of the noise source, and the layouts that
/// the field is read and written through are the same.
pub proof fn lemma_deterministic(a: Wrapped3DPerlinNoise, b: Wrapped3DPerlinNoise)
    requires
        a@ == b@,
    ensures
        request_of(a@) == request_of(b@),
        dense_len(a@) == dense_len(b@),
        forall|x: int, y: int, z: int|
            lattice_index(a@, x, y, z) == lattice_index(b@, x, y, z) && voxel_index(a@, x, y, z)
                == voxel_index(b@, x, y, z),
{
}

} // verus!
