//! Author-facing shape data.
//!
//! A shape is described by two separately owned pieces: [`SmudShape`] holds
//! the per-instance appearance data (color, frame, numeric parameters) and
//! [`SmudShaders`] names the SDF and fill fragments with their schemas. All
//! scalars are raw 32-bit words; a float value is carried as its bit
//! pattern, so the core never performs floating-point arithmetic and the
//! packed wire format is bit-exact.

use vstd::prelude::*;

use crate::composer::ShaderKey;
use crate::registry::FragmentHandle;
use crate::schema::ParameterSchema;

verus! {

/// The bit pattern of the `f32` value `1.0`.
pub const ONE_F32_BITS: u32 = 0x3f80_0000;

/// One numeric parameter word of a shape. It may carry an unsigned integer
/// or the bit pattern of an `f32`; either way it is sent to the GPU as one
/// 32-bit word, and the schema decides how the shader reads it.
#[derive(Debug, Copy, Clone, Default, PartialEq, Eq, Hash, Structural)]
pub struct SmudParam(u32);

impl View for SmudParam {
    type V = u32;

    closed spec fn view(&self) -> u32 {
        self.0
    }
}

impl SmudParam {
    /// A parameter carrying an unsigned integer.
    pub fn integer(value: u32) -> (r: Self)
        ensures
            r@ == value,
    {
        SmudParam(value)
    }

    /// A parameter carrying an arbitrary word, such as an `f32` bit
    /// pattern.
    pub fn from_bits(bits: u32) -> (r: Self)
        ensures
            r@ == bits,
    {
        SmudParam(bits)
    }

    /// The word this parameter is sent as.
    pub fn bits(self) -> (r: u32)
        ensures
            r == self@,
    {
        self.0
    }
}

/// The outer bounds of a shape: how far from its center the fragment
/// shader is rasterized. Should be larger than the shape unless clipping is
/// wanted.
#[derive(Debug, Clone, Copy, PartialEq, Eq, Structural)]
pub enum Frame {
    /// A quad with the given half-extent, carried as an `f32` bit pattern.
    Quad(u32),
}

/// The half-extent word of a frame.
pub open spec fn frame_bits(f: Frame) -> u32 {
    match f {
        Frame::Quad(b) => b,
    }
}

impl Frame {
    /// The half-extent word of this frame.
    pub fn bits(self) -> (r: u32)
        ensures
            r == frame_bits(self),
    {
        match self {
            Frame::Quad(b) => b,
        }
    }
}

impl Default for Frame {
    /// A quad of half-extent `1.0`.
    fn default() -> (r: Self)
        ensures
            frame_bits(r) == ONE_F32_BITS,
    {
        Frame::Quad(ONE_F32_BITS)
    }
}

/// An RGBA color, each channel the bit pattern of an `f32` in linear
/// color space.
#[derive(Debug, Clone, Copy, PartialEq, Eq, Structural)]
pub struct ShapeColor {
    /// Red channel word.
    pub red: u32,
    /// Green channel word.
    pub green: u32,
    /// Blue channel word.
    pub blue: u32,
    /// Alpha channel word.
    pub alpha: u32,
}

impl Default for ShapeColor {
    /// Opaque pink, the conventional "no color given" marker.
    fn default() -> (r: Self)
        ensures
            r.red == ONE_F32_BITS,
            r.green == 0x3da3_d70a,
            r.blue == 0x3f14_7ae1,
            r.alpha == ONE_F32_BITS,
    {
        ShapeColor {
            red: ONE_F32_BITS,
            green: 0x3da3_d70a,
            blue: 0x3f14_7ae1,
            alpha: ONE_F32_BITS,
        }
    }
}

/// A shape's placement in the world, already decomposed into the packed
/// form the instance buffer carries: translation, the first column of the
/// rotation (cosine and sine of the angle), and a uniform scale. Every
/// entry is an `f32` bit pattern.
#[derive(Debug, Clone, Copy, PartialEq, Eq, Structural)]
pub struct ShapeTransform {
    /// World translation word of the x axis.
    pub position_x: u32,
    /// World translation word of the y axis.
    pub position_y: u32,
    /// World translation word of the z axis (the depth sort key).
    pub position_z: u32,
    /// Rotation word: cosine of the angle.
    pub rotation_cos: u32,
    /// Rotation word: sine of the angle.
    pub rotation_sin: u32,
    /// Uniform scale word.
    pub scale: u32,
}

/// Describes an SDF shape's appearance. Used together with `SmudShaders`.
#[derive(Debug)]
pub struct SmudShape {
    /// The color handed to the fill function.
    pub color: ShapeColor,
    /// The outer bounds for the shape.
    pub frame: Frame,
    /// Words handed to float parameter slots, in slot order.
    pub float_params: Vec<SmudParam>,
    /// Words handed to uint parameter slots, in slot order.
    pub uint_params: Vec<SmudParam>,
}

impl Default for SmudShape {
    /// A pink unit quad without parameters.
    fn default() -> (r: Self)
        ensures
            r.color.red == ONE_F32_BITS,
            r.color.green == 0x3da3_d70a,
            r.color.blue == 0x3f14_7ae1,
            r.color.alpha == ONE_F32_BITS,
            frame_bits(r.frame) == ONE_F32_BITS,
            r.float_params@ == Seq::<SmudParam>::empty(),
            r.uint_params@ == Seq::<SmudParam>::empty(),
    {
        SmudShape {
            color: ShapeColor {
                red: ONE_F32_BITS,
                green: 0x3da3_d70a,
                blue: 0x3f14_7ae1,
                alpha: ONE_F32_BITS,
            },
            frame: Frame::Quad(ONE_F32_BITS),
            float_params: Vec::new(),
            uint_params: Vec::new(),
        }
    }
}

/// Names the two shader fragments a shape is drawn with, and the parameter
/// slots each consumes. Used together with `SmudShape`.
#[derive(Debug)]
pub struct SmudShaders {
    /// The fragment whose WGSL defines `sdf(p, ...) -> f32`.
    pub sdf: FragmentHandle,
    /// The fragment whose WGSL defines `fill(d, color, p, ...) -> vec4<f32>`.
    pub fill: FragmentHandle,
    /// Which slots are passed to the sdf function.
    pub sdf_schema: ParameterSchema,
    /// Which slots are passed to the fill function.
    pub fill_schema: ParameterSchema,
}

/// The cache key a shape resolves to: both fragment handles and both
/// schemas.
pub open spec fn shaders_key(s: SmudShaders, k: ShaderKey) -> bool {
    k.sdf_shader == s.sdf && k.fill_shader == s.fill && k.sdf_schema@ == s.sdf_schema@
        && k.fill_schema@ == s.fill_schema@
}

impl SmudShaders {
    /// The [`ShaderKey`] identifying this combination.
    pub fn shader_key(&self) -> (r: ShaderKey)
        ensures
            shaders_key(*self, r),
    {
        ShaderKey {
            sdf_shader: self.sdf,
            fill_shader: self.fill,
            sdf_schema: self.sdf_schema.duplicate(),
            fill_schema: self.fill_schema.duplicate(),
        }
    }
}

} // verus!
