//! Graphics API enumerants, texture color formats, and the dimension checks of textures.
use vstd::prelude::*;
use core::marker::PhantomData;

verus! {

/// Seals traits so that only this library implements them.
pub trait Sealed {

}

/// Usage pattern for a buffer, determining what kind of memory the buffer is placed in.
#[derive(Clone, Copy, Debug, PartialEq, Eq, Structural)]
pub enum Usage {
    /// The buffer will rarely be read, but modified often.
    Stream,
    /// The buffer will be read many times but not be modified often.
    Static,
    /// The buffer will be read and written often.
    Dynamic,
}

impl Usage {
    /// The graphics API's enumerant for this usage.
    pub fn gl_enum(self) -> (r: u32)
        ensures
            r == (match self {
                Usage::Stream => 0x88E0u32,
                Usage::Static => 0x88E4u32,
                Usage::Dynamic => 0x88E8u32,
            }),
    {
        match self {
            Usage::Stream => 0x88E0,
            Usage::Static => 0x88E4,
            Usage::Dynamic => 0x88E8,
        }
    }
}

/// The target a buffer is bound to.
#[derive(Clone, Copy, Debug, PartialEq, Eq, Structural)]
pub enum BufferTarget {
    ArrayBuffer,
    ElementArrayBuffer,
}

impl BufferTarget {
    /// The graphics API's enumerant for this target.
    pub fn gl_enum(self) -> (r: u32)
        ensures
            r == (match self {
                BufferTarget::ArrayBuffer => 0x8892u32,
                BufferTarget::ElementArrayBuffer => 0x8893u32,
            }),
    {
        match self {
            BufferTarget::ArrayBuffer => 0x8892,
            BufferTarget::ElementArrayBuffer => 0x8893,
        }
    }
}

/// The primitive a draw call assembles from vertices.
#[derive(Clone, Copy, Debug, PartialEq, Eq, Structural)]
pub enum DrawMode {
    Points,
    LineStrip,
    LineLoop,
    Lines,
    TriangleStrip,
    TriangleFan,
    Triangles,
}

impl DrawMode {
    /// The graphics API's enumerant for this mode.
    pub fn gl_enum(self) -> (r: u32)
        ensures
            r == (match self {
                DrawMode::Points => 0u32,
                DrawMode::LineStrip => 3u32,
                DrawMode::LineLoop => 2u32,
                DrawMode::Lines => 1u32,
                DrawMode::TriangleStrip => 5u32,
                DrawMode::TriangleFan => 6u32,
                DrawMode::Triangles => 4u32,
            }),
    {
        match self {
            DrawMode::Points => 0,
            DrawMode::LineStrip => 3,
            DrawMode::LineLoop => 2,
            DrawMode::Lines => 1,
            DrawMode::TriangleStrip => 5,
            DrawMode::TriangleFan => 6,
            DrawMode::Triangles => 4,
        }
    }
}

/// The kind of shader stage.
#[derive(Clone, Copy, Debug, PartialEq, Eq, Structural)]
pub enum ShaderType {
    Vertex,
    Fragment,
}

impl ShaderType {
    /// The graphics API's enumerant for this stage.
    pub fn gl_enum(self) -> (r: u32)
        ensures
            r == (match self {
                ShaderType::Vertex => 0x8B31u32,
                ShaderType::Fragment => 0x8B30u32,
            }),
    {
        match self {
            ShaderType::Vertex => 0x8B31,
            ShaderType::Fragment => 0x8B30,
        }
    }
}

/// The storage format of texture pixels.
#[derive(Clone, Copy, Debug, PartialEq, Eq, Structural)]
pub enum PixelFormat {
    Rgb,
    Rgba,
    Rgb32f,
    Rgba32f,
    Rgb16f,
    Rgba16f,
    R11fG11fB10f,
}

impl PixelFormat {
    /// The graphics API's enumerant for this format.
    pub fn gl_enum(self) -> (r: u32)
        ensures
            r == (match self {
                PixelFormat::Rgb => 0x1907u32,
                PixelFormat::Rgba => 0x1908u32,
                PixelFormat::Rgb32f => 0x8815u32,
                PixelFormat::Rgba32f => 0x8814u32,
                PixelFormat::Rgb16f => 0x881Bu32,
                PixelFormat::Rgba16f => 0x881Au32,
                PixelFormat::R11fG11fB10f => 0x8C3Au32,
            }),
    {
        match self {
            PixelFormat::Rgb => 0x1907,
            PixelFormat::Rgba => 0x1908,
            PixelFormat::Rgb32f => 0x8815,
            PixelFormat::Rgba32f => 0x8814,
            PixelFormat::Rgb16f => 0x881B,
            PixelFormat::Rgba16f => 0x881A,
            PixelFormat::R11fG11fB10f => 0x8C3A,
        }
    }
}

/// Error creating a texture.
#[derive(Clone, Copy, Debug, PartialEq, Eq, Structural)]
#[non_exhaustive]
pub enum TextureCreateError {
    /// A dimension is not positive, or the pixel data does not cover exactly the texture.
    InvalidDimensions,
}

impl TextureCreateError {
    /// The human-readable description of the error.
    pub fn message(&self) -> (r: &'static str)
        ensures
            r@ == "Invalid dimensions"@,
    {
        "Invalid dimensions"
    }
}

/// Whether a texture of `width` by `height` pixels can be created, given the number of
/// pixels of initial data if there is any.
pub open spec fn spec_texture_dims_ok(width: i32, height: i32, data_len: Option<usize>) -> bool {
    &&& width > 0
    &&& height > 0
    &&& data_len matches Some(n) ==> width * height == n
}

/// Checks the dimensions of a texture to create: both must be positive, and initial pixel
/// data, if given, must hold exactly `width * height` pixels.
pub fn check_texture_dims(width: i32, height: i32, data_len: Option<usize>) -> (r: Result<
    (),
    TextureCreateError,
>)
    ensures
        r is Ok <==> spec_texture_dims_ok(width, height, data_len),
        r matches Err(e) ==> e == TextureCreateError::InvalidDimensions,
{
    if width <= 0 || height <= 0 {
        return Err(TextureCreateError::InvalidDimensions);
    }
    match data_len {
        Some(n) => {
            let w = width as u64;
            let h = height as u64;
            assert(w * h <= u64::MAX) by (nonlinear_arith)
                requires
                    0 < w <= i32::MAX,
                    0 < h <= i32::MAX,
            ;
            if w * h != n as u64 {
                Err(TextureCreateError::InvalidDimensions)
            } else {
                Ok(())
            }
        },
        None => Ok(()),
    }
}

/// Whether a texture can be bound to texture unit `unit` of a context with `max_units` units.
pub fn texture_unit_in_range(unit: usize, max_units: usize) -> (r: bool)
    ensures
        r == (unit < max_units),
{
    unit < max_units
}

/// A marker for graphics objects, which belong to the context of the thread that made them:
/// it makes the type that holds it neither `Send` nor `Sync`.
pub struct NotSendSync<T>(PhantomData<std::rc::Rc<T>>);

impl<T> NotSendSync<T> {
    /// The marker.
    pub fn new() -> (r: Self) {
        NotSendSync(PhantomData)
    }
}

/// The three-channel color format with channels of type `T`.
pub struct Rgb<T>(PhantomData<T>);

/// The four-channel color format with channels of type `T`.
pub struct Rgba<T>(PhantomData<T>);

impl<T> Sealed for Rgb<T> {

}

impl<T> Sealed for Rgba<T> {

}

/// A color format of texture data: its pixel format and its number of channels.
pub trait ColorFormat: Sealed {
    /// The pixel format of the data.
    fn format() -> PixelFormat;

    /// The number of channels in a pixel.
    fn channels() -> usize;
}

impl ColorFormat for Rgb<u8> {
    fn format() -> (r: PixelFormat)
        ensures
            r == PixelFormat::Rgb,
    {
        PixelFormat::Rgb
    }

    fn channels() -> (r: usize)
        ensures
            r == 3,
    {
        3
    }
}

impl ColorFormat for Rgba<u8> {
    fn format() -> (r: PixelFormat)
        ensures
            r == PixelFormat::Rgba,
    {
        PixelFormat::Rgba
    }

    fn channels() -> (r: usize)
        ensures
            r == 4,
    {
        4
    }
}

} // verus!
