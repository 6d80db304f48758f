use hypatia::gl::{
    check_texture_dims, texture_unit_in_range, NotSendSync, BufferTarget, ColorFormat, DrawMode, PixelFormat,
    Rgb, Rgba, ShaderType, TextureCreateError, Usage,
};

#[test]
fn texture_dimensions() {
    assert_eq!(check_texture_dims(1920, 1080, None), Ok(()));
    assert_eq!(check_texture_dims(2, 3, Some(6)), Ok(()));
    assert_eq!(
        check_texture_dims(2, 3, Some(5)),
        Err(TextureCreateError::InvalidDimensions)
    );
    assert_eq!(
        check_texture_dims(0, 3, None),
        Err(TextureCreateError::InvalidDimensions)
    );
    assert_eq!(
        check_texture_dims(3, -1, Some(0)),
        Err(TextureCreateError::InvalidDimensions)
    );
    assert_eq!(
        TextureCreateError::InvalidDimensions.message(),
        "Invalid dimensions"
    );
}

#[test]
fn texture_units() {
    assert!(texture_unit_in_range(0, 16));
    assert!(texture_unit_in_range(15, 16));
    assert!(!texture_unit_in_range(16, 16));
}

#[test]
fn gl_enumerants() {
    assert_eq!(Usage::Static.gl_enum(), 0x88E4);
    assert_eq!(BufferTarget::ArrayBuffer.gl_enum(), 0x8892);
    assert_eq!(BufferTarget::ElementArrayBuffer.gl_enum(), 0x8893);
    assert_eq!(DrawMode::Triangles.gl_enum(), 0x0004);
    assert_eq!(ShaderType::Vertex.gl_enum(), 0x8B31);
    assert_eq!(ShaderType::Fragment.gl_enum(), 0x8B30);
    assert_eq!(PixelFormat::Rgba.gl_enum(), 0x1908);
    assert_eq!(<Rgb<u8> as ColorFormat>::format(), PixelFormat::Rgb);
    assert_eq!(<Rgb<u8> as ColorFormat>::channels(), 3);
    assert_eq!(<Rgba<u8> as ColorFormat>::format(), PixelFormat::Rgba);
    assert_eq!(<Rgba<u8> as ColorFormat>::channels(), 4);
}

#[test]
fn marker_is_made() {
    let _marker: NotSendSync<()> = NotSendSync::new();
}
