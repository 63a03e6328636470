use hgl::buffer::{BufferUsage, VboUsage};
use hgl::native;
use hgl::query::QueryTarget;
use hgl::texture::pixel::{PixelFormat, PixelType};
use hgl::texture::{FilterMethod, TextureTarget, WrapMode};
use hgl::{Primitive, ShaderType};

#[test]
fn primitive_constants_are_the_drivers() {
    assert_eq!(Primitive::Points.to_glenum(), gl::POINTS);
    assert_eq!(Primitive::Lines.to_glenum(), gl::LINES);
    assert_eq!(Primitive::LineStrip.to_glenum(), gl::LINE_STRIP);
    assert_eq!(Primitive::LineLoop.to_glenum(), gl::LINE_LOOP);
    assert_eq!(Primitive::Triangles.to_glenum(), gl::TRIANGLES);
    assert_eq!(Primitive::TriangleStrip.to_glenum(), gl::TRIANGLE_STRIP);
    assert_eq!(Primitive::TriangleFan.to_glenum(), gl::TRIANGLE_FAN);
}

#[test]
fn primitive_constants_by_value() {
    assert_eq!(Primitive::Points.to_glenum(), 0);
    assert_eq!(Primitive::Lines.to_glenum(), 1);
    assert_eq!(Primitive::LineLoop.to_glenum(), 2);
    assert_eq!(Primitive::LineStrip.to_glenum(), 3);
    assert_eq!(Primitive::Triangles.to_glenum(), 4);
    assert_eq!(Primitive::TriangleStrip.to_glenum(), 5);
    assert_eq!(Primitive::TriangleFan.to_glenum(), 6);
}

#[test]
fn shader_type_constants_are_the_drivers() {
    assert_eq!(ShaderType::VertexShader.to_glenum(), gl::VERTEX_SHADER);
    assert_eq!(ShaderType::FragmentShader.to_glenum(), gl::FRAGMENT_SHADER);
    assert_eq!(ShaderType::VertexShader.to_glenum(), 0x8B31);
    assert_eq!(ShaderType::FragmentShader.to_glenum(), 0x8B30);
}

#[test]
fn buffer_usage_constants_are_the_drivers() {
    assert_eq!(BufferUsage::StaticDraw.to_glenum(), gl::STATIC_DRAW);
    assert_eq!(BufferUsage::DynamicDraw.to_glenum(), gl::DYNAMIC_DRAW);
    assert_eq!(BufferUsage::StreamDraw.to_glenum(), gl::STREAM_DRAW);
    assert_eq!(BufferUsage::StaticDraw.to_glenum(), 0x88E4);
    assert_eq!(BufferUsage::DynamicDraw.to_glenum(), 0x88E8);
    assert_eq!(BufferUsage::StreamDraw.to_glenum(), 0x88E0);
}

#[test]
fn vbo_usage_is_buffer_usage() {
    let hint: VboUsage = BufferUsage::StaticDraw;
    assert_eq!(hint, VboUsage::StaticDraw);
    assert_eq!(VboUsage::StreamDraw.to_glenum(), gl::STREAM_DRAW);
}

#[test]
fn query_target_constants_are_the_drivers() {
    assert_eq!(QueryTarget::SamplesPassed.to_glenum(), gl::SAMPLES_PASSED);
    assert_eq!(QueryTarget::SamplesPassed.to_glenum(), 0x8914);
}

#[test]
fn texture_target_constants_are_the_drivers() {
    assert_eq!(TextureTarget::Texture1D.to_glenum(), gl::TEXTURE_1D);
    assert_eq!(TextureTarget::Texture2D.to_glenum(), gl::TEXTURE_2D);
    assert_eq!(TextureTarget::Texture3D.to_glenum(), gl::TEXTURE_3D);
    assert_eq!(TextureTarget::Texture1DArray.to_glenum(), gl::TEXTURE_1D_ARRAY);
    assert_eq!(TextureTarget::Texture2DArray.to_glenum(), gl::TEXTURE_2D_ARRAY);
    assert_eq!(TextureTarget::TextureRectangle.to_glenum(), gl::TEXTURE_RECTANGLE);
    assert_eq!(TextureTarget::TextureCubeMap.to_glenum(), gl::TEXTURE_CUBE_MAP);
    assert_eq!(TextureTarget::TextureBuffer.to_glenum(), gl::TEXTURE_BUFFER);
}

#[test]
fn texture_target_constants_by_value() {
    assert_eq!(TextureTarget::Texture1D.to_glenum(), 0x0DE0);
    assert_eq!(TextureTarget::Texture2D.to_glenum(), 0x0DE1);
    assert_eq!(TextureTarget::Texture3D.to_glenum(), 0x806F);
    assert_eq!(TextureTarget::Texture1DArray.to_glenum(), 0x8C18);
    assert_eq!(TextureTarget::Texture2DArray.to_glenum(), 0x8C1A);
    assert_eq!(TextureTarget::TextureRectangle.to_glenum(), 0x84F5);
    assert_eq!(TextureTarget::TextureCubeMap.to_glenum(), 0x8513);
    assert_eq!(TextureTarget::TextureBuffer.to_glenum(), 0x8C2A);
}

#[test]
fn wrap_mode_constants_are_the_drivers() {
    assert_eq!(WrapMode::ClampToEdge.to_glenum(), gl::CLAMP_TO_EDGE);
    assert_eq!(WrapMode::ClampToBorder.to_glenum(), gl::CLAMP_TO_BORDER);
    assert_eq!(WrapMode::Repeat.to_glenum(), gl::REPEAT);
    assert_eq!(WrapMode::MirroredRepeat.to_glenum(), gl::MIRRORED_REPEAT);
    assert_eq!(WrapMode::ClampToEdge.to_glenum(), 0x812F);
    assert_eq!(WrapMode::ClampToBorder.to_glenum(), 0x812D);
    assert_eq!(WrapMode::Repeat.to_glenum(), 0x2901);
    assert_eq!(WrapMode::MirroredRepeat.to_glenum(), 0x8370);
}

#[test]
fn filter_method_constants_are_the_drivers() {
    assert_eq!(FilterMethod::Nearest.to_glenum(), gl::NEAREST);
    assert_eq!(FilterMethod::Linear.to_glenum(), gl::LINEAR);
    assert_eq!(FilterMethod::NearestMipmapNearest.to_glenum(), gl::NEAREST_MIPMAP_NEAREST);
    assert_eq!(FilterMethod::LinearMipmapNearest.to_glenum(), gl::LINEAR_MIPMAP_NEAREST);
    assert_eq!(FilterMethod::NearestMipmapLinear.to_glenum(), gl::NEAREST_MIPMAP_LINEAR);
    assert_eq!(FilterMethod::LinearMipmapLinear.to_glenum(), gl::LINEAR_MIPMAP_LINEAR);
    assert_eq!(FilterMethod::Nearest.to_glenum(), 0x2600);
    assert_eq!(FilterMethod::Linear.to_glenum(), 0x2601);
    assert_eq!(FilterMethod::NearestMipmapNearest.to_glenum(), 0x2700);
    assert_eq!(FilterMethod::LinearMipmapNearest.to_glenum(), 0x2701);
    assert_eq!(FilterMethod::NearestMipmapLinear.to_glenum(), 0x2702);
    assert_eq!(FilterMethod::LinearMipmapLinear.to_glenum(), 0x2703);
}

#[test]
fn pixel_format_constants_are_the_drivers() {
    assert_eq!(PixelFormat::RED.to_glenum(), gl::RED);
    assert_eq!(PixelFormat::RG.to_glenum(), gl::RG);
    assert_eq!(PixelFormat::RGB.to_glenum(), gl::RGB);
    assert_eq!(PixelFormat::BGR.to_glenum(), gl::BGR);
    assert_eq!(PixelFormat::RGBA.to_glenum(), gl::RGBA);
    assert_eq!(PixelFormat::BGRA.to_glenum(), gl::BGRA);
    assert_eq!(PixelFormat::RED.to_glenum(), 0x1903);
    assert_eq!(PixelFormat::RG.to_glenum(), 0x8227);
    assert_eq!(PixelFormat::RGB.to_glenum(), 0x1907);
    assert_eq!(PixelFormat::BGR.to_glenum(), 0x80E0);
    assert_eq!(PixelFormat::RGBA.to_glenum(), 0x1908);
    assert_eq!(PixelFormat::BGRA.to_glenum(), 0x80E1);
}

#[test]
fn pixel_type_constants_are_the_drivers() {
    assert_eq!(PixelType::UNSIGNED_BYTE.to_glenum(), gl::UNSIGNED_BYTE);
    assert_eq!(PixelType::BYTE.to_glenum(), gl::BYTE);
    assert_eq!(PixelType::UNSIGNED_SHORT.to_glenum(), gl::UNSIGNED_SHORT);
    assert_eq!(PixelType::SHORT.to_glenum(), gl::SHORT);
    assert_eq!(PixelType::UNSIGNED_INT.to_glenum(), gl::UNSIGNED_INT);
    assert_eq!(PixelType::INT.to_glenum(), gl::INT);
    assert_eq!(PixelType::FLOAT.to_glenum(), gl::FLOAT);
    assert_eq!(PixelType::UNSIGNED_BYTE_3_3_2.to_glenum(), gl::UNSIGNED_BYTE_3_3_2);
    assert_eq!(PixelType::UNSIGNED_BYTE_2_3_3_REV.to_glenum(), gl::UNSIGNED_BYTE_2_3_3_REV);
    assert_eq!(PixelType::UNSIGNED_SHORT_5_6_5.to_glenum(), gl::UNSIGNED_SHORT_5_6_5);
    assert_eq!(PixelType::UNSIGNED_SHORT_5_6_5_REV.to_glenum(), gl::UNSIGNED_SHORT_5_6_5_REV);
    assert_eq!(PixelType::UNSIGNED_SHORT_4_4_4_4.to_glenum(), gl::UNSIGNED_SHORT_4_4_4_4);
    assert_eq!(
        PixelType::UNSIGNED_SHORT_4_4_4_4_REV.to_glenum(),
        gl::UNSIGNED_SHORT_4_4_4_4_REV
    );
    assert_eq!(PixelType::UNSIGNED_SHORT_5_5_5_1.to_glenum(), gl::UNSIGNED_SHORT_5_5_5_1);
    assert_eq!(
        PixelType::UNSIGNED_SHORT_1_5_5_5_REV.to_glenum(),
        gl::UNSIGNED_SHORT_1_5_5_5_REV
    );
    assert_eq!(PixelType::UNSIGNED_INT_8_8_8_8.to_glenum(), gl::UNSIGNED_INT_8_8_8_8);
    assert_eq!(PixelType::UNSIGNED_INT_8_8_8_8_REV.to_glenum(), gl::UNSIGNED_INT_8_8_8_8_REV);
    assert_eq!(PixelType::UNSIGNED_INT_10_10_10_2.to_glenum(), gl::UNSIGNED_INT_10_10_10_2);
    assert_eq!(
        PixelType::UNSIGNED_INT_2_10_10_10_REV.to_glenum(),
        gl::UNSIGNED_INT_2_10_10_10_REV
    );
}

#[test]
fn pixel_type_constants_by_value() {
    assert_eq!(PixelType::BYTE.to_glenum(), 0x1400);
    assert_eq!(PixelType::UNSIGNED_BYTE.to_glenum(), 0x1401);
    assert_eq!(PixelType::SHORT.to_glenum(), 0x1402);
    assert_eq!(PixelType::UNSIGNED_SHORT.to_glenum(), 0x1403);
    assert_eq!(PixelType::INT.to_glenum(), 0x1404);
    assert_eq!(PixelType::UNSIGNED_INT.to_glenum(), 0x1405);
    assert_eq!(PixelType::FLOAT.to_glenum(), 0x1406);
    assert_eq!(PixelType::UNSIGNED_BYTE_3_3_2.to_glenum(), 0x8032);
    assert_eq!(PixelType::UNSIGNED_SHORT_4_4_4_4.to_glenum(), 0x8033);
    assert_eq!(PixelType::UNSIGNED_SHORT_5_5_5_1.to_glenum(), 0x8034);
    assert_eq!(PixelType::UNSIGNED_INT_8_8_8_8.to_glenum(), 0x8035);
    assert_eq!(PixelType::UNSIGNED_INT_10_10_10_2.to_glenum(), 0x8036);
    assert_eq!(PixelType::UNSIGNED_BYTE_2_3_3_REV.to_glenum(), 0x8362);
    assert_eq!(PixelType::UNSIGNED_SHORT_5_6_5.to_glenum(), 0x8363);
    assert_eq!(PixelType::UNSIGNED_SHORT_5_6_5_REV.to_glenum(), 0x8364);
    assert_eq!(PixelType::UNSIGNED_SHORT_4_4_4_4_REV.to_glenum(), 0x8365);
    assert_eq!(PixelType::UNSIGNED_SHORT_1_5_5_5_REV.to_glenum(), 0x8366);
    assert_eq!(PixelType::UNSIGNED_INT_8_8_8_8_REV.to_glenum(), 0x8367);
    assert_eq!(PixelType::UNSIGNED_INT_2_10_10_10_REV.to_glenum(), 0x8368);
}

#[test]
fn native_constants_are_the_drivers() {
    assert_eq!(native::TRUE, gl::TRUE);
    assert_eq!(native::FALSE, gl::FALSE);
    assert_eq!(native::COMPILE_STATUS, gl::COMPILE_STATUS);
    assert_eq!(native::LINK_STATUS, gl::LINK_STATUS);
    assert_eq!(native::INFO_LOG_LENGTH, gl::INFO_LOG_LENGTH);
    assert_eq!(native::ARRAY_BUFFER, gl::ARRAY_BUFFER);
    assert_eq!(native::ELEMENT_ARRAY_BUFFER, gl::ELEMENT_ARRAY_BUFFER);
    assert_eq!(native::QUERY_RESULT, gl::QUERY_RESULT);
    assert_eq!(native::QUERY_RESULT_AVAILABLE, gl::QUERY_RESULT_AVAILABLE);
    assert_eq!(native::TEXTURE0, gl::TEXTURE0);
    assert_eq!(native::TEXTURE_BORDER_COLOR, gl::TEXTURE_BORDER_COLOR);
    assert_eq!(native::TEXTURE_MAG_FILTER, gl::TEXTURE_MAG_FILTER);
    assert_eq!(native::TEXTURE_MIN_FILTER, gl::TEXTURE_MIN_FILTER);
    assert_eq!(native::TEXTURE_WRAP_S, gl::TEXTURE_WRAP_S);
    assert_eq!(native::TEXTURE_WRAP_T, gl::TEXTURE_WRAP_T);
    assert_eq!(native::TEXTURE_WRAP_R, gl::TEXTURE_WRAP_R);
    assert_eq!(native::DOUBLE, gl::DOUBLE);
    assert_eq!(native::UNSIGNED_INT, gl::UNSIGNED_INT);
}

#[test]
fn mapped_constants_never_collide_within_an_enum() {
    let primitives = [
        Primitive::Points,
        Primitive::Lines,
        Primitive::LineStrip,
        Primitive::LineLoop,
        Primitive::Triangles,
        Primitive::TriangleStrip,
        Primitive::TriangleFan,
    ];
    for (i, a) in primitives.iter().enumerate() {
        for (j, b) in primitives.iter().enumerate() {
            assert_eq!(i == j, a.to_glenum() == b.to_glenum());
        }
    }
    let targets = [
        TextureTarget::Texture1D,
        TextureTarget::Texture2D,
        TextureTarget::Texture3D,
        TextureTarget::Texture1DArray,
        TextureTarget::Texture2DArray,
        TextureTarget::TextureRectangle,
        TextureTarget::TextureCubeMap,
        TextureTarget::TextureBuffer,
    ];
    for (i, a) in targets.iter().enumerate() {
        for (j, b) in targets.iter().enumerate() {
            assert_eq!(i == j, a.to_glenum() == b.to_glenum());
        }
    }
}
