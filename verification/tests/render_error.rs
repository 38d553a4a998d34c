use smol_renderer::RenderError;
use std::path::PathBuf;

#[test]
fn fixed_messages() {
    assert_eq!(RenderError::MissingVertexShader.message(), "You must set a VertexShader");
    assert_eq!(RenderError::ZeroSizedGpuData.message(), "GpuData can't be zero sized");
    assert_eq!(
        RenderError::GpuDataTypeAlreadyPresent.message(),
        "There is already a binding for this GpuData in this bindgroup"
    );
    assert_eq!(
        RenderError::GpuDataTypeNotPresent.message(),
        "There doesn't exist a binding for this GpuData in this bindgroup"
    );
}

#[test]
fn file_read_error_message() {
    let error = std::io::Error::new(std::io::ErrorKind::NotFound, "gone");
    assert_eq!(RenderError::FileReadError(error).message(), "Issue with opening file");
}

#[test]
fn texture_load_error_message() {
    let error = image::ImageFormat::from_path("no_extension").unwrap_err();
    assert_eq!(RenderError::TextureLoadError(error).message(), "Couldn't open image");
}

#[test]
fn shader_compile_error_message_quotes_path_and_output() {
    let error = RenderError::ShaderCompileError {
        compiler_error: String::from("unexpected token"),
        path: PathBuf::from("shaders/basic.vert"),
    };
    assert_eq!(
        error.message(),
        "Couldn't compile shader file \"shaders/basic.vert\": \"unexpected token\""
    );
}

#[test]
fn io_error_converts_to_file_read_error() {
    let error = std::io::Error::new(std::io::ErrorKind::PermissionDenied, "no");
    assert!(matches!(RenderError::from(error), RenderError::FileReadError(_)));
}

#[test]
fn image_error_converts_to_texture_load_error() {
    let error = image::ImageFormat::from_path("picture.unknown").unwrap_err();
    assert!(matches!(RenderError::from(error), RenderError::TextureLoadError(_)));
}

#[test]
fn shader_compile_error_message_escapes_what_it_quotes() {
    let error = RenderError::ShaderCompileError {
        compiler_error: String::from("line 1:\n\tbad \"token\""),
        path: PathBuf::from("a b.frag"),
    };
    assert_eq!(
        error.message(),
        "Couldn't compile shader file \"a b.frag\": \"line 1:\\n\\tbad \\\"token\\\"\""
    );
}

#[test]
fn shader_compile_error_message_of_empty_parts() {
    let error = RenderError::ShaderCompileError {
        compiler_error: String::new(),
        path: PathBuf::new(),
    };
    assert_eq!(error.message(), "Couldn't compile shader file \"\": \"\"");
}
