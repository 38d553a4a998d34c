//! The error type shared by the whole library.

use std::path::PathBuf;
use vstd::prelude::*;
use vstd::std_specs::convert::FromSpecImpl;
use vstd::string::StringExecFns;

verus! {

#[verifier::external_type_specification]
#[verifier::external_body]
pub struct ExIoError(std::io::Error);

#[verifier::external_type_specification]
#[verifier::external_body]
pub struct ExPathBuf(PathBuf);

/// Everything that can go wrong while a render node or a texture is set up.
#[derive(Debug)]
pub enum RenderError {
    /// A shader source file did not compile.
    ShaderCompileError { compiler_error: String, path: PathBuf },
    /// A render node was built without a vertex shader.
    MissingVertexShader,
    /// An image could not be decoded.
    TextureLoadError(image::ImageError),
    /// A file could not be read.
    FileReadError(std::io::Error),
    /// Uniform data of size zero was offered.
    ZeroSizedGpuData,
    /// A bind group already holds a binding for this type of uniform data.
    GpuDataTypeAlreadyPresent,
    /// A bind group holds no binding for this type of uniform data.
    GpuDataTypeNotPresent,
}

/// The text that the `Debug` impl of `String` gives for a string: the string
/// in double quotes, with its special characters escaped.
pub uninterp spec fn string_debug_text(text: Seq<char>) -> Seq<char>;

/// The text that the `Debug` impl of `PathBuf` gives for a path.
pub uninterp spec fn path_debug_text(path: PathBuf) -> Seq<char>;

/// Renders a string through its `Debug` impl with `format!`. The text is
/// given the name `string_debug_text`; nothing more is claimed of it.
#[verifier::external_body]
fn string_debug(text: &String) -> (rendered: String)
    ensures
        rendered@ == string_debug_text(text@),
{
    format!("{:?}", text)
}

/// Renders a path through its `Debug` impl with `format!`. The text is given
/// the name `path_debug_text`; nothing more is claimed of it.
#[verifier::external_body]
fn path_debug(path: &PathBuf) -> (rendered: String)
    ensures
        rendered@ == path_debug_text(*path),
{
    format!("{:?}", path)
}

impl RenderError {
    /// The message of every error. That of a shader compile error quotes the
    /// path and the compiler's output as their `Debug` impls render them.
    pub open spec fn message_text(self) -> Seq<char> {
        match self {
            RenderError::ShaderCompileError { compiler_error, path } => {
                "Couldn't compile shader file "@ + path_debug_text(path) + ": "@
                    + string_debug_text(compiler_error@)
            },
            RenderError::MissingVertexShader => "You must set a VertexShader"@,
            RenderError::TextureLoadError(_) => "Couldn't open image"@,
            RenderError::FileReadError(_) => "Issue with opening file"@,
            RenderError::ZeroSizedGpuData => "GpuData can't be zero sized"@,
            RenderError::GpuDataTypeAlreadyPresent => {
                "There is already a binding for this GpuData in this bindgroup"@
            },
            RenderError::GpuDataTypeNotPresent => {
                "There doesn't exist a binding for this GpuData in this bindgroup"@
            },
        }
    }

    /// The message that describes this error to a person.
    pub fn message(&self) -> (msg: String)
        ensures
            msg@ == self.message_text(),
    {
        match self {
            RenderError::ShaderCompileError { compiler_error, path } => {
                let mut msg = "Couldn't compile shader file ".to_owned();
                msg.append(path_debug(path).as_str());
                msg.append(": ");
                msg.append(string_debug(compiler_error).as_str());
                msg
            },
            RenderError::MissingVertexShader => "You must set a VertexShader".to_owned(),
            RenderError::TextureLoadError(_) => "Couldn't open image".to_owned(),
            RenderError::FileReadError(_) => "Issue with opening file".to_owned(),
            RenderError::ZeroSizedGpuData => "GpuData can't be zero sized".to_owned(),
            RenderError::GpuDataTypeAlreadyPresent => {
                "There is already a binding for this GpuData in this bindgroup".to_owned()
            },
            RenderError::GpuDataTypeNotPresent => {
                "There doesn't exist a binding for this GpuData in this bindgroup".to_owned()
            },
        }
    }
}

impl From<image::ImageError> for RenderError {
    fn from(error: image::ImageError) -> (r: RenderError) {
        RenderError::TextureLoadError(error)
    }
}

impl FromSpecImpl<image::ImageError> for RenderError {
    open spec fn obeys_from_spec() -> bool {
        true
    }

    open spec fn from_spec(error: image::ImageError) -> RenderError {
        RenderError::TextureLoadError(error)
    }
}

impl From<std::io::Error> for RenderError {
    fn from(error: std::io::Error) -> (r: RenderError) {
        RenderError::FileReadError(error)
    }
}

impl FromSpecImpl<std::io::Error> for RenderError {
    open spec fn obeys_from_spec() -> bool {
        true
    }

    open spec fn from_spec(error: std::io::Error) -> RenderError {
        RenderError::FileReadError(error)
    }
}

} // verus!
