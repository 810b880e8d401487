//! Error taxonomy of the renderer.
//!
//! Every fallible operation reports one of these conditions; they are
//! built at the point of failure and handed upward unchanged, since all
//! of them are irrecoverable setup-time conditions.  Conditions raised by
//! outside libraries arrive here as their textual description, so the
//! taxonomy itself stays a plain value.  Each error renders its report
//! through `message`, with the exact text pinned down in the contract.

use vstd::prelude::*;

use crate::text::concat_str;

verus! {

/// A condition that stops shader compilation or linking, or the lookup
/// of a named variable inside a compiled program.
#[derive(Debug)]
pub enum ShaderError {
    /// The shader source failed to compile; holds the compiler's log.
    CompilationError(String),
    /// The program failed to link; holds the linker's log.
    LinkingError(String),
    /// No attribute of the given name exists in the compiled program.
    AttributeLocationParseError(String),
    /// No uniform of the given name exists in the compiled program.
    UniformLocationParseError(String),
    /// A log or name was not valid text; holds the description.
    Utf8Error(String),
    /// A name held an interior nul and cannot be marshalled; holds the
    /// description.
    NulError(String),
    /// A source file could not be read; holds the description.
    IoError(String),
}

/// A condition that stops model loading.
#[derive(Debug)]
pub enum ModelError {
    /// A texture is tagged with a semantic role outside the fixed role
    /// set; holds the offending role name.
    UnknownTextureType(String),
    /// The model file failed to parse; holds the description.
    ModelLoadError(String),
    /// An image file failed to decode or holds an unsupported pixel
    /// layout; holds the description.
    TextureLoadError(String),
}

/// Any condition that terminates the sandbox.
#[derive(Debug)]
pub enum GLError {
    /// A shader stage failed.
    ShaderError(ShaderError),
    /// The window system failed to initialise; holds the description.
    GlfwError(String),
    /// Model loading failed.
    ModelError(ModelError),
}

impl ShaderError {
    /// The report text of the condition.
    pub open spec fn message_spec(self) -> Seq<char> {
        match self {
            ShaderError::CompilationError(log) => "Error while compiling shader: "@ + log@,
            ShaderError::LinkingError(log) => "Error while linking shaders: "@ + log@,
            ShaderError::AttributeLocationParseError(name) =>
                "Cannot find the location index of the property variable named "@ + name@ + "."@,
            ShaderError::UniformLocationParseError(name) =>
                "Cannot find the location index of the uniform variable named "@ + name@ + "."@,
            ShaderError::Utf8Error(text) => text@,
            ShaderError::NulError(text) => text@,
            ShaderError::IoError(_) => "An error occurred while reading the file."@,
        }
    }

    /// Renders the report text of the condition.
    pub fn message(&self) -> (r: String)
        ensures
            r@ == self.message_spec(),
    {
        match self {
            ShaderError::CompilationError(log) => concat_str(
                "Error while compiling shader: ",
                log.as_str(),
            ),
            ShaderError::LinkingError(log) => concat_str(
                "Error while linking shaders: ",
                log.as_str(),
            ),
            ShaderError::AttributeLocationParseError(name) => {
                let mut s = concat_str(
                    "Cannot find the location index of the property variable named ",
                    name.as_str(),
                );
                s.push_str(".");
                s
            },
            ShaderError::UniformLocationParseError(name) => {
                let mut s = concat_str(
                    "Cannot find the location index of the uniform variable named ",
                    name.as_str(),
                );
                s.push_str(".");
                s
            },
            ShaderError::Utf8Error(text) => text.clone(),
            ShaderError::NulError(text) => text.clone(),
            ShaderError::IoError(_) => "An error occurred while reading the file.".to_owned(),
        }
    }
}

impl ModelError {
    /// The report text of the condition.
    pub open spec fn message_spec(self) -> Seq<char> {
        match self {
            ModelError::UnknownTextureType(_) => "Unknown texture type."@,
            ModelError::ModelLoadError(_) => "An error occurred while loading the model."@,
            ModelError::TextureLoadError(_) => "Error occurred while reading image."@,
        }
    }

    /// Renders the report text of the condition.
    pub fn message(&self) -> (r: String)
        ensures
            r@ == self.message_spec(),
    {
        match self {
            ModelError::UnknownTextureType(_) => "Unknown texture type.".to_owned(),
            ModelError::ModelLoadError(_) => "An error occurred while loading the model."
                .to_owned(),
            ModelError::TextureLoadError(_) => "Error occurred while reading image.".to_owned(),
        }
    }
}

impl GLError {
    /// The report text of the condition.
    pub open spec fn message_spec(self) -> Seq<char> {
        match self {
            GLError::ShaderError(_) => "An error occurred while compiling shader code."@,
            GLError::GlfwError(_) => "Glfw init error."@,
            GLError::ModelError(_) => "An error occurred while loading the model."@,
        }
    }

    /// Renders the report text of the condition.
    pub fn message(&self) -> (r: String)
        ensures
            r@ == self.message_spec(),
    {
        match self {
            GLError::ShaderError(_) => "An error occurred while compiling shader code."
                .to_owned(),
            GLError::GlfwError(_) => "Glfw init error.".to_owned(),
            GLError::ModelError(_) => "An error occurred while loading the model.".to_owned(),
        }
    }
}

impl From<ShaderError> for GLError {
    /// Wraps a shader condition for the top-level caller.
    fn from(e: ShaderError) -> (r: GLError) {
        GLError::ShaderError(e)
    }
}

impl vstd::std_specs::convert::FromSpecImpl<ShaderError> for GLError {
    open spec fn obeys_from_spec() -> bool {
        true
    }

    open spec fn from_spec(e: ShaderError) -> GLError {
        GLError::ShaderError(e)
    }
}

impl From<ModelError> for GLError {
    /// Wraps a model condition for the top-level caller.
    fn from(e: ModelError) -> (r: GLError) {
        GLError::ModelError(e)
    }
}

impl vstd::std_specs::convert::FromSpecImpl<ModelError> for GLError {
    open spec fn obeys_from_spec() -> bool {
        true
    }

    open spec fn from_spec(e: ModelError) -> GLError {
        GLError::ModelError(e)
    }
}

} // verus!
