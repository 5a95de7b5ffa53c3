use vstd::prelude::*;
use vstd::string::*;

verus! {

/// The node types whose value is a choice among several alternatives.
#[derive(Clone, Copy, PartialEq, Eq, Structural, Debug)]
pub enum NodeKind {
    WidthHeight,
    Shader,
    PostProcessor,
    Texture,
    Material,
    Transformation,
    Hittable,
}

/// The bounded integer fields of the scene description.
#[derive(Clone, Copy, PartialEq, Eq, Structural, Debug)]
pub enum Dimension {
    Width,
    Height,
}

/// Why a deserialised scene tree was rejected.
#[derive(Clone, Copy, PartialEq, Eq, Structural, Debug)]
pub enum SchemaError {
    /// Two or more alternatives of a variant node were given.
    AmbiguousVariant(NodeKind),
    /// No alternative was given, and the node type has no default.
    MissingVariant(NodeKind),
    /// A custom width or height outside `1..8000`.
    OutOfRange(Dimension),
}

impl NodeKind {
    pub open spec fn spec_name(self) -> Seq<char> {
        match self {
            NodeKind::WidthHeight => "WidthHeight"@,
            NodeKind::Shader => "Shader"@,
            NodeKind::PostProcessor => "PostProcessor"@,
            NodeKind::Texture => "Texture"@,
            NodeKind::Material => "Material"@,
            NodeKind::Transformation => "Transformation"@,
            NodeKind::Hittable => "Hittable"@,
        }
    }

    /// The node type's name as the scene text's documentation writes it.
    pub fn name(&self) -> (r: &'static str)
        ensures
            r@ == self.spec_name(),
    {
        match self {
            NodeKind::WidthHeight => "WidthHeight",
            NodeKind::Shader => "Shader",
            NodeKind::PostProcessor => "PostProcessor",
            NodeKind::Texture => "Texture",
            NodeKind::Material => "Material",
            NodeKind::Transformation => "Transformation",
            NodeKind::Hittable => "Hittable",
        }
    }
}

impl SchemaError {
    pub open spec fn spec_message(self) -> Seq<char> {
        match self {
            SchemaError::AmbiguousVariant(n) => n.spec_name()
                + " should have at most a single field defined"@,
            SchemaError::MissingVariant(n) => n.spec_name() + " should have a single field defined"@,
            SchemaError::OutOfRange(Dimension::Width) => "Width must be at least 1 and less than 8000"@,
            SchemaError::OutOfRange(Dimension::Height) => "Height must be at least 1 and less than 8000"@,
        }
    }

    /// The message shown to the user.
    pub fn message(&self) -> (r: String)
        ensures
            r@ == self.spec_message(),
    {
        match self {
            SchemaError::AmbiguousVariant(n) => {
                let mut s = String::from_str(n.name());
                s.append(" should have at most a single field defined");
                s
            },
            SchemaError::MissingVariant(n) => {
                let mut s = String::from_str(n.name());
                s.append(" should have a single field defined");
                s
            },
            SchemaError::OutOfRange(Dimension::Width) => String::from_str(
                "Width must be at least 1 and less than 8000",
            ),
            SchemaError::OutOfRange(Dimension::Height) => String::from_str(
                "Height must be at least 1 and less than 8000",
            ),
        }
    }
}

/// The error that is waiting to be shown to the user, if any.
#[derive(Debug)]
pub struct ErrorInfo {
    pub show_error: bool,
    pub error_message: String,
}

impl ErrorInfo {
    pub fn new() -> (r: ErrorInfo)
        ensures
            !r.show_error,
            r.error_message@ == Seq::<char>::empty(),
    {
        ErrorInfo { show_error: false, error_message: String::new() }
    }

    /// Records `err` as the message to show, and shows it.
    pub fn handle_str(&mut self, err: &str)
        ensures
            final(self).show_error,
            final(self).error_message@ == err@,
    {
        self.show_error = true;
        self.error_message = err.to_owned();
    }

    /// Hides the message; it stays recorded.
    pub fn dismiss(&mut self)
        ensures
            !final(self).show_error,
            final(self).error_message == old(self).error_message,
    {
        self.show_error = false;
    }
}

} // verus!
