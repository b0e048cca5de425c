//! The ways in which loading and running a mod fail, and the line of text that
//! reports each of them.

use vstd::prelude::*;
use vstd::string::StringExecFns;

verus! {

/// A key that every package descriptor must hold.
#[derive(Clone, Copy, Debug, PartialEq, Eq, Structural)]
pub enum Field {
    Name,
    Description,
    Version,
    Precompiled,
    Run,
}

impl Field {
    /// The key as it is written in a descriptor.
    pub open spec fn key(self) -> Seq<char> {
        match self {
            Field::Name => "name"@,
            Field::Description => "description"@,
            Field::Version => "version"@,
            Field::Precompiled => "precompiled"@,
            Field::Run => "run"@,
        }
    }

    /// The key as it is written in a descriptor.
    pub fn as_str(&self) -> (r: &'static str)
        ensures
            r@ == self.key(),
    {
        match self {
            Field::Name => "name",
            Field::Description => "description",
            Field::Version => "version",
            Field::Precompiled => "precompiled",
            Field::Run => "run",
        }
    }
}

/// Why a mod could not be loaded from its descriptor.
#[derive(Clone, Debug, PartialEq, Eq)]
pub enum LoadError {
    /// The descriptor file could not be opened or read; `detail` is what the
    /// operating system said.
    Unreadable { path: String, detail: String },
    /// The descriptor is no YAML document; `detail` is what the parser said.
    Malformed { path: String, detail: String },
    /// The descriptor lacks `field`, or holds a value of the wrong type there.
    MissingField { path: String, field: Field },
    /// The descriptor says `precompiled: false`, which is not implemented.
    Unsupported,
}

/// The mathematical value of a `LoadError`.
pub enum LoadFailure {
    Unreadable { path: Seq<char>, detail: Seq<char> },
    Malformed { path: Seq<char>, detail: Seq<char> },
    MissingField { path: Seq<char>, field: Field },
    Unsupported,
}

impl LoadFailure {
    /// The line that reports the failure.
    pub open spec fn message(self) -> Seq<char> {
        match self {
            LoadFailure::Unreadable { path, detail } => {
                "Failed to open the \"package.yaml\" file for the mod "@ + path + ": "@ + detail
            },
            LoadFailure::Malformed { path, detail } => {
                "Failed to parse the \"package.yaml\" file for the mod "@ + path + ": "@ + detail
            },
            LoadFailure::MissingField { path, field } => {
                "The \""@ + field.key()
                    + "\" field is missing from the \"package.yaml\" file for the mod "@ + path
            },
            LoadFailure::Unsupported => "Precompiled mods are not supported yet"@,
        }
    }
}

impl View for LoadError {
    type V = LoadFailure;

    open spec fn view(&self) -> LoadFailure {
        match self {
            LoadError::Unreadable { path, detail } => LoadFailure::Unreadable {
                path: path@,
                detail: detail@,
            },
            LoadError::Malformed { path, detail } => LoadFailure::Malformed {
                path: path@,
                detail: detail@,
            },
            LoadError::MissingField { path, field } => LoadFailure::MissingField {
                path: path@,
                field: *field,
            },
            LoadError::Unsupported => LoadFailure::Unsupported,
        }
    }
}

impl LoadError {
    /// The line that reports the failure: it names the mod by its path and,
    /// for a missing field, the field by its key.
    pub fn message(&self) -> (r: String)
        ensures
            r@ == self@.message(),
    {
        match self {
            LoadError::Unreadable { path, detail } => {
                let mut line = String::from_str(
                    "Failed to open the \"package.yaml\" file for the mod ",
                );
                line.append(path.as_str());
                line.append(": ");
                line.append(detail.as_str());
                line
            },
            LoadError::Malformed { path, detail } => {
                let mut line = String::from_str(
                    "Failed to parse the \"package.yaml\" file for the mod ",
                );
                line.append(path.as_str());
                line.append(": ");
                line.append(detail.as_str());
                line
            },
            LoadError::MissingField { path, field } => {
                let mut line = String::from_str("The \"");
                line.append(field.as_str());
                line.append("\" field is missing from the \"package.yaml\" file for the mod ");
                line.append(path.as_str());
                line
            },
            LoadError::Unsupported => String::from_str("Precompiled mods are not supported yet"),
        }
    }
}

/// The step of a run at which it failed.
#[derive(Clone, Copy, Debug, PartialEq, Eq, Structural)]
pub enum RunStage {
    /// Reading the module's source text.
    Source,
    /// Setting up the WebAssembly engine.
    Engine,
    /// Compiling the source text into a module.
    Compile,
    /// Registering the host function with the linker.
    Link,
    /// Instantiating the module, its start function included.
    Instantiate,
    /// Looking up the exported `hello` function.
    Export,
    /// Calling `hello`.
    Call,
}

impl RunStage {
    /// How the report of a failure at this step begins.
    pub open spec fn prefix(self) -> Seq<char> {
        match self {
            RunStage::Source => "Failed to read the wat file: "@,
            RunStage::Engine => "Failed to create the engine: "@,
            RunStage::Compile => "Failed to compile the wat file: "@,
            RunStage::Link => "Failed to wrap the host function: "@,
            RunStage::Instantiate => "Failed to instantiate the module: "@,
            RunStage::Export => "Failed to get the hello function: "@,
            RunStage::Call => "Failed to call the hello function: "@,
        }
    }

    fn prefix_text(&self) -> (r: &'static str)
        ensures
            r@ == self.prefix(),
    {
        match self {
            RunStage::Source => "Failed to read the wat file: ",
            RunStage::Engine => "Failed to create the engine: ",
            RunStage::Compile => "Failed to compile the wat file: ",
            RunStage::Link => "Failed to wrap the host function: ",
            RunStage::Instantiate => "Failed to instantiate the module: ",
            RunStage::Export => "Failed to get the hello function: ",
            RunStage::Call => "Failed to call the hello function: ",
        }
    }
}

/// Why a run of a mod ended early: the step that failed, and what the engine
/// or the operating system said of it.
#[derive(Clone, Debug, PartialEq, Eq)]
pub struct RunError {
    pub stage: RunStage,
    pub detail: String,
}

impl RunError {
    /// The line that reports the failure.
    pub open spec fn message_text(&self) -> Seq<char> {
        self.stage.prefix() + self.detail@
    }

    /// The line that reports the failure: the step's own words, then the
    /// detail.
    pub fn message(&self) -> (r: String)
        ensures
            r@ == self.message_text(),
    {
        let mut line = String::from_str(self.stage.prefix_text());
        line.append(self.detail.as_str());
        line
    }
}

} // verus!
