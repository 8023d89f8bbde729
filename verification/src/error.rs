//! Why a server could not be started or a save could not be found.

use vstd::prelude::*;

verus! {

/// The failures that the save locator and the server launcher report.
#[derive(Clone, Debug, PartialEq, Eq)]
pub enum FactorioServerStartError {
    /// A path that had to exist could not be resolved.
    PathNotFound(String),
    /// The directory was read and holds no save.
    NoSaveFound(String),
    /// Reading the directory at `path`, or starting the binary at `path`,
    /// failed with `source`.
    StartFailed { path: String, source: String },
}

/// The mathematical value of a [`FactorioServerStartError`].
pub enum StartErrorView {
    PathNotFound(Seq<char>),
    NoSaveFound(Seq<char>),
    StartFailed { path: Seq<char>, source: Seq<char> },
}

impl View for FactorioServerStartError {
    type V = StartErrorView;

    open spec fn view(&self) -> StartErrorView {
        match *self {
            FactorioServerStartError::PathNotFound(path) => StartErrorView::PathNotFound(path@),
            FactorioServerStartError::NoSaveFound(path) => StartErrorView::NoSaveFound(path@),
            FactorioServerStartError::StartFailed { path, source } => StartErrorView::StartFailed {
                path: path@,
                source: source@,
            },
        }
    }
}

/// The sentence that describes `error` to a person.
pub open spec fn message_of(error: StartErrorView) -> Seq<char> {
    match error {
        StartErrorView::PathNotFound(path) => "Path not found: "@ + path,
        StartErrorView::NoSaveFound(path) => "No save found in the saves directory at "@ + path
            + "."@,
        StartErrorView::StartFailed { path, source } =>
            "Failed to start Factorio server from binary "@ + path + ": "@ + source,
    }
}

impl FactorioServerStartError {
    /// The sentence that describes this error to a person.
    pub fn message(&self) -> (text: String)
        ensures
            text@ == message_of(self@),
    {
        match self {
            FactorioServerStartError::PathNotFound(path) => {
                "Path not found: ".to_owned().concat(path.as_str())
            },
            FactorioServerStartError::NoSaveFound(path) => {
                "No save found in the saves directory at ".to_owned().concat(path.as_str()).concat(
                    ".",
                )
            },
            FactorioServerStartError::StartFailed { path, source } => {
                "Failed to start Factorio server from binary ".to_owned().concat(
                    path.as_str(),
                ).concat(": ").concat(source.as_str())
            },
        }
    }
}

} // verus!
