//! What a compiler for one pair of toolchain versions offers.

use vstd::prelude::*;

verus! {

/// `camino::Utf8PathBuf`, a path that is known to be UTF-8. The library
/// hands such paths on and never looks inside one.
#[verifier::external_type_specification]
#[verifier::external_body]
pub struct ExUtf8PathBuf(camino::Utf8PathBuf);

/// The versions of the Cairo compiler that can be asked for.
#[allow(non_camel_case_types)]
#[derive(Debug, Clone, Copy, PartialEq, Eq, Structural)]
pub enum SupportedCairoVersions {
    V2_5_0,
}

/// The versions of the Scarb build tool that can be asked for.
#[allow(non_camel_case_types)]
#[derive(Debug, Clone, Copy, PartialEq, Eq, Structural)]
pub enum SupportedScarbVersions {
    V2_5_0,
}

impl SupportedCairoVersions {
    /// The version number, as the service expects it.
    pub open spec fn text(self) -> Seq<char> {
        match self {
            SupportedCairoVersions::V2_5_0 => "2.5.0"@,
        }
    }

    /// The version number as text.
    pub fn to_string(&self) -> (result: String)
        ensures
            result@ == self.text(),
    {
        match self {
            SupportedCairoVersions::V2_5_0 => "2.5.0".to_owned(),
        }
    }
}

impl SupportedScarbVersions {
    /// The version number, as the service expects it.
    pub open spec fn text(self) -> Seq<char> {
        match self {
            SupportedScarbVersions::V2_5_0 => "2.5.0"@,
        }
    }

    /// The version number as text.
    pub fn to_string(&self) -> (result: String)
        ensures
            result@ == self.text(),
    {
        match self {
            SupportedScarbVersions::V2_5_0 => "2.5.0".to_owned(),
        }
    }
}

/// Why a compiler could not do what it was asked.
#[derive(Debug, Clone, PartialEq, Eq)]
pub enum CompilerError {
    /// The project is not laid out as the compiler expects.
    Discovery { message: String },
    /// The sources do not compile; `output` holds what the compiler
    /// printed up to that point.
    Compilation { output: String },
}

/// A compiler for the versions that it declares. One type implements this
/// for each pair of versions, so that projects written for different
/// versions are submitted in the same way.
pub trait DynamicCompiler {
    fn get_supported_scarb_versions(&self) -> Vec<SupportedScarbVersions>;

    fn get_supported_cairo_versions(&self) -> Vec<SupportedCairoVersions>;

    /// The contract files of the project at `project_path` that can be
    /// submitted for verification.
    fn get_contracts_to_verify_path(
        &self,
        project_path: &camino::Utf8PathBuf,
    ) -> Result<Vec<camino::Utf8PathBuf>, CompilerError>;

    /// Compiles the project at `project_path` in place.
    fn compile_project(&self, project_path: &camino::Utf8PathBuf) -> Result<(), CompilerError>;

    /// Compiles the single file at `file_path` in place.
    fn compile_file(&self, file_path: &camino::Utf8PathBuf) -> Result<(), CompilerError>;
}

} // verus!
