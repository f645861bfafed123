//! Values exchanged with the user interface, and the external tools a deployment needs.
use vstd::prelude::*;

verus! {

/// How a project is displayed.
#[derive(Clone, Copy, Debug, PartialEq, Eq, Structural)]
pub enum ViewMode {
    Vegetation,
    Satellite,
}

/// A project opened for viewing.
#[derive(Clone, Debug, PartialEq, Eq)]
pub struct ProjectData {
    pub name: String,
    pub file_path: String,
    pub view_mode: ViewMode,
}

/// A project listed on the home view.
#[derive(Clone, Debug, PartialEq, Eq)]
pub struct Project {
    pub name: String,
    pub preview_path: String,
    pub file_path: String,
}

/// The views of the user interface.
#[derive(Clone, Debug, PartialEq, Eq)]
pub enum AppView {
    Home,
    Settings,
    Documentation,
    NewProject,
    Loading(String),
    Project(ProjectData),
}

/// An external tool that a deployment cannot run without.
#[derive(Clone, Copy, Debug, PartialEq, Eq, Structural)]
pub enum DependencyError {
    GDALNotInstalled,
    PythonNotInstalled,
    SevenZipNotInstalled,
}

impl DependencyError {
    pub fn message(&self) -> (r: &'static str)
        ensures
            r@ == (match *self {
                DependencyError::GDALNotInstalled => "GDAL is not installed"@,
                DependencyError::PythonNotInstalled => "Python is not installed"@,
                DependencyError::SevenZipNotInstalled => "7zip is not installed"@,
            }),
    {
        match self {
            DependencyError::GDALNotInstalled => "GDAL is not installed",
            DependencyError::PythonNotInstalled => "Python is not installed",
            DependencyError::SevenZipNotInstalled => "7zip is not installed",
        }
    }
}

/// One probe of an external tool: run `command arg`; if it cannot be run, the tool is missing.
#[derive(Clone, Copy, Debug, PartialEq, Eq)]
pub struct ToolCheck {
    pub command: &'static str,
    pub arg: &'static str,
    pub missing: DependencyError,
    /// Whether the tool's location is recorded in the configuration once found.
    pub record_path: bool,
}

/// The probes to run, in order, on Windows or on another system: the GDAL toolkit, Python, then
/// 7-Zip.
pub fn dependency_checks(windows: bool) -> (r: Vec<ToolCheck>)
    ensures
        r@.len() == 3,
        r@[0].command@ == (if windows { "gdalinfo.exe"@ } else { "gdalinfo"@ }),
        r@[0].arg@ == "--version"@,
        r@[0].missing == DependencyError::GDALNotInstalled,
        r@[0].record_path,
        r@[1].command@ == (if windows { "python"@ } else { "python3"@ }),
        r@[1].arg@ == "--version"@,
        r@[1].missing == DependencyError::PythonNotInstalled,
        r@[1].record_path,
        r@[2].command@ == (if windows { "7z.exe"@ } else { "7z"@ }),
        r@[2].arg@ == "--help"@,
        r@[2].missing == DependencyError::SevenZipNotInstalled,
        !r@[2].record_path,
{
    let mut v: Vec<ToolCheck> = Vec::new();
    v.push(
        ToolCheck {
            command: if windows { "gdalinfo.exe" } else { "gdalinfo" },
            arg: "--version",
            missing: DependencyError::GDALNotInstalled,
            record_path: true,
        },
    );
    v.push(
        ToolCheck {
            command: if windows { "python" } else { "python3" },
            arg: "--version",
            missing: DependencyError::PythonNotInstalled,
            record_path: true,
        },
    );
    v.push(
        ToolCheck {
            command: if windows { "7z.exe" } else { "7z" },
            arg: "--help",
            missing: DependencyError::SevenZipNotInstalled,
            record_path: false,
        },
    );
    v
}

/// The command that prints where a tool is installed.
pub fn path_lookup_command(windows: bool) -> (r: &'static str)
    ensures
        r@ == (if windows { "where"@ } else { "which"@ }),
{
    if windows {
        "where"
    } else {
        "which"
    }
}

} // verus!
