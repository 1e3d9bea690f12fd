//! Where capture files go.
//!
//! The settings may name the directory. Otherwise the files go to a fixed
//! subdirectory of the process-wide data directory, when there is one. The
//! library only decides which directory is meant: it keeps the parts apart and
//! leaves joining them with the platform's separator to whoever touches the
//! file system. The data directory is carried as the path it came as.

use vstd::prelude::*;
use vstd::string::*;
use crate::config::DebugLoggingConfig;

verus! {

/// `std::path::PathBuf`, taken as it is: the library hands a path on and never
/// looks into it.
#[verifier::external_type_specification]
#[verifier::external_body]
pub struct ExPathBuf(std::path::PathBuf);

/// The subdirectory of the data directory that receives capture files.
pub const FALLBACK_SUBDIR: &'static str = "debug_logs";

/// A directory for capture files.
pub enum OutputDir {
    /// The directory that the settings name.
    Configured(String),
    /// The entry `child` of the data directory `data_dir`.
    InDataDir { data_dir: std::path::PathBuf, child: String },
}

/// The mathematical content of an `OutputDir`.
pub enum OutputDirView {
    Configured(Seq<char>),
    InDataDir { data_dir: std::path::PathBuf, child: Seq<char> },
}

impl View for OutputDir {
    type V = OutputDirView;

    open spec fn view(&self) -> OutputDirView {
        match self {
            OutputDir::Configured(dir) => OutputDirView::Configured(dir@),
            OutputDir::InDataDir { data_dir, child } => OutputDirView::InDataDir {
                data_dir: *data_dir,
                child: child@,
            },
        }
    }
}

impl DeepView for OutputDir {
    type V = OutputDirView;

    open spec fn deep_view(&self) -> OutputDirView {
        self@
    }
}

/// The directory for given settings and a given answer of the data-directory
/// lookup: the configured one if there is one, else the fallback subdirectory
/// of the data directory, else none.
pub open spec fn resolved_dir(
    configured: Option<Seq<char>>,
    data_dir: Option<std::path::PathBuf>,
) -> Option<OutputDirView> {
    match configured {
        Some(dir) => Some(OutputDirView::Configured(dir)),
        None => match data_dir {
            Some(base) => Some(OutputDirView::InDataDir { data_dir: base, child: FALLBACK_SUBDIR@ }),
            None => None,
        },
    }
}

/// The fallback directory inside the data directory `data_dir`.
pub fn fallback_dir(data_dir: std::path::PathBuf) -> (dir: OutputDir)
    ensures
        dir@ == (OutputDirView::InDataDir { data_dir, child: FALLBACK_SUBDIR@ }),
{
    OutputDir::InDataDir { data_dir, child: String::from_str(FALLBACK_SUBDIR) }
}

/// Picks the directory that receives capture files. `data_dir` is the answer
/// of the data-directory lookup; it is only consulted where the settings name
/// no directory.
pub fn resolve_output_dir(cfg: &DebugLoggingConfig, data_dir: Option<std::path::PathBuf>) -> (dir:
    Option<OutputDir>)
    ensures
        dir.deep_view() == resolved_dir(cfg.output_dir.deep_view(), data_dir),
{
    if let Some(dir) = &cfg.output_dir {
        return Some(OutputDir::Configured(dir.clone()));
    }
    if let Some(base) = data_dir {
        return Some(fallback_dir(base));
    }
    None
}

} // verus!
