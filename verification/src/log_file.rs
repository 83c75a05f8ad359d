//! Where the server's log file goes: the directory and the file name taken
//! from the configured path.
use vstd::prelude::*;

verus! {

/// Why a configured log file path cannot be used.
#[derive(Clone, Copy, Debug, PartialEq, Eq, Structural)]
pub enum LogFileError {
    /// The path ends without a file name.
    MissingFileName,
}

/// The directory and the file name of the log file, as raw path bytes.
#[derive(Clone, Debug, PartialEq, Eq)]
pub struct LogFileLocation {
    pub dir: Vec<u8>,
    pub file_name: Vec<u8>,
}

/// The directory a log file goes to: the path's parent, or the current
/// directory `.` when the path has none or an empty one.
pub open spec fn spec_log_dir(parent: Option<Seq<u8>>) -> Seq<u8> {
    match parent {
        Some(p) if p.len() > 0 => p,
        _ => seq![46u8],
    }
}

/// Places the log file from the parent and the file name of its configured
/// path: a file name is required; the directory is the parent, or `.` when
/// the parent is missing or empty.
pub fn log_file_location(parent: Option<Vec<u8>>, file_name: Option<Vec<u8>>) -> (r: Result<
    LogFileLocation,
    LogFileError,
>)
    ensures
        match file_name {
            None => r == Err::<LogFileLocation, LogFileError>(LogFileError::MissingFileName),
            Some(f) => (r matches Ok(loc) && loc.file_name@ == f@ && loc.dir@ == spec_log_dir(
                match parent {
                    Some(p) => Some(p@),
                    None => None,
                },
            )),
        },
{
    let dir = match parent {
        Some(p) if p.len() > 0 => p,
        _ => vec![46u8],
    };
    match file_name {
        None => Err(LogFileError::MissingFileName),
        Some(file_name) => Ok(LogFileLocation { dir, file_name }),
    }
}

} // verus!
