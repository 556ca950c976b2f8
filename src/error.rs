//! What can go wrong when a control file is located, read or written.
use vstd::prelude::*;

verus! {

/// A failure of an access, with the paths and reasons that describe it.
#[derive(Debug, Clone)]
pub enum AccessError {
    /// The path is not a directory.
    NotADirectory(String),
    /// Listing the directory (first field) failed for the reason given.
    Enumeration(String, String),
    /// The directory holds no entry.
    EmptyDirectory(String),
    /// The control file does not exist.
    MissingNode(String),
    /// Reading the file (first field) failed for the reason given.
    ReadFailed(String, String),
    /// The file holds bytes that are not UTF-8 text.
    NotText(String),
    /// The file's text is not an unsigned 32-bit decimal number.
    NotANumber(String),
    /// Writing the file (first field) failed for the reason given.
    WriteFailed(String, String),
    /// The brightness asked for (first field) is above the device's maximum (second field).
    AboveMaximum(u32, u32),
    /// No backlight device of the expected name was listed.
    BacklightNotFound,
    /// The backlight device at this path has no brightness file.
    NoBrightnessNode(String),
    /// The pattern that names backlight devices was refused by the regex engine.
    BadPattern,
    /// The reply does not answer the request that was made.
    UnexpectedReply,
}

} // verus!
