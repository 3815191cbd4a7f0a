//! The engine-level view of the command line: which outputs the caller
//! asked for and where to save. Argument parsing itself is left to the
//! surrounding binary, which hands over this plain form.

use vstd::prelude::*;

verus! {

/// Where to save the captured image.
#[derive(Debug, Clone)]
pub enum SaveLocation {
    /// The path to save the image to.
    Path { path: String },
    /// The directory to save the image to with a generated name.
    Directory { path: String },
}

/// What to do with the chosen rectangle once the session ends.
#[derive(Debug, Clone)]
pub struct Args {
    /// Copy the screenshot after exit.
    pub copy: bool,
    /// Output the screenshot into stdout in PNG format.
    pub stdout: bool,
    /// Path to the `grim` executable.
    pub grim: Option<String>,
    /// Save the image into a file.
    pub save: Option<SaveLocation>,
}

} // verus!
