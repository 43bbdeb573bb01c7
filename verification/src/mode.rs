//! The picker variants and the request strings that select them.

use crate::error::DialogError;
use crate::error::Failure;
use vstd::prelude::*;
use vstd::string::*;

verus! {

/// Which native picker a request asks for.
#[derive(Clone, Copy, Debug, PartialEq, Eq, Structural)]
pub enum DialogMode {
    SingleFile,
    MultipleFiles,
    SaveFile,
    PickFolder,
}

/// The mode that a `mode` field selects: no field or `open` a single file,
/// `multiple`, `save` and `folder` their pickers, anything else none.
pub open spec fn resolve_mode(field: Option<Seq<char>>) -> Option<DialogMode> {
    match field {
        None => Some(DialogMode::SingleFile),
        Some(text) => if text == "open"@ {
            Some(DialogMode::SingleFile)
        } else if text == "multiple"@ {
            Some(DialogMode::MultipleFiles)
        } else if text == "save"@ {
            Some(DialogMode::SaveFile)
        } else if text == "folder"@ {
            Some(DialogMode::PickFolder)
        } else {
            None
        },
    }
}

impl DialogMode {
    /// Reads the `mode` field of a request. A field that names no picker is
    /// handed back inside the error.
    pub fn parse(field: Option<String>) -> (mode: Result<DialogMode, DialogError>)
        ensures
            match mode {
                Ok(resolved) => resolve_mode(field.deep_view()) == Some(resolved),
                Err(error) => resolve_mode(field.deep_view()) is None && field is Some
                    && error@ == Failure::UnsupportedMode(field->0@),
            },
    {
        match field {
            None => Ok(DialogMode::SingleFile),
            Some(text) => {
                if text == String::from_str("open") {
                    Ok(DialogMode::SingleFile)
                } else if text == String::from_str("multiple") {
                    Ok(DialogMode::MultipleFiles)
                } else if text == String::from_str("save") {
                    Ok(DialogMode::SaveFile)
                } else if text == String::from_str("folder") {
                    Ok(DialogMode::PickFolder)
                } else {
                    Err(DialogError::UnsupportedMode(text))
                }
            },
        }
    }
}

} // verus!
