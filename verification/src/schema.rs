//! Which versions of the schema of a collection can be opened.

use vstd::prelude::*;
use vstd::string::StringExecFns;
use crate::text::{decimal, usize_to_string};

verus! {

/// Why a collection cannot be opened.
#[derive(Clone, Copy, PartialEq, Eq, Debug)]
pub enum DBErrorKind {
    /// The schema of the file is older than the oldest that is handled.
    FileTooOld,
    /// The schema of the file is newer than the newest that is handled.
    FileTooNew,
}

/// Why a collection with schema `ver` cannot be opened, where versions
/// `current_schema` to `max_schema` are handled; `None` where it can.
pub open spec fn schema_error(ver: u8, current_schema: u8, max_schema: u8) -> Option<DBErrorKind> {
    if ver < current_schema {
        Some(DBErrorKind::FileTooOld)
    } else if ver > max_schema {
        Some(DBErrorKind::FileTooNew)
    } else {
        None
    }
}

/// What the error tells of the schema that was found.
pub open spec fn schema_info(ver: u8) -> Seq<char> {
    "Got Schema"@ + decimal(ver as nat)
}

/// Checks the version of the schema of a collection against the versions
/// that are handled. Returns the kind of the error and what it tells, or
/// `None` where the collection can be opened.
pub fn check_schema(ver: u8, current_schema: u8, max_schema: u8) -> (err: Option<
    (DBErrorKind, String),
>)
    ensures
        match err {
            Some((kind, info)) => schema_error(ver, current_schema, max_schema) == Some(kind)
                && info@ == schema_info(ver),
            None => schema_error(ver, current_schema, max_schema) is None,
        },
{
    let kind = if ver < current_schema {
        DBErrorKind::FileTooOld
    } else if ver > max_schema {
        DBErrorKind::FileTooNew
    } else {
        return None;
    };
    let mut info = String::from_str("Got Schema");
    info.append(usize_to_string(ver as usize).as_str());
    Some((kind, info))
}

} // verus!
