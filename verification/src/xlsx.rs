//! The compute half of the spreadsheet passthrough: the parser itself is an
//! external collaborator (file path in, structured document or error out); this
//! module only maps its outcome onto the command's result.

use vstd::prelude::*;

use crate::errors::ParseFailed;

verus! {

/// Map the spreadsheet parser's outcome onto the command's result: a parsed
/// document passes through unchanged, a failure is rendered as the parse error
/// string.
pub fn xlsx_outcome(parsed: Result<String, String>) -> (r: Result<String, String>)
    ensures
        parsed matches Ok(doc) ==> r matches Ok(out) && out == doc,
        parsed matches Err(reason) ==> r matches Err(out) && out@ == "Error parsing XLSX file: "@
            + reason@,
{
    match parsed {
        Result::Ok(doc) => Result::Ok(doc),
        Result::Err(reason) => Result::Err(ParseFailed { reason }.message()),
    }
}

} // verus!
