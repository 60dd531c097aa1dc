//! The formats in which the audit trail is exported.

use vstd::prelude::*;
use crate::text::compose::same_text;
use crate::text::compose::text_pair;

verus! {

#[derive(Debug, Clone, Copy, PartialEq, Eq, Structural)]
pub enum ExportFormat {
    Json,
    Csv,
}

/// The format that a name asks for.
pub open spec fn format_named(name: Seq<char>) -> Option<ExportFormat> {
    if name == "json"@ {
        Some(ExportFormat::Json)
    } else if name == "csv"@ {
        Some(ExportFormat::Csv)
    } else {
        None
    }
}

pub open spec fn format_result(name: Seq<char>) -> Result<ExportFormat, Seq<char>> {
    match format_named(name) {
        Some(f) => Ok(f),
        None => Err("Unsupported format: "@ + name),
    }
}

pub open spec fn format_view(r: Result<ExportFormat, String>) -> Result<ExportFormat, Seq<char>> {
    match r {
        Ok(f) => Ok(f),
        Err(e) => Err(e@),
    }
}

/// The format with this name, or the message that there is none.
pub fn export_format(name: &str) -> (r: Result<ExportFormat, String>)
    ensures
        format_view(r) == format_result(name@),
{
    if same_text(name, "json") {
        Ok(ExportFormat::Json)
    } else if same_text(name, "csv") {
        Ok(ExportFormat::Csv)
    } else {
        Err(text_pair("Unsupported format: ", name))
    }
}

} // verus!
