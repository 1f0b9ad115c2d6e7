//! What the HTTP routes compute: the response to a formatting request.
use vstd::prelude::*;

use crate::html::html_of;
use crate::reference::{OutputFormat, Reference, ReferenceStyle, rendered};

verus! {

/// A request to format one reference in one style.
pub struct FormatRequest {
    pub reference: Reference,
    pub style: ReferenceStyle,
}

/// The formatted citation.
pub struct FormatResponse {
    pub formatted_reference: String,
}

/// Answers a formatting request with the reference's citation in HTML.
pub fn format_reference(request: FormatRequest) -> (r: FormatResponse)
    ensures
        r.formatted_reference@ == html_of(request.style, rendered(request.reference, request.style)),
{
    let formatted = request.reference.format(request.style, OutputFormat::HTML);
    FormatResponse { formatted_reference: formatted }
}

} // verus!
