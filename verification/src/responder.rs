//! The status responder.
//!
//! Answers an inbound status request by reading the shared cell through
//! its synchronized read path and rendering either the sample's textual
//! form or a placeholder, wrapped in a fixed page template.  A pure read:
//! no mutation, no interaction with the event channel.

use vstd::prelude::*;
use vstd::string::StringExecFns;
use crate::cell::MeasurementCell;
use crate::measurement::spec_render;
use crate::measurement::Measurement;

verus! {

/// The page template's opening, up to where the content is inserted.
pub open spec fn spec_page_prefix() -> Seq<char> {
    "\n<!DOCTYPE html>\n<html>\n    <head>\n        <meta charset=\"utf-8\">\n        <title>esp-rs web server</title>\n    </head>\n    <body>\n        "@
}

/// The page template's closing, after the content.
pub open spec fn spec_page_suffix() -> Seq<char> {
    "\n    </body>\n</html>\n"@
}

/// `content` wrapped in the fixed page template.
pub open spec fn spec_templated(content: Seq<char>) -> Seq<char> {
    spec_page_prefix() + content + spec_page_suffix()
}

/// The full response body owed for a given cell snapshot: the rendered
/// sample, or the placeholder before any measurement exists — never an
/// error.
pub open spec fn spec_status_body(reading: Option<Measurement>) -> Seq<char> {
    match reading {
        Some(m) => spec_templated(spec_render(m)),
        None => spec_templated("No measure"@),
    }
}

/// Wraps `content` in the fixed page template.
pub fn templated(content: &str) -> (r: String)
    ensures
        r@ == spec_templated(content@),
{
    let mut r = String::from_str(
        "\n<!DOCTYPE html>\n<html>\n    <head>\n        <meta charset=\"utf-8\">\n        <title>esp-rs web server</title>\n    </head>\n    <body>\n        ",
    );
    r.append(content);
    r.append("\n    </body>\n</html>\n");
    proof {
        assert(r@ =~= spec_templated(content@));
    }
    r
}

/// Renders the response body for a cell snapshot.
pub fn status_body(reading: Option<Measurement>) -> (r: String)
    ensures
        r@ == spec_status_body(reading),
{
    match reading {
        Some(m) => {
            let text = m.render();
            templated(text.as_str())
        },
        None => templated("No measure"),
    }
}

/// Answers one status request: takes a snapshot of the shared cell under
/// its lock and renders it.  Every response is the complete rendering of
/// some whole snapshot — absent or one full sample — never a torn one.
pub fn respond(cell: &MeasurementCell) -> (r: String)
    ensures
        exists|reading: Option<Measurement>| r@ == spec_status_body(reading),
{
    let reading = cell.read();
    let r = status_body(reading);
    proof {
        assert(r@ == spec_status_body(reading));
    }
    r
}

} // verus!
