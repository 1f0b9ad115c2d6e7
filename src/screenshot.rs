//! The screenshot route's request and response; both carry no fields.
use vstd::prelude::*;

verus! {

pub struct ScreenshotRequest {}

pub struct ScreenshotResponse {}

} // verus!
