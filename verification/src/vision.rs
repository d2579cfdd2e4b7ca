//! The screen-recording companion: the events it emits and the latest text
//! it recognised.
use vstd::prelude::*;

verus! {

/// A piece of text the screen-recording companion recognised, with the time
/// it gave for it.
#[derive(Clone, Debug, PartialEq, Eq)]
pub struct VisionEvent {
    pub text: String,
    pub timestamp: String,
}

/// The text the companion reports while its service is not connected.
pub open spec fn stand_in_ocr_text() -> Seq<char> {
    "Mock OCR Data from ScreenPipe"@
}

/// The latest text the companion recognised.  The companion's service is
/// not connected, so this is always the stand-in text.
pub fn fetch_latest_ocr() -> (r: Result<String, String>)
    ensures
        r matches Ok(text) && text@ == stand_in_ocr_text(),
{
    Ok(String::from_str("Mock OCR Data from ScreenPipe"))
}

} // verus!
