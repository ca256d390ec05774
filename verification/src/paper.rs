//! Paper geometry: device pixels to inches at the CSS reference density.

use vstd::prelude::*;
use vstd::string::StringExecFns;
use crate::document::FIRST_PAGE;

verus! {

/// Device pixels per inch: the CSS reference pixel density.
pub const PIXELS_PER_INCH: u32 = 96;

/// The rendered client size of a graphic element, in device pixels.
#[derive(Clone, Copy, Debug, PartialEq, Eq, Structural)]
pub struct MeasuredSize {
    pub width: u32,
    pub height: u32,
}

/// A length in inches, held exactly as `whole` inches plus `parts`
/// ninety-sixths of an inch.
#[derive(Clone, Copy, Debug, PartialEq, Eq, Structural)]
pub struct Inches {
    pub whole: u32,
    pub parts: u32,
}

/// The length of `px` device pixels in inches.
pub open spec fn inches_of(px: int) -> Inches
    recommends
        0 <= px <= u32::MAX,
{
    Inches { whole: (px / 96) as u32, parts: (px % 96) as u32 }
}

impl Inches {
    /// The fractional part is a proper fraction of an inch.
    pub open spec fn wf(self) -> bool {
        self.parts < 96
    }

    /// The same length in device pixels: ninety-six to the inch.
    pub open spec fn pixels(self) -> int {
        self.whole * 96 + self.parts
    }

    /// The same length in millionths of an inch, rounded down.
    pub open spec fn spec_millionths(self) -> int {
        self.pixels() * 1_000_000 / 96
    }

    /// The length of nothing.
    pub fn zero() -> (r: Inches)
        ensures
            r == inches_of(0),
            r.wf(),
            r.pixels() == 0,
    {
        Inches { whole: 0, parts: 0 }
    }

    /// Converts a pixel length to inches by dividing by the pixel density.
    pub fn from_pixels(px: u32) -> (r: Inches)
        ensures
            r == inches_of(px as int),
            r.wf(),
            r.pixels() == px,
    {
        Inches { whole: px / PIXELS_PER_INCH, parts: px % PIXELS_PER_INCH }
    }

    /// The length in millionths of an inch, rounded down: a decimal reading
    /// of the exact fraction.
    pub fn millionths(&self) -> (m: u64)
        ensures
            m == self.spec_millionths(),
            96 * m <= self.pixels() * 1_000_000 < 96 * (m + 1),
    {
        let px: u64 = self.whole as u64 * 96 + self.parts as u64;
        px * 1_000_000 / 96
    }
}

/// The size of a sheet of paper.
#[derive(Clone, Copy, Debug, PartialEq, Eq, Structural)]
pub struct PaperSize {
    pub width: Inches,
    pub height: Inches,
}

/// The paper on which a graphic of the given size fits exactly.
pub open spec fn paper_of(size: MeasuredSize) -> PaperSize {
    PaperSize { width: inches_of(size.width as int), height: inches_of(size.height as int) }
}

/// The paper on which a graphic of the given size fits exactly: each pixel
/// dimension divided by the pixel density. A dimension of zero is not set
/// apart: it gives paper of zero extent.
pub fn paper_for(size: MeasuredSize) -> (paper: PaperSize)
    ensures
        paper == paper_of(size),
        paper.width.wf(),
        paper.height.wf(),
        paper.width.pixels() == size.width,
        paper.height.pixels() == size.height,
{
    PaperSize { width: Inches::from_pixels(size.width), height: Inches::from_pixels(size.height) }
}

/// The margins of a printed page.
#[derive(Clone, Copy, Debug, PartialEq, Eq, Structural)]
pub struct Margins {
    pub top: Inches,
    pub left: Inches,
    pub bottom: Inches,
    pub right: Inches,
}

/// A page printed to its edges.
pub open spec fn no_margins() -> Margins {
    Margins { top: inches_of(0), left: inches_of(0), bottom: inches_of(0), right: inches_of(0) }
}

/// The parameters of a print-to-PDF command.
#[derive(Clone, Debug, PartialEq, Eq)]
pub struct PrintSettings {
    pub paper: PaperSize,
    pub margins: Margins,
    /// The pages to print, as the print command reads them.
    pub page_ranges: String,
    /// Whether a page size that the document's own style rules declare wins
    /// over `paper`.
    pub prefer_css_page_size: bool,
}

/// `PrintSettings` as a mathematical value.
pub struct PrintSettingsModel {
    pub paper: PaperSize,
    pub margins: Margins,
    pub page_ranges: Seq<char>,
    pub prefer_css_page_size: bool,
}

impl View for PrintSettings {
    type V = PrintSettingsModel;

    open spec fn view(&self) -> PrintSettingsModel {
        PrintSettingsModel {
            paper: self.paper,
            margins: self.margins,
            page_ranges: self.page_ranges@,
            prefer_css_page_size: self.prefer_css_page_size,
        }
    }
}

/// How a graphic of the given size is printed: on paper of exactly its size,
/// to the edges, the first page only, and with the document's own page size
/// rules set aside.
pub open spec fn settings_of(size: MeasuredSize) -> PrintSettingsModel {
    PrintSettingsModel {
        paper: paper_of(size),
        margins: no_margins(),
        page_ranges: FIRST_PAGE@,
        prefer_css_page_size: false,
    }
}

/// The print settings for a graphic of the given size.
pub fn settings_for(size: MeasuredSize) -> (settings: PrintSettings)
    ensures
        settings@ == settings_of(size),
{
    PrintSettings {
        paper: paper_for(size),
        margins: Margins {
            top: Inches::zero(),
            left: Inches::zero(),
            bottom: Inches::zero(),
            right: Inches::zero(),
        },
        page_ranges: String::from_str(FIRST_PAGE),
        prefer_css_page_size: false,
    }
}

/// Paper size is the measured size over the pixel density, exactly: no
/// two sizes share a sheet, and the sheet gives the size back.
pub proof fn paper_matches_measurement(size: MeasuredSize)
    ensures
        paper_of(size).width.wf(),
        paper_of(size).height.wf(),
        paper_of(size).width.pixels() == size.width,
        paper_of(size).height.pixels() == size.height,
        paper_of(size).width.whole == size.width / 96,
        paper_of(size).height.whole == size.height / 96,
{
}

/// Different measurements never give the same paper.
pub proof fn paper_of_injective(a: MeasuredSize, b: MeasuredSize)
    requires
        paper_of(a) == paper_of(b),
    ensures
        a == b,
{
    paper_matches_measurement(a);
    paper_matches_measurement(b);
}

} // verus!
