//! The document that carries the caller's markup into a rendering context,
//! and the fixed texts that go with it.

use vstd::prelude::*;
use vstd::string::StringExecFns;

verus! {

/// The document shell up to the point where the markup goes: UTF-8 charset, a
/// responsive viewport, a body without margin and the opening of the one
/// container element.
pub const SHELL_HEAD: &'static str =
    "\n        <!DOCTYPE html>\n        <html>\n            <head>\n                <meta charset=\"utf-8\">\n                <meta name=\"viewport\" content=\"width=device-width, initial-scale=1.0\">\n            </head>\n            <body style=\"margin: 0;\">\n                <div>";

/// The document shell after the markup.
pub const SHELL_TAIL: &'static str = "</div>\n            </body>\n        </html>\n    ";

/// The media type that a rendering context emulates, so that screen rules,
/// not print rules, size the graphic.
pub const SCREEN_MEDIA: &'static str = "screen";

/// The page range of a print: the injected document has a single flow, so
/// the first page is all there is.
pub const FIRST_PAGE: &'static str = "1";

/// The script that measures the first graphic element of the document, in
/// document order. It gives `null` where the document holds none, and else an
/// object with the element's client `width` and `height` in device pixels.
pub const MEASURE_PROBE: &'static str =
    "() => {\n    const graphic = document.getElementsByTagName(\"svg\")[0];\n    if (!graphic) {\n        return null;\n    }\n    return {\n        width: graphic.clientWidth,\n        height: graphic.clientHeight,\n    };\n}";

/// The document injected for `markup`: the shell with the markup standing in
/// its container, character for character.
pub open spec fn document_of(markup: Seq<char>) -> Seq<char> {
    SHELL_HEAD@ + markup + SHELL_TAIL@
}

/// Wraps raw markup into the minimal document. Nothing is escaped or
/// checked: the markup is taken as it is.
pub fn wrap_markup(markup: &str) -> (doc: String)
    ensures
        doc@ == document_of(markup@),
{
    let mut doc = String::from_str(SHELL_HEAD);
    doc.append(markup);
    doc.append(SHELL_TAIL);
    doc
}

/// The markup stands in the document verbatim, right after the shell's head.
pub proof fn document_holds_markup(markup: Seq<char>)
    ensures
        document_of(markup).len() == SHELL_HEAD@.len() + markup.len() + SHELL_TAIL@.len(),
        document_of(markup).subrange(
            SHELL_HEAD@.len() as int,
            (SHELL_HEAD@.len() + markup.len()) as int,
        ) == markup,
{
    assert(document_of(markup).subrange(
        SHELL_HEAD@.len() as int,
        (SHELL_HEAD@.len() + markup.len()) as int,
    ) =~= markup);
}

/// Two documents are equal only where their markup is: a document stands for
/// one input and no other.
pub proof fn document_of_injective(a: Seq<char>, b: Seq<char>)
    requires
        document_of(a) == document_of(b),
    ensures
        a == b,
{
    document_holds_markup(a);
    document_holds_markup(b);
    assert(a.len() == b.len());
}

} // verus!
