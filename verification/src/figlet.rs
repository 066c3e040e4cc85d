//! Large letters: a text drawn in the glyphs of a FIGlet font.

use vstd::prelude::*;

verus! {

/// A parsed FIGlet font, as `figlet_rs` holds it. Nothing of its inside is
/// visible here; it is handed through to `convert`.
#[verifier::external_type_specification]
#[verifier::external_body]
pub struct ExFIGfont(figlet_rs::FIGfont);

/// What `figlet_rs` draws for `message` in `font`: the figure as text, or
/// nothing where the font has no glyph for any character of the message.
pub uninterp spec fn figure_text(font: figlet_rs::FIGfont, message: Seq<char>) -> Option<Seq<char>>;

/// The figure where there is one, else the text itself.
pub open spec fn art_or_plain(art: Option<Seq<char>>, text: Seq<char>) -> Seq<char> {
    match art {
        Some(figure) => figure,
        None => text,
    }
}

/// The view of a text that may be missing.
pub open spec fn text_view(text: Option<String>) -> Option<Seq<char>> {
    match text {
        Some(t) => Some(t@),
        None => None,
    }
}

/// Trusted: `FIGfont::convert` on `message`, and the figure it gives
/// written out through its `Display`. Both depend on the font and the
/// message alone; the result is given the name `figure_text`.
#[verifier::external_body]
fn convert(font: &figlet_rs::FIGfont, message: &str) -> (art: Option<String>)
    ensures
        text_view(art) == figure_text(*font, message@),
{
    match font.convert(message) {
        Some(figure) => Some(figure.to_string()),
        None => None,
    }
}

/// The figure if there is one, else the text itself.
pub fn art_or(art: Option<String>, text: &str) -> (shown: String)
    ensures
        shown@ == art_or_plain(text_view(art), text@),
{
    match art {
        Some(figure) => figure,
        None => text.to_owned(),
    }
}

/// `text` in the large letters of `font`, or `text` itself where the font
/// draws nothing for it.
pub fn ascii_art(font: &figlet_rs::FIGfont, text: &str) -> (shown: String)
    ensures
        shown@ == art_or_plain(figure_text(*font, text@), text@),
{
    art_or(convert(font, text), text)
}

} // verus!
