//! Buttons: what one shows, and how it is laid out.

use vstd::prelude::*;

verus! {

/// A button: the text and the image on it, each if it has one, and whether it
/// grows under the cursor.
pub struct Button {
    pub text: Option<String>,
    pub image: Option<String>,
    pub hover_enlarge: bool,
}

/// The layout of a button: the text to set, the image to show, and the bounds
/// it takes under the cursor, in billionths of a hundredth of its own size.
pub struct ButtonLayout {
    pub text: Option<String>,
    pub image: Option<String>,
    pub hover_start: i64,
    pub hover_end: i64,
}

/// The size of the text on a button.
pub const FONT_SIZE: i64 = 60_000_000_000;

/// What an optional string holds, as characters.
pub open spec fn chars_of(s: Option<String>) -> Option<Seq<char>> {
    match s {
        Some(t) => Some(t@),
        None => None,
    }
}

/// `layout` is the layout of `button`: it shows the button's text and image,
/// and under the cursor it reaches five hundredths past its own bounds on
/// each side if the button grows, and keeps its bounds if it does not.
pub open spec fn lays_out(layout: ButtonLayout, button: Button) -> bool {
    &&& chars_of(layout.text) == chars_of(button.text)
    &&& chars_of(layout.image) == chars_of(button.image)
    &&& layout.hover_start == if button.hover_enlarge {
        -5_000_000_000i64
    } else {
        0i64
    }
    &&& layout.hover_end == if button.hover_enlarge {
        105_000_000_000i64
    } else {
        100_000_000_000i64
    }
}

/// Lays out one button.
pub fn build_component(button_source: &Button) -> (layout: ButtonLayout)
    ensures
        lays_out(layout, *button_source),
{
    let text = match &button_source.text {
        Some(source_text) => Some(source_text.clone()),
        None => None,
    };
    let image = match &button_source.image {
        Some(source_image) => Some(source_image.clone()),
        None => None,
    };
    ButtonLayout {
        text,
        image,
        hover_start: if button_source.hover_enlarge { -5_000_000_000 } else { 0 },
        hover_end: if button_source.hover_enlarge { 105_000_000_000 } else { 100_000_000_000 },
    }
}

} // verus!
