use vstd::prelude::*;

verus! {

/// Why the text backend refused a request.
#[derive(Debug, Clone, Copy, PartialEq, Eq, Structural)]
pub enum TextError {
    /// This backend does not lay out text.
    NotSupported,
}

/// The text backend of a renderer that has no text layout: it hands out
/// builders, and every build is refused.
#[derive(Debug, Clone, Copy, PartialEq, Eq, Structural)]
pub struct Text;

/// A builder for a layout that this backend cannot produce.
#[derive(Debug, Clone, Copy, PartialEq, Eq, Structural)]
pub struct TextLayoutBuilder;

/// A laid-out text; this backend never produces one.
#[derive(Debug, Clone, Copy, PartialEq, Eq, Structural)]
pub struct TextLayout;

impl Text {
    #[allow(clippy::new_without_default)]
    pub fn new() -> (r: Text)
        ensures
            r == Text,
    {
        Text
    }

    /// A builder for a layout of `text`.
    pub fn new_text_layout(&mut self, _text: &str) -> (r: TextLayoutBuilder)
        ensures
            r == TextLayoutBuilder,
            *final(self) == *old(self),
    {
        TextLayoutBuilder
    }
}

impl TextLayoutBuilder {
    /// Always refused: this backend lays out no text.
    pub fn build(self) -> (r: Result<TextLayout, TextError>)
        ensures
            r == Err::<TextLayout, TextError>(TextError::NotSupported),
    {
        Err(TextError::NotSupported)
    }
}

} // verus!
