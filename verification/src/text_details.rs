//! Text of a text item with its styling.

use vstd::prelude::*;

verus! {

/// The text that a text item shows, and how it is styled.
#[derive(Debug, PartialEq, Eq)]
pub struct TextDetails {
    pub text: String,
    /// Font size in pixels.
    pub font_size: u16,
    pub font_family: String,
    pub font_color: String,
    pub background_color: String,
    /// Whether the user may edit the text in place.
    pub editable: bool,
}

/// A `TextDetails` as plain values.
pub ghost struct TextDetailsView {
    pub text: Seq<char>,
    pub font_size: u16,
    pub font_family: Seq<char>,
    pub font_color: Seq<char>,
    pub background_color: Seq<char>,
    pub editable: bool,
}

impl View for TextDetails {
    type V = TextDetailsView;

    open spec fn view(&self) -> TextDetailsView {
        TextDetailsView {
            text: self.text@,
            font_size: self.font_size,
            font_family: self.font_family@,
            font_color: self.font_color@,
            background_color: self.background_color@,
            editable: self.editable,
        }
    }
}

impl Clone for TextDetails {
    fn clone(&self) -> (r: Self)
        ensures
            r@ == self@,
    {
        TextDetails {
            text: self.text.clone(),
            font_size: self.font_size,
            font_family: self.font_family.clone(),
            font_color: self.font_color.clone(),
            background_color: self.background_color.clone(),
            editable: self.editable,
        }
    }
}

impl TextDetailsView {
    /// The details of a text item of which nothing is given: no text, 8 pixel
    /// Arial, black on white, editable.
    pub open spec fn defaults() -> TextDetailsView {
        TextDetailsView {
            text: Seq::empty(),
            font_size: 8,
            font_family: "Arial"@,
            font_color: "black"@,
            background_color: "white"@,
            editable: true,
        }
    }
}

/// Builds a `TextDetails` field by field; what is not set keeps its default.
#[derive(Debug)]
pub struct TextDetailsBuilder {
    details: TextDetails,
}

impl View for TextDetailsBuilder {
    type V = TextDetailsView;

    closed spec fn view(&self) -> TextDetailsView {
        self.details@
    }
}

impl Default for TextDetailsBuilder {
    /// A builder with every field at its default.
    fn default() -> (b: Self)
        ensures
            b@ == TextDetailsView::defaults(),
    {
        TextDetailsBuilder {
            details: TextDetails {
                text: String::new(),
                font_size: 8,
                font_family: "Arial".to_owned(),
                font_color: "black".to_owned(),
                background_color: "white".to_owned(),
                editable: true,
            },
        }
    }
}

impl TextDetailsBuilder {
    pub fn text(self, value: String) -> (b: Self)
        ensures
            b@ == (TextDetailsView { text: value@, ..self@ }),
    {
        let mut details = self.details;
        details.text = value;
        TextDetailsBuilder { details }
    }

    pub fn font_size(self, value: u16) -> (b: Self)
        ensures
            b@ == (TextDetailsView { font_size: value, ..self@ }),
    {
        let mut details = self.details;
        details.font_size = value;
        TextDetailsBuilder { details }
    }

    pub fn font_family(self, value: String) -> (b: Self)
        ensures
            b@ == (TextDetailsView { font_family: value@, ..self@ }),
    {
        let mut details = self.details;
        details.font_family = value;
        TextDetailsBuilder { details }
    }

    pub fn font_color(self, value: String) -> (b: Self)
        ensures
            b@ == (TextDetailsView { font_color: value@, ..self@ }),
    {
        let mut details = self.details;
        details.font_color = value;
        TextDetailsBuilder { details }
    }

    pub fn background_color(self, value: String) -> (b: Self)
        ensures
            b@ == (TextDetailsView { background_color: value@, ..self@ }),
    {
        let mut details = self.details;
        details.background_color = value;
        TextDetailsBuilder { details }
    }

    pub fn editable(self, value: bool) -> (b: Self)
        ensures
            b@ == (TextDetailsView { editable: value, ..self@ }),
    {
        let mut details = self.details;
        details.editable = value;
        TextDetailsBuilder { details }
    }

    /// The details as built so far.
    pub fn build(self) -> (details: TextDetails)
        ensures
            details@ == self@,
    {
        self.details
    }
}

} // verus!
