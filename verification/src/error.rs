//! Failures that decoding and rendering can report.
use crate::text::{nat_text, push_nat};
use vstd::prelude::*;

verus! {

/// Result of any fallible operation of this crate.
pub type WvgResult<T> = Result<T, WvgError>;

/// Everything that can go wrong while decoding or rendering.
#[derive(Debug)]
pub enum WvgError {
    /// More bits were asked for than the input holds.
    EndOfStream,
    /// The profile selector holds an impossible value.
    InvalidWvgType,
    /// The color scheme code is not one of the defined codes.
    InvalidColorScheme(String),
    /// An element type index does not name an enabled element kind.
    InvalidElementType(u32),
    /// The input uses a part of the format that is recognised but not handled.
    UnsupportedFeature(UnsupportedFeature),
    /// A decoding failure described by a message.
    ParseError(String),
    /// A rendering failure described by a message.
    ConversionError(String),
    /// A reuse element refers to an element that has not been decoded.
    ElementIndexOutOfBounds {
        /// The index as it was read from the input.
        index: u32,
        /// The largest index that could have been referred to.
        max: usize,
    },
}

/// Parts of the format that are recognised and rejected.
#[derive(Debug, Clone, Copy, PartialEq, Eq, Structural)]
pub enum UnsupportedFeature {
    /// The character-size profile.
    CharacterSizeWvg,
    /// The compact coordinate mode.
    CompactCoordinateMode,
    /// Bezier polyline elements.
    BezierPolyline,
    /// Polygon elements.
    Polygon,
    /// Special shape elements (regular polygon, star, grid).
    SpecialShape,
    /// Text elements.
    TextElement,
    /// Simple animation elements.
    SimpleAnimation,
    /// Standard animation elements.
    StandardAnimation,
    /// Extended elements.
    ExtendedElement,
    /// Local envelope elements.
    LocalEnvelope,
    /// Frame elements.
    FrameElement,
    /// Simple shape elements (rectangle, ellipse).
    SimpleShape,
}

impl UnsupportedFeature {
    /// The words that [`UnsupportedFeature::description`] returns.
    pub open spec fn description_text(self) -> Seq<char> {
        match self {
            UnsupportedFeature::CharacterSizeWvg => "Character Size WVG format"@,
            UnsupportedFeature::CompactCoordinateMode => "Compact coordinate mode"@,
            UnsupportedFeature::BezierPolyline => "Bezier polyline elements"@,
            UnsupportedFeature::Polygon => "Polygon elements"@,
            UnsupportedFeature::SpecialShape => "Special shape elements (regular polygon, star, grid)"@,
            UnsupportedFeature::TextElement => "Text elements"@,
            UnsupportedFeature::SimpleAnimation => "Simple animation elements"@,
            UnsupportedFeature::StandardAnimation => "Standard animation elements"@,
            UnsupportedFeature::ExtendedElement => "Extended elements"@,
            UnsupportedFeature::LocalEnvelope => "Local envelope elements"@,
            UnsupportedFeature::FrameElement => "Frame elements"@,
            UnsupportedFeature::SimpleShape => "Simple shape elements (rectangle, ellipse)"@,
        }
    }

    /// A short human-readable name of the feature.
    pub fn description(&self) -> (s: &'static str)
        ensures
            s@ == self.description_text(),
    {
        match self {
            UnsupportedFeature::CharacterSizeWvg => "Character Size WVG format",
            UnsupportedFeature::CompactCoordinateMode => "Compact coordinate mode",
            UnsupportedFeature::BezierPolyline => "Bezier polyline elements",
            UnsupportedFeature::Polygon => "Polygon elements",
            UnsupportedFeature::SpecialShape => "Special shape elements (regular polygon, star, grid)",
            UnsupportedFeature::TextElement => "Text elements",
            UnsupportedFeature::SimpleAnimation => "Simple animation elements",
            UnsupportedFeature::StandardAnimation => "Standard animation elements",
            UnsupportedFeature::ExtendedElement => "Extended elements",
            UnsupportedFeature::LocalEnvelope => "Local envelope elements",
            UnsupportedFeature::FrameElement => "Frame elements",
            UnsupportedFeature::SimpleShape => "Simple shape elements (rectangle, ellipse)",
        }
    }
}

impl WvgError {
    /// The words that [`WvgError::message`] returns.
    pub open spec fn message_text(&self) -> Seq<char> {
        match self {
            WvgError::EndOfStream => "unexpected end of stream"@,
            WvgError::InvalidWvgType => "invalid WVG type: expected 0 (character size) or 1 (standard)"@,
            WvgError::InvalidColorScheme(s) => "invalid color scheme: "@ + s@,
            WvgError::InvalidElementType(t) => "invalid element type: "@ + nat_text(*t as nat),
            WvgError::UnsupportedFeature(f) => "feature not supported: "@ + f.description_text(),
            WvgError::ParseError(s) => "parse error: "@ + s@,
            WvgError::ConversionError(s) => "conversion error: "@ + s@,
            WvgError::ElementIndexOutOfBounds { index, max } => "element index "@ + nat_text(
                *index as nat,
            ) + " out of bounds (max: "@ + nat_text(*max as nat) + ")"@,
        }
    }

    /// A one-line description of the failure.
    pub fn message(&self) -> (s: String)
        ensures
            s@ == self.message_text(),
    {
        let mut out = String::new();
        match self {
            WvgError::EndOfStream => {
                out.append("unexpected end of stream");
            },
            WvgError::InvalidWvgType => {
                out.append("invalid WVG type: expected 0 (character size) or 1 (standard)");
            },
            WvgError::InvalidColorScheme(s) => {
                out.append("invalid color scheme: ");
                out.append(s.as_str());
            },
            WvgError::InvalidElementType(t) => {
                out.append("invalid element type: ");
                push_nat(&mut out, *t as u64);
            },
            WvgError::UnsupportedFeature(f) => {
                out.append("feature not supported: ");
                out.append(f.description());
            },
            WvgError::ParseError(s) => {
                out.append("parse error: ");
                out.append(s.as_str());
            },
            WvgError::ConversionError(s) => {
                out.append("conversion error: ");
                out.append(s.as_str());
            },
            WvgError::ElementIndexOutOfBounds { index, max } => {
                out.append("element index ");
                push_nat(&mut out, *index as u64);
                out.append(" out of bounds (max: ");
                push_nat(&mut out, *max as u64);
                out.append(")");
            },
        }
        assert(out@ =~= self.message_text());
        out
    }
}

} // verus!
