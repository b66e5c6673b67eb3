//! The interface between decoded documents and output formats.
use crate::error::WvgResult;
use crate::types::WvgDocument;
use vstd::prelude::*;

verus! {

/// Turns a decoded document into some output format.
pub trait Converter {
    /// What a conversion produces.
    type Output;

    /// Converts the document, or says why it cannot be converted.
    fn convert(&self, document: &WvgDocument) -> WvgResult<Self::Output>;
}

/// Options that converters share.
#[derive(Debug, Clone, Copy)]
pub struct ConverterConfig {
    /// Reserved: asks for comments in the output; currently without effect.
    pub include_comments: bool,
    /// Puts every tag on a line of its own, indented by nesting depth.
    pub pretty_print: bool,
    /// Multiplier for line widths, in thousandths: 1000 leaves them as
    /// they are, 1500 makes them half as wide again.
    pub line_width_scale: Option<u32>,
}

impl ConverterConfig {
    /// The configuration in which nothing is switched on.
    pub open spec fn plain() -> ConverterConfig {
        ConverterConfig { include_comments: false, pretty_print: false, line_width_scale: None }
    }

    /// A configuration in which nothing is switched on.
    pub fn new() -> (c: Self)
        ensures
            c == ConverterConfig::plain(),
    {
        ConverterConfig { include_comments: false, pretty_print: false, line_width_scale: None }
    }

    /// The same configuration with comments switched on or off.
    pub fn with_comments(self, comments: bool) -> (c: Self)
        ensures
            c == (ConverterConfig { include_comments: comments, ..self }),
    {
        ConverterConfig { include_comments: comments, ..self }
    }

    /// The same configuration with pretty-printing switched on or off.
    pub fn with_pretty_print(self, pretty: bool) -> (c: Self)
        ensures
            c == (ConverterConfig { pretty_print: pretty, ..self }),
    {
        ConverterConfig { pretty_print: pretty, ..self }
    }

    /// The same configuration with line widths multiplied by `scale`
    /// thousandths.
    pub fn with_line_width_scale(self, scale: u32) -> (c: Self)
        ensures
            c == (ConverterConfig { line_width_scale: Some(scale), ..self }),
    {
        ConverterConfig { line_width_scale: Some(scale), ..self }
    }
}

impl Default for ConverterConfig {
    fn default() -> (c: Self)
        ensures
            c == ConverterConfig::plain(),
    {
        ConverterConfig::new()
    }
}

} // verus!
