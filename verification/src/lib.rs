//! Decoder for the bit-packed WVG (Wireless Vector Graphics) format and a
//! renderer that turns decoded documents into SVG markup.
//!
//! Data flows in one direction: bytes are read through a [`BitStream`], the
//! [`WvgParser`] turns them into a [`WvgDocument`], and the [`SvgConverter`]
//! writes the document out as text.
pub mod bitstream;
pub mod converter;
pub mod error;
pub mod grammar;
pub mod parser;
pub mod svg;
pub mod text;
pub mod types;

pub use bitstream::BitStream;
pub use converter::Converter;
pub use error::{UnsupportedFeature, WvgError, WvgResult};
pub use parser::WvgParser;
pub use svg::SvgConverter;
pub use types::{
    AnimationMode, ArrayParams, AttributeMasks, CircularPoint, CircularPolylineElement,
    CodecParams, Color, ColorConfig, ColorScheme, CompactCoordinateParams, CoordinateParams,
    ElementAttributes, ElementData, FlatCoordinateParams, GeneralInfo, GenericParams,
    GroupStartElement, LineType, LineWidth, Point, PolylineElement, Resolution, ReuseElement,
    SimpleShapeElement, SimpleShapeType, TextCodeMode, Timestamp, Transform, WvgDocument,
    WvgElement, WvgHeader,
};
