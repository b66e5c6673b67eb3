//! The format, stated as functions from bytes and a bit position to the
//! value found there and the position behind it.
//!
//! Nothing here runs. The decoder is proved to return exactly what these
//! functions say, so they are the definition of what a byte buffer means.
use crate::bitstream::{
    bit_at, bits_value, signed_bits_value, spec_read_bit, spec_read_bits, spec_read_flag,
    spec_read_signed_bits, Parsed,
};
use crate::error::{UnsupportedFeature, WvgError};
use crate::text::nat_text;
use crate::types::{
    AnimationMode, ArrayParams, AttributeMasks, CircularPoint, CircularPolylineView,
    CodecParamsView, Color, ColorConfig, ColorScheme, CoordinateParams, ElementAttributes,
    ElementDataView, FlatCoordinateParams, GeneralInfoView, GenericParams, GroupStartElement,
    LineType, LineWidth, Point, PolylineView, Resolution, ReuseElement, SimpleShapeElement, SimpleShapeType,
    TextCodeMode, Timestamp, Transform, WvgDocumentView, WvgElementView, WvgHeaderView,
};
use vstd::arithmetic::power2::pow2;
use vstd::prelude::*;

verus! {

/// The bit at `pos`, read as a flag.
pub open spec fn flag_at(data: Seq<u8>, pos: nat) -> bool {
    bit_at(data, pos) == 1
}

// ---------------------------------------------------------------------
// Colors
// ---------------------------------------------------------------------
/// Intensity `k` steps below full on the six-step websafe scale.
pub open spec fn websafe_level(k: nat) -> u8 {
    (255 - 51 * k) as u8
}

/// Entry `index` of the websafe table.
///
/// The first 215 entries walk the six-step color cube: green changes with
/// every entry, blue with every sixth, red with every eighteenth, and the
/// lower three blue steps follow once the upper three are through. Ten
/// grays and four dark colors follow; everything after that is black.
pub open spec fn websafe_rgb(index: nat) -> Color {
    if index < 215 {
        Color {
            r: websafe_level((index % 108) / 18),
            g: websafe_level(index % 6),
            b: websafe_level(3 * (index / 108) + (index % 18) / 6),
        }
    } else if index == 215 {
        Color { r: 17, g: 17, b: 17 }
    } else if index == 216 {
        Color { r: 34, g: 34, b: 34 }
    } else if index == 217 {
        Color { r: 68, g: 68, b: 68 }
    } else if index == 218 {
        Color { r: 85, g: 85, b: 85 }
    } else if index == 219 {
        Color { r: 119, g: 119, b: 119 }
    } else if index == 220 {
        Color { r: 136, g: 136, b: 136 }
    } else if index == 221 {
        Color { r: 170, g: 170, b: 170 }
    } else if index == 222 {
        Color { r: 187, g: 187, b: 187 }
    } else if index == 223 {
        Color { r: 221, g: 221, b: 221 }
    } else if index == 224 {
        Color { r: 238, g: 238, b: 238 }
    } else if index == 225 {
        Color { r: 192, g: 192, b: 192 }
    } else if index == 226 {
        Color { r: 128, g: 0, b: 0 }
    } else if index == 227 {
        Color { r: 128, g: 0, b: 128 }
    } else if index == 228 {
        Color { r: 0, g: 128, b: 0 }
    } else if index == 229 {
        Color { r: 0, g: 128, b: 128 }
    } else {
        Color { r: 0, g: 0, b: 0 }
    }
}

/// The gray that a two-bit level stands for.
pub open spec fn gray2_color(v: nat) -> Color {
    Color { r: (85 * v) as u8, g: (85 * v) as u8, b: (85 * v) as u8 }
}

/// The color that a two-bit code stands for in the predefined scheme.
pub open spec fn predefined2_color(v: nat) -> Color {
    if v == 0 {
        Color { r: 255, g: 255, b: 255 }
    } else if v == 1 {
        Color { r: 255, g: 0, b: 0 }
    } else if v == 2 {
        Color { r: 0, g: 255, b: 0 }
    } else {
        Color { r: 0, g: 0, b: 255 }
    }
}

/// A six-bit color: two bits per channel, red first, each scaled by 85.
pub open spec fn rgb6_color(v: nat) -> Color {
    Color {
        r: (((v / 16) % 4) * 85) as u8,
        g: (((v / 4) % 4) * 85) as u8,
        b: ((v % 4) * 85) as u8,
    }
}

/// A twelve-bit color: four bits per channel, red first, each scaled by 17.
pub open spec fn rgb12_color(v: nat) -> Color {
    Color {
        r: (((v / 256) % 16) * 17) as u8,
        g: (((v / 16) % 16) * 17) as u8,
        b: ((v % 16) * 17) as u8,
    }
}

/// A color in the given scheme. The palette schemes read nothing and give
/// black.
#[verifier::opaque]
pub open spec fn spec_draw_color(data: Seq<u8>, pos: nat, scheme: ColorScheme) -> Parsed<Color> {
    match scheme {
        ColorScheme::BlackAndWhite => match spec_read_flag(data, pos) {
            Err(e) => Err(e),
            Ok((set, p)) => Ok((if set { Color::spec_black() } else { Color::spec_white() }, p)),
        },
        ColorScheme::Grayscale2Bit => match spec_read_bits(data, pos, 2) {
            Err(e) => Err(e),
            Ok((v, p)) => Ok((gray2_color(v as nat), p)),
        },
        ColorScheme::Predefined2Bit => match spec_read_bits(data, pos, 2) {
            Err(e) => Err(e),
            Ok((v, p)) => Ok((predefined2_color(v as nat), p)),
        },
        ColorScheme::Rgb6Bit => match spec_read_bits(data, pos, 6) {
            Err(e) => Err(e),
            Ok((v, p)) => Ok((rgb6_color(v as nat), p)),
        },
        ColorScheme::Websafe => match spec_read_bits(data, pos, 8) {
            Err(e) => Err(e),
            Ok((v, p)) => Ok((websafe_rgb(v as nat), p)),
        },
        ColorScheme::Rgb12Bit => match spec_read_bits(data, pos, 12) {
            Err(e) => Err(e),
            Ok((v, p)) => Ok((rgb12_color(v as nat), p)),
        },
        ColorScheme::Rgb24Bit => if pos + 24 <= 8 * data.len() {
            Ok(
                (
                    Color {
                        r: bits_value(data, pos, 8) as u8,
                        g: bits_value(data, pos + 8, 8) as u8,
                        b: bits_value(data, pos + 16, 8) as u8,
                    },
                    pos + 24,
                ),
            )
        } else {
            Err(WvgError::EndOfStream)
        },
        ColorScheme::Rgb6BitPalette => Ok((Color::spec_black(), pos)),
        ColorScheme::WebsafePalette => Ok((Color::spec_black(), pos)),
    }
}

/// A palette of six-bit colors: a five-bit count less one, then the entries.
#[verifier::opaque]
pub open spec fn spec_6bit_palette(data: Seq<u8>, pos: nat) -> Parsed<Seq<Color>> {
    match spec_read_bits(data, pos, 5) {
        Err(e) => Err(e),
        Ok((v, p)) => {
            let count = (v + 1) as nat;
            if p + 6 * count <= 8 * data.len() {
                Ok(
                    (
                        Seq::new(
                            count,
                            |i: int| rgb6_color(bits_value(data, (p + 6 * i) as nat, 6)),
                        ),
                        p + 6 * count,
                    ),
                )
            } else {
                Err(WvgError::EndOfStream)
            }
        },
    }
}

/// A palette of websafe colors: a seven-bit count less one, then the
/// entries as indices into the websafe table.
#[verifier::opaque]
pub open spec fn spec_8bit_palette(data: Seq<u8>, pos: nat) -> Parsed<Seq<Color>> {
    match spec_read_bits(data, pos, 7) {
        Err(e) => Err(e),
        Ok((v, p)) => {
            let count = (v + 1) as nat;
            if p + 8 * count <= 8 * data.len() {
                Ok(
                    (
                        Seq::new(
                            count,
                            |i: int| websafe_rgb(bits_value(data, (p + 8 * i) as nat, 8)),
                        ),
                        p + 8 * count,
                    ),
                )
            } else {
                Err(WvgError::EndOfStream)
            }
        },
    }
}

/// The color scheme, a prefix code of two to four bits; the palette
/// schemes are followed by their palette.
#[verifier::opaque]
pub open spec fn spec_color_scheme(data: Seq<u8>, pos: nat) -> Parsed<ColorScheme> {
    match spec_read_flag(data, pos) {
        Err(e) => Err(e),
        Ok((b1, p1)) => match spec_read_flag(data, p1) {
            Err(e) => Err(e),
            Ok((b2, p2)) => if !b1 && !b2 {
                Ok((ColorScheme::BlackAndWhite, p2))
            } else {
                match spec_read_flag(data, p2) {
                    Err(e) => Err(e),
                    Ok((b3, p3)) => if !b1 {
                        Ok(
                            (
                                if b3 {
                                    ColorScheme::Predefined2Bit
                                } else {
                                    ColorScheme::Grayscale2Bit
                                },
                                p3,
                            ),
                        )
                    } else if !b2 {
                        Ok((if b3 { ColorScheme::Websafe } else { ColorScheme::Rgb6Bit }, p3))
                    } else {
                        match spec_read_flag(data, p3) {
                            Err(e) => Err(e),
                            Ok((b4, p4)) => if !b3 && !b4 {
                                match spec_6bit_palette(data, p4) {
                                    Err(e) => Err(e),
                                    Ok((_, p5)) => Ok((ColorScheme::Rgb6BitPalette, p5)),
                                }
                            } else if !b3 {
                                match spec_8bit_palette(data, p4) {
                                    Err(e) => Err(e),
                                    Ok((_, p5)) => Ok((ColorScheme::WebsafePalette, p5)),
                                }
                            } else if !b4 {
                                Ok((ColorScheme::Rgb12Bit, p4))
                            } else {
                                Ok((ColorScheme::Rgb24Bit, p4))
                            },
                        }
                    },
                }
            },
        },
    }
}

/// A color behind a presence bit.
#[verifier::opaque]
pub open spec fn spec_optional_color(data: Seq<u8>, pos: nat, scheme: ColorScheme) -> Parsed<
    Option<Color>,
> {
    match spec_read_flag(data, pos) {
        Err(e) => Err(e),
        Ok((present, p)) => if present {
            match spec_draw_color(data, p, scheme) {
                Err(e) => Err(e),
                Ok((c, q)) => Ok((Some(c), q)),
            }
        } else {
            Ok((None, p))
        },
    }
}

/// The color scheme, then the default line, fill and background colors,
/// each behind its presence bit.
#[verifier::opaque]
pub open spec fn spec_color_configuration(data: Seq<u8>, pos: nat) -> Parsed<ColorConfig> {
    match spec_color_scheme(data, pos) {
        Err(e) => Err(e),
        Ok((scheme, p0)) => match spec_optional_color(data, p0, scheme) {
            Err(e) => Err(e),
            Ok((line, p1)) => match spec_optional_color(data, p1, scheme) {
                Err(e) => Err(e),
                Ok((fill, p2)) => match spec_optional_color(data, p2, scheme) {
                    Err(e) => Err(e),
                    Ok((background, p3)) => Ok(
                        (
                            ColorConfig {
                                scheme,
                                default_line_color: line,
                                default_fill_color: fill,
                                background_color: background,
                            },
                            p3,
                        ),
                    ),
                },
            },
        },
    }
}

// ---------------------------------------------------------------------
// General information
// ---------------------------------------------------------------------
/// Bits of one character in the given text mode.
pub open spec fn char_bits(mode: TextCodeMode) -> nat {
    match mode {
        TextCodeMode::Ucs2 => 16,
        TextCodeMode::Gsm7Bit => 7,
    }
}

/// A string behind a presence bit: an eight-bit character count, then the
/// characters. The characters are passed over; a string that is present
/// reads as empty.
#[verifier::opaque]
pub open spec fn spec_optional_string(data: Seq<u8>, pos: nat, mode: TextCodeMode) -> Parsed<
    Option<Seq<char>>,
> {
    match spec_read_flag(data, pos) {
        Err(e) => Err(e),
        Ok((present, p1)) => if !present {
            Ok((None, p1))
        } else {
            match spec_read_bits(data, p1, 8) {
                Err(e) => Err(e),
                Ok((count, p2)) => if p2 + count * char_bits(mode) <= 8 * data.len() {
                    Ok((Some(Seq::empty()), (p2 + count * char_bits(mode)) as nat))
                } else {
                    Err(WvgError::EndOfStream)
                },
            }
        },
    }
}

/// A timestamp behind a presence bit: signed 13-bit year, then month, day,
/// hour, minute and second in 4, 5, 5, 6 and 6 bits.
#[verifier::opaque]
pub open spec fn spec_timestamp(data: Seq<u8>, pos: nat) -> Parsed<Option<Timestamp>> {
    match spec_read_flag(data, pos) {
        Err(e) => Err(e),
        Ok((present, p)) => if !present {
            Ok((None, p))
        } else if p + 39 <= 8 * data.len() {
            Ok(
                (
                    Some(
                        Timestamp {
                            year: signed_bits_value(data, p, 13) as i16,
                            month: bits_value(data, p + 13, 4) as u8,
                            day: bits_value(data, p + 17, 5) as u8,
                            hour: bits_value(data, p + 22, 5) as u8,
                            minute: bits_value(data, p + 27, 6) as u8,
                            second: bits_value(data, p + 33, 6) as u8,
                        },
                    ),
                    p + 39,
                ),
            )
        } else {
            Err(WvgError::EndOfStream)
        },
    }
}

/// The descriptive fields that follow the version when the extension bit
/// is set: text mode, author, title, timestamp.
#[verifier::opaque]
pub open spec fn spec_extended_info(data: Seq<u8>, pos: nat, version: u8) -> Parsed<
    GeneralInfoView,
> {
    match spec_read_flag(data, pos) {
        Err(e) => Err(e),
        Ok((wide, p1)) => {
            let mode = if wide {
                TextCodeMode::Ucs2
            } else {
                TextCodeMode::Gsm7Bit
            };
            match spec_optional_string(data, p1, mode) {
                Err(e) => Err(e),
                Ok((author, p2)) => match spec_optional_string(data, p2, mode) {
                    Err(e) => Err(e),
                    Ok((title, p3)) => match spec_timestamp(data, p3) {
                        Err(e) => Err(e),
                        Ok((timestamp, p4)) => Ok(
                            (
                                GeneralInfoView {
                                    version,
                                    text_code_mode: Some(mode),
                                    author,
                                    title,
                                    timestamp,
                                },
                                p4,
                            ),
                        ),
                    },
                },
            }
        },
    }
}

/// Four bits of version, one extension bit, and the extension if announced.
#[verifier::opaque]
pub open spec fn spec_general_info(data: Seq<u8>, pos: nat) -> Parsed<GeneralInfoView> {
    match spec_read_bits(data, pos, 4) {
        Err(e) => Err(e),
        Ok((version, p1)) => match spec_read_flag(data, p1) {
            Err(e) => Err(e),
            Ok((extended, p2)) => if extended {
                spec_extended_info(data, p2, version as u8)
            } else {
                Ok(
                    (
                        GeneralInfoView {
                            version: version as u8,
                            text_code_mode: None,
                            author: None,
                            title: None,
                            timestamp: None,
                        },
                        p2,
                    ),
                )
            },
        },
    }
}

// ---------------------------------------------------------------------
// Codec parameters
// ---------------------------------------------------------------------
/// The element mask: eight flags, an extension bit, and five more flags if
/// the extension bit is set.
#[verifier::opaque]
pub open spec fn spec_element_mask(data: Seq<u8>, pos: nat) -> Parsed<Seq<bool>> {
    if pos + 9 <= 8 * data.len() {
        if flag_at(data, pos + 8) {
            if pos + 14 <= 8 * data.len() {
                Ok(
                    (
                        Seq::new(
                            13,
                            |i: int|
                                if i < 8 {
                                    flag_at(data, (pos + i) as nat)
                                } else {
                                    flag_at(data, (pos + i + 1) as nat)
                                },
                        ),
                        pos + 14,
                    ),
                )
            } else {
                Err(WvgError::EndOfStream)
            }
        } else {
            Ok((Seq::new(8, |i: int| flag_at(data, (pos + i) as nat)), pos + 9))
        }
    } else {
        Err(WvgError::EndOfStream)
    }
}

/// The attribute mask: four flags.
#[verifier::opaque]
pub open spec fn spec_attribute_mask(data: Seq<u8>, pos: nat) -> Parsed<AttributeMasks> {
    if pos + 4 <= 8 * data.len() {
        Ok(
            (
                AttributeMasks {
                    line_type: flag_at(data, pos),
                    line_width: flag_at(data, pos + 1),
                    line_color: flag_at(data, pos + 2),
                    fill: flag_at(data, pos + 3),
                },
                pos + 4,
            ),
        )
    } else {
        Err(WvgError::EndOfStream)
    }
}

/// Whether flag `kind` of the mask is there and set.
pub open spec fn kind_enabled(masks: Seq<bool>, kind: int) -> bool {
    0 <= kind < masks.len() && masks[kind]
}

/// A resolution and a width behind a presence bit; absent, both keep
/// their defaults.
#[verifier::opaque]
pub open spec fn spec_resolution_and_width(
    data: Seq<u8>,
    pos: nat,
    width_bits: nat,
    default_resolution: Resolution,
    default_width: u8,
) -> Parsed<(Resolution, u8)> {
    match spec_read_flag(data, pos) {
        Err(e) => Err(e),
        Ok((present, p)) => if !present {
            Ok(((default_resolution, default_width), p))
        } else if p + 2 + width_bits <= 8 * data.len() {
            Ok(
                (
                    (
                        Resolution::of_code(bits_value(data, p, 2) as u32),
                        bits_value(data, p + 2, width_bits) as u8,
                    ),
                    p + 2 + width_bits,
                ),
            )
        } else {
            Err(WvgError::EndOfStream)
        },
    }
}

/// The index width behind a presence bit; absent, it is 2.
#[verifier::opaque]
pub open spec fn spec_index_width(data: Seq<u8>, pos: nat) -> Parsed<u8> {
    match spec_read_flag(data, pos) {
        Err(e) => Err(e),
        Ok((present, p)) => if !present {
            Ok((2u8, p))
        } else {
            match spec_read_bits(data, p, 4) {
                Err(e) => Err(e),
                Ok((v, q)) => Ok((v as u8, q)),
            }
        },
    }
}

/// The curve offset width selector, one bit that is there only when
/// circular polylines or polygons are enabled.
#[verifier::opaque]
pub open spec fn spec_curve_offset_width(data: Seq<u8>, pos: nat, masks: Seq<bool>) -> Parsed<
    Option<u8>,
> {
    if kind_enabled(masks, 2) || kind_enabled(masks, 8) {
        match spec_read_bit(data, pos) {
            Err(e) => Err(e),
            Ok((b, p)) => Ok((Some(b), p)),
        }
    } else {
        Ok((None, pos))
    }
}

/// The generic parameters: angle, scale, index width, curve offset width.
#[verifier::opaque]
pub open spec fn spec_generic_parameters(data: Seq<u8>, pos: nat, masks: Seq<bool>) -> Parsed<
    GenericParams,
> {
    match spec_resolution_and_width(data, pos, 3, Resolution::Eighth, 2) {
        Err(e) => Err(e),
        Ok((angle, p1)) => match spec_resolution_and_width(data, p1, 4, Resolution::Full, 2) {
            Err(e) => Err(e),
            Ok((scale, p2)) => match spec_index_width(data, p2) {
                Err(e) => Err(e),
                Ok((index, p3)) => match spec_curve_offset_width(data, p3, masks) {
                    Err(e) => Err(e),
                    Ok((curve, p4)) => Ok(
                        (
                            GenericParams {
                                angle_resolution: angle.0,
                                angle_in_bits: angle.1,
                                scale_resolution: scale.0,
                                scale_in_bits: scale.1,
                                index_in_bits: index,
                                curve_offset_in_bits: curve,
                            },
                            p4,
                        ),
                    ),
                },
            },
        },
    }
}

/// The widths that follow the canvas size, 33 bits in all, starting at `p`.
pub open spec fn flat_layout(data: Seq<u8>, p: nat, width: u16, height: u16)
    -> FlatCoordinateParams {
    FlatCoordinateParams {
        drawing_width: width,
        drawing_height: height,
        max_x_in_bits: bits_value(data, p, 4) as u8,
        max_y_in_bits: bits_value(data, p + 4, 4) as u8,
        xy_all_positive: flag_at(data, p + 8),
        trans_xy_in_bits: bits_value(data, p + 9, 4) as u8,
        num_points_in_bits: bits_value(data, p + 13, 4) as u8,
        offset_x_in_bits_level1: bits_value(data, p + 17, 4) as u8,
        offset_y_in_bits_level1: bits_value(data, p + 21, 4) as u8,
        offset_x_in_bits_level2: bits_value(data, p + 25, 4) as u8,
        offset_y_in_bits_level2: bits_value(data, p + 29, 4) as u8,
    }
}

/// The flat coordinate parameters: 16 bits of width, a height behind a
/// presence bit (absent, the height is the width), then the field widths.
#[verifier::opaque]
pub open spec fn spec_flat_coordinate_parameters(data: Seq<u8>, pos: nat) -> Parsed<
    FlatCoordinateParams,
> {
    if pos + 17 <= 8 * data.len() {
        let width = bits_value(data, pos, 16) as u16;
        if flag_at(data, pos + 16) {
            if pos + 66 <= 8 * data.len() {
                Ok(
                    (
                        flat_layout(
                            data,
                            pos + 33,
                            width,
                            bits_value(data, pos + 17, 16) as u16,
                        ),
                        pos + 66,
                    ),
                )
            } else {
                Err(WvgError::EndOfStream)
            }
        } else if pos + 50 <= 8 * data.len() {
            Ok((flat_layout(data, pos + 17, width, width), pos + 50))
        } else {
            Err(WvgError::EndOfStream)
        }
    } else {
        Err(WvgError::EndOfStream)
    }
}

/// The coordinate parameters: a mode bit, then the flat parameters. The
/// compact mode is rejected.
#[verifier::opaque]
pub open spec fn spec_coordinate_parameters(data: Seq<u8>, pos: nat) -> Parsed<CoordinateParams> {
    match spec_read_flag(data, pos) {
        Err(e) => Err(e),
        Ok((compact, p)) => if compact {
            Err(WvgError::UnsupportedFeature(UnsupportedFeature::CompactCoordinateMode))
        } else {
            match spec_flat_coordinate_parameters(data, p) {
                Err(e) => Err(e),
                Ok((flat, q)) => Ok((CoordinateParams::Flat(flat), q)),
            }
        },
    }
}

/// The animation mode, one bit that is there only when animation elements
/// are enabled.
#[verifier::opaque]
pub open spec fn spec_animation_settings(data: Seq<u8>, pos: nat, masks: Seq<bool>) -> Parsed<
    Option<AnimationMode>,
> {
    if kind_enabled(masks, 7) {
        match spec_read_flag(data, pos) {
            Err(e) => Err(e),
            Ok((standard, p)) => Ok(
                (Some(if standard { AnimationMode::Standard } else { AnimationMode::Simple }), p),
            ),
        }
    } else {
        Ok((None, pos))
    }
}

/// The codec parameters and the animation mode that follows them.
#[verifier::opaque]
pub open spec fn spec_codec_parameters(data: Seq<u8>, pos: nat) -> Parsed<
    (CodecParamsView, Option<AnimationMode>),
> {
    match spec_element_mask(data, pos) {
        Err(e) => Err(e),
        Ok((masks, p1)) => match spec_attribute_mask(data, p1) {
            Err(e) => Err(e),
            Ok((attrs, p2)) => match spec_generic_parameters(data, p2, masks) {
                Err(e) => Err(e),
                Ok((generic, p3)) => match spec_coordinate_parameters(data, p3) {
                    Err(e) => Err(e),
                    Ok((coord, p4)) => match spec_animation_settings(data, p4, masks) {
                        Err(e) => Err(e),
                        Ok((animation, p5)) => Ok(
                            (
                                (
                                    CodecParamsView {
                                        element_masks: masks,
                                        attribute_masks: attrs,
                                        generic_params: generic,
                                        coord_params: coord,
                                    },
                                    animation,
                                ),
                                p5,
                            ),
                        ),
                    },
                },
            },
        },
    }
}

/// The header of the standard profile: general information, colors, codec
/// parameters.
#[verifier::opaque]
pub open spec fn spec_standard_wvg_header(data: Seq<u8>, pos: nat) -> Parsed<WvgHeaderView> {
    match spec_general_info(data, pos) {
        Err(e) => Err(e),
        Ok((general_info, p1)) => match spec_color_configuration(data, p1) {
            Err(e) => Err(e),
            Ok((color_config, p2)) => match spec_codec_parameters(data, p2) {
                Err(e) => Err(e),
                Ok((codec, p3)) => Ok(
                    (
                        WvgHeaderView {
                            general_info,
                            color_config,
                            codec_params: codec.0,
                            animation_mode: codec.1,
                        },
                        p3,
                    ),
                ),
            },
        },
    }
}

// ---------------------------------------------------------------------
// Elements
// ---------------------------------------------------------------------
/// What the header leaves behind for decoding elements.
pub struct DecodeContext {
    pub masks: Seq<bool>,
    pub attributes: AttributeMasks,
    pub generic: GenericParams,
    pub flat: FlatCoordinateParams,
}

/// Flat parameters in which every width is zero.
pub open spec fn blank_flat_params() -> FlatCoordinateParams {
    FlatCoordinateParams {
        drawing_width: 0,
        drawing_height: 0,
        max_x_in_bits: 0,
        max_y_in_bits: 0,
        xy_all_positive: false,
        trans_xy_in_bits: 0,
        num_points_in_bits: 0,
        offset_x_in_bits_level1: 0,
        offset_y_in_bits_level1: 0,
        offset_x_in_bits_level2: 0,
        offset_y_in_bits_level2: 0,
    }
}

/// The context that a decoded header establishes.
pub open spec fn context_of(codec: CodecParamsView) -> DecodeContext {
    DecodeContext {
        masks: codec.element_masks,
        attributes: codec.attribute_masks,
        generic: codec.generic_params,
        flat: match codec.coord_params {
            CoordinateParams::Flat(f) => f,
            CoordinateParams::Compact(_) => blank_flat_params(),
        },
    }
}

/// Number of flags that are set.
pub open spec fn count_active(masks: Seq<bool>) -> nat
    decreases masks.len(),
{
    if masks.len() == 0 {
        0
    } else {
        count_active(masks.drop_last()) + if masks.last() {
            1nat
        } else {
            0nat
        }
    }
}

/// Bits of the element type index when `active` element kinds are enabled.
pub open spec fn type_index_bits(active: nat) -> nat {
    if active <= 1 {
        0
    } else if active == 2 {
        1
    } else if active <= 4 {
        2
    } else if active <= 8 {
        3
    } else {
        4
    }
}

/// Position of the flag that is the `k`-th set flag when counting from
/// position `start`, if there are that many.
pub open spec fn nth_active_from(masks: Seq<bool>, start: nat, k: nat) -> Option<nat>
    decreases masks.len() - start,
{
    if start >= masks.len() {
        None
    } else if masks[start as int] {
        if k == 0 {
            Some(start)
        } else {
            nth_active_from(masks, start + 1, (k - 1) as nat)
        }
    } else {
        nth_active_from(masks, start + 1, k)
    }
}

/// The element kind that type index `k` stands for: the position of the
/// `k`-th set flag of the mask, counting from zero.
pub open spec fn nth_active(masks: Seq<bool>, k: nat) -> Option<nat> {
    nth_active_from(masks, 0, k)
}

/// Counting set flags from the left: the first flag, then the rest.
pub proof fn lemma_count_active_first(masks: Seq<bool>)
    requires
        masks.len() > 0,
    ensures
        count_active(masks) == count_active(masks.drop_first()) + if masks[0] {
            1nat
        } else {
            0nat
        },
    decreases masks.len(),
{
    if masks.len() == 1 {
        assert(masks.drop_last() =~= Seq::<bool>::empty());
        assert(masks.drop_first() =~= Seq::<bool>::empty());
    } else {
        lemma_count_active_first(masks.drop_last());
        assert(masks.drop_last().drop_first() =~= masks.drop_first().drop_last());
    }
}

/// No prefix of a mask has more set flags than the mask.
pub proof fn lemma_count_active_prefix(masks: Seq<bool>, n: int)
    requires
        0 <= n <= masks.len(),
    ensures
        count_active(masks.take(n)) <= count_active(masks),
    decreases masks.len(),
{
    if n == masks.len() {
        assert(masks.take(n) =~= masks);
    } else {
        lemma_count_active_prefix(masks.drop_last(), n);
        assert(masks.drop_last().take(n) =~= masks.take(n));
    }
}

/// What searching from `start` finds: a set flag with exactly `k` set
/// flags between `start` and itself, or nothing when fewer than `k + 1`
/// flags are set from `start` on.
pub proof fn lemma_nth_active_from(masks: Seq<bool>, start: nat, k: nat)
    requires
        start <= masks.len(),
    ensures
        match nth_active_from(masks, start, k) {
            Some(i) => start <= i < masks.len() && masks[i as int] && count_active(
                masks.subrange(start as int, i as int),
            ) == k,
            None => count_active(masks.subrange(start as int, masks.len() as int)) <= k,
        },
    decreases masks.len() - start,
{
    if start >= masks.len() {
        assert(masks.subrange(start as int, masks.len() as int) =~= Seq::<bool>::empty());
    } else if masks[start as int] && k == 0 {
        assert(masks.subrange(start as int, start as int) =~= Seq::<bool>::empty());
    } else {
        let rest: nat = if masks[start as int] {
            (k - 1) as nat
        } else {
            k
        };
        lemma_nth_active_from(masks, start + 1, rest);
        let end: int = match nth_active_from(masks, start + 1, rest) {
            Some(i) => i as int,
            None => masks.len() as int,
        };
        let span = masks.subrange(start as int, end);
        if span.len() > 0 {
            lemma_count_active_first(span);
            assert(span.drop_first() =~= masks.subrange(start as int + 1, end));
        }
    }
}

/// A type index stands for the set flag that has exactly that many set
/// flags before it, and for nothing exactly when the mask has no more set
/// flags than the index says.
pub proof fn lemma_nth_active(masks: Seq<bool>, k: nat)
    ensures
        match nth_active(masks, k) {
            Some(i) => i < masks.len() && masks[i as int] && count_active(masks.take(i as int))
                == k,
            None => true,
        },
        nth_active(masks, k) is None <==> count_active(masks) <= k,
{
    lemma_nth_active_from(masks, 0, k);
    assert(masks.subrange(0, masks.len() as int) =~= masks);
    match nth_active(masks, k) {
        Some(i) => {
            assert(masks.subrange(0, i as int) =~= masks.take(i as int));
            lemma_count_active_prefix(masks, i as int + 1);
            assert(masks.take(i as int + 1).drop_last() =~= masks.take(i as int));
        },
        None => {},
    }
}

/// The name of the element at position `index` of the element list.
pub open spec fn element_id_text(index: nat) -> Seq<char> {
    "el_"@ + nat_text(index)
}

/// A two-bit code that is there only when `enabled`.
#[verifier::opaque]
pub open spec fn spec_masked_code(data: Seq<u8>, pos: nat, enabled: bool) -> Parsed<Option<u32>> {
    if enabled {
        match spec_read_bits(data, pos, 2) {
            Err(e) => Err(e),
            Ok((v, p)) => Ok((Some(v), p)),
        }
    } else {
        Ok((None, pos))
    }
}

/// The line color of an attribute set. A presence bit is there when line
/// colors are enabled and the width read before is not "no line"; a color
/// that is present reads as black.
#[verifier::opaque]
pub open spec fn spec_line_color_attribute(
    data: Seq<u8>,
    pos: nat,
    enabled: bool,
    width: Option<LineWidth>,
) -> Parsed<Option<Color>> {
    if enabled && width != Some(LineWidth::NoLine) {
        match spec_read_flag(data, pos) {
            Err(e) => Err(e),
            Ok((present, p)) => Ok((if present { Some(Color::spec_black()) } else { None }, p)),
        }
    } else {
        Ok((None, pos))
    }
}

/// The fill of an attribute set, there when fills are enabled: a fill bit
/// and, for a filled element, a bit that announces a fill color, which
/// reads as black.
#[verifier::opaque]
pub open spec fn spec_fill_attribute(data: Seq<u8>, pos: nat, enabled: bool) -> Parsed<
    (Option<bool>, Option<Color>),
> {
    if enabled {
        match spec_read_flag(data, pos) {
            Err(e) => Err(e),
            Ok((filled, p)) => if filled {
                match spec_read_flag(data, p) {
                    Err(e) => Err(e),
                    Ok((colored, q)) => Ok(
                        (
                            (Some(true), if colored { Some(Color::spec_black()) } else { None }),
                            q,
                        ),
                    ),
                }
            } else {
                Ok(((Some(false), None), p))
            },
        }
    } else {
        Ok(((None, None), pos))
    }
}

/// The line type that an optional code stands for.
pub open spec fn line_type_of(code: Option<u32>) -> Option<LineType> {
    match code {
        Some(c) => Some(LineType::of_code(c)),
        None => None,
    }
}

/// The line width that an optional code stands for.
pub open spec fn line_width_of(code: Option<u32>) -> Option<LineWidth> {
    match code {
        Some(c) => Some(LineWidth::of_code(c)),
        None => None,
    }
}

/// An attribute set: line type, line width, line color and fill, each
/// there only when the attribute mask enables it.
#[verifier::opaque]
pub open spec fn spec_attributes_set(data: Seq<u8>, pos: nat, masks: AttributeMasks) -> Parsed<
    ElementAttributes,
> {
    match spec_masked_code(data, pos, masks.line_type) {
        Err(e) => Err(e),
        Ok((line_type, p1)) => match spec_masked_code(data, p1, masks.line_width) {
            Err(e) => Err(e),
            Ok((line_width, p2)) => match spec_line_color_attribute(
                data,
                p2,
                masks.line_color,
                line_width_of(line_width),
            ) {
                Err(e) => Err(e),
                Ok((line_color, p3)) => match spec_fill_attribute(data, p3, masks.fill) {
                    Err(e) => Err(e),
                    Ok((fill, p4)) => Ok(
                        (
                            ElementAttributes {
                                line_type: line_type_of(line_type),
                                line_width: line_width_of(line_width),
                                line_color,
                                fill: fill.0,
                                fill_color: fill.1,
                            },
                            p4,
                        ),
                    ),
                },
            },
        },
    }
}

/// What opens every positional element.
pub struct ElementHeader {
    /// X offsets of this element use the coarse width.
    pub offset_x_use: bool,
    /// Y offsets of this element use the coarse width.
    pub offset_y_use: bool,
    /// The attributes of the element.
    pub attributes: ElementAttributes,
}

/// Whether any attribute is enabled.
pub open spec fn any_attribute(masks: AttributeMasks) -> bool {
    masks.line_type || masks.line_width || masks.line_color || masks.fill
}

/// The element header: the two offset width selectors, then, if any
/// attribute is enabled, a presence bit and the attribute set behind it.
#[verifier::opaque]
pub open spec fn spec_basic_element_header(data: Seq<u8>, pos: nat, masks: AttributeMasks)
    -> Parsed<ElementHeader> {
    if pos + 2 <= 8 * data.len() {
        let offset_x_use = flag_at(data, pos);
        let offset_y_use = flag_at(data, pos + 1);
        if any_attribute(masks) {
            match spec_read_flag(data, pos + 2) {
                Err(e) => Err(e),
                Ok((present, p)) => if present {
                    match spec_attributes_set(data, p, masks) {
                        Err(e) => Err(e),
                        Ok((attributes, q)) => Ok(
                            (ElementHeader { offset_x_use, offset_y_use, attributes }, q),
                        ),
                    }
                } else {
                    Ok(
                        (
                            ElementHeader {
                                offset_x_use,
                                offset_y_use,
                                attributes: ElementAttributes::empty(),
                            },
                            p,
                        ),
                    )
                },
            }
        } else {
            Ok(
                (
                    ElementHeader {
                        offset_x_use,
                        offset_y_use,
                        attributes: ElementAttributes::empty(),
                    },
                    pos + 2,
                ),
            )
        }
    } else {
        Err(WvgError::EndOfStream)
    }
}

/// One absolute coordinate of `bits` bits, unsigned when all coordinates
/// are positive and two's complement otherwise.
#[verifier::opaque]
pub open spec fn spec_coordinate(data: Seq<u8>, pos: nat, bits: nat, all_positive: bool) -> Parsed<
    i32,
> {
    if all_positive {
        match spec_read_bits(data, pos, bits) {
            Err(e) => Err(e),
            Ok((v, p)) => Ok((v as i32, p)),
        }
    } else {
        spec_read_signed_bits(data, pos, bits)
    }
}

/// An absolute X value.
pub open spec fn spec_x_value(data: Seq<u8>, pos: nat, flat: FlatCoordinateParams) -> Parsed<i32> {
    spec_coordinate(data, pos, flat.max_x_in_bits as nat, flat.xy_all_positive)
}

/// An absolute Y value.
pub open spec fn spec_y_value(data: Seq<u8>, pos: nat, flat: FlatCoordinateParams) -> Parsed<i32> {
    spec_coordinate(data, pos, flat.max_y_in_bits as nat, flat.xy_all_positive)
}

/// An absolute point: X, then Y.
#[verifier::opaque]
pub open spec fn spec_point(data: Seq<u8>, pos: nat, flat: FlatCoordinateParams) -> Parsed<Point> {
    match spec_x_value(data, pos, flat) {
        Err(e) => Err(e),
        Ok((x, p)) => match spec_y_value(data, p, flat) {
            Err(e) => Err(e),
            Ok((y, q)) => Ok((Point { x, y }, q)),
        },
    }
}

/// Bits of an X offset: the coarse width when `coarse`, else the fine one.
pub open spec fn offset_x_bits(flat: FlatCoordinateParams, coarse: bool) -> nat {
    if coarse {
        flat.offset_x_in_bits_level2 as nat
    } else {
        flat.offset_x_in_bits_level1 as nat
    }
}

/// Bits of a Y offset: the coarse width when `coarse`, else the fine one.
pub open spec fn offset_y_bits(flat: FlatCoordinateParams, coarse: bool) -> nat {
    if coarse {
        flat.offset_y_in_bits_level2 as nat
    } else {
        flat.offset_y_in_bits_level1 as nat
    }
}

/// A relative movement: signed X offset, then signed Y offset.
#[verifier::opaque]
pub open spec fn spec_offset(
    data: Seq<u8>,
    pos: nat,
    flat: FlatCoordinateParams,
    x_coarse: bool,
    y_coarse: bool,
) -> Parsed<(i32, i32)> {
    match spec_read_signed_bits(data, pos, offset_x_bits(flat, x_coarse)) {
        Err(e) => Err(e),
        Ok((dx, p)) => match spec_read_signed_bits(data, p, offset_y_bits(flat, y_coarse)) {
            Err(e) => Err(e),
            Ok((dy, q)) => Ok(((dx, dy), q)),
        },
    }
}

/// The points of a polyline after those in `points`: `remaining` more,
/// each the previous point moved by the offset read.
pub open spec fn spec_polyline_points(
    data: Seq<u8>,
    pos: nat,
    flat: FlatCoordinateParams,
    x_coarse: bool,
    y_coarse: bool,
    points: Seq<Point>,
    remaining: nat,
) -> Parsed<Seq<Point>>
    decreases remaining,
{
    if remaining == 0 {
        Ok((points, pos))
    } else {
        match spec_offset(data, pos, flat, x_coarse, y_coarse) {
            Err(e) => Err(e),
            Ok((d, p)) => spec_polyline_points(
                data,
                p,
                flat,
                x_coarse,
                y_coarse,
                points.push(
                    Point { x: (points.last().x + d.0) as i32, y: (points.last().y + d.1) as i32 },
                ),
                (remaining - 1) as nat,
            ),
        }
    }
}

/// A polyline: header, count of points after the first, first point, then
/// that many offsets.
#[verifier::opaque]
pub open spec fn spec_polyline_element(data: Seq<u8>, pos: nat, ctx: DecodeContext) -> Parsed<
    ElementDataView,
> {
    match spec_basic_element_header(data, pos, ctx.attributes) {
        Err(e) => Err(e),
        Ok((header, p1)) => match spec_read_bits(data, p1, ctx.flat.num_points_in_bits as nat) {
            Err(e) => Err(e),
            Ok((count, p2)) => match spec_point(data, p2, ctx.flat) {
                Err(e) => Err(e),
                Ok((first, p3)) => match spec_polyline_points(
                    data,
                    p3,
                    ctx.flat,
                    header.offset_x_use,
                    header.offset_y_use,
                    seq![first],
                    count as nat,
                ) {
                    Err(e) => Err(e),
                    Ok((points, p4)) => Ok(
                        (
                            ElementDataView::Polyline(
                                PolylineView { attributes: header.attributes, points },
                            ),
                            p4,
                        ),
                    ),
                },
            },
        },
    }
}

/// Bits of a curve offset: five when the selector is 1, else four.
pub open spec fn curve_offset_bits(generic: GenericParams) -> nat {
    if generic.curve_offset_in_bits == Some(1u8) {
        5
    } else {
        4
    }
}

/// A curve offset. With the curve hint set, a presence bit comes first and
/// an absent offset is zero.
#[verifier::opaque]
pub open spec fn spec_curve_offset(data: Seq<u8>, pos: nat, generic: GenericParams, hint: bool)
    -> Parsed<i32> {
    if hint {
        match spec_read_flag(data, pos) {
            Err(e) => Err(e),
            Ok((present, p)) => if present {
                spec_read_signed_bits(data, p, curve_offset_bits(generic))
            } else {
                Ok((0i32, p))
            },
        }
    } else {
        spec_read_signed_bits(data, pos, curve_offset_bits(generic))
    }
}

/// The points of a circular polyline after those in `points`: `remaining`
/// more, each a curve offset and a relative movement.
pub open spec fn spec_circular_points(
    data: Seq<u8>,
    pos: nat,
    ctx: DecodeContext,
    x_coarse: bool,
    y_coarse: bool,
    hint: bool,
    points: Seq<CircularPoint>,
    remaining: nat,
) -> Parsed<Seq<CircularPoint>>
    decreases remaining,
{
    if remaining == 0 {
        Ok((points, pos))
    } else {
        match spec_curve_offset(data, pos, ctx.generic, hint) {
            Err(e) => Err(e),
            Ok((curve_offset, p)) => match spec_offset(data, p, ctx.flat, x_coarse, y_coarse) {
                Err(e) => Err(e),
                Ok((d, q)) => spec_circular_points(
                    data,
                    q,
                    ctx,
                    x_coarse,
                    y_coarse,
                    hint,
                    points.push(
                        CircularPoint {
                            curve_offset: curve_offset as i8,
                            point: Point { x: d.0, y: d.1 },
                            is_absolute: false,
                        },
                    ),
                    (remaining - 1) as nat,
                ),
            },
        }
    }
}

/// The two absolute points that open a circular polyline: the first with
/// no curvature, the second behind its curve offset.
#[verifier::opaque]
pub open spec fn spec_circular_start(data: Seq<u8>, pos: nat, ctx: DecodeContext, hint: bool)
    -> Parsed<Seq<CircularPoint>> {
    match spec_point(data, pos, ctx.flat) {
        Err(e) => Err(e),
        Ok((first, p1)) => match spec_curve_offset(data, p1, ctx.generic, hint) {
            Err(e) => Err(e),
            Ok((curve_offset, p2)) => match spec_point(data, p2, ctx.flat) {
                Err(e) => Err(e),
                Ok((second, p3)) => Ok(
                    (
                        seq![
                            CircularPoint { curve_offset: 0, point: first, is_absolute: true },
                            CircularPoint {
                                curve_offset: curve_offset as i8,
                                point: second,
                                is_absolute: true,
                            },
                        ],
                        p3,
                    ),
                ),
            },
        },
    }
}

/// A circular polyline: header, curve hint, count of points after the
/// second, two absolute points, then that many relative ones.
#[verifier::opaque]
pub open spec fn spec_circular_polyline_element(data: Seq<u8>, pos: nat, ctx: DecodeContext)
    -> Parsed<ElementDataView> {
    match spec_basic_element_header(data, pos, ctx.attributes) {
        Err(e) => Err(e),
        Ok((header, p1)) => match spec_read_flag(data, p1) {
            Err(e) => Err(e),
            Ok((hint, p2)) => match spec_read_bits(data, p2, ctx.flat.num_points_in_bits as nat) {
                Err(e) => Err(e),
                Ok((count, p3)) => match spec_circular_start(data, p3, ctx, hint) {
                    Err(e) => Err(e),
                    Ok((start, p4)) => match spec_circular_points(
                        data,
                        p4,
                        ctx,
                        header.offset_x_use,
                        header.offset_y_use,
                        hint,
                        start,
                        count as nat,
                    ) {
                        Err(e) => Err(e),
                        Ok((points, p5)) => Ok(
                            (
                                ElementDataView::CircularPolyline(
                                    CircularPolylineView { attributes: header.attributes, points },
                                ),
                                p5,
                            ),
                        ),
                    },
                },
            },
        },
    }
}

/// A simple shape: header, then one bit that tells rectangle from ellipse.
/// Nothing of the geometry is read.
#[verifier::opaque]
pub open spec fn spec_simple_shape_element(data: Seq<u8>, pos: nat, ctx: DecodeContext) -> Parsed<
    ElementDataView,
> {
    match spec_basic_element_header(data, pos, ctx.attributes) {
        Err(e) => Err(e),
        Ok((header, p1)) => match spec_read_flag(data, p1) {
            Err(e) => Err(e),
            Ok((ellipse, p2)) => Ok(
                (
                    ElementDataView::SimpleShape(
                        SimpleShapeElement {
                            shape_type: if ellipse {
                                SimpleShapeType::Ellipse
                            } else {
                                SimpleShapeType::Rectangle
                            },
                            attributes: header.attributes,
                        },
                    ),
                    p2,
                ),
            ),
        },
    }
}

/// A signed value of `bits` bits behind a presence bit.
#[verifier::opaque]
pub open spec fn spec_optional_signed(data: Seq<u8>, pos: nat, bits: nat) -> Parsed<Option<i32>> {
    match spec_read_flag(data, pos) {
        Err(e) => Err(e),
        Ok((present, p)) => if present {
            match spec_read_signed_bits(data, p, bits) {
                Err(e) => Err(e),
                Ok((v, q)) => Ok((Some(v), q)),
            }
        } else {
            Ok((None, p))
        },
    }
}

/// Bits of a translation or center value.
pub open spec fn translate_bits(ctx: DecodeContext) -> nat {
    ctx.flat.trans_xy_in_bits as nat
}

/// Bits of an angle value.
pub open spec fn angle_bits(ctx: DecodeContext) -> nat {
    (ctx.generic.angle_in_bits + 1) as nat
}

/// Bits of a scale value.
pub open spec fn scale_bits(ctx: DecodeContext) -> nat {
    (ctx.generic.scale_in_bits + 1) as nat
}

/// The second half of a transform: angle, scale X, scale Y, center X and
/// center Y, each behind its presence bit, added to `base`.
#[verifier::opaque]
pub open spec fn spec_transform_extension(
    data: Seq<u8>,
    pos: nat,
    ctx: DecodeContext,
    base: Transform,
) -> Parsed<Transform> {
    match spec_optional_signed(data, pos, angle_bits(ctx)) {
        Err(e) => Err(e),
        Ok((angle, p1)) => match spec_optional_signed(data, p1, scale_bits(ctx)) {
            Err(e) => Err(e),
            Ok((scale_x, p2)) => match spec_optional_signed(data, p2, scale_bits(ctx)) {
                Err(e) => Err(e),
                Ok((scale_y, p3)) => match spec_optional_signed(data, p3, translate_bits(ctx)) {
                    Err(e) => Err(e),
                    Ok((cx, p4)) => match spec_optional_signed(data, p4, translate_bits(ctx)) {
                        Err(e) => Err(e),
                        Ok((cy, p5)) => Ok(
                            (
                                Transform {
                                    translate_x: base.translate_x,
                                    translate_y: base.translate_y,
                                    angle,
                                    scale_x,
                                    scale_y,
                                    cx,
                                    cy,
                                },
                                p5,
                            ),
                        ),
                    },
                },
            },
        },
    }
}

/// A transform: translation X and Y, each behind its presence bit, then a
/// bit that announces the second half.
#[verifier::opaque]
pub open spec fn spec_transform(data: Seq<u8>, pos: nat, ctx: DecodeContext) -> Parsed<Transform> {
    match spec_optional_signed(data, pos, translate_bits(ctx)) {
        Err(e) => Err(e),
        Ok((translate_x, p1)) => match spec_optional_signed(data, p1, translate_bits(ctx)) {
            Err(e) => Err(e),
            Ok((translate_y, p2)) => match spec_read_flag(data, p2) {
                Err(e) => Err(e),
                Ok((extended, p3)) => {
                    let base = Transform {
                        translate_x,
                        translate_y,
                        angle: None,
                        scale_x: None,
                        scale_y: None,
                        cx: None,
                        cy: None,
                    };
                    if extended {
                        spec_transform_extension(data, p3, ctx, base)
                    } else {
                        Ok((base, p3))
                    }
                },
            },
        },
    }
}

/// The column half of the array parameters: four bits of columns less one
/// and, for more than one column, the distance between columns.
#[verifier::opaque]
pub open spec fn spec_array_columns(data: Seq<u8>, pos: nat, flat: FlatCoordinateParams) -> Parsed<
    (u8, Option<i32>),
> {
    match spec_read_bits(data, pos, 4) {
        Err(e) => Err(e),
        Ok((v, p)) => if v >= 1 {
            match spec_x_value(data, p, flat) {
                Err(e) => Err(e),
                Ok((w, q)) => Ok((((v + 1) as u8, Some(w)), q)),
            }
        } else {
            Ok((((v + 1) as u8, None), p))
        },
    }
}

/// The row half of the array parameters: four bits of rows less one and,
/// for more than one row, the distance between rows behind a presence
/// bit; absent, it is the distance between columns.
#[verifier::opaque]
pub open spec fn spec_array_rows(
    data: Seq<u8>,
    pos: nat,
    flat: FlatCoordinateParams,
    width: Option<i32>,
) -> Parsed<(u8, Option<i32>)> {
    match spec_read_bits(data, pos, 4) {
        Err(e) => Err(e),
        Ok((v, p)) => if v >= 1 {
            match spec_read_flag(data, p) {
                Err(e) => Err(e),
                Ok((present, q)) => if present {
                    match spec_y_value(data, q, flat) {
                        Err(e) => Err(e),
                        Ok((h, r)) => Ok((((v + 1) as u8, Some(h)), r)),
                    }
                } else {
                    Ok((((v + 1) as u8, width), q))
                },
            }
        } else {
            Ok((((v + 1) as u8, None), p))
        },
    }
}

/// The array parameters of a reuse element.
#[verifier::opaque]
pub open spec fn spec_array_parameter(data: Seq<u8>, pos: nat, flat: FlatCoordinateParams)
    -> Parsed<ArrayParams> {
    match spec_array_columns(data, pos, flat) {
        Err(e) => Err(e),
        Ok((columns, p)) => match spec_array_rows(data, p, flat, columns.1) {
            Err(e) => Err(e),
            Ok((rows, q)) => Ok(
                (
                    ArrayParams {
                        columns: columns.0,
                        rows: rows.0,
                        width: columns.1,
                        height: rows.1,
                    },
                    q,
                ),
            ),
        },
    }
}

/// A two-bit code behind a presence bit.
#[verifier::opaque]
pub open spec fn spec_optional_code(data: Seq<u8>, pos: nat) -> Parsed<Option<u32>> {
    match spec_read_flag(data, pos) {
        Err(e) => Err(e),
        Ok((present, p)) => spec_masked_code(data, p, present),
    }
}

/// A flag behind a presence bit.
#[verifier::opaque]
pub open spec fn spec_optional_flag(data: Seq<u8>, pos: nat) -> Parsed<Option<bool>> {
    match spec_read_flag(data, pos) {
        Err(e) => Err(e),
        Ok((present, p)) => if present {
            match spec_read_flag(data, p) {
                Err(e) => Err(e),
                Ok((v, q)) => Ok((Some(v), q)),
            }
        } else {
            Ok((None, p))
        },
    }
}

/// A color of an override set: a presence bit alone; a color that is
/// present reads as black.
#[verifier::opaque]
pub open spec fn spec_override_color(data: Seq<u8>, pos: nat) -> Parsed<Option<Color>> {
    match spec_read_flag(data, pos) {
        Err(e) => Err(e),
        Ok((present, p)) => Ok((if present { Some(Color::spec_black()) } else { None }, p)),
    }
}

/// The attribute overrides of a reuse element: line type, line width, line
/// color, fill and fill color, each behind its own presence bit whatever
/// the attribute mask says.
#[verifier::opaque]
pub open spec fn spec_override_attribute_set(data: Seq<u8>, pos: nat) -> Parsed<
    ElementAttributes,
> {
    match spec_optional_code(data, pos) {
        Err(e) => Err(e),
        Ok((line_type, p1)) => match spec_optional_code(data, p1) {
            Err(e) => Err(e),
            Ok((line_width, p2)) => match spec_override_color(data, p2) {
                Err(e) => Err(e),
                Ok((line_color, p3)) => match spec_optional_flag(data, p3) {
                    Err(e) => Err(e),
                    Ok((fill, p4)) => match spec_override_color(data, p4) {
                        Err(e) => Err(e),
                        Ok((fill_color, p5)) => Ok(
                            (
                                ElementAttributes {
                                    line_type: line_type_of(line_type),
                                    line_width: line_width_of(line_width),
                                    line_color,
                                    fill,
                                    fill_color,
                                },
                                p5,
                            ),
                        ),
                    },
                },
            },
        },
    }
}

/// The largest index that can be referred to while `count` elements exist.
pub open spec fn max_element_index(count: nat) -> nat {
    if count == 0 {
        0
    } else {
        (count - 1) as nat
    }
}

/// The element that a reuse index refers to while `count` elements exist.
///
/// An index below `count` stands for itself. Otherwise its top bit is
/// dropped, which leaves the low `index_in_bits` bits, and the result
/// stands if it is below `count`. Otherwise the reference fails, naming the
/// index as read and the largest index that would have been valid.
pub open spec fn resolved_reuse_index(raw: u32, index_in_bits: nat, count: nat) -> Result<
    u32,
    WvgError,
> {
    if raw < count {
        Ok(raw)
    } else if (raw as nat) % pow2(index_in_bits) < count {
        Ok(((raw as nat) % pow2(index_in_bits)) as u32)
    } else {
        Err(
            WvgError::ElementIndexOutOfBounds {
                index: raw,
                max: max_element_index(count) as usize,
            },
        )
    }
}

/// An optional part behind a presence bit: array parameters.
#[verifier::opaque]
pub open spec fn spec_optional_array(data: Seq<u8>, pos: nat, flat: FlatCoordinateParams)
    -> Parsed<Option<ArrayParams>> {
    match spec_read_flag(data, pos) {
        Err(e) => Err(e),
        Ok((present, p)) => if present {
            match spec_array_parameter(data, p, flat) {
                Err(e) => Err(e),
                Ok((a, q)) => Ok((Some(a), q)),
            }
        } else {
            Ok((None, p))
        },
    }
}

/// An optional part behind a presence bit: attribute overrides.
#[verifier::opaque]
pub open spec fn spec_optional_overrides(data: Seq<u8>, pos: nat) -> Parsed<
    Option<ElementAttributes>,
> {
    match spec_read_flag(data, pos) {
        Err(e) => Err(e),
        Ok((present, p)) => if present {
            match spec_override_attribute_set(data, p) {
                Err(e) => Err(e),
                Ok((a, q)) => Ok((Some(a), q)),
            }
        } else {
            Ok((None, p))
        },
    }
}

/// A reuse element while `count` elements exist: the index of the element
/// referred to, a transform, optional array parameters, optional attribute
/// overrides.
#[verifier::opaque]
pub open spec fn spec_reuse_element(data: Seq<u8>, pos: nat, ctx: DecodeContext, count: nat)
    -> Parsed<ElementDataView> {
    match spec_read_bits(data, pos, (ctx.generic.index_in_bits + 1) as nat) {
        Err(e) => Err(e),
        Ok((raw, p1)) => match resolved_reuse_index(raw, ctx.generic.index_in_bits as nat, count) {
            Err(e) => Err(e),
            Ok(element_index) => match spec_transform(data, p1, ctx) {
                Err(e) => Err(e),
                Ok((transform, p2)) => match spec_optional_array(data, p2, ctx.flat) {
                    Err(e) => Err(e),
                    Ok((array_params, p3)) => match spec_optional_overrides(data, p3) {
                        Err(e) => Err(e),
                        Ok((override_attributes, p4)) => Ok(
                            (
                                ElementDataView::Reuse(
                                    ReuseElement {
                                        element_index,
                                        transform,
                                        array_params,
                                        override_attributes,
                                    },
                                ),
                                p4,
                            ),
                        ),
                    },
                },
            },
        },
    }
}

/// A group marker: one bit tells end from start; a start carries an
/// optional transform behind a presence bit and a visibility bit.
#[verifier::opaque]
pub open spec fn spec_group_element(data: Seq<u8>, pos: nat, ctx: DecodeContext) -> Parsed<
    ElementDataView,
> {
    match spec_read_flag(data, pos) {
        Err(e) => Err(e),
        Ok((end, p1)) => if end {
            Ok((ElementDataView::GroupEnd, p1))
        } else {
            match spec_read_flag(data, p1) {
                Err(e) => Err(e),
                Ok((transformed, p2)) => if transformed {
                    match spec_transform(data, p2, ctx) {
                        Err(e) => Err(e),
                        Ok((t, p3)) => match spec_read_flag(data, p3) {
                            Err(e) => Err(e),
                            Ok((display, p4)) => Ok(
                                (
                                    ElementDataView::GroupStart(
                                        GroupStartElement { transform: Some(t), display },
                                    ),
                                    p4,
                                ),
                            ),
                        },
                    }
                } else {
                    match spec_read_flag(data, p2) {
                        Err(e) => Err(e),
                        Ok((display, p3)) => Ok(
                            (
                                ElementDataView::GroupStart(
                                    GroupStartElement { transform: None, display },
                                ),
                                p3,
                            ),
                        ),
                    }
                },
            }
        },
    }
}

/// The body of an element of the given kind. Kinds are numbered by their
/// place in the element mask; those that are not decoded fail, each with
/// its own feature.
#[verifier::opaque]
pub open spec fn spec_element_body(
    data: Seq<u8>,
    pos: nat,
    ctx: DecodeContext,
    kind: nat,
    count: nat,
) -> Parsed<ElementDataView> {
    if kind == 0 {
        Err(WvgError::UnsupportedFeature(UnsupportedFeature::LocalEnvelope))
    } else if kind == 1 {
        spec_polyline_element(data, pos, ctx)
    } else if kind == 2 {
        spec_circular_polyline_element(data, pos, ctx)
    } else if kind == 3 {
        Err(WvgError::UnsupportedFeature(UnsupportedFeature::BezierPolyline))
    } else if kind == 4 {
        spec_simple_shape_element(data, pos, ctx)
    } else if kind == 5 {
        spec_reuse_element(data, pos, ctx, count)
    } else if kind == 6 {
        spec_group_element(data, pos, ctx)
    } else if kind == 7 {
        Err(WvgError::UnsupportedFeature(UnsupportedFeature::SimpleAnimation))
    } else if kind == 8 {
        Err(WvgError::UnsupportedFeature(UnsupportedFeature::Polygon))
    } else if kind == 9 {
        Err(WvgError::UnsupportedFeature(UnsupportedFeature::SpecialShape))
    } else if kind == 10 {
        Err(WvgError::UnsupportedFeature(UnsupportedFeature::FrameElement))
    } else if kind == 11 {
        Err(WvgError::UnsupportedFeature(UnsupportedFeature::TextElement))
    } else if kind == 12 {
        Err(WvgError::UnsupportedFeature(UnsupportedFeature::ExtendedElement))
    } else {
        Err(WvgError::InvalidElementType(kind as u32))
    }
}

/// The kinds of element that are decoded: polylines, circular polylines,
/// simple shapes, reuse elements and group markers.
pub open spec fn kind_decoded(kind: nat) -> bool {
    kind == 1 || kind == 2 || kind == 4 || kind == 5 || kind == 6
}

/// The element at `pos` fails right behind its type index: the index
/// names no enabled kind, or it names a kind that is not decoded.
pub open spec fn stops_at_type_index(data: Seq<u8>, pos: nat, masks: Seq<bool>) -> bool {
    match spec_read_bits(data, pos, type_index_bits(count_active(masks))) {
        Ok((index, _)) => match nth_active(masks, index as nat) {
            Some(kind) => !kind_decoded(kind),
            None => true,
        },
        Err(_) => false,
    }
}

/// One element while `count` elements exist: a type index as wide as the
/// number of enabled kinds asks for, mapped to the kind it stands for, then
/// the body of that kind. The element is named after its position.
#[verifier::opaque]
pub open spec fn spec_element(data: Seq<u8>, pos: nat, ctx: DecodeContext, count: nat) -> Parsed<
    WvgElementView,
> {
    match spec_read_bits(data, pos, type_index_bits(count_active(ctx.masks))) {
        Err(e) => Err(e),
        Ok((index, p1)) => match nth_active(ctx.masks, index as nat) {
            None => Err(WvgError::InvalidElementType(index)),
            Some(kind) => match spec_element_body(data, p1, ctx, kind, count) {
                Err(e) => Err(e),
                Ok((body, p2)) => Ok(
                    (WvgElementView { id: element_id_text(count), data: body }, p2),
                ),
            },
        },
    }
}

/// The elements after those in `elements`: `remaining` more.
pub open spec fn spec_elements_from(
    data: Seq<u8>,
    pos: nat,
    ctx: DecodeContext,
    elements: Seq<WvgElementView>,
    remaining: nat,
) -> Parsed<Seq<WvgElementView>>
    decreases remaining,
{
    if remaining == 0 {
        Ok((elements, pos))
    } else {
        match spec_element(data, pos, ctx, elements.len()) {
            Err(e) => Err(e),
            Ok((element, p)) => spec_elements_from(
                data,
                p,
                ctx,
                elements.push(element),
                (remaining - 1) as nat,
            ),
        }
    }
}

/// The element list: one bit that selects a 7-bit or a 15-bit count, the
/// count, and that many elements.
#[verifier::opaque]
pub open spec fn spec_elements(data: Seq<u8>, pos: nat, ctx: DecodeContext) -> Parsed<
    Seq<WvgElementView>,
> {
    match spec_read_flag(data, pos) {
        Err(e) => Err(e),
        Ok((long, p1)) => match spec_read_bits(data, p1, if long { 15nat } else { 7nat }) {
            Err(e) => Err(e),
            Ok((count, p2)) => spec_elements_from(data, p2, ctx, Seq::empty(), count as nat),
        },
    }
}

/// A whole document: the profile bit, which must select the standard
/// profile, the header, and the elements.
#[verifier::opaque]
pub open spec fn spec_document(data: Seq<u8>, pos: nat) -> Result<WvgDocumentView, WvgError> {
    match spec_read_flag(data, pos) {
        Err(e) => Err(e),
        Ok((standard, p0)) => if !standard {
            Err(WvgError::UnsupportedFeature(UnsupportedFeature::CharacterSizeWvg))
        } else {
            match spec_standard_wvg_header(data, p0) {
                Err(e) => Err(e),
                Ok((header, p1)) => match spec_elements(data, p1, context_of(header.codec_params)) {
                    Err(e) => Err(e),
                    Ok((elements, _)) => Ok(WvgDocumentView { header, elements }),
                },
            }
        },
    }
}

} // verus!
