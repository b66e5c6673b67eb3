//! Decoding of hand-made streams, one grammar rule at a time.

use wvg::parser::{count_enabled, element_type_bits, kind_of_index, resolve_reuse_index, websafe_color};
use wvg::{
    AnimationMode, BitStream, Color, ColorScheme, Converter, CoordinateParams, ElementData,
    LineType, LineWidth, Resolution, SimpleShapeType, SvgConverter, TextCodeMode, UnsupportedFeature,
    WvgDocument, WvgError, WvgParser,
};

/// Writes bits most significant first, as the format packs them.
struct Bits {
    bytes: Vec<u8>,
    used: usize,
}

impl Bits {
    fn new() -> Bits {
        Bits { bytes: Vec::new(), used: 0 }
    }

    fn flag(&mut self, on: bool) {
        if self.used % 8 == 0 {
            self.bytes.push(0);
        }
        if on {
            let last = self.bytes.len() - 1;
            self.bytes[last] |= 0x80 >> (self.used % 8);
        }
        self.used += 1;
    }

    fn put(&mut self, value: u32, width: u32) {
        for i in (0..width).rev() {
            self.flag((value >> i) & 1 == 1);
        }
    }

    fn signed(&mut self, value: i32, width: u32) {
        self.put((value as u32) & ((1u32 << width) - 1), width);
    }
}

fn decode(data: &[u8]) -> Result<WvgDocument, WvgError> {
    let mut bs = BitStream::new(data);
    let parser = WvgParser::new(&mut bs);
    parser.parse()
}

/// Profile bit, version 3, no extended info.
fn put_start(b: &mut Bits) {
    b.flag(true);
    b.put(3, 4);
    b.flag(false);
}

/// Black and white, no default colors.
fn put_plain_colors(b: &mut Bits) {
    b.flag(false);
    b.flag(false);
    b.flag(false);
    b.flag(false);
    b.flag(false);
}

/// Masks, default generic parameters, five-bit curve offsets where they
/// are asked for, and a flat 100 by 50 canvas with 7-bit X, 6-bit Y,
/// 5-bit translations, 3-bit point counts, 3-bit fine and 5-bit coarse
/// offsets.
fn put_codec(b: &mut Bits, masks: &[bool], attrs: [bool; 4], all_positive: bool) {
    for i in 0..8 {
        b.flag(masks[i]);
    }
    if masks.len() > 8 {
        b.flag(true);
        for i in 8..13 {
            b.flag(masks[i]);
        }
    } else {
        b.flag(false);
    }
    for a in attrs.iter() {
        b.flag(*a);
    }
    b.flag(false);
    b.flag(false);
    b.flag(false);
    if masks[2] || (masks.len() > 8 && masks[8]) {
        b.flag(true);
    }
    b.flag(false);
    b.put(100, 16);
    b.flag(true);
    b.put(50, 16);
    b.put(7, 4);
    b.put(6, 4);
    b.flag(all_positive);
    b.put(5, 4);
    b.put(3, 4);
    b.put(3, 4);
    b.put(3, 4);
    b.put(5, 4);
    b.put(5, 4);
    if masks[7] {
        b.flag(false);
    }
}

fn put_header(b: &mut Bits, masks: &[bool], attrs: [bool; 4], all_positive: bool) {
    put_start(b);
    put_plain_colors(b);
    put_codec(b, masks, attrs, all_positive);
}

fn put_count(b: &mut Bits, n: u32) {
    b.flag(false);
    b.put(n, 7);
}

fn masks_with(kinds: &[usize], len: usize) -> Vec<bool> {
    let mut m = vec![false; len];
    for k in kinds {
        m[*k] = true;
    }
    m
}

const NO_ATTRS: [bool; 4] = [false, false, false, false];

const HEAD: &str = "<?xml version=\"1.0\" encoding=\"UTF-8\"?><svg xmlns=\"http://www.w3.org/2000/svg\" viewBox=\"0 0 100 50\"><defs><style>path, polyline, line, circle, ellipse, rect { stroke: #000000; fill: none; stroke-width: 1; }</style></defs>";

fn put_polyline_and_reuse(b: &mut Bits, raw_index: u32) {
    put_header(b, &masks_with(&[1, 5], 8), NO_ATTRS, true);
    put_count(b, 2);
    // a polyline from (10, 20) by (-2, 1)
    b.put(0, 1);
    b.flag(false);
    b.flag(false);
    b.put(1, 3);
    b.put(10, 7);
    b.put(20, 6);
    b.signed(-2, 3);
    b.signed(1, 3);
    // a reuse element, moved right by 7
    b.put(1, 1);
    b.put(raw_index, 3);
    b.flag(true);
    b.signed(7, 5);
    b.flag(false);
    b.flag(false);
    b.flag(false);
    b.flag(false);
}

#[test]
fn test_reuse_index_in_range_is_kept() {
    let mut b = Bits::new();
    put_polyline_and_reuse(&mut b, 0);
    let doc = decode(&b.bytes).expect("decodes");
    match &doc.elements[1].data {
        ElementData::Reuse(r) => assert_eq!(r.element_index, 0),
        _ => panic!("expected a reuse element"),
    }
}

#[test]
fn test_reuse_index_recovered_by_dropping_top_bit() {
    let mut b = Bits::new();
    put_polyline_and_reuse(&mut b, 4);
    let doc = decode(&b.bytes).expect("decodes");
    assert_eq!(doc.header.general_info.version, 3);
    assert_eq!(doc.elements.len(), 2);
    match &doc.elements[0].data {
        ElementData::Polyline(pl) => {
            assert_eq!(pl.points.len(), 2);
            assert_eq!((pl.points[0].x, pl.points[0].y), (10, 20));
            assert_eq!((pl.points[1].x, pl.points[1].y), (8, 21));
        }
        _ => panic!("expected a polyline"),
    }
    match &doc.elements[1].data {
        ElementData::Reuse(r) => {
            assert_eq!(r.element_index, 0);
            assert_eq!(r.transform.translate_x, Some(7));
            assert_eq!(r.transform.translate_y, None);
            assert_eq!(r.transform.angle, None);
            assert!(r.array_params.is_none());
            assert!(r.override_attributes.is_none());
        }
        _ => panic!("expected a reuse element"),
    }
    let svg = SvgConverter::new().convert(&doc).expect("renders");
    let expected = [
        HEAD,
        "<path id=\"el_0\" d=\"M 10 20 l -2 1\" />",
        "<use id=\"el_1\" href=\"#el_0\" transform=\"translate(7, 0)\" />",
        "</svg>",
    ]
    .concat();
    assert_eq!(svg, expected);
}

#[test]
fn test_reuse_index_out_of_bounds_after_recovery() {
    let mut b = Bits::new();
    put_polyline_and_reuse(&mut b, 5);
    match decode(&b.bytes) {
        Err(WvgError::ElementIndexOutOfBounds { index, max }) => {
            assert_eq!(index, 5);
            assert_eq!(max, 0);
        }
        other => panic!("expected an out-of-bounds failure, got {:?}", other.map(|_| ())),
    }
}

#[test]
fn test_resolve_reuse_index() {
    assert!(matches!(resolve_reuse_index(2, 2, 3), Ok(2)));
    assert!(matches!(resolve_reuse_index(5, 2, 3), Ok(1)));
    assert!(matches!(resolve_reuse_index(6, 2, 3), Ok(2)));
    assert!(matches!(
        resolve_reuse_index(7, 2, 3),
        Err(WvgError::ElementIndexOutOfBounds { index: 7, max: 2 })
    ));
    assert!(matches!(
        resolve_reuse_index(0, 2, 0),
        Err(WvgError::ElementIndexOutOfBounds { index: 0, max: 0 })
    ));
    assert!(matches!(resolve_reuse_index(0x8005, 15, 6), Ok(5)));
    assert!(matches!(
        resolve_reuse_index(9, 40, 6),
        Err(WvgError::ElementIndexOutOfBounds { index: 9, max: 5 })
    ));
}

#[test]
fn test_type_index_width_steps() {
    let expected = [0u8, 0, 1, 2, 2, 3, 3, 3, 3, 4, 4, 4, 4, 4];
    for (active, bits) in expected.iter().enumerate() {
        assert_eq!(element_type_bits(active), *bits, "for {} enabled kinds", active);
    }
    assert_eq!(element_type_bits(100), 4);
}

#[test]
fn test_count_and_map_enabled_kinds() {
    let masks = vec![false, true, true, false, false, true, false, false];
    assert_eq!(count_enabled(&masks), 3);
    assert_eq!(kind_of_index(&masks, 0), Some(1));
    assert_eq!(kind_of_index(&masks, 1), Some(2));
    assert_eq!(kind_of_index(&masks, 2), Some(5));
    assert_eq!(kind_of_index(&masks, 3), None);
    assert_eq!(count_enabled(&Vec::new()), 0);
    assert_eq!(kind_of_index(&Vec::new(), 0), None);
}

#[test]
fn test_same_bits_mean_another_kind_under_another_mask() {
    // Type index 1 is the reuse kind here and the group kind there.
    let mut a = Bits::new();
    put_header(&mut a, &masks_with(&[1, 6], 8), NO_ATTRS, true);
    put_count(&mut a, 1);
    a.put(1, 1);
    a.flag(true);
    let doc = decode(&a.bytes).expect("decodes");
    assert!(matches!(doc.elements[0].data, ElementData::GroupEnd));

    let mut b = Bits::new();
    put_header(&mut b, &masks_with(&[1, 4], 8), NO_ATTRS, true);
    put_count(&mut b, 1);
    b.put(1, 1);
    b.flag(false);
    b.flag(false);
    b.flag(true);
    let doc = decode(&b.bytes).expect("decodes");
    match &doc.elements[0].data {
        ElementData::SimpleShape(s) => assert_eq!(s.shape_type, SimpleShapeType::Ellipse),
        _ => panic!("expected a simple shape"),
    }
    let svg = SvgConverter::new().convert(&doc).expect("renders");
    assert_eq!(
        svg,
        [HEAD, "<ellipse id=\"el_0\" cx=\"5\" cy=\"5\" rx=\"5\" ry=\"5\" /></svg>"].concat()
    );
}

#[test]
fn test_character_size_profile_is_rejected() {
    assert!(matches!(
        decode(&[0x00, 0x00]),
        Err(WvgError::UnsupportedFeature(UnsupportedFeature::CharacterSizeWvg))
    ));
}

#[test]
fn test_empty_input_is_end_of_stream() {
    assert!(matches!(decode(&[]), Err(WvgError::EndOfStream)));
}

#[test]
fn test_compact_coordinates_are_rejected() {
    let mut b = Bits::new();
    put_start(&mut b);
    put_plain_colors(&mut b);
    b.put(0, 8);
    b.flag(false);
    b.put(0, 4);
    b.flag(false);
    b.flag(false);
    b.flag(false);
    b.flag(true);
    b.put(0, 32);
    assert!(matches!(
        decode(&b.bytes),
        Err(WvgError::UnsupportedFeature(UnsupportedFeature::CompactCoordinateMode))
    ));
}

fn first_element_failure(kind: usize, len: usize) -> WvgError {
    let mut b = Bits::new();
    put_header(&mut b, &masks_with(&[kind], len), NO_ATTRS, true);
    put_count(&mut b, 1);
    b.put(0, 16);
    match decode(&b.bytes) {
        Err(e) => e,
        Ok(_) => panic!("kind {} should not decode", kind),
    }
}

#[test]
fn test_unsupported_element_kinds() {
    assert!(matches!(
        first_element_failure(0, 8),
        WvgError::UnsupportedFeature(UnsupportedFeature::LocalEnvelope)
    ));
    assert!(matches!(
        first_element_failure(3, 8),
        WvgError::UnsupportedFeature(UnsupportedFeature::BezierPolyline)
    ));
    assert!(matches!(
        first_element_failure(7, 8),
        WvgError::UnsupportedFeature(UnsupportedFeature::SimpleAnimation)
    ));
    assert!(matches!(
        first_element_failure(8, 13),
        WvgError::UnsupportedFeature(UnsupportedFeature::Polygon)
    ));
    assert!(matches!(
        first_element_failure(9, 13),
        WvgError::UnsupportedFeature(UnsupportedFeature::SpecialShape)
    ));
    assert!(matches!(
        first_element_failure(10, 13),
        WvgError::UnsupportedFeature(UnsupportedFeature::FrameElement)
    ));
    assert!(matches!(
        first_element_failure(11, 13),
        WvgError::UnsupportedFeature(UnsupportedFeature::TextElement)
    ));
    assert!(matches!(
        first_element_failure(12, 13),
        WvgError::UnsupportedFeature(UnsupportedFeature::ExtendedElement)
    ));
}

#[test]
fn test_no_enabled_kind_is_an_invalid_element_type() {
    let mut b = Bits::new();
    put_header(&mut b, &masks_with(&[], 8), NO_ATTRS, true);
    put_count(&mut b, 1);
    assert!(matches!(decode(&b.bytes), Err(WvgError::InvalidElementType(0))));
}

#[test]
fn test_type_index_beyond_enabled_kinds_is_invalid() {
    // Three kinds take a two-bit index; index 3 names none of them.
    let mut b = Bits::new();
    put_header(&mut b, &masks_with(&[1, 5, 6], 8), NO_ATTRS, true);
    put_count(&mut b, 1);
    b.put(3, 2);
    assert!(matches!(decode(&b.bytes), Err(WvgError::InvalidElementType(3))));
}

#[test]
fn test_animation_mode_and_long_count() {
    let mut b = Bits::new();
    put_start(&mut b);
    put_plain_colors(&mut b);
    let masks = masks_with(&[7], 8);
    for m in masks.iter() {
        b.flag(*m);
    }
    b.flag(false);
    b.put(0, 4);
    b.flag(false);
    b.flag(false);
    b.flag(false);
    b.flag(false);
    b.put(64, 16);
    b.flag(false);
    b.put(0, 33);
    b.flag(true);
    // fifteen-bit count of zero
    b.flag(true);
    b.put(0, 15);
    let doc = decode(&b.bytes).expect("decodes");
    assert_eq!(doc.header.animation_mode, Some(AnimationMode::Standard));
    assert_eq!(doc.elements.len(), 0);
    match doc.header.codec_params.coord_params {
        CoordinateParams::Flat(f) => {
            assert_eq!(f.drawing_width, 64);
            assert_eq!(f.drawing_height, 64);
        }
        _ => panic!("expected flat parameters"),
    }
    // One bit short of the count is not enough.
    let short = &b.bytes[..b.bytes.len() - 1];
    assert!(matches!(decode(short), Err(WvgError::EndOfStream)));
}

#[test]
fn test_extended_info_strings_and_timestamp() {
    let mut b = Bits::new();
    b.flag(true);
    b.put(9, 4);
    b.flag(true);
    b.flag(false); // seven-bit characters
    b.flag(true); // author, two characters
    b.put(2, 8);
    b.put(0x41, 7);
    b.put(0x42, 7);
    b.flag(false); // no title
    b.flag(true); // timestamp
    b.signed(2024, 13);
    b.put(2, 4);
    b.put(29, 5);
    b.put(23, 5);
    b.put(59, 6);
    b.put(58, 6);
    put_plain_colors(&mut b);
    put_codec(&mut b, &masks_with(&[], 8), NO_ATTRS, true);
    put_count(&mut b, 0);
    let doc = decode(&b.bytes).expect("decodes");
    let info = &doc.header.general_info;
    assert_eq!(info.version, 9);
    assert_eq!(info.text_code_mode, Some(TextCodeMode::Gsm7Bit));
    assert_eq!(info.author.as_deref(), Some(""));
    assert_eq!(info.title, None);
    let t = info.timestamp.as_ref().expect("timestamp");
    assert_eq!((t.year, t.month, t.day, t.hour, t.minute, t.second), (2024, 2, 29, 23, 59, 58));
}

#[test]
fn test_wide_characters_and_negative_year() {
    let mut b = Bits::new();
    b.flag(true);
    b.put(1, 4);
    b.flag(true);
    b.flag(true); // sixteen-bit characters
    b.flag(false);
    b.flag(true); // title, one character
    b.put(1, 8);
    b.put(0x263A, 16);
    b.flag(true);
    b.signed(-44, 13);
    b.put(3, 4);
    b.put(15, 5);
    b.put(0, 5);
    b.put(0, 6);
    b.put(0, 6);
    put_plain_colors(&mut b);
    put_codec(&mut b, &masks_with(&[], 8), NO_ATTRS, true);
    put_count(&mut b, 0);
    let doc = decode(&b.bytes).expect("decodes");
    let info = &doc.header.general_info;
    assert_eq!(info.text_code_mode, Some(TextCodeMode::Ucs2));
    assert_eq!(info.author, None);
    assert_eq!(info.title.as_deref(), Some(""));
    assert_eq!(info.timestamp.as_ref().map(|t| t.year), Some(-44));
}

/// Decodes a header with the given scheme code and one default line color.
fn line_color_under(scheme: &[bool], palette: &[(u32, u32)], color: &[(u32, u32)]) -> (ColorScheme, Option<Color>) {
    let mut b = Bits::new();
    put_start(&mut b);
    for s in scheme {
        b.flag(*s);
    }
    for (v, w) in palette {
        b.put(*v, *w);
    }
    b.flag(true);
    for (v, w) in color {
        b.put(*v, *w);
    }
    b.flag(false);
    b.flag(false);
    put_codec(&mut b, &masks_with(&[], 8), NO_ATTRS, true);
    put_count(&mut b, 0);
    let doc = decode(&b.bytes).expect("decodes");
    (doc.header.color_config.scheme, doc.header.color_config.default_line_color)
}

#[test]
fn test_color_schemes() {
    assert_eq!(
        line_color_under(&[false, false], &[], &[(1, 1)]),
        (ColorScheme::BlackAndWhite, Some(Color::new(0, 0, 0)))
    );
    assert_eq!(
        line_color_under(&[false, false], &[], &[(0, 1)]),
        (ColorScheme::BlackAndWhite, Some(Color::new(255, 255, 255)))
    );
    assert_eq!(
        line_color_under(&[false, true, false], &[], &[(2, 2)]),
        (ColorScheme::Grayscale2Bit, Some(Color::new(170, 170, 170)))
    );
    assert_eq!(
        line_color_under(&[false, true, true], &[], &[(0, 2)]),
        (ColorScheme::Predefined2Bit, Some(Color::new(255, 255, 255)))
    );
    assert_eq!(
        line_color_under(&[false, true, true], &[], &[(1, 2)]),
        (ColorScheme::Predefined2Bit, Some(Color::new(255, 0, 0)))
    );
    assert_eq!(
        line_color_under(&[false, true, true], &[], &[(2, 2)]),
        (ColorScheme::Predefined2Bit, Some(Color::new(0, 255, 0)))
    );
    assert_eq!(
        line_color_under(&[false, true, true], &[], &[(3, 2)]),
        (ColorScheme::Predefined2Bit, Some(Color::new(0, 0, 255)))
    );
    assert_eq!(
        line_color_under(&[true, false, false], &[], &[(0b110110, 6)]),
        (ColorScheme::Rgb6Bit, Some(Color::new(255, 85, 170)))
    );
    assert_eq!(
        line_color_under(&[true, false, true], &[], &[(215, 8)]),
        (ColorScheme::Websafe, Some(Color::new(17, 17, 17)))
    );
    assert_eq!(
        line_color_under(&[true, true, true, false], &[], &[(0xA5F, 12)]),
        (ColorScheme::Rgb12Bit, Some(Color::new(170, 85, 255)))
    );
    assert_eq!(
        line_color_under(&[true, true, true, true], &[], &[(0x12, 8), (0x34, 8), (0x56, 8)]),
        (ColorScheme::Rgb24Bit, Some(Color::new(0x12, 0x34, 0x56)))
    );
}

#[test]
fn test_palette_schemes_pass_over_the_palette_and_give_black() {
    assert_eq!(
        line_color_under(&[true, true, false, false], &[(1, 5), (0b111111, 6), (0b000001, 6)], &[]),
        (ColorScheme::Rgb6BitPalette, Some(Color::new(0, 0, 0)))
    );
    assert_eq!(
        line_color_under(&[true, true, false, true], &[(2, 7), (1, 8), (2, 8), (3, 8)], &[]),
        (ColorScheme::WebsafePalette, Some(Color::new(0, 0, 0)))
    );
}

#[test]
fn test_default_colors_reach_the_markup() {
    let mut b = Bits::new();
    put_start(&mut b);
    for s in [true, true, true, true] {
        b.flag(s);
    }
    b.flag(true);
    b.put(0x123456, 24);
    b.flag(true);
    b.put(0xABCDEF, 24);
    b.flag(true);
    b.put(0xFFFFFF, 24);
    put_codec(&mut b, &masks_with(&[], 8), NO_ATTRS, true);
    put_count(&mut b, 0);
    let doc = decode(&b.bytes).expect("decodes");
    let svg = SvgConverter::new().convert(&doc).expect("renders");
    assert_eq!(
        svg,
        "<?xml version=\"1.0\" encoding=\"UTF-8\"?><svg xmlns=\"http://www.w3.org/2000/svg\" viewBox=\"0 0 100 50\"><rect width=\"100\" height=\"50\" fill=\"#ffffff\"/><defs><style>path, polyline, line, circle, ellipse, rect { stroke: #123456; fill: #abcdef; stroke-width: 1; }</style></defs></svg>"
    );
}

#[test]
fn test_generic_parameters_and_extended_masks() {
    let mut b = Bits::new();
    put_start(&mut b);
    put_plain_colors(&mut b);
    let masks = masks_with(&[8], 13);
    for i in 0..8 {
        b.flag(masks[i]);
    }
    b.flag(true);
    for i in 8..13 {
        b.flag(masks[i]);
    }
    b.put(0b1010, 4);
    b.flag(true);
    b.put(1, 2);
    b.put(7, 3);
    b.flag(true);
    b.put(2, 2);
    b.put(15, 4);
    b.flag(true);
    b.put(9, 4);
    b.flag(false); // four-bit curve offsets
    b.flag(false);
    b.put(1, 16);
    b.flag(false);
    b.put(0, 33);
    put_count(&mut b, 0);
    let doc = decode(&b.bytes).expect("decodes");
    let codec = &doc.header.codec_params;
    assert_eq!(codec.element_masks.len(), 13);
    assert!(codec.element_masks[8]);
    assert!(codec.attribute_masks.line_type);
    assert!(!codec.attribute_masks.line_width);
    assert!(codec.attribute_masks.line_color);
    assert!(!codec.attribute_masks.fill);
    let g = &codec.generic_params;
    assert_eq!((g.angle_resolution, g.angle_in_bits), (Resolution::Half, 7));
    assert_eq!((g.scale_resolution, g.scale_in_bits), (Resolution::Quarter, 15));
    assert_eq!(g.index_in_bits, 9);
    assert_eq!(g.curve_offset_in_bits, Some(0));
    assert_eq!(doc.header.animation_mode, None);
}

#[test]
fn test_default_generic_parameters() {
    let mut b = Bits::new();
    put_header(&mut b, &masks_with(&[1], 8), NO_ATTRS, true);
    put_count(&mut b, 0);
    let doc = decode(&b.bytes).expect("decodes");
    let g = &doc.header.codec_params.generic_params;
    assert_eq!((g.angle_resolution, g.angle_in_bits), (Resolution::Eighth, 2));
    assert_eq!((g.scale_resolution, g.scale_in_bits), (Resolution::Full, 2));
    assert_eq!(g.index_in_bits, 2);
    assert_eq!(g.curve_offset_in_bits, None);
    assert_eq!(doc.header.codec_params.element_masks.len(), 8);
}

fn put_attributed_dot(b: &mut Bits, width_code: u32) {
    put_header(b, &masks_with(&[1], 8), [true, true, true, true], true);
    put_count(b, 1);
    b.flag(false);
    b.flag(false);
    b.flag(true);
    b.put(2, 2);
    b.put(width_code, 2);
}

#[test]
fn test_attribute_set() {
    let mut b = Bits::new();
    put_attributed_dot(&mut b, 3);
    b.flag(true); // line color
    b.flag(true); // filled
    b.flag(false); // default fill color
    b.put(0, 3);
    b.put(1, 7);
    b.put(2, 6);
    let doc = decode(&b.bytes).expect("decodes");
    match &doc.elements[0].data {
        ElementData::Polyline(pl) => {
            assert_eq!(pl.attributes.line_type, Some(LineType::Dotted));
            assert_eq!(pl.attributes.line_width, Some(LineWidth::Thick));
            assert_eq!(pl.attributes.line_color, Some(Color::new(0, 0, 0)));
            assert_eq!(pl.attributes.fill, Some(true));
            assert_eq!(pl.attributes.fill_color, None);
        }
        _ => panic!("expected a polyline"),
    }
    let svg = SvgConverter::new().convert(&doc).expect("renders");
    assert_eq!(
        svg,
        [
            HEAD,
            "<circle id=\"el_0\" cx=\"1\" cy=\"2\" r=\"1.0\" style=\"stroke-dasharray: 1 3; stroke-width: 3; stroke: #000000\"/>",
            "</svg>"
        ]
        .concat()
    );
}

#[test]
fn test_no_line_width_skips_the_line_color_bit() {
    let mut b = Bits::new();
    put_attributed_dot(&mut b, 0);
    b.flag(false); // not filled; no line color bit came before
    b.put(0, 3);
    b.put(1, 7);
    b.put(2, 6);
    let exact = b.used;
    let doc = decode(&b.bytes).expect("decodes");
    match &doc.elements[0].data {
        ElementData::Polyline(pl) => {
            assert_eq!(pl.attributes.line_width, Some(LineWidth::NoLine));
            assert_eq!(pl.attributes.line_color, None);
            assert_eq!(pl.attributes.fill, Some(false));
            assert_eq!((pl.points[0].x, pl.points[0].y), (1, 2));
        }
        _ => panic!("expected a polyline"),
    }
    let svg = SvgConverter::new().convert(&doc).expect("renders");
    assert!(svg.contains("style=\"stroke-dasharray: 1 3; stroke-width: 0; fill: none\""));
    assert!(exact <= 8 * b.bytes.len());
}

#[test]
fn test_signed_coordinates_and_coarse_offsets() {
    let mut b = Bits::new();
    put_header(&mut b, &masks_with(&[1], 8), NO_ATTRS, false);
    put_count(&mut b, 1);
    b.flag(true); // coarse X offsets
    b.flag(false); // fine Y offsets
    b.put(2, 3);
    b.signed(-5, 7);
    b.signed(-32, 6);
    b.signed(-16, 5);
    b.signed(3, 3);
    b.signed(15, 5);
    b.signed(-4, 3);
    let doc = decode(&b.bytes).expect("decodes");
    match &doc.elements[0].data {
        ElementData::Polyline(pl) => {
            let pts: Vec<(i32, i32)> = pl.points.iter().map(|p| (p.x, p.y)).collect();
            assert_eq!(pts, vec![(-5, -32), (-21, -29), (-6, -33)]);
        }
        _ => panic!("expected a polyline"),
    }
    let svg = SvgConverter::new().convert(&doc).expect("renders");
    assert!(svg.contains("<path id=\"el_0\" d=\"M -5 -32 l -16 3 l 15 -4\" />"));
}

#[test]
fn test_group_with_transform_and_circular_polyline() {
    let mut b = Bits::new();
    put_header(&mut b, &masks_with(&[2, 6], 8), NO_ATTRS, true);
    put_count(&mut b, 3);
    // group start
    b.put(1, 1);
    b.flag(false);
    b.flag(true);
    b.flag(true);
    b.signed(-3, 5);
    b.flag(true);
    b.signed(4, 5);
    b.flag(true);
    b.flag(true);
    b.signed(2, 3);
    b.flag(true);
    b.signed(1, 3);
    b.flag(false);
    b.flag(false);
    b.flag(true);
    b.signed(6, 5);
    b.flag(false);
    // circular polyline
    b.put(0, 1);
    b.flag(true);
    b.flag(false);
    b.flag(true);
    b.put(1, 3);
    b.put(10, 7);
    b.put(12, 6);
    b.flag(true);
    b.signed(-10, 5);
    b.put(20, 7);
    b.put(12, 6);
    b.flag(false);
    b.signed(5, 5);
    b.signed(-1, 3);
    // group end
    b.put(1, 1);
    b.flag(true);
    let doc = decode(&b.bytes).expect("decodes");
    assert_eq!(doc.elements.len(), 3);
    match &doc.elements[0].data {
        ElementData::GroupStart(g) => {
            assert!(!g.display);
            let t = g.transform.as_ref().expect("transform");
            assert_eq!(t.translate_x, Some(-3));
            assert_eq!(t.translate_y, Some(4));
            assert_eq!(t.angle, Some(2));
            assert_eq!(t.scale_x, Some(1));
            assert_eq!(t.scale_y, None);
            assert_eq!(t.cx, None);
            assert_eq!(t.cy, Some(6));
        }
        _ => panic!("expected a group start"),
    }
    match &doc.elements[1].data {
        ElementData::CircularPolyline(cp) => {
            assert_eq!(cp.points.len(), 3);
            assert_eq!(cp.points[0].curve_offset, 0);
            assert!(cp.points[0].is_absolute);
            assert_eq!(cp.points[1].curve_offset, -10);
            assert!(cp.points[1].is_absolute);
            assert_eq!((cp.points[1].point.x, cp.points[1].point.y), (20, 12));
            assert_eq!(cp.points[2].curve_offset, 0);
            assert!(!cp.points[2].is_absolute);
            assert_eq!((cp.points[2].point.x, cp.points[2].point.y), (5, -1));
        }
        _ => panic!("expected a circular polyline"),
    }
    assert!(matches!(doc.elements[2].data, ElementData::GroupEnd));
    let svg = SvgConverter::new().convert(&doc).expect("renders");
    let expected = [
        HEAD,
        "<g id=\"el_0\" transform=\"translate(-3, 4) rotate(5.625 0 6) scale(1.25 1)\" display=\"none\">",
        "<path id=\"el_1\" d=\"M 10 12 A 5.42 5.42 0 0 0 20 12 L 25 11\" />",
        "</g>",
        "</svg>",
    ]
    .concat();
    assert_eq!(svg, expected);
}

#[test]
fn test_reuse_with_array_and_overrides() {
    let mut b = Bits::new();
    put_header(&mut b, &masks_with(&[1, 5], 8), NO_ATTRS, true);
    put_count(&mut b, 2);
    b.put(0, 1);
    b.flag(false);
    b.flag(false);
    b.put(0, 3);
    b.put(1, 7);
    b.put(1, 6);
    b.put(1, 1);
    b.put(0, 3);
    b.flag(false);
    b.flag(false);
    b.flag(false);
    b.flag(true); // array
    b.put(2, 4); // three columns
    b.put(9, 7);
    b.put(1, 4); // two rows
    b.flag(false); // rows as far apart as columns
    b.flag(true); // overrides
    b.flag(true);
    b.put(3, 2);
    b.flag(true);
    b.put(1, 2);
    b.flag(true);
    b.flag(true);
    b.flag(false);
    b.flag(true);
    let doc = decode(&b.bytes).expect("decodes");
    match &doc.elements[1].data {
        ElementData::Reuse(r) => {
            let a = r.array_params.as_ref().expect("array");
            assert_eq!((a.columns, a.rows), (3, 2));
            assert_eq!(a.width, Some(9));
            assert_eq!(a.height, Some(9));
            let o = r.override_attributes.as_ref().expect("overrides");
            assert_eq!(o.line_type, Some(LineType::DashDot));
            assert_eq!(o.line_width, Some(LineWidth::Fine));
            assert_eq!(o.line_color, Some(Color::new(0, 0, 0)));
            assert_eq!(o.fill, Some(false));
            assert_eq!(o.fill_color, Some(Color::new(0, 0, 0)));
        }
        _ => panic!("expected a reuse element"),
    }
    let svg = SvgConverter::new().convert(&doc).expect("renders");
    let style = "style=\"stroke-dasharray: 5 2 1 2; stroke-width: 1; stroke: #000000; fill: none\"";
    let expected = [
        HEAD.to_string(),
        "<circle id=\"el_0\" cx=\"1\" cy=\"1\" r=\"1.0\" />".to_string(),
        format!("<use id=\"el_1_0_0\" href=\"#el_0\"  {}/>", style),
        format!("<use id=\"el_1_0_1\" href=\"#el_0\" transform=\"translate(9, 0)\" {}/>", style),
        format!("<use id=\"el_1_0_2\" href=\"#el_0\" transform=\"translate(18, 0)\" {}/>", style),
        format!("<use id=\"el_1_1_0\" href=\"#el_0\" transform=\"translate(0, 9)\" {}/>", style),
        format!("<use id=\"el_1_1_1\" href=\"#el_0\" transform=\"translate(9, 9)\" {}/>", style),
        format!("<use id=\"el_1_1_2\" href=\"#el_0\" transform=\"translate(18, 9)\" {}/>", style),
        "</svg>".to_string(),
    ]
    .concat();
    assert_eq!(svg, expected);
}

#[test]
fn test_single_row_array_has_no_height() {
    let mut b = Bits::new();
    put_header(&mut b, &masks_with(&[5], 8), NO_ATTRS, true);
    put_count(&mut b, 1);
    b.put(0, 3);
    let mut with_element = Bits::new();
    put_header(&mut with_element, &masks_with(&[1, 5], 8), NO_ATTRS, true);
    put_count(&mut with_element, 2);
    with_element.put(0, 1);
    with_element.flag(false);
    with_element.flag(false);
    with_element.put(0, 3);
    with_element.put(1, 7);
    with_element.put(1, 6);
    with_element.put(1, 1);
    with_element.put(0, 3);
    with_element.flag(false);
    with_element.flag(false);
    with_element.flag(false);
    with_element.flag(true);
    with_element.put(0, 4); // one column: no width follows
    with_element.put(0, 4); // one row: nothing follows
    with_element.flag(false);
    let doc = decode(&with_element.bytes).expect("decodes");
    match &doc.elements[1].data {
        ElementData::Reuse(r) => {
            let a = r.array_params.as_ref().expect("array");
            assert_eq!((a.columns, a.rows, a.width, a.height), (1, 1, None, None));
        }
        _ => panic!("expected a reuse element"),
    }
    // A reuse element before any other has nothing to refer to.
    assert!(matches!(
        decode(&b.bytes),
        Err(WvgError::ElementIndexOutOfBounds { index: 0, max: 0 })
    ));
}

/// The websafe table, entry by entry.
const WEBSAFE: [[u8; 3]; 256] = [
    [255, 255, 255], [255, 204, 255], [255, 153, 255], [255, 102, 255],
    [255, 51, 255], [255, 0, 255], [255, 255, 204], [255, 204, 204],
    [255, 153, 204], [255, 102, 204], [255, 51, 204], [255, 0, 204],
    [255, 255, 153], [255, 204, 153], [255, 153, 153], [255, 102, 153],
    [255, 51, 153], [255, 0, 153], [204, 255, 255], [204, 204, 255],
    [204, 153, 255], [204, 102, 255], [204, 51, 255], [204, 0, 255],
    [204, 255, 204], [204, 204, 204], [204, 153, 204], [204, 102, 204],
    [204, 51, 204], [204, 0, 204], [204, 255, 153], [204, 204, 153],
    [204, 153, 153], [204, 102, 153], [204, 51, 153], [204, 0, 153],
    [153, 255, 255], [153, 204, 255], [153, 153, 255], [153, 102, 255],
    [153, 51, 255], [153, 0, 255], [153, 255, 204], [153, 204, 204],
    [153, 153, 204], [153, 102, 204], [153, 51, 204], [153, 0, 204],
    [153, 255, 153], [153, 204, 153], [153, 153, 153], [153, 102, 153],
    [153, 51, 153], [153, 0, 153], [102, 255, 255], [102, 204, 255],
    [102, 153, 255], [102, 102, 255], [102, 51, 255], [102, 0, 255],
    [102, 255, 204], [102, 204, 204], [102, 153, 204], [102, 102, 204],
    [102, 51, 204], [102, 0, 204], [102, 255, 153], [102, 204, 153],
    [102, 153, 153], [102, 102, 153], [102, 51, 153], [102, 0, 153],
    [51, 255, 255], [51, 204, 255], [51, 153, 255], [51, 102, 255],
    [51, 51, 255], [51, 0, 255], [51, 255, 204], [51, 204, 204],
    [51, 153, 204], [51, 102, 204], [51, 51, 204], [51, 0, 204],
    [51, 255, 153], [51, 204, 153], [51, 153, 153], [51, 102, 153],
    [51, 51, 153], [51, 0, 153], [0, 255, 255], [0, 204, 255],
    [0, 153, 255], [0, 102, 255], [0, 51, 255], [0, 0, 255],
    [0, 255, 204], [0, 204, 204], [0, 153, 204], [0, 102, 204],
    [0, 51, 204], [0, 0, 204], [0, 255, 153], [0, 204, 153],
    [0, 153, 153], [0, 102, 153], [0, 51, 153], [0, 0, 153],
    [255, 255, 102], [255, 204, 102], [255, 153, 102], [255, 102, 102],
    [255, 51, 102], [255, 0, 102], [255, 255, 51], [255, 204, 51],
    [255, 153, 51], [255, 102, 51], [255, 51, 51], [255, 0, 51],
    [255, 255, 0], [255, 204, 0], [255, 153, 0], [255, 102, 0],
    [255, 51, 0], [255, 0, 0], [204, 255, 102], [204, 204, 102],
    [204, 153, 102], [204, 102, 102], [204, 51, 102], [204, 0, 102],
    [204, 255, 51], [204, 204, 51], [204, 153, 51], [204, 102, 51],
    [204, 51, 51], [204, 0, 51], [204, 255, 0], [204, 204, 0],
    [204, 153, 0], [204, 102, 0], [204, 51, 0], [204, 0, 0],
    [153, 255, 102], [153, 204, 102], [153, 153, 102], [153, 102, 102],
    [153, 51, 102], [153, 0, 102], [153, 255, 51], [153, 204, 51],
    [153, 153, 51], [153, 102, 51], [153, 51, 51], [153, 0, 51],
    [153, 255, 0], [153, 204, 0], [153, 153, 0], [153, 102, 0],
    [153, 51, 0], [153, 0, 0], [102, 255, 102], [102, 204, 102],
    [102, 153, 102], [102, 102, 102], [102, 51, 102], [102, 0, 102],
    [102, 255, 51], [102, 204, 51], [102, 153, 51], [102, 102, 51],
    [102, 51, 51], [102, 0, 51], [102, 255, 0], [102, 204, 0],
    [102, 153, 0], [102, 102, 0], [102, 51, 0], [102, 0, 0],
    [51, 255, 102], [51, 204, 102], [51, 153, 102], [51, 102, 102],
    [51, 51, 102], [51, 0, 102], [51, 255, 51], [51, 204, 51],
    [51, 153, 51], [51, 102, 51], [51, 51, 51], [51, 0, 51],
    [51, 255, 0], [51, 204, 0], [51, 153, 0], [51, 102, 0],
    [51, 51, 0], [51, 0, 0], [0, 255, 102], [0, 204, 102],
    [0, 153, 102], [0, 102, 102], [0, 51, 102], [0, 0, 102],
    [0, 255, 51], [0, 204, 51], [0, 153, 51], [0, 102, 51],
    [0, 51, 51], [0, 0, 51], [0, 255, 0], [0, 204, 0],
    [0, 153, 0], [0, 102, 0], [0, 51, 0], [17, 17, 17],
    [34, 34, 34], [68, 68, 68], [85, 85, 85], [119, 119, 119],
    [136, 136, 136], [170, 170, 170], [187, 187, 187], [221, 221, 221],
    [238, 238, 238], [192, 192, 192], [128, 0, 0], [128, 0, 128],
    [0, 128, 0], [0, 128, 128], [0, 0, 0], [0, 0, 0],
    [0, 0, 0], [0, 0, 0], [0, 0, 0], [0, 0, 0],
    [0, 0, 0], [0, 0, 0], [0, 0, 0], [0, 0, 0],
    [0, 0, 0], [0, 0, 0], [0, 0, 0], [0, 0, 0],
    [0, 0, 0], [0, 0, 0], [0, 0, 0], [0, 0, 0],
    [0, 0, 0], [0, 0, 0], [0, 0, 0], [0, 0, 0],
    [0, 0, 0], [0, 0, 0], [0, 0, 0], [0, 0, 0],
];

#[test]
fn test_websafe_table() {
    for (i, rgb) in WEBSAFE.iter().enumerate() {
        assert_eq!(websafe_color(i), Color::new(rgb[0], rgb[1], rgb[2]), "entry {}", i);
    }
    assert_eq!(websafe_color(256), Color::new(0, 0, 0));
    assert_eq!(websafe_color(usize::MAX), Color::new(0, 0, 0));
}

#[test]
fn test_decoded_documents_always_render() {
    // Whatever decodes can be drawn: try every single-byte change of a
    // small drawing.
    let mut b = Bits::new();
    put_header(&mut b, &masks_with(&[1, 2, 5, 6], 8), NO_ATTRS, false);
    put_count(&mut b, 3);
    b.put(1, 2);
    b.flag(false);
    b.flag(false);
    b.flag(false);
    b.put(2, 3);
    b.signed(-60, 7);
    b.signed(30, 6);
    b.signed(-14, 5);
    b.signed(40, 7);
    b.signed(-30, 6);
    b.signed(9, 5);
    b.signed(3, 3);
    b.signed(-4, 3);
    b.signed(-7, 5);
    b.signed(-1, 3);
    b.signed(2, 3);
    b.put(0, 16);
    let converter = SvgConverter::new();
    for i in 0..b.bytes.len() {
        for flip in 0..8 {
            let mut data = b.bytes.clone();
            data[i] ^= 1 << flip;
            if let Ok(doc) = decode(&data) {
                assert!(converter.convert(&doc).is_ok(), "byte {} bit {}", i, flip);
            }
        }
    }
}
