//! The decoder: reads a document from a bit stream in one forward pass.
//!
//! Every step is proved to return what the grammar says of the bytes at the
//! cursor, and to leave the cursor behind what it has read.
use crate::bitstream::{
    bits_value, lemma_pow2_monotonic, lemma_signed_bits_value_bound, signed_bits_value,
    spec_read_bits, spec_read_flag, spec_read_signed_bits, BitStream, Parsed,
};
use crate::error::{UnsupportedFeature, WvgError, WvgResult};
use crate::grammar::{
    context_of, count_active, element_id_text, flag_at, kind_decoded, nth_active, nth_active_from,
    resolved_reuse_index, spec_6bit_palette, spec_8bit_palette, spec_animation_settings,
    spec_array_columns, spec_array_parameter, spec_array_rows, spec_attribute_mask,
    spec_attributes_set, spec_basic_element_header, spec_circular_points,
    spec_circular_polyline_element, spec_circular_start, spec_codec_parameters,
    spec_color_configuration, spec_color_scheme, spec_coordinate, spec_coordinate_parameters,
    spec_curve_offset, spec_curve_offset_width, spec_document, spec_draw_color, spec_element,
    spec_element_body, spec_element_mask, spec_elements, spec_elements_from, spec_extended_info,
    spec_fill_attribute, spec_flat_coordinate_parameters, spec_general_info,
    spec_generic_parameters, spec_group_element, spec_index_width, spec_line_color_attribute,
    spec_masked_code, spec_offset, spec_optional_array, spec_optional_code, spec_optional_color,
    spec_optional_flag, spec_optional_overrides, spec_optional_signed, spec_optional_string,
    spec_override_attribute_set, spec_override_color, spec_point, spec_polyline_element,
    spec_polyline_points, spec_resolution_and_width, spec_reuse_element, spec_simple_shape_element,
    spec_standard_wvg_header, spec_timestamp, spec_transform, spec_transform_extension,
    spec_x_value, spec_y_value, stops_at_type_index, type_index_bits, websafe_level, websafe_rgb,
    DecodeContext, ElementHeader,
};
use crate::svg::{
    circular_point_renderable, circular_x, circular_y, data_renderable, element_renderable,
    lemma_circular_prefix, renderable,
};
use crate::text::push_nat;
use crate::types::{
    element_views, optional_text, AnimationMode, ArrayParams, AttributeMasks, CircularPoint,
    CircularPolylineElement, CodecParams, Color, ColorConfig, ColorScheme, CoordinateParams,
    ElementAttributes, ElementData, ElementDataView, FlatCoordinateParams, GeneralInfo,
    GeneralInfoView, GenericParams, GroupStartElement, LineType, LineWidth, Point,
    PolylineElement, Resolution, ReuseElement, SimpleShapeElement, SimpleShapeType, TextCodeMode, Timestamp,
    Transform, WvgDocument, WvgDocumentView, WvgElement, WvgElementView, WvgHeader,
};
use vstd::arithmetic::power2::{lemma2_to64, pow2};
use vstd::bits::lemma_u32_shl_is_mul;
use vstd::prelude::*;

verus! {

/// A result and the cursor behind it say what the grammar says.
pub open spec fn agrees<T>(r: WvgResult<T>, end: nat, expected: Parsed<T>) -> bool {
    match r {
        Ok(v) => expected == Ok::<(T, nat), WvgError>((v, end)),
        Err(e) => expected == Err::<(T, nat), WvgError>(e),
    }
}

/// A result is what decoding the bytes from the given position gives: the
/// document that the grammar finds there, or the failure it meets.
pub open spec fn decoded(r: WvgResult<WvgDocument>, data: Seq<u8>, pos: nat) -> bool {
    match r {
        Ok(doc) => spec_document(data, pos) == Ok::<WvgDocumentView, WvgError>(doc@),
        Err(e) => spec_document(data, pos) == Err::<WvgDocumentView, WvgError>(e),
    }
}

/// Decoding depends on nothing but the bytes and the position: two
/// results of decoding the same input are the same document, or the same
/// failure.
pub proof fn lemma_decoding_is_deterministic(
    first: WvgResult<WvgDocument>,
    second: WvgResult<WvgDocument>,
    data: Seq<u8>,
    pos: nat,
)
    requires
        decoded(first, data, pos),
        decoded(second, data, pos),
    ensures
        first is Ok <==> second is Ok,
        first is Ok ==> first->Ok_0@ == second->Ok_0@,
        first is Err ==> first->Err_0 == second->Err_0,
{
}

/// A reuse index that is out of range is saved by dropping its top bit
/// whenever that brings it into range, and fails otherwise with the index
/// as read and the largest valid index.
pub proof fn lemma_reuse_index_recovery(raw: u32, index_in_bits: nat, count: nat)
    requires
        raw >= count,
    ensures
        (raw as nat) % pow2(index_in_bits) < count ==> resolved_reuse_index(
            raw,
            index_in_bits,
            count,
        ) == Ok::<u32, WvgError>(((raw as nat) % pow2(index_in_bits)) as u32),
        (raw as nat) % pow2(index_in_bits) >= count ==> resolved_reuse_index(
            raw,
            index_in_bits,
            count,
        ) == Err::<u32, WvgError>(
            WvgError::ElementIndexOutOfBounds {
                index: raw,
                max: crate::grammar::max_element_index(count) as usize,
            },
        ),
        resolved_reuse_index(raw, index_in_bits, count) is Ok ==> resolved_reuse_index(
            raw,
            index_in_bits,
            count,
        )->Ok_0 < count,
{
    vstd::arithmetic::power2::lemma_pow2_pos(index_in_bits);
    assert((raw as nat) % pow2(index_in_bits) <= raw as nat) by (nonlinear_arith)
        requires
            pow2(index_in_bits) > 0,
    ;
}

/// Bits of the element type index when `active` element kinds are enabled:
/// none for at most one kind, then one, two, three and four bits for up to
/// two, four, eight and more kinds.
pub fn element_type_bits(active: usize) -> (bits: u8)
    ensures
        bits == type_index_bits(active as nat),
{
    if active <= 1 {
        0
    } else if active == 2 {
        1
    } else if active <= 4 {
        2
    } else if active <= 8 {
        3
    } else {
        4
    }
}

/// Number of flags that are set.
pub fn count_enabled(masks: &Vec<bool>) -> (n: usize)
    ensures
        n == count_active(masks@),
{
    let mut n: usize = 0;
    let mut i: usize = 0;
    while i < masks.len()
        invariant
            i <= masks.len(),
            n <= i,
            n == count_active(masks@.take(i as int)),
        decreases masks.len() - i,
    {
        assert(masks@.take(i + 1).drop_last() =~= masks@.take(i as int));
        if masks[i] {
            n = n + 1;
        }
        i = i + 1;
    }
    assert(masks@.take(masks.len() as int) =~= masks@);
    n
}

/// The element kind that type index `index` stands for: the position of
/// the flag that is the `index`-th set flag, counting from zero.
pub fn kind_of_index(masks: &Vec<bool>, index: u32) -> (kind: Option<usize>)
    ensures
        match kind {
            Some(k) => nth_active(masks@, index as nat) == Some(k as nat),
            None => nth_active(masks@, index as nat) is None,
        },
{
    let mut seen: u32 = 0;
    let mut i: usize = 0;
    while i < masks.len()
        invariant
            i <= masks.len(),
            seen <= index,
            nth_active_from(masks@, i as nat, (index - seen) as nat) == nth_active(
                masks@,
                index as nat,
            ),
        decreases masks.len() - i,
    {
        if masks[i] {
            if seen == index {
                return Some(i);
            }
            seen = seen + 1;
        }
        i = i + 1;
    }
    None
}

/// The element that a reuse index refers to while `count` elements exist.
///
/// An index that is in range is taken as it is. One that is not is tried
/// again without its top bit, that is, reduced to its low `index_in_bits`
/// bits. If that is still out of range the reference fails, and the
/// failure names the index as it was read and the largest valid index.
pub fn resolve_reuse_index(raw: u32, index_in_bits: u8, count: usize) -> (r: WvgResult<u32>)
    ensures
        r == resolved_reuse_index(raw, index_in_bits as nat, count as nat),
{
    if (raw as usize) < count {
        return Ok(raw);
    }
    let masked: u32 = if index_in_bits >= 32 {
        proof {
            lemma_pow2_monotonic(32, index_in_bits as nat);
            lemma2_to64();
            assert((raw as nat) % pow2(index_in_bits as nat) == raw as nat) by (nonlinear_arith)
                requires
                    (raw as nat) < pow2(index_in_bits as nat),
            ;
        }
        raw
    } else {
        proof {
            lemma_pow2_monotonic(index_in_bits as nat, 31);
            lemma2_to64();
            lemma_u32_shl_is_mul(1, index_in_bits as u32);
        }
        raw % (1u32 << (index_in_bits as u32))
    };
    if (masked as usize) < count {
        Ok(masked)
    } else {
        let max: usize = if count == 0 {
            0
        } else {
            count - 1
        };
        Err(WvgError::ElementIndexOutOfBounds { index: raw, max })
    }
}

/// One of the six intensities of the websafe color cube.
fn websafe_channel(k: usize) -> (v: u8)
    requires
        k <= 5,
    ensures
        v == websafe_level(k as nat),
{
    (255 - 51 * k) as u8
}

/// Entry `index` of the websafe table; indices past the table give black.
pub fn websafe_color(index: usize) -> (c: Color)
    ensures
        c == websafe_rgb(index as nat),
{
    if index < 215 {
        Color::new(
            websafe_channel((index % 108) / 18),
            websafe_channel(index % 6),
            websafe_channel(3 * (index / 108) + (index % 18) / 6),
        )
    } else if index == 215 {
        Color::new(17, 17, 17)
    } else if index == 216 {
        Color::new(34, 34, 34)
    } else if index == 217 {
        Color::new(68, 68, 68)
    } else if index == 218 {
        Color::new(85, 85, 85)
    } else if index == 219 {
        Color::new(119, 119, 119)
    } else if index == 220 {
        Color::new(136, 136, 136)
    } else if index == 221 {
        Color::new(170, 170, 170)
    } else if index == 222 {
        Color::new(187, 187, 187)
    } else if index == 223 {
        Color::new(221, 221, 221)
    } else if index == 224 {
        Color::new(238, 238, 238)
    } else if index == 225 {
        Color::new(192, 192, 192)
    } else if index == 226 {
        Color::new(128, 0, 0)
    } else if index == 227 {
        Color::new(128, 0, 128)
    } else if index == 228 {
        Color::new(0, 128, 0)
    } else if index == 229 {
        Color::new(0, 128, 128)
    } else {
        Color::new(0, 0, 0)
    }
}

/// Every width of the flat parameters fits the four bits it was read from.
pub open spec fn flat_bounded(flat: FlatCoordinateParams) -> bool {
    &&& flat.max_x_in_bits <= 15
    &&& flat.max_y_in_bits <= 15
    &&& flat.trans_xy_in_bits <= 15
    &&& flat.num_points_in_bits <= 15
    &&& flat.offset_x_in_bits_level1 <= 15
    &&& flat.offset_y_in_bits_level1 <= 15
    &&& flat.offset_x_in_bits_level2 <= 15
    &&& flat.offset_y_in_bits_level2 <= 15
}

/// Every field of the generic parameters fits the bits it was read from.
pub open spec fn generic_bounded(generic: GenericParams) -> bool {
    &&& generic.angle_in_bits <= 7
    &&& generic.scale_in_bits <= 15
    &&& generic.index_in_bits <= 15
    &&& match generic.curve_offset_in_bits {
        Some(b) => b <= 1,
        None => true,
    }
}

/// Reads bits from a stream and assembles the document they describe.
pub struct WvgParser<'a> {
    bs: &'a mut BitStream<'a>,
    element_masks: Vec<bool>,
    attribute_masks: AttributeMasks,
    generic_params: GenericParams,
    is_compact: bool,
    flat_params: Option<FlatCoordinateParams>,
    offset_x_use: bool,
    offset_y_use: bool,
    elements: Vec<WvgElement>,
    element_index: usize,
}

impl<'a> WvgParser<'a> {
    /// The stream the parser reads from, as it stands.
    pub closed spec fn stream(&self) -> BitStream<'a> {
        *self.bs
    }

    /// The parser has a usable stream and has not decoded anything yet.
    pub closed spec fn wf(&self) -> bool {
        &&& self.bs.wf()
        &&& self.elements@.len() == 0
        &&& self.element_index == 0
    }

    spec fn at(&self) -> nat {
        self.bs.position()
    }

    /// The cursor rests at the end of the input.
    spec fn at_end(&self) -> bool {
        self.bs.position() == 8 * self.bs.bytes().len()
    }

    spec fn input(&self) -> Seq<u8> {
        self.bs.bytes()
    }

    /// What the header has left behind for decoding elements.
    spec fn ctx(&self) -> DecodeContext {
        DecodeContext {
            masks: self.element_masks@,
            attributes: self.attribute_masks,
            generic: self.generic_params,
            flat: self.flat_params->0,
        }
    }

    /// The header has been decoded and elements can be.
    spec fn ready(&self) -> bool {
        &&& self.bs.wf()
        &&& !self.is_compact
        &&& self.flat_params is Some
        &&& flat_bounded(self.flat_params->0)
        &&& generic_bounded(self.generic_params)
        &&& self.element_index == self.elements@.len()
    }

    /// The input and what the header left behind are as in `before`.
    spec fn kept_setup(&self, before: Self) -> bool {
        &&& self.bs.wf()
        &&& self.bs.bytes() == before.bs.bytes()
        &&& self.element_masks == before.element_masks
        &&& self.attribute_masks == before.attribute_masks
        &&& self.generic_params == before.generic_params
        &&& self.is_compact == before.is_compact
        &&& self.flat_params == before.flat_params
    }

    /// Nothing but the cursor and the offset selectors differs from `before`.
    spec fn kept_context(&self, before: Self) -> bool {
        &&& self.kept_setup(before)
        &&& self.elements == before.elements
        &&& self.element_index == before.element_index
    }

    /// Nothing but the cursor differs from `before`.
    spec fn kept(&self, before: Self) -> bool {
        &&& self.kept_context(before)
        &&& self.offset_x_use == before.offset_x_use
        &&& self.offset_y_use == before.offset_y_use
    }

    /// A parser that will read from `bs`, starting where `bs` stands.
    pub fn new(bs: &'a mut BitStream<'a>) -> (p: Self)
        requires
            old(bs).wf(),
        ensures
            p.wf(),
            p.stream() == *old(bs),
    {
        Self {
            bs,
            element_masks: Vec::new(),
            attribute_masks: AttributeMasks::default(),
            generic_params: GenericParams::default(),
            is_compact: false,
            flat_params: None,
            offset_x_use: false,
            offset_y_use: false,
            elements: Vec::new(),
            element_index: 0,
        }
    }

    /// Decodes one document from the stream.
    ///
    /// The result is what the grammar says of the stream's bytes from the
    /// position at which the stream stood: the document on success, and
    /// otherwise the first failure met on the way.
    pub fn parse(self) -> (r: WvgResult<WvgDocument>)
        requires
            self.wf(),
        ensures
            decoded(r, self.stream().bytes(), self.stream().position()),
            r is Ok ==> renderable(r->Ok_0@),
    {
        proof {
            reveal(spec_document);
        }
        let mut p = self;
        let standard = p.flag()?;
        if !standard {
            return Err(WvgError::UnsupportedFeature(UnsupportedFeature::CharacterSizeWvg));
        }
        let header = p.parse_standard_wvg_header()?;
        p.parse_elements()?;
        Ok(WvgDocument { header, elements: p.elements })
    }

    fn flag(&mut self) -> (r: WvgResult<bool>)
        requires
            old(self).bs.wf(),
        ensures
            final(self).kept(*old(self)),
            r is Err ==> r->Err_0 is EndOfStream && final(self).at_end(),
            agrees(r, final(self).at(), spec_read_flag(old(self).input(), old(self).at())),
            r is Ok ==> r->Ok_0 == flag_at(old(self).input(), old(self).at()),
            final(self).at() <= 8 * old(self).input().len(),
    {
        proof {
            self.bs.lemma_position_in_bounds();
        }
        let bit = self.bs.read_bit()?;
        Ok(bit == 1)
    }

    fn bits(&mut self, n: u8) -> (r: WvgResult<u32>)
        requires
            old(self).bs.wf(),
            n <= 32,
        ensures
            final(self).kept(*old(self)),
            r is Err ==> r->Err_0 is EndOfStream && final(self).at_end(),
            agrees(r, final(self).at(), spec_read_bits(old(self).input(), old(self).at(), n as nat)),
            r is Ok ==> r->Ok_0 as nat == bits_value(old(self).input(), old(self).at(), n as nat),
            r is Ok ==> r->Ok_0 < pow2(n as nat),
            final(self).at() <= 8 * old(self).input().len(),
    {
        let v = self.bs.read_bits(n)?;
        Ok(v)
    }

    fn signed(&mut self, n: u8) -> (r: WvgResult<i32>)
        requires
            old(self).bs.wf(),
            n <= 32,
        ensures
            final(self).kept(*old(self)),
            r is Err ==> r->Err_0 is EndOfStream && final(self).at_end(),
            agrees(
                r,
                final(self).at(),
                spec_read_signed_bits(old(self).input(), old(self).at(), n as nat),
            ),
            r is Ok ==> r->Ok_0 == signed_bits_value(old(self).input(), old(self).at(), n as nat),
            r is Ok && n == 0 ==> r->Ok_0 == 0,
            r is Ok && n > 0 ==> -pow2((n - 1) as nat) <= r->Ok_0 < pow2((n - 1) as nat),
            final(self).at() <= 8 * old(self).input().len(),
    {
        proof {
            lemma_signed_bits_value_bound(old(self).input(), old(self).at(), n as nat);
        }
        let v = self.bs.read_signed_bits(n)?;
        Ok(v)
    }

    fn parse_standard_wvg_header(&mut self) -> (r: WvgResult<WvgHeader>)
        requires
            old(self).bs.wf(),
            old(self).element_index == old(self).elements@.len(),
        ensures
            final(self).bs.wf(),
            final(self).bs.bytes() == old(self).bs.bytes(),
            final(self).elements == old(self).elements,
            r is Err ==> (r->Err_0 is EndOfStream && final(self).at_end()) || r->Err_0
                is UnsupportedFeature,
            match r {
                Ok(h) => {
                    &&& spec_standard_wvg_header(old(self).input(), old(self).at()) == Ok::<
                        (crate::types::WvgHeaderView, nat),
                        WvgError,
                    >((h@, final(self).at()))
                    &&& final(self).ready()
                    &&& final(self).ctx() == context_of(h@.codec_params)
                },
                Err(e) => spec_standard_wvg_header(old(self).input(), old(self).at()) == Err::<
                    (crate::types::WvgHeaderView, nat),
                    WvgError,
                >(e),
            },
    {
        proof {
            reveal(spec_standard_wvg_header);
        }
        let general_info = self.parse_general_info()?;
        let color_config = self.parse_color_configuration()?;
        let (codec_params, animation_mode) = self.parse_codec_parameters()?;
        Ok(WvgHeader { general_info, color_config, codec_params, animation_mode })
    }

    fn parse_general_info(&mut self) -> (r: WvgResult<GeneralInfo>)
        requires
            old(self).bs.wf(),
        ensures
            final(self).kept(*old(self)),
            r is Err ==> r->Err_0 is EndOfStream && final(self).at_end(),
            match r {
                Ok(g) => spec_general_info(old(self).input(), old(self).at()) == Ok::<
                    (GeneralInfoView, nat),
                    WvgError,
                >((g@, final(self).at())),
                Err(e) => spec_general_info(old(self).input(), old(self).at()) == Err::<
                    (GeneralInfoView, nat),
                    WvgError,
                >(e),
            },
    {
        proof {
            reveal(spec_general_info);
            reveal(spec_extended_info);
            lemma2_to64();
        }
        let version = self.bits(4)? as u8;
        let has_extended_info = self.flag()?;
        if has_extended_info {
            let wide = self.flag()?;
            let mode = if wide {
                TextCodeMode::Ucs2
            } else {
                TextCodeMode::Gsm7Bit
            };
            let author = self.parse_optional_string(mode)?;
            let title = self.parse_optional_string(mode)?;
            let timestamp = self.parse_timestamp()?;
            Ok(GeneralInfo { version, text_code_mode: Some(mode), author, title, timestamp })
        } else {
            Ok(
                GeneralInfo {
                    version,
                    text_code_mode: None,
                    author: None,
                    title: None,
                    timestamp: None,
                },
            )
        }
    }

    /// Passes over a string of the header. The characters are not decoded:
    /// a string that is present comes back empty.
    #[verifier::loop_isolation(false)]
    fn parse_optional_string(&mut self, text_code_mode: TextCodeMode) -> (r: WvgResult<
        Option<String>,
    >)
        requires
            old(self).bs.wf(),
        ensures
            final(self).kept(*old(self)),
            r is Err ==> r->Err_0 is EndOfStream && final(self).at_end(),
            match r {
                Ok(s) => spec_optional_string(old(self).input(), old(self).at(), text_code_mode)
                    == Ok::<(Option<Seq<char>>, nat), WvgError>(
                    (optional_text(s), final(self).at()),
                ),
                Err(e) => spec_optional_string(old(self).input(), old(self).at(), text_code_mode)
                    == Err::<(Option<Seq<char>>, nat), WvgError>(e),
            },
    {
        proof {
            reveal(spec_optional_string);
        }
        let has_string = self.flag()?;
        if !has_string {
            return Ok(None);
        }
        let length = self.bits(8)?;
        let width: u8 = match text_code_mode {
            TextCodeMode::Ucs2 => 16,
            TextCodeMode::Gsm7Bit => 7,
        };
        let ghost start = self.at();
        let mut i: u32 = 0;
        while i < length
            invariant
                i <= length,
                width == 7 || width == 16,
                self.kept(*old(self)),
                self.at() == start + i * width,
                self.at() <= 8 * self.input().len(),
            decreases length - i,
        {
            proof {
                assert((i + 1) * width == i * width + width) by (nonlinear_arith);
                assert((i + 1) * width <= length * width) by (nonlinear_arith)
                    requires
                        i + 1 <= length,
                        width >= 0,
                ;
            }
            match self.bits(width) {
                Ok(_) => {},
                Err(e) => {
                    return Err(e);
                },
            }
            i = i + 1;
        }
        proof {
            assert(length * width == (length as nat) * crate::grammar::char_bits(text_code_mode))
                by (nonlinear_arith)
                requires
                    width as nat == crate::grammar::char_bits(text_code_mode),
            ;
        }
        Ok(Some(String::new()))
    }

    fn parse_timestamp(&mut self) -> (r: WvgResult<Option<Timestamp>>)
        requires
            old(self).bs.wf(),
        ensures
            final(self).kept(*old(self)),
            r is Err ==> r->Err_0 is EndOfStream && final(self).at_end(),
            agrees(r, final(self).at(), spec_timestamp(old(self).input(), old(self).at())),
    {
        proof {
            reveal(spec_timestamp);
            lemma2_to64();
        }
        let has_timestamp = self.flag()?;
        if !has_timestamp {
            return Ok(None);
        }
        let year = self.signed(13)? as i16;
        let month = self.bits(4)? as u8;
        let day = self.bits(5)? as u8;
        let hour = self.bits(5)? as u8;
        let minute = self.bits(6)? as u8;
        let second = self.bits(6)? as u8;
        Ok(Some(Timestamp { year, month, day, hour, minute, second }))
    }

    fn parse_color_configuration(&mut self) -> (r: WvgResult<ColorConfig>)
        requires
            old(self).bs.wf(),
        ensures
            final(self).kept(*old(self)),
            r is Err ==> r->Err_0 is EndOfStream && final(self).at_end(),
            agrees(
                r,
                final(self).at(),
                spec_color_configuration(old(self).input(), old(self).at()),
            ),
    {
        proof {
            reveal(spec_color_configuration);
        }
        let scheme = self.parse_color_scheme()?;
        let default_line_color = self.parse_optional_color(scheme)?;
        let default_fill_color = self.parse_optional_color(scheme)?;
        let background_color = self.parse_optional_color(scheme)?;
        Ok(ColorConfig { scheme, default_line_color, default_fill_color, background_color })
    }

    fn parse_optional_color(&mut self, scheme: ColorScheme) -> (r: WvgResult<Option<Color>>)
        requires
            old(self).bs.wf(),
        ensures
            final(self).kept(*old(self)),
            r is Err ==> r->Err_0 is EndOfStream && final(self).at_end(),
            agrees(
                r,
                final(self).at(),
                spec_optional_color(old(self).input(), old(self).at(), scheme),
            ),
    {
        proof {
            reveal(spec_optional_color);
        }
        if self.flag()? {
            let c = self.parse_draw_color(scheme)?;
            Ok(Some(c))
        } else {
            Ok(None)
        }
    }

    fn parse_color_scheme(&mut self) -> (r: WvgResult<ColorScheme>)
        requires
            old(self).bs.wf(),
        ensures
            final(self).kept(*old(self)),
            r is Err ==> r->Err_0 is EndOfStream && final(self).at_end(),
            agrees(r, final(self).at(), spec_color_scheme(old(self).input(), old(self).at())),
    {
        proof {
            reveal(spec_color_scheme);
        }
        let b1 = self.flag()?;
        let b2 = self.flag()?;
        if !b1 {
            if !b2 {
                return Ok(ColorScheme::BlackAndWhite);
            }
            let b3 = self.flag()?;
            if !b3 {
                return Ok(ColorScheme::Grayscale2Bit);
            }
            return Ok(ColorScheme::Predefined2Bit);
        }
        if !b2 {
            let b3 = self.flag()?;
            if !b3 {
                return Ok(ColorScheme::Rgb6Bit);
            }
            return Ok(ColorScheme::Websafe);
        }
        let b3 = self.flag()?;
        let b4 = self.flag()?;
        if !b3 {
            if !b4 {
                let _ = self.parse_6bit_palette()?;
                Ok(ColorScheme::Rgb6BitPalette)
            } else {
                let _ = self.parse_8bit_palette()?;
                Ok(ColorScheme::WebsafePalette)
            }
        } else if !b4 {
            Ok(ColorScheme::Rgb12Bit)
        } else {
            Ok(ColorScheme::Rgb24Bit)
        }
    }

    #[verifier::loop_isolation(false)]
    fn parse_6bit_palette(&mut self) -> (r: WvgResult<Vec<Color>>)
        requires
            old(self).bs.wf(),
        ensures
            final(self).kept(*old(self)),
            r is Err ==> r->Err_0 is EndOfStream && final(self).at_end(),
            match r {
                Ok(palette) => spec_6bit_palette(old(self).input(), old(self).at()) == Ok::<
                    (Seq<Color>, nat),
                    WvgError,
                >((palette@, final(self).at())),
                Err(e) => spec_6bit_palette(old(self).input(), old(self).at()) == Err::<
                    (Seq<Color>, nat),
                    WvgError,
                >(e),
            },
    {
        proof {
            reveal(spec_6bit_palette);
            lemma2_to64();
        }
        let num_colors = self.bits(5)? + 1;
        let ghost start = self.at();
        let ghost data = self.input();
        let mut palette: Vec<Color> = Vec::new();
        let mut i: u32 = 0;
        while i < num_colors
            invariant
                i <= num_colors <= 32,
                self.kept(*old(self)),
                data == self.input(),
                self.at() == start + 6 * i,
                self.at() <= 8 * data.len(),
                palette@.len() == i,
                forall|j: int|
                    0 <= j < i ==> palette@[j] == crate::grammar::rgb6_color(
                        bits_value(data, (start + 6 * j) as nat, 6),
                    ),
            decreases num_colors - i,
        {
            proof {
                lemma2_to64();
            }
            let rgb = match self.bits(6) {
                Ok(v) => v,
                Err(e) => {
                    return Err(e);
                },
            };
            palette.push(rgb6(rgb));
            i = i + 1;
        }
        proof {
            let expected = spec_6bit_palette(old(self).input(), old(self).at());
            assert(expected is Ok);
            assert(expected->Ok_0.0 =~= palette@);
        }
        Ok(palette)
    }

    #[verifier::loop_isolation(false)]
    fn parse_8bit_palette(&mut self) -> (r: WvgResult<Vec<Color>>)
        requires
            old(self).bs.wf(),
        ensures
            final(self).kept(*old(self)),
            r is Err ==> r->Err_0 is EndOfStream && final(self).at_end(),
            match r {
                Ok(palette) => spec_8bit_palette(old(self).input(), old(self).at()) == Ok::<
                    (Seq<Color>, nat),
                    WvgError,
                >((palette@, final(self).at())),
                Err(e) => spec_8bit_palette(old(self).input(), old(self).at()) == Err::<
                    (Seq<Color>, nat),
                    WvgError,
                >(e),
            },
    {
        proof {
            reveal(spec_8bit_palette);
            lemma2_to64();
        }
        let num_colors = self.bits(7)? + 1;
        let ghost start = self.at();
        let ghost data = self.input();
        let mut palette: Vec<Color> = Vec::new();
        let mut i: u32 = 0;
        while i < num_colors
            invariant
                i <= num_colors <= 128,
                self.kept(*old(self)),
                data == self.input(),
                self.at() == start + 8 * i,
                self.at() <= 8 * data.len(),
                palette@.len() == i,
                forall|j: int|
                    0 <= j < i ==> palette@[j] == websafe_rgb(
                        bits_value(data, (start + 8 * j) as nat, 8),
                    ),
            decreases num_colors - i,
        {
            let index = match self.bits(8) {
                Ok(v) => v,
                Err(e) => {
                    return Err(e);
                },
            };
            palette.push(websafe_color(index as usize));
            i = i + 1;
        }
        proof {
            let expected = spec_8bit_palette(old(self).input(), old(self).at());
            assert(expected is Ok);
            assert(expected->Ok_0.0 =~= palette@);
        }
        Ok(palette)
    }

    /// Reads one color in the given scheme. Colors of the palette schemes
    /// are not looked up: they read nothing and come back black.
    fn parse_draw_color(&mut self, scheme: ColorScheme) -> (r: WvgResult<Color>)
        requires
            old(self).bs.wf(),
        ensures
            final(self).kept(*old(self)),
            r is Err ==> r->Err_0 is EndOfStream && final(self).at_end(),
            agrees(r, final(self).at(), spec_draw_color(old(self).input(), old(self).at(), scheme)),
    {
        proof {
            reveal(spec_draw_color);
            lemma2_to64();
        }
        match scheme {
            ColorScheme::BlackAndWhite => {
                let set = self.flag()?;
                Ok(
                    if set {
                        Color::black()
                    } else {
                        Color::white()
                    },
                )
            },
            ColorScheme::Grayscale2Bit => {
                let val = self.bits(2)?;
                let gray = (val * 85) as u8;
                Ok(Color::new(gray, gray, gray))
            },
            ColorScheme::Predefined2Bit => {
                let val = self.bits(2)?;
                Ok(
                    if val == 0 {
                        Color::white()
                    } else if val == 1 {
                        Color::new(255, 0, 0)
                    } else if val == 2 {
                        Color::new(0, 255, 0)
                    } else {
                        Color::new(0, 0, 255)
                    },
                )
            },
            ColorScheme::Rgb6Bit => {
                let rgb = self.bits(6)?;
                Ok(rgb6(rgb))
            },
            ColorScheme::Websafe => {
                let index = self.bits(8)?;
                Ok(websafe_color(index as usize))
            },
            ColorScheme::Rgb12Bit => {
                let rgb = self.bits(12)?;
                let r = (((rgb / 256) % 16) * 17) as u8;
                let g = (((rgb / 16) % 16) * 17) as u8;
                let b = ((rgb % 16) * 17) as u8;
                Ok(Color::new(r, g, b))
            },
            ColorScheme::Rgb24Bit => {
                let r = self.bits(8)? as u8;
                let g = self.bits(8)? as u8;
                let b = self.bits(8)? as u8;
                Ok(Color::new(r, g, b))
            },
            ColorScheme::Rgb6BitPalette => { Ok(Color::black()) },
            ColorScheme::WebsafePalette => { Ok(Color::black()) },
        }
    }
}

impl<'a> WvgParser<'a> {
    fn parse_codec_parameters(&mut self) -> (r: WvgResult<(CodecParams, Option<AnimationMode>)>)
        requires
            old(self).bs.wf(),
            old(self).element_index == old(self).elements@.len(),
        ensures
            final(self).bs.wf(),
            final(self).bs.bytes() == old(self).bs.bytes(),
            final(self).elements == old(self).elements,
            r is Err ==> (r->Err_0 is EndOfStream && final(self).at_end()) || r->Err_0
                is UnsupportedFeature,
            match r {
                Ok(c) => {
                    &&& spec_codec_parameters(old(self).input(), old(self).at()) == Ok::<
                        ((crate::types::CodecParamsView, Option<AnimationMode>), nat),
                        WvgError,
                    >(((c.0@, c.1), final(self).at()))
                    &&& final(self).ready()
                    &&& final(self).ctx() == context_of(c.0@)
                },
                Err(e) => spec_codec_parameters(old(self).input(), old(self).at()) == Err::<
                    ((crate::types::CodecParamsView, Option<AnimationMode>), nat),
                    WvgError,
                >(e),
            },
    {
        proof {
            reveal(spec_codec_parameters);
        }
        let masks = self.parse_element_mask()?;
        let attribute_masks = self.parse_attribute_mask()?;
        let generic_params = self.parse_generic_parameters(&masks)?;
        let coord_params = self.parse_coordinate_parameters()?;
        let animation_mode = self.parse_animation_settings(&masks)?;
        self.element_masks = copy_flags(&masks);
        self.attribute_masks = attribute_masks;
        self.generic_params = generic_params;
        self.is_compact = false;
        self.flat_params = match coord_params {
            CoordinateParams::Flat(f) => Some(f),
            CoordinateParams::Compact(_) => None,
        };
        Ok(
            (
                CodecParams { element_masks: masks, attribute_masks, generic_params, coord_params },
                animation_mode,
            ),
        )
    }

    #[verifier::loop_isolation(false)]
    fn parse_element_mask(&mut self) -> (r: WvgResult<Vec<bool>>)
        requires
            old(self).bs.wf(),
        ensures
            final(self).kept(*old(self)),
            r is Err ==> r->Err_0 is EndOfStream && final(self).at_end(),
            match r {
                Ok(masks) => spec_element_mask(old(self).input(), old(self).at()) == Ok::<
                    (Seq<bool>, nat),
                    WvgError,
                >((masks@, final(self).at())),
                Err(e) => spec_element_mask(old(self).input(), old(self).at()) == Err::<
                    (Seq<bool>, nat),
                    WvgError,
                >(e),
            },
    {
        proof {
            reveal(spec_element_mask);
        }
        let ghost start = self.at();
        let ghost data = self.input();
        proof {
            self.bs.lemma_position_in_bounds();
        }
        let mut masks: Vec<bool> = Vec::new();
        let mut i: usize = 0;
        while i < 8
            invariant
                i <= 8,
                self.kept(*old(self)),
                data == old(self).input(),
                start == old(self).at(),
                self.at() == start + i,
                self.at() <= 8 * data.len(),
                masks@.len() == i,
                forall|j: int| 0 <= j < i ==> masks@[j] == flag_at(data, (start + j) as nat),
            decreases 8 - i,
        {
            let f = match self.flag() {
                Ok(f) => f,
                Err(e) => {
                    return Err(e);
                },
            };
            masks.push(f);
            i = i + 1;
        }
        let has_extension = self.flag()?;
        if has_extension {
            let mut k: usize = 0;
            while k < 5
                invariant
                    k <= 5,
                    self.kept(*old(self)),
                    data == old(self).input(),
                    start == old(self).at(),
                    start + 9 <= 8 * data.len(),
                    flag_at(data, start + 8),
                    self.at() == start + 9 + k,
                    self.at() <= 8 * data.len(),
                    masks@.len() == 8 + k,
                    forall|j: int| 0 <= j < 8 ==> masks@[j] == flag_at(data, (start + j) as nat),
                    forall|j: int|
                        8 <= j < 8 + k ==> masks@[j] == flag_at(data, (start + j + 1) as nat),
                decreases 5 - k,
            {
                let f = match self.flag() {
                    Ok(f) => f,
                    Err(e) => {
                        return Err(e);
                    },
                };
                masks.push(f);
                k = k + 1;
            }
        }
        proof {
            let expected = spec_element_mask(data, start);
            assert(expected is Ok);
            assert(expected->Ok_0.0 =~= masks@);
        }
        Ok(masks)
    }

    fn parse_attribute_mask(&mut self) -> (r: WvgResult<AttributeMasks>)
        requires
            old(self).bs.wf(),
        ensures
            final(self).kept(*old(self)),
            r is Err ==> r->Err_0 is EndOfStream && final(self).at_end(),
            agrees(r, final(self).at(), spec_attribute_mask(old(self).input(), old(self).at())),
    {
        proof {
            reveal(spec_attribute_mask);
        }
        let line_type = self.flag()?;
        let line_width = self.flag()?;
        let line_color = self.flag()?;
        let fill = self.flag()?;
        Ok(AttributeMasks { line_type, line_width, line_color, fill })
    }

    fn parse_resolution_and_width(
        &mut self,
        width_bits: u8,
        default_resolution: Resolution,
        default_width: u8,
    ) -> (r: WvgResult<(Resolution, u8)>)
        requires
            old(self).bs.wf(),
            width_bits <= 4,
            default_width < pow2(width_bits as nat),
        ensures
            final(self).kept(*old(self)),
            r is Err ==> r->Err_0 is EndOfStream && final(self).at_end(),
            agrees(
                r,
                final(self).at(),
                spec_resolution_and_width(
                    old(self).input(),
                    old(self).at(),
                    width_bits as nat,
                    default_resolution,
                    default_width,
                ),
            ),
            r is Ok ==> r->Ok_0.1 < pow2(width_bits as nat),
    {
        proof {
            reveal(spec_resolution_and_width);
            lemma2_to64();
            lemma_pow2_monotonic(width_bits as nat, 4);
        }
        if self.flag()? {
            let resolution = Resolution::from_code(self.bits(2)?);
            let width = self.bits(width_bits)? as u8;
            Ok((resolution, width))
        } else {
            Ok((default_resolution, default_width))
        }
    }

    fn parse_index_width(&mut self) -> (r: WvgResult<u8>)
        requires
            old(self).bs.wf(),
        ensures
            final(self).kept(*old(self)),
            r is Err ==> r->Err_0 is EndOfStream && final(self).at_end(),
            agrees(r, final(self).at(), spec_index_width(old(self).input(), old(self).at())),
            r is Ok ==> r->Ok_0 <= 15,
    {
        proof {
            reveal(spec_index_width);
            lemma2_to64();
        }
        if self.flag()? {
            let v = self.bits(4)? as u8;
            Ok(v)
        } else {
            Ok(2)
        }
    }

    fn parse_curve_offset_width(&mut self, masks: &Vec<bool>) -> (r: WvgResult<Option<u8>>)
        requires
            old(self).bs.wf(),
        ensures
            final(self).kept(*old(self)),
            r is Err ==> r->Err_0 is EndOfStream && final(self).at_end(),
            agrees(
                r,
                final(self).at(),
                spec_curve_offset_width(old(self).input(), old(self).at(), masks@),
            ),
            r is Ok ==> match r->Ok_0 {
                Some(b) => b <= 1,
                None => true,
            },
    {
        proof {
            reveal(spec_curve_offset_width);
        }
        let has_circular = masks.len() > 2 && masks[2];
        let has_polygon = masks.len() > 8 && masks[8];
        if has_circular || has_polygon {
            proof {
                crate::bitstream::lemma_bit_at_range(old(self).input(), old(self).at());
                self.bs.lemma_position_in_bounds();
            }
            let b = self.bs.read_bit()?;
            Ok(Some(b))
        } else {
            Ok(None)
        }
    }

    fn parse_generic_parameters(&mut self, masks: &Vec<bool>) -> (r: WvgResult<GenericParams>)
        requires
            old(self).bs.wf(),
        ensures
            final(self).kept(*old(self)),
            r is Err ==> r->Err_0 is EndOfStream && final(self).at_end(),
            agrees(
                r,
                final(self).at(),
                spec_generic_parameters(old(self).input(), old(self).at(), masks@),
            ),
            r is Ok ==> generic_bounded(r->Ok_0),
    {
        proof {
            reveal(spec_generic_parameters);
            lemma2_to64();
        }
        let angle = self.parse_resolution_and_width(3, Resolution::Eighth, 2)?;
        let scale = self.parse_resolution_and_width(4, Resolution::Full, 2)?;
        let index_in_bits = self.parse_index_width()?;
        let curve_offset_in_bits = self.parse_curve_offset_width(masks)?;
        Ok(
            GenericParams {
                angle_resolution: angle.0,
                angle_in_bits: angle.1,
                scale_resolution: scale.0,
                scale_in_bits: scale.1,
                index_in_bits,
                curve_offset_in_bits,
            },
        )
    }

    fn parse_coordinate_parameters(&mut self) -> (r: WvgResult<CoordinateParams>)
        requires
            old(self).bs.wf(),
        ensures
            final(self).kept(*old(self)),
            agrees(
                r,
                final(self).at(),
                spec_coordinate_parameters(old(self).input(), old(self).at()),
            ),
            r is Ok ==> r->Ok_0 is Flat && flat_bounded(r->Ok_0->Flat_0),
            r is Err ==> (r->Err_0 is EndOfStream && final(self).at_end()) || (r->Err_0
                is UnsupportedFeature && final(self).at() == old(self).at() + 1),
    {
        proof {
            reveal(spec_coordinate_parameters);
        }
        let compact = self.flag()?;
        if compact {
            return Err(WvgError::UnsupportedFeature(UnsupportedFeature::CompactCoordinateMode));
        }
        let params = self.parse_flat_coordinate_parameters()?;
        Ok(CoordinateParams::Flat(params))
    }

    fn parse_flat_coordinate_parameters(&mut self) -> (r: WvgResult<FlatCoordinateParams>)
        requires
            old(self).bs.wf(),
        ensures
            final(self).kept(*old(self)),
            r is Err ==> r->Err_0 is EndOfStream && final(self).at_end(),
            agrees(
                r,
                final(self).at(),
                spec_flat_coordinate_parameters(old(self).input(), old(self).at()),
            ),
            r is Ok ==> flat_bounded(r->Ok_0),
    {
        proof {
            reveal(spec_flat_coordinate_parameters);
            lemma2_to64();
        }
        let drawing_width = self.bits(16)? as u16;
        let drawing_height = if self.flag()? {
            self.bits(16)? as u16
        } else {
            drawing_width
        };
        let max_x_in_bits = self.bits(4)? as u8;
        let max_y_in_bits = self.bits(4)? as u8;
        let xy_all_positive = self.flag()?;
        let trans_xy_in_bits = self.bits(4)? as u8;
        let num_points_in_bits = self.bits(4)? as u8;
        let offset_x_in_bits_level1 = self.bits(4)? as u8;
        let offset_y_in_bits_level1 = self.bits(4)? as u8;
        let offset_x_in_bits_level2 = self.bits(4)? as u8;
        let offset_y_in_bits_level2 = self.bits(4)? as u8;
        Ok(
            FlatCoordinateParams {
                drawing_width,
                drawing_height,
                max_x_in_bits,
                max_y_in_bits,
                xy_all_positive,
                trans_xy_in_bits,
                num_points_in_bits,
                offset_x_in_bits_level1,
                offset_y_in_bits_level1,
                offset_x_in_bits_level2,
                offset_y_in_bits_level2,
            },
        )
    }

    fn parse_animation_settings(&mut self, masks: &Vec<bool>) -> (r: WvgResult<
        Option<AnimationMode>,
    >)
        requires
            old(self).bs.wf(),
        ensures
            final(self).kept(*old(self)),
            r is Err ==> r->Err_0 is EndOfStream && final(self).at_end(),
            agrees(
                r,
                final(self).at(),
                spec_animation_settings(old(self).input(), old(self).at(), masks@),
            ),
    {
        proof {
            reveal(spec_animation_settings);
        }
        let has_animation = masks.len() > 7 && masks[7];
        if has_animation {
            let standard = self.flag()?;
            Ok(
                Some(
                    if standard {
                        AnimationMode::Standard
                    } else {
                        AnimationMode::Simple
                    },
                ),
            )
        } else {
            Ok(None)
        }
    }

    #[verifier::loop_isolation(false)]
    fn parse_elements(&mut self) -> (r: WvgResult<()>)
        requires
            old(self).ready(),
            old(self).elements@.len() == 0,
        ensures
            match r {
                Ok(_) => spec_elements(old(self).input(), old(self).at(), old(self).ctx()) == Ok::<
                    (Seq<WvgElementView>, nat),
                    WvgError,
                >((element_views(final(self).elements@), final(self).at())),
                Err(e) => spec_elements(old(self).input(), old(self).at(), old(self).ctx()) == Err::<
                    (Seq<WvgElementView>, nat),
                    WvgError,
                >(e),
            },
            final(self).kept_setup(*old(self)),
            r is Err && r->Err_0 is EndOfStream ==> final(self).at_end(),
            r is Ok ==> forall|j: int|
                0 <= j < final(self).elements@.len() ==> element_renderable(
                    #[trigger] element_views(final(self).elements@)[j],
                ),
    {
        proof {
            reveal(spec_elements);
            lemma2_to64();
        }
        let long = self.flag()?;
        let num_elements = if long {
            self.bits(15)?
        } else {
            self.bits(7)?
        };
        let ghost data = self.input();
        let ghost ctx = self.ctx();
        let ghost start = self.at();
        assert(element_views(self.elements@) =~= Seq::empty());
        let mut i: u32 = 0;
        while i < num_elements
            invariant
                i <= num_elements < 32768,
                self.ready(),
                self.kept_setup(*old(self)),
                data == self.input(),
                ctx == self.ctx(),
                self.elements@.len() == i,
                forall|j: int|
                    0 <= j < i ==> element_renderable(#[trigger] element_views(self.elements@)[j]),
                spec_elements_from(data, start, ctx, Seq::empty(), num_elements as nat)
                    == spec_elements_from(
                    data,
                    self.at(),
                    ctx,
                    element_views(self.elements@),
                    (num_elements - i) as nat,
                ),
            decreases num_elements - i,
        {
            match self.parse_element() {
                Ok(_) => {},
                Err(e) => {
                    return Err(e);
                },
            }
            i = i + 1;
        }
        Ok(())
    }

    /// Decodes one element and adds it to the element list.
    ///
    /// On failure the list is as it was, and the cursor rests where the
    /// failure was met: right behind the type index where the index names
    /// no enabled kind or a kind that is not decoded, right behind a reuse
    /// index that refers to nothing, and at the end of the input where the
    /// input ran out.
    fn parse_element(&mut self) -> (r: WvgResult<()>)
        requires
            old(self).ready(),
            old(self).elements@.len() < 32768,
        ensures
            final(self).kept_setup(*old(self)),
            match r {
                Ok(_) => {
                    &&& final(self).ready()
                    &&& element_renderable(final(self).elements@.last()@)
                    &&& final(self).elements@.len() == old(self).elements@.len() + 1
                    &&& element_views(final(self).elements@) == element_views(
                        old(self).elements@,
                    ).push(final(self).elements@.last()@)
                    &&& spec_element(
                        old(self).input(),
                        old(self).at(),
                        old(self).ctx(),
                        old(self).elements@.len(),
                    ) == Ok::<(WvgElementView, nat), WvgError>(
                        (final(self).elements@.last()@, final(self).at()),
                    )
                },
                Err(e) => {
                    &&& spec_element(
                        old(self).input(),
                        old(self).at(),
                        old(self).ctx(),
                        old(self).elements@.len(),
                    ) == Err::<(WvgElementView, nat), WvgError>(e)
                    &&& final(self).elements == old(self).elements
                    &&& final(self).element_index == old(self).element_index
                    &&& (e is UnsupportedFeature || e is InvalidElementType || stops_at_type_index(
                        old(self).input(),
                        old(self).at(),
                        old(self).element_masks@,
                    )) ==> final(self).at() == old(self).at() + type_index_bits(
                        count_active(old(self).element_masks@),
                    )
                    &&& e is EndOfStream ==> final(self).at_end()
                    &&& e is ElementIndexOutOfBounds ==> final(self).at() == old(self).at()
                        + type_index_bits(count_active(old(self).element_masks@)) + old(self).generic_params.index_in_bits + 1
                },
            },
    {
        proof {
            reveal(spec_element);
            self.bs.lemma_position_in_bounds();
        }
        let ones_count = count_enabled(&self.element_masks);
        let bits = element_type_bits(ones_count);
        let elem_type_idx = if bits > 0 {
            self.bits(bits)?
        } else {
            0
        };
        let actual_type = match kind_of_index(&self.element_masks, elem_type_idx) {
            Some(t) => t,
            None => {
                return Err(WvgError::InvalidElementType(elem_type_idx));
            },
        };
        let mut element_id = String::new();
        element_id.append("el_");
        push_nat(&mut element_id, self.element_index as u64);
        assert(element_id@ =~= element_id_text(self.element_index as nat));
        let element_data = self.parse_element_body(actual_type)?;
        self.element_index = self.element_index + 1;
        self.elements.push(WvgElement { id: element_id, data: element_data });
        assert(element_views(self.elements@) =~= element_views(old(self).elements@).push(
            self.elements@.last()@,
        ));
        Ok(())
    }

    /// Decodes the body of an element of the given kind. A kind that is
    /// not decoded fails on the spot: nothing is read for it.
    fn parse_element_body(&mut self, kind: usize) -> (r: WvgResult<ElementData>)
        requires
            old(self).ready(),
        ensures
            final(self).kept_context(*old(self)),
            match r {
                Ok(d) => spec_element_body(
                    old(self).input(),
                    old(self).at(),
                    old(self).ctx(),
                    kind as nat,
                    old(self).elements@.len(),
                ) == Ok::<(ElementDataView, nat), WvgError>((d@, final(self).at())),
                Err(e) => spec_element_body(
                    old(self).input(),
                    old(self).at(),
                    old(self).ctx(),
                    kind as nat,
                    old(self).elements@.len(),
                ) == Err::<(ElementDataView, nat), WvgError>(e),
            },
            r is Ok ==> data_renderable(r->Ok_0@) && kind_decoded(kind as nat),
            r is Err && kind_decoded(kind as nat) ==> (r->Err_0 is EndOfStream && final(self).at_end()) || (r->Err_0 is ElementIndexOutOfBounds && final(self).at() == old(self).at() + old(self).generic_params.index_in_bits + 1),
            !kind_decoded(kind as nat) ==> r is Err && (r->Err_0 is UnsupportedFeature || r->Err_0
                is InvalidElementType) && final(self).at() == old(self).at(),
    {
        proof {
            reveal(spec_element_body);
        }
        if kind == 0 {
            Err(WvgError::UnsupportedFeature(UnsupportedFeature::LocalEnvelope))
        } else if kind == 1 {
            self.parse_polyline_element()
        } else if kind == 2 {
            self.parse_circular_polyline_element()
        } else if kind == 3 {
            Err(WvgError::UnsupportedFeature(UnsupportedFeature::BezierPolyline))
        } else if kind == 4 {
            self.parse_simple_shape_element()
        } else if kind == 5 {
            self.parse_reuse_element()
        } else if kind == 6 {
            self.parse_group_element()
        } else if kind == 7 {
            Err(WvgError::UnsupportedFeature(UnsupportedFeature::SimpleAnimation))
        } else if kind == 8 {
            Err(WvgError::UnsupportedFeature(UnsupportedFeature::Polygon))
        } else if kind == 9 {
            Err(WvgError::UnsupportedFeature(UnsupportedFeature::SpecialShape))
        } else if kind == 10 {
            Err(WvgError::UnsupportedFeature(UnsupportedFeature::FrameElement))
        } else if kind == 11 {
            Err(WvgError::UnsupportedFeature(UnsupportedFeature::TextElement))
        } else if kind == 12 {
            Err(WvgError::UnsupportedFeature(UnsupportedFeature::ExtendedElement))
        } else {
            Err(WvgError::InvalidElementType(kind as u32))
        }
    }

    fn parse_basic_element_header(&mut self) -> (r: WvgResult<ElementAttributes>)
        requires
            old(self).ready(),
        ensures
            final(self).kept_context(*old(self)),
            r is Err ==> r->Err_0 is EndOfStream && final(self).at_end(),
            match r {
                Ok(a) => spec_basic_element_header(
                    old(self).input(),
                    old(self).at(),
                    old(self).ctx().attributes,
                ) == Ok::<(ElementHeader, nat), WvgError>(
                    (
                        ElementHeader {
                            offset_x_use: final(self).offset_x_use,
                            offset_y_use: final(self).offset_y_use,
                            attributes: a,
                        },
                        final(self).at(),
                    ),
                ),
                Err(e) => spec_basic_element_header(
                    old(self).input(),
                    old(self).at(),
                    old(self).ctx().attributes,
                ) == Err::<(ElementHeader, nat), WvgError>(e),
            },
    {
        proof {
            reveal(spec_basic_element_header);
        }
        if self.is_compact {
            return Err(WvgError::UnsupportedFeature(UnsupportedFeature::CompactCoordinateMode));
        }
        let x_use = self.flag()?;
        let y_use = self.flag()?;
        self.offset_x_use = x_use;
        self.offset_y_use = y_use;
        let has_any_attr = self.attribute_masks.line_type || self.attribute_masks.line_width
            || self.attribute_masks.line_color || self.attribute_masks.fill;
        let mut attributes = ElementAttributes::default();
        if has_any_attr {
            let has_attributes = self.flag()?;
            if has_attributes {
                attributes = self.parse_attributes_set()?;
            }
        }
        Ok(attributes)
    }

    fn parse_masked_code(&mut self, enabled: bool) -> (r: WvgResult<Option<u32>>)
        requires
            old(self).bs.wf(),
        ensures
            final(self).kept(*old(self)),
            r is Err ==> r->Err_0 is EndOfStream && final(self).at_end(),
            agrees(
                r,
                final(self).at(),
                spec_masked_code(old(self).input(), old(self).at(), enabled),
            ),
    {
        proof {
            reveal(spec_masked_code);
        }
        if enabled {
            let v = self.bits(2)?;
            Ok(Some(v))
        } else {
            Ok(None)
        }
    }

    fn parse_line_color_attribute(&mut self, enabled: bool, width: Option<LineWidth>) -> (r:
        WvgResult<Option<Color>>)
        requires
            old(self).bs.wf(),
        ensures
            final(self).kept(*old(self)),
            r is Err ==> r->Err_0 is EndOfStream && final(self).at_end(),
            agrees(
                r,
                final(self).at(),
                spec_line_color_attribute(old(self).input(), old(self).at(), enabled, width),
            ),
    {
        proof {
            reveal(spec_line_color_attribute);
        }
        let no_line = match width {
            Some(LineWidth::NoLine) => true,
            _ => false,
        };
        if enabled && !no_line {
            if self.flag()? {
                Ok(Some(Color::black()))
            } else {
                Ok(None)
            }
        } else {
            Ok(None)
        }
    }

    fn parse_fill_attribute(&mut self, enabled: bool) -> (r: WvgResult<
        (Option<bool>, Option<Color>),
    >)
        requires
            old(self).bs.wf(),
        ensures
            final(self).kept(*old(self)),
            r is Err ==> r->Err_0 is EndOfStream && final(self).at_end(),
            agrees(
                r,
                final(self).at(),
                spec_fill_attribute(old(self).input(), old(self).at(), enabled),
            ),
    {
        proof {
            reveal(spec_fill_attribute);
        }
        if enabled {
            if self.flag()? {
                if self.flag()? {
                    Ok((Some(true), Some(Color::black())))
                } else {
                    Ok((Some(true), None))
                }
            } else {
                Ok((Some(false), None))
            }
        } else {
            Ok((None, None))
        }
    }

    /// Reads the attributes that the attribute mask enables. Colors are
    /// not decoded: a color that is present comes back black.
    fn parse_attributes_set(&mut self) -> (r: WvgResult<ElementAttributes>)
        requires
            old(self).bs.wf(),
        ensures
            final(self).kept(*old(self)),
            r is Err ==> r->Err_0 is EndOfStream && final(self).at_end(),
            agrees(
                r,
                final(self).at(),
                spec_attributes_set(old(self).input(), old(self).at(), old(self).attribute_masks),
            ),
    {
        proof {
            reveal(spec_attributes_set);
        }
        let line_type = match self.parse_masked_code(self.attribute_masks.line_type)? {
            Some(c) => Some(LineType::from(c)),
            None => None,
        };
        let line_width = match self.parse_masked_code(self.attribute_masks.line_width)? {
            Some(c) => Some(LineWidth::from(c)),
            None => None,
        };
        let line_color = self.parse_line_color_attribute(
            self.attribute_masks.line_color,
            line_width,
        )?;
        let fill = self.parse_fill_attribute(self.attribute_masks.fill)?;
        Ok(ElementAttributes { line_type, line_width, line_color, fill: fill.0, fill_color: fill.1 })
    }

    #[verifier::loop_isolation(false)]
    fn parse_polyline_element(&mut self) -> (r: WvgResult<ElementData>)
        requires
            old(self).ready(),
        ensures
            final(self).kept_context(*old(self)),
            r is Err ==> r->Err_0 is EndOfStream && final(self).at_end(),
            match r {
                Ok(d) => spec_polyline_element(old(self).input(), old(self).at(), old(self).ctx())
                    == Ok::<(ElementDataView, nat), WvgError>((d@, final(self).at())),
                Err(e) => spec_polyline_element(old(self).input(), old(self).at(), old(self).ctx())
                    == Err::<(ElementDataView, nat), WvgError>(e),
            },
            r is Ok ==> data_renderable(r->Ok_0@),
    {
        proof {
            reveal(spec_polyline_element);
            lemma2_to64();
        }
        let attributes = self.parse_basic_element_header()?;
        let flat = self.flat();
        proof {
            lemma_pow2_monotonic(flat.num_points_in_bits as nat, 15);
        }
        let num_points = self.bits(flat.num_points_in_bits)?;
        let first_point = self.parse_point()?;
        let ghost data = self.input();
        let ghost start = self.at();
        let ghost x_use = self.offset_x_use;
        let ghost y_use = self.offset_y_use;
        let mut points: Vec<Point> = Vec::new();
        points.push(first_point);
        assert(points@ =~= seq![first_point]);
        let mut i: u32 = 0;
        while i < num_points
            invariant
                i <= num_points < 32768,
                self.ready(),
                self.kept_context(*old(self)),
                data == self.input(),
                flat == self.flat_params->0,
                x_use == self.offset_x_use,
                y_use == self.offset_y_use,
                points@.len() == i + 1,
                -32768 - 16384 * i <= points@.last().x <= 32767 + 16384 * i,
                -32768 - 16384 * i <= points@.last().y <= 32767 + 16384 * i,
                spec_polyline_points(
                    data,
                    start,
                    flat,
                    x_use,
                    y_use,
                    seq![first_point],
                    num_points as nat,
                ) == spec_polyline_points(
                    data,
                    self.at(),
                    flat,
                    x_use,
                    y_use,
                    points@,
                    (num_points - i) as nat,
                ),
            decreases num_points - i,
        {
            let (dx, dy) = match self.parse_offset() {
                Ok(d) => d,
                Err(e) => {
                    return Err(e);
                },
            };
            let last = points[points.len() - 1];
            points.push(Point::new(last.x + dx, last.y + dy));
            i = i + 1;
        }
        Ok(ElementData::Polyline(PolylineElement { attributes, points }))
    }

    fn parse_circular_polyline_element(&mut self) -> (r: WvgResult<ElementData>)
        requires
            old(self).ready(),
        ensures
            final(self).kept_context(*old(self)),
            r is Err ==> r->Err_0 is EndOfStream && final(self).at_end(),
            match r {
                Ok(d) => spec_circular_polyline_element(
                    old(self).input(),
                    old(self).at(),
                    old(self).ctx(),
                ) == Ok::<(ElementDataView, nat), WvgError>((d@, final(self).at())),
                Err(e) => spec_circular_polyline_element(
                    old(self).input(),
                    old(self).at(),
                    old(self).ctx(),
                ) == Err::<(ElementDataView, nat), WvgError>(e),
            },
            r is Ok ==> data_renderable(r->Ok_0@),
    {
        proof {
            reveal(spec_circular_polyline_element);
            lemma2_to64();
        }
        let attributes = self.parse_basic_element_header()?;
        let curve_hint = self.flag()?;
        let flat = self.flat();
        proof {
            lemma_pow2_monotonic(flat.num_points_in_bits as nat, 15);
        }
        let num_points = self.bits(flat.num_points_in_bits)?;
        let head = self.parse_circular_start(curve_hint)?;
        let points = self.parse_circular_points(curve_hint, num_points, head)?;
        Ok(ElementData::CircularPolyline(CircularPolylineElement { attributes, points }))
    }

    /// Reads the two absolute points that open a circular polyline.
    fn parse_circular_start(&mut self, curve_hint: bool) -> (r: WvgResult<Vec<CircularPoint>>)
        requires
            old(self).ready(),
        ensures
            final(self).kept(*old(self)),
            r is Err ==> r->Err_0 is EndOfStream && final(self).at_end(),
            match r {
                Ok(head) => {
                    &&& spec_circular_start(
                        old(self).input(),
                        old(self).at(),
                        old(self).ctx(),
                        curve_hint,
                    ) == Ok::<(Seq<CircularPoint>, nat), WvgError>((head@, final(self).at()))
                    &&& head@.len() == 2
                    &&& circular_point_renderable(head@, 0)
                    &&& circular_point_renderable(head@, 1)
                    &&& -32768 <= circular_x(head@, 1) <= 32767
                    &&& -32768 <= circular_y(head@, 1) <= 32767
                },
                Err(e) => spec_circular_start(
                    old(self).input(),
                    old(self).at(),
                    old(self).ctx(),
                    curve_hint,
                ) == Err::<(Seq<CircularPoint>, nat), WvgError>(e),
            },
    {
        proof {
            reveal(spec_circular_start);
        }
        let first_pt = self.parse_point()?;
        let offset = self.parse_curve_offset(curve_hint)?;
        let second_pt = self.parse_point()?;
        let mut points: Vec<CircularPoint> = Vec::new();
        points.push(CircularPoint { curve_offset: 0, point: first_pt, is_absolute: true });
        points.push(
            CircularPoint { curve_offset: offset as i8, point: second_pt, is_absolute: true },
        );
        assert(points@ =~= seq![
            CircularPoint { curve_offset: 0, point: first_pt, is_absolute: true },
            CircularPoint { curve_offset: offset as i8, point: second_pt, is_absolute: true },
        ]);
        Ok(points)
    }

    /// Reads the relative points of a circular polyline and adds them to
    /// the two points that open it.
    #[verifier::loop_isolation(false)]
    fn parse_circular_points(
        &mut self,
        curve_hint: bool,
        num_points: u32,
        head: Vec<CircularPoint>,
    ) -> (r: WvgResult<Vec<CircularPoint>>)
        requires
            old(self).ready(),
            num_points < 32768,
            head@.len() == 2,
            circular_point_renderable(head@, 0),
            circular_point_renderable(head@, 1),
            -32768 <= circular_x(head@, 1) <= 32767,
            -32768 <= circular_y(head@, 1) <= 32767,
        ensures
            final(self).kept(*old(self)),
            r is Err ==> r->Err_0 is EndOfStream && final(self).at_end(),
            match r {
                Ok(points) => {
                    &&& spec_circular_points(
                        old(self).input(),
                        old(self).at(),
                        old(self).ctx(),
                        old(self).offset_x_use,
                        old(self).offset_y_use,
                        curve_hint,
                        head@,
                        num_points as nat,
                    ) == Ok::<(Seq<CircularPoint>, nat), WvgError>((points@, final(self).at()))
                    &&& points@.len() >= 2
                    &&& forall|j: int|
                        0 <= j < points@.len() ==> circular_point_renderable(points@, j)
                },
                Err(e) => spec_circular_points(
                    old(self).input(),
                    old(self).at(),
                    old(self).ctx(),
                    old(self).offset_x_use,
                    old(self).offset_y_use,
                    curve_hint,
                    head@,
                    num_points as nat,
                ) == Err::<(Seq<CircularPoint>, nat), WvgError>(e),
            },
    {
        let ghost data = self.input();
        let ghost ctx = self.ctx();
        let ghost start = self.at();
        let ghost x_use = self.offset_x_use;
        let ghost y_use = self.offset_y_use;
        let ghost first = head@;
        let mut points = head;
        let mut i: u32 = 0;
        while i < num_points
            invariant
                i <= num_points < 32768,
                self.ready(),
                self.kept(*old(self)),
                data == self.input(),
                ctx == self.ctx(),
                x_use == self.offset_x_use,
                y_use == self.offset_y_use,
                points@.len() == i + 2,
                forall|j: int| 0 <= j < i + 2 ==> circular_point_renderable(points@, j),
                -32768 - 16384 * i <= circular_x(points@, i + 1) <= 32767 + 16384 * i,
                -32768 - 16384 * i <= circular_y(points@, i + 1) <= 32767 + 16384 * i,
                spec_circular_points(
                    data,
                    start,
                    ctx,
                    x_use,
                    y_use,
                    curve_hint,
                    first,
                    num_points as nat,
                ) == spec_circular_points(
                    data,
                    self.at(),
                    ctx,
                    x_use,
                    y_use,
                    curve_hint,
                    points@,
                    (num_points - i) as nat,
                ),
            decreases num_points - i,
        {
            let offset = match self.parse_curve_offset(curve_hint) {
                Ok(o) => o,
                Err(e) => {
                    return Err(e);
                },
            };
            let (dx, dy) = match self.parse_offset() {
                Ok(d) => d,
                Err(e) => {
                    return Err(e);
                },
            };
            let ghost earlier = points@;
            let next = CircularPoint {
                curve_offset: offset as i8,
                point: Point::new(dx, dy),
                is_absolute: false,
            };
            points.push(next);
            proof {
                lemma_circular_prefix(earlier, next, i + 1);
                assert forall|j: int| 0 <= j < i + 3 implies circular_point_renderable(
                    points@,
                    j,
                ) by {
                    if j < i + 2 {
                        lemma_circular_prefix(earlier, next, j);
                        assert(circular_point_renderable(earlier, j));
                    }
                }
            }
            i = i + 1;
        }
        Ok(points)
    }

    /// The flat parameters that the header established.
    fn flat(&self) -> (f: FlatCoordinateParams)
        requires
            self.flat_params is Some,
        ensures
            f == self.flat_params->0,
    {
        match self.flat_params {
            Some(f) => f,
            None => FlatCoordinateParams {
                drawing_width: 0,
                drawing_height: 0,
                max_x_in_bits: 0,
                max_y_in_bits: 0,
                xy_all_positive: false,
                trans_xy_in_bits: 0,
                num_points_in_bits: 0,
                offset_x_in_bits_level1: 0,
                offset_y_in_bits_level1: 0,
                offset_x_in_bits_level2: 0,
                offset_y_in_bits_level2: 0,
            },
        }
    }

    fn parse_curve_offset(&mut self, curve_hint: bool) -> (r: WvgResult<i32>)
        requires
            old(self).ready(),
        ensures
            final(self).kept(*old(self)),
            r is Err ==> r->Err_0 is EndOfStream && final(self).at_end(),
            agrees(
                r,
                final(self).at(),
                spec_curve_offset(
                    old(self).input(),
                    old(self).at(),
                    old(self).generic_params,
                    curve_hint,
                ),
            ),
            r is Ok ==> -16 <= r->Ok_0 <= 15,
    {
        proof {
            reveal(spec_curve_offset);
            lemma2_to64();
        }
        if curve_hint {
            let has_value = self.flag()?;
            if !has_value {
                return Ok(0);
            }
        }
        let five = match self.generic_params.curve_offset_in_bits {
            Some(b) => b == 1,
            None => false,
        };
        let bits: u8 = if five {
            5
        } else {
            4
        };
        let val = self.signed(bits)?;
        Ok(val)
    }

    fn parse_coordinate(&mut self, bits: u8, all_positive: bool) -> (r: WvgResult<i32>)
        requires
            old(self).bs.wf(),
            bits <= 15,
        ensures
            final(self).kept(*old(self)),
            r is Err ==> r->Err_0 is EndOfStream && final(self).at_end(),
            agrees(
                r,
                final(self).at(),
                spec_coordinate(old(self).input(), old(self).at(), bits as nat, all_positive),
            ),
            r is Ok ==> -32768 <= r->Ok_0 <= 32767,
    {
        proof {
            reveal(spec_coordinate);
            lemma2_to64();
            lemma_pow2_monotonic(bits as nat, 15);
            if bits > 0 {
                lemma_pow2_monotonic((bits - 1) as nat, 15);
            }
        }
        if all_positive {
            let v = self.bits(bits)?;
            Ok(v as i32)
        } else {
            let v = self.signed(bits)?;
            Ok(v)
        }
    }

    fn parse_point(&mut self) -> (r: WvgResult<Point>)
        requires
            old(self).ready(),
        ensures
            final(self).kept(*old(self)),
            r is Err ==> r->Err_0 is EndOfStream && final(self).at_end(),
            agrees(
                r,
                final(self).at(),
                spec_point(old(self).input(), old(self).at(), old(self).flat_params->0),
            ),
            r is Ok ==> -32768 <= r->Ok_0.x <= 32767 && -32768 <= r->Ok_0.y <= 32767,
    {
        proof {
            reveal(spec_point);
        }
        let x = self.parse_x_value()?;
        let y = self.parse_y_value()?;
        Ok(Point::new(x, y))
    }

    fn parse_offset(&mut self) -> (r: WvgResult<(i32, i32)>)
        requires
            old(self).ready(),
        ensures
            final(self).kept(*old(self)),
            r is Err ==> r->Err_0 is EndOfStream && final(self).at_end(),
            agrees(
                r,
                final(self).at(),
                spec_offset(
                    old(self).input(),
                    old(self).at(),
                    old(self).flat_params->0,
                    old(self).offset_x_use,
                    old(self).offset_y_use,
                ),
            ),
            r is Ok ==> -16384 <= r->Ok_0.0 <= 16383 && -16384 <= r->Ok_0.1 <= 16383,
    {
        proof {
            reveal(spec_offset);
        }
        let flat = self.flat();
        let x_bits = if self.offset_x_use {
            flat.offset_x_in_bits_level2
        } else {
            flat.offset_x_in_bits_level1
        };
        let y_bits = if self.offset_y_use {
            flat.offset_y_in_bits_level2
        } else {
            flat.offset_y_in_bits_level1
        };
        proof {
            lemma2_to64();
            if x_bits > 0 {
                lemma_pow2_monotonic((x_bits - 1) as nat, 14);
            }
            if y_bits > 0 {
                lemma_pow2_monotonic((y_bits - 1) as nat, 14);
            }
        }
        let dx = self.signed(x_bits)?;
        let dy = self.signed(y_bits)?;
        Ok((dx, dy))
    }

    /// Reads what is decoded of a simple shape: its header and its kind.
    fn parse_simple_shape_element(&mut self) -> (r: WvgResult<ElementData>)
        requires
            old(self).ready(),
        ensures
            final(self).kept_context(*old(self)),
            r is Err ==> r->Err_0 is EndOfStream && final(self).at_end(),
            match r {
                Ok(d) => spec_simple_shape_element(
                    old(self).input(),
                    old(self).at(),
                    old(self).ctx(),
                ) == Ok::<(ElementDataView, nat), WvgError>((d@, final(self).at())),
                Err(e) => spec_simple_shape_element(
                    old(self).input(),
                    old(self).at(),
                    old(self).ctx(),
                ) == Err::<(ElementDataView, nat), WvgError>(e),
            },
            r is Ok ==> data_renderable(r->Ok_0@),
    {
        proof {
            reveal(spec_simple_shape_element);
        }
        let attributes = self.parse_basic_element_header()?;
        let shape_type = if self.flag()? {
            SimpleShapeType::Ellipse
        } else {
            SimpleShapeType::Rectangle
        };
        Ok(ElementData::SimpleShape(SimpleShapeElement { shape_type, attributes }))
    }

    fn parse_reuse_element(&mut self) -> (r: WvgResult<ElementData>)
        requires
            old(self).ready(),
        ensures
            final(self).kept(*old(self)),
            r is Err ==> (r->Err_0 is EndOfStream && final(self).at_end()) || (r->Err_0
                is ElementIndexOutOfBounds && final(self).at() == old(self).at() + old(self).generic_params.index_in_bits + 1),
            match r {
                Ok(d) => spec_reuse_element(
                    old(self).input(),
                    old(self).at(),
                    old(self).ctx(),
                    old(self).elements@.len(),
                ) == Ok::<(ElementDataView, nat), WvgError>((d@, final(self).at())),
                Err(e) => spec_reuse_element(
                    old(self).input(),
                    old(self).at(),
                    old(self).ctx(),
                    old(self).elements@.len(),
                ) == Err::<(ElementDataView, nat), WvgError>(e),
            },
            r is Ok ==> data_renderable(r->Ok_0@),
    {
        proof {
            reveal(spec_reuse_element);
            reveal(spec_optional_array);
            reveal(spec_optional_overrides);
        }
        let idx_bits = self.generic_params.index_in_bits + 1;
        let raw = self.bits(idx_bits)?;
        let elem_index = resolve_reuse_index(
            raw,
            self.generic_params.index_in_bits,
            self.elements.len(),
        )?;
        let transform = self.parse_transform()?;
        let array_params = if self.flag()? {
            Some(self.parse_array_parameter()?)
        } else {
            None
        };
        let override_attributes = if self.flag()? {
            Some(self.parse_override_attribute_set()?)
        } else {
            None
        };
        Ok(
            ElementData::Reuse(
                ReuseElement {
                    element_index: elem_index,
                    transform,
                    array_params,
                    override_attributes,
                },
            ),
        )
    }

    fn parse_array_parameter(&mut self) -> (r: WvgResult<ArrayParams>)
        requires
            old(self).ready(),
        ensures
            final(self).kept(*old(self)),
            r is Err ==> r->Err_0 is EndOfStream && final(self).at_end(),
            agrees(
                r,
                final(self).at(),
                spec_array_parameter(old(self).input(), old(self).at(), old(self).flat_params->0),
            ),
    {
        proof {
            reveal(spec_array_parameter);
            reveal(spec_array_columns);
            reveal(spec_array_rows);
            lemma2_to64();
        }
        let columns = (self.bits(4)? + 1) as u8;
        let width = if columns > 1 {
            Some(self.parse_x_value()?)
        } else {
            None
        };
        let rows = (self.bits(4)? + 1) as u8;
        let height = if rows > 1 {
            if self.flag()? {
                Some(self.parse_y_value()?)
            } else {
                width
            }
        } else {
            None
        };
        Ok(ArrayParams { columns, rows, width, height })
    }

    fn parse_x_value(&mut self) -> (r: WvgResult<i32>)
        requires
            old(self).ready(),
        ensures
            final(self).kept(*old(self)),
            r is Err ==> r->Err_0 is EndOfStream && final(self).at_end(),
            agrees(
                r,
                final(self).at(),
                spec_x_value(old(self).input(), old(self).at(), old(self).flat_params->0),
            ),
            r is Ok ==> -32768 <= r->Ok_0 <= 32767,
    {
        let flat = self.flat();
        self.parse_coordinate(flat.max_x_in_bits, flat.xy_all_positive)
    }

    fn parse_y_value(&mut self) -> (r: WvgResult<i32>)
        requires
            old(self).ready(),
        ensures
            final(self).kept(*old(self)),
            r is Err ==> r->Err_0 is EndOfStream && final(self).at_end(),
            agrees(
                r,
                final(self).at(),
                spec_y_value(old(self).input(), old(self).at(), old(self).flat_params->0),
            ),
            r is Ok ==> -32768 <= r->Ok_0 <= 32767,
    {
        let flat = self.flat();
        self.parse_coordinate(flat.max_y_in_bits, flat.xy_all_positive)
    }

    fn parse_optional_code(&mut self) -> (r: WvgResult<Option<u32>>)
        requires
            old(self).bs.wf(),
        ensures
            final(self).kept(*old(self)),
            r is Err ==> r->Err_0 is EndOfStream && final(self).at_end(),
            agrees(r, final(self).at(), spec_optional_code(old(self).input(), old(self).at())),
    {
        proof {
            reveal(spec_optional_code);
        }
        let present = self.flag()?;
        self.parse_masked_code(present)
    }

    fn parse_optional_flag(&mut self) -> (r: WvgResult<Option<bool>>)
        requires
            old(self).bs.wf(),
        ensures
            final(self).kept(*old(self)),
            r is Err ==> r->Err_0 is EndOfStream && final(self).at_end(),
            agrees(r, final(self).at(), spec_optional_flag(old(self).input(), old(self).at())),
    {
        proof {
            reveal(spec_optional_flag);
        }
        if self.flag()? {
            let v = self.flag()?;
            Ok(Some(v))
        } else {
            Ok(None)
        }
    }

    fn parse_override_color(&mut self) -> (r: WvgResult<Option<Color>>)
        requires
            old(self).bs.wf(),
        ensures
            final(self).kept(*old(self)),
            r is Err ==> r->Err_0 is EndOfStream && final(self).at_end(),
            agrees(r, final(self).at(), spec_override_color(old(self).input(), old(self).at())),
    {
        proof {
            reveal(spec_override_color);
        }
        if self.flag()? {
            Ok(Some(Color::black()))
        } else {
            Ok(None)
        }
    }

    /// Reads the attribute overrides of a reuse element. Colors are not
    /// decoded: a color that is present comes back black.
    fn parse_override_attribute_set(&mut self) -> (r: WvgResult<ElementAttributes>)
        requires
            old(self).bs.wf(),
        ensures
            final(self).kept(*old(self)),
            r is Err ==> r->Err_0 is EndOfStream && final(self).at_end(),
            agrees(
                r,
                final(self).at(),
                spec_override_attribute_set(old(self).input(), old(self).at()),
            ),
    {
        proof {
            reveal(spec_override_attribute_set);
        }
        let line_type = match self.parse_optional_code()? {
            Some(c) => Some(LineType::from(c)),
            None => None,
        };
        let line_width = match self.parse_optional_code()? {
            Some(c) => Some(LineWidth::from(c)),
            None => None,
        };
        let line_color = self.parse_override_color()?;
        let fill = self.parse_optional_flag()?;
        let fill_color = self.parse_override_color()?;
        Ok(ElementAttributes { line_type, line_width, line_color, fill, fill_color })
    }

    fn parse_group_element(&mut self) -> (r: WvgResult<ElementData>)
        requires
            old(self).ready(),
        ensures
            final(self).kept(*old(self)),
            r is Err ==> r->Err_0 is EndOfStream && final(self).at_end(),
            match r {
                Ok(d) => spec_group_element(old(self).input(), old(self).at(), old(self).ctx())
                    == Ok::<(ElementDataView, nat), WvgError>((d@, final(self).at())),
                Err(e) => spec_group_element(old(self).input(), old(self).at(), old(self).ctx())
                    == Err::<(ElementDataView, nat), WvgError>(e),
            },
            r is Ok ==> data_renderable(r->Ok_0@),
    {
        proof {
            reveal(spec_group_element);
        }
        let end = self.flag()?;
        if !end {
            let transform = if self.flag()? {
                Some(self.parse_transform()?)
            } else {
                None
            };
            let display = self.flag()?;
            Ok(ElementData::GroupStart(GroupStartElement { transform, display }))
        } else {
            Ok(ElementData::GroupEnd)
        }
    }

    fn parse_transform(&mut self) -> (r: WvgResult<Transform>)
        requires
            old(self).ready(),
        ensures
            final(self).kept(*old(self)),
            r is Err ==> r->Err_0 is EndOfStream && final(self).at_end(),
            agrees(
                r,
                final(self).at(),
                spec_transform(old(self).input(), old(self).at(), old(self).ctx()),
            ),
    {
        proof {
            reveal(spec_transform);
            reveal(spec_transform_extension);
        }
        let translate_x = self.parse_optional_translate()?;
        let translate_y = self.parse_optional_translate()?;
        let extended = self.flag()?;
        if extended {
            let angle = self.parse_optional_angle()?;
            let scale_x = self.parse_optional_scale()?;
            let scale_y = self.parse_optional_scale()?;
            let cx = self.parse_optional_translate()?;
            let cy = self.parse_optional_translate()?;
            Ok(Transform { translate_x, translate_y, angle, scale_x, scale_y, cx, cy })
        } else {
            Ok(
                Transform {
                    translate_x,
                    translate_y,
                    angle: None,
                    scale_x: None,
                    scale_y: None,
                    cx: None,
                    cy: None,
                },
            )
        }
    }

    fn parse_optional_translate(&mut self) -> (r: WvgResult<Option<i32>>)
        requires
            old(self).ready(),
        ensures
            final(self).kept(*old(self)),
            r is Err ==> r->Err_0 is EndOfStream && final(self).at_end(),
            agrees(
                r,
                final(self).at(),
                spec_optional_signed(
                    old(self).input(),
                    old(self).at(),
                    old(self).flat_params->0.trans_xy_in_bits as nat,
                ),
            ),
    {
        proof {
            reveal(spec_optional_signed);
        }
        if self.flag()? {
            Ok(Some(self.parse_translate_value()?))
        } else {
            Ok(None)
        }
    }

    fn parse_optional_angle(&mut self) -> (r: WvgResult<Option<i32>>)
        requires
            old(self).ready(),
        ensures
            final(self).kept(*old(self)),
            r is Err ==> r->Err_0 is EndOfStream && final(self).at_end(),
            agrees(
                r,
                final(self).at(),
                spec_optional_signed(
                    old(self).input(),
                    old(self).at(),
                    (old(self).generic_params.angle_in_bits + 1) as nat,
                ),
            ),
    {
        proof {
            reveal(spec_optional_signed);
        }
        if self.flag()? {
            Ok(Some(self.parse_angle_value()?))
        } else {
            Ok(None)
        }
    }

    fn parse_optional_scale(&mut self) -> (r: WvgResult<Option<i32>>)
        requires
            old(self).ready(),
        ensures
            final(self).kept(*old(self)),
            r is Err ==> r->Err_0 is EndOfStream && final(self).at_end(),
            agrees(
                r,
                final(self).at(),
                spec_optional_signed(
                    old(self).input(),
                    old(self).at(),
                    (old(self).generic_params.scale_in_bits + 1) as nat,
                ),
            ),
    {
        proof {
            reveal(spec_optional_signed);
        }
        if self.flag()? {
            Ok(Some(self.parse_scale_value()?))
        } else {
            Ok(None)
        }
    }

    fn parse_translate_value(&mut self) -> (r: WvgResult<i32>)
        requires
            old(self).ready(),
        ensures
            final(self).kept(*old(self)),
            r is Err ==> r->Err_0 is EndOfStream && final(self).at_end(),
            agrees(
                r,
                final(self).at(),
                spec_read_signed_bits(
                    old(self).input(),
                    old(self).at(),
                    old(self).flat_params->0.trans_xy_in_bits as nat,
                ),
            ),
    {
        let flat = self.flat();
        self.signed(flat.trans_xy_in_bits)
    }

    fn parse_angle_value(&mut self) -> (r: WvgResult<i32>)
        requires
            old(self).ready(),
        ensures
            final(self).kept(*old(self)),
            r is Err ==> r->Err_0 is EndOfStream && final(self).at_end(),
            agrees(
                r,
                final(self).at(),
                spec_read_signed_bits(
                    old(self).input(),
                    old(self).at(),
                    (old(self).generic_params.angle_in_bits + 1) as nat,
                ),
            ),
    {
        let bits = self.generic_params.angle_in_bits + 1;
        self.signed(bits)
    }

    fn parse_scale_value(&mut self) -> (r: WvgResult<i32>)
        requires
            old(self).ready(),
        ensures
            final(self).kept(*old(self)),
            r is Err ==> r->Err_0 is EndOfStream && final(self).at_end(),
            agrees(
                r,
                final(self).at(),
                spec_read_signed_bits(
                    old(self).input(),
                    old(self).at(),
                    (old(self).generic_params.scale_in_bits + 1) as nat,
                ),
            ),
    {
        let bits = self.generic_params.scale_in_bits + 1;
        self.signed(bits)
    }
}

/// A copy of a list of flags.
fn copy_flags(flags: &Vec<bool>) -> (r: Vec<bool>)
    ensures
        r@ == flags@,
{
    let mut r: Vec<bool> = Vec::new();
    let mut i: usize = 0;
    while i < flags.len()
        invariant
            i <= flags.len(),
            r@ == flags@.take(i as int),
        decreases flags.len() - i,
    {
        r.push(flags[i]);
        assert(r@ =~= flags@.take(i + 1));
        i = i + 1;
    }
    assert(flags@.take(flags.len() as int) =~= flags@);
    r
}

/// A six-bit color: two bits per channel, red first, each scaled by 85.
fn rgb6(rgb: u32) -> (c: Color)
    requires
        rgb < 64,
    ensures
        c == crate::grammar::rgb6_color(rgb as nat),
{
    let r = (((rgb / 16) % 4) * 85) as u8;
    let g = (((rgb / 4) % 4) * 85) as u8;
    let b = ((rgb % 4) * 85) as u8;
    Color::new(r, g, b)
}

} // verus!
