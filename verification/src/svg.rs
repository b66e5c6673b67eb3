//! Renders decoded documents as SVG markup.
//!
//! The markup is defined character by character by the spec functions of
//! this module; the converter is proved to produce exactly that text.
use crate::converter::{Converter, ConverterConfig};
use crate::error::{WvgError, WvgResult};
use crate::grammar::element_id_text;
use crate::text::{
    fixed_nat_text, fixed_text, hex_byte_text, hundredths_text, int_text, nat_text, push_fixed,
    push_fixed_nat, push_hex_byte, push_hundredths, push_int, push_nat,
};
use crate::types::{
    element_views, ArrayParams, CircularPoint, CircularPolylineElement, CircularPolylineView, Color,
    CoordinateParams, ElementAttributes, ElementData, ElementDataView, GenericParams,
    GroupStartElement, LineType, LineWidth, Point, PolylineElement, PolylineView, Resolution,
    ReuseElement,
    SimpleShapeElement, SimpleShapeType, Transform, WvgDocument, WvgDocumentView, WvgElement,
    WvgElementView, WvgHeader, WvgHeaderView,
};
use vstd::prelude::*;

verus! {

// ---------------------------------------------------------------------
// Lines and lists
// ---------------------------------------------------------------------
/// Indentation of `level` steps, two spaces each.
pub open spec fn indent_text(level: nat) -> Seq<char>
    decreases level,
{
    if level == 0 {
        Seq::empty()
    } else {
        indent_text((level - 1) as nat) + "  "@
    }
}

/// One tag as it is written out: bare, or on an indented line of its own
/// when pretty-printing.
pub open spec fn line_text(pretty: bool, level: nat, body: Seq<char>) -> Seq<char> {
    if pretty {
        indent_text(level) + body + "\n"@
    } else {
        body
    }
}

/// The parts with `sep` between each two of them.
pub open spec fn joined(parts: Seq<Seq<char>>, sep: Seq<char>) -> Seq<char>
    decreases parts.len(),
{
    if parts.len() == 0 {
        Seq::empty()
    } else if parts.len() == 1 {
        parts[0]
    } else {
        joined(parts.drop_last(), sep) + sep + parts.last()
    }
}

/// The characters of each string of a list.
pub open spec fn string_views(strings: Seq<String>) -> Seq<Seq<char>> {
    Seq::new(strings.len(), |i: int| strings[i]@)
}

/// A list of at most one part: the part if there is one.
pub open spec fn optional_part(part: Option<Seq<char>>) -> Seq<Seq<char>> {
    match part {
        Some(p) => seq![p],
        None => Seq::empty(),
    }
}

// ---------------------------------------------------------------------
// Styles
// ---------------------------------------------------------------------
/// A color in the form `#rrggbb`.
pub open spec fn color_text(c: Color) -> Seq<char> {
    "#"@ + hex_byte_text(c.r) + hex_byte_text(c.g) + hex_byte_text(c.b)
}

/// The dash pattern of a line type, if it has one.
pub open spec fn dash_part(line_type: Option<LineType>) -> Option<Seq<char>> {
    match line_type {
        Some(LineType::Dotted) => Some("stroke-dasharray: 1 3"@),
        Some(LineType::Dashed) => Some("stroke-dasharray: 5 3"@),
        Some(LineType::DashDot) => Some("stroke-dasharray: 5 2 1 2"@),
        _ => None,
    }
}

/// The multiplier for line widths in thousandths; absent, it is one.
pub open spec fn width_scale(scale: Option<u32>) -> nat {
    match scale {
        Some(s) => s as nat,
        None => 1000,
    }
}

/// Stroke width of a line width in thousandths: "no line" is zero, and
/// fine, normal and thick are one, two and three times the multiplier.
pub open spec fn stroke_width_thousandths(width: LineWidth, scale: Option<u32>) -> nat {
    match width {
        LineWidth::NoLine => 0,
        LineWidth::Fine => width_scale(scale),
        LineWidth::Normal => 2 * width_scale(scale),
        LineWidth::Thick => 3 * width_scale(scale),
    }
}

/// The stroke width of a line width, if one is set.
pub open spec fn width_part(width: Option<LineWidth>, scale: Option<u32>) -> Option<Seq<char>> {
    match width {
        Some(w) => Some("stroke-width: "@ + fixed_nat_text(stroke_width_thousandths(w, scale), 3)),
        None => None,
    }
}

/// The stroke color, if one is set.
pub open spec fn stroke_part(color: Option<Color>) -> Option<Seq<char>> {
    match color {
        Some(c) => Some("stroke: "@ + color_text(c)),
        None => None,
    }
}

/// The fill: none for an element that is not filled, the fill color for a
/// filled element that has one, and nothing otherwise.
pub open spec fn fill_part(fill: Option<bool>, color: Option<Color>) -> Option<Seq<char>> {
    match fill {
        Some(true) => match color {
            Some(c) => Some("fill: "@ + color_text(c)),
            None => None,
        },
        Some(false) => Some("fill: none"@),
        None => None,
    }
}

/// The style declarations of an attribute set, in writing order.
pub open spec fn style_parts(attrs: ElementAttributes, scale: Option<u32>) -> Seq<Seq<char>> {
    optional_part(dash_part(attrs.line_type)) + optional_part(width_part(attrs.line_width, scale))
        + optional_part(stroke_part(attrs.line_color)) + optional_part(
        fill_part(attrs.fill, attrs.fill_color),
    )
}

/// The style attribute of an attribute set: the declarations joined by
/// semicolons, or nothing when there is no declaration.
pub open spec fn style_text(attrs: ElementAttributes, scale: Option<u32>) -> Seq<char> {
    if style_parts(attrs, scale).len() == 0 {
        Seq::empty()
    } else {
        "style=\""@ + joined(style_parts(attrs, scale), "; "@) + "\""@
    }
}

/// The style attribute of optional attributes; absent, there is none.
pub open spec fn optional_style_text(attrs: Option<ElementAttributes>, scale: Option<u32>) -> Seq<
    char,
> {
    match attrs {
        Some(a) => style_text(a, scale),
        None => Seq::empty(),
    }
}

// ---------------------------------------------------------------------
// Transforms
// ---------------------------------------------------------------------
/// An optional value, zero when absent.
pub open spec fn or_zero(v: Option<i32>) -> int {
    match v {
        Some(x) => x as int,
        None => 0,
    }
}

/// Ten-thousandths of a degree in one angle unit: 22.5 degrees, halved
/// as the resolution says.
pub open spec fn angle_unit(resolution: Resolution) -> int {
    match resolution {
        Resolution::Full => 225000,
        Resolution::Half => 112500,
        Resolution::Quarter => 56250,
        Resolution::Eighth => 28125,
    }
}

/// Hundred-thousandths in one scale unit: a quarter, halved as the
/// resolution says.
pub open spec fn scale_unit(resolution: Resolution) -> int {
    match resolution {
        Resolution::Full => 25000,
        Resolution::Half => 12500,
        Resolution::Quarter => 6250,
        Resolution::Eighth => 3125,
    }
}

/// An angle value in degrees.
pub open spec fn degrees_text(angle: i32, generic: GenericParams) -> Seq<char> {
    fixed_text(angle * angle_unit(generic.angle_resolution), 4)
}

/// A scale value as a factor: one plus the value in scale units.
pub open spec fn factor_text(scale: i32, generic: GenericParams) -> Seq<char> {
    fixed_text(100000 + scale * scale_unit(generic.scale_resolution), 5)
}

/// A translation by the given distances.
pub open spec fn translation_text(tx: int, ty: int) -> Seq<char> {
    "translate("@ + int_text(tx) + ", "@ + int_text(ty) + ")"@
}

/// The translation of a transform, if it moves anything.
pub open spec fn translate_part(t: Transform) -> Option<Seq<char>> {
    if or_zero(t.translate_x) != 0 || or_zero(t.translate_y) != 0 {
        Some(translation_text(or_zero(t.translate_x), or_zero(t.translate_y)))
    } else {
        None
    }
}

/// The rotation of a transform, about its center if that is not the origin.
pub open spec fn rotate_part(t: Transform, generic: GenericParams) -> Option<Seq<char>> {
    match t.angle {
        Some(a) => if or_zero(t.cx) != 0 || or_zero(t.cy) != 0 {
            Some(
                "rotate("@ + degrees_text(a, generic) + " "@ + int_text(or_zero(t.cx)) + " "@
                    + int_text(or_zero(t.cy)) + ")"@,
            )
        } else {
            Some("rotate("@ + degrees_text(a, generic) + ")"@)
        },
        None => None,
    }
}

/// An optional scale value as a factor; an absent scale leaves its axis
/// as it is, which is the factor one.
pub open spec fn optional_factor_text(scale: Option<i32>, generic: GenericParams) -> Seq<char> {
    match scale {
        Some(v) => factor_text(v, generic),
        None => "1"@,
    }
}

/// The scaling of a transform, written when either axis is scaled, with
/// the horizontal factor first and the vertical one second.
pub open spec fn scale_part(t: Transform, generic: GenericParams) -> Option<Seq<char>> {
    if t.scale_x is Some || t.scale_y is Some {
        Some(
            "scale("@ + optional_factor_text(t.scale_x, generic) + " "@ + optional_factor_text(
                t.scale_y,
                generic,
            ) + ")"@,
        )
    } else {
        None
    }
}

/// The operations of a transform in the order in which they are written:
/// translate, rotate, scale.
pub open spec fn transform_parts(t: Transform, generic: GenericParams) -> Seq<Seq<char>> {
    optional_part(translate_part(t)) + optional_part(rotate_part(t, generic)) + optional_part(
        scale_part(t, generic),
    )
}

/// The transform attribute that applies the given operations in order:
/// the operations separated by spaces, or nothing when there is none.
pub open spec fn transform_attribute(operations: Seq<Seq<char>>) -> Seq<char> {
    if operations.len() == 0 {
        Seq::empty()
    } else {
        "transform=\""@ + joined(operations, " "@) + "\""@
    }
}

/// The transform attribute of a transform.
pub open spec fn transform_text(t: Transform, generic: GenericParams) -> Seq<char> {
    transform_attribute(transform_parts(t, generic))
}

/// The transform attribute of an optional transform; absent, there is none.
pub open spec fn optional_transform_text(t: Option<Transform>, generic: GenericParams) -> Seq<
    char,
> {
    match t {
        Some(x) => transform_text(x, generic),
        None => Seq::empty(),
    }
}

// ---------------------------------------------------------------------
// Exec: lines, lists, styles, transforms
// ---------------------------------------------------------------------
/// Appends one tag: bare, or indented on a line of its own.
fn write_line(out: &mut String, pretty: bool, level: usize, body: &str)
    ensures
        final(out)@ == old(out)@ + line_text(pretty, level as nat, body@),
{
    if pretty {
        let mut i: usize = 0;
        while i < level
            invariant
                i <= level,
                out@ == old(out)@ + indent_text(i as nat),
            decreases level - i,
        {
            out.append("  ");
            i = i + 1;
            assert(out@ =~= old(out)@ + indent_text(i as nat));
        }
    }
    out.append(body);
    if pretty {
        out.append("\n");
    }
    assert(out@ =~= old(out)@ + line_text(pretty, level as nat, body@));
}

/// The parts with `sep` between each two of them.
fn join(parts: &Vec<String>, sep: &str) -> (r: String)
    ensures
        r@ == joined(string_views(parts@), sep@),
{
    let ghost views = string_views(parts@);
    let mut out = String::new();
    let mut i: usize = 0;
    while i < parts.len()
        invariant
            i <= parts.len(),
            views == string_views(parts@),
            out@ == joined(views.take(i as int), sep@),
        decreases parts.len() - i,
    {
        if i > 0 {
            out.append(sep);
        }
        out.append(parts[i].as_str());
        proof {
            let next = views.take(i + 1);
            assert(next.drop_last() =~= views.take(i as int));
            assert(next.last() == parts@[i as int]@);
            assert(out@ =~= joined(next, sep@));
        }
        i = i + 1;
    }
    assert(views.take(parts.len() as int) =~= views);
    out
}

/// Appends a part to a list of parts.
fn push_part(parts: &mut Vec<String>, part: String)
    ensures
        string_views(final(parts)@) == string_views(old(parts)@) + seq![part@],
{
    parts.push(part);
    assert(string_views(parts@) =~= string_views(old(parts)@) + seq![part@]);
}

/// Appends a color in the form `#rrggbb`.
fn push_color(out: &mut String, c: Color)
    ensures
        final(out)@ == old(out)@ + color_text(c),
{
    out.append("#");
    push_hex_byte(out, c.r);
    push_hex_byte(out, c.g);
    push_hex_byte(out, c.b);
    assert(out@ =~= old(out)@ + color_text(c));
}

/// Converts a color to the form `#rrggbb`.
fn color_to_hex(c: &Color) -> (s: String)
    ensures
        s@ == color_text(*c),
{
    let mut s = String::new();
    push_color(&mut s, *c);
    assert(s@ =~= color_text(*c));
    s
}

/// Builds the style attribute of an attribute set.
fn build_style(attrs: &ElementAttributes, scale: Option<u32>) -> (s: String)
    ensures
        s@ == style_text(*attrs, scale),
{
    let mut styles: Vec<String> = Vec::new();
    assert(string_views(styles@) =~= Seq::<Seq<char>>::empty());
    match attrs.line_type {
        Some(LineType::Dotted) => {
            push_part(&mut styles, String::from_str("stroke-dasharray: 1 3"));
        },
        Some(LineType::Dashed) => {
            push_part(&mut styles, String::from_str("stroke-dasharray: 5 3"));
        },
        Some(LineType::DashDot) => {
            push_part(&mut styles, String::from_str("stroke-dasharray: 5 2 1 2"));
        },
        _ => {},
    }
    assert(string_views(styles@) =~= optional_part(dash_part(attrs.line_type)));
    match attrs.line_width {
        Some(w) => {
            let unit: u64 = match scale {
                Some(s) => s as u64,
                None => 1000,
            };
            let width: u64 = match w {
                LineWidth::NoLine => 0,
                LineWidth::Fine => unit,
                LineWidth::Normal => 2 * unit,
                LineWidth::Thick => 3 * unit,
            };
            let mut part = String::from_str("stroke-width: ");
            push_fixed_nat(&mut part, width, 3);
            push_part(&mut styles, part);
        },
        None => {},
    }
    assert(string_views(styles@) =~= optional_part(dash_part(attrs.line_type)) + optional_part(
        width_part(attrs.line_width, scale),
    ));
    match attrs.line_color {
        Some(c) => {
            let mut part = String::from_str("stroke: ");
            push_color(&mut part, c);
            push_part(&mut styles, part);
        },
        None => {},
    }
    assert(string_views(styles@) =~= optional_part(dash_part(attrs.line_type)) + optional_part(
        width_part(attrs.line_width, scale),
    ) + optional_part(stroke_part(attrs.line_color)));
    match attrs.fill {
        Some(true) => {
            match attrs.fill_color {
                Some(c) => {
                    let mut part = String::from_str("fill: ");
                    push_color(&mut part, c);
                    push_part(&mut styles, part);
                },
                None => {},
            }
        },
        Some(false) => {
            push_part(&mut styles, String::from_str("fill: none"));
        },
        None => {},
    }
    assert(string_views(styles@) =~= style_parts(*attrs, scale));
    if styles.len() == 0 {
        String::new()
    } else {
        let mut s = String::from_str("style=\"");
        let body = join(&styles, "; ");
        s.append(body.as_str());
        s.append("\"");
        s
    }
}

/// Ten-thousandths of a degree in one angle unit.
fn angle_unit_of(resolution: Resolution) -> (u: i64)
    ensures
        u == angle_unit(resolution),
{
    match resolution {
        Resolution::Full => 225000,
        Resolution::Half => 112500,
        Resolution::Quarter => 56250,
        Resolution::Eighth => 28125,
    }
}

/// Hundred-thousandths in one scale unit.
fn scale_unit_of(resolution: Resolution) -> (u: i64)
    ensures
        u == scale_unit(resolution),
{
    match resolution {
        Resolution::Full => 25000,
        Resolution::Half => 12500,
        Resolution::Quarter => 6250,
        Resolution::Eighth => 3125,
    }
}

/// Appends an angle value in degrees.
fn push_degrees(out: &mut String, angle: i32, generic: &GenericParams)
    ensures
        final(out)@ == old(out)@ + degrees_text(angle, *generic),
{
    let unit = angle_unit_of(generic.angle_resolution);
    assert(-0x8000_0000 * 225000 <= angle * unit <= 0x8000_0000 * 225000) by (nonlinear_arith)
        requires
            -0x8000_0000 <= angle <= 0x7fff_ffff,
            0 < unit <= 225000,
    ;
    push_fixed(out, (angle as i64) * unit, 4);
}

/// Appends a scale value as a factor.
fn push_factor(out: &mut String, scale: i32, generic: &GenericParams)
    ensures
        final(out)@ == old(out)@ + factor_text(scale, *generic),
{
    let unit = scale_unit_of(generic.scale_resolution);
    assert(-0x8000_0000 * 25000 <= scale * unit <= 0x8000_0000 * 25000) by (nonlinear_arith)
        requires
            -0x8000_0000 <= scale <= 0x7fff_ffff,
            0 < unit <= 25000,
    ;
    push_fixed(out, 100000 + (scale as i64) * unit, 5);
}

/// Appends an optional scale value as a factor.
fn push_optional_factor(out: &mut String, scale: Option<i32>, generic: &GenericParams)
    ensures
        final(out)@ == old(out)@ + optional_factor_text(scale, *generic),
{
    match scale {
        Some(v) => {
            push_factor(out, v, generic);
        },
        None => {
            out.append("1");
        },
    }
}

/// An optional value, zero when absent.
fn value_or_zero(v: Option<i32>) -> (x: i32)
    ensures
        x == or_zero(v),
{
    match v {
        Some(x) => x,
        None => 0,
    }
}

/// Appends a translation by the given distances.
fn push_translation(out: &mut String, tx: i64, ty: i64)
    ensures
        final(out)@ == old(out)@ + translation_text(tx as int, ty as int),
{
    out.append("translate(");
    push_int(out, tx);
    out.append(", ");
    push_int(out, ty);
    out.append(")");
    assert(out@ =~= old(out)@ + translation_text(tx as int, ty as int));
}

/// Builds the transform attribute of a transform.
fn build_transform(t: &Transform, generic: &GenericParams) -> (s: String)
    ensures
        s@ == transform_text(*t, *generic),
{
    let (operations, any) = build_operations(t, generic);
    if any {
        let mut s = String::from_str("transform=\"");
        s.append(operations.as_str());
        s.append("\"");
        s
    } else {
        String::new()
    }
}

/// Builds the operations of a transform, separated by spaces, and says
/// whether there is any.
fn build_operations(t: &Transform, generic: &GenericParams) -> (r: (String, bool))
    ensures
        r.0@ == joined(transform_parts(*t, *generic), " "@),
        r.1 == (transform_parts(*t, *generic).len() > 0),
{
    let mut parts: Vec<String> = Vec::new();
    assert(string_views(parts@) =~= Seq::<Seq<char>>::empty());
    let tx = value_or_zero(t.translate_x);
    let ty = value_or_zero(t.translate_y);
    if tx != 0 || ty != 0 {
        let mut part = String::new();
        push_translation(&mut part, tx as i64, ty as i64);
        assert(part@ =~= translation_text(tx as int, ty as int));
        push_part(&mut parts, part);
    }
    assert(string_views(parts@) =~= optional_part(translate_part(*t)));
    match t.angle {
        Some(angle_val) => {
            let cx = value_or_zero(t.cx);
            let cy = value_or_zero(t.cy);
            let mut part = String::from_str("rotate(");
            push_degrees(&mut part, angle_val, generic);
            if cx != 0 || cy != 0 {
                part.append(" ");
                push_int(&mut part, cx as i64);
                part.append(" ");
                push_int(&mut part, cy as i64);
            }
            part.append(")");
            assert(Some(part@) =~= rotate_part(*t, *generic));
            push_part(&mut parts, part);
        },
        None => {},
    }
    assert(string_views(parts@) =~= optional_part(translate_part(*t)) + optional_part(
        rotate_part(*t, *generic),
    ));
    if t.scale_x.is_some() || t.scale_y.is_some() {
        let mut part = String::from_str("scale(");
        push_optional_factor(&mut part, t.scale_x, generic);
        part.append(" ");
        push_optional_factor(&mut part, t.scale_y, generic);
        part.append(")");
        assert(Some(part@) =~= scale_part(*t, *generic));
        push_part(&mut parts, part);
    }
    assert(string_views(parts@) =~= transform_parts(*t, *generic));
    (join(&parts, " "), parts.len() > 0)
}

// ---------------------------------------------------------------------
// Paths
// ---------------------------------------------------------------------
/// What rendering depends on besides the elements themselves.
#[derive(Debug, Clone, Copy)]
pub struct RenderSettings {
    /// Every tag goes on an indented line of its own.
    pub pretty_print: bool,
    /// Multiplier for line widths, in thousandths.
    pub line_width_scale: Option<u32>,
    /// The generic parameters of the document.
    pub generic: GenericParams,
}

/// The absolute value of an integer.
pub open spec fn magnitude(v: int) -> nat {
    if v < 0 {
        (-v) as nat
    } else {
        v as nat
    }
}

/// `r` is the square root of `x`, rounded down.
pub open spec fn is_floor_sqrt(x: nat, r: nat) -> bool {
    r * r <= x && x < (r + 1) * (r + 1)
}

/// The square root of `x`, rounded down.
pub open spec fn floor_sqrt(x: nat) -> nat {
    choose|r: nat| is_floor_sqrt(x, r)
}

/// Half the range of curve offsets: `(2^n - 2) / 2` for offsets of `n`
/// bits, that is 7 for four bits and 15 for five.
pub open spec fn curve_half_range(generic: GenericParams) -> nat {
    if generic.curve_offset_in_bits == Some(1u8) {
        15
    } else {
        7
    }
}

/// The quotient `root(n) / d` rounded to the nearest whole number; a
/// quotient exactly halfway between two whole numbers goes to the even one.
///
/// Rounding halves up gives `(floor_sqrt(n) + d / 2) / d` for an even `d`.
/// The quotient is exactly halfway when `n` is a square whose root is an
/// odd multiple of `d / 2`.
pub open spec fn rounded_root_quotient(n: nat, half_d: nat) -> nat {
    let s = floor_sqrt(n);
    let up = (s + half_d) / (2 * half_d);
    if s * s == n && (s + half_d) % (2 * half_d) == 0 && up % 2 == 1 {
        (up - 1) as nat
    } else {
        up
    }
}

/// The radius of an arc in hundredths, rounded to the nearest hundredth,
/// halves to the even hundredth.
///
/// For a chord of length `L` (`chord_squared` is its square) and a curve
/// offset `o` out of a half range `m`, the arc bulges by `e = o * L / 2m`
/// and its radius is `(L^2 / 4 + e^2) / 2|e|`, which is
/// `L * (m^2 + o^2) / (4 * m * |o|)`. A hundred times that is the root of
/// `4 * chord_squared * p^2` over `2 * q`, for the `p` and `q` below.
pub open spec fn arc_radius_hundredths(chord_squared: nat, offset: int, half_range: nat) -> nat {
    let p = 25 * (half_range * half_range + offset * offset);
    let q = magnitude(offset) * half_range;
    rounded_root_quotient((4 * chord_squared * p * p) as nat, q)
}

/// The square of the distance between two points.
pub open spec fn chord_squared(x1: int, y1: int, x2: int, y2: int) -> nat {
    ((x2 - x1) * (x2 - x1) + (y2 - y1) * (y2 - y1)) as nat
}

/// A straight line to a point.
pub open spec fn line_to_text(x: int, y: int) -> Seq<char> {
    "L "@ + int_text(x) + " "@ + int_text(y)
}

/// The arc from one point to another with a curve offset that is not zero.
///
/// The arc is the large one when the offset exceeds the half range, and
/// runs clockwise when the offset is positive. Between two equal points
/// it is a straight line.
pub open spec fn arc_command_text(
    x1: int,
    y1: int,
    x2: int,
    y2: int,
    offset: int,
    half_range: nat,
) -> Seq<char> {
    if chord_squared(x1, y1, x2, y2) == 0 {
        line_to_text(x2, y2)
    } else {
        arc_to_text(
            arc_radius_hundredths(chord_squared(x1, y1, x2, y2), offset, half_range),
            magnitude(offset) > half_range,
            offset > 0,
            x2,
            y2,
        )
    }
}

/// A flag of an arc command.
pub open spec fn arc_flag_text(flag: bool) -> Seq<char> {
    if flag {
        "1"@
    } else {
        "0"@
    }
}

/// A circular arc of the given radius in hundredths to a point, with the
/// flags that pick the large arc and the clockwise direction.
pub open spec fn arc_to_text(radius: nat, large: bool, clockwise: bool, x: int, y: int) -> Seq<
    char,
> {
    "A "@ + hundredths_text(radius) + " "@ + hundredths_text(radius) + " 0 "@ + arc_flag_text(
        large,
    ) + " "@ + arc_flag_text(clockwise) + " "@ + int_text(x) + " "@ + int_text(y)
}

/// Two points are at distance zero exactly when they are the same point.
pub proof fn lemma_chord_zero(x1: int, y1: int, x2: int, y2: int)
    ensures
        chord_squared(x1, y1, x2, y2) == 0 <==> (x1 == x2 && y1 == y2),
{
    let gx = x2 - x1;
    let gy = y2 - y1;
    assert(gx * gx >= 0 && gy * gy >= 0 && (gx != 0 ==> gx * gx > 0) && (gy != 0 ==> gy * gy > 0))
        by (nonlinear_arith);
}

/// One segment of a circular polyline: a line for a curve offset of zero,
/// an arc otherwise.
pub open spec fn segment_text(
    x1: int,
    y1: int,
    x2: int,
    y2: int,
    offset: int,
    half_range: nat,
) -> Seq<char> {
    if offset == 0 {
        " "@ + line_to_text(x2, y2)
    } else {
        " "@ + arc_command_text(x1, y1, x2, y2, offset, half_range)
    }
}

/// The absolute X coordinate of point `i` of a circular polyline: its own
/// for the first two points and for absolute points, and otherwise that of
/// the point before moved by its own.
pub open spec fn circular_x(points: Seq<CircularPoint>, i: int) -> int
    decreases i,
{
    if i <= 1 || points[i].is_absolute {
        points[i].point.x as int
    } else {
        circular_x(points, i - 1) + points[i].point.x
    }
}

/// The absolute Y coordinate of point `i` of a circular polyline.
pub open spec fn circular_y(points: Seq<CircularPoint>, i: int) -> int
    decreases i,
{
    if i <= 1 || points[i].is_absolute {
        points[i].point.y as int
    } else {
        circular_y(points, i - 1) + points[i].point.y
    }
}

/// The path through the first `n` points of a circular polyline.
pub open spec fn circular_path_text(points: Seq<CircularPoint>, n: nat, half_range: nat) -> Seq<
    char,
>
    decreases n,
{
    if n == 0 {
        Seq::empty()
    } else if n == 1 {
        "M "@ + int_text(circular_x(points, 0)) + " "@ + int_text(circular_y(points, 0))
    } else {
        circular_path_text(points, (n - 1) as nat, half_range) + segment_text(
            circular_x(points, n - 2),
            circular_y(points, n - 2),
            circular_x(points, n - 1),
            circular_y(points, n - 1),
            points[n - 1].curve_offset as int,
            half_range,
        )
    }
}

/// The path through the first `n` points of a polyline: a move to the
/// first point, then a relative line for each step.
pub open spec fn polyline_path_text(points: Seq<Point>, n: nat) -> Seq<char>
    decreases n,
{
    if n == 0 {
        Seq::empty()
    } else if n == 1 {
        "M "@ + int_text(points[0].x as int) + " "@ + int_text(points[0].y as int)
    } else {
        polyline_path_text(points, (n - 1) as nat) + " l "@ + int_text(
            points[n - 1].x - points[n - 2].x,
        ) + " "@ + int_text(points[n - 1].y - points[n - 2].y)
    }
}

/// A dot at a point.
pub open spec fn circle_body(id: Seq<char>, p: Point, style: Seq<char>) -> Seq<char> {
    "<circle id=\""@ + id + "\" cx=\""@ + int_text(p.x as int) + "\" cy=\""@ + int_text(
        p.y as int,
    ) + "\" r=\"1.0\" "@ + style + "/>"@
}

/// A path element.
pub open spec fn path_body(id: Seq<char>, path: Seq<char>, style: Seq<char>) -> Seq<char> {
    "<path id=\""@ + id + "\" d=\""@ + path + "\" "@ + style + "/>"@
}

/// A polyline as it is written at the given level: nothing without
/// points, a dot for a single point, a path otherwise.
pub open spec fn polyline_text(id: Seq<char>, pl: PolylineView, level: nat, s: RenderSettings)
    -> Seq<char> {
    if pl.points.len() == 0 {
        Seq::empty()
    } else if pl.points.len() == 1 {
        line_text(
            s.pretty_print,
            level,
            circle_body(id, pl.points[0], style_text(pl.attributes, s.line_width_scale)),
        )
    } else {
        line_text(
            s.pretty_print,
            level,
            path_body(
                id,
                polyline_path_text(pl.points, pl.points.len()),
                style_text(pl.attributes, s.line_width_scale),
            ),
        )
    }
}

/// Point `i` of a circular polyline can be drawn: its absolute position
/// fits 32 bits.
pub open spec fn circular_point_renderable(points: Seq<CircularPoint>, i: int) -> bool {
    &&& i32::MIN <= circular_x(points, i) <= i32::MAX
    &&& i32::MIN <= circular_y(points, i) <= i32::MAX
}

/// A circular polyline can be drawn: it has fewer than two points, and so
/// draws nothing, or each of its points can be drawn.
pub open spec fn circular_renderable(cp: CircularPolylineView) -> bool {
    cp.points.len() >= 2 ==> forall|i: int|
        0 <= i < cp.points.len() ==> circular_point_renderable(cp.points, i)
}

/// A circular polyline as it is written at the given level: nothing with
/// fewer than two points, a path otherwise.
pub open spec fn circular_text(
    id: Seq<char>,
    cp: CircularPolylineView,
    level: nat,
    s: RenderSettings,
) -> Seq<char> {
    if cp.points.len() < 2 {
        Seq::empty()
    } else {
        line_text(
            s.pretty_print,
            level,
            path_body(
                id,
                circular_path_text(cp.points, cp.points.len(), curve_half_range(s.generic)),
                style_text(cp.attributes, s.line_width_scale),
            ),
        )
    }
}

/// Points that follow do not move a point of a circular polyline.
pub proof fn lemma_circular_prefix(points: Seq<CircularPoint>, next: CircularPoint, i: int)
    requires
        0 <= i < points.len(),
    ensures
        circular_x(points.push(next), i) == circular_x(points, i),
        circular_y(points.push(next), i) == circular_y(points, i),
    decreases i,
{
    assert(points.push(next)[i] == points[i]);
    if i > 1 && !points[i].is_absolute {
        lemma_circular_prefix(points, next, i - 1);
    }
}

/// Only one number is the rounded-down root of another.
pub proof fn lemma_floor_sqrt_unique(x: nat, a: nat, b: nat)
    requires
        is_floor_sqrt(x, a),
        is_floor_sqrt(x, b),
    ensures
        a == b,
{
    if a < b {
        assert((a + 1) * (a + 1) <= b * b) by (nonlinear_arith)
            requires
                a + 1 <= b,
        ;
    } else if b < a {
        assert((b + 1) * (b + 1) <= a * a) by (nonlinear_arith)
            requires
                b + 1 <= a,
        ;
    }
}

/// The square root of `x`, rounded down.
pub fn isqrt(x: u128) -> (r: u64)
    ensures
        r == floor_sqrt(x as nat),
        is_floor_sqrt(x as nat, r as nat),
        x < 0x4000_0000_0000_0000_0000_0000_0000_0000 ==> r < 0x8000_0000_0000_0000,
{
    let mut lo: u128 = 0;
    let mut hi: u128 = 0x1_0000_0000_0000_0000;
    assert(0x1_0000_0000_0000_0000int * 0x1_0000_0000_0000_0000int
        == 0x1_0000_0000_0000_0000_0000_0000_0000_0000int) by (nonlinear_arith);
    while hi - lo > 1
        invariant
            lo < hi <= 0x1_0000_0000_0000_0000,
            lo * lo <= x,
            x < hi * hi,
        decreases hi - lo,
    {
        let mid = lo + (hi - lo) / 2;
        assert(mid * mid <= 0xffff_ffff_ffff_ffff * 0xffff_ffff_ffff_ffff) by (nonlinear_arith)
            requires
                0 <= mid <= 0xffff_ffff_ffff_ffff,
        ;
        let sq = mid * mid;
        if sq <= x {
            lo = mid;
        } else {
            hi = mid;
        }
    }
    proof {
        assert(is_floor_sqrt(x as nat, lo as nat));
        lemma_floor_sqrt_unique(x as nat, lo as nat, floor_sqrt(x as nat));
        if lo >= 0x8000_0000_0000_0000 {
            assert(lo * lo >= 0x4000_0000_0000_0000_0000_0000_0000_0000) by (nonlinear_arith)
                requires
                    lo >= 0x8000_0000_0000_0000,
            ;
        }
    }
    lo as u64
}

/// The absolute value of a difference of two 32-bit numbers.
fn distance(a: i32, b: i32) -> (d: u64)
    ensures
        d == magnitude(b - a),
        d <= 0xffff_ffff,
{
    let wide: i64 = (b as i64) - (a as i64);
    if wide < 0 {
        (-wide) as u64
    } else {
        wide as u64
    }
}

/// The radius of an arc in hundredths.
fn arc_radius(x1: i32, y1: i32, x2: i32, y2: i32, offset: i8, half_range: u8) -> (h: u64)
    requires
        offset != 0,
        half_range == 7 || half_range == 15,
    ensures
        h == arc_radius_hundredths(
            chord_squared(x1 as int, y1 as int, x2 as int, y2 as int),
            offset as int,
            half_range as nat,
        ),
{
    let dx = distance(x1, x2) as u128;
    let dy = distance(y1, y2) as u128;
    let ghost gx = x2 - x1;
    let ghost gy = y2 - y1;
    assert(dx * dx == gx * gx) by (nonlinear_arith)
        requires
            dx == gx || dx == -gx,
    ;
    assert(dy * dy == gy * gy) by (nonlinear_arith)
        requires
            dy == gy || dy == -gy,
    ;
    assert(dx * dx <= 0xffff_ffff * 0xffff_ffff) by (nonlinear_arith)
        requires
            0 <= dx <= 0xffff_ffff,
    ;
    assert(dy * dy <= 0xffff_ffff * 0xffff_ffff) by (nonlinear_arith)
        requires
            0 <= dy <= 0xffff_ffff,
    ;
    let d2: u128 = dx * dx + dy * dy;
    assert(d2 == chord_squared(x1 as int, y1 as int, x2 as int, y2 as int));
    let o: u128 = if offset < 0 {
        (-(offset as i32)) as u128
    } else {
        offset as u128
    };
    let m: u128 = half_range as u128;
    assert(o * o == offset * offset) by (nonlinear_arith)
        requires
            o == offset || o == -offset,
    ;
    assert(o * o <= 16384) by (nonlinear_arith)
        requires
            0 <= o <= 128,
    ;
    assert(m * m <= 225) by (nonlinear_arith)
        requires
            0 <= m <= 15,
    ;
    assert(0 < o * m <= 1920) by (nonlinear_arith)
        requires
            1 <= o <= 128,
            7 <= m <= 15,
    ;
    let p: u128 = 25 * (m * m + o * o);
    let q: u128 = o * m;
    assert(4 * d2 * p <= 0x8_0000_0000_0000_0000 * 415225) by (nonlinear_arith)
        requires
            0 <= d2 <= 0x2_0000_0000_0000_0000,
            0 <= p <= 415225,
    ;
    assert(4 * d2 * p * p <= 0x8_0000_0000_0000_0000 * 415225 * 415225) by (nonlinear_arith)
        requires
            0 <= 4 * d2 * p <= 0x8_0000_0000_0000_0000 * 415225,
            0 <= p <= 415225,
    ;
    let x: u128 = 4 * d2 * p * p;
    proof {
        let sp = 25 * (half_range as nat * half_range as nat + offset as int * offset as int);
        let sq = magnitude(offset as int) * half_range as nat;
        assert(o == magnitude(offset as int));
        assert(sp == p);
        assert(sq == q);
        assert((4 * d2 * sp * sp) as nat == x as nat);
    }
    round_root_quotient(x, q as u64)
}

/// The quotient `root(n) / (2 * half_d)`, rounded to the nearest whole
/// number, halves to even.
fn round_root_quotient(n: u128, half_d: u64) -> (h: u64)
    requires
        n < 0x4000_0000_0000_0000_0000_0000_0000_0000,
        0 < half_d <= 0xffff_ffff,
    ensures
        h == rounded_root_quotient(n as nat, half_d as nat),
{
    let root = isqrt(n);
    assert(root * root <= n);
    let sum: u64 = root + half_d;
    let d: u64 = 2 * half_d;
    let up: u64 = sum / d;
    let exact = (root as u128) * (root as u128) == n;
    if exact && sum % d == 0 && up % 2 == 1 {
        up - 1
    } else {
        up
    }
}

/// Appends the arc from one point to another; the curve offset is not zero.
fn compute_arc_command(
    out: &mut String,
    x1: i32,
    y1: i32,
    x2: i32,
    y2: i32,
    offset: i8,
    half_range: u8,
)
    requires
        offset != 0,
        half_range == 7 || half_range == 15,
    ensures
        final(out)@ == old(out)@ + arc_command_text(
            x1 as int,
            y1 as int,
            x2 as int,
            y2 as int,
            offset as int,
            half_range as nat,
        ),
{
    proof {
        lemma_chord_zero(x1 as int, y1 as int, x2 as int, y2 as int);
    }
    if x1 == x2 && y1 == y2 {
        push_line_to(out, x2, y2);
    } else {
        let radius = arc_radius(x1, y1, x2, y2, offset, half_range);
        let large = (offset as i32) > half_range as i32 || (offset as i32) < -(half_range as i32);
        push_arc_to(out, radius, large, offset > 0, x2, y2);
    }
}

/// Appends a straight line to a point.
fn push_line_to(out: &mut String, x: i32, y: i32)
    ensures
        final(out)@ == old(out)@ + line_to_text(x as int, y as int),
{
    out.append("L ");
    push_int(out, x as i64);
    out.append(" ");
    push_int(out, y as i64);
    assert(out@ =~= old(out)@ + line_to_text(x as int, y as int));
}

/// Appends a flag of an arc command.
fn push_arc_flag(out: &mut String, flag: bool)
    ensures
        final(out)@ == old(out)@ + arc_flag_text(flag),
{
    if flag {
        out.append("1");
    } else {
        out.append("0");
    }
}

/// Appends a circular arc to a point.
fn push_arc_to(out: &mut String, radius: u64, large: bool, clockwise: bool, x: i32, y: i32)
    ensures
        final(out)@ == old(out)@ + arc_to_text(radius as nat, large, clockwise, x as int, y as int),
{
    out.append("A ");
    push_hundredths(out, radius);
    out.append(" ");
    push_hundredths(out, radius);
    out.append(" 0 ");
    push_arc_flag(out, large);
    out.append(" ");
    push_arc_flag(out, clockwise);
    out.append(" ");
    push_int(out, x as i64);
    out.append(" ");
    push_int(out, y as i64);
    assert(out@ =~= old(out)@ + arc_to_text(
        radius as nat,
        large,
        clockwise,
        x as int,
        y as int,
    ));
}

/// Half the range of curve offsets under the given parameters.
fn half_range_of(generic: &GenericParams) -> (m: u8)
    ensures
        m == curve_half_range(*generic),
        m == 7 || m == 15,
{
    match generic.curve_offset_in_bits {
        Some(b) => if b == 1 {
            15
        } else {
            7
        },
        None => 7,
    }
}

/// A failure of rendering with the given message.
fn conversion_error(message: &str) -> (e: WvgError)
    ensures
        e is ConversionError,
{
    WvgError::ConversionError(String::from_str(message))
}

/// Writes a polyline.
fn write_polyline(
    out: &mut String,
    s: &RenderSettings,
    level: usize,
    id: &str,
    pl: &PolylineElement,
)
    ensures
        final(out)@ == old(out)@ + polyline_text(id@, pl@, level as nat, *s),
{
    if pl.points.len() == 0 {
        assert(out@ =~= old(out)@ + polyline_text(id@, pl@, level as nat, *s));
        return ;
    }
    let style = build_style(&pl.attributes, s.line_width_scale);
    if pl.points.len() == 1 {
        let p = pl.points[0];
        let mut line = String::from_str("<circle id=\"");
        line.append(id);
        line.append("\" cx=\"");
        push_int(&mut line, p.x as i64);
        line.append("\" cy=\"");
        push_int(&mut line, p.y as i64);
        line.append("\" r=\"1.0\" ");
        line.append(style.as_str());
        line.append("/>");
        assert(line@ =~= circle_body(id@, p, style@));
        write_line(out, s.pretty_print, level, line.as_str());
        return ;
    }
    let mut path_data = String::new();
    let mut i: usize = 0;
    while i < pl.points.len()
        invariant
            i <= pl.points.len(),
            path_data@ == polyline_path_text(pl.points@, i as nat),
        decreases pl.points.len() - i,
    {
        let point = pl.points[i];
        if i == 0 {
            path_data.append("M ");
            push_int(&mut path_data, point.x as i64);
            path_data.append(" ");
            push_int(&mut path_data, point.y as i64);
        } else {
            let prev = pl.points[i - 1];
            path_data.append(" l ");
            push_int(&mut path_data, (point.x as i64) - (prev.x as i64));
            path_data.append(" ");
            push_int(&mut path_data, (point.y as i64) - (prev.y as i64));
        }
        assert(path_data@ =~= polyline_path_text(pl.points@, (i + 1) as nat));
        i = i + 1;
    }
    let mut line = String::from_str("<path id=\"");
    line.append(id);
    line.append("\" d=\"");
    line.append(path_data.as_str());
    line.append("\" ");
    line.append(style.as_str());
    line.append("/>");
    assert(line@ =~= path_body(id@, path_data@, style@));
    write_line(out, s.pretty_print, level, line.as_str());
}

/// Writes a circular polyline, or says that it cannot be drawn.
fn write_circular_polyline(
    out: &mut String,
    s: &RenderSettings,
    level: usize,
    id: &str,
    cp: &CircularPolylineElement,
) -> (r: WvgResult<()>)
    ensures
        match r {
            Ok(_) => circular_renderable(cp@) && final(out)@ == old(out)@ + circular_text(
                id@,
                cp@,
                level as nat,
                *s,
            ),
            Err(e) => !circular_renderable(cp@) && e is ConversionError,
        },
{
    if cp.points.len() < 2 {
        assert(out@ =~= old(out)@ + circular_text(id@, cp@, level as nat, *s));
        return Ok(());
    }
    let half_range = half_range_of(&s.generic);
    let mut path_data = String::new();
    let mut current_x: i32 = 0;
    let mut current_y: i32 = 0;
    let mut i: usize = 0;
    while i < cp.points.len()
        invariant
            i <= cp.points.len(),
            cp.points.len() >= 2,
            half_range == curve_half_range(s.generic),
            half_range == 7 || half_range == 15,
            path_data@ == circular_path_text(cp.points@, i as nat, half_range as nat),
            i > 0 ==> current_x == circular_x(cp.points@, i - 1),
            i > 0 ==> current_y == circular_y(cp.points@, i - 1),
            forall|j: int| 0 <= j < i ==> circular_point_renderable(cp.points@, j),
        decreases cp.points.len() - i,
    {
        let pt = cp.points[i];
        let (wide_x, wide_y): (i64, i64) = if pt.is_absolute || i < 2 {
            (pt.point.x as i64, pt.point.y as i64)
        } else {
            ((current_x as i64) + (pt.point.x as i64), (current_y as i64) + (pt.point.y as i64))
        };
        assert(wide_x == circular_x(cp.points@, i as int));
        assert(wide_y == circular_y(cp.points@, i as int));
        if wide_x < -2147483648 || wide_x > 2147483647 || wide_y < -2147483648 || wide_y
            > 2147483647 {
            assert(!circular_point_renderable(cp@.points, i as int));
            assert(!circular_renderable(cp@));
            return Err(conversion_error("a point lies outside the 32-bit coordinate range"));
        }
        let target_x = wide_x as i32;
        let target_y = wide_y as i32;
        if i == 0 {
            path_data.append("M ");
            push_int(&mut path_data, target_x as i64);
            path_data.append(" ");
            push_int(&mut path_data, target_y as i64);
        } else {
            let offset_val = pt.curve_offset;
            path_data.append(" ");
            if offset_val == 0 {
                push_line_to(&mut path_data, target_x, target_y);
            } else {
                compute_arc_command(
                    &mut path_data,
                    current_x,
                    current_y,
                    target_x,
                    target_y,
                    offset_val,
                    half_range,
                );
            }
        }
        assert(path_data@ =~= circular_path_text(cp.points@, (i + 1) as nat, half_range as nat));
        current_x = target_x;
        current_y = target_y;
        i = i + 1;
    }
    let style = build_style(&cp.attributes, s.line_width_scale);
    let mut line = String::from_str("<path id=\"");
    line.append(id);
    line.append("\" d=\"");
    line.append(path_data.as_str());
    line.append("\" ");
    line.append(style.as_str());
    line.append("/>");
    assert(line@ =~= path_body(id@, path_data@, style@));
    write_line(out, s.pretty_print, level, line.as_str());
    Ok(())
}

// ---------------------------------------------------------------------
// Elements
// ---------------------------------------------------------------------
/// A simple shape. Its geometry is not decoded, so a fixed placeholder of
/// the right kind is drawn.
pub open spec fn shape_body(id: Seq<char>, shape_type: SimpleShapeType, style: Seq<char>) -> Seq<
    char,
> {
    match shape_type {
        SimpleShapeType::Rectangle => "<rect id=\""@ + id
            + "\" x=\"0\" y=\"0\" width=\"10\" height=\"10\" "@ + style + "/>"@,
        SimpleShapeType::Ellipse => "<ellipse id=\""@ + id
            + "\" cx=\"5\" cy=\"5\" rx=\"5\" ry=\"5\" "@ + style + "/>"@,
    }
}

/// An instance of another element.
pub open spec fn use_body(
    id: Seq<char>,
    ref_id: Seq<char>,
    transform: Seq<char>,
    style: Seq<char>,
) -> Seq<char> {
    "<use id=\""@ + id + "\" href=\"#"@ + ref_id + "\" "@ + transform + " "@ + style + "/>"@
}

/// The transform of one cell of an array: the operations of the reuse
/// element's own transform, followed by the translation to the cell
/// unless the cell is the one at the origin.
pub open spec fn cell_transform_text(operations: Seq<Seq<char>>, tx: int, ty: int) -> Seq<char> {
    if tx != 0 || ty != 0 {
        transform_attribute(operations.push(translation_text(tx, ty)))
    } else {
        transform_attribute(operations)
    }
}

/// The name of one cell of an array.
pub open spec fn cell_id_text(id: Seq<char>, row: nat, col: nat) -> Seq<char> {
    id + "_"@ + nat_text(row) + "_"@ + nat_text(col)
}

/// What the cells of one array have in common.
pub struct ArrayCells {
    /// Name of the reuse element.
    pub id: Seq<char>,
    /// Name of the element that is instantiated.
    pub ref_id: Seq<char>,
    /// Operations of the reuse element's own transform.
    pub base: Seq<Seq<char>>,
    /// Style attribute of the reuse element.
    pub style: Seq<char>,
    /// Distance between columns.
    pub width: int,
    /// Distance between rows.
    pub height: int,
    /// Whether tags go on lines of their own.
    pub pretty: bool,
    /// Indentation of the tags.
    pub level: nat,
    /// Number of columns.
    pub columns: nat,
}

/// One cell of an array as it is written.
pub open spec fn array_cell_text(a: ArrayCells, row: nat, col: nat) -> Seq<char> {
    line_text(
        a.pretty,
        a.level,
        use_body(
            cell_id_text(a.id, row, col),
            a.ref_id,
            cell_transform_text(a.base, col * a.width, row * a.height),
            a.style,
        ),
    )
}

/// The first `n` cells of a row of an array.
pub open spec fn array_row_text(a: ArrayCells, row: nat, n: nat) -> Seq<char>
    decreases n,
{
    if n == 0 {
        Seq::empty()
    } else {
        array_row_text(a, row, (n - 1) as nat) + array_cell_text(a, row, (n - 1) as nat)
    }
}

/// The first `n` rows of an array.
pub open spec fn array_rows_text(a: ArrayCells, n: nat) -> Seq<char>
    decreases n,
{
    if n == 0 {
        Seq::empty()
    } else {
        array_rows_text(a, (n - 1) as nat) + array_row_text(a, (n - 1) as nat, a.columns)
    }
}

/// What the cells of the array of a reuse element have in common. A
/// missing column distance is zero, a missing row distance is the column
/// distance.
pub open spec fn array_cells(
    id: Seq<char>,
    reuse: ReuseElement,
    array: ArrayParams,
    level: nat,
    s: RenderSettings,
) -> ArrayCells {
    ArrayCells {
        id,
        ref_id: element_id_text(reuse.element_index as nat),
        base: transform_parts(reuse.transform, s.generic),
        style: optional_style_text(reuse.override_attributes, s.line_width_scale),
        width: or_zero(array.width),
        height: match array.height {
            Some(h) => h as int,
            None => or_zero(array.width),
        },
        pretty: s.pretty_print,
        level,
        columns: array.columns as nat,
    }
}

/// A reuse element as it is written at the given level: one instance, or
/// one per cell of its array, row by row.
pub open spec fn reuse_text(id: Seq<char>, reuse: ReuseElement, level: nat, s: RenderSettings)
    -> Seq<char> {
    match reuse.array_params {
        Some(array) => array_rows_text(array_cells(id, reuse, array, level, s), array.rows as nat),
        None => line_text(
            s.pretty_print,
            level,
            use_body(
                id,
                element_id_text(reuse.element_index as nat),
                transform_text(reuse.transform, s.generic),
                optional_style_text(reuse.override_attributes, s.line_width_scale),
            ),
        ),
    }
}

/// The tag that opens a group. A group that is not displayed is written
/// all the same, marked as hidden.
pub open spec fn group_body(id: Seq<char>, g: GroupStartElement, generic: GenericParams) -> Seq<
    char,
> {
    "<g id=\""@ + id + "\" "@ + optional_transform_text(g.transform, generic) + (if g.display {
        Seq::empty()
    } else {
        " display=\"none\""@
    }) + ">"@
}

/// One element as it is written while `depth` groups are open. Elements
/// stand one level below the innermost open group; an end marker closes
/// that group and is ignored when no group is open.
pub open spec fn element_text(e: WvgElementView, depth: nat, s: RenderSettings) -> Seq<char> {
    match e.data {
        ElementDataView::Polyline(pl) => polyline_text(e.id, pl, depth + 1, s),
        ElementDataView::CircularPolyline(cp) => circular_text(e.id, cp, depth + 1, s),
        ElementDataView::SimpleShape(ss) => line_text(
            s.pretty_print,
            depth + 1,
            shape_body(e.id, ss.shape_type, style_text(ss.attributes, s.line_width_scale)),
        ),
        ElementDataView::Reuse(reuse) => reuse_text(e.id, reuse, depth + 1, s),
        ElementDataView::GroupStart(g) => line_text(
            s.pretty_print,
            depth + 1,
            group_body(e.id, g, s.generic),
        ),
        ElementDataView::GroupEnd => if depth > 0 {
            line_text(s.pretty_print, depth, "</g>"@)
        } else {
            Seq::empty()
        },
    }
}

/// Number of open groups after an element, given the number before it.
pub open spec fn depth_after(e: WvgElementView, depth: nat) -> nat {
    match e.data {
        ElementDataView::GroupStart(_) => depth + 1,
        ElementDataView::GroupEnd => if depth > 0 {
            (depth - 1) as nat
        } else {
            0
        },
        _ => depth,
    }
}

/// The body of an element can be drawn. Only circular polylines can
/// fail to be, and only by relative movements that add up past the
/// 32-bit range.
pub open spec fn data_renderable(data: ElementDataView) -> bool {
    match data {
        ElementDataView::CircularPolyline(cp) => circular_renderable(cp),
        _ => true,
    }
}

/// An element can be drawn.
pub open spec fn element_renderable(e: WvgElementView) -> bool {
    data_renderable(e.data)
}

/// Number of open groups after the first `n` elements.
pub open spec fn depth_upto(elements: Seq<WvgElementView>, n: nat) -> nat
    decreases n,
{
    if n == 0 {
        0
    } else {
        depth_after(elements[n - 1], depth_upto(elements, (n - 1) as nat))
    }
}

/// The first `n` elements as they are written.
pub open spec fn elements_text(elements: Seq<WvgElementView>, n: nat, s: RenderSettings) -> Seq<
    char,
>
    decreases n,
{
    if n == 0 {
        Seq::empty()
    } else {
        elements_text(elements, (n - 1) as nat, s) + element_text(
            elements[n - 1],
            depth_upto(elements, (n - 1) as nat),
            s,
        )
    }
}

/// The tags that close `depth` open groups, innermost first.
pub open spec fn closing_text(depth: nat, pretty: bool) -> Seq<char>
    decreases depth,
{
    if depth == 0 {
        Seq::empty()
    } else {
        line_text(pretty, depth, "</g>"@) + closing_text((depth - 1) as nat, pretty)
    }
}

// ---------------------------------------------------------------------
// Documents
// ---------------------------------------------------------------------
/// Width of the canvas; the compact coordinate system has none, and 100
/// stands in.
pub open spec fn canvas_width(header: WvgHeaderView) -> nat {
    match header.codec_params.coord_params {
        CoordinateParams::Flat(f) => f.drawing_width as nat,
        CoordinateParams::Compact(_) => 100,
    }
}

/// Height of the canvas; the compact coordinate system has none, and 100
/// stands in.
pub open spec fn canvas_height(header: WvgHeaderView) -> nat {
    match header.codec_params.coord_params {
        CoordinateParams::Flat(f) => f.drawing_height as nat,
        CoordinateParams::Compact(_) => 100,
    }
}

/// The tag that opens the drawing.
pub open spec fn svg_open_body(width: nat, height: nat) -> Seq<char> {
    "<svg xmlns=\"http://www.w3.org/2000/svg\" viewBox=\"0 0 "@ + nat_text(width) + " "@
        + nat_text(height) + "\">"@
}

/// The rectangle that paints the background.
pub open spec fn background_body(width: nat, height: nat, color: Color) -> Seq<char> {
    "<rect width=\""@ + nat_text(width) + "\" height=\""@ + nat_text(height) + "\" fill=\""@
        + color_text(color) + "\"/>"@
}

/// The default stroke: the default line color, or black.
pub open spec fn default_stroke_text(color: Option<Color>) -> Seq<char> {
    match color {
        Some(c) => color_text(c),
        None => "#000000"@,
    }
}

/// The default fill: the default fill color, or none.
pub open spec fn default_fill_text(color: Option<Color>) -> Seq<char> {
    match color {
        Some(c) => color_text(c),
        None => "none"@,
    }
}

/// The style sheet that sets the defaults for every shape.
pub open spec fn default_style_body(stroke: Option<Color>, fill: Option<Color>) -> Seq<char> {
    "<style>path, polyline, line, circle, ellipse, rect { stroke: "@ + default_stroke_text(stroke)
        + "; fill: "@ + default_fill_text(fill) + "; stroke-width: 1; }</style>"@
}

/// The background rectangle, written only when a background color is set.
pub open spec fn background_text(header: WvgHeaderView, pretty: bool) -> Seq<char> {
    match header.color_config.background_color {
        Some(bg) => line_text(
            pretty,
            1,
            background_body(canvas_width(header), canvas_height(header), bg),
        ),
        None => Seq::empty(),
    }
}

/// The background and the definitions that precede the elements.
pub open spec fn default_styles_text(header: WvgHeaderView, pretty: bool) -> Seq<char> {
    background_text(header, pretty) + line_text(pretty, 1, "<defs>"@) + line_text(
        pretty,
        2,
        default_style_body(
            header.color_config.default_line_color,
            header.color_config.default_fill_color,
        ),
    ) + line_text(pretty, 1, "</defs>"@)
}

/// Everything that precedes the elements.
pub open spec fn header_text(header: WvgHeaderView, pretty: bool) -> Seq<char> {
    line_text(pretty, 0, "<?xml version=\"1.0\" encoding=\"UTF-8\"?>"@) + line_text(
        pretty,
        0,
        svg_open_body(canvas_width(header), canvas_height(header)),
    ) + default_styles_text(header, pretty)
}

/// The settings under which a document is rendered with a configuration.
pub open spec fn settings_of(doc: WvgDocumentView, config: ConverterConfig) -> RenderSettings {
    RenderSettings {
        pretty_print: config.pretty_print,
        line_width_scale: config.line_width_scale,
        generic: doc.header.codec_params.generic_params,
    }
}

/// A document can be drawn: each of its elements can be, which is to say
/// that no point of a circular polyline lies outside the 32-bit range.
pub open spec fn renderable(doc: WvgDocumentView) -> bool {
    forall|i: int| 0 <= i < doc.elements.len() ==> element_renderable(#[trigger] doc.elements[i])
}

/// The markup of a document: the header, the elements, the tags that
/// close the groups still open, and the closing tag of the drawing.
pub open spec fn svg_text(doc: WvgDocumentView, config: ConverterConfig) -> Seq<char> {
    header_text(doc.header, config.pretty_print) + elements_text(
        doc.elements,
        doc.elements.len(),
        settings_of(doc, config),
    ) + closing_text(depth_upto(doc.elements, doc.elements.len()), config.pretty_print)
        + line_text(config.pretty_print, 0, "</svg>"@)
}

// ---------------------------------------------------------------------
// Exec: elements and documents
// ---------------------------------------------------------------------
/// Writes a simple shape.
fn write_simple_shape(
    out: &mut String,
    s: &RenderSettings,
    level: usize,
    id: &str,
    ss: &SimpleShapeElement,
)
    ensures
        final(out)@ == old(out)@ + line_text(
            s.pretty_print,
            level as nat,
            shape_body(id@, ss.shape_type, style_text(ss.attributes, s.line_width_scale)),
        ),
{
    let style = build_style(&ss.attributes, s.line_width_scale);
    let mut line = String::new();
    match ss.shape_type {
        SimpleShapeType::Rectangle => {
            line.append("<rect id=\"");
            line.append(id);
            line.append("\" x=\"0\" y=\"0\" width=\"10\" height=\"10\" ");
        },
        SimpleShapeType::Ellipse => {
            line.append("<ellipse id=\"");
            line.append(id);
            line.append("\" cx=\"5\" cy=\"5\" rx=\"5\" ry=\"5\" ");
        },
    }
    line.append(style.as_str());
    line.append("/>");
    assert(line@ =~= shape_body(id@, ss.shape_type, style@));
    write_line(out, s.pretty_print, level, line.as_str());
}

/// The style attribute of optional attributes.
fn build_optional_style(attrs: &Option<ElementAttributes>, scale: Option<u32>) -> (s: String)
    ensures
        s@ == optional_style_text(*attrs, scale),
{
    match attrs {
        Some(a) => build_style(a, scale),
        None => String::new(),
    }
}

/// Writes one instance of another element.
fn write_use(
    out: &mut String,
    pretty: bool,
    level: usize,
    id: &str,
    ref_id: &str,
    transform: &str,
    style: &str,
)
    ensures
        final(out)@ == old(out)@ + line_text(
            pretty,
            level as nat,
            use_body(id@, ref_id@, transform@, style@),
        ),
{
    let mut line = String::from_str("<use id=\"");
    line.append(id);
    line.append("\" href=\"#");
    line.append(ref_id);
    line.append("\" ");
    line.append(transform);
    line.append(" ");
    line.append(style);
    line.append("/>");
    assert(line@ =~= use_body(id@, ref_id@, transform@, style@));
    write_line(out, pretty, level, line.as_str());
}

/// Writes a reuse element.
fn write_reuse(out: &mut String, s: &RenderSettings, level: usize, id: &str, reuse: &ReuseElement)
    ensures
        final(out)@ == old(out)@ + reuse_text(id@, *reuse, level as nat, *s),
{
    let mut ref_id = String::from_str("el_");
    push_nat(&mut ref_id, reuse.element_index as u64);
    match reuse.array_params {
        Some(array) => {
            write_array_reuse(out, s, level, id, ref_id.as_str(), reuse, &array);
        },
        None => {
            let transform_str = build_transform(&reuse.transform, &s.generic);
            let style = build_optional_style(&reuse.override_attributes, s.line_width_scale);
            write_use(
                out,
                s.pretty_print,
                level,
                id,
                ref_id.as_str(),
                transform_str.as_str(),
                style.as_str(),
            );
        },
    }
}

/// The name of one cell of an array.
fn cell_id(id: &str, row: u8, col: u8) -> (r: String)
    ensures
        r@ == cell_id_text(id@, row as nat, col as nat),
{
    let mut r = String::from_str(id);
    r.append("_");
    push_nat(&mut r, row as u64);
    r.append("_");
    push_nat(&mut r, col as u64);
    assert(r@ =~= cell_id_text(id@, row as nat, col as nat));
    r
}

/// The transform of one cell of an array, given the operations of the
/// reuse element's own transform as text.
fn cell_transform(
    operations: &str,
    any: bool,
    own: &Transform,
    generic: &GenericParams,
    tx: i64,
    ty: i64,
) -> (r: String)
    requires
        operations@ == joined(transform_parts(*own, *generic), " "@),
        any == (transform_parts(*own, *generic).len() > 0),
    ensures
        r@ == cell_transform_text(transform_parts(*own, *generic), tx as int, ty as int),
{
    let ghost parts = transform_parts(*own, *generic);
    if tx != 0 || ty != 0 {
        let mut r = String::from_str("transform=\"");
        if any {
            r.append(operations);
            r.append(" ");
        }
        push_translation(&mut r, tx, ty);
        r.append("\"");
        proof {
            let all = parts.push(translation_text(tx as int, ty as int));
            assert(all.drop_last() =~= parts);
            assert(all.last() == translation_text(tx as int, ty as int));
            assert(r@ =~= transform_attribute(all));
        }
        r
    } else if any {
        let mut r = String::from_str("transform=\"");
        r.append(operations);
        r.append("\"");
        r
    } else {
        String::new()
    }
}

/// Writes the instances of a reuse element that has array parameters.
fn write_array_reuse(
    out: &mut String,
    s: &RenderSettings,
    level: usize,
    id: &str,
    ref_id: &str,
    reuse: &ReuseElement,
    array: &ArrayParams,
)
    requires
        ref_id@ == element_id_text(reuse.element_index as nat),
    ensures
        final(out)@ == old(out)@ + array_rows_text(
            array_cells(id@, *reuse, *array, level as nat, *s),
            array.rows as nat,
        ),
{
    let ghost a = array_cells(id@, *reuse, *array, level as nat, *s);
    let width: i32 = match array.width {
        Some(w) => w,
        None => 0,
    };
    let height: i32 = match array.height {
        Some(h) => h,
        None => width,
    };
    let style = build_optional_style(&reuse.override_attributes, s.line_width_scale);
    let (operations, any) = build_operations(&reuse.transform, &s.generic);
    let mut row: u8 = 0;
    assert(out@ =~= old(out)@ + array_rows_text(a, 0));
    while row < array.rows
        invariant
            row <= array.rows,
            a == array_cells(id@, *reuse, *array, level as nat, *s),
            ref_id@ == a.ref_id,
            operations@ == joined(a.base, " "@),
            any == (a.base.len() > 0),
            a.base == transform_parts(reuse.transform, s.generic),
            style@ == a.style,
            width == a.width,
            height == a.height,
            out@ == old(out)@ + array_rows_text(a, row as nat),
        decreases array.rows - row,
    {
        let ghost before = out@;
        let mut col: u8 = 0;
        assert(out@ =~= before + array_row_text(a, row as nat, 0));
        while col < array.columns
            invariant
                col <= array.columns,
                row < array.rows,
                a == array_cells(id@, *reuse, *array, level as nat, *s),
                ref_id@ == a.ref_id,
                operations@ == joined(a.base, " "@),
                any == (a.base.len() > 0),
                a.base == transform_parts(reuse.transform, s.generic),
                style@ == a.style,
                width == a.width,
                height == a.height,
                out@ == before + array_row_text(a, row as nat, col as nat),
            decreases array.columns - col,
        {
            assert(-255 * 0x8000_0000 <= col * width <= 255 * 0x8000_0000) by (nonlinear_arith)
                requires
                    0 <= col <= 255,
                    -0x8000_0000 <= width <= 0x7fff_ffff,
            ;
            assert(-255 * 0x8000_0000 <= row * height <= 255 * 0x8000_0000) by (nonlinear_arith)
                requires
                    0 <= row <= 255,
                    -0x8000_0000 <= height <= 0x7fff_ffff,
            ;
            let tx: i64 = (col as i64) * (width as i64);
            let ty: i64 = (row as i64) * (height as i64);
            let name = cell_id(id, row, col);
            let combined = cell_transform(
                operations.as_str(),
                any,
                &reuse.transform,
                &s.generic,
                tx,
                ty,
            );
            write_use(
                out,
                s.pretty_print,
                level,
                name.as_str(),
                ref_id,
                combined.as_str(),
                style.as_str(),
            );
            assert(out@ =~= before + array_row_text(a, row as nat, (col + 1) as nat));
            col = col + 1;
        }
        assert(out@ =~= old(out)@ + array_rows_text(a, (row + 1) as nat));
        row = row + 1;
    }
}

/// Writes the tag that opens a group.
fn write_group_start(
    out: &mut String,
    s: &RenderSettings,
    level: usize,
    id: &str,
    gs: &GroupStartElement,
)
    ensures
        final(out)@ == old(out)@ + line_text(
            s.pretty_print,
            level as nat,
            group_body(id@, *gs, s.generic),
        ),
{
    let transform_str = match gs.transform {
        Some(t) => build_transform(&t, &s.generic),
        None => String::new(),
    };
    let mut line = String::from_str("<g id=\"");
    line.append(id);
    line.append("\" ");
    line.append(transform_str.as_str());
    if !gs.display {
        line.append(" display=\"none\"");
    }
    line.append(">");
    assert(line@ =~= group_body(id@, *gs, s.generic));
    write_line(out, s.pretty_print, level, line.as_str());
}

/// Writes one element and keeps the stack of open groups up to date, or
/// says that the element cannot be drawn.
fn write_element(
    out: &mut String,
    s: &RenderSettings,
    element: &WvgElement,
    group_stack: &mut Vec<bool>,
) -> (r: WvgResult<()>)
    requires
        old(group_stack)@.len() < usize::MAX,
    ensures
        match r {
            Ok(_) => {
                &&& element_renderable(element@)
                &&& final(out)@ == old(out)@ + element_text(
                    element@,
                    old(group_stack)@.len(),
                    *s,
                )
                &&& final(group_stack)@.len() == depth_after(element@, old(group_stack)@.len())
            },
            Err(e) => !element_renderable(element@) && e is ConversionError,
        },
{
    let depth = group_stack.len();
    let id = element.id.as_str();
    match &element.data {
        ElementData::Polyline(pl) => {
            write_polyline(out, s, depth + 1, id, pl);
            Ok(())
        },
        ElementData::CircularPolyline(cp) => write_circular_polyline(out, s, depth + 1, id, cp),
        ElementData::SimpleShape(ss) => {
            write_simple_shape(out, s, depth + 1, id, ss);
            Ok(())
        },
        ElementData::Reuse(reuse) => {
            write_reuse(out, s, depth + 1, id, reuse);
            Ok(())
        },
        ElementData::GroupStart(gs) => {
            write_group_start(out, s, depth + 1, id, gs);
            group_stack.push(true);
            Ok(())
        },
        ElementData::GroupEnd => {
            if depth > 0 {
                let _ = group_stack.pop();
                write_line(out, s.pretty_print, depth, "</g>");
            } else {
                assert(out@ =~= old(out)@ + element_text(element@, 0, *s));
            }
            Ok(())
        },
    }
}

/// Writes all elements and closes the groups that are still open after
/// the last one, or says that an element cannot be drawn.
fn write_elements(out: &mut String, s: &RenderSettings, elements: &Vec<WvgElement>) -> (r:
    WvgResult<()>)
    ensures
        match r {
            Ok(_) => {
                &&& forall|i: int|
                    0 <= i < elements@.len() ==> element_renderable(
                        #[trigger] element_views(elements@)[i],
                    )
                &&& final(out)@ == old(out)@ + elements_text(
                    element_views(elements@),
                    elements@.len(),
                    *s,
                ) + closing_text(
                    depth_upto(element_views(elements@), elements@.len()),
                    s.pretty_print,
                )
            },
            Err(e) => e is ConversionError && exists|i: int|
                0 <= i < elements@.len() && !element_renderable(
                    #[trigger] element_views(elements@)[i],
                ),
        },
{
    let ghost views = element_views(elements@);
    let mut group_stack: Vec<bool> = Vec::new();
    let mut i: usize = 0;
    assert(out@ =~= old(out)@ + elements_text(views, 0, *s));
    while i < elements.len()
        invariant
            i <= elements.len(),
            views == element_views(elements@),
            group_stack@.len() == depth_upto(views, i as nat),
            group_stack@.len() <= i,
            out@ == old(out)@ + elements_text(views, i as nat, *s),
            forall|j: int| 0 <= j < i ==> element_renderable(#[trigger] views[j]),
        decreases elements.len() - i,
    {
        let ghost before = out@;
        assert(views[i as int] == elements@[i as int]@);
        match write_element(out, s, &elements[i], &mut group_stack) {
            Ok(_) => {},
            Err(e) => {
                assert(!element_renderable(views[i as int]));
                return Err(e);
            },
        }
        assert(out@ =~= old(out)@ + elements_text(views, (i + 1) as nat, *s));
        i = i + 1;
    }
    let ghost body = out@;
    let ghost open = group_stack@.len();
    assert(out@ + closing_text(open, s.pretty_print) =~= body + closing_text(
        open,
        s.pretty_print,
    ));
    while group_stack.len() > 0
        invariant
            out@ + closing_text(group_stack@.len(), s.pretty_print) == body + closing_text(
                open,
                s.pretty_print,
            ),
        decreases group_stack@.len(),
    {
        let ghost before = out@;
        let depth = group_stack.len();
        let _ = group_stack.pop();
        write_line(out, s.pretty_print, depth, "</g>");
        assert(out@ + closing_text(group_stack@.len(), s.pretty_print) =~= before + closing_text(
            depth as nat,
            s.pretty_print,
        ));
    }
    assert(out@ =~= out@ + closing_text(0, s.pretty_print));
    Ok(())
}

/// Width and height of the canvas.
fn canvas_size(header: &WvgHeader) -> (size: (u16, u16))
    ensures
        size.0 == canvas_width(header@),
        size.1 == canvas_height(header@),
{
    match header.codec_params.coord_params {
        CoordinateParams::Flat(params) => (params.drawing_width, params.drawing_height),
        CoordinateParams::Compact(_) => (100, 100),
    }
}

/// Writes the background and the definitions that precede the elements.
fn write_default_styles(out: &mut String, header: &WvgHeader, pretty: bool)
    ensures
        final(out)@ == old(out)@ + default_styles_text(header@, pretty),
{
    write_background(out, header, pretty);
    write_line(out, pretty, 1, "<defs>");
    let line = default_style(&header.color_config.default_line_color, &header.color_config.default_fill_color);
    write_line(out, pretty, 2, line.as_str());
    write_line(out, pretty, 1, "</defs>");
    assert(out@ =~= old(out)@ + default_styles_text(header@, pretty));
}

/// Writes the rectangle that paints the background, if a background
/// color is set.
fn write_background(out: &mut String, header: &WvgHeader, pretty: bool)
    ensures
        final(out)@ == old(out)@ + background_text(header@, pretty),
{
    let (width, height) = canvas_size(header);
    match header.color_config.background_color {
        Some(bg) => {
            let mut line = String::from_str("<rect width=\"");
            push_nat(&mut line, width as u64);
            line.append("\" height=\"");
            push_nat(&mut line, height as u64);
            line.append("\" fill=\"");
            push_color(&mut line, bg);
            line.append("\"/>");
            assert(line@ =~= background_body(width as nat, height as nat, bg));
            write_line(out, pretty, 1, line.as_str());
        },
        None => {
            assert(out@ =~= old(out)@ + background_text(header@, pretty));
        },
    }
}

/// The style sheet that sets the defaults for every shape.
fn default_style(stroke: &Option<Color>, fill: &Option<Color>) -> (line: String)
    ensures
        line@ == default_style_body(*stroke, *fill),
{
    let stroke_text = match stroke {
        Some(c) => color_to_hex(c),
        None => String::from_str("#000000"),
    };
    let fill_text = match fill {
        Some(c) => color_to_hex(c),
        None => String::from_str("none"),
    };
    let mut line = String::from_str(
        "<style>path, polyline, line, circle, ellipse, rect { stroke: ",
    );
    line.append(stroke_text.as_str());
    line.append("; fill: ");
    line.append(fill_text.as_str());
    line.append("; stroke-width: 1; }</style>");
    assert(line@ =~= default_style_body(*stroke, *fill));
    line
}

/// Writes everything that precedes the elements.
fn write_header(out: &mut String, header: &WvgHeader, pretty: bool)
    ensures
        final(out)@ == old(out)@ + header_text(header@, pretty),
{
    let (width, height) = canvas_size(header);
    write_line(out, pretty, 0, "<?xml version=\"1.0\" encoding=\"UTF-8\"?>");
    let mut line = String::from_str("<svg xmlns=\"http://www.w3.org/2000/svg\" viewBox=\"0 0 ");
    push_nat(&mut line, width as u64);
    line.append(" ");
    push_nat(&mut line, height as u64);
    line.append("\">");
    assert(line@ =~= svg_open_body(width as nat, height as nat));
    write_line(out, pretty, 0, line.as_str());
    write_default_styles(out, header, pretty);
    assert(out@ =~= old(out)@ + header_text(header@, pretty));
}

/// Writes the tag that closes the drawing.
fn write_footer(out: &mut String, pretty: bool)
    ensures
        final(out)@ == old(out)@ + line_text(pretty, 0, "</svg>"@),
{
    write_line(out, pretty, 0, "</svg>");
}

/// Renders documents as SVG markup.
pub struct SvgConverter {
    config: ConverterConfig,
}

impl SvgConverter {
    /// The configuration the converter renders with.
    pub closed spec fn config(&self) -> ConverterConfig {
        self.config
    }

    /// A converter with the plain configuration.
    pub fn new() -> (c: Self)
        ensures
            c.config() == ConverterConfig::plain(),
    {
        Self { config: ConverterConfig::new() }
    }

    /// A converter with the given configuration.
    pub fn with_config(config: ConverterConfig) -> (c: Self)
        ensures
            c.config() == config,
    {
        Self { config }
    }
}

impl Default for SvgConverter {
    fn default() -> (c: Self)
        ensures
            c.config() == ConverterConfig::plain(),
    {
        Self::new()
    }
}

impl Converter for SvgConverter {
    type Output = String;

    /// Renders the document.
    ///
    /// The result is exactly the markup that [`svg_text`] defines. The one
    /// thing that cannot be drawn, and is rejected with a conversion
    /// error, is a circular polyline whose relative movements carry a
    /// point outside the 32-bit coordinate range; decoded documents never
    /// hold one.
    fn convert(&self, document: &WvgDocument) -> (r: WvgResult<String>)
        ensures
            match r {
                Ok(text) => renderable(document@) && text@ == svg_text(document@, self.config()),
                Err(e) => !renderable(document@) && e is ConversionError,
            },
    {
        let generic = document.header.codec_params.generic_params;
        let s = RenderSettings {
            pretty_print: self.config.pretty_print,
            line_width_scale: self.config.line_width_scale,
            generic,
        };
        let mut out = String::new();
        write_header(&mut out, &document.header, s.pretty_print);
        match write_elements(&mut out, &s, &document.elements) {
            Ok(_) => {},
            Err(e) => {
                proof {
                    let views = element_views(document.elements@);
                    let i = choose|i: int|
                        0 <= i < document.elements@.len() && !element_renderable(
                            #[trigger] views[i],
                        );
                    assert(!element_renderable(document@.elements[i]));
                }
                return Err(e);
            },
        }
        write_footer(&mut out, s.pretty_print);
        assert(out@ =~= svg_text(document@, self.config));
        Ok(out)
    }
}

} // verus!
