//! The document model: what a decoded drawing consists of.
//!
//! Types that own a `Vec` or a `String` come with a view type in which
//! those are sequences; contracts speak of the views.
use vstd::prelude::*;
use vstd::std_specs::convert::FromSpecImpl;

verus! {

/// A decoded drawing: its header and its elements in stream order.
#[derive(Debug, Clone)]
pub struct WvgDocument {
    /// Metadata and the parameters the elements were decoded with.
    pub header: WvgHeader,
    /// The elements, in the order in which they were decoded.
    pub elements: Vec<WvgElement>,
}

/// Mathematical value of a [`WvgDocument`].
pub struct WvgDocumentView {
    pub header: WvgHeaderView,
    pub elements: Seq<WvgElementView>,
}

/// The mathematical values of a list of elements.
pub open spec fn element_views(elements: Seq<WvgElement>) -> Seq<WvgElementView> {
    Seq::new(elements.len(), |i: int| elements[i]@)
}

impl View for WvgDocument {
    type V = WvgDocumentView;

    open spec fn view(&self) -> WvgDocumentView {
        WvgDocumentView { header: self.header@, elements: element_views(self.elements@) }
    }
}

/// Everything that precedes the elements.
#[derive(Debug, Clone)]
pub struct WvgHeader {
    /// Version and optional descriptive fields.
    pub general_info: GeneralInfo,
    /// Color scheme and default colors.
    pub color_config: ColorConfig,
    /// Parameters that govern how elements are encoded.
    pub codec_params: CodecParams,
    /// Animation mode, present only when animation elements are enabled.
    pub animation_mode: Option<AnimationMode>,
}

/// Mathematical value of a [`WvgHeader`].
pub struct WvgHeaderView {
    pub general_info: GeneralInfoView,
    pub color_config: ColorConfig,
    pub codec_params: CodecParamsView,
    pub animation_mode: Option<AnimationMode>,
}

impl View for WvgHeader {
    type V = WvgHeaderView;

    open spec fn view(&self) -> WvgHeaderView {
        WvgHeaderView {
            general_info: self.general_info@,
            color_config: self.color_config,
            codec_params: self.codec_params@,
            animation_mode: self.animation_mode,
        }
    }
}

/// Version and optional descriptive fields of a drawing.
#[derive(Debug, Clone)]
pub struct GeneralInfo {
    /// Format version.
    pub version: u8,
    /// How the characters of author and title are encoded.
    pub text_code_mode: Option<TextCodeMode>,
    /// Author, if the drawing names one.
    pub author: Option<String>,
    /// Title, if the drawing has one.
    pub title: Option<String>,
    /// Creation time, if recorded.
    pub timestamp: Option<Timestamp>,
}

/// Mathematical value of a [`GeneralInfo`].
pub struct GeneralInfoView {
    pub version: u8,
    pub text_code_mode: Option<TextCodeMode>,
    pub author: Option<Seq<char>>,
    pub title: Option<Seq<char>>,
    pub timestamp: Option<Timestamp>,
}

/// The characters of an optional string.
pub open spec fn optional_text(s: Option<String>) -> Option<Seq<char>> {
    match s {
        Some(t) => Some(t@),
        None => None,
    }
}

impl View for GeneralInfo {
    type V = GeneralInfoView;

    open spec fn view(&self) -> GeneralInfoView {
        GeneralInfoView {
            version: self.version,
            text_code_mode: self.text_code_mode,
            author: optional_text(self.author),
            title: optional_text(self.title),
            timestamp: self.timestamp,
        }
    }
}

impl Default for GeneralInfo {
    fn default() -> (r: Self)
        ensures
            r@ == (GeneralInfoView {
                version: 0,
                text_code_mode: None,
                author: None,
                title: None,
                timestamp: None,
            }),
    {
        GeneralInfo { version: 0, text_code_mode: None, author: None, title: None, timestamp: None }
    }
}

/// Character encoding of the strings in the header.
#[derive(Debug, Clone, Copy, PartialEq, Eq, Structural)]
pub enum TextCodeMode {
    /// Seven bits per character (GSM alphabet).
    Gsm7Bit,
    /// Sixteen bits per character (UCS-2).
    Ucs2,
}

/// A point in time as recorded in the header.
#[derive(Debug, Clone, Copy)]
pub struct Timestamp {
    pub year: i16,
    pub month: u8,
    pub day: u8,
    pub hour: u8,
    pub minute: u8,
    pub second: u8,
}

/// Color scheme with the default colors that the header may set.
#[derive(Debug, Clone, Copy)]
pub struct ColorConfig {
    /// How colors are encoded in this drawing.
    pub scheme: ColorScheme,
    /// Line color for elements that set none.
    pub default_line_color: Option<Color>,
    /// Fill color for elements that set none.
    pub default_fill_color: Option<Color>,
    /// Color of the canvas.
    pub background_color: Option<Color>,
}

impl Default for ColorConfig {
    fn default() -> (r: Self)
        ensures
            r == (ColorConfig {
                scheme: ColorScheme::BlackAndWhite,
                default_line_color: None,
                default_fill_color: None,
                background_color: None,
            }),
    {
        ColorConfig {
            scheme: ColorScheme::BlackAndWhite,
            default_line_color: None,
            default_fill_color: None,
            background_color: None,
        }
    }
}

/// The ways in which a drawing can encode its colors.
#[derive(Debug, Clone, Copy, PartialEq, Eq, Structural)]
pub enum ColorScheme {
    /// One bit: black or white.
    BlackAndWhite,
    /// Two bits: four levels of gray.
    Grayscale2Bit,
    /// Two bits: white, red, green or blue.
    Predefined2Bit,
    /// Six bits: two per channel.
    Rgb6Bit,
    /// Eight bits: an index into the websafe table.
    Websafe,
    /// Six-bit colors through a palette carried in the header.
    Rgb6BitPalette,
    /// Websafe colors through a palette carried in the header.
    WebsafePalette,
    /// Twelve bits: four per channel.
    Rgb12Bit,
    /// Twenty-four bits: eight per channel.
    Rgb24Bit,
}

/// A color as red, green and blue intensities.
#[derive(Debug, Clone, Copy, PartialEq, Eq, Structural)]
pub struct Color {
    pub r: u8,
    pub g: u8,
    pub b: u8,
}

impl Color {
    /// Black.
    pub open spec fn spec_black() -> Color {
        Color { r: 0, g: 0, b: 0 }
    }

    /// White.
    pub open spec fn spec_white() -> Color {
        Color { r: 255, g: 255, b: 255 }
    }

    /// Black.
    #[verifier::when_used_as_spec(spec_black)]
    pub fn black() -> (c: Self)
        ensures
            c == Color::spec_black(),
    {
        Color { r: 0, g: 0, b: 0 }
    }

    /// White.
    #[verifier::when_used_as_spec(spec_white)]
    pub fn white() -> (c: Self)
        ensures
            c == Color::spec_white(),
    {
        Color { r: 255, g: 255, b: 255 }
    }

    /// The color with the given intensities.
    pub fn new(r: u8, g: u8, b: u8) -> (c: Self)
        ensures
            c == (Color { r, g, b }),
    {
        Color { r, g, b }
    }
}

/// Parameters that govern how elements are encoded.
#[derive(Debug, Clone)]
pub struct CodecParams {
    /// Which element kinds the drawing may contain, in the fixed kind order.
    pub element_masks: Vec<bool>,
    /// Which attributes elements may carry.
    pub attribute_masks: AttributeMasks,
    /// Widths and resolutions of angles, scales and indices.
    pub generic_params: GenericParams,
    /// The coordinate system.
    pub coord_params: CoordinateParams,
}

/// Mathematical value of a [`CodecParams`].
pub struct CodecParamsView {
    pub element_masks: Seq<bool>,
    pub attribute_masks: AttributeMasks,
    pub generic_params: GenericParams,
    pub coord_params: CoordinateParams,
}

impl View for CodecParams {
    type V = CodecParamsView;

    open spec fn view(&self) -> CodecParamsView {
        CodecParamsView {
            element_masks: self.element_masks@,
            attribute_masks: self.attribute_masks,
            generic_params: self.generic_params,
            coord_params: self.coord_params,
        }
    }
}

/// Which attributes the elements of a drawing may carry.
#[derive(Debug, Clone, Copy)]
pub struct AttributeMasks {
    /// Elements may set a line type.
    pub line_type: bool,
    /// Elements may set a line width.
    pub line_width: bool,
    /// Elements may set a line color.
    pub line_color: bool,
    /// Elements may set a fill.
    pub fill: bool,
}

impl Default for AttributeMasks {
    fn default() -> (r: Self)
        ensures
            r == (AttributeMasks {
                line_type: false,
                line_width: false,
                line_color: false,
                fill: false,
            }),
    {
        AttributeMasks { line_type: false, line_width: false, line_color: false, fill: false }
    }
}

/// How finely angles or scales are resolved: the unit is the coarsest
/// one halved zero to three times. The format has two bits for it, so
/// there is no fifth value.
#[derive(Debug, Clone, Copy, PartialEq, Eq, Structural)]
pub enum Resolution {
    /// The coarsest unit.
    Full,
    /// Half the coarsest unit.
    Half,
    /// A quarter of the coarsest unit.
    Quarter,
    /// An eighth of the coarsest unit.
    Eighth,
}

impl Resolution {
    /// The resolution that a two-bit code stands for: the code is the
    /// number of halvings.
    pub open spec fn of_code(code: u32) -> Resolution {
        if code == 0 {
            Resolution::Full
        } else if code == 1 {
            Resolution::Half
        } else if code == 2 {
            Resolution::Quarter
        } else {
            Resolution::Eighth
        }
    }

    /// How many times the coarsest unit is halved.
    pub open spec fn spec_halvings(self) -> u8 {
        match self {
            Resolution::Full => 0,
            Resolution::Half => 1,
            Resolution::Quarter => 2,
            Resolution::Eighth => 3,
        }
    }

    /// The resolution that a two-bit code stands for.
    pub fn from_code(code: u32) -> (r: Self)
        ensures
            r == Resolution::of_code(code),
    {
        if code == 0 {
            Resolution::Full
        } else if code == 1 {
            Resolution::Half
        } else if code == 2 {
            Resolution::Quarter
        } else {
            Resolution::Eighth
        }
    }

    /// How many times the coarsest unit is halved.
    #[verifier::when_used_as_spec(spec_halvings)]
    pub fn halvings(self) -> (n: u8)
        ensures
            n == self.spec_halvings(),
    {
        match self {
            Resolution::Full => 0,
            Resolution::Half => 1,
            Resolution::Quarter => 2,
            Resolution::Eighth => 3,
        }
    }
}

/// Widths and resolutions of angles, scales and element indices.
#[derive(Debug, Clone, Copy)]
pub struct GenericParams {
    /// The angle unit: 22.5 degrees, halved as the resolution says.
    pub angle_resolution: Resolution,
    /// One less than the number of bits of an angle value.
    pub angle_in_bits: u8,
    /// The scale unit: a quarter, halved as the resolution says.
    pub scale_resolution: Resolution,
    /// One less than the number of bits of a scale value.
    pub scale_in_bits: u8,
    /// One less than the number of bits of an element index.
    pub index_in_bits: u8,
    /// Selects the width of curve offsets: 0 for four bits, 1 for five.
    pub curve_offset_in_bits: Option<u8>,
}

impl Default for GenericParams {
    fn default() -> (r: Self)
        ensures
            r == (GenericParams {
                angle_resolution: Resolution::Eighth,
                angle_in_bits: 2,
                scale_resolution: Resolution::Full,
                scale_in_bits: 2,
                index_in_bits: 2,
                curve_offset_in_bits: None,
            }),
    {
        GenericParams {
            angle_resolution: Resolution::Eighth,
            angle_in_bits: 2,
            scale_resolution: Resolution::Full,
            scale_in_bits: 2,
            index_in_bits: 2,
            curve_offset_in_bits: None,
        }
    }
}

/// The coordinate system of a drawing.
#[derive(Debug, Clone, Copy)]
pub enum CoordinateParams {
    /// Coordinates are plain numbers of configured widths.
    Flat(FlatCoordinateParams),
    /// The compact mode, which is recognised but not decoded.
    Compact(CompactCoordinateParams),
}

/// Canvas size and field widths of the flat coordinate system.
#[derive(Debug, Clone, Copy)]
pub struct FlatCoordinateParams {
    /// Canvas width.
    pub drawing_width: u16,
    /// Canvas height.
    pub drawing_height: u16,
    /// Bits of an absolute X coordinate.
    pub max_x_in_bits: u8,
    /// Bits of an absolute Y coordinate.
    pub max_y_in_bits: u8,
    /// Absolute coordinates are unsigned.
    pub xy_all_positive: bool,
    /// Bits of a translation value.
    pub trans_xy_in_bits: u8,
    /// Bits of a point count.
    pub num_points_in_bits: u8,
    /// Bits of a fine X offset.
    pub offset_x_in_bits_level1: u8,
    /// Bits of a fine Y offset.
    pub offset_y_in_bits_level1: u8,
    /// Bits of a coarse X offset.
    pub offset_x_in_bits_level2: u8,
    /// Bits of a coarse Y offset.
    pub offset_y_in_bits_level2: u8,
}

/// Parameters of the compact coordinate system; none are decoded.
#[derive(Debug, Clone, Copy)]
pub struct CompactCoordinateParams {}

impl Default for CompactCoordinateParams {
    fn default() -> (r: Self) {
        CompactCoordinateParams {  }
    }
}

/// How animation elements are encoded.
#[derive(Debug, Clone, Copy, PartialEq, Eq, Structural)]
pub enum AnimationMode {
    /// Simple animation.
    Simple,
    /// Standard animation.
    Standard,
}

/// One element of a drawing.
#[derive(Debug, Clone)]
pub struct WvgElement {
    /// Name by which other elements and the markup refer to this one.
    pub id: String,
    /// What the element is.
    pub data: ElementData,
}

/// Mathematical value of a [`WvgElement`].
pub struct WvgElementView {
    pub id: Seq<char>,
    pub data: ElementDataView,
}

impl View for WvgElement {
    type V = WvgElementView;

    open spec fn view(&self) -> WvgElementView {
        WvgElementView { id: self.id@, data: self.data@ }
    }
}

/// The kinds of element that are decoded.
#[derive(Debug, Clone)]
pub enum ElementData {
    /// Connected straight segments.
    Polyline(PolylineElement),
    /// Connected segments, each straight or a circular arc.
    CircularPolyline(CircularPolylineElement),
    /// Opens a group.
    GroupStart(GroupStartElement),
    /// Closes the innermost open group.
    GroupEnd,
    /// Another instance of an earlier element.
    Reuse(ReuseElement),
    /// A rectangle or an ellipse.
    SimpleShape(SimpleShapeElement),
}

/// Mathematical value of an [`ElementData`].
pub enum ElementDataView {
    Polyline(PolylineView),
    CircularPolyline(CircularPolylineView),
    GroupStart(GroupStartElement),
    GroupEnd,
    Reuse(ReuseElement),
    SimpleShape(SimpleShapeElement),
}

impl View for ElementData {
    type V = ElementDataView;

    open spec fn view(&self) -> ElementDataView {
        match self {
            ElementData::Polyline(p) => ElementDataView::Polyline(p@),
            ElementData::CircularPolyline(c) => ElementDataView::CircularPolyline(c@),
            ElementData::GroupStart(g) => ElementDataView::GroupStart(*g),
            ElementData::GroupEnd => ElementDataView::GroupEnd,
            ElementData::Reuse(r) => ElementDataView::Reuse(*r),
            ElementData::SimpleShape(s) => ElementDataView::SimpleShape(*s),
        }
    }
}

/// Connected straight segments through a list of absolute points.
#[derive(Debug, Clone)]
pub struct PolylineElement {
    /// Styling.
    pub attributes: ElementAttributes,
    /// The points, all absolute.
    pub points: Vec<Point>,
}

/// Mathematical value of a [`PolylineElement`].
pub struct PolylineView {
    pub attributes: ElementAttributes,
    pub points: Seq<Point>,
}

impl View for PolylineElement {
    type V = PolylineView;

    open spec fn view(&self) -> PolylineView {
        PolylineView { attributes: self.attributes, points: self.points@ }
    }
}

/// Connected segments, each a straight line or a circular arc.
#[derive(Debug, Clone)]
pub struct CircularPolylineElement {
    /// Styling.
    pub attributes: ElementAttributes,
    /// The points with the curvature of the segment that leads to each.
    pub points: Vec<CircularPoint>,
}

/// Mathematical value of a [`CircularPolylineElement`].
pub struct CircularPolylineView {
    pub attributes: ElementAttributes,
    pub points: Seq<CircularPoint>,
}

impl View for CircularPolylineElement {
    type V = CircularPolylineView;

    open spec fn view(&self) -> CircularPolylineView {
        CircularPolylineView { attributes: self.attributes, points: self.points@ }
    }
}

/// A point of a circular polyline.
#[derive(Debug, Clone, Copy)]
pub struct CircularPoint {
    /// How far the segment that ends here bulges; zero is a straight line.
    pub curve_offset: i8,
    /// Coordinates, absolute or relative to the previous point.
    pub point: Point,
    /// Whether the coordinates are absolute.
    pub is_absolute: bool,
}

/// A point of the plane.
#[derive(Debug, Clone, Copy)]
pub struct Point {
    pub x: i32,
    pub y: i32,
}

impl Point {
    /// The point with the given coordinates.
    pub fn new(x: i32, y: i32) -> (p: Self)
        ensures
            p == (Point { x, y }),
    {
        Point { x, y }
    }
}

/// Styling that an element may carry; absent fields fall back to defaults.
#[derive(Debug, Clone, Copy)]
pub struct ElementAttributes {
    /// Dash pattern.
    pub line_type: Option<LineType>,
    /// Stroke width.
    pub line_width: Option<LineWidth>,
    /// Stroke color.
    pub line_color: Option<Color>,
    /// Whether the element is filled.
    pub fill: Option<bool>,
    /// Fill color.
    pub fill_color: Option<Color>,
}

impl ElementAttributes {
    /// Attributes with every field absent.
    pub open spec fn empty() -> ElementAttributes {
        ElementAttributes {
            line_type: None,
            line_width: None,
            line_color: None,
            fill: None,
            fill_color: None,
        }
    }
}

impl Default for ElementAttributes {
    fn default() -> (r: Self)
        ensures
            r == ElementAttributes::empty(),
    {
        ElementAttributes {
            line_type: None,
            line_width: None,
            line_color: None,
            fill: None,
            fill_color: None,
        }
    }
}

/// Dash patterns of a stroke.
#[derive(Debug, Clone, Copy, PartialEq, Eq, Structural)]
pub enum LineType {
    /// Unbroken.
    Solid,
    /// Long dashes.
    Dashed,
    /// Dots.
    Dotted,
    /// Dashes and dots in turn.
    DashDot,
}

impl LineType {
    /// The line type that a two-bit code stands for; larger codes read as solid.
    pub open spec fn of_code(code: u32) -> LineType {
        if code == 1 {
            LineType::Dashed
        } else if code == 2 {
            LineType::Dotted
        } else if code == 3 {
            LineType::DashDot
        } else {
            LineType::Solid
        }
    }
}

impl From<u32> for LineType {
    fn from(value: u32) -> (r: Self) {
        if value == 1 {
            LineType::Dashed
        } else if value == 2 {
            LineType::Dotted
        } else if value == 3 {
            LineType::DashDot
        } else {
            LineType::Solid
        }
    }
}

impl FromSpecImpl<u32> for LineType {
    open spec fn obeys_from_spec() -> bool {
        true
    }

    open spec fn from_spec(value: u32) -> LineType {
        LineType::of_code(value)
    }
}

/// Stroke widths.
#[derive(Debug, Clone, Copy, PartialEq, Eq, Structural)]
pub enum LineWidth {
    /// No stroke at all.
    NoLine,
    /// The thinnest stroke.
    Fine,
    /// The usual stroke.
    Normal,
    /// The thickest stroke.
    Thick,
}

impl LineWidth {
    /// The line width that a two-bit code stands for; larger codes read as fine.
    pub open spec fn of_code(code: u32) -> LineWidth {
        if code == 0 {
            LineWidth::NoLine
        } else if code == 2 {
            LineWidth::Normal
        } else if code == 3 {
            LineWidth::Thick
        } else {
            LineWidth::Fine
        }
    }
}

impl From<u32> for LineWidth {
    fn from(value: u32) -> (r: Self) {
        if value == 0 {
            LineWidth::NoLine
        } else if value == 2 {
            LineWidth::Normal
        } else if value == 3 {
            LineWidth::Thick
        } else {
            LineWidth::Fine
        }
    }
}

impl FromSpecImpl<u32> for LineWidth {
    open spec fn obeys_from_spec() -> bool {
        true
    }

    open spec fn from_spec(value: u32) -> LineWidth {
        LineWidth::of_code(value)
    }
}

/// Opens a group of elements.
#[derive(Debug, Clone, Copy)]
pub struct GroupStartElement {
    /// Transform applied to the whole group, if any.
    pub transform: Option<Transform>,
    /// Whether the group is shown.
    pub display: bool,
}

/// Another instance of an element decoded earlier.
#[derive(Debug, Clone, Copy)]
pub struct ReuseElement {
    /// Position of the referenced element in the element list.
    pub element_index: u32,
    /// Transform applied to the instance.
    pub transform: Transform,
    /// Grid replication, if any.
    pub array_params: Option<ArrayParams>,
    /// Styling that replaces that of the referenced element, if any.
    pub override_attributes: Option<ElementAttributes>,
}

/// Replication of a reused element in a grid.
#[derive(Debug, Clone, Copy)]
pub struct ArrayParams {
    /// Number of columns.
    pub columns: u8,
    /// Number of rows.
    pub rows: u8,
    /// Horizontal distance between columns.
    pub width: Option<i32>,
    /// Vertical distance between rows.
    pub height: Option<i32>,
}

/// A transform; an absent component leaves that aspect untouched.
#[derive(Debug, Clone, Copy)]
pub struct Transform {
    /// Horizontal translation.
    pub translate_x: Option<i32>,
    /// Vertical translation.
    pub translate_y: Option<i32>,
    /// Rotation, in angle units.
    pub angle: Option<i32>,
    /// Horizontal scale, in scale units added to one.
    pub scale_x: Option<i32>,
    /// Vertical scale, in scale units added to one.
    pub scale_y: Option<i32>,
    /// Horizontal center of rotation and scaling.
    pub cx: Option<i32>,
    /// Vertical center of rotation and scaling.
    pub cy: Option<i32>,
}

impl Transform {
    /// The transform with every component absent.
    pub open spec fn identity() -> Transform {
        Transform {
            translate_x: None,
            translate_y: None,
            angle: None,
            scale_x: None,
            scale_y: None,
            cx: None,
            cy: None,
        }
    }
}

impl Default for Transform {
    fn default() -> (r: Self)
        ensures
            r == Transform::identity(),
    {
        Transform {
            translate_x: None,
            translate_y: None,
            angle: None,
            scale_x: None,
            scale_y: None,
            cx: None,
            cy: None,
        }
    }
}

/// A rectangle or an ellipse.
#[derive(Debug, Clone, Copy)]
pub struct SimpleShapeElement {
    /// Which of the two shapes.
    pub shape_type: SimpleShapeType,
    /// Styling.
    pub attributes: ElementAttributes,
}

/// The simple shapes.
#[derive(Debug, Clone, Copy, PartialEq, Eq, Structural)]
pub enum SimpleShapeType {
    /// A rectangle.
    Rectangle,
    /// An ellipse.
    Ellipse,
}

} // verus!
