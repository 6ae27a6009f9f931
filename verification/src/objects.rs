//! The typed objects of an ISO 11783-6 object pool: a tagged union over
//! the object types the terminal can render, each identified by a 16-bit id.
//! Floating-point attributes (scales, zoom factors) are carried as their raw
//! IEEE-754 bit patterns so the codec round-trips them exactly.

use vstd::prelude::*;

use crate::name::Name;

verus! {

/// The id the null object reference carries.
pub const OBJECT_ID_NULL: u16 = 0xFFFF;

/// A 16-bit object id; `0xFFFF` is the null reference.
#[derive(Debug, Clone, Copy, PartialEq, Eq, Structural, Default)]
pub struct ObjectId(pub u16);

impl ObjectId {
    /// The null object reference.
    pub fn null() -> (r: ObjectId)
        ensures
            r.0 == OBJECT_ID_NULL,
    {
        ObjectId(OBJECT_ID_NULL)
    }
}

/// One colour entry, in the wire order blue, green, red, alpha.
#[derive(Debug, Clone, Copy, PartialEq, Eq, Structural, Default)]
pub struct Colour {
    pub b: u8,
    pub g: u8,
    pub r: u8,
    pub a: u8,
}

/// A two-dimensional coordinate or offset.
#[derive(Debug, Clone, Copy, PartialEq, Eq, Structural)]
pub struct Point<T> {
    pub x: T,
    pub y: T,
}

/// A child object placed at an offset.
#[derive(Debug, Clone, Copy, PartialEq, Eq, Structural)]
pub struct ObjectRef {
    pub id: ObjectId,
    pub offset: Point<i16>,
}

/// A macro bound to an event.
#[derive(Debug, Clone, Copy, PartialEq, Eq, Structural)]
pub struct MacroRef {
    pub event_id: u8,
    pub macro_id: u8,
}

/// A label attached to an object.
#[derive(Debug, Clone, Copy, PartialEq, Eq, Structural)]
pub struct ObjectLabel {
    pub id: ObjectId,
    pub string_variable_reference: ObjectId,
    pub font_type: u8,
    pub graphic_representation: ObjectId,
}

/// The type tag each object starts with on the wire.
#[derive(Debug, Clone, Copy, PartialEq, Eq, Structural)]
pub enum ObjectType {
    WorkingSet,
    DataMask,
    AlarmMask,
    Container,
    SoftKeyMask,
    Key,
    Button,
    InputBoolean,
    InputString,
    InputNumber,
    InputList,
    OutputString,
    OutputNumber,
    OutputLine,
    OutputRectangle,
    OutputEllipse,
    OutputPolygon,
    OutputMeter,
    OutputLinearBarGraph,
    OutputArchedBarGraph,
    PictureGraphic,
    NumberVariable,
    StringVariable,
    FontAttributes,
    LineAttributes,
    FillAttributes,
    InputAttributes,
    ObjectPointer,
    Macro,
    AuxiliaryFunctionType1,
    AuxiliaryInputType1,
    AuxiliaryFunctionType2,
    AuxiliaryInputType2,
    AuxiliaryControlDesignatorType2,
    WindowMask,
    KeyGroup,
    GraphicsContext,
    OutputList,
    ExtendedInputAttributes,
    ColourMap,
    ObjectLabelReferenceList,
    ExternalObjectDefinition,
    ExternalReferenceName,
    ExternalObjectPointer,
    Animation,
    ColourPalette,
    GraphicData,
    WorkingSetSpecialControls,
    ScalesGraphic,
}

impl ObjectType {
    /// The wire tag of this object type.
    pub open spec fn spec_code(self) -> u8 {
        match self {
            ObjectType::WorkingSet => 0,
            ObjectType::DataMask => 1,
            ObjectType::AlarmMask => 2,
            ObjectType::Container => 3,
            ObjectType::SoftKeyMask => 4,
            ObjectType::Key => 5,
            ObjectType::Button => 6,
            ObjectType::InputBoolean => 7,
            ObjectType::InputString => 8,
            ObjectType::InputNumber => 9,
            ObjectType::InputList => 10,
            ObjectType::OutputString => 11,
            ObjectType::OutputNumber => 12,
            ObjectType::OutputLine => 13,
            ObjectType::OutputRectangle => 14,
            ObjectType::OutputEllipse => 15,
            ObjectType::OutputPolygon => 16,
            ObjectType::OutputMeter => 17,
            ObjectType::OutputLinearBarGraph => 18,
            ObjectType::OutputArchedBarGraph => 19,
            ObjectType::PictureGraphic => 20,
            ObjectType::NumberVariable => 21,
            ObjectType::StringVariable => 22,
            ObjectType::FontAttributes => 23,
            ObjectType::LineAttributes => 24,
            ObjectType::FillAttributes => 25,
            ObjectType::InputAttributes => 26,
            ObjectType::ObjectPointer => 27,
            ObjectType::Macro => 28,
            ObjectType::AuxiliaryFunctionType1 => 29,
            ObjectType::AuxiliaryInputType1 => 30,
            ObjectType::AuxiliaryFunctionType2 => 31,
            ObjectType::AuxiliaryInputType2 => 32,
            ObjectType::AuxiliaryControlDesignatorType2 => 33,
            ObjectType::WindowMask => 34,
            ObjectType::KeyGroup => 35,
            ObjectType::GraphicsContext => 36,
            ObjectType::OutputList => 37,
            ObjectType::ExtendedInputAttributes => 38,
            ObjectType::ColourMap => 39,
            ObjectType::ObjectLabelReferenceList => 40,
            ObjectType::ExternalObjectDefinition => 41,
            ObjectType::ExternalReferenceName => 42,
            ObjectType::ExternalObjectPointer => 43,
            ObjectType::Animation => 44,
            ObjectType::ColourPalette => 45,
            ObjectType::GraphicData => 46,
            ObjectType::WorkingSetSpecialControls => 47,
            ObjectType::ScalesGraphic => 48,
        }
    }

    pub fn as_u8(&self) -> (r: u8)
        ensures
            r == self.spec_code(),
    {
        match self {
            ObjectType::WorkingSet => 0,
            ObjectType::DataMask => 1,
            ObjectType::AlarmMask => 2,
            ObjectType::Container => 3,
            ObjectType::SoftKeyMask => 4,
            ObjectType::Key => 5,
            ObjectType::Button => 6,
            ObjectType::InputBoolean => 7,
            ObjectType::InputString => 8,
            ObjectType::InputNumber => 9,
            ObjectType::InputList => 10,
            ObjectType::OutputString => 11,
            ObjectType::OutputNumber => 12,
            ObjectType::OutputLine => 13,
            ObjectType::OutputRectangle => 14,
            ObjectType::OutputEllipse => 15,
            ObjectType::OutputPolygon => 16,
            ObjectType::OutputMeter => 17,
            ObjectType::OutputLinearBarGraph => 18,
            ObjectType::OutputArchedBarGraph => 19,
            ObjectType::PictureGraphic => 20,
            ObjectType::NumberVariable => 21,
            ObjectType::StringVariable => 22,
            ObjectType::FontAttributes => 23,
            ObjectType::LineAttributes => 24,
            ObjectType::FillAttributes => 25,
            ObjectType::InputAttributes => 26,
            ObjectType::ObjectPointer => 27,
            ObjectType::Macro => 28,
            ObjectType::AuxiliaryFunctionType1 => 29,
            ObjectType::AuxiliaryInputType1 => 30,
            ObjectType::AuxiliaryFunctionType2 => 31,
            ObjectType::AuxiliaryInputType2 => 32,
            ObjectType::AuxiliaryControlDesignatorType2 => 33,
            ObjectType::WindowMask => 34,
            ObjectType::KeyGroup => 35,
            ObjectType::GraphicsContext => 36,
            ObjectType::OutputList => 37,
            ObjectType::ExtendedInputAttributes => 38,
            ObjectType::ColourMap => 39,
            ObjectType::ObjectLabelReferenceList => 40,
            ObjectType::ExternalObjectDefinition => 41,
            ObjectType::ExternalReferenceName => 42,
            ObjectType::ExternalObjectPointer => 43,
            ObjectType::Animation => 44,
            ObjectType::ColourPalette => 45,
            ObjectType::GraphicData => 46,
            ObjectType::WorkingSetSpecialControls => 47,
            ObjectType::ScalesGraphic => 48,
        }
    }

    /// Decode a wire tag; unknown tags have no object type.
    pub fn from_u8(value: u8) -> (r: Option<ObjectType>)
        ensures
            r matches Some(t) ==> t.spec_code() == value,
            value <= 48 ==> r is Some,
            value > 48 ==> r is None,
    {
        match value {
            0 => Some(ObjectType::WorkingSet),
            1 => Some(ObjectType::DataMask),
            2 => Some(ObjectType::AlarmMask),
            3 => Some(ObjectType::Container),
            4 => Some(ObjectType::SoftKeyMask),
            5 => Some(ObjectType::Key),
            6 => Some(ObjectType::Button),
            7 => Some(ObjectType::InputBoolean),
            8 => Some(ObjectType::InputString),
            9 => Some(ObjectType::InputNumber),
            10 => Some(ObjectType::InputList),
            11 => Some(ObjectType::OutputString),
            12 => Some(ObjectType::OutputNumber),
            13 => Some(ObjectType::OutputLine),
            14 => Some(ObjectType::OutputRectangle),
            15 => Some(ObjectType::OutputEllipse),
            16 => Some(ObjectType::OutputPolygon),
            17 => Some(ObjectType::OutputMeter),
            18 => Some(ObjectType::OutputLinearBarGraph),
            19 => Some(ObjectType::OutputArchedBarGraph),
            20 => Some(ObjectType::PictureGraphic),
            21 => Some(ObjectType::NumberVariable),
            22 => Some(ObjectType::StringVariable),
            23 => Some(ObjectType::FontAttributes),
            24 => Some(ObjectType::LineAttributes),
            25 => Some(ObjectType::FillAttributes),
            26 => Some(ObjectType::InputAttributes),
            27 => Some(ObjectType::ObjectPointer),
            28 => Some(ObjectType::Macro),
            29 => Some(ObjectType::AuxiliaryFunctionType1),
            30 => Some(ObjectType::AuxiliaryInputType1),
            31 => Some(ObjectType::AuxiliaryFunctionType2),
            32 => Some(ObjectType::AuxiliaryInputType2),
            33 => Some(ObjectType::AuxiliaryControlDesignatorType2),
            34 => Some(ObjectType::WindowMask),
            35 => Some(ObjectType::KeyGroup),
            36 => Some(ObjectType::GraphicsContext),
            37 => Some(ObjectType::OutputList),
            38 => Some(ObjectType::ExtendedInputAttributes),
            39 => Some(ObjectType::ColourMap),
            40 => Some(ObjectType::ObjectLabelReferenceList),
            41 => Some(ObjectType::ExternalObjectDefinition),
            42 => Some(ObjectType::ExternalReferenceName),
            43 => Some(ObjectType::ExternalObjectPointer),
            44 => Some(ObjectType::Animation),
            45 => Some(ObjectType::ColourPalette),
            46 => Some(ObjectType::GraphicData),
            47 => Some(ObjectType::WorkingSetSpecialControls),
            48 => Some(ObjectType::ScalesGraphic),
            _ => None,
        }
    }
}

/// Attributes of the WorkingSet object.
#[derive(Debug, Clone, PartialEq, Eq)]
pub struct WorkingSet {
    pub id: ObjectId,
    pub background_colour: u8,
    pub selectable: bool,
    pub active_mask: ObjectId,
    pub object_refs: Vec<ObjectRef>,
    pub macro_refs: Vec<MacroRef>,
    pub language_codes: Vec<Vec<u8>>,
}

/// Attributes of the DataMask object.
#[derive(Debug, Clone, PartialEq, Eq)]
pub struct DataMask {
    pub id: ObjectId,
    pub background_colour: u8,
    pub soft_key_mask: ObjectId,
    pub object_refs: Vec<ObjectRef>,
    pub macro_refs: Vec<MacroRef>,
}

/// Attributes of the AlarmMask object.
#[derive(Debug, Clone, PartialEq, Eq)]
pub struct AlarmMask {
    pub id: ObjectId,
    pub background_colour: u8,
    pub soft_key_mask: ObjectId,
    pub priority: u8,
    pub acoustic_signal: u8,
    pub object_refs: Vec<ObjectRef>,
    pub macro_refs: Vec<MacroRef>,
}

/// Attributes of the Container object.
#[derive(Debug, Clone, PartialEq, Eq)]
pub struct Container {
    pub id: ObjectId,
    pub width: u16,
    pub height: u16,
    pub hidden: bool,
    pub object_refs: Vec<ObjectRef>,
    pub macro_refs: Vec<MacroRef>,
}

/// Attributes of the SoftKeyMask object.
#[derive(Debug, Clone, PartialEq, Eq)]
pub struct SoftKeyMask {
    pub id: ObjectId,
    pub background_colour: u8,
    pub objects: Vec<ObjectId>,
    pub macro_refs: Vec<MacroRef>,
}

/// Attributes of the Key object.
#[derive(Debug, Clone, PartialEq, Eq)]
pub struct Key {
    pub id: ObjectId,
    pub background_colour: u8,
    pub key_code: u8,
    pub object_refs: Vec<ObjectRef>,
    pub macro_refs: Vec<MacroRef>,
}

/// Attributes of the Button object.
#[derive(Debug, Clone, PartialEq, Eq)]
pub struct Button {
    pub id: ObjectId,
    pub width: u16,
    pub height: u16,
    pub background_colour: u8,
    pub border_colour: u8,
    pub key_code: u8,
    pub options: u8,
    pub object_refs: Vec<ObjectRef>,
    pub macro_refs: Vec<MacroRef>,
}

/// Attributes of the InputBoolean object.
#[derive(Debug, Clone, PartialEq, Eq)]
pub struct InputBoolean {
    pub id: ObjectId,
    pub background_colour: u8,
    pub width: u16,
    pub foreground_colour: ObjectId,
    pub variable_reference: ObjectId,
    pub value: bool,
    pub enabled: bool,
    pub macro_refs: Vec<MacroRef>,
}

/// Attributes of the InputString object.
#[derive(Debug, Clone, PartialEq, Eq)]
pub struct InputString {
    pub id: ObjectId,
    pub width: u16,
    pub height: u16,
    pub background_colour: u8,
    pub font_attributes: ObjectId,
    pub input_attributes: ObjectId,
    pub options: u8,
    pub variable_reference: ObjectId,
    pub justification: u8,
    pub value: Vec<u8>,
    pub enabled: bool,
    pub macro_refs: Vec<MacroRef>,
}

/// Attributes of the InputNumber object.
#[derive(Debug, Clone, PartialEq, Eq)]
pub struct InputNumber {
    pub id: ObjectId,
    pub width: u16,
    pub height: u16,
    pub background_colour: u8,
    pub font_attributes: ObjectId,
    pub options: u8,
    pub variable_reference: ObjectId,
    pub value: u32,
    pub min_value: u32,
    pub max_value: u32,
    pub offset: i32,
    pub scale: u32,
    pub nr_of_decimals: u8,
    pub format: bool,
    pub justification: u8,
    pub options2: u8,
    pub macro_refs: Vec<MacroRef>,
}

/// Attributes of the InputList object.
#[derive(Debug, Clone, PartialEq, Eq)]
pub struct InputList {
    pub id: ObjectId,
    pub width: u16,
    pub height: u16,
    pub variable_reference: ObjectId,
    pub value: u8,
    pub options: u8,
    pub list_items: Vec<ObjectId>,
    pub macro_refs: Vec<MacroRef>,
}

/// Attributes of the OutputString object.
#[derive(Debug, Clone, PartialEq, Eq)]
pub struct OutputString {
    pub id: ObjectId,
    pub width: u16,
    pub height: u16,
    pub background_colour: u8,
    pub font_attributes: ObjectId,
    pub options: u8,
    pub variable_reference: ObjectId,
    pub justification: u8,
    pub value: Vec<u8>,
    pub macro_refs: Vec<MacroRef>,
}

/// Attributes of the OutputNumber object.
#[derive(Debug, Clone, PartialEq, Eq)]
pub struct OutputNumber {
    pub id: ObjectId,
    pub width: u16,
    pub height: u16,
    pub background_colour: u8,
    pub font_attributes: ObjectId,
    pub options: u8,
    pub variable_reference: ObjectId,
    pub value: u32,
    pub offset: i32,
    pub scale: u32,
    pub nr_of_decimals: u8,
    pub format: bool,
    pub justification: u8,
    pub macro_refs: Vec<MacroRef>,
}

/// Attributes of the OutputLine object.
#[derive(Debug, Clone, PartialEq, Eq)]
pub struct OutputLine {
    pub id: ObjectId,
    pub line_attributes: ObjectId,
    pub width: u16,
    pub height: u16,
    pub line_direction: u8,
    pub macro_refs: Vec<MacroRef>,
}

/// Attributes of the OutputRectangle object.
#[derive(Debug, Clone, PartialEq, Eq)]
pub struct OutputRectangle {
    pub id: ObjectId,
    pub line_attributes: ObjectId,
    pub width: u16,
    pub height: u16,
    pub line_suppression: u8,
    pub fill_attributes: ObjectId,
    pub macro_refs: Vec<MacroRef>,
}

/// Attributes of the OutputEllipse object.
#[derive(Debug, Clone, PartialEq, Eq)]
pub struct OutputEllipse {
    pub id: ObjectId,
    pub line_attributes: ObjectId,
    pub width: u16,
    pub height: u16,
    pub ellipse_type: u8,
    pub start_angle: u8,
    pub end_angle: u8,
    pub fill_attributes: ObjectId,
    pub macro_refs: Vec<MacroRef>,
}

/// Attributes of the OutputPolygon object.
#[derive(Debug, Clone, PartialEq, Eq)]
pub struct OutputPolygon {
    pub id: ObjectId,
    pub width: u16,
    pub height: u16,
    pub line_attributes: ObjectId,
    pub fill_attributes: ObjectId,
    pub polygon_type: u8,
    pub points: Vec<Point<u16>>,
    pub macro_refs: Vec<MacroRef>,
}

/// Attributes of the OutputMeter object.
#[derive(Debug, Clone, PartialEq, Eq)]
pub struct OutputMeter {
    pub id: ObjectId,
    pub width: u16,
    pub needle_colour: u8,
    pub border_colour: u8,
    pub arc_and_tick_colour: u8,
    pub options: u8,
    pub nr_of_ticks: u8,
    pub start_angle: u8,
    pub end_angle: u8,
    pub min_value: u16,
    pub max_value: u16,
    pub variable_reference: ObjectId,
    pub value: u16,
    pub macro_refs: Vec<MacroRef>,
}

/// Attributes of the OutputLinearBarGraph object.
#[derive(Debug, Clone, PartialEq, Eq)]
pub struct OutputLinearBarGraph {
    pub id: ObjectId,
    pub width: u16,
    pub height: u16,
    pub colour: u8,
    pub target_line_colour: u8,
    pub options: u8,
    pub nr_of_ticks: u8,
    pub min_value: u16,
    pub max_value: u16,
    pub variable_reference: ObjectId,
    pub value: u16,
    pub target_value_variable_reference: ObjectId,
    pub target_value: u16,
    pub macro_refs: Vec<MacroRef>,
}

/// Attributes of the OutputArchedBarGraph object.
#[derive(Debug, Clone, PartialEq, Eq)]
pub struct OutputArchedBarGraph {
    pub id: ObjectId,
    pub width: u16,
    pub height: u16,
    pub colour: u8,
    pub target_line_colour: u8,
    pub options: u8,
    pub start_angle: u8,
    pub end_angle: u8,
    pub bar_graph_width: u16,
    pub min_value: u16,
    pub max_value: u16,
    pub variable_reference: ObjectId,
    pub value: u16,
    pub target_value_variable_reference: ObjectId,
    pub target_value: u16,
    pub macro_refs: Vec<MacroRef>,
}

/// Attributes of the PictureGraphic object.
#[derive(Debug, Clone, PartialEq, Eq)]
pub struct PictureGraphic {
    pub id: ObjectId,
    pub width: u16,
    pub actual_width: u16,
    pub actual_height: u16,
    pub format: u8,
    pub options: u8,
    pub transparency_colour: u8,
    pub data: Vec<u8>,
    pub macro_refs: Vec<MacroRef>,
}

/// Attributes of the NumberVariable object.
#[derive(Debug, Clone, PartialEq, Eq)]
pub struct NumberVariable {
    pub id: ObjectId,
    pub value: u32,
}

/// Attributes of the StringVariable object.
#[derive(Debug, Clone, PartialEq, Eq)]
pub struct StringVariable {
    pub id: ObjectId,
    pub value: Vec<u8>,
}

/// Attributes of the FontAttributes object.
#[derive(Debug, Clone, PartialEq, Eq)]
pub struct FontAttributes {
    pub id: ObjectId,
    pub font_colour: u8,
    pub font_size: u8,
    pub font_type: u8,
    pub font_style: u8,
    pub macro_refs: Vec<MacroRef>,
}

/// Attributes of the LineAttributes object.
#[derive(Debug, Clone, PartialEq, Eq)]
pub struct LineAttributes {
    pub id: ObjectId,
    pub line_colour: u8,
    pub line_width: u8,
    pub line_art: u16,
    pub macro_refs: Vec<MacroRef>,
}

/// Attributes of the FillAttributes object.
#[derive(Debug, Clone, PartialEq, Eq)]
pub struct FillAttributes {
    pub id: ObjectId,
    pub fill_type: u8,
    pub fill_colour: u8,
    pub fill_pattern: ObjectId,
    pub macro_refs: Vec<MacroRef>,
}

/// Attributes of the InputAttributes object.
#[derive(Debug, Clone, PartialEq, Eq)]
pub struct InputAttributes {
    pub id: ObjectId,
    pub validation_type: u8,
    pub validation_string: Vec<u8>,
    pub macro_refs: Vec<MacroRef>,
}

/// Attributes of the ObjectPointer object.
#[derive(Debug, Clone, PartialEq, Eq)]
pub struct ObjectPointer {
    pub id: ObjectId,
    pub value: ObjectId,
}

/// Attributes of the Macro object.
#[derive(Debug, Clone, PartialEq, Eq)]
pub struct Macro {
    pub id: ObjectId,
    pub commands: Vec<u8>,
}

/// Attributes of the AuxiliaryFunctionType1 object.
#[derive(Debug, Clone, PartialEq, Eq)]
pub struct AuxiliaryFunctionType1 {
    pub id: ObjectId,
    pub background_colour: u8,
    pub function_type: u8,
    pub object_refs: Vec<ObjectRef>,
}

/// Attributes of the AuxiliaryInputType1 object.
#[derive(Debug, Clone, PartialEq, Eq)]
pub struct AuxiliaryInputType1 {
    pub id: ObjectId,
    pub background_colour: u8,
    pub function_type: u8,
    pub input_id: u8,
    pub object_refs: Vec<ObjectRef>,
}

/// Attributes of the AuxiliaryFunctionType2 object.
#[derive(Debug, Clone, PartialEq, Eq)]
pub struct AuxiliaryFunctionType2 {
    pub id: ObjectId,
    pub background_colour: u8,
    pub function_attributes: u8,
    pub object_refs: Vec<ObjectRef>,
}

/// Attributes of the AuxiliaryInputType2 object.
#[derive(Debug, Clone, PartialEq, Eq)]
pub struct AuxiliaryInputType2 {
    pub id: ObjectId,
    pub background_colour: u8,
    pub function_attributes: u8,
    pub object_refs: Vec<ObjectRef>,
}

/// Attributes of the AuxiliaryControlDesignatorType2 object.
#[derive(Debug, Clone, PartialEq, Eq)]
pub struct AuxiliaryControlDesignatorType2 {
    pub id: ObjectId,
    pub pointer_type: u8,
    pub auxiliary_object_id: ObjectId,
}

/// Attributes of the WindowMask object.
#[derive(Debug, Clone, PartialEq, Eq)]
pub struct WindowMask {
    pub id: ObjectId,
    pub width: u8,
    pub height: u8,
    pub window_type: u8,
    pub background_colour: u8,
    pub options: u8,
    pub name: ObjectId,
    pub window_title: ObjectId,
    pub window_icon: ObjectId,
    pub objects: Vec<ObjectId>,
    pub object_refs: Vec<ObjectRef>,
    pub macro_refs: Vec<MacroRef>,
}

/// Attributes of the KeyGroup object.
#[derive(Debug, Clone, PartialEq, Eq)]
pub struct KeyGroup {
    pub id: ObjectId,
    pub options: u8,
    pub name: ObjectId,
    pub key_group_icon: ObjectId,
    pub objects: Vec<ObjectId>,
    pub macro_refs: Vec<MacroRef>,
}

/// Attributes of the GraphicsContext object.
#[derive(Debug, Clone, PartialEq, Eq)]
pub struct GraphicsContext {
    pub id: ObjectId,
    pub viewport_width: u16,
    pub viewport_height: u16,
    pub viewport_x: i16,
    pub viewport_y: i16,
    pub canvas_width: u16,
    pub canvas_height: u16,
    pub viewport_zoom: u32,
    pub graphics_cursor_x: i16,
    pub graphics_cursor_y: i16,
    pub foreground_colour: u8,
    pub background_colour: u8,
    pub font_attributes_object: ObjectId,
    pub line_attributes_object: ObjectId,
    pub fill_attributes_object: ObjectId,
    pub format: u8,
    pub options: u8,
    pub transparency_colour: u8,
}

/// Attributes of the OutputList object.
#[derive(Debug, Clone, PartialEq, Eq)]
pub struct OutputList {
    pub id: ObjectId,
    pub width: u16,
    pub height: u16,
    pub variable_reference: ObjectId,
    pub value: u8,
    pub list_items: Vec<ObjectId>,
    pub macro_refs: Vec<MacroRef>,
}

/// Attributes of the ExtendedInputAttributes object.
#[derive(Debug, Clone, PartialEq, Eq)]
pub struct ExtendedInputAttributes {
    pub id: ObjectId,
    pub validation_type: u8,
    pub nr_of_code_planes: u8,
}

/// Attributes of the ColourMap object.
#[derive(Debug, Clone, PartialEq, Eq)]
pub struct ColourMap {
    pub id: ObjectId,
    pub colour_map: Vec<u8>,
}

/// Attributes of the ObjectLabelReferenceList object.
#[derive(Debug, Clone, PartialEq, Eq)]
pub struct ObjectLabelReferenceList {
    pub id: ObjectId,
    pub object_labels: Vec<ObjectLabel>,
}

/// Attributes of the ExternalObjectDefinition object.
#[derive(Debug, Clone, PartialEq, Eq)]
pub struct ExternalObjectDefinition {
    pub id: ObjectId,
    pub options: u8,
    pub name: Name,
    pub objects: Vec<ObjectId>,
}

/// Attributes of the ExternalReferenceName object.
#[derive(Debug, Clone, PartialEq, Eq)]
pub struct ExternalReferenceName {
    pub id: ObjectId,
    pub options: u8,
    pub name: Name,
}

/// Attributes of the ExternalObjectPointer object.
#[derive(Debug, Clone, PartialEq, Eq)]
pub struct ExternalObjectPointer {
    pub id: ObjectId,
    pub default_object_id: ObjectId,
    pub external_reference_name_id: ObjectId,
    pub external_object_id: ObjectId,
}

/// Attributes of the Animation object.
#[derive(Debug, Clone, PartialEq, Eq)]
pub struct Animation {
    pub id: ObjectId,
    pub width: u16,
    pub height: u16,
    pub refresh_interval: u16,
    pub value: u8,
    pub enabled: bool,
    pub first_child_index: u8,
    pub last_child_index: u8,
    pub default_child_index: u8,
    pub options: u8,
    pub object_refs: Vec<ObjectRef>,
    pub macro_refs: Vec<MacroRef>,
}

/// Attributes of the ColourPalette object.
#[derive(Debug, Clone, PartialEq, Eq)]
pub struct ColourPalette {
    pub id: ObjectId,
    pub options: u16,
    pub colours: Vec<Colour>,
}

/// Attributes of the GraphicData object.
#[derive(Debug, Clone, PartialEq, Eq)]
pub struct GraphicData {
    pub id: ObjectId,
    pub format: u8,
    pub data: Vec<u8>,
}

/// Attributes of the WorkingSetSpecialControls object.
#[derive(Debug, Clone, PartialEq, Eq)]
pub struct WorkingSetSpecialControls {
    pub id: ObjectId,
    pub id_of_colour_map: ObjectId,
    pub id_of_colour_palette: ObjectId,
    pub language_pairs: Vec<(Vec<u8>, Vec<u8>)>,
}

/// Attributes of the ScalesGraphic object.
#[derive(Debug, Clone, PartialEq, Eq)]
pub struct ScalesGraphic {
    pub id: ObjectId,
    pub width: u16,
    pub height: u16,
    pub scale_type: u8,
    pub options: u8,
    pub value: u16,
    pub macro_refs: Vec<MacroRef>,
}

/// One object of the pool, discriminated by its wire tag.
#[derive(Debug, Clone, PartialEq, Eq)]
pub enum Object {
    WorkingSet(WorkingSet),
    DataMask(DataMask),
    AlarmMask(AlarmMask),
    Container(Container),
    SoftKeyMask(SoftKeyMask),
    Key(Key),
    Button(Button),
    InputBoolean(InputBoolean),
    InputString(InputString),
    InputNumber(InputNumber),
    InputList(InputList),
    OutputString(OutputString),
    OutputNumber(OutputNumber),
    OutputLine(OutputLine),
    OutputRectangle(OutputRectangle),
    OutputEllipse(OutputEllipse),
    OutputPolygon(OutputPolygon),
    OutputMeter(OutputMeter),
    OutputLinearBarGraph(OutputLinearBarGraph),
    OutputArchedBarGraph(OutputArchedBarGraph),
    PictureGraphic(PictureGraphic),
    NumberVariable(NumberVariable),
    StringVariable(StringVariable),
    FontAttributes(FontAttributes),
    LineAttributes(LineAttributes),
    FillAttributes(FillAttributes),
    InputAttributes(InputAttributes),
    ObjectPointer(ObjectPointer),
    Macro(Macro),
    AuxiliaryFunctionType1(AuxiliaryFunctionType1),
    AuxiliaryInputType1(AuxiliaryInputType1),
    AuxiliaryFunctionType2(AuxiliaryFunctionType2),
    AuxiliaryInputType2(AuxiliaryInputType2),
    AuxiliaryControlDesignatorType2(AuxiliaryControlDesignatorType2),
    WindowMask(WindowMask),
    KeyGroup(KeyGroup),
    GraphicsContext(GraphicsContext),
    OutputList(OutputList),
    ExtendedInputAttributes(ExtendedInputAttributes),
    ColourMap(ColourMap),
    ObjectLabelReferenceList(ObjectLabelReferenceList),
    ExternalObjectDefinition(ExternalObjectDefinition),
    ExternalReferenceName(ExternalReferenceName),
    ExternalObjectPointer(ExternalObjectPointer),
    Animation(Animation),
    ColourPalette(ColourPalette),
    GraphicData(GraphicData),
    WorkingSetSpecialControls(WorkingSetSpecialControls),
    ScalesGraphic(ScalesGraphic),
}

impl Object {
    /// The 16-bit id of this object.
    pub open spec fn spec_id(self) -> u16 {
        match self {
            Object::WorkingSet(o) => o.id.0,
            Object::DataMask(o) => o.id.0,
            Object::AlarmMask(o) => o.id.0,
            Object::Container(o) => o.id.0,
            Object::SoftKeyMask(o) => o.id.0,
            Object::Key(o) => o.id.0,
            Object::Button(o) => o.id.0,
            Object::InputBoolean(o) => o.id.0,
            Object::InputString(o) => o.id.0,
            Object::InputNumber(o) => o.id.0,
            Object::InputList(o) => o.id.0,
            Object::OutputString(o) => o.id.0,
            Object::OutputNumber(o) => o.id.0,
            Object::OutputLine(o) => o.id.0,
            Object::OutputRectangle(o) => o.id.0,
            Object::OutputEllipse(o) => o.id.0,
            Object::OutputPolygon(o) => o.id.0,
            Object::OutputMeter(o) => o.id.0,
            Object::OutputLinearBarGraph(o) => o.id.0,
            Object::OutputArchedBarGraph(o) => o.id.0,
            Object::PictureGraphic(o) => o.id.0,
            Object::NumberVariable(o) => o.id.0,
            Object::StringVariable(o) => o.id.0,
            Object::FontAttributes(o) => o.id.0,
            Object::LineAttributes(o) => o.id.0,
            Object::FillAttributes(o) => o.id.0,
            Object::InputAttributes(o) => o.id.0,
            Object::ObjectPointer(o) => o.id.0,
            Object::Macro(o) => o.id.0,
            Object::AuxiliaryFunctionType1(o) => o.id.0,
            Object::AuxiliaryInputType1(o) => o.id.0,
            Object::AuxiliaryFunctionType2(o) => o.id.0,
            Object::AuxiliaryInputType2(o) => o.id.0,
            Object::AuxiliaryControlDesignatorType2(o) => o.id.0,
            Object::WindowMask(o) => o.id.0,
            Object::KeyGroup(o) => o.id.0,
            Object::GraphicsContext(o) => o.id.0,
            Object::OutputList(o) => o.id.0,
            Object::ExtendedInputAttributes(o) => o.id.0,
            Object::ColourMap(o) => o.id.0,
            Object::ObjectLabelReferenceList(o) => o.id.0,
            Object::ExternalObjectDefinition(o) => o.id.0,
            Object::ExternalReferenceName(o) => o.id.0,
            Object::ExternalObjectPointer(o) => o.id.0,
            Object::Animation(o) => o.id.0,
            Object::ColourPalette(o) => o.id.0,
            Object::GraphicData(o) => o.id.0,
            Object::WorkingSetSpecialControls(o) => o.id.0,
            Object::ScalesGraphic(o) => o.id.0,
        }
    }

    /// The type tag of this object.
    pub open spec fn spec_object_type(self) -> ObjectType {
        match self {
            Object::WorkingSet(_) => ObjectType::WorkingSet,
            Object::DataMask(_) => ObjectType::DataMask,
            Object::AlarmMask(_) => ObjectType::AlarmMask,
            Object::Container(_) => ObjectType::Container,
            Object::SoftKeyMask(_) => ObjectType::SoftKeyMask,
            Object::Key(_) => ObjectType::Key,
            Object::Button(_) => ObjectType::Button,
            Object::InputBoolean(_) => ObjectType::InputBoolean,
            Object::InputString(_) => ObjectType::InputString,
            Object::InputNumber(_) => ObjectType::InputNumber,
            Object::InputList(_) => ObjectType::InputList,
            Object::OutputString(_) => ObjectType::OutputString,
            Object::OutputNumber(_) => ObjectType::OutputNumber,
            Object::OutputLine(_) => ObjectType::OutputLine,
            Object::OutputRectangle(_) => ObjectType::OutputRectangle,
            Object::OutputEllipse(_) => ObjectType::OutputEllipse,
            Object::OutputPolygon(_) => ObjectType::OutputPolygon,
            Object::OutputMeter(_) => ObjectType::OutputMeter,
            Object::OutputLinearBarGraph(_) => ObjectType::OutputLinearBarGraph,
            Object::OutputArchedBarGraph(_) => ObjectType::OutputArchedBarGraph,
            Object::PictureGraphic(_) => ObjectType::PictureGraphic,
            Object::NumberVariable(_) => ObjectType::NumberVariable,
            Object::StringVariable(_) => ObjectType::StringVariable,
            Object::FontAttributes(_) => ObjectType::FontAttributes,
            Object::LineAttributes(_) => ObjectType::LineAttributes,
            Object::FillAttributes(_) => ObjectType::FillAttributes,
            Object::InputAttributes(_) => ObjectType::InputAttributes,
            Object::ObjectPointer(_) => ObjectType::ObjectPointer,
            Object::Macro(_) => ObjectType::Macro,
            Object::AuxiliaryFunctionType1(_) => ObjectType::AuxiliaryFunctionType1,
            Object::AuxiliaryInputType1(_) => ObjectType::AuxiliaryInputType1,
            Object::AuxiliaryFunctionType2(_) => ObjectType::AuxiliaryFunctionType2,
            Object::AuxiliaryInputType2(_) => ObjectType::AuxiliaryInputType2,
            Object::AuxiliaryControlDesignatorType2(_) => ObjectType::AuxiliaryControlDesignatorType2,
            Object::WindowMask(_) => ObjectType::WindowMask,
            Object::KeyGroup(_) => ObjectType::KeyGroup,
            Object::GraphicsContext(_) => ObjectType::GraphicsContext,
            Object::OutputList(_) => ObjectType::OutputList,
            Object::ExtendedInputAttributes(_) => ObjectType::ExtendedInputAttributes,
            Object::ColourMap(_) => ObjectType::ColourMap,
            Object::ObjectLabelReferenceList(_) => ObjectType::ObjectLabelReferenceList,
            Object::ExternalObjectDefinition(_) => ObjectType::ExternalObjectDefinition,
            Object::ExternalReferenceName(_) => ObjectType::ExternalReferenceName,
            Object::ExternalObjectPointer(_) => ObjectType::ExternalObjectPointer,
            Object::Animation(_) => ObjectType::Animation,
            Object::ColourPalette(_) => ObjectType::ColourPalette,
            Object::GraphicData(_) => ObjectType::GraphicData,
            Object::WorkingSetSpecialControls(_) => ObjectType::WorkingSetSpecialControls,
            Object::ScalesGraphic(_) => ObjectType::ScalesGraphic,
        }
    }

    pub fn id(&self) -> (r: ObjectId)
        ensures
            r.0 == self.spec_id(),
    {
        match self {
            Object::WorkingSet(o) => o.id,
            Object::DataMask(o) => o.id,
            Object::AlarmMask(o) => o.id,
            Object::Container(o) => o.id,
            Object::SoftKeyMask(o) => o.id,
            Object::Key(o) => o.id,
            Object::Button(o) => o.id,
            Object::InputBoolean(o) => o.id,
            Object::InputString(o) => o.id,
            Object::InputNumber(o) => o.id,
            Object::InputList(o) => o.id,
            Object::OutputString(o) => o.id,
            Object::OutputNumber(o) => o.id,
            Object::OutputLine(o) => o.id,
            Object::OutputRectangle(o) => o.id,
            Object::OutputEllipse(o) => o.id,
            Object::OutputPolygon(o) => o.id,
            Object::OutputMeter(o) => o.id,
            Object::OutputLinearBarGraph(o) => o.id,
            Object::OutputArchedBarGraph(o) => o.id,
            Object::PictureGraphic(o) => o.id,
            Object::NumberVariable(o) => o.id,
            Object::StringVariable(o) => o.id,
            Object::FontAttributes(o) => o.id,
            Object::LineAttributes(o) => o.id,
            Object::FillAttributes(o) => o.id,
            Object::InputAttributes(o) => o.id,
            Object::ObjectPointer(o) => o.id,
            Object::Macro(o) => o.id,
            Object::AuxiliaryFunctionType1(o) => o.id,
            Object::AuxiliaryInputType1(o) => o.id,
            Object::AuxiliaryFunctionType2(o) => o.id,
            Object::AuxiliaryInputType2(o) => o.id,
            Object::AuxiliaryControlDesignatorType2(o) => o.id,
            Object::WindowMask(o) => o.id,
            Object::KeyGroup(o) => o.id,
            Object::GraphicsContext(o) => o.id,
            Object::OutputList(o) => o.id,
            Object::ExtendedInputAttributes(o) => o.id,
            Object::ColourMap(o) => o.id,
            Object::ObjectLabelReferenceList(o) => o.id,
            Object::ExternalObjectDefinition(o) => o.id,
            Object::ExternalReferenceName(o) => o.id,
            Object::ExternalObjectPointer(o) => o.id,
            Object::Animation(o) => o.id,
            Object::ColourPalette(o) => o.id,
            Object::GraphicData(o) => o.id,
            Object::WorkingSetSpecialControls(o) => o.id,
            Object::ScalesGraphic(o) => o.id,
        }
    }

    pub fn object_type(&self) -> (r: ObjectType)
        ensures
            r == self.spec_object_type(),
    {
        match self {
            Object::WorkingSet(_) => ObjectType::WorkingSet,
            Object::DataMask(_) => ObjectType::DataMask,
            Object::AlarmMask(_) => ObjectType::AlarmMask,
            Object::Container(_) => ObjectType::Container,
            Object::SoftKeyMask(_) => ObjectType::SoftKeyMask,
            Object::Key(_) => ObjectType::Key,
            Object::Button(_) => ObjectType::Button,
            Object::InputBoolean(_) => ObjectType::InputBoolean,
            Object::InputString(_) => ObjectType::InputString,
            Object::InputNumber(_) => ObjectType::InputNumber,
            Object::InputList(_) => ObjectType::InputList,
            Object::OutputString(_) => ObjectType::OutputString,
            Object::OutputNumber(_) => ObjectType::OutputNumber,
            Object::OutputLine(_) => ObjectType::OutputLine,
            Object::OutputRectangle(_) => ObjectType::OutputRectangle,
            Object::OutputEllipse(_) => ObjectType::OutputEllipse,
            Object::OutputPolygon(_) => ObjectType::OutputPolygon,
            Object::OutputMeter(_) => ObjectType::OutputMeter,
            Object::OutputLinearBarGraph(_) => ObjectType::OutputLinearBarGraph,
            Object::OutputArchedBarGraph(_) => ObjectType::OutputArchedBarGraph,
            Object::PictureGraphic(_) => ObjectType::PictureGraphic,
            Object::NumberVariable(_) => ObjectType::NumberVariable,
            Object::StringVariable(_) => ObjectType::StringVariable,
            Object::FontAttributes(_) => ObjectType::FontAttributes,
            Object::LineAttributes(_) => ObjectType::LineAttributes,
            Object::FillAttributes(_) => ObjectType::FillAttributes,
            Object::InputAttributes(_) => ObjectType::InputAttributes,
            Object::ObjectPointer(_) => ObjectType::ObjectPointer,
            Object::Macro(_) => ObjectType::Macro,
            Object::AuxiliaryFunctionType1(_) => ObjectType::AuxiliaryFunctionType1,
            Object::AuxiliaryInputType1(_) => ObjectType::AuxiliaryInputType1,
            Object::AuxiliaryFunctionType2(_) => ObjectType::AuxiliaryFunctionType2,
            Object::AuxiliaryInputType2(_) => ObjectType::AuxiliaryInputType2,
            Object::AuxiliaryControlDesignatorType2(_) => ObjectType::AuxiliaryControlDesignatorType2,
            Object::WindowMask(_) => ObjectType::WindowMask,
            Object::KeyGroup(_) => ObjectType::KeyGroup,
            Object::GraphicsContext(_) => ObjectType::GraphicsContext,
            Object::OutputList(_) => ObjectType::OutputList,
            Object::ExtendedInputAttributes(_) => ObjectType::ExtendedInputAttributes,
            Object::ColourMap(_) => ObjectType::ColourMap,
            Object::ObjectLabelReferenceList(_) => ObjectType::ObjectLabelReferenceList,
            Object::ExternalObjectDefinition(_) => ObjectType::ExternalObjectDefinition,
            Object::ExternalReferenceName(_) => ObjectType::ExternalReferenceName,
            Object::ExternalObjectPointer(_) => ObjectType::ExternalObjectPointer,
            Object::Animation(_) => ObjectType::Animation,
            Object::ColourPalette(_) => ObjectType::ColourPalette,
            Object::GraphicData(_) => ObjectType::GraphicData,
            Object::WorkingSetSpecialControls(_) => ObjectType::WorkingSetSpecialControls,
            Object::ScalesGraphic(_) => ObjectType::ScalesGraphic,
        }
    }
}

} // verus!
