//! Adaptive cards: the typed data of rich message attachments and the calls
//! that build them.

use std::collections::HashMap;
use vstd::prelude::*;

verus! {

/// A number of a card, held as the bits of its IEEE 754 double.
#[derive(Debug, Clone, Copy, PartialEq, Eq, Structural)]
pub struct Number {
    pub bits: u64,
}

/// The primary structure of a card.
#[derive(Debug, Default, PartialEq)]
pub struct AdaptiveCard {
    /// Must be "AdaptiveCard".
    pub card_type: String,
    /// The schema version that the card needs.
    pub version: String,
    /// The elements of the primary card region.
    pub body: Option<Vec<CardElement>>,
    /// The actions of the card.
    pub actions: Option<Vec<Action>>,
    /// The action invoked when the card is selected.
    pub select_action: Option<Box<Action>>,
    /// Text shown where the version is not supported.
    pub fallback_text: Option<String>,
    /// The minimum height of the card.
    pub min_height: Option<String>,
    /// The two-letter language of the card.
    pub lang: Option<String>,
    /// The card schema.
    pub schema: String,
}

/// The elements of a card.
#[allow(inconsistent_fields)]
#[derive(Debug, PartialEq)]
pub enum CardElement {
    /// Groups items together.
    Container {
        items: Vec<CardElement>,
        select_action: Option<Action>,
        style: Option<ContainerStyle>,
        vertical_content_alignment: Option<VerticalContentAlignment>,
        height: Option<Height>,
        id: Option<String>,
        separator: Option<bool>,
        spacing: Option<Spacing>,
    },
    /// Divides a region into columns.
    ColumnSet {
        columns: Vec<Column>,
        select_action: Option<Action>,
        id: Option<String>,
        separator: Option<bool>,
        spacing: Option<Spacing>,
    },
    /// A series of facts in tabular form.
    FactSet {
        facts: Vec<Fact>,
        height: Option<Height>,
        id: Option<String>,
        separator: Option<bool>,
        spacing: Option<Spacing>,
    },
    /// A gallery of images.
    ImageSet {
        images: Vec<CardElement>,
        image_size: Option<ImageSize>,
        height: Option<Height>,
        id: Option<String>,
        separator: Option<bool>,
        spacing: Option<Spacing>,
    },
    /// Text with its font size, weight and color.
    TextBlock {
        text: String,
        wrap: Option<bool>,
        color: Option<Color>,
        horizontal_alignment: Option<HorizontalAlignment>,
        is_subtle: Option<bool>,
        max_lines: Option<u64>,
        font_type: Option<FontType>,
        size: Option<Size>,
        weight: Option<Weight>,
        height: Option<Height>,
        id: Option<String>,
        separator: Option<bool>,
        spacing: Option<Spacing>,
    },
    /// An image.
    Image {
        url: String,
        alt_text: Option<String>,
        background_color: Option<String>,
        width: Option<String>,
        height: Option<String>,
        horizontal_alignment: Option<HorizontalAlignment>,
        select_action: Option<Action>,
        size: Option<ImageSize>,
        style: Option<ImageStyle>,
        id: Option<String>,
        separator: Option<bool>,
        spacing: Option<Spacing>,
    },
    /// A text input.
    InputText {
        id: String,
        placeholder: Option<String>,
        is_multiline: Option<bool>,
        max_length: Option<u64>,
        style: Option<TextInputStyle>,
        inline_action: Option<Action>,
        value: Option<String>,
        height: Option<Height>,
        separator: Option<bool>,
        spacing: Option<Spacing>,
    },
    /// A number input.
    InputNumber {
        id: String,
        placeholder: Option<String>,
        max: Option<Number>,
        min: Option<Number>,
        value: Option<Number>,
        height: Option<Height>,
        separator: Option<bool>,
        spacing: Option<Spacing>,
    },
    /// A date input.
    InputDate {
        id: String,
        placeholder: Option<String>,
        max: Option<String>,
        min: Option<String>,
        value: Option<String>,
        height: Option<Height>,
        separator: Option<bool>,
        spacing: Option<Spacing>,
    },
    /// A time input.
    InputTime {
        id: String,
        max: Option<String>,
        min: Option<String>,
        value: Option<String>,
        height: Option<Height>,
        separator: Option<bool>,
        spacing: Option<Spacing>,
    },
    /// A choice between two options.
    InputToggle {
        id: String,
        value: Option<String>,
        value_off: Option<String>,
        value_on: Option<String>,
        height: Option<Height>,
        separator: Option<bool>,
        spacing: Option<Spacing>,
        title: Option<String>,
    },
    /// A choice among several options.
    InputChoiceSet {
        choices: Vec<Choice>,
        id: String,
        is_multi_select: Option<bool>,
        style: Option<ChoiceInputStyle>,
        value: Option<String>,
        height: Option<Height>,
        separator: Option<bool>,
        spacing: Option<Spacing>,
    },
    /// A set of actions.
    ActionSet { actions: Vec<Action>, height: Option<Height> },
}

/// A container that is part of a `ColumnSet`.
#[derive(Debug, Default, PartialEq)]
pub struct Column {
    /// The elements of the column.
    pub items: Vec<CardElement>,
    /// The action invoked when the column is selected.
    pub select_action: Option<Action>,
    /// The style of the column.
    pub style: Option<ContainerStyle>,
    /// How the content is aligned vertically.
    pub vertical_content_alignment: Option<VerticalContentAlignment>,
    /// Whether a line separates the column from the one before.
    pub separator: Option<bool>,
    /// The spacing to the column before.
    pub spacing: Option<Spacing>,
    /// "auto", "stretch", a relative width or a width in pixels.
    pub width: Option<String>,
    /// The identifier of the column.
    pub id: Option<String>,
}

/// A fact of a `FactSet`: a title with its value.
#[derive(Debug, Clone, PartialEq, Eq)]
pub struct Fact {
    pub title: String,
    pub value: String,
}

/// The colors of text.
#[derive(Debug, Clone, Copy, PartialEq, Eq, Structural)]
pub enum Color {
    Default,
    Dark,
    Light,
    Accent,
    Good,
    Warning,
    Attention,
}

/// The styles of a container.
#[derive(Debug, Clone, Copy, PartialEq, Eq, Structural)]
pub enum ContainerStyle {
    Default,
    Emphasis,
    Good,
    Attention,
    Warning,
    Accent,
}

/// The spacing before an element.
#[derive(Debug, Clone, Copy, PartialEq, Eq, Structural)]
pub enum Spacing {
    Default,
    /// No spacing.
    NoSpacing,
    Small,
    Medium,
    Large,
    ExtraLarge,
    Padding,
}

/// The styles of a choice input.
#[derive(Debug, Clone, Copy, PartialEq, Eq, Structural)]
pub enum ChoiceInputStyle {
    Compact,
    Expanded,
}

/// The vertical alignment of content.
#[derive(Debug, Clone, Copy, PartialEq, Eq, Structural)]
pub enum VerticalContentAlignment {
    Top,
    Center,
    Bottom,
}

/// The styles of a text input.
#[derive(Debug, Clone, Copy, PartialEq, Eq, Structural)]
pub enum TextInputStyle {
    Text,
    Tel,
    Url,
    Email,
}

/// The height of an element.
#[derive(Debug, Clone, Copy, PartialEq, Eq, Structural)]
pub enum Height {
    Auto,
    Stretch,
}

/// The styles of an image.
#[derive(Debug, Clone, Copy, PartialEq, Eq, Structural)]
pub enum ImageStyle {
    Default,
    Person,
}

/// The weight of text.
#[derive(Debug, Clone, Copy, PartialEq, Eq, Structural)]
pub enum Weight {
    Default,
    Lighter,
    Bolder,
}

/// The font of text.
#[derive(Debug, Clone, Copy, PartialEq, Eq, Structural)]
pub enum FontType {
    Default,
    Monospace,
}

/// The size of text.
#[derive(Debug, Clone, Copy, PartialEq, Eq, Structural)]
pub enum Size {
    Default,
    Small,
    Medium,
    Large,
    ExtraLarge,
}

/// The size of an image.
#[derive(Debug, Clone, Copy, PartialEq, Eq, Structural)]
pub enum ImageSize {
    Auto,
    Stretch,
    Small,
    Medium,
    Large,
}

/// The horizontal position of an element within its parent.
#[derive(Debug, Clone, Copy, PartialEq, Eq, Structural)]
pub enum HorizontalAlignment {
    Left,
    Center,
    Right,
}

/// The actions of a card.
#[derive(Debug, PartialEq)]
pub enum Action {
    /// Gathers the input fields and sends them to the client.
    Submit {
        data: Option<HashMap<String, String>>,
        title: Option<String>,
        style: Option<ActionStyle>,
    },
    /// Shows a URL.
    OpenUrl { url: String, title: Option<String>, style: Option<ActionStyle> },
    /// Shows another card.
    ShowCard { card: AdaptiveCard, title: Option<String>, style: Option<ActionStyle> },
}

/// The styles of an action.
#[derive(Debug, Clone, Copy, PartialEq, Eq, Structural)]
pub enum ActionStyle {
    /// The action is displayed as normal.
    Default,
    /// The action is displayed with a positive style.
    Positive,
    /// The action is displayed with a destructive style.
    Destructive,
}

impl ActionStyle {
    /// The name of the style.
    pub open spec fn spec_as_str(self) -> Seq<char> {
        match self {
            ActionStyle::Default => "Default"@,
            ActionStyle::Positive => "Positive"@,
            ActionStyle::Destructive => "Destructive"@,
        }
    }

    /// The name of the style.
    pub fn as_str(&self) -> (r: &'static str)
        ensures
            r@ == self.spec_as_str(),
    {
        match self {
            ActionStyle::Default => "Default",
            ActionStyle::Positive => "Positive",
            ActionStyle::Destructive => "Destructive",
        }
    }
}

/// A choice of a choice set.
#[derive(Debug, Clone, PartialEq, Eq)]
pub struct Choice {
    /// The text to display.
    pub title: String,
    /// The raw value of the choice.
    pub value: String,
}

/// The characters of an optional string.
pub open spec fn text_view(s: Option<String>) -> Option<Seq<char>> {
    match s {
        Some(t) => Some(t@),
        None => None,
    }
}

/// The characters of an optional string slice.
pub open spec fn str_view(s: Option<&str>) -> Option<Seq<char>> {
    match s {
        Some(t) => Some(t@),
        None => None,
    }
}

/// The text of a truth value.
pub open spec fn bool_text(b: bool) -> Seq<char> {
    if b {
        "true"@
    } else {
        "false"@
    }
}

fn owned(s: Option<&str>) -> (r: Option<String>)
    ensures
        text_view(r) == str_view(s),
{
    match s {
        Some(t) => Some(t.to_owned()),
        None => None,
    }
}

/// Whether two cards hold the same content: equal texts and settings, and
/// lists that hold the same elements and actions in the same order.
pub open spec fn same_card(a: AdaptiveCard, b: AdaptiveCard) -> bool
    decreases a,
{
    &&& b.card_type == a.card_type
    &&& b.version == a.version
    &&& same_optional_elements(a.body, b.body)
    &&& same_optional_actions(a.actions, b.actions)
    &&& same_boxed_action(a.select_action, b.select_action)
    &&& b.fallback_text == a.fallback_text
    &&& b.min_height == a.min_height
    &&& b.lang == a.lang
    &&& b.schema == a.schema
}

/// Whether two elements hold the same content.
pub open spec fn same_element(a: CardElement, b: CardElement) -> bool
    decreases a,
{
    match (a, b) {
        (
            CardElement::Container {
                items: items_a, select_action: select_action_a, style: style_a,
                vertical_content_alignment: vertical_content_alignment_a, height: height_a, id:
                id_a, separator: separator_a, spacing: spacing_a,
            },
            CardElement::Container {
                items: items_b, select_action: select_action_b, style: style_b,
                vertical_content_alignment: vertical_content_alignment_b, height: height_b, id:
                id_b, separator: separator_b, spacing: spacing_b,
            },
        ) => {
            &&& same_elements(items_a@, items_b@)
            &&& same_optional_action(select_action_a, select_action_b)
            &&& style_b == style_a
            &&& vertical_content_alignment_b == vertical_content_alignment_a
            &&& height_b == height_a
            &&& id_b == id_a
            &&& separator_b == separator_a
            &&& spacing_b == spacing_a
        },
        (
            CardElement::ColumnSet {
                columns: columns_a, select_action: select_action_a, id: id_a, separator:
                separator_a, spacing: spacing_a,
            },
            CardElement::ColumnSet {
                columns: columns_b, select_action: select_action_b, id: id_b, separator:
                separator_b, spacing: spacing_b,
            },
        ) => {
            &&& same_columns(columns_a@, columns_b@)
            &&& same_optional_action(select_action_a, select_action_b)
            &&& id_b == id_a
            &&& separator_b == separator_a
            &&& spacing_b == spacing_a
        },
        (
            CardElement::FactSet {
                facts: facts_a, height: height_a, id: id_a, separator: separator_a, spacing:
                spacing_a,
            },
            CardElement::FactSet {
                facts: facts_b, height: height_b, id: id_b, separator: separator_b, spacing:
                spacing_b,
            },
        ) => {
            &&& facts_b@ == facts_a@
            &&& height_b == height_a
            &&& id_b == id_a
            &&& separator_b == separator_a
            &&& spacing_b == spacing_a
        },
        (
            CardElement::ImageSet {
                images: images_a, image_size: image_size_a, height: height_a, id: id_a,
                separator: separator_a, spacing: spacing_a,
            },
            CardElement::ImageSet {
                images: images_b, image_size: image_size_b, height: height_b, id: id_b,
                separator: separator_b, spacing: spacing_b,
            },
        ) => {
            &&& same_elements(images_a@, images_b@)
            &&& image_size_b == image_size_a
            &&& height_b == height_a
            &&& id_b == id_a
            &&& separator_b == separator_a
            &&& spacing_b == spacing_a
        },
        (
            CardElement::TextBlock {
                text: text_a, wrap: wrap_a, color: color_a, horizontal_alignment:
                horizontal_alignment_a, is_subtle: is_subtle_a, max_lines: max_lines_a,
                font_type: font_type_a, size: size_a, weight: weight_a, height: height_a, id:
                id_a, separator: separator_a, spacing: spacing_a,
            },
            CardElement::TextBlock {
                text: text_b, wrap: wrap_b, color: color_b, horizontal_alignment:
                horizontal_alignment_b, is_subtle: is_subtle_b, max_lines: max_lines_b,
                font_type: font_type_b, size: size_b, weight: weight_b, height: height_b, id:
                id_b, separator: separator_b, spacing: spacing_b,
            },
        ) => {
            &&& text_b == text_a
            &&& wrap_b == wrap_a
            &&& color_b == color_a
            &&& horizontal_alignment_b == horizontal_alignment_a
            &&& is_subtle_b == is_subtle_a
            &&& max_lines_b == max_lines_a
            &&& font_type_b == font_type_a
            &&& size_b == size_a
            &&& weight_b == weight_a
            &&& height_b == height_a
            &&& id_b == id_a
            &&& separator_b == separator_a
            &&& spacing_b == spacing_a
        },
        (
            CardElement::Image {
                url: url_a, alt_text: alt_text_a, background_color: background_color_a, width:
                width_a, height: height_a, horizontal_alignment: horizontal_alignment_a,
                select_action: select_action_a, size: size_a, style: style_a, id: id_a,
                separator: separator_a, spacing: spacing_a,
            },
            CardElement::Image {
                url: url_b, alt_text: alt_text_b, background_color: background_color_b, width:
                width_b, height: height_b, horizontal_alignment: horizontal_alignment_b,
                select_action: select_action_b, size: size_b, style: style_b, id: id_b,
                separator: separator_b, spacing: spacing_b,
            },
        ) => {
            &&& url_b == url_a
            &&& alt_text_b == alt_text_a
            &&& background_color_b == background_color_a
            &&& width_b == width_a
            &&& height_b == height_a
            &&& horizontal_alignment_b == horizontal_alignment_a
            &&& same_optional_action(select_action_a, select_action_b)
            &&& size_b == size_a
            &&& style_b == style_a
            &&& id_b == id_a
            &&& separator_b == separator_a
            &&& spacing_b == spacing_a
        },
        (
            CardElement::InputText {
                id: id_a, placeholder: placeholder_a, is_multiline: is_multiline_a, max_length:
                max_length_a, style: style_a, inline_action: inline_action_a, value: value_a,
                height: height_a, separator: separator_a, spacing: spacing_a,
            },
            CardElement::InputText {
                id: id_b, placeholder: placeholder_b, is_multiline: is_multiline_b, max_length:
                max_length_b, style: style_b, inline_action: inline_action_b, value: value_b,
                height: height_b, separator: separator_b, spacing: spacing_b,
            },
        ) => {
            &&& id_b == id_a
            &&& placeholder_b == placeholder_a
            &&& is_multiline_b == is_multiline_a
            &&& max_length_b == max_length_a
            &&& style_b == style_a
            &&& same_optional_action(inline_action_a, inline_action_b)
            &&& value_b == value_a
            &&& height_b == height_a
            &&& separator_b == separator_a
            &&& spacing_b == spacing_a
        },
        (
            CardElement::InputNumber {
                id: id_a, placeholder: placeholder_a, max: max_a, min: min_a, value: value_a,
                height: height_a, separator: separator_a, spacing: spacing_a,
            },
            CardElement::InputNumber {
                id: id_b, placeholder: placeholder_b, max: max_b, min: min_b, value: value_b,
                height: height_b, separator: separator_b, spacing: spacing_b,
            },
        ) => {
            &&& id_b == id_a
            &&& placeholder_b == placeholder_a
            &&& max_b == max_a
            &&& min_b == min_a
            &&& value_b == value_a
            &&& height_b == height_a
            &&& separator_b == separator_a
            &&& spacing_b == spacing_a
        },
        (
            CardElement::InputDate {
                id: id_a, placeholder: placeholder_a, max: max_a, min: min_a, value: value_a,
                height: height_a, separator: separator_a, spacing: spacing_a,
            },
            CardElement::InputDate {
                id: id_b, placeholder: placeholder_b, max: max_b, min: min_b, value: value_b,
                height: height_b, separator: separator_b, spacing: spacing_b,
            },
        ) => {
            &&& id_b == id_a
            &&& placeholder_b == placeholder_a
            &&& max_b == max_a
            &&& min_b == min_a
            &&& value_b == value_a
            &&& height_b == height_a
            &&& separator_b == separator_a
            &&& spacing_b == spacing_a
        },
        (
            CardElement::InputTime {
                id: id_a, max: max_a, min: min_a, value: value_a, height: height_a, separator:
                separator_a, spacing: spacing_a,
            },
            CardElement::InputTime {
                id: id_b, max: max_b, min: min_b, value: value_b, height: height_b, separator:
                separator_b, spacing: spacing_b,
            },
        ) => {
            &&& id_b == id_a
            &&& max_b == max_a
            &&& min_b == min_a
            &&& value_b == value_a
            &&& height_b == height_a
            &&& separator_b == separator_a
            &&& spacing_b == spacing_a
        },
        (
            CardElement::InputToggle {
                id: id_a, value: value_a, value_off: value_off_a, value_on: value_on_a, height:
                height_a, separator: separator_a, spacing: spacing_a, title: title_a,
            },
            CardElement::InputToggle {
                id: id_b, value: value_b, value_off: value_off_b, value_on: value_on_b, height:
                height_b, separator: separator_b, spacing: spacing_b, title: title_b,
            },
        ) => {
            &&& id_b == id_a
            &&& value_b == value_a
            &&& value_off_b == value_off_a
            &&& value_on_b == value_on_a
            &&& height_b == height_a
            &&& separator_b == separator_a
            &&& spacing_b == spacing_a
            &&& title_b == title_a
        },
        (
            CardElement::InputChoiceSet {
                choices: choices_a, id: id_a, is_multi_select: is_multi_select_a, style:
                style_a, value: value_a, height: height_a, separator: separator_a, spacing:
                spacing_a,
            },
            CardElement::InputChoiceSet {
                choices: choices_b, id: id_b, is_multi_select: is_multi_select_b, style:
                style_b, value: value_b, height: height_b, separator: separator_b, spacing:
                spacing_b,
            },
        ) => {
            &&& choices_b@ == choices_a@
            &&& id_b == id_a
            &&& is_multi_select_b == is_multi_select_a
            &&& style_b == style_a
            &&& value_b == value_a
            &&& height_b == height_a
            &&& separator_b == separator_a
            &&& spacing_b == spacing_a
        },
        (
            CardElement::ActionSet {
                actions: actions_a, height: height_a,
            },
            CardElement::ActionSet {
                actions: actions_b, height: height_b,
            },
        ) => {
            &&& same_actions(actions_a@, actions_b@)
            &&& height_b == height_a
        },
        _ => false,
    }
}

/// Whether two columns hold the same content.
pub open spec fn same_column(a: Column, b: Column) -> bool
    decreases a,
{
    &&& same_elements(a.items@, b.items@)
    &&& same_optional_action(a.select_action, b.select_action)
    &&& b.style == a.style
    &&& b.vertical_content_alignment == a.vertical_content_alignment
    &&& b.separator == a.separator
    &&& b.spacing == a.spacing
    &&& b.width == a.width
    &&& b.id == a.id
}

/// Whether two actions hold the same content.
pub open spec fn same_action(a: Action, b: Action) -> bool
    decreases a,
{
    match (a, b) {
        (
            Action::Submit {
                data: data_a, title: title_a, style: style_a,
            },
            Action::Submit {
                data: data_b, title: title_b, style: style_b,
            },
        ) => {
            &&& same_data(data_a, data_b)
            &&& title_b == title_a
            &&& style_b == style_a
        },
        (
            Action::OpenUrl {
                url: url_a, title: title_a, style: style_a,
            },
            Action::OpenUrl {
                url: url_b, title: title_b, style: style_b,
            },
        ) => {
            &&& url_b == url_a
            &&& title_b == title_a
            &&& style_b == style_a
        },
        (
            Action::ShowCard {
                card: card_a, title: title_a, style: style_a,
            },
            Action::ShowCard {
                card: card_b, title: title_b, style: style_b,
            },
        ) => {
            &&& same_card(card_a, card_b)
            &&& title_b == title_a
            &&& style_b == style_a
        },
        _ => false,
    }
}

/// Whether two lists hold the same elements in the same order.
pub open spec fn same_elements(a: Seq<CardElement>, b: Seq<CardElement>) -> bool
    decreases a,
{
    &&& a.len() == b.len()
    &&& forall|i: int| 0 <= i < a.len() ==> same_element(#[trigger] a[i], b[i])
}

/// Whether two lists hold the same columns in the same order.
pub open spec fn same_columns(a: Seq<Column>, b: Seq<Column>) -> bool
    decreases a,
{
    &&& a.len() == b.len()
    &&& forall|i: int| 0 <= i < a.len() ==> same_column(#[trigger] a[i], b[i])
}

/// Whether two lists hold the same actions in the same order.
pub open spec fn same_actions(a: Seq<Action>, b: Seq<Action>) -> bool
    decreases a,
{
    &&& a.len() == b.len()
    &&& forall|i: int| 0 <= i < a.len() ==> same_action(#[trigger] a[i], b[i])
}

/// Whether two optional actions hold the same content.
pub open spec fn same_optional_action(a: Option<Action>, b: Option<Action>) -> bool
    decreases a,
{
    match (a, b) {
        (Some(x), Some(y)) => same_action(x, y),
        (None, None) => true,
        _ => false,
    }
}

/// Whether two optional boxed actions hold the same content.
pub open spec fn same_boxed_action(a: Option<Box<Action>>, b: Option<Box<Action>>) -> bool
    decreases a,
{
    match (a, b) {
        (Some(x), Some(y)) => same_action(*x, *y),
        (None, None) => true,
        _ => false,
    }
}

/// Whether two optional lists hold the same elements in the same order.
pub open spec fn same_optional_elements(
    a: Option<Vec<CardElement>>,
    b: Option<Vec<CardElement>>,
) -> bool
    decreases a,
{
    match (a, b) {
        (Some(x), Some(y)) => same_elements(x@, y@),
        (None, None) => true,
        _ => false,
    }
}

/// Whether two optional lists hold the same actions in the same order.
pub open spec fn same_optional_actions(a: Option<Vec<Action>>, b: Option<Vec<Action>>) -> bool
    decreases a,
{
    match (a, b) {
        (Some(x), Some(y)) => same_actions(x@, y@),
        (None, None) => true,
        _ => false,
    }
}

/// Whether the data of two submit actions hold the same entries.
pub open spec fn same_data(
    a: Option<HashMap<String, String>>,
    b: Option<HashMap<String, String>>,
) -> bool {
    match (a, b) {
        (Some(x), Some(y)) => x@ == y@,
        (None, None) => true,
        _ => false,
    }
}

fn copy_text(a: &Option<String>) -> (r: Option<String>)
    ensures
        r == *a,
{
    match a {
        Some(text) => Some(text.clone()),
        None => None,
    }
}

fn copy_data(a: &Option<HashMap<String, String>>) -> (r: Option<HashMap<String, String>>)
    ensures
        same_data(*a, r),
{
    match a {
        Some(data) => Some(data.clone()),
        None => None,
    }
}

fn copy_facts(a: &Vec<Fact>) -> (r: Vec<Fact>)
    ensures
        r@ == a@,
{
    let mut r: Vec<Fact> = Vec::new();
    let mut i: usize = 0;
    while i < a.len()
        invariant
            i <= a.len(),
            r@ == a@.subrange(0, i as int),
        decreases a.len() - i,
    {
        r.push(Fact { title: a[i].title.clone(), value: a[i].value.clone() });
        i = i + 1;
    }
    assert(a@.subrange(0, a@.len() as int) == a@);
    r
}

fn copy_choices(a: &Vec<Choice>) -> (r: Vec<Choice>)
    ensures
        r@ == a@,
{
    let mut r: Vec<Choice> = Vec::new();
    let mut i: usize = 0;
    while i < a.len()
        invariant
            i <= a.len(),
            r@ == a@.subrange(0, i as int),
        decreases a.len() - i,
    {
        r.push(Choice { title: a[i].title.clone(), value: a[i].value.clone() });
        i = i + 1;
    }
    assert(a@.subrange(0, a@.len() as int) == a@);
    r
}

fn copy_optional_action(a: &Option<Action>) -> (r: Option<Action>)
    ensures
        same_optional_action(*a, r),
    decreases a,
{
    match a {
        Some(action) => Some(copy_action(action)),
        None => None,
    }
}

fn copy_boxed_action(a: &Option<Box<Action>>) -> (r: Option<Box<Action>>)
    ensures
        same_boxed_action(*a, r),
    decreases a,
{
    match a {
        Some(action) => Some(Box::new(copy_action(action))),
        None => None,
    }
}

fn copy_optional_elements(a: &Option<Vec<CardElement>>) -> (r: Option<Vec<CardElement>>)
    ensures
        same_optional_elements(*a, r),
    decreases a,
{
    match a {
        Some(elements) => Some(copy_elements(elements)),
        None => None,
    }
}

fn copy_optional_actions(a: &Option<Vec<Action>>) -> (r: Option<Vec<Action>>)
    ensures
        same_optional_actions(*a, r),
    decreases a,
{
    match a {
        Some(actions) => Some(copy_actions(actions)),
        None => None,
    }
}

/// A copy of a card.
fn copy_card(a: &AdaptiveCard) -> (r: AdaptiveCard)
    ensures
        same_card(*a, r),
    decreases a,
{
    AdaptiveCard {
        card_type: a.card_type.clone(),
        version: a.version.clone(),
        body: copy_optional_elements(&a.body),
        actions: copy_optional_actions(&a.actions),
        select_action: copy_boxed_action(&a.select_action),
        fallback_text: copy_text(&a.fallback_text),
        min_height: copy_text(&a.min_height),
        lang: copy_text(&a.lang),
        schema: a.schema.clone(),
    }
}

/// A copy of an element.
fn copy_element(a: &CardElement) -> (r: CardElement)
    ensures
        same_element(*a, r),
    decreases a,
{
    match a {
        CardElement::Container {
            items, select_action, style, vertical_content_alignment, height, id, separator,
            spacing,
        } => CardElement::Container {
            items: copy_elements(items),
            select_action: copy_optional_action(select_action),
            style: *style,
            vertical_content_alignment: *vertical_content_alignment,
            height: *height,
            id: copy_text(id),
            separator: *separator,
            spacing: *spacing,
        },
        CardElement::ColumnSet {
            columns, select_action, id, separator, spacing,
        } => CardElement::ColumnSet {
            columns: copy_columns(columns),
            select_action: copy_optional_action(select_action),
            id: copy_text(id),
            separator: *separator,
            spacing: *spacing,
        },
        CardElement::FactSet {
            facts, height, id, separator, spacing,
        } => CardElement::FactSet {
            facts: copy_facts(facts),
            height: *height,
            id: copy_text(id),
            separator: *separator,
            spacing: *spacing,
        },
        CardElement::ImageSet {
            images, image_size, height, id, separator, spacing,
        } => CardElement::ImageSet {
            images: copy_elements(images),
            image_size: *image_size,
            height: *height,
            id: copy_text(id),
            separator: *separator,
            spacing: *spacing,
        },
        CardElement::TextBlock {
            text, wrap, color, horizontal_alignment, is_subtle, max_lines, font_type, size,
            weight, height, id, separator, spacing,
        } => CardElement::TextBlock {
            text: text.clone(),
            wrap: *wrap,
            color: *color,
            horizontal_alignment: *horizontal_alignment,
            is_subtle: *is_subtle,
            max_lines: *max_lines,
            font_type: *font_type,
            size: *size,
            weight: *weight,
            height: *height,
            id: copy_text(id),
            separator: *separator,
            spacing: *spacing,
        },
        CardElement::Image {
            url, alt_text, background_color, width, height, horizontal_alignment, select_action,
            size, style, id, separator, spacing,
        } => CardElement::Image {
            url: url.clone(),
            alt_text: copy_text(alt_text),
            background_color: copy_text(background_color),
            width: copy_text(width),
            height: copy_text(height),
            horizontal_alignment: *horizontal_alignment,
            select_action: copy_optional_action(select_action),
            size: *size,
            style: *style,
            id: copy_text(id),
            separator: *separator,
            spacing: *spacing,
        },
        CardElement::InputText {
            id, placeholder, is_multiline, max_length, style, inline_action, value, height,
            separator, spacing,
        } => CardElement::InputText {
            id: id.clone(),
            placeholder: copy_text(placeholder),
            is_multiline: *is_multiline,
            max_length: *max_length,
            style: *style,
            inline_action: copy_optional_action(inline_action),
            value: copy_text(value),
            height: *height,
            separator: *separator,
            spacing: *spacing,
        },
        CardElement::InputNumber {
            id, placeholder, max, min, value, height, separator, spacing,
        } => CardElement::InputNumber {
            id: id.clone(),
            placeholder: copy_text(placeholder),
            max: *max,
            min: *min,
            value: *value,
            height: *height,
            separator: *separator,
            spacing: *spacing,
        },
        CardElement::InputDate {
            id, placeholder, max, min, value, height, separator, spacing,
        } => CardElement::InputDate {
            id: id.clone(),
            placeholder: copy_text(placeholder),
            max: copy_text(max),
            min: copy_text(min),
            value: copy_text(value),
            height: *height,
            separator: *separator,
            spacing: *spacing,
        },
        CardElement::InputTime {
            id, max, min, value, height, separator, spacing,
        } => CardElement::InputTime {
            id: id.clone(),
            max: copy_text(max),
            min: copy_text(min),
            value: copy_text(value),
            height: *height,
            separator: *separator,
            spacing: *spacing,
        },
        CardElement::InputToggle {
            id, value, value_off, value_on, height, separator, spacing, title,
        } => CardElement::InputToggle {
            id: id.clone(),
            value: copy_text(value),
            value_off: copy_text(value_off),
            value_on: copy_text(value_on),
            height: *height,
            separator: *separator,
            spacing: *spacing,
            title: copy_text(title),
        },
        CardElement::InputChoiceSet {
            choices, id, is_multi_select, style, value, height, separator, spacing,
        } => CardElement::InputChoiceSet {
            choices: copy_choices(choices),
            id: id.clone(),
            is_multi_select: *is_multi_select,
            style: *style,
            value: copy_text(value),
            height: *height,
            separator: *separator,
            spacing: *spacing,
        },
        CardElement::ActionSet {
            actions, height,
        } => CardElement::ActionSet {
            actions: copy_actions(actions),
            height: *height,
        },
    }
}

/// A copy of a column.
fn copy_column(a: &Column) -> (r: Column)
    ensures
        same_column(*a, r),
    decreases a,
{
    Column {
        items: copy_elements(&a.items),
        select_action: copy_optional_action(&a.select_action),
        style: a.style,
        vertical_content_alignment: a.vertical_content_alignment,
        separator: a.separator,
        spacing: a.spacing,
        width: copy_text(&a.width),
        id: copy_text(&a.id),
    }
}

/// A copy of an action.
fn copy_action(a: &Action) -> (r: Action)
    ensures
        same_action(*a, r),
    decreases a,
{
    match a {
        Action::Submit {
            data, title, style,
        } => Action::Submit {
            data: copy_data(data),
            title: copy_text(title),
            style: *style,
        },
        Action::OpenUrl {
            url, title, style,
        } => Action::OpenUrl {
            url: url.clone(),
            title: copy_text(title),
            style: *style,
        },
        Action::ShowCard {
            card, title, style,
        } => Action::ShowCard {
            card: copy_card(card),
            title: copy_text(title),
            style: *style,
        },
    }
}

/// A copy of a list of elements.
fn copy_elements(a: &Vec<CardElement>) -> (r: Vec<CardElement>)
    ensures
        same_elements(a@, r@),
    decreases a,
{
    let mut r: Vec<CardElement> = Vec::new();
    let mut i: usize = 0;
    while i < a.len()
        invariant
            i <= a.len(),
            r@.len() == i,
            forall|j: int| 0 <= j < i ==> same_element(#[trigger] a@[j], r@[j]),
        decreases a.len() - i,
    {
        r.push(copy_element(&a[i]));
        i = i + 1;
    }
    r
}

/// A copy of a list of columns.
fn copy_columns(a: &Vec<Column>) -> (r: Vec<Column>)
    ensures
        same_columns(a@, r@),
    decreases a,
{
    let mut r: Vec<Column> = Vec::new();
    let mut i: usize = 0;
    while i < a.len()
        invariant
            i <= a.len(),
            r@.len() == i,
            forall|j: int| 0 <= j < i ==> same_column(#[trigger] a@[j], r@[j]),
        decreases a.len() - i,
    {
        r.push(copy_column(&a[i]));
        i = i + 1;
    }
    r
}

/// A copy of a list of actions.
fn copy_actions(a: &Vec<Action>) -> (r: Vec<Action>)
    ensures
        same_actions(a@, r@),
    decreases a,
{
    let mut r: Vec<Action> = Vec::new();
    let mut i: usize = 0;
    while i < a.len()
        invariant
            i <= a.len(),
            r@.len() == i,
            forall|j: int| 0 <= j < i ==> same_action(#[trigger] a@[j], r@[j]),
        decreases a.len() - i,
    {
        r.push(copy_action(&a[i]));
        i = i + 1;
    }
    r
}

impl Clone for AdaptiveCard {
    /// A copy with the same content.
    fn clone(&self) -> (r: Self)
        ensures
            same_card(*self, r),
    {
        copy_card(self)
    }
}

impl Clone for CardElement {
    /// A copy with the same content.
    fn clone(&self) -> (r: Self)
        ensures
            same_element(*self, r),
    {
        copy_element(self)
    }
}

impl Clone for Column {
    /// A copy with the same content.
    fn clone(&self) -> (r: Self)
        ensures
            same_column(*self, r),
    {
        copy_column(self)
    }
}

impl Clone for Action {
    /// A copy with the same content.
    fn clone(&self) -> (r: Self)
        ensures
            same_action(*self, r),
    {
        copy_action(self)
    }
}

impl AdaptiveCard {
    /// A card with the mandatory defaults: its type, its version and its
    /// schema, and nothing else.
    #[must_use]
    pub fn new() -> (r: AdaptiveCard)
        ensures
            r.card_type@ == "AdaptiveCard"@,
            r.version@ == "1.3"@,
            r.schema@ == "http://adaptivecards.io/schemas/adaptive-card.json"@,
            r.body is None,
            r.actions is None,
            r.select_action is None,
            r.fallback_text is None,
            r.min_height is None,
            r.lang is None,
    {
        AdaptiveCard {
            card_type: "AdaptiveCard".to_owned(),
            version: "1.3".to_owned(),
            body: None,
            actions: None,
            select_action: None,
            fallback_text: None,
            min_height: None,
            lang: None,
            schema: "http://adaptivecards.io/schemas/adaptive-card.json".to_owned(),
        }
    }

    /// The elements of the body, none where the card has no body.
    pub open spec fn body_view(self) -> Seq<CardElement> {
        match self.body {
            Some(body) => body@,
            None => Seq::empty(),
        }
    }

    /// The actions of the card, none where it has no list of them.
    pub open spec fn actions_view(self) -> Seq<Action> {
        match self.actions {
            Some(actions) => actions@,
            None => Seq::empty(),
        }
    }

    /// Adds an element at the end of the card's body and returns a copy of
    /// the card.
    pub fn add_body(&mut self, card: CardElement) -> (r: AdaptiveCard)
        ensures
            final(self).body is Some,
            final(self).body_view() == old(self).body_view().push(card),
            *final(self) == (AdaptiveCard { body: final(self).body, ..*old(self) }),
            same_card(*final(self), r),
    {
        if let Some(body) = &mut self.body {
            body.push(card);
        } else {
            let mut body: Vec<CardElement> = Vec::new();
            body.push(card);
            self.body = Some(body);
        }
        copy_card(self)
    }

    /// Adds an action at the end of the card's actions and returns a copy of
    /// the card.
    pub fn add_action(&mut self, a: Action) -> (r: AdaptiveCard)
        ensures
            final(self).actions is Some,
            final(self).actions_view() == old(self).actions_view().push(a),
            *final(self) == (AdaptiveCard { actions: final(self).actions, ..*old(self) }),
            same_card(*final(self), r),
    {
        if let Some(actions) = &mut self.actions {
            actions.push(a);
        } else {
            let mut actions: Vec<Action> = Vec::new();
            actions.push(a);
            self.actions = Some(actions);
        }
        copy_card(self)
    }
}

impl Column {
    /// An empty column.
    #[must_use]
    pub fn new() -> (r: Column)
        ensures
            r.items@.len() == 0,
            r.select_action is None,
            r.style is None,
            r.vertical_content_alignment is None,
            r.separator is None,
            r.spacing is None,
            r.width is None,
            r.id is None,
    {
        Column {
            items: Vec::new(),
            select_action: None,
            style: None,
            vertical_content_alignment: None,
            separator: None,
            spacing: None,
            width: None,
            id: None,
        }
    }

    /// Adds an element at the end of the column and returns a copy of the
    /// column.
    pub fn add_element(&mut self, item: CardElement) -> (r: Column)
        ensures
            final(self).items@ == old(self).items@.push(item),
            *final(self) == (Column { items: final(self).items, ..*old(self) }),
            same_column(*final(self), r),
    {
        self.items.push(item);
        copy_column(self)
    }

    /// Sets whether a line separates the column from the one before and
    /// returns a copy of the column.
    pub fn set_separator(&mut self, s: bool) -> (r: Column)
        ensures
            *final(self) == (Column { separator: Some(s), ..*old(self) }),
            same_column(*final(self), r),
    {
        self.separator = Some(s);
        copy_column(self)
    }

    /// Sets how the content of the column is aligned vertically and returns
    /// a copy of the column.
    pub fn set_vertical_alignment(&mut self, s: VerticalContentAlignment) -> (r: Column)
        ensures
            *final(self) == (Column { vertical_content_alignment: Some(s), ..*old(self) }),
            same_column(*final(self), r),
    {
        self.vertical_content_alignment = Some(s);
        copy_column(self)
    }

    /// Sets the width of the column and returns a copy of the column.
    pub fn set_width(&mut self, s: &str) -> (r: Column)
        ensures
            final(self).width matches Some(width) && width@ == s@,
            *final(self) == (Column { width: final(self).width, ..*old(self) }),
            same_column(*final(self), r),
    {
        self.width = Some(s.to_owned());
        copy_column(self)
    }

    /// Sets the spacing to the column before and returns a copy of the
    /// column.
    pub fn set_spacing(&mut self, s: Spacing) -> (r: Column)
        ensures
            *final(self) == (Column { spacing: Some(s), ..*old(self) }),
            same_column(*final(self), r),
    {
        self.spacing = Some(s);
        copy_column(self)
    }
}

impl CardElement {
    /// An empty container.
    #[must_use]
    pub fn container() -> (r: CardElement)
        ensures
            r matches CardElement::Container {
                items,
                select_action,
                style,
                vertical_content_alignment,
                height,
                id,
                separator,
                spacing,
            } && items@.len() == 0 && select_action is None && style is None
                && vertical_content_alignment is None && height is None && id is None
                && separator is None && spacing is None,
    {
        CardElement::Container {
            items: Vec::new(),
            select_action: None,
            style: None,
            vertical_content_alignment: None,
            height: None,
            id: None,
            separator: None,
            spacing: None,
        }
    }

    /// A text input called `id` with the initial value `value`.
    #[must_use]
    pub fn input_text(id: &str, value: Option<&str>) -> (r: CardElement)
        ensures
            r matches CardElement::InputText {
                id: r_id,
                placeholder,
                is_multiline,
                max_length,
                style,
                inline_action,
                value: r_value,
                height,
                separator,
                spacing,
            } && r_id@ == id@ && text_view(r_value) == str_view(value) && placeholder is None
                && is_multiline is None && max_length is None && style is None
                && inline_action is None && height is None && separator is None
                && spacing is None,
    {
        CardElement::InputText {
            id: id.to_owned(),
            placeholder: None,
            is_multiline: None,
            max_length: None,
            style: None,
            inline_action: None,
            value: owned(value),
            height: None,
            separator: None,
            spacing: None,
        }
    }

    /// A choice set called `id`, without choices, with the initial value `value`.
    #[must_use]
    pub fn input_choice_set(id: &str, value: Option<&str>) -> (r: CardElement)
        ensures
            r matches CardElement::InputChoiceSet {
                choices,
                id: r_id,
                is_multi_select,
                style,
                value: r_value,
                height,
                separator,
                spacing,
            } && choices@.len() == 0 && r_id@ == id@ && text_view(r_value) == str_view(value)
                && is_multi_select is None && style is None && height is None
                && separator is None && spacing is None,
    {
        CardElement::InputChoiceSet {
            choices: Vec::new(),
            id: id.to_owned(),
            is_multi_select: None,
            style: None,
            value: owned(value),
            height: None,
            separator: None,
            spacing: None,
        }
    }

    /// A toggle called `id` whose initial value is the text of `value`, `true` or
    /// `false`.
    #[must_use]
    pub fn input_toggle(id: &str, value: bool) -> (r: CardElement)
        ensures
            r matches CardElement::InputToggle {
                id: r_id,
                value: r_value,
                value_off,
                value_on,
                height,
                separator,
                spacing,
                title,
            } && r_id@ == id@ && text_view(r_value) == Some(bool_text(value)) && value_off is None
                && value_on is None && height is None && separator is None && spacing is None
                && title is None,
    {
        let text = if value {
            "true"
        } else {
            "false"
        };
        CardElement::InputToggle {
            id: id.to_owned(),
            value: Some(text.to_owned()),
            value_off: None,
            value_on: None,
            height: None,
            separator: None,
            spacing: None,
            title: None,
        }
    }

    /// A text block that shows `text`.
    #[must_use]
    pub fn text_block(text: &str) -> (r: CardElement)
        ensures
            r matches CardElement::TextBlock {
                text: r_text,
                wrap,
                color,
                horizontal_alignment,
                is_subtle,
                max_lines,
                font_type,
                size,
                weight,
                height,
                id,
                separator,
                spacing,
            } && r_text@ == text@ && wrap is None && color is None && horizontal_alignment is None
                && is_subtle is None && max_lines is None && font_type is None && size is None
                && weight is None && height is None && id is None && separator is None
                && spacing is None,
    {
        CardElement::TextBlock {
            text: text.to_owned(),
            wrap: None,
            color: None,
            horizontal_alignment: None,
            is_subtle: None,
            max_lines: None,
            font_type: None,
            size: None,
            weight: None,
            height: None,
            id: None,
            separator: None,
            spacing: None,
        }
    }

    /// An empty fact set.
    #[must_use]
    pub fn fact_set() -> (r: CardElement)
        ensures
            r matches CardElement::FactSet { facts, height, id, separator, spacing }
                && facts@.len() == 0 && height is None && id is None && separator is None
                && spacing is None,
    {
        CardElement::FactSet {
            facts: Vec::new(),
            height: None,
            id: None,
            separator: None,
            spacing: None,
        }
    }

    /// The image at `url`.
    pub fn image(url: &str) -> (r: CardElement)
        ensures
            r matches CardElement::Image {
                url: r_url,
                alt_text,
                background_color,
                width,
                height,
                horizontal_alignment,
                select_action,
                size,
                style,
                id,
                separator,
                spacing,
            } && r_url@ == url@ && alt_text is None && background_color is None && width is None
                && height is None && horizontal_alignment is None && select_action is None
                && size is None && style is None && id is None && separator is None
                && spacing is None,
    {
        CardElement::Image {
            url: url.to_owned(),
            alt_text: None,
            background_color: None,
            width: None,
            height: None,
            horizontal_alignment: None,
            select_action: None,
            size: None,
            style: None,
            id: None,
            separator: None,
            spacing: None,
        }
    }

    /// An empty column set.
    #[must_use]
    pub fn column_set() -> (r: CardElement)
        ensures
            r matches CardElement::ColumnSet { columns, select_action, id, separator, spacing }
                && columns@.len() == 0 && select_action is None && id is None
                && separator is None && spacing is None,
    {
        CardElement::ColumnSet {
            columns: Vec::new(),
            select_action: None,
            id: None,
            separator: None,
            spacing: None,
        }
    }

    /// An empty action set.
    #[must_use]
    pub fn action_set() -> (r: CardElement)
        ensures
            r matches CardElement::ActionSet { actions, height } && actions@.len() == 0
                && height is None,
    {
        CardElement::ActionSet { actions: Vec::new(), height: None }
    }

    /// Adds a fact to a fact set or a choice to a choice set, with `title` and
    /// `value`. Any other element stays as it is. The call returns a copy of the
    /// element.
    pub fn add_key_value(&mut self, title: &str, value: &str) -> (r: CardElement)
        ensures
            !(*old(self) is FactSet) && !(*old(self) is InputChoiceSet) ==> *final(self) == *old(
                self,
            ),
            *old(self) is FactSet ==> ({
                &&& *final(self) is FactSet
                &&& (*final(self))->facts@.len() == (*old(self))->facts@.len() + 1
                &&& (*final(self))->facts@.drop_last() == (*old(self))->facts@
                &&& (*final(self))->facts@.last().title@ == title@
                &&& (*final(self))->facts@.last().value@ == value@
                &&& *final(self) == old(self).with_facts((*final(self))->facts)
            }),
            *old(self) is InputChoiceSet ==> ({
                &&& *final(self) is InputChoiceSet
                &&& (*final(self))->choices@.len() == (*old(self))->choices@.len() + 1
                &&& (*final(self))->choices@.drop_last() == (*old(self))->choices@
                &&& (*final(self))->choices@.last().title@ == title@
                &&& (*final(self))->choices@.last().value@ == value@
                &&& *final(self) == old(self).with_choices((*final(self))->choices)
            }),
            same_element(*final(self), r),
    {
        match self {
            CardElement::FactSet { facts, .. } => {
                facts.push(Fact { title: title.to_owned(), value: value.to_owned() });
            },
            CardElement::InputChoiceSet { choices, .. } => {
                choices.push(Choice { title: title.to_owned(), value: value.to_owned() });
            },
            _ => {},
        }
        copy_element(self)
    }

    /// A container with `new` as its items; any other element as it is.
    pub open spec fn with_items(self, new: Vec<CardElement>) -> CardElement {
        match self {
            CardElement::Container {
                items: _, select_action, style, vertical_content_alignment, height, id,
                separator, spacing,
            } => CardElement::Container {
                items: new, select_action, style, vertical_content_alignment, height, id,
                separator, spacing,
            },
            other => other,
        }
    }

    /// Adds an element to a container. Any other element stays as it is. The call
    /// returns a copy of the element.
    pub fn add_element(&mut self, element: CardElement) -> (r: CardElement)
        ensures
            !(*old(self) is Container) ==> *final(self) == *old(self),
            *old(self) is Container ==> ({
                &&& *final(self) is Container
                &&& (*final(self))->items@ == (*old(self))->items@.push(element)
                &&& *final(self) == old(self).with_items((*final(self))->items)
            }),
            same_element(*final(self), r),
    {
        match self {
            CardElement::Container { items, .. } => {
                items.push(element);
            },
            _ => {},
        }
        copy_element(self)
    }

    /// A container with `new` as its style; any other element as it is.
    pub open spec fn with_container_style(self, new: Option<ContainerStyle>) -> CardElement {
        match self {
            CardElement::Container {
                items, select_action, style: _, vertical_content_alignment, height, id,
                separator, spacing,
            } => CardElement::Container {
                items, select_action, style: new, vertical_content_alignment, height, id,
                separator, spacing,
            },
            other => other,
        }
    }

    /// Sets the style of a container. Any other element stays as it is. The call
    /// returns a copy of the element.
    pub fn set_container_style(&mut self, s: ContainerStyle) -> (r: CardElement)
        ensures
            *final(self) == old(self).with_container_style(Some(s)),
            same_element(*final(self), r),
    {
        match self {
            CardElement::Container { style, .. } => {
                *style = Some(s);
            },
            _ => {},
        }
        copy_element(self)
    }

    /// A container with `new` as the vertical alignment of its content; any other
    /// element as it is.
    pub open spec fn with_vertical_alignment(
        self,
        new: Option<VerticalContentAlignment>,
    ) -> CardElement {
        match self {
            CardElement::Container {
                items, select_action, style, vertical_content_alignment: _, height, id,
                separator, spacing,
            } => CardElement::Container {
                items, select_action, style, vertical_content_alignment: new, height, id,
                separator, spacing,
            },
            other => other,
        }
    }

    /// Sets how the content of a container is aligned vertically. Any other
    /// element stays as it is. The call returns a copy of the element.
    pub fn set_vertical_alignment(&mut self, align: VerticalContentAlignment) -> (r: CardElement)
        ensures
            *final(self) == old(self).with_vertical_alignment(Some(align)),
            same_element(*final(self), r),
    {
        match self {
            CardElement::Container { vertical_content_alignment, .. } => {
                *vertical_content_alignment = Some(align);
            },
            _ => {},
        }
        copy_element(self)
    }

    /// A text input with `new` as its multiline flag; any other element as it is.
    pub open spec fn with_multiline(self, new: Option<bool>) -> CardElement {
        match self {
            CardElement::InputText {
                id, placeholder, is_multiline: _, max_length, style, inline_action, value,
                height, separator, spacing,
            } => CardElement::InputText {
                id, placeholder, is_multiline: new, max_length, style, inline_action, value,
                height, separator, spacing,
            },
            other => other,
        }
    }

    /// Sets whether a text input takes several lines. Any other element stays as
    /// it is. The call returns a copy of the element.
    pub fn set_multiline(&mut self, s: bool) -> (r: CardElement)
        ensures
            *final(self) == old(self).with_multiline(Some(s)),
            same_element(*final(self), r),
    {
        match self {
            CardElement::InputText { is_multiline, .. } => {
                *is_multiline = Some(s);
            },
            _ => {},
        }
        copy_element(self)
    }

    /// A choice set with `new` as its style; any other element as it is.
    pub open spec fn with_choice_style(self, new: Option<ChoiceInputStyle>) -> CardElement {
        match self {
            CardElement::InputChoiceSet {
                choices, id, is_multi_select, style: _, value, height, separator, spacing,
            } => CardElement::InputChoiceSet {
                choices, id, is_multi_select, style: new, value, height, separator, spacing,
            },
            other => other,
        }
    }

    /// Sets the style of a choice set. Any other element stays as it is. The call
    /// returns a copy of the element.
    pub fn set_style(&mut self, s: ChoiceInputStyle) -> (r: CardElement)
        ensures
            *final(self) == old(self).with_choice_style(Some(s)),
            same_element(*final(self), r),
    {
        match self {
            CardElement::InputChoiceSet { style, .. } => {
                *style = Some(s);
            },
            _ => {},
        }
        copy_element(self)
    }

    /// A toggle with `new` as its title; any other element as it is.
    pub open spec fn with_title(self, new: Option<String>) -> CardElement {
        match self {
            CardElement::InputToggle {
                id, value, value_off, value_on, height, separator, spacing, title: _,
            } => CardElement::InputToggle {
                id, value, value_off, value_on, height, separator, spacing, title: new,
            },
            other => other,
        }
    }

    /// Sets the title of a toggle. Any other element stays as it is. The call
    /// returns a copy of the element.
    pub fn set_title(&mut self, s: String) -> (r: CardElement)
        ensures
            *final(self) == old(self).with_title(Some(s)),
            same_element(*final(self), r),
    {
        match self {
            CardElement::InputToggle { title, .. } => {
                *title = Some(s);
            },
            _ => {},
        }
        copy_element(self)
    }

    /// A choice set with `new` as its multiselect flag; any other element as it
    /// is.
    pub open spec fn with_multiselect(self, new: Option<bool>) -> CardElement {
        match self {
            CardElement::InputChoiceSet {
                choices, id, is_multi_select: _, style, value, height, separator, spacing,
            } => CardElement::InputChoiceSet {
                choices, id, is_multi_select: new, style, value, height, separator, spacing,
            },
            other => other,
        }
    }

    /// Sets whether a choice set takes several choices. Any other element stays
    /// as it is. The call returns a copy of the element.
    pub fn set_multiselect(&mut self, b: bool) -> (r: CardElement)
        ensures
            *final(self) == old(self).with_multiselect(Some(b)),
            same_element(*final(self), r),
    {
        match self {
            CardElement::InputChoiceSet { is_multi_select, .. } => {
                *is_multi_select = Some(b);
            },
            _ => {},
        }
        copy_element(self)
    }

    /// A text block with `new` as its weight; any other element as it is.
    pub open spec fn with_weight(self, new: Option<Weight>) -> CardElement {
        match self {
            CardElement::TextBlock {
                text, wrap, color, horizontal_alignment, is_subtle, max_lines, font_type, size,
                weight: _, height, id, separator, spacing,
            } => CardElement::TextBlock {
                text, wrap, color, horizontal_alignment, is_subtle, max_lines, font_type, size,
                weight: new, height, id, separator, spacing,
            },
            other => other,
        }
    }

    /// Sets the weight of a text block. Any other element stays as it is. The
    /// call returns a copy of the element.
    pub fn set_weight(&mut self, w: Weight) -> (r: CardElement)
        ensures
            *final(self) == old(self).with_weight(Some(w)),
            same_element(*final(self), r),
    {
        match self {
            CardElement::TextBlock { weight, .. } => {
                *weight = Some(w);
            },
            _ => {},
        }
        copy_element(self)
    }

    /// A text block with `new` as its font; any other element as it is.
    pub open spec fn with_font(self, new: Option<FontType>) -> CardElement {
        match self {
            CardElement::TextBlock {
                text, wrap, color, horizontal_alignment, is_subtle, max_lines, font_type: _,
                size, weight, height, id, separator, spacing,
            } => CardElement::TextBlock {
                text, wrap, color, horizontal_alignment, is_subtle, max_lines, font_type: new,
                size, weight, height, id, separator, spacing,
            },
            other => other,
        }
    }

    /// Sets the font of a text block. Any other element stays as it is. The call
    /// returns a copy of the element.
    pub fn set_font(&mut self, f: FontType) -> (r: CardElement)
        ensures
            *final(self) == old(self).with_font(Some(f)),
            same_element(*final(self), r),
    {
        match self {
            CardElement::TextBlock { font_type, .. } => {
                *font_type = Some(f);
            },
            _ => {},
        }
        copy_element(self)
    }

    /// A text block with `new` as its size; any other element as it is.
    pub open spec fn with_size(self, new: Option<Size>) -> CardElement {
        match self {
            CardElement::TextBlock {
                text, wrap, color, horizontal_alignment, is_subtle, max_lines, font_type,
                size: _, weight, height, id, separator, spacing,
            } => CardElement::TextBlock {
                text, wrap, color, horizontal_alignment, is_subtle, max_lines, font_type,
                size: new, weight, height, id, separator, spacing,
            },
            other => other,
        }
    }

    /// Sets the size of a text block. Any other element stays as it is. The call
    /// returns a copy of the element.
    pub fn set_size(&mut self, s: Size) -> (r: CardElement)
        ensures
            *final(self) == old(self).with_size(Some(s)),
            same_element(*final(self), r),
    {
        match self {
            CardElement::TextBlock { size, .. } => {
                *size = Some(s);
            },
            _ => {},
        }
        copy_element(self)
    }

    /// A text block with `new` as its color; any other element as it is.
    pub open spec fn with_color(self, new: Option<Color>) -> CardElement {
        match self {
            CardElement::TextBlock {
                text, wrap, color: _, horizontal_alignment, is_subtle, max_lines, font_type,
                size, weight, height, id, separator, spacing,
            } => CardElement::TextBlock {
                text, wrap, color: new, horizontal_alignment, is_subtle, max_lines, font_type,
                size, weight, height, id, separator, spacing,
            },
            other => other,
        }
    }

    /// Sets the color of a text block. Any other element stays as it is. The call
    /// returns a copy of the element.
    pub fn set_color(&mut self, c: Color) -> (r: CardElement)
        ensures
            *final(self) == old(self).with_color(Some(c)),
            same_element(*final(self), r),
    {
        match self {
            CardElement::TextBlock { color, .. } => {
                *color = Some(c);
            },
            _ => {},
        }
        copy_element(self)
    }

    /// A text block with `new` as its wrap flag; any other element as it is.
    pub open spec fn with_wrap(self, new: Option<bool>) -> CardElement {
        match self {
            CardElement::TextBlock {
                text, wrap: _, color, horizontal_alignment, is_subtle, max_lines, font_type,
                size, weight, height, id, separator, spacing,
            } => CardElement::TextBlock {
                text, wrap: new, color, horizontal_alignment, is_subtle, max_lines, font_type,
                size, weight, height, id, separator, spacing,
            },
            other => other,
        }
    }

    /// Sets whether a text block wraps. Any other element stays as it is. The
    /// call returns a copy of the element.
    pub fn set_wrap(&mut self, w: bool) -> (r: CardElement)
        ensures
            *final(self) == old(self).with_wrap(Some(w)),
            same_element(*final(self), r),
    {
        match self {
            CardElement::TextBlock { wrap, .. } => {
                *wrap = Some(w);
            },
            _ => {},
        }
        copy_element(self)
    }

    /// A text block with `new` as its subtle flag; any other element as it is.
    pub open spec fn with_subtle(self, new: Option<bool>) -> CardElement {
        match self {
            CardElement::TextBlock {
                text, wrap, color, horizontal_alignment, is_subtle: _, max_lines, font_type,
                size, weight, height, id, separator, spacing,
            } => CardElement::TextBlock {
                text, wrap, color, horizontal_alignment, is_subtle: new, max_lines, font_type,
                size, weight, height, id, separator, spacing,
            },
            other => other,
        }
    }

    /// Sets whether a text block is toned down. Any other element stays as it is.
    /// The call returns a copy of the element.
    pub fn set_subtle(&mut self, s: bool) -> (r: CardElement)
        ensures
            *final(self) == old(self).with_subtle(Some(s)),
            same_element(*final(self), r),
    {
        match self {
            CardElement::TextBlock { is_subtle, .. } => {
                *is_subtle = Some(s);
            },
            _ => {},
        }
        copy_element(self)
    }

    /// An image with `new` as its height; any other element as it is.
    pub open spec fn with_image_height(self, new: Option<String>) -> CardElement {
        match self {
            CardElement::Image {
                url, alt_text, background_color, width, height: _, horizontal_alignment,
                select_action, size, style, id, separator, spacing,
            } => CardElement::Image {
                url, alt_text, background_color, width, height: new, horizontal_alignment,
                select_action, size, style, id, separator, spacing,
            },
            other => other,
        }
    }

    /// Sets the height of an image. Any other element stays as it is. The call
    /// returns a copy of the element.
    pub fn set_height(&mut self, h: String) -> (r: CardElement)
        ensures
            *final(self) == old(self).with_image_height(Some(h)),
            same_element(*final(self), r),
    {
        match self {
            CardElement::Image { height, .. } => {
                *height = Some(h);
            },
            _ => {},
        }
        copy_element(self)
    }

    /// An image with `new` as its width; any other element as it is.
    pub open spec fn with_image_width(self, new: Option<String>) -> CardElement {
        match self {
            CardElement::Image {
                url, alt_text, background_color, width: _, height, horizontal_alignment,
                select_action, size, style, id, separator, spacing,
            } => CardElement::Image {
                url, alt_text, background_color, width: new, height, horizontal_alignment,
                select_action, size, style, id, separator, spacing,
            },
            other => other,
        }
    }

    /// Sets the width of an image. Any other element stays as it is. The call
    /// returns a copy of the element.
    pub fn set_width(&mut self, w: String) -> (r: CardElement)
        ensures
            *final(self) == old(self).with_image_width(Some(w)),
            same_element(*final(self), r),
    {
        match self {
            CardElement::Image { width, .. } => {
                *width = Some(w);
            },
            _ => {},
        }
        copy_element(self)
    }

    /// A column set with `new` as its columns; any other element as it is.
    pub open spec fn with_columns(self, new: Vec<Column>) -> CardElement {
        match self {
            CardElement::ColumnSet {
                columns: _, select_action, id, separator, spacing,
            } => CardElement::ColumnSet {
                columns: new, select_action, id, separator, spacing,
            },
            other => other,
        }
    }

    /// Adds a column to a column set. Any other element stays as it is. The call
    /// returns a copy of the element.
    pub fn add_column(&mut self, column: Column) -> (r: CardElement)
        ensures
            !(*old(self) is ColumnSet) ==> *final(self) == *old(self),
            *old(self) is ColumnSet ==> ({
                &&& *final(self) is ColumnSet
                &&& (*final(self))->columns@ == (*old(self))->columns@.push(column)
                &&& *final(self) == old(self).with_columns((*final(self))->columns)
            }),
            same_element(*final(self), r),
    {
        match self {
            CardElement::ColumnSet { columns, .. } => {
                columns.push(column);
            },
            _ => {},
        }
        copy_element(self)
    }

    /// A text block, fact set, column set, image, choice set, text input or
    /// toggle with `value` as its separator; any other element as it is.
    pub open spec fn with_separator(self, new: Option<bool>) -> CardElement {
        match self {
            CardElement::TextBlock {
                text, wrap, color, horizontal_alignment, is_subtle, max_lines, font_type, size,
                weight, height, id, separator: _, spacing,
            } => CardElement::TextBlock {
                text, wrap, color, horizontal_alignment, is_subtle, max_lines, font_type, size,
                weight, height, id, separator: new, spacing,
            },
            CardElement::FactSet {
                facts, height, id, separator: _, spacing,
            } => CardElement::FactSet {
                facts, height, id, separator: new, spacing,
            },
            CardElement::ColumnSet {
                columns, select_action, id, separator: _, spacing,
            } => CardElement::ColumnSet {
                columns, select_action, id, separator: new, spacing,
            },
            CardElement::Image {
                url, alt_text, background_color, width, height, horizontal_alignment,
                select_action, size, style, id, separator: _, spacing,
            } => CardElement::Image {
                url, alt_text, background_color, width, height, horizontal_alignment,
                select_action, size, style, id, separator: new, spacing,
            },
            CardElement::InputChoiceSet {
                choices, id, is_multi_select, style, value, height, separator: _, spacing,
            } => CardElement::InputChoiceSet {
                choices, id, is_multi_select, style, value, height, separator: new, spacing,
            },
            CardElement::InputText {
                id, placeholder, is_multiline, max_length, style, inline_action, value, height,
                separator: _, spacing,
            } => CardElement::InputText {
                id, placeholder, is_multiline, max_length, style, inline_action, value, height,
                separator: new, spacing,
            },
            CardElement::InputToggle {
                id, value, value_off, value_on, height, separator: _, spacing, title,
            } => CardElement::InputToggle {
                id, value, value_off, value_on, height, separator: new, spacing, title,
            },
            other => other,
        }
    }

    /// Sets whether a line separates the element from the one before. A text
    /// block, fact set, column set, image, choice set, text input or toggle takes
    /// the setting; any other element stays as it is. The call returns a copy of
    /// the element.
    pub fn set_separator(&mut self, s: bool) -> (r: CardElement)
        ensures
            *final(self) == old(self).with_separator(Some(s)),
            same_element(*final(self), r),
    {
        match self {
            CardElement::TextBlock { separator, .. } => {
                *separator = Some(s);
            },
            CardElement::FactSet { separator, .. } => {
                *separator = Some(s);
            },
            CardElement::ColumnSet { separator, .. } => {
                *separator = Some(s);
            },
            CardElement::Image { separator, .. } => {
                *separator = Some(s);
            },
            CardElement::InputChoiceSet { separator, .. } => {
                *separator = Some(s);
            },
            CardElement::InputText { separator, .. } => {
                *separator = Some(s);
            },
            CardElement::InputToggle { separator, .. } => {
                *separator = Some(s);
            },
            _ => {},
        }
        copy_element(self)
    }

    /// A text, number or date input with `new` as its placeholder; any other
    /// element as it is.
    pub open spec fn with_placeholder(self, new: Option<String>) -> CardElement {
        match self {
            CardElement::InputText {
                id, placeholder: _, is_multiline, max_length, style, inline_action, value,
                height, separator, spacing,
            } => CardElement::InputText {
                id, placeholder: new, is_multiline, max_length, style, inline_action, value,
                height, separator, spacing,
            },
            CardElement::InputNumber {
                id, placeholder: _, max, min, value, height, separator, spacing,
            } => CardElement::InputNumber {
                id, placeholder: new, max, min, value, height, separator, spacing,
            },
            CardElement::InputDate {
                id, placeholder: _, max, min, value, height, separator, spacing,
            } => CardElement::InputDate {
                id, placeholder: new, max, min, value, height, separator, spacing,
            },
            other => other,
        }
    }

    /// Sets the placeholder of a text, number or date input. Any other element
    /// stays as it is. The call returns a copy of the element.
    pub fn set_placeholder(&mut self, s: Option<String>) -> (r: CardElement)
        ensures
            *final(self) == old(self).with_placeholder(s),
            same_element(*final(self), r),
    {
        match self {
            CardElement::InputText { placeholder, .. } => {
                *placeholder = s;
            },
            CardElement::InputNumber { placeholder, .. } => {
                *placeholder = s;
            },
            CardElement::InputDate { placeholder, .. } => {
                *placeholder = s;
            },
            _ => {},
        }
        copy_element(self)
    }

    /// A text block, fact set, column set, image, choice set or text input with
    /// `new` as its spacing; any other element as it is.
    pub open spec fn with_spacing(self, new: Option<Spacing>) -> CardElement {
        match self {
            CardElement::TextBlock {
                text, wrap, color, horizontal_alignment, is_subtle, max_lines, font_type, size,
                weight, height, id, separator, spacing: _,
            } => CardElement::TextBlock {
                text, wrap, color, horizontal_alignment, is_subtle, max_lines, font_type, size,
                weight, height, id, separator, spacing: new,
            },
            CardElement::FactSet {
                facts, height, id, separator, spacing: _,
            } => CardElement::FactSet {
                facts, height, id, separator, spacing: new,
            },
            CardElement::ColumnSet {
                columns, select_action, id, separator, spacing: _,
            } => CardElement::ColumnSet {
                columns, select_action, id, separator, spacing: new,
            },
            CardElement::Image {
                url, alt_text, background_color, width, height, horizontal_alignment,
                select_action, size, style, id, separator, spacing: _,
            } => CardElement::Image {
                url, alt_text, background_color, width, height, horizontal_alignment,
                select_action, size, style, id, separator, spacing: new,
            },
            CardElement::InputChoiceSet {
                choices, id, is_multi_select, style, value, height, separator, spacing: _,
            } => CardElement::InputChoiceSet {
                choices, id, is_multi_select, style, value, height, separator, spacing: new,
            },
            CardElement::InputText {
                id, placeholder, is_multiline, max_length, style, inline_action, value, height,
                separator, spacing: _,
            } => CardElement::InputText {
                id, placeholder, is_multiline, max_length, style, inline_action, value, height,
                separator, spacing: new,
            },
            other => other,
        }
    }

    /// Sets the spacing to the element before. A text block, fact set, column
    /// set, image, choice set or text input takes the setting; any other element
    /// stays as it is. The call returns a copy of the element.
    pub fn set_spacing(&mut self, s: Spacing) -> (r: CardElement)
        ensures
            *final(self) == old(self).with_spacing(Some(s)),
            same_element(*final(self), r),
    {
        match self {
            CardElement::TextBlock { spacing, .. } => {
                *spacing = Some(s);
            },
            CardElement::FactSet { spacing, .. } => {
                *spacing = Some(s);
            },
            CardElement::ColumnSet { spacing, .. } => {
                *spacing = Some(s);
            },
            CardElement::Image { spacing, .. } => {
                *spacing = Some(s);
            },
            CardElement::InputChoiceSet { spacing, .. } => {
                *spacing = Some(s);
            },
            CardElement::InputText { spacing, .. } => {
                *spacing = Some(s);
            },
            _ => {},
        }
        copy_element(self)
    }

    /// An action set with `new` as its actions; any other element as it is.
    pub open spec fn with_actions(self, new: Vec<Action>) -> CardElement {
        match self {
            CardElement::ActionSet {
                actions: _, height,
            } => CardElement::ActionSet {
                actions: new, height,
            },
            other => other,
        }
    }

    /// Adds an action to an action set. Any other element stays as it is. The
    /// call returns a copy of the element.
    pub fn add_action_to_set(&mut self, action: Action) -> (r: CardElement)
        ensures
            !(*old(self) is ActionSet) ==> *final(self) == *old(self),
            *old(self) is ActionSet ==> ({
                &&& *final(self) is ActionSet
                &&& (*final(self))->actions@ == (*old(self))->actions@.push(action)
                &&& *final(self) == old(self).with_actions((*final(self))->actions)
            }),
            same_element(*final(self), r),
    {
        match self {
            CardElement::ActionSet { actions, .. } => {
                actions.push(action);
            },
            _ => {},
        }
        copy_element(self)
    }

    /// A fact set with `new` as its facts; any other element as it is.
    pub open spec fn with_facts(self, new: Vec<Fact>) -> CardElement {
        match self {
            CardElement::FactSet {
                facts: _, height, id, separator, spacing,
            } => CardElement::FactSet {
                facts: new, height, id, separator, spacing,
            },
            other => other,
        }
    }

    /// A choice set with `new` as its choices; any other element as it is.
    pub open spec fn with_choices(self, new: Vec<Choice>) -> CardElement {
        match self {
            CardElement::InputChoiceSet {
                choices: _, id, is_multi_select, style, value, height, separator, spacing,
            } => CardElement::InputChoiceSet {
                choices: new, id, is_multi_select, style, value, height, separator, spacing,
            },
            other => other,
        }
    }
}

} // verus!
