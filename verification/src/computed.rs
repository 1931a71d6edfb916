//! Computed values: specified values with the units that depend on the
//! element resolved to absolute lengths.

use crate::geometry::Au;
use crate::number::CSSFloat;
use crate::specified;
use crate::specified::length_or_percentage::{percentage_text, write_percentage};
use crate::specified::AngleOrCorner;
use crate::tokens::{css_string_text, write_string, Color, RGBA};
use vstd::prelude::*;
use vstd::string::StringExecFns;

pub use crate::geometry::Au as Length;
pub use crate::specified::BorderStyle;
pub use crate::tokens::Color as CSSColor;

verus! {

/// What the computation of an element's values takes from the element and
/// from its ancestors.
pub struct Context {
    /// The font size of the parent element.
    pub inherited_font_size: Au,
    /// The height of the parent element.
    pub inherited_height: LengthOrPercentageOrAuto,
    /// The color of the element.
    pub color: RGBA,
    /// The font size of the element.
    pub font_size: Au,
    /// The font size of the root element.
    pub root_font_size: Au,
    /// Whether the element is positioned.
    pub positioned: bool,
    /// Whether the element floats.
    pub floated: bool,
    /// Whether the element has a border at its top.
    pub border_top_present: bool,
    /// Whether the element has a border at its right.
    pub border_right_present: bool,
    /// Whether the element has a border at its bottom.
    pub border_bottom_present: bool,
    /// Whether the element has a border at its left.
    pub border_left_present: bool,
    /// Whether the element is the root element.
    pub is_root_element: bool,
}

/// A computed length or percentage.
#[derive(Clone, Copy, Debug, PartialEq, Eq, Structural)]
pub enum LengthOrPercentage {
    /// A length.
    Length(Au),
    /// A percentage, as a fraction: 0.5 for `50%`.
    Percentage(CSSFloat),
}

/// A computed length or percentage, or `auto`.
#[derive(Clone, Copy, Debug, PartialEq, Eq, Structural)]
pub enum LengthOrPercentageOrAuto {
    /// A length.
    Length(Au),
    /// A percentage, as a fraction: 0.5 for `50%`.
    Percentage(CSSFloat),
    /// The keyword `auto`.
    Auto,
}

/// A computed length or percentage, or `none`.
#[allow(non_camel_case_types)]
#[derive(Clone, Copy, Debug, PartialEq, Eq, Structural)]
pub enum LengthOrPercentageOrNone {
    /// A length.
    Length(Au),
    /// A percentage, as a fraction: 0.5 for `50%`.
    Percentage(CSSFloat),
    /// The keyword `none`.
    none,
}

/// One color stop of a computed linear gradient.
#[derive(Clone, Copy, Debug, PartialEq, Eq, Structural)]
pub struct ColorStop {
    /// The color of this stop.
    pub color: Color,
    /// The position of this stop. A stop without one lies halfway between
    /// the stop before it and the stop after it.
    pub position: Option<LengthOrPercentage>,
}

/// A computed linear gradient.
#[derive(Clone, Debug, PartialEq, Eq)]
pub struct LinearGradient {
    /// The angle or corner of the gradient.
    pub angle_or_corner: AngleOrCorner,
    /// The color stops.
    pub stops: Vec<ColorStop>,
}

/// A computed image.
#[derive(Clone, Debug, PartialEq, Eq)]
pub enum Image {
    /// The image at an absolute URL.
    Url(String),
    /// A linear gradient.
    LinearGradient(LinearGradient),
}

/// What a computed [`LinearGradient`] holds.
pub struct LinearGradientView {
    /// The angle or corner of the gradient.
    pub angle_or_corner: AngleOrCorner,
    /// The color stops.
    pub stops: Seq<ColorStop>,
}

/// What a computed [`Image`] holds.
pub enum ImageView {
    /// The image at an absolute URL.
    Url(Seq<char>),
    /// A linear gradient.
    LinearGradient(LinearGradientView),
}

impl View for LinearGradient {
    type V = LinearGradientView;

    open spec fn view(&self) -> LinearGradientView {
        LinearGradientView { angle_or_corner: self.angle_or_corner, stops: self.stops@ }
    }
}

impl View for Image {
    type V = ImageView;

    open spec fn view(&self) -> ImageView {
        match self {
            Image::Url(url) => ImageView::Url(url@),
            Image::LinearGradient(gradient) => ImageView::LinearGradient(gradient@),
        }
    }
}

/// The computed value of a color: the value itself, whatever it was written
/// as.
#[allow(non_snake_case)]
pub fn compute_CSSColor(value: specified::CSSColor, _context: &Context) -> (r: CSSColor)
    ensures
        r == value.parsed,
{
    value.parsed
}

/// The computed value of a border style: the style itself.
#[allow(non_snake_case)]
pub fn compute_BorderStyle(value: BorderStyle, _context: &Context) -> (r: BorderStyle)
    ensures
        r == value,
{
    value
}

/// The absolute length that the specified length `value` comes to, for an
/// element whose font size is `reference_font_size`, in a document whose root
/// element has the font size `root_font_size`.
///
/// An absolute length is itself. An `em` multiple scales the element's font
/// size, a `rem` multiple that of the root. An `ex` multiple scales half the
/// element's font size, which stands for the height of the letter x. A
/// width of `n` characters is `n - 1` times the average advance of a
/// character, taken as half the font size, plus the greatest advance, taken
/// as the font size. Each product is rounded toward zero, and each sum and
/// product is saturated.
pub open spec fn spec_compute_au(
    value: specified::Length,
    reference_font_size: Au,
    root_font_size: Au,
) -> Au {
    match value {
        specified::Length::Au(length) => length,
        specified::Length::Em(multiple) => reference_font_size.spec_scale_by(multiple),
        specified::Length::Ex(multiple) => reference_font_size.spec_scale_by_part(multiple, 2),
        specified::Length::Rem(multiple) => root_font_size.spec_scale_by(multiple),
        specified::Length::ServoCharacterWidth(count) => {
            let average_advance = reference_font_size.spec_scale_by(CSSFloat { nanos: 500_000_000 });
            let max_advance = reference_font_size;
            average_advance.spec_scale_by(
                CSSFloat { nanos: ((count - 1) * 1_000_000_000) as i64 },
            ).spec_plus(max_advance)
        },
    }
}

/// Computes a length for the element that `context` describes.
#[allow(non_snake_case)]
pub fn compute_Au(value: specified::Length, context: &Context) -> (r: Au)
    ensures
        r == spec_compute_au(value, context.font_size, context.root_font_size),
{
    compute_Au_with_font_size(value, context.font_size, context.root_font_size)
}

/// Computes a length from the two font sizes alone, as the computation of
/// the font size itself needs it.
#[allow(non_snake_case)]
pub fn compute_Au_with_font_size(
    value: specified::Length,
    reference_font_size: Au,
    root_font_size: Au,
) -> (r: Au)
    ensures
        r == spec_compute_au(value, reference_font_size, root_font_size),
{
    match value {
        specified::Length::Au(length) => length,
        specified::Length::Em(multiple) => reference_font_size.scale_by(multiple),
        specified::Length::Ex(multiple) => reference_font_size.scale_by_part(multiple, 2),
        specified::Length::Rem(multiple) => root_font_size.scale_by(multiple),
        specified::Length::ServoCharacterWidth(count) => {
            let average_advance = reference_font_size.scale_by(CSSFloat { nanos: 500_000_000 });
            let max_advance = reference_font_size;
            average_advance.scale_by(
                CSSFloat { nanos: ((count as i64) - 1) * 1_000_000_000 },
            ).plus(max_advance)
        },
    }
}

/// Computes a length for the element that `context` describes.
#[allow(non_snake_case)]
pub fn compute_Length(value: specified::Length, context: &Context) -> (r: Au)
    ensures
        r == spec_compute_au(value, context.font_size, context.root_font_size),
{
    compute_Au(value, context)
}

/// The computed value of a length or percentage: the length computed, the
/// percentage as it is.
pub open spec fn spec_compute_length_or_percentage(
    value: specified::LengthOrPercentage,
    context: Context,
) -> LengthOrPercentage {
    match value {
        specified::LengthOrPercentage::Length(length) => LengthOrPercentage::Length(
            spec_compute_au(length, context.font_size, context.root_font_size),
        ),
        specified::LengthOrPercentage::Percentage(fraction) => LengthOrPercentage::Percentage(
            fraction,
        ),
    }
}

/// Computes a length or percentage.
#[allow(non_snake_case)]
pub fn compute_LengthOrPercentage(value: specified::LengthOrPercentage, context: &Context) -> (r:
    LengthOrPercentage)
    ensures
        r == spec_compute_length_or_percentage(value, *context),
{
    match value {
        specified::LengthOrPercentage::Length(length) => LengthOrPercentage::Length(
            compute_Au(length, context),
        ),
        specified::LengthOrPercentage::Percentage(fraction) => LengthOrPercentage::Percentage(
            fraction,
        ),
    }
}

/// The computed value of a length, percentage or `auto`: the length
/// computed, the percentage and the keyword as they are.
pub open spec fn spec_compute_length_or_percentage_or_auto(
    value: specified::LengthOrPercentageOrAuto,
    context: Context,
) -> LengthOrPercentageOrAuto {
    match value {
        specified::LengthOrPercentageOrAuto::Length(length) => LengthOrPercentageOrAuto::Length(
            spec_compute_au(length, context.font_size, context.root_font_size),
        ),
        specified::LengthOrPercentageOrAuto::Percentage(fraction) =>
            LengthOrPercentageOrAuto::Percentage(fraction),
        specified::LengthOrPercentageOrAuto::Auto => LengthOrPercentageOrAuto::Auto,
    }
}

/// Computes a length, percentage or `auto`.
#[allow(non_snake_case)]
pub fn compute_LengthOrPercentageOrAuto(
    value: specified::LengthOrPercentageOrAuto,
    context: &Context,
) -> (r: LengthOrPercentageOrAuto)
    ensures
        r == spec_compute_length_or_percentage_or_auto(value, *context),
{
    match value {
        specified::LengthOrPercentageOrAuto::Length(length) => LengthOrPercentageOrAuto::Length(
            compute_Au(length, context),
        ),
        specified::LengthOrPercentageOrAuto::Percentage(fraction) =>
            LengthOrPercentageOrAuto::Percentage(fraction),
        specified::LengthOrPercentageOrAuto::Auto => LengthOrPercentageOrAuto::Auto,
    }
}

/// The computed value of a length, percentage or `none`: the length
/// computed, the percentage and the keyword as they are.
pub open spec fn spec_compute_length_or_percentage_or_none(
    value: specified::LengthOrPercentageOrNone,
    context: Context,
) -> LengthOrPercentageOrNone {
    match value {
        specified::LengthOrPercentageOrNone::Length(length) => LengthOrPercentageOrNone::Length(
            spec_compute_au(length, context.font_size, context.root_font_size),
        ),
        specified::LengthOrPercentageOrNone::Percentage(fraction) =>
            LengthOrPercentageOrNone::Percentage(fraction),
        specified::LengthOrPercentageOrNone::none => LengthOrPercentageOrNone::none,
    }
}

/// Computes a length, percentage or `none`.
#[allow(non_snake_case)]
pub fn compute_LengthOrPercentageOrNone(
    value: specified::LengthOrPercentageOrNone,
    context: &Context,
) -> (r: LengthOrPercentageOrNone)
    ensures
        r == spec_compute_length_or_percentage_or_none(value, *context),
{
    match value {
        specified::LengthOrPercentageOrNone::Length(length) => LengthOrPercentageOrNone::Length(
            compute_Au(length, context),
        ),
        specified::LengthOrPercentageOrNone::Percentage(fraction) =>
            LengthOrPercentageOrNone::Percentage(fraction),
        specified::LengthOrPercentageOrNone::none => LengthOrPercentageOrNone::none,
    }
}

/// The computed value of a color stop: the value of its color, and its
/// position computed.
pub open spec fn spec_compute_stop(stop: specified::ColorStop, context: Context) -> ColorStop {
    ColorStop {
        color: stop.color.parsed,
        position: match stop.position {
            None => None,
            Some(position) => Some(spec_compute_length_or_percentage(position, context)),
        },
    }
}

impl LinearGradient {
    /// The computed value of a gradient: its direction as it is, and each of
    /// its stops computed, in their order.
    pub open spec fn spec_compute(
        value: specified::LinearGradientView,
        context: Context,
    ) -> LinearGradientView {
        LinearGradientView {
            angle_or_corner: value.angle_or_corner,
            stops: Seq::new(value.stops.len(), |i: int| spec_compute_stop(value.stops[i], context)),
        }
    }

    /// Computes a linear gradient.
    pub fn compute(value: specified::LinearGradient, context: &Context) -> (r: LinearGradient)
        ensures
            r@ == LinearGradient::spec_compute(value@, *context),
            r@.stops.len() == value@.stops.len(),
    {
        let mut stops: Vec<ColorStop> = Vec::new();
        let mut i: usize = 0;
        while i < value.stops.len()
            invariant
                i <= value.stops.len(),
                stops@.len() == i,
                forall|k: int|
                    0 <= k < i ==> stops@[k] == spec_compute_stop(
                        #[trigger] value.stops@[k],
                        *context,
                    ),
            decreases value.stops.len() - i,
        {
            let stop = &value.stops[i];
            let position = match stop.position {
                None => None,
                Some(position) => Some(compute_LengthOrPercentage(position, context)),
            };
            stops.push(ColorStop { color: stop.color.parsed, position });
            i = i + 1;
        }
        let computed = LinearGradient { angle_or_corner: value.angle_or_corner, stops };
        proof {
            assert(computed@.stops =~= LinearGradient::spec_compute(value@, *context).stops);
        }
        computed
    }
}

/// The computed value of an image: a URL as it is, a gradient computed.
pub open spec fn spec_compute_image(value: specified::ImageView, context: Context) -> ImageView {
    match value {
        specified::ImageView::Url(url) => ImageView::Url(url),
        specified::ImageView::LinearGradient(gradient) => ImageView::LinearGradient(
            LinearGradient::spec_compute(gradient, context),
        ),
    }
}

impl specified::Image {
    /// Computes an image.
    pub fn to_computed_value(self, context: &Context) -> (r: Image)
        ensures
            r@ == spec_compute_image(self@, *context),
    {
        match self {
            specified::Image::Url(url) => Image::Url(url),
            specified::Image::LinearGradient(gradient) => Image::LinearGradient(
                LinearGradient::compute(gradient, context),
            ),
        }
    }
}

/// The CSS text of an absolute length: its pixels and the unit `px`.
pub open spec fn length_text(length: Au) -> Seq<char> {
    specified::Length::Au(length).css_text()
}

impl LengthOrPercentage {
    /// The CSS text of the value.
    pub open spec fn css_text(self) -> Seq<char> {
        match self {
            LengthOrPercentage::Length(length) => length_text(length),
            LengthOrPercentage::Percentage(fraction) => percentage_text(fraction),
        }
    }

    /// Appends the CSS text of the value to `dest`.
    pub fn to_css(&self, dest: &mut String)
        ensures
            final(dest)@ == old(dest)@ + self.css_text(),
    {
        match self {
            LengthOrPercentage::Length(length) => specified::Length::Au(*length).to_css(dest),
            LengthOrPercentage::Percentage(fraction) => write_percentage(*fraction, dest),
        }
    }
}

impl LengthOrPercentageOrAuto {
    /// The CSS text of the value.
    pub open spec fn css_text(self) -> Seq<char> {
        match self {
            LengthOrPercentageOrAuto::Length(length) => length_text(length),
            LengthOrPercentageOrAuto::Percentage(fraction) => percentage_text(fraction),
            LengthOrPercentageOrAuto::Auto => "auto"@,
        }
    }

    /// Appends the CSS text of the value to `dest`.
    pub fn to_css(&self, dest: &mut String)
        ensures
            final(dest)@ == old(dest)@ + self.css_text(),
    {
        match self {
            LengthOrPercentageOrAuto::Length(length) => specified::Length::Au(*length).to_css(dest),
            LengthOrPercentageOrAuto::Percentage(fraction) => write_percentage(*fraction, dest),
            LengthOrPercentageOrAuto::Auto => dest.append("auto"),
        }
    }
}

impl LengthOrPercentageOrNone {
    /// The CSS text of the value.
    pub open spec fn css_text(self) -> Seq<char> {
        match self {
            LengthOrPercentageOrNone::Length(length) => length_text(length),
            LengthOrPercentageOrNone::Percentage(fraction) => percentage_text(fraction),
            LengthOrPercentageOrNone::none => "none"@,
        }
    }

    /// Appends the CSS text of the value to `dest`.
    pub fn to_css(&self, dest: &mut String)
        ensures
            final(dest)@ == old(dest)@ + self.css_text(),
    {
        match self {
            LengthOrPercentageOrNone::Length(length) => specified::Length::Au(*length).to_css(dest),
            LengthOrPercentageOrNone::Percentage(fraction) => write_percentage(*fraction, dest),
            LengthOrPercentageOrNone::none => dest.append("none"),
        }
    }
}

impl ColorStop {
    /// The CSS text of the stop: its color and, after a space, its position
    /// if it has one.
    pub open spec fn css_text(self) -> Seq<char> {
        match self.position {
            Some(position) => self.color.css_text() + " "@ + position.css_text(),
            None => self.color.css_text(),
        }
    }

    /// Appends the CSS text of the stop to `dest`.
    pub fn to_css(&self, dest: &mut String)
        ensures
            final(dest)@ == old(dest)@ + self.css_text(),
    {
        self.color.to_css(dest);
        if let Some(position) = self.position {
            dest.append(" ");
            position.to_css(dest);
            proof {
                assert(final(dest)@ =~= old(dest)@ + self.css_text());
            }
        }
    }
}

/// The CSS text of the color stops of a computed gradient: a comma, a space
/// and the stop, for each stop.
pub open spec fn stops_text(stops: Seq<ColorStop>) -> Seq<char>
    decreases stops.len(),
{
    if stops.len() == 0 {
        Seq::<char>::empty()
    } else {
        stops_text(stops.drop_last()) + ", "@ + stops.last().css_text()
    }
}

impl LinearGradientView {
    /// The text of what stands between the parentheses of the gradient: its
    /// direction and its stops.
    pub open spec fn css_text(self) -> Seq<char> {
        self.angle_or_corner.css_text() + stops_text(self.stops)
    }
}

impl LinearGradient {
    /// Appends the direction and the stops of the gradient to `dest`.
    pub fn to_css(&self, dest: &mut String)
        ensures
            final(dest)@ == old(dest)@ + self@.css_text(),
    {
        self.angle_or_corner.to_css(dest);
        let ghost head = dest@;
        let mut i: usize = 0;
        while i < self.stops.len()
            invariant
                i <= self.stops.len(),
                dest@ == head + stops_text(self.stops@.take(i as int)),
            decreases self.stops.len() - i,
        {
            dest.append(", ");
            self.stops[i].to_css(dest);
            proof {
                let taken = self.stops@.take(i + 1);
                assert(taken.drop_last() =~= self.stops@.take(i as int));
                assert(taken.last() == self.stops@[i as int]);
                assert(dest@ =~= head + stops_text(taken));
            }
            i = i + 1;
        }
        proof {
            assert(self.stops@.take(i as int) =~= self.stops@);
            assert(final(dest)@ =~= old(dest)@ + self@.css_text());
        }
    }
}

impl ImageView {
    /// The CSS text of the image: `url(` and `)` around the URL written as a
    /// string, or `linear-gradient(` and `)` around the gradient.
    pub open spec fn css_text(self) -> Seq<char> {
        match self {
            ImageView::Url(url) => "url("@ + css_string_text(url) + ")"@,
            ImageView::LinearGradient(gradient) => "linear-gradient("@ + gradient.css_text() + ")"@,
        }
    }
}

impl Image {
    /// Appends the CSS text of the image to `dest`.
    pub fn to_css(&self, dest: &mut String)
        ensures
            final(dest)@ == old(dest)@ + self@.css_text(),
    {
        match self {
            Image::Url(url) => {
                dest.append("url(");
                write_string(url.as_str(), dest);
                dest.append(")");
            },
            Image::LinearGradient(gradient) => {
                dest.append("linear-gradient(");
                gradient.to_css(dest);
                dest.append(")");
            },
        }
        proof {
            assert(final(dest)@ =~= old(dest)@ + self@.css_text());
        }
    }
}

/// The width of one character is the font size.
pub proof fn lemma_character_width_of_one(reference_font_size: Au, root_font_size: Au)
    ensures
        spec_compute_au(
            specified::Length::ServoCharacterWidth(1),
            reference_font_size,
            root_font_size,
        ) == reference_font_size,
{
    let average = reference_font_size.spec_scale_by(CSSFloat { nanos: 500_000_000 });
    assert(average.0 * 0 == 0);
}

/// The width of three characters is twice the font size, where the font
/// size is an even number of units and its double can be written.
pub proof fn lemma_character_width_of_three(reference_font_size: Au, root_font_size: Au)
    requires
        reference_font_size.0 % 2 == 0,
        i32::MIN <= 2 * reference_font_size.0 <= i32::MAX,
    ensures
        spec_compute_au(
            specified::Length::ServoCharacterWidth(3),
            reference_font_size,
            root_font_size,
        ) == Au((2 * reference_font_size.0) as i32),
{
    let size = reference_font_size.0 as int;
    let average = reference_font_size.spec_scale_by(CSSFloat { nanos: 500_000_000 });
    assert(size * 500_000_000 == (size / 2) * 1_000_000_000);
    assert(average.0 == size / 2) by {
        if size >= 0 {
            vstd::arithmetic::div_mod::lemma_div_multiples_vanish(size / 2, 1_000_000_000);
        } else {
            assert(-(size * 500_000_000) == (-size / 2) * 1_000_000_000);
            vstd::arithmetic::div_mod::lemma_div_multiples_vanish(-size / 2, 1_000_000_000);
        }
    }
    assert(average.0 * 2_000_000_000 == size * 1_000_000_000);
    if size >= 0 {
        vstd::arithmetic::div_mod::lemma_div_multiples_vanish(size, 1_000_000_000);
    } else {
        assert(-(size * 1_000_000_000) == (-size) * 1_000_000_000);
        vstd::arithmetic::div_mod::lemma_div_multiples_vanish(-size, 1_000_000_000);
    }
}

} // verus!
