//! Images: URLs and linear gradients.

use crate::keywords::eq_ignoring_case;
use crate::parser::ParserContext;
use crate::specified::angle::{lemma_angle_round_trip, Angle, ANGLE_UNITS};
use crate::specified::color::CSSColor;
use crate::specified::direction::{
    lemma_horizontal_round_trip, lemma_vertical_round_trip, HorizontalDirection, VerticalDirection,
};
use crate::specified::length_or_percentage::{
    lemma_length_or_percentage_round_trip, LengthOrPercentage,
};
use crate::tokens::{
    css_string_text, lemma_next_advances, lemma_next_color_advances, write_string, Parser, Token,
};
use vstd::prelude::*;
use vstd::string::StringExecFns;

verus! {

/// The line along which a linear gradient runs: at an angle, or to a corner.
///
/// A corner is kept as it is: which angle it makes depends on the size of
/// the box that the gradient fills.
#[derive(Clone, Copy, Debug, PartialEq, Eq, Structural)]
pub enum AngleOrCorner {
    /// An angle, clockwise from the upward direction.
    Angle(Angle),
    /// A corner.
    Corner(HorizontalDirection, VerticalDirection),
}

/// One color stop of a linear gradient.
#[derive(Clone, Debug, PartialEq, Eq)]
pub struct ColorStop {
    /// The color of this stop.
    pub color: CSSColor,
    /// The position of this stop. A stop without one lies halfway between
    /// the stop before it and the stop after it.
    pub position: Option<LengthOrPercentage>,
}

/// A linear gradient.
#[derive(Clone, Debug, PartialEq, Eq)]
pub struct LinearGradient {
    /// The angle or corner of the gradient.
    pub angle_or_corner: AngleOrCorner,
    /// The color stops, two at least.
    pub stops: Vec<ColorStop>,
}

/// An image.
#[derive(Clone, Debug, PartialEq, Eq)]
pub enum Image {
    /// The image at an absolute URL.
    Url(String),
    /// A linear gradient.
    LinearGradient(LinearGradient),
}

/// An image, or `none`.
#[derive(Clone, Debug, PartialEq, Eq)]
pub struct CSSImage(pub Option<Image>);

/// What a [`LinearGradient`] holds.
pub struct LinearGradientView {
    /// The angle or corner of the gradient.
    pub angle_or_corner: AngleOrCorner,
    /// The color stops.
    pub stops: Seq<ColorStop>,
}

/// What an [`Image`] holds.
pub enum ImageView {
    /// The image at an absolute URL.
    Url(Seq<char>),
    /// A linear gradient.
    LinearGradient(LinearGradientView),
}

impl View for LinearGradient {
    type V = LinearGradientView;

    open spec fn view(&self) -> LinearGradientView {
        LinearGradientView { angle_or_corner: self.angle_or_corner, stops: self.stops@ }
    }
}

impl View for Image {
    type V = ImageView;

    open spec fn view(&self) -> ImageView {
        match self {
            Image::Url(url) => ImageView::Url(url@),
            Image::LinearGradient(gradient) => ImageView::LinearGradient(gradient@),
        }
    }
}

impl View for CSSImage {
    type V = Option<ImageView>;

    open spec fn view(&self) -> Option<ImageView> {
        match self.0 {
            Some(image) => Some(image@),
            None => None,
        }
    }
}

impl AngleOrCorner {
    /// The direction that the keywords after `to` give. One keyword is a
    /// side, and the gradient runs at the angle that leads to it: none to the
    /// top, a quarter turn to the right, half a turn to the bottom, three
    /// quarters to the left. Two keywords are a corner.
    pub open spec fn spec_from_sides(
        horizontal: Option<HorizontalDirection>,
        vertical: Option<VerticalDirection>,
    ) -> AngleOrCorner
        recommends
            horizontal is Some || vertical is Some,
    {
        match (horizontal, vertical) {
            (Some(h), Some(v)) => AngleOrCorner::Corner(h, v),
            (Some(HorizontalDirection::Right), None) => AngleOrCorner::Angle(
                Angle::spec_quarter_turns(1),
            ),
            (Some(HorizontalDirection::Left), None) => AngleOrCorner::Angle(
                Angle::spec_quarter_turns(3),
            ),
            (None, Some(VerticalDirection::Top)) => AngleOrCorner::Angle(
                Angle::spec_quarter_turns(0),
            ),
            (None, _) => AngleOrCorner::Angle(Angle::spec_quarter_turns(2)),
        }
    }

    /// Makes the direction that the keywords after `to` give.
    pub fn from_sides(
        horizontal: Option<HorizontalDirection>,
        vertical: Option<VerticalDirection>,
    ) -> (r: AngleOrCorner)
        requires
            horizontal is Some || vertical is Some,
        ensures
            r == AngleOrCorner::spec_from_sides(horizontal, vertical),
    {
        match (horizontal, vertical) {
            (Some(h), Some(v)) => AngleOrCorner::Corner(h, v),
            (Some(HorizontalDirection::Right), None) => AngleOrCorner::Angle(
                Angle::quarter_turns(1),
            ),
            (Some(HorizontalDirection::Left), None) => AngleOrCorner::Angle(
                Angle::quarter_turns(3),
            ),
            (None, Some(VerticalDirection::Top)) => AngleOrCorner::Angle(Angle::quarter_turns(0)),
            (None, _) => AngleOrCorner::Angle(Angle::quarter_turns(2)),
        }
    }

    /// The keywords that stand next, after `to`: a horizontal one, a
    /// vertical one, or both in either order; and the cursor after them.
    pub open spec fn spec_parse_sides(p: Parser) -> (
        Result<(Option<HorizontalDirection>, Option<VerticalDirection>), ()>,
        Parser,
    ) {
        match HorizontalDirection::spec_parse(p) {
            (Ok(h), after_h) => match VerticalDirection::spec_parse(after_h) {
                (Ok(v), after_v) => (Ok((Some(h), Some(v))), after_v),
                (Err(_), _) => (Ok((Some(h), None)), after_h),
            },
            (Err(_), _) => match VerticalDirection::spec_parse(p) {
                (Ok(v), after_v) => match HorizontalDirection::spec_parse(after_v) {
                    (Ok(h), after_h) => (Ok((Some(h), Some(v))), after_h),
                    (Err(_), _) => (Ok((None, Some(v))), after_v),
                },
                (Err(_), rest) => (Err(()), rest),
            },
        }
    }

    fn parse_sides(input: &mut Parser) -> (r: Result<
        (Option<HorizontalDirection>, Option<VerticalDirection>),
        (),
    >)
        ensures
            (r, *final(input)) == AngleOrCorner::spec_parse_sides(*old(input)),
            r matches Ok(sides) ==> sides.0 is Some || sides.1 is Some,
    {
        let start = input.position();
        match HorizontalDirection::parse(input) {
            Ok(h) => {
                let after_h = input.position();
                match VerticalDirection::parse(input) {
                    Ok(v) => Ok((Some(h), Some(v))),
                    Err(()) => {
                        input.reset(after_h);
                        Ok((Some(h), None))
                    },
                }
            },
            Err(()) => {
                input.reset(start);
                match VerticalDirection::parse(input) {
                    Ok(v) => {
                        let after_v = input.position();
                        match HorizontalDirection::parse(input) {
                            Ok(h) => Ok((Some(h), Some(v))),
                            Err(()) => {
                                input.reset(after_v);
                                Ok((None, Some(v)))
                            },
                        }
                    },
                    Err(()) => Err(()),
                }
            },
        }
    }

    /// What reading the direction of a gradient does. If the keyword `to`
    /// stands next, the side or corner after it, and a comma. Else, if an
    /// angle stands next, that angle, and a comma. Else half a turn, the way
    /// from top to bottom, and the cursor as it is.
    pub open spec fn spec_parse(p: Parser) -> (Result<AngleOrCorner, ()>, Parser) {
        match p.spec_expect_ident_matching("to"@) {
            (Ok(_), after_to) => match AngleOrCorner::spec_parse_sides(after_to) {
                (Ok(sides), after_sides) => match after_sides.spec_expect_comma() {
                    (Ok(_), rest) => (Ok(AngleOrCorner::spec_from_sides(sides.0, sides.1)), rest),
                    (Err(_), rest) => (Err(()), rest),
                },
                (Err(_), rest) => (Err(()), rest),
            },
            (Err(_), _) => match Angle::spec_parse(p) {
                (Ok(angle), after_angle) => match after_angle.spec_expect_comma() {
                    (Ok(_), rest) => (Ok(AngleOrCorner::Angle(angle)), rest),
                    (Err(_), rest) => (Err(()), rest),
                },
                (Err(_), _) => (Ok(AngleOrCorner::Angle(Angle::spec_quarter_turns(2))), p),
            },
        }
    }

    /// Reads the direction of a gradient, with the comma that ends it.
    pub fn parse(input: &mut Parser) -> (r: Result<AngleOrCorner, ()>)
        ensures
            (r, *final(input)) == AngleOrCorner::spec_parse(*old(input)),
    {
        let start = input.position();
        match input.expect_ident_matching("to") {
            Ok(()) => match AngleOrCorner::parse_sides(input) {
                Ok(sides) => match input.expect_comma() {
                    Ok(()) => Ok(AngleOrCorner::from_sides(sides.0, sides.1)),
                    Err(()) => Err(()),
                },
                Err(()) => Err(()),
            },
            Err(()) => {
                input.reset(start);
                match Angle::parse(input) {
                    Ok(angle) => match input.expect_comma() {
                        Ok(()) => Ok(AngleOrCorner::Angle(angle)),
                        Err(()) => Err(()),
                    },
                    Err(()) => {
                        input.reset(start);
                        Ok(AngleOrCorner::Angle(Angle::quarter_turns(2)))
                    },
                }
            },
        }
    }

    /// The canonical CSS text of the direction: the angle, or `to` and the
    /// two keywords of the corner, the horizontal one first.
    pub open spec fn css_text(self) -> Seq<char> {
        match self {
            AngleOrCorner::Angle(angle) => angle.css_text(),
            AngleOrCorner::Corner(horizontal, vertical) => "to "@ + horizontal.css_text() + " "@
                + vertical.css_text(),
        }
    }

    /// Appends the canonical CSS text of the direction to `dest`.
    pub fn to_css(&self, dest: &mut String)
        ensures
            final(dest)@ == old(dest)@ + self.css_text(),
    {
        match self {
            AngleOrCorner::Angle(angle) => angle.to_css(dest),
            AngleOrCorner::Corner(horizontal, vertical) => {
                dest.append("to ");
                horizontal.to_css(dest);
                dest.append(" ");
                vertical.to_css(dest);
                proof {
                    assert(final(dest)@ =~= old(dest)@ + self.css_text());
                }
            },
        }
    }
}

/// Where the arguments of a gradient begin with neither `to` nor an angle,
/// the gradient runs from top to bottom, at half a turn, and nothing has been
/// read for its direction. After `to`, a side alone gives the angle that
/// leads to it, and two sides give their corner, not an angle.
pub proof fn lemma_gradient_direction(p: Parser)
    ensures
        p.spec_expect_ident_matching("to"@).0 is Err && Angle::spec_parse(p).0 is Err
            ==> AngleOrCorner::spec_parse(p) == (
            Ok::<AngleOrCorner, ()>(AngleOrCorner::Angle(Angle::spec_quarter_turns(2))),
            p,
        ),
        AngleOrCorner::spec_from_sides(None, Some(VerticalDirection::Top)) == AngleOrCorner::Angle(
            Angle::spec_quarter_turns(0),
        ),
        AngleOrCorner::spec_from_sides(Some(HorizontalDirection::Right), None)
            == AngleOrCorner::Angle(Angle::spec_quarter_turns(1)),
        AngleOrCorner::spec_from_sides(None, Some(VerticalDirection::Bottom))
            == AngleOrCorner::Angle(Angle::spec_quarter_turns(2)),
        AngleOrCorner::spec_from_sides(Some(HorizontalDirection::Left), None)
            == AngleOrCorner::Angle(Angle::spec_quarter_turns(3)),
        forall|h: HorizontalDirection, v: VerticalDirection|
            #[trigger] AngleOrCorner::spec_from_sides(Some(h), Some(v)) == AngleOrCorner::Corner(
                h,
                v,
            ),
{
}

impl ColorStop {
    /// What reading a color stop does: a color, and the length or percentage
    /// after it if one stands there; the cursor after what was read.
    pub open spec fn spec_parse(p: Parser) -> (Result<ColorStop, ()>, Parser) {
        match CSSColor::spec_parse(p) {
            (Ok(color), after_color) => match LengthOrPercentage::spec_parse(after_color, true) {
                (Ok(position), rest) => (Ok(ColorStop { color, position: Some(position) }), rest),
                (Err(_), _) => (Ok(ColorStop { color, position: None }), after_color),
            },
            (Err(_), rest) => (Err(()), rest),
        }
    }

    /// Whether the stop has CSS text: a position that is a character width
    /// has none.
    pub open spec fn has_css_text(self) -> bool {
        self.position matches Some(position) ==> position.has_css_text()
    }

    /// The CSS text of the stop: its color and, after a space, its position
    /// if it has one.
    pub open spec fn css_text(self) -> Seq<char>
        recommends
            self.has_css_text(),
    {
        match self.position {
            Some(position) => self.color.css_text() + " "@ + position.css_text(),
            None => self.color.css_text(),
        }
    }

    /// Appends the CSS text of the stop to `dest`.
    pub fn to_css(&self, dest: &mut String)
        requires
            self.has_css_text(),
        ensures
            final(dest)@ == old(dest)@ + self.css_text(),
    {
        self.color.to_css(dest);
        if let Some(position) = self.position {
            dest.append(" ");
            position.to_css(dest);
            proof {
                assert(final(dest)@ =~= old(dest)@ + self.css_text());
            }
        }
    }
}

/// Reads one color stop.
pub fn parse_one_color_stop(input: &mut Parser) -> (r: Result<ColorStop, ()>)
    ensures
        (r, *final(input)) == ColorStop::spec_parse(*old(input)),
        r matches Ok(stop) ==> stop.has_css_text(),
{
    match CSSColor::parse(input) {
        Ok(color) => {
            let after_color = input.position();
            match LengthOrPercentage::parse(input) {
                Ok(position) => Ok(ColorStop { color, position: Some(position) }),
                Err(()) => {
                    input.reset(after_color);
                    Ok(ColorStop { color, position: None })
                },
            }
        },
        Err(()) => Err(()),
    }
}

/// Reading a color stop moves the cursor forward within the same text.
pub proof fn lemma_color_stop_advances(p: Parser)
    ensures
        ColorStop::spec_parse(p).1.input == p.input,
        ColorStop::spec_parse(p).0 is Ok ==> ColorStop::spec_parse(p).1.remaining() < p.remaining(),
{
    lemma_next_color_advances(p);
    lemma_next_advances(p.spec_next_color().1);
}

/// What reading a list of color stops does, `stops` being those read
/// before: color stops with a comma between each two, up to a closing
/// parenthesis, which is not read, or to the end of the text. Anything else
/// after a stop is an error.
pub open spec fn spec_parse_stops(p: Parser, stops: Seq<ColorStop>) -> (
    Result<Seq<ColorStop>, ()>,
    Parser,
)
    decreases p.remaining(),
    via spec_parse_stops_decreases
{
    match ColorStop::spec_parse(p) {
        (Ok(stop), after_stop) => match after_stop.spec_next() {
            (Ok(Token::Comma), rest) => spec_parse_stops(rest, stops.push(stop)),
            (Ok(Token::CloseParenthesis), _) => (Ok(stops.push(stop)), after_stop),
            (Ok(_), rest) => (Err(()), rest),
            (Err(_), _) => (Ok(stops.push(stop)), after_stop),
        },
        (Err(_), rest) => (Err(()), rest),
    }
}

#[via_fn]
proof fn spec_parse_stops_decreases(p: Parser, stops: Seq<ColorStop>) {
    lemma_color_stop_advances(p);
    lemma_next_advances(ColorStop::spec_parse(p).1);
}

/// The CSS text of the color stops of a gradient: a comma, a space and the
/// stop, for each stop.
pub open spec fn stops_text(stops: Seq<ColorStop>) -> Seq<char>
    decreases stops.len(),
{
    if stops.len() == 0 {
        Seq::<char>::empty()
    } else {
        stops_text(stops.drop_last()) + ", "@ + stops.last().css_text()
    }
}

impl LinearGradientView {
    /// Whether the gradient is one that a style sheet can write: it has two
    /// color stops at least.
    pub open spec fn well_formed(self) -> bool {
        self.stops.len() >= 2
    }

    /// Whether the gradient has CSS text: each of its stops has.
    pub open spec fn has_css_text(self) -> bool {
        forall|i: int| 0 <= i < self.stops.len() ==> (#[trigger] self.stops[i]).has_css_text()
    }

    /// The canonical CSS text of the gradient.
    pub open spec fn css_text(self) -> Seq<char>
        recommends
            self.has_css_text(),
    {
        "linear-gradient("@ + self.angle_or_corner.css_text() + stops_text(self.stops) + ")"@
    }
}

impl LinearGradient {
    /// The gradient in the direction `angle_or_corner` with the color stops
    /// `stops`; an error if these are fewer than two.
    pub open spec fn spec_new(angle_or_corner: AngleOrCorner, stops: Seq<ColorStop>) -> Result<
        LinearGradientView,
        (),
    > {
        if stops.len() < 2 {
            Err(())
        } else {
            Ok(LinearGradientView { angle_or_corner, stops })
        }
    }

    /// Makes a gradient of its direction and its color stops, of which there
    /// have to be two at least.
    pub fn new(angle_or_corner: AngleOrCorner, stops: Vec<ColorStop>) -> (r: Result<
        LinearGradient,
        (),
    >)
        ensures
            match LinearGradient::spec_new(angle_or_corner, stops@) {
                Ok(gradient) => r matches Ok(made) && made@ == gradient,
                Err(_) => r is Err,
            },
            r is Ok <==> stops@.len() >= 2,
    {
        if stops.len() < 2 {
            Err(())
        } else {
            Ok(LinearGradient { angle_or_corner, stops })
        }
    }

    /// What `parse_function` does: the direction of the gradient, then its
    /// color stops, of which there have to be two at least.
    pub open spec fn spec_parse_function(p: Parser) -> (Result<LinearGradientView, ()>, Parser) {
        match AngleOrCorner::spec_parse(p) {
            (Ok(angle_or_corner), after_direction) => match spec_parse_stops(
                after_direction,
                Seq::<ColorStop>::empty(),
            ) {
                (Ok(stops), rest) => (LinearGradient::spec_new(angle_or_corner, stops), rest),
                (Err(_), rest) => (Err(()), rest),
            },
            (Err(_), rest) => (Err(()), rest),
        }
    }

    fn parse_stops(input: &mut Parser) -> (r: Result<Vec<ColorStop>, ()>)
        ensures
            match spec_parse_stops(*old(input), Seq::<ColorStop>::empty()) {
                (Ok(stops), rest) => r matches Ok(read) && read@ == stops && *final(input) == rest,
                (Err(_), rest) => r is Err && *final(input) == rest,
            },
            r matches Ok(read) ==> forall|i: int|
                0 <= i < read@.len() ==> (#[trigger] read@[i]).has_css_text(),
    {
        let mut stops: Vec<ColorStop> = Vec::new();
        loop
            invariant
                spec_parse_stops(*input, stops@) == spec_parse_stops(
                    *old(input),
                    Seq::<ColorStop>::empty(),
                ),
                forall|i: int| 0 <= i < stops@.len() ==> (#[trigger] stops@[i]).has_css_text(),
            decreases input.remaining(),
        {
            proof {
                lemma_color_stop_advances(*input);
                lemma_next_advances(ColorStop::spec_parse(*input).1);
            }
            match parse_one_color_stop(input) {
                Ok(stop) => {
                    stops.push(stop);
                    let after_stop = input.position();
                    match input.next() {
                        Ok(Token::Comma) => {},
                        Ok(Token::CloseParenthesis) => {
                            input.reset(after_stop);
                            return Ok(stops);
                        },
                        Ok(_) => {
                            return Err(());
                        },
                        Err(()) => {
                            return Ok(stops);
                        },
                    }
                },
                Err(()) => {
                    return Err(());
                },
            }
        }
    }

    /// Reads what stands between the parentheses of `linear-gradient(...)`.
    pub fn parse_function(input: &mut Parser) -> (r: Result<LinearGradient, ()>)
        ensures
            match LinearGradient::spec_parse_function(*old(input)) {
                (Ok(gradient), rest) => r matches Ok(read) && read@ == gradient && *final(input)
                    == rest,
                (Err(_), rest) => r is Err && *final(input) == rest,
            },
            r matches Ok(read) ==> read@.well_formed() && read@.has_css_text(),
    {
        match AngleOrCorner::parse(input) {
            Ok(angle_or_corner) => match LinearGradient::parse_stops(input) {
                Ok(stops) => LinearGradient::new(angle_or_corner, stops),
                Err(()) => Err(()),
            },
            Err(()) => Err(()),
        }
    }

    /// Appends the canonical CSS text of the gradient to `dest`.
    pub fn to_css(&self, dest: &mut String)
        requires
            self@.has_css_text(),
        ensures
            final(dest)@ == old(dest)@ + self@.css_text(),
    {
        dest.append("linear-gradient(");
        self.angle_or_corner.to_css(dest);
        let ghost head = dest@;
        let mut i: usize = 0;
        while i < self.stops.len()
            invariant
                i <= self.stops.len(),
                self@.has_css_text(),
                dest@ == head + stops_text(self.stops@.take(i as int)),
            decreases self.stops.len() - i,
        {
            let ghost before = dest@;
            dest.append(", ");
            proof {
                assert(self@.stops[i as int].has_css_text());
            }
            self.stops[i].to_css(dest);
            proof {
                let taken = self.stops@.take(i + 1);
                assert(taken.drop_last() =~= self.stops@.take(i as int));
                assert(taken.last() == self.stops@[i as int]);
                assert(dest@ =~= head + stops_text(taken));
            }
            i = i + 1;
        }
        dest.append(")");
        proof {
            assert(self.stops@.take(i as int) =~= self.stops@);
            assert(final(dest)@ =~= old(dest)@ + self@.css_text());
        }
    }
}

impl ImageView {
    /// Whether the image has CSS text: a gradient whose stops all have.
    pub open spec fn has_css_text(self) -> bool {
        self matches ImageView::LinearGradient(gradient) ==> gradient.has_css_text()
    }

    /// The canonical CSS text of the image: `url(` and `)` around the URL
    /// written as a string, or the text of the gradient.
    pub open spec fn css_text(self) -> Seq<char>
        recommends
            self.has_css_text(),
    {
        match self {
            ImageView::Url(url) => "url("@ + css_string_text(url) + ")"@,
            ImageView::LinearGradient(gradient) => gradient.css_text(),
        }
    }
}

impl Image {
    /// What `parse` does. If a URL stands next, the image at that URL,
    /// resolved by `context`. Else, if the function `linear-gradient` stands
    /// next, the gradient between its parentheses, after which the closing
    /// parenthesis or the end of the text has to follow. Else an error.
    pub open spec fn spec_parse(context: ParserContext, p: Parser) -> (
        Result<ImageView, ()>,
        Parser,
    ) {
        match p.spec_next_url() {
            (Some(url), rest) => (Ok(ImageView::Url(context.spec_parse_url(url))), rest),
            (None, _) => match p.spec_next() {
                (Ok(Token::Function(name)), inside) => if eq_ignoring_case(
                    name@,
                    "linear-gradient"@,
                ) {
                    match LinearGradient::spec_parse_function(inside) {
                        (Ok(gradient), after) => match after.spec_next() {
                            (Ok(Token::CloseParenthesis), rest) => (
                                Ok(ImageView::LinearGradient(gradient)),
                                rest,
                            ),
                            (Ok(_), rest) => (Err(()), rest),
                            (Err(_), rest) => (Ok(ImageView::LinearGradient(gradient)), rest),
                        },
                        (Err(_), rest) => (Err(()), rest),
                    }
                } else {
                    (Err(()), inside)
                },
                (_, rest) => (Err(()), rest),
            },
        }
    }

    /// Reads an image: a URL or a linear gradient.
    pub fn parse(context: &ParserContext, input: &mut Parser) -> (r: Result<Image, ()>)
        ensures
            match Image::spec_parse(*context, *old(input)) {
                (Ok(image), rest) => r matches Ok(read) && read@ == image && *final(input) == rest,
                (Err(_), rest) => r is Err && *final(input) == rest,
            },
            r matches Ok(read) ==> read@.has_css_text(),
    {
        match input.next_url() {
            Some(url) => Ok(Image::Url(context.parse_url(url.as_str()))),
            None => match input.next() {
                Ok(Token::Function(name)) => if name.as_str().eq_ignore_ascii_case(
                    "linear-gradient",
                ) {
                    match LinearGradient::parse_function(input) {
                        Ok(gradient) => match input.next() {
                            Ok(Token::CloseParenthesis) => Ok(Image::LinearGradient(gradient)),
                            Ok(_) => Err(()),
                            Err(()) => Ok(Image::LinearGradient(gradient)),
                        },
                        Err(()) => Err(()),
                    }
                } else {
                    Err(())
                },
                _ => Err(()),
            },
        }
    }

    /// Appends the canonical CSS text of the image to `dest`.
    pub fn to_css(&self, dest: &mut String)
        requires
            self@.has_css_text(),
        ensures
            final(dest)@ == old(dest)@ + self@.css_text(),
    {
        match self {
            Image::Url(url) => {
                dest.append("url(");
                write_string(url.as_str(), dest);
                dest.append(")");
                proof {
                    assert(final(dest)@ =~= old(dest)@ + self@.css_text());
                }
            },
            Image::LinearGradient(gradient) => gradient.to_css(dest),
        }
    }
}

impl CSSImage {
    /// Whether the value has CSS text: `none` has, and an image that has.
    pub open spec fn has_css_text(self) -> bool {
        self@ matches Some(image) ==> image.has_css_text()
    }

    /// The canonical CSS text of the value: that of the image, or `none`.
    pub open spec fn css_text(self) -> Seq<char>
        recommends
            self.has_css_text(),
    {
        match self@ {
            Some(image) => image.css_text(),
            None => "none"@,
        }
    }

    /// Appends the canonical CSS text of the value to `dest`.
    pub fn to_css(&self, dest: &mut String)
        requires
            self.has_css_text(),
        ensures
            final(dest)@ == old(dest)@ + self.css_text(),
    {
        match &self.0 {
            Some(image) => image.to_css(dest),
            None => dest.append("none"),
        }
    }
}

/// Whether the identifier `text` is the next token at `p`.
pub open spec fn ident_stands(p: Parser, text: Seq<char>) -> bool {
    p.spec_next().0 matches Ok(Token::Ident(name)) && name@ == text
}

/// The cursor after the next token at `p`.
pub open spec fn after(p: Parser) -> Parser {
    p.spec_next().1
}

impl AngleOrCorner {
    /// Whether the tokens at `p` are those of the direction's text, and a
    /// comma: a number of radians, or `to` and the two keywords of the corner.
    pub open spec fn stands(self, p: Parser) -> bool {
        match self {
            AngleOrCorner::Angle(angle) => {
                &&& p.spec_next().0 matches Ok(Token::Dimension(number, unit))
                &&& number == angle.0
                &&& unit@ == ANGLE_UNITS@[3].0@
                &&& after(p).spec_next().0 == Ok::<Token, ()>(Token::Comma)
            },
            AngleOrCorner::Corner(horizontal, vertical) => {
                &&& ident_stands(p, "to"@)
                &&& ident_stands(after(p), horizontal.css_text())
                &&& ident_stands(after(after(p)), vertical.css_text())
                &&& after(after(after(p))).spec_next().0 == Ok::<Token, ()>(Token::Comma)
            },
        }
    }

    /// The cursor after the tokens of the direction's text and the comma.
    pub open spec fn end(self, p: Parser) -> Parser {
        match self {
            AngleOrCorner::Angle(_) => after(after(p)),
            AngleOrCorner::Corner(_, _) => after(after(after(after(p)))),
        }
    }
}

impl ColorStop {
    /// Whether what stands at `p` is the text of the stop: its color, as
    /// the identifier it was written as if it has one, and its position if it
    /// has one.
    pub open spec fn stands(self, p: Parser) -> bool {
        &&& p.spec_next_color().0 == Some(self.color.parsed)
        &&& match self.color.authored {
            Some(name) => p.spec_next().0 == Ok::<Token, ()>(Token::Ident(name)),
            None => !(p.spec_next().0 matches Ok(Token::Ident(_))),
        }
        &&& match self.position {
            Some(position) => p.spec_next_color().1.spec_next().0 matches Ok(token)
                && position.is_written_by(token),
            None => true,
        }
    }

    /// The cursor after the text of the stop.
    pub open spec fn end(self, p: Parser) -> Parser {
        match self.position {
            Some(_) => after(p.spec_next_color().1),
            None => p.spec_next_color().1,
        }
    }
}

/// Whether what stands at `p` is the text of the stops of `stops` from the
/// one at `from` on, with a comma between each two, and then a closing
/// parenthesis or the end of the text.
pub open spec fn stops_stand(p: Parser, stops: Seq<ColorStop>, from: int) -> bool
    decreases stops.len() - from,
{
    if from < 0 || from >= stops.len() {
        false
    } else {
        let end = stops[from].end(p);
        &&& stops[from].stands(p)
        &&& if from + 1 == stops.len() {
            end.spec_next().0 is Err || end.spec_next().0 == Ok::<Token, ()>(
                Token::CloseParenthesis,
            )
        } else {
            end.spec_next().0 == Ok::<Token, ()>(Token::Comma) && stops_stand(
                after(end),
                stops,
                from + 1,
            )
        }
    }
}

/// The cursor after the text of the stops of `stops` from the one at `from`
/// on.
pub open spec fn stops_end(p: Parser, stops: Seq<ColorStop>, from: int) -> Parser
    decreases stops.len() - from,
{
    if from < 0 || from >= stops.len() {
        p
    } else if from + 1 == stops.len() {
        stops[from].end(p)
    } else {
        stops_end(after(stops[from].end(p)), stops, from + 1)
    }
}

/// A direction whose text stands at the cursor is read back from it.
pub proof fn lemma_direction_round_trip(direction: AngleOrCorner, p: Parser)
    requires
        direction.stands(p),
    ensures
        AngleOrCorner::spec_parse(p) == (Ok::<AngleOrCorner, ()>(direction), direction.end(p)),
{
    match direction {
        AngleOrCorner::Angle(angle) => {
            if let Ok(Token::Dimension(number, unit)) = p.spec_next().0 {
                lemma_angle_round_trip(angle, unit);
            }
        },
        AngleOrCorner::Corner(horizontal, vertical) => {
            reveal_strlit("to");
            lemma_horizontal_round_trip(horizontal);
            lemma_vertical_round_trip(vertical);
        },
    }
}

/// A color stop whose text stands at the cursor, followed by a comma, a
/// closing parenthesis or the end of the text, is read back from it.
pub proof fn lemma_color_stop_round_trip(stop: ColorStop, p: Parser)
    requires
        stop.stands(p),
        stop.has_css_text(),
        stop.end(p).spec_next().0 is Err || stop.end(p).spec_next().0 == Ok::<Token, ()>(
            Token::Comma,
        ) || stop.end(p).spec_next().0 == Ok::<Token, ()>(Token::CloseParenthesis),
    ensures
        ColorStop::spec_parse(p) == (Ok::<ColorStop, ()>(stop), stop.end(p)),
{
    let after_color = p.spec_next_color().1;
    match stop.position {
        Some(position) => {
            if let Ok(token) = after_color.spec_next().0 {
                lemma_length_or_percentage_round_trip(position, token);
            }
        },
        None => {},
    }
}

/// Color stops whose text stands at the cursor are read back from it, after
/// those read before.
pub proof fn lemma_stops_round_trip(stops: Seq<ColorStop>, from: int, p: Parser)
    requires
        stops_stand(p, stops, from),
        forall|i: int| 0 <= i < stops.len() ==> (#[trigger] stops[i]).has_css_text(),
    ensures
        spec_parse_stops(p, stops.take(from)) == (
            Ok::<Seq<ColorStop>, ()>(stops),
            stops_end(p, stops, from),
        ),
    decreases stops.len() - from,
{
    let stop = stops[from];
    lemma_color_stop_round_trip(stop, p);
    assert(stops.take(from).push(stop) =~= stops.take(from + 1));
    if from + 1 == stops.len() {
        assert(stops.take(from + 1) =~= stops);
    } else {
        lemma_stops_round_trip(stops, from + 1, after(stop.end(p)));
    }
}

/// A gradient that a style sheet can write, and whose text stands at the
/// cursor, is read back from it: reading what was written gives the value
/// that was written.
pub proof fn lemma_gradient_round_trip(gradient: LinearGradientView, p: Parser)
    requires
        gradient.well_formed(),
        gradient.has_css_text(),
        gradient.angle_or_corner.stands(p),
        stops_stand(gradient.angle_or_corner.end(p), gradient.stops, 0),
    ensures
        LinearGradient::spec_parse_function(p) == (
            Ok::<LinearGradientView, ()>(gradient),
            stops_end(gradient.angle_or_corner.end(p), gradient.stops, 0),
        ),
{
    lemma_direction_round_trip(gradient.angle_or_corner, p);
    lemma_stops_round_trip(gradient.stops, 0, gradient.angle_or_corner.end(p));
    assert(gradient.stops.take(0) =~= Seq::<ColorStop>::empty());
}

impl ImageView {
    /// Whether what stands at `p` is the text of the image: a URL that
    /// `context` resolves to the image's own, or the function
    /// `linear-gradient` around the text of the gradient.
    pub open spec fn stands(self, context: ParserContext, p: Parser) -> bool {
        match self {
            ImageView::Url(url) => p.spec_next_url().0 matches Some(reference)
                && context.spec_parse_url(reference) == url,
            ImageView::LinearGradient(gradient) => {
                &&& p.spec_next_url().0 is None
                &&& p.spec_next().0 matches Ok(Token::Function(name))
                &&& name@ == "linear-gradient"@
                &&& gradient.well_formed()
                &&& gradient.has_css_text()
                &&& gradient.angle_or_corner.stands(after(p))
                &&& stops_stand(gradient.angle_or_corner.end(after(p)), gradient.stops, 0)
            },
        }
    }
}

/// An image whose text stands at the cursor is read back from it.
pub proof fn lemma_image_round_trip(image: ImageView, context: ParserContext, p: Parser)
    requires
        image.stands(context, p),
    ensures
        Image::spec_parse(context, p).0 == Ok::<ImageView, ()>(image),
{
    if let ImageView::LinearGradient(gradient) = image {
        lemma_gradient_round_trip(gradient, after(p));
        lemma_stops_end(gradient.stops, 0, gradient.angle_or_corner.end(after(p)));
    }
}

proof fn lemma_stops_end(stops: Seq<ColorStop>, from: int, p: Parser)
    requires
        stops_stand(p, stops, from),
    ensures
        stops_end(p, stops, from).spec_next().0 is Err || stops_end(p, stops, from).spec_next().0
            == Ok::<Token, ()>(Token::CloseParenthesis),
    decreases stops.len() - from,
{
    if from + 1 < stops.len() {
        lemma_stops_end(stops, from + 1, after(stops[from].end(p)));
    }
}

} // verus!
