//! Specified values: values as written in a style sheet, before the units
//! that depend on the element are resolved.

pub mod angle;
pub mod border;
pub mod color;
pub mod direction;
pub mod image;
pub mod length;
pub mod length_or_percentage;
pub mod position;

pub use self::angle::{Angle, AngleUnit};
pub use self::border::{parse_border_width, BorderStyle};
pub use self::color::{CSSColor, CSSRGBA};
pub use self::direction::{HorizontalDirection, VerticalDirection};
pub use self::image::{
    parse_one_color_stop, AngleOrCorner, CSSImage, ColorStop, Image, ImageView, LinearGradient,
    LinearGradientView,
};
pub use self::length::{Length, LengthUnit};
pub use self::length_or_percentage::{
    LengthOrPercentage, LengthOrPercentageOrAuto, LengthOrPercentageOrNone, ValueOrKeyword,
};
pub use self::position::PositionComponent;
