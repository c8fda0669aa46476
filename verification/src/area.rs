//! Rectangles of the screen: validation and clipping to an image.
use crate::text::{push_decimal, push_decimal_pair, push_signed_decimal};
use vstd::math::{max, min};
use vstd::prelude::*;

verus! {

/// A rectangle in screen coordinates. `x` and `y` may lie left of or above the
/// screen.
#[derive(Debug, Clone, Copy, PartialEq, Eq, Structural)]
pub struct ScreenshotArea {
    pub x: i32,
    pub y: i32,
    pub width: u32,
    pub height: u32,
}

/// Why an area cannot be requested from GNOME Shell.
#[derive(Debug, Clone, Copy, PartialEq, Eq, Structural)]
pub enum AreaError {
    /// The width or the height is zero.
    NotPositive { width: u32, height: u32 },
    /// The width does not fit the signed integers of the D-Bus call.
    WidthOutOfRange,
    /// The height does not fit the signed integers of the D-Bus call.
    HeightOutOfRange,
}

/// An area that shares no pixel with the full screenshot.
#[derive(Debug, Clone, Copy, PartialEq, Eq, Structural)]
pub struct OutsideImage {
    pub area: ScreenshotArea,
    pub image_width: u32,
    pub image_height: u32,
}

impl ScreenshotArea {
    /// Whether the pixel at column `px` and row `py` belongs to the area.
    pub open spec fn covers(self, px: int, py: int) -> bool {
        &&& self.x <= px < self.x + self.width
        &&& self.y <= py < self.y + self.height
    }

    /// Whether the area is not empty and lies inside an image of that size.
    pub open spec fn within(self, image_width: int, image_height: int) -> bool {
        &&& 0 <= self.x
        &&& 0 <= self.y
        &&& 0 < self.width
        &&& 0 < self.height
        &&& self.x + self.width <= image_width
        &&& self.y + self.height <= image_height
    }

    /// The verdict of [`ScreenshotArea::validate`].
    pub open spec fn validation(self) -> Result<(), AreaError> {
        if self.width == 0 || self.height == 0 {
            Err(AreaError::NotPositive { width: self.width, height: self.height })
        } else if self.width > i32::MAX {
            Err(AreaError::WidthOutOfRange)
        } else if self.height > i32::MAX {
            Err(AreaError::HeightOutOfRange)
        } else {
            Ok(())
        }
    }

    /// Accepts an area with a positive width and height that both fit an `i32`.
    pub fn validate(self) -> (verdict: Result<(), AreaError>)
        ensures
            verdict == self.validation(),
            verdict is Ok <==> 0 < self.width <= i32::MAX && 0 < self.height <= i32::MAX,
            verdict == Err::<(), AreaError>(
                (AreaError::NotPositive { width: self.width, height: self.height }),
            ) <==> self.width == 0 || self.height == 0,
            verdict == Err::<(), AreaError>(AreaError::WidthOutOfRange) <==> self.width > i32::MAX
                && self.height > 0,
            verdict == Err::<(), AreaError>(AreaError::HeightOutOfRange) <==> 0 < self.width
                <= i32::MAX && self.height > i32::MAX,
    {
        if self.width == 0 || self.height == 0 {
            return Err(AreaError::NotPositive { width: self.width, height: self.height });
        }
        if let Err(error) = self.width_i32() {
            return Err(error);
        }
        if let Err(error) = self.height_i32() {
            return Err(error);
        }
        Ok(())
    }

    /// The width as GNOME Shell takes it.
    pub fn width_i32(self) -> (width: Result<i32, AreaError>)
        ensures
            width == (if self.width <= i32::MAX {
                Ok::<i32, AreaError>(self.width as i32)
            } else {
                Err::<i32, AreaError>(AreaError::WidthOutOfRange)
            }),
    {
        if self.width <= i32::MAX as u32 {
            Ok(self.width as i32)
        } else {
            Err(AreaError::WidthOutOfRange)
        }
    }

    /// The height as GNOME Shell takes it.
    pub fn height_i32(self) -> (height: Result<i32, AreaError>)
        ensures
            height == (if self.height <= i32::MAX {
                Ok::<i32, AreaError>(self.height as i32)
            } else {
                Err::<i32, AreaError>(AreaError::HeightOutOfRange)
            }),
    {
        if self.height <= i32::MAX as u32 {
            Ok(self.height as i32)
        } else {
            Err(AreaError::HeightOutOfRange)
        }
    }
}

/// The part of `area` that lies inside an image of that size, if there is one.
/// That it holds exactly the shared pixels is [`clipping_keeps_exactly_the_shared_pixels`].
pub open spec fn clipped_area(
    area: ScreenshotArea,
    image_width: u32,
    image_height: u32,
) -> Option<ScreenshotArea> {
    let left = max(area.x as int, 0);
    let top = max(area.y as int, 0);
    let right = min(area.x + area.width, image_width as int);
    let bottom = min(area.y + area.height, image_height as int);
    if left < right && top < bottom {
        Some(
            ScreenshotArea {
                x: left as i32,
                y: top as i32,
                width: (right - left) as u32,
                height: (bottom - top) as u32,
            },
        )
    } else {
        None
    }
}

/// Whether `part` runs from the later to the earlier edges of `area` and of an image
/// of that size, and is not empty.
pub open spec fn is_overlap(
    area: ScreenshotArea,
    image_width: int,
    image_height: int,
    part: ScreenshotArea,
) -> bool {
    &&& part.width > 0
    &&& part.height > 0
    &&& part.x == max(area.x as int, 0)
    &&& part.y == max(area.y as int, 0)
    &&& part.x + part.width == min(area.x + area.width, image_width)
    &&& part.y + part.height == min(area.y + area.height, image_height)
}

/// Cuts `area` down to an image of the given size.
pub fn clip_area_to_image(area: ScreenshotArea, image_width: u32, image_height: u32) -> (clipped:
    Result<ScreenshotArea, OutsideImage>)
    ensures
        clipped == (match clipped_area(area, image_width, image_height) {
            Some(inside) => Ok::<ScreenshotArea, OutsideImage>(inside),
            None => Err::<ScreenshotArea, OutsideImage>(
                (OutsideImage { area, image_width, image_height }),
            ),
        }),
        match clipped {
            Ok(inside) => is_overlap(area, image_width as int, image_height as int, inside),
            Err(outside) => {
                &&& outside.area == area
                &&& outside.image_width == image_width
                &&& outside.image_height == image_height
            },
        },
        clipped is Ok <==> area.width > 0 && area.height > 0 && area.x < image_width && area.y
            < image_height && 0 < area.x + area.width && 0 < area.y + area.height && 0
            < image_width && 0 < image_height,
{
    let left: i64 = if area.x < 0 {
        0
    } else {
        area.x as i64
    };
    let top: i64 = if area.y < 0 {
        0
    } else {
        area.y as i64
    };
    let area_right: i64 = area.x as i64 + area.width as i64;
    let right: i64 = if area_right < image_width as i64 {
        area_right
    } else {
        image_width as i64
    };
    let area_bottom: i64 = area.y as i64 + area.height as i64;
    let bottom: i64 = if area_bottom < image_height as i64 {
        area_bottom
    } else {
        image_height as i64
    };
    if right <= left || bottom <= top {
        return Err(OutsideImage { area, image_width, image_height });
    }
    Ok(
        ScreenshotArea {
            x: left as i32,
            y: top as i32,
            width: (right - left) as u32,
            height: (bottom - top) as u32,
        },
    )
}

/// Clipping an area to an image keeps a pixel exactly where it belongs to both
/// the area and the image, and the result is a non-empty part of the image;
/// clipping is refused exactly where area and image share no pixel.
pub proof fn clipping_keeps_exactly_the_shared_pixels(
    area: ScreenshotArea,
    image_width: u32,
    image_height: u32,
)
    ensures
        match clipped_area(area, image_width, image_height) {
            Some(inside) => {
                &&& inside.within(image_width as int, image_height as int)
                &&& forall|px: int, py: int|
                    inside.covers(px, py) <==> area.covers(px, py) && 0 <= px < image_width && 0
                        <= py < image_height
            },
            None => forall|px: int, py: int|
                !(area.covers(px, py) && 0 <= px < image_width && 0 <= py < image_height),
        },
{
}

/// An area that already lies inside the image is left as it is, so that clipping
/// twice is the same as clipping once.
pub proof fn clipping_leaves_inner_areas_alone(
    area: ScreenshotArea,
    image_width: u32,
    image_height: u32,
)
    ensures
        area.within(image_width as int, image_height as int) ==> clipped_area(
            area,
            image_width,
            image_height,
        ) == Some(area),
        clipped_area(area, image_width, image_height) matches Some(inside) ==> clipped_area(
            inside,
            image_width,
            image_height,
        ) == Some(inside),
{
}

/// What clipping makes of a valid area is a valid area again.
pub proof fn clipping_keeps_areas_valid(area: ScreenshotArea, image_width: u32, image_height: u32)
    requires
        area.validation() is Ok,
    ensures
        clipped_area(area, image_width, image_height) matches Some(inside)
            ==> inside.validation() is Ok && inside.width <= area.width && inside.height
            <= area.height,
{
}

impl AreaError {
    /// The text of [`AreaError::message`].
    pub open spec fn text(self) -> Seq<char> {
        match self {
            AreaError::NotPositive { width, height } =>
                "screenshot area must have positive width and height, got "@
                    + crate::text::decimal_pair(width, height),
            AreaError::WidthOutOfRange =>
                "screenshot area width exceeds GNOME Shell integer range"@,
            AreaError::HeightOutOfRange =>
                "screenshot area height exceeds GNOME Shell integer range"@,
        }
    }

    /// What stands behind the error: the failed integer conversion, where there was one.
    pub open spec fn cause_text(self) -> Option<Seq<char>> {
        match self {
            AreaError::NotPositive { .. } => None,
            _ => Some("out of range integral type conversion attempted"@),
        }
    }

    /// The error in words.
    pub fn message(&self) -> (message: String)
        ensures
            message@ == self.text(),
            match *self {
                AreaError::NotPositive { width, height } => message@
                    == "screenshot area must have positive width and height, got "@
                    + crate::text::decimal(width as nat) + "x"@ + crate::text::decimal(
                    height as nat,
                ),
                AreaError::WidthOutOfRange => message@
                    == "screenshot area width exceeds GNOME Shell integer range"@,
                AreaError::HeightOutOfRange => message@
                    == "screenshot area height exceeds GNOME Shell integer range"@,
            },
    {
        match *self {
            AreaError::NotPositive { width, height } => {
                let mut message =
                    "screenshot area must have positive width and height, got ".to_string();
                push_decimal_pair(&mut message, width, height);
                message
            },
            AreaError::WidthOutOfRange =>
                "screenshot area width exceeds GNOME Shell integer range".to_string(),
            AreaError::HeightOutOfRange =>
                "screenshot area height exceeds GNOME Shell integer range".to_string(),
        }
    }

    /// The text of the error below this one, if there is one.
    pub fn cause(&self) -> (cause: Option<String>)
        ensures
            match cause {
                Some(cause) => self.cause_text() == Some(cause@),
                None => self.cause_text() is None,
            },
            match cause {
                Some(cause) => cause@ == "out of range integral type conversion attempted"@,
                None => true,
            },
            cause is None <==> self is NotPositive,
    {
        match *self {
            AreaError::NotPositive { .. } => None,
            _ => Some("out of range integral type conversion attempted".to_string()),
        }
    }
}

impl OutsideImage {
    /// The text of [`OutsideImage::message`].
    pub open spec fn text(self) -> Seq<char> {
        "screenshot area x="@ + crate::text::signed_decimal(self.area.x as int) + ", y="@
            + crate::text::signed_decimal(self.area.y as int) + ", width="@ + crate::text::decimal(
            self.area.width as nat,
        ) + ", height="@ + crate::text::decimal(self.area.height as nat)
            + " is outside full screenshot "@ + crate::text::decimal_pair(
            self.image_width,
            self.image_height,
        )
    }

    /// The error in words.
    pub fn message(&self) -> (message: String)
        ensures
            message@ == self.text(),
            message@ == "screenshot area x="@ + crate::text::signed_decimal(self.area.x as int)
                + ", y="@ + crate::text::signed_decimal(self.area.y as int) + ", width="@
                + crate::text::decimal(self.area.width as nat) + ", height="@
                + crate::text::decimal(self.area.height as nat)
                + " is outside full screenshot "@ + crate::text::decimal(self.image_width as nat)
                + "x"@ + crate::text::decimal(self.image_height as nat),
    {
        let mut message = "screenshot area x=".to_string();
        push_signed_decimal(&mut message, self.area.x);
        message.append(", y=");
        push_signed_decimal(&mut message, self.area.y);
        message.append(", width=");
        push_decimal(&mut message, self.area.width as u128);
        message.append(", height=");
        push_decimal(&mut message, self.area.height as u128);
        message.append(" is outside full screenshot ");
        push_decimal_pair(&mut message, self.image_width, self.image_height);
        message
    }
}

/// An area is valid exactly where its width and height are positive and fit an
/// `i32`. Else the size is at fault, the width before the height.
pub proof fn areas_are_judged_by_their_size(area: ScreenshotArea)
    ensures
        area.validation() is Ok <==> 0 < area.width <= i32::MAX && 0 < area.height <= i32::MAX,
        area.validation() matches Err(AreaError::NotPositive { width, height }) ==> width
            == area.width && height == area.height,
        area.width == 0 || area.height == 0 <==> area.validation() matches Err(
            AreaError::NotPositive { .. },
        ),
        area.validation() matches Err(AreaError::WidthOutOfRange) ==> area.width > i32::MAX,
        area.validation() matches Err(AreaError::HeightOutOfRange) ==> area.width <= i32::MAX
            && area.height > i32::MAX,
{
}

/// Where an area lies does not matter to its verdict.
pub proof fn moving_an_area_keeps_its_verdict(area: ScreenshotArea, moved: ScreenshotArea)
    requires
        area.width == moved.width,
        area.height == moved.height,
    ensures
        area.validation() == moved.validation(),
{
}

/// A pixel is kept by clipping exactly where it lies inside the area and inside the
/// image; where clipping is refused, no pixel lies inside both.
pub proof fn clipping_keeps_a_pixel_that_both_have(
    area: ScreenshotArea,
    image_width: u32,
    image_height: u32,
    px: int,
    py: int,
)
    ensures
        match clipped_area(area, image_width, image_height) {
            Some(inside) => {
                &&& inside.x <= px < inside.x + inside.width && inside.y <= py < inside.y
                    + inside.height <==> area.x <= px < area.x + area.width && area.y <= py
                    < area.y + area.height && 0 <= px < image_width && 0 <= py < image_height
                &&& 0 <= inside.x && 0 <= inside.y && 0 < inside.width && 0 < inside.height
            },
            None => !(area.x <= px < area.x + area.width && area.y <= py < area.y + area.height
                && 0 <= px < image_width && 0 <= py < image_height),
        },
{
}

/// What clipping gives is the overlap of area and image, edge by edge.
pub proof fn clipping_gives_the_overlap(
    area: ScreenshotArea,
    image_width: u32,
    image_height: u32,
)
    ensures
        clipped_area(area, image_width, image_height) matches Some(inside) ==> is_overlap(
            area,
            image_width as int,
            image_height as int,
            inside,
        ),
{
}

} // verus!
