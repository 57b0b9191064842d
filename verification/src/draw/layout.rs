//! The declarative layout policy: direction, sizing, alignment, padding and
//! spacing.

use vstd::prelude::*;
use crate::platform::math::{
    half, half_toward_zero, sat64, sat_sub, scale_by_permille, scale_permille, Vec2,
};

verus! {

/// The main axis along which a container places its items.
#[derive(Clone, Copy, Debug, PartialEq, Eq, Structural)]
pub enum LayoutDirection {
    Horizontal,
    Vertical,
}

/// How one extent of a container is sized.  A `Flex` factor is given in
/// thousandths of the available extent.
#[derive(Clone, Copy, Debug, PartialEq, Eq, Structural)]
pub enum LayoutSize {
    Fixed(i64),
    Flex(u32),
    Fill,
    Fit,
}

impl LayoutSize {
    /// The resolved extent: `Fixed(v)` is `v` irrespective of the inputs,
    /// `Flex(f)` is `available` scaled by `f` thousandths, `Fill` is
    /// `available`, and `Fit` is `content`.
    pub open spec fn spec_resolve(self, available: int, content: int) -> int {
        match self {
            LayoutSize::Fixed(v) => v as int,
            LayoutSize::Flex(f) => scale_permille(available, f as int),
            LayoutSize::Fill => available,
            LayoutSize::Fit => content,
        }
    }

    /// Resolves this sizing policy against the available extent and the
    /// content extent.
    pub fn resolve(&self, available: i64, content: i64) -> (r: i64)
        ensures
            r as int == self.spec_resolve(available as int, content as int),
    {
        match self {
            LayoutSize::Fixed(v) => *v,
            LayoutSize::Flex(f) => scale_by_permille(available, *f),
            LayoutSize::Fill => available,
            LayoutSize::Fit => content,
        }
    }
}

/// How an item is offset across the container's free extent.
#[derive(Clone, Copy, Debug, PartialEq, Eq, Structural)]
pub enum LayoutAlign {
    Start,
    Center,
    End,
    Stretch,
}

impl LayoutAlign {
    /// The offset of an item of extent `item` inside a container of extent
    /// `container`: 0 for `Start`, half the difference for `Center`, the
    /// whole difference for `End`.  `Stretch` offsets by 0 and leaves the
    /// stretch resize to the caller.
    pub open spec fn spec_resolve(self, container: int, item: int) -> int {
        match self {
            LayoutAlign::Start => 0,
            LayoutAlign::Center => half_toward_zero(sat64(container - item)),
            LayoutAlign::End => sat64(container - item),
            LayoutAlign::Stretch => 0,
        }
    }

    /// Resolves this alignment policy to an offset.
    pub fn resolve(&self, container: i64, item: i64) -> (r: i64)
        ensures
            r as int == self.spec_resolve(container as int, item as int),
    {
        match self {
            LayoutAlign::Start => 0,
            LayoutAlign::Center => half(sat_sub(container, item)),
            LayoutAlign::End => sat_sub(container, item),
            LayoutAlign::Stretch => 0,
        }
    }
}

/// A complete layout policy for one container.
#[derive(Clone, Copy, Debug, PartialEq, Eq, Structural)]
pub struct Layout {
    pub direction: LayoutDirection,
    pub width: LayoutSize,
    pub height: LayoutSize,
    pub align_items: LayoutAlign,
    pub justify_content: LayoutAlign,
    pub padding: Vec2,
    pub spacing: i64,
}

impl Layout {
    /// The default policy shared by both directions: fill the width, fit
    /// the height, start-aligned, no padding, no spacing.
    pub open spec fn spec_default_with(direction: LayoutDirection) -> Layout {
        Layout {
            direction,
            width: LayoutSize::Fill,
            height: LayoutSize::Fit,
            align_items: LayoutAlign::Start,
            justify_content: LayoutAlign::Start,
            padding: Vec2 { x: 0, y: 0 },
            spacing: 0,
        }
    }

    pub fn horizontal() -> (r: Self)
        ensures
            r == Layout::spec_default_with(LayoutDirection::Horizontal),
    {
        Self {
            direction: LayoutDirection::Horizontal,
            width: LayoutSize::Fill,
            height: LayoutSize::Fit,
            align_items: LayoutAlign::Start,
            justify_content: LayoutAlign::Start,
            padding: Vec2::new(0, 0),
            spacing: 0,
        }
    }

    pub fn vertical() -> (r: Self)
        ensures
            r == Layout::spec_default_with(LayoutDirection::Vertical),
    {
        Self {
            direction: LayoutDirection::Vertical,
            width: LayoutSize::Fill,
            height: LayoutSize::Fit,
            align_items: LayoutAlign::Start,
            justify_content: LayoutAlign::Start,
            padding: Vec2::new(0, 0),
            spacing: 0,
        }
    }

    pub fn with_width(self, width: LayoutSize) -> (r: Self)
        ensures
            r == (Layout { width, ..self }),
    {
        Layout { width, ..self }
    }

    pub fn with_height(self, height: LayoutSize) -> (r: Self)
        ensures
            r == (Layout { height, ..self }),
    {
        Layout { height, ..self }
    }

    pub fn with_align_items(self, align_items: LayoutAlign) -> (r: Self)
        ensures
            r == (Layout { align_items, ..self }),
    {
        Layout { align_items, ..self }
    }

    pub fn with_justify_content(self, justify_content: LayoutAlign) -> (r: Self)
        ensures
            r == (Layout { justify_content, ..self }),
    {
        Layout { justify_content, ..self }
    }

    pub fn with_padding(self, padding: Vec2) -> (r: Self)
        ensures
            r == (Layout { padding, ..self }),
    {
        Layout { padding, ..self }
    }

    pub fn with_spacing(self, spacing: i64) -> (r: Self)
        ensures
            r == (Layout { spacing, ..self }),
    {
        Layout { spacing, ..self }
    }
}

} // verus!
