//! Themes: the colors, text styles, spacings and radii the widgets draw
//! with.

use vstd::prelude::*;
use crate::draw::color::Color;
use crate::draw::text::{TextAlign, TextStyle};

verus! {

/// A widget theme.  Spacings and radii are coordinates.
#[derive(Clone, Debug)]
pub struct Theme {
    pub background_color: Color,
    pub foreground_color: Color,
    pub primary_color: Color,
    pub secondary_color: Color,
    pub accent_color: Color,
    pub error_color: Color,
    pub success_color: Color,
    pub warning_color: Color,
    pub default_text_style: TextStyle,
    pub heading_text_style: TextStyle,
    pub button_text_style: TextStyle,
    pub spacing_small: i64,
    pub spacing_medium: i64,
    pub spacing_large: i64,
    pub border_radius_small: i64,
    pub border_radius_medium: i64,
    pub border_radius_large: i64,
}

/// The spacings, radii and text-style shapes every stock theme shares.
pub open spec fn has_stock_metrics(t: Theme) -> bool {
    &&& t.spacing_small == 4 && t.spacing_medium == 8 && t.spacing_large == 16
    &&& t.border_radius_small == 2 && t.border_radius_medium == 4 && t.border_radius_large == 8
    &&& t.default_text_style.font_size == 16 && t.default_text_style.align == TextAlign::Left
        && t.default_text_style.line_height == 1200
    &&& t.heading_text_style.font_size == 24 && t.heading_text_style.align == TextAlign::Left
        && t.heading_text_style.line_height == 1200
    &&& t.button_text_style.font_size == 16 && t.button_text_style.align == TextAlign::Center
        && t.button_text_style.line_height == 1200
}

/// The stock accent palette shared by the light and the dark theme.
pub open spec fn has_stock_palette(t: Theme) -> bool {
    &&& t.primary_color == Color::spec_from_hex(0x2196F3)
    &&& t.secondary_color == Color::spec_from_hex(0x4CAF50)
    &&& t.accent_color == Color::spec_from_hex(0xFF9800)
    &&& t.error_color == Color::spec_from_hex(0xF44336)
    &&& t.success_color == Color::spec_from_hex(0x4CAF50)
    &&& t.warning_color == Color::spec_from_hex(0xFFC107)
}

impl Default for Theme {
    /// The light theme: white background, black foreground and text,
    /// white button text, stock palette and metrics.
    fn default() -> (t: Self)
        ensures
            has_stock_metrics(t),
            has_stock_palette(t),
            t.background_color == Color::spec_from_hex(0xFFFFFF),
            t.foreground_color == Color::spec_from_hex(0x000000),
            t.default_text_style.color == Color::spec_from_hex(0x000000),
            t.heading_text_style.color == Color::spec_from_hex(0x000000),
            t.button_text_style.color == Color::spec_from_hex(0xFFFFFF),
    {
        Self {
            background_color: Color::from_hex(0xFFFFFF),
            foreground_color: Color::from_hex(0x000000),
            primary_color: Color::from_hex(0x2196F3),
            secondary_color: Color::from_hex(0x4CAF50),
            accent_color: Color::from_hex(0xFF9800),
            error_color: Color::from_hex(0xF44336),
            success_color: Color::from_hex(0x4CAF50),
            warning_color: Color::from_hex(0xFFC107),
            default_text_style: TextStyle {
                font_size: 16,
                font_name: "default".to_owned(),
                color: Color::from_hex(0x000000),
                align: TextAlign::Left,
                line_height: 1200,
            },
            heading_text_style: TextStyle {
                font_size: 24,
                font_name: "default".to_owned(),
                color: Color::from_hex(0x000000),
                align: TextAlign::Left,
                line_height: 1200,
            },
            button_text_style: TextStyle {
                font_size: 16,
                font_name: "default".to_owned(),
                color: Color::from_hex(0xFFFFFF),
                align: TextAlign::Center,
                line_height: 1200,
            },
            spacing_small: 4,
            spacing_medium: 8,
            spacing_large: 16,
            border_radius_small: 2,
            border_radius_medium: 4,
            border_radius_large: 8,
        }
    }
}

/// The dark theme's constructor.
pub struct DarkTheme;

impl DarkTheme {
    /// The dark theme: near-black background, white foreground and text,
    /// stock palette and metrics.
    pub fn new() -> (t: Theme)
        ensures
            has_stock_metrics(t),
            has_stock_palette(t),
            t.background_color == Color::spec_from_hex(0x121212),
            t.foreground_color == Color::spec_from_hex(0xFFFFFF),
            t.default_text_style.color == Color::spec_from_hex(0xFFFFFF),
            t.heading_text_style.color == Color::spec_from_hex(0xFFFFFF),
            t.button_text_style.color == Color::spec_from_hex(0xFFFFFF),
    {
        Theme {
            background_color: Color::from_hex(0x121212),
            foreground_color: Color::from_hex(0xFFFFFF),
            primary_color: Color::from_hex(0x2196F3),
            secondary_color: Color::from_hex(0x4CAF50),
            accent_color: Color::from_hex(0xFF9800),
            error_color: Color::from_hex(0xF44336),
            success_color: Color::from_hex(0x4CAF50),
            warning_color: Color::from_hex(0xFFC107),
            default_text_style: TextStyle {
                font_size: 16,
                font_name: "default".to_owned(),
                color: Color::from_hex(0xFFFFFF),
                align: TextAlign::Left,
                line_height: 1200,
            },
            heading_text_style: TextStyle {
                font_size: 24,
                font_name: "default".to_owned(),
                color: Color::from_hex(0xFFFFFF),
                align: TextAlign::Left,
                line_height: 1200,
            },
            button_text_style: TextStyle {
                font_size: 16,
                font_name: "default".to_owned(),
                color: Color::from_hex(0xFFFFFF),
                align: TextAlign::Center,
                line_height: 1200,
            },
            spacing_small: 4,
            spacing_medium: 8,
            spacing_large: 16,
            border_radius_small: 2,
            border_radius_medium: 4,
            border_radius_large: 8,
        }
    }
}

} // verus!
