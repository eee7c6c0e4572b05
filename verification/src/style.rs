//! The look of the extractor's user interface: the colors and borders of its containers, panes
//! and buttons, as 8-bit RGBA values and whole pixels.

use vstd::prelude::*;

verus! {

/// The font size of the interface, in points.
pub const FONT_SIZE: u16 = 16;

/// A color with 8 bits per channel, the alpha channel included (255 is opaque).
#[derive(Copy, Clone, Debug, PartialEq, Eq, Structural)]
pub struct Rgba8 {
    /// The red channel.
    pub r: u8,
    /// The green channel.
    pub g: u8,
    /// The blue channel.
    pub b: u8,
    /// The alpha channel.
    pub a: u8,
}

/// The opaque color `(r, g, b)`.
pub open spec fn opaque(r: u8, g: u8, b: u8) -> Rgba8 {
    Rgba8 { r, g, b, a: 255 }
}

/// Creates the opaque color `(r, g, b)`.
pub fn rgb8(r: u8, g: u8, b: u8) -> (c: Rgba8)
    ensures
        c == opaque(r, g, b),
{
    Rgba8 { r, g, b, a: 255 }
}

/// The color of active elements.
pub open spec fn active_color() -> Rgba8 {
    opaque(0x72, 0x89, 0xDA)
}

/// The color of hovered elements.
pub open spec fn hovered_color() -> Rgba8 {
    opaque(0x67, 0x7B, 0xC4)
}

/// The color of the identifier of a focused pane.
pub open spec fn pane_id_focused_color() -> Rgba8 {
    opaque(0xFF, 0x47, 0x47)
}

/// White.
pub open spec fn white() -> Rgba8 {
    opaque(0xFF, 0xFF, 0xFF)
}

/// Fully transparent black, the color of absent borders.
pub open spec fn transparent() -> Rgba8 {
    Rgba8 { r: 0, g: 0, b: 0, a: 0 }
}

/// The look of a container.
#[derive(Copy, Clone, Debug, PartialEq, Eq, Structural)]
pub struct ContainerStyle {
    /// The color of text, if it differs from the default.
    pub text_color: Option<Rgba8>,
    /// The background color, if any.
    pub background: Option<Rgba8>,
    /// The width of the border, in pixels.
    pub border_width: u16,
    /// The color of the border.
    pub border_color: Rgba8,
}

/// The look of a button.
#[derive(Copy, Clone, Debug, PartialEq, Eq, Structural)]
pub struct ButtonLook {
    /// The color of the label.
    pub text_color: Rgba8,
    /// The background color, if any.
    pub background: Option<Rgba8>,
    /// The radius of the rounded corners, in pixels.
    pub border_radius: u16,
}

/// The style of the application's background.
#[derive(Copy, Clone, Debug, PartialEq, Eq, Structural)]
pub struct AppBackgroundStyle;

impl AppBackgroundStyle {
    /// The look of the background: a near-black fill.
    pub fn style(&self) -> (r: ContainerStyle)
        ensures
            r == (ContainerStyle {
                text_color: None,
                background: Some(opaque(0x10, 0x10, 0x10)),
                border_width: 0,
                border_color: transparent(),
            }),
    {
        ContainerStyle {
            text_color: None,
            background: Some(rgb8(0x10, 0x10, 0x10)),
            border_width: 0,
            border_color: Rgba8 { r: 0, g: 0, b: 0, a: 0 },
        }
    }
}

/// The style of a pane, by whether it has the focus.
#[derive(Copy, Clone, Debug, PartialEq, Eq, Structural)]
pub enum PaneStyle {
    /// Not focused.
    Unfocused,
    /// Focused.
    Focused,
}

impl PaneStyle {
    /// The border color of the pane.
    pub open spec fn spec_border_color(self) -> Rgba8 {
        match self {
            PaneStyle::Unfocused => opaque(0x3c, 0x3f, 0x41),
            PaneStyle::Focused => opaque(0x4e, 0x52, 0x54),
        }
    }

    /// The look of the pane: a dark fill inside a one-pixel border whose color tells the focus.
    pub fn style(&self) -> (r: ContainerStyle)
        ensures
            r == (ContainerStyle {
                text_color: None,
                background: Some(opaque(0x31, 0x33, 0x35)),
                border_width: 1,
                border_color: self.spec_border_color(),
            }),
    {
        let border_color = match self {
            PaneStyle::Unfocused => rgb8(0x3c, 0x3f, 0x41),
            PaneStyle::Focused => rgb8(0x4e, 0x52, 0x54),
        };
        ContainerStyle {
            text_color: None,
            background: Some(rgb8(0x31, 0x33, 0x35)),
            border_width: 1,
            border_color,
        }
    }
}

/// The style of a pane's title bar, by whether the pane has the focus.
#[derive(Copy, Clone, Debug, PartialEq, Eq, Structural)]
pub enum PaneTitleBarStyle {
    /// Not focused.
    Unfocused,
    /// Focused.
    Focused,
}

impl PaneTitleBarStyle {
    /// The style of the pane the title bar belongs to.
    pub open spec fn spec_pane(self) -> PaneStyle {
        match self {
            PaneTitleBarStyle::Unfocused => PaneStyle::Unfocused,
            PaneTitleBarStyle::Focused => PaneStyle::Focused,
        }
    }

    /// The look of the title bar: light grey text on the border color of its pane.
    pub fn style(&self) -> (r: ContainerStyle)
        ensures
            r == (ContainerStyle {
                text_color: Some(opaque(0xb2, 0xb2, 0xb2)),
                background: Some(self.spec_pane().spec_border_color()),
                border_width: 0,
                border_color: transparent(),
            }),
    {
        let pane = match self {
            PaneTitleBarStyle::Unfocused => PaneStyle::Unfocused,
            PaneTitleBarStyle::Focused => PaneStyle::Focused,
        }.style();
        ContainerStyle {
            text_color: Some(rgb8(0xb2, 0xb2, 0xb2)),
            background: Some(pane.border_color),
            border_width: 0,
            border_color: Rgba8 { r: 0, g: 0, b: 0, a: 0 },
        }
    }
}

/// The style of a button, by its role.
#[derive(Copy, Clone, Debug, PartialEq, Eq, Structural)]
pub enum ButtonStyle {
    /// The main action.
    Primary,
    /// An action that destroys something.
    Destructive,
    /// A pane control.
    Control,
    /// Pinning a pane.
    Pin,
}

impl ButtonStyle {
    /// The look of the button at rest.
    pub open spec fn spec_active(self) -> ButtonLook {
        let (background, text_color) = match self {
            ButtonStyle::Primary => (Some(active_color()), white()),
            ButtonStyle::Destructive => (None, opaque(0xFF, 0x47, 0x47)),
            ButtonStyle::Control => (Some(pane_id_focused_color()), white()),
            ButtonStyle::Pin => (Some(active_color()), white()),
        };
        ButtonLook { text_color, background, border_radius: 5 }
    }

    /// The look of the button under the pointer: its look at rest with another background (for
    /// a destructive button, its label color at a fifth of full opacity).
    pub open spec fn spec_hovered(self) -> ButtonLook {
        let active = self.spec_active();
        let background = match self {
            ButtonStyle::Primary => Some(hovered_color()),
            ButtonStyle::Destructive => Some(Rgba8 { a: 51, ..active.text_color }),
            ButtonStyle::Control => Some(pane_id_focused_color()),
            ButtonStyle::Pin => Some(hovered_color()),
        };
        ButtonLook { background, ..active }
    }

    /// The look of the button at rest.
    pub fn active(&self) -> (r: ButtonLook)
        ensures
            r == self.spec_active(),
    {
        let (background, text_color) = match self {
            ButtonStyle::Primary => (Some(rgb8(0x72, 0x89, 0xDA)), rgb8(0xFF, 0xFF, 0xFF)),
            ButtonStyle::Destructive => (None, rgb8(0xFF, 0x47, 0x47)),
            ButtonStyle::Control => (Some(rgb8(0xFF, 0x47, 0x47)), rgb8(0xFF, 0xFF, 0xFF)),
            ButtonStyle::Pin => (Some(rgb8(0x72, 0x89, 0xDA)), rgb8(0xFF, 0xFF, 0xFF)),
        };
        ButtonLook { text_color, background, border_radius: 5 }
    }

    /// The look of the button under the pointer.
    pub fn hovered(&self) -> (r: ButtonLook)
        ensures
            r == self.spec_hovered(),
    {
        let active = self.active();
        let background = match self {
            ButtonStyle::Primary => Some(rgb8(0x67, 0x7B, 0xC4)),
            ButtonStyle::Destructive => Some(Rgba8 { a: 51, ..active.text_color }),
            ButtonStyle::Control => Some(rgb8(0xFF, 0x47, 0x47)),
            ButtonStyle::Pin => Some(rgb8(0x67, 0x7B, 0xC4)),
        };
        ButtonLook { background, ..active }
    }
}

/// The color of form labels.
pub fn form_label_color() -> (r: Rgba8)
    ensures
        r == opaque(0x80, 0x80, 0x80),
{
    rgb8(0x80, 0x80, 0x80)
}

} // verus!
