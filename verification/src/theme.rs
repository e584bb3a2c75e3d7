//! The look of the application: the theme mode, and for each widget style
//! which colour of the scheme each part takes and how thick and round its
//! border is.  The colours themselves (floating-point RGBA values) are
//! resolved per theme mode outside this library; here a colour is named by
//! its [`ColorRole`], and border widths are counted in tenths of a pixel.
use vstd::prelude::*;

verus! {

/// The colour scheme in use: dark (the default) or light.
#[derive(Debug, Clone, Copy, PartialEq, Eq, Structural)]
pub enum ThemeMode {
    Dark,
    Light,
}

impl Default for ThemeMode {
    fn default() -> (r: Self)
        ensures
            r == ThemeMode::Dark,
    {
        ThemeMode::Dark
    }
}

impl ThemeMode {
    /// The other mode: dark becomes light and light becomes dark.
    pub fn toggled(self) -> (r: ThemeMode)
        ensures
            r != self,
            self == ThemeMode::Dark ==> r == ThemeMode::Light,
            self == ThemeMode::Light ==> r == ThemeMode::Dark,
    {
        match self {
            ThemeMode::Dark => ThemeMode::Light,
            ThemeMode::Light => ThemeMode::Dark,
        }
    }
}

/// A colour of the scheme, or one of the few fixed colours the styles use.
#[derive(Debug, Clone, Copy, PartialEq, Eq, Structural)]
pub enum ColorRole {
    Accent,
    AccentHover,
    AccentDim,
    BgPrimary,
    BgSecondary,
    BgTertiary,
    BgHover,
    Surface,
    SurfaceHover,
    SurfaceActive,
    SurfaceElevated,
    TextPrimary,
    TextSecondary,
    TextDisabled,
    Green,
    Yellow,
    Red,
    Border,
    BorderLight,
    BorderFocus,
    FgOnAccent,
    /// Plain white.
    White,
    /// Fully transparent.
    Transparent,
    /// The light red of a hovered danger button.
    DangerHover,
    /// The dark red of a pressed danger button.
    DangerPressed,
    /// The translucent black of a card's shadow (fainter in light mode).
    CardShadow,
    /// The accent, translucent, behind selected text.
    AccentSelection,
    /// The background of an open drop-down menu.
    MenuBackground,
    /// The translucent accent behind the highlighted menu entry.
    MenuHighlight,
    /// The border of an open drop-down menu.
    MenuBorder,
}

/// A border: its colour, width in tenths of a pixel, and corner radius in pixels.
#[derive(Debug, Clone, Copy, PartialEq, Eq, Structural)]
pub struct BorderLook {
    pub color: ColorRole,
    pub width_tenths: u32,
    pub radius: u32,
}

/// A drop shadow: its colour, vertical offset and blur radius in pixels.
#[derive(Debug, Clone, Copy, PartialEq, Eq, Structural)]
pub struct ShadowLook {
    pub color: ColorRole,
    pub offset_y: u32,
    pub blur: u32,
}

/// The look of a container.
#[derive(Debug, Clone, Copy, PartialEq, Eq, Structural)]
pub struct ContainerLook {
    pub text: Option<ColorRole>,
    pub background: Option<ColorRole>,
    pub border: BorderLook,
    pub shadow: Option<ShadowLook>,
}

/// The look of a button.
#[derive(Debug, Clone, Copy, PartialEq, Eq, Structural)]
pub struct ButtonLook {
    pub background: ColorRole,
    pub border: BorderLook,
    pub text: ColorRole,
}

/// The look of a text input.
#[derive(Debug, Clone, Copy, PartialEq, Eq, Structural)]
pub struct InputLook {
    pub background: ColorRole,
    pub border: BorderLook,
    pub icon: ColorRole,
}

/// The look of a checkbox or toggle.
#[derive(Debug, Clone, Copy, PartialEq, Eq, Structural)]
pub struct CheckLook {
    pub background: ColorRole,
    pub icon: ColorRole,
    pub border: BorderLook,
    pub text: ColorRole,
}

/// The look of a closed drop-down list.
#[derive(Debug, Clone, Copy, PartialEq, Eq, Structural)]
pub struct PickListLook {
    pub text: ColorRole,
    pub placeholder: ColorRole,
    pub handle: ColorRole,
    pub background: ColorRole,
    pub border: BorderLook,
}

/// The look of an open drop-down menu.
#[derive(Debug, Clone, Copy, PartialEq, Eq, Structural)]
pub struct MenuLook {
    pub text: ColorRole,
    pub background: ColorRole,
    pub border: BorderLook,
    pub selected_text: ColorRole,
    pub selected_background: ColorRole,
}

/// A border of width 1 px.
pub open spec fn thin_border(color: ColorRole, radius: u32) -> BorderLook {
    BorderLook { color, width_tenths: 10, radius }
}

// ---------------------------------------------------------------------------
// Containers
// ---------------------------------------------------------------------------

/// A card: an elevated surface with a light border, rounded by 12 px, with a
/// soft shadow 2 px below it.
pub struct CardStyle {
    pub mode: ThemeMode,
}

/// The look of a card.
pub open spec fn card_look() -> ContainerLook {
    ContainerLook {
        text: Some(ColorRole::TextPrimary),
        background: Some(ColorRole::SurfaceElevated),
        border: thin_border(ColorRole::BorderLight, 12),
        shadow: Some(ShadowLook { color: ColorRole::CardShadow, offset_y: 2, blur: 8 }),
    }
}

impl CardStyle {
    pub fn appearance(&self) -> (r: ContainerLook)
        ensures
            r == card_look(),
    {
        ContainerLook {
            text: Some(ColorRole::TextPrimary),
            background: Some(ColorRole::SurfaceElevated),
            border: BorderLook { color: ColorRole::BorderLight, width_tenths: 10, radius: 12 },
            shadow: Some(ShadowLook { color: ColorRole::CardShadow, offset_y: 2, blur: 8 }),
        }
    }
}

/// A panel: a plain surface with a border, rounded by 8 px, without shadow.
pub struct PanelStyle {
    pub mode: ThemeMode,
}

/// The look of a panel.
pub open spec fn panel_look() -> ContainerLook {
    ContainerLook {
        text: Some(ColorRole::TextPrimary),
        background: Some(ColorRole::Surface),
        border: thin_border(ColorRole::Border, 8),
        shadow: None,
    }
}

impl PanelStyle {
    pub fn appearance(&self) -> (r: ContainerLook)
        ensures
            r == panel_look(),
    {
        ContainerLook {
            text: Some(ColorRole::TextPrimary),
            background: Some(ColorRole::Surface),
            border: BorderLook { color: ColorRole::Border, width_tenths: 10, radius: 8 },
            shadow: None,
        }
    }
}

// ---------------------------------------------------------------------------
// Buttons
// ---------------------------------------------------------------------------

/// The main action button (Connect): accent background, no visible border.
pub struct PrimaryButtonStyle {
    pub mode: ThemeMode,
}

/// The primary button at rest.
pub open spec fn primary_active() -> ButtonLook {
    ButtonLook {
        background: ColorRole::Accent,
        border: BorderLook { color: ColorRole::Transparent, width_tenths: 0, radius: 8 },
        text: ColorRole::FgOnAccent,
    }
}

/// The disabled look shared by the primary and secondary buttons: their
/// resting look on the tertiary background, with disabled text.
pub open spec fn dimmed(b: ButtonLook) -> ButtonLook {
    ButtonLook { background: ColorRole::BgTertiary, text: ColorRole::TextDisabled, ..b }
}

impl PrimaryButtonStyle {
    pub fn active(&self) -> (r: ButtonLook)
        ensures
            r == primary_active(),
    {
        ButtonLook {
            background: ColorRole::Accent,
            border: BorderLook { color: ColorRole::Transparent, width_tenths: 0, radius: 8 },
            text: ColorRole::FgOnAccent,
        }
    }

    /// At rest, but on the brighter accent.
    pub fn hovered(&self) -> (r: ButtonLook)
        ensures
            r == (ButtonLook { background: ColorRole::AccentHover, ..primary_active() }),
    {
        let mut a = self.active();
        a.background = ColorRole::AccentHover;
        a
    }

    /// At rest, but on the dimmer accent.
    pub fn pressed(&self) -> (r: ButtonLook)
        ensures
            r == (ButtonLook { background: ColorRole::AccentDim, ..primary_active() }),
    {
        let mut a = self.active();
        a.background = ColorRole::AccentDim;
        a
    }

    pub fn disabled(&self) -> (r: ButtonLook)
        ensures
            r == dimmed(primary_active()),
    {
        let mut a = self.active();
        a.background = ColorRole::BgTertiary;
        a.text = ColorRole::TextDisabled;
        a
    }
}

/// A secondary button: a bordered surface.
pub struct SecondaryButtonStyle {
    pub mode: ThemeMode,
}

/// The secondary button at rest.
pub open spec fn secondary_active() -> ButtonLook {
    ButtonLook {
        background: ColorRole::Surface,
        border: thin_border(ColorRole::Border, 8),
        text: ColorRole::TextPrimary,
    }
}

impl SecondaryButtonStyle {
    pub fn active(&self) -> (r: ButtonLook)
        ensures
            r == secondary_active(),
    {
        ButtonLook {
            background: ColorRole::Surface,
            border: BorderLook { color: ColorRole::Border, width_tenths: 10, radius: 8 },
            text: ColorRole::TextPrimary,
        }
    }

    /// At rest, but on the hover surface with an accent border.
    pub fn hovered(&self) -> (r: ButtonLook)
        ensures
            r == (ButtonLook {
                background: ColorRole::SurfaceHover,
                border: BorderLook { color: ColorRole::Accent, ..secondary_active().border },
                ..secondary_active()
            }),
    {
        let mut a = self.active();
        a.background = ColorRole::SurfaceHover;
        a.border.color = ColorRole::Accent;
        a
    }

    /// At rest, but on the active surface.
    pub fn pressed(&self) -> (r: ButtonLook)
        ensures
            r == (ButtonLook { background: ColorRole::SurfaceActive, ..secondary_active() }),
    {
        let mut a = self.active();
        a.background = ColorRole::SurfaceActive;
        a
    }

    pub fn disabled(&self) -> (r: ButtonLook)
        ensures
            r == dimmed(secondary_active()),
    {
        let mut a = self.active();
        a.background = ColorRole::BgTertiary;
        a.text = ColorRole::TextDisabled;
        a
    }
}

/// The button that stops the stream (Disconnect): red, white text.
pub struct DangerButtonStyle {
    pub mode: ThemeMode,
}

/// A red button of the given shade, bordered in the same shade.
pub open spec fn danger_look(shade: ColorRole) -> ButtonLook {
    ButtonLook { background: shade, border: thin_border(shade, 8), text: ColorRole::White }
}

impl DangerButtonStyle {
    pub fn active(&self) -> (r: ButtonLook)
        ensures
            r == danger_look(ColorRole::Red),
    {
        ButtonLook {
            background: ColorRole::Red,
            border: BorderLook { color: ColorRole::Red, width_tenths: 10, radius: 8 },
            text: ColorRole::White,
        }
    }

    pub fn hovered(&self) -> (r: ButtonLook)
        ensures
            r == danger_look(ColorRole::DangerHover),
    {
        ButtonLook {
            background: ColorRole::DangerHover,
            border: BorderLook { color: ColorRole::DangerHover, width_tenths: 10, radius: 8 },
            text: ColorRole::White,
        }
    }

    pub fn pressed(&self) -> (r: ButtonLook)
        ensures
            r == danger_look(ColorRole::DangerPressed),
    {
        ButtonLook {
            background: ColorRole::DangerPressed,
            border: BorderLook { color: ColorRole::DangerPressed, width_tenths: 10, radius: 8 },
            text: ColorRole::White,
        }
    }

    /// Like a disabled secondary button.
    pub fn disabled(&self) -> (r: ButtonLook)
        ensures
            r == dimmed(secondary_active()),
    {
        ButtonLook {
            background: ColorRole::BgTertiary,
            border: BorderLook { color: ColorRole::Border, width_tenths: 10, radius: 8 },
            text: ColorRole::TextDisabled,
        }
    }
}

// ---------------------------------------------------------------------------
// Text inputs
// ---------------------------------------------------------------------------

/// A text input; `error` marks a field whose value does not pass its check.
pub struct InputStyle {
    pub mode: ThemeMode,
    pub error: bool,
}

/// A text input at rest: a red border 1.5 px wide on error, else the plain
/// 1 px border.
pub open spec fn input_active(error: bool) -> InputLook {
    InputLook {
        background: ColorRole::BgSecondary,
        border: BorderLook {
            color: if error {
                ColorRole::Red
            } else {
                ColorRole::Border
            },
            width_tenths: if error {
                15
            } else {
                10
            },
            radius: 8,
        },
        icon: ColorRole::TextSecondary,
    }
}

impl InputStyle {
    pub fn active(&self) -> (r: InputLook)
        ensures
            r == input_active(self.error),
    {
        InputLook {
            background: ColorRole::BgSecondary,
            border: BorderLook {
                color: if self.error {
                    ColorRole::Red
                } else {
                    ColorRole::Border
                },
                width_tenths: if self.error {
                    15
                } else {
                    10
                },
                radius: 8,
            },
            icon: ColorRole::TextSecondary,
        }
    }

    /// With focus: a 2 px border, red on error and the focus colour
    /// otherwise, and an icon in red or the accent.
    pub fn focused(&self) -> (r: InputLook)
        ensures
            r == (InputLook {
                background: ColorRole::BgSecondary,
                border: BorderLook {
                    color: if self.error {
                        ColorRole::Red
                    } else {
                        ColorRole::BorderFocus
                    },
                    width_tenths: 20,
                    radius: 8,
                },
                icon: if self.error {
                    ColorRole::Red
                } else {
                    ColorRole::Accent
                },
            }),
    {
        InputLook {
            background: ColorRole::BgSecondary,
            border: BorderLook {
                color: if self.error {
                    ColorRole::Red
                } else {
                    ColorRole::BorderFocus
                },
                width_tenths: 20,
                radius: 8,
            },
            icon: if self.error {
                ColorRole::Red
            } else {
                ColorRole::Accent
            },
        }
    }

    pub fn placeholder_color(&self) -> (r: ColorRole)
        ensures
            r == ColorRole::TextDisabled,
    {
        ColorRole::TextDisabled
    }

    pub fn value_color(&self) -> (r: ColorRole)
        ensures
            r == ColorRole::TextPrimary,
    {
        ColorRole::TextPrimary
    }

    pub fn selection_color(&self) -> (r: ColorRole)
        ensures
            r == ColorRole::AccentSelection,
    {
        ColorRole::AccentSelection
    }

    /// At rest, but on the tertiary background.
    pub fn disabled(&self) -> (r: InputLook)
        ensures
            r == (InputLook { background: ColorRole::BgTertiary, ..input_active(self.error) }),
    {
        let mut a = self.active();
        a.background = ColorRole::BgTertiary;
        a
    }

    pub fn disabled_color(&self) -> (r: ColorRole)
        ensures
            r == ColorRole::TextDisabled,
    {
        ColorRole::TextDisabled
    }
}

// ---------------------------------------------------------------------------
// Checkboxes and toggles
// ---------------------------------------------------------------------------

/// A square checkbox.
pub struct CheckStyle {
    pub mode: ThemeMode,
}

/// A checkbox or toggle at rest: the accent when checked, the tertiary
/// background otherwise; the mark in `unchecked_icon` when unchecked.
pub open spec fn check_active(checked: bool, unchecked_icon: ColorRole, radius: u32) -> CheckLook {
    CheckLook {
        background: if checked {
            ColorRole::Accent
        } else {
            ColorRole::BgTertiary
        },
        icon: if checked {
            ColorRole::FgOnAccent
        } else {
            unchecked_icon
        },
        border: BorderLook { color: ColorRole::Transparent, width_tenths: 0, radius },
        text: ColorRole::TextPrimary,
    }
}

/// The hovered look: at rest, but on the brighter accent or the hover background.
pub open spec fn check_hovered(rest: CheckLook, checked: bool) -> CheckLook {
    CheckLook {
        background: if checked {
            ColorRole::AccentHover
        } else {
            ColorRole::BgHover
        },
        ..rest
    }
}

impl CheckStyle {
    pub fn active(&self, is_checked: bool) -> (r: CheckLook)
        ensures
            r == check_active(is_checked, ColorRole::Transparent, 4),
    {
        CheckLook {
            background: if is_checked {
                ColorRole::Accent
            } else {
                ColorRole::BgTertiary
            },
            icon: if is_checked {
                ColorRole::FgOnAccent
            } else {
                ColorRole::Transparent
            },
            border: BorderLook { color: ColorRole::Transparent, width_tenths: 0, radius: 4 },
            text: ColorRole::TextPrimary,
        }
    }

    pub fn hovered(&self, is_checked: bool) -> (r: CheckLook)
        ensures
            r == check_hovered(check_active(is_checked, ColorRole::Transparent, 4), is_checked),
    {
        let mut a = self.active(is_checked);
        a.background = if is_checked {
            ColorRole::AccentHover
        } else {
            ColorRole::BgHover
        };
        a
    }
}

/// A round toggle switch.
pub struct ToggleStyle {
    pub mode: ThemeMode,
}

impl ToggleStyle {
    pub fn active(&self, is_checked: bool) -> (r: CheckLook)
        ensures
            r == check_active(is_checked, ColorRole::White, 12),
    {
        CheckLook {
            background: if is_checked {
                ColorRole::Accent
            } else {
                ColorRole::BgTertiary
            },
            icon: if is_checked {
                ColorRole::FgOnAccent
            } else {
                ColorRole::White
            },
            border: BorderLook { color: ColorRole::Transparent, width_tenths: 0, radius: 12 },
            text: ColorRole::TextPrimary,
        }
    }

    pub fn hovered(&self, is_checked: bool) -> (r: CheckLook)
        ensures
            r == check_hovered(check_active(is_checked, ColorRole::White, 12), is_checked),
    {
        let mut a = self.active(is_checked);
        a.background = if is_checked {
            ColorRole::AccentHover
        } else {
            ColorRole::BgHover
        };
        a
    }
}

// ---------------------------------------------------------------------------
// Drop-down lists
// ---------------------------------------------------------------------------

/// A drop-down list.
pub struct PickListStyle {
    pub mode: ThemeMode,
}

/// A drop-down list at rest.
pub open spec fn pick_list_active() -> PickListLook {
    PickListLook {
        text: ColorRole::TextPrimary,
        placeholder: ColorRole::TextDisabled,
        handle: ColorRole::TextSecondary,
        background: ColorRole::BgSecondary,
        border: thin_border(ColorRole::Border, 8),
    }
}

impl PickListStyle {
    pub fn active(&self) -> (r: PickListLook)
        ensures
            r == pick_list_active(),
    {
        PickListLook {
            text: ColorRole::TextPrimary,
            placeholder: ColorRole::TextDisabled,
            handle: ColorRole::TextSecondary,
            background: ColorRole::BgSecondary,
            border: BorderLook { color: ColorRole::Border, width_tenths: 10, radius: 8 },
        }
    }

    /// At rest, but with an accent handle and a 2 px focus border.
    pub fn hovered(&self) -> (r: PickListLook)
        ensures
            r == (PickListLook {
                handle: ColorRole::Accent,
                border: BorderLook { color: ColorRole::BorderFocus, width_tenths: 20, radius: 8 },
                ..pick_list_active()
            }),
    {
        PickListLook {
            text: ColorRole::TextPrimary,
            placeholder: ColorRole::TextDisabled,
            handle: ColorRole::Accent,
            background: ColorRole::BgSecondary,
            border: BorderLook { color: ColorRole::BorderFocus, width_tenths: 20, radius: 8 },
        }
    }
}

/// The menu of an open drop-down list.
pub struct MenuStyle {
    pub mode: ThemeMode,
}

/// The look of an open menu.
pub open spec fn menu_look() -> MenuLook {
    MenuLook {
        text: ColorRole::TextPrimary,
        background: ColorRole::MenuBackground,
        border: thin_border(ColorRole::MenuBorder, 6),
        selected_text: ColorRole::TextPrimary,
        selected_background: ColorRole::MenuHighlight,
    }
}

impl MenuStyle {
    pub fn appearance(&self) -> (r: MenuLook)
        ensures
            r == menu_look(),
    {
        MenuLook {
            text: ColorRole::TextPrimary,
            background: ColorRole::MenuBackground,
            border: BorderLook { color: ColorRole::MenuBorder, width_tenths: 10, radius: 6 },
            selected_text: ColorRole::TextPrimary,
            selected_background: ColorRole::MenuHighlight,
        }
    }
}

} // verus!
