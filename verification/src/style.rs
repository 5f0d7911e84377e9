//! Look-and-feel decisions: the text-style table, the text colour per theme,
//! and how the custom font is ranked in the host's font families.

use vstd::prelude::*;

verus! {

/// The text roles the style table assigns a font to.
#[derive(Clone, Copy, Debug, PartialEq, Eq, Structural)]
pub enum TextStyle {
    Heading,
    Body,
    Monospace,
    Button,
    Small,
}

/// The two font families the host distinguishes.
#[derive(Clone, Copy, Debug, PartialEq, Eq, Structural)]
pub enum FontFamily {
    Proportional,
    Monospace,
}

/// A font choice: a size in tenths of a unit, and a family.
#[derive(Clone, Copy, Debug, PartialEq, Eq, Structural)]
pub struct FontSpec {
    pub size: u32,
    pub family: FontFamily,
}

/// The colour themes the host can be in.
#[derive(Clone, Copy, Debug, PartialEq, Eq, Structural)]
pub enum Theme {
    Dark,
    Light,
}

/// An RGB colour, one byte per channel.
#[derive(Clone, Copy, Debug, PartialEq, Eq, Structural)]
pub struct Rgb {
    pub r: u8,
    pub g: u8,
    pub b: u8,
}

/// The visual settings this application overrides on the host.
#[derive(Clone, Debug, PartialEq, Eq)]
pub struct Visuals {
    pub override_text_color: Option<Rgb>,
}

/// The text colour that suits a theme: white on dark, black on light.
pub open spec fn spec_text_color(theme: Theme) -> Rgb {
    match theme {
        Theme::Dark => Rgb { r: 255, g: 255, b: 255 },
        Theme::Light => Rgb { r: 0, g: 0, b: 0 },
    }
}

/// The text colour that suits a theme.
pub fn text_color(theme: Theme) -> (c: Rgb)
    ensures
        c == spec_text_color(theme),
{
    match theme {
        Theme::Dark => Rgb { r: 255, g: 255, b: 255 },
        Theme::Light => Rgb { r: 0, g: 0, b: 0 },
    }
}

/// Override the text colour to the one that suits the theme.
pub fn set_font_color(visuals: &mut Visuals, theme: Theme)
    ensures
        final(visuals).override_text_color == Some(spec_text_color(theme)),
{
    visuals.override_text_color = Some(text_color(theme));
}

/// The sizes this application assigns to the text roles, replacing the
/// host's table wholesale.
pub open spec fn spec_text_styles() -> Seq<(TextStyle, FontSpec)> {
    seq![
        (TextStyle::Heading, FontSpec { size: 240, family: FontFamily::Proportional }),
        (TextStyle::Body, FontSpec { size: 160, family: FontFamily::Proportional }),
        (TextStyle::Monospace, FontSpec { size: 160, family: FontFamily::Monospace }),
        (TextStyle::Button, FontSpec { size: 160, family: FontFamily::Proportional }),
        (TextStyle::Small, FontSpec { size: 120, family: FontFamily::Proportional }),
    ]
}

/// The style table to install: every text role, each with its size and
/// family.
pub fn set_style() -> (styles: Vec<(TextStyle, FontSpec)>)
    ensures
        styles@ == spec_text_styles(),
{
    let mut styles: Vec<(TextStyle, FontSpec)> = Vec::new();
    styles.push((TextStyle::Heading, FontSpec { size: 240, family: FontFamily::Proportional }));
    styles.push((TextStyle::Body, FontSpec { size: 160, family: FontFamily::Proportional }));
    styles.push((TextStyle::Monospace, FontSpec { size: 160, family: FontFamily::Monospace }));
    styles.push((TextStyle::Button, FontSpec { size: 160, family: FontFamily::Proportional }));
    styles.push((TextStyle::Small, FontSpec { size: 120, family: FontFamily::Proportional }));
    proof {
        assert(styles@ =~= spec_text_styles());
    }
    styles
}

/// The name under which the bundled font is registered.
pub open spec fn custom_font_name() -> Seq<char> {
    "my_font"@
}

/// The host's font registry as this application sees it: for each family,
/// the registered font names from highest to lowest priority.
pub struct FontRegistry {
    pub proportional: Vec<String>,
    pub monospace: Vec<String>,
}

/// Rank the bundled font in the registry: first-priority proportional face,
/// last-resort monospace fallback. Everything already registered keeps its
/// relative order. Run once before the first frame.
pub fn load_fonts(reg: &mut FontRegistry)
    ensures
        final(reg).proportional@.len() == old(reg).proportional@.len() + 1,
        final(reg).proportional@[0]@ == custom_font_name(),
        forall|i: int|
            1 <= i < final(reg).proportional@.len() ==> final(reg).proportional@[i] == old(
                reg,
            ).proportional@[i - 1],
        final(reg).monospace@.len() == old(reg).monospace@.len() + 1,
        final(reg).monospace@[final(reg).monospace@.len() - 1]@ == custom_font_name(),
        forall|i: int|
            0 <= i < old(reg).monospace@.len() ==> final(reg).monospace@[i] == old(
                reg,
            ).monospace@[i],
{
    let name = String::from_str("my_font");
    reg.monospace.push(name.clone());
    reg.proportional.insert(0, name);
}

} // verus!
