use vstd::prelude::*;

verus! {

/// A colour as red, green and blue intensities.
#[derive(Clone, Copy, Debug, PartialEq, Eq, Structural)]
pub struct Rgb {
    pub r: u8,
    pub g: u8,
    pub b: u8,
}

/// The colour with all three intensities at `v`.
pub open spec fn gray(v: u8) -> Rgb {
    Rgb { r: v, g: v, b: v }
}

/// Whether a colour is black.
pub open spec fn is_black(c: Rgb) -> bool {
    c.r == 0 && c.g == 0 && c.b == 0
}

impl Rgb {
    pub fn new(r: u8, g: u8, b: u8) -> (c: Self)
        ensures
            c == (Rgb { r, g, b }),
    {
        Rgb { r, g, b }
    }
}

/// Which of the system's accent colours marks the focused slot.
#[derive(Clone, Copy, Debug, PartialEq, Eq, Structural)]
pub enum AccentShade {
    /// The darker accent, on a light theme.
    Dark1,
    /// The lighter accent, on a dark theme.
    Light2,
}

/// The palette of the display.
#[derive(Clone, Copy, Debug, PartialEq, Eq, Structural)]
pub struct ColorSettings {
    pub nonempty: Rgb,
    pub focused: Rgb,
    pub empty: Rgb,
    pub monocle: Rgb,
    pub foreground: Rgb,
}

/// The palette built from the system's text colour and the accent chosen for
/// it: a black system text colour means a light theme.
pub open spec fn palette(system_foreground: Rgb, accent: Rgb) -> ColorSettings {
    let light = is_black(system_foreground);
    ColorSettings {
        nonempty: if light { gray(150) } else { gray(100) },
        focused: accent,
        empty: if light { gray(200) } else { gray(50) },
        monocle: Rgb { r: 225, g: 21, b: 123 },
        foreground: if light { gray(0) } else { gray(255) },
    }
}

impl ColorSettings {
    /// Whether the palette is for a light theme, which has black text.
    pub fn is_light_mode(&self) -> (r: bool)
        ensures
            r == is_black(self.foreground),
    {
        self.foreground.r == 0 && self.foreground.g == 0 && self.foreground.b == 0
    }

    /// The colour that the window treats as transparent: white on a light
    /// theme, black on a dark one.
    pub fn get_color_key(&self) -> (r: Rgb)
        ensures
            r == (if is_black(self.foreground) { gray(255) } else { gray(0) }),
    {
        if self.is_light_mode() {
            Rgb::new(255, 255, 255)
        } else {
            Rgb::new(0, 0, 0)
        }
    }

    /// Which accent colour to read for a given system text colour.
    pub fn accent_shade(system_foreground: Rgb) -> (r: AccentShade)
        ensures
            r == (if is_black(system_foreground) { AccentShade::Dark1 } else { AccentShade::Light2 }),
    {
        if system_foreground.r == 0 && system_foreground.g == 0 && system_foreground.b == 0 {
            AccentShade::Dark1
        } else {
            AccentShade::Light2
        }
    }

    /// Builds the palette from the system's text colour and the accent
    /// colour of the shade that `accent_shade` chose.
    pub fn from_system_colors(system_foreground: Rgb, accent: Rgb) -> (r: Self)
        ensures
            r == palette(system_foreground, accent),
    {
        let light = system_foreground.r == 0 && system_foreground.g == 0 && system_foreground.b
            == 0;
        ColorSettings {
            nonempty: if light {
                Rgb::new(150, 150, 150)
            } else {
                Rgb::new(100, 100, 100)
            },
            focused: accent,
            empty: if light {
                Rgb::new(200, 200, 200)
            } else {
                Rgb::new(50, 50, 50)
            },
            monocle: Rgb::new(225, 21, 123),
            foreground: if light {
                Rgb::new(0, 0, 0)
            } else {
                Rgb::new(255, 255, 255)
            },
        }
    }
}

} // verus!
