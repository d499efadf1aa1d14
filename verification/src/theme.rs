//! The two palettes and the choice between them.
use vstd::prelude::*;

use crate::color::{has_code, opaque, rgb, rgba, rgba8, Alpha, Color};
use crate::text::{is_padded, is_white_space, lemma_trimmed_core, lemma_trimmed_parts, trimmed};

verus! {

/// Which palette the bar uses.
#[derive(Copy, Clone, PartialEq, Eq, Structural, Debug)]
pub enum ThemeMode {
    Dark,
    Light,
}

/// The colours of the bar.
#[derive(Copy, Clone, PartialEq, Eq, Structural, Debug)]
pub struct Theme {
    pub bar_bg: Color,
    pub fg: Color,
    pub subtle: Color,
    pub tag_inactive_bg: Color,
    pub tag_inactive_text: Color,
    pub tag_active_text: Color,
    pub urgent_bg: Color,
    pub urgent_border: Color,
    pub green: Color,
    pub yellow: Color,
    pub orange: Color,
    pub red: Color,
    pub teal: Color,
    pub blue: Color,
    pub mauve: Color,
    pub pink: Color,
}

/// Catppuccin Mocha, the dark palette.
pub open spec fn mocha_palette() -> Theme {
    Theme {
        bar_bg: rgba(0x1E, 0x20, 0x32, 128),
        fg: opaque(0xCD, 0xD6, 0xF4),
        subtle: opaque(0x9C, 0xA0, 0xB0),
        tag_inactive_bg: rgba(0x45, 0x47, 0x5A, 217),
        tag_inactive_text: opaque(0xCD, 0xD6, 0xF4),
        tag_active_text: opaque(255, 255, 255),
        urgent_bg: opaque(0xDB, 0x36, 0x45),
        urgent_border: opaque(0xBC, 0x21, 0x30),
        green: opaque(0xA6, 0xE3, 0xA1),
        yellow: opaque(0xF9, 0xE2, 0xAF),
        orange: opaque(0xFA, 0xB3, 0x87),
        red: opaque(0xF3, 0x8B, 0xA8),
        teal: opaque(0x94, 0xE2, 0xD5),
        blue: opaque(0x89, 0xB4, 0xFA),
        mauve: opaque(0xCB, 0xA6, 0xF7),
        pink: opaque(0xF5, 0xC2, 0xE7),
    }
}

/// Catppuccin Latte, the light palette.
pub open spec fn latte_palette() -> Theme {
    Theme {
        bar_bg: rgba(0xEF, 0xF1, 0xF5, 160),
        fg: opaque(0x4C, 0x4F, 0x69),
        subtle: opaque(0x6C, 0x6F, 0x85),
        tag_inactive_bg: rgba(0xCC, 0xD0, 0xDA, 217),
        tag_inactive_text: opaque(0x4C, 0x4F, 0x69),
        tag_active_text: opaque(255, 255, 255),
        urgent_bg: opaque(0xD2, 0x0F, 0x39),
        urgent_border: opaque(0xA8, 0x0B, 0x2E),
        green: opaque(0x40, 0xA0, 0x2B),
        yellow: opaque(0xDF, 0x8E, 0x1D),
        orange: opaque(0xFE, 0x64, 0x0B),
        red: opaque(0xD2, 0x0F, 0x39),
        teal: opaque(0x17, 0x92, 0x99),
        blue: opaque(0x1E, 0x66, 0xF5),
        mauve: opaque(0x88, 0x39, 0xEF),
        pink: opaque(0xEA, 0x76, 0xCB),
    }
}

/// The palette of a mode.
pub open spec fn palette(mode: ThemeMode) -> Theme {
    match mode {
        ThemeMode::Dark => mocha_palette(),
        ThemeMode::Light => latte_palette(),
    }
}

impl Theme {
    /// Catppuccin Mocha, the dark palette.
    pub fn mocha() -> (theme: Theme)
        ensures
            theme == mocha_palette(),
    {
        Theme {
            bar_bg: rgba8(0x1E, 0x20, 0x32, 128),
            fg: rgb(0xCD, 0xD6, 0xF4),
            subtle: rgb(0x9C, 0xA0, 0xB0),
            tag_inactive_bg: rgba8(0x45, 0x47, 0x5A, 217),
            tag_inactive_text: rgb(0xCD, 0xD6, 0xF4),
            tag_active_text: rgb(255, 255, 255),
            urgent_bg: rgb(0xDB, 0x36, 0x45),
            urgent_border: rgb(0xBC, 0x21, 0x30),
            green: rgb(0xA6, 0xE3, 0xA1),
            yellow: rgb(0xF9, 0xE2, 0xAF),
            orange: rgb(0xFA, 0xB3, 0x87),
            red: rgb(0xF3, 0x8B, 0xA8),
            teal: rgb(0x94, 0xE2, 0xD5),
            blue: rgb(0x89, 0xB4, 0xFA),
            mauve: rgb(0xCB, 0xA6, 0xF7),
            pink: rgb(0xF5, 0xC2, 0xE7),
        }
    }

    /// Catppuccin Latte, the light palette.
    pub fn latte() -> (theme: Theme)
        ensures
            theme == latte_palette(),
    {
        Theme {
            bar_bg: rgba8(0xEF, 0xF1, 0xF5, 160),
            fg: rgb(0x4C, 0x4F, 0x69),
            subtle: rgb(0x6C, 0x6F, 0x85),
            tag_inactive_bg: rgba8(0xCC, 0xD0, 0xDA, 217),
            tag_inactive_text: rgb(0x4C, 0x4F, 0x69),
            tag_active_text: rgb(255, 255, 255),
            urgent_bg: rgb(0xD2, 0x0F, 0x39),
            urgent_border: rgb(0xA8, 0x0B, 0x2E),
            green: rgb(0x40, 0xA0, 0x2B),
            yellow: rgb(0xDF, 0x8E, 0x1D),
            orange: rgb(0xFE, 0x64, 0x0B),
            red: rgb(0xD2, 0x0F, 0x39),
            teal: rgb(0x17, 0x92, 0x99),
            blue: rgb(0x1E, 0x66, 0xF5),
            mauve: rgb(0x88, 0x39, 0xEF),
            pink: rgb(0xEA, 0x76, 0xCB),
        }
    }

    /// The palette of a mode.
    pub fn from_mode(mode: ThemeMode) -> (theme: Theme)
        ensures
            theme == palette(mode),
    {
        match mode {
            ThemeMode::Dark => Theme::mocha(),
            ThemeMode::Light => Theme::latte(),
        }
    }
}

/// The mode that a press of the theme button leads to.
pub open spec fn other_mode(mode: ThemeMode) -> ThemeMode {
    match mode {
        ThemeMode::Dark => ThemeMode::Light,
        ThemeMode::Light => ThemeMode::Dark,
    }
}

/// The theme file, seen from the home directory.
pub const THEME_FILE: &'static str = ".config/xilem_bar/theme";

/// What the theme file holds for a mode.
pub open spec fn stored_mode(mode: ThemeMode) -> Seq<char> {
    match mode {
        ThemeMode::Dark => "dark"@,
        ThemeMode::Light => "light"@,
    }
}

/// The mode that the content of the theme file calls for: light for the word `light`, white
/// space around it aside, and dark for everything else.
pub open spec fn loaded_mode(content: Seq<char>) -> ThemeMode {
    if trimmed(content) == "light"@ {
        ThemeMode::Light
    } else {
        ThemeMode::Dark
    }
}

/// The mode to start with, from the content of the theme file where it could be read.
pub fn load_theme_mode(content: Option<&str>) -> (mode: ThemeMode)
    ensures
        content matches Some(text) ==> mode == loaded_mode(text@),
        content is None ==> mode == ThemeMode::Dark,
{
    match content {
        Some(text) => {
            if text.trim().to_owned() == "light".to_owned() {
                ThemeMode::Light
            } else {
                ThemeMode::Dark
            }
        },
        None => ThemeMode::Dark,
    }
}

/// What to write to the theme file so that the mode comes back at the next start.
pub fn theme_mode_text(mode: ThemeMode) -> (text: &'static str)
    ensures
        text@ == stored_mode(mode),
{
    match mode {
        ThemeMode::Dark => "dark",
        ThemeMode::Light => "light",
    }
}

/// A mode that was written to the theme file is loaded from it again, also where white space
/// was added before or after it.
pub proof fn law_stored_mode_is_loaded(mode: ThemeMode, before: Seq<char>, after: Seq<char>)
    requires
        forall|i: int| 0 <= i < before.len() ==> is_white_space(#[trigger] before[i]),
        forall|i: int| 0 <= i < after.len() ==> is_white_space(#[trigger] after[i]),
    ensures
        loaded_mode(before + stored_mode(mode) + after) == mode,
{
    reveal_strlit("dark");
    reveal_strlit("light");
    lemma_trimmed_core(before, stored_mode(mode), after);
    assert("dark"@.len() != "light"@.len());
}

/// The other mode of the other mode is the mode itself, and the two differ.
pub proof fn law_other_mode_is_an_involution(mode: ThemeMode)
    ensures
        other_mode(other_mode(mode)) == mode,
        other_mode(mode) != mode,
        palette(other_mode(mode)) != palette(mode),
{
}

/// The channels of the colours of each palette, and how opaque they are: all of them wholly, but
/// for the background of the bar and of a tag that is not active.
pub proof fn law_palettes_have_their_colors(mode: ThemeMode)
    ensures
        has_code(
            palette(mode).bar_bg,
            if mode == ThemeMode::Dark {
                0x1E2032
            } else {
                0xEFF1F5
            },
        ),
        palette(mode).bar_bg.alpha == if mode == ThemeMode::Dark {
            Alpha::Byte(128)
        } else {
            Alpha::Byte(160)
        },
        has_code(
            palette(mode).fg,
            if mode == ThemeMode::Dark {
                0xCDD6F4
            } else {
                0x4C4F69
            },
        ),
        palette(mode).fg.alpha == Alpha::Byte(255),
        has_code(
            palette(mode).subtle,
            if mode == ThemeMode::Dark {
                0x9CA0B0
            } else {
                0x6C6F85
            },
        ),
        palette(mode).subtle.alpha == Alpha::Byte(255),
        has_code(
            palette(mode).tag_inactive_bg,
            if mode == ThemeMode::Dark {
                0x45475A
            } else {
                0xCCD0DA
            },
        ),
        palette(mode).tag_inactive_bg.alpha == Alpha::Byte(217),
        has_code(
            palette(mode).tag_inactive_text,
            if mode == ThemeMode::Dark {
                0xCDD6F4
            } else {
                0x4C4F69
            },
        ),
        palette(mode).tag_inactive_text.alpha == Alpha::Byte(255),
        has_code(
            palette(mode).tag_active_text,
            if mode == ThemeMode::Dark {
                0xFFFFFF
            } else {
                0xFFFFFF
            },
        ),
        palette(mode).tag_active_text.alpha == Alpha::Byte(255),
        has_code(
            palette(mode).urgent_bg,
            if mode == ThemeMode::Dark {
                0xDB3645
            } else {
                0xD20F39
            },
        ),
        palette(mode).urgent_bg.alpha == Alpha::Byte(255),
        has_code(
            palette(mode).urgent_border,
            if mode == ThemeMode::Dark {
                0xBC2130
            } else {
                0xA80B2E
            },
        ),
        palette(mode).urgent_border.alpha == Alpha::Byte(255),
        has_code(
            palette(mode).green,
            if mode == ThemeMode::Dark {
                0xA6E3A1
            } else {
                0x40A02B
            },
        ),
        palette(mode).green.alpha == Alpha::Byte(255),
        has_code(
            palette(mode).yellow,
            if mode == ThemeMode::Dark {
                0xF9E2AF
            } else {
                0xDF8E1D
            },
        ),
        palette(mode).yellow.alpha == Alpha::Byte(255),
        has_code(
            palette(mode).orange,
            if mode == ThemeMode::Dark {
                0xFAB387
            } else {
                0xFE640B
            },
        ),
        palette(mode).orange.alpha == Alpha::Byte(255),
        has_code(
            palette(mode).red,
            if mode == ThemeMode::Dark {
                0xF38BA8
            } else {
                0xD20F39
            },
        ),
        palette(mode).red.alpha == Alpha::Byte(255),
        has_code(
            palette(mode).teal,
            if mode == ThemeMode::Dark {
                0x94E2D5
            } else {
                0x179299
            },
        ),
        palette(mode).teal.alpha == Alpha::Byte(255),
        has_code(
            palette(mode).blue,
            if mode == ThemeMode::Dark {
                0x89B4FA
            } else {
                0x1E66F5
            },
        ),
        palette(mode).blue.alpha == Alpha::Byte(255),
        has_code(
            palette(mode).mauve,
            if mode == ThemeMode::Dark {
                0xCBA6F7
            } else {
                0x8839EF
            },
        ),
        palette(mode).mauve.alpha == Alpha::Byte(255),
        has_code(
            palette(mode).pink,
            if mode == ThemeMode::Dark {
                0xF5C2E7
            } else {
                0xEA76CB
            },
        ),
        palette(mode).pink.alpha == Alpha::Byte(255),
        palette(ThemeMode::Dark) == mocha_palette(),
        palette(ThemeMode::Light) == latte_palette(),
{
}

/// What is loaded is the light mode for the word `light` with nothing but white space around it,
/// and the dark mode for everything else.
pub proof fn law_only_the_word_light_is_light(content: Seq<char>)
    ensures
        loaded_mode(content) == ThemeMode::Light <==> exists|before: Seq<char>, after: Seq<char>|
            is_padded(content, before, "light"@, after),
{
    reveal_strlit("light");
    if loaded_mode(content) == ThemeMode::Light {
        let (before, after) = lemma_trimmed_parts(content);
        assert(is_padded(content, before, "light"@, after));
    }
    if exists|before: Seq<char>, after: Seq<char>| is_padded(content, before, "light"@, after) {
        let (before, after) = choose|before: Seq<char>, after: Seq<char>|
            is_padded(content, before, "light"@, after);
        lemma_trimmed_core(before, "light"@, after);
    }
}

/// What is stored for a mode is its name.
pub proof fn law_modes_are_stored_by_name(mode: ThemeMode)
    ensures
        stored_mode(mode) == if mode == ThemeMode::Light {
            seq!['l', 'i', 'g', 'h', 't']
        } else {
            seq!['d', 'a', 'r', 'k']
        },
        THEME_FILE@ == ".config/xilem_bar/theme"@,
{
    reveal_strlit("dark");
    reveal_strlit("light");
    assert("dark"@ =~= seq!['d', 'a', 'r', 'k']);
    assert("light"@ =~= seq!['l', 'i', 'g', 'h', 't']);
}

/// Where the theme file could not be read the mode to start with is the dark one; where it could,
/// it is the light one just for the word `light` with nothing but white space around it.
pub proof fn law_only_a_file_can_call_for_light(content: Option<&str>, mode: ThemeMode)
    requires
        call_ensures(load_theme_mode, (content,), mode),
    ensures
        content is None ==> mode == ThemeMode::Dark,
        content matches Some(text) ==> (mode == ThemeMode::Light <==> exists|
            before: Seq<char>,
            after: Seq<char>,
        | is_padded(text@, before, "light"@, after)),
{
    if let Some(text) = content {
        law_only_the_word_light_is_light(text@);
    }
}

} // verus!
