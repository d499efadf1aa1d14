//! The glyphs that the bar shows.
use vstd::prelude::*;
use vstd::string::*;

use crate::text::{
    decimal_text, law_numbers_are_told_apart, law_signed_decimal_spells_the_number, signed_decimal, spells,
};

verus! {

/// How many workspace tags the bar shows.
pub const TAG_COUNT: usize = 9;

pub const ICON_CPU: &'static str = "\u{F0FB1}";

pub const ICON_MEM: &'static str = "\u{F035B}";

pub const ICON_BAT_FULL: &'static str = "\u{F0079}";

pub const ICON_BAT_CHG: &'static str = "\u{F0084}";

pub const ICON_VOL_HIGH: &'static str = "\u{F057E}";

pub const ICON_VOL_MID: &'static str = "\u{F0580}";

pub const ICON_VOL_LOW: &'static str = "\u{F057F}";

pub const ICON_VOL_MUTE: &'static str = "\u{F075F}";

pub const ICON_BRIGHT: &'static str = "\u{F00DE}";

pub const ICON_SHOT: &'static str = "\u{F0104}";

pub const ICON_TIME: &'static str = "\u{F0954}";

pub const ICON_MON: &'static str = "\u{F0379}";

pub const ICON_M0: &'static str = "\u{F02DA}";

pub const ICON_M1: &'static str = "\u{F02DB}";

pub const ICON_SUN: &'static str = "\u{F0599}";

pub const ICON_MOON: &'static str = "\u{F0594}";

/// The glyph of each workspace tag.
pub open spec fn tag_glyph(index: int) -> Seq<char> {
    if index == 0 {
        "\u{F0A1E}"@
    } else if index == 1 {
        "\u{F0239}"@
    } else if index == 2 {
        "\u{F0A1B}"@
    } else if index == 3 {
        "\u{F0B79}"@
    } else if index == 4 {
        "\u{F024B}"@
    } else if index == 5 {
        "\u{F0388}"@
    } else if index == 6 {
        "\u{F0567}"@
    } else if index == 7 {
        "\u{F01F0}"@
    } else {
        "\u{F0297}"@
    }
}

/// The glyph of a workspace tag.
pub fn tag_icon(index: usize) -> (icon: &'static str)
    requires
        index < TAG_COUNT,
    ensures
        icon@ == tag_glyph(index as int),
{
    match index {
        0 => "\u{F0A1E}",
        1 => "\u{F0239}",
        2 => "\u{F0A1B}",
        3 => "\u{F0B79}",
        4 => "\u{F024B}",
        5 => "\u{F0388}",
        6 => "\u{F0567}",
        7 => "\u{F01F0}",
        _ => "\u{F0297}",
    }
}

/// The glyph of a volume in percent.
pub open spec fn volume_glyph(volume: int, muted: bool, has_device: bool) -> Seq<char> {
    if !has_device || muted || volume <= 0 {
        ICON_VOL_MUTE@
    } else if volume < 34 {
        ICON_VOL_LOW@
    } else if volume < 67 {
        ICON_VOL_MID@
    } else {
        ICON_VOL_HIGH@
    }
}

/// The glyph of a volume in percent.
pub fn volume_icon(volume: i32, muted: bool, has_device: bool) -> (icon: &'static str)
    ensures
        icon@ == volume_glyph(volume as int, muted, has_device),
{
    if !has_device || muted || volume <= 0 {
        ICON_VOL_MUTE
    } else if volume < 34 {
        ICON_VOL_LOW
    } else if volume < 67 {
        ICON_VOL_MID
    } else {
        ICON_VOL_HIGH
    }
}

/// How a monitor is shown: the first two by a glyph, each other by `M` and its number.
pub open spec fn monitor_label(n: int) -> Seq<char> {
    if n == 0 {
        ICON_M0@
    } else if n == 1 {
        ICON_M1@
    } else {
        seq!['M'] + signed_decimal(n)
    }
}

/// How a monitor is shown: the first two by a glyph, each other by `M` and its number.
pub fn monitor_num_to_icon(n: i32) -> (text: String)
    ensures
        text@ == monitor_label(n as int),
{
    match n {
        0 => ICON_M0.to_owned(),
        1 => ICON_M1.to_owned(),
        _ => {
            proof {
                reveal_strlit("M");
            }
            let mut text = "M".to_owned();
            text.append(decimal_text(n as i64).as_str());
            assert(text@ =~= monitor_label(n as int));
            text
        },
    }
}

/// The code points of the glyphs.
pub proof fn law_glyphs_by_code_point()
    ensures
        ICON_CPU@ == seq!['\u{F0FB1}'],
        ICON_MEM@ == seq!['\u{F035B}'],
        ICON_BAT_FULL@ == seq!['\u{F0079}'],
        ICON_BAT_CHG@ == seq!['\u{F0084}'],
        ICON_VOL_HIGH@ == seq!['\u{F057E}'],
        ICON_VOL_MID@ == seq!['\u{F0580}'],
        ICON_VOL_LOW@ == seq!['\u{F057F}'],
        ICON_VOL_MUTE@ == seq!['\u{F075F}'],
        ICON_BRIGHT@ == seq!['\u{F00DE}'],
        ICON_SHOT@ == seq!['\u{F0104}'],
        ICON_TIME@ == seq!['\u{F0954}'],
        ICON_MON@ == seq!['\u{F0379}'],
        ICON_M0@ == seq!['\u{F02DA}'],
        ICON_M1@ == seq!['\u{F02DB}'],
        ICON_SUN@ == seq!['\u{F0599}'],
        ICON_MOON@ == seq!['\u{F0594}'],
        TAG_COUNT == 9,
{
    reveal_strlit("\u{F0FB1}");
    reveal_strlit("\u{F035B}");
    reveal_strlit("\u{F0079}");
    reveal_strlit("\u{F0084}");
    reveal_strlit("\u{F057E}");
    reveal_strlit("\u{F0580}");
    reveal_strlit("\u{F057F}");
    reveal_strlit("\u{F075F}");
    reveal_strlit("\u{F00DE}");
    reveal_strlit("\u{F0104}");
    reveal_strlit("\u{F0954}");
    reveal_strlit("\u{F0379}");
    reveal_strlit("\u{F02DA}");
    reveal_strlit("\u{F02DB}");
    reveal_strlit("\u{F0599}");
    reveal_strlit("\u{F0594}");
    assert(ICON_CPU@ =~= seq!['\u{F0FB1}']);
    assert(ICON_MEM@ =~= seq!['\u{F035B}']);
    assert(ICON_BAT_FULL@ =~= seq!['\u{F0079}']);
    assert(ICON_BAT_CHG@ =~= seq!['\u{F0084}']);
    assert(ICON_VOL_HIGH@ =~= seq!['\u{F057E}']);
    assert(ICON_VOL_MID@ =~= seq!['\u{F0580}']);
    assert(ICON_VOL_LOW@ =~= seq!['\u{F057F}']);
    assert(ICON_VOL_MUTE@ =~= seq!['\u{F075F}']);
    assert(ICON_BRIGHT@ =~= seq!['\u{F00DE}']);
    assert(ICON_SHOT@ =~= seq!['\u{F0104}']);
    assert(ICON_TIME@ =~= seq!['\u{F0954}']);
    assert(ICON_MON@ =~= seq!['\u{F0379}']);
    assert(ICON_M0@ =~= seq!['\u{F02DA}']);
    assert(ICON_M1@ =~= seq!['\u{F02DB}']);
    assert(ICON_SUN@ =~= seq!['\u{F0599}']);
    assert(ICON_MOON@ =~= seq!['\u{F0594}']);
}

/// Every workspace tag has one glyph of its own, which its index gives, and no two tags have the
/// same.
pub proof fn law_tags_have_their_own_glyphs(index: int, other: int)
    requires
        0 <= index < 9,
        0 <= other < 9,
    ensures
        tag_glyph(index) == seq![
            seq![
                '\u{F0A1E}',
                '\u{F0239}',
                '\u{F0A1B}',
                '\u{F0B79}',
                '\u{F024B}',
                '\u{F0388}',
                '\u{F0567}',
                '\u{F01F0}',
                '\u{F0297}',
            ][index],
        ],
        index != other ==> tag_glyph(index) != tag_glyph(other),
{
    reveal_strlit("\u{F0A1E}");
    reveal_strlit("\u{F0239}");
    reveal_strlit("\u{F0A1B}");
    reveal_strlit("\u{F0B79}");
    reveal_strlit("\u{F024B}");
    reveal_strlit("\u{F0388}");
    reveal_strlit("\u{F0567}");
    reveal_strlit("\u{F01F0}");
    reveal_strlit("\u{F0297}");
    let glyphs = seq![
        '\u{F0A1E}',
        '\u{F0239}',
        '\u{F0A1B}',
        '\u{F0B79}',
        '\u{F024B}',
        '\u{F0388}',
        '\u{F0567}',
        '\u{F01F0}',
        '\u{F0297}',
    ];
    assert(tag_glyph(index) =~= seq![glyphs[index]]);
    assert(tag_glyph(other) =~= seq![glyphs[other]]);
    assert(tag_glyph(index)[0] == glyphs[index]);
    assert(tag_glyph(other)[0] == glyphs[other]);
}

/// The glyph of a volume: the mute for a device that is missing or muted, or silent at 0 percent or
/// less; else the low one up to 33 percent, the middle one from 34 to 66, the high one from 67 on.
pub proof fn law_volume_glyph_goes_by_thirds(volume: int, muted: bool, has_device: bool)
    ensures
        !has_device ==> volume_glyph(volume, muted, has_device) == seq!['\u{F075F}'],
        muted ==> volume_glyph(volume, muted, has_device) == seq!['\u{F075F}'],
        volume <= 0 ==> volume_glyph(volume, muted, has_device) == seq!['\u{F075F}'],
        has_device && !muted && 1 <= volume <= 33 ==> volume_glyph(volume, muted, has_device)
            == seq!['\u{F057F}'],
        has_device && !muted && 34 <= volume <= 66 ==> volume_glyph(volume, muted, has_device)
            == seq!['\u{F0580}'],
        has_device && !muted && 67 <= volume ==> volume_glyph(volume, muted, has_device)
            == seq!['\u{F057E}'],
{
    law_glyphs_by_code_point();
}

/// The first two monitors are shown by a glyph each, every other one by `M` and its number in
/// decimal.
pub proof fn law_monitors_are_shown_by_number(n: int)
    ensures
        n == 0 ==> monitor_label(n) == seq!['\u{F02DA}'],
        n == 1 ==> monitor_label(n) == seq!['\u{F02DB}'],
        n > 1 ==> monitor_label(n)[0] == 'M' && spells(monitor_label(n).skip(1), n),
        n < 0 ==> monitor_label(n)[0] == 'M' && monitor_label(n)[1] == '-' && spells(
            monitor_label(n).skip(2),
            -n,
        ),
{
    law_glyphs_by_code_point();
    law_signed_decimal_spells_the_number(n);
    if n > 1 || n < 0 {
        assert(monitor_label(n).skip(1) =~= signed_decimal(n));
        assert(monitor_label(n).skip(2) =~= signed_decimal(n).skip(1));
        assert(monitor_label(n)[1] == signed_decimal(n)[0]);
    }
}

/// No two monitors are shown alike.
pub proof fn law_monitors_are_told_apart(one: int, other: int)
    requires
        one != other,
    ensures
        monitor_label(one) != monitor_label(other),
{
    law_glyphs_by_code_point();
    law_numbers_are_told_apart(one, other);
    assert(ICON_M0@[0] != ICON_M1@[0]);
    if one != 0 && one != 1 {
        assert(monitor_label(one)[0] == 'M');
        assert(monitor_label(one).skip(1) =~= signed_decimal(one));
    }
    if other != 0 && other != 1 {
        assert(monitor_label(other)[0] == 'M');
        assert(monitor_label(other).skip(1) =~= signed_decimal(other));
    }
}

} // verus!
