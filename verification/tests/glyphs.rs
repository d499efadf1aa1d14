use xilem_bar::icons::{
    monitor_num_to_icon, tag_icon, volume_icon, ICON_M0, ICON_M1, ICON_VOL_HIGH, ICON_VOL_LOW, ICON_VOL_MID,
    ICON_VOL_MUTE, TAG_COUNT,
};
use xilem_bar::text::decimal_text;

#[test]
fn tags_have_their_glyphs() {
    let glyphs = [
        "\u{F0A1E}", "\u{F0239}", "\u{F0A1B}", "\u{F0B79}", "\u{F024B}", "\u{F0388}", "\u{F0567}", "\u{F01F0}",
        "\u{F0297}",
    ];
    assert_eq!(glyphs.len(), TAG_COUNT);
    for (index, glyph) in glyphs.iter().enumerate() {
        assert_eq!(tag_icon(index), *glyph);
    }
}

#[test]
fn volume_has_four_glyphs() {
    assert_eq!(volume_icon(50, false, false), ICON_VOL_MUTE);
    assert_eq!(volume_icon(50, true, true), ICON_VOL_MUTE);
    assert_eq!(volume_icon(0, false, true), ICON_VOL_MUTE);
    assert_eq!(volume_icon(-3, false, true), ICON_VOL_MUTE);
    assert_eq!(volume_icon(1, false, true), ICON_VOL_LOW);
    assert_eq!(volume_icon(33, false, true), ICON_VOL_LOW);
    assert_eq!(volume_icon(34, false, true), ICON_VOL_MID);
    assert_eq!(volume_icon(66, false, true), ICON_VOL_MID);
    assert_eq!(volume_icon(67, false, true), ICON_VOL_HIGH);
    assert_eq!(volume_icon(i32::MAX, false, true), ICON_VOL_HIGH);
}

#[test]
fn monitors_have_a_glyph_or_a_number() {
    assert_eq!(monitor_num_to_icon(0), ICON_M0);
    assert_eq!(monitor_num_to_icon(0), "\u{F02DA}");
    assert_eq!(monitor_num_to_icon(1), ICON_M1);
    assert_eq!(monitor_num_to_icon(2), "M2");
    assert_eq!(monitor_num_to_icon(10), "M10");
    assert_eq!(monitor_num_to_icon(-1), "M-1");
    assert_eq!(monitor_num_to_icon(i32::MIN), "M-2147483648");
}

#[test]
fn numbers_are_written_as_rust_writes_them() {
    for n in [0_i64, 1, 9, 10, 99, 100, 1234567890, i64::MAX, -1, -10, -987, i64::MIN] {
        assert_eq!(decimal_text(n), format!("{n}"));
    }
}
