use xilem_bar::gauge::{above, at_most, battery_color, usage_color};
use xilem_bar::theme::Theme;

#[test]
fn a_number_is_at_most_itself_and_no_less() {
    let mut bound = 1_u32;
    while bound <= 255 {
        let exact = (bound as f32).to_bits();
        assert!(at_most(exact, bound));
        assert!(!above(exact, bound));
        assert!(!at_most(exact + 1, bound));
        assert!(above(exact + 1, bound));
        assert!(at_most(exact - 1, bound));
        assert!(!above(exact - 1, bound));
        bound += 1;
    }
}

#[test]
fn comparisons_agree_with_those_of_floats() {
    let numbers = [
        0.0_f32, -0.0, 1.0e-45, -1.0e-45, 0.5, 0.99999994, 1.0, 12.5, 19.999998, 20.0, 29.5, 33.3, 50.0, 50.5, 79.99999,
        80.0, 99.9, 100.0, 127.99999, 128.0, 254.99, 255.0, 256.0, 1.0e10, 3.4028235e38, -1.0, -80.0, -3.4028235e38,
        f32::INFINITY, f32::NEG_INFINITY, f32::NAN, -f32::NAN,
    ];
    for number in numbers {
        for bound in [1_u32, 20, 30, 50, 60, 80, 100, 255] {
            assert_eq!(at_most(number.to_bits(), bound), number <= bound as f32);
            assert_eq!(above(number.to_bits(), bound), number > bound as f32);
        }
    }
}

#[test]
fn usage_goes_from_green_to_red() {
    let theme = Theme::mocha();
    assert_eq!(usage_color(&theme, 0.0_f32.to_bits()), theme.green);
    assert_eq!(usage_color(&theme, 30.0_f32.to_bits()), theme.green);
    assert_eq!(usage_color(&theme, 30.1_f32.to_bits()), theme.yellow);
    assert_eq!(usage_color(&theme, 60.0_f32.to_bits()), theme.yellow);
    assert_eq!(usage_color(&theme, 60.1_f32.to_bits()), theme.orange);
    assert_eq!(usage_color(&theme, 80.0_f32.to_bits()), theme.orange);
    assert_eq!(usage_color(&theme, 80.1_f32.to_bits()), theme.red);
    assert_eq!(usage_color(&theme, f32::NAN.to_bits()), theme.red);
    assert_eq!(usage_color(&theme, (-5.0_f32).to_bits()), theme.green);
}

#[test]
fn battery_goes_from_green_to_red() {
    let theme = Theme::latte();
    assert_eq!(battery_color(&theme, 100.0_f32.to_bits()), theme.green);
    assert_eq!(battery_color(&theme, 50.1_f32.to_bits()), theme.green);
    assert_eq!(battery_color(&theme, 50.0_f32.to_bits()), theme.yellow);
    assert_eq!(battery_color(&theme, 20.1_f32.to_bits()), theme.yellow);
    assert_eq!(battery_color(&theme, 20.0_f32.to_bits()), theme.red);
    assert_eq!(battery_color(&theme, 0.0_f32.to_bits()), theme.red);
    assert_eq!(battery_color(&theme, f32::NAN.to_bits()), theme.red);
}
