use pcd8544_hal::distance;
use pcd8544_hal::glyph;
use pcd8544_hal::sin;

#[test]
fn sine_cardinal_values() {
    assert_eq!(sin(0), 0);
    assert_eq!(sin(90), 16777216);
    assert_eq!(sin(180), 0);
    assert_eq!(sin(270), -sin(90));
}

#[test]
fn sine_reduces_modulo_360() {
    assert_eq!(sin(360), 0);
    assert_eq!(sin(450), 16777216);
    assert_eq!(sin(-90), sin(270));
    assert_eq!(sin(-90), -16777216);
    assert_eq!(sin(-30), -8388607);
    assert_eq!(sin(1000), sin(280));
    assert_eq!(sin(1000), -16522332);
    assert_eq!(sin(-360), 0);
}

#[test]
fn sine_table_interior_value() {
    assert_eq!(sin(30), 8388607);
    assert_eq!(sin(150), 8388607);
    assert_eq!(sin(210), -8388607);
    assert_eq!(sin(330), -8388607);
}

#[test]
fn distance_exact_values() {
    assert_eq!(distance(0, 0), 0);
    assert_eq!(distance(1, 0), 1);
    assert_eq!(distance(3, 4), 5);
    assert_eq!(distance(10, 0), 10);
    assert_eq!(distance(-10, 0), 10);
    assert_eq!(distance(99, 0), 99);
    assert_eq!(distance(100, 0), 100);
    assert_eq!(distance(30000, 30000), 100);
}

#[test]
fn distance_between_band_gap_maps_past_the_table() {
    // squared distance 2 falls between the thresholds for rings 1 and 2
    assert_eq!(distance(1, 1), 100);
}

#[test]
fn distance_monotone_along_axis() {
    let mut previous = 0;
    for d in 0..=99i32 {
        // a perfect square always sits inside its own ring's band
        let r = distance(d, 0);
        assert_eq!(r, d);
        assert!(r >= previous);
        previous = r;
    }
}

#[test]
fn glyph_patterns() {
    assert_eq!(glyph(b'A'), [0x7e, 0x11, 0x11, 0x11, 0x7e]);
    assert_eq!(glyph(b' '), [0x00, 0x00, 0x00, 0x00, 0x00]);
    assert_eq!(glyph(b'?')[0], 0x02);
    assert_eq!(glyph(b'~').len(), 5);
}
