use pcd8544_hal::DisplayBuffer;
use pcd8544_hal::Pcd8544Backend;
use pcd8544_hal::Pcd8544Driver;
use pcd8544_hal::glyph;
use pcd8544_hal::offset_of;

struct NullBackend;

impl Pcd8544Backend for NullBackend {
    fn command(&mut self, _command: u8) {}

    fn data(&mut self, _data: &[u8]) {}
}

fn fresh() -> Pcd8544Driver<NullBackend> {
    let mut driver = Pcd8544Driver::new(NullBackend);
    driver.init();
    driver
}

#[test]
fn new_driver_is_blank_at_origin() {
    let driver = Pcd8544Driver::new(NullBackend);
    assert_eq!(driver.cursor(), (0, 0));
    for col in 0..84u8 {
        for row in 0..6u8 {
            assert_eq!(driver.shadow_byte(col, row), 0);
        }
    }
}

#[test]
fn clear_zeroes_shadow_and_homes_cursor() {
    let mut driver = fresh();
    driver.print("some text\nmore");
    driver.clear();
    assert_eq!(driver.cursor(), (0, 0));
    for col in 0..84u8 {
        for row in 0..6u8 {
            assert_eq!(driver.shadow_byte(col, row), 0);
        }
    }
}

#[test]
fn draw_buffer_round_trip() {
    let mut driver = fresh();
    driver.print("prior state");
    let mut frame = [0u8; 504];
    for (i, byte) in frame.iter_mut().enumerate() {
        *byte = (i % 251) as u8;
    }
    driver.draw_buffer(&frame);
    assert_eq!(driver.cursor(), (0, 0));
    for col in 0..84u8 {
        for row in 0..6u8 {
            let i = row as usize * 84 + col as usize;
            assert_eq!(driver.shadow_byte(col, row), frame[i]);
        }
    }
}

#[test]
fn print_hello_world_scenario() {
    let mut driver = fresh();
    driver.print("Hello,\nworld!");
    assert_eq!(driver.cursor(), (36, 1));

    let lines: [&[u8]; 2] = [b"Hello,", b"world!"];
    for (row, line) in lines.iter().enumerate() {
        for (k, &ch) in line.iter().enumerate() {
            let g = glyph(ch);
            for j in 0..5u8 {
                let col = (6 * k) as u8 + j;
                assert_eq!(driver.shadow_byte(col, row as u8), g[j as usize]);
            }
            assert_eq!(driver.shadow_byte((6 * k) as u8 + 5, row as u8), 0);
        }
        for col in 36..84u8 {
            assert_eq!(driver.shadow_byte(col, row as u8), 0);
        }
    }
    for row in 2..6u8 {
        for col in 0..84u8 {
            assert_eq!(driver.shadow_byte(col, row), 0);
        }
    }
    // 'H' leads with a full vertical bar in the classic font
    assert_eq!(driver.shadow_byte(0, 0), 0x7f);
}

#[test]
fn print_wraps_to_next_row() {
    let mut driver = fresh();
    driver.print("AAAAAAAAAAAAAA");
    assert_eq!(driver.cursor(), (0, 1));
    let g = glyph(b'A');
    assert_eq!(driver.shadow_byte(6, 0), g[0]);
    assert_eq!(driver.shadow_byte(78, 0), g[0]);
}

#[test]
fn print_scrolls_when_last_row_overflows() {
    let mut driver = fresh();
    driver.print("\n\n\n\n\n");
    assert_eq!(driver.cursor(), (0, 5));
    driver.print("XXXXXXXXXXXXXX");
    // the fourteenth character overflows the last row: the freshly written
    // row scrolls up one band and writing continues on the last row
    assert_eq!(driver.cursor(), (0, 5));
    let g = glyph(b'X');
    assert_eq!(driver.shadow_byte(0, 4), g[0]);
    assert_eq!(driver.shadow_byte(78, 4), g[0]);
    for col in 0..84u8 {
        assert_eq!(driver.shadow_byte(col, 5), 0);
    }
}

#[test]
fn new_line_scrolls_on_last_row() {
    let mut driver = fresh();
    driver.print("\nB");
    assert_eq!(driver.cursor(), (6, 1));
    driver.new_line();
    driver.new_line();
    driver.new_line();
    driver.new_line();
    assert_eq!(driver.cursor(), (0, 5));
    driver.new_line();
    assert_eq!(driver.cursor(), (0, 5));
    // the glyph printed on row 1 has scrolled up to row 0
    assert_eq!(driver.shadow_byte(0, 0), glyph(b'B')[0]);
}

#[test]
fn scroll_shifts_shadow_up_and_lifts_cursor() {
    let mut driver = fresh();
    driver.print("\nC");
    assert_eq!(driver.cursor(), (6, 1));
    driver.scroll();
    assert_eq!(driver.cursor(), (6, 0));
    let g = glyph(b'C');
    for j in 0..5u8 {
        assert_eq!(driver.shadow_byte(j, 0), g[j as usize]);
    }
    for col in 0..84u8 {
        assert_eq!(driver.shadow_byte(col, 5), 0);
    }
}

#[test]
fn scroll_clamps_cursor_at_top_row() {
    let mut driver = fresh();
    driver.print("D");
    assert_eq!(driver.cursor(), (6, 0));
    driver.scroll();
    assert_eq!(driver.cursor(), (6, 0));
}

#[test]
fn set_cursor_ignores_out_of_range() {
    let mut driver = fresh();
    driver.set_cursor(10, 3);
    assert_eq!(driver.cursor(), (10, 3));
    driver.set_cursor(84, 0);
    assert_eq!(driver.cursor(), (10, 3));
    driver.set_cursor(0, 6);
    assert_eq!(driver.cursor(), (10, 3));
    driver.set_cursor(255, 255);
    assert_eq!(driver.cursor(), (10, 3));
    driver.set_cursor(83, 5);
    assert_eq!(driver.cursor(), (83, 5));
}

#[test]
fn unprintable_bytes_render_as_placeholder() {
    let mut driver = fresh();
    driver.print("\t");
    assert_eq!(driver.cursor(), (6, 0));
    let g = glyph(b'?');
    for j in 0..5u8 {
        assert_eq!(driver.shadow_byte(j, 0), g[j as usize]);
    }
}

#[test]
fn print_empty_string_changes_nothing() {
    let mut driver = fresh();
    driver.print("A");
    let position = driver.cursor();
    driver.print("");
    assert_eq!(driver.cursor(), position);
    assert_eq!(driver.shadow_byte(0, 0), glyph(b'A')[0]);
}

#[test]
fn print_renders_each_non_ascii_byte_as_placeholder() {
    let mut driver = fresh();
    // a two-byte UTF-8 character is processed byte-wise: two placeholders
    driver.print("\u{e9}");
    assert_eq!(driver.cursor(), (12, 0));
    let g = glyph(b'?');
    assert_eq!(driver.shadow_byte(0, 0), g[0]);
    assert_eq!(driver.shadow_byte(6, 0), g[0]);
}

#[test]
fn power_cycle_preserves_shadow() {
    let mut driver = fresh();
    driver.print("A");
    let kept = glyph(b'A');
    driver.power_down();
    assert_eq!(driver.cursor(), (0, 0));
    assert_eq!(driver.shadow_byte(0, 0), kept[0]);
    driver.wake_up();
    assert_eq!(driver.shadow_byte(0, 0), kept[0]);
}

#[test]
fn blink_preserves_shadow() {
    let mut driver = fresh();
    driver.print("Z");
    let kept = glyph(b'Z');
    driver.blink(2);
    assert_eq!(driver.cursor(), (0, 0));
    assert_eq!(driver.shadow_byte(0, 0), kept[0]);
    driver.blink(0);
    assert_eq!(driver.shadow_byte(0, 0), kept[0]);
}

#[test]
fn init_is_repeatable() {
    let mut driver = fresh();
    driver.set_contrast(0xb1);
    driver.print("text");
    driver.init();
    assert_eq!(driver.cursor(), (0, 0));
    for col in 0..84u8 {
        for row in 0..6u8 {
            assert_eq!(driver.shadow_byte(col, row), 0);
        }
    }
}

#[test]
fn display_buffer_set_get() {
    let mut buffer = DisplayBuffer::new();
    assert_eq!(buffer.get(0, 0), 0);
    assert_eq!(buffer.get(83, 5), 0);
    buffer.set(5, 3, 0xab);
    assert_eq!(buffer.get(5, 3), 0xab);
    assert_eq!(buffer.get(5, 2), 0);
}

#[test]
fn offset_covers_every_index_once() {
    let mut seen = [false; 504];
    for col in 0..84u8 {
        for row in 0..6u8 {
            let i = offset_of(col, row);
            assert!(i < 504);
            assert!(!seen[i]);
            seen[i] = true;
        }
    }
    assert!(seen.iter().all(|&s| s));
}
