use pcd8544_hal::Pcd8544Backend;
use pcd8544_hal::Pcd8544Driver;
use pcd8544_hal::apply_shader;
use pcd8544_hal::deform_1_z;
use pcd8544_hal::demo;
use pcd8544_hal::empty_buffer;
use pcd8544_hal::interference;
use pcd8544_hal::mandelbrot_zoom;
use pcd8544_hal::run_optimized_mandelbrot;
use pcd8544_hal::run_shader;

struct NullBackend;

impl Pcd8544Backend for NullBackend {
    fn command(&mut self, _command: u8) {}

    fn data(&mut self, _data: &[u8]) {}
}

fn fresh() -> Pcd8544Driver<NullBackend> {
    let mut driver = Pcd8544Driver::new(NullBackend);
    driver.init();
    driver
}

#[test]
fn empty_buffer_is_blank() {
    let buffer = empty_buffer();
    assert!(buffer.iter().all(|&b| b == 0));
}

#[test]
fn fractal_center_is_inside_at_zero_zoom() {
    assert!(mandelbrot_zoom(0, 0, 0));
}

#[test]
fn fractal_final_step_is_all_inside() {
    for px in -42..42 {
        for py in 0..25 {
            assert!(mandelbrot_zoom(px, py, 32));
            assert!(mandelbrot_zoom(px, py, 100));
        }
    }
}

#[test]
fn fractal_pixel_classification() {
    assert!(!mandelbrot_zoom(-42, 0, 0));
    assert!(!mandelbrot_zoom(41, 24, 0));
    assert!(mandelbrot_zoom(10, 10, 20));
    assert!(mandelbrot_zoom(0, 0, 31));
}

#[test]
fn deform_pixel_values() {
    assert!(!deform_1_z(0, 0, 0));
    assert!(deform_1_z(10, 5, 3));
    assert!(!deform_1_z(-42, -24, 0));
    assert!(!deform_1_z(20, -10, 50));
    assert!(deform_1_z(41, 23, 74));
}

#[test]
fn interference_pixel_values() {
    assert!(interference(0, 0, 0));
    assert!(!interference(10, 5, 3));
    assert!(interference(-42, -24, 0));
    assert!(interference(20, -10, 49));
}

#[test]
fn apply_shader_packs_checkerboard() {
    let mut buffer = empty_buffer();
    apply_shader(&mut buffer, 0, |x: i32, y: i32, _t: i32| (x + y) % 2 == 0);
    // column 0, row 0: x = -42, y = -24 + bit, lit on even bits
    assert_eq!(buffer[0], 0b01010101);
    // column 1, row 0: x = -41, lit on odd bits
    assert_eq!(buffer[6], 0b10101010);
    assert_eq!(buffer[6 * 50 + 2], 0b01010101);
}

#[test]
fn apply_shader_matches_pixel_function() {
    let mut buffer = empty_buffer();
    apply_shader(&mut buffer, 0, deform_1_z);
    assert_eq!(buffer[6 * 50 + 2], 33);
    for col in 0..84usize {
        for row in 0..6usize {
            let mut expected: u8 = 0;
            for bit in 0..8usize {
                let x = col as i32 - 42;
                let y = 8 * (row as i32 - 3) + bit as i32;
                expected += (deform_1_z(x, y, 0) as u8) << bit;
            }
            assert_eq!(buffer[6 * col + row], expected);
        }
    }
}

#[test]
fn run_shader_draws_last_frame() {
    let mut driver = fresh();
    let buffer = run_shader(&mut driver, 0..1, deform_1_z);
    assert_eq!(buffer[6 * 50 + 2], 33);
    assert_eq!(driver.cursor(), (0, 0));
    // the shadow holds the frame verbatim, byte for byte
    for col in 0..84u8 {
        for row in 0..6u8 {
            let i = row as usize * 84 + col as usize;
            assert_eq!(driver.shadow_byte(col, row), buffer[i]);
        }
    }
}

#[test]
fn run_shader_interference_final_frame() {
    let mut driver = fresh();
    let buffer = run_shader(&mut driver, 0..50, interference);
    assert_eq!(buffer[6 * 10 + 4], 7);
}

#[test]
fn run_shader_empty_range_is_a_no_op() {
    let mut driver = fresh();
    driver.print("K");
    let before = driver.shadow_byte(0, 0);
    let buffer = run_shader(&mut driver, 5..5, deform_1_z);
    assert!(buffer.iter().all(|&b| b == 0));
    assert_eq!(driver.shadow_byte(0, 0), before);
}

#[test]
fn optimized_fractal_leaves_final_frame() {
    let mut driver = fresh();
    run_optimized_mandelbrot(&mut driver);
    assert_eq!(driver.cursor(), (0, 0));
    // at the deepest zoom every pixel is inside the second bulb
    for col in 0..84u8 {
        for row in 0..6u8 {
            assert_eq!(driver.shadow_byte(col, row), 0xff);
        }
    }
}

#[test]
fn demo_runs_one_cycle() {
    let mut driver = fresh();
    let logo = [0x55u8; 504];
    demo(&mut driver, &logo, 1);
    // the cycle ends on the interference animation's last frame
    let mut check = fresh();
    let buffer = run_shader(&mut check, 0..50, interference);
    assert_eq!(driver.cursor(), (0, 0));
    for col in 0..84u8 {
        for row in 0..6u8 {
            let i = row as usize * 84 + col as usize;
            assert_eq!(driver.shadow_byte(col, row), buffer[i]);
        }
    }
}

#[test]
fn demo_zero_cycles_changes_nothing() {
    let mut driver = fresh();
    driver.print("K");
    let position = driver.cursor();
    let before = driver.shadow_byte(0, 0);
    let logo = [0x55u8; 504];
    demo(&mut driver, &logo, 0);
    assert_eq!(driver.cursor(), position);
    assert_eq!(driver.shadow_byte(0, 0), before);
}
