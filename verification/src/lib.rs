//! Driver for the PCD8544 dot-matrix display controller (84x48 pixels,
//! addressed as 6 rows of 8-pixel-tall byte columns), together with a small
//! library of procedurally generated animation frames.
//!
//! The driver keeps a shadow copy of the on-device pixel state and a local
//! cursor, because the hardware offers no readback.  Every operation states
//! in its contract how it moves the cursor and what it leaves in the shadow
//! buffer; the text engine's wraparound and scroll behaviour is specified by
//! an executable-independent model (`TextState` and the `*_spec` functions).
//!
//! The physical transport is abstracted behind [`Pcd8544Backend`], a
//! two-operation capability (send a command byte, send data bytes) that
//! bit-banged GPIO or serial-bus implementations provide outside this crate.

mod demo;
mod driver;
mod geom;
mod glyphs;
mod numeric;
mod trig;

pub use demo::Buffer;
pub use demo::apply_shader;
pub use demo::deform_1_z;
pub use demo::demo;
pub use demo::empty_buffer;
pub use demo::interference;
pub use demo::lemma_mandel_last_frame;
pub use demo::mandel_bit;
pub use demo::mandel_byte;
pub use demo::mandel_frame;
pub use demo::mandelbrot_zoom;
pub use demo::run_optimized_mandelbrot;
pub use demo::run_shader;
pub use demo::shader_byte_ok;
pub use demo::shader_frame_ok;
pub use demo::spec_deform;
pub use demo::spec_interference;
pub use demo::spec_mandel;
pub use demo::spec_mandel_iter;
pub use demo::spec_mandel_iters;
pub use driver::DisplayBuffer;
pub use driver::Pcd8544Backend;
pub use driver::Pcd8544Driver;
pub use driver::TextState;
pub use driver::DEFAULT_CONTRAST;
pub use driver::advance_spec;
pub use driver::lemma_print_snoc;
pub use driver::lemma_print_spec_wf;
pub use driver::new_line_spec;
pub use driver::print_byte_spec;
pub use driver::print_char_spec;
pub use driver::print_spec;
pub use driver::scroll_spec;
pub use driver::ts_wf;
pub use driver::write_byte_spec;
pub use geom::spec_offset;
pub use geom::offset_of;
pub use geom::lemma_offset_injective;
pub use geom::lemma_offset_covers;
pub use geom::lemma_offset_in_range;
pub use geom::COLS;
pub use geom::FRAME_BYTES;
pub use geom::ROWS;
pub use glyphs::GLYPHS;
pub use glyphs::glyph;
pub use glyphs::glyph_col;
pub use numeric::bit_is_set;
pub use numeric::bit_of;
pub use numeric::div_floor;
pub use numeric::tdiv;
pub use trig::SINE_LUT;
pub use trig::SINE_MAX;
pub use trig::dist_band_hi;
pub use trig::dist_band_lo;
pub use trig::dist_of_sq;
pub use trig::distance;
pub use trig::lemma_dist_band_value;
pub use trig::lemma_dist_characterize;
pub use trig::lemma_distance_monotone;
pub use trig::lemma_sin_bounds;
pub use trig::lemma_sin_cardinal;
pub use trig::lemma_sin_periodic;
pub use trig::sin;
pub use trig::spec_sin;
