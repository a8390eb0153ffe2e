//! Drawing adapter for Luminator flip-dot and LED signs.
//!
//! The adapter owns one page buffer sized to a sign's dimensions, accepts
//! pixel writes and full clears against it, and flushes the buffer to the
//! sign over a shared bus, issuing an explicit page-flip command when the
//! sign requires one.

mod flipdot_display;
mod pixel_grid;
mod transport;

pub use flipdot_display::{is_virtual_token, FlipdotDisplay, SignBusType};
pub use transport::{
    page_height, page_pixels, page_width, shared_bus, sign_height, sign_type_height,
    sign_type_width, sign_width, BusHandle,
};
pub use flipdot::{Address, SignType};
pub use pixel_grid::{
    clear_pixels, grid_dom, grid_map, lemma_clear_idempotent, lemma_grid_map_dom,
    lemma_out_of_bounds_write_dropped, lemma_out_of_bounds_writes_dropped, write_pixel,
    write_pixels,
};
