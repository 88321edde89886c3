//! Verified core of the mirilti dictation tool: audio shaping, WAV framing,
//! clipboard and paste decision chains, the recording lifecycle and the
//! shortcut events.
pub mod audio;
pub mod output;
pub mod shortcut;
pub mod text;

use vstd::prelude::*;

verus! {

/// The label of the overlay window.
pub const OVERLAY_LABEL: &'static str = "overlay";

/// Distance kept between the overlay and the screen's edges, in pixels.
pub const OVERLAY_MARGIN: i32 = 24;

/// The greeting the front end shows for `name`.
pub open spec fn greeting(name: Seq<char>) -> Seq<char> {
    "Hello, "@ + name + "! You've been greeted from Rust!"@
}

/// The greeting the front end shows for `name`.
pub fn greet(name: &str) -> (s: String)
    ensures
        s@ == greeting(name@),
{
    String::from_str("Hello, ").concat(name).concat("! You've been greeted from Rust!")
}

/// Where the overlay's top-left corner goes so that it sits in the
/// bottom-right corner of the monitor, `OVERLAY_MARGIN` pixels from both
/// edges. Sizes are converted to `i32` as a cast does; the sums must fit.
pub open spec fn bottom_right_position(
    monitor_x: i32,
    monitor_y: i32,
    monitor_width: u32,
    monitor_height: u32,
    window_width: u32,
    window_height: u32,
) -> (int, int) {
    (
        monitor_x + (monitor_width as i32) - (window_width as i32) - OVERLAY_MARGIN,
        monitor_y + (monitor_height as i32) - (window_height as i32) - OVERLAY_MARGIN,
    )
}

/// The overlay sits in the bottom-right corner: its right edge is
/// `OVERLAY_MARGIN` pixels left of the monitor's right edge, and its bottom
/// edge `OVERLAY_MARGIN` pixels above the monitor's bottom edge, on every
/// monitor and for every window size.
pub proof fn overlay_keeps_margin_to_bottom_right(
    monitor_x: i32,
    monitor_y: i32,
    monitor_width: u32,
    monitor_height: u32,
    window_width: u32,
    window_height: u32,
)
    ensures
        ({
            let p = bottom_right_position(
                monitor_x,
                monitor_y,
                monitor_width,
                monitor_height,
                window_width,
                window_height,
            );
            &&& p.0 + (window_width as i32) + OVERLAY_MARGIN == monitor_x + (monitor_width as i32)
            &&& p.1 + (window_height as i32) + OVERLAY_MARGIN == monitor_y + (monitor_height as i32)
        }),
{
}

/// Whether every partial sum of the bottom-right placement fits in `i32`.
pub open spec fn placement_fits(origin: i32, extent: u32, size: u32) -> bool {
    let a = origin + (extent as i32);
    let b = a - (size as i32);
    let c = b - OVERLAY_MARGIN;
    &&& i32::MIN <= a <= i32::MAX
    &&& i32::MIN <= b <= i32::MAX
    &&& i32::MIN <= c <= i32::MAX
}

/// Whether the bottom-right placement along one axis stays inside `i32`.
pub fn overlay_placement_fits(origin: i32, extent: u32, size: u32) -> (b: bool)
    ensures
        b == placement_fits(origin, extent, size),
{
    let a: i64 = origin as i64 + (extent as i32) as i64;
    let b: i64 = a - (size as i32) as i64;
    let c: i64 = b - OVERLAY_MARGIN as i64;
    i32::MIN as i64 <= a && a <= i32::MAX as i64 && i32::MIN as i64 <= b && b <= i32::MAX as i64
        && i32::MIN as i64 <= c && c <= i32::MAX as i64
}

/// The overlay's position in the monitor's bottom-right corner (see
/// `bottom_right_position`).
pub fn overlay_bottom_right(
    monitor_x: i32,
    monitor_y: i32,
    monitor_width: u32,
    monitor_height: u32,
    window_width: u32,
    window_height: u32,
) -> (p: (i32, i32))
    requires
        placement_fits(monitor_x, monitor_width, window_width),
        placement_fits(monitor_y, monitor_height, window_height),
    ensures
        (p.0 as int, p.1 as int) == bottom_right_position(
            monitor_x,
            monitor_y,
            monitor_width,
            monitor_height,
            window_width,
            window_height,
        ),
        p.0 + (window_width as i32) + OVERLAY_MARGIN == monitor_x + (monitor_width as i32),
        p.1 + (window_height as i32) + OVERLAY_MARGIN == monitor_y + (monitor_height as i32),
{
    let x: i32 = monitor_x + (monitor_width as i32) - (window_width as i32) - OVERLAY_MARGIN;
    let y: i32 = monitor_y + (monitor_height as i32) - (window_height as i32) - OVERLAY_MARGIN;
    (x, y)
}

} // verus!
