//! The tray icon: a green disc on a clear ground.

use vstd::prelude::*;

verus! {

/// Width and height of the icon in pixels.
pub const ICON_SIZE: u32 = 32;

/// Number of bytes of the icon: four for each pixel.
pub const ICON_BYTES: usize = 4096;

/// Whether the pixel in column `x` of row `y` lies on the disc of radius 14
/// around the middle of the icon.  The middle lies between the pixels, at
/// 15.5 in both directions; the test is done in half pixels.
pub open spec fn on_disc(x: int, y: int) -> bool {
    (2 * x - 31) * (2 * x - 31) + (2 * y - 31) * (2 * y - 31) <= 784
}

/// The byte at `index` of the icon.  Pixels stand row by row, each as red,
/// green, blue and opacity.  The disc is opaque green, the ground clear.
pub open spec fn icon_byte(index: int) -> u8 {
    let pixel = index / 4;
    if on_disc(pixel % 32, pixel / 32) {
        if index % 4 == 0 {
            0
        } else if index % 4 == 1 {
            200
        } else if index % 4 == 2 {
            120
        } else {
            255
        }
    } else {
        0
    }
}

/// The pixels of the tray icon.
pub fn create_icon() -> (rgba: Vec<u8>)
    ensures
        rgba@.len() == ICON_BYTES,
        forall|i: int| 0 <= i < ICON_BYTES ==> #[trigger] rgba@[i] == icon_byte(i),
{
    let mut rgba: Vec<u8> = Vec::new();
    let mut y: u32 = 0;
    while y < ICON_SIZE
        invariant
            y <= ICON_SIZE,
            rgba@.len() == 128 * y,
            forall|i: int| 0 <= i < 128 * y ==> #[trigger] rgba@[i] == icon_byte(i),
        decreases ICON_SIZE - y,
    {
        let mut x: u32 = 0;
        while x < ICON_SIZE
            invariant
                x <= ICON_SIZE,
                y < ICON_SIZE,
                rgba@.len() == 128 * y + 4 * x,
                forall|i: int| 0 <= i < 128 * y + 4 * x ==> #[trigger] rgba@[i] == icon_byte(i),
            decreases ICON_SIZE - x,
        {
            let dx: i64 = 2 * (x as i64) - 31;
            let dy: i64 = 2 * (y as i64) - 31;
            assert(0 <= dx * dx <= 961 && 0 <= dy * dy <= 961) by (nonlinear_arith)
                requires
                    -31 <= dx <= 31,
                    -31 <= dy <= 31,
            ;
            let inside = dx * dx + dy * dy <= 784;
            if inside {
                rgba.push(0);
                rgba.push(200);
                rgba.push(120);
                rgba.push(255);
            } else {
                rgba.push(0);
                rgba.push(0);
                rgba.push(0);
                rgba.push(0);
            }
            x = x + 1;
        }
        y = y + 1;
    }
    rgba
}

} // verus!
