//! Where the floating recording indicator is placed.
use vstd::prelude::*;

verus! {

pub const FLOATING_WINDOW_WIDTH: i32 = 220;

/// Space kept between the window and the screen's top and right edges.
pub const SCREEN_MARGIN: i32 = 20;

/// Used when neither a saved position nor the primary monitor is known:
/// about the centre of a 1920x1080 screen.
pub const FALLBACK_POSITION: (i32, i32) = (850, 450);

/// The position to show the floating window at. `saved` holds the `x` and
/// `y` read back from the preferences store, each `None` when missing or
/// not an integer; `monitor` is the primary monitor's width and height. A
/// saved coordinate is narrowed to `i32` as `as` does, and -1 in either one
/// means no position was saved. Without a saved position the window goes
/// to the top-right corner of the primary monitor, a margin away from
/// both edges.
pub open spec fn window_position_spec(
    saved: Option<(Option<i64>, Option<i64>)>,
    monitor: Option<(u32, u32)>,
) -> (i32, i32) {
    let from_store = match saved {
        Some((sx, sy)) => {
            let x = (match sx {
                Some(v) => v,
                None => -1i64,
            }) as i32;
            let y = (match sy {
                Some(v) => v,
                None => -1i64,
            }) as i32;
            if x != -1 && y != -1 {
                Some((x, y))
            } else {
                None
            }
        },
        None => None,
    };
    match from_store {
        Some(p) => p,
        None => match monitor {
            Some((w, _h)) => (
                (w as i32 - (FLOATING_WINDOW_WIDTH + SCREEN_MARGIN)) as i32,
                SCREEN_MARGIN,
            ),
            None => FALLBACK_POSITION,
        },
    }
}

fn narrow(v: i64) -> (r: i32)
    ensures
        r == v as i32,
{
    v as i32
}

pub fn window_position(saved: Option<(Option<i64>, Option<i64>)>, monitor: Option<(u32, u32)>) -> (p: (i32, i32))
    requires
        monitor matches Some((w, h)) ==> (w as i32) - (FLOATING_WINDOW_WIDTH + SCREEN_MARGIN)
            >= i32::MIN,
    ensures
        p == window_position_spec(saved, monitor),
{
    if let Some((sx, sy)) = saved {
        let x = narrow(
            match sx {
                Some(v) => v,
                None => -1,
            },
        );
        let y = narrow(
            match sy {
                Some(v) => v,
                None => -1,
            },
        );
        if x != -1 && y != -1 {
            return (x, y);
        }
    }
    match monitor {
        Some((w, _h)) => (w as i32 - (FLOATING_WINDOW_WIDTH + SCREEN_MARGIN), SCREEN_MARGIN),
        None => FALLBACK_POSITION,
    }
}

/// A position saved with both coordinates other than -1 is the one the
/// window is shown at next time.
pub proof fn lemma_saved_position_restored(x: i32, y: i32, monitor: Option<(u32, u32)>)
    requires
        x != -1,
        y != -1,
    ensures
        window_position_spec(Some((Some(x as i64), Some(y as i64))), monitor) == (x, y),
{
    assert((x as i64) as i32 == x) by (bit_vector);
    assert((y as i64) as i32 == y) by (bit_vector);
}

} // verus!
