//! What the terminal shows: how the screen is divided, and where the
//! highlight of the list of runtime errors goes.

use vstd::prelude::*;

verus! {

/// The height of the progress gauge.
pub const PROGRESS_HEIGHT: u16 = 3;

/// The least height of the list of runtime errors.
pub const MIN_HEIGHT: u16 = 5;

/// A key that moves the highlight.
#[derive(PartialEq, Eq, Clone, Copy, Debug, Structural)]
pub enum Move {
    /// One up.
    Up,
    /// Ten up.
    PageUp,
    /// One down.
    Down,
    /// Ten down.
    PageDown,
}

/// How far a key moves the highlight.
pub open spec fn stride(m: Move) -> int {
    match m {
        Move::Up | Move::Down => 1,
        Move::PageUp | Move::PageDown => 10,
    }
}

/// Where the highlight goes in a list of `len` entries. It moves by the
/// stride of the key and stops at either end. Where nothing was
/// highlighted, a key that moves up highlights the first entry, and one
/// that moves down the last.
pub open spec fn moved(selected: Option<usize>, m: Move, len: int) -> int {
    match m {
        Move::Up | Move::PageUp => match selected {
            Some(i) => if i >= stride(m) {
                i - stride(m)
            } else {
                0
            },
            None => 0,
        },
        Move::Down | Move::PageDown => match selected {
            Some(i) => if i + stride(m) <= len - 1 {
                i + stride(m)
            } else {
                len - 1
            },
            None => len - 1,
        },
    }
}

/// Moves the highlight of a list that is not empty.
pub fn move_selection(selected: Option<usize>, m: Move, len: usize) -> (r: usize)
    requires
        len > 0,
    ensures
        r == moved(selected, m, len as int),
        selected matches Some(i) && i < len ==> r < len,
        selected is None ==> r < len,
{
    let by: usize = match m {
        Move::Up | Move::Down => 1,
        Move::PageUp | Move::PageDown => 10,
    };
    match m {
        Move::Up | Move::PageUp => match selected {
            Some(i) => if i >= by {
                i - by
            } else {
                0
            },
            None => 0,
        },
        Move::Down | Move::PageDown => match selected {
            Some(i) => if i <= len - 1 && by <= len - 1 - i {
                i + by
            } else {
                len - 1
            },
            None => len - 1,
        },
    }
}

/// The heights of the three parts of the screen.
#[derive(PartialEq, Eq, Clone, Copy, Debug, Structural)]
pub struct Layout {
    /// The list of jobs.
    pub jobs: u16,
    /// The list of runtime errors.
    pub runtime: u16,
    /// The progress gauge.
    pub progress: u16,
}

/// The height of the list of jobs on a screen of height `h`: two lines of
/// border and one line for each job, as far as the gauge and the least
/// height of the runtime list leave room.
pub open spec fn jobs_height(h: int, jobs: int) -> int {
    if 2 + jobs <= h - PROGRESS_HEIGHT - MIN_HEIGHT {
        2 + jobs
    } else {
        h - PROGRESS_HEIGHT - MIN_HEIGHT
    }
}

/// Divides a screen of height `h` among the list of `jobs` jobs, the list
/// of runtime errors and the progress gauge. A screen that has no room for
/// the gauge and the least runtime list is not divided.
pub fn layout(h: u16, jobs: usize) -> (r: Option<Layout>)
    ensures
        r.is_some() == (h >= PROGRESS_HEIGHT + MIN_HEIGHT),
        r matches Some(l) ==> l.jobs == jobs_height(h as int, jobs as int) && l.progress
            == PROGRESS_HEIGHT && l.jobs + l.runtime + l.progress == h && l.runtime >= MIN_HEIGHT,
{
    if h < PROGRESS_HEIGHT + MIN_HEIGHT {
        return None;
    }
    let room: u16 = h - PROGRESS_HEIGHT - MIN_HEIGHT;
    let j: u16 = if jobs <= 0xffff && jobs + 2 <= room as usize {
        (jobs + 2) as u16
    } else {
        room
    };
    Some(Layout { jobs: j, runtime: h - j - PROGRESS_HEIGHT, progress: PROGRESS_HEIGHT })
}

} // verus!
