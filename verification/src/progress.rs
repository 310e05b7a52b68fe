//! The progress bar of a download: how wide it may be.

use vstd::prelude::*;

verus! {

/// The widest text that is written to a terminal.
pub const MAX_WIDTH: usize = 100;

/// The widest progress bar.
pub const MAX_PROGRESS_WIDTH: usize = 40;

/// Where the bytes of an archive come from.
#[derive(Clone, Copy, Debug, PartialEq, Eq, Structural)]
pub enum Origin {
    /// A file that is already here.
    Local,
    /// A download.
    Remote,
}

/// What is being done with an archive of the origin `origin`.
pub fn action_str(origin: Origin) -> (r: &'static str)
    ensures
        r@ == match origin {
            Origin::Local => "Unpacking"@,
            Origin::Remote => "Fetching"@,
        },
{
    match origin {
        Origin::Local => "Unpacking",
        Origin::Remote => "Fetching",
    }
}

/// The width to write text in, for a terminal of `columns` columns: no
/// more than `MAX_WIDTH`.
pub fn text_width(columns: Option<u16>) -> (r: Option<usize>)
    ensures
        match columns {
            Some(w) => r == Some(if w <= MAX_WIDTH { w as usize } else { MAX_WIDTH }),
            None => r is None,
        },
{
    match columns {
        Some(w) => {
            let w: usize = w as usize;
            Some(if w <= MAX_WIDTH { w } else { MAX_WIDTH })
        },
        None => None,
    }
}

/// The columns that a progress line needs besides its bar: the message,
/// which is the action with two spaces before it, a space and the details,
/// then the frame of the bar and the percentage.
pub open spec fn frame_width(action_len: int, details_len: int) -> int {
    2 + (action_len + 2 + 1 + details_len) + 2 + 2 + 1 + 3 + 1
}

/// The width of the bar: what the frame leaves of the terminal, but no more
/// than `MAX_PROGRESS_WIDTH`. A terminal of unknown width, or one too
/// narrow for the frame, gets the widest bar.
pub open spec fn bar_width_of(width: Option<usize>, action_len: int, details_len: int) -> int {
    match width {
        Some(w) => if w >= frame_width(action_len, details_len) {
            if w - frame_width(action_len, details_len) <= MAX_PROGRESS_WIDTH {
                w - frame_width(action_len, details_len)
            } else {
                MAX_PROGRESS_WIDTH as int
            }
        } else {
            MAX_PROGRESS_WIDTH as int
        },
        None => MAX_PROGRESS_WIDTH as int,
    }
}

/// The width of the progress bar for a message of `action_len` and
/// `details_len` bytes on a terminal of the width `width`.
pub fn bar_width(width: Option<usize>, action_len: usize, details_len: usize) -> (r: usize)
    ensures
        r == bar_width_of(width, action_len as int, details_len as int),
        r <= MAX_PROGRESS_WIDTH,
{
    match width {
        Some(w) => {
            if action_len > w || details_len > w {
                return MAX_PROGRESS_WIDTH;
            }
            if w - action_len < details_len {
                return MAX_PROGRESS_WIDTH;
            }
            let left: usize = w - action_len - details_len;
            if left < 14 {
                return MAX_PROGRESS_WIDTH;
            }
            let bar: usize = left - 14;
            if bar <= MAX_PROGRESS_WIDTH {
                bar
            } else {
                MAX_PROGRESS_WIDTH
            }
        },
        None => MAX_PROGRESS_WIDTH,
    }
}

} // verus!
