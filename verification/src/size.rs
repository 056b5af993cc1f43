//! Terminal window sizes and their mapping to the kernel's window-size record.

use vstd::prelude::*;

verus! {

/// A rectangular size in number of columns and rows.
#[derive(Clone, Copy, Debug, PartialEq, Eq, Structural)]
pub struct Size {
    /// Number of columns
    pub width: u16,
    /// Number of rows
    pub height: u16,
}

/// The kernel's window-size record for a terminal device: this crate's own
/// model of the C `winsize` structure, holding as plain values the fields
/// the session logic reads and sets.
#[derive(Clone, Copy, Debug, PartialEq, Eq, Structural)]
pub struct Winsize {
    /// Number of rows
    pub ws_row: u16,
    /// Number of columns
    pub ws_col: u16,
    /// Horizontal pixel count; unused, kept at zero
    pub ws_xpixel: u16,
    /// Vertical pixel count; unused, kept at zero
    pub ws_ypixel: u16,
}

impl Size {
    /// The window-size record this size denotes: width maps to the column
    /// field, height to the row field, and both pixel fields stay zero.
    pub open spec fn winsize_spec(&self) -> Winsize {
        Winsize { ws_row: self.height, ws_col: self.width, ws_xpixel: 0, ws_ypixel: 0 }
    }

    /// Builds the window-size record to hand to the kernel for this size.
    pub fn to_c_winsize(&self) -> (w: Winsize)
        ensures
            w == self.winsize_spec(),
            w.ws_col == self.width,
            w.ws_row == self.height,
            w.ws_xpixel == 0,
            w.ws_ypixel == 0,
    {
        Winsize { ws_row: self.height, ws_col: self.width, ws_xpixel: 0, ws_ypixel: 0 }
    }
}

/// The kernel-visible window size after a resize to `size` is applied to a
/// PTY whose window size was `current`: the new record depends on `size`
/// alone, whatever was set before, and nothing else about the PTY changes.
pub open spec fn resize_effect(current: Winsize, size: Size) -> Winsize {
    size.winsize_spec()
}

/// Law: resizing twice in a row with the same size leaves the PTY's
/// kernel-visible window size exactly as one resize does.
pub proof fn lemma_resize_idempotent(w: Winsize, size: Size)
    ensures
        resize_effect(resize_effect(w, size), size) == resize_effect(w, size),
{
}

/// Relies on termion::terminal_size: the current (columns, rows) of the
/// process's terminal, or an error when there is none.
#[verifier::external_body]
fn query_terminal_size() -> Option<(u16, u16)> {
    termion::terminal_size().ok()
}

/// Returns the controlling terminal's current size, or `None` when it cannot
/// be queried. The value depends on the terminal the process runs under, so
/// nothing is promised of it beyond the field mapping.
pub fn get_terminal_size() -> Option<Size> {
    match query_terminal_size() {
        Some((width, height)) => Some(Size { width, height }),
        None => None,
    }
}

} // verus!
