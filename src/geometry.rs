use vstd::prelude::*;

verus! {

/// Columns used when a session is started without a width.
pub const DEFAULT_COLS: u16 = 80;

/// Rows used when a session is started without a height.
pub const DEFAULT_ROWS: u16 = 24;

/// Size of a pseudo-terminal in character cells. Pixel sizes are kept for the
/// terminal layer and are always zero here.
#[derive(Clone, Copy, Debug, PartialEq, Eq, Structural)]
pub struct Geometry {
    pub cols: u16,
    pub rows: u16,
    pub pixel_width: u16,
    pub pixel_height: u16,
}

impl Geometry {
    /// A geometry measured in cells only.
    pub fn cells(cols: u16, rows: u16) -> (r: Geometry)
        ensures
            r == (Geometry { cols, rows, pixel_width: 0, pixel_height: 0 }),
    {
        Geometry { cols, rows, pixel_width: 0, pixel_height: 0 }
    }
}

/// What an optional size stands for: the given value, else the default.
pub open spec fn or_default(v: Option<u16>, d: u16) -> u16 {
    match v {
        Some(x) => x,
        None => d,
    }
}

/// The geometry a new session starts with; a missing side takes 80 columns or
/// 24 rows.
pub fn default_size(cols: Option<u16>, rows: Option<u16>) -> (r: Geometry)
    ensures
        r.cols == or_default(cols, DEFAULT_COLS),
        r.rows == or_default(rows, DEFAULT_ROWS),
        r.pixel_width == 0,
        r.pixel_height == 0,
{
    let c: u16 = match cols {
        Some(x) => x,
        None => DEFAULT_COLS,
    };
    let r: u16 = match rows {
        Some(x) => x,
        None => DEFAULT_ROWS,
    };
    Geometry::cells(c, r)
}

} // verus!
