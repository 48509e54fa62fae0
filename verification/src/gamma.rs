//! Which row of the gamma-correction table a display gamma selects.
//!
//! The table holds float ratios for gammas 1.0 to 2.2 in steps of 0.1; the
//! caller rounds the gamma, times ten, to a whole number and looks the row
//! up here.

use vstd::prelude::*;

verus! {

/// The number of rows of the gamma-correction table.
pub const GAMMA_ROWS: usize = 13;

/// The row for a gamma given in tenths: gammas below 1.0 use the first row,
/// gammas above 2.2 the last.
pub open spec fn gamma_row(tenths: usize) -> usize {
    if tenths < 10 {
        0
    } else if tenths > 22 {
        12
    } else {
        (tenths - 10) as usize
    }
}

/// The table row for a gamma given in tenths, clamped to the table.
pub fn gamma_table_row(tenths: usize) -> (r: usize)
    ensures
        r == gamma_row(tenths),
        r < GAMMA_ROWS,
{
    let clamped = if tenths < 10 {
        10
    } else if tenths > 22 {
        22
    } else {
        tenths
    };
    clamped - 10
}

} // verus!
