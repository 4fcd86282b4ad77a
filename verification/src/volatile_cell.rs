//! The trusted boundary to the `volatile` crate: every access to a grid cell
//! goes through `volatile::Volatile`, so reads and writes are observable
//! memory accesses that the optimizer can neither cache, coalesce nor elide.

use vstd::prelude::*;
use crate::vga_buffer::ScreenChar;

verus! {

#[verifier::external_type_specification]
#[verifier::external_body]
#[verifier::reject_recursive_types(T)]
pub struct ExVolatile<T: Copy>(volatile::Volatile<T>);

/// The value stored in a volatile cell: what the next volatile read of the
/// cell observes, as established by `vol_new` and `vol_write`.
pub uninterp spec fn vol_contents(v: volatile::Volatile<ScreenChar>) -> ScreenChar;

/// Relies on volatile::Volatile::new: wraps the given value, so that a later
/// volatile read of the cell observes exactly this value.
#[verifier::external_body]
pub fn vol_new(c: ScreenChar) -> (v: volatile::Volatile<ScreenChar>)
    ensures
        vol_contents(v) == c,
{
    volatile::Volatile::new(c)
}

/// Relies on volatile::Volatile::read: performs one volatile read
/// (`ptr::read_volatile`) of the stored value and returns a copy of it.
#[verifier::external_body]
pub fn vol_read(v: &volatile::Volatile<ScreenChar>) -> (c: ScreenChar)
    ensures
        c == vol_contents(*v),
{
    v.read()
}

/// Relies on volatile::Volatile::write: performs one volatile write
/// (`ptr::write_volatile`) storing the given value into the cell.
#[verifier::external_body]
pub fn vol_write(v: &mut volatile::Volatile<ScreenChar>, c: ScreenChar)
    ensures
        vol_contents(*final(v)) == c,
{
    v.write(c)
}

} // verus!
