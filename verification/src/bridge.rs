//! Callback-bridge rules: what one raw backend callback firing becomes.
//!
//! The backend reports a hit by firing a fixed-signature C callback with an
//! address and string pointers.  The unverified shell copies those strings
//! out (a null pointer becomes `None`) and asks this module what to do:
//! either build one `Symbol` record, or signal a miss back to the backend
//! so the caller's fallback path runs.  The shell's only remaining job is
//! to hand the status to the backend and the record to the user's closure.

use vstd::prelude::*;

use crate::symbol::Symbol;

verus! {

/// The status a line-table callback reports back to the backend: zero for
/// a handled record, nonzero to signal a miss.
pub const MISS_STATUS: i32 = -1;

/// Line-table callback rule: a firing whose file name or function name is
/// missing is a miss — no record is built and the nonzero status tells the
/// backend the lookup failed, which triggers the caller's symbol-table
/// fallback.  A complete firing becomes one line-table record and status
/// zero.
pub fn pcinfo_record(pc: usize, filename: Option<Vec<u8>>, lineno: u32, function: Option<
    Vec<u8>,
>) -> (r: (i32, Option<Symbol>))
    ensures
        (filename is None || function is None) ==> r == (MISS_STATUS, None::<Symbol>),
        filename matches Some(f) ==> function matches Some(g) ==> r == (
            0i32,
            Some(Symbol::Pcinfo { pc, filename: f, lineno, function: Some(g) }),
        ),
        r.1 is Some <==> (filename is Some && function is Some),
{
    match (filename, function) {
        (Some(f), Some(g)) => (
            0,
            Some(Symbol::Pcinfo { pc, filename: f, lineno, function: Some(g) }),
        ),
        _ => (MISS_STATUS, None),
    }
}

/// Symbol-table callback rule: every firing becomes one symbol-table
/// record; a missing name stays missing in the record.
pub fn syminfo_record(pc: usize, symname: Option<Vec<u8>>) -> (s: Symbol)
    ensures
        s == (Symbol::Syminfo { pc, symname }),
{
    Symbol::Syminfo { pc, symname }
}

} // verus!
