//! Hardware identity from the firmware tables: trimming the raw values and
//! filtering out the firmware's placeholder strings. Reading the tables
//! happens at the runtime's edge.

use vstd::prelude::*;
use crate::text::trim_spec;

verus! {

/// The hardware identity, where the firmware reports a meaningful one.
pub struct Dmi {
    pub manufacturer: Option<String>,
    pub model: Option<String>,
}

/// Trims a raw firmware value and keeps it only when it is neither empty
/// nor the given placeholder.
pub fn normalize_dmi_value(raw: &str, placeholder: &str) -> (r: Option<String>)
    ensures
        match r {
            Some(v) => v@ == trim_spec(raw@) && v@.len() > 0 && v@ != placeholder@,
            None => trim_spec(raw@).len() == 0 || trim_spec(raw@) == placeholder@,
        },
{
    let t = crate::text::trim_str(raw);
    if t.is_empty() || crate::strutil::str_eq(t, placeholder) {
        None
    } else {
        Some(String::from_str(t))
    }
}

} // verus!
