//! Labels of the per-request metrics.
use vstd::prelude::*;
use vstd::string::*;

verus! {

/// The route label of a request: the route pattern it matched, or
/// `"<unmatched>"` when it matched none.
pub fn route_label(matched: Option<&str>) -> (r: String)
    ensures
        r@ == match matched {
            Some(m) => m@,
            None => "<unmatched>"@,
        },
{
    match matched {
        Some(m) => String::from_str(m),
        None => String::from_str("<unmatched>"),
    }
}

} // verus!
