//! Topic strings: every unit publishes or subscribes under
//! `{base}/{name}`, and the process-wide base is `{prefix}/{host slug}`.

use vstd::prelude::*;

verus! {

/// The topic `{base}/{name}`.
pub open spec fn topic_of(base: Seq<char>, name: Seq<char>) -> Seq<char> {
    base + seq!['/'] + name
}

/// Builds the topic `{base}/{name}`.
pub fn make_topic(base: &str, name: &str) -> (r: String)
    ensures
        r@ == topic_of(base@, name@),
{
    let mut out = String::from_str(base);
    crate::strutil::push_char(&mut out, '/');
    crate::strutil::append_str(&mut out, name);
    proof {
        assert(out@ =~= topic_of(base@, name@));
    }
    out
}

} // verus!
