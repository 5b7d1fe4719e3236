//! The ownership marker protocol: tool-created namespaces carry a
//! marker key set to `"1"`; discovery later recognizes exactly those.
//!
//! The host's marker table is modelled as a map from namespace name to
//! marker value; a namespace outside the map reads as the empty string,
//! exactly as the control plane answers a quiet read of an absent key.

use vstd::prelude::*;
use vstd::string::StringExecFns;

use crate::text::{trim, trim_str};

verus! {

/// True when a marker read reports ownership: the value, trimmed of
/// surrounding whitespace, is exactly `"1"`.
pub open spec fn spec_owned(s: Seq<char>) -> bool {
    trim(s) == seq!['1']
}

/// Decides ownership from the text a marker read returned. An absent
/// namespace or key reads as empty, which is not owned — no error.
pub fn is_owned(s: &str) -> (r: bool)
    ensures
        r == spec_owned(s@),
{
    let t = trim_str(s);
    let one = String::from_str("1");
    proof {
        reveal_strlit("1");
        assert("1"@ =~= seq!['1']);
    }
    t == one
}

/// The marker value a read returns: what the table holds, or the empty
/// string where the namespace was never marked.
pub open spec fn read_marker(host: Map<Seq<char>, Seq<char>>, ns: Seq<char>) -> Seq<char> {
    if host.dom().contains(ns) {
        host[ns]
    } else {
        Seq::empty()
    }
}

/// The marker table after `mark`: the namespace's marker set to `"1"`.
pub open spec fn mark_host(host: Map<Seq<char>, Seq<char>>, ns: Seq<char>) -> Map<
    Seq<char>,
    Seq<char>,
> {
    host.insert(ns, seq!['1'])
}

/// Law: a namespace whose marker was never set reads as not owned; one
/// just marked reads as owned; and marking again changes nothing, so
/// repeated reads keep answering owned (`read_marker` is a pure
/// function of the table, so a read never changes the answer).
pub proof fn lemma_mark_owned(host: Map<Seq<char>, Seq<char>>, ns: Seq<char>)
    ensures
        !host.dom().contains(ns) ==> !spec_owned(read_marker(host, ns)),
        spec_owned(read_marker(mark_host(host, ns), ns)),
        mark_host(mark_host(host, ns), ns) == mark_host(host, ns),
{
    assert(trim(Seq::<char>::empty()) =~= Seq::<char>::empty());
    let one = seq!['1'];
    assert(trim(one) =~= one);
    assert(mark_host(mark_host(host, ns), ns) =~= mark_host(host, ns));
}

} // verus!
