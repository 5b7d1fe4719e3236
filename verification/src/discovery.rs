//! The discovery/listing protocol.
//!
//! Scoped listing passes one namespace's window listing through under a
//! header. Unscoped listing enumerates every session name on the host,
//! probes each one's ownership marker, keeps the owned names in host
//! order, and then fetches one summary and one window listing per owned
//! namespace — or reports "(none)" when nothing is owned.

use vstd::prelude::*;
use vstd::string::StringExecFns;

use crate::calls::{
    build_describe, build_list_windows, build_show_marker, describe_call, list_windows_call,
    show_marker_call,
};
use crate::text::{lemma_deep_view_push, spec_lines, split_lines, trim, trim_str};

verus! {

/// The session names of the enumeration output: each line, trimmed.
pub open spec fn spec_names(out: Seq<char>) -> Seq<Seq<char>> {
    spec_lines(out).map_values(|l: Seq<char>| trim(l))
}

/// Parses the session names the host enumeration returned.
pub fn parse_session_names(out: &str) -> (r: Vec<String>)
    ensures
        r.deep_view() == spec_names(out@),
{
    let lines = split_lines(out);
    let mut r: Vec<String> = Vec::new();
    let mut i: usize = 0;
    proof {
        assert(r.deep_view() =~= spec_names(out@).take(0));
    }
    while i < lines.len()
        invariant
            i <= lines@.len(),
            lines.deep_view() == spec_lines(out@),
            r.deep_view() == spec_names(out@).take(i as int),
        decreases lines@.len() - i,
    {
        let ghost pre = r;
        let t = trim_str(lines[i].as_str());
        r.push(t);
        proof {
            lemma_deep_view_push(pre, r, r@.last());
            assert(lines@[i as int].deep_view() == spec_lines(out@)[i as int]);
            assert(r.deep_view() =~= spec_names(out@).take(i + 1));
        }
        i = i + 1;
    }
    proof {
        assert(spec_names(out@).take(lines@.len() as int) =~= spec_names(out@));
    }
    r
}

/// The names whose probe answered owned, host order kept.
pub open spec fn spec_owned_names(names: Seq<Seq<char>>, owned: Seq<bool>) -> Seq<Seq<char>>
    recommends
        names.len() == owned.len(),
    decreases names.len(),
{
    if names.len() == 0 {
        Seq::empty()
    } else {
        spec_owned_names(names.drop_last(), owned.drop_last()) + (if owned[names.len() - 1] {
            seq![names.last()]
        } else {
            Seq::empty()
        })
    }
}

/// Keeps exactly the names marked owned, in their host order.
pub fn filter_owned(names: &Vec<String>, owned: &Vec<bool>) -> (r: Vec<String>)
    requires
        names@.len() == owned@.len(),
    ensures
        r.deep_view() == spec_owned_names(names.deep_view(), owned@),
{
    let mut r: Vec<String> = Vec::new();
    let mut i: usize = 0;
    proof {
        assert(names.deep_view().take(0) =~= Seq::<Seq<char>>::empty());
        assert(owned@.take(0) =~= Seq::<bool>::empty());
        assert(r.deep_view() =~= spec_owned_names(names.deep_view().take(0), owned@.take(0)));
    }
    while i < names.len()
        invariant
            i <= names@.len(),
            names@.len() == owned@.len(),
            r.deep_view() == spec_owned_names(names.deep_view().take(i as int), owned@.take(i as int)),
        decreases names@.len() - i,
    {
        let ghost pre = r;
        proof {
            assert(names.deep_view().take(i + 1).drop_last() =~= names.deep_view().take(i as int));
            assert(owned@.take(i + 1).drop_last() =~= owned@.take(i as int));
            assert(names.deep_view().take(i + 1).last() == names.deep_view()[i as int]);
        }
        if owned[i] {
            let name = names[i].clone();
            r.push(name);
            proof {
                lemma_deep_view_push(pre, r, r@.last());
                assert(r.deep_view() =~= spec_owned_names(
                    names.deep_view().take(i + 1),
                    owned@.take(i + 1),
                ));
            }
        } else {
            proof {
                assert(r.deep_view() =~= spec_owned_names(
                    names.deep_view().take(i + 1),
                    owned@.take(i + 1),
                ));
            }
        }
        i = i + 1;
    }
    proof {
        assert(names.deep_view().take(names@.len() as int) =~= names.deep_view());
        assert(owned@.take(owned@.len() as int) =~= owned@);
    }
    r
}

/// One marker probe per enumerated name, in order — every name is
/// probed, owned or not.
pub open spec fn spec_probe_plan(names: Seq<Seq<char>>) -> Seq<Seq<Seq<char>>> {
    Seq::new(names.len(), |i: int| show_marker_call(names[i]))
}

/// Builds the marker probes of an unscoped discovery.
pub fn probe_plan(names: &Vec<String>) -> (r: Vec<Vec<String>>)
    ensures
        r.deep_view() == spec_probe_plan(names.deep_view()),
{
    let mut r: Vec<Vec<String>> = Vec::new();
    let mut i: usize = 0;
    while i < names.len()
        invariant
            i <= names@.len(),
            r.deep_view() == spec_probe_plan(names.deep_view()).take(i as int),
        decreases names@.len() - i,
    {
        let ghost pre = r;
        r.push(build_show_marker(names[i].as_str()));
        proof {
            lemma_deep_view_push(pre, r, r@.last());
            assert(r.deep_view() =~= spec_probe_plan(names.deep_view()).take(i + 1));
        }
        i = i + 1;
    }
    proof {
        assert(spec_probe_plan(names.deep_view()).take(names@.len() as int) =~= spec_probe_plan(
            names.deep_view(),
        ));
    }
    r
}

/// The unscoped follow-up: one summary call per owned namespace, then
/// one window-listing call per owned namespace — two calls per owned
/// namespace, none when nothing is owned.
pub open spec fn spec_followup_plan(owned: Seq<Seq<char>>) -> Seq<Seq<Seq<char>>> {
    Seq::new(owned.len(), |i: int| describe_call(owned[i])) + Seq::new(
        owned.len(),
        |i: int| list_windows_call(owned[i]),
    )
}

/// Builds the summary and listing calls of an unscoped discovery.
pub fn followup_plan(owned: &Vec<String>) -> (r: Vec<Vec<String>>)
    ensures
        r.deep_view() == spec_followup_plan(owned.deep_view()),
{
    let ghost front = Seq::new(owned.deep_view().len(), |i: int| describe_call(owned.deep_view()[i]));
    let ghost back = Seq::new(
        owned.deep_view().len(),
        |i: int| list_windows_call(owned.deep_view()[i]),
    );
    let mut r: Vec<Vec<String>> = Vec::new();
    let mut i: usize = 0;
    while i < owned.len()
        invariant
            i <= owned@.len(),
            front == Seq::new(
                owned.deep_view().len(),
                |i: int| describe_call(owned.deep_view()[i]),
            ),
            r.deep_view() == front.take(i as int),
        decreases owned@.len() - i,
    {
        let ghost pre = r;
        r.push(build_describe(owned[i].as_str()));
        proof {
            lemma_deep_view_push(pre, r, r@.last());
            assert(r.deep_view() =~= front.take(i + 1));
        }
        i = i + 1;
    }
    proof {
        assert(front.take(owned@.len() as int) =~= front);
    }
    let mut j: usize = 0;
    while j < owned.len()
        invariant
            j <= owned@.len(),
            front == Seq::new(
                owned.deep_view().len(),
                |i: int| describe_call(owned.deep_view()[i]),
            ),
            back == Seq::new(
                owned.deep_view().len(),
                |i: int| list_windows_call(owned.deep_view()[i]),
            ),
            r.deep_view() == front + back.take(j as int),
        decreases owned@.len() - j,
    {
        let ghost pre = r;
        r.push(build_list_windows(owned[j].as_str()));
        proof {
            lemma_deep_view_push(pre, r, r@.last());
            assert(r.deep_view() =~= front + back.take(j + 1));
        }
        j = j + 1;
    }
    proof {
        assert(back.take(owned@.len() as int) =~= back);
    }
    r
}

/// The trimmed summaries, one per line.
pub open spec fn spec_summary_block(sums: Seq<Seq<char>>) -> Seq<char>
    decreases sums.len(),
{
    if sums.len() == 0 {
        Seq::empty()
    } else {
        spec_summary_block(sums.drop_last()) + trim(sums.last()) + "\n"@
    }
}

/// The window listings, passed through unmodified.
pub open spec fn spec_listing_block(ls: Seq<Seq<char>>) -> Seq<char>
    decreases ls.len(),
{
    if ls.len() == 0 {
        Seq::empty()
    } else {
        spec_listing_block(ls.drop_last()) + ls.last()
    }
}

/// The unscoped report: "(none)" twice when nothing is owned, else the
/// namespace summaries followed by every agent listing.
pub open spec fn spec_report(sums: Seq<Seq<char>>, ls: Seq<Seq<char>>) -> Seq<char> {
    if sums.len() == 0 && ls.len() == 0 {
        "NAMESPACES:\n(none)\nAGENTS:\n(none)\n"@
    } else {
        "NAMESPACES:\n"@ + spec_summary_block(sums) + "\nAGENTS:\n"@ + spec_listing_block(ls)
    }
}

/// Renders the unscoped report from the fetched summaries and listings.
pub fn render_report(sums: &Vec<String>, listings: &Vec<String>) -> (r: String)
    ensures
        r@ == spec_report(sums.deep_view(), listings.deep_view()),
{
    if sums.len() == 0 && listings.len() == 0 {
        return "NAMESPACES:\n(none)\nAGENTS:\n(none)\n".to_owned();
    }
    let mut r = "NAMESPACES:\n".to_owned();
    let mut i: usize = 0;
    proof {
        assert(sums.deep_view().take(0) =~= Seq::<Seq<char>>::empty());
        assert(r@ =~= "NAMESPACES:\n"@ + spec_summary_block(sums.deep_view().take(0)));
    }
    while i < sums.len()
        invariant
            i <= sums@.len(),
            r@ == "NAMESPACES:\n"@ + spec_summary_block(sums.deep_view().take(i as int)),
        decreases sums@.len() - i,
    {
        let t = trim_str(sums[i].as_str());
        r.append(t.as_str());
        r.append("\n");
        proof {
            assert(sums.deep_view().take(i + 1).drop_last() =~= sums.deep_view().take(i as int));
            assert(sums.deep_view().take(i + 1).last() == sums.deep_view()[i as int]);
        }
        i = i + 1;
    }
    proof {
        assert(sums.deep_view().take(sums@.len() as int) =~= sums.deep_view());
    }
    r.append("\nAGENTS:\n");
    let ghost mid = r@;
    let mut j: usize = 0;
    proof {
        assert(listings.deep_view().take(0) =~= Seq::<Seq<char>>::empty());
        assert(r@ =~= mid + spec_listing_block(listings.deep_view().take(0)));
    }
    while j < listings.len()
        invariant
            j <= listings@.len(),
            mid == "NAMESPACES:\n"@ + spec_summary_block(sums.deep_view()) + "\nAGENTS:\n"@,
            r@ == mid + spec_listing_block(listings.deep_view().take(j as int)),
        decreases listings@.len() - j,
    {
        r.append(listings[j].as_str());
        proof {
            assert(listings.deep_view().take(j + 1).drop_last() =~= listings.deep_view().take(
                j as int,
            ));
            assert(listings.deep_view().take(j + 1).last() == listings.deep_view()[j as int]);
        }
        j = j + 1;
    }
    proof {
        assert(listings.deep_view().take(listings@.len() as int) =~= listings.deep_view());
    }
    r
}

/// The scoped report: the namespace's window listing under a header.
pub open spec fn spec_scoped_report(ns: Seq<char>, out: Seq<char>) -> Seq<char> {
    "Windows in '"@ + ns + "':\n"@ + out
}

/// Renders the scoped report for one namespace.
pub fn render_scoped(ns: &str, out: &str) -> (r: String)
    ensures
        r@ == spec_scoped_report(ns@, out@),
{
    let mut r = "Windows in '".to_owned();
    r.append(ns);
    r.append("':\n");
    r.append(out);
    r
}

/// Law: with no owned namespace the unscoped discovery issues no
/// summary or listing call and reports "(none)" for namespaces and for
/// agents.
pub proof fn lemma_unscoped_empty()
    ensures
        spec_followup_plan(Seq::empty()).len() == 0,
        spec_report(Seq::empty(), Seq::empty()) == "NAMESPACES:\n(none)\nAGENTS:\n(none)\n"@,
{
    assert(spec_followup_plan(Seq::empty()) =~= Seq::<Seq<Seq<char>>>::empty());
}

} // verus!
