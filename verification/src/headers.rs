//! HTTP headers as plain values, and the hop-by-hop headers the proxy drops.

use vstd::prelude::*;

use crate::text::same_text;

verus! {

broadcast use vstd::seq_lib::group_filter_ensures;

/// One header line: its name (lower case, as HTTP libraries hand it out)
/// and its raw value.
#[derive(Debug)]
pub struct Header {
    pub name: String,
    pub value: Vec<u8>,
}

/// The hop-by-hop and framing headers that are never forwarded, in either
/// direction: the proxy buffers whole bodies, so the framing of one hop does
/// not hold for the next.
pub open spec fn is_hop_by_hop(name: Seq<char>) -> bool {
    ||| name == "transfer-encoding"@
    ||| name == "content-length"@
    ||| name == "connection"@
}

/// The headers of `headers` that are forwarded, in their order.
pub open spec fn forwarded(headers: Seq<Header>) -> Seq<Header> {
    headers.filter(|h: Header| !is_hop_by_hop(h.name@))
}

/// Whether a header of this name is dropped.
pub fn is_hop_by_hop_header(name: &str) -> (r: bool)
    ensures
        r == is_hop_by_hop(name@),
{
    same_text(name, "transfer-encoding") || same_text(name, "content-length") || same_text(
        name,
        "connection",
    )
}

/// Drops the hop-by-hop headers and keeps the others, in order.
pub fn strip_hop_by_hop(headers: Vec<Header>) -> (r: Vec<Header>)
    ensures
        r@ == forwarded(headers@),
{
    let ghost all = headers@;
    let ghost pred = |h: Header| !is_hop_by_hop(h.name@);
    let mut out: Vec<Header> = Vec::new();
    for h in it: headers
        invariant
            it.seq() == all,
            pred == (|h: Header| !is_hop_by_hop(h.name@)),
            out@ == all.take(it.index() as int).filter(pred),
    {
        let ghost i = it.index();
        proof {
            reveal(Seq::filter);
            assert(all.take(i + 1).drop_last() =~= all.take(i as int));
            assert(all.take(i + 1).last() == h);
        }
        if !is_hop_by_hop_header(h.name.as_str()) {
            out.push(h);
        }
    }
    assert(all.take(all.len() as int) =~= all);
    out
}


/// A header is dropped exactly when its name is `transfer-encoding`,
/// `content-length` or `connection`.
pub proof fn lemma_hop_by_hop_names(name: Seq<char>)
    ensures
        is_hop_by_hop(name) <==> (name == "transfer-encoding"@ || name == "content-length"@ || name
            == "connection"@),
{
}

/// Forwarding keeps, in their order, exactly the headers whose name is none
/// of `transfer-encoding`, `content-length` and `connection`: every other
/// header (`content-encoding`, `origin`, `authorization`, ...) goes through.
pub proof fn lemma_only_three_headers_dropped(headers: Seq<Header>)
    ensures
        forwarded(headers) == headers.filter(
            |h: Header|
                h.name@ != "transfer-encoding"@ && h.name@ != "content-length"@ && h.name@
                    != "connection"@,
        ),
{
    let kept = |h: Header|
        h.name@ != "transfer-encoding"@ && h.name@ != "content-length"@ && h.name@ != "connection"@;
    assert((|h: Header| !is_hop_by_hop(h.name@)) =~= kept);
}

/// A header whose name is none of the three hop-by-hop names is forwarded.
pub proof fn lemma_other_headers_forwarded(headers: Seq<Header>, i: int)
    requires
        0 <= i < headers.len(),
        headers[i].name@ != "transfer-encoding"@,
        headers[i].name@ != "content-length"@,
        headers[i].name@ != "connection"@,
    ensures
        forwarded(headers).contains(headers[i]),
{
}

} // verus!
