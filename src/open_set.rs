use vstd::prelude::*;

verus! {

/// `s` with every occurrence of `id` taken out, the rest in order.
pub open spec fn without(s: Seq<usize>, id: usize) -> Seq<usize>
    decreases s.len(),
{
    if s.len() == 0 {
        s
    } else {
        let rest = without(s.drop_last(), id);
        if s.last() == id {
            rest
        } else {
            rest.push(s.last())
        }
    }
}

/// The open items after a request to open `id`.
pub open spec fn opened(items: Seq<usize>, allow_multiple_open: bool, id: usize) -> Seq<usize> {
    if !allow_multiple_open {
        seq![id]
    } else if items.contains(id) {
        items
    } else {
        items.push(id)
    }
}

/// Whether a request to close an item is refused: the accordion is not
/// collapsible and exactly one item is open.
pub open spec fn close_refused(items: Seq<usize>, collapsible: bool) -> bool {
    !collapsible && items.len() == 1
}

/// The open items after a request to close `id`.
pub open spec fn closed(items: Seq<usize>, collapsible: bool, id: usize) -> Seq<usize> {
    if close_refused(items, collapsible) {
        items
    } else {
        without(items, id)
    }
}

/// A request that changes which items are open.
pub enum OpenRequest {
    Open(usize),
    Close(usize),
}

/// The open items after one request.
pub open spec fn apply_request(
    items: Seq<usize>,
    allow_multiple_open: bool,
    collapsible: bool,
    req: OpenRequest,
) -> Seq<usize> {
    match req {
        OpenRequest::Open(id) => opened(items, allow_multiple_open, id),
        OpenRequest::Close(id) => closed(items, collapsible, id),
    }
}

/// The open items after a run of requests, taken in order.
pub open spec fn apply_requests(
    items: Seq<usize>,
    allow_multiple_open: bool,
    collapsible: bool,
    reqs: Seq<OpenRequest>,
) -> Seq<usize>
    decreases reqs.len(),
{
    if reqs.len() == 0 {
        items
    } else {
        apply_request(
            apply_requests(items, allow_multiple_open, collapsible, reqs.drop_last()),
            allow_multiple_open,
            collapsible,
            reqs.last(),
        )
    }
}

/// Taking an id out keeps exactly the other members, and no member twice.
pub proof fn lemma_without(s: Seq<usize>, id: usize)
    ensures
        forall|x: usize| #[trigger] without(s, id).contains(x) <==> (s.contains(x) && x != id),
        without(s, id).len() <= s.len(),
        s.no_duplicates() ==> without(s, id).no_duplicates(),
    decreases s.len(),
{
    if s.len() > 0 {
        let init = s.drop_last();
        lemma_without(init, id);
        assert(s =~= init.push(s.last()));
        let rest = without(init, id);
        assert forall|x: usize| #[trigger] without(s, id).contains(x) <==> (s.contains(x) && x
            != id) by {
            let r = without(s, id);
            if s.contains(x) && x != id {
                let k = choose|k: int| 0 <= k < s.len() && s[k] == x;
                if k < s.len() - 1 {
                    assert(init[k] == x);
                    assert(rest.contains(x));
                    let j = choose|j: int| 0 <= j < rest.len() && rest[j] == x;
                    assert(r[j] == x);
                } else {
                    assert(r[rest.len() as int] == x);
                }
            }
            if r.contains(x) {
                let j = choose|j: int| 0 <= j < r.len() && r[j] == x;
                if j < rest.len() {
                    assert(rest[j] == x);
                    assert(rest.contains(x));
                    let k = choose|k: int| 0 <= k < init.len() && init[k] == x;
                    assert(s[k] == x);
                } else {
                    assert(s[s.len() - 1] == x);
                }
            }
        }
        if s.no_duplicates() && s.last() != id {
            assert(!init.contains(s.last()));
            assert(!rest.contains(s.last()));
        }
    }
}

/// Opening keeps the items free of repeats; with one item allowed open, at most
/// one is open afterwards.
pub proof fn lemma_opened(items: Seq<usize>, allow_multiple_open: bool, id: usize)
    requires
        items.no_duplicates(),
    ensures
        opened(items, allow_multiple_open, id).no_duplicates(),
        opened(items, allow_multiple_open, id).contains(id),
        !allow_multiple_open ==> opened(items, allow_multiple_open, id).len() == 1,
{
    let r = opened(items, allow_multiple_open, id);
    if !allow_multiple_open {
        assert(r[0] == id);
    } else if items.contains(id) {
    } else {
        assert(r[items.len() as int] == id);
    }
}

/// Closing keeps the items free of repeats and never adds one.
pub proof fn lemma_closed(items: Seq<usize>, collapsible: bool, id: usize)
    requires
        items.no_duplicates(),
    ensures
        closed(items, collapsible, id).no_duplicates(),
        closed(items, collapsible, id).len() <= items.len(),
        !close_refused(items, collapsible) ==> !closed(items, collapsible, id).contains(id),
{
    lemma_without(items, id);
}

/// With only one item allowed open, no run of open and close requests ever
/// leaves more than one item open.
pub proof fn lemma_at_most_one_open(items: Seq<usize>, collapsible: bool, reqs: Seq<OpenRequest>)
    requires
        items.len() <= 1,
    ensures
        apply_requests(items, false, collapsible, reqs).len() <= 1,
    decreases reqs.len(),
{
    if reqs.len() > 0 {
        let before = apply_requests(items, false, collapsible, reqs.drop_last());
        lemma_at_most_one_open(items, collapsible, reqs.drop_last());
        match reqs.last() {
            OpenRequest::Open(id) => {},
            OpenRequest::Close(id) => {
                lemma_without(before, id);
            },
        }
    }
}

/// When the accordion is not collapsible and one item is open, closing that
/// item changes nothing: it stays the one open item.
pub proof fn lemma_last_open_stays(items: Seq<usize>, id: usize)
    requires
        items.len() == 1,
        items[0] == id,
    ensures
        closed(items, false, id) == items,
        closed(items, false, id).len() == 1,
{
}

} // verus!
