//! The routing table: which destinations receive the bytes read from each
//! source, validated against the declared endpoint identifiers.

use vstd::prelude::*;

use crate::config::Route;
use crate::error::Error;

verus! {

/// The character sequences of a list of identifiers.
pub open spec fn id_views(ids: Seq<String>) -> Seq<Seq<char>> {
    ids.map_values(|s: String| s@)
}

/// The (source, destination) character sequences of each edge.
pub open spec fn edge_views(edges: Seq<Route>) -> Seq<(Seq<char>, Seq<char>)> {
    edges.map_values(|e: Route| (e.src@, e.dst@))
}

/// No identifier occurs twice.
pub open spec fn ids_unique(ids: Seq<Seq<char>>) -> bool {
    forall|i: int, j: int| 0 <= i < j < ids.len() ==> ids[i] != ids[j]
}

/// Both endpoints of every edge are declared identifiers.
pub open spec fn edges_declared(
    edges: Seq<(Seq<char>, Seq<char>)>,
    ids: Seq<Seq<char>>,
) -> bool {
    forall|k: int|
        0 <= k < edges.len() ==> ids.contains(#[trigger] edges[k].0) && ids.contains(
            edges[k].1,
        )
}

/// The destinations of `src`, in the order the edges were declared.
pub open spec fn dests_of(edges: Seq<(Seq<char>, Seq<char>)>, src: Seq<char>) -> Seq<
    Seq<char>,
>
    decreases edges.len(),
{
    if edges.len() == 0 {
        Seq::empty()
    } else if edges.last().0 == src {
        dests_of(edges.drop_last(), src) + seq![edges.last().1]
    } else {
        dests_of(edges.drop_last(), src)
    }
}

/// Every destination routed from some source is the destination of one of
/// the edges.
pub proof fn lemma_dests_of_are_edge_dsts(
    edges: Seq<(Seq<char>, Seq<char>)>,
    src: Seq<char>,
    d: Seq<char>,
)
    requires
        dests_of(edges, src).contains(d),
    ensures
        exists|k: int| 0 <= k < edges.len() && edges[k] == (src, d),
    decreases edges.len(),
{
    if edges.len() > 0 {
        if edges.last().0 == src && d == edges.last().1 {
            assert(edges[edges.len() - 1] == (src, d));
        } else {
            let pre = dests_of(edges.drop_last(), src);
            if edges.last().0 == src {
                let i = choose|i: int| 0 <= i < (pre + seq![edges.last().1]).len() && (pre
                    + seq![edges.last().1])[i] == d;
                assert(pre[i] == d);
            }
            lemma_dests_of_are_edge_dsts(edges.drop_last(), src, d);
            let k = choose|k: int|
                0 <= k < edges.drop_last().len() && edges.drop_last()[k] == (src, d);
            assert(edges[k] == (src, d));
        }
    }
}

/// A validated routing table: the declared identifiers are unique and every
/// edge joins two declared endpoints.  Immutable once built.
pub struct RoutingTable {
    ids: Vec<String>,
    edges: Vec<Route>,
}

/// True if some identifier in `ids` reads `x`.
pub(crate) fn contains_id(ids: &Vec<String>, x: &String) -> (r: bool)
    ensures
        r == id_views(ids@).contains(x@),
{
    let n = ids.len();
    let mut i: usize = 0;
    while i < n
        invariant
            i <= n,
            n == ids@.len(),
            forall|j: int| 0 <= j < i ==> ids@[j]@ != x@,
        decreases n - i,
    {
        if ids[i] == *x {
            proof {
                assert(id_views(ids@)[i as int] == x@);
            }
            return true;
        }
        i += 1;
    }
    proof {
        assert forall|j: int| 0 <= j < id_views(ids@).len() implies id_views(ids@)[j]
            != x@ by {
            assert(id_views(ids@)[j] == ids@[j]@);
        }
    }
    false
}

impl RoutingTable {
    /// The declared endpoint identifiers, in declaration order.
    pub closed spec fn spec_ids(&self) -> Seq<Seq<char>> {
        id_views(self.ids@)
    }

    /// The routing edges, in declaration order.
    pub closed spec fn spec_edges(&self) -> Seq<(Seq<char>, Seq<char>)> {
        edge_views(self.edges@)
    }

    /// The destinations of `src`, in declaration order.
    pub open spec fn spec_dests(&self, src: Seq<char>) -> Seq<Seq<char>> {
        dests_of(self.spec_edges(), src)
    }

    /// The validation invariant every built table satisfies.
    pub open spec fn wf(&self) -> bool {
        &&& ids_unique(self.spec_ids())
        &&& edges_declared(self.spec_edges(), self.spec_ids())
    }

    /// Validates the declared identifiers and edges and assembles the table.
    ///
    /// Duplicate identifiers are rejected before any edge is examined; an
    /// edge endpoint that no declared identifier matches is rejected with
    /// the offending identifier and edge.  No OS resource is touched here.
    pub fn build(ids: Vec<String>, edges: Vec<Route>) -> (r: Result<RoutingTable, Error>)
        ensures
            r is Ok <==> (ids_unique(id_views(ids@)) && edges_declared(
                edge_views(edges@),
                id_views(ids@),
            )),
            match r {
                Ok(t) => {
                    &&& t.spec_ids() == id_views(ids@)
                    &&& t.spec_edges() == edge_views(edges@)
                    &&& t.wf()
                },
                Err(e) => match e {
                    Error::DuplicateIdentifier { identifier } => exists|i: int, j: int|
                        0 <= i < j < ids@.len() && ids@[i]@ == identifier@ && ids@[j]@
                            == identifier@,
                    Error::UnknownEndpoint { identifier, edge } => {
                        &&& ids_unique(id_views(ids@))
                        &&& edge_views(edges@).contains((edge.src@, edge.dst@))
                        &&& identifier@ == edge.src@ || identifier@ == edge.dst@
                        &&& !id_views(ids@).contains(identifier@)
                    },
                    _ => false,
                },
            },
    {
        let n = ids.len();
        let mut i: usize = 0;
        while i < n
            invariant
                i <= n,
                n == ids@.len(),
                forall|p: int, q: int| 0 <= p < q < i ==> ids@[p]@ != ids@[q]@,
            decreases n - i,
        {
            let mut j: usize = 0;
            while j < i
                invariant
                    j <= i < n,
                    n == ids@.len(),
                    forall|q: int| 0 <= q < j ==> ids@[q]@ != ids@[i as int]@,
                decreases i - j,
            {
                if ids[j] == ids[i] {
                    proof {
                        assert(id_views(ids@)[j as int] == ids@[j as int]@);
                        assert(id_views(ids@)[i as int] == ids@[i as int]@);
                        assert(!ids_unique(id_views(ids@)));
                    }
                    return Err(Error::DuplicateIdentifier { identifier: ids[i].clone() });
                }
                j += 1;
            }
            i += 1;
        }
        proof {
            assert forall|p: int, q: int| 0 <= p < q < id_views(ids@).len() implies id_views(
                ids@,
            )[p] != id_views(ids@)[q] by {
                assert(id_views(ids@)[p] == ids@[p]@);
                assert(id_views(ids@)[q] == ids@[q]@);
            }
        }
        let m = edges.len();
        let mut k: usize = 0;
        while k < m
            invariant
                k <= m,
                m == edges@.len(),
                ids_unique(id_views(ids@)),
                forall|t: int|
                    0 <= t < k ==> id_views(ids@).contains(#[trigger] edges@[t].src@)
                        && id_views(ids@).contains(edges@[t].dst@),
            decreases m - k,
        {
            if !contains_id(&ids, &edges[k].src) {
                let edge = Route { src: edges[k].src.clone(), dst: edges[k].dst.clone() };
                proof {
                    assert(edge_views(edges@)[k as int] == (edge.src@, edge.dst@));
                    assert(!id_views(ids@).contains(edge_views(edges@)[k as int].0));
                    assert(!edges_declared(edge_views(edges@), id_views(ids@)));
                }
                return Err(
                    Error::UnknownEndpoint { identifier: edges[k].src.clone(), edge },
                );
            }
            if !contains_id(&ids, &edges[k].dst) {
                let edge = Route { src: edges[k].src.clone(), dst: edges[k].dst.clone() };
                proof {
                    assert(edge_views(edges@)[k as int] == (edge.src@, edge.dst@));
                    assert(edge_views(edges@)[k as int].0 == edge.src@);
                    assert(!id_views(ids@).contains(edge_views(edges@)[k as int].1));
                    assert(!edges_declared(edge_views(edges@), id_views(ids@)));
                }
                return Err(
                    Error::UnknownEndpoint { identifier: edges[k].dst.clone(), edge },
                );
            }
            proof {
                assert forall|t: int|
                    0 <= t < k + 1 implies id_views(ids@).contains(
                    #[trigger] edges@[t].src@,
                ) && id_views(ids@).contains(edges@[t].dst@) by {
                    if t == k as int {
                        assert(id_views(ids@).contains(edges@[t].src@));
                        assert(id_views(ids@).contains(edges@[t].dst@));
                    }
                }
            }
            k += 1;
        }
        proof {
            assert forall|t: int| 0 <= t < edge_views(edges@).len() implies id_views(
                ids@,
            ).contains(#[trigger] edge_views(edges@)[t].0) && id_views(ids@).contains(
                edge_views(edges@)[t].1,
            ) by {
                assert(edge_views(edges@)[t] == (edges@[t].src@, edges@[t].dst@));
            }
        }
        Ok(RoutingTable { ids, edges })
    }

    /// The destinations routed from `src_id`, in the order the edges were
    /// declared; empty when the endpoint has no outgoing edges.
    pub fn destinations_of(&self, src_id: &String) -> (r: Vec<String>)
        ensures
            id_views(r@) == self.spec_dests(src_id@),
    {
        let mut out: Vec<String> = Vec::new();
        let m = self.edges.len();
        let mut k: usize = 0;
        while k < m
            invariant
                k <= m,
                m == self.edges@.len(),
                id_views(out@) == dests_of(
                    edge_views(self.edges@).take(k as int),
                    src_id@,
                ),
            decreases m - k,
        {
            proof {
                let ev = edge_views(self.edges@);
                assert(ev.take(k + 1).drop_last() =~= ev.take(k as int));
                assert(ev.take(k + 1).last() == ev[k as int]);
                assert(ev[k as int] == (self.edges@[k as int].src@, self.edges@[k as int].dst@));
            }
            if self.edges[k].src == *src_id {
                out.push(self.edges[k].dst.clone());
                proof {
                    let ev = edge_views(self.edges@);
                    assert(id_views(out@) =~= dests_of(ev.take(k as int), src_id@) + seq![
                        self.edges@[k as int].dst@,
                    ]);
                }
            }
            k += 1;
        }
        proof {
            assert(edge_views(self.edges@).take(m as int) =~= edge_views(self.edges@));
        }
        out
    }

    /// True if `id` names a declared endpoint.
    pub fn is_declared(&self, id: &String) -> (r: bool)
        ensures
            r == self.spec_ids().contains(id@),
    {
        contains_id(&self.ids, id)
    }
}

} // verus!
