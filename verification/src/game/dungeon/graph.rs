use vstd::prelude::*;
use std::collections::VecDeque;

verus! {

/// Rooms `a` and `b` are joined by one of the connections (in either orientation).
pub open spec fn linked(conns: Seq<(usize, usize)>, a: int, b: int) -> bool {
    exists|i: int| 0 <= i < conns.len() && #[trigger] is_link(conns[i], a, b)
}

pub open spec fn is_link(c: (usize, usize), a: int, b: int) -> bool {
    (c.0 == a && c.1 == b) || (c.0 == b && c.1 == a)
}

/// Every consecutive pair of `p` is linked.
pub open spec fn is_walk(conns: Seq<(usize, usize)>, p: Seq<int>) -> bool {
    forall|i: int| 0 <= i < p.len() - 1 ==> #[trigger] linked(conns, p[i], p[i + 1])
}

/// `p` is a walk from `s` to `t`.
pub open spec fn walk_between(conns: Seq<(usize, usize)>, p: Seq<int>, s: int, t: int) -> bool {
    &&& p.len() >= 1
    &&& p[0] == s
    &&& p[p.len() - 1] == t
    &&& is_walk(conns, p)
}

/// Room `t` can be reached from room `s` through connections.
pub open spec fn reachable(conns: Seq<(usize, usize)>, s: int, t: int) -> bool {
    exists|p: Seq<int>| #[trigger] walk_between(conns, p, s, t)
}

/// Every connection joins two rooms below `n`.
pub open spec fn conns_in_range(conns: Seq<(usize, usize)>, n: int) -> bool {
    forall|i: int| 0 <= i < conns.len() ==> (#[trigger] conns[i]).0 < n && conns[i].1 < n
}

pub open spec fn unvisited() -> usize {
    usize::MAX
}

/// The defining properties of breadth-first distances from `start`:
/// the start is at 0, every other reached room has a linked room one step
/// closer, and the two ends of a connection are both reached or both not,
/// at most one step apart.
pub open spec fn bfs_layered(conns: Seq<(usize, usize)>, n: int, start: int, d: Seq<usize>) -> bool {
    &&& d.len() == n
    &&& d[start] == 0
    &&& forall|v: int|
        0 <= v < n && v != start && #[trigger] d[v] != unvisited() ==> exists|u: int|
            0 <= u < n && #[trigger] linked(conns, u, v) && d[u] != unvisited() && d[u] + 1 == d[v]
    &&& forall|i: int|
        0 <= i < conns.len() ==> {
            let a = (#[trigger] conns[i]).0 as int;
            let b = conns[i].1 as int;
            &&& (d[a] != unvisited() ==> d[b] != unvisited() && d[b] <= d[a] + 1)
            &&& (d[b] != unvisited() ==> d[a] != unvisited() && d[a] <= d[b] + 1)
        }
}

/// A room reached in `d2` is reached in `d1` too, and no farther.
proof fn lemma_layered_le(conns: Seq<(usize, usize)>, n: int, start: int, d1: Seq<usize>, d2: Seq<usize>, v: int)
    requires
        0 <= start < n,
        bfs_layered(conns, n, start, d1),
        bfs_layered(conns, n, start, d2),
        0 <= v < n,
        d2[v] != unvisited(),
    ensures
        d1[v] != unvisited(),
        d1[v] <= d2[v],
    decreases d2[v],
{
    if v != start {
        let u = choose|u: int| 0 <= u < n && #[trigger] linked(conns, u, v) && d2[u] != unvisited() && d2[u] + 1 == d2[v];
        lemma_layered_le(conns, n, start, d1, d2, u);
        let i = choose|i: int| 0 <= i < conns.len() && #[trigger] is_link(conns[i], u, v);
        let c = conns[i];
        assert(d1[c.0 as int] != unvisited() ==> d1[c.1 as int] != unvisited() && d1[c.1 as int] <= d1[c.0 as int] + 1);
        assert(d1[c.1 as int] != unvisited() ==> d1[c.0 as int] != unvisited() && d1[c.0 as int] <= d1[c.1 as int] + 1);
    }
}

/// Breadth-first distances are unique: two tables that both meet `bfs_layered` agree.
pub proof fn lemma_layered_unique(conns: Seq<(usize, usize)>, n: int, start: int, d1: Seq<usize>, d2: Seq<usize>)
    requires
        0 <= start < n,
        bfs_layered(conns, n, start, d1),
        bfs_layered(conns, n, start, d2),
    ensures
        d1 == d2,
{
    assert forall|v: int| 0 <= v < n implies d1[v] == d2[v] by {
        if d2[v] != unvisited() {
            lemma_layered_le(conns, n, start, d1, d2, v);
            lemma_layered_le(conns, n, start, d2, d1, v);
        } else if d1[v] != unvisited() {
            lemma_layered_le(conns, n, start, d2, d1, v);
        }
    }
    assert(d1 =~= d2);
}

/// Number of entries of `s` equal to the unvisited marker.
pub open spec fn count_unvisited(s: Seq<usize>) -> nat
    decreases s.len(),
{
    if s.len() == 0 {
        0
    } else {
        count_unvisited(s.drop_last()) + if s.last() == unvisited() { 1nat } else { 0nat }
    }
}

proof fn lemma_count_unvisited_bound(s: Seq<usize>)
    ensures
        count_unvisited(s) <= s.len(),
    decreases s.len(),
{
    if s.len() > 0 {
        lemma_count_unvisited_bound(s.drop_last());
    }
}

proof fn lemma_count_unvisited_update(s: Seq<usize>, i: int, v: usize)
    requires
        0 <= i < s.len(),
        s[i] == unvisited(),
        v != unvisited(),
    ensures
        count_unvisited(s.update(i, v)) + 1 == count_unvisited(s),
    decreases s.len(),
{
    let t = s.update(i, v);
    if i == s.len() - 1 {
        assert(t.drop_last() =~= s.drop_last());
    } else {
        assert(t.drop_last() =~= s.drop_last().update(i, v));
        lemma_count_unvisited_update(s.drop_last(), i, v);
    }
}

proof fn lemma_count_all_unvisited(n: nat)
    ensures
        count_unvisited(Seq::new(n, |i: int| unvisited())) == n,
    decreases n,
{
    if n > 0 {
        assert(Seq::new(n, |i: int| unvisited()).drop_last() =~= Seq::new((n - 1) as nat, |i: int| unvisited()));
        lemma_count_all_unvisited((n - 1) as nat);
    }
}

/// Neighbour lists agree with the connections.
pub open spec fn adjacency_of(conns: Seq<(usize, usize)>, n: int, adj: Seq<Seq<usize>>) -> bool {
    &&& adj.len() == n
    &&& forall|u: int, j: int| 0 <= u < n && 0 <= j < adj[u].len() ==> (#[trigger] adj[u][j]) < n && linked(conns, u, adj[u][j] as int)
    &&& forall|i: int| 0 <= i < conns.len() ==> {
        let a = (#[trigger] conns[i]).0 as int;
        let b = conns[i].1 as int;
        adj[a].contains(b as usize) && adj[b].contains(a as usize)
    }
}

fn build_adjacency(connections: &[(usize, usize)], num_rooms: usize) -> (adj: Vec<Vec<usize>>)
    requires
        conns_in_range(connections@, num_rooms as int),
    ensures
        adjacency_of(connections@, num_rooms as int, adj@.map_values(|v: Vec<usize>| v@)),
{
    let ghost conns = connections@;
    let ghost n = num_rooms as int;
    let mut adj: Vec<Vec<usize>> = Vec::new();
    let mut u: usize = 0;
    while u < num_rooms
        invariant
            u <= num_rooms,
            adj@.len() == u,
            forall|k: int| 0 <= k < u ==> (#[trigger] adj@[k])@.len() == 0,
        decreases num_rooms - u,
    {
        adj.push(Vec::new());
        u += 1;
    }
    let mut i: usize = 0;
    while i < connections.len()
        invariant
            conns == connections@,
            n == num_rooms,
            conns_in_range(conns, n),
            i <= conns.len(),
            adj@.len() == n,
            forall|u: int, j: int| 0 <= u < n && 0 <= j < adj@[u]@.len() ==> (#[trigger] adj@[u]@[j]) < n && linked(conns, u, adj@[u]@[j] as int),
            forall|c: int| 0 <= c < i ==> {
                let a = (#[trigger] conns[c]).0 as int;
                let b = conns[c].1 as int;
                adj@[a]@.contains(b as usize) && adj@[b]@.contains(a as usize)
            },
        decreases conns.len() - i,
    {
        let (a, b) = connections[i];
        assert(is_link(conns[i as int], a as int, b as int));
        assert(is_link(conns[i as int], b as int, a as int));
        let ghost before = adj@;
        adj[a].push(b);
        assert(adj@[a as int]@[adj@[a as int]@.len() - 1] == b);
        let ghost mid = adj@;
        adj[b].push(a);
        assert(adj@[b as int]@[adj@[b as int]@.len() - 1] == a);
        proof {
            assert forall|c: int| 0 <= c < i + 1 implies {
                let x = (#[trigger] conns[c]).0 as int;
                let y = conns[c].1 as int;
                adj@[x]@.contains(y as usize) && adj@[y]@.contains(x as usize)
            } by {
                let x = conns[c].0 as int;
                let y = conns[c].1 as int;
                if c < i {
                    let j1 = choose|j: int| 0 <= j < before[x]@.len() && before[x]@[j] == y as usize;
                    assert(adj@[x]@[j1] == y as usize);
                    let j2 = choose|j: int| 0 <= j < before[y]@.len() && before[y]@[j] == x as usize;
                    assert(adj@[y]@[j2] == x as usize);
                } else {
                    assert(mid[a as int]@[mid[a as int]@.len() - 1] == b);
                    assert(adj@[a as int]@[mid[a as int]@.len() - 1] == b);
                }
            }
        }
        i += 1;
    }
    assert(adj@.map_values(|v: Vec<usize>| v@).len() == n);
    adj
}

/// Every room in `order` is below `n`, reached, and no further than its position.
#[verifier::opaque]
pub open spec fn bfs_order_ok(n: int, d: Seq<usize>, order: Seq<usize>) -> bool {
    forall|i: int| 0 <= i < order.len() ==> (#[trigger] order[i]) < n && d[order[i] as int] != unvisited() && d[order[i] as int] <= i
}

/// Every reached room appears in `order`.
#[verifier::opaque]
pub open spec fn bfs_found(n: int, d: Seq<usize>, order: Seq<usize>) -> bool {
    forall|v: int| 0 <= v < n && #[trigger] d[v] != unvisited() ==> exists|i: int| 0 <= i < order.len() && order[i] == v
}

/// Distances never decrease along `order`.
#[verifier::opaque]
pub open spec fn bfs_mono(d: Seq<usize>, order: Seq<usize>) -> bool {
    forall|i: int, j: int| 0 <= i <= j < order.len() ==> d[#[trigger] order[i] as int] <= d[#[trigger] order[j] as int]
}

/// The neighbours of the first `head` rooms of `order` are reached and at most one step further.
#[verifier::opaque]
pub open spec fn bfs_done(adjv: Seq<Seq<usize>>, d: Seq<usize>, order: Seq<usize>, head: int) -> bool {
    forall|i: int, j: int|
        0 <= i < head && 0 <= j < adjv[order[i] as int].len() ==> {
            let w = #[trigger] adjv[order[i] as int][j] as int;
            d[w] != unvisited() && d[w] <= d[order[i] as int] + 1
        }
}

/// Every reached room other than the start has a linked room one step closer.
#[verifier::opaque]
pub open spec fn bfs_preds(conns: Seq<(usize, usize)>, n: int, start: int, d: Seq<usize>) -> bool {
    forall|v: int|
        0 <= v < n && v != start && #[trigger] d[v] != unvisited() ==> exists|u: int|
            0 <= u < n && #[trigger] linked(conns, u, v) && d[u] != unvisited() && d[u] + 1 == d[v]
}

/// Neighbour lists only name rooms below `n`.
pub open spec fn adj_in_range(n: int, adjv: Seq<Seq<usize>>) -> bool {
    forall|u: int, k: int| 0 <= u < n && 0 <= k < adjv[u].len() ==> (#[trigger] adjv[u][k]) < n
}

/// The state of the breadth-first search between two visits: `order` lists the
/// rooms in the order they were reached, the first `head` of them have had all
/// their neighbours looked at.
pub open spec fn bfs_state(conns: Seq<(usize, usize)>, n: int, start: int, adjv: Seq<Seq<usize>>, d: Seq<usize>, order: Seq<usize>, head: int) -> bool {
    &&& 0 <= start < n
    &&& n <= usize::MAX
    &&& conns_in_range(conns, n)
    &&& adjacency_of(conns, n, adjv)
    &&& adj_in_range(n, adjv)
    &&& d.len() == n
    &&& 0 <= head <= order.len()
    &&& order.len() + count_unvisited(d) == n
    &&& order.len() >= 1
    &&& order[0] == start
    &&& d[start] == 0
    &&& bfs_order_ok(n, d, order)
    &&& bfs_found(n, d, order)
    &&& bfs_mono(d, order)
    &&& bfs_done(adjv, d, order, head)
    &&& bfs_preds(conns, n, start, d)
}

/// Between two rooms: the last one reached is at most one step further than the next to visit.
pub open spec fn bfs_front(d: Seq<usize>, order: Seq<usize>, head: int) -> bool {
    head < order.len() ==> d[order[order.len() - 1] as int] <= d[order[head] as int] + 1
}

/// While looking at the neighbours of `order[head - 1]`: the first `j` of them are reached
/// and at most one step further.
pub open spec fn bfs_scan(adjv: Seq<Seq<usize>>, d: Seq<usize>, order: Seq<usize>, head: int, j: int) -> bool {
    let node = order[head - 1] as int;
    &&& 1 <= head <= order.len()
    &&& 0 <= j <= adjv[node].len()
    &&& d[order[order.len() - 1] as int] <= d[node] + 1
    &&& forall|k: int| 0 <= k < j ==> {
        let w = #[trigger] adjv[node][k] as int;
        d[w] != unvisited() && d[w] <= d[node] + 1
    }
}

proof fn lemma_bfs_start(conns: Seq<(usize, usize)>, n: int, start: usize, adjv: Seq<Seq<usize>>, d: Seq<usize>)
    requires
        0 <= start < n,
        n <= usize::MAX,
        conns_in_range(conns, n),
        adjacency_of(conns, n, adjv),
        d == Seq::new(n as nat, |i: int| unvisited()).update(start as int, 0),
    ensures
        bfs_state(conns, n, start as int, adjv, d, seq![start], 0),
        bfs_front(d, seq![start], 0),
{
    reveal(bfs_order_ok);
    reveal(bfs_found);
    reveal(bfs_mono);
    reveal(bfs_done);
    reveal(bfs_preds);
    lemma_count_all_unvisited(n as nat);
    lemma_count_unvisited_update(Seq::new(n as nat, |i: int| unvisited()), start as int, 0);
    let order = seq![start];
    assert forall|v: int| 0 <= v < n && #[trigger] d[v] != unvisited() implies exists|i: int| 0 <= i < order.len() && order[i] == v by {
        assert(d[v] == if v == start { 0 } else { unvisited() });
        assert(order[0] == v);
    }
    assert forall|v: int| 0 <= v < n && v != start && #[trigger] d[v] != unvisited() implies exists|u: int|
        0 <= u < n && #[trigger] linked(conns, u, v) && d[u] != unvisited() && d[u] + 1 == d[v] by {
        assert(d[v] == unvisited());
    }
}

proof fn lemma_bfs_pop(conns: Seq<(usize, usize)>, n: int, start: int, adjv: Seq<Seq<usize>>, d: Seq<usize>, order: Seq<usize>, head: int)
    requires
        bfs_state(conns, n, start, adjv, d, order, head),
        bfs_front(d, order, head),
        head < order.len(),
    ensures
        bfs_scan(adjv, d, order, head + 1, 0),
        order[head] < n,
        d[order[head] as int] <= head,
        order.len() <= n,
        forall|k: int| 0 <= k < adjv[order[head] as int].len() ==> (#[trigger] adjv[order[head] as int][k]) < n,
{
    reveal(bfs_order_ok);
    lemma_count_unvisited_bound(d);
    assert(order[head] < n);
}

proof fn lemma_found_after_visit(n: int, d: Seq<usize>, order: Seq<usize>, w: usize, val: usize)
    requires
        d.len() == n,
        w < n,
        d[w as int] == unvisited(),
        val != unvisited(),
        bfs_found(n, d, order),
    ensures
        bfs_found(n, d.update(w as int, val), order.push(w)),
{
    reveal(bfs_found);
    let d2 = d.update(w as int, val);
    let o2 = order.push(w);
    assert forall|v: int| 0 <= v < n && #[trigger] d2[v] != unvisited() implies exists|i: int| 0 <= i < o2.len() && o2[i] == v by {
        if v == w {
            assert(o2[o2.len() - 1] == v);
        } else {
            assert(d[v] != unvisited());
            let i = choose|i: int| 0 <= i < order.len() && order[i] == v;
            assert(o2[i] == v);
        }
    }
}

proof fn lemma_preds_after_visit(conns: Seq<(usize, usize)>, n: int, start: int, d: Seq<usize>, node: int, w: usize, val: usize)
    requires
        d.len() == n,
        0 <= node < n,
        w < n,
        d[w as int] == unvisited(),
        d[node] != unvisited(),
        val == d[node] + 1,
        linked(conns, node, w as int),
        bfs_preds(conns, n, start, d),
    ensures
        bfs_preds(conns, n, start, d.update(w as int, val)),
{
    reveal(bfs_preds);
    let d2 = d.update(w as int, val);
    assert forall|v: int| 0 <= v < n && v != start && #[trigger] d2[v] != unvisited() implies exists|u: int|
        0 <= u < n && #[trigger] linked(conns, u, v) && d2[u] != unvisited() && d2[u] + 1 == d2[v] by {
        if v == w {
            assert(linked(conns, node, v));
            assert(d2[node] == d[node]);
        } else {
            assert(d[v] != unvisited());
            let u = choose|u: int| 0 <= u < n && #[trigger] linked(conns, u, v) && d[u] != unvisited() && d[u] + 1 == d[v];
            assert(linked(conns, u, v));
            assert(d2[u] == d[u]);
        }
    }
}

proof fn lemma_order_after_visit(n: int, adjv: Seq<Seq<usize>>, d: Seq<usize>, order: Seq<usize>, head: int, j: int)
    requires
        1 <= head <= order.len(),
        d.len() == n,
        order[head - 1] < n,
        0 <= j < adjv[order[head - 1] as int].len(),
        adjv[order[head - 1] as int][j] < n,
        d[adjv[order[head - 1] as int][j] as int] == unvisited(),
        d[order[head - 1] as int] <= head - 1,
        d[order[head - 1] as int] + 1 < unvisited(),
        adj_in_range(n, adjv),
        bfs_order_ok(n, d, order),
        bfs_mono(d, order),
        bfs_done(adjv, d, order, head - 1),
        bfs_scan(adjv, d, order, head, j),
    ensures
        ({
            let node = order[head - 1] as int;
            let w = adjv[node][j];
            let d2 = d.update(w as int, (d[node] + 1) as usize);
            let o2 = order.push(w);
            &&& bfs_order_ok(n, d2, o2)
            &&& bfs_mono(d2, o2)
            &&& bfs_done(adjv, d2, o2, head - 1)
            &&& bfs_scan(adjv, d2, o2, head, j + 1)
        }),
{
    reveal(bfs_order_ok);
    reveal(bfs_mono);
    reveal(bfs_done);
    let node = order[head - 1] as int;
    let w = adjv[node][j];
    let d2 = d.update(w as int, (d[node] + 1) as usize);
    let o2 = order.push(w);
    assert forall|i: int, k: int| 0 <= i <= k < o2.len() implies d2[#[trigger] o2[i] as int] <= d2[#[trigger] o2[k] as int] by {
        if k == o2.len() - 1 && i < k {
            assert(d[order[i] as int] <= d[order[order.len() - 1] as int]);
        }
    }
    assert forall|i: int| 0 <= i < o2.len() implies (#[trigger] o2[i]) < n && d2[o2[i] as int] != unvisited() && d2[o2[i] as int] <= i by {
        if i < order.len() {
            assert(o2[i] == order[i]);
            assert(order[i] != w);
            assert(d2[o2[i] as int] == d[order[i] as int]);
        } else {
            assert(o2[i] == w);
            assert(d2[w as int] == d[node] + 1);
        }
    }
    assert forall|i: int, k: int|
        0 <= i < head - 1 && 0 <= k < adjv[o2[i] as int].len() implies {
            let x = #[trigger] adjv[o2[i] as int][k] as int;
            d2[x] != unvisited() && d2[x] <= d2[o2[i] as int] + 1
        } by {
        assert(o2[i] == order[i]);
        let x = adjv[order[i] as int][k] as int;
        assert(d[x] != unvisited());
        assert(x != w);
        assert(order[i] != w);
        assert(d2[x] == d[x]);
        assert(d2[order[i] as int] == d[order[i] as int]);
    }
    assert forall|k: int| 0 <= k < j + 1 implies {
        let x = #[trigger] adjv[node][k] as int;
        d2[x] != unvisited() && d2[x] <= d2[node] + 1
    } by {
        if k < j {
            let x = adjv[node][k] as int;
            assert(d[x] != unvisited());
            assert(x != w);
        }
    }
    assert(o2[head - 1] == order[head - 1]);
    assert(node != w);
}

proof fn lemma_bfs_visit_new(conns: Seq<(usize, usize)>, n: int, start: int, adjv: Seq<Seq<usize>>, d: Seq<usize>, order: Seq<usize>, head: int, j: int)
    requires
        bfs_state(conns, n, start, adjv, d, order, head - 1),
        bfs_scan(adjv, d, order, head, j),
        j < adjv[order[head - 1] as int].len(),
        d[adjv[order[head - 1] as int][j] as int] == unvisited(),
    ensures
        ({
            let node = order[head - 1] as int;
            let w = adjv[node][j];
            let d2 = d.update(w as int, (d[node] + 1) as usize);
            let o2 = order.push(w);
            &&& d[node] + 1 < unvisited()
            &&& bfs_state(conns, n, start, adjv, d2, o2, head - 1)
            &&& bfs_scan(adjv, d2, o2, head, j + 1)
        }),
{
    reveal(bfs_order_ok);
    let node = order[head - 1] as int;
    let w = adjv[node][j];
    assert(w < n);
    assert(linked(conns, node, w as int));
    lemma_count_unvisited_bound(d);
    assert(d[node] <= head - 1);
    lemma_count_unvisited_update(d, w as int, 0);
    let val = (d[node] + 1) as usize;
    lemma_count_unvisited_update(d, w as int, val);
    lemma_found_after_visit(n, d, order, w, val);
    lemma_preds_after_visit(conns, n, start, d, node, w, val);
    lemma_order_after_visit(n, adjv, d, order, head, j);
    assert(w as int != start);
    assert(d.update(w as int, val)[start] == 0);
}

proof fn lemma_bfs_visit_old(conns: Seq<(usize, usize)>, n: int, start: int, adjv: Seq<Seq<usize>>, d: Seq<usize>, order: Seq<usize>, head: int, j: int)
    requires
        bfs_state(conns, n, start, adjv, d, order, head - 1),
        bfs_scan(adjv, d, order, head, j),
        j < adjv[order[head - 1] as int].len(),
        d[adjv[order[head - 1] as int][j] as int] != unvisited(),
    ensures
        bfs_scan(adjv, d, order, head, j + 1),
{
    reveal(bfs_found);
    reveal(bfs_mono);
    reveal(bfs_order_ok);
    let node = order[head - 1] as int;
    let w = adjv[node][j];
    assert(w < n);
    let i = choose|i: int| 0 <= i < order.len() && order[i] == w;
    assert(d[order[i] as int] <= d[order[order.len() - 1] as int]);
}

proof fn lemma_bfs_node_done(conns: Seq<(usize, usize)>, n: int, start: int, adjv: Seq<Seq<usize>>, d: Seq<usize>, order: Seq<usize>, head: int)
    requires
        bfs_state(conns, n, start, adjv, d, order, head - 1),
        bfs_scan(adjv, d, order, head, adjv[order[head - 1] as int].len() as int),
    ensures
        bfs_state(conns, n, start, adjv, d, order, head),
        bfs_front(d, order, head),
{
    reveal(bfs_done);
    reveal(bfs_mono);
    if head < order.len() {
        assert(d[order[head - 1] as int] <= d[order[head] as int]);
    }
    assert forall|i: int, j: int|
        0 <= i < head && 0 <= j < adjv[order[i] as int].len() implies {
            let w = #[trigger] adjv[order[i] as int][j] as int;
            d[w] != unvisited() && d[w] <= d[order[i] as int] + 1
        } by {
    }
}

proof fn lemma_bfs_done(conns: Seq<(usize, usize)>, n: int, start: int, adjv: Seq<Seq<usize>>, d: Seq<usize>, order: Seq<usize>)
    requires
        bfs_state(conns, n, start, adjv, d, order, order.len() as int),
    ensures
        bfs_layered(conns, n, start, d),
{
    reveal(bfs_done);
    reveal(bfs_found);
    reveal(bfs_preds);
    assert forall|i: int| 0 <= i < conns.len() implies {
        let a = (#[trigger] conns[i]).0 as int;
        let b = conns[i].1 as int;
        &&& (d[a] != unvisited() ==> d[b] != unvisited() && d[b] <= d[a] + 1)
        &&& (d[b] != unvisited() ==> d[a] != unvisited() && d[a] <= d[b] + 1)
    } by {
        let a = conns[i].0 as int;
        let b = conns[i].1 as int;
        assert(adjv[a].contains(b as usize));
        assert(adjv[b].contains(a as usize));
        if d[a] != unvisited() {
            let ia = choose|x: int| 0 <= x < order.len() && order[x] == a;
            let jb = choose|x: int| 0 <= x < adjv[a].len() && adjv[a][x] == b as usize;
            assert(adjv[order[ia] as int][jb] == b as usize);
        }
        if d[b] != unvisited() {
            let ib = choose|x: int| 0 <= x < order.len() && order[x] == b;
            let ja = choose|x: int| 0 <= x < adjv[b].len() && adjv[b][x] == a as usize;
            assert(adjv[order[ib] as int][ja] == a as usize);
        }
    }
}

/// BFS from `start` to compute distances to all rooms.
/// Rooms that cannot be reached get `usize::MAX`.
pub fn bfs_distances(connections: &[(usize, usize)], num_rooms: usize, start: usize) -> (dist: Vec<usize>)
    requires
        start < num_rooms,
        conns_in_range(connections@, num_rooms as int),
    ensures
        bfs_layered(connections@, num_rooms as int, start as int, dist@),
{
    let ghost conns = connections@;
    let ghost n = num_rooms as int;
    let mut dist: Vec<usize> = Vec::new();
    let mut k: usize = 0;
    while k < num_rooms
        invariant
            k <= num_rooms,
            dist@ == Seq::new(k as nat, |i: int| unvisited()),
        decreases num_rooms - k,
    {
        dist.push(usize::MAX);
        k += 1;
        assert(dist@ =~= Seq::new(k as nat, |i: int| unvisited()));
    }
    dist[start] = 0;

    // Build adjacency list
    let adj = build_adjacency(connections, num_rooms);
    let ghost adjv = adj@.map_values(|v: Vec<usize>| v@);

    let mut queue: VecDeque<usize> = VecDeque::new();
    queue.push_back(start);
    let ghost mut order: Seq<usize> = seq![start];
    let ghost mut head: int = 0;
    assert(queue@ =~= order.subrange(head, order.len() as int));
    proof {
        lemma_bfs_start(conns, n, start, adjv, dist@);
    }

    while queue.len() > 0
        invariant
            conns == connections@,
            n == num_rooms,
            adj@.len() == n,
            forall|u: int| 0 <= u < n ==> (#[trigger] adj@[u])@ == adjv[u],
            queue@ == order.subrange(head, order.len() as int),
            bfs_state(conns, n, start as int, adjv, dist@, order, head),
            bfs_front(dist@, order, head),
            dist@.len() == n,
            0 <= head <= order.len(),
        decreases n - head,
    {
        assert(queue@.len() == order.len() - head);
        proof {
            lemma_bfs_pop(conns, n, start as int, adjv, dist@, order, head);
        }
        let node = queue.pop_front().unwrap();
        proof {
            head = head + 1;
        }
        assert(queue@ =~= order.subrange(head, order.len() as int));
        let dnode = dist[node];
        let nbrs = &adj[node];
        let m = nbrs.len();
        let mut j: usize = 0;
        while j < m
            invariant
                conns == connections@,
                n == num_rooms,
                adj@.len() == n,
                forall|u: int| 0 <= u < n ==> (#[trigger] adj@[u])@ == adjv[u],
                nbrs@ == adjv[node as int],
                m == nbrs@.len(),
                node == order[head - 1],
                node < n,
                dnode == dist@[node as int],
                dnode <= head - 1,
                head <= n,
                forall|k: int| 0 <= k < m ==> (#[trigger] adjv[node as int][k]) < n,
                queue@ == order.subrange(head, order.len() as int),
                bfs_state(conns, n, start as int, adjv, dist@, order, head - 1),
                bfs_scan(adjv, dist@, order, head, j as int),
                dist@.len() == n,
                head <= order.len(),
            decreases m - j,
        {
            let neighbor = nbrs[j];
            assert(adjv[node as int][j as int] == neighbor);
            if dist[neighbor] == usize::MAX {
                proof {
                    lemma_bfs_visit_new(conns, n, start as int, adjv, dist@, order, head, j as int);
                }
                dist[neighbor] = dnode + 1;
                queue.push_back(neighbor);
                proof {
                    order = order.push(neighbor);
                }
                assert(queue@ =~= order.subrange(head, order.len() as int));
            } else {
                proof {
                    lemma_bfs_visit_old(conns, n, start as int, adjv, dist@, order, head, j as int);
                }
            }
            j += 1;
        }
        proof {
            lemma_bfs_node_done(conns, n, start as int, adjv, dist@, order, head);
        }
    }
    proof {
        lemma_bfs_done(conns, n, start as int, adjv, dist@, order);
    }
    dist
}

/// A walk to a reached room, one step per unit of distance, built from the
/// one-step-closer neighbours.
pub proof fn lemma_walk_to_reached(conns: Seq<(usize, usize)>, n: int, start: int, d: Seq<usize>, v: int) -> (p: Seq<int>)
    requires
        0 <= start < n,
        bfs_layered(conns, n, start, d),
        0 <= v < n,
        d[v] != unvisited(),
    ensures
        walk_between(conns, p, start, v),
        p.len() == d[v] + 1,
    decreases d[v],
{
    if v == start {
        let p = seq![start];
        assert(is_walk(conns, p));
        p
    } else {
        let u = choose|u: int| 0 <= u < n && #[trigger] linked(conns, u, v) && d[u] != unvisited() && d[u] + 1 == d[v];
        let q = lemma_walk_to_reached(conns, n, start, d, u);
        let p = q.push(v);
        assert forall|i: int| 0 <= i < p.len() - 1 implies #[trigger] linked(conns, p[i], p[i + 1]) by {
            if i < q.len() - 1 {
                assert(p[i] == q[i] && p[i + 1] == q[i + 1]);
            } else {
                assert(p[i] == u && p[i + 1] == v);
            }
        }
        p
    }
}

/// Along any walk from the start, every room is reached, no further than its position on the walk.
pub proof fn lemma_walk_bounds_distance(conns: Seq<(usize, usize)>, n: int, start: int, d: Seq<usize>, p: Seq<int>, k: int)
    requires
        0 <= start < n,
        conns_in_range(conns, n),
        bfs_layered(conns, n, start, d),
        p.len() >= 1,
        p[0] == start,
        is_walk(conns, p),
        0 <= k < p.len(),
    ensures
        0 <= p[k] < n,
        d[p[k]] != unvisited(),
        d[p[k]] <= k,
    decreases k,
{
    if k > 0 {
        lemma_walk_bounds_distance(conns, n, start, d, p, k - 1);
        let j = k - 1;
        assert(linked(conns, p[j], p[j + 1]));
        assert(j + 1 == k);
        let i = choose|i: int| 0 <= i < conns.len() && #[trigger] is_link(conns[i], p[j], p[j + 1]);
        assert(conns[i].0 < n && conns[i].1 < n);
    }
}

/// Breadth-first distances mark exactly the reachable rooms, and each reached room's
/// distance is the length of a shortest walk to it.
pub proof fn lemma_bfs_reachability(conns: Seq<(usize, usize)>, n: int, start: int, d: Seq<usize>, v: int)
    requires
        0 <= start < n,
        conns_in_range(conns, n),
        bfs_layered(conns, n, start, d),
        0 <= v < n,
    ensures
        d[v] != unvisited() <==> reachable(conns, start, v),
        d[v] != unvisited() ==> exists|p: Seq<int>| #[trigger] walk_between(conns, p, start, v) && p.len() == d[v] + 1,
        forall|p: Seq<int>| #[trigger] walk_between(conns, p, start, v) ==> d[v] + 1 <= p.len(),
{
    if d[v] != unvisited() {
        let p = lemma_walk_to_reached(conns, n, start, d, v);
        assert(walk_between(conns, p, start, v));
    }
    assert forall|p: Seq<int>| #[trigger] walk_between(conns, p, start, v) implies d[v] != unvisited() && d[v] + 1 <= p.len() by {
        lemma_walk_bounds_distance(conns, n, start, d, p, p.len() - 1);
    }
    if reachable(conns, start, v) {
        let p = choose|p: Seq<int>| #[trigger] walk_between(conns, p, start, v);
        lemma_walk_bounds_distance(conns, n, start, d, p, p.len() - 1);
    }
}

/// Check if all rooms are reachable from `start` via BFS.
pub fn all_reachable(connections: &[(usize, usize)], num_rooms: usize, start: usize) -> (r: bool)
    requires
        start < num_rooms,
        conns_in_range(connections@, num_rooms as int),
    ensures
        r == forall|v: int| 0 <= v < num_rooms ==> #[trigger] reachable(connections@, start as int, v),
{
    let distances = bfs_distances(connections, num_rooms, start);
    let mut i: usize = 0;
    while i < num_rooms
        invariant
            distances@.len() == num_rooms,
            bfs_layered(connections@, num_rooms as int, start as int, distances@),
            start < num_rooms,
            conns_in_range(connections@, num_rooms as int),
            i <= num_rooms,
            forall|v: int| 0 <= v < i ==> #[trigger] reachable(connections@, start as int, v),
        decreases num_rooms - i,
    {
        proof {
            lemma_bfs_reachability(connections@, num_rooms as int, start as int, distances@, i as int);
        }
        if distances[i] == usize::MAX {
            return false;
        }
        i += 1;
    }
    true
}

} // verus!
