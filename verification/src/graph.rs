//! The dependency relation between tasks: walks, cycles and what reaches a cycle.

use vstd::prelude::*;

verus! {

/// A dependency graph: each defined task's name with the names it depends on.
pub type Graph = Map<Seq<char>, Seq<Seq<char>>>;

/// Whether task `a` is defined and names `b` among its dependencies.
pub open spec fn has_edge(g: Graph, a: Seq<char>, b: Seq<char>) -> bool {
    g.dom().contains(a) && g[a].contains(b)
}

/// Whether `w` is a non-empty sequence of names in which each one depends on the next.
pub open spec fn is_walk(g: Graph, w: Seq<Seq<char>>) -> bool {
    w.len() >= 1 && forall|i: int| 0 <= i < w.len() - 1 ==> has_edge(g, #[trigger] w[i], w[i + 1])
}

/// Whether `c` is a walk of at least one step that ends where it starts.
pub open spec fn is_cycle(g: Graph, c: Seq<Seq<char>>) -> bool {
    c.len() >= 2 && is_walk(g, c) && c.first() == c.last()
}

/// Whether some walk from `start` comes by the same name twice.
pub open spec fn reaches_cycle(g: Graph, start: Seq<char>) -> bool {
    exists|w: Seq<Seq<char>>| is_walk(g, w) && w[0] == start && !w.no_duplicates()
}

/// Whether the graph has no cycle.
pub open spec fn acyclic(g: Graph) -> bool {
    forall|c: Seq<Seq<char>>| !is_cycle(g, c)
}

/// `g` with `to` added to the dependencies of the defined task `from`.
pub open spec fn with_edge(g: Graph, from: Seq<char>, to: Seq<char>) -> Graph {
    g.insert(from, g[from].push(to))
}

/// A part of a walk is a walk.
pub proof fn lemma_subwalk(g: Graph, w: Seq<Seq<char>>, from: int, to: int)
    requires
        is_walk(g, w),
        0 <= from < to <= w.len(),
    ensures
        is_walk(g, w.subrange(from, to)),
{
    let s = w.subrange(from, to);
    assert forall|i: int| 0 <= i < s.len() - 1 implies has_edge(g, #[trigger] s[i], s[i + 1]) by {
        assert(s[i] == w[from + i]);
        assert(s[i + 1] == w[from + i + 1]);
        assert(has_edge(g, w[from + i], w[from + i + 1]));
    }
}

/// A walk followed by a step from its end is a walk.
pub proof fn lemma_walk_push(g: Graph, w: Seq<Seq<char>>, next: Seq<char>)
    requires
        is_walk(g, w),
        has_edge(g, w.last(), next),
    ensures
        is_walk(g, w.push(next)),
{
    let s = w.push(next);
    assert forall|i: int| 0 <= i < s.len() - 1 implies has_edge(g, #[trigger] s[i], s[i + 1]) by {
        if i < w.len() - 1 {
            assert(s[i] == w[i]);
            assert(s[i + 1] == w[i + 1]);
            assert(has_edge(g, w[i], w[i + 1]));
        }
    }
}

/// A walk that comes by a name twice holds a cycle between the two places.
pub proof fn lemma_repeat_is_cycle(g: Graph, w: Seq<Seq<char>>, i: int, j: int)
    requires
        is_walk(g, w),
        0 <= i < j < w.len(),
        w[i] == w[j],
    ensures
        is_cycle(g, w.subrange(i, j + 1)),
{
    lemma_subwalk(g, w, i, j + 1);
}

/// In a graph without cycles a search for a cycle finds nothing, from whatever task it
/// starts.
pub proof fn lemma_acyclic_reaches_none(g: Graph, start: Seq<char>)
    requires
        acyclic(g),
    ensures
        !reaches_cycle(g, start),
{
    if reaches_cycle(g, start) {
        let w = choose|w: Seq<Seq<char>>| is_walk(g, w) && w[0] == start && !w.no_duplicates();
        let (i, j) = choose|i: int, j: int|
            0 <= i < w.len() && 0 <= j < w.len() && i != j && w[i] == w[j];
        if i < j {
            lemma_repeat_is_cycle(g, w, i, j);
            assert(is_cycle(g, w.subrange(i, j + 1)));
        } else {
            lemma_repeat_is_cycle(g, w, j, i);
            assert(is_cycle(g, w.subrange(j, i + 1)));
        }
    }
}

/// A walk from `n` that repeats a name goes on, after its first step, from a dependency
/// of `n` that reaches a cycle itself.
pub proof fn lemma_step_reaches(g: Graph, n: Seq<char>, w: Seq<Seq<char>>)
    requires
        is_walk(g, w),
        w[0] == n,
        !w.no_duplicates(),
    ensures
        w.len() >= 2,
        has_edge(g, n, w[1]),
        reaches_cycle(g, w[1]),
{
    let (i0, j0) = choose|i: int, j: int|
        0 <= i < w.len() && 0 <= j < w.len() && i != j && w[i] == w[j];
    let i = if i0 < j0 { i0 } else { j0 };
    let j = if i0 < j0 { j0 } else { i0 };
    assert(0 <= i < j < w.len() && w[i] == w[j]);
    assert(has_edge(g, w[0], w[1]));
    let d = w[1];
    if i >= 1 {
        let t = w.subrange(1, w.len() as int);
        lemma_subwalk(g, w, 1, w.len() as int);
        assert(t[i - 1] == w[i] && t[j - 1] == w[j]);
        assert(t[0] == d);
        assert(!t.no_duplicates());
    } else {
        let t = w.subrange(1, j + 1);
        lemma_subwalk(g, w, 1, j + 1);
        assert(t.last() == w[j]);
        lemma_walk_push(g, t, d);
        let u = t.push(d);
        assert(u[0] == d);
        assert(u[u.len() - 1] == d);
        assert(u.len() >= 2);
        assert(!u.no_duplicates());
    }
}

/// A defined task none of whose dependencies reaches a cycle reaches none itself.
pub proof fn lemma_settled_dependencies(g: Graph, n: Seq<char>)
    requires
        forall|d: Seq<char>| has_edge(g, n, d) ==> !reaches_cycle(g, d),
    ensures
        !reaches_cycle(g, n),
{
    if reaches_cycle(g, n) {
        let w = choose|w: Seq<Seq<char>>| is_walk(g, w) && w[0] == n && !w.no_duplicates();
        lemma_step_reaches(g, n, w);
    }
}

/// Two walks, the second starting at a dependency of the first one's end, make one walk.
pub proof fn lemma_walk_concat(g: Graph, a: Seq<Seq<char>>, b: Seq<Seq<char>>)
    requires
        is_walk(g, a),
        is_walk(g, b),
        has_edge(g, a.last(), b[0]),
    ensures
        is_walk(g, a + b),
{
    let s = a + b;
    assert forall|i: int| 0 <= i < s.len() - 1 implies has_edge(g, #[trigger] s[i], s[i + 1]) by {
        if i < a.len() - 1 {
            assert(s[i] == a[i] && s[i + 1] == a[i + 1]);
            assert(has_edge(g, a[i], a[i + 1]));
        } else if i == a.len() - 1 {
            assert(s[i] == a.last() && s[i + 1] == b[0]);
        } else {
            assert(s[i] == b[i - a.len()] && s[i + 1] == b[i - a.len() + 1]);
            assert(has_edge(g, b[i - a.len()], b[i - a.len() + 1]));
        }
    }
}

/// Where a dependency was added to a graph without cycles, every cycle goes through it.
pub proof fn lemma_cycle_uses_new_edge(
    g: Graph,
    from: Seq<char>,
    to: Seq<char>,
    c: Seq<Seq<char>>,
) -> (i: int)
    requires
        acyclic(g),
        g.dom().contains(from),
        is_cycle(with_edge(g, from, to), c),
    ensures
        0 <= i < c.len() - 1,
        c[i] == from,
        c[i + 1] == to,
{
    let g2 = with_edge(g, from, to);
    if forall|j: int| 0 <= j < c.len() - 1 ==> !(#[trigger] c[j] == from && c[j + 1] == to) {
        assert forall|j: int| 0 <= j < c.len() - 1 implies has_edge(g, #[trigger] c[j], c[j + 1]) by {
            assert(has_edge(g2, c[j], c[j + 1]));
            if c[j] == from {
                let k = choose|k: int|
                    0 <= k < g[from].push(to).len() && g[from].push(to)[k] == c[j + 1];
                assert(k < g[from].len());
                assert(g[from][k] == c[j + 1]);
            }
        }
        assert(is_cycle(g, c));
        assert(false);
        0
    } else {
        choose|j: int| 0 <= j < c.len() - 1 && #[trigger] c[j] == from && c[j + 1] == to
    }
}

/// Where adding the dependency of `from` on `to` to a graph without cycles makes a cycle,
/// a search from either end of the new dependency finds one, and whatever cycle a search
/// brings back holds both ends.
pub proof fn lemma_back_edge_detected(g: Graph, from: Seq<char>, to: Seq<char>)
    requires
        acyclic(g),
        g.dom().contains(from),
        !acyclic(with_edge(g, from, to)),
    ensures
        reaches_cycle(with_edge(g, from, to), to),
        reaches_cycle(with_edge(g, from, to), from),
        forall|c: Seq<Seq<char>>| #[trigger]
            is_cycle(with_edge(g, from, to), c) ==> c.contains(from) && c.contains(to),
{
    let g2 = with_edge(g, from, to);
    assert forall|c: Seq<Seq<char>>| #[trigger] is_cycle(g2, c) implies c.contains(from)
        && c.contains(to) by {
        let i = lemma_cycle_uses_new_edge(g, from, to, c);
        assert(c[i] == from && c[i + 1] == to);
    }
    let c = choose|c: Seq<Seq<char>>| is_cycle(g2, c);
    let i = lemma_cycle_uses_new_edge(g, from, to, c);
    let n = c.len() as int;
    let a = c.subrange(i + 1, n);
    let b = c.subrange(1, i + 2);
    lemma_subwalk(g2, c, i + 1, n);
    lemma_subwalk(g2, c, 1, i + 2);
    assert(a.last() == c[n - 1] && c[n - 1] == c[0]);
    assert(b[0] == c[1]);
    assert(has_edge(g2, c[0], c[1]));
    lemma_walk_concat(g2, a, b);
    let w = a + b;
    assert(w[0] == to);
    assert(w[w.len() - 1] == b[b.len() - 1] && b[b.len() - 1] == c[i + 1]);
    assert(w.len() >= 2);
    assert(!w.no_duplicates());
    assert(reaches_cycle(g2, to));
    let f = seq![from];
    assert(is_walk(g2, f));
    assert(g2[from] == g[from].push(to));
    assert(g[from].push(to)[g[from].len() as int] == to);
    assert(has_edge(g2, from, to));
    lemma_walk_concat(g2, f, w);
    let v = f + w;
    assert(v[0] == from);
    assert(v[1] == w[0] && v[v.len() - 1] == w[w.len() - 1]);
    assert(!v.no_duplicates());
    assert(reaches_cycle(g2, from));
}

} // verus!
