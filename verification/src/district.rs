//! Counting the groups of places that roads connect.

use vstd::prelude::*;
use vstd::string::*;

use crate::graph_parser::{
    document, lemma_tree_of_collections, tree_of, GraphParser, GraphValue, Tree,
};
use crate::json_parser::key_text;
use crate::text::{
    chars_of, comma_join_counts, comma_separated, counts_as_ints, parse_number, read_number,
};

verus! {

/// A graph of named nodes: the names of the nodes, and for every node the
/// list of its neighbours by their indices.
pub struct Graph {
    pub names: Vec<String>,
    pub data: Vec<Vec<usize>>,
}

/// Whether every neighbour that the lists name is a node of the graph.
pub open spec fn in_range(adj: Seq<Seq<int>>) -> bool {
    forall|i: int, k: int|
        0 <= i < adj.len() && 0 <= k < adj[i].len() ==> 0 <= (#[trigger] adj[i][k]) < adj.len()
}

/// Whether `b` is a neighbour of `a`.
pub open spec fn edge(adj: Seq<Seq<int>>, a: int, b: int) -> bool {
    0 <= a < adj.len() && exists|k: int| 0 <= k < adj[a].len() && #[trigger] adj[a][k] == b
}

/// Whether `path` leads from node to node along edges.
pub open spec fn is_path(adj: Seq<Seq<int>>, path: Seq<int>) -> bool {
    path.len() >= 1 && forall|k: int|
        0 <= k < path.len() - 1 ==> edge(adj, #[trigger] path[k], path[k + 1])
}

/// Whether a path leads from `a` to `b`. Every node reaches itself.
pub open spec fn reaches(adj: Seq<Seq<int>>, a: int, b: int) -> bool {
    exists|path: Seq<int>| #[trigger] is_path(adj, path) && path[0] == a && path.last() == b
}

/// Whether a node before `i` reaches `i`.
pub open spec fn led_by_earlier(adj: Seq<Seq<int>>, i: int) -> bool {
    exists|j: int| 0 <= j < i && #[trigger] reaches(adj, j, i)
}

/// How many of the first `n` nodes no earlier node reaches. In a graph
/// whose edges go both ways these are the first nodes of its connected
/// components, one for each.
pub open spec fn leaders(adj: Seq<Seq<int>>, n: int) -> int
    decreases n,
{
    if n <= 0 {
        0
    } else {
        leaders(adj, n - 1) + if led_by_earlier(adj, n - 1) {
            0int
        } else {
            1int
        }
    }
}

/// Whether the marked nodes are closed under edges: every neighbour of a
/// marked node is marked.
pub open spec fn closed(adj: Seq<Seq<int>>, marks: Seq<bool>) -> bool {
    forall|i: int, k: int|
        0 <= i < adj.len() && 0 <= k < adj[i].len() && marks[i] ==> marks[#[trigger] adj[i][k]]
}

/// How many nodes are not marked.
pub open spec fn unmarked(marks: Seq<bool>) -> nat
    decreases marks.len(),
{
    if marks.len() == 0 {
        0
    } else {
        unmarked(marks.drop_last()) + if marks.last() {
            0nat
        } else {
            1nat
        }
    }
}

/// Lists of neighbours as mathematical data.
pub open spec fn lists_view(data: Seq<Vec<usize>>) -> Seq<Seq<int>> {
    Seq::new(data.len(), |i: int| Seq::new(data[i]@.len(), |k: int| data[i]@[k] as int))
}

/// Marking a node that was not marked leaves one node less without mark.
pub proof fn lemma_mark(marks: Seq<bool>, i: int)
    requires
        0 <= i < marks.len(),
        !marks[i],
    ensures
        unmarked(marks.update(i, true)) + 1 == unmarked(marks),
    decreases marks.len(),
{
    let after = marks.update(i, true);
    if i == marks.len() - 1 {
        assert(after.drop_last() =~= marks.drop_last());
    } else {
        assert(after.drop_last() =~= marks.drop_last().update(i, true));
        lemma_mark(marks.drop_last(), i);
    }
}

/// Whether `path` leads from node to node along edges, and through nodes
/// without mark: none of its nodes but the first is marked.
pub open spec fn is_fresh_path(adj: Seq<Seq<int>>, marks: Seq<bool>, path: Seq<int>) -> bool {
    is_path(adj, path) && forall|k: int| 1 <= k < path.len() ==> !marks[#[trigger] path[k]]
}

/// Whether a path leads from `a` to `b` through nodes without mark. Every
/// node reaches itself so, marked or not.
pub open spec fn reaches_fresh(adj: Seq<Seq<int>>, marks: Seq<bool>, a: int, b: int) -> bool {
    exists|path: Seq<int>| #[trigger]
        is_fresh_path(adj, marks, path) && path[0] == a && path.last() == b
}

/// Every node reaches itself through nodes without mark.
pub proof fn lemma_fresh_itself(adj: Seq<Seq<int>>, marks: Seq<bool>, a: int)
    ensures
        reaches_fresh(adj, marks, a, a),
{
    let path = seq![a];
    assert(is_fresh_path(adj, marks, path));
    assert(path[0] == a && path.last() == a);
}

/// A path through nodes without mark goes on along an edge to a node
/// without mark.
pub proof fn lemma_fresh_step(adj: Seq<Seq<int>>, marks: Seq<bool>, a: int, b: int, c: int)
    requires
        reaches_fresh(adj, marks, a, b),
        edge(adj, b, c),
        !marks[c],
    ensures
        reaches_fresh(adj, marks, a, c),
{
    let path = choose|path: Seq<int>| #[trigger]
        is_fresh_path(adj, marks, path) && path[0] == a && path.last() == b;
    let longer = path.push(c);
    assert forall|k: int| 0 <= k < longer.len() - 1 implies edge(
        adj,
        #[trigger] longer[k],
        longer[k + 1],
    ) by {
        if k < path.len() - 1 {
            assert(edge(adj, path[k], path[k + 1]));
        }
    }
    assert forall|k: int| 1 <= k < longer.len() implies !marks[#[trigger] longer[k]] by {
        if k < path.len() {
            assert(longer[k] == path[k]);
        }
    }
    assert(is_fresh_path(adj, marks, longer));
    assert(longer[0] == a && longer.last() == c);
}

/// A path from a node of the graph stays among its nodes.
pub proof fn lemma_path_in_range(adj: Seq<Seq<int>>, path: Seq<int>, k: int)
    requires
        in_range(adj),
        is_path(adj, path),
        0 <= path[0] < adj.len(),
        0 <= k < path.len(),
    ensures
        0 <= path[k] < adj.len(),
    decreases k,
{
    if k > 0 {
        lemma_path_in_range(adj, path, k - 1);
        let a = path[k - 1];
        assert(edge(adj, path[k - 1], path[k - 1 + 1]));
        let j = choose|j: int| 0 <= j < adj[a].len() && #[trigger] adj[a][j] == path[k];
        assert(0 <= adj[a][j] < adj.len());
    }
}

/// Where the marked nodes are closed under edges, a path that comes to a
/// marked node stays among the marked nodes from there on.
pub proof fn lemma_marked_onward(
    adj: Seq<Seq<int>>,
    marks: Seq<bool>,
    path: Seq<int>,
    j: int,
    k: int,
)
    requires
        in_range(adj),
        marks.len() == adj.len(),
        closed(adj, marks),
        is_path(adj, path),
        0 <= path[0] < adj.len(),
        0 <= j <= k < path.len(),
        marks[path[j]],
    ensures
        marks[path[k]],
    decreases k,
{
    if k > j {
        lemma_marked_onward(adj, marks, path, j, k - 1);
        lemma_path_in_range(adj, path, k - 1);
        let a = path[k - 1];
        assert(edge(adj, path[k - 1], path[k - 1 + 1]));
        let i = choose|i: int| 0 <= i < adj[a].len() && #[trigger] adj[a][i] == path[k];
        assert(marks[adj[a][i]]);
    }
}

/// Where the marked nodes are closed under edges, a marked node reaches
/// marked nodes only.
pub proof fn lemma_closed_keeps_paths(adj: Seq<Seq<int>>, marks: Seq<bool>, a: int, b: int)
    requires
        in_range(adj),
        marks.len() == adj.len(),
        closed(adj, marks),
        0 <= a < adj.len(),
        marks[a],
        reaches(adj, a, b),
    ensures
        0 <= b < adj.len(),
        marks[b],
{
    let path = choose|path: Seq<int>| #[trigger]
        is_path(adj, path) && path[0] == a && path.last() == b;
    lemma_path_in_range(adj, path, path.len() as int - 1);
    lemma_marked_onward(adj, marks, path, 0, path.len() as int - 1);
}

/// Where the marked nodes are closed under edges, a search from a node
/// marks, besides them, exactly what the node reaches, and leaves the marked
/// nodes closed under edges.
pub proof fn lemma_search_over_closed_marks(
    adj: Seq<Seq<int>>,
    before: Seq<bool>,
    after: Seq<bool>,
    start: int,
)
    requires
        in_range(adj),
        before.len() == adj.len(),
        after.len() == adj.len(),
        0 <= start < adj.len(),
        closed(adj, before),
        forall|i: int|
            0 <= i < adj.len() ==> (after[i] <==> (before[i] || reaches_fresh(
                adj,
                before,
                start,
                i,
            ))),
    ensures
        forall|i: int|
            0 <= i < adj.len() ==> (after[i] <==> (before[i] || reaches(adj, start, i))),
        closed(adj, after),
{
    assert forall|i: int| 0 <= i < adj.len() implies (after[i] <==> (before[i] || reaches(
        adj,
        start,
        i,
    ))) by {
        if reaches_fresh(adj, before, start, i) {
            let path = choose|path: Seq<int>| #[trigger]
                is_fresh_path(adj, before, path) && path[0] == start && path.last() == i;
            assert(is_path(adj, path) && path[0] == start && path.last() == i);
        }
        if reaches(adj, start, i) && !before[i] {
            let path = choose|path: Seq<int>| #[trigger]
                is_path(adj, path) && path[0] == start && path.last() == i;
            assert forall|k: int| 1 <= k < path.len() implies !before[#[trigger] path[k]] by {
                if before[path[k]] {
                    lemma_marked_onward(adj, before, path, k, path.len() as int - 1);
                }
            }
            assert(is_fresh_path(adj, before, path));
        }
    }
    assert forall|i: int, k: int|
        0 <= i < adj.len() && 0 <= k < adj[i].len() && after[i] implies after[#[trigger] adj[i][k]] by {
        let t = adj[i][k];
        assert(0 <= t < adj.len());
        if before[i] {
            assert(before[t]);
        } else if !before[t] {
            assert(edge(adj, i, t));
            lemma_fresh_step(adj, before, start, i, t);
        }
    }
}

/// What a finished search has taken into its queue: every node on a path
/// from the first node of the queue through nodes that were not marked
/// before.
proof fn lemma_fresh_is_queued(
    adj: Seq<Seq<int>>,
    before: Seq<bool>,
    marks: Seq<bool>,
    queue: Seq<usize>,
    path: Seq<int>,
    k: int,
)
    requires
        in_range(adj),
        before.len() == adj.len(),
        marks.len() == adj.len(),
        queue.len() >= 1,
        is_fresh_path(adj, before, path),
        path[0] == queue[0],
        0 <= k < path.len(),
        forall|q: int| 0 <= q < queue.len() ==> (#[trigger] queue[q]) < adj.len(),
        forall|q: int, j: int|
            0 <= q < queue.len() && 0 <= j < adj[queue[q] as int].len() ==> marks[#[trigger] adj[queue[q] as int][j]],
        forall|i: int|
            0 <= i < adj.len() && marks[i] && !before[i] ==> exists|q: int|
                0 <= q < queue.len() && #[trigger] queue[q] == i,
    ensures
        exists|q: int| 0 <= q < queue.len() && #[trigger] queue[q] == path[k],
    decreases k,
{
    if k == 0 {
        assert(queue[0] == path[0]);
    } else {
        lemma_fresh_is_queued(adj, before, marks, queue, path, k - 1);
        let q = choose|q: int| 0 <= q < queue.len() && #[trigger] queue[q] == path[k - 1];
        let a = path[k - 1];
        assert(edge(adj, path[k - 1], path[k - 1 + 1]));
        let j = choose|j: int| 0 <= j < adj[a].len() && #[trigger] adj[a][j] == path[k];
        assert(marks[adj[queue[q] as int][j]]);
        assert(0 <= adj[a][j] < adj.len());
        assert(!before[path[k]]);
    }
}

/// Marks `start` and every node that `start` reaches through nodes without
/// mark.
///
/// The nodes are taken from a queue that begins with `start`; each node
/// that is taken puts its neighbours without mark into the queue and marks
/// them.
pub fn bfs(graph: &Graph, start: usize, visited: &mut Vec<bool>)
    requires
        in_range(lists_view(graph.data@)),
        old(visited).len() == graph.data.len(),
        start < graph.data.len(),
    ensures
        final(visited).len() == graph.data.len(),
        forall|i: int|
            0 <= i < graph.data.len() ==> (final(visited)[i] <==> (old(visited)[i]
                || reaches_fresh(lists_view(graph.data@), old(visited)@, start as int, i))),
{
    let adj = &graph.data;
    let ghost g = lists_view(graph.data@);
    let ghost before = visited@;
    let mut queue: Vec<usize> = Vec::new();
    queue.push(start);
    visited.set(start, true);
    proof {
        lemma_fresh_itself(g, before, start as int);
        assert(queue[0] == start);
    }
    let mut head: usize = 0;
    while head < queue.len()
        invariant
            g == lists_view(adj@),
            in_range(g),
            visited.len() == adj.len(),
            before.len() == adj.len(),
            start < adj.len(),
            head <= queue.len(),
            queue.len() >= 1,
            queue[0] == start,
            forall|i: int| 0 <= i < adj.len() && before[i] ==> visited[i],
            forall|q: int|
                0 <= q < queue.len() ==> (#[trigger] queue[q]) < adj.len() && visited[queue[q] as int]
                    && reaches_fresh(g, before, start as int, queue[q] as int),
            forall|i: int|
                0 <= i < adj.len() && visited[i] && !before[i] ==> exists|q: int|
                    0 <= q < queue.len() && #[trigger] queue[q] == i,
            forall|q: int, k: int|
                0 <= q < head && 0 <= k < g[queue[q] as int].len() ==> visited[#[trigger] g[queue[q] as int][k]],
        decreases unmarked(visited@) + (queue.len() - head),
    {
        let node: usize = queue[head];
        let neighbours = &adj[node];
        let ghost weight = unmarked(visited@) + queue.len();
        let mut k: usize = 0;
        while k < neighbours.len()
            invariant
                g == lists_view(adj@),
                in_range(g),
                visited.len() == adj.len(),
                before.len() == adj.len(),
                start < adj.len(),
                head < queue.len(),
                queue[0] == start,
                node == queue[head as int],
                node < adj.len(),
                neighbours == adj[node as int],
                k <= neighbours.len(),
                forall|i: int| 0 <= i < adj.len() && before[i] ==> visited[i],
                forall|q: int|
                    0 <= q < queue.len() ==> (#[trigger] queue[q]) < adj.len() && visited[queue[q] as int]
                        && reaches_fresh(g, before, start as int, queue[q] as int),
                forall|i: int|
                    0 <= i < adj.len() && visited[i] && !before[i] ==> exists|q: int|
                        0 <= q < queue.len() && #[trigger] queue[q] == i,
                forall|q: int, j: int|
                    0 <= q < head && 0 <= j < g[queue[q] as int].len() ==> visited[#[trigger] g[queue[q] as int][j]],
                forall|j: int| 0 <= j < k ==> visited[#[trigger] g[node as int][j]],
                unmarked(visited@) + queue.len() == weight,
            decreases neighbours.len() - k,
        {
            let neighbor: usize = neighbours[k];
            assert(neighbor == g[node as int][k as int]);
            assert(neighbor < adj.len());
            if !visited[neighbor] {
                let ghost marks = visited@;
                let ghost waiting = queue@;
                visited.set(neighbor, true);
                queue.push(neighbor);
                proof {
                    lemma_mark(marks, neighbor as int);
                    assert(edge(g, node as int, neighbor as int));
                    assert(!before[neighbor as int]);
                    lemma_fresh_step(g, before, start as int, node as int, neighbor as int);
                    assert forall|i: int|
                        0 <= i < adj.len() && visited[i] && !before[i] implies exists|q: int|
                        0 <= q < queue.len() && #[trigger] queue[q] == i by {
                        if i == neighbor {
                            assert(queue[queue.len() - 1] == i);
                        } else {
                            let q = choose|q: int| 0 <= q < waiting.len() && #[trigger] waiting[q] == i;
                            assert(queue[q] == i);
                        }
                    }
                }
            }
            k = k + 1;
        }
        head = head + 1;
    }
    proof {
        assert forall|i: int| 0 <= i < adj.len() implies (visited[i] <==> (before[i] || reaches_fresh(
            g,
            before,
            start as int,
            i,
        ))) by {
            if visited[i] && !before[i] {
                let q = choose|q: int| 0 <= q < queue.len() && #[trigger] queue[q] == i;
                assert(reaches_fresh(g, before, start as int, queue[q] as int));
            }
            if reaches_fresh(g, before, start as int, i) {
                let path = choose|path: Seq<int>| #[trigger]
                    is_fresh_path(g, before, path) && path[0] == start as int && path.last() == i;
                lemma_fresh_is_queued(g, before, visited@, queue@, path, path.len() as int - 1);
                let q = choose|q: int| 0 <= q < queue.len() && #[trigger] queue[q] == i;
                assert(visited[queue[q] as int]);
            }
        }
    }
}

/// How many of the nodes of `graph` no earlier node reaches: the number of
/// its connected components, where its edges go both ways.
///
/// The nodes are gone through in order. A node without mark begins a new
/// group, and everything that it reaches is marked.
pub fn count_connected_components(graph: &Graph) -> (count: usize)
    requires
        in_range(lists_view(graph.data@)),
    ensures
        count == leaders(lists_view(graph.data@), graph.data.len() as int),
{
    let n: usize = graph.data.len();
    let ghost g = lists_view(graph.data@);
    let mut visited: Vec<bool> = Vec::new();
    let mut i: usize = 0;
    while i < n
        invariant
            i <= n,
            visited.len() == i,
            forall|k: int| 0 <= k < i ==> !visited[k],
        decreases n - i,
    {
        visited.push(false);
        i = i + 1;
    }
    let mut count: usize = 0;
    let mut node: usize = 0;
    while node < n
        invariant
            n == graph.data.len(),
            g == lists_view(graph.data@),
            in_range(g),
            node <= n,
            visited.len() == n,
            closed(g, visited@),
            forall|i: int|
                0 <= i < n ==> (visited[i] <==> exists|j: int|
                    0 <= j < node && #[trigger] reaches(g, j, i)),
            count == leaders(g, node as int),
            count <= node,
        decreases n - node,
    {
        let ghost marks = visited@;
        if !visited[node] {
            bfs(graph, node, &mut visited);
            count = count + 1;
            proof {
                lemma_search_over_closed_marks(g, marks, visited@, node as int);
                assert(!led_by_earlier(g, node as int));
                assert forall|i: int| 0 <= i < n implies (visited[i] <==> exists|j: int|
                    0 <= j < node + 1 && #[trigger] reaches(g, j, i)) by {
                    if visited[i] {
                        if marks[i] {
                            let j = choose|j: int| 0 <= j < node && #[trigger] reaches(g, j, i);
                            assert(0 <= j < node + 1 && reaches(g, j, i));
                        } else {
                            assert(reaches(g, node as int, i));
                        }
                    }
                    if exists|j: int| 0 <= j < node + 1 && #[trigger] reaches(g, j, i) {
                        let j = choose|j: int| 0 <= j < node + 1 && #[trigger] reaches(g, j, i);
                        if j < node {
                            assert(marks[i]);
                        }
                    }
                }
            }
        } else {
            proof {
                let lead = choose|j: int| 0 <= j < node && #[trigger] reaches(g, j, node as int);
                assert(led_by_earlier(g, node as int));
                assert forall|i: int| 0 <= i < n implies (visited[i] <==> exists|j: int|
                    0 <= j < node + 1 && #[trigger] reaches(g, j, i)) by {
                    if visited[i] {
                        let j = choose|j: int| 0 <= j < node && #[trigger] reaches(g, j, i);
                        assert(0 <= j < node + 1 && reaches(g, j, i));
                    }
                    if exists|j: int| 0 <= j < node + 1 && #[trigger] reaches(g, j, i) {
                        let j = choose|j: int| 0 <= j < node + 1 && #[trigger] reaches(g, j, i);
                        if j == node {
                            lemma_closed_keeps_paths(g, visited@, node as int, i);
                        }
                    }
                }
            }
        }
        node = node + 1;
    }
    count
}

/// A name.
pub type Name = Seq<char>;

/// The roads of a district: for some places, the places that a road leads
/// to from there.
pub type Roads = Seq<(Name, Seq<Name>)>;

/// All the names of `roads` in the order of the text: every place with
/// those that it leads to behind it.
pub open spec fn flat(roads: Roads) -> Seq<Name>
    decreases roads.len(),
{
    if roads.len() == 0 {
        Seq::<Name>::empty()
    } else {
        flat(roads.drop_last()).push(roads.last().0) + roads.last().1
    }
}

/// The names with `name` among them: behind the others unless it is there.
pub open spec fn with_name(names: Seq<Name>, name: Name) -> Seq<Name> {
    if names.contains(name) {
        names
    } else {
        names.push(name)
    }
}

/// The names without repetition, each where it first occurs.
pub open spec fn dedup(names: Seq<Name>) -> Seq<Name>
    decreases names.len(),
{
    if names.len() == 0 {
        Seq::<Name>::empty()
    } else {
        with_name(dedup(names.drop_last()), names.last())
    }
}

/// The roads one by one: every place with each place that it leads to.
pub open spec fn pairs(roads: Roads) -> Seq<(Name, Name)>
    decreases roads.len(),
{
    if roads.len() == 0 {
        Seq::<(Name, Name)>::empty()
    } else {
        pairs(roads.drop_last()) + Seq::new(
            roads.last().1.len(),
            |j: int| (roads.last().0, roads.last().1[j]),
        )
    }
}

/// The index at which `name` first stands among `names`, or their number if
/// it does not.
pub open spec fn position(names: Seq<Name>, name: Name) -> int
    decreases names.len(),
{
    if names.len() == 0 {
        0
    } else {
        let before = position(names.drop_last(), name);
        if before < names.len() - 1 {
            before
        } else if names.last() == name {
            names.len() - 1
        } else {
            names.len() as int
        }
    }
}

/// The lists of neighbours with a road between `a` and `b`: `b` comes
/// behind the neighbours of `a`, and then `a` behind those of `b`.
pub open spec fn linked(lists: Seq<Seq<int>>, a: int, b: int) -> Seq<Seq<int>> {
    let first = lists.update(a, lists[a].push(b));
    first.update(b, first[b].push(a))
}

/// The lists of neighbours that the roads `pairs` make among the places
/// `names`.
pub open spec fn links(names: Seq<Name>, pairs: Seq<(Name, Name)>) -> Seq<Seq<int>>
    decreases pairs.len(),
{
    if pairs.len() == 0 {
        Seq::new(names.len(), |i: int| Seq::<int>::empty())
    } else {
        linked(
            links(names, pairs.drop_last()),
            position(names, pairs.last().0),
            position(names, pairs.last().1),
        )
    }
}

/// Names as sequences of characters.
pub open spec fn names_view(names: Seq<String>) -> Seq<Name> {
    Seq::new(names.len(), |i: int| names[i]@)
}

/// Roads as mathematical data.
pub open spec fn roads_view(edges: Seq<(String, Vec<String>)>) -> Roads {
    Seq::new(edges.len(), |i: int| (edges[i].0@, names_view(edges[i].1@)))
}

/// A name stands among the names before its position is their number.
pub proof fn lemma_position(names: Seq<Name>, name: Name)
    ensures
        0 <= position(names, name) <= names.len(),
        position(names, name) < names.len() <==> names.contains(name),
        position(names, name) < names.len() ==> names[position(names, name)] == name,
    decreases names.len(),
{
    if names.len() > 0 {
        let front = names.drop_last();
        lemma_position(front, name);
        if front.contains(name) {
            let k = choose|k: int| 0 <= k < front.len() && front[k] == name;
            assert(names[k] == name);
        }
        if names.last() == name {
            assert(names[names.len() - 1] == name);
        }
        if names.contains(name) {
            let k = choose|k: int| 0 <= k < names.len() && names[k] == name;
            if k < names.len() - 1 {
                assert(front[k] == name);
            }
        }
    }
}

/// Every name stands among the names without repetition.
pub proof fn lemma_dedup_contains(names: Seq<Name>, k: int)
    requires
        0 <= k < names.len(),
    ensures
        dedup(names).contains(names[k]),
    decreases names.len(),
{
    let front = dedup(names.drop_last());
    if k < names.len() - 1 {
        lemma_dedup_contains(names.drop_last(), k);
        let j = choose|j: int| 0 <= j < front.len() && front[j] == names.drop_last()[k];
        assert(dedup(names)[j] == names[k]);
    } else {
        if front.contains(names.last()) {
        } else {
            assert(dedup(names)[front.len() as int] == names.last());
        }
    }
}

/// The places of the roads stand among all the names.
pub proof fn lemma_pairs_in_flat(roads: Roads, k: int)
    requires
        0 <= k < pairs(roads).len(),
    ensures
        flat(roads).contains(pairs(roads)[k].0),
        flat(roads).contains(pairs(roads)[k].1),
    decreases roads.len(),
{
    if roads.len() > 0 {
        let front = roads.drop_last();
        let head = flat(front).push(roads.last().0);
        let all = flat(roads);
        if k < pairs(front).len() {
            lemma_pairs_in_flat(front, k);
            let a = choose|a: int| 0 <= a < flat(front).len() && flat(front)[a] == pairs(front)[k].0;
            let b = choose|b: int| 0 <= b < flat(front).len() && flat(front)[b] == pairs(front)[k].1;
            assert(all[a] == pairs(roads)[k].0);
            assert(all[b] == pairs(roads)[k].1);
        } else {
            let j = k - pairs(front).len();
            assert(all[flat(front).len() as int] == roads.last().0);
            assert(all[head.len() + j] == roads.last().1[j]);
        }
    }
}

/// The lists of neighbours are as many as the places, and name places only.
pub proof fn lemma_links_in_range(names: Seq<Name>, pairs: Seq<(Name, Name)>)
    requires
        forall|k: int|
            0 <= k < pairs.len() ==> names.contains((#[trigger] pairs[k]).0) && names.contains(
                pairs[k].1,
            ),
    ensures
        links(names, pairs).len() == names.len(),
        forall|i: int, k: int|
            0 <= i < names.len() && 0 <= k < links(names, pairs)[i].len() ==> 0 <= (
            #[trigger] links(names, pairs)[i][k]) < names.len(),
    decreases pairs.len(),
{
    if pairs.len() > 0 {
        let front = pairs.drop_last();
        assert forall|k: int| 0 <= k < front.len() implies names.contains((#[trigger] front[k]).0)
            && names.contains(front[k].1) by {
            assert(front[k] == pairs[k]);
        }
        lemma_links_in_range(names, front);
        let last = pairs[pairs.len() - 1];
        lemma_position(names, last.0);
        lemma_position(names, last.1);
    }
}

impl Graph {
    /// A graph without nodes.
    pub fn new() -> (graph: Self)
        ensures
            graph.names@.len() == 0,
            graph.data@.len() == 0,
    {
        Graph { names: Vec::new(), data: Vec::new() }
    }

    /// Makes the graph that of the roads `edges`.
    ///
    /// The places become the nodes, in the order in which they first occur.
    /// Every road is then entered with both its ends: each end comes last
    /// among the neighbours of the other.
    pub fn generate_edges(&mut self, edges: &Vec<(String, Vec<String>)>)
        ensures
            names_view(final(self).names@) == dedup(flat(roads_view(edges@))),
            lists_view(final(self).data@) == links(
                dedup(flat(roads_view(edges@))),
                pairs(roads_view(edges@)),
            ),
            final(self).data.len() == final(self).names.len(),
            in_range(lists_view(final(self).data@)),
    {
        let ghost roads = roads_view(edges@);
        let mut names: Vec<String> = Vec::new();
        let mut data: Vec<Vec<usize>> = Vec::new();
        let mut i: usize = 0;
        proof {
            assert(roads.take(0) =~= Seq::<(Name, Seq<Name>)>::empty());
            assert(names_view(names@) =~= dedup(flat(roads.take(0))));
        }
        while i < edges.len()
            invariant
                i <= edges.len(),
                roads == roads_view(edges@),
                names_view(names@) == dedup(flat(roads.take(i as int))),
                data.len() == names.len(),
                forall|k: int| 0 <= k < data.len() ==> (#[trigger] data[k]).len() == 0,
            decreases edges.len() - i,
        {
            let ghost before = flat(roads.take(i as int));
            let ghost src = edges[i as int].0@;
            let ghost dsts = names_view(edges[i as int].1@);
            proof {
                assert(roads.take(i + 1).drop_last() =~= roads.take(i as int));
                assert(roads.take(i + 1).last() == (src, dsts));
                assert(before.push(src).drop_last() =~= before);
            }
            note(&mut names, &mut data, &edges[i].0);
            let mut j: usize = 0;
            proof {
                assert(before.push(src) + dsts.take(0) =~= before.push(src));
            }
            while j < edges[i].1.len()
                invariant
                    i < edges.len(),
                    j <= edges[i as int].1.len(),
                    dsts == names_view(edges[i as int].1@),
                    names_view(names@) == dedup(before.push(src) + dsts.take(j as int)),
                    data.len() == names.len(),
                    forall|k: int| 0 <= k < data.len() ==> (#[trigger] data[k]).len() == 0,
                decreases edges[i as int].1.len() - j,
            {
                let ghost so_far = before.push(src) + dsts.take(j as int);
                proof {
                    assert(before.push(src) + dsts.take(j + 1) =~= so_far.push(dsts[j as int]));
                    assert(so_far.push(dsts[j as int]).drop_last() =~= so_far);
                }
                note(&mut names, &mut data, &edges[i].1[j]);
                j = j + 1;
            }
            proof {
                assert(dsts.take(dsts.len() as int) =~= dsts);
            }
            i = i + 1;
        }
        proof {
            assert(roads.take(edges.len() as int) =~= roads);
        }
        let ghost all = names_view(names@);
        let ghost every = pairs(roads);
        proof {
            assert forall|k: int| 0 <= k < every.len() implies all.contains((#[trigger] every[k]).0)
                && all.contains(every[k].1) by {
                lemma_pairs_in_flat(roads, k);
                let a = choose|a: int| 0 <= a < flat(roads).len() && flat(roads)[a] == every[k].0;
                lemma_dedup_contains(flat(roads), a);
                let b = choose|b: int| 0 <= b < flat(roads).len() && flat(roads)[b] == every[k].1;
                lemma_dedup_contains(flat(roads), b);
            }
        }
        let mut i: usize = 0;
        proof {
            assert(roads.take(0) =~= Seq::<(Name, Seq<Name>)>::empty());
            assert(pairs(roads.take(0)) =~= Seq::<(Name, Name)>::empty());
            assert(lists_view(data@) =~~= links(all, pairs(roads.take(0))));
        }
        while i < edges.len()
            invariant
                i <= edges.len(),
                roads == roads_view(edges@),
                all == names_view(names@),
                every == pairs(roads),
                data.len() == names.len(),
                forall|k: int|
                    0 <= k < every.len() ==> all.contains((#[trigger] every[k]).0) && all.contains(
                        every[k].1,
                    ),
                lists_view(data@) == links(all, pairs(roads.take(i as int))),
            decreases edges.len() - i,
        {
            let ghost done = pairs(roads.take(i as int));
            let ghost src = edges[i as int].0@;
            let ghost dsts = names_view(edges[i as int].1@);
            let ghost fresh = Seq::new(dsts.len(), |j: int| (src, dsts[j]));
            proof {
                assert(roads.take(i + 1).drop_last() =~= roads.take(i as int));
                assert(roads.take(i + 1).last() == (src, dsts));
                assert(pairs(roads.take(i + 1)) =~= done + fresh);
                lemma_pairs_prefix(roads, i as int + 1);
                assert forall|j: int| 0 <= j < fresh.len() implies all.contains(src) && all.contains(
                    dsts[j],
                ) by {
                    assert(pairs(roads.take(i + 1))[done.len() + j] == fresh[j]);
                    assert(every[done.len() + j] == fresh[j]);
                }
                if dsts.len() > 0 {
                    assert(fresh[0] == (src, dsts[0]));
                    assert(all.contains(src));
                }
            }
            let mut j: usize = 0;
            proof {
                assert(done + fresh.take(0) =~= done);
            }
            while j < edges[i].1.len()
                invariant
                    i < edges.len(),
                    j <= edges[i as int].1.len(),
                    src == edges[i as int].0@,
                    dsts == names_view(edges[i as int].1@),
                    fresh == Seq::new(dsts.len(), |j: int| (src, dsts[j])),
                    all == names_view(names@),
                    data.len() == names.len(),
                    forall|k: int| 0 <= k < dsts.len() ==> all.contains(#[trigger] dsts[k]),
                    dsts.len() > 0 ==> all.contains(src),
                    lists_view(data@) == links(all, done + fresh.take(j as int)),
                decreases edges[i as int].1.len() - j,
            {
                let ghost so_far = done + fresh.take(j as int);
                let ghost lists = lists_view(data@);
                proof {
                    assert(done + fresh.take(j + 1) =~= so_far.push(fresh[j as int]));
                    assert(so_far.push(fresh[j as int]).drop_last() =~= so_far);
                    assert(all.contains(dsts[j as int]));
                    lemma_position(all, src);
                    lemma_position(all, dsts[j as int]);
                }
                let src_index: usize = find_name(&names, &edges[i].0);
                let dst_index: usize = find_name(&names, &edges[i].1[j]);
                push_neighbour(&mut data, src_index, dst_index);
                push_neighbour(&mut data, dst_index, src_index);
                proof {
                    assert(lists_view(data@) =~= linked(lists, src_index as int, dst_index as int));
                }
                j = j + 1;
            }
            proof {
                assert(fresh.take(fresh.len() as int) =~= fresh);
            }
            i = i + 1;
        }
        proof {
            assert(roads.take(edges.len() as int) =~= roads);
            lemma_links_in_range(all, every);
        }
        self.names = names;
        self.data = data;
    }
}

/// The roads of the first places come first among all the roads.
proof fn lemma_pairs_prefix(roads: Roads, n: int)
    requires
        0 <= n <= roads.len(),
    ensures
        pairs(roads.take(n)).len() <= pairs(roads).len(),
        forall|k: int|
            0 <= k < pairs(roads.take(n)).len() ==> pairs(roads)[k] == #[trigger] pairs(
                roads.take(n),
            )[k],
    decreases roads.len(),
{
    if n == roads.len() {
        assert(roads.take(n) =~= roads);
    } else {
        assert(roads.drop_last().take(n) =~= roads.take(n));
        lemma_pairs_prefix(roads.drop_last(), n);
    }
}

/// The index at which `name` first stands among `names`, or their number.
fn find_name(names: &Vec<String>, name: &String) -> (i: usize)
    ensures
        i == position(names_view(names@), name@),
        i <= names.len(),
{
    let ghost all = names_view(names@);
    let mut k: usize = 0;
    proof {
        assert(all.take(0) =~= Seq::<Name>::empty());
    }
    while k < names.len()
        invariant
            k <= names.len(),
            all == names_view(names@),
            position(all.take(k as int), name@) == k,
        decreases names.len() - k,
    {
        proof {
            assert(all.take(k + 1).drop_last() =~= all.take(k as int));
            assert(all.take(k + 1).last() == names[k as int]@);
        }
        if names[k] == *name {
            proof {
                lemma_position_found(all, k as int, name@);
            }
            return k;
        }
        k = k + 1;
    }
    proof {
        assert(all.take(names.len() as int) =~= all);
    }
    k
}

/// A name that first stands at `k` among the first `k + 1` names first
/// stands there among all of them.
proof fn lemma_position_found(names: Seq<Name>, k: int, name: Name)
    requires
        0 <= k < names.len(),
        position(names.take(k + 1), name) == k,
    ensures
        position(names, name) == k,
    decreases names.len(),
{
    if k + 1 == names.len() {
        assert(names.take(k + 1) =~= names);
    } else {
        assert(names.drop_last().take(k + 1) =~= names.take(k + 1));
        lemma_position_found(names.drop_last(), k, name);
    }
}

/// Notes `name` as a node, with no neighbours yet, unless it is one.
fn note(names: &mut Vec<String>, data: &mut Vec<Vec<usize>>, name: &String)
    requires
        old(data).len() == old(names).len(),
        forall|k: int| 0 <= k < old(data).len() ==> (#[trigger] old(data)[k]).len() == 0,
    ensures
        names_view(final(names)@) == with_name(names_view(old(names)@), name@),
        final(data).len() == final(names).len(),
        forall|k: int| 0 <= k < final(data).len() ==> (#[trigger] final(data)[k]).len() == 0,
{
    let ghost all = names_view(names@);
    proof {
        lemma_position(all, name@);
    }
    if find_name(names, name) == names.len() {
        names.push(name.clone());
        data.push(Vec::new());
        assert(names_view(names@) =~= all.push(name@));
    }
}

/// Puts `b` behind the neighbours of `a`.
fn push_neighbour(data: &mut Vec<Vec<usize>>, a: usize, b: usize)
    requires
        a < old(data).len(),
    ensures
        final(data).len() == old(data).len(),
        lists_view(final(data)@) == lists_view(old(data)@).update(
            a as int,
            lists_view(old(data)@)[a as int].push(b as int),
        ),
{
    let ghost before = lists_view(data@);
    let mut list: Vec<usize> = Vec::new();
    let mut k: usize = 0;
    while k < data[a].len()
        invariant
            a < data.len(),
            data@ == old(data)@,
            k <= data[a as int].len(),
            list.len() == k,
            forall|j: int| 0 <= j < k ==> list[j] == data[a as int][j],
        decreases data[a as int].len() - k,
    {
        list.push(data[a][k]);
        k = k + 1;
    }
    list.push(b);
    data.set(a, list);
    assert(lists_view(data@) =~= before.update(a as int, before[a as int].push(b as int))) by {
        assert forall|i: int| 0 <= i < data.len() implies lists_view(data@)[i] =~= before.update(
            a as int,
            before[a as int].push(b as int),
        )[i] by {}
    }
}

/// The names that a list of strings holds; what is not a string counts as
/// the empty name, and what is not a list as no names.
pub open spec fn names_in(tree: Tree) -> Seq<Name> {
    match tree {
        Tree::Array(items) => Seq::new(items.len(), |i: int| key_text(items[i])),
        _ => Seq::<Name>::empty(),
    }
}

/// The roads that an object holds: every key with the names of its list.
pub open spec fn roads_in(tree: Tree) -> Roads {
    match tree {
        Tree::Graph(members) => Seq::new(
            members.len(),
            |i: int| (key_text(members[i].0), names_in(members[i].1)),
        ),
        _ => Seq::<(Name, Seq<Name>)>::empty(),
    }
}

/// The districts that an object holds: every key with the roads of its
/// object.
pub open spec fn districts_in(tree: Tree) -> Seq<(Name, Roads)> {
    match tree {
        Tree::Graph(members) => Seq::new(
            members.len(),
            |i: int| (key_text(members[i].0), roads_in(members[i].1)),
        ),
        _ => Seq::<(Name, Roads)>::empty(),
    }
}

/// The number of groups of connected places that the roads make.
pub open spec fn groups(roads: Roads) -> int {
    let names = dedup(flat(roads));
    leaders(links(names, pairs(roads)), names.len() as int)
}

/// The place in the tally that a district has by its key: the key is a
/// number from 1 to 5, and the places are counted from 0.
pub open spec fn slot(key: Name) -> Option<int> {
    match read_number(key, 5) {
        Some(k) => if k >= 1 {
            Some(k - 1)
        } else {
            None
        },
        None => None,
    }
}

/// The tally after the first `n` districts: five counts, 0 at first, each
/// set to the number of groups of the district that has its place; of
/// districts with the same place the last one counts.
pub open spec fn tally(districts: Seq<(Name, Roads)>, n: int) -> Seq<int>
    decreases n,
{
    if n <= 0 {
        seq![0int, 0int, 0int, 0int, 0int]
    } else {
        let before = tally(districts, n - 1);
        match slot(districts[n - 1].0) {
            Some(i) => before.update(i, groups(districts[n - 1].1)),
            None => before,
        }
    }
}

/// Whether the districts of `text` can be counted: the text denotes a
/// value, and if that is an object, each of its keys is a number from 1 to 5.
pub open spec fn countable(text: Seq<char>) -> bool {
    document(text, 0, 0).value matches Ok(tree) && forall|i: int|
        0 <= i < districts_in(tree).len() ==> slot((#[trigger] districts_in(tree)[i]).0) is Some
}

/// The text of a string; empty for any other value.
fn text_of(value: &GraphValue) -> (name: String)
    ensures
        name@ == key_text(tree_of(*value)),
{
    match value {
        GraphValue::String(s) => s.clone(),
        _ => String::new(),
    }
}

/// The names that a list of strings holds.
fn names_from(value: &GraphValue) -> (names: Vec<String>)
    ensures
        names_view(names@) == names_in(tree_of(*value)),
{
    proof {
        lemma_tree_of_collections(*value);
    }
    let mut names: Vec<String> = Vec::new();
    match value {
        GraphValue::Array(items) => {
            let mut i: usize = 0;
            while i < items.len()
                invariant
                    i <= items.len(),
                    names.len() == i,
                    forall|k: int| 0 <= k < i ==> (#[trigger] names[k])@ == key_text(tree_of(items[k])),
                decreases items.len() - i,
            {
                names.push(text_of(&items[i]));
                i = i + 1;
            }
            assert(names_view(names@) =~= names_in(tree_of(*value)));
        },
        _ => {
            assert(names_view(names@) =~= names_in(tree_of(*value)));
        },
    }
    names
}

/// The roads that an object holds.
fn roads_from(value: &GraphValue) -> (edges: Vec<(String, Vec<String>)>)
    ensures
        roads_view(edges@) == roads_in(tree_of(*value)),
{
    proof {
        lemma_tree_of_collections(*value);
    }
    let mut edges: Vec<(String, Vec<String>)> = Vec::new();
    match value {
        GraphValue::Graph(members) => {
            let mut i: usize = 0;
            while i < members.len()
                invariant
                    i <= members.len(),
                    edges.len() == i,
                    forall|k: int|
                        0 <= k < i ==> (#[trigger] edges[k]).0@ == key_text(tree_of(members[k].0))
                            && names_view(edges[k].1@) == names_in(tree_of(members[k].1)),
                decreases members.len() - i,
            {
                let key = text_of(&members[i].0);
                let names = names_from(&members[i].1);
                edges.push((key, names));
                i = i + 1;
            }
            assert(roads_view(edges@) =~= roads_in(tree_of(*value)));
        },
        _ => {
            assert(roads_view(edges@) =~= roads_in(tree_of(*value)));
        },
    }
    edges
}

/// The number of groups of connected places that the roads make.
pub fn count_groups(edges: &Vec<(String, Vec<String>)>) -> (count: usize)
    ensures
        count == groups(roads_view(edges@)),
{
    let mut graph = Graph::new();
    graph.generate_edges(edges);
    proof {
        assert(graph.names.len() == names_view(graph.names@).len());
    }
    count_connected_components(&graph)
}

/// Counts, for each of five districts, the groups of places that its roads
/// connect, and gives the five counts with commas between them.
///
/// The text denotes an object whose keys are the numbers of the districts,
/// from 1 to 5. The value of each is an object in turn: its keys are
/// places, each with the list of the places to which a road leads from
/// there. A district that the text does not name counts 0.
pub fn count_provinces(input: &str) -> (result: String)
    requires
        countable(input@),
    ensures
        ({
            let districts = districts_in(document(input@, 0, 0).value->Ok_0);
            result@ == comma_separated(tally(districts, districts.len() as int))
        }),
{
    let mut parser = GraphParser::new(input);
    let value = parser.parse().unwrap();
    let ghost districts = districts_in(tree_of(value));
    proof {
        lemma_tree_of_collections(value);
    }
    let mut counts_list: Vec<u64> = Vec::new();
    counts_list.push(0);
    counts_list.push(0);
    counts_list.push(0);
    counts_list.push(0);
    counts_list.push(0);
    proof {
        assert(counts_as_ints(counts_list@) =~= tally(districts, 0));
    }
    match &value {
        GraphValue::Graph(members) => {
            let mut i: usize = 0;
            while i < members.len()
                invariant
                    i <= members.len(),
                    value == GraphValue::Graph(*members),
                    districts == districts_in(tree_of(value)),
                    districts.len() == members.len(),
                    forall|k: int|
                        0 <= k < districts.len() ==> slot((#[trigger] districts[k]).0) is Some,
                    counts_list.len() == 5,
                    counts_as_ints(counts_list@) == tally(districts, i as int),
                decreases members.len() - i,
            {
                proof {
                    lemma_tree_of_collections(value);
                    assert(districts[i as int].0 == key_text(tree_of(members[i as int].0)));
                    assert(districts[i as int].1 == roads_in(tree_of(members[i as int].1)));
                    assert(slot(districts[i as int].0) is Some);
                }
                let key = text_of(&members[i].0);
                let edges = roads_from(&members[i].1);
                let count: usize = count_groups(&edges);
                let key_chars = chars_of(key.as_str());
                let number: u64 = parse_number(&key_chars, 5).unwrap();
                let ghost before = counts_as_ints(counts_list@);
                counts_list.set((number - 1) as usize, count as u64);
                proof {
                    assert(counts_as_ints(counts_list@) =~= before.update(number - 1, count as int));
                }
                i = i + 1;
            }
        },
        _ => {
            assert(districts.len() == 0);
        },
    }
    comma_join_counts(&counts_list)
}

/// Whether each key of the object `value` is a number from 1 to 5. A
/// value that is no object has no keys.
pub fn has_district_keys(value: &GraphValue) -> (r: bool)
    ensures
        r == forall|i: int|
            0 <= i < districts_in(tree_of(*value)).len() ==> slot(
                (#[trigger] districts_in(tree_of(*value))[i]).0,
            ) is Some,
{
    let ghost districts = districts_in(tree_of(*value));
    proof {
        lemma_tree_of_collections(*value);
    }
    match value {
        GraphValue::Graph(members) => {
            let mut i: usize = 0;
            while i < members.len()
                invariant
                    i <= members.len(),
                    *value == GraphValue::Graph(*members),
                    districts == districts_in(tree_of(*value)),
                    districts.len() == members.len(),
                    forall|k: int| 0 <= k < i ==> slot((#[trigger] districts[k]).0) is Some,
                decreases members.len() - i,
            {
                proof {
                    lemma_tree_of_collections(*value);
                    assert(districts[i as int].0 == key_text(tree_of(members[i as int].0)));
                }
                let key = text_of(&members[i].0);
                let key_chars = chars_of(key.as_str());
                match parse_number(&key_chars, 5) {
                    Some(k) => {
                        if k < 1 {
                            assert(slot(districts[i as int].0) is None);
                            return false;
                        }
                    },
                    None => {
                        assert(slot(districts[i as int].0) is None);
                        return false;
                    },
                }
                i = i + 1;
            }
            true
        },
        _ => true,
    }
}

/// Counts the groups of connected places of five districts, or gives
/// nothing where the text denotes no value, or denotes an object with a key
/// that is no number from 1 to 5.
pub fn try_count_provinces(input: &str) -> (result: Option<String>)
    ensures
        countable(input@) ==> result is Some && ({
            let districts = districts_in(document(input@, 0, 0).value->Ok_0);
            result->Some_0@ == comma_separated(tally(districts, districts.len() as int))
        }),
        !countable(input@) ==> result is None,
{
    let mut parser = GraphParser::new(input);
    match parser.parse() {
        Ok(value) => {
            if has_district_keys(&value) {
                Some(count_provinces(input))
            } else {
                None
            }
        },
        Err(_) => None,
    }
}

} // verus!
