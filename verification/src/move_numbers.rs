//! Move numbers drawn on stones: which move last landed on each intersection,
//! counted from the start of the game or from a chosen anchor on the active
//! path of the game tree.
use vstd::prelude::*;

use crate::board::{parse_sgf_point, parse_sgf_vertex, MoveDto, Vertex};
use crate::markup::NodeId;
use crate::properties::Properties;
use crate::text::str_eq;

verus! {

/// The map a sequence of `(vertex, number)` entries stands for; a later entry
/// for the same vertex shadows earlier ones.
pub open spec fn numbers_map(e: Seq<(Vertex, usize)>) -> Map<Vertex, usize>
    decreases e.len(),
{
    if e.len() == 0 {
        Map::empty()
    } else {
        numbers_map(e.drop_last()).insert(e.last().0, e.last().1)
    }
}

/// No vertex occurs twice.
pub open spec fn keys_unique(e: Seq<(Vertex, usize)>) -> bool {
    forall|i: int, j: int| 0 <= i < j < e.len() ==> e[i].0 != e[j].0
}

/// `a` comes before `b` in vertex order: by column, then by row.
pub open spec fn vertex_before(a: Vertex, b: Vertex) -> bool {
    a.column < b.column || (a.column == b.column && a.row < b.row)
}

/// The entries are in strictly increasing vertex order.
pub open spec fn keys_sorted(e: Seq<(Vertex, usize)>) -> bool {
    forall|i: int, j: int| 0 <= i < j < e.len() ==> vertex_before(#[trigger] e[i].0, #[trigger] e[j].0)
}

proof fn lemma_sorted_unique(e: Seq<(Vertex, usize)>)
    requires
        keys_sorted(e),
    ensures
        keys_unique(e),
{
    assert forall|i: int, j: int| 0 <= i < j < e.len() implies e[i].0 != e[j].0 by {
        assert(vertex_before(e[i].0, e[j].0));
    }
}

/// Inserting an entry whose vertex is new adds it to the map.
proof fn lemma_numbers_map_insert(e: Seq<(Vertex, usize)>, i: int, entry: (Vertex, usize))
    requires
        0 <= i <= e.len(),
        keys_unique(e.insert(i, entry)),
    ensures
        numbers_map(e.insert(i, entry)) =~= numbers_map(e).insert(entry.0, entry.1),
{
    let f = e.insert(i, entry);
    assert(keys_unique(e)) by {
        assert forall|a: int, b: int| 0 <= a < b < e.len() implies e[a].0 != e[b].0 by {
            let fa = if a < i { a } else { a + 1 };
            let fb = if b < i { b } else { b + 1 };
            assert(f[fa] == e[a] && f[fb] == e[b]);
        }
    }
    assert forall|x: Vertex| numbers_map(f).contains_key(x) == numbers_map(e).insert(entry.0, entry.1).contains_key(x) by {
        lemma_numbers_map_contains(f, x);
        lemma_numbers_map_contains(e, x);
        if exists|k: int| 0 <= k < e.len() && e[k].0 == x {
            let k = choose|k: int| 0 <= k < e.len() && e[k].0 == x;
            let fk = if k < i { k } else { k + 1 };
            assert(f[fk] == e[k]);
        }
        if exists|k: int| 0 <= k < f.len() && f[k].0 == x {
            let k = choose|k: int| 0 <= k < f.len() && f[k].0 == x;
            if k < i {
                assert(e[k] == f[k]);
            } else if k > i {
                assert(e[k - 1] == f[k]);
            }
        }
        assert(f[i] == entry);
    }
    assert forall|x: Vertex| #[trigger] numbers_map(f).contains_key(x) implies numbers_map(f)[x]
        == numbers_map(e).insert(entry.0, entry.1)[x] by {
        lemma_numbers_map_contains(f, x);
        let k = choose|k: int| 0 <= k < f.len() && f[k].0 == x;
        lemma_numbers_map_value(f, k);
        if k != i {
            let ek = if k < i { k } else { k - 1 };
            assert(e[ek] == f[k]);
            lemma_numbers_map_value(e, ek);
            assert(f[i] == entry);
        }
    }
}

proof fn lemma_numbers_map_contains(e: Seq<(Vertex, usize)>, k: Vertex)
    ensures
        numbers_map(e).contains_key(k) <==> exists|i: int| 0 <= i < e.len() && e[i].0 == k,
    decreases e.len(),
{
    if e.len() > 0 {
        lemma_numbers_map_contains(e.drop_last(), k);
        if numbers_map(e.drop_last()).contains_key(k) {
            let i = choose|i: int| 0 <= i < e.drop_last().len() && e.drop_last()[i].0 == k;
            assert(e[i].0 == k);
        }
        if exists|i: int| 0 <= i < e.len() && e[i].0 == k {
            let i = choose|i: int| 0 <= i < e.len() && e[i].0 == k;
            if i < e.len() - 1 {
                assert(e.drop_last()[i].0 == k);
            }
        }
    }
}

proof fn lemma_numbers_map_value(e: Seq<(Vertex, usize)>, i: int)
    requires
        keys_unique(e),
        0 <= i < e.len(),
    ensures
        numbers_map(e).contains_key(e[i].0),
        numbers_map(e)[e[i].0] == e[i].1,
    decreases e.len(),
{
    if i < e.len() - 1 {
        assert(e.drop_last()[i] == e[i]);
        lemma_numbers_map_value(e.drop_last(), i);
    }
}

proof fn lemma_numbers_map_update(e: Seq<(Vertex, usize)>, i: int, n: usize)
    requires
        keys_unique(e),
        0 <= i < e.len(),
    ensures
        numbers_map(e.update(i, (e[i].0, n))) =~= numbers_map(e).insert(e[i].0, n),
    decreases e.len(),
{
    let u = e.update(i, (e[i].0, n));
    if i == e.len() - 1 {
        assert(u.drop_last() =~= e.drop_last());
    } else {
        assert(u.drop_last() =~= e.drop_last().update(i, (e[i].0, n)));
        assert(e.drop_last()[i] == e[i]);
        lemma_numbers_map_update(e.drop_last(), i, n);
        assert(e.last().0 != e[i].0);
    }
}

proof fn lemma_numbers_map_len(e: Seq<(Vertex, usize)>)
    requires
        keys_unique(e),
    ensures
        numbers_map(e).dom().finite(),
        numbers_map(e).dom().len() == e.len(),
    decreases e.len(),
{
    if e.len() > 0 {
        let d = e.drop_last();
        lemma_numbers_map_len(d);
        lemma_numbers_map_contains(d, e.last().0);
        if numbers_map(d).contains_key(e.last().0) {
            let i = choose|i: int| 0 <= i < d.len() && d[i].0 == e.last().0;
            assert(e[i].0 == e[e.len() - 1].0);
        }
    }
}

/// Numbers attached to intersections.
#[derive(Debug)]
pub struct VertexNumbers {
    entries: Vec<(Vertex, usize)>,
}

impl View for VertexNumbers {
    type V = Map<Vertex, usize>;

    closed spec fn view(&self) -> Map<Vertex, usize> {
        numbers_map(self.entries@)
    }
}

impl VertexNumbers {
    pub closed spec fn wf(&self) -> bool {
        keys_sorted(self.entries@)
    }

    pub fn new() -> (m: Self)
        ensures
            m@ == Map::<Vertex, usize>::empty(),
            m.wf(),
    {
        VertexNumbers { entries: Vec::new() }
    }

    /// Sets the number of `vertex`, replacing any previous number.
    pub fn insert(&mut self, vertex: Vertex, number: usize)
        requires
            old(self).wf(),
        ensures
            final(self)@ == old(self)@.insert(vertex, number),
            final(self).wf(),
    {
        let mut i: usize = 0;
        while i < self.entries.len() && (self.entries[i].0.column < vertex.column || (
        self.entries[i].0.column == vertex.column && self.entries[i].0.row < vertex.row))
            invariant
                i <= self.entries@.len(),
                keys_sorted(self.entries@),
                self.entries@ == old(self).entries@,
                forall|j: int| 0 <= j < i ==> vertex_before(#[trigger] self.entries@[j].0, vertex),
            decreases self.entries.len() - i,
        {
            i += 1;
        }
        if i < self.entries.len() && self.entries[i].0 == vertex {
            proof {
                lemma_sorted_unique(self.entries@);
                lemma_numbers_map_update(self.entries@, i as int, number);
            }
            self.entries.set(i, (vertex, number));
            return;
        }
        let ghost before = self.entries@;
        proof {
            if i < before.len() {
                assert(vertex_before(vertex, before[i as int].0));
            }
        }
        self.entries.insert(i, (vertex, number));
        assert(self.entries@ == before.insert(i as int, (vertex, number)));
        assert(keys_sorted(self.entries@)) by {
            assert forall|a: int, b: int| 0 <= a < b < self.entries@.len() implies vertex_before(
                #[trigger] self.entries@[a].0,
                #[trigger] self.entries@[b].0,
            ) by {
                if a < i && b == i {
                } else if a < i && b > i {
                    assert(self.entries@[b] == before[b - 1]);
                    assert(vertex_before(before[a].0, vertex));
                    assert(vertex_before(vertex, before[i as int].0));
                    if b - 1 > i {
                        assert(vertex_before(before[i as int].0, before[b - 1].0));
                    }
                } else if a == i {
                    assert(self.entries@[b] == before[b - 1]);
                    if b - 1 > i {
                        assert(vertex_before(before[i as int].0, before[b - 1].0));
                    }
                } else if b < i {
                    assert(self.entries@[a] == before[a]);
                    assert(self.entries@[b] == before[b]);
                } else {
                    assert(self.entries@[a] == before[a - 1]);
                    assert(self.entries@[b] == before[b - 1]);
                }
            }
        }
        proof {
            lemma_sorted_unique(self.entries@);
            lemma_numbers_map_insert(before, i as int, (vertex, number));
        }
    }

    /// The number of `vertex`, if it has one.
    pub fn get(&self, vertex: &Vertex) -> (n: Option<&usize>)
        requires
            self.wf(),
        ensures
            match n {
                Some(n) => self@.contains_key(*vertex) && *n == self@[*vertex],
                None => !self@.contains_key(*vertex),
            },
    {
        proof {
            lemma_sorted_unique(self.entries@);
        }
        let mut i: usize = 0;
        while i < self.entries.len()
            invariant
                i <= self.entries@.len(),
                keys_unique(self.entries@),
                forall|j: int| 0 <= j < i ==> self.entries@[j].0 != *vertex,
            decreases self.entries.len() - i,
        {
            if self.entries[i].0 == *vertex {
                proof {
                    lemma_numbers_map_value(self.entries@, i as int);
                }
                return Some(&self.entries[i].1);
            }
            i += 1;
        }
        proof {
            lemma_numbers_map_contains(self.entries@, *vertex);
        }
        None
    }

    /// Number of numbered intersections.
    pub fn len(&self) -> (n: usize)
        requires
            self.wf(),
        ensures
            n == self@.dom().len(),
    {
        proof {
            lemma_sorted_unique(self.entries@);
        }
        proof {
            lemma_numbers_map_len(self.entries@);
        }
        self.entries.len()
    }

    /// The numbered intersections and their numbers, each vertex once, in
    /// vertex order (by column, then row).
    pub fn pairs(&self) -> (p: &Vec<(Vertex, usize)>)
        requires
            self.wf(),
        ensures
            numbers_map(p@) == self@,
            keys_sorted(p@),
            keys_unique(p@),
    {
        proof {
            lemma_sorted_unique(self.entries@);
        }
        &self.entries
    }
}

/// Abstract content of the numbering of a sequence of optional vertices:
/// each present vertex gets the count of present vertices up to it, a later
/// occurrence overriding an earlier one.
pub open spec fn count_moves(vs: Seq<Option<Vertex>>) -> nat
    decreases vs.len(),
{
    if vs.len() == 0 {
        0
    } else {
        count_moves(vs.drop_last()) + if vs.last() is Some {
            1nat
        } else {
            0nat
        }
    }
}

pub open spec fn numbered_moves(vs: Seq<Option<Vertex>>) -> Map<Vertex, usize>
    decreases vs.len(),
{
    if vs.len() == 0 {
        Map::empty()
    } else {
        match vs.last() {
            Some(v) => numbered_moves(vs.drop_last()).insert(v, count_moves(vs) as usize),
            None => numbered_moves(vs.drop_last()),
        }
    }
}

/// Each move's vertex numbered by its 1-based position in `moves` (passes
/// take a number but mark no vertex); a later move on the same vertex wins.
pub open spec fn numbered_by_position(moves: Seq<MoveDto>) -> Map<Vertex, usize>
    decreases moves.len(),
{
    if moves.len() == 0 {
        Map::empty()
    } else {
        match moves.last().vertex {
            Some(v) => numbered_by_position(moves.drop_last()).insert(v, moves.len() as usize),
            None => numbered_by_position(moves.drop_last()),
        }
    }
}

/// Builds the 1-based move number per vertex from a document's move list.
/// `pass` moves (no vertex) are skipped.
pub fn move_numbers_from_moves(moves: &[MoveDto]) -> (numbers: VertexNumbers)
    ensures
        numbers.wf(),
        numbers@ == numbered_by_position(moves@),
{
    let mut numbers = VertexNumbers::new();
    let mut index: usize = 0;
    while index < moves.len()
        invariant
            index <= moves@.len(),
            numbers.wf(),
            numbers@ == numbered_by_position(moves@.take(index as int)),
        decreases moves.len() - index,
    {
        assert(moves@.take(index + 1).drop_last() =~= moves@.take(index as int));
        if let Some(vertex) = moves[index].vertex {
            numbers.insert(vertex, index + 1);
        }
        index += 1;
    }
    assert(moves@.take(moves@.len() as int) =~= moves@);
    numbers
}

/// A node of the game tree: its id, its parent's id, its children's ids and
/// its SGF properties.
#[derive(Debug)]
pub struct NodeSnapshot {
    pub id: NodeId,
    pub parent_id: Option<NodeId>,
    pub child_ids: Vec<NodeId>,
    pub properties: Properties,
}

/// The game tree as the board sees it: every node and the current one.
#[derive(Debug)]
pub struct GameSnapshot {
    pub nodes: Vec<NodeSnapshot>,
    pub current_node_id: NodeId,
}

/// Abstract content of a node.
pub struct NodeView {
    pub id: Seq<char>,
    pub parent: Option<Seq<char>>,
    pub children: Seq<Seq<char>>,
    pub properties: Map<Seq<char>, Seq<Seq<char>>>,
}

impl View for NodeSnapshot {
    type V = NodeView;

    open spec fn view(&self) -> NodeView {
        NodeView {
            id: self.id@,
            parent: match self.parent_id {
                Some(p) => Some(p@),
                None => None,
            },
            children: self.child_ids.deep_view(),
            properties: self.properties@,
        }
    }
}

pub open spec fn node_views(nodes: Seq<NodeSnapshot>) -> Seq<NodeView> {
    nodes.map_values(|n: NodeSnapshot| n@)
}

/// Widens an index.
pub open spec fn usize_to_int() -> spec_fn(usize) -> int {
    |i: usize| i as int
}

/// Index of the node with id `id`; when ids repeat, the last node wins.
pub open spec fn node_index(nodes: Seq<NodeView>, id: Seq<char>) -> Option<int>
    decreases nodes.len(),
{
    if nodes.len() == 0 {
        None
    } else if nodes.last().id == id {
        Some(nodes.len() - 1)
    } else {
        node_index(nodes.drop_last(), id)
    }
}

/// Indices of the node `id` and its ancestors, nearest first, following
/// parent ids until a node without parent or an unknown id; `None` when that
/// takes more than `fuel` parent steps.
pub open spec fn ancestry(nodes: Seq<NodeView>, id: Seq<char>, fuel: nat) -> Option<Seq<int>>
    decreases fuel,
{
    match node_index(nodes, id) {
        None => Some(Seq::empty()),
        Some(i) => match nodes[i].parent {
            None => Some(seq![i]),
            Some(p) => if fuel == 0 {
                None
            } else {
                match ancestry(nodes, p, (fuel - 1) as nat) {
                    Some(rest) => Some(seq![i] + rest),
                    None => None,
                }
            },
        },
    }
}

/// The current node's parent chain ends within as many parent steps as
/// there are nodes (it has no cycle).
pub open spec fn ancestry_ends(s: GameSnapshot) -> bool {
    ancestry(node_views(s.nodes@), s.current_node_id@, s.nodes@.len()) is Some
}

/// Indices of the active path, root first, current node last.
pub open spec fn lineage(s: GameSnapshot) -> Seq<int> {
    ancestry(node_views(s.nodes@), s.current_node_id@, s.nodes@.len()).unwrap().reverse()
}

fn find_node(nodes: &Vec<NodeSnapshot>, id: &str) -> (i: Option<usize>)
    ensures
        match i {
            Some(i) => node_index(node_views(nodes@), id@) == Some(i as int) && i < nodes@.len(),
            None => node_index(node_views(nodes@), id@) is None,
        },
{
    let ghost all = node_views(nodes@);
    let mut k = nodes.len();
    assert(all.take(k as int) =~= all);
    while k > 0
        invariant
            k <= nodes@.len(),
            all == node_views(nodes@),
            node_index(all, id@) == node_index(all.take(k as int), id@),
        decreases k,
    {
        assert(all.take(k as int).drop_last() =~= all.take(k - 1));
        assert(all.take(k as int).last() == nodes@[k - 1]@);
        if str_eq(nodes[k - 1].id.as_str(), id) {
            return Some(k - 1);
        }
        k -= 1;
    }
    None
}

/// Indices of the nodes on the active path, root first.
fn current_node_lineage(snapshot: &GameSnapshot) -> (path: Vec<usize>)
    requires
        ancestry_ends(*snapshot),
    ensures
        path@.len() == lineage(*snapshot).len(),
        forall|j: int| 0 <= j < path@.len() ==> path@[j] as int == lineage(*snapshot)[j],
        forall|j: int| 0 <= j < path@.len() ==> path@[j] < snapshot.nodes@.len(),
{
    let ghost nodes = node_views(snapshot.nodes@);
    let ghost full = ancestry(nodes, snapshot.current_node_id@, snapshot.nodes@.len()).unwrap();
    let mut chain: Vec<usize> = Vec::new();
    let mut current: &str = snapshot.current_node_id.as_str();
    let ghost mut fuel: nat = snapshot.nodes@.len();
    loop
        invariant_except_break
            nodes == node_views(snapshot.nodes@),
            ancestry(nodes, current@, fuel) is Some,
            full == chain@.map_values(usize_to_int()) + ancestry(nodes, current@, fuel).unwrap(),
            forall|j: int| 0 <= j < chain@.len() ==> chain@[j] < snapshot.nodes@.len(),
        ensures
            full == chain@.map_values(usize_to_int()),
            forall|j: int| 0 <= j < chain@.len() ==> chain@[j] < snapshot.nodes@.len(),
        decreases fuel,
    {
        let ghost before = chain@;
        match find_node(&snapshot.nodes, current) {
            None => {
                assert(full =~= chain@.map_values(usize_to_int()));
                break;
            },
            Some(i) => {
                assert(nodes[i as int] == snapshot.nodes@[i as int]@);
                chain.push(i);
                assert(chain@.map_values(usize_to_int()) =~= before.map_values(usize_to_int()).push(i as int));
                match &snapshot.nodes[i].parent_id {
                    None => {
                        assert(full =~= chain@.map_values(usize_to_int()));
                        break;
                    },
                    Some(parent) => {
                        let ghost rest = ancestry(nodes, parent@, (fuel - 1) as nat).unwrap();
                        assert(full =~= chain@.map_values(usize_to_int()) + rest);
                        current = parent.as_str();
                        proof {
                            fuel = (fuel - 1) as nat;
                        }
                    },
                }
            },
        }
    }
    let mut path: Vec<usize> = Vec::new();
    let mut k = chain.len();
    while k > 0
        invariant
            k <= chain@.len(),
            full == chain@.map_values(usize_to_int()),
            forall|j: int| 0 <= j < chain@.len() ==> chain@[j] < snapshot.nodes@.len(),
            path@.len() == chain@.len() - k,
            forall|j: int| 0 <= j < path@.len() ==> path@[j] as int == full.reverse()[j],
            forall|j: int| 0 <= j < path@.len() ==> path@[j] < snapshot.nodes@.len(),
        decreases k,
    {
        path.push(chain[k - 1]);
        k -= 1;
    }
    path
}

/// The SGF value recording the move played in a node: the first `B` value,
/// else the first `W` value.
pub open spec fn move_value(props: Map<Seq<char>, Seq<Seq<char>>>) -> Option<Seq<char>> {
    if props.contains_key("B"@) && props["B"@].len() > 0 {
        Some(props["B"@][0])
    } else if props.contains_key("W"@) && props["W"@].len() > 0 {
        Some(props["W"@][0])
    } else {
        None
    }
}

/// The vertex of the move played in a node, if any.
pub open spec fn node_move(node: NodeView) -> Option<Vertex> {
    match move_value(node.properties) {
        Some(v) => parse_sgf_point(v),
        None => None,
    }
}

fn node_move_vertex(node: &NodeSnapshot) -> (v: Option<Vertex>)
    ensures
        v == node_move(node@),
{
    let value = match node.properties.get("B") {
        Some(values) if values.len() > 0 => Some(&values[0]),
        _ => match node.properties.get("W") {
            Some(values) if values.len() > 0 => Some(&values[0]),
            _ => None,
        },
    };
    match value {
        Some(text) => parse_sgf_vertex(text.as_str()),
        None => None,
    }
}

/// Whether the path follows the first child at every step.
pub open spec fn is_main_line(nodes: Seq<NodeView>, path: Seq<int>) -> bool {
    forall|j: int|
        0 <= j < path.len() - 1 ==> {
            let children = #[trigger] nodes[path[j]].children;
            children.len() > 0 && children[0] == nodes[path[j + 1]].id
        }
}

proof fn lemma_after_last_bound(path: Seq<int>, pred: spec_fn(int) -> bool)
    ensures
        after_last(path, pred) matches Some(k) ==> 1 <= k <= path.len(),
    decreases path.len(),
{
    if path.len() > 0 {
        lemma_after_last_bound(path.drop_last(), pred);
    }
}

/// Holds of path nodes where the game tree branches.
pub open spec fn is_branch_point(nodes: Seq<NodeView>) -> spec_fn(int) -> bool {
    |i: int| nodes[i].children.len() > 1
}

/// Holds of path nodes marked as hotspots (`HO`).
pub open spec fn is_hotspot(nodes: Seq<NodeView>) -> spec_fn(int) -> bool {
    |i: int| nodes[i].properties.contains_key("HO"@)
}

/// Position after the last path node satisfying `pred`.
pub open spec fn after_last(path: Seq<int>, pred: spec_fn(int) -> bool) -> Option<nat>
    decreases path.len(),
{
    if path.len() == 0 {
        None
    } else if pred(path.last()) {
        Some(path.len())
    } else {
        after_last(path.drop_last(), pred)
    }
}

/// Where numbering starts on a path of `n` nodes for a numbering mode:
/// `last_N` numbers the last N nodes, `variation` starts after the nearest
/// branch point (nothing on the main line), `hotspot` after the nearest `HO`
/// node, anything else at the root. `None` means no numbers at all.
pub open spec fn numbering_start(nodes: Seq<NodeView>, path: Seq<int>, mode: Seq<char>) -> Option<
    nat,
> {
    let n = path.len();
    let last = |k: nat| if n >= k {
        (n - k) as nat
    } else {
        0nat
    };
    if mode == "last_1"@ {
        Some(last(1))
    } else if mode == "last_3"@ {
        Some(last(3))
    } else if mode == "last_5"@ {
        Some(last(5))
    } else if mode == "last_10"@ {
        Some(last(10))
    } else if mode == "last_20"@ {
        Some(last(20))
    } else if mode == "variation"@ {
        if is_main_line(nodes, path) {
            None
        } else {
            after_last(path, is_branch_point(nodes))
        }
    } else if mode == "hotspot"@ {
        after_last(path, is_hotspot(nodes))
    } else {
        Some(0)
    }
}

/// The moves played along a path of node indices (`None` for nodes without
/// a move).
pub open spec fn path_moves(nodes: Seq<NodeView>, path: Seq<int>) -> Seq<Option<Vertex>> {
    path.map_values(|i: int| node_move(nodes[i]))
}

/// The move numbers shown for a snapshot and numbering mode.
pub open spec fn spec_move_numbers(s: GameSnapshot, mode: Seq<char>) -> Map<Vertex, usize> {
    let nodes = node_views(s.nodes@);
    let path = lineage(s);
    match numbering_start(nodes, path, mode) {
        Some(start) => numbered_moves(path_moves(nodes, path.subrange(start as int, path.len() as int))),
        None => Map::empty(),
    }
}

/// Position after the last branch point on the path.
fn position_after_last_branch(snapshot: &GameSnapshot, path: &Vec<usize>) -> (p: Option<usize>)
    requires
        forall|j: int| 0 <= j < path@.len() ==> path@[j] < snapshot.nodes@.len(),
    ensures
        p == (match after_last(
            path@.map_values(usize_to_int()),
            is_branch_point(node_views(snapshot.nodes@)),
        ) {
            Some(k) => Some(k as usize),
            None => None,
        }),
        p matches Some(k) ==> k <= path@.len(),
{
    let ghost nodes = node_views(snapshot.nodes@);
    let ghost pred = is_branch_point(nodes);
    let ghost all = path@.map_values(usize_to_int());
    let mut k = path.len();
    assert(all.take(k as int) =~= all);
    while k > 0
        invariant
            k <= path@.len(),
            all == path@.map_values(usize_to_int()),
            nodes == node_views(snapshot.nodes@),
            pred == is_branch_point(nodes),
            forall|j: int| 0 <= j < path@.len() ==> path@[j] < snapshot.nodes@.len(),
            after_last(all, pred) == after_last(all.take(k as int), pred),
        decreases k,
    {
        assert(all.take(k as int).drop_last() =~= all.take(k - 1));
        assert(nodes[path@[k - 1] as int] == snapshot.nodes@[path@[k - 1] as int]@);
        assert(snapshot.nodes@[path@[k - 1] as int].child_ids.deep_view().len()
            == snapshot.nodes@[path@[k - 1] as int].child_ids@.len());
        if snapshot.nodes[path[k - 1]].child_ids.len() > 1 {
            return Some(k);
        }
        k -= 1;
    }
    None
}

/// Position after the last hotspot on the path.
fn position_after_last_hotspot(snapshot: &GameSnapshot, path: &Vec<usize>) -> (p: Option<usize>)
    requires
        forall|j: int| 0 <= j < path@.len() ==> path@[j] < snapshot.nodes@.len(),
    ensures
        p == (match after_last(
            path@.map_values(usize_to_int()),
            is_hotspot(node_views(snapshot.nodes@)),
        ) {
            Some(k) => Some(k as usize),
            None => None,
        }),
        p matches Some(k) ==> k <= path@.len(),
{
    let ghost nodes = node_views(snapshot.nodes@);
    let ghost pred = is_hotspot(nodes);
    let ghost all = path@.map_values(usize_to_int());
    let mut k = path.len();
    assert(all.take(k as int) =~= all);
    while k > 0
        invariant
            k <= path@.len(),
            all == path@.map_values(usize_to_int()),
            nodes == node_views(snapshot.nodes@),
            pred == is_hotspot(nodes),
            forall|j: int| 0 <= j < path@.len() ==> path@[j] < snapshot.nodes@.len(),
            after_last(all, pred) == after_last(all.take(k as int), pred),
        decreases k,
    {
        assert(all.take(k as int).drop_last() =~= all.take(k - 1));
        assert(nodes[path@[k - 1] as int] == snapshot.nodes@[path@[k - 1] as int]@);
        if snapshot.nodes[path[k - 1]].properties.contains_key("HO") {
            return Some(k);
        }
        k -= 1;
    }
    None
}

fn follows_main_line(snapshot: &GameSnapshot, path: &Vec<usize>) -> (main: bool)
    requires
        forall|j: int| 0 <= j < path@.len() ==> path@[j] < snapshot.nodes@.len(),
    ensures
        main == is_main_line(node_views(snapshot.nodes@), path@.map_values(usize_to_int())),
{
    let ghost nodes = node_views(snapshot.nodes@);
    let ghost all = path@.map_values(usize_to_int());
    if path.len() == 0 {
        return true;
    }
    let mut j: usize = 0;
    while j < path.len() - 1
        invariant
            nodes == node_views(snapshot.nodes@),
            all == path@.map_values(usize_to_int()),
            forall|x: int| 0 <= x < path@.len() ==> path@[x] < snapshot.nodes@.len(),
            path@.len() > 0,
            j <= path@.len(),
            forall|x: int|
                0 <= x < j && x < all.len() - 1 ==> {
                    let children = #[trigger] nodes[all[x]].children;
                    children.len() > 0 && children[0] == nodes[all[x + 1]].id
                },
        decreases path.len() - j,
    {
        let node = &snapshot.nodes[path[j]];
        let next = &snapshot.nodes[path[j + 1]];
        assert(nodes[all[j as int]] == node@);
        assert(nodes[all[j + 1]] == next@);
        assert(node.child_ids.deep_view().len() == node.child_ids@.len());
        if node.child_ids.len() == 0 || !str_eq(node.child_ids[0].as_str(), next.id.as_str()) {
            assert(!is_main_line(nodes, all)) by {
                let children = nodes[all[j as int]].children;
                assert(children.len() == 0 || children[0] != nodes[all[j + 1]].id);
            }
            return false;
        }
        j += 1;
    }
    true
}

/// Builds on-board move numbers from the active path of the game tree.
/// `start` / `all` (and any other mode) label the whole game, `last_N`
/// displays only the most recent N moves, while `variation` and `hotspot`
/// start immediately after the nearest branch point or `HO` marker,
/// respectively; they show no numbers when the anchor is absent (and
/// `variation` none on the main line).
pub fn move_numbers_for_snapshot(snapshot: &GameSnapshot, move_numbers_type: &str) -> (numbers:
    VertexNumbers)
    requires
        ancestry_ends(*snapshot),
    ensures
        numbers.wf(),
        numbers@ == spec_move_numbers(*snapshot, move_numbers_type@),
{
    let path = current_node_lineage(snapshot);
    let ghost nodes = node_views(snapshot.nodes@);
    let ghost all = path@.map_values(usize_to_int());
    assert(all =~= lineage(*snapshot));
    let total = path.len();
    let start_index = if str_eq(move_numbers_type, "last_1") {
        Some(total.saturating_sub(1))
    } else if str_eq(move_numbers_type, "last_3") {
        Some(total.saturating_sub(3))
    } else if str_eq(move_numbers_type, "last_5") {
        Some(total.saturating_sub(5))
    } else if str_eq(move_numbers_type, "last_10") {
        Some(total.saturating_sub(10))
    } else if str_eq(move_numbers_type, "last_20") {
        Some(total.saturating_sub(20))
    } else if str_eq(move_numbers_type, "variation") {
        if follows_main_line(snapshot, &path) {
            None
        } else {
            position_after_last_branch(snapshot, &path)
        }
    } else if str_eq(move_numbers_type, "hotspot") {
        position_after_last_hotspot(snapshot, &path)
    } else {
        Some(0)
    };
    proof {
        lemma_after_last_bound(all, is_branch_point(nodes));
        lemma_after_last_bound(all, is_hotspot(nodes));
    }
    assert(start_index matches Some(k) ==> numbering_start(nodes, all, move_numbers_type@) == Some(
        k as nat,
    ));
    assert(start_index is None ==> numbering_start(nodes, all, move_numbers_type@) is None);
    let start_index = match start_index {
        Some(start) => start,
        None => {
            return VertexNumbers::new();
        },
    };
    let mut numbers = VertexNumbers::new();
    let mut move_number: usize = 0;
    let mut k = start_index;
    let ghost start = start_index as int;
    let ghost moves = path_moves(nodes, all.subrange(start, all.len() as int));
    assert(moves.take(0) =~= Seq::<Option<Vertex>>::empty());
    while k < total
        invariant
            nodes == node_views(snapshot.nodes@),
            all == path@.map_values(usize_to_int()),
            forall|x: int| 0 <= x < path@.len() ==> path@[x] < snapshot.nodes@.len(),
            total == path@.len(),
            all.len() == path@.len(),
            0 <= start <= k <= total,
            moves == path_moves(nodes, all.subrange(start, all.len() as int)),
            numbers.wf(),
            move_number == count_moves(moves.take(k - start)),
            move_number <= k - start,
            numbers@ == numbered_moves(moves.take(k - start)),
        decreases total - k,
    {
        let ghost prefix = moves.take(k - start);
        assert(moves.take(k - start + 1).drop_last() =~= prefix);
        assert(moves[k - start] == node_move(nodes[all[k as int]]));
        assert(nodes[all[k as int]] == snapshot.nodes@[path@[k as int] as int]@);
        match node_move_vertex(&snapshot.nodes[path[k]]) {
            Some(vertex) => {
                move_number += 1;
                numbers.insert(vertex, move_number);
            },
            None => {},
        }
        k += 1;
    }
    assert(moves.take(total - start) =~= moves);
    assert(lineage(*snapshot) == all);
    numbers
}

} // verus!

verus! {

/// In a `last_N` mode the numbering starts `N` nodes before the end of the
/// path (at its start when the path is shorter), so exactly the last
/// `min(N, n)` nodes of an `n`-node path are numbered.
pub proof fn law_last_n_numbers_the_last_n_nodes(nodes: Seq<NodeView>, path: Seq<int>)
    ensures
        ({
            let n = path.len() as int;
            &&& numbering_start(nodes, path, "last_1"@) == Some((if n >= 1 { n - 1 } else { 0 }) as nat)
            &&& numbering_start(nodes, path, "last_3"@) == Some((if n >= 3 { n - 3 } else { 0 }) as nat)
            &&& numbering_start(nodes, path, "last_5"@) == Some((if n >= 5 { n - 5 } else { 0 }) as nat)
            &&& numbering_start(nodes, path, "last_10"@) == Some((if n >= 10 { n - 10 } else { 0 }) as nat)
            &&& numbering_start(nodes, path, "last_20"@) == Some((if n >= 20 { n - 20 } else { 0 }) as nat)
        }),
{
    reveal_strlit("last_1");
    reveal_strlit("last_3");
    reveal_strlit("last_5");
    reveal_strlit("last_10");
    reveal_strlit("last_20");
    assert("last_1"@.len() == 6 && "last_3"@.len() == 6 && "last_5"@.len() == 6);
    assert("last_10"@.len() == 7 && "last_20"@.len() == 7);
    assert("last_1"@[5] == '1' && "last_3"@[5] == '3' && "last_5"@[5] == '5');
    assert("last_10"@[5] == '1' && "last_20"@[5] == '2');
    assert("last_1"@ != "last_3"@ && "last_1"@ != "last_5"@ && "last_3"@ != "last_5"@);
    assert("last_10"@ != "last_20"@);
    assert("last_1"@ != "last_10"@ && "last_1"@ != "last_20"@);
    assert("last_3"@ != "last_10"@ && "last_3"@ != "last_20"@);
    assert("last_5"@ != "last_10"@ && "last_5"@ != "last_20"@);
}

} // verus!

verus! {

proof fn lemma_after_last_spec(path: Seq<int>, pred: spec_fn(int) -> bool)
    ensures
        after_last(path, pred) matches Some(k) ==> 1 <= k <= path.len() && pred(path[k - 1])
            && forall|j: int| k <= j < path.len() ==> !pred(#[trigger] path[j]),
        after_last(path, pred) is None ==> forall|j: int| 0 <= j < path.len() ==> !pred(#[trigger] path[j]),
    decreases path.len(),
{
    if path.len() > 0 && !pred(path.last()) {
        lemma_after_last_spec(path.drop_last(), pred);
        assert forall|j: int| 0 <= j < path.len() - 1 implies path.drop_last()[j] == path[j] by {}
    }
}

/// In `hotspot` mode numbering starts right after the last hotspot (`HO`)
/// node of the path, and there are no numbers when the path has none.
pub proof fn law_hotspot_numbers_after_the_last_hotspot(nodes: Seq<NodeView>, path: Seq<int>)
    ensures
        numbering_start(nodes, path, "hotspot"@) matches Some(k) ==> 1 <= k <= path.len()
            && nodes[path[k - 1]].properties.contains_key("HO"@) && forall|j: int|
            k <= j < path.len() ==> !nodes[#[trigger] path[j]].properties.contains_key("HO"@),
        numbering_start(nodes, path, "hotspot"@) is None ==> forall|j: int|
            0 <= j < path.len() ==> !nodes[#[trigger] path[j]].properties.contains_key("HO"@),
{
    reveal_strlit("hotspot");
    reveal_strlit("last_1");
    reveal_strlit("last_3");
    reveal_strlit("last_5");
    reveal_strlit("last_10");
    reveal_strlit("last_20");
    reveal_strlit("variation");
    assert("hotspot"@.len() == 7 && "last_10"@.len() == 7 && "last_20"@.len() == 7);
    assert("hotspot"@[0] == 'h' && "last_10"@[0] == 'l' && "last_20"@[0] == 'l');
    assert("last_1"@.len() == 6 && "last_3"@.len() == 6 && "last_5"@.len() == 6);
    assert("variation"@.len() == 9);
    lemma_after_last_spec(path, is_hotspot(nodes));
}

/// In `variation` mode there are no numbers on the main line; elsewhere
/// numbering starts right after the last branch point of the path, and
/// there are none when the path has no branch point.
pub proof fn law_variation_numbers_after_the_last_branch(nodes: Seq<NodeView>, path: Seq<int>)
    ensures
        is_main_line(nodes, path) ==> numbering_start(nodes, path, "variation"@) is None,
        numbering_start(nodes, path, "variation"@) matches Some(k) ==> 1 <= k <= path.len()
            && nodes[path[k - 1]].children.len() > 1 && forall|j: int|
            k <= j < path.len() ==> nodes[#[trigger] path[j]].children.len() <= 1,
{
    reveal_strlit("variation");
    reveal_strlit("last_1");
    reveal_strlit("last_3");
    reveal_strlit("last_5");
    reveal_strlit("last_10");
    reveal_strlit("last_20");
    assert("variation"@.len() == 9 && "last_10"@.len() == 7 && "last_20"@.len() == 7);
    assert("last_1"@.len() == 6 && "last_3"@.len() == 6 && "last_5"@.len() == 6);
    lemma_after_last_spec(path, is_branch_point(nodes));
}

} // verus!

verus! {

/// A vertex carries a number exactly when some move was played on it, and
/// the number is the 1-based position of the last such move; passes number
/// nothing but still count.
pub proof fn law_numbers_follow_the_last_move_on_each_vertex(moves: Seq<MoveDto>, v: Vertex)
    requires
        moves.len() <= usize::MAX,
    ensures
        numbered_by_position(moves).contains_key(v) <==> exists|i: int|
            0 <= i < moves.len() && #[trigger] moves[i].vertex == Some(v),
        numbered_by_position(moves).contains_key(v) ==> exists|i: int|
            0 <= i < moves.len() && #[trigger] moves[i].vertex == Some(v)
                && numbered_by_position(moves)[v] == (i + 1) as usize
                && forall|j: int| i < j < moves.len() ==> moves[j].vertex != Some(v),
    decreases moves.len(),
{
    if moves.len() > 0 {
        let d = moves.drop_last();
        law_numbers_follow_the_last_move_on_each_vertex(d, v);
        let last = moves.len() - 1;
        if moves.last().vertex == Some(v) {
            assert(moves[last].vertex == Some(v));
        } else {
            if exists|i: int| 0 <= i < moves.len() && #[trigger] moves[i].vertex == Some(v) {
                let i = choose|i: int| 0 <= i < moves.len() && #[trigger] moves[i].vertex == Some(v);
                assert(d[i] == moves[i]);
            }
            if numbered_by_position(d).contains_key(v) {
                let i = choose|i: int|
                    0 <= i < d.len() && #[trigger] d[i].vertex == Some(v) && numbered_by_position(d)[v]
                        == (i + 1) as usize && forall|j: int| i < j < d.len() ==> d[j].vertex != Some(v);
                assert(moves[i] == d[i]);
                assert forall|j: int| i < j < moves.len() implies moves[j].vertex != Some(v) by {
                    if j < last {
                        assert(moves[j] == d[j]);
                    }
                }
            }
        }
    }
}

} // verus!
