//! The region adjacency graph: regions keyed by code, with symmetric neighbor links built from
//! the geometric relations of their extents.
use vstd::prelude::*;

use crate::geometry::BoundingBox;
use crate::text::str_eq;

verus! {

/// The character sequences of a list of strings.
pub open spec fn views(v: Seq<String>) -> Seq<Seq<char>> {
    v.map_values(|s: String| s@)
}

/// An administrative region: unique code, name, extent as WKT, and the codes of the regions whose extent it intersects or touches.
#[derive(Clone, Debug)]
pub struct Region {
    pub code: String,
    pub name: String,
    pub extent: String,
    pub neighbors: Vec<String>,
}

/// A region as values.
pub struct RegionView {
    pub code: Seq<char>,
    pub name: Seq<char>,
    pub extent: Seq<char>,
    pub neighbors: Seq<Seq<char>>,
}

impl View for Region {
    type V = RegionView;

    open spec fn view(&self) -> RegionView {
        RegionView {
            code: self.code@,
            name: self.name@,
            extent: self.extent@,
            neighbors: views(self.neighbors@),
        }
    }
}

fn copy_strings(v: &Vec<String>) -> (r: Vec<String>)
    ensures
        views(r@) == views(v@),
{
    let mut out: Vec<String> = Vec::new();
    let mut i: usize = 0;
    while i < v.len()
        invariant
            i <= v@.len(),
            out@.len() == i,
            forall|j: int| 0 <= j < i ==> (#[trigger] out@[j])@ == v@[j]@,
        decreases v@.len() - i,
    {
        out.push(v[i].clone());
        i = i + 1;
    }
    assert(views(out@) =~= views(v@));
    out
}

/// Whether `c` is among the strings of `v`.
pub fn contains_code(v: &Vec<String>, c: &str) -> (r: bool)
    ensures
        r == views(v@).contains(c@),
{
    let mut i: usize = 0;
    while i < v.len()
        invariant
            i <= v@.len(),
            forall|j: int| 0 <= j < i ==> (#[trigger] v@[j])@ != c@,
        decreases v@.len() - i,
    {
        if str_eq(v[i].as_str(), c) {
            assert(views(v@)[i as int] == c@);
            return true;
        }
        i = i + 1;
    }
    assert(!views(v@).contains(c@)) by {
        if views(v@).contains(c@) {
            let k = choose|k: int| 0 <= k < views(v@).len() && views(v@)[k] == c@;
            assert(v@[k]@ == c@);
        }
    }
    false
}

impl Region {
    /// A region with no neighbors yet.
    pub fn new(code: String, name: String, extent: String) -> (r: Region)
        ensures
            r@.code == code@,
            r@.name == name@,
            r@.extent == extent@,
            r@.neighbors == Seq::<Seq<char>>::empty(),
    {
        let r = Region { code, name, extent, neighbors: Vec::new() };
        assert(r@.neighbors =~= Seq::<Seq<char>>::empty());
        r
    }

    /// Adds `neighbor_code` to the neighbors unless it is already there.
    pub fn add_neighbor(&mut self, neighbor_code: String)
        ensures
            final(self)@.code == old(self)@.code,
            final(self)@.name == old(self)@.name,
            final(self)@.extent == old(self)@.extent,
            final(self)@.neighbors == (if old(self)@.neighbors.contains(neighbor_code@) {
                old(self)@.neighbors
            } else {
                old(self)@.neighbors.push(neighbor_code@)
            }),
    {
        if !contains_code(&self.neighbors, neighbor_code.as_str()) {
            let ghost before = self.neighbors@;
            self.neighbors.push(neighbor_code);
            assert(views(self.neighbors@) =~= views(before).push(self.neighbors@.last()@));
        }
    }

    pub fn get_neighbors(&self) -> (r: &Vec<String>)
        ensures
            views(r@) == self@.neighbors,
    {
        &self.neighbors
    }

    pub fn get_code(&self) -> (r: &String)
        ensures
            r@ == self@.code,
    {
        &self.code
    }

    pub fn get_name(&self) -> (r: &String)
        ensures
            r@ == self@.name,
    {
        &self.name
    }

    pub fn get_extent(&self) -> (r: &String)
        ensures
            r@ == self@.extent,
    {
        &self.extent
    }

    /// A copy with the same values.
    pub fn duplicate(&self) -> (r: Region)
        ensures
            r@ == self@,
    {
        Region {
            code: self.code.clone(),
            name: self.name.clone(),
            extent: self.extent.clone(),
            neighbors: copy_strings(&self.neighbors),
        }
    }
}

/// Codes are unique among the regions.
pub open spec fn unique_codes(rs: Seq<Region>) -> bool {
    forall|i: int, j: int|
        0 <= i < rs.len() && 0 <= j < rs.len() && i != j ==> (#[trigger] rs[i])@.code != (
        #[trigger] rs[j])@.code
}

/// Some region has code `c`.
pub open spec fn has_code(rs: Seq<Region>, c: Seq<char>) -> bool {
    exists|j: int| 0 <= j < rs.len() && (#[trigger] rs[j])@.code == c
}

/// Region `a` lists the code of region `b` as a neighbor.
pub open spec fn lists(rs: Seq<Region>, a: int, b: int) -> bool {
    rs[a]@.neighbors.contains(rs[b]@.code)
}

/// The invariant of a region graph: unique codes; neighbor lists without repeats, without the
/// region itself, naming only regions of the graph; and symmetric links.
pub open spec fn graph_wf(rs: Seq<Region>) -> bool {
    &&& unique_codes(rs)
    &&& forall|i: int| 0 <= i < rs.len() ==> (#[trigger] rs[i])@.neighbors.no_duplicates()
    &&& forall|i: int| 0 <= i < rs.len() ==> !lists(rs, i, i)
    &&& forall|i: int, q: int|
        0 <= i < rs.len() && 0 <= q < rs[i]@.neighbors.len() ==> has_code(
            rs,
            #[trigger] rs[i]@.neighbors[q],
        )
    &&& forall|a: int, b: int|
        0 <= a < rs.len() && 0 <= b < rs.len() && #[trigger] lists(rs, a, b) ==> lists(rs, b, a)
}

/// Why a region graph could not be built, loaded or queried.
#[derive(Clone, Debug, PartialEq, Eq)]
pub enum GraphError {
    /// A working area that meets no region.
    OutsideAllRegions,
    /// Two regions carry this code.
    DuplicateRegion(String),
    /// No region of the graph has this code.
    UnknownRegion(String),
    /// A neighbor list names this code, which no region carries.
    DanglingNeighbor(String),
    /// A neighbor link between these two codes goes one way only, repeats, or is a loop.
    BrokenLink(String, String),
}

/// The adjacency graph of the regions, loaded whole for a query session.
pub struct RegionGraph {
    regions: Vec<Region>,
}

impl RegionGraph {
    pub closed spec fn spec_regions(&self) -> Seq<Region> {
        self.regions@
    }

    pub open spec fn wf(&self) -> bool {
        graph_wf(self.spec_regions())
    }

    /// The regions of the graph.
    pub fn regions(&self) -> (r: &Vec<Region>)
        ensures
            r@ == self.spec_regions(),
    {
        &self.regions
    }
}

/// Adjacency is symmetric: for all regions A and B of a graph, B's code is among A's neighbors
/// exactly when A's code is among B's.
pub proof fn lemma_adjacency_symmetric(g: &RegionGraph, a: int, b: int)
    requires
        g.wf(),
        0 <= a < g.spec_regions().len(),
        0 <= b < g.spec_regions().len(),
    ensures
        g.spec_regions()[a]@.neighbors.contains(g.spec_regions()[b]@.code) <==> g.spec_regions()[
        b]@.neighbors.contains(g.spec_regions()[a]@.code),
{
    let rs = g.spec_regions();
    if lists(rs, a, b) {
        assert(lists(rs, b, a));
    }
    if lists(rs, b, a) {
        assert(lists(rs, a, b));
    }
}

/// The items `codes[j]`, `j < m`, whose `sel[j]` holds, in index order.
pub open spec fn selected<T>(codes: Seq<T>, sel: Seq<bool>, m: int) -> Seq<T>
    decreases m,
{
    if m <= 0 {
        Seq::empty()
    } else if sel[m - 1] {
        selected(codes, sel, m - 1).push(codes[m - 1])
    } else {
        selected(codes, sel, m - 1)
    }
}

/// The index that the `q`-th code of `selected(codes, sel, m)` was taken from.
pub open spec fn origin<T>(codes: Seq<T>, sel: Seq<bool>, m: int, q: int) -> int
    decreases m,
{
    if m <= 0 {
        0
    } else if sel[m - 1] && q == selected(codes, sel, m - 1).len() {
        m - 1
    } else {
        origin(codes, sel, m - 1, q)
    }
}

proof fn lemma_selected<T>(codes: Seq<T>, sel: Seq<bool>, m: int)
    requires
        0 <= m <= codes.len(),
        m <= sel.len(),
    ensures
        forall|j: int| 0 <= j < m && sel[j] ==> selected(codes, sel, m).contains(#[trigger] codes[j]),
        forall|q: int|
            0 <= q < selected(codes, sel, m).len() ==> {
                let j = #[trigger] origin(codes, sel, m, q);
                0 <= j < m && sel[j] && codes[j] == selected(codes, sel, m)[q]
            },
        (forall|i: int, j: int| 0 <= i < j < m ==> codes[i] != codes[j]) ==> selected(
            codes,
            sel,
            m,
        ).no_duplicates(),
    decreases m,
{
    if m > 0 {
        lemma_selected(codes, sel, m - 1);
        let p = selected(codes, sel, m - 1);
        let cur = selected(codes, sel, m);
        assert forall|j: int| 0 <= j < m && sel[j] implies cur.contains(#[trigger] codes[j]) by {
            if j < m - 1 {
                assert(p.contains(codes[j]));
                let k = choose|k: int| 0 <= k < p.len() && p[k] == codes[j];
                assert(cur[k] == codes[j]);
            } else {
                assert(cur[cur.len() - 1] == codes[j]);
            }
        }
        assert forall|q: int| 0 <= q < cur.len() implies {
            let j = #[trigger] origin(codes, sel, m, q);
            0 <= j < m && sel[j] && codes[j] == cur[q]
        } by {
            if q < p.len() {
                assert(cur[q] == p[q]);
                assert(origin(codes, sel, m, q) == origin(codes, sel, m - 1, q));
            }
        }
        if forall|i: int, j: int| 0 <= i < j < m ==> codes[i] != codes[j] {
            if sel[m - 1] {
                assert(!p.contains(codes[m - 1])) by {
                    if p.contains(codes[m - 1]) {
                        let k = choose|k: int| 0 <= k < p.len() && p[k] == codes[m - 1];
                        let j = origin(codes, sel, m - 1, k);
                        assert(codes[j] != codes[m - 1]);
                    }
                }
                assert forall|a: int, b: int| 0 <= a < cur.len() && 0 <= b < cur.len() && a != b
                    implies cur[a] != cur[b] by {
                    if a < p.len() && b < p.len() {
                        assert(cur[a] == p[a] && cur[b] == p[b]);
                    } else if a < p.len() {
                        assert(cur[a] == p[a] && p.contains(cur[a]));
                    } else {
                        assert(cur[b] == p[b] && p.contains(cur[b]));
                    }
                }
            }
        }
    }
}

/// Whether two regions are linked after evaluating the predicates on them: the extents intersect
/// or, failing that, touch; `touches` is only evaluated when `intersects` said no.
pub open spec fn link_outcome<F: Fn(&Region, &Region) -> bool, G: Fn(&Region, &Region) -> bool>(
    intersects: F,
    touches: G,
    a: &Region,
    b: &Region,
    linked: bool,
) -> bool {
    if linked {
        intersects.ensures((a, b), true) || touches.ensures((a, b), true)
    } else {
        intersects.ensures((a, b), false) && touches.ensures((a, b), false)
    }
}

fn first_duplicate(regions: &Vec<Region>) -> (r: Option<usize>)
    ensures
        r is None <==> unique_codes(regions@),
        r matches Some(i) ==> i < regions@.len(),
{
    let n = regions.len();
    let mut i: usize = 0;
    while i < n
        invariant
            n == regions@.len(),
            i <= n,
            forall|a: int, b: int|
                0 <= a < i && 0 <= b < n && a != b ==> (#[trigger] regions@[a])@.code != (
                #[trigger] regions@[b])@.code,
        decreases n - i,
    {
        let mut j: usize = 0;
        while j < n
            invariant
                n == regions@.len(),
                i < n,
                j <= n,
                forall|a: int, b: int|
                    0 <= a < i && 0 <= b < n && a != b ==> (#[trigger] regions@[a])@.code != (
                    #[trigger] regions@[b])@.code,
                forall|b: int| 0 <= b < j && b != i ==> regions@[i as int]@.code != (
                #[trigger] regions@[b])@.code,
            decreases n - j,
        {
            if j != i && str_eq(regions[i].code.as_str(), regions[j].code.as_str()) {
                return Some(i);
            }
            j = j + 1;
        }
        i = i + 1;
    }
    None
}

/// The adjacency graph of regions with distinct codes: each unordered pair is evaluated once.
fn link_regions<F, G>(regions: &Vec<Region>, intersects: F, touches: G) -> (g: RegionGraph) where
    F: Fn(&Region, &Region) -> bool,
    G: Fn(&Region, &Region) -> bool,
    requires
        unique_codes(regions@),
        forall|a: &Region, b: &Region| intersects.requires((a, b)),
        forall|a: &Region, b: &Region| touches.requires((a, b)),
    ensures
        ({
            let rs = g.spec_regions();
            &&& g.wf()
            &&& rs.len() == regions@.len()
            &&& forall|i: int|
                0 <= i < rs.len() ==> (#[trigger] rs[i])@.code == regions@[i]@.code && rs[i]@.name
                    == regions@[i]@.name && rs[i]@.extent == regions@[i]@.extent
            &&& forall|i: int, j: int|
                0 <= i < j < rs.len() ==> link_outcome(
                    intersects,
                    touches,
                    &regions@[i],
                    &regions@[j],
                    #[trigger] lists(rs, i, j),
                )
        }),
{
    let n = regions.len();
    let ghost codes = Seq::new(n as nat, |k: int| regions@[k]@.code);
    // rows[i][j]: whether regions i and j are linked
    let mut rows: Vec<Vec<bool>> = Vec::new();
    let mut i: usize = 0;
    while i < n
        invariant
            n == regions@.len(),
            i <= n,
            rows@.len() == i,
            forall|a: int| 0 <= a < i ==> (#[trigger] rows@[a])@.len() == n,
            forall|a: int| 0 <= a < i ==> !(#[trigger] rows@[a])@[a],
            forall|a: int, b: int| 0 <= b < a < i ==> #[trigger] rows@[a]@[b] == rows@[b]@[a],
            forall|a: int, b: int|
                0 <= a < b < n && a < i ==> link_outcome(
                    intersects,
                    touches,
                    &regions@[a],
                    &regions@[b],
                    #[trigger] rows@[a]@[b],
                ),
            forall|a: &Region, b: &Region| intersects.requires((a, b)),
            forall|a: &Region, b: &Region| touches.requires((a, b)),
        decreases n - i,
    {
        let mut row: Vec<bool> = Vec::new();
        let mut j: usize = 0;
        while j < n
            invariant
                n == regions@.len(),
                i < n,
                j <= n,
                rows@.len() == i,
                row@.len() == j,
                forall|a: int| 0 <= a < i ==> (#[trigger] rows@[a])@.len() == n,
                forall|b: int| 0 <= b < j && b < i ==> row@[b] == (#[trigger] rows@[b])@[i as int],
                j > i ==> !row@[i as int],
                forall|b: int|
                    i < b < j ==> link_outcome(
                        intersects,
                        touches,
                        &regions@[i as int],
                        &regions@[b],
                        #[trigger] row@[b],
                    ),
                forall|a: &Region, b: &Region| intersects.requires((a, b)),
                forall|a: &Region, b: &Region| touches.requires((a, b)),
            decreases n - j,
        {
            let linked = if j < i {
                rows[j][i]
            } else if j == i {
                false
            } else {
                let a = &regions[i];
                let b = &regions[j];
                if intersects(a, b) {
                    true
                } else {
                    touches(a, b)
                }
            };
            row.push(linked);
            j = j + 1;
        }
        rows.push(row);
        i = i + 1;
    }
    let mut out: Vec<Region> = Vec::new();
    let mut i: usize = 0;
    while i < n
        invariant
            n == regions@.len(),
            codes == Seq::new(n as nat, |k: int| regions@[k]@.code),
            rows@.len() == n,
            forall|a: int| 0 <= a < n ==> (#[trigger] rows@[a])@.len() == n,
            i <= n,
            out@.len() == i,
            forall|a: int|
                0 <= a < i ==> (#[trigger] out@[a])@.code == regions@[a]@.code && out@[a]@.name
                    == regions@[a]@.name && out@[a]@.extent == regions@[a]@.extent
                    && out@[a]@.neighbors
                    == selected(codes, rows@[a]@, n as int),
        decreases n - i,
    {
        let mut nb: Vec<String> = Vec::new();
        let mut j: usize = 0;
        while j < n
            invariant
                n == regions@.len(),
                codes == Seq::new(n as nat, |k: int| regions@[k]@.code),
                rows@.len() == n,
                i < n,
                rows@[i as int]@.len() == n,
                j <= n,
                views(nb@) == selected(codes, rows@[i as int]@, j as int),
            decreases n - j,
        {
            if rows[i][j] {
                let ghost before = nb@;
                nb.push(regions[j].code.clone());
                assert(views(nb@) =~= views(before).push(codes[j as int]));
            }
            j = j + 1;
        }
        let reg = Region {
            code: regions[i].code.clone(),
            name: regions[i].name.clone(),
            extent: regions[i].extent.clone(),
            neighbors: nb,
        };
        out.push(reg);
        i = i + 1;
    }
    let ghost rs = out@;
    proof {
        assert forall|a: int, b: int| 0 <= a < n && 0 <= b < n && a != b implies codes[a] != codes[b] by {
            assert(regions@[a]@.code != regions@[b]@.code);
        }
        assert(unique_codes(rs)) by {
            assert forall|a: int, b: int|
                0 <= a < rs.len() && 0 <= b < rs.len() && a != b implies (#[trigger] rs[a])@.code
                != (#[trigger] rs[b])@.code by {
                assert(regions@[a]@.code != regions@[b]@.code);
            }
        }
        // membership of a code in a row's selection means the row links that index
        assert forall|a: int, b: int| 0 <= a < n && 0 <= b < n implies (#[trigger] lists(rs, a, b)
            <==> rows@[a]@[b]) by {
            lemma_selected(codes, rows@[a]@, n as int);
            if lists(rs, a, b) {
                let sq = selected(codes, rows@[a]@, n as int);
                let k = choose|k: int| 0 <= k < sq.len() && sq[k] == codes[b];
                let j = origin(codes, rows@[a]@, n as int, k);
                assert(j == b);
            }
            if rows@[a]@[b] {
                assert(selected(codes, rows@[a]@, n as int).contains(codes[b]));
            }
        }
        assert forall|a: int, q: int| 0 <= a < rs.len() && 0 <= q < rs[a]@.neighbors.len() implies has_code(
            rs,
            #[trigger] rs[a]@.neighbors[q],
        ) by {
            lemma_selected(codes, rows@[a]@, n as int);
            let j = origin(codes, rows@[a]@, n as int, q);
            assert(rs[j]@.code == rs[a]@.neighbors[q]);
        }
        assert forall|a: int, b: int| 0 <= a < rs.len() && 0 <= b < rs.len() && #[trigger] lists(rs, a, b) implies lists(rs, b, a) by {
            assert(lists(rs, a, b) <==> rows@[a]@[b]);
            assert(lists(rs, b, a) <==> rows@[b]@[a]);
            if a < b {
                assert(rows@[b]@[a] == rows@[a]@[b]);
            } else if b < a {
                assert(rows@[a]@[b] == rows@[b]@[a]);
            }
        }
        assert forall|a: int| 0 <= a < rs.len() implies !lists(rs, a, a) by {
            assert(lists(rs, a, a) <==> rows@[a]@[a]);
        }
        assert forall|a: int| 0 <= a < rs.len() implies (#[trigger] rs[a])@.neighbors.no_duplicates() by {
            lemma_selected(codes, rows@[a]@, n as int);
        }
        assert forall|a: int, b: int| 0 <= a < b < rs.len() implies link_outcome(
            intersects,
            touches,
            &regions@[a],
            &regions@[b],
            #[trigger] lists(rs, a, b),
        ) by {
            assert(lists(rs, a, b) <==> rows@[a]@[b]);
        }
    }
    RegionGraph { regions: out }
}

fn find_region(regions: &Vec<Region>, code: &str) -> (r: Option<usize>)
    ensures
        r is None <==> !has_code(regions@, code@),
        r matches Some(i) ==> i < regions@.len() && regions@[i as int]@.code == code@,
{
    let mut i: usize = 0;
    while i < regions.len()
        invariant
            i <= regions@.len(),
            forall|j: int| 0 <= j < i ==> (#[trigger] regions@[j])@.code != code@,
        decreases regions@.len() - i,
    {
        if str_eq(regions[i].code.as_str(), code) {
            return Some(i);
        }
        i = i + 1;
    }
    None
}

/// Loads a graph from its regions as a cache artifact holds them, checking its invariant: a
/// repeated code, a neighbor code that no region carries, or a link that goes one way only,
/// repeats or loops is refused, never repaired.
pub fn load_regions_graph(regions: Vec<Region>) -> (r: Result<RegionGraph, GraphError>)
    ensures
        r is Ok <==> graph_wf(regions@),
        r matches Ok(g) ==> g.spec_regions() == regions@,
        r matches Err(e) ==> match e {
            GraphError::DuplicateRegion(c) => !unique_codes(regions@) && has_code(regions@, c@),
            GraphError::DanglingNeighbor(c) => !has_code(regions@, c@),
            GraphError::BrokenLink(a, b) => has_code(regions@, a@) && has_code(regions@, b@),
            GraphError::UnknownRegion(_) => false,
            GraphError::OutsideAllRegions => false,
        },
{
    match first_duplicate(&regions) {
        Some(i) => {
            return Err(GraphError::DuplicateRegion(regions[i].code.clone()));
        },
        None => {},
    }
    let n = regions.len();
    let mut i: usize = 0;
    while i < n
        invariant
            n == regions@.len(),
            i <= n,
            unique_codes(regions@),
            forall|a: int| 0 <= a < i ==> (#[trigger] regions@[a])@.neighbors.no_duplicates(),
            forall|a: int| 0 <= a < i ==> !lists(regions@, a, a),
            forall|a: int, q: int|
                0 <= a < i && 0 <= q < regions@[a]@.neighbors.len() ==> has_code(
                    regions@,
                    #[trigger] regions@[a]@.neighbors[q],
                ),
            forall|a: int, b: int|
                0 <= a < i && 0 <= b < n && #[trigger] lists(regions@, a, b) ==> lists(
                    regions@,
                    b,
                    a,
                ),
        decreases n - i,
    {
        let ghost ri = regions@[i as int]@;
        let nb = &regions[i].neighbors;
        let m = nb.len();
        let mut q: usize = 0;
        while q < m
            invariant
                n == regions@.len(),
                i < n,
                ri == regions@[i as int]@,
                nb@ == regions@[i as int].neighbors@,
                m == nb@.len(),
                q <= m,
                unique_codes(regions@),
                forall|k: int| 0 <= k < q ==> has_code(regions@, #[trigger] ri.neighbors[k]),
                forall|k: int| 0 <= k < q ==> #[trigger] ri.neighbors[k] != ri.code,
                forall|k: int, l: int| 0 <= k < l < q ==> ri.neighbors[k] != ri.neighbors[l],
                forall|k: int, b: int|
                    #![trigger ri.neighbors[k], regions@[b]]
                    0 <= k < q && 0 <= b < n && regions@[b]@.code == ri.neighbors[k]
                        ==> regions@[b]@.neighbors.contains(ri.code),
            decreases m - q,
        {
            let c = nb[q].as_str();
            assert(c@ == ri.neighbors[q as int]);
            let j = match find_region(&regions, c) {
                Some(j) => j,
                None => {
                    return Err(GraphError::DanglingNeighbor(nb[q].clone()));
                },
            };
            if j == i {
                assert(has_code(regions@, ri.code));
                assert(ri.neighbors[q as int] == ri.code);
                assert(lists(regions@, i as int, i as int));
                return Err(GraphError::BrokenLink(regions[i].code.clone(), nb[q].clone()));
            }
            let mut k: usize = 0;
            while k < q
                invariant
                    n == regions@.len(),
                    i < n,
                    j < n,
                    regions@[j as int]@.code == c@,
                    q < m,
                    m == nb@.len(),
                    nb@ == regions@[i as int].neighbors@,
                    ri == regions@[i as int]@,
                    k <= q,
                    c@ == ri.neighbors[q as int],
                    forall|l: int| 0 <= l < k ==> ri.neighbors[l] != c@,
                decreases q - k,
            {
                if str_eq(nb[k].as_str(), c) {
                    assert(has_code(regions@, ri.code));
                    assert(ri.neighbors[k as int] == ri.neighbors[q as int]);
                    assert(!regions@[i as int]@.neighbors.no_duplicates());
                    return Err(GraphError::BrokenLink(regions[i].code.clone(), nb[q].clone()));
                }
                k = k + 1;
            }
            if !contains_code(&regions[j].neighbors, regions[i].code.as_str()) {
                assert(has_code(regions@, ri.code));
                assert(ri.neighbors[q as int] == regions@[j as int]@.code);
                assert(lists(regions@, i as int, j as int));
                assert(!lists(regions@, j as int, i as int));
                return Err(GraphError::BrokenLink(regions[i].code.clone(), nb[q].clone()));
            }
            assert forall|b: int|
                0 <= b < n && (#[trigger] regions@[b])@.code == ri.neighbors[q as int]
                    implies regions@[b]@.neighbors.contains(ri.code) by {
                if b != j {
                    assert(regions@[b]@.code != regions@[j as int]@.code);
                }
            }
            q = q + 1;
        }
        assert(ri.neighbors.no_duplicates());
        assert(!lists(regions@, i as int, i as int));
        assert forall|b: int| 0 <= b < n && #[trigger] lists(regions@, i as int, b) implies lists(
            regions@,
            b,
            i as int,
        ) by {
            let k = choose|k: int| 0 <= k < ri.neighbors.len() && ri.neighbors[k] == regions@[b]@.code;
            assert(regions@[b]@.code == ri.neighbors[k]);
        }
        i = i + 1;
    }
    Ok(RegionGraph { regions })
}

/// The region with code `code`.
pub fn get_region(graph: &RegionGraph, code: &str) -> (r: Result<Region, GraphError>)
    requires
        graph.wf(),
    ensures
        r is Ok <==> has_code(graph.spec_regions(), code@),
        r matches Ok(x) ==> x@.code == code@ && exists|i: int|
            0 <= i < graph.spec_regions().len() && (#[trigger] graph.spec_regions()[i])@ == x@,
        r matches Err(e) ==> e matches GraphError::UnknownRegion(c) && c@ == code@,
{
    match find_region(&graph.regions, code) {
        Some(i) => Ok(graph.regions[i].duplicate()),
        None => Err(GraphError::UnknownRegion(String::from_str(code))),
    }
}

/// The regions listed as neighbors of the region `code`, in the order of its list. An unknown
/// code is an error, distinct from a region without neighbors.
pub fn get_neighbors(graph: &RegionGraph, code: &str) -> (r: Result<Vec<Region>, GraphError>)
    requires
        graph.wf(),
    ensures
        r is Ok <==> has_code(graph.spec_regions(), code@),
        r matches Err(e) ==> e matches GraphError::UnknownRegion(c) && c@ == code@,
        r matches Ok(v) ==> exists|i: int|
            0 <= i < graph.spec_regions().len() && (#[trigger] graph.spec_regions()[i])@.code
                == code@ && v@.len() == graph.spec_regions()[i]@.neighbors.len() && forall|k: int|
                0 <= k < v@.len() ==> (#[trigger] v@[k])@.code
                    == graph.spec_regions()[i]@.neighbors[k] && exists|j: int|
                    0 <= j < graph.spec_regions().len() && graph.spec_regions()[j]@ == v@[k]@,
{
    let i = match find_region(&graph.regions, code) {
        Some(i) => i,
        None => {
            return Err(GraphError::UnknownRegion(String::from_str(code)));
        },
    };
    let ghost rs = graph.regions@;
    let nb = &graph.regions[i].neighbors;
    let mut out: Vec<Region> = Vec::new();
    let mut k: usize = 0;
    while k < nb.len()
        invariant
            rs == graph.regions@,
            graph_wf(rs),
            i < rs.len(),
            nb@ == rs[i as int].neighbors@,
            k <= nb@.len(),
            out@.len() == k,
            forall|l: int|
                0 <= l < k ==> (#[trigger] out@[l])@.code == rs[i as int]@.neighbors[l] && exists|
                    j: int,
                | 0 <= j < rs.len() && rs[j]@ == out@[l]@,
        decreases nb@.len() - k,
    {
        assert(has_code(rs, rs[i as int]@.neighbors[k as int]));
        let j = match find_region(&graph.regions, nb[k].as_str()) {
            Some(j) => j,
            None => {
                return Err(GraphError::DanglingNeighbor(nb[k].clone()));
            },
        };
        out.push(graph.regions[j].duplicate());
        k = k + 1;
    }
    Ok(out)
}

/// The values of a list of regions.
pub open spec fn region_views(rs: Seq<Region>) -> Seq<RegionView> {
    rs.map_values(|x: Region| x@)
}

/// What a bounding-box query may conclude for a region: what the exact predicate returned.
pub open spec fn hit_outcome<F: Fn(&Region, &BoundingBox) -> bool>(
    exact: F,
    region: &Region,
    bb: &BoundingBox,
    hit: bool,
) -> bool {
    exact.ensures((region, bb), hit)
}

impl Region {
    /// Whether the extent intersects the box, as `exact` says of the extent and the box.
    pub fn intersects<F: Fn(&Region, &BoundingBox) -> bool>(&self, bb: &BoundingBox, exact: &F) -> (r: bool)
        requires
            forall|a: &Region, b: &BoundingBox| exact.requires((a, b)),
        ensures
            hit_outcome(*exact, self, bb, r),
    {
        exact(self, bb)
    }
}

/// What a containment query may conclude for a region: what the exact predicate returned.
pub open spec fn containment_outcome<F: Fn(&Region, &BoundingBox) -> bool>(
    exact: F,
    region: &Region,
    bb: &BoundingBox,
    inside: bool,
) -> bool {
    exact.ensures((region, bb), inside)
}

impl Region {
    /// Whether the extent contains the box, as `exact` says of the extent and the box.
    pub fn contains<F: Fn(&Region, &BoundingBox) -> bool>(&self, bb: &BoundingBox, exact: &F) -> (r: bool)
        requires
            forall|a: &Region, b: &BoundingBox| exact.requires((a, b)),
        ensures
            containment_outcome(*exact, self, bb, r),
    {
        exact(self, bb)
    }
}

/// The regions whose extent intersects `bb` (partial overlap counts), in the graph's order. A
/// region is returned exactly when `exact` says its extent meets the box, so a box that meets no
/// extent gives none.
pub fn find_intersecting_regions<F: Fn(&Region, &BoundingBox) -> bool>(
    graph: &RegionGraph,
    bb: &BoundingBox,
    exact: F,
) -> (r: Vec<Region>)
    requires
        forall|a: &Region, b: &BoundingBox| exact.requires((a, b)),
    ensures
        exists|sel: Seq<bool>|
            {
                &&& sel.len() == graph.spec_regions().len()
                &&& forall|i: int|
                    0 <= i < sel.len() ==> hit_outcome(
                        exact,
                        &graph.spec_regions()[i],
                        bb,
                        #[trigger] sel[i],
                    )
                &&& region_views(r@) == #[trigger] selected(
                    region_views(graph.spec_regions()),
                    sel,
                    sel.len() as int,
                )
            },
        (forall|i: int|
            0 <= i < graph.spec_regions().len() ==> !exact.ensures(
                (&#[trigger] graph.spec_regions()[i], bb),
                true,
            )) ==> r@.len() == 0,
        forall|i: int|
            0 <= i < graph.spec_regions().len() && !exact.ensures(
                (&#[trigger] graph.spec_regions()[i], bb),
                false,
            ) ==> region_views(r@).contains(graph.spec_regions()[i]@),
{
    let ghost rs = graph.regions@;
    let ghost all = region_views(rs);
    let ghost mut sel: Seq<bool> = Seq::empty();
    let mut out: Vec<Region> = Vec::new();
    let mut i: usize = 0;
    while i < graph.regions.len()
        invariant
            rs == graph.regions@,
            all == region_views(rs),
            i <= rs.len(),
            sel.len() == i,
            forall|a: &Region, b: &BoundingBox| exact.requires((a, b)),
            forall|k: int| 0 <= k < i ==> hit_outcome(exact, &rs[k], bb, #[trigger] sel[k]),
            region_views(out@) == selected(all, sel, i as int),
            (forall|k: int| 0 <= k < rs.len() ==> !exact.ensures((&#[trigger] rs[k], bb), true))
                ==> out@.len() == 0,
        decreases rs.len() - i,
    {
        let hit = graph.regions[i].intersects(bb, &exact);
        let ghost before = out@;
        if hit {
            out.push(graph.regions[i].duplicate());
            assert(region_views(out@) =~= region_views(before).push(all[i as int]));
        }
        proof {
            let nsel = sel.push(hit);
            assert(selected(all, nsel, i + 1) == (if hit {
                selected(all, nsel, i as int).push(all[i as int])
            } else {
                selected(all, nsel, i as int)
            }));
            assert forall|m: int| 0 <= m <= i implies selected(all, nsel, m) == selected(all, sel, m) by {
                lemma_selected_prefix(all, sel, nsel, m);
            }
            sel = nsel;
        }
        i = i + 1;
    }
    assert(region_views(out@) == selected(region_views(graph.spec_regions()), sel, sel.len() as int));
    proof {
        lemma_selected(all, sel, sel.len() as int);
        assert forall|i: int|
            0 <= i < rs.len() && !exact.ensures((&#[trigger] rs[i], bb), false) implies region_views(
            out@,
        ).contains(rs[i]@) by {
            assert(hit_outcome(exact, &rs[i], bb, sel[i]));
            assert(sel[i]);
            assert(all[i] == rs[i]@);
        }
    }
    out
}

proof fn lemma_selected_prefix<T>(items: Seq<T>, a: Seq<bool>, b: Seq<bool>, m: int)
    requires
        0 <= m <= a.len(),
        m <= b.len(),
        forall|k: int| 0 <= k < m ==> a[k] == b[k],
    ensures
        selected(items, a, m) == selected(items, b, m),
    decreases m,
{
    if m > 0 {
        lemma_selected_prefix(items, a, b, m - 1);
    }
}

/// The codes of the regions a working area spans, in their order; an area that spans none is
/// refused.
pub fn working_region_codes(regions: &Vec<Region>) -> (r: Result<Vec<String>, GraphError>)
    ensures
        r is Err <==> regions@.len() == 0,
        r matches Err(e) ==> e == GraphError::OutsideAllRegions,
        r matches Ok(v) ==> views(v@) == region_views(regions@).map_values(|x: RegionView| x.code),
{
    if regions.len() == 0 {
        return Err(GraphError::OutsideAllRegions);
    }
    let mut out: Vec<String> = Vec::new();
    let mut i: usize = 0;
    while i < regions.len()
        invariant
            i <= regions@.len(),
            out@.len() == i,
            forall|j: int| 0 <= j < i ==> (#[trigger] out@[j])@ == regions@[j]@.code,
        decreases regions@.len() - i,
    {
        out.push(regions[i].code.clone());
        i = i + 1;
    }
    assert(views(out@) =~= region_views(regions@).map_values(|x: RegionView| x.code));
    Ok(out)
}

proof fn lemma_origin_increasing<T>(items: Seq<T>, sel: Seq<bool>, m: int)
    requires
        0 <= m <= items.len(),
        m <= sel.len(),
    ensures
        forall|a: int, b: int|
            0 <= a < b < selected(items, sel, m).len() ==> #[trigger] origin(items, sel, m, a) < #[trigger] origin(
                items,
                sel,
                m,
                b,
            ),
    decreases m,
{
    if m > 0 {
        lemma_origin_increasing(items, sel, m - 1);
        lemma_selected(items, sel, m - 1);
        let p = selected(items, sel, m - 1);
        assert forall|a: int, b: int| 0 <= a < b < selected(items, sel, m).len() implies #[trigger] origin(
            items,
            sel,
            m,
            a,
        ) < #[trigger] origin(items, sel, m, b) by {
            assert(origin(items, sel, m, a) == origin(items, sel, m - 1, a));
            if b < p.len() {
                assert(origin(items, sel, m, b) == origin(items, sel, m - 1, b));
            } else {
                assert(origin(items, sel, m - 1, a) < m - 1);
            }
        }
    }
}

/// Which records survive when several carry one code: the last of them.
pub open spec fn kept_last(rs: Seq<Region>) -> Seq<bool> {
    Seq::new(rs.len(), |i: int| forall|j: int| i < j < rs.len() ==> rs[j]@.code != rs[i]@.code)
}

/// The records with one record per code, the last one given for each, in their order.
pub open spec fn last_per_code(rs: Seq<Region>) -> Seq<RegionView> {
    selected(region_views(rs), kept_last(rs), rs.len() as int)
}

fn keep_last_per_code(regions: &Vec<Region>) -> (r: Vec<Region>)
    ensures
        region_views(r@) == last_per_code(regions@),
        unique_codes(r@),
{
    let n = regions.len();
    let ghost all = region_views(regions@);
    let ghost sel = kept_last(regions@);
    let mut out: Vec<Region> = Vec::new();
    let mut i: usize = 0;
    while i < n
        invariant
            n == regions@.len(),
            all == region_views(regions@),
            sel == kept_last(regions@),
            i <= n,
            region_views(out@) == selected(all, sel, i as int),
        decreases n - i,
    {
        let mut last = true;
        let mut j: usize = i + 1;
        while j < n
            invariant
                n == regions@.len(),
                i < n,
                i < j <= n,
                last == (forall|k: int| i < k < j ==> (#[trigger] regions@[k])@.code != regions@[i as int]@.code),
            decreases n - j,
        {
            if str_eq(regions[j].code.as_str(), regions[i].code.as_str()) {
                last = false;
            }
            j = j + 1;
        }
        let ghost before = out@;
        if last {
            out.push(regions[i].duplicate());
            assert(region_views(out@) =~= region_views(before).push(all[i as int]));
        }
        assert(selected(all, sel, i + 1) == (if sel[i as int] {
            selected(all, sel, i as int).push(all[i as int])
        } else {
            selected(all, sel, i as int)
        }));
        i = i + 1;
    }
    proof {
        lemma_selected(all, sel, n as int);
        lemma_origin_increasing(all, sel, n as int);
        let r = out@;
        assert forall|a: int, b: int| 0 <= a < r.len() && 0 <= b < r.len() && a != b implies (
        #[trigger] r[a])@.code != (#[trigger] r[b])@.code by {
            let oa = origin(all, sel, n as int, a);
            let ob = origin(all, sel, n as int, b);
            assert(region_views(r)[a] == r[a]@);
            assert(region_views(r)[b] == r[b]@);
            if a < b {
                assert(oa < ob);
                assert(sel[oa]);
            } else {
                assert(ob < oa);
                assert(sel[ob]);
            }
        }
    }
    out
}

/// Builds the adjacency graph of `regions`, one region per code: where several records carry one
/// code the last one counts. Two regions are neighbors when `intersects` says their extents
/// intersect or, failing that, `touches` says they touch. Each unordered pair is evaluated once.
/// Each region keeps its code, name and extent; its neighbors are listed in the order of the
/// input, without repeats.
pub fn build_regions_graph<F, G>(regions: Vec<Region>, intersects: F, touches: G) -> (r: Result<
    RegionGraph,
    GraphError,
>) where F: Fn(&Region, &Region) -> bool, G: Fn(&Region, &Region) -> bool
    requires
        forall|a: &Region, b: &Region| intersects.requires((a, b)),
        forall|a: &Region, b: &Region| touches.requires((a, b)),
    ensures
        r is Ok,
        r matches Ok(g) ==> {
            let rs = g.spec_regions();
            &&& g.wf()
            &&& exists|d: Seq<Region>|
                {
                    &&& #[trigger] region_views(d) == last_per_code(regions@)
                    &&& rs.len() == d.len()
                    &&& forall|i: int|
                        0 <= i < rs.len() ==> (#[trigger] rs[i])@.code == d[i]@.code && rs[i]@.name
                            == d[i]@.name && rs[i]@.extent == d[i]@.extent
                    &&& forall|i: int, j: int|
                        0 <= i < j < rs.len() ==> link_outcome(
                            intersects,
                            touches,
                            &d[i],
                            &d[j],
                            #[trigger] lists(rs, i, j),
                        )
                }
        },
{
    let unique = keep_last_per_code(&regions);
    let g = link_regions(&unique, intersects, touches);
    assert(region_views(unique@) == last_per_code(regions@));
    Ok(g)
}

/// In a graph of two linked regions, each one's neighbors are exactly the other one.
pub proof fn lemma_two_linked_regions(g: &RegionGraph)
    requires
        g.wf(),
        g.spec_regions().len() == 2,
        lists(g.spec_regions(), 0, 1),
    ensures
        g.spec_regions()[0]@.neighbors == seq![g.spec_regions()[1]@.code],
        g.spec_regions()[1]@.neighbors == seq![g.spec_regions()[0]@.code],
{
    let rs = g.spec_regions();
    assert(lists(rs, 1, 0));
    assert forall|a: int| 0 <= a < 2 implies rs[a]@.neighbors == seq![rs[1 - a]@.code] by {
        let nb = rs[a]@.neighbors;
        assert(!lists(rs, a, a));
        assert forall|q: int| 0 <= q < nb.len() implies nb[q] == rs[1 - a]@.code by {
            assert(has_code(rs, nb[q]));
            let j = choose|j: int| 0 <= j < rs.len() && (#[trigger] rs[j])@.code == nb[q];
            if j == a {
                assert(nb.contains(rs[a]@.code));
            }
        }
        assert(nb.contains(rs[1 - a]@.code));
        assert(nb.len() >= 1);
        if nb.len() >= 2 {
            assert(nb[0] == nb[1]);
            assert(nb.no_duplicates());
        }
        assert(nb =~= seq![rs[1 - a]@.code]);
    }
}

} // verus!
