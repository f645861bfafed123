//! Axis-aligned boxes in the projected coordinate system, in whole metres.
use vstd::prelude::*;

use crate::text::{i64_text, int_text};

verus! {

/// A rectangle `{xmin, ymin, xmax, ymax}` of the projected coordinate system, in metres.
#[derive(Clone, Copy, Debug, PartialEq, Eq, Structural)]
pub struct BoundingBox {
    pub xmin: i64,
    pub ymin: i64,
    pub xmax: i64,
    pub ymax: i64,
}

/// The text of a ring vertex `x y`.
pub open spec fn vertex_text(x: i64, y: i64) -> Seq<char> {
    int_text(x as int) + seq![' '] + int_text(y as int)
}

impl BoundingBox {
    /// A box is valid when it has positive extent in both directions and that extent is an `i64`.
    pub open spec fn wf(&self) -> bool {
        &&& self.xmin < self.xmax
        &&& self.ymin < self.ymax
        &&& self.xmax - self.xmin <= i64::MAX
        &&& self.ymax - self.ymin <= i64::MAX
    }

    pub open spec fn spec_width(&self) -> int {
        self.xmax - self.xmin
    }

    pub open spec fn spec_height(&self) -> int {
        self.ymax - self.ymin
    }

    /// The closed ring of the box as well-known text: five vertices, the last equal to the first,
    /// going counter-clockwise from the lower-left corner.
    pub open spec fn wkt(&self) -> Seq<char> {
        "POLYGON(("@ + vertex_text(self.xmin, self.ymin) + ", "@ + vertex_text(self.xmax, self.ymin)
            + ", "@ + vertex_text(self.xmax, self.ymax) + ", "@ + vertex_text(self.xmin, self.ymax)
            + ", "@ + vertex_text(self.xmin, self.ymin) + "))"@
    }

    /// Whether two boxes share at least one point (their closures overlap).
    pub open spec fn spec_overlaps(&self, o: BoundingBox) -> bool {
        self.xmin <= o.xmax && o.xmin <= self.xmax && self.ymin <= o.ymax && o.ymin <= self.ymax
    }

    pub fn new(xmin: i64, ymin: i64, xmax: i64, ymax: i64) -> (r: BoundingBox)
        requires
            xmin < xmax,
            ymin < ymax,
            xmax - xmin <= i64::MAX,
            ymax - ymin <= i64::MAX,
        ensures
            r == (BoundingBox { xmin, ymin, xmax, ymax }),
            r.wf(),
    {
        BoundingBox { xmin, ymin, xmax, ymax }
    }

    pub fn width(&self) -> (r: i64)
        requires
            self.wf(),
        ensures
            r == self.spec_width(),
            r > 0,
    {
        self.xmax - self.xmin
    }

    pub fn height(&self) -> (r: i64)
        requires
            self.wf(),
        ensures
            r == self.spec_height(),
            r > 0,
    {
        self.ymax - self.ymin
    }

    /// Whether the two boxes share at least one point.
    pub fn overlaps(&self, other: &BoundingBox) -> (r: bool)
        ensures
            r == self.spec_overlaps(*other),
    {
        self.xmin <= other.xmax && other.xmin <= self.xmax && self.ymin <= other.ymax
            && other.ymin <= self.ymax
    }

    /// The box as a closed WKT polygon.
    pub fn to_wkt(&self) -> (r: String)
        ensures
            r@ == self.wkt(),
    {
        let mut s = String::from_str("POLYGON((");
        append_vertex(&mut s, self.xmin, self.ymin);
        s.append(", ");
        append_vertex(&mut s, self.xmax, self.ymin);
        s.append(", ");
        append_vertex(&mut s, self.xmax, self.ymax);
        s.append(", ");
        append_vertex(&mut s, self.xmin, self.ymax);
        s.append(", ");
        append_vertex(&mut s, self.xmin, self.ymin);
        s.append("))");
        s
    }
}

fn append_vertex(s: &mut String, x: i64, y: i64)
    ensures
        final(s)@ == old(s)@ + vertex_text(x, y),
{
    let xs = i64_text(x);
    let ys = i64_text(y);
    s.append(xs.as_str());
    s.append(" ");
    proof {
        reveal_strlit(" ");
    }
    s.append(ys.as_str());
    assert(final(s)@ =~= old(s)@ + vertex_text(x, y));
}

} // verus!
