//! The geometry model and the coordinate transformer. Coordinates are
//! carried as raw IEEE-754 bit patterns: the verified engine moves and
//! regroups them but never does floating-point arithmetic on them; the
//! Tokyo-datum shift is computed by the embedding application, which hands
//! the shifted shape in before conversion.
use vstd::prelude::*;

use crate::crs::JapanCrs;
use crate::error::Ksj2GpError;

verus! {

/// One vertex: longitude, latitude and optional height, as the bit
/// patterns of the underlying binary doubles.
#[derive(Debug, Clone, Copy, PartialEq, Eq)]
pub struct Coord {
    pub x: u64,
    pub y: u64,
    pub z: Option<u64>,
}

/// A decoded shapefile geometry record.
#[derive(Debug, Clone, PartialEq)]
pub enum Shape {
    NullShape,
    Point(Coord),
    PointM(Coord),
    PointZ(Coord),
    Polyline(Vec<Vec<Coord>>),
    PolylineM(Vec<Vec<Coord>>),
    PolylineZ(Vec<Vec<Coord>>),
    Polygon(Vec<Vec<Coord>>),
    PolygonM(Vec<Vec<Coord>>),
    PolygonZ(Vec<Vec<Coord>>),
    Multipoint(Vec<Coord>),
    MultipointM(Vec<Coord>),
    MultipointZ(Vec<Coord>),
    Multipatch,
}

/// A geometry in the uniform output model: a polyline becomes one
/// linestring per part, and a polygon keeps its rings in order, the first
/// ring taken as the exterior. Ring winding is not validated.
#[derive(Debug, Clone, PartialEq)]
pub enum Geometry {
    Point(Coord),
    MultiPoint(Vec<Coord>),
    MultiLineString(Vec<Vec<Coord>>),
    Polygon(Vec<Vec<Coord>>),
}

/// The two nested coordinate lists hold the same parts with the same
/// vertices.
pub open spec fn spec_parts_eq(a: Seq<Vec<Coord>>, b: Seq<Vec<Coord>>) -> bool {
    a.len() == b.len() && forall|i: int| 0 <= i < a.len() ==> a[i]@ == #[trigger] b[i]@
}

fn copy_coords(v: &Vec<Coord>) -> (r: Vec<Coord>)
    ensures
        r@ == v@,
{
    let n = v.len();
    let mut out: Vec<Coord> = Vec::with_capacity(n);
    let mut i: usize = 0;
    while i < n
        invariant
            i <= n,
            n == v@.len(),
            out@.len() == i,
            forall|k: int| 0 <= k < i ==> out@[k] == v@[k],
        decreases n - i,
    {
        out.push(v[i]);
        i = i + 1;
    }
    proof {
        assert(out@ =~= v@);
    }
    out
}

fn copy_parts(v: &Vec<Vec<Coord>>) -> (r: Vec<Vec<Coord>>)
    ensures
        spec_parts_eq(v@, r@),
{
    let n = v.len();
    let mut out: Vec<Vec<Coord>> = Vec::with_capacity(n);
    let mut i: usize = 0;
    while i < n
        invariant
            i <= n,
            n == v@.len(),
            out@.len() == i,
            forall|k: int| 0 <= k < i ==> v@[k]@ == #[trigger] out@[k]@,
        decreases n - i,
    {
        out.push(copy_coords(&v[i]));
        i = i + 1;
    }
    out
}

fn shape_type_label(shape: &Shape) -> &'static str {
    match shape {
        Shape::NullShape => "NullShape",
        Shape::Point(_) => "Point",
        Shape::PointM(_) => "PointM",
        Shape::PointZ(_) => "PointZ",
        Shape::Polyline(_) => "Polyline",
        Shape::PolylineM(_) => "PolylineM",
        Shape::PolylineZ(_) => "PolylineZ",
        Shape::Polygon(_) => "Polygon",
        Shape::PolygonM(_) => "PolygonM",
        Shape::PolygonZ(_) => "PolygonZ",
        Shape::Multipoint(_) => "Multipoint",
        Shape::MultipointM(_) => "MultipointM",
        Shape::MultipointZ(_) => "MultipointZ",
        Shape::Multipatch => "Multipatch",
    }
}

/// Maps a shape into the uniform geometry model: point to point,
/// multipoint to multipoint, polyline to one linestring per part, polygon
/// to its rings in order. Every vertex is carried over unchanged; shape
/// kinds outside the supported set are rejected.
pub fn shape_to_geometry(shape: &Shape) -> (r: Result<Geometry, Ksj2GpError>)
    ensures
        match *shape {
            Shape::Point(c) => r matches Ok(Geometry::Point(p)) && p == c,
            Shape::PointZ(c) => r matches Ok(Geometry::Point(p)) && p == c,
            Shape::Polyline(ref parts) => r matches Ok(Geometry::MultiLineString(ls))
                && spec_parts_eq(parts@, ls@),
            Shape::PolylineZ(ref parts) => r matches Ok(Geometry::MultiLineString(ls))
                && spec_parts_eq(parts@, ls@),
            Shape::Polygon(ref rings) => r matches Ok(Geometry::Polygon(rs)) && spec_parts_eq(
                rings@,
                rs@,
            ),
            Shape::PolygonZ(ref rings) => r matches Ok(Geometry::Polygon(rs)) && spec_parts_eq(
                rings@,
                rs@,
            ),
            Shape::Multipoint(ref cs) => r matches Ok(Geometry::MultiPoint(out)) && out@ == cs@,
            Shape::MultipointZ(ref cs) => r matches Ok(Geometry::MultiPoint(out)) && out@ == cs@,
            _ => r is Err,
        },
{
    match shape {
        Shape::Point(c) => Ok(Geometry::Point(*c)),
        Shape::PointZ(c) => Ok(Geometry::Point(*c)),
        Shape::Polyline(parts) => Ok(Geometry::MultiLineString(copy_parts(parts))),
        Shape::PolylineZ(parts) => Ok(Geometry::MultiLineString(copy_parts(parts))),
        Shape::Polygon(rings) => Ok(Geometry::Polygon(copy_parts(rings))),
        Shape::PolygonZ(rings) => Ok(Geometry::Polygon(copy_parts(rings))),
        Shape::Multipoint(cs) => Ok(Geometry::MultiPoint(copy_coords(cs))),
        Shape::MultipointZ(cs) => Ok(Geometry::MultiPoint(copy_coords(cs))),
        _ => {
            let mut msg = String::from_str("Unsupported shape type: ");
            msg.append(shape_type_label(shape));
            Err(Ksj2GpError::new(msg))
        },
    }
}

/// Converts shapes into output geometries for one source CRS. JGD2000 and
/// JGD2011 coordinates pass through unchanged, as already WGS84-equivalent;
/// for the Tokyo datum the embedding application computes the fixed
/// Bessel-to-WGS84 shift on the raw coordinates first (see
/// [`CoordTransformer::requires_datum_shift`]) and hands the shifted shape
/// in.
pub struct CoordTransformer {
    src: JapanCrs,
}

impl CoordTransformer {
    /// The source CRS this transformer was built for.
    pub closed spec fn crs(&self) -> JapanCrs {
        self.src
    }

    pub fn new(src: JapanCrs) -> (r: Self)
        ensures
            r.crs() == src,
    {
        CoordTransformer { src }
    }

    /// Whether the source datum needs the fixed reprojection to WGS84
    /// before conversion; true exactly for the Tokyo datum.
    pub fn requires_datum_shift(&self) -> (r: bool)
        ensures
            r == (self.crs() is Tokyo),
    {
        match self.src {
            JapanCrs::Tokyo => true,
            JapanCrs::JGD2000 | JapanCrs::JGD2011 => false,
        }
    }

    /// Maps a shape into the output geometry model. Every coordinate is
    /// returned bit-for-bit unchanged; in particular, JGD2000 and JGD2011
    /// input passes through numerically untouched.
    pub fn transform(&self, shape: &Shape) -> (r: Result<Geometry, Ksj2GpError>)
        ensures
            match *shape {
                Shape::Point(c) => r matches Ok(Geometry::Point(p)) && p == c,
                Shape::PointZ(c) => r matches Ok(Geometry::Point(p)) && p == c,
                Shape::Polyline(ref parts) => r matches Ok(Geometry::MultiLineString(ls))
                    && spec_parts_eq(parts@, ls@),
                Shape::PolylineZ(ref parts) => r matches Ok(Geometry::MultiLineString(ls))
                    && spec_parts_eq(parts@, ls@),
                Shape::Polygon(ref rings) => r matches Ok(Geometry::Polygon(rs)) && spec_parts_eq(
                    rings@,
                    rs@,
                ),
                Shape::PolygonZ(ref rings) => r matches Ok(Geometry::Polygon(rs)) && spec_parts_eq(
                    rings@,
                    rs@,
                ),
                Shape::Multipoint(ref cs) => r matches Ok(Geometry::MultiPoint(out)) && out@ == cs@,
                Shape::MultipointZ(ref cs) => r matches Ok(Geometry::MultiPoint(out)) && out@
                    == cs@,
                _ => r is Err,
            },
    {
        shape_to_geometry(shape)
    }
}

} // verus!
