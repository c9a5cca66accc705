//! The terrain: areas of ground, each of one type.
use geo::{Coord, Polygon, Rect};
use vstd::prelude::*;
use crate::fixed::{div_floor, SCALE};
use crate::movements::Position;

verus! {

pub enum GroundType {
    Sand,
    Soil,
    Rocks,
    Dirt,
    Water,
    Asphalt,
    Concreete,
}

/// A `geo::Polygon` with fixed-point corners, opaque here but for
/// [`outer_ring`].
#[verifier::external_body]
pub struct Area {
    polygon: Polygon<i64>,
}

/// The corners of an area's outer ring, in order; the ring is closed, so
/// the first corner comes again as the last.
pub uninterp spec fn outer_ring(area: Area) -> Seq<(i64, i64)>;

/// The ring of the rectangle between two opposite corners: from the corner
/// of the least coordinates, counter-clockwise, and back to it.
pub open spec fn rectangle_ring(x1: i64, y1: i64, x2: i64, y2: i64) -> Seq<(i64, i64)> {
    let west = if x1 < x2 { x1 } else { x2 };
    let east = if x1 < x2 { x2 } else { x1 };
    let south = if y1 < y2 { y1 } else { y2 };
    let north = if y1 < y2 { y2 } else { y1 };
    seq![(west, south), (east, south), (east, north), (west, north), (west, south)]
}

/// `geo::Rect::new` orders the coordinates of two opposite corners, and
/// `Polygon::from` turns the rectangle into a polygon without holes whose
/// outer ring runs from the least corner through the other three and back.
#[verifier::external_body]
fn rectangle(x1: i64, y1: i64, x2: i64, y2: i64) -> (area: Area)
    ensures
        outer_ring(area) == rectangle_ring(x1, y1, x2, y2),
{
    Area { polygon: Polygon::from(Rect::new(Coord { x: x1, y: y1 }, Coord { x: x2, y: y2 })) }
}

/// `Polygon::exterior` is the outer ring, and `LineString::coords` walks
/// its corners in order.
#[verifier::external_body]
fn corners(area: &Area) -> (ring: Vec<(i64, i64)>)
    ensures
        ring@ == outer_ring(*area),
{
    area.polygon.exterior().coords().map(|corner| (corner.x, corner.y)).collect()
}

struct GeographicFeature {
    tp: GroundType,
    area: Area,
}

/// The terrain, as a list of areas.
pub struct GroundMap(Vec<GeographicFeature>);

impl GroundMap {
    /// The number of areas.
    pub closed spec fn count(&self) -> nat {
        self.0@.len()
    }

    /// The type of ground of area `index`.
    pub closed spec fn ground(&self, index: int) -> GroundType {
        self.0@[index].tp
    }

    /// The outer ring of area `index`.
    pub closed spec fn outline(&self, index: int) -> Seq<(i64, i64)> {
        outer_ring(self.0@[index].area)
    }

    /// The number of areas.
    pub fn len(&self) -> (n: usize)
        ensures
            n == self.count(),
    {
        self.0.len()
    }

    /// Whether area `index` is soil.
    pub fn is_soil(&self, index: usize) -> (r: bool)
        requires
            index < self.count(),
        ensures
            r == (self.ground(index as int) is Soil),
    {
        match self.0[index].tp {
            GroundType::Soil => true,
            _ => false,
        }
    }

    /// The corners of the outer ring of area `index`.
    pub fn corners(&self, index: usize) -> (ring: Vec<(i64, i64)>)
        requires
            index < self.count(),
        ensures
            ring@ == self.outline(index as int),
    {
        corners(&self.0[index].area)
    }

    /// A single rectangle of soil around the origin, `width` wide and
    /// `height` high; the half of either is rounded down.
    pub fn test_square(width: i64, height: i64) -> (map: Self)
        ensures
            map.count() == 1,
            map.ground(0) == GroundType::Soil,
            map.outline(0) == rectangle_ring(
                (-(width / 2)) as i64,
                (-(height / 2)) as i64,
                (width / 2) as i64,
                (height / 2) as i64,
            ),
    {
        let half_width: i64 = div_floor(width as i128, 2) as i64;
        let half_height: i64 = div_floor(height as i128, 2) as i64;
        let polygon = rectangle(-half_width, -half_height, half_width, half_height);
        let soil = GeographicFeature { tp: GroundType::Soil, area: polygon };
        let mut features: Vec<GeographicFeature> = Vec::new();
        features.push(soil);
        GroundMap(features)
    }

    /// How well the soil at a position feeds a tree: `1.0` everywhere.
    pub fn get_soil_fertility(&self, _position: &Position) -> (r: i64)
        ensures
            r == SCALE,
    {
        SCALE
    }
}

} // verus!
