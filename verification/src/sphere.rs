//! Procedural sphere tessellation.
//!
//! The sphere surface is sampled on a parametric grid: `u` runs from `0`
//! to `latitude` over the polar angle and `v` from `0` to `longitude`
//! around the azimuth.  Each grid cell is tiled with two triangles in a
//! fixed winding order, and every triangle corner is emitted on its own —
//! corners shared by neighbouring triangles are duplicated on purpose, so
//! the output is a flat triangle list without an index buffer.
//!
//! A point here is the pair of grid numerators; the renderer maps a point
//! `(u, v)` to the surface of a sphere of fixed radius by taking
//! `u / latitude` of a half turn as the polar angle and `v / longitude`
//! of a full turn as the azimuth.

use vstd::prelude::*;
use vstd::arithmetic::div_mod::lemma_fundamental_div_mod_converse;

verus! {

/// One parametric sample: numerators of the polar and azimuthal grid
/// fractions.
#[derive(Debug, PartialEq, Eq, Structural, Clone, Copy)]
pub struct SpherePoint {
    /// Polar numerator, between `0` and the latitude subdivision count.
    pub u: u32,
    /// Azimuthal numerator, between `0` and the longitude subdivision count.
    pub v: u32,
}

/// The grid sample with numerators `u` and `v`.
pub open spec fn grid_point(u: int, v: int) -> SpherePoint {
    SpherePoint { u: u as u32, v: v as u32 }
}

/// Corner `k` of the six triangle corners emitted for the grid cell at
/// `(lat, lon)`.  The cell's two triangles share its main diagonal:
/// the first covers the near polar edge, the second the far one.
pub open spec fn cell_corner(lat: int, lon: int, k: int) -> SpherePoint
    recommends
        0 <= k < 6,
{
    if k == 0 {
        grid_point(lat, lon)
    } else if k == 1 {
        grid_point(lat, lon + 1)
    } else if k == 2 {
        grid_point(lat + 1, lon + 1)
    } else if k == 3 {
        grid_point(lat, lon)
    } else if k == 4 {
        grid_point(lat + 1, lon + 1)
    } else {
        grid_point(lat + 1, lon)
    }
}

/// The sample standing at position `i` of the emitted triangle list:
/// six corners per cell, cells in row-major order over `(lat, lon)`.
pub open spec fn sphere_point_at(longitude: int, i: int) -> SpherePoint {
    cell_corner((i / 6) / longitude, (i / 6) % longitude, i % 6)
}

/// The whole triangle list for a `latitude` by `longitude` grid.
pub open spec fn sphere_points(longitude: int, latitude: int) -> Seq<SpherePoint> {
    Seq::new((6 * (latitude * longitude)) as nat, |i: int| sphere_point_at(longitude, i))
}

/// Emits the triangle list that tiles the sphere: for every grid cell,
/// the six corners of its two triangles, in the fixed winding order of
/// `cell_corner`.  A zero subdivision count on either axis yields an
/// empty list.
pub fn make_sphere(longitude: u32, latitude: u32) -> (r: Vec<SpherePoint>)
    requires
        6 * ((latitude as int) * (longitude as int)) <= usize::MAX,
    ensures
        r@ == sphere_points(longitude as int, latitude as int),
        r@.len() == 6 * ((latitude as int) * (longitude as int)),
{
    let mut ret: Vec<SpherePoint> = Vec::new();
    let mut lat: u32 = 0;
    while lat < latitude
        invariant
            lat <= latitude,
            6 * ((latitude as int) * (longitude as int)) <= usize::MAX,
            ret@.len() == 6 * ((lat as int) * (longitude as int)),
            forall|i: int|
                0 <= i < ret@.len() ==> ret@[i] == sphere_point_at(longitude as int, i),
        decreases latitude - lat,
    {
        let mut lon: u32 = 0;
        while lon < longitude
            invariant
                lat < latitude,
                lon <= longitude,
                6 * ((latitude as int) * (longitude as int)) <= usize::MAX,
                ret@.len() == 6 * ((lat as int) * (longitude as int) + lon as int),
                forall|i: int|
                    0 <= i < ret@.len() ==> ret@[i] == sphere_point_at(longitude as int, i),
            decreases longitude - lon,
        {
            let point1 = SpherePoint { u: lat, v: lon };
            let point2 = SpherePoint { u: lat + 1, v: lon };
            let point3 = SpherePoint { u: lat + 1, v: lon + 1 };
            let point4 = SpherePoint { u: lat, v: lon + 1 };

            ret.push(point1);
            ret.push(point4);
            ret.push(point3);

            ret.push(point1);
            ret.push(point3);
            ret.push(point2);

            proof {
                lemma_cell_decode(longitude as int, lat as int, lon as int);
            }
            lon = lon + 1;
        }
        lat = lat + 1;
        proof {
            assert((lat - 1) * (longitude as int) + longitude as int == lat as int * (
            longitude as int)) by (nonlinear_arith);
        }
    }
    proof {
        assert(ret@ =~= sphere_points(longitude as int, latitude as int));
    }
    ret
}

/// Emitted positions decode back to their cell: position `6 * (lat *
/// longitude + lon) + k` came from corner `k` of cell `(lat, lon)`.
proof fn lemma_cell_decode(longitude: int, lat: int, lon: int)
    requires
        0 < longitude,
        0 <= lat,
        0 <= lon < longitude,
    ensures
        forall|i: int| #![trigger sphere_point_at(longitude, i)]
            6 * (lat * longitude + lon) <= i < 6 * (lat * longitude + lon) + 6
                ==> sphere_point_at(longitude, i) == cell_corner(
                lat,
                lon,
                i - 6 * (lat * longitude + lon),
            ),
{
    let cell = lat * longitude + lon;
    assert forall|i: int|
        6 * cell <= i < 6 * cell + 6 implies sphere_point_at(longitude, i) == cell_corner(
        lat,
        lon,
        i - 6 * cell,
    ) by {
        lemma_fundamental_div_mod_converse(i, 6, cell, i - 6 * cell);
        lemma_fundamental_div_mod_converse(cell, longitude, lat, lon);
    }
}

/// The triangle list of a `latitude` by `longitude` grid holds exactly
/// `6 * latitude * longitude` samples, and is empty whenever either
/// subdivision count is zero.
pub proof fn lemma_sphere_len(longitude: int, latitude: int)
    requires
        0 <= longitude,
        0 <= latitude,
    ensures
        sphere_points(longitude, latitude).len() == 6 * (latitude * longitude),
        latitude == 0 || longitude == 0 ==> sphere_points(longitude, latitude).len() == 0,
{
    assert(6 * (latitude * longitude) >= 0) by (nonlinear_arith)
        requires 0 <= longitude && 0 <= latitude;
}

/// Every emitted sample lies on the parametric sphere domain: its polar
/// numerator is at most `latitude` and its azimuthal numerator at most
/// `longitude`, so the fractions it stands for are at most one half turn
/// and one full turn.
pub proof fn lemma_sphere_on_domain(longitude: int, latitude: int, i: int)
    requires
        0 < longitude,
        0 < latitude,
        latitude < u32::MAX,
        longitude < u32::MAX,
        0 <= i < sphere_points(longitude, latitude).len(),
    ensures
        sphere_points(longitude, latitude)[i].u <= latitude,
        sphere_points(longitude, latitude)[i].v <= longitude,
{
    lemma_sphere_len(longitude, latitude);
    let cell = i / 6;
    let k = i % 6;
    assert(0 <= k < 6 && 6 * cell + k == i) by {
        vstd::arithmetic::div_mod::lemma_fundamental_div_mod(i, 6);
    }
    assert(0 <= cell < latitude * longitude) by (nonlinear_arith)
        requires 0 <= i < 6 * (latitude * longitude) && 6 * cell + k == i && 0 <= k < 6;
    let lat = cell / longitude;
    let lon = cell % longitude;
    assert(lat * longitude + lon == cell && 0 <= lon < longitude) by {
        vstd::arithmetic::div_mod::lemma_fundamental_div_mod(cell, longitude);
    }
    assert(0 <= lat < latitude) by (nonlinear_arith)
        requires 0 <= cell < latitude * longitude && lat * longitude + lon == cell
            && 0 <= lon < longitude && 0 < longitude;
}

} // verus!
