//! The six coefficients of an affine transform of the plane and the two
//! orders in which they are written. The type is generic in the type `V` of
//! a coefficient: nothing here computes with one.
use vstd::prelude::*;

verus! {

/// An affine transform from pixel `(col, row)` to world `(x, y)`, as the
/// coefficients `[a, b, c, d, e, f]` of `x = a * col + b * row + c` and
/// `y = d * col + e * row + f`.
#[derive(Debug, PartialEq)]
pub struct GeoTransform<V> {
    pub geo: [V; 6],
}

/// From the order `[c, a, b, f, d, e]`, in which datasets report the
/// coefficients, to the order `[a, b, c, d, e, f]`.
pub open spec fn spec_from_gdal<V>(g: Seq<V>) -> Seq<V> {
    seq![g[1], g[2], g[0], g[4], g[5], g[3]]
}

/// From the order `[a, b, c, d, e, f]` to the order `[c, a, b, f, d, e]`.
pub open spec fn spec_to_gdal<V>(g: Seq<V>) -> Seq<V> {
    seq![g[2], g[0], g[1], g[5], g[3], g[4]]
}

impl<V: Copy> GeoTransform<V> {
    /// The transform with the coefficients `[a, b, c, d, e, f]`.
    pub fn new(geo: &[V; 6]) -> (r: Self)
        ensures
            r.geo@ == geo@,
    {
        Self { geo: *geo }
    }

    /// The transform whose coefficients a dataset reports as `[c, a, b, f, d, e]`.
    pub fn from_gdal(geo: &[V; 6]) -> (r: Self)
        ensures
            r.geo@ == spec_from_gdal(geo@),
    {
        let r = Self { geo: [geo[1], geo[2], geo[0], geo[4], geo[5], geo[3]] };
        proof {
            assert(r.geo@ =~= spec_from_gdal(geo@));
        }
        r
    }

    /// The coefficients as `(a, b, c, d, e, f)`.
    pub fn to_tuple(&self) -> (r: (V, V, V, V, V, V))
        ensures
            r.0 == self.geo@[0],
            r.1 == self.geo@[1],
            r.2 == self.geo@[2],
            r.3 == self.geo@[3],
            r.4 == self.geo@[4],
            r.5 == self.geo@[5],
    {
        (self.geo[0], self.geo[1], self.geo[2], self.geo[3], self.geo[4], self.geo[5])
    }

    /// The coefficients as `[a, b, c, d, e, f]`.
    pub fn to_array(&self) -> (r: [V; 6])
        ensures
            r@ == self.geo@,
    {
        self.geo
    }

    /// The same coefficients in the order `[c, a, b, f, d, e]`, held as a transform.
    pub fn to_gdal(&self) -> (r: Self)
        ensures
            r.geo@ == spec_to_gdal(self.geo@),
    {
        let r = Self {
            geo: [self.geo[2], self.geo[0], self.geo[1], self.geo[5], self.geo[3], self.geo[4]],
        };
        proof {
            assert(r.geo@ =~= spec_to_gdal(self.geo@));
        }
        r
    }

    /// The offset along x: the coefficient `c`.
    pub fn xoff(&self) -> (r: V)
        ensures
            r == self.geo@[2],
    {
        self.geo[2]
    }

    /// The offset along y: the coefficient `f`.
    pub fn yoff(&self) -> (r: V)
        ensures
            r == self.geo@[5],
    {
        self.geo[5]
    }
}

/// Writing six coefficients in the other order and back gives them again.
pub proof fn lemma_gdal_order_round_trip<V>(g: Seq<V>)
    requires
        g.len() == 6,
    ensures
        spec_to_gdal(spec_from_gdal(g)) == g,
        spec_from_gdal(spec_to_gdal(g)) == g,
{
    assert(spec_to_gdal(spec_from_gdal(g)) =~= g);
    assert(spec_from_gdal(spec_to_gdal(g)) =~= g);
}

} // verus!
