//! Meshes made of quads: four vertices each, drawn as two triangles.

use vstd::prelude::*;

verus! {

/// The bit pattern of the number one as a 32-bit float.
pub const ONE: u32 = 0x3f80_0000;

/// The corner of a quad that the `k`-th index of its two triangles names:
/// the corners 0, 1, 2 make the first triangle, the corners 2, 3, 0 the
/// second.
pub open spec fn winding(k: int) -> int {
    if k == 0 {
        0
    } else if k == 1 {
        1
    } else if k == 2 {
        2
    } else if k == 3 {
        2
    } else if k == 4 {
        3
    } else {
        0
    }
}

/// The indices of `quads` quads in a row: quad `q` uses the vertices from
/// `4 * q` on, in winding order.
pub open spec fn quad_elements(quads: int) -> Seq<i32> {
    if quads <= 0 {
        Seq::empty()
    } else {
        Seq::new((6 * quads) as nat, |i: int| (winding(i % 6) + 4 * (i / 6)) as i32)
    }
}

/// The length of a vector as an `i32`, cut to 32 bits.
pub fn size_of<T>(vec: &Vec<T>) -> (n: i32)
    ensures
        n == vec@.len() as i32,
        vec@.len() <= i32::MAX ==> n == vec@.len(),
{
    let n = #[verifier::truncate] (vec.len() as i32);
    assert(vec@.len() <= i32::MAX ==> n == vec@.len()) by {
        let len = vec.len();
        assert(len <= 0x7fff_ffff ==> (len as i32) == len) by (bit_vector);
    }
    n
}

/// A mesh: the components of its vertices, as the bit patterns of 32-bit
/// floats, and the indices of its triangles.
pub struct Mesh {
    pub vertices: Vec<u32>,
    pub elements: Vec<i32>,
}

impl Mesh {
    pub fn new() -> (mesh: Mesh)
        ensures
            mesh.vertices@ == Seq::<u32>::empty(),
            mesh.elements@ == Seq::<i32>::empty(),
    {
        Mesh { vertices: Vec::new(), elements: Vec::new() }
    }

    /// Adds a vertex: its three coordinates, and one as the fourth
    /// component.
    pub fn vertex(&mut self, x: u32, y: u32, z: u32)
        ensures
            final(self).vertices@ == old(self).vertices@ + seq![x, y, z, ONE],
            final(self).elements@ == old(self).elements@,
    {
        self.vertices.push(x);
        self.vertices.push(y);
        self.vertices.push(z);
        self.vertices.push(ONE);
        assert(self.vertices@ =~= old(self).vertices@ + seq![x, y, z, ONE]);
    }

    /// The number of quads, when `format` components make one quad: the
    /// number of components divided by `format`, rounded towards zero.
    pub open spec fn spec_size_of(&self, format: i32) -> int {
        if format > 0 {
            (self.vertices@.len() as int) / (format as int)
        } else {
            -((self.vertices@.len() as int) / (-(format as int)))
        }
    }

    fn size_of(&self, format: i32) -> (quads: i32)
        requires
            format != 0,
            self.vertices@.len() <= i32::MAX,
        ensures
            quads == self.spec_size_of(format),
            -self.vertices@.len() <= quads <= self.vertices@.len(),
            format < 0 ==> quads <= 0,
            format > 0 ==> quads >= 0,
    {
        let n = size_of(&self.vertices);
        let ghost divisor = -(format as int);
        proof {
            if format > 0 {
                vstd::arithmetic::div_mod::lemma_div_pos_is_pos(n as int, format as int);
                vstd::arithmetic::div_mod::lemma_div_is_ordered_by_denominator(
                    n as int,
                    1,
                    format as int,
                );
            } else {
                vstd::arithmetic::div_mod::lemma_div_pos_is_pos(n as int, divisor);
                vstd::arithmetic::div_mod::lemma_div_is_ordered_by_denominator(
                    n as int,
                    1,
                    divisor,
                );
            }
            vstd::arithmetic::div_mod::lemma_div_basics(n as int);
        }
        if format > 0 {
            n / format
        } else if format == i32::MIN {
            proof {
                vstd::arithmetic::div_mod::lemma_basic_div(n as int, divisor);
            }
            0
        } else {
            -(n / (-format))
        }
    }

    /// Adds the indices of all quads: six for each, two triangles.
    pub fn triangulate(&mut self, format: i32)
        requires
            format != 0,
            old(self).vertices@.len() <= i32::MAX,
            4 * old(self).spec_size_of(format) <= i32::MAX,
        ensures
            final(self).vertices@ == old(self).vertices@,
            final(self).elements@ == old(self).elements@ + quad_elements(
                old(self).spec_size_of(format),
            ),
    {
        let quads = self.size_of(format);
        let mut previous: i32 = 0;
        let mut i: i32 = 0;
        assert(self.elements@ =~= old(self).elements@ + quad_elements(0));
        if quads <= 0 {
            return ;
        }
        while i < quads
            invariant
                0 <= i <= quads,
                quads == old(self).spec_size_of(format),
                4 * quads <= i32::MAX,
                previous == 4 * i,
                self.vertices@ == old(self).vertices@,
                self.elements@ == old(self).elements@ + quad_elements(i as int),
            decreases quads - i,
        {
            let ghost before = self.elements@;
            self.elements.push(0 + previous);
            self.elements.push(1 + previous);
            self.elements.push(2 + previous);
            self.elements.push(2 + previous);
            self.elements.push(3 + previous);
            self.elements.push(0 + previous);
            proof {
                let base = old(self).elements@.len() as int;
                let grown = old(self).elements@ + quad_elements(i as int + 1);
                assert(self.elements@.len() == grown.len());
                assert forall|k: int| 0 <= k < grown.len() implies self.elements@[k] == grown[k] by {
                    if k < base + 6 * i {
                        assert(self.elements@[k] == before[k]);
                    } else {
                        let j = k - base;
                        assert(j / 6 == i && j % 6 == j - 6 * i) by {
                            vstd::arithmetic::div_mod::lemma_fundamental_div_mod_converse(
                                j,
                                6,
                                i as int,
                                j - 6 * i,
                            );
                        }
                    }
                }
                assert(self.elements@ =~= grown);
            }
            previous += 4;
            i += 1;
        }
    }

    /// The number of indices that [`Mesh::triangulate`] adds.
    pub fn get_count(&self, format: i32) -> (count: i32)
        requires
            format != 0,
            self.vertices@.len() <= i32::MAX,
            i32::MIN <= 6 * self.spec_size_of(format) <= i32::MAX,
        ensures
            count == 6 * self.spec_size_of(format),
            format > 0 ==> count == quad_elements(self.spec_size_of(format)).len(),
    {
        6 * self.size_of(format)
    }
}

} // verus!
