//! Index buffers of a mesh primitive, in their two on-disk widths.

use vstd::prelude::*;

verus! {

/// A mesh primitive's vertex indices.
#[derive(Clone, Debug)]
pub enum IndexVec {
    U16(Vec<u16>),
    U32(Vec<u32>),
}

impl IndexVec {
    /// The indices as one abstract sequence, whatever their width.
    pub open spec fn index_seq(self) -> Seq<usize> {
        match self {
            IndexVec::U16(v) => v@.map(|i: int, x: u16| x as usize),
            IndexVec::U32(v) => v@.map(|i: int, x: u32| x as usize),
        }
    }

    /// Returns the indices, widened to `usize`.
    pub fn iter(&self) -> (r: Vec<usize>)
        ensures
            r@ == self.index_seq(),
    {
        match self {
            IndexVec::U16(v) => {
                let mut out: Vec<usize> = Vec::new();
                let mut i: usize = 0;
                while i < v.len()
                    invariant
                        0 <= i <= v@.len(),
                        out@ =~= v@.take(i as int).map(|k: int, x: u16| x as usize),
                    decreases v@.len() - i,
                {
                    proof {
                        assert(v@.take(i as int + 1) =~= v@.take(i as int).push(v@[i as int]));
                    }
                    out.push(v[i] as usize);
                    i = i + 1;
                }
                proof {
                    assert(v@.take(v@.len() as int) =~= v@);
                }
                out
            },
            IndexVec::U32(v) => {
                let mut out: Vec<usize> = Vec::new();
                let mut i: usize = 0;
                while i < v.len()
                    invariant
                        0 <= i <= v@.len(),
                        out@ =~= v@.take(i as int).map(|k: int, x: u32| x as usize),
                    decreases v@.len() - i,
                {
                    proof {
                        assert(v@.take(i as int + 1) =~= v@.take(i as int).push(v@[i as int]));
                    }
                    out.push(v[i] as usize);
                    i = i + 1;
                }
                proof {
                    assert(v@.take(v@.len() as int) =~= v@);
                }
                out
            },
        }
    }

    /// Returns the number of indices.
    pub fn len(&self) -> (r: usize)
        ensures
            r == self.index_seq().len(),
    {
        match self {
            IndexVec::U16(v) => v.len(),
            IndexVec::U32(v) => v.len(),
        }
    }

    /// Groups the indices into whole triangles, in order; a trailing
    /// partial triple is dropped.
    pub fn triples(&self) -> (r: Vec<[u32; 3]>)
        ensures
            r@.len() == self.index_seq().len() / 3,
            forall|t: int, k: int| 0 <= t < r@.len() && 0 <= k < 3
                ==> (#[trigger] r@[t]@[k]) as usize == self.index_seq()[3 * t + k],
    {
        let all = self.iter();
        proof {
            assert forall|i: int| 0 <= i < self.index_seq().len()
                implies (#[trigger] self.index_seq()[i]) <= u32::MAX by {
                match *self {
                    IndexVec::U16(v) => {
                        assert(self.index_seq()[i] == v@[i] as usize);
                    },
                    IndexVec::U32(v) => {
                        assert(self.index_seq()[i] == v@[i] as usize);
                    },
                }
            }
        }
        let mut out: Vec<[u32; 3]> = Vec::new();
        let mut t: usize = 0;
        while all.len() - t >= 3
            invariant
                all@ == self.index_seq(),
                forall|i: int| 0 <= i < all@.len() ==> (#[trigger] all@[i]) <= u32::MAX,
                t % 3 == 0,
                0 <= t <= all@.len(),
                out@.len() * 3 == t,
                forall|u: int, k: int| 0 <= u < out@.len() && 0 <= k < 3
                    ==> (#[trigger] out@[u]@[k]) as usize == all@[3 * u + k],
            decreases all@.len() - t,
        {
            let triple: [u32; 3] = [all[t] as u32, all[t + 1] as u32, all[t + 2] as u32];
            out.push(triple);
            t = t + 3;
        }
        proof {
            assert(all@.len() as int / 3 == t as int / 3) by (nonlinear_arith)
                requires
                    t % 3 == 0,
                    t <= all@.len() < t + 3,
            {
            }
            assert(out@.len() == all@.len() / 3);
        }
        out
    }
}

} // verus!
