use vstd::prelude::*;

verus! {

/// The nine squared distances of a 3 x 3 neighbourhood as one sequence:
/// `d1`, then `d2`, then `d3`. Entry `k` of each array belongs to group `k`;
/// the selection network compares within a group first.
pub open spec fn neighbourhood(d1: [u32; 3], d2: [u32; 3], d3: [u32; 3]) -> Seq<u32> {
    seq![d1[0], d1[1], d1[2], d2[0], d2[1], d2[2], d3[0], d3[1], d3[2]]
}

/// `f1` is a least value of `d` and `f2` the least of the values that
/// remain once that entry is taken out: the two smallest with repetition.
pub open spec fn is_two_nearest(d: Seq<u32>, f1: u32, f2: u32) -> bool {
    &&& f1 <= f2
    &&& exists|i: int|
        #![trigger d[i]]
        0 <= i < d.len() && d[i] == f1 && (forall|k: int| 0 <= k < d.len() ==> f1 <= #[trigger] d[k])
            && (exists|j: int|
            #![trigger d[j]]
            0 <= j < d.len() && j != i && d[j] == f2 && (forall|k: int|
                0 <= k < d.len() && k != i ==> f2 <= #[trigger] d[k]))
}

/// The least and second least of the group `g` of `d`, whose entries are
/// `x = d[g]`, `y = d[g + 3]` and `z = d[g + 6]`, with the indices where
/// they stand.
fn two_of_group(Ghost(d): Ghost<Seq<u32>>, Ghost(g): Ghost<int>, x: u32, y: u32, z: u32) -> (r: (
    u32,
    u32,
    Ghost<int>,
    Ghost<int>,
))
    requires
        d.len() == 9,
        0 <= g < 3,
        x == d[g],
        y == d[g + 3],
        z == d[g + 6],
    ensures
        r.2@ == g || r.2@ == g + 3 || r.2@ == g + 6,
        r.3@ == g || r.3@ == g + 3 || r.3@ == g + 6,
        r.2@ != r.3@,
        d[r.2@] == r.0,
        d[r.3@] == r.1,
        r.0 <= r.1,
        forall|k: int| (k == g || k == g + 3 || k == g + 6) && k != r.2@ ==> r.1 <= #[trigger] d[k],
{
    let a = if y < x {
        y
    } else {
        x
    };
    let b = if y < x {
        x
    } else {
        y
    };
    let ghost ia: int = if y < x {
        g + 3
    } else {
        g
    };
    let ghost ib: int = if y < x {
        g
    } else {
        g + 3
    };
    let c = if z < b {
        z
    } else {
        b
    };
    let ghost ic: int = if z < b {
        g + 6
    } else {
        ib
    };
    if c < a {
        (c, a, Ghost(ic), Ghost(ia))
    } else {
        (a, c, Ghost(ia), Ghost(ic))
    }
}

/// Selects the nearest and second nearest of the nine squared distances of
/// a cell's neighbourhood, given as the bit patterns of non-negative `f32`
/// values (which order as their patterns do), without sorting them: each
/// group is reduced to its two least, the least of the group minima is the
/// nearest, and the second nearest is the least of what is left.
pub fn two_nearest(d1: [u32; 3], d2: [u32; 3], d3: [u32; 3]) -> (r: (u32, u32))
    ensures
        is_two_nearest(neighbourhood(d1, d2, d3), r.0, r.1),
{
    let ghost d = neighbourhood(d1, d2, d3);
    let (l0, m0, i0, j0) = two_of_group(Ghost(d), Ghost(0), d1[0], d2[0], d3[0]);
    let (l1, m1, i1, j1) = two_of_group(Ghost(d), Ghost(1), d1[1], d2[1], d3[1]);
    let (l2, m2, i2, j2) = two_of_group(Ghost(d), Ghost(2), d1[2], d2[2], d3[2]);

    // bring the least of the group minima to the front
    let mut lx = l0;
    let mut ly = l1;
    let mut lz = l2;
    let ghost mut ix: int = i0@;
    let ghost mut iy: int = i1@;
    let ghost mut iz: int = i2@;
    if lx > ly {
        let t = lx;
        lx = ly;
        ly = t;
        proof {
            let u = ix;
            ix = iy;
            iy = u;
        }
    }
    if lx > lz {
        let t = lx;
        lx = lz;
        lz = t;
        proof {
            let u = ix;
            ix = iz;
            iz = u;
        }
    }

    // the second nearest: the other group minima and every group's second
    let mut sy = if m1 < ly {
        m1
    } else {
        ly
    };
    let ghost mut jy: int = if m1 < ly {
        j1@
    } else {
        iy
    };
    let sz = if m2 < lz {
        m2
    } else {
        lz
    };
    let ghost jz: int = if m2 < lz {
        j2@
    } else {
        iz
    };
    if sz < sy {
        sy = sz;
        proof {
            jy = jz;
        }
    }
    if m0 < sy {
        sy = m0;
        proof {
            jy = j0@;
        }
    }
    proof {
        assert forall|k: int| 0 <= k < 9 implies lx <= #[trigger] d[k] by {
            assert(k == 0 || k == 3 || k == 6 || k == 1 || k == 4 || k == 7 || k == 2 || k == 5
                || k == 8);
        }
        assert forall|k: int| 0 <= k < 9 && k != ix implies sy <= #[trigger] d[k] by {
            assert(k == 0 || k == 3 || k == 6 || k == 1 || k == 4 || k == 7 || k == 2 || k == 5
                || k == 8);
        }
        assert(d[ix] == lx);
        assert(d[jy] == sy && jy != ix);
    }
    (lx, sy)
}

/// The nearest pair of a neighbourhood is unique: two answers that both
/// meet the contract of `two_nearest` on the same distances are equal, so
/// the selection is a function of the nine distances alone.
pub proof fn lemma_two_nearest_unique(d: Seq<u32>, f1: u32, f2: u32, g1: u32, g2: u32)
    requires
        is_two_nearest(d, f1, f2),
        is_two_nearest(d, g1, g2),
    ensures
        f1 == g1,
        f2 == g2,
{
    let i = choose|i: int|
        #![trigger d[i]]
        0 <= i < d.len() && d[i] == f1 && (forall|k: int| 0 <= k < d.len() ==> f1 <= #[trigger] d[k])
            && (exists|j: int|
            #![trigger d[j]]
            0 <= j < d.len() && j != i && d[j] == f2 && (forall|k: int|
                0 <= k < d.len() && k != i ==> f2 <= #[trigger] d[k]));
    let j = choose|j: int|
        #![trigger d[j]]
        0 <= j < d.len() && j != i && d[j] == f2 && (forall|k: int|
            0 <= k < d.len() && k != i ==> f2 <= #[trigger] d[k]);
    let a = choose|a: int|
        #![trigger d[a]]
        0 <= a < d.len() && d[a] == g1 && (forall|k: int| 0 <= k < d.len() ==> g1 <= #[trigger] d[k])
            && (exists|b: int|
            #![trigger d[b]]
            0 <= b < d.len() && b != a && d[b] == g2 && (forall|k: int|
                0 <= k < d.len() && k != a ==> g2 <= #[trigger] d[k]));
    let b = choose|b: int|
        #![trigger d[b]]
        0 <= b < d.len() && b != a && d[b] == g2 && (forall|k: int|
            0 <= k < d.len() && k != a ==> g2 <= #[trigger] d[k]);
    assert(f1 <= d[a] && g1 <= d[i]);
    if b != i {
        assert(f2 <= d[b]);
    } else {
        assert(f2 <= d[a]);
    }
    if j != a {
        assert(g2 <= d[j]);
    } else {
        assert(g2 <= d[i]);
    }
}

} // verus!
