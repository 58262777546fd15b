//! Integer core of simplex and cellular noise: the permutation hash over
//! the lattice, the corner selection of the skewed simplex lattices, the
//! gradient bins of the three-dimensional gradients, the selection of the
//! two nearest feature points among a cell's neighbours, and the history
//! kept by domain warping.

pub mod cellular;
pub mod hash;
pub mod simplex;
pub mod warp;
