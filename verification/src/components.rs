//! The display components, smallest first: atoms render one group of
//! values, molecules render repeated rows, organisms arrange both into the
//! regions of the page.

pub mod atoms;
pub mod molecules;
pub mod organisms;
