//! Display units that repeat one row structure over lists paired by
//! position.

pub mod abilities_list;
pub mod characteristics_list;
pub mod page_view_select;
