//! The addressing stage of every instruction: how the effective address is
//! found, cycle by cycle.

pub mod absolute;
pub mod implied;
pub mod indexed_indirect;
pub mod indirect_indexed;
pub mod relative;
pub mod zero_page;
