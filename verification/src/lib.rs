//! An algebra of multi-valued functions ("polifunctions"): mappings from a
//! domain element to a single value, a finite set of values, or a continuous
//! interval, together with combinators (union, hull, sum, composition,
//! lifting, conversion) that preserve domain-membership and error semantics
//! across the different output representations.

pub mod element;
pub mod value_set;
pub mod polifunction;
pub mod domains;
pub mod mappings;
pub mod set_valued;
pub mod interval_valued;
pub mod operations;
