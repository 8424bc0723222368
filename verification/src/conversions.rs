pub mod coerce;
pub mod from_integerish;
pub mod ieee;
pub mod try_into_int;
