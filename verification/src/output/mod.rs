//! Parts of bibliography entries as styles print them.

pub mod ieee;
