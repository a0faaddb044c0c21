//! Steps that more than one instruction takes.

pub mod graduate;
