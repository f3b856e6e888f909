//! Assembler directives.

use vstd::prelude::*;

verus! {

/// A non-instruction assembler command. `Org` sets the load origin, the base
/// address at which the assembled program is placed.
#[derive(Debug, PartialEq, Eq, Clone, Copy, Structural)]
pub enum Directive {
    Org(u16),
}

} // verus!
