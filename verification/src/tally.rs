//! A count that has no upper end.
use vstd::prelude::*;

verus! {

/// std's `core::fmt::Formatter`, which `Debug` writes to. Nothing is said of it.
#[verifier::external_type_specification]
#[verifier::external_body]
pub struct ExFormatter<'a>(core::fmt::Formatter<'a>);

/// std's `core::fmt::Error`, with which `Debug` fails. Nothing is said of it.
#[verifier::external_type_specification]
#[verifier::external_body]
pub struct ExFmtError(core::fmt::Error);

/// The number of times that something has happened. The number is kept for the proofs
/// only: it takes no room in the running program, and so it has no upper end.
pub struct Tally {
    count: Ghost<nat>,
}

impl View for Tally {
    type V = nat;

    closed spec fn view(&self) -> nat {
        self.count@
    }
}

impl core::fmt::Debug for Tally {
    /// Writes the name of the type with `Formatter::write_str`: the program holds no
    /// number to write.
    #[verifier::external_body]
    fn fmt(&self, f: &mut core::fmt::Formatter<'_>) -> core::fmt::Result {
        f.write_str("Tally")
    }
}

impl Tally {
    /// A count of nothing.
    pub fn new() -> (tally: Tally)
        ensures
            tally@ == 0,
    {
        Tally { count: Ghost(0) }
    }

    /// Counts one more.
    pub fn add_one(&mut self)
        ensures
            final(self)@ == old(self)@ + 1,
    {
        self.count = Ghost((self.count@ + 1) as nat);
    }
}

} // verus!
