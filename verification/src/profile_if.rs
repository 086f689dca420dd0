//! The simulator's entry-point handle: the pair of file paths a run works
//! with.  Everything that touches those files lives outside this crate.

use vstd::prelude::*;

verus! {

/// Paths of the configuration file a run reads and of the trace it writes.
pub struct ProfileIF {
    pub input_file_path: String,
    pub output_file_path: String,
}

impl ProfileIF {
    /// Starts a profile handle for one configuration file; the output path
    /// is filled in later, once the renderer derives it.
    pub fn new(input_file_path: String) -> (r: ProfileIF)
        ensures
            r.input_file_path@ == input_file_path@,
            r.output_file_path@ == Seq::<char>::empty(),
    {
        ProfileIF { input_file_path, output_file_path: String::new() }
    }
}

} // verus!
