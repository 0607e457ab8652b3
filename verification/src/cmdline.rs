//! The arguments of the program that binds a Rust crate.

use vstd::prelude::*;
use vstd::string::*;
use crate::text::views;

verus! {

/// What the command line says.
#[derive(Debug)]
pub struct Cmdline {
    /// Where the C++ header with the bindings is written.
    pub h_out: String,
    /// The arguments for the Rust compiler, the name of the program first.
    pub rustc_args: Vec<String>,
}

impl Cmdline {
    /// The command line from its parsed parts. The compiler expects the
    /// name of the program before its own arguments, as it skips the first
    /// that it is given.
    pub fn from_parts(exe_name: String, h_out: String, rustc_args: Vec<String>) -> (r: Cmdline)
        ensures
            r.h_out@ == h_out@,
            views(r.rustc_args@) == seq![exe_name@] + views(rustc_args@),
    {
        let ghost given = views(rustc_args@);
        let mut rustc_args = rustc_args;
        rustc_args.insert(0, exe_name);
        assert(views(rustc_args@) =~= seq![exe_name@] + given);
        Cmdline { h_out, rustc_args }
    }
}

} // verus!
