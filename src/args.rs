//! Command-line arguments: two source image paths and an output path.
use vstd::prelude::*;

verus! {

/// Paths of the two sources and of the output image.
#[derive(Debug)]
pub struct Args {
    pub img1: String,
    pub img2: String,
    pub output: String,
}

impl Args {
    /// Reads the three positional arguments that follow the program name in
    /// `argv`; `None` when one of them is missing.
    pub fn new(argv: &Vec<String>) -> (r: Option<Args>)
        ensures
            r is Some <==> argv@.len() >= 4,
            r is Some ==> r->0.img1 == argv@[1] && r->0.img2 == argv@[2] && r->0.output
                == argv@[3],
    {
        if argv.len() < 4 {
            return None;
        }
        Some(Args { img1: argv[1].clone(), img2: argv[2].clone(), output: argv[3].clone() })
    }
}

} // verus!
