//! The user's request as plain values.  The command-line front end parses the
//! flags elsewhere and hands the result over in this form.

use vstd::prelude::*;

verus! {

/// One download request: the source URL, the desired format token (`mp3` or
/// `mp4`), the output directory, and a quality hint (`best`, `worst`, or a
/// resolution token such as `720`).
#[derive(Debug, Clone)]
pub struct Args {
    pub url: String,
    pub format: String,
    pub output_dir: String,
    pub quality: String,
}

} // verus!
