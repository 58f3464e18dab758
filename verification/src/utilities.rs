//! Shared UI text: the banner shown at the top of the dashboard and the
//! quit instructions shown at its foot.

use vstd::prelude::*;

verus! {

/// The quit instructions shown under the dashboard.
pub fn quit_instructions() -> (r: &'static str)
    ensures
        r@ == "Press F10 or q/Q to quit."@,
{
    "Press F10 or q/Q to quit."
}

/// The ASCII-art banner shown at the top of the dashboard.
pub fn banner_text() -> (r: String)
    ensures
        r@ == "\n██████╗ ██╗   ██╗███████╗████████╗ ██████╗ ██████╗ \n██╔══██╗██║   ██║██╔════╝╚══██╔══╝██╔═══██╗██╔══██╗\n██████╔╝██║   ██║║██████╗   ██║   ██║   ██║██████╔╝\n██╔══██╗██║   ██║╚════██║   ██║   ██║   ██║██╔═══╝\n██║  ██║╚██████╔╝██████╔╝   ██║   ╚██████╔╝██║  \n╚═╝  ╚═╝ ╚═════╝ ╚═════╝    ╚═╝    ╚═════╝ ╚═╝  \n\n          Rust System & GPU Monitor (rustop)        \n"@,
{
    let s: &str = "\n██████╗ ██╗   ██╗███████╗████████╗ ██████╗ ██████╗ \n██╔══██╗██║   ██║██╔════╝╚══██╔══╝██╔═══██╗██╔══██╗\n██████╔╝██║   ██║║██████╗   ██║   ██║   ██║██████╔╝\n██╔══██╗██║   ██║╚════██║   ██║   ██║   ██║██╔═══╝\n██║  ██║╚██████╔╝██████╔╝   ██║   ╚██████╔╝██║  \n╚═╝  ╚═╝ ╚═════╝ ╚═════╝    ╚═╝    ╚═════╝ ╚═╝  \n\n          Rust System & GPU Monitor (rustop)        \n";
    s.to_owned()
}

} // verus!
