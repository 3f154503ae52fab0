//! Where a package's tests are built, and what they link.
use vstd::prelude::*;
use crate::config::Platform;
use crate::exec::toolchain::msvc_compatible;
use crate::exec::Toolchain;
use crate::paths::{join, path_join, path_with_ext, with_extension};
use crate::text::{concat, concat3, owned};

verus! {

/// The test build of a package: its output directory and executable, the package's own
/// library, linked first, and that library's file, whose change forces a relink.
#[derive(Debug, Clone, PartialEq, Eq)]
pub struct TestLayout {
    pub outdir: String,
    pub outfile: String,
    pub archive: String,
    pub relink: String,
}

pub open spec fn test_layout_spec(name: Seq<char>, tc: Toolchain, base_outdir: Seq<char>, host: Platform, l: TestLayout) -> bool {
    let outdir = path_join(host, base_outdir, "test"@);
    &&& l.outdir@ == outdir
    &&& l.outfile@ == path_join(host, outdir, "test_"@ + name + ".exe"@)
    &&& if msvc_compatible(tc) {
        &&& l.archive@ == path_with_ext(host, name, "lib"@)
        &&& l.relink@ == path_with_ext(host, path_join(host, base_outdir, name), "lib"@)
    } else {
        &&& l.archive@ == name
        &&& l.relink@ == path_with_ext(host, path_join(host, base_outdir, "lib"@ + name), "a"@)
    }
}

/// The test build of package `name`, whose own build writes to `base_outdir`.
pub fn test_layout(name: &str, tc: Toolchain, base_outdir: &str, host: Platform) -> (res: TestLayout)
    ensures
        test_layout_spec(name@, tc, base_outdir@, host, res),
{
    let outdir = join(host, base_outdir, "test");
    let outfile = join(host, outdir.as_str(), concat3("test_", name, ".exe").as_str());
    if tc.is_msvc_compatible() {
        let archive = with_extension(host, name, "lib");
        let lib = join(host, base_outdir, name);
        let relink = with_extension(host, lib.as_str(), "lib");
        TestLayout { outdir, outfile, archive, relink }
    } else {
        let archive = owned(name);
        let lib = join(host, base_outdir, concat("lib", name).as_str());
        let relink = with_extension(host, lib.as_str(), "a");
        TestLayout { outdir, outfile, archive, relink }
    }
}

} // verus!
