//! The built in library profiles and how a profile section is laid over one.
use vstd::prelude::*;
use crate::config::lib::raw;
use crate::config::lib::{LibProfile, LibProfileView};
use crate::config::build::profile::pick;
use crate::text::{append_strings, copy_strings, one_string, owned};

verus! {

/// The debug profile of a library: headers in `include`, binaries in `bin/debug`.
pub open spec fn lib_debug_profile() -> LibProfileView {
    LibProfileView {
        include_dir: "include"@,
        libdir: "bin/debug"@,
        binaries: Seq::empty(),
        defines: seq!["VANGO_DEBUG"@],
    }
}

/// The release profile of a library: binaries in `bin/release`.
pub open spec fn lib_release_profile() -> LibProfileView {
    LibProfileView {
        include_dir: "include"@,
        libdir: "bin/release"@,
        binaries: Seq::empty(),
        defines: seq!["VANGO_RELEASE"@],
    }
}

/// A section laid over a library profile: given directories replace the profile's,
/// binaries and defines are appended.
pub open spec fn lib_layered(b: LibProfileView, o: raw::LibProfileView) -> LibProfileView {
    LibProfileView {
        include_dir: pick(o.include_dir, b.include_dir),
        libdir: pick(o.libdir, b.libdir),
        binaries: b.binaries + o.binaries,
        defines: b.defines + o.defines,
    }
}

impl raw::LibProfile {
    pub fn copy(&self) -> (res: raw::LibProfile)
        ensures
            res@ == self@,
    {
        raw::LibProfile {
            inherits: match &self.inherits {
                Some(s) => Some(owned(s.as_str())),
                None => None,
            },
            include_dir: match &self.include_dir {
                Some(s) => Some(owned(s.as_str())),
                None => None,
            },
            libdir: match &self.libdir {
                Some(s) => Some(owned(s.as_str())),
                None => None,
            },
            binaries: copy_strings(&self.binaries),
            defines: copy_strings(&self.defines),
        }
    }
}

impl LibProfile {
    pub fn default_debug() -> (res: LibProfile)
        ensures
            res@ == lib_debug_profile(),
    {
        let res = LibProfile {
            include_dir: owned("include"),
            libdir: owned("bin/debug"),
            binaries: Vec::new(),
            defines: one_string("VANGO_DEBUG"),
        };
        assert(res@.binaries =~= Seq::<Seq<char>>::empty());
        res
    }

    pub fn default_release() -> (res: LibProfile)
        ensures
            res@ == lib_release_profile(),
    {
        let res = LibProfile {
            include_dir: owned("include"),
            libdir: owned("bin/release"),
            binaries: Vec::new(),
            defines: one_string("VANGO_RELEASE"),
        };
        assert(res@.binaries =~= Seq::<Seq<char>>::empty());
        res
    }

    /// Lays a profile section over this profile.
    pub fn layer(self, other: raw::LibProfile) -> (res: LibProfile)
        ensures
            res@ == lib_layered(self@, other@),
    {
        let mut me = self;
        let mut other = other;
        if let Some(inc) = other.include_dir {
            me.include_dir = inc;
        }
        if let Some(dir) = other.libdir {
            me.libdir = dir;
        }
        append_strings(&mut me.binaries, &mut other.binaries);
        append_strings(&mut me.defines, &mut other.defines);
        me
    }
}

} // verus!
