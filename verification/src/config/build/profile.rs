//! The built in profiles and how a profile section is laid over a profile.
use vstd::prelude::*;
use crate::config::build::raw;
use crate::config::build::{BuildProfile, BuildProfileView, BuildSettings};
use crate::config::{Profile, ProfileView, Runtime, WarnLevel};
use crate::text::{append_strings, one_string, owned, str_eq, strs};

verus! {

pub open spec fn pick<T>(o: Option<T>, d: T) -> T {
    match o {
        Some(v) => v,
        None => d,
    }
}

/// The settings of the debug profile.
pub open spec fn debug_settings() -> BuildSettings {
    BuildSettings {
        opt_level: 0,
        opt_size: false,
        opt_speed: false,
        opt_linktime: false,
        iso_compliant: false,
        warn_level: WarnLevel::Basic,
        warn_as_error: false,
        debug_info: true,
        runtime: Runtime::DynamicDebug,
        aslr: true,
        no_rtti: false,
        no_except: false,
        pthreads: false,
        asan: false,
        tsan: false,
        lsan: false,
        ubsan: false,
    }
}

/// The debug profile: unoptimised, with debug information, `VANGO_DEBUG` defined and
/// `src` searched for headers.
pub open spec fn debug_profile() -> BuildProfileView {
    BuildProfileView {
        baseprof: ProfileView::Debug,
        defines: seq!["VANGO_DEBUG"@],
        include_dirs: seq!["src"@],
        pch: None,
        settings: debug_settings(),
        compiler_options: Seq::empty(),
        linker_options: Seq::empty(),
    }
}

/// The release profile: the debug profile with full and link time optimisation, no
/// debug information, the release runtime and `VANGO_RELEASE` defined instead.
pub open spec fn release_profile() -> BuildProfileView {
    BuildProfileView {
        baseprof: ProfileView::Release,
        defines: seq!["VANGO_RELEASE"@],
        settings: BuildSettings {
            opt_level: 3,
            opt_linktime: true,
            debug_info: false,
            runtime: Runtime::DynamicRelease,
            ..debug_settings()
        },
        ..debug_profile()
    }
}

/// The profile tests build with: the debug profile that also defines `VANGO_TEST`.
pub open spec fn test_profile() -> BuildProfileView {
    BuildProfileView { defines: seq!["VANGO_DEBUG"@, "VANGO_TEST"@], ..debug_profile() }
}

/// The settings a section gives replace those of the profile; the rest stay.
pub open spec fn layered_settings(s: BuildSettings, o: raw::BuildSettings) -> BuildSettings {
    BuildSettings {
        opt_level: pick(o.opt_level, s.opt_level),
        opt_size: pick(o.opt_size, s.opt_size),
        opt_speed: pick(o.opt_speed, s.opt_speed),
        opt_linktime: pick(o.opt_linktime, s.opt_linktime),
        iso_compliant: pick(o.iso_compliant, s.iso_compliant),
        warn_level: pick(o.warn_level, s.warn_level),
        warn_as_error: pick(o.warn_as_error, s.warn_as_error),
        debug_info: pick(o.debug_info, s.debug_info),
        runtime: pick(o.runtime, s.runtime),
        aslr: pick(o.aslr, s.aslr),
        no_rtti: pick(o.no_rtti, s.no_rtti),
        no_except: pick(o.no_except, s.no_except),
        pthreads: pick(o.pthreads, s.pthreads),
        asan: pick(o.sanitize.address, s.asan),
        tsan: pick(o.sanitize.thread, s.tsan),
        lsan: pick(o.sanitize.leak, s.lsan),
        ubsan: pick(o.sanitize.undefined, s.ubsan),
    }
}

/// A section laid over a profile: `inherits` re-bases it (on debug when it names
/// debug, else on release), lists are appended to, the precompiled header is the
/// section's, and given settings replace the profile's.
pub open spec fn layered(b: BuildProfileView, o: raw::BuildProfileView) -> BuildProfileView {
    BuildProfileView {
        baseprof: match o.inherits {
            Some(n) => if n == "debug"@ {
                ProfileView::Debug
            } else {
                ProfileView::Release
            },
            None => b.baseprof,
        },
        defines: b.defines + o.defines,
        include_dirs: b.include_dirs + o.include_dirs,
        pch: o.pch,
        settings: layered_settings(b.settings, o.build_settings),
        compiler_options: b.compiler_options + o.compiler_options,
        linker_options: b.linker_options + o.linker_options,
    }
}

/// A section that sets nothing.
pub open spec fn empty_section() -> raw::BuildProfileView {
    raw::BuildProfileView {
        inherits: None,
        defines: Seq::empty(),
        include_dirs: Seq::empty(),
        pch: None,
        build_settings: raw::BuildSettings {
            opt_level: None,
            opt_size: None,
            opt_speed: None,
            opt_linktime: None,
            iso_compliant: None,
            warn_level: None,
            warn_as_error: None,
            debug_info: None,
            runtime: None,
            aslr: None,
            no_rtti: None,
            no_except: None,
            pthreads: None,
            sanitize: crate::config::Sanitizer { address: None, thread: None, leak: None, undefined: None },
        },
        compiler_options: Seq::empty(),
        linker_options: Seq::empty(),
    }
}

/// Laying a section that sets nothing over a profile leaves it as it was, but for its
/// precompiled header, which only a section names.
pub proof fn law_layer_empty(b: BuildProfileView)
    ensures
        layered(b, empty_section()) == (BuildProfileView { pch: None, ..b }),
{
    assert(b.defines + Seq::<Seq<char>>::empty() =~= b.defines);
    assert(b.include_dirs + Seq::<Seq<char>>::empty() =~= b.include_dirs);
    assert(b.compiler_options + Seq::<Seq<char>>::empty() =~= b.compiler_options);
    assert(b.linker_options + Seq::<Seq<char>>::empty() =~= b.linker_options);
}

/// Sections laid one over another add their lists in order, and a later section's
/// settings win over an earlier one's.
pub proof fn law_layer_twice(b: BuildProfileView, o1: raw::BuildProfileView, o2: raw::BuildProfileView)
    ensures
        layered(layered(b, o1), o2).defines == b.defines + o1.defines + o2.defines,
        layered(layered(b, o1), o2).include_dirs == b.include_dirs + o1.include_dirs + o2.include_dirs,
        layered(layered(b, o1), o2).compiler_options == b.compiler_options + o1.compiler_options
            + o2.compiler_options,
        layered(layered(b, o1), o2).linker_options == b.linker_options + o1.linker_options
            + o2.linker_options,
        layered(layered(b, o1), o2).pch == o2.pch,
        o2.build_settings.opt_level is Some ==> layered(layered(b, o1), o2).settings.opt_level
            == o2.build_settings.opt_level->Some_0,
        o2.build_settings.opt_level is None ==> layered(layered(b, o1), o2).settings.opt_level
            == layered(b, o1).settings.opt_level,
{
}

/// The optimisation and debug information settings a section gives replace the
/// profile's; those it leaves out keep the profile's values.
pub proof fn law_layer_optimisation(b: BuildProfileView, o: raw::BuildProfileView)
    ensures
        o.build_settings.opt_level is Some ==> layered(b, o).settings.opt_level == o.build_settings.opt_level->Some_0,
        o.build_settings.opt_level is None ==> layered(b, o).settings.opt_level == b.settings.opt_level,
        o.build_settings.opt_size is Some ==> layered(b, o).settings.opt_size == o.build_settings.opt_size->Some_0,
        o.build_settings.opt_size is None ==> layered(b, o).settings.opt_size == b.settings.opt_size,
        o.build_settings.opt_speed is Some ==> layered(b, o).settings.opt_speed == o.build_settings.opt_speed->Some_0,
        o.build_settings.opt_speed is None ==> layered(b, o).settings.opt_speed == b.settings.opt_speed,
        o.build_settings.opt_linktime is Some ==> layered(b, o).settings.opt_linktime == o.build_settings.opt_linktime->Some_0,
        o.build_settings.opt_linktime is None ==> layered(b, o).settings.opt_linktime == b.settings.opt_linktime,
        o.build_settings.debug_info is Some ==> layered(b, o).settings.debug_info == o.build_settings.debug_info->Some_0,
        o.build_settings.debug_info is None ==> layered(b, o).settings.debug_info == b.settings.debug_info,
{
}

/// The warning and conformance settings a section gives replace the profile's;
/// those it leaves out keep the profile's values.
pub proof fn law_layer_diagnostics(b: BuildProfileView, o: raw::BuildProfileView)
    ensures
        o.build_settings.iso_compliant is Some ==> layered(b, o).settings.iso_compliant == o.build_settings.iso_compliant->Some_0,
        o.build_settings.iso_compliant is None ==> layered(b, o).settings.iso_compliant == b.settings.iso_compliant,
        o.build_settings.warn_level is Some ==> layered(b, o).settings.warn_level == o.build_settings.warn_level->Some_0,
        o.build_settings.warn_level is None ==> layered(b, o).settings.warn_level == b.settings.warn_level,
        o.build_settings.warn_as_error is Some ==> layered(b, o).settings.warn_as_error == o.build_settings.warn_as_error->Some_0,
        o.build_settings.warn_as_error is None ==> layered(b, o).settings.warn_as_error == b.settings.warn_as_error,
{
}

/// The runtime, address layout, C++ feature and thread settings a section gives
/// replace the profile's; those it leaves out keep the profile's values.
pub proof fn law_layer_code(b: BuildProfileView, o: raw::BuildProfileView)
    ensures
        o.build_settings.runtime is Some ==> layered(b, o).settings.runtime == o.build_settings.runtime->Some_0,
        o.build_settings.runtime is None ==> layered(b, o).settings.runtime == b.settings.runtime,
        o.build_settings.aslr is Some ==> layered(b, o).settings.aslr == o.build_settings.aslr->Some_0,
        o.build_settings.aslr is None ==> layered(b, o).settings.aslr == b.settings.aslr,
        o.build_settings.no_rtti is Some ==> layered(b, o).settings.no_rtti == o.build_settings.no_rtti->Some_0,
        o.build_settings.no_rtti is None ==> layered(b, o).settings.no_rtti == b.settings.no_rtti,
        o.build_settings.no_except is Some ==> layered(b, o).settings.no_except == o.build_settings.no_except->Some_0,
        o.build_settings.no_except is None ==> layered(b, o).settings.no_except == b.settings.no_except,
        o.build_settings.pthreads is Some ==> layered(b, o).settings.pthreads == o.build_settings.pthreads->Some_0,
        o.build_settings.pthreads is None ==> layered(b, o).settings.pthreads == b.settings.pthreads,
{
}

/// The sanitizers a section switches on or off replace the profile's; those it
/// leaves out keep the profile's values.
pub proof fn law_layer_sanitizers(b: BuildProfileView, o: raw::BuildProfileView)
    ensures
        o.build_settings.sanitize.address is Some ==> layered(b, o).settings.asan == o.build_settings.sanitize.address->Some_0,
        o.build_settings.sanitize.address is None ==> layered(b, o).settings.asan == b.settings.asan,
        o.build_settings.sanitize.thread is Some ==> layered(b, o).settings.tsan == o.build_settings.sanitize.thread->Some_0,
        o.build_settings.sanitize.thread is None ==> layered(b, o).settings.tsan == b.settings.tsan,
        o.build_settings.sanitize.leak is Some ==> layered(b, o).settings.lsan == o.build_settings.sanitize.leak->Some_0,
        o.build_settings.sanitize.leak is None ==> layered(b, o).settings.lsan == b.settings.lsan,
        o.build_settings.sanitize.undefined is Some ==> layered(b, o).settings.ubsan == o.build_settings.sanitize.undefined->Some_0,
        o.build_settings.sanitize.undefined is None ==> layered(b, o).settings.ubsan == b.settings.ubsan,
{
}

/// The release profile is the debug profile with release optimisation: they differ only
/// in the profile they rest on, the defines, the optimisation level, link time
/// optimisation, debug information and the runtime.
pub proof fn law_release_from_debug()
    ensures
        release_profile().include_dirs == debug_profile().include_dirs,
        release_profile().pch == debug_profile().pch,
        release_profile().compiler_options == debug_profile().compiler_options,
        release_profile().linker_options == debug_profile().linker_options,
        release_profile().settings == (BuildSettings {
            opt_level: 3,
            opt_linktime: true,
            debug_info: false,
            runtime: Runtime::DynamicRelease,
            ..debug_profile().settings
        }),
{
}

fn debug_settings_exec() -> (res: BuildSettings)
    ensures
        res == debug_settings(),
{
    BuildSettings {
        opt_level: 0,
        opt_size: false,
        opt_speed: false,
        opt_linktime: false,
        iso_compliant: false,
        warn_level: WarnLevel::Basic,
        warn_as_error: false,
        debug_info: true,
        runtime: Runtime::DynamicDebug,
        aslr: true,
        no_rtti: false,
        no_except: false,
        pthreads: false,
        asan: false,
        tsan: false,
        lsan: false,
        ubsan: false,
    }
}

fn take_or<T: Copy>(o: Option<T>, d: T) -> (res: T)
    ensures
        res == pick(o, d),
{
    match o {
        Some(v) => v,
        None => d,
    }
}

fn layer_settings(s: BuildSettings, o: raw::BuildSettings) -> (res: BuildSettings)
    ensures
        res == layered_settings(s, o),
{
    BuildSettings {
        opt_level: take_or(o.opt_level, s.opt_level),
        opt_size: take_or(o.opt_size, s.opt_size),
        opt_speed: take_or(o.opt_speed, s.opt_speed),
        opt_linktime: take_or(o.opt_linktime, s.opt_linktime),
        iso_compliant: take_or(o.iso_compliant, s.iso_compliant),
        warn_level: take_or(o.warn_level, s.warn_level),
        warn_as_error: take_or(o.warn_as_error, s.warn_as_error),
        debug_info: take_or(o.debug_info, s.debug_info),
        runtime: take_or(o.runtime, s.runtime),
        aslr: take_or(o.aslr, s.aslr),
        no_rtti: take_or(o.no_rtti, s.no_rtti),
        no_except: take_or(o.no_except, s.no_except),
        pthreads: take_or(o.pthreads, s.pthreads),
        asan: take_or(o.sanitize.address, s.asan),
        tsan: take_or(o.sanitize.thread, s.tsan),
        lsan: take_or(o.sanitize.leak, s.lsan),
        ubsan: take_or(o.sanitize.undefined, s.ubsan),
    }
}

impl BuildProfile {
    pub fn default_debug() -> (res: BuildProfile)
        ensures
            res@ == debug_profile(),
    {
        let res = BuildProfile {
            baseprof: Profile::Debug,
            defines: one_string("VANGO_DEBUG"),
            include_dirs: one_string("src"),
            pch: None,
            settings: debug_settings_exec(),
            compiler_options: Vec::new(),
            linker_options: Vec::new(),
        };
        assert(res@.compiler_options =~= Seq::<Seq<char>>::empty());
        assert(res@.linker_options =~= Seq::<Seq<char>>::empty());
        res
    }

    pub fn default_release() -> (res: BuildProfile)
        ensures
            res@ == release_profile(),
    {
        let mut base = BuildProfile::default_debug();
        base.baseprof = Profile::Release;
        base.defines = one_string("VANGO_RELEASE");
        base.settings.opt_level = 3;
        base.settings.opt_linktime = true;
        base.settings.debug_info = false;
        base.settings.runtime = Runtime::DynamicRelease;
        base
    }

    pub fn default_test() -> (res: BuildProfile)
        ensures
            res@ == test_profile(),
    {
        let mut base = BuildProfile::default_debug();
        let ghost d0 = base.defines@;
        base.defines.push(owned("VANGO_TEST"));
        assert(strs(base.defines@) =~= strs(d0).push("VANGO_TEST"@));
        assert(base@.defines =~= seq!["VANGO_DEBUG"@, "VANGO_TEST"@]);
        base
    }

    /// Lays a profile section over this profile.
    pub fn layer(self, other: raw::BuildProfile) -> (res: BuildProfile)
        ensures
            res@ == layered(self@, other@),
    {
        let mut me = self;
        let mut other = other;
        match &other.inherits {
            Some(base) => {
                if str_eq(base.as_str(), "debug") {
                    me.baseprof = Profile::Debug;
                } else {
                    me.baseprof = Profile::Release;
                }
            },
            None => {},
        }
        append_strings(&mut me.defines, &mut other.defines);
        append_strings(&mut me.include_dirs, &mut other.include_dirs);
        me.pch = other.pch;
        me.settings = layer_settings(me.settings, other.build_settings);
        append_strings(&mut me.compiler_options, &mut other.compiler_options);
        append_strings(&mut me.linker_options, &mut other.linker_options);
        me
    }
}

} // verus!
