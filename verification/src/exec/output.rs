//! Reading what the tools print: which lines are errors, which warnings, which to pass
//! on as they are, and which to drop.
use vstd::prelude::*;
use crate::config::Platform;
use crate::exec::toolchain::{llvm_based, msvc_compatible};
use crate::exec::Toolchain;
use crate::text::{contains_str, find, has_infix, has_prefix, owned, starts_with, str_eq, strs};

verus! {

/// How a line of a tool's output is reported.
#[derive(Debug, Clone, Copy, PartialEq, Eq, Structural)]
pub enum Level {
    Error,
    Warn,
    Plain,
}

pub open spec fn report_view(v: Seq<(Level, String)>) -> Seq<(Level, Seq<char>)> {
    v.map_values(|p: (Level, String)| (p.0, p.1@))
}

fn report(v: &mut Vec<(Level, String)>, level: Level, line: String)
    ensures
        report_view(final(v)@) == report_view(old(v)@).push((level, line@)),
{
    let ghost before = v@;
    let ghost l = line@;
    v.push((level, line));
    assert(report_view(v@) =~= report_view(before).push((level, l)));
}

/// Headers of the system, whose mention is not worth showing.
pub open spec fn sys_include(path: Seq<char>, host: Platform) -> bool {
    if host == Platform::Windows {
        has_prefix(path, "C:/msys64"@)
    } else {
        has_prefix(path, "/usr/include"@) || has_prefix(path, "/usr/lib"@)
    }
}

pub fn is_sys_include(path: &str, host: Platform) -> (res: bool)
    ensures
        res == sys_include(path@, host),
{
    if host == Platform::Windows {
        starts_with(path, "C:/msys64")
    } else {
        starts_with(path, "/usr/include") || starts_with(path, "/usr/lib")
    }
}

/// What a GNU-style compiler printed on its error stream, read line by line: function
/// headers are dropped, included headers (lines starting with a dot) are not shown, a
/// line starting with "! " hides the next one, errors and warnings are reported as
/// such, and the advice on include guards is dropped up to the next error or warning.
pub open spec fn gnu_compiler_report(lines: Seq<Seq<char>>, skip_once: bool, skip_until: bool, host: Platform) -> Seq<(Level, Seq<char>)>
    decreases lines.len(),
{
    if lines.len() == 0 {
        Seq::empty()
    } else {
        let l = lines[0];
        let rest = lines.drop_first();
        if has_infix(l, "In function"@) {
            gnu_compiler_report(rest, skip_once, skip_until, host)
        } else if has_prefix(l, "."@) {
            gnu_compiler_report(rest, false, skip_until, host)
        } else if has_prefix(l, "! "@) {
            gnu_compiler_report(rest, true, skip_until, host)
        } else if has_infix(l, ": error: "@) || has_infix(l, ": fatal error: "@) {
            seq![(Level::Error, l)] + gnu_compiler_report(rest, false, false, host)
        } else if has_infix(l, " warning: "@) {
            seq![(Level::Warn, l)] + gnu_compiler_report(rest, false, false, host)
        } else if l == "Multiple include guards may be useful for:"@ {
            gnu_compiler_report(rest, false, true, host)
        } else if !sys_include(l, host) && !skip_once && !skip_until {
            seq![(Level::Plain, l)] + gnu_compiler_report(rest, false, skip_until, host)
        } else {
            gnu_compiler_report(rest, false, skip_until, host)
        }
    }
}

/// A line the GNU-style reading reports at `level` whatever came before it: not a
/// function header, not an included header, not a line that hides the next one, and
/// naming an error (for `Error`) or a warning but no error (for `Warn`).
pub open spec fn always_reported(l: Seq<char>, level: Level) -> bool {
    &&& !has_infix(l, "In function"@)
    &&& !has_prefix(l, "."@)
    &&& !has_prefix(l, "! "@)
    &&& match level {
        Level::Error => has_infix(l, ": error: "@) || has_infix(l, ": fatal error: "@),
        Level::Warn => !(has_infix(l, ": error: "@) || has_infix(l, ": fatal error: "@))
            && has_infix(l, " warning: "@),
        Level::Plain => false,
    }
}

proof fn lemma_contains_after(prefix: Seq<(Level, Seq<char>)>, r: Seq<(Level, Seq<char>)>, x: (Level, Seq<char>))
    requires
        r.contains(x),
    ensures
        (prefix + r).contains(x),
{
    let k = choose|k: int| 0 <= k < r.len() && r[k] == x;
    assert((prefix + r)[prefix.len() + k] == x);
}

/// A compiler's errors and warnings are never hidden: each line that names one is
/// reported at its level, whatever the lines before it were.
pub proof fn law_gnu_errors_and_warnings_shown(lines: Seq<Seq<char>>, skip_once: bool, skip_until: bool, host: Platform, i: int, level: Level)
    requires
        0 <= i < lines.len(),
        always_reported(lines[i], level),
    ensures
        gnu_compiler_report(lines, skip_once, skip_until, host).contains((level, lines[i])),
    decreases lines.len(),
{
    let l = lines[0];
    let rest = lines.drop_first();
    if i == 0 {
        let r = gnu_compiler_report(lines, skip_once, skip_until, host);
        assert(r[0] == (level, l));
    } else {
        assert(rest[i - 1] == lines[i]);
        law_gnu_errors_and_warnings_shown(rest, false, false, host, i - 1, level);
        law_gnu_errors_and_warnings_shown(rest, true, false, host, i - 1, level);
        law_gnu_errors_and_warnings_shown(rest, false, true, host, i - 1, level);
        law_gnu_errors_and_warnings_shown(rest, true, true, host, i - 1, level);
        let r0 = gnu_compiler_report(rest, false, false, host);
        let r1 = gnu_compiler_report(rest, false, skip_until, host);
        lemma_contains_after(seq![(Level::Error, l)], r0, (level, lines[i]));
        lemma_contains_after(seq![(Level::Warn, l)], r0, (level, lines[i]));
        lemma_contains_after(seq![(Level::Plain, l)], r1, (level, lines[i]));
    }
}

pub fn gnu_compiler(lines: &Vec<String>, host: Platform) -> (res: Vec<(Level, String)>)
    ensures
        report_view(res@) == gnu_compiler_report(strs(lines@), false, false, host),
{
    let ghost all = strs(lines@);
    let mut out: Vec<(Level, String)> = Vec::new();
    let mut skip_once = false;
    let mut skip_until = false;
    let mut k: usize = 0;
    assert(all.skip(0) =~= all);
    assert(report_view(out@) =~= Seq::<(Level, Seq<char>)>::empty());
    while k < lines.len()
        invariant
            all == strs(lines@),
            k <= lines@.len(),
            gnu_compiler_report(all, false, false, host) == report_view(out@)
                + gnu_compiler_report(all.skip(k as int), skip_once, skip_until, host),
        decreases lines@.len() - k,
    {
        let l = lines[k].as_str();
        let ghost rest = all.skip(k as int);
        assert(rest[0] == l@);
        assert(rest.drop_first() =~= all.skip(k + 1));
        let ghost before = report_view(out@);
        if contains_str(l, "In function") {
        } else if starts_with(l, ".") {
            skip_once = false;
        } else if starts_with(l, "! ") {
            skip_once = true;
        } else if contains_str(l, ": error: ") || contains_str(l, ": fatal error: ") {
            skip_until = false;
            skip_once = false;
            report(&mut out, Level::Error, owned(l));
            assert(before + gnu_compiler_report(rest, false, false, host) =~= report_view(out@)
                + gnu_compiler_report(all.skip(k + 1), false, false, host));
        } else if contains_str(l, " warning: ") {
            skip_until = false;
            skip_once = false;
            report(&mut out, Level::Warn, owned(l));
            assert(before + gnu_compiler_report(rest, false, false, host) =~= report_view(out@)
                + gnu_compiler_report(all.skip(k + 1), false, false, host));
        } else if str_eq(l, "Multiple include guards may be useful for:") {
            skip_until = true;
            skip_once = false;
        } else if !is_sys_include(l, host) && !skip_once && !skip_until {
            skip_once = false;
            report(&mut out, Level::Plain, owned(l));
            assert(before + gnu_compiler_report(rest, false, skip_until, host) =~= report_view(out@)
                + gnu_compiler_report(all.skip(k + 1), false, skip_until, host));
        } else {
            skip_once = false;
        }
        k = k + 1;
    }
    assert(all.skip(lines@.len() as int) =~= Seq::<Seq<char>>::empty());
    assert(report_view(out@) + Seq::<(Level, Seq<char>)>::empty() =~= report_view(out@));
    out
}

/// One line of a GNU-style linker's error stream: the driver's own summary lines are
/// dropped, and an `ld.exe` message is shown from the linker's name on.
pub open spec fn gnu_linker_line(l: Seq<char>) -> Option<(Level, Seq<char>)> {
    if has_prefix(l, "collect2.exe"@) || has_infix(l, "linker command failed with exit code 1"@) {
        None
    } else if has_infix(l, "ld.exe: "@) {
        Some((Level::Error, "ld.exe: "@ + l.skip(first_at(l, "ld.exe: "@) + "ld.exe: "@.len())))
    } else {
        Some((Level::Error, l))
    }
}

/// The first position at which `t` occurs in `s`.
pub open spec fn first_at(s: Seq<char>, t: Seq<char>) -> int {
    choose|i: int| occurs_first(s, t, i)
}

pub open spec fn occurs_first(s: Seq<char>, t: Seq<char>, i: int) -> bool {
    crate::text::occurs_at(s, t, i) && forall|j: int| 0 <= j < i ==> !crate::text::occurs_at(s, t, j)
}

proof fn lemma_first_unique(s: Seq<char>, t: Seq<char>, i: int)
    requires
        occurs_first(s, t, i),
    ensures
        first_at(s, t) == i,
{
    let k = first_at(s, t);
    assert(occurs_first(s, t, k));
    if k < i {
        assert(!crate::text::occurs_at(s, t, k));
    }
    if i < k {
        assert(!crate::text::occurs_at(s, t, i));
    }
}

pub fn gnu_linker(line: &str) -> (res: Option<(Level, String)>)
    ensures
        match gnu_linker_line(line@) {
            Some((lv, t)) => res matches Some((a, b)) && a == lv && b@ == t,
            None => res is None,
        },
{
    if starts_with(line, "collect2.exe") || contains_str(line, "linker command failed with exit code 1") {
        return None;
    }
    match find(line, "ld.exe: ") {
        Some(i) => {
            proof {
                lemma_first_unique(line@, "ld.exe: "@, i as int);
            }
            let v = crate::text::chars_of(line);
            let n = v.len();
            let k = "ld.exe: ".unicode_len();
            let after = crate::text::string_of(&v, i + k, n);
            assert(after@ =~= line@.skip(i + k));
            Some((Level::Error, crate::text::concat("ld.exe: ", after.as_str())))
        },
        None => Some((Level::Error, owned(line))),
    }
}

/// One line of an archiver's error stream: the first is the error, the rest follow as
/// they are.
pub fn gnu_archiver(index: usize, line: &str) -> (res: (Level, String))
    ensures
        res.0 == (if index == 0 { Level::Error } else { Level::Plain }),
        res.1@ == line@,
{
    (if index == 0 { Level::Error } else { Level::Plain }, owned(line))
}

/// A line of an MSVC-style compiler's error stream: warnings about options, else errors.
pub open spec fn msvc_compiler_err_line(l: Seq<char>) -> Level {
    if has_infix(l, " warning D"@) { Level::Warn } else { Level::Error }
}

/// A line of an MSVC-style compiler's output stream (after the first, which names the
/// source): included headers are dropped, errors and warnings reported as such.
pub open spec fn msvc_compiler_out_line(l: Seq<char>) -> Option<Level> {
    if has_prefix(l, "Note: including file:"@) {
        None
    } else if has_infix(l, ": error C"@) || has_infix(l, ": fatal error C"@) {
        Some(Level::Error)
    } else if has_infix(l, ": warning C"@) {
        Some(Level::Warn)
    } else {
        Some(Level::Plain)
    }
}

pub fn msvc_compiler_err(line: &str) -> (res: Level)
    ensures
        res == msvc_compiler_err_line(line@),
{
    if contains_str(line, " warning D") { Level::Warn } else { Level::Error }
}

pub fn msvc_compiler_out(line: &str) -> (res: Option<Level>)
    ensures
        res == msvc_compiler_out_line(line@),
{
    if starts_with(line, "Note: including file:") {
        None
    } else if contains_str(line, ": error C") || contains_str(line, ": fatal error C") {
        Some(Level::Error)
    } else if contains_str(line, ": warning C") {
        Some(Level::Warn)
    } else {
        Some(Level::Plain)
    }
}

/// A line of an MSVC linker's or librarian's output: errors and warnings reported, the
/// code generation progress dropped.
pub open spec fn msvc_link_line(l: Seq<char>) -> Option<Level> {
    if has_infix(l, " : error LNK"@) || has_infix(l, " : fatal error LNK"@) {
        Some(Level::Error)
    } else if has_infix(l, " : warning LNK"@) {
        Some(Level::Warn)
    } else if !has_infix(l, "enerating code"@) {
        Some(Level::Plain)
    } else {
        None
    }
}

/// A line of the LLVM linker's error stream.
pub open spec fn lld_line(l: Seq<char>) -> Level {
    if has_infix(l, "lld-link: error"@) {
        Level::Error
    } else if has_infix(l, "lld-link: warning:"@) {
        Level::Warn
    } else {
        Level::Plain
    }
}

pub fn msvc_linker(line: &str) -> (res: Option<Level>)
    ensures
        res == msvc_link_line(line@),
{
    if contains_str(line, " : error LNK") || contains_str(line, " : fatal error LNK") {
        Some(Level::Error)
    } else if contains_str(line, " : warning LNK") {
        Some(Level::Warn)
    } else if !contains_str(line, "enerating code") {
        Some(Level::Plain)
    } else {
        None
    }
}

pub fn lld_linker(line: &str) -> (res: Level)
    ensures
        res == lld_line(line@),
{
    if contains_str(line, "lld-link: error") {
        Level::Error
    } else if contains_str(line, "lld-link: warning:") {
        Level::Warn
    } else {
        Level::Plain
    }
}

/// How a tool's output is read: GNU-style on the error stream, MSVC-style (the output
/// stream, and for the compiler the error stream too), or as the LLVM linker prints on
/// its error stream.
#[derive(Debug, Clone, Copy, PartialEq, Eq, Structural)]
pub enum Style {
    Gnu,
    Msvc,
    Lld,
}

/// The compiler's output is read MSVC-style only for MSVC itself.
pub fn compiler_style(tc: Toolchain) -> (res: Style)
    ensures
        res == (if tc == Toolchain::Msvc { Style::Msvc } else { Style::Gnu }),
{
    match tc {
        Toolchain::Msvc => Style::Msvc,
        _ => Style::Gnu,
    }
}

/// The linker's and the archiver's output are read MSVC-style for MSVC-style
/// toolchains, as the LLVM linker prints for the LLVM one among them, else GNU-style.
pub fn linker_style(tc: Toolchain) -> (res: Style)
    ensures
        res == (if msvc_compatible(tc) {
            if llvm_based(tc) { Style::Lld } else { Style::Msvc }
        } else {
            Style::Gnu
        }),
{
    if tc.is_msvc_compatible() {
        if tc.is_llvm() {
            Style::Lld
        } else {
            Style::Msvc
        }
    } else {
        Style::Gnu
    }
}

} // verus!
