//! The order of standards: C++ after C, and within a language by number.
use vstd::prelude::*;
use core::cmp::Ordering;
use vstd::std_specs::cmp::PartialOrdSpecImpl;
use crate::repr::Lang;

verus! {

/// `a` is no later a standard than `b`.
pub open spec fn lang_le(a: Lang, b: Lang) -> bool {
    match (a, b) {
        (Lang::Cpp(x), Lang::Cpp(y)) => x <= y,
        (Lang::C(x), Lang::C(y)) => x <= y,
        (Lang::C(_), Lang::Cpp(_)) => true,
        (Lang::Cpp(_), Lang::C(_)) => false,
    }
}

pub open spec fn lang_order(a: Lang, b: Lang) -> Ordering {
    if a == b {
        Ordering::Equal
    } else if lang_le(a, b) {
        Ordering::Less
    } else {
        Ordering::Greater
    }
}

pub fn compare_langs(a: Lang, b: Lang) -> (r: Ordering)
    ensures
        r == lang_order(a, b),
{
    match (a, b) {
        (Lang::Cpp(x), Lang::Cpp(y)) | (Lang::C(x), Lang::C(y)) => {
            if x == y {
                Ordering::Equal
            } else if x < y {
                Ordering::Less
            } else {
                Ordering::Greater
            }
        },
        (Lang::Cpp(_), Lang::C(_)) => Ordering::Greater,
        (Lang::C(_), Lang::Cpp(_)) => Ordering::Less,
    }
}

impl PartialOrd for Lang {
    fn partial_cmp(&self, other: &Lang) -> (r: Option<Ordering>) {
        Some(compare_langs(*self, *other))
    }
}

impl PartialOrdSpecImpl for Lang {
    open spec fn obeys_partial_cmp_spec() -> bool {
        true
    }

    open spec fn partial_cmp_spec(&self, other: &Lang) -> Option<Ordering> {
        Some(lang_order(*self, *other))
    }
}


/// The order of standards is total, reflexive, antisymmetric and transitive.
pub proof fn law_lang_total_order(a: Lang, b: Lang, c: Lang)
    ensures
        lang_le(a, a),
        lang_le(a, b) || lang_le(b, a),
        lang_le(a, b) && lang_le(b, a) ==> a == b,
        lang_le(a, b) && lang_le(b, c) ==> lang_le(a, c),
{
}

} // verus!
