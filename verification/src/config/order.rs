//! The order of language standards: every C++ standard comes after every C standard,
//! and within one language later standards come later.
use vstd::prelude::*;
use core::cmp::Ordering;
use vstd::std_specs::cmp::PartialOrdSpecImpl;
use crate::config::elems::Language;

verus! {

/// `a` is no later a standard than `b`.
pub open spec fn language_le(a: Language, b: Language) -> bool {
    match (a, b) {
        (Language::Cpp(x), Language::Cpp(y)) => x <= y,
        (Language::C(x), Language::C(y)) => x <= y,
        (Language::C(_), Language::Cpp(_)) => true,
        (Language::Cpp(_), Language::C(_)) => false,
    }
}

pub open spec fn language_order(a: Language, b: Language) -> Ordering {
    if a == b {
        Ordering::Equal
    } else if language_le(a, b) {
        Ordering::Less
    } else {
        Ordering::Greater
    }
}

/// Compares two standards.
pub fn compare_languages(a: Language, b: Language) -> (r: Ordering)
    ensures
        r == language_order(a, b),
{
    match (a, b) {
        (Language::Cpp(x), Language::Cpp(y)) | (Language::C(x), Language::C(y)) => {
            if x == y {
                Ordering::Equal
            } else if x < y {
                Ordering::Less
            } else {
                Ordering::Greater
            }
        },
        (Language::Cpp(_), Language::C(_)) => Ordering::Greater,
        (Language::C(_), Language::Cpp(_)) => Ordering::Less,
    }
}

impl PartialOrd for Language {
    fn partial_cmp(&self, other: &Language) -> (r: Option<Ordering>) {
        Some(compare_languages(*self, *other))
    }
}

impl PartialOrdSpecImpl for Language {
    open spec fn obeys_partial_cmp_spec() -> bool {
        true
    }

    open spec fn partial_cmp_spec(&self, other: &Language) -> Option<Ordering> {
        Some(language_order(*self, *other))
    }
}

/// The order of standards is total, reflexive, antisymmetric and transitive.
pub proof fn law_language_total_order(a: Language, b: Language, c: Language)
    ensures
        language_le(a, a),
        language_le(a, b) || language_le(b, a),
        language_le(a, b) && language_le(b, a) ==> a == b,
        language_le(a, b) && language_le(b, c) ==> language_le(a, c),
{
}

/// `a < b`, `a > b` and `a == b` exclude each other, and one of them holds.
pub proof fn law_language_order_trichotomy(a: Language, b: Language)
    ensures
        language_order(a, b) == Ordering::Equal <==> a == b,
        language_order(a, b) == Ordering::Less <==> language_order(b, a) == Ordering::Greater,
{
}

} // verus!
