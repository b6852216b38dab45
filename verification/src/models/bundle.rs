use vstd::prelude::*;

use crate::text::{
    ascii_lowercase, is_ascii_text, lemma_ascii_lowercase_fixed, str_eq, to_lowercase,
    unicode_lowercase,
};

verus! {

/// A purchased bundle. Dates are Unix timestamps in seconds (UTC).
#[derive(Debug, Clone)]
pub struct Bundle {
    pub machine_name: String,
    pub human_name: String,
    pub product_machine_name: String,
    pub purchased_at: i64,
    /// The fraction of a second of the purchase time, in nanoseconds
    pub purchased_nanos: u32,
    pub bundle_type: BundleType,
    pub cached_at: i64,
}

/// The kind of a bundle, from the order's product category.
#[derive(Debug, Clone, Copy, PartialEq, Eq, Structural)]
pub enum BundleType {
    Classic,
    Monthly,
    Choice,
    Book,
    Software,
    Unknown,
}

/// The bundle type that a lowercased category names.
pub open spec fn bundle_type_from_lower(s: Seq<char>) -> BundleType {
    if s == "classic"@ {
        BundleType::Classic
    } else if s == "monthly"@ || s == "humble_monthly"@ {
        BundleType::Monthly
    } else if s == "choice"@ || s == "humble_choice"@ {
        BundleType::Choice
    } else if s == "book"@ || s == "books"@ {
        BundleType::Book
    } else if s == "software"@ {
        BundleType::Software
    } else {
        BundleType::Unknown
    }
}

pub open spec fn bundle_type_text(b: BundleType) -> Seq<char> {
    match b {
        BundleType::Classic => "classic"@,
        BundleType::Monthly => "monthly"@,
        BundleType::Choice => "choice"@,
        BundleType::Book => "book"@,
        BundleType::Software => "software"@,
        BundleType::Unknown => "unknown"@,
    }
}

impl BundleType {
    /// Parses a product category, ignoring case (Unicode lowercase of `s`, then
    /// [`BundleType::from_lowercase`]).
    pub fn from_str(s: &str) -> (r: BundleType)
        ensures
            r == bundle_type_from_lower(unicode_lowercase(s@)),
            is_ascii_text(s@) ==> r == bundle_type_from_lower(ascii_lowercase(s@)),
    {
        let lower = to_lowercase(s);
        BundleType::from_lowercase(lower.as_str())
    }

    /// The bundle type a lowercased category names; anything else is `Unknown`.
    pub fn from_lowercase(s: &str) -> (r: BundleType)
        ensures
            r == bundle_type_from_lower(s@),
    {
        if str_eq(s, "classic") {
            BundleType::Classic
        } else if str_eq(s, "monthly") || str_eq(s, "humble_monthly") {
            BundleType::Monthly
        } else if str_eq(s, "choice") || str_eq(s, "humble_choice") {
            BundleType::Choice
        } else if str_eq(s, "book") || str_eq(s, "books") {
            BundleType::Book
        } else if str_eq(s, "software") {
            BundleType::Software
        } else {
            BundleType::Unknown
        }
    }

    pub fn as_str(&self) -> (r: &'static str)
        ensures
            r@ == bundle_type_text(*self),
    {
        match self {
            BundleType::Classic => "classic",
            BundleType::Monthly => "monthly",
            BundleType::Choice => "choice",
            BundleType::Book => "book",
            BundleType::Software => "software",
            BundleType::Unknown => "unknown",
        }
    }
}

/// The stored (lowercase) form of a bundle type reads back as the same type.
pub proof fn law_bundle_type_round_trip(b: BundleType)
    ensures
        bundle_type_from_lower(bundle_type_text(b)) == b,
{
    reveal_strlit("classic");
    reveal_strlit("monthly");
    reveal_strlit("humble_monthly");
    reveal_strlit("choice");
    reveal_strlit("humble_choice");
    reveal_strlit("book");
    reveal_strlit("books");
    reveal_strlit("software");
    reveal_strlit("unknown");
    match b {
        BundleType::Classic => {},
        BundleType::Monthly => {
            assert("monthly"@[0] != "classic"@[0]);
        },
        BundleType::Choice => {
            assert("choice"@[1] != "classic"@[1]);
            assert("choice"@.len() != "monthly"@.len());
            assert("choice"@.len() != "humble_monthly"@.len());
        },
        BundleType::Book => {
            assert("book"@.len() != "classic"@.len());
            assert("book"@.len() != "monthly"@.len());
            assert("book"@.len() != "humble_monthly"@.len());
            assert("book"@.len() != "choice"@.len());
            assert("book"@.len() != "humble_choice"@.len());
        },
        BundleType::Software => {
            assert("software"@.len() != "classic"@.len());
            assert("software"@.len() != "monthly"@.len());
            assert("software"@.len() != "humble_monthly"@.len());
            assert("software"@.len() != "choice"@.len());
            assert("software"@.len() != "humble_choice"@.len());
            assert("software"@.len() != "book"@.len());
            assert("software"@.len() != "books"@.len());
        },
        BundleType::Unknown => {
            assert("unknown"@[0] != "classic"@[0]);
            assert("unknown"@[0] != "monthly"@[0]);
            assert("unknown"@.len() != "humble_monthly"@.len());
            assert("unknown"@[0] != "choice"@[0]);
            assert("unknown"@.len() != "humble_choice"@.len());
            assert("unknown"@.len() != "book"@.len());
            assert("unknown"@.len() != "books"@.len());
            assert("unknown"@.len() != "software"@.len());
        },
    }
}

/// Parsing a bundle type's name gives the same type back, whatever the case
/// of its ASCII letters: the names are ASCII, and their lowercase form reads
/// back as the type.
pub proof fn law_bundle_type_name_round_trip(b: BundleType)
    ensures
        is_ascii_text(bundle_type_text(b)),
        bundle_type_from_lower(ascii_lowercase(bundle_type_text(b))) == b,
{
    reveal_strlit("classic");
    reveal_strlit("monthly");
    reveal_strlit("choice");
    reveal_strlit("book");
    reveal_strlit("software");
    reveal_strlit("unknown");
    let t = bundle_type_text(b);
    assert(forall|i: int| 0 <= i < t.len() ==> !(65 <= (#[trigger] t[i] as int) <= 90));
    lemma_ascii_lowercase_fixed(t);
    law_bundle_type_round_trip(b);
}

} // verus!
