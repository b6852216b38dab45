use vstd::prelude::*;

use super::key::{Platform, PlatformView, RedeemStatus};
use crate::text::string_views;

verus! {

/// What the key list shows and in which order.
#[derive(Debug)]
pub struct FilterState {
    pub search_query: String,
    /// Empty = show all platforms. A set of platforms: the filter reads only
    /// whether a platform is in it, so a repeated entry changes nothing.
    pub platforms: Vec<Platform>,
    pub redeem_status: Option<RedeemStatus>,
    pub sort: SortOrder,
    pub show_expired: bool,
    pub source: SourceFilter,
    /// Empty = show all genres/tags. Non-empty = item must have at least one matching tag.
    /// Read as a set, like `platforms`.
    pub genre_filter: Vec<String>,
}

pub struct FilterStateView {
    pub search_query: Seq<char>,
    pub platforms: Seq<PlatformView>,
    pub redeem_status: Option<RedeemStatus>,
    pub sort: SortOrder,
    pub show_expired: bool,
    pub source: SourceFilter,
    pub genre_filter: Seq<Seq<char>>,
}

impl View for FilterState {
    type V = FilterStateView;

    open spec fn view(&self) -> FilterStateView {
        FilterStateView {
            search_query: self.search_query@,
            platforms: self.platforms@.map_values(|p: Platform| p@),
            redeem_status: self.redeem_status,
            sort: self.sort,
            show_expired: self.show_expired,
            source: self.source,
            genre_filter: string_views(self.genre_filter@),
        }
    }
}

impl Default for FilterState {
    fn default() -> (r: FilterState)
        ensures
            r.search_query@.len() == 0,
            r.platforms@.len() == 0,
            r.redeem_status is None,
            r.sort == SortOrder::PurchaseDateDesc,
            !r.show_expired,
            r.source == SourceFilter::All,
            r.genre_filter@.len() == 0,
    {
        FilterState {
            search_query: String::new(),
            platforms: Vec::new(),
            redeem_status: None,
            sort: SortOrder::PurchaseDateDesc,
            show_expired: false,
            source: SourceFilter::All,
            genre_filter: Vec::new(),
        }
    }
}

/// Which kinds of items the list shows.
#[derive(Debug, Clone, Copy, PartialEq, Eq, Structural)]
pub enum SourceFilter {
    /// Show both regular keys and Choice picks
    All,
    /// Regular bundle keys only
    Keys,
    /// Humble Choice picks only
    Choice,
}

impl Default for SourceFilter {
    fn default() -> (r: SourceFilter)
        ensures
            r == SourceFilter::All,
    {
        SourceFilter::All
    }
}

/// The order of the key list.
#[derive(Debug, Clone, Copy, PartialEq, Eq, Structural)]
pub enum SortOrder {
    PurchaseDateDesc,
    PurchaseDateAsc,
    NameAsc,
    NameDesc,
    BundleAsc,
    BundleDesc,
    ExpiryAsc,
    PlatformAsc,
    MetacriticDesc,
    UserRatingDesc,
}

impl Default for SortOrder {
    fn default() -> (r: SortOrder)
        ensures
            r == SortOrder::PurchaseDateDesc,
    {
        SortOrder::PurchaseDateDesc
    }
}

/// The position of each order in the cycle that `s` steps through.
pub open spec fn sort_position(o: SortOrder) -> int {
    match o {
        SortOrder::PurchaseDateDesc => 0,
        SortOrder::PurchaseDateAsc => 1,
        SortOrder::NameAsc => 2,
        SortOrder::NameDesc => 3,
        SortOrder::BundleAsc => 4,
        SortOrder::BundleDesc => 5,
        SortOrder::ExpiryAsc => 6,
        SortOrder::PlatformAsc => 7,
        SortOrder::MetacriticDesc => 8,
        SortOrder::UserRatingDesc => 9,
    }
}

/// The number of sort orders.
pub open spec fn sort_order_count() -> int {
    10
}

pub open spec fn sort_label(o: SortOrder) -> Seq<char> {
    match o {
        SortOrder::PurchaseDateDesc => "Purchase↓"@,
        SortOrder::PurchaseDateAsc => "Purchase↑"@,
        SortOrder::NameAsc => "Name A-Z"@,
        SortOrder::NameDesc => "Name Z-A"@,
        SortOrder::BundleAsc => "Bundle A-Z"@,
        SortOrder::BundleDesc => "Bundle Z-A"@,
        SortOrder::ExpiryAsc => "Expiry↑"@,
        SortOrder::PlatformAsc => "Platform"@,
        SortOrder::MetacriticDesc => "Metacritic↓"@,
        SortOrder::UserRatingDesc => "User%↓"@,
    }
}

impl SortOrder {
    /// Every sort order, in cycle order.
    pub fn all() -> (r: Vec<SortOrder>)
        ensures
            r@.len() == sort_order_count(),
            forall|i: int| 0 <= i < r@.len() ==> sort_position(#[trigger] r@[i]) == i,
    {
        vec![
            SortOrder::PurchaseDateDesc,
            SortOrder::PurchaseDateAsc,
            SortOrder::NameAsc,
            SortOrder::NameDesc,
            SortOrder::BundleAsc,
            SortOrder::BundleDesc,
            SortOrder::ExpiryAsc,
            SortOrder::PlatformAsc,
            SortOrder::MetacriticDesc,
            SortOrder::UserRatingDesc,
        ]
    }

    /// The next order in the cycle; the last one wraps to the first.
    pub fn next(&self) -> (r: SortOrder)
        ensures
            r == sort_step(*self),
            sort_position(r) == (sort_position(*self) + 1) % sort_order_count(),
    {
        match self {
            SortOrder::PurchaseDateDesc => SortOrder::PurchaseDateAsc,
            SortOrder::PurchaseDateAsc => SortOrder::NameAsc,
            SortOrder::NameAsc => SortOrder::NameDesc,
            SortOrder::NameDesc => SortOrder::BundleAsc,
            SortOrder::BundleAsc => SortOrder::BundleDesc,
            SortOrder::BundleDesc => SortOrder::ExpiryAsc,
            SortOrder::ExpiryAsc => SortOrder::PlatformAsc,
            SortOrder::PlatformAsc => SortOrder::MetacriticDesc,
            SortOrder::MetacriticDesc => SortOrder::UserRatingDesc,
            SortOrder::UserRatingDesc => SortOrder::PurchaseDateDesc,
        }
    }

    pub fn label(&self) -> (r: &'static str)
        ensures
            r@ == sort_label(*self),
    {
        match self {
            SortOrder::PurchaseDateDesc => "Purchase↓",
            SortOrder::PurchaseDateAsc => "Purchase↑",
            SortOrder::NameAsc => "Name A-Z",
            SortOrder::NameDesc => "Name Z-A",
            SortOrder::BundleAsc => "Bundle A-Z",
            SortOrder::BundleDesc => "Bundle Z-A",
            SortOrder::ExpiryAsc => "Expiry↑",
            SortOrder::PlatformAsc => "Platform",
            SortOrder::MetacriticDesc => "Metacritic↓",
            SortOrder::UserRatingDesc => "User%↓",
        }
    }
}

/// The order `n` steps after `o` in the cycle.
pub open spec fn sort_after(o: SortOrder, n: nat) -> SortOrder
    decreases n,
{
    if n == 0 {
        o
    } else {
        sort_step(sort_after(o, (n - 1) as nat))
    }
}

/// One step of the cycle, as `SortOrder::next` takes it.
pub open spec fn sort_step(o: SortOrder) -> SortOrder {
    match o {
        SortOrder::PurchaseDateDesc => SortOrder::PurchaseDateAsc,
        SortOrder::PurchaseDateAsc => SortOrder::NameAsc,
        SortOrder::NameAsc => SortOrder::NameDesc,
        SortOrder::NameDesc => SortOrder::BundleAsc,
        SortOrder::BundleAsc => SortOrder::BundleDesc,
        SortOrder::BundleDesc => SortOrder::ExpiryAsc,
        SortOrder::ExpiryAsc => SortOrder::PlatformAsc,
        SortOrder::PlatformAsc => SortOrder::MetacriticDesc,
        SortOrder::MetacriticDesc => SortOrder::UserRatingDesc,
        SortOrder::UserRatingDesc => SortOrder::PurchaseDateDesc,
    }
}

proof fn lemma_sort_after_position(o: SortOrder, n: nat)
    ensures
        sort_position(sort_after(o, n)) == (sort_position(o) + n) % sort_order_count(),
    decreases n,
{
    if n > 0 {
        lemma_sort_after_position(o, (n - 1) as nat);
    }
}

/// Pressing `s` cycles through every sort order: ten steps come back to the
/// start, and the orders visited on the way are all different.
pub proof fn law_sort_cycle(o: SortOrder)
    ensures
        sort_after(o, 10) == o,
        forall|i: nat, j: nat| i < j < 10 ==> sort_after(o, i) != sort_after(o, j),
{
    lemma_sort_after_position(o, 10);
    assert forall|i: nat, j: nat| i < j < 10 implies sort_after(o, i) != sort_after(o, j) by {
        lemma_sort_after_position(o, i);
        lemma_sort_after_position(o, j);
    }
}

} // verus!
