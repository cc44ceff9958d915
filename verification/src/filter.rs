//! The quality and safety filter: a document is refused on its metadata alone.

use crate::text::views;
use vstd::prelude::*;

verus! {

/// What a corpus record says about the quality of its document.
#[derive(Debug, Clone, PartialEq, Eq)]
pub struct Metadata {
    /// Quality warnings; a document that carries the marker at all is refused.
    pub quality_warnings: Option<Vec<String>>,
    /// Content categories found for the document.
    pub categories: Option<Vec<String>>,
    /// Harmfulness score, as a fixed-point number in the unit of the band.
    pub harmful_pp: Option<i64>,
}

/// The accepted scores: a closed interval.
#[derive(Debug, Clone, Copy, PartialEq, Eq, Structural)]
pub struct QualityBand {
    pub floor: i64,
    pub ceiling: i64,
}

/// The configuration of the filter.
#[derive(Debug, Clone, PartialEq, Eq)]
pub struct FilterPolicy {
    /// Categories that refuse a document.
    pub blocklist: Vec<String>,
    /// Accepted harmfulness scores.
    pub band: QualityBand,
}

/// Metadata as plain values.
pub ghost struct MetadataView {
    pub quality_warnings: Option<Seq<Seq<char>>>,
    pub categories: Option<Seq<Seq<char>>>,
    pub harmful_pp: Option<int>,
}

/// A filter configuration as plain values.
pub ghost struct FilterPolicyView {
    pub blocklist: Seq<Seq<char>>,
    pub band: QualityBand,
}

/// The views of an optional list of strings.
pub open spec fn opt_views(o: Option<Vec<String>>) -> Option<Seq<Seq<char>>> {
    match o {
        Some(v) => Some(views(v@)),
        None => None,
    }
}

impl View for Metadata {
    type V = MetadataView;

    open spec fn view(&self) -> MetadataView {
        MetadataView {
            quality_warnings: opt_views(self.quality_warnings),
            categories: opt_views(self.categories),
            harmful_pp: match self.harmful_pp {
                Some(score) => Some(score as int),
                None => None,
            },
        }
    }
}

impl View for FilterPolicy {
    type V = FilterPolicyView;

    open spec fn view(&self) -> FilterPolicyView {
        FilterPolicyView { blocklist: views(self.blocklist@), band: self.band }
    }
}

/// Some category of the document is on the blocklist.
pub open spec fn intersects(categories: Seq<Seq<char>>, blocklist: Seq<Seq<char>>) -> bool {
    exists|i: int, j: int|
        0 <= i < categories.len() && 0 <= j < blocklist.len() && categories[i] == blocklist[j]
}

/// The score lies below the floor or above the ceiling of the band.
pub open spec fn outside_band(score: int, band: QualityBand) -> bool {
    score < band.floor || score > band.ceiling
}

/// The filter refuses a document when any of its three rules matches: a
/// quality-warning marker is present, a category is blocked, or a score is
/// present and outside the band.
pub open spec fn refused(policy: FilterPolicyView, meta: MetadataView) -> bool {
    ||| meta.quality_warnings is Some
    ||| (meta.categories matches Some(categories) && intersects(categories, policy.blocklist))
    ||| (meta.harmful_pp matches Some(score) && outside_band(score, policy.band))
}

/// The categories of abusive, adult, illegal and security-harmful content.
pub open spec fn standard_blocklist() -> Seq<Seq<char>> {
    seq![
        "aggressive"@,
        "adult"@,
        "cryptojacking"@,
        "dangerous_material"@,
        "phishing"@,
        "porn"@,
        "warez"@,
        "ddos"@,
        "hacking"@,
        "malware"@,
        "mixed_adult"@,
        "sect"@,
    ]
}

/// Lowest accepted harmfulness score, in thousandths.
pub const SCORE_FLOOR: i64 = 25_000;

/// Highest accepted harmfulness score, in thousandths.
pub const SCORE_CEILING: i64 = 100_000_000;

/// Whether `needle` is one of `list`.
pub fn is_listed(list: &Vec<String>, needle: &String) -> (found: bool)
    ensures
        found <==> exists|j: int| 0 <= j < list.len() && list@[j]@ == needle@,
{
    let mut j: usize = 0;
    while j < list.len()
        invariant
            j <= list.len(),
            forall|k: int| 0 <= k < j ==> list@[k]@ != needle@,
        decreases list.len() - j,
    {
        if list[j] == *needle {
            return true;
        }
        j += 1;
    }
    false
}

/// Whether some category is on the blocklist.
pub fn any_blocked(categories: &Vec<String>, blocklist: &Vec<String>) -> (found: bool)
    ensures
        found == intersects(views(categories@), views(blocklist@)),
{
    let mut i: usize = 0;
    while i < categories.len()
        invariant
            i <= categories.len(),
            forall|a: int, b: int|
                0 <= a < i && 0 <= b < blocklist.len() ==> views(categories@)[a] != views(
                    blocklist@,
                )[b],
        decreases categories.len() - i,
    {
        if is_listed(blocklist, &categories[i]) {
            let ghost j = choose|j: int| 0 <= j < blocklist.len() && blocklist@[j]@ == categories@[i as int]@;
            assert(views(categories@)[i as int] == views(blocklist@)[j]);
            return true;
        }
        assert forall|b: int| 0 <= b < blocklist.len() implies views(categories@)[i as int]
            != views(blocklist@)[b] by {
            assert(blocklist@[b]@ != categories@[i as int]@);
        }
        i += 1;
    }
    false
}

impl QualityBand {
    /// Whether a score lies outside the band.
    pub fn excludes(&self, score: i64) -> (out: bool)
        ensures
            out == outside_band(score as int, *self),
    {
        score < self.floor || score > self.ceiling
    }
}

impl Metadata {
    /// Metadata that says nothing: no filter refuses it.
    pub fn none() -> (meta: Metadata)
        ensures
            meta.quality_warnings is None,
            meta.categories is None,
            meta.harmful_pp is None,
            forall|policy: FilterPolicyView| !refused(policy, meta@),
    {
        Metadata { quality_warnings: None, categories: None, harmful_pp: None }
    }
}

impl FilterPolicy {
    /// The policy with the standard blocklist and the band from 25 to 100000.
    pub fn standard() -> (policy: FilterPolicy)
        ensures
            policy@.blocklist == standard_blocklist(),
            policy.band == (QualityBand { floor: SCORE_FLOOR, ceiling: SCORE_CEILING }),
    {
        let mut blocklist: Vec<String> = Vec::new();
        blocklist.push("aggressive".to_owned());
        blocklist.push("adult".to_owned());
        blocklist.push("cryptojacking".to_owned());
        blocklist.push("dangerous_material".to_owned());
        blocklist.push("phishing".to_owned());
        blocklist.push("porn".to_owned());
        blocklist.push("warez".to_owned());
        blocklist.push("ddos".to_owned());
        blocklist.push("hacking".to_owned());
        blocklist.push("malware".to_owned());
        blocklist.push("mixed_adult".to_owned());
        blocklist.push("sect".to_owned());
        assert(views(blocklist@) =~= standard_blocklist());
        FilterPolicy { blocklist, band: QualityBand { floor: SCORE_FLOOR, ceiling: SCORE_CEILING } }
    }

    /// A copy of the policy.
    pub fn duplicate(&self) -> (policy: FilterPolicy)
        ensures
            policy@ == self@,
    {
        let mut blocklist: Vec<String> = Vec::new();
        let mut i: usize = 0;
        assert(views(blocklist@) =~= views(self.blocklist@).take(0));
        while i < self.blocklist.len()
            invariant
                i <= self.blocklist.len(),
                views(blocklist@) == views(self.blocklist@).take(i as int),
            decreases self.blocklist.len() - i,
        {
            let entry = self.blocklist[i].clone();
            let ghost before = views(blocklist@);
            blocklist.push(entry);
            assert(views(blocklist@) =~= before.push(entry@));
            assert(views(self.blocklist@).take(i + 1) =~= views(self.blocklist@).take(
                i as int,
            ).push(self.blocklist@[i as int]@));
            i += 1;
        }
        assert(views(blocklist@) =~= views(self.blocklist@));
        FilterPolicy { blocklist, band: self.band }
    }

    /// Decides whether the filter refuses a document with this metadata.
    ///
    /// A document with a blocked category is refused whatever else holds of it.
    pub fn rejects(&self, meta: &Metadata) -> (out: bool)
        ensures
            out == refused(self@, meta@),
            meta@.categories matches Some(categories) && intersects(categories, self@.blocklist)
                ==> out,
    {
        if meta.quality_warnings.is_some() {
            return true;
        }
        let blocked = match &meta.categories {
            Some(categories) => any_blocked(categories, &self.blocklist),
            None => false,
        };
        if blocked {
            return true;
        }
        match meta.harmful_pp {
            Some(score) => self.band.excludes(score),
            None => false,
        }
    }
}

} // verus!
