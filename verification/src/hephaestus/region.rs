//! First-class operational Region definitions for Hephaestus.
use vstd::prelude::*;

use crate::hephaestus::health::{lemma_domain_token_idempotent, domain_check_token, domain_token, domain_tokens, HephaestusDomainError};
use crate::text::{
    lemma_tokens_outcome_prefix_fault, lemma_tokens_outcome_step, string_views, tokens_outcome,
    view_result, CharClass, Duplicate, TextFault,
};
use vstd::string::{StrSliceExecFns, StringExecFns};

verus! {

/// Byte bound of a Region identifier.
pub const MAX_REGION_ID_BYTES: usize = 64;
/// Byte bound of a Site identifier.
pub const MAX_SITE_ID_BYTES: usize = 64;
/// Largest number of Sites in one Region.
pub const MAX_REGION_SITES: usize = 64;

/// Stable ReallyMe operational Region identifier.
///
/// A Region is an operator-defined grouping of one or more Sites that share
/// placement, networking, and service requirements.
#[derive(Clone, PartialEq, Eq, PartialOrd, Ord, Debug)]
pub struct HephaestusRegionId(String);

impl View for HephaestusRegionId {
    type V = Seq<char>;

    closed spec fn view(&self) -> Seq<char> {
        self.0@
    }
}

impl Duplicate for HephaestusRegionId {
    fn duplicate(&self) -> (r: Self) {
        HephaestusRegionId(self.0.clone())
    }
}

impl HephaestusRegionId {
    /// Constructs a validated operational Region identifier.
    pub fn new(value: &str) -> (r: Result<Self, HephaestusDomainError>)
        ensures
            view_result(r) == domain_token(value@, MAX_REGION_ID_BYTES as nat, CharClass::Identifier),
    {
        match domain_check_token(value, MAX_REGION_ID_BYTES, CharClass::Identifier) {
            Ok(text) => Ok(HephaestusRegionId(text)),
            Err(e) => Err(e),
        }
    }

    /// Returns the validated Region identifier text.
    pub fn as_str(&self) -> (r: &str)
        ensures
            r@ == self@,
    {
        self.0.as_str()
    }
}

/// Stable ReallyMe site or datacenter identifier.
#[derive(PartialEq, Eq, PartialOrd, Ord, Debug)]
pub struct HephaestusSiteId(String);

impl Clone for HephaestusSiteId {
    fn clone(&self) -> (r: Self)
        ensures
            r == *self,
    {
        proof {
            use_type_invariant(self);
        }
        HephaestusSiteId(self.0.clone())
    }
}

impl View for HephaestusSiteId {
    type V = Seq<char>;

    closed spec fn view(&self) -> Seq<char> {
        self.0@
    }
}

impl Duplicate for HephaestusSiteId {
    fn duplicate(&self) -> (r: Self) {
        self.clone()
    }
}

impl HephaestusSiteId {
    /// The text is a valid token: trimmed, bounded and of allowed
    /// characters.
    #[verifier::type_invariant]
    pub open spec fn valid(&self) -> bool {
        domain_token(self@, MAX_SITE_ID_BYTES as nat, CharClass::Identifier) == Ok::<Seq<char>, HephaestusDomainError>(self@)
    }

    /// Constructs a validated site identifier.
    pub fn new(value: &str) -> (r: Result<Self, HephaestusDomainError>)
        ensures
            view_result(r) == domain_token(value@, MAX_SITE_ID_BYTES as nat, CharClass::Identifier),
    {
        proof {
            if domain_token(value@, MAX_SITE_ID_BYTES as nat, CharClass::Identifier) is Ok {
                lemma_domain_token_idempotent(value@, MAX_SITE_ID_BYTES as nat, CharClass::Identifier);
            }
        }
        match domain_check_token(value, MAX_SITE_ID_BYTES, CharClass::Identifier) {
            Ok(text) => Ok(HephaestusSiteId(text)),
            Err(e) => Err(e),
        }
    }

    /// Returns the validated site identifier text.
    pub fn as_str(&self) -> (r: &str)
        ensures
            r@ == self@,
    {
        self.0.as_str()
    }
}

impl HephaestusSiteId {
    /// The texts of `items`, in order.
    pub fn to_texts(items: &[Self]) -> (r: Vec<String>)
        ensures
            string_views(r@) == site_texts(items@),
    {
        let mut out: Vec<String> = Vec::new();
        let mut i: usize = 0;
        while i < items.len()
            invariant
                i <= items@.len(),
                string_views(out@) =~= site_texts(items@.take(i as int)),
            decreases items@.len() - i,
        {
            let ghost before = out@;
            out.push(items[i].as_str().to_string());
            proof {
                assert(items@.take(i as int + 1) =~= items@.take(i as int).push(items@[i as int]));
                assert(string_views(out@) =~= string_views(before).push(items@[i as int]@));
            }
            i += 1;
        }
        proof {
            assert(items@.take(i as int) =~= items@);
        }
        out
    }
}


/// The texts of a sequence of Site identifiers.
pub open spec fn site_texts(s: Seq<HephaestusSiteId>) -> Seq<Seq<char>> {
    s.map_values(|x: HephaestusSiteId| x@)
}

impl HephaestusSiteId {
    /// Validates each text as one Site identifier, in order; the first refused text
    /// decides the error.
    pub fn from_texts(items: &Vec<String>) -> (r: Result<Vec<Self>, HephaestusDomainError>)
        ensures
            match domain_tokens(string_views(items@), MAX_SITE_ID_BYTES as nat, CharClass::Identifier) {
                Ok(ts) => r is Ok && site_texts(r->Ok_0@) == ts,
                Err(e) => r == Err::<Vec<Self>, HephaestusDomainError>(e),
            },
    {
        let ghost sv = string_views(items@);
        let mut out: Vec<Self> = Vec::new();
        let mut i: usize = 0;
        proof {
            assert(sv.take(0) =~= Seq::<Seq<char>>::empty());
            assert(site_texts(out@) =~= Seq::<Seq<char>>::empty());
        }
        while i < items.len()
            invariant
                i <= items.len(),
                sv == string_views(items@),
                tokens_outcome(sv.take(i as int), MAX_SITE_ID_BYTES as nat, CharClass::Identifier) == Ok::<
                    Seq<Seq<char>>,
                    TextFault,
                >(site_texts(out@)),
            decreases items.len() - i,
        {
            proof {
                lemma_tokens_outcome_step(sv, i as int, MAX_SITE_ID_BYTES as nat, CharClass::Identifier);
                assert(sv[i as int] == items@[i as int]@);
            }
            match Self::new(items[i].as_str()) {
                Ok(x) => {
                    let ghost before = out@;
                    out.push(x);
                    proof {
                        assert(site_texts(out@) =~= site_texts(before).push(x@));
                    }
                },
                Err(e) => {
                    proof {
                        lemma_tokens_outcome_prefix_fault(sv, i as int + 1, MAX_SITE_ID_BYTES as nat, CharClass::Identifier);
                    }
                    return Err(e);
                },
            }
            i += 1;
        }
        proof {
            assert(sv.take(i as int) =~= sv);
        }
        Ok(out)
    }
}


/// Whether two entries of `sites` name the same Site.
pub open spec fn has_duplicate_site(sites: Seq<HephaestusSiteId>) -> bool {
    exists|i: int, j: int| 0 <= i < j < sites.len() && sites[i]@ == sites[j]@
}

/// Whether two entries of a list of texts are equal.
pub open spec fn has_duplicate_text(texts: Seq<Seq<char>>) -> bool {
    exists|i: int, j: int| 0 <= i < j < texts.len() && texts[i] == texts[j]
}

/// A Site list names a Site twice exactly when its texts repeat.
pub proof fn lemma_has_duplicate_site_texts(sites: Seq<HephaestusSiteId>)
    ensures
        has_duplicate_site(sites) == has_duplicate_text(site_texts(sites)),
{
    let t = site_texts(sites);
    if has_duplicate_site(sites) {
        let (i, j) = choose|i: int, j: int| 0 <= i < j < sites.len() && sites[i]@ == sites[j]@;
        assert(t[i] == sites[i]@ && t[j] == sites[j]@);
    }
    if has_duplicate_text(t) {
        let (i, j) = choose|i: int, j: int| 0 <= i < j < t.len() && t[i] == t[j];
        assert(t[i] == sites[i]@ && t[j] == sites[j]@);
    }
}

/// Whether some entry of `sites` names `site`.
pub open spec fn site_listed(sites: Seq<HephaestusSiteId>, site: Seq<char>) -> bool {
    exists|i: int| 0 <= i < sites.len() && sites[i]@ == site
}

/// The outcome of validating a Region's Site list: it must be non-empty,
/// hold at most [`MAX_REGION_SITES`] entries and name no Site twice.
pub open spec fn region_sites_fault(sites: Seq<HephaestusSiteId>) -> Option<HephaestusDomainError> {
    if sites.len() == 0 {
        Some(HephaestusDomainError::Empty)
    } else if sites.len() > MAX_REGION_SITES {
        Some(HephaestusDomainError::TooLong)
    } else if has_duplicate_site(sites) {
        Some(HephaestusDomainError::InvalidCharacter)
    } else {
        None
    }
}

/// Durable mapping from one ReallyMe operational Region to the Sites that
/// belong to it.
#[derive(Debug, PartialEq, Eq)]
pub struct HephaestusRegionDefinition {
    region_id: HephaestusRegionId,
    site_ids: Vec<HephaestusSiteId>,
}

impl HephaestusRegionDefinition {
    /// A Region always holds between one and [`MAX_REGION_SITES`] distinct Sites.
    #[verifier::type_invariant]
    closed spec fn well_formed(&self) -> bool {
        region_sites_fault(self.site_ids@) is None
    }

    /// The Region identifier.
    pub closed spec fn spec_region_id(&self) -> HephaestusRegionId {
        self.region_id
    }

    /// The Sites of the Region, in the order they were given.
    pub closed spec fn spec_site_ids(&self) -> Seq<HephaestusSiteId> {
        self.site_ids@
    }

    /// Constructs a validated Region definition.
    pub fn new(region_id: HephaestusRegionId, site_ids: Vec<HephaestusSiteId>) -> (r: Result<
        Self,
        HephaestusDomainError,
    >)
        ensures
            match region_sites_fault(site_ids@) {
                Some(e) => r == Err::<Self, HephaestusDomainError>(e),
                None => r is Ok && r->Ok_0.spec_region_id() == region_id
                    && r->Ok_0.spec_site_ids() == site_ids@,
            },
    {
        if site_ids.len() == 0 {
            return Err(HephaestusDomainError::Empty);
        }
        if site_ids.len() > MAX_REGION_SITES {
            return Err(HephaestusDomainError::TooLong);
        }
        let n = site_ids.len();
        let mut j: usize = 1;
        while j < n
            invariant
                1 <= j <= n,
                n == site_ids@.len(),
                n <= MAX_REGION_SITES,
                forall|a: int, b: int| 0 <= a < b < j ==> site_ids@[a]@ != site_ids@[b]@,
            decreases n - j,
        {
            let mut i: usize = 0;
            while i < j
                invariant
                    i <= j < n,
                    n == site_ids@.len(),
                    n <= MAX_REGION_SITES,
                n <= MAX_REGION_SITES,
                    forall|a: int| 0 <= a < i ==> site_ids@[a]@ != site_ids@[j as int]@,
                decreases j - i,
            {
                if site_ids[i].0 == site_ids[j].0 {
                    assert(site_ids@[i as int]@ == site_ids@[j as int]@);
                    assert(has_duplicate_site(site_ids@));
                    return Err(HephaestusDomainError::InvalidCharacter);
                }
                i = i + 1;
            }
            j = j + 1;
        }
        Ok(HephaestusRegionDefinition { region_id, site_ids })
    }

    /// Returns the stable Region identifier.
    pub fn region_id(&self) -> (r: &HephaestusRegionId)
        ensures
            *r == self.spec_region_id(),
    {
        &self.region_id
    }

    /// Returns the Sites assigned to this Region: between one and
    /// [`MAX_REGION_SITES`] of them, no two the same.
    pub fn site_ids(&self) -> (r: &[HephaestusSiteId])
        ensures
            r@ == self.spec_site_ids(),
            region_sites_fault(r@) is None,
    {
        proof {
            use_type_invariant(self);
        }
        self.site_ids.as_slice()
    }

    /// Returns whether the Region contains the supplied Site.
    pub fn contains_site_id(&self, site_id: &HephaestusSiteId) -> (r: bool)
        ensures
            r == site_listed(self.spec_site_ids(), site_id@),
    {
        let mut i: usize = 0;
        while i < self.site_ids.len()
            invariant
                i <= self.site_ids@.len(),
                forall|a: int| 0 <= a < i ==> self.site_ids@[a]@ != site_id@,
            decreases self.site_ids@.len() - i,
        {
            if self.site_ids[i].0 == site_id.0 {
                return true;
            }
            i = i + 1;
        }
        false
    }
}

} // verus!
