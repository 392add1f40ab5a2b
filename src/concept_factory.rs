use vstd::prelude::*;
use std::collections::HashMap;
use legalios::service::period::Period;
use vstd::std_specs::hash::spec_hash_map_iter;
use vstd::std_specs::iter::IteratorSpec;
use crate::service_types::{ArticleCode, ConceptCode, IConceptDefine, VersionCode, CONCEPT_NOTFOUND};
use crate::concept_provider::{
    bare_concept_spec, BoxConceptSpecProvider, ConceptSpec, ConceptSpecProvider, ConceptSpecView, IConceptSpec,
    IConceptSpecProvider, ResultFunc,
};

verus! {

broadcast use vstd::std_specs::hash::group_hash_axioms;

/// The specification that stands for a concept code with no definition.
pub struct NotFoundConceptSpec {
    pub spec: ConceptSpec,
}

impl NotFoundConceptSpec {
    /// The degenerate specification of the given code.
    pub fn get(code: ConceptCode) -> (r: NotFoundConceptSpec)
        ensures
            r.spec@ == bare_concept_spec(code),
    {
        let spec = ConceptSpec::new(code, Vec::new(), None);
        assert(spec@.path =~= Seq::<ArticleCode>::empty());
        NotFoundConceptSpec { spec }
    }

    /// The specification of the reserved "not found" concept code.
    pub fn new() -> (r: NotFoundConceptSpec)
        ensures
            r.spec@ == bare_concept_spec(ConceptCode::not_found()),
    {
        NotFoundConceptSpec::get(ConceptCode::get(CONCEPT_NOTFOUND))
    }
}

impl IConceptDefine for NotFoundConceptSpec {
    open spec fn concept_code(&self) -> ConceptCode {
        self.spec.code
    }

    fn get_code(&self) -> (r: ConceptCode) {
        self.spec.get_code()
    }
}

impl IConceptSpec for NotFoundConceptSpec {
    open spec fn concept_path(&self) -> Seq<ArticleCode> {
        self.spec.path@
    }

    open spec fn concept_delegate(&self) -> Option<ResultFunc> {
        self.spec.result_delegate
    }

    fn get_path(&self) -> (r: Vec<ArticleCode>) {
        self.spec.get_path()
    }

    fn get_result_delegate(&self) -> (r: Option<ResultFunc>) {
        self.spec.get_result_delegate()
    }
}

/// The provider of last resort: it answers every query with the "not found"
/// specification of its own, reserved, code.
pub struct NotFoundConceptProvider {
    pub spec: ConceptSpecProvider,
}

impl NotFoundConceptProvider {
    pub fn new() -> (r: NotFoundConceptProvider)
        ensures
            r.spec.code == ConceptCode::not_found(),
    {
        NotFoundConceptProvider { spec: ConceptSpecProvider::new(ConceptCode::get(CONCEPT_NOTFOUND)) }
    }
}

impl IConceptSpecProvider for NotFoundConceptProvider {
    open spec fn provider_code(&self) -> ConceptCode {
        self.spec.code
    }

    open spec fn spec_for(&self, period: Period, version: VersionCode) -> ConceptSpecView {
        bare_concept_spec(self.spec.code)
    }

    fn get_code(&self) -> (r: ConceptCode) {
        self.spec.get_code()
    }

    fn get_spec(&self, period: &Period, version: &VersionCode) -> (r: ConceptSpec) {
        NotFoundConceptSpec::get(self.spec.get_code()).spec
    }
}

/// The key under which a provider is registered.
pub open spec fn key_of(p: BoxConceptSpecProvider) -> i32 {
    p.provider_code().value
}

/// The registry that a list of providers builds, entry by entry: a later
/// provider for a code replaces an earlier one.
pub open spec fn registry_of(list: Seq<BoxConceptSpecProvider>) -> Map<i32, BoxConceptSpecProvider>
    decreases list.len(),
{
    if list.len() == 0 {
        Map::empty()
    } else {
        registry_of(list.drop_last()).insert(key_of(list.last()), list.last())
    }
}

/// A code is registered exactly when some provider of the list claims it.
pub proof fn lemma_registry_dom(list: Seq<BoxConceptSpecProvider>, k: i32)
    ensures
        registry_of(list).contains_key(k) <==> exists|i: int|
            0 <= i < list.len() && #[trigger] key_of(list[i]) == k,
    decreases list.len(),
{
    if list.len() > 0 {
        let init = list.drop_last();
        lemma_registry_dom(init, k);
        if registry_of(init).contains_key(k) {
            let i = choose|i: int| 0 <= i < init.len() && #[trigger] key_of(init[i]) == k;
            assert(list[i] == init[i]);
        }
        if exists|i: int| 0 <= i < list.len() && #[trigger] key_of(list[i]) == k {
            let i = choose|i: int| 0 <= i < list.len() && #[trigger] key_of(list[i]) == k;
            if i < list.len() - 1 {
                assert(init[i] == list[i]);
            }
        }
    }
}

/// The provider registered for a code is the last one of the list that claims it.
pub proof fn lemma_last_claim_wins(list: Seq<BoxConceptSpecProvider>, i: int)
    requires
        0 <= i < list.len(),
        forall|j: int| i < j < list.len() ==> #[trigger] key_of(list[j]) != key_of(list[i]),
    ensures
        registry_of(list).contains_key(key_of(list[i])),
        registry_of(list)[key_of(list[i])] == list[i],
    decreases list.len(),
{
    let init = list.drop_last();
    if i < list.len() - 1 {
        assert(key_of(list[list.len() - 1]) != key_of(list[i]));
        assert forall|j: int| i < j < init.len() implies #[trigger] key_of(init[j]) != key_of(init[i]) by {
            assert(init[j] == list[j]);
        }
        lemma_last_claim_wins(init, i);
    }
}

/// `specs` holds, for each code of the registry once, in some order, what its
/// provider gives for the period and the version.
pub open spec fn lists_registry(
    specs: Seq<ConceptSpecView>,
    registry: Map<i32, BoxConceptSpecProvider>,
    period: Period,
    version: VersionCode,
) -> bool {
    exists|codes: Seq<i32>|
        {
            &&& (#[trigger] codes.to_set()) == registry.dom()
            &&& codes.no_duplicates()
            &&& codes.len() == specs.len()
            &&& forall|i: int| 0 <= i < specs.len() ==> #[trigger] specs[i] == registry[codes[i]].spec_for(period, version)
        }
}

/// The read-only registry of concept providers, with the "not found" provider
/// as its fallback.
pub struct ConceptSpecFactory {
    not_found_provider: BoxConceptSpecProvider,
    providers: HashMap<i32, BoxConceptSpecProvider>,
}

impl ConceptSpecFactory {
    /// The mapping from code to provider.
    pub closed spec fn registry(&self) -> Map<i32, BoxConceptSpecProvider> {
        self.providers@
    }

    /// Each provider stands under its own code, and the fallback provider gives
    /// the "not found" specification for every query.
    pub closed spec fn wf(&self) -> bool {
        &&& self.not_found_provider.provider_code() == ConceptCode::not_found()
        &&& forall|period: Period, version: VersionCode|
            #[trigger] self.not_found_provider.spec_for(period, version) == bare_concept_spec(ConceptCode::not_found())
        &&& forall|k: i32| #[trigger] self.providers@.contains_key(k) ==> key_of(self.providers@[k]) == k
    }

    /// What the factory gives for a code, a period and a version.
    pub open spec fn resolve(&self, code: ConceptCode, period: Period, version: VersionCode) -> ConceptSpecView {
        if self.registry().contains_key(code.value) {
            self.registry()[code.value].spec_for(period, version)
        } else {
            bare_concept_spec(ConceptCode::not_found())
        }
    }

    /// Builds the registry from a list of providers, keyed by each provider's
    /// own code. Where two providers claim one code, the later one in the list
    /// is the one registered.
    pub fn new(list: Vec<BoxConceptSpecProvider>) -> (r: ConceptSpecFactory)
        ensures
            r.wf(),
            r.registry() == registry_of(list@),
    {
        let ghost orig = list@;
        let mut list = list;
        let mut providers: HashMap<i32, BoxConceptSpecProvider> = HashMap::new();
        while list.len() > 0
            invariant
                list@.len() <= orig.len(),
                list@ == orig.subrange(0, list@.len() as int),
                forall|k: i32| #[trigger] providers@.contains_key(k) ==> key_of(providers@[k]) == k,
                registry_of(orig) == registry_of(list@).union_prefer_right(providers@),
            decreases list@.len(),
        {
            let ghost before = list@;
            let ghost done = providers@;
            let p = list.pop().unwrap();
            assert(before.drop_last() == list@);
            assert(list@ == orig.subrange(0, list@.len() as int));
            let code = p.get_code();
            if providers.contains_key(&code.value) {
                assert(registry_of(orig) =~= registry_of(list@).union_prefer_right(done));
            } else {
                providers.insert(code.value, p);
                assert(registry_of(orig) =~= registry_of(list@).union_prefer_right(providers@));
            }
        }
        assert(registry_of(list@) =~= Map::<i32, BoxConceptSpecProvider>::empty());
        assert(registry_of(orig) =~= providers@);
        let not_found_provider = BoxConceptSpecProvider { inner: Box::new(NotFoundConceptProvider::new()) };
        ConceptSpecFactory { not_found_provider, providers }
    }

    /// The provider registered for a code, or else the given default.
    pub fn get_provider<'a>(&'a self, code: &ConceptCode, def_provider: &'a BoxConceptSpecProvider) -> (r: Option<
        &'a BoxConceptSpecProvider,
    >)
        requires
            self.wf(),
        ensures
            r.is_some(),
            self.registry().contains_key(code.value) ==> *r.unwrap() == self.registry()[code.value],
            !self.registry().contains_key(code.value) ==> *r.unwrap() == *def_provider,
    {
        let val_provider = match self.providers.get(&code.value) {
            Some(provider) => provider,
            None => def_provider,
        };
        Some(val_provider)
    }

    /// The specification of a code for a period and a version: that of the
    /// registered provider, or else the "not found" specification, whose code
    /// is the reserved one and not the code asked for.
    pub fn get_spec(&self, code: &ConceptCode, period: &Period, version: &VersionCode) -> (r: ConceptSpec)
        requires
            self.wf(),
        ensures
            r@ == self.resolve(*code, *period, *version),
            self.registry().contains_key(code.value) ==> r@ == self.registry()[code.value].spec_for(*period, *version),
            !self.registry().contains_key(code.value) ==> r@ == bare_concept_spec(ConceptCode::not_found()),
    {
        match self.get_provider(code, &self.not_found_provider) {
            Some(provider) => provider.get_spec(period, version),
            None => NotFoundConceptSpec::new().spec,
        }
    }

    /// The specifications of all registered codes, one for each, in the order
    /// in which the map walks them; the "not found" provider takes no part.
    pub fn get_spec_list(&self, period: &Period, version: &VersionCode) -> (r: Vec<ConceptSpec>)
        requires
            self.wf(),
        ensures
            lists_registry(r@.map_values(|s: ConceptSpec| s@), self.registry(), *period, *version),
    {
        let ghost v = spec_hash_map_iter(&self.providers).remaining();
        let mut r: Vec<ConceptSpec> = Vec::new();
        for (k, p) in it: self.providers.iter()
            invariant
                it.seq() == v,
                r@.len() == it.index(),
                forall|j: int| 0 <= j < it.index() ==> (#[trigger] r@[j])@ == (*v[j].1).spec_for(*period, *version),
        {
            r.push(p.get_spec(period, version));
        }
        proof {
            let m = self.providers@;
            let views = r@.map_values(|s: ConceptSpec| s@);
            let ks = v.map_values(|kv: (&i32, &BoxConceptSpecProvider)| *kv.0);
            assert forall|i: int, j: int| 0 <= i < ks.len() && 0 <= j < ks.len() && i != j implies ks[i] != ks[j] by {
                assert(m.contains_key(*v[i].0) && m[*v[i].0] == *v[i].1);
                assert(m.contains_key(*v[j].0) && m[*v[j].0] == *v[j].1);
            }
            assert forall|k: i32| ks.to_set().contains(k) <==> m.dom().contains(k) by {
                if ks.to_set().contains(k) {
                    let i = choose|i: int| 0 <= i < ks.len() && ks[i] == k;
                    assert(m.contains_key(*v[i].0));
                }
                if m.contains_key(k) {
                    assert(v.contains((&k, &m[k])));
                    let i = choose|i: int| 0 <= i < v.len() && v[i] == (&k, &m[k]);
                    assert(ks[i] == k);
                }
            }
            assert(ks.to_set() =~= m.dom());
            assert forall|i: int| 0 <= i < views.len() implies views[i] == m[ks[i]].spec_for(*period, *version) by {
                assert(m.contains_key(*v[i].0) && m[*v[i].0] == *v[i].1);
            }
            assert(ks.no_duplicates());
        }
        r
    }
}

/// For a code registered with a provider, the factory gives exactly what that
/// provider gives, for every period and version. Where several providers of
/// the list claim the code, this is the last of them.
pub proof fn lemma_resolution_correctness(
    f: ConceptSpecFactory,
    list: Seq<BoxConceptSpecProvider>,
    i: int,
    period: Period,
    version: VersionCode,
)
    requires
        f.registry() == registry_of(list),
        0 <= i < list.len(),
        forall|j: int| i < j < list.len() ==> #[trigger] key_of(list[j]) != key_of(list[i]),
    ensures
        f.resolve(list[i].provider_code(), period, version) == list[i].spec_for(period, version),
{
    lemma_last_claim_wins(list, i);
}

/// For a code that no provider of the list claims, the factory gives the
/// specification of the reserved "not found" code, with an empty path and no
/// evaluator, for every period and version.
pub proof fn lemma_fallback_correctness(
    f: ConceptSpecFactory,
    list: Seq<BoxConceptSpecProvider>,
    code: ConceptCode,
    period: Period,
    version: VersionCode,
)
    requires
        f.registry() == registry_of(list),
        forall|i: int| 0 <= i < list.len() ==> #[trigger] key_of(list[i]) != code.value,
    ensures
        f.resolve(code, period, version).code == ConceptCode::not_found(),
        f.resolve(code, period, version).path.len() == 0,
        f.resolve(code, period, version).result_delegate.is_none(),
{
    lemma_registry_dom(list, code.value);
}

/// What `get_spec_list` gives has one entry for each distinct code that the
/// providers of the list claim: the specification of that code, and nothing
/// else, in particular no "not found" entry for a code that nobody claims.
pub proof fn lemma_list_completeness(
    f: ConceptSpecFactory,
    list: Seq<BoxConceptSpecProvider>,
    period: Period,
    version: VersionCode,
    specs: Seq<ConceptSpecView>,
)
    requires
        f.registry() == registry_of(list),
        lists_registry(specs, f.registry(), period, version),
    ensures
        specs.len() == f.registry().dom().len(),
        forall|k: i32|
            f.registry().contains_key(k) <==> exists|i: int| 0 <= i < list.len() && #[trigger] key_of(list[i]) == k,
        forall|k: i32|
            #[trigger] f.registry().contains_key(k) ==> exists|j: int|
                0 <= j < specs.len() && #[trigger] specs[j] == f.resolve(ConceptCode { value: k }, period, version),
        forall|j: int|
            0 <= j < specs.len() ==> exists|k: i32|
                f.registry().contains_key(k) && #[trigger] specs[j] == f.resolve(ConceptCode { value: k }, period, version),
{
    let m = f.registry();
    let codes = choose|codes: Seq<i32>|
        {
            &&& (#[trigger] codes.to_set()) == m.dom()
            &&& codes.no_duplicates()
            &&& codes.len() == specs.len()
            &&& forall|i: int| 0 <= i < specs.len() ==> #[trigger] specs[i] == m[codes[i]].spec_for(period, version)
        };
    codes.unique_seq_to_set();
    assert forall|k: i32|
        m.contains_key(k) <==> exists|i: int| 0 <= i < list.len() && #[trigger] key_of(list[i]) == k by {
        lemma_registry_dom(list, k);
    }
    assert forall|k: i32| #[trigger] m.contains_key(k) implies exists|j: int|
        0 <= j < specs.len() && #[trigger] specs[j] == f.resolve(ConceptCode { value: k }, period, version) by {
        assert(codes.to_set().contains(k));
        let j = choose|j: int| 0 <= j < codes.len() && codes[j] == k;
        assert(specs[j] == f.resolve(ConceptCode { value: k }, period, version));
    }
    assert forall|j: int| 0 <= j < specs.len() implies exists|k: i32|
        m.contains_key(k) && #[trigger] specs[j] == f.resolve(ConceptCode { value: k }, period, version) by {
        assert(codes.to_set().contains(codes[j]));
        assert(specs[j] == f.resolve(ConceptCode { value: codes[j] }, period, version));
    }
}

/// Two queries of one factory with the same code, period and version give
/// equal specifications.
pub proof fn lemma_determinism(
    f: ConceptSpecFactory,
    code: ConceptCode,
    period: Period,
    version: VersionCode,
    first: ConceptSpec,
    second: ConceptSpec,
)
    requires
        first@ == f.resolve(code, period, version),
        second@ == f.resolve(code, period, version),
    ensures
        first@ == second@,
        first.code == second.code,
        first.path@ == second.path@,
        first.result_delegate == second.result_delegate,
{
}

} // verus!
