use legalios::service::period::Period;
use payrolex_registry::{
    ArticleCode, ArticleSeqs, ArticleSpec, ArticleSpecProvider, BoxConceptSpecProvider, ConceptCode, ConceptSpec,
    ConceptSpecFactory, ConceptSpecProvider, IArticleDefine, IArticleSpec, IArticleSpecProvider,
    IConceptDefine, IConceptSpec, IConceptSpecProvider, NotFoundConceptProvider,
    NotFoundConceptSpec, ResultFunc, VersionCode, CONCEPT_NOTFOUND,
};

fn period() -> Period {
    Period::get(202101)
}

fn version() -> VersionCode {
    VersionCode::get(100)
}

fn boxed<T: IConceptSpecProvider + 'static>(provider: T) -> BoxConceptSpecProvider {
    BoxConceptSpecProvider { inner: Box::new(provider) }
}

fn factory_of(codes: &[i32]) -> ConceptSpecFactory {
    let list: Vec<BoxConceptSpecProvider> = codes
        .iter()
        .map(|c| boxed(ConceptSpecProvider::new(ConceptCode::get(*c))))
        .collect();
    ConceptSpecFactory::new(list)
}

fn codes_of(specs: &[ConceptSpec]) -> Vec<i32> {
    let mut codes: Vec<i32> = specs.iter().map(|s| s.code.value).collect();
    codes.sort();
    codes
}

#[test]
fn factory_scenario_two_codes() {
    let factory = factory_of(&[101, 202]);
    let found = factory.get_spec(&ConceptCode::get(101), &period(), &version());
    assert_eq!(found.code.value, 101);
    assert!(found.path.is_empty());
    assert_eq!(found.result_delegate, None);
    let missing = factory.get_spec(&ConceptCode::get(999), &period(), &version());
    assert_eq!(missing.code.value, CONCEPT_NOTFOUND);
    let list = factory.get_spec_list(&period(), &version());
    assert_eq!(list.len(), 2);
    assert_eq!(codes_of(&list), vec![101, 202]);
}

#[test]
fn factory_resolves_registered_code_as_its_provider() {
    let provider = ConceptSpecProvider::new(ConceptCode::get(303));
    let direct = provider.get_spec(&period(), &version());
    let factory = ConceptSpecFactory::new(vec![boxed(provider), boxed(ConceptSpecProvider::new(ConceptCode::get(304)))]);
    let resolved = factory.get_spec(&ConceptCode::get(303), &period(), &version());
    assert_eq!(resolved.code, direct.code);
    assert_eq!(resolved.path, direct.path);
    assert_eq!(resolved.result_delegate, direct.result_delegate);
    assert_eq!(resolved.code.value, 303);
}

#[test]
fn factory_fallback_gives_reserved_code() {
    let factory = factory_of(&[7, 8]);
    let spec = factory.get_spec(&ConceptCode::get(42), &Period::get(202401), &VersionCode::get(3));
    assert_eq!(spec.code.value, CONCEPT_NOTFOUND);
    assert_ne!(spec.code.value, 42);
    assert!(spec.path.is_empty());
    assert!(spec.result_delegate.is_none());
}

#[test]
fn factory_with_no_providers() {
    let factory = factory_of(&[]);
    assert!(factory.get_spec_list(&period(), &version()).is_empty());
    let spec = factory.get_spec(&ConceptCode::get(1), &period(), &version());
    assert_eq!(spec.code.value, CONCEPT_NOTFOUND);
}

#[test]
fn factory_duplicate_codes_keep_one_entry() {
    let factory = factory_of(&[5, 5]);
    let list = factory.get_spec_list(&period(), &version());
    assert_eq!(list.len(), 1);
    assert_eq!(list[0].code.value, 5);
    let spec = factory.get_spec(&ConceptCode::get(5), &period(), &version());
    assert_eq!(spec.code.value, 5);
}

#[test]
fn factory_list_has_one_entry_per_distinct_code() {
    let factory = factory_of(&[3, 1, 2, 3, 1]);
    let list = factory.get_spec_list(&period(), &version());
    assert_eq!(codes_of(&list), vec![1, 2, 3]);
}

#[test]
fn factory_lookup_is_deterministic() {
    let factory = factory_of(&[11, 12]);
    for code in [11, 12, 13] {
        let first = factory.get_spec(&ConceptCode::get(code), &period(), &version());
        let second = factory.get_spec(&ConceptCode::get(code), &period(), &version());
        assert_eq!(first.code, second.code);
        assert_eq!(first.path, second.path);
        assert_eq!(first.result_delegate, second.result_delegate);
    }
}

#[test]
fn factory_provider_lookup() {
    let factory = factory_of(&[21, 22]);
    let fallback = boxed(NotFoundConceptProvider::new());
    let provider = factory.get_provider(&ConceptCode::get(22), &fallback).unwrap();
    assert_eq!(provider.get_code().value, 22);
    let other = factory.get_provider(&ConceptCode::get(23), &fallback).unwrap();
    assert_eq!(other.get_code().value, CONCEPT_NOTFOUND);
}

#[test]
fn article_stub_provider_defaults() {
    let provider = ArticleSpecProvider::new(ArticleCode::get(1001));
    assert_eq!(provider.get_code().value, 1001);
    for (p, v) in [(202101, 1), (201501, 7)] {
        let spec = provider.get_spec(&Period::get(p), &VersionCode::get(v));
        assert_eq!(spec.get_code().value, 1001);
        assert_eq!(spec.get_seqs().value, 0);
        assert_eq!(spec.get_role().value, CONCEPT_NOTFOUND);
        assert!(spec.get_sums().is_empty());
    }
}

#[test]
fn article_spec_accessors() {
    let sums = vec![ArticleCode::get(2), ArticleCode::get(3)];
    let spec = ArticleSpec::new(ArticleCode::get(1), ArticleSeqs::get(4), ConceptCode::get(9), sums);
    assert_eq!(spec.get_code().value, 1);
    assert_eq!(spec.get_seqs().value, 4);
    assert_eq!(spec.get_role().value, 9);
    assert_eq!(spec.get_sums(), vec![ArticleCode::get(2), ArticleCode::get(3)]);
    let term = spec.get_term();
    assert_eq!((term.code, term.seqs), (1, 4));
    let defs = spec.get_defs();
    assert_eq!((defs.code.value, defs.seqs.value, defs.role.value), (1, 4, 9));
}

#[test]
fn article_sums_conversions() {
    let codes = ArticleSpec::const_to_sums_array(vec![5, 6, 7]);
    assert_eq!(codes, vec![ArticleCode::get(5), ArticleCode::get(6), ArticleCode::get(7)]);
    let copied = ArticleSpec::specs_to_sums_array(codes.clone());
    assert_eq!(copied, codes);
    assert!(ArticleSpec::const_to_sums_array(vec![]).is_empty());
}

#[test]
fn concept_spec_accessors() {
    let path = vec![ArticleCode::get(10), ArticleCode::get(20)];
    let spec = ConceptSpec::new(ConceptCode::get(77), path, Some(ResultFunc { evaluator: 4 }));
    assert_eq!(spec.get_code().value, 77);
    assert_eq!(spec.get_path(), vec![ArticleCode::get(10), ArticleCode::get(20)]);
    assert_eq!(spec.get_result_delegate(), Some(ResultFunc { evaluator: 4 }));
}

#[test]
fn not_found_spec_and_provider() {
    let spec = NotFoundConceptSpec::new();
    assert_eq!(spec.get_code().value, CONCEPT_NOTFOUND);
    assert!(spec.get_path().is_empty());
    assert!(spec.get_result_delegate().is_none());
    let other = NotFoundConceptSpec::get(ConceptCode::get(12));
    assert_eq!(other.get_code().value, 12);
    let provider = NotFoundConceptProvider::new();
    assert_eq!(provider.get_code().value, CONCEPT_NOTFOUND);
    let given = provider.get_spec(&period(), &version());
    assert_eq!(given.code.value, CONCEPT_NOTFOUND);
    assert!(given.path.is_empty());
}

#[test]
fn concept_stub_provider_defaults() {
    let provider = ConceptSpecProvider::new(ConceptCode::get(55));
    let spec = provider.get_spec(&period(), &version());
    assert_eq!(spec.code.value, 55);
    assert!(spec.path.is_empty());
    assert!(spec.result_delegate.is_none());
}

#[test]
fn article_spec_self_reference() {
    let looped = ArticleSpec::new(ArticleCode::get(8), ArticleSeqs::zero(), ConceptCode::get(1), vec![ArticleCode::get(3), ArticleCode::get(8)]);
    assert!(looped.refers_to_itself());
    let plain = ArticleSpec::new(ArticleCode::get(8), ArticleSeqs::zero(), ConceptCode::get(1), vec![ArticleCode::get(3)]);
    assert!(!plain.refers_to_itself());
    let empty = ArticleSpec::new(ArticleCode::get(8), ArticleSeqs::zero(), ConceptCode::get(1), vec![]);
    assert!(!empty.refers_to_itself());
}
