use vstd::prelude::*;
use legalios::service::period::Period;
use crate::service_types::{ArticleCode, ConceptCode, IConceptDefine, VersionCode};

verus! {

/// A handle on the evaluator that derives a result for a concept: the number
/// under which the embedding application keeps that evaluator.
#[derive(Clone, Copy, Debug, PartialEq, Eq, Structural)]
pub struct ResultFunc {
    pub evaluator: i32,
}

/// The resolved meaning of a concept code at a point in time.
#[derive(Clone, Debug)]
pub struct ConceptSpec {
    pub code: ConceptCode,
    pub path: Vec<ArticleCode>,
    pub result_delegate: Option<ResultFunc>,
}

/// What every concept specification exposes.
pub trait IConceptSpec: IConceptDefine {
    spec fn concept_path(&self) -> Seq<ArticleCode>;

    spec fn concept_delegate(&self) -> Option<ResultFunc>;

    fn get_path(&self) -> (r: Vec<ArticleCode>)
        ensures
            r@ == self.concept_path(),
    ;

    fn get_result_delegate(&self) -> (r: Option<ResultFunc>)
        ensures
            r == self.concept_delegate(),
    ;
}

/// Copies a path of article codes, one for one.
pub fn copy_path(path: &Vec<ArticleCode>) -> (r: Vec<ArticleCode>)
    ensures
        r@ == path@,
{
    let mut r: Vec<ArticleCode> = Vec::new();
    let mut i: usize = 0;
    while i < path.len()
        invariant
            i <= path@.len(),
            r@ == path@.subrange(0, i as int),
        decreases path@.len() - i,
    {
        r.push(path[i]);
        i = i + 1;
    }
    assert(r@ =~= path@);
    r
}

impl ConceptSpec {
    pub fn new(code: ConceptCode, path: Vec<ArticleCode>, result_delegate: Option<ResultFunc>) -> (r: ConceptSpec)
        ensures
            r.code == code,
            r.path@ == path@,
            r.result_delegate == result_delegate,
    {
        ConceptSpec { code, path, result_delegate }
    }
}

/// The value of a concept specification: code, path and evaluator.
pub struct ConceptSpecView {
    pub code: ConceptCode,
    pub path: Seq<ArticleCode>,
    pub result_delegate: Option<ResultFunc>,
}

impl View for ConceptSpec {
    type V = ConceptSpecView;

    open spec fn view(&self) -> ConceptSpecView {
        ConceptSpecView { code: self.code, path: self.path@, result_delegate: self.result_delegate }
    }
}

impl IConceptDefine for ConceptSpec {
    open spec fn concept_code(&self) -> ConceptCode {
        self.code
    }

    fn get_code(&self) -> (r: ConceptCode) {
        self.code
    }
}

impl IConceptSpec for ConceptSpec {
    open spec fn concept_path(&self) -> Seq<ArticleCode> {
        self.path@
    }

    open spec fn concept_delegate(&self) -> Option<ResultFunc> {
        self.result_delegate
    }

    fn get_path(&self) -> (r: Vec<ArticleCode>) {
        copy_path(&self.path)
    }

    fn get_result_delegate(&self) -> (r: Option<ResultFunc>) {
        self.result_delegate
    }
}

/// A resolver bound to one concept code: it turns a period and a version into
/// a specification. Each provider answers the same query with the same value.
pub trait IConceptSpecProvider {
    /// The code under which this provider is registered.
    spec fn provider_code(&self) -> ConceptCode;

    /// The specification this provider gives for a period and a version.
    spec fn spec_for(&self, period: Period, version: VersionCode) -> ConceptSpecView;

    fn get_code(&self) -> (r: ConceptCode)
        ensures
            r == self.provider_code(),
    ;

    fn get_spec(&self, period: &Period, version: &VersionCode) -> (r: ConceptSpec)
        ensures
            r@ == self.spec_for(*period, *version),
    ;
}

/// A provider of any kind, resolved at run time: it forwards each call to the
/// provider it holds.
pub struct BoxConceptSpecProvider {
    pub inner: Box<dyn IConceptSpecProvider>,
}

impl IConceptSpecProvider for BoxConceptSpecProvider {
    open spec fn provider_code(&self) -> ConceptCode {
        self.inner.provider_code()
    }

    open spec fn spec_for(&self, period: Period, version: VersionCode) -> ConceptSpecView {
        self.inner.spec_for(period, version)
    }

    fn get_code(&self) -> (r: ConceptCode) {
        self.inner.get_code()
    }

    fn get_spec(&self, period: &Period, version: &VersionCode) -> (r: ConceptSpec) {
        self.inner.get_spec(period, version)
    }
}

/// The plain provider: whatever the period and version, it gives the
/// specification of its own code with an empty path and no evaluator.
#[derive(Clone, Copy, Debug, PartialEq, Eq, Structural)]
pub struct ConceptSpecProvider {
    pub code: ConceptCode,
}

impl ConceptSpecProvider {
    pub fn new(code: ConceptCode) -> (r: ConceptSpecProvider)
        ensures
            r.code == code,
    {
        ConceptSpecProvider { code }
    }
}

/// The degenerate specification of a concept code: empty path, no evaluator.
pub open spec fn bare_concept_spec(code: ConceptCode) -> ConceptSpecView {
    ConceptSpecView { code, path: Seq::empty(), result_delegate: None }
}

impl IConceptSpecProvider for ConceptSpecProvider {
    open spec fn provider_code(&self) -> ConceptCode {
        self.code
    }

    open spec fn spec_for(&self, period: Period, version: VersionCode) -> ConceptSpecView {
        bare_concept_spec(self.code)
    }

    fn get_code(&self) -> (r: ConceptCode) {
        self.code
    }

    fn get_spec(&self, period: &Period, version: &VersionCode) -> (r: ConceptSpec) {
        let r = ConceptSpec::new(self.code, Vec::new(), None);
        assert(r@.path =~= Seq::<ArticleCode>::empty());
        r
    }
}

} // verus!
