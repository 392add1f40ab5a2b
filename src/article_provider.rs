use vstd::prelude::*;
use legalios::service::period::Period;
use crate::service_types::{
    ArticleCode, ArticleDefine, ArticleSeqs, ArticleTerm, ConceptCode, IArticleDefine,
    VersionCode, CONCEPT_NOTFOUND,
};

verus! {

/// The resolved structural definition of an article code at a point in time.
#[derive(Clone, Debug)]
pub struct ArticleSpec {
    pub code: ArticleCode,
    pub seqs: ArticleSeqs,
    pub role: ConceptCode,
    pub sums: Vec<ArticleCode>,
}

/// The value of an article specification.
pub struct ArticleSpecView {
    pub code: ArticleCode,
    pub seqs: ArticleSeqs,
    pub role: ConceptCode,
    pub sums: Seq<ArticleCode>,
}

impl View for ArticleSpec {
    type V = ArticleSpecView;

    open spec fn view(&self) -> ArticleSpecView {
        ArticleSpecView { code: self.code, seqs: self.seqs, role: self.role, sums: self.sums@ }
    }
}

/// Copies a list of article codes, one for one.
fn copy_codes(codes: &Vec<ArticleCode>) -> (r: Vec<ArticleCode>)
    ensures
        r@ == codes@,
{
    let mut r: Vec<ArticleCode> = Vec::new();
    let mut i: usize = 0;
    while i < codes.len()
        invariant
            i <= codes@.len(),
            r@ == codes@.subrange(0, i as int),
        decreases codes@.len() - i,
    {
        r.push(codes[i]);
        i = i + 1;
    }
    assert(r@ =~= codes@);
    r
}

impl ArticleSpec {
    pub fn new(code: ArticleCode, seqs: ArticleSeqs, role: ConceptCode, sums: Vec<ArticleCode>) -> (r: ArticleSpec)
        ensures
            r@.code == code,
            r@.seqs == seqs,
            r@.role == role,
            r@.sums == sums@,
    {
        ArticleSpec { code, seqs, role, sums: copy_codes(&sums) }
    }

    /// Whether the article sums itself, which a well-formed specification never does.
    pub fn refers_to_itself(&self) -> (r: bool)
        ensures
            r == self@.sums.contains(self.code),
    {
        let mut i: usize = 0;
        while i < self.sums.len()
            invariant
                i <= self.sums@.len(),
                forall|j: int| 0 <= j < i ==> self.sums@[j] != self.code,
            decreases self.sums@.len() - i,
        {
            if self.sums[i].value == self.code.value {
                return true;
            }
            i = i + 1;
        }
        false
    }

    /// The article codes of the given integer values, in the same order.
    pub fn const_to_sums_array(codes: Vec<i32>) -> (r: Vec<ArticleCode>)
        ensures
            r@.len() == codes@.len(),
            forall|i: int| 0 <= i < codes@.len() ==> #[trigger] r@[i].value == codes@[i],
    {
        let mut r: Vec<ArticleCode> = Vec::new();
        let mut i: usize = 0;
        while i < codes.len()
            invariant
                i <= codes@.len(),
                r@.len() == i,
                forall|j: int| 0 <= j < i ==> #[trigger] r@[j].value == codes@[j],
            decreases codes@.len() - i,
        {
            r.push(ArticleCode::get(codes[i]));
            i = i + 1;
        }
        r
    }

    /// Fresh article codes of the same values, in the same order.
    pub fn specs_to_sums_array(codes: Vec<ArticleCode>) -> (r: Vec<ArticleCode>)
        ensures
            r@ == codes@,
    {
        let mut r: Vec<ArticleCode> = Vec::new();
        let mut i: usize = 0;
        while i < codes.len()
            invariant
                i <= codes@.len(),
                r@ == codes@.subrange(0, i as int),
            decreases codes@.len() - i,
        {
            r.push(ArticleCode::get(codes[i].get_value()));
            i = i + 1;
        }
        assert(r@ =~= codes@);
        r
    }
}

impl IArticleDefine for ArticleSpec {
    open spec fn article_code(&self) -> ArticleCode {
        self.code
    }

    open spec fn article_seqs(&self) -> ArticleSeqs {
        self.seqs
    }

    open spec fn article_role(&self) -> ConceptCode {
        self.role
    }

    fn get_code(&self) -> (r: ArticleCode) {
        self.code
    }

    fn get_seqs(&self) -> (r: ArticleSeqs) {
        self.seqs
    }

    fn get_role(&self) -> (r: ConceptCode) {
        self.role
    }

    fn get_term(&self) -> (r: ArticleTerm) {
        ArticleTerm::get(self.code.get_value(), self.seqs.get_value())
    }
}

/// What every article specification exposes beyond its definition.
pub trait IArticleSpec: IArticleDefine {
    spec fn article_sums(&self) -> Seq<ArticleCode>;

    fn get_sums(&self) -> (r: Vec<ArticleCode>)
        ensures
            r@ == self.article_sums(),
    ;

    fn get_defs(&self) -> (r: ArticleDefine)
        ensures
            r.code == self.article_code(),
            r.seqs == self.article_seqs(),
            r.role == self.article_role(),
    ;
}

impl IArticleSpec for ArticleSpec {
    open spec fn article_sums(&self) -> Seq<ArticleCode> {
        self.sums@
    }

    fn get_sums(&self) -> (r: Vec<ArticleCode>) {
        copy_codes(&self.sums)
    }

    fn get_defs(&self) -> (r: ArticleDefine) {
        ArticleDefine::get(self.code.get_value(), self.seqs.get_value(), self.role.get_value())
    }
}

/// A resolver bound to one article code: it turns a period and a version into
/// a specification. Each provider answers the same query with the same value.
pub trait IArticleSpecProvider {
    /// The code under which this provider is registered.
    spec fn provider_code(&self) -> ArticleCode;

    /// The specification this provider gives for a period and a version.
    spec fn spec_for(&self, period: Period, version: VersionCode) -> ArticleSpecView;

    fn get_code(&self) -> (r: ArticleCode)
        ensures
            r == self.provider_code(),
    ;

    fn get_spec(&self, period: &Period, version: &VersionCode) -> (r: ArticleSpec)
        ensures
            r@ == self.spec_for(*period, *version),
    ;
}

/// The plain provider: whatever the period and version, it gives its own code
/// as a whole article, in the role of the reserved "not found" concept, with
/// nothing summed.
#[derive(Clone, Copy, Debug, PartialEq, Eq, Structural)]
pub struct ArticleSpecProvider {
    pub code: ArticleCode,
}

impl ArticleSpecProvider {
    pub fn new(code: ArticleCode) -> (r: ArticleSpecProvider)
        ensures
            r.code == code,
    {
        ArticleSpecProvider { code }
    }
}

/// The degenerate specification of an article code.
pub open spec fn bare_article_spec(code: ArticleCode) -> ArticleSpecView {
    ArticleSpecView {
        code,
        seqs: ArticleSeqs { value: 0 },
        role: ConceptCode::not_found(),
        sums: Seq::empty(),
    }
}

impl IArticleSpecProvider for ArticleSpecProvider {
    open spec fn provider_code(&self) -> ArticleCode {
        self.code
    }

    open spec fn spec_for(&self, period: Period, version: VersionCode) -> ArticleSpecView {
        bare_article_spec(self.code)
    }

    fn get_code(&self) -> (r: ArticleCode) {
        self.code
    }

    fn get_spec(&self, period: &Period, version: &VersionCode) -> (r: ArticleSpec) {
        let concept = ConceptCode::get(CONCEPT_NOTFOUND);
        let r = ArticleSpec::new(self.code, ArticleSeqs::zero(), concept, Vec::new());
        assert(r@.sums =~= Seq::<ArticleCode>::empty());
        r
    }
}

} // verus!
