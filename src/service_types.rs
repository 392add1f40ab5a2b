use vstd::prelude::*;

verus! {

/// The period type of the legal rules crate, carried through to providers.
#[verifier::external_type_specification]
#[verifier::external_body]
pub struct ExPeriod(legalios::service::period::Period);

/// The reserved concept code that marks "no definition for this identifier".
pub const CONCEPT_NOTFOUND: i32 = 0;

/// An identifier in the concept space.
#[derive(Clone, Copy, Debug, PartialEq, Eq, Structural)]
pub struct ConceptCode {
    pub value: i32,
}

impl ConceptCode {
    pub fn get(value: i32) -> (r: ConceptCode)
        ensures
            r.value == value,
    {
        ConceptCode { value }
    }

    pub fn get_value(&self) -> (r: i32)
        ensures
            r == self.value,
    {
        self.value
    }

    /// The reserved code of the concept space.
    pub open spec fn not_found() -> ConceptCode {
        ConceptCode { value: CONCEPT_NOTFOUND }
    }
}

/// An identifier in the article space.
#[derive(Clone, Copy, Debug, PartialEq, Eq, Structural)]
pub struct ArticleCode {
    pub value: i32,
}

impl ArticleCode {
    pub fn get(value: i32) -> (r: ArticleCode)
        ensures
            r.value == value,
    {
        ArticleCode { value }
    }

    pub fn get_value(&self) -> (r: i32)
        ensures
            r == self.value,
    {
        self.value
    }
}

/// A revision identifier, orthogonal to the period.
#[derive(Clone, Copy, Debug, PartialEq, Eq, Structural)]
pub struct VersionCode {
    pub value: i32,
}

impl VersionCode {
    pub fn get(value: i32) -> (r: VersionCode)
        ensures
            r.value == value,
    {
        VersionCode { value }
    }

    pub fn get_value(&self) -> (r: i32)
        ensures
            r == self.value,
    {
        self.value
    }
}

/// The paragraph or item number within an article; zero stands for the whole article.
#[derive(Clone, Copy, Debug, PartialEq, Eq, Structural)]
pub struct ArticleSeqs {
    pub value: i16,
}

impl ArticleSeqs {
    pub fn get(value: i16) -> (r: ArticleSeqs)
        ensures
            r.value == value,
    {
        ArticleSeqs { value }
    }

    pub fn zero() -> (r: ArticleSeqs)
        ensures
            r.value == 0,
    {
        ArticleSeqs { value: 0 }
    }

    pub fn get_value(&self) -> (r: i16)
        ensures
            r == self.value,
    {
        self.value
    }
}

/// The term of an article: its code together with its sequence number.
#[derive(Clone, Copy, Debug, PartialEq, Eq, Structural)]
pub struct ArticleTerm {
    pub code: i32,
    pub seqs: i16,
}

impl ArticleTerm {
    pub fn get(code: i32, seqs: i16) -> (r: ArticleTerm)
        ensures
            r.code == code,
            r.seqs == seqs,
    {
        ArticleTerm { code, seqs }
    }
}

/// The definition of an article: code, sequence number and role.
#[derive(Clone, Copy, Debug, PartialEq, Eq, Structural)]
pub struct ArticleDefine {
    pub code: ArticleCode,
    pub seqs: ArticleSeqs,
    pub role: ConceptCode,
}

impl ArticleDefine {
    pub fn get(code: i32, seqs: i16, role: i32) -> (r: ArticleDefine)
        ensures
            r.code.value == code,
            r.seqs.value == seqs,
            r.role.value == role,
    {
        ArticleDefine { code: ArticleCode::get(code), seqs: ArticleSeqs::get(seqs), role: ConceptCode::get(role) }
    }
}

/// What every article definition exposes.
pub trait IArticleDefine {
    spec fn article_code(&self) -> ArticleCode;

    spec fn article_seqs(&self) -> ArticleSeqs;

    spec fn article_role(&self) -> ConceptCode;

    fn get_code(&self) -> (r: ArticleCode)
        ensures
            r == self.article_code(),
    ;

    fn get_seqs(&self) -> (r: ArticleSeqs)
        ensures
            r == self.article_seqs(),
    ;

    fn get_role(&self) -> (r: ConceptCode)
        ensures
            r == self.article_role(),
    ;

    /// The term is always recomputed from the code and the sequence number.
    fn get_term(&self) -> (r: ArticleTerm)
        ensures
            r.code == self.article_code().value,
            r.seqs == self.article_seqs().value,
    ;
}

/// What every concept definition exposes.
pub trait IConceptDefine {
    spec fn concept_code(&self) -> ConceptCode;

    fn get_code(&self) -> (r: ConceptCode)
        ensures
            r == self.concept_code(),
    ;
}

impl IArticleDefine for ArticleDefine {
    open spec fn article_code(&self) -> ArticleCode {
        self.code
    }

    open spec fn article_seqs(&self) -> ArticleSeqs {
        self.seqs
    }

    open spec fn article_role(&self) -> ConceptCode {
        self.role
    }

    fn get_code(&self) -> (r: ArticleCode) {
        self.code
    }

    fn get_seqs(&self) -> (r: ArticleSeqs) {
        self.seqs
    }

    fn get_role(&self) -> (r: ConceptCode) {
        self.role
    }

    fn get_term(&self) -> (r: ArticleTerm) {
        ArticleTerm::get(self.code.value, self.seqs.value)
    }
}

} // verus!
