//! A versioned registry of article and concept specifications: a provider per
//! code turns an effective period and a revision version into a specification,
//! and a factory resolves any code, falling back to a reserved "not found"
//! specification for codes that nobody registered.

pub mod service_types;
pub mod concept_provider;
pub mod article_provider;
pub mod concept_factory;

pub use service_types::{
    ArticleCode, ArticleDefine, ArticleSeqs, ArticleTerm, ConceptCode, IArticleDefine,
    IConceptDefine, VersionCode, CONCEPT_NOTFOUND,
};
pub use concept_provider::{BoxConceptSpecProvider, ConceptSpec, ConceptSpecProvider, IConceptSpec, IConceptSpecProvider, ResultFunc};
pub use article_provider::{ArticleSpec, ArticleSpecProvider, IArticleSpec, IArticleSpecProvider};
pub use concept_factory::{ConceptSpecFactory, NotFoundConceptProvider, NotFoundConceptSpec};
