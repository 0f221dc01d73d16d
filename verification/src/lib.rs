//! A declarative validation framework: the validity algebra that validation
//! runs fold their outcomes into, the built-in leaf validators, and the rule
//! compiler that turns a type definition's field annotations into the body of
//! that type's validation entry point.

pub mod built_in;
mod emit;
mod extract;
mod model;
mod parse;
mod validity;

pub use emit::any_ctx_ref;
pub use emit::compile;
pub use emit::ctx_at;
pub use emit::lit_run;
pub use emit::prev_nonspace;
pub use emit::mentions_ctx;
pub use emit::references_ctx;
pub use emit::render;
pub use emit::render_args;
pub use emit::render_call;
pub use emit::render_calls;
pub use emit::spec_compile;
pub use emit::spec_render;
pub use extract::Extraction;
pub use extract::ExtractionModel;
pub use extract::ctx_from_bodies;
pub use extract::ctx_from_refs;
pub use extract::ctx_keyword;
pub use extract::dirs_from_bodies;
pub use extract::dirs_from_fields;
pub use extract::dirs_of_refs;
pub use extract::extract;
pub use extract::extract_context;
pub use extract::spec_extract;
pub use model::DirModel;
pub use model::Directive;
pub use model::FieldDef;
pub use model::FieldModel;
pub use model::GenError;
pub use model::RefModel;
pub use model::ShapeModel;
pub use model::TypeDef;
pub use model::TypeModel;
pub use model::TypeShape;
pub use model::ValidatorRef;
pub use parse::LitMode;
pub use parse::lit_free;
pub use parse::lit_step;
pub use parse::parse_refs;
pub use parse::parse_validator_list;
pub use parse::trimmed;

pub use validity::Blacklist;
pub use validity::BlacklistModel;
pub use validity::FieldName;
pub use validity::Validate;
pub use validity::Validity;
pub use validity::ValidatorName;
pub use validity::Verdict;
pub use validity::lemma_combine_absorption;
pub use validity::lemma_combine_associative;
pub use validity::lemma_combine_identity;
pub use validity::lemma_combine_monotone;
pub use validity::lemma_push_additive;
pub use validity::lemma_push_idempotent;
pub use validity::spec_combine;
pub use validity::spec_push;
pub use validity::verdict_of;
