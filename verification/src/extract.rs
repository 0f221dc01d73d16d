//! The annotation extractor: given a type definition, produce the ordered
//! directive list and the declared context type. The context comes from a
//! structure-level `ctx(Type)` entry (the last one wins; absent means the
//! unit context). Directives come from the field-level annotation bodies, in
//! the order written, one directive per validator reference. Extraction
//! fails with `MalformedDirective` on a body the micro-grammar refuses and
//! with `UnsupportedShape` on anything but a plain record.

use vstd::prelude::*;
use crate::model::DirModel;
use crate::model::Directive;
use crate::model::FieldDef;
use crate::model::FieldModel;
use crate::model::GenError;
use crate::model::RefModel;
use crate::model::ShapeModel;
use crate::model::TypeDef;
use crate::model::TypeModel;
use crate::model::TypeShape;
use crate::model::ValidatorRef;
use crate::parse::parse_refs;
use crate::parse::parse_validator_list;
use crate::validity::str_eq;

verus! {

/// The identifier that declares the context type.
pub open spec fn ctx_keyword() -> Seq<char> {
    seq!['c', 't', 'x']
}

/// The declared context after scanning `refs`, starting from `acc`: a `ctx`
/// entry must carry exactly one argument, its type reference; the last such
/// entry wins; entries under other names are ignored at structure level.
pub open spec fn ctx_from_refs(refs: Seq<RefModel>, acc: Option<Seq<char>>) -> Result<
    Option<Seq<char>>,
    GenError,
>
    decreases refs.len(),
{
    if refs.len() == 0 {
        Ok(acc)
    } else {
        let e = refs[0];
        if e.name == ctx_keyword() {
            if e.args.len() == 1 {
                ctx_from_refs(refs.drop_first(), Some(e.args[0]))
            } else {
                Err(GenError::MalformedDirective)
            }
        } else {
            ctx_from_refs(refs.drop_first(), acc)
        }
    }
}

/// The declared context after scanning the structure-level annotation
/// bodies, each parsed by the micro-grammar.
pub open spec fn ctx_from_bodies(bodies: Seq<Seq<char>>, acc: Option<Seq<char>>) -> Result<
    Option<Seq<char>>,
    GenError,
>
    decreases bodies.len(),
{
    if bodies.len() == 0 {
        Ok(acc)
    } else {
        match parse_refs(bodies[0]) {
            Option::None => Err(GenError::MalformedDirective),
            Option::Some(refs) => match ctx_from_refs(refs, acc) {
                Result::Err(e) => Err(e),
                Result::Ok(acc2) => ctx_from_bodies(bodies.drop_first(), acc2),
            },
        }
    }
}

/// The directives one field's reference list denotes, in order.
pub open spec fn dirs_of_refs(field: Seq<char>, refs: Seq<RefModel>) -> Seq<DirModel> {
    refs.map_values(|e: RefModel| DirModel { field: field, validator: e.name, args: e.args })
}

/// The directives of one field, across its annotation bodies, in order.
pub open spec fn dirs_from_bodies(field: Seq<char>, bodies: Seq<Seq<char>>) -> Result<
    Seq<DirModel>,
    GenError,
>
    decreases bodies.len(),
{
    if bodies.len() == 0 {
        Ok(Seq::empty())
    } else {
        match parse_refs(bodies[0]) {
            Option::None => Err(GenError::MalformedDirective),
            Option::Some(refs) => match dirs_from_bodies(field, bodies.drop_first()) {
                Result::Err(e) => Err(e),
                Result::Ok(rest) => Ok(dirs_of_refs(field, refs) + rest),
            },
        }
    }
}

/// The directives of a record, field by field, in declaration order.
pub open spec fn dirs_from_fields(fields: Seq<FieldModel>) -> Result<Seq<DirModel>, GenError>
    decreases fields.len(),
{
    if fields.len() == 0 {
        Ok(Seq::empty())
    } else {
        match dirs_from_bodies(fields[0].name, fields[0].annotations) {
            Result::Err(e) => Err(e),
            Result::Ok(front) => match dirs_from_fields(fields.drop_first()) {
                Result::Err(e) => Err(e),
                Result::Ok(rest) => Ok(front + rest),
            },
        }
    }
}

/// The model of an extraction: the optional declared context type and the
/// ordered directive list.
pub struct ExtractionModel {
    pub context_type: Option<Seq<char>>,
    pub directives: Seq<DirModel>,
}

/// What the extractor produces for a type definition: the declared context
/// type, if any, and the ordered directive list.
#[derive(Debug)]
pub struct Extraction {
    pub context_type: Option<String>,
    pub directives: Vec<Directive>,
}

impl DeepView for Extraction {
    type V = ExtractionModel;

    open spec fn deep_view(&self) -> ExtractionModel {
        ExtractionModel {
            context_type: self.context_type.deep_view(),
            directives: self.directives.deep_view(),
        }
    }
}

/// What extraction yields for a type definition.
pub open spec fn spec_extract(t: TypeModel) -> Result<ExtractionModel, GenError> {
    match t.shape {
        ShapeModel::Other => Err(GenError::UnsupportedShape),
        ShapeModel::Record(fields) => match ctx_from_bodies(t.annotations, None) {
            Result::Err(e) => Err(e),
            Result::Ok(ctx) => match dirs_from_fields(fields) {
                Result::Err(e) => Err(e),
                Result::Ok(ds) => Ok(ExtractionModel { context_type: ctx, directives: ds }),
            },
        },
    }
}

fn scan_refs_for_ctx(refs: &Vec<ValidatorRef>, acc: Option<String>) -> (r: Result<
    Option<String>,
    GenError,
>)
    ensures
        (match r {
            Ok(c) => ctx_from_refs(refs.deep_view(), acc.deep_view()) == Ok::<_, GenError>(
                c.deep_view(),
            ),
            Err(e) => ctx_from_refs(refs.deep_view(), acc.deep_view()) == Err::<
                Option<Seq<char>>,
                _,
            >(e),
        }),
{
    let ghost whole = refs.deep_view();
    let ghost acc0 = acc.deep_view();
    let n = refs.len();
    let mut cur = acc;
    let mut i: usize = 0;
    proof {
        assert(whole.skip(0) =~= whole);
        reveal_strlit("ctx");
        assert("ctx"@ =~= ctx_keyword());
    }
    while i < n
        invariant
            whole == refs.deep_view(),
            whole.len() == n,
            acc0 == acc.deep_view(),
            n == refs@.len(),
            i <= n,
            "ctx"@ == ctx_keyword(),
            ctx_from_refs(whole, acc0) == ctx_from_refs(whole.skip(i as int), cur.deep_view()),
        decreases n - i,
    {
        proof {
            assert(whole.skip(i as int)[0] == whole[i as int]);
            assert(whole.skip(i as int).drop_first() =~= whole.skip(i + 1 as int));
            assert(whole[i as int] == refs@[i as int].deep_view());
        }
        proof {
            assert(refs@[i as int].deep_view().args.len() == refs@[i as int].args@.len());
        }
        let named_ctx = str_eq(refs[i].name.as_str(), "ctx");
        if named_ctx {
            if refs[i].args.len() == 1 {
                cur = Some(refs[i].args[0].clone());
                proof {
                    assert(refs@[i as int].deep_view().args[0] == refs@[i as int].args@[0]@);
                }
            } else {
                proof {
                    assert(ctx_from_refs(whole.skip(i as int), cur.deep_view()) == Err::<
                        Option<Seq<char>>,
                        GenError,
                    >(GenError::MalformedDirective));
                }
                return Err(GenError::MalformedDirective);
            }
        }
        i += 1;
    }
    proof {
        assert(whole.skip(n as int) =~= Seq::<RefModel>::empty());
    }
    Ok(cur)
}

/// Scan the structure-level annotation bodies for the declared context type.
pub fn extract_context(annotations: &Vec<String>) -> (r: Result<Option<String>, GenError>)
    ensures
        (match r {
            Ok(c) => ctx_from_bodies(annotations.deep_view(), None) == Ok::<_, GenError>(
                c.deep_view(),
            ),
            Err(e) => ctx_from_bodies(annotations.deep_view(), None) == Err::<
                Option<Seq<char>>,
                _,
            >(e),
        }),
{
    let ghost whole = annotations.deep_view();
    let n = annotations.len();
    let mut cur: Option<String> = None;
    let mut i: usize = 0;
    proof {
        assert(whole.skip(0) =~= whole);
    }
    while i < n
        invariant
            whole == annotations.deep_view(),
            n == annotations@.len(),
            i <= n,
            ctx_from_bodies(whole, None) == ctx_from_bodies(whole.skip(i as int), cur.deep_view()),
        decreases n - i,
    {
        proof {
            assert(whole.skip(i as int)[0] == whole[i as int]);
            assert(whole.skip(i as int).drop_first() =~= whole.skip(i + 1 as int));
            assert(whole[i as int] == annotations@[i as int]@);
        }
        match parse_validator_list(annotations[i].as_str()) {
            Result::Err(e) => {
                return Err(e);
            },
            Result::Ok(refs) => {
                match scan_refs_for_ctx(&refs, cur) {
                    Result::Err(e) => {
                        return Err(e);
                    },
                    Result::Ok(next) => {
                        cur = next;
                    },
                }
            },
        }
        i += 1;
    }
    proof {
        assert(whole.skip(n as int) =~= Seq::<Seq<char>>::empty());
    }
    Ok(cur)
}

fn clone_strings(v: &Vec<String>) -> (r: Vec<String>)
    ensures
        r.deep_view() == v.deep_view(),
{
    let n = v.len();
    let mut out: Vec<String> = Vec::new();
    let mut i: usize = 0;
    proof {
        assert(out.deep_view() =~= v.deep_view().take(0));
    }
    while i < n
        invariant
            n == v@.len(),
            i <= n,
            out.deep_view() == v.deep_view().take(i as int),
        decreases n - i,
    {
        let ghost old_dv = out.deep_view();
        proof {
            assert(old_dv.len() == i as int);
            assert(out@.len() == i as int);
        }
        out.push(v[i].clone());
        proof {
            assert(out@[i as int] == v@[i as int]);
            assert(out.deep_view() =~= old_dv.push(v@[i as int]@));
            assert(out.deep_view() =~= v.deep_view().take(i + 1 as int));
        }
        i += 1;
    }
    proof {
        assert(v.deep_view().take(n as int) =~= v.deep_view());
    }
    out
}

fn refs_to_dirs(field_name: &String, refs: &Vec<ValidatorRef>) -> (r: Vec<Directive>)
    ensures
        r.deep_view() == dirs_of_refs(field_name@, refs.deep_view()),
{
    let n = refs.len();
    let mut out: Vec<Directive> = Vec::new();
    let mut i: usize = 0;
    proof {
        assert(out.deep_view() =~= dirs_of_refs(field_name@, refs.deep_view().take(0)));
    }
    while i < n
        invariant
            n == refs@.len(),
            i <= n,
            out.deep_view() == dirs_of_refs(field_name@, refs.deep_view().take(i as int)),
        decreases n - i,
    {
        let d = Directive {
            field_name: field_name.clone(),
            validator_name: refs[i].name.clone(),
            args: clone_strings(&refs[i].args),
        };
        let ghost dv = d.deep_view();
        let ghost old_dv = out.deep_view();
        out.push(d);
        proof {
            assert(refs.deep_view()[i as int] == refs@[i as int].deep_view());
            assert(dv == DirModel {
                field: field_name@,
                validator: refs.deep_view()[i as int].name,
                args: refs.deep_view()[i as int].args,
            });
            assert(out.deep_view() =~= old_dv.push(dv));
            assert(out.deep_view() =~= dirs_of_refs(
                field_name@,
                refs.deep_view().take(i + 1 as int),
            ));
        }
        i += 1;
    }
    proof {
        assert(refs.deep_view().take(n as int) =~= refs.deep_view());
    }
    out
}

fn extract_field_dirs(field: &FieldDef) -> (r: Result<Vec<Directive>, GenError>)
    ensures
        (match r {
            Ok(ds) => dirs_from_bodies(field.name@, field.annotations.deep_view()) == Ok::<
                _,
                GenError,
            >(ds.deep_view()),
            Err(e) => dirs_from_bodies(field.name@, field.annotations.deep_view()) == Err::<
                Seq<DirModel>,
                _,
            >(e),
        }),
{
    let ghost bodies = field.annotations.deep_view();
    let n = field.annotations.len();
    let mut out: Vec<Directive> = Vec::new();
    let mut i: usize = 0;
    proof {
        assert(bodies.skip(0) =~= bodies);
        assert(out.deep_view() =~= Seq::<DirModel>::empty());
    }
    while i < n
        invariant
            bodies == field.annotations.deep_view(),
            n == field.annotations@.len(),
            i <= n,
            (dirs_from_bodies(field.name@, bodies.skip(i as int)) matches Ok(rest)
                ==> dirs_from_bodies(field.name@, bodies) == Ok::<_, GenError>(
                out.deep_view() + rest,
            )),
            (dirs_from_bodies(field.name@, bodies.skip(i as int)) matches Err(e)
                ==> dirs_from_bodies(field.name@, bodies) == Err::<Seq<DirModel>, GenError>(e)),
        decreases n - i,
    {
        proof {
            assert(bodies.skip(i as int)[0] == bodies[i as int]);
            assert(bodies.skip(i as int).drop_first() =~= bodies.skip(i + 1 as int));
            assert(bodies[i as int] == field.annotations@[i as int]@);
        }
        let ghost old_out = out.deep_view();
        match parse_validator_list(field.annotations[i].as_str()) {
            Result::Err(e) => {
                proof {
                    assert(dirs_from_bodies(field.name@, bodies.skip(i as int))
                        == Err::<Seq<DirModel>, GenError>(e));
                }
                return Err(e);
            },
            Result::Ok(refs) => {
                let mut part = refs_to_dirs(&field.name, &refs);
                let ghost part_view = part.deep_view();
                out.append(&mut part);
                proof {
                    assert(out.deep_view() =~= old_out + part_view);
                    match dirs_from_bodies(field.name@, bodies.skip(i + 1 as int)) {
                        Result::Ok(rest) => {
                            assert(dirs_from_bodies(field.name@, bodies.skip(i as int)) == Ok::<
                                _,
                                GenError,
                            >(part_view + rest));
                            assert(old_out + (part_view + rest) =~= (old_out + part_view) + rest);
                        },
                        Result::Err(_) => {},
                    }
                }
            },
        }
        i += 1;
    }
    proof {
        assert(bodies.skip(n as int) =~= Seq::<Seq<char>>::empty());
        assert(out.deep_view() + Seq::<DirModel>::empty() =~= out.deep_view());
    }
    Ok(out)
}

fn extract_dirs(fields: &Vec<FieldDef>) -> (r: Result<Vec<Directive>, GenError>)
    ensures
        (match r {
            Ok(ds) => dirs_from_fields(fields.deep_view()) == Ok::<_, GenError>(ds.deep_view()),
            Err(e) => dirs_from_fields(fields.deep_view()) == Err::<Seq<DirModel>, _>(e),
        }),
{
    let ghost whole = fields.deep_view();
    let n = fields.len();
    let mut out: Vec<Directive> = Vec::new();
    let mut i: usize = 0;
    proof {
        assert(whole.skip(0) =~= whole);
        assert(out.deep_view() =~= Seq::<DirModel>::empty());
    }
    while i < n
        invariant
            whole == fields.deep_view(),
            n == fields@.len(),
            i <= n,
            (dirs_from_fields(whole.skip(i as int)) matches Ok(rest)
                ==> dirs_from_fields(whole) == Ok::<_, GenError>(out.deep_view() + rest)),
            (dirs_from_fields(whole.skip(i as int)) matches Err(e)
                ==> dirs_from_fields(whole) == Err::<Seq<DirModel>, GenError>(e)),
        decreases n - i,
    {
        proof {
            assert(whole.skip(i as int)[0] == whole[i as int]);
            assert(whole.skip(i as int).drop_first() =~= whole.skip(i + 1 as int));
            assert(whole[i as int] == fields@[i as int].deep_view());
        }
        let ghost old_out = out.deep_view();
        match extract_field_dirs(&fields[i]) {
            Result::Err(e) => {
                return Err(e);
            },
            Result::Ok(mut part) => {
                let ghost part_view = part.deep_view();
                out.append(&mut part);
                proof {
                    assert(out.deep_view() =~= old_out + part_view);
                    match dirs_from_fields(whole.skip(i + 1 as int)) {
                        Result::Ok(rest) => {
                            assert(dirs_from_fields(whole.skip(i as int)) == Ok::<_, GenError>(
                                part_view + rest,
                            ));
                            assert(old_out + (part_view + rest) =~= (old_out + part_view) + rest);
                        },
                        Result::Err(_) => {},
                    }
                }
            },
        }
        i += 1;
    }
    proof {
        assert(whole.skip(n as int) =~= Seq::<FieldModel>::empty());
        assert(out.deep_view() + Seq::<DirModel>::empty() =~= out.deep_view());
    }
    Ok(out)
}

/// Extract a type definition's directive list and declared context type.
pub fn extract(ty: &TypeDef) -> (r: Result<Extraction, GenError>)
    ensures
        (match r {
            Ok(ex) => spec_extract(ty.deep_view()) == Ok::<_, GenError>(ex.deep_view()),
            Err(e) => spec_extract(ty.deep_view()) == Err::<ExtractionModel, _>(e),
        }),
{
    match &ty.shape {
        TypeShape::Other => Err(GenError::UnsupportedShape),
        TypeShape::Record(fields) => {
            let context_type = match extract_context(&ty.annotations) {
                Result::Err(e) => {
                    return Err(e);
                },
                Result::Ok(c) => c,
            };
            let directives = match extract_dirs(fields) {
                Result::Err(e) => {
                    return Err(e);
                },
                Result::Ok(ds) => ds,
            };
            Ok(Extraction { context_type, directives })
        },
    }
}

} // verus!
