//! The rule compiler and emitter. `compile` extracts a type definition's
//! directives and context type, and rejects a context-referencing argument
//! when no context type is declared (the context of an undeclared structure
//! is the unit type, so such an expression could never be resolved). `render`
//! synthesizes the body of the validation entry point from the plan: a fold
//! that starts from `Validity::valid()`, runs one validator call per
//! directive in extraction order, tags each raw result with the originating
//! field and validator names, and combines it into the accumulator.

use vstd::prelude::*;
use vstd::string::StrSliceExecFns;
use vstd::string::StringExecFns;
use crate::extract::Extraction;
use crate::extract::ExtractionModel;
use crate::extract::extract;
use crate::extract::spec_extract;
use crate::model::DirModel;
use crate::model::GenError;
use crate::model::TypeDef;
use crate::model::TypeModel;
use crate::parse::LitMode;
use crate::parse::ident_char;
use crate::parse::is_ident_char;
use crate::parse::is_space;
use crate::parse::lit_advance;
use crate::parse::lit_step;
use crate::parse::space_char;

verus! {

/// The literal automaton's state before the `i`th character of the fragment.
pub open spec fn lit_run(s: Seq<char>, i: int) -> LitMode
    decreases i,
{
    if i <= 0 {
        LitMode::Outside
    } else {
        lit_step(lit_run(s, i - 1), s[i - 1])
    }
}

/// The last non-space character before position `i` of the fragment, if any.
pub open spec fn prev_nonspace(s: Seq<char>, i: int) -> Option<char>
    decreases i,
{
    if i <= 0 {
        None
    } else if space_char(s[i - 1]) {
        prev_nonspace(s, i - 1)
    } else {
        Some(s[i - 1])
    }
}

/// The identifier `ctx` stands at position `i` of the fragment as a whole
/// token naming the context binding: not part of a longer identifier, not a
/// field selected by `.` (that names a field `ctx` of some value, not the
/// binding), and not inside a string or character literal.
pub open spec fn ctx_at(s: Seq<char>, i: int) -> bool {
    &&& 0 <= i
    &&& i + 3 <= s.len()
    &&& s[i] == 'c'
    &&& s[i + 1] == 't'
    &&& s[i + 2] == 'x'
    &&& (i == 0 || !ident_char(s[i - 1]))
    &&& (i + 3 == s.len() || !ident_char(s[i + 3]))
    &&& prev_nonspace(s, i) != Some('.')
    &&& lit_run(s, i) is Outside
}

/// The fragment mentions the context binding.
pub open spec fn mentions_ctx(s: Seq<char>) -> bool {
    exists|i: int| ctx_at(s, i)
}

/// Whether an expression fragment references the context binding `ctx`.
pub fn references_ctx(s: &str) -> (r: bool)
    ensures
        r == mentions_ctx(s@),
{
    let n = s.unicode_len();
    let mut lit = LitMode::Outside;
    let mut prev: Option<char> = None;
    let mut i: usize = 0;
    while i < n
        invariant
            n == s@.len(),
            i <= n,
            lit == lit_run(s@, i as int),
            prev == prev_nonspace(s@, i as int),
            forall|j: int| 0 <= j < i ==> !ctx_at(s@, j),
        decreases n - i,
    {
        let c = s.get_char(i);
        if n - i >= 3 {
            let c1 = s.get_char(i + 1);
            let c2 = s.get_char(i + 2);
            let left_free = if i == 0 {
                true
            } else {
                !is_ident_char(s.get_char(i - 1))
            };
            let right_free = if i + 3 == n {
                true
            } else {
                !is_ident_char(s.get_char(i + 3))
            };
            let selected = match prev {
                Option::Some(p) => p == '.',
                Option::None => false,
            };
            if c == 'c' && c1 == 't' && c2 == 'x' && left_free && right_free && !selected && lit
                == LitMode::Outside {
                proof {
                    assert(ctx_at(s@, i as int));
                }
                return true;
            }
            proof {
                assert(!ctx_at(s@, i as int));
            }
        } else {
            proof {
                assert(!ctx_at(s@, i as int));
            }
        }
        lit = lit_advance(lit, c);
        prev = if is_space(c) {
            prev
        } else {
            Some(c)
        };
        i += 1;
    }
    proof {
        assert forall|j: int| !ctx_at(s@, j) by {
            if j >= i {
                assert(j + 3 > n);
            }
        };
    }
    false
}

/// Some directive argument mentions the context binding.
pub open spec fn any_ctx_ref(ds: Seq<DirModel>) -> bool {
    exists|i: int, j: int|
        0 <= i < ds.len() && 0 <= j < ds[i].args.len() && mentions_ctx(ds[i].args[j])
}

/// What the rule compiler yields for a type definition: the extraction, or
/// `ContextUnavailable` when an argument references the context while no
/// context type is declared; extraction errors pass through.
pub open spec fn spec_compile(t: TypeModel) -> Result<ExtractionModel, GenError> {
    match spec_extract(t) {
        Result::Err(e) => Err(e),
        Result::Ok(ex) => if ex.context_type is None && any_ctx_ref(ex.directives) {
            Err(GenError::ContextUnavailable)
        } else {
            Ok(ex)
        },
    }
}

/// Compile a type definition into its validation plan.
pub fn compile(ty: &TypeDef) -> (r: Result<Extraction, GenError>)
    ensures
        (match r {
            Ok(plan) => spec_compile(ty.deep_view()) == Ok::<_, GenError>(plan.deep_view()),
            Err(e) => spec_compile(ty.deep_view()) == Err::<ExtractionModel, _>(e),
        }),
{
    let ex = match extract(ty) {
        Result::Err(e) => {
            return Err(e);
        },
        Result::Ok(ex) => ex,
    };
    let ghost tym = ty.deep_view();
    let ghost exm = ex.deep_view();
    let ghost dsm = ex.directives.deep_view();
    match &ex.context_type {
        Option::Some(_) => Ok(ex),
        Option::None => {
            let n = ex.directives.len();
            let mut i: usize = 0;
            while i < n
                invariant
                    tym == ty.deep_view(),
                    spec_extract(tym) == Ok::<_, GenError>(exm),
                    exm == ex.deep_view(),
                    dsm == ex.directives.deep_view(),
                    exm.context_type is None,
                    n == ex.directives@.len(),
                    i <= n,
                    forall|i2: int, j2: int|
                        0 <= i2 < i && 0 <= j2 < dsm[i2].args.len() ==> !mentions_ctx(
                            #[trigger] dsm[i2].args[j2],
                        ),
                decreases n - i,
            {
                let m = ex.directives[i].args.len();
                let mut j: usize = 0;
                proof {
                    assert(dsm[i as int] == ex.directives@[i as int].deep_view());
                }
                while j < m
                    invariant
                        tym == ty.deep_view(),
                        spec_extract(tym) == Ok::<_, GenError>(exm),
                        exm == ex.deep_view(),
                        dsm == ex.directives.deep_view(),
                        exm.context_type is None,
                        n == ex.directives@.len(),
                        i < n,
                        m == ex.directives@[i as int].args@.len(),
                        dsm[i as int] == ex.directives@[i as int].deep_view(),
                        j <= m,
                        forall|i2: int, j2: int|
                            0 <= i2 < i && 0 <= j2 < dsm[i2].args.len() ==> !mentions_ctx(
                                #[trigger] dsm[i2].args[j2],
                            ),
                        forall|j2: int|
                            0 <= j2 < j ==> !mentions_ctx(#[trigger] dsm[i as int].args[j2]),
                    decreases m - j,
                {
                    proof {
                        assert(dsm[i as int].args[j as int]
                            == ex.directives@[i as int].args@[j as int]@);
                    }
                    if references_ctx(ex.directives[i].args[j].as_str()) {
                        proof {
                            assert(mentions_ctx(dsm[i as int].args[j as int]));
                            assert(any_ctx_ref(dsm));
                        }
                        return Err(GenError::ContextUnavailable);
                    }
                    j += 1;
                }
                i += 1;
            }
            proof {
                assert(!any_ctx_ref(dsm));
            }
            Ok(ex)
        },
    }
}

/// The argument text of one call site: each directive argument, preceded by
/// a separating comma, after the field reference.
pub open spec fn render_args(args: Seq<Seq<char>>) -> Seq<char>
    decreases args.len(),
{
    if args.len() == 0 {
        Seq::empty()
    } else {
        render_args(args.drop_last()) + ", "@ + args.last()
    }
}

/// One synthesized call site: run the named validator on the named field
/// with the directive's arguments, tag the raw result with the (field,
/// validator) pair, and combine it into the accumulator.
pub open spec fn render_call(d: DirModel) -> Seq<char> {
    "    all.combine("@ + d.validator + "(&self."@ + d.field + render_args(d.args)
        + ").push_blacklist(\""@ + d.field + "\", \""@ + d.validator + "\"));\n"@
}

/// The call sites of a directive list, in extraction order.
pub open spec fn render_calls(ds: Seq<DirModel>) -> Seq<char>
    decreases ds.len(),
{
    if ds.len() == 0 {
        Seq::empty()
    } else {
        render_calls(ds.drop_last()) + render_call(ds.last())
    }
}

/// The full body of the validation entry point for a directive list.
pub open spec fn spec_render(ds: Seq<DirModel>) -> Seq<char> {
    "    let mut all = Validity::valid();\n"@ + render_calls(ds) + "    all\n"@
}

/// Render the body of the validation entry point for a compiled plan, as
/// source text.
#[verifier::rlimit(60)]
pub fn render(plan: &Extraction) -> (body: String)
    ensures
        body@ == spec_render(plan.directives.deep_view()),
{
    let ghost dsm = plan.directives.deep_view();
    let mut out = String::new();
    out.append("    let mut all = Validity::valid();\n");
    let n = plan.directives.len();
    let mut i: usize = 0;
    proof {
        assert(dsm.take(0) =~= Seq::<DirModel>::empty());
        assert(out@ =~= "    let mut all = Validity::valid();\n"@ + render_calls(dsm.take(0)));
    }
    while i < n
        invariant
            dsm == plan.directives.deep_view(),
            n == plan.directives@.len(),
            i <= n,
            out@ == "    let mut all = Validity::valid();\n"@ + render_calls(dsm.take(i as int)),
        decreases n - i,
    {
        let d = &plan.directives[i];
        let ghost dm = dsm[i as int];
        proof {
            assert(dm == plan.directives@[i as int].deep_view());
        }
        let ghost pre = out@;
        out.append("    all.combine(");
        out.append(d.validator_name.as_str());
        out.append("(&self.");
        out.append(d.field_name.as_str());
        let ghost head = pre + "    all.combine("@ + dm.validator + "(&self."@ + dm.field;
        let m = d.args.len();
        let mut j: usize = 0;
        proof {
            assert(dm.args.take(0) =~= Seq::<Seq<char>>::empty());
            assert(out@ =~= head + render_args(dm.args.take(0)));
        }
        while j < m
            invariant
                dsm == plan.directives.deep_view(),
                n == plan.directives@.len(),
                i < n,
                dm == dsm[i as int],
                dm == plan.directives@[i as int].deep_view(),
                m == plan.directives@[i as int].args@.len(),
                j <= m,
                out@ == head + render_args(dm.args.take(j as int)),
            decreases m - j,
        {
            out.append(", ");
            out.append(plan.directives[i].args[j].as_str());
            proof {
                assert(dm.args[j as int] == plan.directives@[i as int].args@[j as int]@);
                assert(dm.args.take(j + 1 as int).drop_last() =~= dm.args.take(j as int));
                assert(dm.args.take(j + 1 as int).last() == dm.args[j as int]);
                assert(out@ =~= head + render_args(dm.args.take(j + 1 as int)));
            }
            j += 1;
        }
        proof {
            assert(dm.args.take(m as int) =~= dm.args);
        }
        out.append(").push_blacklist(\"");
        out.append(d.field_name.as_str());
        out.append("\", \"");
        out.append(d.validator_name.as_str());
        out.append("\"));\n");
        proof {
            assert(dsm.take(i + 1 as int).drop_last() =~= dsm.take(i as int));
            assert(dsm.take(i + 1 as int).last() == dm);
            assert(out@ =~= head + render_args(dm.args) + ").push_blacklist(\""@ + dm.field
                + "\", \""@ + dm.validator + "\"));\n"@);
            assert(head + render_args(dm.args) + ").push_blacklist(\""@ + dm.field + "\", \""@
                + dm.validator + "\"));\n"@ =~= pre + render_call(dm));
            assert(out@ =~= "    let mut all = Validity::valid();\n"@ + render_calls(
                dsm.take(i + 1 as int),
            ));
        }
        i += 1;
    }
    proof {
        assert(dsm.take(n as int) =~= dsm);
    }
    out.append("    all\n");
    proof {
        assert(out@ =~= spec_render(dsm));
    }
    out
}

} // verus!
