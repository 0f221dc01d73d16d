//! The annotation micro-language. A field-level annotation body is a
//! comma-separated list of validator references, each `name` or
//! `name(arg, ..., arg)`. A name is an identifier; an argument is an
//! arbitrary, non-empty expression fragment whose parentheses balance, taken
//! verbatim (surrounding spaces stripped). A comma or parenthesis inside a
//! string or character literal is the fragment's text, not syntax. The
//! grammar is given as a character-at-a-time state machine
//! (`step`/`run`/`parse_refs`), and the executable parser is proved to
//! decide exactly that grammar.

use vstd::prelude::*;
use vstd::string::StrSliceExecFns;
use crate::model::GenError;
use crate::model::RefModel;
use crate::model::ValidatorRef;

verus! {

/// The blanks the micro-syntax skips between tokens.
pub open spec fn space_char(c: char) -> bool {
    c == ' ' || c == '\t' || c == '\n' || c == '\r'
}

/// A character that may start a validator name.
pub open spec fn ident_start_char(c: char) -> bool {
    ('a' as u32 <= c as u32 && c as u32 <= 'z' as u32) || ('A' as u32 <= c as u32 && c as u32
        <= 'Z' as u32) || c == '_'
}

/// A character that may continue a validator name.
pub open spec fn ident_char(c: char) -> bool {
    ident_start_char(c) || ('0' as u32 <= c as u32 && c as u32 <= '9' as u32)
}

pub(crate) fn is_space(c: char) -> (r: bool)
    ensures
        r == space_char(c),
{
    c == ' ' || c == '\t' || c == '\n' || c == '\r'
}

fn is_ident_start(c: char) -> (r: bool)
    ensures
        r == ident_start_char(c),
{
    ('a' as u32 <= c as u32 && c as u32 <= 'z' as u32) || ('A' as u32 <= c as u32 && c as u32
        <= 'Z' as u32) || c == '_'
}

pub(crate) fn is_ident_char(c: char) -> (r: bool)
    ensures
        r == ident_char(c),
{
    is_ident_start(c) || ('0' as u32 <= c as u32 && c as u32 <= '9' as u32)
}

/// Where a scan of an expression fragment stands with respect to string and
/// character literals. A `'` opens either a character literal or a lifetime;
/// which one falls with the second character after it: a closing `'` makes
/// it a literal, anything else made it a lifetime.
#[derive(Clone, Copy, Debug, PartialEq, Eq, Structural)]
pub enum LitMode {
    /// Outside any literal.
    Outside,
    /// Inside a string literal.
    InString,
    /// Inside a string literal, just past a backslash.
    StringEscape,
    /// Just past a `'`.
    CharOpen,
    /// Just past a backslash that follows a `'`.
    CharEscape,
    /// Past one character of a character literal or lifetime.
    CharOne,
}

/// One character of the literal automaton.
pub open spec fn lit_step(m: LitMode, c: char) -> LitMode {
    match m {
        LitMode::Outside => if c == '"' {
            LitMode::InString
        } else if c == '\'' {
            LitMode::CharOpen
        } else {
            LitMode::Outside
        },
        LitMode::InString => if c == '"' {
            LitMode::Outside
        } else if c == '\\' {
            LitMode::StringEscape
        } else {
            LitMode::InString
        },
        LitMode::StringEscape => LitMode::InString,
        LitMode::CharOpen => if c == '\\' {
            LitMode::CharEscape
        } else if c == '\'' {
            LitMode::Outside
        } else {
            LitMode::CharOne
        },
        LitMode::CharEscape => LitMode::CharOne,
        LitMode::CharOne => if c == '\'' {
            LitMode::Outside
        } else if c == '"' {
            LitMode::InString
        } else {
            LitMode::Outside
        },
    }
}

/// A character on which the argument grammar's separators and parentheses
/// act: one that stands outside any literal and opens none.
pub open spec fn lit_free(m: LitMode, c: char) -> bool {
    (m is Outside || m is CharOne) && c != '"' && c != '\''
}

pub(crate) fn lit_advance(m: LitMode, c: char) -> (r: LitMode)
    ensures
        r == lit_step(m, c),
{
    match m {
        LitMode::Outside => if c == '"' {
            LitMode::InString
        } else if c == '\'' {
            LitMode::CharOpen
        } else {
            LitMode::Outside
        },
        LitMode::InString => if c == '"' {
            LitMode::Outside
        } else if c == '\\' {
            LitMode::StringEscape
        } else {
            LitMode::InString
        },
        LitMode::StringEscape => LitMode::InString,
        LitMode::CharOpen => if c == '\\' {
            LitMode::CharEscape
        } else if c == '\'' {
            LitMode::Outside
        } else {
            LitMode::CharOne
        },
        LitMode::CharEscape => LitMode::CharOne,
        LitMode::CharOne => if c == '\'' {
            LitMode::Outside
        } else if c == '"' {
            LitMode::InString
        } else {
            LitMode::Outside
        },
    }
}

/// A fragment with its leading spaces stripped.
pub open spec fn trim_front(s: Seq<char>) -> Seq<char>
    decreases s.len(),
{
    if s.len() > 0 && space_char(s[0]) {
        trim_front(s.drop_first())
    } else {
        s
    }
}

/// A fragment with its trailing spaces stripped.
pub open spec fn trim_back(s: Seq<char>) -> Seq<char>
    decreases s.len(),
{
    if s.len() > 0 && space_char(s.last()) {
        trim_back(s.drop_last())
    } else {
        s
    }
}

/// A fragment with spaces stripped on both ends.
pub open spec fn trimmed(s: Seq<char>) -> Seq<char> {
    trim_back(trim_front(s))
}

/// Where the parser stands between two characters.
#[derive(Clone, Copy, Debug, PartialEq, Eq, Structural)]
pub enum ParseMode {
    /// Before a reference's name: at the start, or just past a separator.
    BeforeName,
    /// Inside a reference's name.
    InName,
    /// Past a name, before its argument list or separator.
    AfterName,
    /// Inside a parenthesized argument list.
    InArgs,
    /// Past a closed argument list, before a separator.
    AfterArgs,
    /// The input does not belong to the grammar.
    Failed,
}

/// The parser's full state: the references finished so far, the name and
/// arguments of the reference in progress, the argument fragment in
/// progress, the nesting depth inside it, and where the fragment stands with
/// respect to literals (separators and parentheses inside a string or
/// character literal are its text, not syntax).
pub struct ParseState {
    pub mode: ParseMode,
    pub done: Seq<RefModel>,
    pub name: Seq<char>,
    pub args: Seq<Seq<char>>,
    pub buf: Seq<char>,
    pub depth: int,
    pub lit: LitMode,
}

/// The state before any character is read.
pub open spec fn init_state() -> ParseState {
    ParseState {
        mode: ParseMode::BeforeName,
        done: Seq::empty(),
        name: Seq::empty(),
        args: Seq::empty(),
        buf: Seq::empty(),
        depth: 0,
        lit: LitMode::Outside,
    }
}

/// The in-progress reference, finished without an argument list.
pub open spec fn finish_bare(st: ParseState) -> Seq<RefModel> {
    st.done.push(RefModel { name: st.name, args: Seq::empty() })
}

/// One character of the micro-grammar.
pub open spec fn step(st: ParseState, c: char) -> ParseState {
    match st.mode {
        ParseMode::Failed => st,
        ParseMode::BeforeName => if space_char(c) {
            st
        } else if ident_start_char(c) {
            ParseState { mode: ParseMode::InName, name: seq![c], ..st }
        } else {
            ParseState { mode: ParseMode::Failed, ..st }
        },
        ParseMode::InName => if ident_char(c) {
            ParseState { name: st.name.push(c), ..st }
        } else if space_char(c) {
            ParseState { mode: ParseMode::AfterName, ..st }
        } else if c == '(' {
            ParseState {
                mode: ParseMode::InArgs,
                args: Seq::empty(),
                buf: Seq::empty(),
                depth: 0,
                lit: LitMode::Outside,
                ..st
            }
        } else if c == ',' {
            ParseState { mode: ParseMode::BeforeName, done: finish_bare(st), name: Seq::empty(), ..st }
        } else {
            ParseState { mode: ParseMode::Failed, ..st }
        },
        ParseMode::AfterName => if space_char(c) {
            st
        } else if c == '(' {
            ParseState {
                mode: ParseMode::InArgs,
                args: Seq::empty(),
                buf: Seq::empty(),
                depth: 0,
                lit: LitMode::Outside,
                ..st
            }
        } else if c == ',' {
            ParseState { mode: ParseMode::BeforeName, done: finish_bare(st), name: Seq::empty(), ..st }
        } else {
            ParseState { mode: ParseMode::Failed, ..st }
        },
        ParseMode::InArgs => if !lit_free(st.lit, c) {
            ParseState { buf: st.buf.push(c), lit: lit_step(st.lit, c), ..st }
        } else if c == '(' {
            ParseState { buf: st.buf.push(c), depth: st.depth + 1, lit: LitMode::Outside, ..st }
        } else if c == ')' && st.depth > 0 {
            ParseState { buf: st.buf.push(c), depth: st.depth - 1, lit: LitMode::Outside, ..st }
        } else if c == ')' {
            if trimmed(st.buf).len() == 0 && st.args.len() > 0 {
                ParseState { mode: ParseMode::Failed, ..st }
            } else {
                ParseState {
                    mode: ParseMode::AfterArgs,
                    done: st.done.push(
                        RefModel {
                            name: st.name,
                            args: if trimmed(st.buf).len() == 0 {
                                st.args
                            } else {
                                st.args.push(trimmed(st.buf))
                            },
                        },
                    ),
                    name: Seq::empty(),
                    args: Seq::empty(),
                    buf: Seq::empty(),
                    depth: 0,
                    lit: LitMode::Outside,
                }
            }
        } else if c == ',' && st.depth == 0 {
            if trimmed(st.buf).len() == 0 {
                ParseState { mode: ParseMode::Failed, ..st }
            } else {
                ParseState {
                    args: st.args.push(trimmed(st.buf)),
                    buf: Seq::empty(),
                    lit: LitMode::Outside,
                    ..st
                }
            }
        } else {
            ParseState { buf: st.buf.push(c), lit: LitMode::Outside, ..st }
        },
        ParseMode::AfterArgs => if space_char(c) {
            st
        } else if c == ',' {
            ParseState { mode: ParseMode::BeforeName, ..st }
        } else {
            ParseState { mode: ParseMode::Failed, ..st }
        },
    }
}

/// The state after the first `i` characters of `s`.
pub open spec fn run(s: Seq<char>, i: int) -> ParseState
    decreases i,
{
    if i <= 0 {
        init_state()
    } else {
        step(run(s, i - 1), s[i - 1])
    }
}

/// What the end of the input yields: an open argument list or an earlier
/// failure is malformed; a reference still in progress is finished bare.
pub open spec fn finish(st: ParseState) -> Option<Seq<RefModel>> {
    match st.mode {
        ParseMode::BeforeName => Some(st.done),
        ParseMode::InName => Some(finish_bare(st)),
        ParseMode::AfterName => Some(finish_bare(st)),
        ParseMode::AfterArgs => Some(st.done),
        ParseMode::InArgs => None,
        ParseMode::Failed => None,
    }
}

/// The micro-grammar: the list of validator references an annotation body
/// denotes, or nothing if the body is malformed.
pub open spec fn parse_refs(s: Seq<char>) -> Option<Seq<RefModel>> {
    finish(run(s, s.len() as int))
}

/// Relies on String's FromIterator over characters: collecting characters
/// yields the string of exactly those characters, in order.
#[verifier::external_body]
fn chars_to_string(v: &Vec<char>) -> (r: String)
    ensures
        r@ == v@,
{
    v.iter().collect()
}

/// Strip spaces from both ends of a fragment.
fn trim_chars(v: &Vec<char>) -> (r: Vec<char>)
    ensures
        r@ == trimmed(v@),
{
    let n = v.len();
    let mut lo: usize = 0;
    proof {
        assert(v@.subrange(0, n as int) =~= v@);
    }
    while lo < n && is_space(v[lo])
        invariant
            n == v@.len(),
            lo <= n,
            trim_front(v@) == trim_front(v@.subrange(lo as int, n as int)),
        decreases n - lo,
    {
        proof {
            let cur = v@.subrange(lo as int, n as int);
            assert(cur[0] == v@[lo as int]);
            assert(cur.drop_first() =~= v@.subrange(lo + 1 as int, n as int));
        }
        lo += 1;
    }
    proof {
        let cur = v@.subrange(lo as int, n as int);
        if lo < n {
            assert(cur[0] == v@[lo as int]);
        }
        assert(trim_front(v@) == cur);
    }
    let mut hi: usize = n;
    while hi > lo && is_space(v[hi - 1])
        invariant
            n == v@.len(),
            lo <= hi <= n,
            trim_front(v@) == v@.subrange(lo as int, n as int),
            trimmed(v@) == trim_back(v@.subrange(lo as int, hi as int)),
        decreases hi,
    {
        proof {
            let cur = v@.subrange(lo as int, hi as int);
            assert(cur.last() == v@[hi - 1 as int]);
            assert(cur.drop_last() =~= v@.subrange(lo as int, hi - 1 as int));
        }
        hi -= 1;
    }
    proof {
        let cur = v@.subrange(lo as int, hi as int);
        if hi > lo {
            assert(cur.last() == v@[hi - 1 as int]);
        }
        assert(trimmed(v@) == cur);
    }
    let sl = vstd::slice::slice_subrange(v.as_slice(), lo, hi);
    vstd::slice::slice_to_vec(sl)
}

/// Parse an annotation body into its validator references. Returns
/// `MalformedDirective` exactly on the bodies the micro-grammar refuses.
pub fn parse_validator_list(s: &str) -> (r: Result<Vec<ValidatorRef>, GenError>)
    ensures
        (match r {
            Ok(refs) => parse_refs(s@) == Some(refs.deep_view()),
            Err(e) => parse_refs(s@) is None && e == GenError::MalformedDirective,
        }),
{
    let n = s.unicode_len();
    let mut mode = ParseMode::BeforeName;
    let mut done: Vec<ValidatorRef> = Vec::new();
    let mut name: Vec<char> = Vec::new();
    let mut args: Vec<String> = Vec::new();
    let mut buf: Vec<char> = Vec::new();
    let mut depth: usize = 0;
    let mut lit = LitMode::Outside;
    let mut i: usize = 0;
    proof {
        assert(done.deep_view() =~= Seq::<RefModel>::empty());
        assert(args.deep_view() =~= Seq::<Seq<char>>::empty());
    }
    while i < n
        invariant
            n == s@.len(),
            i <= n,
            depth <= i,
            run(s@, i as int) == (ParseState {
                mode,
                done: done.deep_view(),
                name: name@,
                args: args.deep_view(),
                buf: buf@,
                depth: depth as int,
                lit,
            }),
        decreases n - i,
    {
        let ghost pre = run(s@, i as int);
        let c = s.get_char(i);
        proof {
            assert(run(s@, i + 1 as int) == step(pre, c));
        }
        match mode {
            ParseMode::Failed => {},
            ParseMode::BeforeName => {
                if is_space(c) {
                } else if is_ident_start(c) {
                    mode = ParseMode::InName;
                    name = Vec::new();
                    name.push(c);
                    proof {
                        assert(name@ =~= seq![c]);
                    }
                } else {
                    mode = ParseMode::Failed;
                }
            },
            ParseMode::InName => {
                if is_ident_char(c) {
                    name.push(c);
                } else if is_space(c) {
                    mode = ParseMode::AfterName;
                } else if c == '(' {
                    mode = ParseMode::InArgs;
                    args = Vec::new();
                    buf = Vec::new();
                    depth = 0;
                    lit = LitMode::Outside;
                    proof {
                        assert(args.deep_view() =~= Seq::<Seq<char>>::empty());
                    }
                } else if c == ',' {
                    let ghost old_done = done.deep_view();
                    let finished = ValidatorRef { name: chars_to_string(&name), args: Vec::new() };
                    proof {
                        assert(finished.args.deep_view() =~= Seq::<Seq<char>>::empty());
                    }
                    done.push(finished);
                    name = Vec::new();
                    mode = ParseMode::BeforeName;
                    proof {
                        assert(done.deep_view() =~= old_done.push(finished@));
                        assert(name@ =~= Seq::<char>::empty());
                    }
                } else {
                    mode = ParseMode::Failed;
                }
            },
            ParseMode::AfterName => {
                if is_space(c) {
                } else if c == '(' {
                    mode = ParseMode::InArgs;
                    args = Vec::new();
                    buf = Vec::new();
                    depth = 0;
                    lit = LitMode::Outside;
                    proof {
                        assert(args.deep_view() =~= Seq::<Seq<char>>::empty());
                    }
                } else if c == ',' {
                    let ghost old_done = done.deep_view();
                    let finished = ValidatorRef { name: chars_to_string(&name), args: Vec::new() };
                    proof {
                        assert(finished.args.deep_view() =~= Seq::<Seq<char>>::empty());
                    }
                    done.push(finished);
                    name = Vec::new();
                    mode = ParseMode::BeforeName;
                    proof {
                        assert(done.deep_view() =~= old_done.push(finished@));
                        assert(name@ =~= Seq::<char>::empty());
                    }
                } else {
                    mode = ParseMode::Failed;
                }
            },
            ParseMode::InArgs => {
                let free = (lit == LitMode::Outside || lit == LitMode::CharOne) && c != '"' && c
                    != '\'';
                if !free {
                    buf.push(c);
                    lit = lit_advance(lit, c);
                } else if c == '(' {
                    buf.push(c);
                    depth += 1;
                    lit = LitMode::Outside;
                } else if c == ')' && depth > 0 {
                    buf.push(c);
                    depth -= 1;
                    lit = LitMode::Outside;
                } else if c == ')' {
                    let fragment = trim_chars(&buf);
                    if fragment.len() == 0 && args.len() > 0 {
                        mode = ParseMode::Failed;
                    } else {
                        let ghost old_done = done.deep_view();
                        let ghost old_args = args.deep_view();
                        if fragment.len() > 0 {
                            args.push(chars_to_string(&fragment));
                            proof {
                                assert(args.deep_view() =~= old_args.push(trimmed(buf@)));
                            }
                        }
                        let finished = ValidatorRef { name: chars_to_string(&name), args };
                        done.push(finished);
                        name = Vec::new();
                        args = Vec::new();
                        buf = Vec::new();
                        depth = 0;
                        lit = LitMode::Outside;
                        mode = ParseMode::AfterArgs;
                        proof {
                            assert(done.deep_view() =~= old_done.push(finished@));
                            assert(args.deep_view() =~= Seq::<Seq<char>>::empty());
                            assert(name@ =~= Seq::<char>::empty());
                            assert(buf@ =~= Seq::<char>::empty());
                        }
                    }
                } else if c == ',' && depth == 0 {
                    let fragment = trim_chars(&buf);
                    if fragment.len() == 0 {
                        mode = ParseMode::Failed;
                    } else {
                        let ghost old_args = args.deep_view();
                        let ghost old_buf = buf@;
                        args.push(chars_to_string(&fragment));
                        buf = Vec::new();
                        lit = LitMode::Outside;
                        proof {
                            assert(args.deep_view() =~= old_args.push(trimmed(old_buf)));
                            assert(buf@ =~= Seq::<char>::empty());
                        }
                    }
                } else {
                    buf.push(c);
                    lit = LitMode::Outside;
                }
            },
            ParseMode::AfterArgs => {
                if is_space(c) {
                } else if c == ',' {
                    mode = ParseMode::BeforeName;
                } else {
                    mode = ParseMode::Failed;
                }
            },
        }
        i += 1;
    }
    match mode {
        ParseMode::BeforeName => Ok(done),
        ParseMode::InName => {
            let ghost old_done = done.deep_view();
            let finished = ValidatorRef { name: chars_to_string(&name), args: Vec::new() };
            proof {
                assert(finished.args.deep_view() =~= Seq::<Seq<char>>::empty());
            }
            done.push(finished);
            proof {
                assert(done.deep_view() =~= old_done.push(finished@));
            }
            Ok(done)
        },
        ParseMode::AfterName => {
            let ghost old_done = done.deep_view();
            let finished = ValidatorRef { name: chars_to_string(&name), args: Vec::new() };
            proof {
                assert(finished.args.deep_view() =~= Seq::<Seq<char>>::empty());
            }
            done.push(finished);
            proof {
                assert(done.deep_view() =~= old_done.push(finished@));
            }
            Ok(done)
        },
        ParseMode::AfterArgs => Ok(done),
        ParseMode::InArgs => Err(GenError::MalformedDirective),
        ParseMode::Failed => Err(GenError::MalformedDirective),
    }
}

} // verus!
