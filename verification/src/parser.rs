//! The wrapper specification language. Each line is a C signature,
//! `ret name (type arg, ...)`, or a policy,
//! `Policy(name) = { arg = Annotation, arg = Annotation(param), ... }`.
use vstd::prelude::*;
use crate::codegen::{Ctype, Spec, TypeQualifier, WrapperPolicy, WrapperSignature, string_texts};

verus! {

/// A C type as a value.
pub enum CtypeView {
    Char,
    Int,
    Void,
    SizeT,
    SsizeT,
    OffT,
    ModeT,
    Pointer(Box<CtypeView>, bool),
    CStruct(Seq<char>),
}

/// The value of a C type.
pub open spec fn ctype_view(t: Ctype) -> CtypeView
    decreases t,
{
    match t {
        Ctype::Char => CtypeView::Char,
        Ctype::Int => CtypeView::Int,
        Ctype::Void => CtypeView::Void,
        Ctype::SizeT => CtypeView::SizeT,
        Ctype::SsizeT => CtypeView::SsizeT,
        Ctype::OffT => CtypeView::OffT,
        Ctype::ModeT => CtypeView::ModeT,
        Ctype::Pointer(p, m) => CtypeView::Pointer(Box::new(ctype_view(*p)), m),
        Ctype::CStruct(n) => CtypeView::CStruct(n@),
    }
}

/// An annotation as a value.
pub enum QualView {
    Q0(Seq<char>),
    Q1(Seq<char>, Seq<char>),
}

pub open spec fn qual_view(q: TypeQualifier) -> QualView {
    match q {
        TypeQualifier::Qualifier0Arg(n) => QualView::Q0(n@),
        TypeQualifier::Qualifier1Arg(n, a) => QualView::Q1(n@, a@),
    }
}

/// A signature as a value.
pub struct SigView {
    pub name: Seq<char>,
    pub ret: CtypeView,
    pub args: Seq<(CtypeView, Seq<char>)>,
}

pub open spec fn sig_view(s: WrapperSignature) -> SigView {
    SigView {
        name: s.function_name@,
        ret: ctype_view(s.ret_ty),
        args: s.args@.map_values(|a: (Ctype, String)| (ctype_view(a.0), a.1@)),
    }
}

/// A policy as a value.
pub struct PolicyView {
    pub name: Seq<char>,
    pub annotations: Seq<(Seq<char>, QualView)>,
}

pub open spec fn policy_view(p: WrapperPolicy) -> PolicyView {
    PolicyView {
        name: p.function_name@,
        annotations: p.annotations@.map_values(|a: (String, TypeQualifier)| (a.0@, qual_view(a.1))),
    }
}

pub open spec fn is_alpha(c: char) -> bool {
    (0x61 <= (c as u32) <= 0x7a) || (0x41 <= (c as u32) <= 0x5a)
}

pub open spec fn is_ident_char(c: char) -> bool {
    is_alpha(c) || (0x30 <= (c as u32) <= 0x39) || c == '_'
}

pub open spec fn is_space(c: char) -> bool {
    c == ' ' || c == '\t' || c == '\r' || c == '\n'
}

/// The end of the run of identifier characters at `i`, within `s[..n]`.
pub open spec fn ident_end(s: Seq<char>, i: int, n: int) -> int
    decreases n - i,
{
    if 0 <= i < n && is_ident_char(s[i]) {
        ident_end(s, i + 1, n)
    } else {
        i
    }
}

/// The end of the run of white space at `i`, within `s[..n]`.
pub open spec fn space_end(s: Seq<char>, i: int, n: int) -> int
    decreases n - i,
{
    if 0 <= i < n && is_space(s[i]) {
        space_end(s, i + 1, n)
    } else {
        i
    }
}

/// The first position from `i` on that holds `c`, or `n`.
pub open spec fn find_char(s: Seq<char>, i: int, n: int, c: char) -> int
    decreases n - i,
{
    if 0 <= i < n && s[i] != c {
        find_char(s, i + 1, n, c)
    } else {
        i
    }
}

/// Whether `t` is written at `i`, within `s[..n]`.
pub open spec fn tag_at(s: Seq<char>, i: int, n: int, t: Seq<char>) -> bool {
    0 <= i && i + t.len() <= n && s.subrange(i, i + t.len()) == t
}

/// An identifier at `i`: a letter or underscore, then letters, digits and
/// underscores. Gives its end.
pub open spec fn identifier(s: Seq<char>, i: int, n: int) -> Option<int> {
    if 0 <= i < n && (is_alpha(s[i]) || s[i] == '_') {
        Some(ident_end(s, i + 1, n))
    } else {
        None
    }
}

/// An identifier with white space around it: its start, its end, and the
/// position after the white space that follows.
pub open spec fn ws_identifier(s: Seq<char>, i: int, n: int) -> Option<(int, int, int)> {
    let j = space_end(s, i, n);
    match identifier(s, j, n) {
        Some(e) => Some((j, e, space_end(s, e, n))),
        None => None,
    }
}

/// A non-empty text between `open` and `close` at `i`: the position of the
/// closing character.
pub open spec fn delimited(s: Seq<char>, i: int, n: int, open: char, close: char) -> Option<int> {
    if 0 <= i < n && s[i] == open {
        let k = find_char(s, i + 1, n, close);
        if k > i + 1 && k < n {
            Some(k)
        } else {
            None
        }
    } else {
        None
    }
}

/// A tag with white space around it: the position after it.
pub open spec fn ws_tag(s: Seq<char>, i: int, n: int, t: Seq<char>) -> Option<int> {
    let j = space_end(s, i, n);
    if tag_at(s, j, n, t) {
        Some(space_end(s, j + t.len(), n))
    } else {
        None
    }
}

/// The stars after a type: how many, and the position after them.
pub open spec fn stars(s: Seq<char>, i: int, n: int) -> (nat, int)
    decreases n - i,
{
    let j = space_end(s, i, n);
    if 0 <= i && j < n && s[j] == '*' && i < n {
        let k = space_end(s, j + 1, n);
        if i < k <= n {
            let (c, e) = stars(s, k, n);
            (c + 1, e)
        } else {
            (0, i)
        }
    } else {
        (0, i)
    }
}

/// The outcome of a parser: `None` where parsing aborts, `Some(None)`
/// where the text does not match, else the position after the match and
/// the value.
pub type Parsed<T> = Option<Option<(int, T)>>;

/// A C type at `i`: `const`, `struct`, a name, and at most one star. A
/// name that is no base type, or more than one star, aborts.
pub open spec fn ctype_at(s: Seq<char>, i: int, n: int) -> Parsed<CtypeView> {
    let (is_const, j1) = match ws_tag(s, i, n, "const"@) {
        Some(j) => (true, j),
        None => (false, i),
    };
    let (is_struct, j2) = match ws_tag(s, j1, n, "struct"@) {
        Some(j) => (true, j),
        None => (false, j1),
    };
    match ws_identifier(s, j2, n) {
        None => Some(None),
        Some((a, b, j3)) => {
            let name = s.subrange(a, b);
            let (depth, j4) = stars(s, j3, n);
            let base = if is_struct {
                Some(CtypeView::CStruct(name))
            } else {
                ctype_named(name)
            };
            match base {
                None => None,
                Some(t) => if depth == 0 {
                    Some(Some((j4, t)))
                } else if depth == 1 {
                    Some(Some((j4, CtypeView::Pointer(Box::new(t), !is_const))))
                } else {
                    None
                },
            }
        },
    }
}

/// The base type a name spells.
pub open spec fn ctype_named(s: Seq<char>) -> Option<CtypeView> {
    match Ctype::named(s) {
        Some(t) => Some(ctype_view(t)),
        None => None,
    }
}

/// An argument: a type and a name, with white space around both.
pub open spec fn arg_at(s: Seq<char>, i: int, n: int) -> Parsed<(CtypeView, Seq<char>)> {
    match ctype_at(s, space_end(s, i, n), n) {
        None => None,
        Some(None) => Some(None),
        Some(Some((j, t))) => match ws_identifier(s, space_end(s, j, n), n) {
            None => Some(None),
            Some((a, b, k)) => Some(Some((k, (t, s.subrange(a, b))))),
        },
    }
}

/// The arguments after the first, each after a comma.
pub open spec fn more_args(s: Seq<char>, i: int, n: int, acc: Seq<(CtypeView, Seq<char>)>) -> Option<Seq<(CtypeView, Seq<char>)>>
    decreases n - i,
{
    if tag_at(s, i, n, ","@) {
        match arg_at(s, i + 1, n) {
            None => None,
            Some(None) => Some(acc),
            Some(Some((j, a))) => if i < j <= n {
                more_args(s, j, n, acc.push(a))
            } else {
                None
            },
        }
    } else {
        Some(acc)
    }
}

/// The comma-separated arguments in `s[i..n]`.
pub open spec fn arg_list(s: Seq<char>, i: int, n: int) -> Option<Seq<(CtypeView, Seq<char>)>> {
    match arg_at(s, i, n) {
        None => None,
        Some(None) => Some(Seq::empty()),
        Some(Some((j, a))) => more_args(s, j, n, seq![a]),
    }
}

/// A signature line: `None` where parsing aborts or the line does not
/// match.
pub open spec fn signature_line(s: Seq<char>) -> Option<SigView> {
    let n = s.len() as int;
    match ctype_at(s, space_end(s, 0, n), n) {
        None => None,
        Some(None) => None,
        Some(Some((j, ret))) => match ws_identifier(s, space_end(s, j, n), n) {
            None => None,
            Some((a, b, k)) => match delimited(s, k, n, '(', ')') {
                None => None,
                Some(close) => match arg_list(s, k + 1, close) {
                    None => None,
                    Some(args) => Some(SigView { name: s.subrange(a, b), ret, args }),
                },
            },
        },
    }
}

/// An annotation with one parameter, `Name(param)`: gives the position
/// after the parameter and the end of the text between the parentheses,
/// where the rest of the annotation list is then read.
pub open spec fn qualifier_1arg(s: Seq<char>, i: int, n: int) -> Option<(int, int, QualView)> {
    match ws_identifier(s, i, n) {
        None => None,
        Some((a, b, j)) => match delimited(s, j, n, '(', ')') {
            None => None,
            Some(close) => match identifier(s, j + 1, close) {
                None => None,
                Some(e) => Some((e, close, QualView::Q1(s.subrange(a, b), s.subrange(j + 1, e)))),
            },
        },
    }
}

/// An annotation: with one parameter, or else without. Gives the position
/// after it, the end of the text left to read, and the annotation.
pub open spec fn qualifier(s: Seq<char>, i: int, n: int) -> Option<(int, int, QualView)> {
    match qualifier_1arg(s, i, n) {
        Some(r) => Some(r),
        None => match ws_identifier(s, i, n) {
            None => None,
            Some((a, b, j)) => Some((j, n, QualView::Q0(s.subrange(a, b)))),
        },
    }
}

/// `arg = Annotation`, with white space around each part: the position
/// after it, the end of the text left to read, and the annotation.
pub open spec fn annotation_at(s: Seq<char>, i: int, n: int) -> Option<(int, int, (Seq<char>, QualView))> {
    match ws_identifier(s, i, n) {
        None => None,
        Some((a, b, j)) => match ws_tag(s, j, n, "="@) {
            None => None,
            Some(k) => match qualifier(s, space_end(s, k, n), n) {
                None => None,
                Some((e, m, q)) => Some((space_end(s, e, m), m, (s.subrange(a, b), q))),
            },
        },
    }
}

/// The annotations after the first, each after a comma.
pub open spec fn more_annotations(s: Seq<char>, i: int, n: int, acc: Seq<(Seq<char>, QualView)>) -> Seq<(Seq<char>, QualView)>
    decreases n - i,
{
    if tag_at(s, i, n, ","@) {
        match annotation_at(s, i + 1, n) {
            None => acc,
            Some((j, m, a)) => if i < j <= m <= n {
                more_annotations(s, j, m, acc.push(a))
            } else {
                acc
            },
        }
    } else {
        acc
    }
}

/// The comma-separated annotations in `s[i..n]`.
pub open spec fn annotation_list(s: Seq<char>, i: int, n: int) -> Seq<(Seq<char>, QualView)> {
    match annotation_at(s, i, n) {
        None => Seq::empty(),
        Some((j, m, a)) => more_annotations(s, j, m, seq![a]),
    }
}

/// A policy line: `None` where it does not match.
pub open spec fn policy_line(s: Seq<char>) -> Option<PolicyView> {
    let n = s.len() as int;
    if !tag_at(s, 0, n, "Policy"@) {
        None
    } else {
        match delimited(s, 6, n, '(', ')') {
            None => None,
            Some(close) => match ws_tag(s, close + 1, n, "="@) {
                None => None,
                Some(k) => match delimited(s, space_end(s, k, n), n, '{', '}') {
                    None => None,
                    Some(end) => Some(
                        PolicyView {
                            name: s.subrange(7, close),
                            annotations: annotation_list(s, space_end(s, k, n) + 1, end),
                        },
                    ),
                },
            },
        }
    }
}

/// The lines of `s` from `i` on: the pieces between newlines.
pub open spec fn lines_from(s: Seq<char>, i: int) -> Seq<Seq<char>>
    decreases s.len() - i,
{
    let k = find_char(s, i, s.len() as int, '\n');
    if 0 <= i <= k < s.len() {
        seq![s.subrange(i, k)] + lines_from(s, k + 1)
    } else {
        seq![s.subrange(i, s.len() as int)]
    }
}

/// The position of the first signature named `name`, or -1.
pub open spec fn sig_index(sigs: Seq<SigView>, name: Seq<char>) -> int
    decreases sigs.len(),
{
    if sigs.len() == 0 {
        -1
    } else if sigs.last().name == name {
        sigs.len() - 1
    } else {
        sig_index(sigs.drop_last(), name)
    }
}

/// The position of the last policy named `name`, or -1.
pub open spec fn policy_view_index(policies: Seq<PolicyView>, name: Seq<char>) -> int
    decreases policies.len(),
{
    if policies.len() == 0 {
        -1
    } else if policies.last().name == name {
        policies.len() - 1
    } else {
        policy_view_index(policies.drop_last(), name)
    }
}

/// The signatures with `sig` put in: it replaces one of the same name.
pub open spec fn insert_sig(sigs: Seq<SigView>, sig: SigView) -> Seq<SigView> {
    let k = sig_index(sigs, sig.name);
    if k >= 0 {
        sigs.update(k, sig)
    } else {
        sigs.push(sig)
    }
}

/// The policies with `p` put in: it replaces one of the same name.
pub open spec fn insert_policy(policies: Seq<PolicyView>, p: PolicyView) -> Seq<PolicyView> {
    let k = policy_view_index(policies, p.name);
    if k >= 0 {
        policies.update(k, p)
    } else {
        policies.push(p)
    }
}

/// The signatures and policies after the lines are read, in order; empty
/// lines are skipped, lines starting with `Policy` are policies, the
/// others signatures. `None` where a line does not parse.
pub open spec fn parse_lines(lines: Seq<Seq<char>>, sigs: Seq<SigView>, policies: Seq<PolicyView>) -> Option<(Seq<SigView>, Seq<PolicyView>)>
    decreases lines.len(),
{
    if lines.len() == 0 {
        Some((sigs, policies))
    } else {
        let l = lines[0];
        if l.len() == 0 {
            parse_lines(lines.drop_first(), sigs, policies)
        } else if tag_at(l, 0, l.len() as int, "Policy"@) {
            match policy_line(l) {
                None => None,
                Some(p) => parse_lines(lines.drop_first(), sigs, insert_policy(policies, p)),
            }
        } else {
            match signature_line(l) {
                None => None,
                Some(g) => parse_lines(lines.drop_first(), insert_sig(sigs, g), policies),
            }
        }
    }
}

/// The specification a text holds, or `None` where a line does not parse.
pub open spec fn parse_spec(s: Seq<char>) -> Option<(Seq<SigView>, Seq<PolicyView>)> {
    parse_lines(lines_from(s, 0), Seq::empty(), Seq::empty())
}

/// The characters of a string.
pub fn chars_of(s: &str) -> (r: Vec<char>)
    ensures
        r@ == s@,
{
    let n = s.unicode_len();
    let mut v: Vec<char> = Vec::new();
    let mut i: usize = 0;
    while i < n
        invariant
            n == s@.len(),
            i <= n,
            v@ == s@.subrange(0, i as int),
        decreases n - i,
    {
        v.push(s.get_char(i));
        i += 1;
        assert(v@ =~= s@.subrange(0, i as int));
    }
    assert(v@ =~= s@);
    v
}

fn is_alpha_x(c: char) -> (r: bool)
    ensures
        r == is_alpha(c),
{
    let u = c as u32;
    (0x61 <= u && u <= 0x7a) || (0x41 <= u && u <= 0x5a)
}

fn is_ident_char_x(c: char) -> (r: bool)
    ensures
        r == is_ident_char(c),
{
    let u = c as u32;
    is_alpha_x(c) || (0x30 <= u && u <= 0x39) || c == '_'
}

fn is_space_x(c: char) -> (r: bool)
    ensures
        r == is_space(c),
{
    c == ' ' || c == '\t' || c == '\r' || c == '\n'
}

fn ident_end_x(cs: &Vec<char>, i: usize, n: usize) -> (r: usize)
    requires
        i <= n <= cs@.len(),
    ensures
        r == ident_end(cs@, i as int, n as int),
        i <= r <= n,
{
    let mut k = i;
    while k < n && is_ident_char_x(cs[k])
        invariant
            i <= k <= n <= cs@.len(),
            ident_end(cs@, k as int, n as int) == ident_end(cs@, i as int, n as int),
        decreases n - k,
    {
        k += 1;
    }
    k
}

fn space_end_x(cs: &Vec<char>, i: usize, n: usize) -> (r: usize)
    requires
        i <= n <= cs@.len(),
    ensures
        r == space_end(cs@, i as int, n as int),
        i <= r <= n,
{
    let mut k = i;
    while k < n && is_space_x(cs[k])
        invariant
            i <= k <= n <= cs@.len(),
            space_end(cs@, k as int, n as int) == space_end(cs@, i as int, n as int),
        decreases n - k,
    {
        k += 1;
    }
    k
}

fn find_char_x(cs: &Vec<char>, i: usize, n: usize, c: char) -> (r: usize)
    requires
        i <= n <= cs@.len(),
    ensures
        r == find_char(cs@, i as int, n as int, c),
        i <= r <= n,
{
    let mut k = i;
    while k < n && cs[k] != c
        invariant
            i <= k <= n <= cs@.len(),
            find_char(cs@, k as int, n as int, c) == find_char(cs@, i as int, n as int, c),
        decreases n - k,
    {
        k += 1;
    }
    k
}

fn tag_at_x(cs: &Vec<char>, i: usize, n: usize, t: &Vec<char>) -> (r: bool)
    requires
        n <= cs@.len(),
    ensures
        r == tag_at(cs@, i as int, n as int, t@),
{
    if t.len() > n || i > n - t.len() {
        return false;
    }
    let mut k: usize = 0;
    while k < t.len()
        invariant
            i + t@.len() <= n <= cs@.len(),
            k <= t@.len(),
            forall|j: int| 0 <= j < k ==> cs@[i + j] == t@[j],
        decreases t@.len() - k,
    {
        if cs[i + k] != t[k] {
            assert(cs@.subrange(i as int, i + t@.len())[k as int] != t@[k as int]);
            return false;
        }
        k += 1;
    }
    assert(cs@.subrange(i as int, i + t@.len()) =~= t@);
    true
}

fn identifier_x(cs: &Vec<char>, i: usize, n: usize) -> (r: Option<usize>)
    requires
        n <= cs@.len(),
    ensures
        match r {
            Some(e) => identifier(cs@, i as int, n as int) == Some(e as int) && i < e <= n,
            None => identifier(cs@, i as int, n as int) is None,
        },
{
    if i < n && (is_alpha_x(cs[i]) || cs[i] == '_') {
        Some(ident_end_x(cs, i + 1, n))
    } else {
        None
    }
}

fn ws_identifier_x(cs: &Vec<char>, i: usize, n: usize) -> (r: Option<(usize, usize, usize)>)
    requires
        i <= n <= cs@.len(),
    ensures
        match r {
            Some((a, b, c)) => ws_identifier(cs@, i as int, n as int) == Some((a as int, b as int, c as int))
                && i <= a < b <= c <= n,
            None => ws_identifier(cs@, i as int, n as int) is None,
        },
{
    let j = space_end_x(cs, i, n);
    match identifier_x(cs, j, n) {
        Some(e) => Some((j, e, space_end_x(cs, e, n))),
        None => None,
    }
}

fn delimited_x(cs: &Vec<char>, i: usize, n: usize, open: char, close: char) -> (r: Option<usize>)
    requires
        n <= cs@.len(),
    ensures
        match r {
            Some(k) => delimited(cs@, i as int, n as int, open, close) == Some(k as int) && i + 1 < k < n,
            None => delimited(cs@, i as int, n as int, open, close) is None,
        },
{
    if i < n && cs[i] == open {
        let k = find_char_x(cs, i + 1, n, close);
        if k > i + 1 && k < n {
            Some(k)
        } else {
            None
        }
    } else {
        None
    }
}

fn ws_tag_x(cs: &Vec<char>, i: usize, n: usize, t: &Vec<char>) -> (r: Option<usize>)
    requires
        i <= n <= cs@.len(),
    ensures
        match r {
            Some(k) => ws_tag(cs@, i as int, n as int, t@) == Some(k as int) && i <= k <= n,
            None => ws_tag(cs@, i as int, n as int, t@) is None,
        },
{
    let j = space_end_x(cs, i, n);
    if tag_at_x(cs, j, n, t) {
        Some(space_end_x(cs, j + t.len(), n))
    } else {
        None
    }
}

fn stars_x(cs: &Vec<char>, i: usize, n: usize) -> (r: (usize, usize))
    requires
        i <= n <= cs@.len(),
    ensures
        (r.0 as nat, r.1 as int) == stars(cs@, i as int, n as int),
        i <= r.1 <= n,
        r.0 + i <= n,
    decreases n - i,
{
    let j = space_end_x(cs, i, n);
    if j < n && cs[j] == '*' && i < n {
        let k = space_end_x(cs, j + 1, n);
        let (c, e) = stars_x(cs, k, n);
        (c + 1, e)
    } else {
        (0, i)
    }
}

/// The characters `s[a..b]` as a string.
fn sub_string(s: &str, a: usize, b: usize) -> (r: String)
    requires
        a <= b <= s@.len(),
    ensures
        r@ == s@.subrange(a as int, b as int),
{
    String::from_str(s.substring_char(a, b))
}

/// Parses a C type at `i`, as `ctype_at` says.
fn ctype_x(cs: &Vec<char>, s: &str, i: usize, n: usize) -> (r: Option<Option<(usize, Ctype)>>)
    requires
        cs@ == s@,
        i <= n <= cs@.len(),
    ensures
        match r {
            None => ctype_at(cs@, i as int, n as int) is None,
            Some(None) => ctype_at(cs@, i as int, n as int) == Some(None::<(int, CtypeView)>),
            Some(Some((j, t))) => ctype_at(cs@, i as int, n as int) == Some(Some((j as int, ctype_view(t))))
                && i <= j <= n,
        },
{
    let const_t = chars_of("const");
    let struct_t = chars_of("struct");
    let (is_const, j1) = match ws_tag_x(cs, i, n, &const_t) {
        Some(j) => (true, j),
        None => (false, i),
    };
    let (is_struct, j2) = match ws_tag_x(cs, j1, n, &struct_t) {
        Some(j) => (true, j),
        None => (false, j1),
    };
    match ws_identifier_x(cs, j2, n) {
        None => Some(None),
        Some((a, b, j3)) => {
            let (depth, j4) = stars_x(cs, j3, n);
            let name = sub_string(s, a, b);
            assert(depth as nat == stars(cs@, j3 as int, n as int).0);
            assert(name@ == cs@.subrange(a as int, b as int));
            let base = if is_struct {
                Ctype::CStruct(name)
            } else {
                match Ctype::from_name(name.as_str()) {
                    Ok(t) => t,
                    Err(()) => return None,
                }
            };
            assert(ws_identifier(cs@, j2 as int, n as int) == Some((a as int, b as int, j3 as int)));
            assert(is_struct ==> ws_tag(cs@, j1 as int, n as int, "struct"@) is Some);
            assert(!is_struct ==> ws_tag(cs@, j1 as int, n as int, "struct"@) is None);
            assert(is_const ==> ws_tag(cs@, i as int, n as int, "const"@) is Some);
            assert(!is_const ==> ws_tag(cs@, i as int, n as int, "const"@) is None);
            if depth == 0 {
                assert(ctype_at(cs@, i as int, n as int) == Some(Some((j4 as int, ctype_view(base)))));
                Some(Some((j4, base)))
            } else if depth == 1 {
                Some(Some((j4, Ctype::Pointer(Box::new(base), !is_const))))
            } else {
                None
            }
        },
    }
}

/// Parses an argument at `i`, as `arg_at` says.
fn arg_x(cs: &Vec<char>, s: &str, i: usize, n: usize) -> (r: Option<Option<(usize, (Ctype, String))>>)
    requires
        cs@ == s@,
        i <= n <= cs@.len(),
    ensures
        match r {
            None => arg_at(cs@, i as int, n as int) is None,
            Some(None) => arg_at(cs@, i as int, n as int) == Some(None::<(int, (CtypeView, Seq<char>))>),
            Some(Some((j, a))) => arg_at(cs@, i as int, n as int) == Some(
                Some((j as int, (ctype_view(a.0), a.1@))),
            ) && i < j <= n,
        },
{
    let k = space_end_x(cs, i, n);
    match ctype_x(cs, s, k, n) {
        None => None,
        Some(None) => Some(None),
        Some(Some((j, t))) => {
            let j2 = space_end_x(cs, j, n);
            match ws_identifier_x(cs, j2, n) {
                None => Some(None),
                Some((a, b, e)) => Some(Some((e, (t, sub_string(s, a, b))))),
            }
        },
    }
}

/// The values of parsed arguments.
pub open spec fn args_view(v: Seq<(Ctype, String)>) -> Seq<(CtypeView, Seq<char>)> {
    v.map_values(|a: (Ctype, String)| (ctype_view(a.0), a.1@))
}

/// Parses the comma-separated arguments in `s[i..n]`, as `arg_list` says.
fn arg_list_x(cs: &Vec<char>, s: &str, i: usize, n: usize) -> (r: Option<Vec<(Ctype, String)>>)
    requires
        cs@ == s@,
        i <= n <= cs@.len(),
    ensures
        match r {
            None => arg_list(cs@, i as int, n as int) is None,
            Some(v) => arg_list(cs@, i as int, n as int) == Some(args_view(v@)),
        },
{
    let comma = chars_of(",");
    let mut out: Vec<(Ctype, String)> = Vec::new();
    let mut pos: usize;
    match arg_x(cs, s, i, n) {
        None => return None,
        Some(None) => {
            assert(args_view(out@) =~= Seq::<(CtypeView, Seq<char>)>::empty());
            return Some(out);
        },
        Some(Some((j, a))) => {
            out.push(a);
            pos = j;
            assert(args_view(out@) =~= seq![(ctype_view(a.0), a.1@)]);
        },
    }
    while pos < n
        invariant
            cs@ == s@,
            comma@ == ","@,
            i <= pos <= n <= cs@.len(),
            arg_list(cs@, i as int, n as int) == more_args(cs@, pos as int, n as int, args_view(out@)),
        decreases n - pos,
    {
        if !tag_at_x(cs, pos, n, &comma) {
            return Some(out);
        }
        match arg_x(cs, s, pos + 1, n) {
            None => return None,
            Some(None) => return Some(out),
            Some(Some((j, a))) => {
                let ghost before = args_view(out@);
                out.push(a);
                assert(args_view(out@) =~= before.push((ctype_view(a.0), a.1@)));
                pos = j;
            },
        }
    }
    proof {
        reveal_strlit(",");
    }
    assert(!tag_at(cs@, pos as int, n as int, ","@));
    Some(out)
}

/// Parses a signature line; `None` where it does not parse.
pub fn parse_wrapper_sig(line: &str) -> (r: Option<WrapperSignature>)
    ensures
        match r {
            None => signature_line(line@) is None,
            Some(g) => signature_line(line@) == Some(sig_view(g)),
        },
{
    let cs = chars_of(line);
    let n = cs.len();
    let k0 = space_end_x(&cs, 0, n);
    let (j, ret) = match ctype_x(&cs, line, k0, n) {
        None => return None,
        Some(None) => return None,
        Some(Some(x)) => x,
    };
    let j2 = space_end_x(&cs, j, n);
    let (a, b, k) = match ws_identifier_x(&cs, j2, n) {
        None => return None,
        Some(x) => x,
    };
    let close = match delimited_x(&cs, k, n, '(', ')') {
        None => return None,
        Some(c) => c,
    };
    let args = match arg_list_x(&cs, line, k + 1, close) {
        None => return None,
        Some(v) => v,
    };
    let g = WrapperSignature { function_name: sub_string(line, a, b), ret_ty: ret, args };
    assert(sig_view(g).args =~= args_view(g.args@));
    Some(g)
}

/// Parses an annotation at `i`, as `qualifier` says.
fn qualifier_x(cs: &Vec<char>, s: &str, i: usize, n: usize) -> (r: Option<(usize, usize, TypeQualifier)>)
    requires
        cs@ == s@,
        i <= n <= cs@.len(),
    ensures
        match r {
            None => qualifier(cs@, i as int, n as int) is None,
            Some((j, m, q)) => qualifier(cs@, i as int, n as int) == Some((j as int, m as int, qual_view(q)))
                && i <= j <= m <= n,
        },
{
    if let Some((a, b, j)) = ws_identifier_x(cs, i, n) {
        if let Some(close) = delimited_x(cs, j, n, '(', ')') {
            if let Some(e) = identifier_x(cs, j + 1, close) {
                let q = TypeQualifier::Qualifier1Arg(sub_string(s, a, b), sub_string(s, j + 1, e));
                return Some((e, close, q));
            }
        }
    }
    match ws_identifier_x(cs, i, n) {
        None => None,
        Some((a, b, j)) => Some((j, n, TypeQualifier::Qualifier0Arg(sub_string(s, a, b)))),
    }
}

/// Parses an annotation of an argument at `i`, as `annotation_at` says.
fn annotation_x(cs: &Vec<char>, s: &str, i: usize, n: usize) -> (r: Option<(usize, usize, (String, TypeQualifier))>)
    requires
        cs@ == s@,
        i <= n <= cs@.len(),
    ensures
        match r {
            None => annotation_at(cs@, i as int, n as int) is None,
            Some((j, m, a)) => annotation_at(cs@, i as int, n as int) == Some(
                (j as int, m as int, (a.0@, qual_view(a.1))),
            ) && i < j <= m <= n,
        },
{
    let eq = chars_of("=");
    let (a, b, j) = ws_identifier_x(cs, i, n)?;
    let k = ws_tag_x(cs, j, n, &eq)?;
    let k2 = space_end_x(cs, k, n);
    let (e, m, q) = qualifier_x(cs, s, k2, n)?;
    let e2 = space_end_x(cs, e, m);
    Some((e2, m, (sub_string(s, a, b), q)))
}

/// The values of parsed annotations.
pub open spec fn annotations_view(v: Seq<(String, TypeQualifier)>) -> Seq<(Seq<char>, QualView)> {
    v.map_values(|a: (String, TypeQualifier)| (a.0@, qual_view(a.1)))
}

/// Parses the comma-separated annotations in `s[i..n]`.
fn annotation_list_x(cs: &Vec<char>, s: &str, i: usize, n: usize) -> (r: Vec<(String, TypeQualifier)>)
    requires
        cs@ == s@,
        i <= n <= cs@.len(),
    ensures
        annotation_list(cs@, i as int, n as int) == annotations_view(r@),
{
    let comma = chars_of(",");
    let mut out: Vec<(String, TypeQualifier)> = Vec::new();
    let mut pos: usize;
    let mut end: usize;
    match annotation_x(cs, s, i, n) {
        None => {
            assert(annotations_view(out@) =~= Seq::<(Seq<char>, QualView)>::empty());
            return out;
        },
        Some((j, m, a)) => {
            out.push(a);
            pos = j;
            end = m;
            assert(annotations_view(out@) =~= seq![(a.0@, qual_view(a.1))]);
        },
    }
    while pos < end
        invariant
            cs@ == s@,
            comma@ == ","@,
            i <= pos <= end <= n <= cs@.len(),
            annotation_list(cs@, i as int, n as int) == more_annotations(cs@, pos as int, end as int, annotations_view(out@)),
        decreases end - pos,
    {
        if !tag_at_x(cs, pos, end, &comma) {
            return out;
        }
        match annotation_x(cs, s, pos + 1, end) {
            None => return out,
            Some((j, m, a)) => {
                let ghost before = annotations_view(out@);
                out.push(a);
                assert(annotations_view(out@) =~= before.push((a.0@, qual_view(a.1))));
                pos = j;
                end = m;
            },
        }
    }
    proof {
        reveal_strlit(",");
    }
    assert(!tag_at(cs@, pos as int, end as int, ","@));
    out
}

/// Parses a policy line; `None` where it does not parse.
pub fn parse_wrapper_policy(line: &str) -> (r: Option<WrapperPolicy>)
    ensures
        match r {
            None => policy_line(line@) is None,
            Some(p) => policy_line(line@) == Some(policy_view(p)),
        },
{
    let cs = chars_of(line);
    let n = cs.len();
    let policy_t = chars_of("Policy");
    let eq = chars_of("=");
    if !tag_at_x(&cs, 0, n, &policy_t) {
        return None;
    }
    let close = delimited_x(&cs, 6, n, '(', ')')?;
    let k = ws_tag_x(&cs, close + 1, n, &eq)?;
    let k2 = space_end_x(&cs, k, n);
    let end = delimited_x(&cs, k2, n, '{', '}')?;
    let annotations = annotation_list_x(&cs, line, k2 + 1, end);
    let p = WrapperPolicy { function_name: sub_string(line, 7, close), annotations };
    assert(policy_view(p).annotations =~= annotations_view(p.annotations@));
    Some(p)
}

/// Splits a text at its newlines, as `lines_from` says.
pub fn split_lines(s: &str) -> (r: Vec<String>)
    ensures
        string_texts(r@) == lines_from(s@, 0),
{
    let cs = chars_of(s);
    let n = cs.len();
    let mut out: Vec<String> = Vec::new();
    let mut i: usize = 0;
    loop
        invariant
            cs@ == s@,
            n == cs@.len(),
            i <= n,
            lines_from(s@, 0) == string_texts(out@) + lines_from(s@, i as int),
        decreases n - i,
    {
        let k = find_char_x(&cs, i, n, '\n');
        let line = sub_string(s, i, k);
        let ghost before = string_texts(out@);
        out.push(line);
        assert(string_texts(out@) =~= before.push(line@));
        if k < n {
            assert(lines_from(s@, i as int) == seq![line@] + lines_from(s@, k + 1));
            assert(before + lines_from(s@, i as int) =~= before.push(line@) + lines_from(s@, k + 1));
            i = k + 1;
        } else {
            assert(lines_from(s@, i as int) == seq![line@]);
            assert(before + lines_from(s@, i as int) =~= before.push(line@));
            return out;
        }
    }
}

/// The values of parsed signatures.
pub open spec fn sigs_view(v: Seq<WrapperSignature>) -> Seq<SigView> {
    v.map_values(|g: WrapperSignature| sig_view(g))
}

/// The values of parsed policies.
pub open spec fn policies_view(v: Seq<WrapperPolicy>) -> Seq<PolicyView> {
    v.map_values(|p: WrapperPolicy| policy_view(p))
}

fn find_sig(sigs: &Vec<WrapperSignature>, name: &String) -> (r: Option<usize>)
    ensures
        match r {
            Some(i) => i as int == sig_index(sigs_view(sigs@), name@) && i < sigs@.len(),
            None => sig_index(sigs_view(sigs@), name@) == -1,
        },
{
    let mut i: usize = sigs.len();
    assert(sigs_view(sigs@).take(i as int) =~= sigs_view(sigs@));
    while i > 0
        invariant
            i <= sigs@.len(),
            sig_index(sigs_view(sigs@), name@) == sig_index(sigs_view(sigs@).take(i as int), name@),
        decreases i,
    {
        assert(sigs_view(sigs@).take(i as int).drop_last() =~= sigs_view(sigs@).take(i - 1));
        if sigs[i - 1].function_name == *name {
            return Some(i - 1);
        }
        i -= 1;
    }
    None
}

fn find_policy_view(policies: &Vec<WrapperPolicy>, name: &String) -> (r: Option<usize>)
    ensures
        match r {
            Some(i) => i as int == policy_view_index(policies_view(policies@), name@) && i < policies@.len(),
            None => policy_view_index(policies_view(policies@), name@) == -1,
        },
{
    let mut i: usize = policies.len();
    assert(policies_view(policies@).take(i as int) =~= policies_view(policies@));
    while i > 0
        invariant
            i <= policies@.len(),
            policy_view_index(policies_view(policies@), name@) == policy_view_index(
                policies_view(policies@).take(i as int),
                name@,
            ),
        decreases i,
    {
        assert(policies_view(policies@).take(i as int).drop_last() =~= policies_view(policies@).take(i - 1));
        if policies[i - 1].function_name == *name {
            return Some(i - 1);
        }
        i -= 1;
    }
    None
}

/// Reads a wrapper specification; `None` where a line does not parse.
pub fn try_parse_spec(spec_str: &str) -> (r: Option<Spec>)
    ensures
        match r {
            None => parse_spec(spec_str@) is None,
            Some(sp) => parse_spec(spec_str@) == Some((sigs_view(sp.sigs@), policies_view(sp.policies@))),
        },
{
    let lines = split_lines(spec_str);
    let policy_t = chars_of("Policy");
    let mut sigs: Vec<WrapperSignature> = Vec::new();
    let mut policies: Vec<WrapperPolicy> = Vec::new();
    let mut i: usize = 0;
    assert(sigs_view(sigs@) =~= Seq::<SigView>::empty());
    assert(policies_view(policies@) =~= Seq::<PolicyView>::empty());
    assert(string_texts(lines@).skip(0) =~= string_texts(lines@));
    while i < lines.len()
        invariant
            policy_t@ == "Policy"@,
            i <= lines@.len(),
            parse_spec(spec_str@) == parse_lines(
                string_texts(lines@).skip(i as int),
                sigs_view(sigs@),
                policies_view(policies@),
            ),
        decreases lines@.len() - i,
    {
        let ghost rest = string_texts(lines@).skip(i as int);
        assert(rest[0] == lines@[i as int]@);
        assert(rest.drop_first() =~= string_texts(lines@).skip(i + 1));
        let line = lines[i].as_str();
        let cs = chars_of(line);
        if cs.len() == 0 {
        } else if tag_at_x(&cs, 0, cs.len(), &policy_t) {
            let p = match parse_wrapper_policy(line) {
                Some(p) => p,
                None => return None,
            };
            let ghost before = policies_view(policies@);
            match find_policy_view(&policies, &p.function_name) {
                Some(k) => {
                    policies.set(k, p);
                    assert(policies_view(policies@) =~= before.update(k as int, policy_view(p)));
                },
                None => {
                    policies.push(p);
                    assert(policies_view(policies@) =~= before.push(policy_view(p)));
                },
            }
        } else {
            let g = match parse_wrapper_sig(line) {
                Some(g) => g,
                None => return None,
            };
            let ghost before = sigs_view(sigs@);
            match find_sig(&sigs, &g.function_name) {
                Some(k) => {
                    sigs.set(k, g);
                    assert(sigs_view(sigs@) =~= before.update(k as int, sig_view(g)));
                },
                None => {
                    sigs.push(g);
                    assert(sigs_view(sigs@) =~= before.push(sig_view(g)));
                },
            }
        }
        i += 1;
    }
    assert(string_texts(lines@).skip(i as int).len() == 0);
    Some(Spec { sigs, policies })
}

/// Reads a wrapper specification whose every line parses.
pub fn parse_spec_from_string(spec_str: String) -> (r: Spec)
    requires
        parse_spec(spec_str@) is Some,
    ensures
        parse_spec(spec_str@) == Some((sigs_view(r.sigs@), policies_view(r.policies@))),
{
    match try_parse_spec(spec_str.as_str()) {
        Some(sp) => sp,
        None => {
            proof {
                assert(false);
            }
            Spec { sigs: Vec::new(), policies: Vec::new() }
        },
    }
}

} // verus!
