use vstd::prelude::*;
use vstd::string::StrSliceExecFns;
use crate::name::{
    Name, is_whitespace, is_delimiter, is_valid_symbol_string, is_whitespace_spec,
    is_delimiter_spec, is_valid_symbol_string_spec,
};
use crate::parse::error::{err_at, ParseError, ParseErrorKind, ErrV, ErrKindV};
use crate::print::push_char;
use crate::uses::Uses;

verus! {

#[verifier::external_type_specification]
#[verifier::external_body]
#[verifier::reject_recursive_types(A)]
pub struct ExVector<A>(sp_im::Vector<A>);

/// The binder context: the names in scope, innermost first.
pub type Ctx = sp_im::Vector<Name>;

/// The names a binder context holds, innermost first.
pub uninterp spec fn ctx_names(c: Ctx) -> Seq<Seq<char>>;

/// Relies on `sp_im::Vector::new`: an empty vector.
#[verifier::external_body]
fn ctx_new() -> (r: Ctx)
    ensures
        ctx_names(r) == Seq::<Seq<char>>::empty(),
{
    sp_im::Vector::new()
}

/// The empty binder context.
pub fn empty_ctx() -> (r: Ctx)
    ensures
        ctx_names(r) == Seq::<Seq<char>>::empty(),
{
    ctx_new()
}

/// Relies on `sp_im::Vector::len`: the number of elements.
#[verifier::external_body]
pub(crate) fn ctx_len(c: &Ctx) -> (r: usize)
    ensures
        r == ctx_names(*c).len(),
{
    c.len()
}

/// Relies on `sp_im::Vector::get`: the element at an index below the length.
#[verifier::external_body]
pub(crate) fn ctx_get(c: &Ctx, i: usize) -> (r: &Name)
    requires
        i < ctx_names(*c).len(),
    ensures
        r@ == ctx_names(*c)[i as int],
{
    c.get(i).unwrap()
}

/// Relies on `sp_im::Vector::push_front`: the value becomes the first element,
/// the others follow in their order.
#[verifier::external_body]
pub(crate) fn ctx_push_front(c: &mut Ctx, n: Name)
    ensures
        ctx_names(*final(c)) == seq![n@] + ctx_names(*old(c)),
{
    c.push_front(n)
}

/// Relies on `Clone for sp_im::Vector`: a vector with clones of the same
/// elements, which for names keep their text.
#[verifier::external_body]
pub(crate) fn ctx_clone(c: &Ctx) -> (r: Ctx)
    ensures
        ctx_names(r) == ctx_names(*c),
{
    c.clone()
}

/// The characters of a source text, which the parsers read.
pub fn source_chars(text: &str) -> (r: Vec<char>)
    ensures
        r@ == text@,
{
    let n = text.unicode_len();
    let mut v: Vec<char> = Vec::new();
    let mut k: usize = 0;
    while k < n
        invariant
            n == text@.len(),
            k <= n,
            v@ == text@.subrange(0, k as int),
        decreases n - k,
    {
        v.push(text.get_char(k));
        k = k + 1;
        assert(v@ =~= text@.subrange(0, k as int));
    }
    assert(text@.subrange(0, n as int) =~= text@);
    v
}

/// Whether `p` occurs in `s` at offset `i`.
pub open spec fn at(s: Seq<char>, i: int, p: Seq<char>) -> bool {
    0 <= i && i + p.len() <= s.len() && s.subrange(i, i + p.len()) == p
}

/// Whether the characters `p` occur in `s` at offset `i`.
pub fn starts_at(s: &Vec<char>, i: usize, p: &Vec<char>) -> (r: bool)
    ensures
        r == at(s@, i as int, p@),
{
    if i > s.len() || p.len() > s.len() - i {
        return false;
    }
    let slen = s.len();
    let mut k: usize = 0;
    while k < p.len()
        invariant
            slen == s@.len(),
            k <= p@.len(),
            i <= s@.len(),
            i + p@.len() <= s@.len(),
            forall|m: int| 0 <= m < k ==> s@[i + m] == p@[m],
        decreases p.len() - k,
    {
        assert(i + k < s@.len());
        if s[i + k] != p[k] {
            assert(s@.subrange(i as int, i + p@.len())[k as int] != p@[k as int]);
            return false;
        }
        k = k + 1;
    }
    assert(s@.subrange(i as int, i + p@.len()) =~= p@);
    true
}

/// Whitespace as the separating rules read it: space, tab, carriage return,
/// line feed.
pub open spec fn is_multispace_spec(c: char) -> bool {
    c == ' ' || c == '\t' || c == '\r' || c == '\n'
}

fn is_multispace(c: char) -> (r: bool)
    ensures
        r == is_multispace_spec(c),
{
    c == ' ' || c == '\t' || c == '\r' || c == '\n'
}

/// Where a run of whitespace and line comments that starts at `i` ends. A
/// comment (`//` to the end of the line) counts only when a line break
/// follows it.
pub open spec fn spaces_spec(s: Seq<char>, i: int) -> int
    decreases s.len() - i, 1int,
{
    if 0 <= i < s.len() && is_multispace_spec(s[i]) {
        spaces_spec(s, i + 1)
    } else if at(s, i, seq!['/', '/']) {
        match comment_spaces_spec(s, i + 2) {
            Some(j) => j,
            None => i,
        }
    } else {
        i
    }
}

/// Inside a line comment at `i`: where the whitespace after its line break
/// ends, or nothing if the text ends first.
pub open spec fn comment_spaces_spec(s: Seq<char>, i: int) -> Option<int>
    decreases s.len() - i, 0int,
{
    if 0 <= i < s.len() {
        if s[i] == '\n' {
            Some(spaces_spec(s, i + 1))
        } else {
            comment_spaces_spec(s, i + 1)
        }
    } else {
        None
    }
}

/// Where the comment text that starts at `i` ends: at the next line feed, or
/// at the end of the text.
pub open spec fn comment_end_spec(s: Seq<char>, i: int) -> int
    decreases s.len() - i,
{
    if 0 <= i < s.len() && s[i] != '\n' {
        comment_end_spec(s, i + 1)
    } else {
        i
    }
}

/// A line comment at `from`: `//` and the rest of the line, the line feed
/// excluded. Returns where the comment ends.
pub fn parse_line_comment(s: &Vec<char>, from: usize) -> (r: Result<usize, ParseError>)
    requires
        from <= s@.len(),
    ensures
        at(s@, from as int, seq!['/', '/']) ==> r is Ok && r->Ok_0 == comment_end_spec(
            s@,
            from + 2,
        ),
        !at(s@, from as int, seq!['/', '/']) ==> r is Err && r->Err_0@ == err_at(from as int, ErrKindV::Expected(seq!['/', '/'])),
{
    let slashes = vec!['/', '/'];
    assert(slashes@ =~= seq!['/', '/']);
    if !starts_at(s, from, &slashes) {
        return Err(ParseError::new(from, ParseErrorKind::Expected(string_of(&slashes))));
    }
    let slen = s.len();
    assert(from + 2 <= slen);
    let mut k = from + 2;
    while k < s.len() && s[k] != '\n'
        invariant
            from + 2 <= k <= s@.len(),
            comment_end_spec(s@, k as int) == comment_end_spec(s@, from + 2),
        decreases s.len() - k,
    {
        k = k + 1;
    }
    Ok(k)
}

/// The texts of the line comments, after their `//`, in the run of
/// whitespace and comments that starts at `i`.
pub open spec fn comments_spec(s: Seq<char>, i: int) -> Seq<Seq<char>>
    decreases s.len() - i,
{
    if 0 <= i < s.len() && is_multispace_spec(s[i]) {
        comments_spec(s, i + 1)
    } else if at(s, i, seq!['/', '/']) {
        let k = comment_end_spec(s, i + 2);
        if i < k < s.len() {
            seq![s.subrange(i + 2, k)] + comments_spec(s, k + 1)
        } else {
            Seq::empty()
        }
    } else {
        Seq::empty()
    }
}

/// The texts of a sequence of strings.
pub open spec fn strings_view(v: Seq<String>) -> Seq<Seq<char>> {
    v.map_values(|x: String| x@)
}

proof fn lemma_comment_end(s: Seq<char>, k: int)
    requires
        0 <= k <= s.len(),
    ensures
        k <= comment_end_spec(s, k) <= s.len(),
        comment_end_spec(s, k) < s.len() ==> s[comment_end_spec(s, k)] == '\n',
        comment_spaces_spec(s, k) is Some <==> comment_end_spec(s, k) < s.len(),
        comment_end_spec(s, k) < s.len() ==> comment_spaces_spec(s, k) == Some(
            spaces_spec(s, comment_end_spec(s, k) + 1),
        ),
    decreases s.len() - k,
{
    if k < s.len() && s[k] != '\n' {
        lemma_comment_end(s, k + 1);
    }
}

/// The string of the characters of `s` from `a` up to `b`.
fn string_of_range(s: &Vec<char>, a: usize, b: usize) -> (r: String)
    requires
        a <= b <= s@.len(),
    ensures
        r@ == s@.subrange(a as int, b as int),
{
    let mut out = String::new();
    let mut k = a;
    while k < b
        invariant
            a <= k <= b <= s@.len(),
            out@ == s@.subrange(a as int, k as int),
        decreases b - k,
    {
        push_char(&mut out, s[k]);
        k = k + 1;
        assert(out@ =~= s@.subrange(a as int, k as int));
    }
    out
}

/// Skips whitespace and line comments; returns where they end, and the
/// texts of the comments after their `//`, in order.
pub fn parse_space(s: &Vec<char>, from: usize) -> (r: (usize, Vec<String>))
    requires
        from <= s@.len(),
    ensures
        r.0 == spaces_spec(s@, from as int),
        from <= r.0 <= s@.len(),
        strings_view(r.1@) == comments_spec(s@, from as int),
{
    let mut j = from;
    let mut coms: Vec<String> = Vec::new();
    let slashes = vec!['/', '/'];
    assert(slashes@ =~= seq!['/', '/']);
    assert(strings_view(coms@) + comments_spec(s@, from as int) =~= comments_spec(s@, from as int));
    loop
        invariant
            from <= j <= s@.len(),
            spaces_spec(s@, j as int) == spaces_spec(s@, from as int),
            strings_view(coms@) + comments_spec(s@, j as int) == comments_spec(s@, from as int),
            slashes@ == seq!['/', '/'],
        decreases s.len() - j,
    {
        if j < s.len() && is_multispace(s[j]) {
            j = j + 1;
        } else if starts_at(s, j, &slashes) {
            let mut k = j + 2;
            while k < s.len() && s[k] != '\n'
                invariant
                    j + 2 <= k <= s@.len(),
                    comment_end_spec(s@, k as int) == comment_end_spec(s@, j + 2),
                decreases s.len() - k,
            {
                k = k + 1;
            }
            proof {
                lemma_comment_end(s@, j + 2);
            }
            if k < s.len() {
                let ghost before = coms@;
                coms.push(string_of_range(s, j + 2, k));
                assert(strings_view(coms@) =~= strings_view(before).push(s@.subrange(j + 2, k as int)));
                assert(strings_view(coms@) + comments_spec(s@, k + 1) =~= strings_view(before) + (seq![
                    s@.subrange(j + 2, k as int)] + comments_spec(s@, k + 1)));
                j = k + 1;
            } else {
                assert(strings_view(coms@) + comments_spec(s@, j as int) =~= strings_view(coms@));
                return (j, coms);
            }
        } else {
            assert(strings_view(coms@) + comments_spec(s@, j as int) =~= strings_view(coms@));
            return (j, coms);
        }
    }
}

/// Like `parse_space`, but at least one whitespace character must come first.
pub fn parse_space1(s: &Vec<char>, from: usize) -> (r: Result<usize, ParseError>)
    requires
        from <= s@.len(),
    ensures
        (from < s@.len() && is_multispace_spec(s@[from as int])) ==> r is Ok && r->Ok_0
            == spaces_spec(s@, from as int),
        !(from < s@.len() && is_multispace_spec(s@[from as int])) ==> r is Err && r->Err_0@
            == err_at(from as int, ErrKindV::Expected(seq![' '])),
{
    if from < s.len() && is_multispace(s[from]) {
        Ok(parse_space(s, from).0)
    } else {
        let space = vec![' '];
        assert(space@ =~= seq![' ']);
        Err(ParseError::new(from, ParseErrorKind::Expected(string_of(&space))))
    }
}

/// The string with the given characters.
pub fn string_of(v: &Vec<char>) -> (r: String)
    ensures
        r@ == v@,
{
    let mut out = String::new();
    let mut k: usize = 0;
    while k < v.len()
        invariant
            k <= v@.len(),
            out@ == v@.subrange(0, k as int),
        decreases v.len() - k,
    {
        push_char(&mut out, v[k]);
        k = k + 1;
        assert(out@ =~= v@.subrange(0, k as int));
    }
    assert(v@.subrange(0, v@.len() as int) =~= v@);
    out
}

/// Whether a telescope of arguments ends at `i`: a keyword or punctuation
/// that no argument starts with, or the end of the text.
pub open spec fn tele_end_spec(s: Seq<char>, i: int) -> bool {
    i == s.len() || at(s, i, seq!['d', 'e', 'f']) || at(s, i, seq!['t', 'y', 'p', 'e'])
        || at(s, i, seq!['i', 'n']) || at(s, i, seq!['=']) || at(s, i, seq!['-', '>'])
        || at(s, i, seq![';']) || at(s, i, seq![')']) || at(s, i, seq!['{'])
        || at(s, i, seq!['}']) || at(s, i, seq![','])
}

/// Looks ahead, without consuming, for the end of an argument telescope.
pub fn parse_tele_end(s: &Vec<char>, from: usize) -> (r: bool)
    requires
        from <= s@.len(),
    ensures
        r == tele_end_spec(s@, from as int),
{
    let t_def = vec!['d', 'e', 'f'];
    let t_type = vec!['t', 'y', 'p', 'e'];
    let t_in = vec!['i', 'n'];
    let t_eq = vec!['='];
    let t_arrow = vec!['-', '>'];
    let t_semi = vec![';'];
    let t_close = vec![')'];
    let t_lbrace = vec!['{'];
    let t_rbrace = vec!['}'];
    let t_comma = vec![','];
    assert(t_def@ =~= seq!['d', 'e', 'f']);
    assert(t_type@ =~= seq!['t', 'y', 'p', 'e']);
    assert(t_in@ =~= seq!['i', 'n']);
    assert(t_eq@ =~= seq!['=']);
    assert(t_arrow@ =~= seq!['-', '>']);
    assert(t_semi@ =~= seq![';']);
    assert(t_close@ =~= seq![')']);
    assert(t_lbrace@ =~= seq!['{']);
    assert(t_rbrace@ =~= seq!['}']);
    assert(t_comma@ =~= seq![',']);
    from == s.len() || starts_at(s, from, &t_def) || starts_at(s, from, &t_type)
        || starts_at(s, from, &t_in) || starts_at(s, from, &t_eq) || starts_at(s, from, &t_arrow)
        || starts_at(s, from, &t_semi) || starts_at(s, from, &t_close)
        || starts_at(s, from, &t_lbrace) || starts_at(s, from, &t_rbrace)
        || starts_at(s, from, &t_comma)
}

/// The keywords and operators that cannot be names.
pub open spec fn reserved_spec() -> Seq<Seq<char>> {
    seq![
        seq!['/', '/'],
        seq!['λ'],
        seq!['∀'],
        seq!['l', 'a', 'm', 'b', 'd', 'a'],
        seq!['f', 'o', 'r', 'a', 'l', 'l'],
        seq!['⁰'],
        seq!['¹'],
        seq!['˚'],
        seq!['⁺'],
        seq!['=', '>'],
        seq!['-', '>'],
        seq!['='],
        seq![';'],
        seq![':', ':'],
        seq!['l', 'e', 't'],
        seq!['i', 'n'],
        seq!['t', 'y', 'p', 'e'],
        seq!['d', 'a', 't', 'a'],
        seq!['s', 'e', 'l', 'f'],
        seq!['d', 'e', 'f'],
        seq!['c', 'a', 's', 'e'],
        seq!['T', 'y', 'p', 'e'],
    ]
}

/// The keywords and operators that cannot be names.
pub fn reserved_symbols() -> (r: Vec<String>)
    ensures
        r@.len() == reserved_spec().len(),
        forall|k: int| 0 <= k < r@.len() ==> #[trigger] r@[k]@ == reserved_spec()[k],
{
    let r = vec![
        string_of(&vec!['/', '/']),
        string_of(&vec!['λ']),
        string_of(&vec!['∀']),
        string_of(&vec!['l', 'a', 'm', 'b', 'd', 'a']),
        string_of(&vec!['f', 'o', 'r', 'a', 'l', 'l']),
        string_of(&vec!['⁰']),
        string_of(&vec!['¹']),
        string_of(&vec!['˚']),
        string_of(&vec!['⁺']),
        string_of(&vec!['=', '>']),
        string_of(&vec!['-', '>']),
        string_of(&vec!['=']),
        string_of(&vec![';']),
        string_of(&vec![':', ':']),
        string_of(&vec!['l', 'e', 't']),
        string_of(&vec!['i', 'n']),
        string_of(&vec!['t', 'y', 'p', 'e']),
        string_of(&vec!['d', 'a', 't', 'a']),
        string_of(&vec!['s', 'e', 'l', 'f']),
        string_of(&vec!['d', 'e', 'f']),
        string_of(&vec!['c', 'a', 's', 'e']),
        string_of(&vec!['T', 'y', 'p', 'e']),
    ];
    assert forall|k: int| 0 <= k < r@.len() implies #[trigger] r@[k]@ == reserved_spec()[k] by {
        assert(r@[k]@ =~= reserved_spec()[k]);
    }
    r
}

/// Whether `tok` is a keyword or operator.
pub fn is_reserved(tok: &String) -> (r: bool)
    ensures
        r == reserved_spec().contains(tok@),
{
    let words = reserved_symbols();
    let mut k: usize = 0;
    while k < words.len()
        invariant
            k <= words@.len(),
            words@.len() == reserved_spec().len(),
            forall|m: int| 0 <= m < words@.len() ==> #[trigger] words@[m]@ == reserved_spec()[m],
            forall|m: int| 0 <= m < k ==> reserved_spec()[m] != tok@,
        decreases words.len() - k,
    {
        if words[k] == *tok {
            assert(reserved_spec()[k as int] == tok@);
            return true;
        }
        k = k + 1;
    }
    false
}

/// Whether `c` is an ASCII decimal digit.
pub open spec fn is_digit_spec(c: char) -> bool {
    48 <= c as u32 && c as u32 <= 57
}

fn is_digit(c: char) -> (r: bool)
    ensures
        r == is_digit_spec(c),
{
    48 <= c as u32 && c as u32 <= 57
}

/// Text that starts like an unsigned number.
pub open spec fn numeric1_spec(t: Seq<char>) -> bool {
    t.len() > 0 && is_digit_spec(t[0])
}

/// Text that starts like a signed number.
pub open spec fn numeric2_spec(t: Seq<char>) -> bool {
    t.len() > 1 && (t[0] == '-' || t[0] == '+') && is_digit_spec(t[1])
}

/// Whether `s` starts with a decimal digit.
pub fn is_numeric_symbol_string1(s: &str) -> (r: bool)
    ensures
        r == numeric1_spec(s@),
{
    s.unicode_len() > 0 && is_digit(s.get_char(0))
}

/// Whether `s` starts with a sign followed by a decimal digit.
pub fn is_numeric_symbol_string2(s: &str) -> (r: bool)
    ensures
        r == numeric2_spec(s@),
{
    if s.unicode_len() < 2 {
        return false;
    }
    let c = s.get_char(0);
    (c == '-' || c == '+') && is_digit(s.get_char(1))
}

/// Characters that end a name.
pub open spec fn name_stop_spec(c: char) -> bool {
    is_whitespace_spec(c) || is_delimiter_spec(c)
}

/// Where the longest run of name characters that starts at `i` ends.
pub open spec fn name_end_spec(s: Seq<char>, i: int) -> int
    decreases s.len() - i,
{
    if 0 <= i < s.len() && !name_stop_spec(s[i]) {
        name_end_spec(s, i + 1)
    } else {
        i
    }
}

/// A name at `i`: the longest run of name characters, which must be
/// non-empty, no keyword, not start with `#`, not look like a number, and be
/// over the symbol alphabet, the reasons being checked in that order.
pub open spec fn name_spec(s: Seq<char>, i: int) -> Result<(Seq<char>, int), ErrV> {
    let j = name_end_spec(s, i);
    let t = s.subrange(i, j);
    if j == i {
        Err(err_at(i, ErrKindV::ExpectedName))
    } else if reserved_spec().contains(t) {
        Err(err_at(i, ErrKindV::ReservedKeyword(t)))
    } else if t[0] == '#' {
        Err(err_at(i, ErrKindV::ReservedSyntax(t)))
    } else if numeric1_spec(t) || numeric2_spec(t) {
        Err(err_at(i, ErrKindV::NumericSyntax(t)))
    } else if !is_valid_symbol_string_spec(t) {
        Err(err_at(i, ErrKindV::InvalidSymbol(t)))
    } else {
        Ok((t, j))
    }
}

/// The model of a name parse.
pub open spec fn name_result(r: Result<(Name, usize), ParseError>) -> Result<(Seq<char>, int), ErrV> {
    match r {
        Ok((n, j)) => Ok((n@, j as int)),
        Err(e) => Err(e@),
    }
}

/// Parses a name at `from`.
pub fn parse_name(s: &Vec<char>, from: usize) -> (r: Result<(Name, usize), ParseError>)
    requires
        from <= s@.len(),
    ensures
        name_result(r) == name_spec(s@, from as int),
        r is Ok ==> from < r->Ok_0.1 <= s@.len(),
{
    let slen = s.len();
    let mut j = from;
    let mut chars: Vec<char> = Vec::new();
    while j < slen && !(is_whitespace(s[j]) || is_delimiter(s[j]))
        invariant
            slen == s@.len(),
            from <= j <= slen,
            name_end_spec(s@, j as int) == name_end_spec(s@, from as int),
            chars@ == s@.subrange(from as int, j as int),
        decreases slen - j,
    {
        chars.push(s[j]);
        j = j + 1;
        assert(chars@ =~= s@.subrange(from as int, j as int));
    }
    let tok = string_of(&chars);
    if j == from {
        Err(ParseError::new(from, ParseErrorKind::ExpectedName))
    } else if is_reserved(&tok) {
        Err(ParseError::new(from, ParseErrorKind::ReservedKeyword(tok)))
    } else if chars[0] == '#' {
        Err(ParseError::new(from, ParseErrorKind::ReservedSyntax(tok)))
    } else if is_numeric_symbol_string1(tok.as_str()) || is_numeric_symbol_string2(tok.as_str()) {
        Err(ParseError::new(from, ParseErrorKind::NumericSyntax(tok)))
    } else if !is_valid_symbol_string(&chars) {
        Err(ParseError::new(from, ParseErrorKind::InvalidSymbol(tok)))
    } else {
        Ok((Name::from_string(tok), j))
    }
}

/// What a usage annotation at `i` parses to.
pub open spec fn uses_spec(s: Seq<char>, i: int) -> Result<(Uses, int), ErrV> {
    if at(s, i, seq!['⁰']) {
        Ok((Uses::Erased, i + 1))
    } else if at(s, i, seq!['¹']) {
        Ok((Uses::Once, i + 1))
    } else if at(s, i, seq!['˚']) {
        Ok((Uses::Affi, i + 1))
    } else if at(s, i, seq!['⁺']) {
        Ok((Uses::Many, i + 1))
    } else {
        Err(err_at(i, ErrKindV::Expected(seq!['⁺'])))
    }
}

/// Parses a usage annotation: `⁰`, `¹`, `˚` or `⁺`.
pub fn parse_uses(s: &Vec<char>, from: usize) -> (r: Result<(Uses, usize), ParseError>)
    requires
        from <= s@.len(),
    ensures
        (match r {
            Ok((u, j)) => Ok((u, j as int)),
            Err(e) => Err(e@),
        }) == uses_spec(s@, from as int),
{
    let zero = vec!['⁰'];
    let one = vec!['¹'];
    let affine = vec!['˚'];
    let many = vec!['⁺'];
    assert(zero@ =~= seq!['⁰']);
    assert(one@ =~= seq!['¹']);
    assert(affine@ =~= seq!['˚']);
    assert(many@ =~= seq!['⁺']);
    let slen = s.len();
    if starts_at(s, from, &zero) {
        Ok((Uses::Erased, from + 1))
    } else if starts_at(s, from, &one) {
        Ok((Uses::Once, from + 1))
    } else if starts_at(s, from, &affine) {
        Ok((Uses::Affi, from + 1))
    } else if starts_at(s, from, &many) {
        Ok((Uses::Many, from + 1))
    } else {
        Err(ParseError::new(from, ParseErrorKind::Expected(string_of(&many))))
    }
}

} // verus!
