use vstd::prelude::*;
use crate::kind::{BaseKind, KindV, kind_pos};
use crate::position::{Cid, Pos, span, span_spec};
use crate::parse::error::{err_at, labelled, ParseError, ParseErrorKind, ErrV, ErrKindV};
use crate::parse::util::{at, starts_at, spaces_spec, parse_space, string_of};

verus! {

/// The model of a parse of a kind.
pub open spec fn kind_result<const T: bool>(r: Result<(BaseKind<T>, usize), ParseError>) -> Result<
    (KindV, int),
    ErrV,
> {
    match r {
        Ok((k, j)) => Ok((k@, j as int)),
        Err(e) => Err(e@),
    }
}

/// The models of a sequence of kinds.
pub open spec fn kinds_view<const T: bool>(v: Seq<BaseKind<T>>) -> Seq<KindV> {
    v.map_values(|k: BaseKind<T>| k@)
}

/// The failure reported where no progress is made; parses always advance,
/// so no parse ends here.
pub open spec fn kind_stuck(i: int) -> Result<(KindV, int), ErrV> {
    Err(err_at(i, ErrKindV::Expected(seq!['Π'])))
}

/// Kind arrows from domains `ks`, the first outermost, to `body`.
pub open spec fn fold_pis_spec(ks: Seq<KindV>, body: KindV) -> KindV
    decreases ks.len(),
{
    if ks.len() == 0 {
        body
    } else {
        KindV::PiTy(Box::new(ks[0]), Box::new(fold_pis_spec(ks.drop_first(), body)))
    }
}

/// The literal `Type` at `i`.
pub open spec fn kind_type_spec(s: Seq<char>, i: int) -> Result<(KindV, int), ErrV> {
    if at(s, i, seq!['T', 'y', 'p', 'e']) {
        Ok((KindV::Type, i + 4))
    } else {
        Err(err_at(i, ErrKindV::Expected(seq!['T', 'y', 'p', 'e'])))
    }
}

/// Further domains from `i` on, each after optional whitespace; the list
/// stops before the first text that is no kind.
pub open spec fn domains_spec(s: Seq<char>, i: int) -> (Seq<KindV>, int)
    decreases s.len() - i, 2int,
{
    let j = spaces_spec(s, i);
    if i <= j <= s.len() {
        match kind_spec(s, j) {
            Ok((k, e)) => if j < e <= s.len() {
                let r = domains_spec(s, e);
                (seq![k] + r.0, r.1)
            } else {
                (Seq::empty(), i)
            },
            Err(_) => (Seq::empty(), i),
        }
    } else {
        (Seq::empty(), i)
    }
}

/// A kind arrow at `i`: `Π`, one or more domain kinds, `->`, and the
/// codomain kind.
pub open spec fn kind_pi_ty_spec(s: Seq<char>, i: int) -> Result<(KindV, int), ErrV>
    decreases s.len() - i, 0int,
{
    if !at(s, i, seq!['Π']) {
        Err(err_at(i, ErrKindV::Expected(seq!['Π'])))
    } else {
        let j = spaces_spec(s, i + 1);
        if i < j <= s.len() {
            match kind_spec(s, j) {
                Err(e) => Err(e),
                Ok((k0, e0)) => if i < e0 <= s.len() {
                    let more = domains_spec(s, e0);
                    let ks = seq![k0] + more.0;
                    let j2 = spaces_spec(s, more.1);
                    if !at(s, j2, seq!['-', '>']) {
                        Err(err_at(j2, ErrKindV::Expected(seq!['-', '>'])))
                    } else {
                        let j3 = spaces_spec(s, j2 + 2);
                        if i < j3 <= s.len() {
                            match kind_spec(s, j3) {
                                Err(e) => Err(e),
                                Ok((body, e)) => Ok((fold_pis_spec(ks, body), e)),
                            }
                        } else {
                            kind_stuck(i)
                        }
                    }
                } else {
                    kind_stuck(i)
                },
            }
        } else {
            kind_stuck(i)
        }
    }
}

/// A parenthesized kind at `i`.
pub open spec fn kind_paren_spec(s: Seq<char>, i: int) -> Result<(KindV, int), ErrV>
    decreases s.len() - i, 0int,
{
    if !at(s, i, seq!['(']) {
        Err(err_at(i, ErrKindV::Expected(seq!['('])))
    } else {
        let j = spaces_spec(s, i + 1);
        if i < j <= s.len() {
            match kind_spec(s, j) {
                Err(e) => Err(e),
                Ok((k, e)) => {
                    let e2 = spaces_spec(s, e);
                    if at(s, e2, seq![')']) {
                        Ok((k, e2 + 1))
                    } else {
                        Err(err_at(e2, ErrKindV::Expected(seq![')'])))
                    }
                },
            }
        } else {
            kind_stuck(i)
        }
    }
}

/// A kind at `i`: a parenthesized kind, else `Type`, else a kind arrow; when
/// all three fail, the arrow's failure is reported, labelled with that
/// production.
pub open spec fn kind_spec(s: Seq<char>, i: int) -> Result<(KindV, int), ErrV>
    decreases s.len() - i, 1int,
{
    match kind_paren_spec(s, i) {
        Ok(r) => Ok(r),
        Err(_) => match kind_type_spec(s, i) {
            Ok(r) => Ok(r),
            Err(_) => match kind_pi_ty_spec(s, i) {
                Ok(r) => Ok(r),
                Err(e) => Err(labelled(e, "Π kind"@)),
            },
        },
    }
}

/// Parses the literal `Type` at `from`.
pub fn parse_kind_type<const T: bool>(input: Cid, s: &Vec<char>, from: usize) -> (r: Result<
    (BaseKind<T>, usize),
    ParseError,
>)
    requires
        from <= s@.len(),
    ensures
        kind_result(r) == kind_type_spec(s@, from as int),
        r is Ok ==> from < r->Ok_0.1 <= s@.len(),
        r is Ok ==> kind_pos(&r->Ok_0.0) == span_spec(input, from as int, r->Ok_0.1 as int),
{
    let word = vec!['T', 'y', 'p', 'e'];
    assert(word@ =~= seq!['T', 'y', 'p', 'e']);
    let slen = s.len();
    if starts_at(s, from, &word) {
        let upto = from + 4;
        Ok((BaseKind::Type(span(input, from, upto)), upto))
    } else {
        Err(ParseError::new(from, ParseErrorKind::Expected(string_of(&word))))
    }
}

fn parse_domains<const T: bool>(input: Cid, s: &Vec<char>, from: usize, ks: &mut Vec<BaseKind<T>>) -> (r: usize)
    requires
        from <= s@.len(),
    ensures
        kinds_view(final(ks)@) == kinds_view(old(ks)@) + domains_spec(s@, from as int).0,
        r == domains_spec(s@, from as int).1,
        from <= r <= s@.len(),
    decreases s.len() - from, 2int,
{
    let j = parse_space(s, from).0;
    match parse_kind(input, s, j) {
        Ok((k, e)) => {
            ks.push(k);
            let r = parse_domains(input, s, e, ks);
            assert(kinds_view(final(ks)@) =~= kinds_view(old(ks)@) + domains_spec(s@, from as int).0);
            r
        },
        Err(_) => {
            assert(kinds_view(final(ks)@) =~= kinds_view(old(ks)@) + domains_spec(s@, from as int).0);
            from
        },
    }
}

fn fold_pis<const T: bool>(pos: Pos, ks: Vec<BaseKind<T>>, body: BaseKind<T>) -> (r: BaseKind<T>)
    ensures
        r@ == fold_pis_spec(kinds_view(ks@), body@),
        ks@.len() > 0 ==> kind_pos(&r) == pos,
{
    let ghost views = kinds_view(ks@);
    let ghost n = views.len();
    let mut ks = ks;
    let mut acc = body;
    let ghost body_v = acc@;
    while ks.len() > 0
        invariant
            ks@.len() <= n,
            kinds_view(ks@) == views.subrange(0, ks@.len() as int),
            acc@ == fold_pis_spec(views.subrange(ks@.len() as int, n as int), body_v),
            n == views.len(),
            ks@.len() < n ==> kind_pos(&acc) == pos,
        decreases ks.len(),
    {
        let ghost m0 = ks@.len();
        let ghost before = ks@;
        let k = ks.pop().unwrap();
        assert(k@ == kinds_view(before)[m0 - 1]);
        assert(kinds_view(ks@) =~= views.subrange(0, ks@.len() as int));
        assert(views.subrange(m0 - 1, n as int).drop_first() =~= views.subrange(m0 as int, n as int));
        acc = BaseKind::PiTy(pos, Box::new(k), Box::new(acc));
    }
    assert(views.subrange(0, n as int) =~= views);
    acc
}

/// Parses a kind arrow at `from`: `Π`, one or more domain kinds, `->`, and
/// the codomain; the first domain is the outermost.
pub fn parse_kind_pi_ty<const T: bool>(input: Cid, s: &Vec<char>, from: usize) -> (r: Result<
    (BaseKind<T>, usize),
    ParseError,
>)
    requires
        from <= s@.len(),
    ensures
        kind_result(r) == kind_pi_ty_spec(s@, from as int),
        r is Ok ==> from < r->Ok_0.1 <= s@.len(),
        r is Ok ==> kind_pos(&r->Ok_0.0) == span_spec(input, from as int, r->Ok_0.1 as int),
    decreases s.len() - from, 0int,
{
    let pi = vec!['Π'];
    assert(pi@ =~= seq!['Π']);
    if !starts_at(s, from, &pi) {
        return Err(ParseError::new(from, ParseErrorKind::Expected(string_of(&pi))));
    }
    let slen = s.len();
    let j = parse_space(s, from + 1).0;
    let (k0, e0) = match parse_kind(input, s, j) {
        Ok(x) => x,
        Err(e) => {
            return Err(e);
        },
    };
    let mut ks: Vec<BaseKind<T>> = Vec::new();
    ks.push(k0);
    let e1 = parse_domains(input, s, e0, &mut ks);
    assert(kinds_view(ks@) =~= seq![kinds_view(ks@)[0]] + domains_spec(s@, e0 as int).0);
    let j2 = parse_space(s, e1).0;
    let arrow = vec!['-', '>'];
    assert(arrow@ =~= seq!['-', '>']);
    if !starts_at(s, j2, &arrow) {
        return Err(ParseError::new(j2, ParseErrorKind::Expected(string_of(&arrow))));
    }
    let j3 = parse_space(s, j2 + 2).0;
    let (body, upto) = match parse_kind(input, s, j3) {
        Ok(x) => x,
        Err(e) => {
            return Err(e);
        },
    };
    let pos = span(input, from, upto);
    Ok((fold_pis(pos, ks, body), upto))
}

/// Parses a kind at `from`: a parenthesized kind, `Type`, or a kind arrow,
/// tried in that order.
pub fn parse_kind<const T: bool>(input: Cid, s: &Vec<char>, from: usize) -> (r: Result<
    (BaseKind<T>, usize),
    ParseError,
>)
    requires
        from <= s@.len(),
    ensures
        kind_result(r) == kind_spec(s@, from as int),
        r is Ok ==> from < r->Ok_0.1 <= s@.len(),
        r is Ok && !(kind_paren_spec(s@, from as int) is Ok) ==> kind_pos(&r->Ok_0.0) == span_spec(
            input,
            from as int,
            r->Ok_0.1 as int,
        ),
    decreases s.len() - from, 1int,
{
    let open = vec!['('];
    assert(open@ =~= seq!['(']);
    if starts_at(s, from, &open) {
        let j = parse_space(s, from + 1).0;
        match parse_kind(input, s, j) {
            Ok((k, e)) => {
                let e2 = parse_space(s, e).0;
                let close = vec![')'];
                assert(close@ =~= seq![')']);
                if starts_at(s, e2, &close) {
                    return Ok((k, e2 + 1));
                }
            },
            Err(_) => {},
        }
    }
    match parse_kind_type(input, s, from) {
        Ok(r) => Ok(r),
        Err(_) => match parse_kind_pi_ty(input, s, from) {
            Ok(r) => Ok(r),
            Err(e) => Err(e.label("Π kind")),
        },
    }
}

} // verus!
