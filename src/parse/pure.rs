use vstd::prelude::*;
use crate::name::Name;
use crate::position::{Cid, Pos, span, span_spec};
use crate::pure::{Pure, PureV, pure_pos};
use crate::parse::error::{err_at, labelled, ParseError, ParseErrorKind, ErrV, ErrKindV};
use crate::parse::util::{
    Ctx, ctx_names, ctx_len, ctx_get, ctx_push_front, ctx_clone, at, starts_at, spaces_spec,
    parse_space, name_spec, parse_name, tele_end_spec, parse_tele_end, string_of,
};

verus! {

/// The texts of a sequence of names.
pub open spec fn names_view(v: Seq<Name>) -> Seq<Seq<char>> {
    v.map_values(|n: Name| n@)
}

/// The models of a sequence of pure terms.
pub open spec fn pures_view(v: Seq<Pure>) -> Seq<PureV> {
    v.map_values(|p: Pure| p@)
}

/// The model of a parse of a pure term.
pub open spec fn pure_result(r: Result<(Pure, usize), ParseError>) -> Result<(PureV, int), ErrV> {
    match r {
        Ok((t, j)) => Ok((t@, j as int)),
        Err(e) => Err(e@),
    }
}

/// The model of a parse of an argument list.
pub open spec fn args_result(r: Result<(Vec<Pure>, usize), ParseError>) -> Result<
    (Seq<PureV>, int),
    ErrV,
> {
    match r {
        Ok((v, j)) => Ok((pures_view(v@), j as int)),
        Err(e) => Err(e@),
    }
}

/// The failure reported where no progress is made; parses always advance,
/// so no parse ends here.
pub open spec fn stuck(i: int) -> Result<(PureV, int), ErrV> {
    Err(err_at(i, ErrKindV::ExpectedName))
}

/// The first position at or after `k` where `n` stands in `ctx`.
pub open spec fn lookup_spec(ctx: Seq<Seq<char>>, n: Seq<char>, k: int) -> Option<int>
    decreases ctx.len() - k,
{
    if 0 <= k < ctx.len() {
        if ctx[k] == n {
            Some(k)
        } else {
            lookup_spec(ctx, n, k + 1)
        }
    } else {
        None
    }
}

/// A variable at `i`: a name, resolved to the index of its innermost binder.
pub open spec fn var_spec(ctx: Seq<Seq<char>>, s: Seq<char>, i: int) -> Result<(PureV, int), ErrV> {
    match name_spec(s, i) {
        Err(e) => Err(labelled(e, "local or global reference"@)),
        Ok((n, j)) => match lookup_spec(ctx, n, 0) {
            Some(k) => Ok((PureV::Var(n, k as u64), j)),
            None => Err(err_at(j, ErrKindV::UndefinedReference(n, ctx))),
        },
    }
}

/// Further binder names after one at `i`, each after optional whitespace;
/// the list stops before the first text that is no name.
pub open spec fn binders_spec(s: Seq<char>, i: int) -> (Seq<Seq<char>>, int)
    decreases s.len() - i,
{
    match name_spec(s, spaces_spec(s, i)) {
        Ok((n, k)) => if i < k <= s.len() {
            let r = binders_spec(s, k);
            (seq![n] + r.0, r.1)
        } else {
            (Seq::empty(), i)
        },
        Err(_) => (Seq::empty(), i),
    }
}

/// The context inside binders `bs`, listed outermost first, over `ctx`.
pub open spec fn prepend_spec(bs: Seq<Seq<char>>, ctx: Seq<Seq<char>>) -> Seq<Seq<char>>
    decreases bs.len(),
{
    if bs.len() == 0 {
        ctx
    } else {
        seq![bs.last()] + prepend_spec(bs.drop_last(), ctx)
    }
}

/// Nested lambdas with binders `bs`, the first outermost, around `body`.
pub open spec fn fold_lams_spec(bs: Seq<Seq<char>>, body: PureV) -> PureV
    decreases bs.len(),
{
    if bs.len() == 0 {
        body
    } else {
        PureV::Lam(bs[0], Box::new(fold_lams_spec(bs.drop_first(), body)))
    }
}

/// `f` applied to `xs` in turn.
pub open spec fn fold_apps_spec(f: PureV, xs: Seq<PureV>) -> PureV
    decreases xs.len(),
{
    if xs.len() == 0 {
        f
    } else {
        PureV::App(Box::new(fold_apps_spec(f, xs.drop_last())), Box::new(xs.last()))
    }
}

/// A lambda at `i`: `λ`, one or more binder names, `=>`, and a telescope
/// parsed with the binders in scope.
pub open spec fn lam_spec(ctx: Seq<Seq<char>>, s: Seq<char>, i: int) -> Result<(PureV, int), ErrV>
    decreases s.len() - i, 0int,
{
    if !at(s, i, seq!['λ']) {
        Err(err_at(i, ErrKindV::Expected(seq!['λ'])))
    } else {
        let j1 = spaces_spec(s, spaces_spec(s, i + 1));
        match name_spec(s, j1) {
            Err(e) => Err(e),
            Ok((b0, k)) => {
                let more = binders_spec(s, k);
                let bs = seq![b0] + more.0;
                let j2 = spaces_spec(s, more.1);
                if !at(s, j2, seq!['=', '>']) {
                    Err(err_at(j2, ErrKindV::Expected(seq!['=', '>'])))
                } else {
                    let j3 = spaces_spec(s, j2 + 2);
                    if i < j3 <= s.len() {
                        match telescope_spec(prepend_spec(bs, ctx), s, j3) {
                            Err(e) => Err(e),
                            Ok((body, e)) => Ok((fold_lams_spec(bs, body), e)),
                        }
                    } else {
                        stuck(i)
                    }
                }
            },
        }
    }
}

/// Arguments from `i` on: each after optional whitespace, until the end of
/// the telescope.
pub open spec fn args_spec(ctx: Seq<Seq<char>>, s: Seq<char>, i: int) -> Result<
    (Seq<PureV>, int),
    ErrV,
>
    decreases s.len() - i, 2int,
{
    let j = spaces_spec(s, i);
    if tele_end_spec(s, j) {
        Ok((Seq::empty(), j))
    } else if i <= j <= s.len() {
        match pure_spec(ctx, s, j) {
            Err(e) => Err(e),
            Ok((x, k)) => if j < k <= s.len() {
                match args_spec(ctx, s, k) {
                    Err(e) => Err(e),
                    Ok((xs, e)) => Ok((seq![x] + xs, e)),
                }
            } else {
                Err(err_at(j, ErrKindV::ExpectedName))
            },
        }
    } else {
        Err(err_at(i, ErrKindV::ExpectedName))
    }
}

/// An application telescope at `i`: a function and its arguments.
pub open spec fn telescope_spec(ctx: Seq<Seq<char>>, s: Seq<char>, i: int) -> Result<
    (PureV, int),
    ErrV,
>
    decreases s.len() - i, 2int,
{
    match pure_spec(ctx, s, i) {
        Err(e) => Err(labelled(e, "app fun"@)),
        Ok((f, j)) => {
            let j2 = spaces_spec(s, j);
            if i < j <= j2 <= s.len() {
                match args_spec(ctx, s, j2) {
                    Err(e) => Err(e),
                    Ok((xs, e)) => Ok((fold_apps_spec(f, xs), e)),
                }
            } else {
                stuck(i)
            }
        },
    }
}

/// Whether the telescope at `i` has arguments, so that its root is an
/// application built over the whole telescope.
pub open spec fn telescope_has_args(ctx: Seq<Seq<char>>, s: Seq<char>, i: int) -> bool {
    match pure_spec(ctx, s, i) {
        Ok((_, j)) => match args_spec(ctx, s, spaces_spec(s, j)) {
            Ok((xs, _)) => xs.len() > 0,
            Err(_) => false,
        },
        Err(_) => false,
    }
}

/// A parenthesized telescope at `i`.
pub open spec fn paren_spec(ctx: Seq<Seq<char>>, s: Seq<char>, i: int) -> Result<(PureV, int), ErrV>
    decreases s.len() - i, 0int,
{
    if !at(s, i, seq!['(']) {
        Err(err_at(i, ErrKindV::Expected(seq!['('])))
    } else {
        let j = spaces_spec(s, i + 1);
        if i < j <= s.len() {
            match telescope_spec(ctx, s, j) {
                Err(e) => Err(e),
                Ok((t, k)) => {
                    let k2 = spaces_spec(s, k);
                    if at(s, k2, seq![')']) {
                        Ok((t, k2 + 1))
                    } else {
                        Err(err_at(k2, ErrKindV::Expected(seq![')'])))
                    }
                },
            }
        } else {
            stuck(i)
        }
    }
}

/// A pure term at `i`: a parenthesized telescope, else a lambda, else a
/// variable; when all three fail, the variable's failure is reported, labelled
/// with that production.
pub open spec fn pure_spec(ctx: Seq<Seq<char>>, s: Seq<char>, i: int) -> Result<(PureV, int), ErrV>
    decreases s.len() - i, 1int,
{
    match paren_spec(ctx, s, i) {
        Ok(r) => Ok(r),
        Err(_) => match lam_spec(ctx, s, i) {
            Ok(r) => Ok(r),
            Err(_) => match var_spec(ctx, s, i) {
                Ok(r) => Ok(r),
                Err(e) => Err(labelled(e, "Pure variable"@)),
            },
        },
    }
}

/// Parses a variable at `from` against the binder context `ctx`.
pub fn parse_var(input: Cid, ctx: &Ctx, s: &Vec<char>, from: usize) -> (r: Result<
    (Pure, usize),
    ParseError,
>)
    requires
        from <= s@.len(),
    ensures
        pure_result(r) == var_spec(ctx_names(*ctx), s@, from as int),
        r is Ok ==> from < r->Ok_0.1 <= s@.len(),
        r is Ok ==> pure_pos(&r->Ok_0.0) == span_spec(input, from as int, r->Ok_0.1 as int),
{
    let (nam, upto) = match parse_name(s, from) {
        Ok(x) => x,
        Err(e) => {
            return Err(e.label("local or global reference"));
        },
    };
    assert(name_spec(s@, from as int) == Ok::<(Seq<char>, int), ErrV>((nam@, upto as int)));
    let n = ctx_len(ctx);
    let mut k: usize = 0;
    while k < n
        invariant
            name_spec(s@, from as int) == Ok::<(Seq<char>, int), ErrV>((nam@, upto as int)),
            from < upto <= s@.len(),
            n == ctx_names(*ctx).len(),
            k <= n,
            lookup_spec(ctx_names(*ctx), nam@, k as int) == lookup_spec(ctx_names(*ctx), nam@, 0),
        decreases n - k,
    {
        if *ctx_get(ctx, k) == nam {
            assert(lookup_spec(ctx_names(*ctx), nam@, k as int) == Some(k as int));
            return Ok((Pure::Var(span(input, from, upto), nam, k as u64), upto));
        }
        k = k + 1;
    }
    Err(ParseError::new(upto, ParseErrorKind::UndefinedReference(nam, ctx_clone(ctx))))
}

fn parse_binders(s: &Vec<char>, from: usize, bs: &mut Vec<Name>) -> (r: usize)
    requires
        from <= s@.len(),
    ensures
        names_view(final(bs)@) == names_view(old(bs)@) + binders_spec(s@, from as int).0,
        r == binders_spec(s@, from as int).1,
        from <= r <= s@.len(),
    decreases s.len() - from,
{
    let j = parse_space(s, from).0;
    match parse_name(s, j) {
        Ok((n, k)) => {
            bs.push(n);
            let r = parse_binders(s, k, bs);
            assert(names_view(final(bs)@) =~= names_view(old(bs)@) + binders_spec(s@, from as int).0);
            r
        },
        Err(_) => {
            assert(names_view(final(bs)@) =~= names_view(old(bs)@) + binders_spec(s@, from as int).0);
            from
        },
    }
}

fn fold_apps(pos: Pos, fun: Pure, args: Vec<Pure>) -> (r: Pure)
    ensures
        r@ == fold_apps_spec(fun@, pures_view(args@)),
        args@.len() > 0 ==> pure_pos(&r) == pos,
    decreases args@.len(),
{
    let mut args = args;
    let ghost xs = pures_view(args@);
    match args.pop() {
        None => fun,
        Some(last) => {
            assert(pures_view(args@) =~= xs.drop_last());
            let inner = fold_apps(pos, fun, args);
            Pure::App(pos, Box::new(inner), Box::new(last))
        },
    }
}

/// Parses the arguments of a telescope from `from` on.
pub fn parse_args(input: Cid, ctx: &Ctx, s: &Vec<char>, from: usize) -> (r: Result<
    (Vec<Pure>, usize),
    ParseError,
>)
    requires
        from <= s@.len(),
    ensures
        args_result(r) == args_spec(ctx_names(*ctx), s@, from as int),
        r is Ok ==> from <= r->Ok_0.1 <= s@.len(),
    decreases s.len() - from, 2int,
{
    let j = parse_space(s, from).0;
    if parse_tele_end(s, j) {
        let v: Vec<Pure> = Vec::new();
        assert(pures_view(v@) =~= Seq::<PureV>::empty());
        return Ok((v, j));
    }
    let (x, k) = match parse_pure(input, ctx, s, j) {
        Ok(x) => x,
        Err(e) => {
            return Err(e);
        },
    };
    match parse_args(input, ctx, s, k) {
        Err(e) => Err(e),
        Ok((xs, e)) => {
            let mut xs = xs;
            let ghost old_xs = pures_view(xs@);
            xs.insert(0, x);
            assert(pures_view(xs@) =~= seq![x@] + old_xs);
            Ok((xs, e))
        },
    }
}

/// Parses an application telescope at `from`: a function and its arguments.
pub fn parse_telescope(input: Cid, ctx: &Ctx, s: &Vec<char>, from: usize) -> (r: Result<
    (Pure, usize),
    ParseError,
>)
    requires
        from <= s@.len(),
    ensures
        pure_result(r) == telescope_spec(ctx_names(*ctx), s@, from as int),
        r is Ok ==> from < r->Ok_0.1 <= s@.len(),
        r is Ok && telescope_has_args(ctx_names(*ctx), s@, from as int) ==> pure_pos(&r->Ok_0.0)
            == span_spec(input, from as int, r->Ok_0.1 as int),
    decreases s.len() - from, 2int,
{
    let (fun, j) = match parse_pure(input, ctx, s, from) {
        Ok(x) => x,
        Err(e) => {
            return Err(e.label("app fun"));
        },
    };
    let j2 = parse_space(s, j).0;
    let (args, upto) = match parse_args(input, ctx, s, j2) {
        Ok(x) => x,
        Err(e) => {
            return Err(e);
        },
    };
    Ok((fold_apps(span(input, from, upto), fun, args), upto))
}

fn extend_ctx(ctx: &Ctx, bs: &Vec<Name>) -> (r: Ctx)
    ensures
        ctx_names(r) == prepend_spec(names_view(bs@), ctx_names(*ctx)),
{
    let ghost names = names_view(bs@);
    let mut ctx2 = ctx_clone(ctx);
    let mut m: usize = 0;
    while m < bs.len()
        invariant
            m <= bs@.len(),
            names == names_view(bs@),
            ctx_names(ctx2) == prepend_spec(names.subrange(0, m as int), ctx_names(*ctx)),
        decreases bs.len() - m,
    {
        let b = bs[m].clone();
        ctx_push_front(&mut ctx2, b);
        m = m + 1;
        assert(names.subrange(0, m as int).drop_last() =~= names.subrange(0, m - 1));
    }
    assert(names.subrange(0, names.len() as int) =~= names);
    ctx2
}

fn fold_lams(pos: Pos, bs: Vec<Name>, body: Pure) -> (r: Pure)
    ensures
        r@ == fold_lams_spec(names_view(bs@), body@),
        bs@.len() > 0 ==> pure_pos(&r) == pos,
{
    let ghost names = names_view(bs@);
    let ghost n = names.len();
    let mut bs = bs;
    let mut acc = body;
    let ghost body_v = acc@;
    while bs.len() > 0
        invariant
            bs@.len() <= n,
            names_view(bs@) == names.subrange(0, bs@.len() as int),
            acc@ == fold_lams_spec(names.subrange(bs@.len() as int, n as int), body_v),
            n == names.len(),
            bs@.len() < n ==> pure_pos(&acc) == pos,
        decreases bs.len(),
    {
        let ghost m0 = bs@.len();
        let ghost before = bs@;
        let b = bs.pop().unwrap();
        assert(b@ == names_view(before)[m0 - 1]);
        assert(names_view(bs@) =~= names.subrange(0, bs@.len() as int));
        assert(names.subrange(m0 - 1, n as int).drop_first() =~= names.subrange(m0 as int, n as int));
        acc = Pure::Lam(pos, b, Box::new(acc));
    }
    assert(names.subrange(0, n as int) =~= names);
    acc
}

/// Parses a lambda at `from`; its binders extend a copy of `ctx` for the body.
pub fn parse_lam(input: Cid, ctx: &Ctx, s: &Vec<char>, from: usize) -> (r: Result<
    (Pure, usize),
    ParseError,
>)
    requires
        from <= s@.len(),
    ensures
        pure_result(r) == lam_spec(ctx_names(*ctx), s@, from as int),
        r is Ok ==> from < r->Ok_0.1 <= s@.len(),
        r is Ok ==> pure_pos(&r->Ok_0.0) == span_spec(input, from as int, r->Ok_0.1 as int),
    decreases s.len() - from, 0int,
{
    let lam = vec!['λ'];
    assert(lam@ =~= seq!['λ']);
    if !starts_at(s, from, &lam) {
        return Err(ParseError::new(from, ParseErrorKind::Expected(string_of(&lam))));
    }
    let slen = s.len();
    let j1 = parse_space(s, parse_space(s, from + 1).0).0;
    let (b0, k) = match parse_name(s, j1) {
        Ok(x) => x,
        Err(e) => {
            return Err(e);
        },
    };
    let mut bs: Vec<Name> = Vec::new();
    bs.push(b0);
    let k2 = parse_binders(s, k, &mut bs);
    assert(names_view(bs@) =~= seq![names_view(bs@)[0]] + binders_spec(s@, k as int).0);
    let j2 = parse_space(s, k2).0;
    let arrow = vec!['=', '>'];
    assert(arrow@ =~= seq!['=', '>']);
    if !starts_at(s, j2, &arrow) {
        return Err(ParseError::new(j2, ParseErrorKind::Expected(string_of(&arrow))));
    }
    let j3 = parse_space(s, j2 + 2).0;
    let ctx2 = extend_ctx(ctx, &bs);
    let (body, upto) = match parse_telescope(input, &ctx2, s, j3) {
        Ok(x) => x,
        Err(e) => {
            return Err(e);
        },
    };
    Ok((fold_lams(span(input, from, upto), bs, body), upto))
}

/// Parses a pure term at `from`: a parenthesized telescope, a lambda, or a
/// variable, tried in that order.
pub fn parse_pure(input: Cid, ctx: &Ctx, s: &Vec<char>, from: usize) -> (r: Result<
    (Pure, usize),
    ParseError,
>)
    requires
        from <= s@.len(),
    ensures
        pure_result(r) == pure_spec(ctx_names(*ctx), s@, from as int),
        r is Ok ==> from < r->Ok_0.1 <= s@.len(),
        r is Ok && !(paren_spec(ctx_names(*ctx), s@, from as int) is Ok) ==> pure_pos(&r->Ok_0.0)
            == span_spec(input, from as int, r->Ok_0.1 as int),
    decreases s.len() - from, 1int,
{
    let open = vec!['('];
    assert(open@ =~= seq!['(']);
    if starts_at(s, from, &open) {
        let j = parse_space(s, from + 1).0;
        match parse_telescope(input, ctx, s, j) {
            Ok((t, k)) => {
                let k2 = parse_space(s, k).0;
                let close = vec![')'];
                assert(close@ =~= seq![')']);
                if starts_at(s, k2, &close) {
                    return Ok((t, k2 + 1));
                }
            },
            Err(_) => {},
        }
    }
    match parse_lam(input, ctx, s, from) {
        Ok(r) => Ok(r),
        Err(_) => match parse_var(input, ctx, s, from) {
            Ok(r) => Ok(r),
            Err(e) => Err(e.label("Pure variable")),
        },
    }
}

} // verus!
