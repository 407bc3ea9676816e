use vstd::prelude::*;
use crate::gen::{scoped, gen_names, gen_name_spec};
use crate::name::is_valid_symbol_string_spec;
use crate::print::{print_spec, print_parens_spec, print_lambdas_spec, print_applications_spec, print_name_spec};
use crate::pure::PureV;
use crate::parse::error::ErrV;
use crate::parse::pure::{
    pure_spec, lam_spec, telescope_spec, args_spec, binders_spec, prepend_spec, fold_lams_spec,
    fold_apps_spec, lookup_spec,
};
use crate::parse::util::{
    at, spaces_spec, is_multispace_spec, name_spec, name_end_spec, name_stop_spec, reserved_spec,
    tele_end_spec, numeric1_spec, numeric2_spec,
};

verus! {

/// The number of nodes of a term.
pub open spec fn size(t: PureV) -> nat
    decreases t,
{
    match t {
        PureV::Var(_, _) => 1,
        PureV::Lam(_, b) => 1 + size(*b),
        PureV::App(f, a) => 1 + size(*f) + size(*a),
    }
}

/// The function at the head of an application spine.
pub open spec fn spine_head(t: PureV) -> PureV
    decreases t,
{
    match t {
        PureV::App(f, _) => spine_head(*f),
        _ => t,
    }
}

/// The arguments of an application spine, first applied first.
pub open spec fn spine_args(t: PureV) -> Seq<PureV>
    decreases t,
{
    match t {
        PureV::App(f, a) => spine_args(*f).push(*a),
        _ => Seq::empty(),
    }
}

/// Arguments as printed in a spine: each after one space.
pub open spec fn args_text(xs: Seq<PureV>) -> Seq<char>
    decreases xs.len(),
{
    if xs.len() == 0 {
        Seq::empty()
    } else {
        seq![' '] + print_parens_spec(false, xs[0]) + args_text(xs.drop_first())
    }
}

/// The binders of a run of lambdas, outermost first.
pub open spec fn lam_binders(t: PureV) -> Seq<Seq<char>>
    decreases t,
{
    match t {
        PureV::Lam(n, b) => seq![n] + lam_binders(*b),
        _ => Seq::empty(),
    }
}

/// The body under a run of lambdas.
pub open spec fn lam_body(t: PureV) -> PureV
    decreases t,
{
    match t {
        PureV::Lam(_, b) => lam_body(*b),
        _ => t,
    }
}

/// Binder names as printed after the first: each after one space.
pub open spec fn names_text(ms: Seq<Seq<char>>) -> Seq<char>
    decreases ms.len(),
{
    if ms.len() == 0 {
        Seq::empty()
    } else {
        seq![' '] + print_name_spec(ms[0]) + names_text(ms.drop_first())
    }
}

proof fn lemma_at_split(s: Seq<char>, p: int, x: Seq<char>, y: Seq<char>)
    requires
        at(s, p, x + y),
    ensures
        at(s, p, x),
        at(s, p + x.len(), y),
{
    assert forall|k: int| 0 <= k < x.len() implies s[p + k] == x[k] by {
        assert(s.subrange(p, p + x.len() + y.len())[k] == (x + y)[k]);
    }
    assert(s.subrange(p, p + x.len()) =~= x);
    assert forall|k: int| 0 <= k < y.len() implies s[p + x.len() + k] == y[k] by {
        assert(s.subrange(p, p + x.len() + y.len())[x.len() + k] == (x + y)[x.len() + k]);
    }
    assert(s.subrange(p + x.len(), p + x.len() + y.len()) =~= y);
}

proof fn lemma_at_char(s: Seq<char>, p: int, x: Seq<char>, k: int)
    requires
        at(s, p, x),
        0 <= k < x.len(),
    ensures
        s[p + k] == x[k],
{
    assert(s.subrange(p, p + x.len())[k] == x[k]);
}

proof fn lemma_not_at(s: Seq<char>, p: int, x: Seq<char>)
    requires
        0 <= p < s.len(),
        x.len() > 0,
        s[p] != x[0],
    ensures
        !at(s, p, x),
{
    if at(s, p, x) {
        lemma_at_char(s, p, x, 0);
    }
}

proof fn lemma_spaces_stop(s: Seq<char>, p: int)
    requires
        0 <= p <= s.len(),
        p < s.len() ==> !is_multispace_spec(s[p]) && s[p] != '/',
    ensures
        spaces_spec(s, p) == p,
{
    if p < s.len() {
        lemma_not_at(s, p, seq!['/', '/']);
    }
}

proof fn lemma_spaces_one(s: Seq<char>, p: int)
    requires
        0 <= p < s.len(),
        s[p] == ' ',
        p + 1 < s.len() ==> !is_multispace_spec(s[p + 1]) && s[p + 1] != '/',
    ensures
        spaces_spec(s, p) == p + 1,
{
    lemma_spaces_stop(s, p + 1);
}

proof fn lemma_not_reserved(n: Seq<char>)
    requires
        n.len() > 0,
        n[0] == '_',
    ensures
        !reserved_spec().contains(n),
{
    let r = reserved_spec();
    assert forall|k: int| 0 <= k < r.len() implies r[k] != n by {
        assert(r[k].len() > 0 && r[k][0] != '_');
    }
}

proof fn lemma_name(s: Seq<char>, p: int, n: Seq<char>)
    requires
        gen_name_spec(n),
        at(s, p, n),
        p + n.len() == s.len() || name_stop_spec(s[p + n.len()]),
    ensures
        name_spec(s, p) == Ok::<(Seq<char>, int), ErrV>((n, p + n.len())),
{
    lemma_at_char(s, p, n, 0);
    if n.len() == 2 {
        lemma_at_char(s, p, n, 1);
        assert(name_end_spec(s, p + 2) == p + 2);
        assert(name_end_spec(s, p + 1) == p + 2);
    } else {
        assert(name_end_spec(s, p + 1) == p + 1);
    }
    assert(name_end_spec(s, p) == p + n.len());
    assert(s.subrange(p, p + n.len()) == n);
    lemma_not_reserved(n);
    assert(!numeric1_spec(n));
    assert(!numeric2_spec(n));
    assert(is_valid_symbol_string_spec(n));
}

proof fn lemma_args_text_push(xs: Seq<PureV>, a: PureV)
    ensures
        args_text(xs.push(a)) == args_text(xs) + seq![' '] + print_parens_spec(false, a),
    decreases xs.len(),
{
    if xs.len() == 0 {
        assert(xs =~= Seq::<PureV>::empty());
        assert(xs.push(a).drop_first() =~= Seq::<PureV>::empty());
        assert(args_text(xs.push(a).drop_first()) == Seq::<char>::empty());
        assert(args_text(xs) == Seq::<char>::empty());
        assert(args_text(xs.push(a)) =~= args_text(xs) + seq![' '] + print_parens_spec(false, a));
    } else {
        assert(xs.push(a).drop_first() =~= xs.drop_first().push(a));
        lemma_args_text_push(xs.drop_first(), a);
        assert(args_text(xs.push(a)) =~= args_text(xs) + seq![' '] + print_parens_spec(false, a));
    }
}

proof fn lemma_spine(t: PureV)
    ensures
        print_applications_spec(false, t) == print_parens_spec(false, spine_head(t)) + args_text(
            spine_args(t),
        ),
        fold_apps_spec(spine_head(t), spine_args(t)) == t,
        !(spine_head(t) is App),
        size(spine_head(t)) <= size(t),
        forall|k: int| 0 <= k < spine_args(t).len() ==> size(#[trigger] spine_args(t)[k]) < size(t),
        forall|ctx: Seq<Seq<char>>| scoped(t, ctx) ==> #[trigger] scoped(spine_head(t), ctx) && forall|k: int|
            0 <= k < spine_args(t).len() ==> scoped(#[trigger] spine_args(t)[k], ctx),
        gen_names(t) ==> gen_names(spine_head(t)) && forall|k: int| 0 <= k < spine_args(t).len()
            ==> gen_names(#[trigger] spine_args(t)[k]),
    decreases t,
{
    match t {
        PureV::App(f, a) => {
            lemma_spine(*f);
            lemma_args_text_push(spine_args(*f), *a);
            assert(spine_args(t).drop_last() =~= spine_args(*f));
            assert(print_applications_spec(false, t) =~= print_parens_spec(false, spine_head(t))
                + args_text(spine_args(t)));
        },
        _ => {
            assert(args_text(spine_args(t)) =~= Seq::<char>::empty());
            assert(print_applications_spec(false, t) =~= print_parens_spec(false, spine_head(t))
                + args_text(spine_args(t)));
        },
    }
}

proof fn lemma_prepend_front(n: Seq<char>, xs: Seq<Seq<char>>, ctx: Seq<Seq<char>>)
    ensures
        prepend_spec(seq![n] + xs, ctx) == prepend_spec(xs, seq![n] + ctx),
    decreases xs.len(),
{
    if xs.len() == 0 {
        assert((seq![n] + xs).drop_last() =~= xs);
        assert((seq![n] + xs).last() == n);
        assert(prepend_spec(xs, ctx) == ctx);
        assert(prepend_spec(xs, seq![n] + ctx) == seq![n] + ctx);
        assert(prepend_spec(seq![n] + xs, ctx) =~= prepend_spec(xs, seq![n] + ctx));
    } else {
        assert((seq![n] + xs).drop_last() =~= seq![n] + xs.drop_last());
        lemma_prepend_front(n, xs.drop_last(), ctx);
    }
}

proof fn lemma_lams(t: PureV, ctx: Seq<Seq<char>>)
    ensures
        fold_lams_spec(lam_binders(t), lam_body(t)) == t,
        !(lam_body(t) is Lam),
        size(lam_body(t)) <= size(t),
        t is Lam ==> size(lam_body(t)) < size(t),
        scoped(t, ctx) ==> scoped(lam_body(t), prepend_spec(lam_binders(t), ctx)),
        gen_names(t) ==> gen_names(lam_body(t)) && forall|k: int| 0 <= k < lam_binders(t).len()
            ==> gen_name_spec(#[trigger] lam_binders(t)[k]),
        t matches PureV::Lam(n, b) ==> print_lambdas_spec(false, n, *b) == print_name_spec(n)
            + names_text(lam_binders(*b)) + seq![' ', '=', '>', ' '] + print_spec(false, lam_body(*b)),
    decreases t,
{
    match t {
        PureV::Lam(n, b) => {
            lemma_lams(*b, seq![n] + ctx);
            assert((seq![n] + lam_binders(*b)).drop_first() =~= lam_binders(*b));
            lemma_prepend_front(n, lam_binders(*b), ctx);
            match *b {
                PureV::Lam(bn, bb) => {
                    assert((seq![bn] + lam_binders(*bb)).drop_first() =~= lam_binders(*bb));
                    assert(names_text(lam_binders(*b)) =~= seq![' '] + print_name_spec(bn) + names_text(lam_binders(*bb)));
                    assert(print_lambdas_spec(false, n, *b) =~= print_name_spec(n) + names_text(
                        lam_binders(*b),
                    ) + seq![' ', '=', '>', ' '] + print_spec(false, lam_body(*b)));
                },
                _ => {
                    assert(names_text(lam_binders(*b)) =~= Seq::<char>::empty());
                    assert(print_lambdas_spec(false, n, *b) =~= print_name_spec(n) + names_text(
                        lam_binders(*b),
                    ) + seq![' ', '=', '>', ' '] + print_spec(false, lam_body(*b)));
                },
            }
            if gen_names(t) {
                assert forall|k: int| 0 <= k < lam_binders(t).len() implies gen_name_spec(
                    #[trigger] lam_binders(t)[k],
                ) by {
                    if k > 0 {
                        assert(lam_binders(t)[k] == lam_binders(*b)[k - 1]);
                    }
                }
            }
        },
        _ => {},
    }
}

proof fn lemma_first_chars(t: PureV)
    requires
        gen_names(t),
    ensures
        print_parens_spec(false, t).len() > 0,
        print_parens_spec(false, t)[0] == '_' || print_parens_spec(false, t)[0] == '(',
        print_spec(false, t).len() > 0,
        print_spec(false, t)[0] == '_' || print_spec(false, t)[0] == 'λ' || print_spec(false, t)[0]
            == '(',
    decreases size(t),
{
    match t {
        PureV::Var(n, _) => {},
        PureV::Lam(n, b) => {},
        PureV::App(f, a) => {
            lemma_spine(*f);
            lemma_first_chars(spine_head(*f));
            let ph = print_parens_spec(false, spine_head(*f));
            assert((ph + args_text(spine_args(*f))).push(' ')[0] == ph[0]);
        },
    }
}

proof fn lemma_not_tele_end(s: Seq<char>, i: int)
    requires
        0 <= i < s.len(),
        s[i] == '_' || s[i] == '(',
    ensures
        !tele_end_spec(s, i),
{
    lemma_not_at(s, i, seq!['d', 'e', 'f']);
    lemma_not_at(s, i, seq!['t', 'y', 'p', 'e']);
    lemma_not_at(s, i, seq!['i', 'n']);
    lemma_not_at(s, i, seq!['=']);
    lemma_not_at(s, i, seq!['-', '>']);
    lemma_not_at(s, i, seq![';']);
    lemma_not_at(s, i, seq![')']);
    lemma_not_at(s, i, seq!['{']);
    lemma_not_at(s, i, seq!['}']);
    lemma_not_at(s, i, seq![',']);
}

proof fn lemma_end_of_telescope(ctx: Seq<Seq<char>>, s: Seq<char>, e: int)
    requires
        0 <= e <= s.len(),
        e == s.len() || s[e] == ')',
    ensures
        spaces_spec(s, e) == e,
        args_spec(ctx, s, e) == Ok::<(Seq<PureV>, int), ErrV>((Seq::empty(), e)),
{
    lemma_spaces_stop(s, e);
    if e < s.len() {
        assert(s.subrange(e, e + 1) =~= seq![')']);
    }
}

proof fn lemma_binders(s: Seq<char>, q: int, ms: Seq<Seq<char>>)
    requires
        forall|k: int| 0 <= k < ms.len() ==> gen_name_spec(#[trigger] ms[k]),
        at(s, q, names_text(ms) + seq![' ', '=', '>', ' ']),
    ensures
        binders_spec(s, q) == (ms, q + names_text(ms).len()),
    decreases ms.len(),
{
    let arrow = seq![' ', '=', '>', ' '];
    if ms.len() == 0 {
        assert(ms =~= Seq::<Seq<char>>::empty());
        assert(names_text(ms) =~= Seq::<char>::empty());
        assert(names_text(ms) + arrow =~= arrow);
        lemma_at_char(s, q, arrow, 0);
        lemma_at_char(s, q, arrow, 1);
        lemma_at_char(s, q, arrow, 2);
        lemma_at_char(s, q, arrow, 3);
        lemma_spaces_one(s, q);
        assert(name_end_spec(s, q + 3) == q + 3);
        assert(!name_stop_spec(s[q + 2]));
        assert(name_end_spec(s, q + 2) == q + 3);
        assert(!name_stop_spec(s[q + 1]));
        assert(name_end_spec(s, q + 1) == q + 3);
        assert(s.subrange(q + 1, q + 3) =~= seq!['=', '>']);
        assert(reserved_spec()[9] == seq!['=', '>']);
        assert(reserved_spec().contains(seq!['=', '>']));
    } else {
        let m0 = ms[0];
        let rest = ms.drop_first();
        assert(gen_name_spec(m0));
        assert(print_name_spec(m0) == m0);
        assert(names_text(ms) + arrow =~= seq![' '] + (m0 + (names_text(rest) + arrow)));
        lemma_at_split(s, q, seq![' '], m0 + (names_text(rest) + arrow));
        lemma_at_split(s, q + 1, m0, names_text(rest) + arrow);
        lemma_at_char(s, q, seq![' '], 0);
        lemma_at_char(s, q + 1, m0, 0);
        let k = q + 1 + m0.len();
        if rest.len() > 0 {
            assert((names_text(rest) + arrow)[0] == ' ');
        } else {
            assert(names_text(rest) =~= Seq::<char>::empty());
            assert((names_text(rest) + arrow)[0] == ' ');
        }
        lemma_at_char(s, k, names_text(rest) + arrow, 0);
        lemma_spaces_one(s, q);
        lemma_name(s, q + 1, m0);
        assert forall|j: int| 0 <= j < rest.len() implies gen_name_spec(#[trigger] rest[j]) by {
            assert(rest[j] == ms[j + 1]);
        }
        lemma_binders(s, k, rest);
        assert(seq![m0] + rest =~= ms);
    }
}

proof fn lemma_parse_var(ctx: Seq<Seq<char>>, s: Seq<char>, p: int, n: Seq<char>, i: u64)
    requires
        gen_name_spec(n),
        at(s, p, n),
        scoped(PureV::Var(n, i), ctx),
        p + n.len() == s.len() || s[p + n.len()] == ' ' || s[p + n.len()] == ')',
    ensures
        pure_spec(ctx, s, p) == Ok::<(PureV, int), ErrV>((PureV::Var(n, i), p + n.len())),
{
    lemma_at_char(s, p, n, 0);
    lemma_not_at(s, p, seq!['(']);
    lemma_not_at(s, p, seq!['λ']);
    lemma_name(s, p, n);
    assert(lookup_spec(ctx, n, 0) == Some(i as int));
}

proof fn lemma_parse_parens(ctx: Seq<Seq<char>>, s: Seq<char>, p: int, t: PureV)
    requires
        scoped(t, ctx),
        gen_names(t),
        at(s, p, print_parens_spec(false, t)),
        p + print_parens_spec(false, t).len() == s.len() || s[p + print_parens_spec(false, t).len()]
            == ' ' || s[p + print_parens_spec(false, t).len()] == ')',
    ensures
        pure_spec(ctx, s, p) == Ok::<(PureV, int), ErrV>(
            (t, p + print_parens_spec(false, t).len()),
        ),
    decreases size(t), 5int, 0int,
{
    match t {
        PureV::Var(n, i) => {
            lemma_parse_var(ctx, s, p, n, i);
        },
        _ => {
            let y = print_spec(false, t);
            let x = print_parens_spec(false, t);
            assert(x =~= seq!['('] + (y + seq![')']));
            lemma_at_split(s, p, seq!['('], y + seq![')']);
            lemma_at_split(s, p + 1, y, seq![')']);
            lemma_first_chars(t);
            lemma_at_char(s, p + 1, y, 0);
            lemma_spaces_stop(s, p + 1);
            lemma_at_char(s, p + 1 + y.len(), seq![')'], 0);
            lemma_parse_telescope(ctx, s, p + 1, t);
            lemma_spaces_stop(s, p + 1 + y.len());
        },
    }
}

proof fn lemma_parse_args(ctx: Seq<Seq<char>>, s: Seq<char>, p: int, xs: Seq<PureV>, m: nat)
    requires
        forall|k: int| 0 <= k < xs.len() ==> scoped(#[trigger] xs[k], ctx) && gen_names(xs[k])
            && size(xs[k]) < m,
        at(s, p, args_text(xs)),
        p + args_text(xs).len() == s.len() || s[p + args_text(xs).len()] == ')',
    ensures
        args_spec(ctx, s, p) == Ok::<(Seq<PureV>, int), ErrV>((xs, p + args_text(xs).len())),
    decreases m, 1int, xs.len(),
{
    if xs.len() == 0 {
        assert(xs =~= Seq::<PureV>::empty());
        assert(args_text(xs) =~= Seq::<char>::empty());
        lemma_end_of_telescope(ctx, s, p);
    } else {
        let x0 = xs[0];
        let rest = xs.drop_first();
        let px = print_parens_spec(false, x0);
        assert(args_text(xs) =~= seq![' '] + (px + args_text(rest)));
        lemma_at_split(s, p, seq![' '], px + args_text(rest));
        lemma_at_split(s, p + 1, px, args_text(rest));
        lemma_at_char(s, p, seq![' '], 0);
        lemma_first_chars(x0);
        lemma_at_char(s, p + 1, px, 0);
        lemma_spaces_one(s, p);
        lemma_not_tele_end(s, p + 1);
        let k = p + 1 + px.len();
        if rest.len() > 0 {
            assert(args_text(rest)[0] == ' ');
            lemma_at_char(s, k, args_text(rest), 0);
        } else {
            assert(args_text(rest) =~= Seq::<char>::empty());
        }
        lemma_parse_parens(ctx, s, p + 1, x0);
        assert forall|j: int| 0 <= j < rest.len() implies scoped(#[trigger] rest[j], ctx) && gen_names(
            rest[j],
        ) && size(rest[j]) < m by {
            assert(rest[j] == xs[j + 1]);
        }
        lemma_parse_args(ctx, s, k, rest, m);
        assert(seq![x0] + rest =~= xs);
    }
}

proof fn lemma_parse_telescope(ctx: Seq<Seq<char>>, s: Seq<char>, p: int, t: PureV)
    requires
        scoped(t, ctx),
        gen_names(t),
        at(s, p, print_spec(false, t)),
        p + print_spec(false, t).len() == s.len() || s[p + print_spec(false, t).len()] == ')',
    ensures
        telescope_spec(ctx, s, p) == Ok::<(PureV, int), ErrV>((t, p + print_spec(false, t).len())),
    decreases size(t), 4int, 0int,
{
    let y = print_spec(false, t);
    let e = p + y.len();
    lemma_end_of_telescope(ctx, s, e);
    match t {
        PureV::Var(n, i) => {
            lemma_parse_var(ctx, s, p, n, i);
        },
        PureV::Lam(n, b) => {
            lemma_telescope_lam(ctx, s, p, t);
        },
        PureV::App(f, a) => {
            lemma_telescope_app(ctx, s, p, t);
        },
    }
}

#[verifier::rlimit(60)]
proof fn lemma_telescope_lam(ctx: Seq<Seq<char>>, s: Seq<char>, p: int, t: PureV)
    requires
        scoped(t, ctx),
        gen_names(t),
        at(s, p, print_spec(false, t)),
        p + print_spec(false, t).len() == s.len() || s[p + print_spec(false, t).len()] == ')',
        t is Lam,
    ensures
        pure_spec(ctx, s, p) == Ok::<(PureV, int), ErrV>((t, p + print_spec(false, t).len())),
    decreases size(t), 3int, 0int,
{
    let y = print_spec(false, t);
    let e = p + y.len();
    let n = t->Lam_0;
    let b = t->Lam_1;
    lemma_lams(t, ctx);
    lemma_lams(*b, seq![n] + ctx);
    let body = lam_body(*b);
    let mid = names_text(lam_binders(*b));
    let arrow = seq![' ', '=', '>', ' '];
    let yb = print_spec(false, body);
    assert(print_name_spec(n) == n);
    assert(y =~= seq!['λ'] + (seq![' '] + (n + ((mid + arrow) + yb))));
    lemma_at_split(s, p, seq!['λ'], seq![' '] + (n + ((mid + arrow) + yb)));
    lemma_at_split(s, p + 1, seq![' '], n + ((mid + arrow) + yb));
    lemma_at_split(s, p + 2, n, (mid + arrow) + yb);
    let k = p + 2 + n.len();
    lemma_at_split(s, k, mid + arrow, yb);
    lemma_at_split(s, k, mid, arrow);
    let r = k + mid.len();
    lemma_at_char(s, p, seq!['λ'], 0);
    lemma_at_char(s, p + 1, seq![' '], 0);
    lemma_at_char(s, p + 2, n, 0);
    assert((mid + arrow)[0] == ' ');
    lemma_at_char(s, k, mid + arrow, 0);
    lemma_at_char(s, r, arrow, 0);
    lemma_at_char(s, r, arrow, 1);
    lemma_at_char(s, r, arrow, 2);
    lemma_at_char(s, r, arrow, 3);
    lemma_first_chars(body);
    lemma_at_char(s, r + 4, yb, 0);
    lemma_not_at(s, p, seq!['(']);
    lemma_spaces_one(s, p + 1);
    lemma_spaces_stop(s, p + 2);
    lemma_name(s, p + 2, n);
    lemma_binders(s, k, lam_binders(*b));
    lemma_spaces_one(s, r);
    assert(s.subrange(r + 1, r + 3) =~= seq!['=', '>']);
    lemma_spaces_one(s, r + 3);
    assert(lam_binders(t) == seq![n] + lam_binders(*b));
    lemma_parse_telescope(prepend_spec(lam_binders(t), ctx), s, r + 4, body);
    assert(lam_spec(ctx, s, p) == Ok::<(PureV, int), ErrV>((t, e)));
}

#[verifier::rlimit(60)]
proof fn lemma_telescope_app(ctx: Seq<Seq<char>>, s: Seq<char>, p: int, t: PureV)
    requires
        scoped(t, ctx),
        gen_names(t),
        at(s, p, print_spec(false, t)),
        p + print_spec(false, t).len() == s.len() || s[p + print_spec(false, t).len()] == ')',
        t is App,
    ensures
        telescope_spec(ctx, s, p) == Ok::<(PureV, int), ErrV>((t, p + print_spec(false, t).len())),
    decreases size(t), 3int, 0int,
{
    let y = print_spec(false, t);
    let e = p + y.len();
    let f = t->App_0;
    lemma_end_of_telescope(ctx, s, e);
    lemma_spine(t);
    lemma_spine(*f);
    let h = spine_head(t);
    let xs = spine_args(t);
    let ph = print_parens_spec(false, h);
    assert(y == print_applications_spec(false, t));
    lemma_at_split(s, p, ph, args_text(xs));
    let q = p + ph.len();
    assert(xs.len() > 0);
    assert(args_text(xs) =~= seq![' '] + (print_parens_spec(false, xs[0]) + args_text(
        xs.drop_first(),
    )));
    lemma_at_char(s, q, args_text(xs), 0);
    lemma_at_char(s, q, args_text(xs), 1);
    lemma_first_chars(xs[0]);
    lemma_parse_parens(ctx, s, p, h);
    lemma_spaces_one(s, q);
    lemma_spaces_stop(s, q + 1);
    assert(scoped(h, ctx));
    assert forall|k: int| 0 <= k < xs.len() implies scoped(#[trigger] xs[k], ctx) && gen_names(xs[k])
        && size(xs[k]) < size(t) by {
        assert(scoped(xs[k], ctx));
    }
    lemma_parse_args(ctx, s, q, xs, size(t));
    assert(args_spec(ctx, s, q + 1) == args_spec(ctx, s, q));
}

/// Printing a well-scoped term whose names are those the generator makes,
/// then parsing the text as a telescope against the same binder context,
/// gives back a term equal to it and reads the whole text.
pub proof fn lemma_print_parse_round_trip(t: PureV, ctx: Seq<Seq<char>>)
    requires
        scoped(t, ctx),
        gen_names(t),
    ensures
        telescope_spec(ctx, print_spec(false, t), 0) == Ok::<(PureV, int), ErrV>(
            (t, print_spec(false, t).len() as int),
        ),
{
    let s = print_spec(false, t);
    assert(s.subrange(0, s.len() as int) =~= s);
    lemma_parse_telescope(ctx, s, 0, t);
}


/// The round trip through the entry point for a single pure term: a
/// generated term that is not an application (a closed one is a lambda)
/// prints to text that parses back to a term equal to it, reading the whole
/// text. An application needs the telescope entry point.
pub proof fn lemma_print_parse_pure_round_trip(t: PureV, ctx: Seq<Seq<char>>)
    requires
        scoped(t, ctx),
        gen_names(t),
        !(t is App),
    ensures
        pure_spec(ctx, print_spec(false, t), 0) == Ok::<(PureV, int), ErrV>(
            (t, print_spec(false, t).len() as int),
        ),
{
    let s = print_spec(false, t);
    assert(s.subrange(0, s.len() as int) =~= s);
    match t {
        PureV::Var(n, i) => {
            lemma_parse_var(ctx, s, 0, n, i);
        },
        _ => {
            lemma_telescope_lam(ctx, s, 0, t);
        },
    }
}
} // verus!
