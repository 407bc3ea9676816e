use vstd::prelude::*;
use crate::gen::indices_below;
use crate::pure::PureV;
use crate::parse::pure::{
    pure_spec, paren_spec, lam_spec, var_spec, telescope_spec, args_spec, binders_spec,
    prepend_spec, fold_lams_spec, fold_apps_spec, lookup_spec,
};
use crate::parse::util::{at, spaces_spec, name_spec, tele_end_spec};

verus! {

proof fn lemma_lookup_below(ctx: Seq<Seq<char>>, n: Seq<char>, k: int)
    requires
        0 <= k,
    ensures
        lookup_spec(ctx, n, k) matches Some(i) ==> k <= i < ctx.len(),
    decreases ctx.len() - k,
{
    if k < ctx.len() && ctx[k] != n {
        lemma_lookup_below(ctx, n, k + 1);
    }
}

proof fn lemma_prepend_len(bs: Seq<Seq<char>>, ctx: Seq<Seq<char>>)
    ensures
        prepend_spec(bs, ctx).len() == bs.len() + ctx.len(),
    decreases bs.len(),
{
    if bs.len() > 0 {
        lemma_prepend_len(bs.drop_last(), ctx);
    }
}

proof fn lemma_fold_lams_below(bs: Seq<Seq<char>>, body: PureV, depth: nat)
    requires
        indices_below(body, depth + bs.len()),
    ensures
        indices_below(fold_lams_spec(bs, body), depth),
    decreases bs.len(),
{
    if bs.len() > 0 {
        lemma_fold_lams_below(bs.drop_first(), body, depth + 1);
    }
}

proof fn lemma_fold_apps_below(f: PureV, xs: Seq<PureV>, depth: nat)
    requires
        indices_below(f, depth),
        forall|k: int| 0 <= k < xs.len() ==> indices_below(#[trigger] xs[k], depth),
    ensures
        indices_below(fold_apps_spec(f, xs), depth),
    decreases xs.len(),
{
    if xs.len() > 0 {
        lemma_fold_apps_below(f, xs.drop_last(), depth);
        assert(indices_below(xs[xs.len() - 1], depth));
    }
}

proof fn lemma_var_below(ctx: Seq<Seq<char>>, s: Seq<char>, i: int)
    ensures
        var_spec(ctx, s, i) matches Ok((t, _)) ==> indices_below(t, ctx.len()),
{
    if let Ok((n, j)) = name_spec(s, i) {
        lemma_lookup_below(ctx, n, 0);
        if let Some(k) = lookup_spec(ctx, n, 0) {
            assert((k as u64) as int <= k);
        }
    }
}

proof fn lemma_paren_below(ctx: Seq<Seq<char>>, s: Seq<char>, i: int)
    ensures
        paren_spec(ctx, s, i) matches Ok((t, _)) ==> indices_below(t, ctx.len()),
    decreases s.len() - i, 0int,
{
    if at(s, i, seq!['(']) {
        let j = spaces_spec(s, i + 1);
        if i < j <= s.len() {
            lemma_telescope_below(ctx, s, j);
        }
    }
}

proof fn lemma_lam_below(ctx: Seq<Seq<char>>, s: Seq<char>, i: int)
    ensures
        lam_spec(ctx, s, i) matches Ok((t, _)) ==> indices_below(t, ctx.len()),
    decreases s.len() - i, 0int,
{
    if at(s, i, seq!['λ']) {
        let j1 = spaces_spec(s, spaces_spec(s, i + 1));
        if let Ok((b0, k)) = name_spec(s, j1) {
            let more = binders_spec(s, k);
            let bs = seq![b0] + more.0;
            let j2 = spaces_spec(s, more.1);
            if at(s, j2, seq!['=', '>']) {
                let j3 = spaces_spec(s, j2 + 2);
                if i < j3 <= s.len() {
                    lemma_telescope_below(prepend_spec(bs, ctx), s, j3);
                    lemma_prepend_len(bs, ctx);
                    if let Ok((body, e)) = telescope_spec(prepend_spec(bs, ctx), s, j3) {
                        lemma_fold_lams_below(bs, body, ctx.len());
                    }
                }
            }
        }
    }
}

proof fn lemma_pure_below(ctx: Seq<Seq<char>>, s: Seq<char>, i: int)
    ensures
        pure_spec(ctx, s, i) matches Ok((t, _)) ==> indices_below(t, ctx.len()),
    decreases s.len() - i, 1int,
{
    lemma_paren_below(ctx, s, i);
    lemma_lam_below(ctx, s, i);
    lemma_var_below(ctx, s, i);
}

proof fn lemma_args_below(ctx: Seq<Seq<char>>, s: Seq<char>, i: int)
    ensures
        args_spec(ctx, s, i) matches Ok((xs, _)) ==> forall|k: int| 0 <= k < xs.len()
            ==> indices_below(#[trigger] xs[k], ctx.len()),
    decreases s.len() - i, 2int,
{
    let j = spaces_spec(s, i);
    if !tele_end_spec(s, j) && i <= j <= s.len() {
        lemma_pure_below(ctx, s, j);
        if let Ok((x, k)) = pure_spec(ctx, s, j) {
            if j < k <= s.len() {
                lemma_args_below(ctx, s, k);
                if let Ok((xs, e)) = args_spec(ctx, s, k) {
                    assert forall|m: int| 0 <= m < xs.len() + 1 implies indices_below(
                        #[trigger] (seq![x] + xs)[m],
                        ctx.len(),
                    ) by {
                        if m > 0 {
                            assert((seq![x] + xs)[m] == xs[m - 1]);
                        }
                    }
                }
            }
        }
    }
}

/// Every term parsed as a telescope against a binder context is well
/// scoped: each variable's index is below the number of binders around it,
/// the context's included.
pub proof fn lemma_telescope_below(ctx: Seq<Seq<char>>, s: Seq<char>, i: int)
    ensures
        telescope_spec(ctx, s, i) matches Ok((t, _)) ==> indices_below(t, ctx.len()),
    decreases s.len() - i, 2int,
{
    lemma_pure_below(ctx, s, i);
    if let Ok((f, j)) = pure_spec(ctx, s, i) {
        let j2 = spaces_spec(s, j);
        if i < j <= j2 <= s.len() {
            lemma_args_below(ctx, s, j2);
            if let Ok((xs, e)) = args_spec(ctx, s, j2) {
                lemma_fold_apps_below(f, xs, ctx.len());
            }
        }
    }
}

/// Every term parsed against a binder context is well scoped: each
/// variable's index is below the number of binders around it, the context's
/// included. Against the empty context the term is closed.
pub proof fn lemma_parsed_indices_below(ctx: Seq<Seq<char>>, s: Seq<char>, i: int)
    ensures
        pure_spec(ctx, s, i) matches Ok((t, _)) ==> indices_below(t, ctx.len()),
        telescope_spec(ctx, s, i) matches Ok((t, _)) ==> indices_below(t, ctx.len()),
{
    lemma_pure_below(ctx, s, i);
    lemma_telescope_below(ctx, s, i);
}

} // verus!
