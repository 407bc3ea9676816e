use vstd::prelude::*;
use vstd::string::StrSliceExecFns;
use crate::name::{Name, is_valid_symbol_char, is_valid_symbol_char_spec};
use crate::position::Pos;
use crate::pure::{Pure, PureV};
use crate::parse::util::{Ctx, ctx_names, ctx_len, ctx_get, ctx_push_front, ctx_clone};
use crate::parse::pure::lookup_spec;
use crate::print::push_char;

verus! {

#[verifier::external_type_specification]
#[verifier::external_body]
pub struct ExGen(quickcheck::Gen);

/// Relies on `quickcheck::Arbitrary for usize`: a number drawn from the
/// generator, of which nothing is known.
#[verifier::external_body]
fn arbitrary_usize(g: &mut quickcheck::Gen) -> usize {
    <usize as quickcheck::Arbitrary>::arbitrary(g)
}

/// The size a generator was made with: the bound on the length of the
/// strings it draws.
pub uninterp spec fn gen_size_of(g: quickcheck::Gen) -> usize;

/// Relies on `quickcheck::Gen::size`: the size the generator was made with.
#[verifier::external_body]
fn gen_size(g: &quickcheck::Gen) -> (r: usize)
    ensures
        r == gen_size_of(*g),
{
    g.size()
}

/// Relies on `quickcheck::Arbitrary for String`: a string drawn from the
/// generator, of which nothing is known. The draw picks a length below the
/// generator's size, so that size must not be zero.
#[verifier::external_body]
fn arbitrary_string(g: &mut quickcheck::Gen) -> String
    requires
        gen_size_of(*old(g)) > 0,
{
    <String as quickcheck::Arbitrary>::arbitrary(g)
}

/// The number in `start..end` that a drawn number `res` selects; `start`
/// when that range is empty.
pub open spec fn range_spec(res: usize, start: usize, end: usize) -> int {
    if end <= start {
        start as int
    } else {
        start as int + (res as int) % (end as int - start as int)
    }
}

/// The number in `start..end` that the drawn number `res` selects.
pub fn range_from(res: usize, start: usize, end: usize) -> (r: usize)
    ensures
        r == range_spec(res, start, end),
        start < end ==> start <= r < end,
{
    if end <= start {
        start
    } else {
        (res % (end - start)) + start
    }
}

/// A number drawn from `start..end`; `start` when that range is empty.
pub fn gen_range(g: &mut quickcheck::Gen, start: usize, end: usize) -> (r: usize)
    ensures
        end <= start ==> r == start,
        start < end ==> start <= r < end,
{
    if end <= start {
        start
    } else {
        range_from(arbitrary_usize(g), start, end)
    }
}

/// Whether `c` is an ASCII letter.
pub open spec fn is_ascii_alpha_spec(c: char) -> bool {
    (65 <= c as u32 && c as u32 <= 90) || (97 <= c as u32 && c as u32 <= 122)
}

fn is_ascii_alpha(c: char) -> (r: bool)
    ensures
        r == is_ascii_alpha_spec(c),
{
    (65 <= c as u32 && c as u32 <= 90) || (97 <= c as u32 && c as u32 <= 122)
}

/// The names the generator makes: `_`, optionally followed by one ASCII
/// letter.
pub open spec fn gen_name_spec(n: Seq<char>) -> bool {
    (n.len() == 1 || n.len() == 2) && n[0] == '_' && (n.len() == 2 ==> is_ascii_alpha_spec(n[1]))
}

/// Whether a drawn character may follow the `_` of a generated name.
pub open spec fn name_letter_spec(c: char) -> bool {
    is_valid_symbol_char_spec(c) && is_ascii_alpha_spec(c)
}

/// The first character of `s` from offset `k` on that may follow the `_` of a
/// generated name, if any.
pub open spec fn first_letter_from(s: Seq<char>, k: int) -> Option<char>
    decreases s.len() - k,
{
    if 0 <= k < s.len() {
        if name_letter_spec(s[k]) {
            Some(s[k])
        } else {
            first_letter_from(s, k + 1)
        }
    } else {
        None
    }
}

/// The name made from a drawn string: `_`, then its first character that is
/// an ASCII letter, if it has one.
pub open spec fn name_of_drawn(s: Seq<char>) -> Seq<char> {
    match first_letter_from(s, 0) {
        Some(c) => seq!['_', c],
        None => seq!['_'],
    }
}

proof fn lemma_first_letter_is_letter(s: Seq<char>, k: int)
    ensures
        first_letter_from(s, k) matches Some(c) ==> name_letter_spec(c),
    decreases s.len() - k,
{
    if 0 <= k < s.len() && !name_letter_spec(s[k]) {
        lemma_first_letter_is_letter(s, k + 1);
    }
}

/// The name made from the drawn string `s`.
pub fn name_from(s: &str) -> (r: Name)
    ensures
        r@ == name_of_drawn(s@),
        gen_name_spec(r@),
{
    proof {
        lemma_first_letter_is_letter(s@, 0);
    }
    let n = s.unicode_len();
    let mut out = String::new();
    push_char(&mut out, '_');
    let mut k: usize = 0;
    while k < n
        invariant
            n == s@.len(),
            k <= n,
            out@ == seq!['_'],
            first_letter_from(s@, k as int) == first_letter_from(s@, 0),
        decreases n - k,
    {
        let c = s.get_char(k);
        if is_valid_symbol_char(c) && is_ascii_alpha(c) {
            push_char(&mut out, c);
            assert(out@ =~= seq!['_', c]);
            return Name::from_string(out);
        }
        k = k + 1;
    }
    assert(out@ =~= seq!['_']);
    Name::from_string(out)
}

/// A fresh binder name: `_` followed by the first ASCII letter of a drawn
/// string, if it has one. A generator of size zero draws no string, and the
/// name is `_`.
pub fn arbitrary_name(g: &mut quickcheck::Gen) -> (r: Name)
    ensures
        gen_name_spec(r@),
        gen_size_of(*old(g)) == 0 ==> r@ == seq!['_'],
{
    if gen_size(g) == 0 {
        let mut out = String::new();
        push_char(&mut out, '_');
        assert(out@ =~= seq!['_']);
        return Name::from_string(out);
    }
    let s = arbitrary_string(g);
    name_from(s.as_str())
}

/// The productions of a pure term.
#[derive(Debug, Clone, Copy, PartialEq, Eq, Structural)]
pub enum Case {
    Var,
    Lam,
    App,
}

/// The total weight of `gens` from `k` on.
pub open spec fn weight_from(gens: Seq<(usize, Case)>, k: int) -> int
    decreases gens.len() - k,
{
    if 0 <= k < gens.len() {
        gens[k].0 + weight_from(gens, k + 1)
    } else {
        0
    }
}

/// The production that `weight` selects: the first whose running total of
/// weights reaches it, counting from `k`.
pub open spec fn case_at(gens: Seq<(usize, Case)>, k: int, weight: int) -> Option<Case>
    decreases gens.len() - k,
{
    if 0 <= k < gens.len() {
        if weight <= gens[k].0 {
            Some(gens[k].1)
        } else {
            case_at(gens, k + 1, weight - gens[k].0)
        }
    } else {
        None
    }
}

/// The production that the drawn `weight` selects: the first whose running
/// total of weights reaches it. One of weight zero is never selected.
pub fn case_for_weight(gens: &Vec<(usize, Case)>, weight: usize) -> (r: Case)
    requires
        1 <= weight <= weight_from(gens@, 0),
    ensures
        case_at(gens@, 0, weight as int) == Some(r),
        exists|k: int| 0 <= k < gens@.len() && gens@[k].1 == r && gens@[k].0 > 0,
{
    let mut w = weight;
    let mut m: usize = 0;
    while m < gens.len()
        invariant
            m <= gens@.len(),
            1 <= w <= weight_from(gens@, m as int),
            case_at(gens@, m as int, w as int) == case_at(gens@, 0, weight as int),
        decreases gens.len() - m,
    {
        let g = gens[m].0;
        if w <= g {
            assert(gens@[m as int].0 > 0);
            return gens[m].1;
        }
        w = w - g;
        m = m + 1;
    }
    proof {
        assert(weight_from(gens@, m as int) == 0);
    }
    gens[0].1
}

/// Draws a production, each with chance in proportion to its weight; one of
/// weight zero is never drawn.
pub fn next_case(g: &mut quickcheck::Gen, gens: &Vec<(usize, Case)>) -> (r: Case)
    requires
        0 < weight_from(gens@, 0) <= usize::MAX,
    ensures
        exists|k: int| 0 <= k < gens@.len() && gens@[k].1 == r && gens@[k].0 > 0,
{
    let mut sum: usize = 0;
    let mut k: usize = gens.len();
    while k > 0
        invariant
            k <= gens@.len(),
            sum == weight_from(gens@, k as int),
            weight_from(gens@, 0) <= usize::MAX,
        decreases k,
    {
        proof {
            lemma_weight_from_monotone(gens@, k - 1);
        }
        sum = sum + gens[k - 1].0;
        k = k - 1;
    }
    let weight = gen_range(g, 1, sum);
    case_for_weight(gens, weight)
}

proof fn lemma_weight_from_monotone(gens: Seq<(usize, Case)>, k: int)
    requires
        0 <= k < gens.len(),
    ensures
        weight_from(gens, k) <= weight_from(gens, 0),
    decreases k,
{
    if k > 0 {
        lemma_weight_from_monotone(gens, k - 1);
    }
}

/// A term whose every variable resolves, by its spelling, to the binder its
/// index names in `ctx` extended by the binders above it.
pub open spec fn scoped(t: PureV, ctx: Seq<Seq<char>>) -> bool
    decreases t,
{
    match t {
        PureV::Var(n, i) => i < ctx.len() && lookup_spec(ctx, n, 0) == Some(i as int),
        PureV::Lam(n, b) => scoped(*b, seq![n] + ctx),
        PureV::App(f, a) => scoped(*f, ctx) && scoped(*a, ctx),
    }
}

/// Every variable's index is below the number of binders around it, `depth`
/// of them standing above the term.
pub open spec fn indices_below(t: PureV, depth: nat) -> bool
    decreases t,
{
    match t {
        PureV::Var(_, i) => i < depth,
        PureV::Lam(_, b) => indices_below(*b, depth + 1),
        PureV::App(f, a) => indices_below(*f, depth) && indices_below(*a, depth),
    }
}

/// Every binder and variable spelling is one the generator makes.
pub open spec fn gen_names(t: PureV) -> bool
    decreases t,
{
    match t {
        PureV::Var(n, _) => gen_name_spec(n),
        PureV::Lam(n, b) => gen_name_spec(n) && gen_names(*b),
        PureV::App(f, a) => gen_names(*f) && gen_names(*a),
    }
}

/// The number of nodes on the longest path from the root of a term.
pub open spec fn height(t: PureV) -> nat
    decreases t,
{
    match t {
        PureV::Var(_, _) => 1,
        PureV::Lam(_, b) => 1 + height(*b),
        PureV::App(f, a) => 1 + if height(*f) >= height(*a) { height(*f) } else { height(*a) },
    }
}

proof fn lemma_lookup_found(ctx: Seq<Seq<char>>, n: Seq<char>, m: int, k: int)
    requires
        0 <= m <= k < ctx.len(),
        ctx[k] == n,
    ensures
        lookup_spec(ctx, n, m) matches Some(i) && m <= i <= k && ctx[i] == n,
    decreases k - m,
{
    if ctx[m] != n {
        lemma_lookup_found(ctx, n, m + 1, k);
    }
}

/// The variable that a drawn index `k` into the binder context selects: the
/// name bound there, with the index of its innermost binder.
pub fn var_at(ctx: &Ctx, k: usize) -> (r: Pure)
    requires
        k < ctx_names(*ctx).len(),
    ensures
        r@ matches PureV::Var(n, i) && n == ctx_names(*ctx)[k as int] && lookup_spec(
            ctx_names(*ctx),
            n,
            0,
        ) == Some(i as int) && i <= k,
{
    proof {
        lemma_lookup_found(ctx_names(*ctx), ctx_names(*ctx)[k as int], 0, k as int);
    }
    let nam = ctx_get(ctx, k).clone();
    let mut m: usize = 0;
    while !(*ctx_get(ctx, m) == nam)
        invariant
            m <= k < ctx_names(*ctx).len(),
            ctx_names(*ctx)[k as int] == nam@,
            lookup_spec(ctx_names(*ctx), nam@, m as int) == lookup_spec(ctx_names(*ctx), nam@, 0),
        decreases k - m,
    {
        m = m + 1;
    }
    Pure::Var(Pos::Nowhere, nam, m as u64)
}

/// The weighted productions offered at binder depth `depth`: lambda and
/// application with weights that shrink as depth grows, down to zero, and a
/// variable once a binder is in scope.
pub fn productions(depth: usize) -> (r: Vec<(usize, Case)>)
    ensures
        r@.len() == if depth == 0 { 2int } else { 3int },
        r@[0] == (if depth >= 90 { 0usize } else { (90 - depth) as usize }, Case::Lam),
        r@[1] == (if depth >= 40 { 0usize } else { (80 - 2 * depth) as usize }, Case::App),
        depth != 0 ==> r@[2] == (100usize, Case::Var),
        0 < weight_from(r@, 0) <= usize::MAX,
{
    let lam_w: usize = if depth >= 90 { 0 } else { 90 - depth };
    let app_w: usize = if depth >= 40 { 0 } else { 80 - 2 * depth };
    let mut gens: Vec<(usize, Case)> = Vec::new();
    gens.push((lam_w, Case::Lam));
    gens.push((app_w, Case::App));
    if depth != 0 {
        gens.push((100, Case::Var));
    }
    proof {
        reveal_with_fuel(weight_from, 4);
    }
    gens
}

/// A random well-scoped pure term over the binders `ctx`, with no positions.
/// Lambdas and applications grow less likely with depth; past 90 binders
/// only variables are made. After `fuel` nested choices the smallest
/// completion is taken: a variable, or where no binder is in scope a lambda
/// over its own variable. This bounds the height of the term by `fuel + 2`.
pub fn arbitrary_pure(g: &mut quickcheck::Gen, ctx: &Ctx, fuel: usize) -> (r: Pure)
    ensures
        scoped(r@, ctx_names(*ctx)),
        indices_below(r@, ctx_names(*ctx).len()),
        (forall|k: int| 0 <= k < ctx_names(*ctx).len() ==> gen_name_spec(#[trigger] ctx_names(*ctx)[k]))
            ==> gen_names(r@),
        fuel == 0 && ctx_names(*ctx).len() > 0 ==> r@ is Var,
        fuel == 0 && ctx_names(*ctx).len() == 0 ==> (r@ matches PureV::Lam(_, b) && *b is Var),
        ctx_names(*ctx).len() >= 90 ==> r@ is Var,
        height(r@) <= fuel + 2,
        ctx_names(*ctx).len() > 0 ==> height(r@) <= fuel + 1,
    decreases fuel, if ctx_names(*ctx).len() == 0 { 1int } else { 0int },
{
    let depth = ctx_len(ctx);
    let case = if fuel == 0 {
        if depth > 0 {
            Case::Var
        } else {
            Case::Lam
        }
    } else {
        let gens = productions(depth);
        next_case(g, &gens)
    };
    assert(case == Case::Var ==> depth > 0);
    assert(case == Case::App ==> fuel > 0);
    assert(depth >= 90 ==> case == Case::Var);
    match case {
        Case::Var => {
            let k = gen_range(g, 0, depth);
            var_at(ctx, k)
        },
        Case::Lam => {
            let n = arbitrary_name(g);
            let mut ctx2 = ctx_clone(ctx);
            ctx_push_front(&mut ctx2, n.clone());
            let next = if fuel == 0 { 0 } else { fuel - 1 };
            let body = arbitrary_pure(g, &ctx2, next);
            assert(forall|k: int| 0 <= k < ctx_names(*ctx).len() ==> ctx_names(ctx2)[k + 1] == #[trigger] ctx_names(*ctx)[k]);
            Pure::Lam(Pos::Nowhere, n, Box::new(body))
        },
        Case::App => {
            let fun = arbitrary_pure(g, ctx, fuel - 1);
            let arg = arbitrary_pure(g, ctx, fuel - 1);
            Pure::App(Pos::Nowhere, Box::new(fun), Box::new(arg))
        },
    }
}

} // verus!
