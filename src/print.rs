use vstd::prelude::*;
use vstd::string::StringExecFns;
use crate::pure::{Pure, PureV};

verus! {

/// Relies on `String::push`: appends one character.
#[verifier::external_body]
pub(crate) fn push_char(s: &mut String, c: char)
    ensures
        final(s)@ == old(s)@.push(c),
{
    s.push(c)
}

/// The decimal digit for `d < 10`.
pub open spec fn digit_char(d: nat) -> char {
    if d == 0 { '0' }
    else if d == 1 { '1' }
    else if d == 2 { '2' }
    else if d == 3 { '3' }
    else if d == 4 { '4' }
    else if d == 5 { '5' }
    else if d == 6 { '6' }
    else if d == 7 { '7' }
    else if d == 8 { '8' }
    else { '9' }
}

/// The decimal numeral of `n`, without leading zeros.
pub open spec fn decimal(n: nat) -> Seq<char>
    decreases n,
{
    if n < 10 {
        seq![digit_char(n)]
    } else {
        decimal(n / 10).push(digit_char(n % 10))
    }
}

fn digit(d: u64) -> (c: char)
    requires
        d < 10,
    ensures
        c == digit_char(d as nat),
{
    if d == 0 { '0' }
    else if d == 1 { '1' }
    else if d == 2 { '2' }
    else if d == 3 { '3' }
    else if d == 4 { '4' }
    else if d == 5 { '5' }
    else if d == 6 { '6' }
    else if d == 7 { '7' }
    else if d == 8 { '8' }
    else { '9' }
}

/// Appends the decimal numeral of `n`.
pub fn write_decimal(out: &mut String, n: u64)
    ensures
        final(out)@ == old(out)@ + decimal(n as nat),
    decreases n,
{
    if n >= 10 {
        write_decimal(out, n / 10);
    }
    push_char(out, digit(n % 10));
    assert(final(out)@ =~= old(out)@ + decimal(n as nat));
}

/// How a binder or variable name is written: the anonymous name as `_`.
pub open spec fn print_name_spec(n: Seq<char>) -> Seq<char> {
    if n.len() == 0 { seq!['_'] } else { n }
}

/// Source text of a pure term. With `ind`, each variable shows its de Bruijn
/// index as `name^index`.
pub open spec fn print_spec(ind: bool, t: PureV) -> Seq<char>
    decreases t, 0int,
{
    match t {
        PureV::Var(n, i) => if ind {
            print_name_spec(n).push('^') + decimal(i as nat)
        } else {
            print_name_spec(n)
        },
        PureV::Lam(n, b) => seq!['λ', ' '] + print_lambdas_spec(ind, n, *b),
        PureV::App(f, a) => print_applications_spec(ind, *f).push(' ') + print_parens_spec(ind, *a),
    }
}

/// The binders and body of a run of lambdas, the first binder being `n`.
pub open spec fn print_lambdas_spec(ind: bool, n: Seq<char>, b: PureV) -> Seq<char>
    decreases b, 1int,
{
    match b {
        PureV::Lam(bn, bb) => print_name_spec(n).push(' ') + print_lambdas_spec(ind, bn, *bb),
        _ => print_name_spec(n) + seq![' ', '=', '>', ' '] + print_spec(ind, b),
    }
}

/// A term in argument position: parenthesized unless it is a variable.
pub open spec fn print_parens_spec(ind: bool, t: PureV) -> Seq<char>
    decreases t, 1int,
{
    if t is Var {
        print_spec(ind, t)
    } else {
        seq!['('] + print_spec(ind, t).push(')')
    }
}

/// The spine of a left-nested application.
pub open spec fn print_applications_spec(ind: bool, f: PureV) -> Seq<char>
    decreases f, 2int,
{
    match f {
        PureV::App(ff, fa) => print_applications_spec(ind, *ff).push(' ') + print_parens_spec(ind, *fa),
        _ => print_parens_spec(ind, f),
    }
}

/// How a name is written: the anonymous name as `_`.
pub fn print_name(nam: &str) -> (r: &str)
    ensures
        r@ == print_name_spec(nam@),
{
    if nam.unicode_len() == 0 {
        let r = "_";
        proof {
            reveal_strlit("_");
        }
        assert(r@ =~= seq!['_']);
        r
    } else {
        nam
    }
}

/// Whether a term is printed without parentheses in argument position.
pub fn is_atom(term: &Pure) -> (r: bool)
    ensures
        r == (term@ is Var),
{
    match term {
        Pure::Var(..) => true,
        _ => false,
    }
}

fn print_parens(ind: bool, term: &Pure, out: &mut String)
    ensures
        final(out)@ == old(out)@ + print_parens_spec(ind, term@),
    decreases term, 1int,
{
    if is_atom(term) {
        write_pure(ind, term, out);
    } else {
        push_char(out, '(');
        write_pure(ind, term, out);
        push_char(out, ')');
    }
    assert(final(out)@ =~= old(out)@ + print_parens_spec(ind, term@));
}

fn print_lambdas(ind: bool, name: &str, bod: &Pure, out: &mut String)
    ensures
        final(out)@ == old(out)@ + print_lambdas_spec(ind, name@, bod@),
    decreases bod, 1int,
{
    out.append(print_name(name));
    match bod {
        Pure::Lam(_, bod_nam, bod_bod) => {
            push_char(out, ' ');
            print_lambdas(ind, bod_nam.as_str(), bod_bod, out);
        },
        _ => {
            push_char(out, ' ');
            push_char(out, '=');
            push_char(out, '>');
            push_char(out, ' ');
            write_pure(ind, bod, out);
        },
    }
    assert(final(out)@ =~= old(out)@ + print_lambdas_spec(ind, name@, bod@));
}

fn print_applications(ind: bool, fun: &Pure, out: &mut String)
    ensures
        final(out)@ == old(out)@ + print_applications_spec(ind, fun@),
    decreases fun, 2int,
{
    match fun {
        Pure::App(_, f_fun, f_arg) => {
            print_applications(ind, f_fun, out);
            push_char(out, ' ');
            print_parens(ind, f_arg, out);
        },
        _ => {
            print_parens(ind, fun, out);
        },
    }
    assert(final(out)@ =~= old(out)@ + print_applications_spec(ind, fun@));
}

fn write_pure(ind: bool, term: &Pure, out: &mut String)
    ensures
        final(out)@ == old(out)@ + print_spec(ind, term@),
    decreases term, 0int,
{
    match term {
        Pure::Var(_, nam, index) => {
            out.append(print_name(nam.as_str()));
            if ind {
                push_char(out, '^');
                write_decimal(out, *index);
            }
        },
        Pure::Lam(_, name, bod) => {
            push_char(out, 'λ');
            push_char(out, ' ');
            print_lambdas(ind, name.as_str(), bod, out);
        },
        Pure::App(_, fun, arg) => {
            print_applications(ind, fun, out);
            push_char(out, ' ');
            print_parens(ind, arg, out);
        },
    }
    assert(final(out)@ =~= old(out)@ + print_spec(ind, term@));
}

/// Source text of a pure term; with `ind`, variables show their index.
pub fn print(ind: bool, term: &Pure) -> (r: String)
    ensures
        r@ == print_spec(ind, term@),
{
    let mut out = String::new();
    write_pure(ind, term, &mut out);
    assert(out@ =~= print_spec(ind, term@));
    out
}

} // verus!
