use vstd::prelude::*;
use vstd::string::StringExecFns;
use vstd::std_specs::cmp::PartialEqSpec;
use crate::name::Name;
use crate::position::Pos;
use crate::print::decimal;

verus! {

/// A pure term of the untyped lambda calculus. Variables carry their
/// spelling and their de Bruijn index; every node carries a position.
pub enum Pure {
    /// variable: x
    Var(Pos, Name, u64),
    /// lambda abstraction: λ x => x
    Lam(Pos, Name, Box<Pure>),
    /// application: f x
    App(Pos, Box<Pure>, Box<Pure>),
}

/// A pure term with its positions forgotten: what equality compares.
pub enum PureV {
    Var(Seq<char>, u64),
    Lam(Seq<char>, Box<PureV>),
    App(Box<PureV>, Box<PureV>),
}

/// The position the root node of a pure term carries.
pub open spec fn pure_pos(t: &Pure) -> Pos {
    match t {
        Pure::Var(p, _, _) => *p,
        Pure::Lam(p, _, _) => *p,
        Pure::App(p, _, _) => *p,
    }
}

/// The position-free model of a pure term.
pub open spec fn pure_model(t: &Pure) -> PureV
    decreases t,
{
    match t {
        Pure::Var(_, n, i) => PureV::Var(n@, *i),
        Pure::Lam(_, n, b) => PureV::Lam(n@, Box::new(pure_model(b))),
        Pure::App(_, f, a) => PureV::App(Box::new(pure_model(f)), Box::new(pure_model(a))),
    }
}

impl View for Pure {
    type V = PureV;

    open spec fn view(&self) -> PureV {
        pure_model(self)
    }
}

/// Two pure terms that differ at most in their positions: the same
/// constructors, spellings and indices throughout.
pub open spec fn same_but_positions(a: &Pure, b: &Pure) -> bool
    decreases a,
{
    match (a, b) {
        (Pure::Var(_, na, ia), Pure::Var(_, nb, ib)) => na@ == nb@ && ia == ib,
        (Pure::Lam(_, na, ba), Pure::Lam(_, nb, bb)) => na@ == nb@ && same_but_positions(ba, bb),
        (Pure::App(_, fa, aa), Pure::App(_, fb, ab)) => same_but_positions(fa, fb)
            && same_but_positions(aa, ab),
        _ => false,
    }
}

/// Equality of pure terms ignores positions: two terms built alike, whatever
/// positions their nodes carry, are equal.
pub proof fn lemma_equality_ignores_positions(a: &Pure, b: &Pure)
    requires
        same_but_positions(a, b),
    ensures
        a.eq_spec(b),
    decreases a,
{
    match (a, b) {
        (Pure::Lam(_, _, ba), Pure::Lam(_, _, bb)) => {
            lemma_equality_ignores_positions(ba, bb);
        },
        (Pure::App(_, fa, aa), Pure::App(_, fb, ab)) => {
            lemma_equality_ignores_positions(fa, fb);
            lemma_equality_ignores_positions(aa, ab);
        },
        _ => {},
    }
}

/// Rendering of a name in debug output: its text between double quotes.
pub open spec fn name_debug(n: Seq<char>) -> Seq<char> {
    seq!['"'] + n + seq!['"']
}

/// Debug rendering of a pure term; positions are left out.
pub open spec fn pure_debug(t: PureV) -> Seq<char>
    decreases t,
{
    match t {
        PureV::Var(n, i) => "Var("@ + name_debug(n) + ", "@ + decimal(i as nat) + ")"@,
        PureV::Lam(n, b) => "Lam("@ + name_debug(n) + ", "@ + pure_debug(*b) + ")"@,
        PureV::App(f, a) => "App("@ + pure_debug(*f) + ", "@ + pure_debug(*a) + ")"@,
    }
}

/// Appends the debug rendering of a name.
pub fn write_name_debug(out: &mut String, n: &Name)
    ensures
        final(out)@ == old(out)@ + name_debug(n@),
{
    crate::print::push_char(out, '"');
    out.append(n.as_str());
    crate::print::push_char(out, '"');
}

impl Pure {
    fn write_debug(&self, out: &mut String)
        ensures
            final(out)@ == old(out)@ + pure_debug(self@),
        decreases self,
    {
        match self {
            Pure::Var(_, n, i) => {
                out.append("Var(");
                write_name_debug(out, n);
                out.append(", ");
                crate::print::write_decimal(out, *i);
                out.append(")");
            },
            Pure::Lam(_, n, b) => {
                out.append("Lam(");
                write_name_debug(out, n);
                out.append(", ");
                b.write_debug(out);
                out.append(")");
            },
            Pure::App(_, f, a) => {
                out.append("App(");
                f.write_debug(out);
                out.append(", ");
                a.write_debug(out);
                out.append(")");
            },
        }
        assert(final(out)@ =~= old(out)@ + pure_debug(self@));
    }

    /// The debug rendering of the term, without positions.
    pub fn debug_string(&self) -> (r: String)
        ensures
            r@ == pure_debug(self@),
    {
        let mut out = String::new();
        self.write_debug(&mut out);
        assert(out@ =~= pure_debug(self@));
        out
    }
}

impl Clone for Pure {
    fn clone(&self) -> (r: Self)
        ensures
            r@ == self@,
        decreases self,
    {
        match self {
            Pure::Var(p, n, i) => Pure::Var(*p, n.clone(), *i),
            Pure::Lam(p, n, b) => Pure::Lam(*p, n.clone(), Box::new((**b).clone())),
            Pure::App(p, f, a) => Pure::App(*p, Box::new((**f).clone()), Box::new((**a).clone())),
        }
    }
}

impl PartialEq for Pure {
    fn eq(&self, other: &Self) -> (r: bool)
        ensures
            r == (self@ == other@),
        decreases self,
    {
        match (self, other) {
            (Pure::Var(_, na, ia), Pure::Var(_, nb, ib)) => na == nb && ia == ib,
            (Pure::Lam(_, na, ba), Pure::Lam(_, nb, bb)) => na == nb && (**ba).eq(&**bb),
            (Pure::App(_, fa, aa), Pure::App(_, fb, ab)) => (**fa).eq(&**fb) && (**aa).eq(&**ab),
            _ => false,
        }
    }
}

impl vstd::std_specs::cmp::PartialEqSpecImpl for Pure {
    open spec fn obeys_eq_spec() -> bool {
        true
    }

    open spec fn eq_spec(&self, other: &Pure) -> bool {
        self@ == other@
    }
}

} // verus!
