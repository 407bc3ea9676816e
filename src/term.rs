use vstd::prelude::*;
use vstd::string::StringExecFns;
use crate::name::Name;
use crate::position::Pos;
use crate::pure::{Pure, PureV, pure_debug, name_debug, write_name_debug};
use crate::kind::{Kind, KindV, kind_model, kind_debug, kind_eq, write_kind_debug};
use crate::typ_::{
    Type, PureType, TypeV, type_model, type_debug, type_eq, write_type_debug, uses_debug,
    write_uses_debug,
};
use crate::uses::Uses;
use crate::print::{decimal, write_decimal};

verus! {

/// Type-annotated terms.
pub enum Term {
    /// variable: x
    Var(Pos, Name, u64),
    /// lambda abstraction: λ (⁰x: T) => x
    Lam(Pos, Uses, Name, Box<Type>, Box<Term>),
    /// type-level lambda abstraction: λ (x: Type) => x
    LamTy(Pos, Name, Box<Kind>, Box<Term>),
    /// application of a term to a term: f ⁺x
    App(Pos, Uses, Box<Term>, Box<Term>),
    /// application of a term to a type: f T
    AppTy(Pos, Box<Term>, Box<Type>),
    /// dependent intersection: intersect x y T
    Intersect(Pos, Box<Term>, Box<Term>, Box<Type>),
    /// let-term: let ⁰x = y in B
    Let(Pos, Uses, Name, Box<Term>, Box<Term>),
    /// let-type: let T: K = A in B
    LetTy(Pos, Name, Box<Kind>, Box<Type>, Box<Term>),
    /// left projection of a dependent intersection: projectL x
    ProjectL(Pos, Box<Term>),
    /// right projection of a dependent intersection: projectR x
    ProjectR(Pos, Box<Term>),
    /// proof of x ≃ x that erases to y: refl x y
    Refl(Pos, Box<Pure>, Box<Pure>),
    /// symmetry of equality: sym x
    Sym(Pos, Box<Term>),
    /// anything, from an absurd equality: absurd T x
    Absurd(Pos, Box<Type>, Box<Term>),
    /// rewrite by equality: rewrite x T y
    Rewrite(Pos, Box<Term>, Box<PureType>, Box<Term>),
    /// cast by equality: cast x y z
    Cast(Pos, Box<Term>, Box<Term>, Box<Pure>),
}

/// An annotated term with its positions forgotten.
pub enum TermV {
    Var(Seq<char>, u64),
    Lam(Uses, Seq<char>, Box<TypeV>, Box<TermV>),
    LamTy(Seq<char>, Box<KindV>, Box<TermV>),
    App(Uses, Box<TermV>, Box<TermV>),
    AppTy(Box<TermV>, Box<TypeV>),
    Intersect(Box<TermV>, Box<TermV>, Box<TypeV>),
    Let(Uses, Seq<char>, Box<TermV>, Box<TermV>),
    LetTy(Seq<char>, Box<KindV>, Box<TypeV>, Box<TermV>),
    ProjectL(Box<TermV>),
    ProjectR(Box<TermV>),
    Refl(Box<PureV>, Box<PureV>),
    Sym(Box<TermV>),
    Absurd(Box<TypeV>, Box<TermV>),
    Rewrite(Box<TermV>, Box<TypeV>, Box<TermV>),
    Cast(Box<TermV>, Box<TermV>, Box<PureV>),
}

/// The position-free model of an annotated term.
pub open spec fn term_model(t: &Term) -> TermV
    decreases t,
{
    match t {
        Term::Var(_, x0, x1) => TermV::Var(x0@, *x1),
        Term::Lam(_, x0, x1, x2, x3) => TermV::Lam(*x0, x1@, Box::new(type_model(x2)), Box::new(term_model(x3))),
        Term::LamTy(_, x0, x1, x2) => TermV::LamTy(x0@, Box::new(kind_model(x1)), Box::new(term_model(x2))),
        Term::App(_, x0, x1, x2) => TermV::App(*x0, Box::new(term_model(x1)), Box::new(term_model(x2))),
        Term::AppTy(_, x0, x1) => TermV::AppTy(Box::new(term_model(x0)), Box::new(type_model(x1))),
        Term::Intersect(_, x0, x1, x2) => TermV::Intersect(Box::new(term_model(x0)), Box::new(term_model(x1)), Box::new(type_model(x2))),
        Term::Let(_, x0, x1, x2, x3) => TermV::Let(*x0, x1@, Box::new(term_model(x2)), Box::new(term_model(x3))),
        Term::LetTy(_, x0, x1, x2, x3) => TermV::LetTy(x0@, Box::new(kind_model(x1)), Box::new(type_model(x2)), Box::new(term_model(x3))),
        Term::ProjectL(_, x0) => TermV::ProjectL(Box::new(term_model(x0))),
        Term::ProjectR(_, x0) => TermV::ProjectR(Box::new(term_model(x0))),
        Term::Refl(_, x0, x1) => TermV::Refl(Box::new(x0@), Box::new(x1@)),
        Term::Sym(_, x0) => TermV::Sym(Box::new(term_model(x0))),
        Term::Absurd(_, x0, x1) => TermV::Absurd(Box::new(type_model(x0)), Box::new(term_model(x1))),
        Term::Rewrite(_, x0, x1, x2) => TermV::Rewrite(Box::new(term_model(x0)), Box::new(type_model(x1)), Box::new(term_model(x2))),
        Term::Cast(_, x0, x1, x2) => TermV::Cast(Box::new(term_model(x0)), Box::new(term_model(x1)), Box::new(x2@)),
    }
}

impl View for Term {
    type V = TermV;

    open spec fn view(&self) -> TermV {
        term_model(self)
    }
}

/// Debug rendering of an annotated term; positions are left out.
pub open spec fn term_debug(t: TermV) -> Seq<char>
    decreases t,
{
    match t {
        TermV::Var(x0, x1) => "Var("@ + name_debug(x0) + ", "@ + decimal(x1 as nat) + ")"@,
        TermV::Lam(x0, x1, x2, x3) => "Lam("@ + uses_debug(x0) + ", "@ + name_debug(x1) + ", "@ + type_debug(*x2) + ", "@ + term_debug(*x3) + ")"@,
        TermV::LamTy(x0, x1, x2) => "LamTy("@ + name_debug(x0) + ", "@ + kind_debug(*x1) + ", "@ + term_debug(*x2) + ")"@,
        TermV::App(x0, x1, x2) => "App("@ + uses_debug(x0) + ", "@ + term_debug(*x1) + ", "@ + term_debug(*x2) + ")"@,
        TermV::AppTy(x0, x1) => "AppTy("@ + term_debug(*x0) + ", "@ + type_debug(*x1) + ")"@,
        TermV::Intersect(x0, x1, x2) => "Intersect("@ + term_debug(*x0) + ", "@ + term_debug(*x1) + ", "@ + type_debug(*x2) + ")"@,
        TermV::Let(x0, x1, x2, x3) => "Let("@ + uses_debug(x0) + ", "@ + name_debug(x1) + ", "@ + term_debug(*x2) + ", "@ + term_debug(*x3) + ")"@,
        TermV::LetTy(x0, x1, x2, x3) => "LetTy("@ + name_debug(x0) + ", "@ + kind_debug(*x1) + ", "@ + type_debug(*x2) + ", "@ + term_debug(*x3) + ")"@,
        TermV::ProjectL(x0) => "ProjectL("@ + term_debug(*x0) + ")"@,
        TermV::ProjectR(x0) => "ProjectR("@ + term_debug(*x0) + ")"@,
        TermV::Refl(x0, x1) => "Refl("@ + pure_debug(*x0) + ", "@ + pure_debug(*x1) + ")"@,
        TermV::Sym(x0) => "Sym("@ + term_debug(*x0) + ")"@,
        TermV::Absurd(x0, x1) => "Absurd("@ + type_debug(*x0) + ", "@ + term_debug(*x1) + ")"@,
        TermV::Rewrite(x0, x1, x2) => "Rewrite("@ + term_debug(*x0) + ", "@ + type_debug(*x1) + ", "@ + term_debug(*x2) + ")"@,
        TermV::Cast(x0, x1, x2) => "Cast("@ + term_debug(*x0) + ", "@ + term_debug(*x1) + ", "@ + pure_debug(*x2) + ")"@,
    }
}

fn write_pure_debug(out: &mut String, p: &Pure)
    ensures
        final(out)@ == old(out)@ + pure_debug(p@),
{
    out.append(p.debug_string().as_str());
}

/// Structural equality of annotated terms, positions ignored.
pub fn term_eq(a: &Term, b: &Term) -> (r: bool)
    ensures
        r == (a@ == b@),
    decreases a,
{
    match (a, b) {
        (Term::Var(_, a0, a1), Term::Var(_, b0, b1)) => {
            a0 == b0 && a1 == b1
        },
        (Term::Lam(_, a0, a1, a2, a3), Term::Lam(_, b0, b1, b2, b3)) => {
            a0 == b0 && a1 == b1 && type_eq(a2, b2) && term_eq(a3, b3)
        },
        (Term::LamTy(_, a0, a1, a2), Term::LamTy(_, b0, b1, b2)) => {
            a0 == b0 && kind_eq(a1, b1) && term_eq(a2, b2)
        },
        (Term::App(_, a0, a1, a2), Term::App(_, b0, b1, b2)) => {
            a0 == b0 && term_eq(a1, b1) && term_eq(a2, b2)
        },
        (Term::AppTy(_, a0, a1), Term::AppTy(_, b0, b1)) => {
            term_eq(a0, b0) && type_eq(a1, b1)
        },
        (Term::Intersect(_, a0, a1, a2), Term::Intersect(_, b0, b1, b2)) => {
            term_eq(a0, b0) && term_eq(a1, b1) && type_eq(a2, b2)
        },
        (Term::Let(_, a0, a1, a2, a3), Term::Let(_, b0, b1, b2, b3)) => {
            a0 == b0 && a1 == b1 && term_eq(a2, b2) && term_eq(a3, b3)
        },
        (Term::LetTy(_, a0, a1, a2, a3), Term::LetTy(_, b0, b1, b2, b3)) => {
            a0 == b0 && kind_eq(a1, b1) && type_eq(a2, b2) && term_eq(a3, b3)
        },
        (Term::ProjectL(_, a0), Term::ProjectL(_, b0)) => {
            term_eq(a0, b0)
        },
        (Term::ProjectR(_, a0), Term::ProjectR(_, b0)) => {
            term_eq(a0, b0)
        },
        (Term::Refl(_, a0, a1), Term::Refl(_, b0, b1)) => {
            **a0 == **b0 && **a1 == **b1
        },
        (Term::Sym(_, a0), Term::Sym(_, b0)) => {
            term_eq(a0, b0)
        },
        (Term::Absurd(_, a0, a1), Term::Absurd(_, b0, b1)) => {
            type_eq(a0, b0) && term_eq(a1, b1)
        },
        (Term::Rewrite(_, a0, a1, a2), Term::Rewrite(_, b0, b1, b2)) => {
            term_eq(a0, b0) && type_eq(a1, b1) && term_eq(a2, b2)
        },
        (Term::Cast(_, a0, a1, a2), Term::Cast(_, b0, b1, b2)) => {
            term_eq(a0, b0) && term_eq(a1, b1) && **a2 == **b2
        },
        _ => false,
    }
}

/// Appends the debug rendering of an annotated term.
#[verifier::rlimit(100)]
#[verifier::spinoff_prover]
pub fn write_term_debug(out: &mut String, t: &Term)
    ensures
        final(out)@ == old(out)@ + term_debug(t@),
    decreases t,
{
    match t {
        Term::Var(_, x0, x1) => {
            out.append("Var(");
            write_name_debug(out, x0);
            out.append(", ");
            write_decimal(out, *x1);
            out.append(")");
            assert(out@ =~= old(out)@ + term_debug(t@));
        },
        Term::Lam(_, x0, x1, x2, x3) => {
            out.append("Lam(");
            write_uses_debug(out, *x0);
            out.append(", ");
            write_name_debug(out, x1);
            out.append(", ");
            write_type_debug(out, x2);
            out.append(", ");
            write_term_debug(out, x3);
            out.append(")");
            assert(out@ =~= old(out)@ + term_debug(t@));
        },
        Term::LamTy(_, x0, x1, x2) => {
            out.append("LamTy(");
            write_name_debug(out, x0);
            out.append(", ");
            write_kind_debug(out, x1);
            out.append(", ");
            write_term_debug(out, x2);
            out.append(")");
            assert(out@ =~= old(out)@ + term_debug(t@));
        },
        Term::App(_, x0, x1, x2) => {
            out.append("App(");
            write_uses_debug(out, *x0);
            out.append(", ");
            write_term_debug(out, x1);
            out.append(", ");
            write_term_debug(out, x2);
            out.append(")");
            assert(out@ =~= old(out)@ + term_debug(t@));
        },
        Term::AppTy(_, x0, x1) => {
            out.append("AppTy(");
            write_term_debug(out, x0);
            out.append(", ");
            write_type_debug(out, x1);
            out.append(")");
            assert(out@ =~= old(out)@ + term_debug(t@));
        },
        Term::Intersect(_, x0, x1, x2) => {
            out.append("Intersect(");
            write_term_debug(out, x0);
            out.append(", ");
            write_term_debug(out, x1);
            out.append(", ");
            write_type_debug(out, x2);
            out.append(")");
            assert(out@ =~= old(out)@ + term_debug(t@));
        },
        Term::Let(_, x0, x1, x2, x3) => {
            out.append("Let(");
            write_uses_debug(out, *x0);
            out.append(", ");
            write_name_debug(out, x1);
            out.append(", ");
            write_term_debug(out, x2);
            out.append(", ");
            write_term_debug(out, x3);
            out.append(")");
            assert(out@ =~= old(out)@ + term_debug(t@));
        },
        Term::LetTy(_, x0, x1, x2, x3) => {
            out.append("LetTy(");
            write_name_debug(out, x0);
            out.append(", ");
            write_kind_debug(out, x1);
            out.append(", ");
            write_type_debug(out, x2);
            out.append(", ");
            write_term_debug(out, x3);
            out.append(")");
            assert(out@ =~= old(out)@ + term_debug(t@));
        },
        Term::ProjectL(_, x0) => {
            out.append("ProjectL(");
            write_term_debug(out, x0);
            out.append(")");
            assert(out@ =~= old(out)@ + term_debug(t@));
        },
        Term::ProjectR(_, x0) => {
            out.append("ProjectR(");
            write_term_debug(out, x0);
            out.append(")");
            assert(out@ =~= old(out)@ + term_debug(t@));
        },
        Term::Refl(_, x0, x1) => {
            out.append("Refl(");
            write_pure_debug(out, x0);
            out.append(", ");
            write_pure_debug(out, x1);
            out.append(")");
            assert(out@ =~= old(out)@ + term_debug(t@));
        },
        Term::Sym(_, x0) => {
            out.append("Sym(");
            write_term_debug(out, x0);
            out.append(")");
            assert(out@ =~= old(out)@ + term_debug(t@));
        },
        Term::Absurd(_, x0, x1) => {
            out.append("Absurd(");
            write_type_debug(out, x0);
            out.append(", ");
            write_term_debug(out, x1);
            out.append(")");
            assert(out@ =~= old(out)@ + term_debug(t@));
        },
        Term::Rewrite(_, x0, x1, x2) => {
            out.append("Rewrite(");
            write_term_debug(out, x0);
            out.append(", ");
            write_type_debug(out, x1);
            out.append(", ");
            write_term_debug(out, x2);
            out.append(")");
            assert(out@ =~= old(out)@ + term_debug(t@));
        },
        Term::Cast(_, x0, x1, x2) => {
            out.append("Cast(");
            write_term_debug(out, x0);
            out.append(", ");
            write_term_debug(out, x1);
            out.append(", ");
            write_pure_debug(out, x2);
            out.append(")");
            assert(out@ =~= old(out)@ + term_debug(t@));
        },
    }
}

impl Term {
    /// The debug rendering of the term, without positions.
    pub fn debug_string(&self) -> (r: String)
        ensures
            r@ == term_debug(self@),
    {
        let mut out = String::new();
        write_term_debug(&mut out, self);
        assert(out@ =~= term_debug(self@));
        out
    }
}

impl PartialEq for Term {
    fn eq(&self, other: &Self) -> (r: bool)
        ensures
            r == (self@ == other@),
    {
        term_eq(self, other)
    }
}

impl vstd::std_specs::cmp::PartialEqSpecImpl for Term {
    open spec fn obeys_eq_spec() -> bool {
        true
    }

    open spec fn eq_spec(&self, other: &Term) -> bool {
        self@ == other@
    }
}

} // verus!
