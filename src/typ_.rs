use vstd::prelude::*;
use vstd::string::StringExecFns;
use crate::name::Name;
use crate::position::Pos;
use crate::pure::{Pure, PureV, pure_debug, name_debug, write_name_debug};
use crate::kind::{BaseKind, KindV, kind_model, kind_debug, kind_eq, write_kind_debug};
use crate::uses::Uses;
use crate::print::write_decimal;

verus! {

/// Types, over pure (`T` true) or annotated (`T` false) terms.
pub enum BaseType<const T: bool> {
    /// type variable
    Var(Pos, Name, u64),
    /// type abstraction
    Lam(Pos, Name, Box<BaseType<T>>, Box<BaseType<T>>),
    /// kind abstraction
    LamTy(Pos, Name, Box<BaseKind<T>>, Box<BaseType<T>>),
    /// dependent product: ∀ (⁰x: A) -> B
    Pi(Pos, Uses, Name, Box<BaseType<T>>, Box<BaseType<T>>),
    /// dependent product over a kind: ∀ (x: Type) -> B
    PiTy(Pos, Name, Box<BaseKind<T>>, Box<BaseType<T>>),
    /// dependent intersection: ι x: A. B
    Iota(Pos, Name, Box<BaseType<T>>, Box<BaseType<T>>),
    /// equality of pure terms: x ≃ y
    Eql(Pos, Box<Pure>, Box<Pure>),
    /// type application: f x
    AppTy(Pos, Box<BaseType<T>>, Box<BaseType<T>>),
}

/// The types of pure terms.
pub type PureType = BaseType<true>;

/// The types of annotated terms.
pub type Type = BaseType<false>;

/// A type with its positions forgotten.
pub enum TypeV {
    Var(Seq<char>, u64),
    Lam(Seq<char>, Box<TypeV>, Box<TypeV>),
    LamTy(Seq<char>, Box<KindV>, Box<TypeV>),
    Pi(Uses, Seq<char>, Box<TypeV>, Box<TypeV>),
    PiTy(Seq<char>, Box<KindV>, Box<TypeV>),
    Iota(Seq<char>, Box<TypeV>, Box<TypeV>),
    Eql(Box<PureV>, Box<PureV>),
    AppTy(Box<TypeV>, Box<TypeV>),
}

/// The position-free model of a type.
pub open spec fn type_model<const T: bool>(t: &BaseType<T>) -> TypeV
    decreases t,
{
    match t {
        BaseType::Var(_, n, i) => TypeV::Var(n@, *i),
        BaseType::Lam(_, n, a, b) => TypeV::Lam(n@, Box::new(type_model(a)), Box::new(type_model(b))),
        BaseType::LamTy(_, n, k, b) => TypeV::LamTy(n@, Box::new(kind_model(k)), Box::new(type_model(b))),
        BaseType::Pi(_, u, n, a, b) => TypeV::Pi(*u, n@, Box::new(type_model(a)), Box::new(type_model(b))),
        BaseType::PiTy(_, n, k, b) => TypeV::PiTy(n@, Box::new(kind_model(k)), Box::new(type_model(b))),
        BaseType::Iota(_, n, a, b) => TypeV::Iota(n@, Box::new(type_model(a)), Box::new(type_model(b))),
        BaseType::Eql(_, a, b) => TypeV::Eql(Box::new(a@), Box::new(b@)),
        BaseType::AppTy(_, f, a) => TypeV::AppTy(Box::new(type_model(f)), Box::new(type_model(a))),
    }
}

impl<const T: bool> View for BaseType<T> {
    type V = TypeV;

    open spec fn view(&self) -> TypeV {
        type_model(self)
    }
}

/// Debug rendering of a usage annotation: the variant's name.
pub open spec fn uses_debug(u: Uses) -> Seq<char> {
    match u {
        Uses::Erased => "Erased"@,
        Uses::Once => "Once"@,
        Uses::Affi => "Affi"@,
        Uses::Many => "Many"@,
    }
}

/// Appends the debug rendering of a usage annotation.
pub fn write_uses_debug(out: &mut String, u: Uses)
    ensures
        final(out)@ == old(out)@ + uses_debug(u),
{
    match u {
        Uses::Erased => out.append("Erased"),
        Uses::Once => out.append("Once"),
        Uses::Affi => out.append("Affi"),
        Uses::Many => out.append("Many"),
    }
}

/// Debug rendering of a type; positions are left out.
pub open spec fn type_debug(t: TypeV) -> Seq<char>
    decreases t,
{
    match t {
        TypeV::Var(n, i) => "Var("@ + name_debug(n) + ", "@ + crate::print::decimal(i as nat) + ")"@,
        TypeV::Lam(n, a, b) => "Lam("@ + name_debug(n) + ", "@ + type_debug(*a) + ", "@
            + type_debug(*b) + ")"@,
        TypeV::LamTy(n, k, b) => "LamTy("@ + name_debug(n) + ", "@ + kind_debug(*k) + ", "@
            + type_debug(*b) + ")"@,
        TypeV::Pi(u, n, a, b) => "Pi("@ + uses_debug(u) + ", "@ + name_debug(n) + ", "@
            + type_debug(*a) + ", "@ + type_debug(*b) + ")"@,
        TypeV::PiTy(n, k, b) => "PiTy("@ + name_debug(n) + ", "@ + kind_debug(*k) + ", "@
            + type_debug(*b) + ")"@,
        TypeV::Iota(n, a, b) => "Iota("@ + name_debug(n) + ", "@ + type_debug(*a) + ", "@
            + type_debug(*b) + ")"@,
        TypeV::Eql(a, b) => "Eql("@ + pure_debug(*a) + ", "@ + pure_debug(*b) + ")"@,
        TypeV::AppTy(f, a) => "AppTy("@ + type_debug(*f) + ", "@ + type_debug(*a) + ")"@,
    }
}

/// Structural equality of types, positions ignored.
pub fn type_eq<const T: bool>(a: &BaseType<T>, b: &BaseType<T>) -> (r: bool)
    ensures
        r == (a@ == b@),
    decreases a,
{
    match (a, b) {
        (BaseType::Var(_, na, ia), BaseType::Var(_, nb, ib)) => na == nb && ia == ib,
        (BaseType::Lam(_, na, ta, ba), BaseType::Lam(_, nb, tb, bb)) => na == nb && type_eq(ta, tb)
            && type_eq(ba, bb),
        (BaseType::LamTy(_, na, ka, ba), BaseType::LamTy(_, nb, kb, bb)) => na == nb && kind_eq(
            ka,
            kb,
        ) && type_eq(ba, bb),
        (BaseType::Pi(_, ua, na, ta, ba), BaseType::Pi(_, ub, nb, tb, bb)) => ua == ub && na == nb
            && type_eq(ta, tb) && type_eq(ba, bb),
        (BaseType::PiTy(_, na, ka, ba), BaseType::PiTy(_, nb, kb, bb)) => na == nb && kind_eq(ka, kb)
            && type_eq(ba, bb),
        (BaseType::Iota(_, na, ka, ba), BaseType::Iota(_, nb, kb, bb)) => na == nb && type_eq(ka, kb)
            && type_eq(ba, bb),
        (BaseType::Eql(_, aa, ba), BaseType::Eql(_, ab, bb)) => **aa == **ab && **ba == **bb,
        (BaseType::AppTy(_, fa, aa), BaseType::AppTy(_, fb, ab)) => type_eq(fa, fb) && type_eq(aa, ab),
        _ => false,
    }
}

/// Appends the debug rendering of a type.
pub fn write_type_debug<const T: bool>(out: &mut String, t: &BaseType<T>)
    ensures
        final(out)@ == old(out)@ + type_debug(t@),
    decreases t,
{
    match t {
        BaseType::Var(_, n, i) => {
            out.append("Var(");
            write_name_debug(out, n);
            out.append(", ");
            write_decimal(out, *i);
            out.append(")");
        },
        BaseType::Lam(_, n, a, b) => {
            out.append("Lam(");
            write_name_debug(out, n);
            out.append(", ");
            write_type_debug(out, a);
            out.append(", ");
            write_type_debug(out, b);
            out.append(")");
        },
        BaseType::LamTy(_, n, k, b) => {
            out.append("LamTy(");
            write_name_debug(out, n);
            out.append(", ");
            write_kind_debug(out, k);
            out.append(", ");
            write_type_debug(out, b);
            out.append(")");
        },
        BaseType::Pi(_, u, n, a, b) => {
            out.append("Pi(");
            write_uses_debug(out, *u);
            out.append(", ");
            write_name_debug(out, n);
            out.append(", ");
            write_type_debug(out, a);
            out.append(", ");
            write_type_debug(out, b);
            out.append(")");
        },
        BaseType::PiTy(_, n, k, b) => {
            out.append("PiTy(");
            write_name_debug(out, n);
            out.append(", ");
            write_kind_debug(out, k);
            out.append(", ");
            write_type_debug(out, b);
            out.append(")");
        },
        BaseType::Iota(_, n, a, b) => {
            out.append("Iota(");
            write_name_debug(out, n);
            out.append(", ");
            write_type_debug(out, a);
            out.append(", ");
            write_type_debug(out, b);
            out.append(")");
        },
        BaseType::Eql(_, a, b) => {
            out.append("Eql(");
            out.append(a.debug_string().as_str());
            out.append(", ");
            out.append(b.debug_string().as_str());
            out.append(")");
        },
        BaseType::AppTy(_, f, a) => {
            out.append("AppTy(");
            write_type_debug(out, f);
            out.append(", ");
            write_type_debug(out, a);
            out.append(")");
        },
    }
    assert(final(out)@ =~= old(out)@ + type_debug(t@));
}

impl<const T: bool> BaseType<T> {
    /// The debug rendering of the type, without positions.
    pub fn debug_string(&self) -> (r: String)
        ensures
            r@ == type_debug(self@),
    {
        let mut out = String::new();
        write_type_debug(&mut out, self);
        assert(out@ =~= type_debug(self@));
        out
    }
}

impl<const T: bool> PartialEq for BaseType<T> {
    fn eq(&self, other: &Self) -> (r: bool)
        ensures
            r == (self@ == other@),
    {
        type_eq(self, other)
    }
}

impl<const T: bool> vstd::std_specs::cmp::PartialEqSpecImpl for BaseType<T> {
    open spec fn obeys_eq_spec() -> bool {
        true
    }

    open spec fn eq_spec(&self, other: &BaseType<T>) -> bool {
        self@ == other@
    }
}

} // verus!
