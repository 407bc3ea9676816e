use vstd::prelude::*;
use vstd::string::StringExecFns;
use crate::position::Pos;
use crate::typ_::{BaseType, TypeV, type_model, type_debug, type_eq, write_type_debug};

verus! {

/// Kinds, over pure (`T` true) or annotated (`T` false) types.
pub enum BaseKind<const T: bool> {
    /// the kind of types: `Type`
    Type(Pos),
    /// type constructor: `Π T -> Type`
    Pi(Pos, Box<BaseType<T>>, Box<BaseKind<T>>),
    /// kind arrow: `Π Type -> Type`
    PiTy(Pos, Box<BaseKind<T>>, Box<BaseKind<T>>),
}

/// The kinds of the types of pure terms.
pub type PureKind = BaseKind<true>;

/// The kinds of the types of annotated terms.
pub type Kind = BaseKind<false>;

/// A kind with its positions forgotten.
pub enum KindV {
    Type,
    Pi(Box<TypeV>, Box<KindV>),
    PiTy(Box<KindV>, Box<KindV>),
}

/// The position the root node of a kind carries.
pub open spec fn kind_pos<const T: bool>(k: &BaseKind<T>) -> Pos {
    match k {
        BaseKind::Type(p) => *p,
        BaseKind::Pi(p, _, _) => *p,
        BaseKind::PiTy(p, _, _) => *p,
    }
}

/// The position-free model of a kind.
pub open spec fn kind_model<const T: bool>(k: &BaseKind<T>) -> KindV
    decreases k,
{
    match k {
        BaseKind::Type(_) => KindV::Type,
        BaseKind::Pi(_, t, b) => KindV::Pi(Box::new(type_model(t)), Box::new(kind_model(b))),
        BaseKind::PiTy(_, a, b) => KindV::PiTy(Box::new(kind_model(a)), Box::new(kind_model(b))),
    }
}

impl<const T: bool> View for BaseKind<T> {
    type V = KindV;

    open spec fn view(&self) -> KindV {
        kind_model(self)
    }
}

/// Debug rendering of a kind; positions are left out.
pub open spec fn kind_debug(k: KindV) -> Seq<char>
    decreases k,
{
    match k {
        KindV::Type => "Type"@,
        KindV::Pi(t, b) => "Pi("@ + type_debug(*t) + ", "@ + kind_debug(*b) + ")"@,
        KindV::PiTy(a, b) => "PiTy("@ + kind_debug(*a) + ", "@ + kind_debug(*b) + ")"@,
    }
}

/// Structural equality of kinds, positions ignored.
pub fn kind_eq<const T: bool>(a: &BaseKind<T>, b: &BaseKind<T>) -> (r: bool)
    ensures
        r == (a@ == b@),
    decreases a,
{
    match (a, b) {
        (BaseKind::Type(_), BaseKind::Type(_)) => true,
        (BaseKind::Pi(_, ta, ba), BaseKind::Pi(_, tb, bb)) => type_eq(ta, tb) && kind_eq(ba, bb),
        (BaseKind::PiTy(_, ka, ba), BaseKind::PiTy(_, kb, bb)) => kind_eq(ka, kb) && kind_eq(ba, bb),
        _ => false,
    }
}

/// Appends the debug rendering of a kind.
pub fn write_kind_debug<const T: bool>(out: &mut String, k: &BaseKind<T>)
    ensures
        final(out)@ == old(out)@ + kind_debug(k@),
    decreases k,
{
    match k {
        BaseKind::Type(_) => {
            out.append("Type");
        },
        BaseKind::Pi(_, t, b) => {
            out.append("Pi(");
            write_type_debug(out, t);
            out.append(", ");
            write_kind_debug(out, b);
            out.append(")");
        },
        BaseKind::PiTy(_, a, b) => {
            out.append("PiTy(");
            write_kind_debug(out, a);
            out.append(", ");
            write_kind_debug(out, b);
            out.append(")");
        },
    }
    assert(final(out)@ =~= old(out)@ + kind_debug(k@));
}

impl<const T: bool> BaseKind<T> {
    /// The debug rendering of the kind, without positions.
    pub fn debug_string(&self) -> (r: String)
        ensures
            r@ == kind_debug(self@),
    {
        let mut out = String::new();
        write_kind_debug(&mut out, self);
        assert(out@ =~= kind_debug(self@));
        out
    }
}

impl<const T: bool> PartialEq for BaseKind<T> {
    fn eq(&self, other: &Self) -> (r: bool)
        ensures
            r == (self@ == other@),
    {
        kind_eq(self, other)
    }
}

impl<const T: bool> vstd::std_specs::cmp::PartialEqSpecImpl for BaseKind<T> {
    open spec fn obeys_eq_spec() -> bool {
        true
    }

    open spec fn eq_spec(&self, other: &BaseKind<T>) -> bool {
        self@ == other@
    }
}

} // verus!
