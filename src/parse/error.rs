use vstd::prelude::*;
use vstd::string::StringExecFns;
use crate::name::Name;
use crate::parse::util::{Ctx, ctx_names};

verus! {

/// Why a parse failed.
#[derive(Debug)]
pub enum ParseErrorKind {
    /// a variable that no enclosing binder introduces, with the binders in scope
    UndefinedReference(Name, Ctx),
    /// a reserved keyword or operator where a name was expected
    ReservedKeyword(String),
    /// a name starting with the reserved marker `#`
    ReservedSyntax(String),
    /// a name shaped like a number
    NumericSyntax(String),
    /// a name with a character outside the symbol alphabet
    InvalidSymbol(String),
    /// a name was expected and none was there
    ExpectedName,
    /// the given token was expected
    Expected(String),
}

/// A failed parse: where it failed, why, and the productions that were
/// being attempted, innermost first.
#[derive(Debug)]
pub struct ParseError {
    /// character offset of the failure
    pub at: usize,
    pub kind: ParseErrorKind,
    /// labels of the enclosing productions, innermost first
    pub context: Vec<String>,
}

/// The model of a failure reason.
pub enum ErrKindV {
    UndefinedReference(Seq<char>, Seq<Seq<char>>),
    ReservedKeyword(Seq<char>),
    ReservedSyntax(Seq<char>),
    NumericSyntax(Seq<char>),
    InvalidSymbol(Seq<char>),
    ExpectedName,
    Expected(Seq<char>),
}

/// The model of a failed parse.
pub struct ErrV {
    pub at: int,
    pub kind: ErrKindV,
    pub context: Seq<Seq<char>>,
}

/// A failure at `at` for the given reason, outside any labelled production.
pub open spec fn err_at(at: int, kind: ErrKindV) -> ErrV {
    ErrV { at, kind, context: Seq::empty() }
}

/// A failure with the label of one more enclosing production.
pub open spec fn labelled(e: ErrV, label: Seq<char>) -> ErrV {
    ErrV { at: e.at, kind: e.kind, context: e.context.push(label) }
}

impl View for ParseErrorKind {
    type V = ErrKindV;

    open spec fn view(&self) -> ErrKindV {
        match self {
            ParseErrorKind::UndefinedReference(n, c) => ErrKindV::UndefinedReference(n@, ctx_names(*c)),
            ParseErrorKind::ReservedKeyword(s) => ErrKindV::ReservedKeyword(s@),
            ParseErrorKind::ReservedSyntax(s) => ErrKindV::ReservedSyntax(s@),
            ParseErrorKind::NumericSyntax(s) => ErrKindV::NumericSyntax(s@),
            ParseErrorKind::InvalidSymbol(s) => ErrKindV::InvalidSymbol(s@),
            ParseErrorKind::ExpectedName => ErrKindV::ExpectedName,
            ParseErrorKind::Expected(s) => ErrKindV::Expected(s@),
        }
    }
}

impl View for ParseError {
    type V = ErrV;

    open spec fn view(&self) -> ErrV {
        ErrV {
            at: self.at as int,
            kind: self.kind@,
            context: self.context@.map_values(|l: String| l@),
        }
    }
}

impl ParseError {
    /// A failure at `at` for the given reason.
    pub fn new(at: usize, kind: ParseErrorKind) -> (r: ParseError)
        ensures
            r.at == at,
            r.kind == kind,
            r.context@.len() == 0,
            r@ == err_at(at as int, kind@),
    {
        let r = ParseError { at, kind, context: Vec::new() };
        assert(r.context@.map_values(|l: String| l@) =~= Seq::<Seq<char>>::empty());
        r
    }

    /// The same failure, inside one more production with the given label.
    pub fn label(self, l: &str) -> (r: ParseError)
        ensures
            r@ == labelled(self@, l@),
    {
        let mut e = self;
        let ghost before = e.context@;
        e.context.push(String::from_str(l));
        assert(e.context@.map_values(|x: String| x@) =~= before.map_values(|x: String| x@).push(
            l@,
        ));
        e
    }
}

} // verus!
