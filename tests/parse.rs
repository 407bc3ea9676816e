use yatima_core::kind::Kind;
use yatima_core::name::Name;
use yatima_core::parse::error::{ParseError, ParseErrorKind};
use yatima_core::parse::kind::parse_kind;
use yatima_core::parse::pure::{parse_pure, parse_telescope};
use yatima_core::parse::util::{
    is_numeric_symbol_string1, is_numeric_symbol_string2,
    parse_line_comment, parse_name, parse_space, parse_space1, parse_tele_end, parse_uses,
    reserved_symbols, source_chars, empty_ctx, Ctx,
};
use yatima_core::position::{input_cid_of_encoding, Cid, Pos};
use yatima_core::pure::Pure;
use yatima_core::uses::Uses;

fn cid_of(text: &str) -> Cid {
    input_cid_of_encoding(&text.as_bytes().to_vec())
}

fn pure_of(text: &str) -> Result<(Pure, usize), ParseError> {
    parse_pure(cid_of(text), &Ctx::new(), &source_chars(text), 0)
}

fn kind_of(text: &str) -> Result<(Kind, usize), ParseError> {
    parse_kind(cid_of(text), &source_chars(text), 0)
}

fn var(n: &str, i: u64) -> Pure {
    Pure::Var(Pos::Nowhere, Name::new(n), i)
}

fn lam(n: &str, b: Pure) -> Pure {
    Pure::Lam(Pos::Nowhere, Name::new(n), Box::new(b))
}

fn app(f: Pure, a: Pure) -> Pure {
    Pure::App(Pos::Nowhere, Box::new(f), Box::new(a))
}

#[test]
fn it_works() {
    assert_eq!(2 + 2, 4);
}

#[test]
fn test_parse_pure() {
    let res = pure_of("λ x y z => x");
    assert!(res.is_ok());
    let res: Pure = res.unwrap().0;
    assert!(res == lam("x", lam("y", lam("z", var("x", 2)))));
    let res = pure_of("λ f a b => f a b");
    assert!(res.is_ok());
    let res: Pure = res.unwrap().0;
    assert!(
        res == lam("f", lam("a", lam("b", app(app(var("f", 2), var("a", 1)), var("b", 0)))))
    );
}

#[test]
fn test_parse_kind() {
    let res = kind_of("Π Type -> Type");
    assert!(res.is_ok());
    let res: Kind = res.unwrap().0;
    assert!(
        res == Kind::PiTy(
            Pos::Nowhere,
            Box::new(Kind::Type(Pos::Nowhere)),
            Box::new(Kind::Type(Pos::Nowhere))
        )
    );
    let res = kind_of("Π (Π Type -> Type) -> Type");
    assert!(res.is_ok());
    let res: Kind = res.unwrap().0;
    assert!(
        res == Kind::PiTy(
            Pos::Nowhere,
            Box::new(Kind::PiTy(
                Pos::Nowhere,
                Box::new(Kind::Type(Pos::Nowhere)),
                Box::new(Kind::Type(Pos::Nowhere))
            )),
            Box::new(Kind::Type(Pos::Nowhere))
        )
    );
    let res = kind_of("Π (Π Type -> Type) Type Type -> Type");
    assert!(res.is_ok());
}

#[test]
fn kind_domains_nest_first_outermost() {
    let (k, end) = kind_of("Π (Π Type -> Type) Type -> Type").unwrap();
    assert_eq!(end, 31);
    assert_eq!(k.debug_string(), "PiTy(PiTy(Type, Type), PiTy(Type, Type))");
    let (k, _) = kind_of("Π Type (Π Type -> Type) -> Type").unwrap();
    assert_eq!(k.debug_string(), "PiTy(Type, PiTy(PiTy(Type, Type), Type))");
}

#[test]
fn kind_errors() {
    let e = kind_of("Π Type Type").err().unwrap();
    assert!(matches!(e.kind, ParseErrorKind::Expected(ref t) if t.as_str() == "->"));
    assert_eq!(e.at, 11);
    let e = kind_of("type").err().unwrap();
    assert!(matches!(e.kind, ParseErrorKind::Expected(ref t) if t.as_str() == "Π"));
    assert_eq!(e.at, 0);
    let (k, end) = kind_of("( Type )").unwrap();
    assert!(k == Kind::Type(Pos::Nowhere));
    assert_eq!(end, 8);
}

#[test]
fn parsed_positions_span_the_text() {
    let (t, end) = pure_of("λ x => x").unwrap();
    assert_eq!(end, 8);
    match t {
        Pure::Lam(Pos::At(p), _, b) => {
            assert_eq!((p.from, p.upto), (0, 8));
            match *b {
                Pure::Var(Pos::At(q), _, 0) => assert_eq!((q.from, q.upto), (7, 8)),
                _ => panic!("body is not the bound variable"),
            }
        },
        _ => panic!("not a lambda with a span"),
    }
}

#[test]
fn equality_ignores_positions() {
    let (parsed, _) = pure_of("λ f a => f (a a)").unwrap();
    let built = lam("f", lam("a", app(var("f", 1), app(var("a", 0), var("a", 0)))));
    assert!(parsed == built);
    assert!(built == parsed);
}

#[test]
fn equality_sees_spellings() {
    let x = lam("x", var("x", 0));
    let y = lam("y", var("y", 0));
    assert!(x != y);
    assert!(x == lam("x", var("x", 0)));
}

#[test]
fn reserved_keyword_is_refused() {
    let e = pure_of("let").err().unwrap();
    assert!(matches!(e.kind, ParseErrorKind::ReservedKeyword(ref s) if s.as_str() == "let"));
    assert_eq!(e.at, 0);
}

#[test]
fn undefined_reference_reports_name_and_context() {
    let e = pure_of("x").err().unwrap();
    match e.kind {
        ParseErrorKind::UndefinedReference(n, ctx) => {
            assert!(n == Name::new("x"));
            assert_eq!(ctx.len(), 0);
        },
        _ => panic!("wrong error kind"),
    }
    assert_eq!(e.at, 1);
}

#[test]
fn name_errors_in_order() {
    let s = source_chars("#x");
    assert!(matches!(parse_name(&s, 0).err().unwrap().kind, ParseErrorKind::ReservedSyntax(_)));
    let s = source_chars("1x");
    assert!(matches!(parse_name(&s, 0).err().unwrap().kind, ParseErrorKind::NumericSyntax(_)));
    let s = source_chars("-7");
    assert!(matches!(parse_name(&s, 0).err().unwrap().kind, ParseErrorKind::NumericSyntax(_)));
    let s = source_chars("a\u{7}b");
    assert!(matches!(parse_name(&s, 0).err().unwrap().kind, ParseErrorKind::InvalidSymbol(_)));
    let s = source_chars("(x");
    assert!(matches!(parse_name(&s, 0).err().unwrap().kind, ParseErrorKind::ExpectedName));
    let s = source_chars("Type");
    assert!(matches!(parse_name(&s, 0).err().unwrap().kind, ParseErrorKind::ReservedKeyword(_)));
    let s = source_chars("ab:c");
    let (n, end) = parse_name(&s, 0).unwrap();
    assert!(n == Name::new("ab"));
    assert_eq!(end, 2);
}

#[test]
fn numeric_shapes() {
    assert!(is_numeric_symbol_string1("0abc"));
    assert!(is_numeric_symbol_string1("9"));
    assert!(!is_numeric_symbol_string1("a9"));
    assert!(!is_numeric_symbol_string1(""));
    assert!(is_numeric_symbol_string2("-3"));
    assert!(is_numeric_symbol_string2("+0x"));
    assert!(!is_numeric_symbol_string2("-"));
    assert!(!is_numeric_symbol_string2("--1"));
}

#[test]
fn spaces_and_comments() {
    let s = source_chars("  // note\n  // two\n x");
    let (end, coms) = parse_space(&s, 0);
    assert_eq!(end, 20);
    assert_eq!(coms, vec![" note".to_string(), " two".to_string()]);
    let s = source_chars(" // unterminated");
    let (end, coms) = parse_space(&s, 0);
    assert_eq!(end, 1);
    assert!(coms.is_empty());
    assert!(parse_space1(&s, 1).is_err());
    assert_eq!(parse_space1(&s, 0).unwrap(), 1);
    assert_eq!(parse_line_comment(&s, 1).unwrap(), 16);
    assert!(parse_line_comment(&s, 0).is_err());
}

#[test]
fn telescope_ends() {
    let s = source_chars("f in x");
    assert!(parse_tele_end(&s, 2));
    assert!(!parse_tele_end(&s, 0));
    assert!(parse_tele_end(&s, 6));
    let s = source_chars("-> ) , ; = { } def type");
    for i in [0usize, 3, 5, 7, 9, 11, 13, 15, 19] {
        assert!(parse_tele_end(&s, i));
    }
}

#[test]
fn usage_annotations() {
    let s = source_chars("⁰¹˚⁺x");
    assert_eq!(parse_uses(&s, 0).unwrap(), (Uses::Erased, 1));
    assert_eq!(parse_uses(&s, 1).unwrap(), (Uses::Once, 2));
    assert_eq!(parse_uses(&s, 2).unwrap(), (Uses::Affi, 3));
    assert_eq!(parse_uses(&s, 3).unwrap(), (Uses::Many, 4));
    assert!(parse_uses(&s, 4).is_err());
}

#[test]
fn reserved_symbol_list() {
    let r = reserved_symbols();
    assert_eq!(r.len(), 22);
    assert!(r.iter().any(|s| s.as_str() == "λ"));
    assert!(r.iter().any(|s| s.as_str() == "Type"));
}

#[test]
fn telescope_parses_applications_and_context() {
    let text = "f (λ y => y) x";
    let mut ctx = Ctx::new();
    ctx.push_front(Name::new("x"));
    ctx.push_front(Name::new("f"));
    let (t, end) = parse_telescope(cid_of(text), &ctx, &source_chars(text), 0).unwrap();
    assert_eq!(end, 14);
    assert!(t == app(app(var("f", 0), lam("y", var("y", 0))), var("x", 1)));
    let (t, end) = parse_pure(cid_of(text), &ctx, &source_chars(text), 0).unwrap();
    assert_eq!(end, 1);
    assert!(t == var("f", 0));
}

#[test]
fn shadowed_names_resolve_innermost() {
    let (t, _) = pure_of("λ x x => x").unwrap();
    assert!(t == lam("x", lam("x", var("x", 0))));
}

#[test]
fn content_identifiers_follow_the_text() {
    assert!(cid_of("λ x => x") == cid_of("λ x => x"));
    assert!(cid_of("λ x => x") != cid_of("λ y => y"));
}

#[test]
fn pure_kinds_parse_alike() {
    let text = "Π Type -> (Π Type -> Type)";
    let (k, end) = parse_kind::<true>(cid_of(text), &source_chars(text), 0).unwrap();
    assert_eq!(end, 26);
    assert_eq!(k.debug_string(), "PiTy(Type, PiTy(Type, Type))");
}

#[test]
fn failures_carry_production_labels() {
    let e = pure_of("let").err().unwrap();
    assert_eq!(e.context, vec!["local or global reference".to_string(), "Pure variable".to_string()]);
    let e = pure_of("(x)").err().unwrap();
    assert_eq!(e.context, vec!["local or global reference".to_string(), "Pure variable".to_string()]);
    assert!(matches!(e.kind, ParseErrorKind::ExpectedName));
    let e = kind_of("Π Type Type").err().unwrap();
    assert_eq!(e.context, vec!["Π kind".to_string()]);
    let text = "λ x => y";
    let e = parse_telescope(cid_of(text), &empty_ctx(), &source_chars(text), 0).err().unwrap();
    assert!(matches!(e.kind, ParseErrorKind::ReservedKeyword(ref t) if t.as_str() == "λ"));
    assert_eq!(
        e.context,
        vec!["local or global reference".to_string(), "Pure variable".to_string(), "app fun".to_string()]
    );
}

#[test]
fn parsed_applications_span_the_telescope() {
    let text = "λ f => f f ";
    let (t, end) = pure_of(text).unwrap();
    assert_eq!(end, 11);
    match t {
        Pure::Lam(_, _, b) => match *b {
            Pure::App(Pos::At(p), _, _) => assert_eq!((p.from, p.upto), (7, 11)),
            _ => panic!("body is not an application"),
        },
        _ => panic!("not a lambda"),
    }
}
