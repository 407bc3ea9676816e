use yatima_core::gen::{
    arbitrary_name, arbitrary_pure, case_for_weight, gen_range, name_from, next_case, productions,
    range_from, var_at, Case,
};
use yatima_core::parse::pure::parse_pure;
use yatima_core::name::Name;
use yatima_core::parse::pure::parse_telescope;
use yatima_core::parse::util::{source_chars, Ctx};
use yatima_core::position::{input_cid_of_encoding, Pos};
use yatima_core::print::{is_atom, print, print_name};
use yatima_core::pure::Pure;

fn var(n: &str, i: u64) -> Pure {
    Pure::Var(Pos::Nowhere, Name::new(n), i)
}

fn lam(n: &str, b: Pure) -> Pure {
    Pure::Lam(Pos::Nowhere, Name::new(n), Box::new(b))
}

fn app(f: Pure, a: Pure) -> Pure {
    Pure::App(Pos::Nowhere, Box::new(f), Box::new(a))
}

fn indices_below(t: &Pure, depth: u64) -> bool {
    match t {
        Pure::Var(_, _, i) => *i < depth,
        Pure::Lam(_, _, b) => indices_below(b, depth + 1),
        Pure::App(_, f, a) => indices_below(f, depth) && indices_below(a, depth),
    }
}

#[test]
fn anonymous_binder_prints_placeholder() {
    assert_eq!(print(false, &lam("", var("", 0))), "λ _ => _");
    assert_eq!(print_name(""), "_");
    assert_eq!(print_name("ab"), "ab");
}

#[test]
fn lambdas_merge_and_applications_spine() {
    let t = lam("f", lam("a", lam("b", app(app(var("f", 2), var("a", 1)), var("b", 0)))));
    assert_eq!(print(false, &t), "λ f a b => f a b");
    assert_eq!(print(true, &t), "λ f a b => f^2 a^1 b^0");
    let t = lam("x", app(lam("y", var("y", 0)), app(var("x", 0), var("x", 0))));
    assert_eq!(print(false, &t), "λ x => (λ y => y) (x x)");
    assert_eq!(print(true, &var("v", 1234)), "v^1234");
    assert!(is_atom(&var("v", 0)));
    assert!(!is_atom(&lam("v", var("v", 0))));
}

#[test]
fn debug_rendering_leaves_out_positions() {
    let t = app(lam("x", var("x", 0)), var("y", 10));
    assert_eq!(t.debug_string(), "App(Lam(\"x\", Var(\"x\", 0)), Var(\"y\", 10))");
}

#[test]
fn generated_terms_round_trip() {
    let mut g = quickcheck::Gen::new(10);
    for _ in 0..200 {
        let t = arbitrary_pure(&mut g, &Ctx::new(), 12);
        let text = print(false, &t);
        let cid = input_cid_of_encoding(&text.as_bytes().to_vec());
        let chars = source_chars(&text);
        let (back, end) = parse_telescope(cid, &Ctx::new(), &chars, 0).unwrap();
        assert_eq!(end, chars.len());
        assert!(back == t, "{}", text);
    }
}

#[test]
fn generated_terms_are_scoped() {
    let mut g = quickcheck::Gen::new(10);
    for _ in 0..200 {
        let t = arbitrary_pure(&mut g, &Ctx::new(), 12);
        assert!(indices_below(&t, 0));
    }
}

#[test]
fn generator_pieces() {
    let mut g = quickcheck::Gen::new(10);
    for _ in 0..50 {
        let r = gen_range(&mut g, 3, 7);
        assert!((3..7).contains(&r));
        assert_eq!(gen_range(&mut g, 5, 5), 5);
        let n = arbitrary_name(&mut g);
        let s = n.as_str();
        assert!(s.starts_with('_') && s.chars().count() <= 2);
        let c = next_case(&mut g, &vec![(0, Case::Lam), (5, Case::App)]);
        assert_eq!(c, Case::App);
    }
}

#[test]
fn drawn_values_select_exactly() {
    assert_eq!(range_from(17, 3, 7), 4);
    assert_eq!(range_from(17, 5, 5), 5);
    assert_eq!(range_from(0, 2, 9), 2);
    assert_eq!(name_from("12 abc").as_str(), "_a");
    assert_eq!(name_from("-+ 9").as_str(), "_");
    assert_eq!(name_from("éZq").as_str(), "_Z");
    let gens = vec![(3, Case::Lam), (0, Case::App), (2, Case::Var)];
    assert_eq!(case_for_weight(&gens, 1), Case::Lam);
    assert_eq!(case_for_weight(&gens, 3), Case::Lam);
    assert_eq!(case_for_weight(&gens, 4), Case::Var);
    assert_eq!(case_for_weight(&gens, 5), Case::Var);
    assert_eq!(productions(0), vec![(90, Case::Lam), (80, Case::App)]);
    assert_eq!(productions(45), vec![(45, Case::Lam), (0, Case::App), (100, Case::Var)]);
    let mut ctx = Ctx::new();
    ctx.push_front(Name::new("a"));
    ctx.push_front(Name::new("b"));
    ctx.push_front(Name::new("a"));
    assert!(var_at(&ctx, 2) == var("a", 0));
    assert!(var_at(&ctx, 1) == var("b", 1));
}

#[test]
fn generator_shapes_without_fuel() {
    let mut g = quickcheck::Gen::new(0);
    assert_eq!(arbitrary_name(&mut g).as_str(), "_");
    let t = arbitrary_pure(&mut g, &Ctx::new(), 0);
    assert!(t == lam("_", var("_", 0)));
    let mut ctx = Ctx::new();
    ctx.push_front(Name::new("z"));
    let mut g = quickcheck::Gen::new(10);
    assert!(arbitrary_pure(&mut g, &ctx, 0) == var("z", 0));
}

#[test]
fn generated_lambdas_round_trip_through_parse_pure() {
    let mut g = quickcheck::Gen::new(10);
    for _ in 0..200 {
        let t = arbitrary_pure(&mut g, &Ctx::new(), 12);
        if let Pure::Lam(..) = t {
            let text = print(false, &t);
            let cid = input_cid_of_encoding(&text.as_bytes().to_vec());
            let chars = source_chars(&text);
            let (back, end) = parse_pure(cid, &Ctx::new(), &chars, 0).unwrap();
            assert_eq!(end, chars.len());
            assert!(back == t, "{}", text);
        }
    }
}
