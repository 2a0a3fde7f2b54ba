use state_shift::annotation::{extract_macro_args, Attribute};
use state_shift::body::{modify_struct_in_expr, patch_body, render_body, state_value_text, Expr, FieldInit, Stmt};
use state_shift::declaration::{parse_type_state_args, render_tracked_struct, type_state_inner};
use state_shift::error::ExpandError;
use state_shift::expand::{
    generate_impl_block_for_method_based_on_require_args, render_expansion, states_inner,
    switch_to_inner, Operation, TrackedType,
};
use state_shift::registry::{build_registry, render_registry};
use state_shift::slots::{output_bindings, resolve_slot_bindings, Binding};
use state_shift::text::{join_strings, render_coded, render_decimal};
use state_shift::tokens::{is_single_letter, parse_decimal, parse_symbol_list, Token};
use state_shift::types::{render_type, rewrite_type, TypeExpr};

fn ident(s: &str) -> Token {
    Token::Ident(s.to_string())
}

fn comma() -> Token {
    Token::Punct(',')
}

fn symbols(names: &[&str]) -> Vec<Token> {
    let mut ts = Vec::new();
    for (i, n) in names.iter().enumerate() {
        if i > 0 {
            ts.push(comma());
        }
        ts.push(ident(n));
    }
    ts
}

fn strings(names: &[&str]) -> Vec<String> {
    names.iter().map(|s| s.to_string()).collect()
}

fn attr(name: &str, args: &[&str]) -> Attribute {
    Attribute {
        name: name.to_string(),
        args: symbols(args),
        text: format!("#[{}({})]", name, args.join(", ")),
    }
}

fn named(name: &str, args: Vec<TypeExpr>) -> TypeExpr {
    TypeExpr::Named { name: name.to_string(), args, path: String::new() }
}

fn player_builder(slots: usize) -> TrackedType {
    TrackedType {
        name: "PlayerBuilder".to_string(),
        params: vec![],
        args: vec![],
        where_preds: vec![],
        states: strings(&["Initial", "RaceSet", "LevelSet", "SkillSlotsSet", "SpellSlotsSet", "ItemsSet"]),
        defaults: vec!["Initial".to_string(); slots],
    }
}

fn builder_expr(fields: &[(&str, &str)]) -> Expr {
    Expr::Struct {
        path: "PlayerBuilder".to_string(),
        fields: fields
            .iter()
            .map(|(n, v)| FieldInit { name: n.to_string(), value: v.to_string() })
            .collect(),
    }
}

fn operation(name: &str, attrs: Vec<Attribute>, inputs: &str, output: Option<TypeExpr>, body: Vec<Stmt>) -> Operation {
    Operation {
        name: name.to_string(),
        attrs,
        vis: String::new(),
        generics: String::new(),
        inputs: inputs.to_string(),
        output,
        fn_where: String::new(),
        body,
    }
}

const PHANTOM3: &str =
    "(::core::marker::PhantomData, ::core::marker::PhantomData, ::core::marker::PhantomData)";

fn binding_names(bs: &[Binding]) -> Vec<String> {
    bs.iter()
        .map(|b| match b {
            Binding::Marker(s) => format!("marker {}", s),
            Binding::Placeholder(p) => format!("free {}", p),
        })
        .collect()
}

#[test]
fn pass_through_transition() {
    let t = player_builder(3);
    let op = operation(
        "set_race",
        vec![attr("require", &["Initial", "B", "C"]), attr("switch_to", &["RaceSet", "B", "C"])],
        "self, race: Race",
        Some(named("PlayerBuilder", vec![])),
        vec![Stmt::Expr { expr: builder_expr(&[("race", "Some(race)")]), semi: false }],
    );
    let r = generate_impl_block_for_method_based_on_require_args(&t, op).unwrap().unwrap();
    assert_eq!(r.placeholders, strings(&["B", "C"]));
    assert_eq!(binding_names(&r.self_bindings), strings(&["marker Initial", "free B", "free C"]));
    assert_eq!(binding_names(&r.out_bindings), strings(&["marker RaceSet", "free B", "free C"]));
    assert_eq!(render_type(&r.return_type), "PlayerBuilder<PlayerBuilderRaceSet_13, B, C>");
    assert_eq!(
        r.text,
        format!(
            "impl<B, C> PlayerBuilder<PlayerBuilderInitial_13, B, C> where B: SealerPlayerBuilder, C: SealerPlayerBuilder {{ fn set_race(self, race: Race) -> PlayerBuilder<PlayerBuilderRaceSet_13, B, C> {{ PlayerBuilder {{ race: Some(race), _state: {} }} }} }}",
            PHANTOM3
        )
    );
    assert!(r.attrs.is_empty());
}

#[test]
fn state_independent_operation() {
    let t = player_builder(3);
    let op = operation(
        "say_hi",
        vec![attr("require", &["A", "B", "C"])],
        "self",
        Some(named("PlayerBuilder", vec![])),
        vec![Stmt::Verbatim("self".to_string())],
    );
    let r = generate_impl_block_for_method_based_on_require_args(&t, op).unwrap().unwrap();
    assert_eq!(r.placeholders, strings(&["A", "B", "C"]));
    assert_eq!(binding_names(&r.self_bindings), binding_names(&r.out_bindings));
    assert_eq!(
        r.text,
        "impl<A, B, C> PlayerBuilder<A, B, C> where A: SealerPlayerBuilder, B: SealerPlayerBuilder, C: SealerPlayerBuilder { fn say_hi(self) -> PlayerBuilder<A, B, C> { self } }"
    );
}

#[test]
fn terminal_operation() {
    let t = player_builder(3);
    let op = operation(
        "build",
        vec![attr("require", &["SpellSlotsSet", "LevelSet", "SkillSlotsSet"])],
        "self",
        Some(named("Player", vec![])),
        vec![Stmt::Expr {
            expr: Expr::Struct {
                path: "Player".to_string(),
                fields: vec![FieldInit { name: "race".to_string(), value: "self.race.unwrap()".to_string() }],
            },
            semi: false,
        }],
    );
    let r = generate_impl_block_for_method_based_on_require_args(&t, op).unwrap().unwrap();
    assert!(r.placeholders.is_empty());
    assert_eq!(render_type(&r.return_type), "Player");
    assert_eq!(
        r.text,
        "impl PlayerBuilder<PlayerBuilderSpellSlotsSet_13, PlayerBuilderLevelSet_13, PlayerBuilderSkillSlotsSet_13> { fn build(self) -> Player { Player { race: self.race.unwrap() } } }"
    );
}

#[test]
fn wrapped_return_type() {
    let t = player_builder(1);
    let op = operation(
        "set_items_might_fail",
        vec![attr("require", &["LevelSet"]), attr("switch_to", &["ItemsSet"])],
        "self, items: Vec<u8>",
        Some(named("Option", vec![named("PlayerBuilder", vec![])])),
        vec![
            Stmt::Verbatim("if items.is_empty() { return None; }".to_string()),
            Stmt::Expr {
                expr: Expr::Call {
                    func: "Some".to_string(),
                    args: vec![builder_expr(&[("items", "Some(items)")])],
                },
                semi: false,
            },
        ],
    );
    let r = generate_impl_block_for_method_based_on_require_args(&t, op).unwrap().unwrap();
    assert_eq!(render_type(&r.return_type), "Option<PlayerBuilder<PlayerBuilderItemsSet_13>>");
    assert_eq!(
        render_body(&r.body),
        "if items.is_empty() { return None; } Some(PlayerBuilder { items: Some(items), _state: ::core::marker::PhantomData })"
    );
}

#[test]
fn markers_are_namespaced_by_type() {
    let first = build_registry("PlayerBuilder1", &strings(&["Initial"]));
    let second = build_registry("PlayerBuilder2", &strings(&["Initial"]));
    assert_eq!(first.markers, strings(&["PlayerBuilder1Initial_14"]));
    assert_eq!(second.markers, strings(&["PlayerBuilder2Initial_14"]));
    assert_ne!(first.markers, second.markers);
    assert_ne!(first.boundary, second.boundary);
    assert_ne!(first.sealing_module, second.sealing_module);
}

#[test]
fn closedness_holds_on_shared_state_names() {
    let a = build_registry("Door", &strings(&["Open", "Closed"]));
    let b = build_registry("Window", &strings(&["Open", "Closed"]));
    for m in &a.markers {
        assert!(!b.markers.contains(m));
    }
    assert_eq!(a.boundary, "SealerDoor");
    assert_eq!(b.boundary, "SealerWindow");
}

#[test]
fn registry_text_uses_snake_case_module() {
    let r = build_registry("MethodBuilder", &strings(&["Unset", "ASet"]));
    assert_eq!(r.sealing_module, "sealed_method_builder_MethodBuilder_14");
    assert_eq!(
        render_registry(&r),
        "mod sealed_method_builder_MethodBuilder_14 { pub trait Sealed {} }\n\
pub trait SealerMethodBuilder: sealed_method_builder_MethodBuilder_14::Sealed {}\n\
pub struct MethodBuilderUnset_13;\n\
pub struct MethodBuilderASet_13;\n\
impl sealed_method_builder_MethodBuilder_14::Sealed for MethodBuilderUnset_13 {}\n\
impl sealed_method_builder_MethodBuilder_14::Sealed for MethodBuilderASet_13 {}\n\
impl SealerMethodBuilder for MethodBuilderUnset_13 {}\n\
impl SealerMethodBuilder for MethodBuilderASet_13 {}"
    );
}

fn sample_ops() -> Vec<Operation> {
    vec![
        operation(
            "new",
            vec![attr("require", &["Initial"])],
            "",
            Some(named("PlayerBuilder", vec![])),
            vec![Stmt::Expr { expr: builder_expr(&[("race", "None")]), semi: false }],
        ),
        operation("broken", vec![attr("require", &["Initial", "Initial"])], "self", None, vec![]),
        operation(
            "set_race",
            vec![attr("require", &["Initial"]), attr("switch_to", &["RaceSet"])],
            "self, race: Race",
            Some(named("PlayerBuilder", vec![])),
            vec![Stmt::Expr { expr: builder_expr(&[("race", "Some(race)")]), semi: false }],
        ),
    ]
}

#[test]
fn expansion_is_deterministic() {
    let t = player_builder(1);
    let first = render_expansion(&states_inner(&t, sample_ops()));
    let second = render_expansion(&states_inner(&t, sample_ops()));
    assert_eq!(first, second);
}

#[test]
fn failing_operation_leaves_siblings_alone() {
    let t = player_builder(1);
    let e = states_inner(&t, sample_ops());
    assert_eq!(e.impls.len(), 3);
    assert!(e.impls[0].is_ok());
    assert!(matches!(
        &e.impls[1],
        Err(ExpandError::ArityMismatch { operation, expected: 1, found: 2 }) if operation == "broken"
    ));
    assert!(e.impls[2].is_ok());
    let text = render_expansion(&e);
    assert!(text.starts_with(&render_registry(&e.registry)));
    assert!(text.ends_with(
        "impl PlayerBuilder<PlayerBuilderInitial_13> { fn set_race(self, race: Race) -> PlayerBuilder<PlayerBuilderRaceSet_13> { PlayerBuilder { race: Some(race), _state: ::core::marker::PhantomData } } }"
    ));
}

#[test]
fn malformed_precondition_is_reported() {
    let t = player_builder(1);
    let mut a = attr("require", &["Initial"]);
    a.args = vec![ident("Initial"), ident("RaceSet")];
    let op = operation("new", vec![a], "", Some(named("PlayerBuilder", vec![])), vec![]);
    let r = generate_impl_block_for_method_based_on_require_args(&t, op);
    assert!(matches!(r, Err(ExpandError::MalformedAnnotation { annotation, declaration }) if annotation == "require" && declaration == "new"));
}

#[test]
fn malformed_postcondition_is_reported() {
    let t = player_builder(1);
    let mut post = attr("switch_to", &["RaceSet"]);
    post.args = vec![comma()];
    let op = operation("set_race", vec![attr("require", &["Initial"]), post], "self", Some(named("PlayerBuilder", vec![])), vec![]);
    let r = generate_impl_block_for_method_based_on_require_args(&t, op);
    assert!(matches!(r, Err(ExpandError::MalformedAnnotation { annotation, declaration }) if annotation == "switch_to" && declaration == "set_race"));
}

#[test]
fn unknown_marker_is_reported() {
    let t = player_builder(2);
    let op = operation(
        "set_race",
        vec![attr("require", &["Initial", "B"]), attr("switch_to", &["RaceSett", "B"])],
        "self",
        Some(named("PlayerBuilder", vec![])),
        vec![],
    );
    let r = generate_impl_block_for_method_based_on_require_args(&t, op);
    assert!(matches!(
        r,
        Err(ExpandError::UnknownMarker { operation, marker }) if operation == "set_race" && marker == "RaceSett"
    ));
}

#[test]
fn missing_return_type_is_reported() {
    let t = player_builder(1);
    let op = operation("set_race", vec![attr("require", &["Initial"])], "self", None, vec![]);
    let r = generate_impl_block_for_method_based_on_require_args(&t, op);
    assert!(matches!(r, Err(ExpandError::UnsupportedShape { operation }) if operation == "set_race"));
    let op = operation(
        "set_race",
        vec![attr("require", &["Initial"])],
        "self",
        Some(TypeExpr::Verbatim("(u8, u8)".to_string())),
        vec![],
    );
    let r = generate_impl_block_for_method_based_on_require_args(&t, op);
    assert!(matches!(r, Err(ExpandError::UnsupportedShape { .. })));
}

#[test]
fn method_without_precondition_is_left_as_written() {
    let t = player_builder(2);
    let op = operation(
        "print_race",
        vec![attr("inline", &[])],
        "&self",
        None,
        vec![Stmt::Verbatim("println!(\"{:?}\", self.race);".to_string())],
    );
    let r = generate_impl_block_for_method_based_on_require_args(&t, op).unwrap();
    assert!(r.is_none());
    let e = states_inner(&t, vec![operation("print_race", vec![], "&self", None, vec![])]);
    assert!(matches!(e.impls[0], Ok(None)));
    assert_eq!(render_expansion(&e), render_registry(&e.registry));
}

#[test]
fn other_attributes_are_kept() {
    let t = player_builder(2);
    let op = operation(
        "new",
        vec![attr("inline", &[]), attr("require", &["Initial", "Initial"]), attr("switch_to", &["RaceSet", "Initial"])],
        "",
        Some(named("PlayerBuilder", vec![])),
        vec![],
    );
    let r = generate_impl_block_for_method_based_on_require_args(&t, op).unwrap().unwrap();
    assert_eq!(r.attrs.len(), 1);
    assert_eq!(r.attrs[0].name, "inline");
    assert!(r.text.contains("{ #[inline()] fn new() -> PlayerBuilder<PlayerBuilderRaceSet_13, PlayerBuilderInitial_13> {  } }"));
}

#[test]
fn repeated_state_gives_one_marker() {
    let r = build_registry("Door", &strings(&["Open", "Closed", "Open"]));
    assert_eq!(r.markers, strings(&["DoorOpen_4", "DoorClosed_4"]));
}

#[test]
fn look_alike_names_stay_apart() {
    let a = build_registry("Player", &strings(&["BuilderInitial"]));
    let b = build_registry("PlayerBuilder", &strings(&["Initial"]));
    assert_ne!(a.markers[0], b.markers[0]);
    let c = build_registry("FooBar", &strings(&["S"]));
    let d = build_registry("Foo_Bar", &strings(&["S"]));
    assert_ne!(c.sealing_module, d.sealing_module);
}

#[test]
fn tuples_references_and_arrays_are_rewritten() {
    let ty = named(
        "Result",
        vec![
            TypeExpr::Tuple(vec![named("PlayerBuilder", vec![]), named("u8", vec![])]),
            TypeExpr::Ref {
                prefix: "&'a ".to_string(),
                inner: Box::new(TypeExpr::Array {
                    elem: Box::new(named("PlayerBuilder", vec![])),
                    len: String::new(),
                }),
            },
        ],
    );
    let r = rewrite_type(&ty, "PlayerBuilder", &strings(&["X"]));
    assert_eq!(render_type(&r), "Result<(PlayerBuilder<X>, u8), &'a [PlayerBuilder<X>]>");
    let single = TypeExpr::Tuple(vec![TypeExpr::Array { elem: Box::new(named("u8", vec![])), len: "4".to_string() }]);
    assert_eq!(render_type(&single), "([u8; 4],)");
}

#[test]
fn placeholders_avoid_the_types_own_parameters() {
    let (bindings, placeholders) = resolve_slot_bindings(&strings(&["T", "Initial", "A"]), &strings(&["'a", "T"]));
    assert_eq!(placeholders, strings(&["T__", "A"]));
    assert_eq!(binding_names(&bindings), strings(&["free T__", "marker Initial", "free A"]));
    let (_, twice) = resolve_slot_bindings(&strings(&["A", "A"]), &vec![]);
    assert_eq!(twice, strings(&["A", "A_"]));
}

#[test]
fn generic_tracked_type_keeps_its_parameters() {
    let mut t = player_builder(1);
    t.params = strings(&["'a", "T"]);
    t.args = strings(&["'a", "T"]);
    t.where_preds = strings(&["T: Debug"]);
    let op = operation(
        "say_hi",
        vec![attr("require", &["A"])],
        "self",
        Some(named("PlayerBuilder", vec![TypeExpr::Verbatim("'a".to_string()), named("T", vec![])])),
        vec![Stmt::Verbatim("self".to_string())],
    );
    let r = generate_impl_block_for_method_based_on_require_args(&t, op).unwrap().unwrap();
    assert_eq!(
        r.text,
        "impl<'a, T, A> PlayerBuilder<'a, T, A> where T: Debug, A: SealerPlayerBuilder { fn say_hi(self) -> PlayerBuilder<'a, T, A> { self } }"
    );
}

#[test]
fn output_bindings_pin_or_pass() {
    let input = vec![Binding::Marker("Initial".to_string()), Binding::Placeholder("B".to_string())];
    let out = output_bindings(&Some(strings(&["RaceSet", "B"])), &input);
    assert_eq!(binding_names(&out), strings(&["marker RaceSet", "free B"]));
    let same = output_bindings(&None, &input);
    assert_eq!(binding_names(&same), strings(&["marker Initial", "free B"]));
}

#[test]
fn switch_to_rewrites_nested_occurrences() {
    let ty = named("Result", vec![named("Vec", vec![named("PlayerBuilder", vec![])]), named("String", vec![])]);
    let r = switch_to_inner(&Some(ty), &strings(&["X", "Y"]), "PlayerBuilder", &"f".to_string()).unwrap();
    assert_eq!(render_type(&r), "Result<Vec<PlayerBuilder<X, Y>>, String>");
    let other = rewrite_type(&named("Other", vec![]), "PlayerBuilder", &strings(&["X"]));
    assert_eq!(render_type(&other), "Other");
}

#[test]
fn body_patching_reaches_into_calls() {
    let e = Expr::Call {
        func: "Ok".to_string(),
        args: vec![Expr::Call { func: "Some".to_string(), args: vec![builder_expr(&[])] }],
    };
    let patched = modify_struct_in_expr(&e, "PlayerBuilder", "P");
    let body = vec![Stmt::Expr { expr: patched, semi: true }];
    assert_eq!(render_body(&body), "Ok(Some(PlayerBuilder { _state: P }));");
    let other = vec![Stmt::Expr { expr: builder_expr(&[("a", "1")]), semi: false }];
    let untouched = patch_body(&other, "Player", "P");
    assert_eq!(render_body(&untouched), "PlayerBuilder { a: 1 }");
}

#[test]
fn state_value_for_one_and_many_slots() {
    assert_eq!(state_value_text(1), "::core::marker::PhantomData");
    assert_eq!(state_value_text(3), PHANTOM3);
}

#[test]
fn extract_removes_only_the_first_match() {
    let mut attrs = vec![attr("doc", &[]), attr("require", &["A"]), attr("require", &["B"])];
    let r = extract_macro_args(&mut attrs, "require", "new").unwrap();
    assert_eq!(r, Some(strings(&["A"])));
    assert_eq!(attrs.len(), 2);
    assert_eq!(attrs[1].args.len(), 1);
    let none = extract_macro_args(&mut attrs, "switch_to", "new").unwrap();
    assert_eq!(none, None);
    assert_eq!(attrs.len(), 2);
}

#[test]
fn symbol_lists_parse() {
    assert_eq!(parse_symbol_list(&symbols(&["A", "Bc"])), Some(strings(&["A", "Bc"])));
    let mut trailing = symbols(&["A"]);
    trailing.push(comma());
    assert_eq!(parse_symbol_list(&trailing), Some(strings(&["A"])));
    assert_eq!(parse_symbol_list(&vec![]), Some(vec![]));
    assert_eq!(parse_symbol_list(&vec![comma()]), None);
    assert_eq!(parse_symbol_list(&vec![ident("A"), Token::Punct(';'), ident("B")]), None);
}

#[test]
fn single_letters_are_free() {
    assert!(is_single_letter("B"));
    assert!(!is_single_letter("Be"));
    assert!(!is_single_letter(""));
}

#[test]
fn decimals_parse_and_render() {
    assert_eq!(parse_decimal("3"), Some(3));
    assert_eq!(parse_decimal("042"), Some(42));
    assert_eq!(parse_decimal("3u8"), None);
    assert_eq!(parse_decimal(""), None);
    assert_eq!(parse_decimal("99999999999999999999999"), None);
    assert_eq!(render_decimal(0), "0");
    assert_eq!(render_decimal(1207), "1207");
}

#[test]
fn type_state_arguments_in_both_forms() {
    let count_form = vec![
        ident("state_slots"),
        Token::Punct('='),
        Token::Literal("3".to_string()),
        comma(),
        ident("default_state"),
        Token::Punct('='),
        ident("Initial"),
    ];
    let c = parse_type_state_args(&count_form, "PlayerBuilder").unwrap();
    assert!(c.states.is_none());
    assert_eq!(c.defaults, strings(&["Initial", "Initial", "Initial"]));
    let list_form = vec![
        ident("states"),
        Token::Punct('='),
        Token::Group(symbols(&["Initial", "RaceSet"])),
        comma(),
        ident("slots"),
        Token::Punct('='),
        Token::Group(symbols(&["Initial"])),
    ];
    let c = parse_type_state_args(&list_form, "PlayerBuilder").unwrap();
    assert_eq!(c.states, Some(strings(&["Initial", "RaceSet"])));
    assert_eq!(c.defaults, strings(&["Initial"]));
    let mut zero = count_form;
    zero[2] = Token::Literal("0".to_string());
    assert!(matches!(
        parse_type_state_args(&zero, "PlayerBuilder"),
        Err(ExpandError::MalformedAnnotation { annotation, declaration }) if annotation == "type_state" && declaration == "PlayerBuilder"
    ));
}

#[test]
fn tracked_struct_declaration() {
    let mut t = player_builder(2);
    t.params = strings(&["T"]);
    let text = render_tracked_struct(&t, "pub ", &strings(&["#[derive(Debug)]"]), &strings(&["race: Option<Race>"]));
    assert_eq!(
        text,
        "#[derive(Debug)] #[allow(clippy::type_complexity)] pub struct PlayerBuilder<T, PlayerBuilderState1 = PlayerBuilderInitial_13, PlayerBuilderState2 = PlayerBuilderInitial_13> where PlayerBuilderState1: SealerPlayerBuilder, PlayerBuilderState2: SealerPlayerBuilder { race: Option<Race>, _state: (::core::marker::PhantomData<fn() -> PlayerBuilderState1>, ::core::marker::PhantomData<fn() -> PlayerBuilderState2>), }"
    );
}

#[test]
fn join_separates_neighbours() {
    assert_eq!(join_strings(&strings(&["a", "b", "c"]), ", "), "a, b, c");
    assert_eq!(join_strings(&vec![], ", "), "");
}

#[test]
fn binding_vectors_match_arity() {
    for slots in 1..4 {
        let t = player_builder(slots);
        let pre = ["A", "Initial", "C"];
        let op = operation(
            "say_hi",
            vec![attr("require", &pre[..slots])],
            "self",
            Some(named("PlayerBuilder", vec![])),
            vec![],
        );
        let r = generate_impl_block_for_method_based_on_require_args(&t, op).unwrap().unwrap();
        assert_eq!(r.self_bindings.len(), slots);
        assert_eq!(r.out_bindings.len(), slots);
    }
}

#[test]
fn type_state_emits_registry_then_struct() {
    let mut t = player_builder(1);
    t.states = strings(&["Initial"]);
    let text = type_state_inner(&t, "", &vec![], &strings(&["race: Option<Race>"]));
    let registry = render_registry(&build_registry("PlayerBuilder", &strings(&["Initial"])));
    assert_eq!(
        text,
        format!(
            "{}\n#[allow(clippy::type_complexity)] struct PlayerBuilder<PlayerBuilderState1 = PlayerBuilderInitial_13> where PlayerBuilderState1: SealerPlayerBuilder {{ race: Option<Race>, _state: (::core::marker::PhantomData<fn() -> PlayerBuilderState1>), }}",
            registry
        )
    );
}

#[test]
fn coded_names_carry_the_first_length() {
    assert_eq!(render_coded("Door", "Open"), "DoorOpen_4");
    assert_eq!(render_coded("", "x"), "x_0");
}

#[test]
fn qualified_paths_match_by_last_segment() {
    let ty = TypeExpr::Named { name: "PlayerBuilder".to_string(), args: vec![], path: "crate::game::".to_string() };
    let r = rewrite_type(&ty, "PlayerBuilder", &strings(&["X"]));
    assert_eq!(render_type(&r), "crate::game::PlayerBuilder<X>");
}
