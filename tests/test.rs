use anchor_modular_program::{
    build_relay, check_secondary, generate_relays, merge_program, parse_modules, relay_name, render_item,
    render_relay, resolve_location, EntryPoint, ForwardMode, MergeError, ModuleItem, ModuleSpec, Param,
    PrimaryModule, ProgramDescriptor, Relay, RelayBody,
};

const ARGS: &str = r#"modules=[
    bar::instructions,
    {
        module: foo,
        file_path: "src/foo/mod.rs",
        prefix: "oof",
        wrapper: foo_wrapper
    }
]"#;

fn strings(v: &[&str]) -> Vec<String> {
    v.iter().map(|s| s.to_string()).collect()
}

fn param(pat: &str, ty: &str, mutable: bool) -> Param {
    Param { pat: pat.to_string(), ty: ty.to_string(), mutable }
}

fn foo_instr() -> EntryPoint {
    EntryPoint {
        name: "instr".to_string(),
        attrs: strings(&["#[instruction(discriminator = &[1,2,3,4,5,6,7,8])]"]),
        generics: String::new(),
        params: vec![param("ctx", "Context<FooContext>", false), param("n", "u64", false)],
        ret: "Result<()>".to_string(),
        accounts: "FooContext".to_string(),
    }
}

fn bar_instr() -> EntryPoint {
    EntryPoint {
        name: "instr".to_string(),
        attrs: vec![],
        generics: "<'info>".to_string(),
        params: vec![
            param("ctx", "Context<'_, '_, '_, 'info, BarContext<'info>>", false),
            param("n", "u64", false),
        ],
        ret: "Result<()>".to_string(),
        accounts: "BarContext".to_string(),
    }
}

fn programs() -> Vec<ProgramDescriptor> {
    vec![
        ProgramDescriptor { entries: vec![bar_instr()], has_fallback: false },
        ProgramDescriptor { entries: vec![foo_instr()], has_fallback: false },
    ]
}

fn bare(path: &[&str]) -> ModuleSpec {
    ModuleSpec {
        module: strings(path),
        module_rooted: false,
        prefix: None,
        file_path: None,
        wrapper: None,
        wrapper_rooted: false,
    }
}

#[test]
fn test_foo_ok() {
    let specs = parse_modules(ARGS).unwrap();
    let relay = build_relay(&specs[1], &foo_instr(), ForwardMode::DefaultWrapper);
    assert_eq!(relay.name, "oof_instr");
    // The discriminator attribute reaches the relay unchanged.
    assert_eq!(relay.attrs, strings(&["#[instruction(discriminator = &[1,2,3,4,5,6,7,8])]"]));
    assert_eq!(
        render_relay(&relay),
        "#[instruction(discriminator = &[1,2,3,4,5,6,7,8])]\n\
         pub fn oof_instr<'a, 'b, 'c, 'info>(ctx: Context<'a, 'b, 'c, 'info, FooContext<'info>>, n: u64) \
         -> Result<()> where 'c: 'info {\n    \
         foo_wrapper!(foo::instr, ctx: Context<'a, 'b, 'c, 'info, FooContext<'info>>, n: u64)\n}"
    );
}

#[test]
fn test_bar_ok() {
    let specs = parse_modules(ARGS).unwrap();
    let relay = build_relay(&specs[0], &bar_instr(), ForwardMode::DefaultWrapper);
    assert_eq!(relay.name, "bar_instr");
    assert_eq!(relay.target, strings(&["bar", "instructions", "instr"]));
    assert_eq!(
        render_relay(&relay),
        "pub fn bar_instr<'a, 'b, 'c, 'info>(ctx: Context<'a, 'b, 'c, 'info, BarContext<'info>>, n: u64) \
         -> Result<()> where 'c: 'info {\n    \
         _modular_context_default_wrapper!(bar::instructions::instr, ctx: Context<'a, 'b, 'c, 'info, BarContext<'info>>, n: u64)\n}"
    );
}

#[test]
fn parses_the_module_list() {
    let specs = parse_modules(ARGS).unwrap();
    assert_eq!(specs.len(), 2);
    assert_eq!(specs[0].module, strings(&["bar", "instructions"]));
    assert_eq!(specs[0].prefix, None);
    assert_eq!(specs[0].file_path, None);
    assert_eq!(specs[0].wrapper, None);
    assert_eq!(specs[1].module, strings(&["foo"]));
    assert_eq!(specs[1].prefix, Some("oof".to_string()));
    assert_eq!(specs[1].file_path, Some("src/foo/mod.rs".to_string()));
    assert_eq!(specs[1].wrapper, Some(strings(&["foo_wrapper"])));
}

#[test]
fn parses_token_spacing_and_trailing_commas() {
    let specs = parse_modules("modules = [ a :: b , { module : c , prefix : \"\" , } , ]").unwrap();
    assert_eq!(specs.len(), 2);
    assert_eq!(specs[0].module, strings(&["a", "b"]));
    assert_eq!(specs[1].module, strings(&["c"]));
    assert_eq!(specs[1].prefix, Some(String::new()));
    assert_eq!(parse_modules("modules=[]").unwrap().len(), 0);
}

#[test]
fn parses_string_escapes() {
    let specs = parse_modules(r#"modules=[{module: m, file_path: "a\"b\\c\n"}]"#).unwrap();
    assert_eq!(specs[0].file_path, Some("a\"b\\c\n".to_string()));
}

#[test]
fn parses_unicode_and_hex_escapes() {
    let specs = parse_modules(r#"modules=[{module: m, prefix: "\x41\u{e9}", file_path: "a\
        b"}]"#)
    .unwrap();
    assert_eq!(specs[0].prefix, Some("A\u{e9}".to_string()));
    assert_eq!(specs[0].file_path, Some("ab".to_string()));
}

#[test]
fn parses_raw_strings() {
    let specs = parse_modules(r##"modules=[{module: m, prefix: r"a\b", file_path: r#"say "hi""#}]"##).unwrap();
    assert_eq!(specs[0].prefix, Some("a\\b".to_string()));
    assert_eq!(specs[0].file_path, Some("say \"hi\"".to_string()));
}

#[test]
fn parses_raw_and_non_ascii_identifiers() {
    let specs = parse_modules("modules=[r#type::instr, m\u{f3}dulo, crate::a]").unwrap();
    assert_eq!(specs[0].module, strings(&["r#type", "instr"]));
    assert_eq!(specs[1].module, strings(&["m\u{f3}dulo"]));
    assert_eq!(specs[2].module, strings(&["crate", "a"]));
    assert_eq!(relay_name(&specs[1], "go"), "m\u{f3}dulo_go");
}

#[test]
fn keeps_a_leading_path_separator() {
    let specs = parse_modules("modules=[{module: ::ext::ixs, wrapper: ::ext::wrap}]").unwrap();
    assert_eq!(specs[0].module, strings(&["ext", "ixs"]));
    assert!(specs[0].module_rooted);
    assert!(specs[0].wrapper_rooted);
    assert_eq!(specs[0].get_file_path(), "./src/ext/ixs.rs");
    let relay = build_relay(&specs[0], &bar_instr(), ForwardMode::Direct);
    assert_eq!(relay.name, "ext_instr");
    assert!(render_relay(&relay).contains("::ext::wrap!(::ext::ixs::instr, ctx: "));
    let plain = parse_modules("modules=[{module: ext}]").unwrap();
    assert!(!plain[0].module_rooted);
}

#[test]
fn rejects_keywords_as_path_segments() {
    assert_eq!(parse_modules("modules=[fn]").unwrap_err(), MergeError::Syntax { pos: 9 });
    assert_eq!(parse_modules("modules=[a::fn]").unwrap_err(), MergeError::Syntax { pos: 12 });
}

#[test]
fn rejects_a_list_not_named_modules() {
    assert_eq!(parse_modules("mods=[a]").unwrap_err(), MergeError::ExpectedModules);
}

#[test]
fn rejects_malformed_lists() {
    assert_eq!(parse_modules("modules [a]").unwrap_err(), MergeError::Syntax { pos: 8 });
    assert_eq!(parse_modules("modules=[a b]").unwrap_err(), MergeError::Syntax { pos: 11 });
    assert_eq!(parse_modules("modules=[a] x").unwrap_err(), MergeError::Syntax { pos: 12 });
    assert_eq!(parse_modules("modules=[{file_path: x}]").unwrap_err(), MergeError::Syntax { pos: 21 });
    assert_eq!(parse_modules("modules=[{module: m, prefix: \"x}]").unwrap_err(), MergeError::Syntax { pos: 29 });
    assert_eq!(parse_modules("modules=[{module: m, prefix: \"\\q\"}]").unwrap_err(), MergeError::Syntax { pos: 29 });
    assert_eq!(parse_modules("").unwrap_err(), MergeError::Syntax { pos: 0 });
}

#[test]
fn rejects_unknown_fields() {
    assert_eq!(parse_modules("modules=[{module: m, macro: w}]").unwrap_err(), MergeError::UnknownField);
}

#[test]
fn rejects_duplicate_fields() {
    assert_eq!(
        parse_modules("modules=[{module: m, prefix: \"a\", prefix: \"b\"}]").unwrap_err(),
        MergeError::DuplicateField
    );
    assert_eq!(parse_modules("modules=[{module: m, module: n}]").unwrap_err(), MergeError::DuplicateField);
}

#[test]
fn rejects_entries_without_module() {
    assert_eq!(parse_modules("modules=[{prefix: \"p\"}]").unwrap_err(), MergeError::MissingRequiredField);
    assert_eq!(parse_modules("modules=[{}]").unwrap_err(), MergeError::MissingRequiredField);
    let fields = vec![anchor_modular_program::Field::Module(false, strings(&["a", ""]))];
    assert_eq!(ModuleSpec::from_fields(fields).unwrap_err(), MergeError::MissingRequiredField);
}

#[test]
fn names_relays_with_an_explicit_prefix() {
    let mut spec = bare(&["foo", "instructions"]);
    spec.prefix = Some("pre".to_string());
    assert_eq!(relay_name(&spec, "do_thing"), "pre_do_thing");
}

#[test]
fn names_relays_with_an_empty_prefix() {
    let mut spec = bare(&["foo", "instructions"]);
    spec.prefix = Some(String::new());
    assert_eq!(relay_name(&spec, "do_thing"), "do_thing");
}

#[test]
fn names_relays_with_the_first_segment() {
    assert_eq!(relay_name(&bare(&["foo", "instructions"]), "do_thing"), "foo_do_thing");
}

#[test]
fn resolves_the_conventional_file() {
    let spec = bare(&["foo", "instructions"]);
    assert_eq!(spec.get_file_path(), "./src/foo/instructions.rs");
    assert_eq!(resolve_location("/r", &spec), "/r/./src/foo/instructions.rs");
}

#[test]
fn resolves_an_explicit_file() {
    let mut spec = bare(&["foo", "instructions"]);
    spec.file_path = Some("src/foo/mod.rs".to_string());
    assert_eq!(spec.get_file_path(), "src/foo/mod.rs");
    assert_eq!(resolve_location("/r", &spec), "/r/src/foo/mod.rs");
}

#[test]
fn normalizes_the_signature() {
    let ix = EntryPoint {
        name: "go".to_string(),
        attrs: vec![],
        generics: String::new(),
        params: vec![param("ctx", "Context<Acc>", true), param("x", "u8", true), param("y", "u16", false)],
        ret: String::new(),
        accounts: "Acc".to_string(),
    };
    let relay = build_relay(&bare(&["m"]), &ix, ForwardMode::Direct);
    assert_eq!(relay.generics, "<'a, 'b, 'c, 'info>");
    assert!(relay.params.iter().all(|p| !p.mutable));
    assert_eq!(relay.params[0].ty, "Context<'a, 'b, 'c, 'info, Acc<'info>>");
    assert_eq!(relay.params[1].ty, "u8");
    assert_eq!(relay.params[2].ty, "u16");
    assert_eq!(
        render_relay(&relay),
        "pub fn m_go<'a, 'b, 'c, 'info>(ctx: Context<'a, 'b, 'c, 'info, Acc<'info>>, x: u8, y: u16) \
         where 'c: 'info {\n    m::go(ctx, x, y)\n}"
    );
}

#[test]
fn forwards_arguments_in_order() {
    let relay = build_relay(&bare(&["bar"]), &bar_instr(), ForwardMode::Direct);
    match relay.body {
        RelayBody::Call { args } => assert_eq!(args, strings(&["ctx", "n"])),
        RelayBody::Macro { .. } => panic!("expected a direct call"),
    }
}

#[test]
fn merges_relays_in_module_order() {
    let specs = parse_modules(ARGS).unwrap();
    let module = PrimaryModule {
        name: "big_program".to_string(),
        items: Some(vec![ModuleItem::Source("use super::*;".to_string())]),
    };
    let merged = merge_program(&specs, &programs(), module, ForwardMode::DefaultWrapper).unwrap();
    assert_eq!(merged.name, "big_program");
    let items = merged.items.unwrap();
    assert_eq!(items.len(), 4);
    assert_eq!(render_item(&items[0]), "use super::*;");
    assert!(render_item(&items[1]).starts_with("macro_rules! _modular_context_default_wrapper {"));
    let names: Vec<String> = items[2..]
        .iter()
        .map(|i| match i {
            ModuleItem::Relay(r) => r.name.clone(),
            _ => String::new(),
        })
        .collect();
    assert_eq!(names, strings(&["bar_instr", "oof_instr"]));
    assert!(render_item(&items[2]).contains("bar::instructions::instr, ctx: Context<'a, 'b, 'c, 'info, BarContext<'info>>, n: u64)"));
    assert!(render_item(&items[3]).contains("foo_wrapper!(foo::instr, ctx: Context<'a, 'b, 'c, 'info, FooContext<'info>>, n: u64)"));
}

#[test]
fn passes_the_full_parameter_list_to_a_wrapper() {
    let specs = parse_modules(ARGS).unwrap();
    let relay = build_relay(&specs[1], &foo_instr(), ForwardMode::Direct);
    match &relay.body {
        RelayBody::Macro { rooted, wrapper } => {
            assert!(!rooted);
            assert_eq!(wrapper, &strings(&["foo_wrapper"]));
        }
        RelayBody::Call { .. } => panic!("expected the wrapper"),
    }
    let pats: Vec<&str> = relay.params.iter().map(|p| p.pat.as_str()).collect();
    assert_eq!(pats, vec!["ctx", "n"]);
}

#[test]
fn fallback_in_a_module_aborts() {
    let specs = parse_modules(ARGS).unwrap();
    let mut progs = programs();
    progs[1].has_fallback = true;
    let relays: Result<Vec<Relay>, MergeError> = generate_relays(&specs, &progs, ForwardMode::Direct);
    assert_eq!(relays.err(), Some(MergeError::FallbackInModule));
    let module = PrimaryModule { name: "p".to_string(), items: Some(vec![]) };
    assert_eq!(
        merge_program(&specs, &progs, module, ForwardMode::Direct).err(),
        Some(MergeError::FallbackInModule)
    );
    let prog = ProgramDescriptor { entries: vec![], has_fallback: true };
    assert_eq!(check_secondary(prog).err(), Some(MergeError::FallbackInModule));
}

#[test]
fn module_without_body_aborts() {
    let specs = parse_modules(ARGS).unwrap();
    let module = PrimaryModule { name: "p".to_string(), items: None };
    assert_eq!(
        merge_program(&specs, &programs(), module, ForwardMode::Direct).err(),
        Some(MergeError::MissingModuleBody)
    );
}
