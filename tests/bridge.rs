use rs_loader_api::{
    define_type, get_loader_lifecycle_state, is_terminator_free, lookup_type, register_function,
    BridgeError, Context, FunctionCreate, FunctionInputSignature, FunctionRegisteration, Loader,
    LoaderLifecycleState, PrimitiveMetacallProtocolTypes, Value,
};

fn param(name: &str, t: &str) -> FunctionInputSignature {
    FunctionInputSignature { name: name.to_string(), t: t.to_string() }
}

fn registration(
    name: &str,
    args_count: usize,
    ret: Option<&str>,
    input: Vec<FunctionInputSignature>,
) -> FunctionRegisteration {
    FunctionRegisteration {
        function_create: FunctionCreate {
            name: name.to_string(),
            args_count,
            singleton: 7,
            function_impl: 9,
        },
        ret: ret.map(|r| r.to_string()),
        input,
    }
}

fn loader_with_integer() -> Loader {
    let mut loader = Loader::new();
    define_type(&mut loader, "Integer", PrimitiveMetacallProtocolTypes::Int, 1, 2).unwrap();
    loader
}

#[test]
fn define_then_lookup_integer() {
    let loader = loader_with_integer();
    let t = lookup_type(&loader, "Integer").unwrap();
    assert_eq!(t.kind, PrimitiveMetacallProtocolTypes::Int);
    assert_eq!(t.name, "Integer");
    assert_eq!(t.type_impl, 1);
    assert_eq!(t.singleton, 2);
}

#[test]
fn every_kind_survives_define_and_lookup() {
    let mut loader = Loader::new();
    for code in 0..17 {
        let k = PrimitiveMetacallProtocolTypes::from_code(code).unwrap();
        assert_eq!(k.code(), code);
        let name = format!("T{}", code);
        define_type(&mut loader, &name, k, 0, 0).unwrap();
        assert_eq!(lookup_type(&loader, &name).unwrap().kind, k);
    }
}

#[test]
fn kind_codes_are_fixed() {
    assert_eq!(PrimitiveMetacallProtocolTypes::Bool.code(), 0);
    assert_eq!(PrimitiveMetacallProtocolTypes::Int.code(), 3);
    assert_eq!(PrimitiveMetacallProtocolTypes::Mapping.code(), 10);
    assert_eq!(PrimitiveMetacallProtocolTypes::Object.code(), 16);
    assert_eq!(PrimitiveMetacallProtocolTypes::from_code(17), None);
    assert_eq!(PrimitiveMetacallProtocolTypes::from_code(-1), None);
}

#[test]
fn lookup_of_missing_type_is_none() {
    let loader = loader_with_integer();
    assert!(lookup_type(&loader, "Unknown").is_none());
}

#[test]
fn duplicate_type_is_rejected() {
    let mut loader = loader_with_integer();
    let r = define_type(&mut loader, "Integer", PrimitiveMetacallProtocolTypes::Long, 3, 4);
    assert_eq!(r.unwrap_err(), BridgeError::DuplicateDefinition);
    let t = lookup_type(&loader, "Integer").unwrap();
    assert_eq!(t.kind, PrimitiveMetacallProtocolTypes::Int);
    assert_eq!(t.type_impl, 1);
}

#[test]
fn type_name_with_terminator_is_a_conversion_error() {
    let mut loader = Loader::new();
    let r = define_type(&mut loader, "In\0teger", PrimitiveMetacallProtocolTypes::Int, 0, 0);
    assert_eq!(r.unwrap_err(), BridgeError::Conversion);
    assert!(lookup_type(&loader, "In\0teger").is_none());
    assert!(!is_terminator_free("a\0"));
    assert!(is_terminator_free("abc"));
}

#[test]
fn register_add_with_return_type() {
    let loader = loader_with_integer();
    let mut ctx = Context::new();
    let reg = registration(
        "add",
        2,
        Some("Integer"),
        vec![param("a", "Integer"), param("b", "Integer")],
    );
    assert_eq!(register_function(&mut ctx, &loader, reg), Ok(()));
    let Value::Function(d) = ctx.scope.lookup("add").unwrap();
    assert_eq!(d.name, "add");
    assert_eq!(d.args_count, 2);
    assert_eq!(d.singleton, 7);
    assert_eq!(d.function_impl, 9);
    assert_eq!(d.signature.parameters.len(), 2);
    assert_eq!(d.signature.parameters[0].name, "a");
    assert_eq!(d.signature.parameters[1].name, "b");
    let ret = d.signature.ret.unwrap();
    assert_eq!(loader.type_at(ret).name, "Integer");
    assert_eq!(loader.type_at(d.signature.parameters[0].t).kind, PrimitiveMetacallProtocolTypes::Int);
}

#[test]
fn register_without_return_type_leaves_it_unset() {
    let loader = loader_with_integer();
    let mut ctx = Context::new();
    let reg = registration("add", 2, None, vec![param("a", "Integer"), param("b", "Integer")]);
    assert_eq!(register_function(&mut ctx, &loader, reg), Ok(()));
    let Value::Function(d) = ctx.scope.lookup("add").unwrap();
    assert!(d.signature.ret.is_none());
    assert_eq!(d.signature.parameters.len(), 2);
}

#[test]
fn parameters_keep_their_order() {
    let mut loader = loader_with_integer();
    define_type(&mut loader, "Text", PrimitiveMetacallProtocolTypes::String, 0, 0).unwrap();
    let mut ctx = Context::new();
    let reg = registration(
        "f",
        3,
        None,
        vec![param("z", "Text"), param("y", "Integer"), param("x", "Text")],
    );
    register_function(&mut ctx, &loader, reg).unwrap();
    let Value::Function(d) = ctx.scope.lookup("f").unwrap();
    let names: Vec<&str> = d.signature.parameters.iter().map(|p| p.name.as_str()).collect();
    assert_eq!(names, vec!["z", "y", "x"]);
    let kinds: Vec<PrimitiveMetacallProtocolTypes> =
        d.signature.parameters.iter().map(|p| loader.type_at(p.t).kind).collect();
    assert_eq!(
        kinds,
        vec![
            PrimitiveMetacallProtocolTypes::String,
            PrimitiveMetacallProtocolTypes::Int,
            PrimitiveMetacallProtocolTypes::String
        ]
    );
}

#[test]
fn unknown_parameter_type_fails_and_scope_is_unchanged() {
    let loader = loader_with_integer();
    let mut ctx = Context::new();
    let reg = registration("g", 1, None, vec![param("a", "Unknown")]);
    assert_eq!(register_function(&mut ctx, &loader, reg), Err(BridgeError::UnresolvedType));
    assert!(ctx.scope.lookup("g").is_none());
}

#[test]
fn unknown_return_type_fails() {
    let loader = loader_with_integer();
    let mut ctx = Context::new();
    let reg = registration("g", 0, Some("Unknown"), vec![]);
    assert_eq!(register_function(&mut ctx, &loader, reg), Err(BridgeError::UnresolvedType));
    assert!(ctx.scope.lookup("g").is_none());
}

#[test]
fn function_name_with_terminator_is_a_conversion_error() {
    let loader = loader_with_integer();
    let mut ctx = Context::new();
    let reg = registration("a\0dd", 0, None, vec![]);
    assert_eq!(register_function(&mut ctx, &loader, reg), Err(BridgeError::Conversion));
    let reg = registration("add", 1, None, vec![param("a", "Inte\0ger")]);
    assert_eq!(register_function(&mut ctx, &loader, reg), Err(BridgeError::Conversion));
    assert!(ctx.scope.lookup("add").is_none());
}

#[test]
fn arity_must_match_parameters() {
    let loader = loader_with_integer();
    let mut ctx = Context::new();
    let reg = registration("add", 3, None, vec![param("a", "Integer")]);
    assert_eq!(register_function(&mut ctx, &loader, reg), Err(BridgeError::ArityMismatch));
    assert!(ctx.scope.lookup("add").is_none());
}

#[test]
fn registering_again_replaces_the_binding() {
    let loader = loader_with_integer();
    let mut ctx = Context::new();
    register_function(&mut ctx, &loader, registration("h", 0, None, vec![])).unwrap();
    register_function(&mut ctx, &loader, registration("h", 1, None, vec![param("a", "Integer")]))
        .unwrap();
    let Value::Function(d) = ctx.scope.lookup("h").unwrap();
    assert_eq!(d.args_count, 1);
}

#[test]
fn lifecycle_state_absent_until_stored() {
    let loader = Loader::new();
    assert!(get_loader_lifecycle_state(&loader).is_none());
    let paths = vec![std::path::PathBuf::from("/a"), std::path::PathBuf::from("/b")];
    let loader = Loader::with_lifecycle_state(LoaderLifecycleState::new(paths.clone()));
    assert_eq!(get_loader_lifecycle_state(&loader).unwrap().execution_paths, paths);
}

#[test]
fn unresolved_type_is_reported_before_arity() {
    let loader = loader_with_integer();
    let mut ctx = Context::new();
    let reg = registration("g", 5, None, vec![param("a", "Unknown")]);
    assert_eq!(register_function(&mut ctx, &loader, reg), Err(BridgeError::UnresolvedType));
    assert!(ctx.scope.lookup("g").is_none());
}

#[test]
fn stray_handle_is_refused() {
    let loader = loader_with_integer();
    let good = rs_loader_api::TypeHandle { index: 0 };
    assert_eq!(loader.get_type(good).unwrap().kind, PrimitiveMetacallProtocolTypes::Int);
    assert!(loader.get_type(rs_loader_api::TypeHandle { index: 1 }).is_none());
}
