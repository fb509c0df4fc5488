use crush::command::{
    ArgumentDefinition, Binding, BoundElement, CommandMap, CrushCommand, Element, Environment, Job,
    OutputType, Parameter, TypeMap, ValueDefinition,
};
use crush::context::{CommandContext, ErrorKind, ScopeArena};
use crush::dict::{full, methods, Builtin};
use crush::value::{Dict, Entries, Value, ValueType};

fn s(x: &str) -> String {
    x.to_string()
}

fn int_dict(pairs: &[(&str, i128)]) -> Value {
    let mut entries = Entries::Nil;
    for (k, v) in pairs.iter().rev() {
        entries = Entries::Cons(
            Box::new(Value::String(s(k))),
            Box::new(Value::Integer(*v)),
            Box::new(entries),
        );
    }
    Value::Dict(Dict { key_type: ValueType::String, value_type: ValueType::Integer, entries })
}

fn dict_len(v: &Option<Value>) -> i128 {
    match v {
        Some(Value::Dict(d)) => d.entries.len(),
        _ => -1,
    }
}

fn path(name: &str) -> Vec<String> {
    vec![s("global"), s("types"), s("dict"), s(name)]
}

fn env_with_methods() -> Environment {
    let m = methods();
    let mut env = Environment::new();
    for name in ["len", "remove", "__getitem__"] {
        env.declare(path(name), Binding::Command(m.get(name).unwrap().copy()));
    }
    env
}

#[test]
fn known_output_resolves_to_its_type() {
    let known = OutputType::Known(ValueType::Integer);
    for input in [OutputType::Unknown, OutputType::Passthrough, OutputType::Known(ValueType::Bool)] {
        assert!(matches!(known.calculate(&input), Some(ValueType::Integer)));
    }
}

#[test]
fn unknown_output_resolves_to_nothing() {
    for input in [OutputType::Unknown, OutputType::Passthrough, OutputType::Known(ValueType::Bool)] {
        assert!(OutputType::Unknown.calculate(&input).is_none());
    }
}

#[test]
fn passthrough_chain_resolves_to_root() {
    let as_input = |r: Option<ValueType>| match r {
        Some(t) => OutputType::Known(t),
        None => OutputType::Unknown,
    };
    let root = OutputType::Known(ValueType::String);
    let first = OutputType::Passthrough.calculate(&as_input(root.calculate(&OutputType::Unknown)));
    let second = OutputType::Passthrough.calculate(&as_input(first));
    assert!(matches!(second, Some(ValueType::String)));
    let first = OutputType::Passthrough.calculate(&as_input(OutputType::Unknown.calculate(&OutputType::Unknown)));
    assert!(OutputType::Passthrough.calculate(&as_input(first)).is_none());
    assert!(OutputType::Passthrough.calculate(&OutputType::Passthrough).is_none());
}

#[test]
fn output_format_lines() {
    assert_eq!(OutputType::Known(ValueType::Integer).format().unwrap(), "    Output: integer");
    assert_eq!(
        OutputType::Known(ValueType::Dict(Box::new(ValueType::String), Box::new(ValueType::Bool))).format().unwrap(),
        "    Output: dict string bool"
    );
    assert_eq!(
        OutputType::Passthrough.format().unwrap(),
        "    Output: A stream with the same columns as the input"
    );
    assert!(OutputType::Unknown.format().is_none());
}

#[test]
fn dict_len_scenario() {
    let m = methods();
    let len = m.get("len").unwrap();
    assert_eq!(len.name(), "command");
    assert!(!len.can_block(&vec![]));
    assert!(matches!(len.output(&OutputType::Unknown), Some(ValueType::Integer)));
    let mut ctx = CommandContext::new(vec![], Some(int_dict(&[("a", 1), ("b", 2), ("c", 3)])));
    assert!(len.invoke(&mut ctx).is_ok());
    assert_eq!(ctx.output.len(), 1);
    assert!(matches!(ctx.output[0], Value::Integer(3)));
}

#[test]
fn bound_remove_round_trip_scenario() {
    let m = methods();
    let bound = m.get("remove").unwrap().bind(int_dict(&[("a", 1), ("b", 2)]));
    let mut elements: Vec<Element> = Vec::new();
    let root = bound.serialize(&mut elements);
    assert_eq!(root, 2);
    assert_eq!(elements.len(), 3);
    let env = env_with_methods();
    let restored = CrushCommand::deserialize(root, &elements, &env).ok().unwrap();

    let mut ctx = CommandContext::new(vec![Value::String(s("a"))], None);
    assert!(restored.invoke(&mut ctx).is_ok());
    assert_eq!(ctx.output.len(), 1);
    assert!(matches!(ctx.output[0], Value::Integer(1)));
    assert_eq!(dict_len(&ctx.this), 1);

    let mut ctx = CommandContext::new(vec![Value::String(s("zz"))], None);
    assert!(restored.invoke(&mut ctx).is_ok());
    assert!(ctx.output.is_empty());
    assert_eq!(dict_len(&ctx.this), 2);
}

#[test]
fn copy_invokes_like_source() {
    let m = methods();
    let source = m.get("len").unwrap();
    let copy = source.copy();
    let mut a = CommandContext::new(vec![], Some(int_dict(&[("x", 5)])));
    let mut b = CommandContext::new(vec![], Some(int_dict(&[("x", 5)])));
    assert!(source.invoke(&mut a).is_ok());
    assert!(copy.invoke(&mut b).is_ok());
    assert!(matches!(a.output[0], Value::Integer(1)));
    assert!(matches!(b.output[0], Value::Integer(1)));
    assert_eq!(copy.signature(), source.signature());
    assert_eq!(copy.short_help(), source.short_help());
}

#[test]
fn bind_equals_setting_receiver() {
    let m = methods();
    let get = m.get("__getitem__").unwrap();
    let bound = get.bind(int_dict(&[("k", 7)]));
    let mut a = CommandContext::new(vec![Value::String(s("k"))], None);
    assert!(bound.invoke(&mut a).is_ok());
    let mut b = CommandContext::new(vec![Value::String(s("k"))], Some(int_dict(&[("k", 7)])));
    assert!(get.invoke(&mut b).is_ok());
    assert!(matches!(a.output[0], Value::Integer(7)));
    assert!(matches!(b.output[0], Value::Integer(7)));
    assert_eq!(dict_len(&a.this), 1);
}

#[test]
fn rebinding_replaces_receiver() {
    let m = methods();
    let once = m.get("len").unwrap().bind(int_dict(&[("a", 1)]));
    let twice = once.bind(int_dict(&[("a", 1), ("b", 2)]));
    let mut ctx = CommandContext::new(vec![], None);
    assert!(twice.invoke(&mut ctx).is_ok());
    assert!(matches!(ctx.output[0], Value::Integer(2)));
    let mut elements: Vec<Element> = Vec::new();
    assert_eq!(twice.serialize(&mut elements), 2);
}

#[test]
fn native_round_trip_keeps_name_and_help() {
    let m = methods();
    let len = m.get("len").unwrap();
    let mut elements: Vec<Element> = Vec::new();
    let idx = len.serialize(&mut elements);
    let restored = CrushCommand::deserialize(idx, &elements, &env_with_methods()).ok().unwrap();
    assert_eq!(restored.name(), len.name());
    assert_eq!(restored.signature(), "dict:len");
    assert_eq!(restored.short_help(), "The number of mappings in the dict");
    assert_eq!(restored.long_help(), len.long_help());
    assert_eq!(restored.long_help().unwrap(), "    Output: integer");
}

#[test]
fn absent_path_is_lookup_failure() {
    let m = methods();
    let mut elements: Vec<Element> = Vec::new();
    let idx = m.get("clear").unwrap().serialize(&mut elements);
    let r = CrushCommand::deserialize(idx, &elements, &env_with_methods());
    assert!(matches!(r, Err(ErrorKind::Lookup)));
}

#[test]
fn non_command_binding_is_type_mismatch() {
    let mut env = Environment::new();
    env.declare(path("len"), Binding::Value(Value::Integer(1)));
    let elements = vec![Element::Command(path("len"))];
    assert!(matches!(CrushCommand::deserialize(0, &elements, &env), Err(ErrorKind::TypeMismatch)));
    let elements = vec![Element::Value(Value::Bool(true))];
    assert!(matches!(CrushCommand::deserialize(0, &elements, &env), Err(ErrorKind::TypeMismatch)));
}

#[test]
fn forward_reference_is_malformed() {
    let env = env_with_methods();
    let elements = vec![
        Element::BoundCommand(BoundElement { this: 1, command: 2 }),
        Element::Value(Value::Empty),
        Element::Command(path("len")),
    ];
    assert!(matches!(CrushCommand::deserialize(0, &elements, &env), Err(ErrorKind::Malformed)));
    assert!(matches!(CrushCommand::deserialize(9, &elements, &env), Err(ErrorKind::Malformed)));
}

fn sample_closure(env: usize) -> CrushCommand {
    let params = vec![
        Parameter::Parameter(s("d"), ValueType::Type, None),
        Parameter::Parameter(s("fallback"), ValueType::Integer, Some(ValueDefinition::Variable(s("base")))),
    ];
    let jobs = vec![Job {
        call: Builtin::DictNew,
        can_block: false,
        this: Some(ValueDefinition::Variable(s("d"))),
        arguments: vec![],
    }];
    CrushCommand::closure(Some(s("make")), Some(params), jobs, env)
}

fn dict_type() -> Value {
    Value::Type(ValueType::Dict(Box::new(ValueType::String), Box::new(ValueType::Integer)))
}

fn arena_with_base(base: Option<i128>) -> (ScopeArena, usize) {
    let mut arena = ScopeArena::new();
    let root = arena.open(None);
    if let Some(b) = base {
        arena.bind(root, s("base"), Value::Integer(b));
    }
    (arena, root)
}

#[test]
fn closure_missing_argument_fails() {
    let (arena, root) = arena_with_base(Some(4));
    let c = sample_closure(root);
    let mut ctx = CommandContext::with_scopes(vec![], vec![], None, arena);
    assert!(matches!(c.invoke(&mut ctx), Err(ErrorKind::Argument)));
    assert!(ctx.output.is_empty());
}

#[test]
fn closure_default_uses_captured_scope() {
    let (arena, root) = arena_with_base(Some(4));
    let c = sample_closure(root);
    let mut ctx = CommandContext::with_scopes(vec![dict_type()], vec![], None, arena);
    assert!(c.invoke(&mut ctx).is_ok());
    assert_eq!(ctx.output.len(), 1);
    assert!(matches!(&ctx.output[0], Value::Dict(d) if matches!(d.entries, Entries::Nil)));

    let (arena, root) = arena_with_base(None);
    let c = sample_closure(root);
    let mut ctx = CommandContext::with_scopes(vec![dict_type()], vec![], None, arena);
    assert!(matches!(c.invoke(&mut ctx), Err(ErrorKind::Lookup)));
}

#[test]
fn closure_sees_later_bindings_of_its_scope() {
    let mut arena = ScopeArena::new();
    let root = arena.open(None);
    arena.bind(root, s("x"), Value::Integer(1));
    let inner = arena.open(Some(root));
    let params = vec![Parameter::Parameter(s("p"), ValueType::Integer, Some(ValueDefinition::Variable(s("x"))))];
    let jobs = vec![Job {
        call: Builtin::DictLen,
        can_block: false,
        this: Some(ValueDefinition::Variable(s("x"))),
        arguments: vec![],
    }];
    let c = CrushCommand::closure(None, Some(params), jobs, inner);
    arena.bind(root, s("x"), int_dict(&[("a", 1), ("b", 2)]));
    let mut ctx = CommandContext::with_scopes(vec![Value::Integer(0)], vec![], None, arena);
    assert!(c.invoke(&mut ctx).is_ok());
    assert!(matches!(ctx.output[0], Value::Integer(2)));
}

#[test]
fn closure_binds_named_arguments() {
    let (arena, root) = arena_with_base(Some(4));
    let c = sample_closure(root);
    let mut ctx = CommandContext::with_scopes(vec![], vec![(s("d"), dict_type())], None, arena);
    assert!(c.invoke(&mut ctx).is_ok());
    assert_eq!(ctx.output.len(), 1);

    let (arena, root) = arena_with_base(Some(4));
    let c = sample_closure(root);
    let named = vec![(s("d"), dict_type()), (s("unknown"), Value::Integer(1))];
    let mut ctx = CommandContext::with_scopes(vec![], named, None, arena);
    assert!(matches!(c.invoke(&mut ctx), Err(ErrorKind::Argument)));

    let (arena, root) = arena_with_base(None);
    let params = vec![Parameter::Named(s("opts"))];
    let jobs = vec![Job {
        call: Builtin::DictLen,
        can_block: false,
        this: Some(ValueDefinition::Variable(s("opts"))),
        arguments: vec![],
    }];
    let c = CrushCommand::closure(None, Some(params), jobs, root);
    let named = vec![(s("a"), Value::Integer(1)), (s("b"), Value::Bool(true))];
    let mut ctx = CommandContext::with_scopes(vec![], named, None, arena);
    assert!(c.invoke(&mut ctx).is_ok());
    assert!(matches!(ctx.output[0], Value::Integer(2)));
}

#[test]
fn closure_extra_argument_needs_collector() {
    let (arena, root) = arena_with_base(None);
    let c = sample_closure(root);
    let mut ctx = CommandContext::with_scopes(vec![dict_type(), Value::Integer(1), Value::Bool(true)], vec![], None, arena);
    assert!(matches!(c.invoke(&mut ctx), Err(ErrorKind::Argument)));
    let with_rest = CrushCommand::closure(None, Some(vec![Parameter::Unnamed(s("rest"))]), vec![], root);
    let mut ctx = CommandContext::new(vec![Value::Integer(1), Value::Bool(true)], None);
    assert!(with_rest.invoke(&mut ctx).is_ok());
    assert_eq!(with_rest.name(), "closure");
}

#[test]
fn condition_blocks_by_arguments() {
    let cond = CrushCommand::condition(Builtin::DictLen, path("len"), "and", "short-circuit and", None);
    let quiet = vec![ArgumentDefinition { value: ValueDefinition::Value(Value::Bool(true)) }];
    let busy = vec![
        ArgumentDefinition { value: ValueDefinition::Value(Value::Bool(true)) },
        ArgumentDefinition { value: ValueDefinition::Call(Builtin::DictLen, true, None) },
    ];
    assert!(!cond.can_block(&quiet));
    assert!(cond.can_block(&busy));
    assert_eq!(cond.name(), "conditional command");
    assert!(cond.output(&OutputType::Known(ValueType::Integer)).is_none());
}

#[test]
fn long_help_joins_output_and_text() {
    let m = methods();
    assert_eq!(
        m.get("new").unwrap().long_help().unwrap(),
        "    Examples:\n    my_dict := (dict string integer):new"
    );
    let c = CrushCommand::command(
        Builtin::DictLen,
        false,
        path("len"),
        "dict:len",
        "n",
        Some("More."),
        OutputType::Passthrough,
    );
    assert_eq!(
        c.long_help().unwrap(),
        "    Output: A stream with the same columns as the input\n\nMore."
    );
    let c = CrushCommand::command(Builtin::DictLen, false, path("len"), "x", "y", None, OutputType::Unknown);
    assert!(c.long_help().is_none());
}

#[test]
fn registry_last_declaration_wins() {
    let mut m = CommandMap::new();
    m.declare(&full("len"), Builtin::DictLen, false, "a", "first", None, OutputType::Unknown);
    m.declare(&full("len"), Builtin::DictEmpty, true, "b", "second", None, OutputType::Unknown);
    let c = m.get("len").unwrap();
    assert_eq!(c.short_help(), "second");
    assert!(c.can_block(&vec![]));
    assert!(m.get("remove").is_none());
    assert_eq!(methods().entries.len(), 11);
}

#[test]
fn dict_methods_behave() {
    let m = methods();
    let run = |name: &str, args: Vec<Value>, this: Value| {
        let mut ctx = CommandContext::new(args, Some(this));
        let r = m.get(name).unwrap().invoke(&mut ctx);
        (ctx, r)
    };
    let (ctx, r) = run("empty", vec![], int_dict(&[]));
    assert!(r.is_ok() && matches!(ctx.output[0], Value::Bool(true)));
    let (ctx, r) = run("__setitem__", vec![Value::String(s("a")), Value::Integer(9)], int_dict(&[("a", 1)]));
    assert!(r.is_ok());
    assert_eq!(dict_len(&ctx.this), 1);
    let (ctx, r) = run("__setitem__", vec![int_dict(&[]), Value::Integer(9)], int_dict(&[("a", 1)]));
    assert!(matches!(r, Err(ErrorKind::Argument)));
    assert_eq!(dict_len(&ctx.this), 1);
    let (_, r) = run("__setitem__", vec![Value::String(s("b")), Value::Bool(true)], int_dict(&[]));
    assert!(matches!(r, Err(ErrorKind::Argument)));
    let (ctx, r) = run("clear", vec![], int_dict(&[("a", 1)]));
    assert!(r.is_ok());
    assert_eq!(dict_len(&ctx.this), 0);
    let (_, r) = run("len", vec![Value::Integer(1)], int_dict(&[]));
    assert!(matches!(r, Err(ErrorKind::Argument)));
    let (_, r) = run("len", vec![], Value::Integer(1));
    assert!(matches!(r, Err(ErrorKind::Argument)));
    let (ctx, r) = run("key_type", vec![], int_dict(&[]));
    assert!(r.is_ok() && matches!(ctx.output[0], Value::Type(ValueType::String)));
    let bad = Value::Type(ValueType::Dict(Box::new(ValueType::Dict(Box::new(ValueType::Empty), Box::new(ValueType::Empty))), Box::new(ValueType::Integer)));
    let (_, r) = run("new", vec![], bad);
    assert!(matches!(r, Err(ErrorKind::Argument)));
    let untyped = Value::Type(ValueType::Dict(Box::new(ValueType::Empty), Box::new(ValueType::Empty)));
    let (ctx, r) = run("__call__", vec![Value::Type(ValueType::String), Value::Type(ValueType::Bool)], untyped);
    assert!(r.is_ok());
    assert!(matches!(&ctx.output[0], Value::Type(ValueType::Dict(k, v)) if matches!(**k, ValueType::String) && matches!(**v, ValueType::Bool)));
    let (_, r) = run("__call__", vec![Value::Type(ValueType::String)], dict_type());
    assert!(matches!(r, Err(ErrorKind::Argument)));
}

#[test]
fn parameter_text() {
    let p = Parameter::Parameter(s("x"), ValueType::Integer, Some(ValueDefinition::Value(Value::Integer(-120))));
    assert_eq!(p.to_text(), "x:integer=-120");
    let p = Parameter::Parameter(s("d"), ValueType::Type, None);
    assert_eq!(p.to_text(), "d:type");
    let p = Parameter::Parameter(s("n"), ValueType::String, Some(ValueDefinition::Variable(s("base"))));
    assert_eq!(p.to_text(), "n:string=$base");
    assert_eq!(Parameter::Named(s("opts")).to_text(), "@@opts");
    assert_eq!(Parameter::Unnamed(s("rest")).to_text(), "@rest");
}

#[test]
fn value_text() {
    assert_eq!(Value::Integer(0).to_text(), "0");
    assert_eq!(Value::Integer(i128::MIN).to_text(), "-170141183460469231731687303715884105728");
    assert_eq!(Value::Bool(false).to_text(), "false");
    assert_eq!(Value::String(s("hi")).to_text(), "\"hi\"");
    assert_eq!(int_dict(&[("a", 1)]).to_text(), "dict string integer");
}

#[test]
fn native_commands_never_equal() {
    let m = methods();
    let len = m.get("len").unwrap();
    let copy = len.copy();
    match (len, &copy) {
        (CrushCommand::Simple(a), CrushCommand::Simple(b)) => {
            assert!(!(a == b));
            assert!(!(a == a));
        }
        _ => panic!("expected native commands"),
    }
    let c1 = CrushCommand::condition(Builtin::DictLen, path("len"), "a", "b", None);
    let c2 = c1.copy();
    match (&c1, &c2) {
        (CrushCommand::Condition(a), CrushCommand::Condition(b)) => assert!(!(a == b)),
        _ => panic!("expected conditional commands"),
    }
}
