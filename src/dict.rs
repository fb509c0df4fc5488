//! The method set of the dict type, declared as native commands.

use vstd::prelude::*;
use crate::value::{Dict, Entries, Value, ValueType, text_of, same_key, lemma_same_key_equiv, lemma_without};
use crate::context::{CommandContext, ContextState, ErrorKind};
use crate::command::{CommandMap, OutputType, TypeMap, declared_as};

verus! {

/// The native bodies that commands can dispatch to.
#[derive(Clone, Copy)]
pub enum Builtin {
    DictNew,
    DictLen,
    DictEmpty,
    DictClear,
    DictSetItem,
    DictGetItem,
    DictRemove,
    DictClone,
    DictCallType,
    DictKeyType,
    DictValueType,
}

/// The outcome of one invocation: the context afterwards and the result.
pub type Outcome = (ContextState, Result<(), ErrorKind>);

pub open spec fn fail(c: ContextState) -> Outcome {
    (c, Err(ErrorKind::Argument))
}

pub open spec fn emit(c: ContextState, v: Value) -> Outcome {
    (ContextState { output: c.output.push(v), ..c }, Ok(()))
}

pub open spec fn saturated(n: nat) -> i128 {
    if n < i128::MAX { n as i128 } else { i128::MAX }
}

/// What a builtin does to a context, with the receiver a dict.
pub open spec fn run_on_dict(call: Builtin, c: ContextState, d: Dict) -> Outcome {
    match call {
        Builtin::DictLen => emit(c, Value::Integer(saturated(d.entries.count()))),
        Builtin::DictEmpty => emit(c, Value::Bool(d.entries.count() == 0)),
        Builtin::DictClear => {
            let cleared = Dict { entries: Entries::Nil, ..d };
            emit(ContextState { this: Some(Value::Dict(cleared)), ..c }, Value::Dict(cleared))
        },
        Builtin::DictClone => emit(c, Value::Dict(d)),
        Builtin::DictKeyType => emit(c, Value::Type(d.key_type)),
        Builtin::DictValueType => emit(c, Value::Type(d.value_type)),
        Builtin::DictSetItem => {
            let k = c.arguments[0];
            let v = c.arguments[1];
            if k.value_type() == d.key_type && d.key_type.hashable() && v.value_type() == d.value_type {
                let entries = Entries::Cons(Box::new(k), Box::new(v), Box::new(d.entries.without(k)));
                (ContextState { this: Some(Value::Dict(Dict { entries, ..d })), ..c }, Ok(()))
            } else {
                fail(c)
            }
        },
        Builtin::DictGetItem => match d.entries.lookup(c.arguments[0]) {
            Some(v) => emit(c, v),
            None => (c, Ok(())),
        },
        Builtin::DictRemove => {
            let k = c.arguments[0];
            let after = ContextState { this: Some(Value::Dict(Dict { entries: d.entries.without(k), ..d })), ..c };
            match d.entries.lookup(k) {
                Some(v) => emit(after, v),
                None => (after, Ok(())),
            }
        },
        _ => fail(c),
    }
}

/// The number of arguments each dict method takes.
pub open spec fn arity(call: Builtin) -> nat {
    match call {
        Builtin::DictSetItem => 2,
        Builtin::DictGetItem | Builtin::DictRemove => 1,
        _ => 0,
    }
}

/// What a builtin does to a context.
pub open spec fn run_builtin(call: Builtin, c: ContextState) -> Outcome {
    match call {
        Builtin::DictNew => if c.arguments.len() != 0 {
            fail(c)
        } else {
            match c.this {
                Some(Value::Type(ValueType::Dict(k, v))) => if k.hashable() {
                    emit(c, Value::Dict(Dict { key_type: *k, value_type: *v, entries: Entries::Nil }))
                } else {
                    fail(c)
                },
                _ => fail(c),
            }
        },
        Builtin::DictCallType => match c.this {
            Some(Value::Type(ValueType::Dict(t1, t2))) => if *t1 == ValueType::Empty && *t2 == ValueType::Empty {
                if c.arguments.len() != 2 {
                    fail(c)
                } else {
                    match (c.arguments[0], c.arguments[1]) {
                        (Value::Type(k), Value::Type(v)) =>
                            emit(c, Value::Type(ValueType::Dict(Box::new(k), Box::new(v)))),
                        _ => fail(c),
                    }
                }
            } else if c.arguments.len() == 0 {
                emit(c, Value::Type(ValueType::Dict(t1, t2)))
            } else {
                fail(c)
            },
            _ => fail(c),
        },
        _ => if c.arguments.len() != arity(call) {
            fail(c)
        } else {
            match c.this {
                Some(Value::Dict(d)) => run_on_dict(call, c, d),
                _ => fail(c),
            }
        },
    }
}

pub open spec fn full_path(name: &'static str) -> Seq<&'static str> {
    seq!["global", "types", "dict", name]
}

/// The symbolic path of a dict method.
pub fn full(name: &'static str) -> (r: Vec<&'static str>)
    ensures
        r@ == full_path(name),
{
    let r: Vec<&'static str> = vec!["global", "types", "dict", name];
    assert(r@ =~= seq!["global", "types", "dict", name]);
    r
}

} // verus!

verus! {

fn check_len(context: &CommandContext, n: usize) -> (r: Result<(), ErrorKind>)
    ensures
        r is Ok <==> context.arguments@.len() == n,
        r is Err ==> r == Err::<(), ErrorKind>(ErrorKind::Argument),
{
    if context.arguments.len() == n {
        Ok(())
    } else {
        Err(ErrorKind::Argument)
    }
}

/// Answers with a fact about the receiver dict.
fn inspect(call: Builtin, context: &mut CommandContext) -> (r: Result<(), ErrorKind>)
    requires
        call is DictLen || call is DictEmpty || call is DictClone || call is DictKeyType
            || call is DictValueType,
    ensures
        (final(context)@, r) == run_builtin(call, old(context)@),
{
    check_len(context, 0)?;
    let v = match &context.this {
        Some(Value::Dict(d)) => match call {
            Builtin::DictLen => Value::Integer(d.entries.len()),
            Builtin::DictEmpty => Value::Bool(d.entries.len() == 0),
            Builtin::DictClone => Value::Dict(d.copy()),
            Builtin::DictKeyType => Value::Type(d.key_type.copy()),
            _ => Value::Type(d.value_type.copy()),
        },
        _ => return Err(ErrorKind::Argument),
    };
    context.output.push(v);
    Ok(())
}

/// Emits the number of mappings in the receiver dict.
pub fn len(context: &mut CommandContext) -> (r: Result<(), ErrorKind>)
    ensures
        (final(context)@, r) == run_builtin(Builtin::DictLen, old(context)@),
{
    inspect(Builtin::DictLen, context)
}

/// Emits whether the receiver dict has no mappings.
pub fn empty(context: &mut CommandContext) -> (r: Result<(), ErrorKind>)
    ensures
        (final(context)@, r) == run_builtin(Builtin::DictEmpty, old(context)@),
{
    inspect(Builtin::DictEmpty, context)
}

/// Emits an independent copy of the receiver dict.
pub fn clone(context: &mut CommandContext) -> (r: Result<(), ErrorKind>)
    ensures
        (final(context)@, r) == run_builtin(Builtin::DictClone, old(context)@),
{
    inspect(Builtin::DictClone, context)
}

/// Emits the key type of the receiver dict.
pub fn key_type(context: &mut CommandContext) -> (r: Result<(), ErrorKind>)
    ensures
        (final(context)@, r) == run_builtin(Builtin::DictKeyType, old(context)@),
{
    inspect(Builtin::DictKeyType, context)
}

/// Emits the value type of the receiver dict.
pub fn value_type(context: &mut CommandContext) -> (r: Result<(), ErrorKind>)
    ensures
        (final(context)@, r) == run_builtin(Builtin::DictValueType, old(context)@),
{
    inspect(Builtin::DictValueType, context)
}

/// Removes all mappings from the receiver dict and emits it.
pub fn clear(context: &mut CommandContext) -> (r: Result<(), ErrorKind>)
    ensures
        (final(context)@, r) == run_builtin(Builtin::DictClear, old(context)@),
{
    check_len(context, 0)?;
    match &context.this {
        Some(Value::Dict(d)) => {
            let cleared = Dict::new(d.key_type.copy(), d.value_type.copy());
            let out = Value::Dict(cleared.copy());
            context.this = Some(Value::Dict(cleared));
            context.output.push(out);
            Ok(())
        },
        _ => Err(ErrorKind::Argument),
    }
}

/// Maps the first argument to the second in the receiver dict.
pub fn setitem(context: &mut CommandContext) -> (r: Result<(), ErrorKind>)
    ensures
        (final(context)@, r) == run_builtin(Builtin::DictSetItem, old(context)@),
{
    check_len(context, 2)?;
    match context.this.take() {
        Some(Value::Dict(d)) => {
            let fits = context.arguments[0].get_type().same(&d.key_type) && d.key_type.is_hashable()
                && context.arguments[1].get_type().same(&d.value_type);
            if !fits {
                context.this = Some(Value::Dict(d));
                return Err(ErrorKind::Argument);
            }
            let key = context.arguments[0].copy();
            let value = context.arguments[1].copy();
            let (rest, _) = d.entries.remove(&key);
            let entries = Entries::Cons(Box::new(key), Box::new(value), Box::new(rest));
            context.this = Some(Value::Dict(Dict { key_type: d.key_type, value_type: d.value_type, entries }));
            Ok(())
        },
        other => {
            context.this = other;
            Err(ErrorKind::Argument)
        },
    }
}

/// Emits the value the argument is mapped to, if any.
pub fn getitem(context: &mut CommandContext) -> (r: Result<(), ErrorKind>)
    ensures
        (final(context)@, r) == run_builtin(Builtin::DictGetItem, old(context)@),
{
    check_len(context, 1)?;
    let found = match &context.this {
        Some(Value::Dict(d)) => d.entries.get(&context.arguments[0]),
        _ => return Err(ErrorKind::Argument),
    };
    if let Some(v) = found {
        context.output.push(v);
    }
    Ok(())
}

/// Removes the mapping of the argument from the receiver dict and emits
/// the value it had, if any.
pub fn remove(context: &mut CommandContext) -> (r: Result<(), ErrorKind>)
    ensures
        (final(context)@, r) == run_builtin(Builtin::DictRemove, old(context)@),
{
    check_len(context, 1)?;
    match context.this.take() {
        Some(Value::Dict(d)) => {
            let (rest, found) = d.entries.remove(&context.arguments[0]);
            context.this = Some(Value::Dict(Dict { key_type: d.key_type, value_type: d.value_type, entries: rest }));
            if let Some(v) = found {
                context.output.push(v);
            }
            Ok(())
        },
        other => {
            context.this = other;
            Err(ErrorKind::Argument)
        },
    }
}

/// Emits a new empty dict of the receiver dict type.
pub fn new(context: &mut CommandContext) -> (r: Result<(), ErrorKind>)
    ensures
        (final(context)@, r) == run_builtin(Builtin::DictNew, old(context)@),
{
    check_len(context, 0)?;
    let d = match &context.this {
        Some(Value::Type(ValueType::Dict(k, v))) => if !k.is_hashable() {
            return Err(ErrorKind::Argument);
        } else {
            Dict::new(k.copy(), v.copy())
        },
        _ => return Err(ErrorKind::Argument),
    };
    context.output.push(Value::Dict(d));
    Ok(())
}

/// Emits a dict type: the receiver's own when it has its subtypes, else
/// one with the two type arguments as key and value types.
pub fn call_type(context: &mut CommandContext) -> (r: Result<(), ErrorKind>)
    ensures
        (final(context)@, r) == run_builtin(Builtin::DictCallType, old(context)@),
{
    let t = match &context.this {
        Some(Value::Type(ValueType::Dict(t1, t2))) => {
            if t1.same(&ValueType::Empty) && t2.same(&ValueType::Empty) {
                check_len(context, 2)?;
                match (&context.arguments[0], &context.arguments[1]) {
                    (Value::Type(k), Value::Type(v)) => ValueType::Dict(Box::new(k.copy()), Box::new(v.copy())),
                    _ => return Err(ErrorKind::Argument),
                }
            } else if context.arguments.len() == 0 {
                ValueType::Dict(Box::new(t1.copy()), Box::new(t2.copy()))
            } else {
                return Err(ErrorKind::Argument);
            }
        },
        _ => return Err(ErrorKind::Argument),
    };
    context.output.push(Value::Type(t));
    Ok(())
}

/// Runs the body a builtin names.
pub fn invoke_builtin(call: Builtin, context: &mut CommandContext) -> (r: Result<(), ErrorKind>)
    ensures
        (final(context)@, r) == run_builtin(call, old(context)@),
{
    match call {
        Builtin::DictNew => new(context),
        Builtin::DictLen => len(context),
        Builtin::DictEmpty => empty(context),
        Builtin::DictClear => clear(context),
        Builtin::DictSetItem => setitem(context),
        Builtin::DictGetItem => getitem(context),
        Builtin::DictRemove => remove(context),
        Builtin::DictClone => clone(context),
        Builtin::DictCallType => call_type(context),
        Builtin::DictKeyType => key_type(context),
        Builtin::DictValueType => value_type(context),
    }
}

} // verus!

verus! {

/// The names under which the dict methods are declared.
pub open spec fn dict_method_names() -> Set<Seq<char>> {
    set!["new"@, "len"@, "empty"@, "clear"@, "__setitem__"@, "__getitem__"@, "remove"@, "clone"@,
        "__call__"@, "key_type"@, "value_type"@]
}

/// The method set of the dict type.
pub fn methods() -> (r: CommandMap)
    ensures
        forall|k: Seq<char>| #![auto] dict_method_names().contains(k) ==> r.commands().contains_key(k),
        declared_as(r.commands()["new"@], full_path("new"), Builtin::DictNew, false, "dict:new",
            "Construct a new dict", Some("    Examples:\n    my_dict := (dict string integer):new"), OutputType::Unknown),
        declared_as(r.commands()["len"@], full_path("len"), Builtin::DictLen, false, "dict:len",
            "The number of mappings in the dict", None, OutputType::Known(ValueType::Integer)),
        declared_as(r.commands()["empty"@], full_path("empty"), Builtin::DictEmpty, false, "dict:empty",
            "True if there are no mappings in the dict", None, OutputType::Known(ValueType::Bool)),
        declared_as(r.commands()["clear"@], full_path("clear"), Builtin::DictClear, false, "dict:clear",
            "Remove all mappings from this dict", None, OutputType::Unknown),
        declared_as(r.commands()["__setitem__"@], full_path("__setitem__"), Builtin::DictSetItem, false, "dict[key] = value",
            "Create a new mapping or replace an existing one", None, OutputType::Unknown),
        declared_as(r.commands()["__getitem__"@], full_path("__getitem__"), Builtin::DictGetItem, false, "dict[key]",
            "Return the value the specified key is mapped to", None, OutputType::Unknown),
        declared_as(r.commands()["remove"@], full_path("remove"), Builtin::DictRemove, false, "dict:remove key",
            "Remove a mapping from the dict", None, OutputType::Unknown),
        declared_as(r.commands()["clone"@], full_path("clone"), Builtin::DictClone, false, "dict:clone",
            "Create a new dict with the same st of mappings as this one", None, OutputType::Unknown),
        declared_as(r.commands()["__call__"@], full_path("__call__"), Builtin::DictCallType, false, "dict key_type:type value_type:type",
            "Returns a dict type with the specifiec key and value types", None, OutputType::Known(ValueType::Type)),
        declared_as(r.commands()["key_type"@], full_path("key_type"), Builtin::DictKeyType, false, "dict:key_type",
            "Return the type of the keys in this dict", None, OutputType::Known(ValueType::Type)),
        declared_as(r.commands()["value_type"@], full_path("value_type"), Builtin::DictValueType, false, "dict:value_type",
            "Return the type of the values in this dict", None, OutputType::Known(ValueType::Type)),
{
    proof {
        reveal_strlit("new");
        reveal_strlit("len");
        reveal_strlit("empty");
        reveal_strlit("clear");
        reveal_strlit("__setitem__");
        reveal_strlit("__getitem__");
        reveal_strlit("remove");
        reveal_strlit("clone");
        reveal_strlit("__call__");
        reveal_strlit("key_type");
        reveal_strlit("value_type");
        assert("new"@[0] != "len"@[0]);
        assert("new"@ != "len"@);
        assert("new"@[0] != "empty"@[0]);
        assert("new"@ != "empty"@);
        assert("new"@[0] != "clear"@[0]);
        assert("new"@ != "clear"@);
        assert("new"@[0] != "__setitem__"@[0]);
        assert("new"@ != "__setitem__"@);
        assert("new"@[0] != "__getitem__"@[0]);
        assert("new"@ != "__getitem__"@);
        assert("new"@[0] != "remove"@[0]);
        assert("new"@ != "remove"@);
        assert("new"@[0] != "clone"@[0]);
        assert("new"@ != "clone"@);
        assert("new"@[0] != "__call__"@[0]);
        assert("new"@ != "__call__"@);
        assert("new"@[0] != "key_type"@[0]);
        assert("new"@ != "key_type"@);
        assert("new"@[0] != "value_type"@[0]);
        assert("new"@ != "value_type"@);
        assert("len"@[0] != "empty"@[0]);
        assert("len"@ != "empty"@);
        assert("len"@[0] != "clear"@[0]);
        assert("len"@ != "clear"@);
        assert("len"@[0] != "__setitem__"@[0]);
        assert("len"@ != "__setitem__"@);
        assert("len"@[0] != "__getitem__"@[0]);
        assert("len"@ != "__getitem__"@);
        assert("len"@[0] != "remove"@[0]);
        assert("len"@ != "remove"@);
        assert("len"@[0] != "clone"@[0]);
        assert("len"@ != "clone"@);
        assert("len"@[0] != "__call__"@[0]);
        assert("len"@ != "__call__"@);
        assert("len"@[0] != "key_type"@[0]);
        assert("len"@ != "key_type"@);
        assert("len"@[0] != "value_type"@[0]);
        assert("len"@ != "value_type"@);
        assert("empty"@[0] != "clear"@[0]);
        assert("empty"@ != "clear"@);
        assert("empty"@[0] != "__setitem__"@[0]);
        assert("empty"@ != "__setitem__"@);
        assert("empty"@[0] != "__getitem__"@[0]);
        assert("empty"@ != "__getitem__"@);
        assert("empty"@[0] != "remove"@[0]);
        assert("empty"@ != "remove"@);
        assert("empty"@[0] != "clone"@[0]);
        assert("empty"@ != "clone"@);
        assert("empty"@[0] != "__call__"@[0]);
        assert("empty"@ != "__call__"@);
        assert("empty"@[0] != "key_type"@[0]);
        assert("empty"@ != "key_type"@);
        assert("empty"@[0] != "value_type"@[0]);
        assert("empty"@ != "value_type"@);
        assert("clear"@[0] != "__setitem__"@[0]);
        assert("clear"@ != "__setitem__"@);
        assert("clear"@[0] != "__getitem__"@[0]);
        assert("clear"@ != "__getitem__"@);
        assert("clear"@[0] != "remove"@[0]);
        assert("clear"@ != "remove"@);
        assert("clear"@[2] != "clone"@[2]);
        assert("clear"@ != "clone"@);
        assert("clear"@[0] != "__call__"@[0]);
        assert("clear"@ != "__call__"@);
        assert("clear"@[0] != "key_type"@[0]);
        assert("clear"@ != "key_type"@);
        assert("clear"@[0] != "value_type"@[0]);
        assert("clear"@ != "value_type"@);
        assert("__setitem__"@[2] != "__getitem__"@[2]);
        assert("__setitem__"@ != "__getitem__"@);
        assert("__setitem__"@[0] != "remove"@[0]);
        assert("__setitem__"@ != "remove"@);
        assert("__setitem__"@[0] != "clone"@[0]);
        assert("__setitem__"@ != "clone"@);
        assert("__setitem__"@[2] != "__call__"@[2]);
        assert("__setitem__"@ != "__call__"@);
        assert("__setitem__"@[0] != "key_type"@[0]);
        assert("__setitem__"@ != "key_type"@);
        assert("__setitem__"@[0] != "value_type"@[0]);
        assert("__setitem__"@ != "value_type"@);
        assert("__getitem__"@[0] != "remove"@[0]);
        assert("__getitem__"@ != "remove"@);
        assert("__getitem__"@[0] != "clone"@[0]);
        assert("__getitem__"@ != "clone"@);
        assert("__getitem__"@[2] != "__call__"@[2]);
        assert("__getitem__"@ != "__call__"@);
        assert("__getitem__"@[0] != "key_type"@[0]);
        assert("__getitem__"@ != "key_type"@);
        assert("__getitem__"@[0] != "value_type"@[0]);
        assert("__getitem__"@ != "value_type"@);
        assert("remove"@[0] != "clone"@[0]);
        assert("remove"@ != "clone"@);
        assert("remove"@[0] != "__call__"@[0]);
        assert("remove"@ != "__call__"@);
        assert("remove"@[0] != "key_type"@[0]);
        assert("remove"@ != "key_type"@);
        assert("remove"@[0] != "value_type"@[0]);
        assert("remove"@ != "value_type"@);
        assert("clone"@[0] != "__call__"@[0]);
        assert("clone"@ != "__call__"@);
        assert("clone"@[0] != "key_type"@[0]);
        assert("clone"@ != "key_type"@);
        assert("clone"@[0] != "value_type"@[0]);
        assert("clone"@ != "value_type"@);
        assert("__call__"@[0] != "key_type"@[0]);
        assert("__call__"@ != "key_type"@);
        assert("__call__"@[0] != "value_type"@[0]);
        assert("__call__"@ != "value_type"@);
        assert("key_type"@[0] != "value_type"@[0]);
        assert("key_type"@ != "value_type"@);
    }
    let mut res = CommandMap::new();
    res.declare(&full("new"), Builtin::DictNew, false, "dict:new",
        "Construct a new dict", Some("    Examples:\n    my_dict := (dict string integer):new"), OutputType::Unknown);
    let ghost c_0 = res.commands()["new"@];
    proof {
        assert(res.commands().contains_key("new"@));
        assert(declared_as(c_0, full_path("new"), Builtin::DictNew, false, "dict:new",
            "Construct a new dict", Some("    Examples:\n    my_dict := (dict string integer):new"), OutputType::Unknown));
    }
    res.declare(&full("len"), Builtin::DictLen, false, "dict:len",
        "The number of mappings in the dict", None, OutputType::Known(ValueType::Integer));
    let ghost c_1 = res.commands()["len"@];
    proof {
        assert(res.commands().contains_key("len"@));
        assert(declared_as(c_1, full_path("len"), Builtin::DictLen, false, "dict:len",
            "The number of mappings in the dict", None, OutputType::Known(ValueType::Integer)));
        assert(res.commands().contains_key("new"@) && res.commands()["new"@] == c_0);
    }
    res.declare(&full("empty"), Builtin::DictEmpty, false, "dict:empty",
        "True if there are no mappings in the dict", None, OutputType::Known(ValueType::Bool));
    let ghost c_2 = res.commands()["empty"@];
    proof {
        assert(res.commands().contains_key("empty"@));
        assert(declared_as(c_2, full_path("empty"), Builtin::DictEmpty, false, "dict:empty",
            "True if there are no mappings in the dict", None, OutputType::Known(ValueType::Bool)));
        assert(res.commands().contains_key("new"@) && res.commands()["new"@] == c_0);
        assert(res.commands().contains_key("len"@) && res.commands()["len"@] == c_1);
    }
    res.declare(&full("clear"), Builtin::DictClear, false, "dict:clear",
        "Remove all mappings from this dict", None, OutputType::Unknown);
    let ghost c_3 = res.commands()["clear"@];
    proof {
        assert(res.commands().contains_key("clear"@));
        assert(declared_as(c_3, full_path("clear"), Builtin::DictClear, false, "dict:clear",
            "Remove all mappings from this dict", None, OutputType::Unknown));
        assert(res.commands().contains_key("new"@) && res.commands()["new"@] == c_0);
        assert(res.commands().contains_key("len"@) && res.commands()["len"@] == c_1);
        assert(res.commands().contains_key("empty"@) && res.commands()["empty"@] == c_2);
    }
    res.declare(&full("__setitem__"), Builtin::DictSetItem, false, "dict[key] = value",
        "Create a new mapping or replace an existing one", None, OutputType::Unknown);
    let ghost c_4 = res.commands()["__setitem__"@];
    proof {
        assert(res.commands().contains_key("__setitem__"@));
        assert(declared_as(c_4, full_path("__setitem__"), Builtin::DictSetItem, false, "dict[key] = value",
            "Create a new mapping or replace an existing one", None, OutputType::Unknown));
        assert(res.commands().contains_key("new"@) && res.commands()["new"@] == c_0);
        assert(res.commands().contains_key("len"@) && res.commands()["len"@] == c_1);
        assert(res.commands().contains_key("empty"@) && res.commands()["empty"@] == c_2);
        assert(res.commands().contains_key("clear"@) && res.commands()["clear"@] == c_3);
    }
    res.declare(&full("__getitem__"), Builtin::DictGetItem, false, "dict[key]",
        "Return the value the specified key is mapped to", None, OutputType::Unknown);
    let ghost c_5 = res.commands()["__getitem__"@];
    proof {
        assert(res.commands().contains_key("__getitem__"@));
        assert(declared_as(c_5, full_path("__getitem__"), Builtin::DictGetItem, false, "dict[key]",
            "Return the value the specified key is mapped to", None, OutputType::Unknown));
        assert(res.commands().contains_key("new"@) && res.commands()["new"@] == c_0);
        assert(res.commands().contains_key("len"@) && res.commands()["len"@] == c_1);
        assert(res.commands().contains_key("empty"@) && res.commands()["empty"@] == c_2);
        assert(res.commands().contains_key("clear"@) && res.commands()["clear"@] == c_3);
        assert(res.commands().contains_key("__setitem__"@) && res.commands()["__setitem__"@] == c_4);
    }
    res.declare(&full("remove"), Builtin::DictRemove, false, "dict:remove key",
        "Remove a mapping from the dict", None, OutputType::Unknown);
    let ghost c_6 = res.commands()["remove"@];
    proof {
        assert(res.commands().contains_key("remove"@));
        assert(declared_as(c_6, full_path("remove"), Builtin::DictRemove, false, "dict:remove key",
            "Remove a mapping from the dict", None, OutputType::Unknown));
        assert(res.commands().contains_key("new"@) && res.commands()["new"@] == c_0);
        assert(res.commands().contains_key("len"@) && res.commands()["len"@] == c_1);
        assert(res.commands().contains_key("empty"@) && res.commands()["empty"@] == c_2);
        assert(res.commands().contains_key("clear"@) && res.commands()["clear"@] == c_3);
        assert(res.commands().contains_key("__setitem__"@) && res.commands()["__setitem__"@] == c_4);
        assert(res.commands().contains_key("__getitem__"@) && res.commands()["__getitem__"@] == c_5);
    }
    res.declare(&full("clone"), Builtin::DictClone, false, "dict:clone",
        "Create a new dict with the same st of mappings as this one", None, OutputType::Unknown);
    let ghost c_7 = res.commands()["clone"@];
    proof {
        assert(res.commands().contains_key("clone"@));
        assert(declared_as(c_7, full_path("clone"), Builtin::DictClone, false, "dict:clone",
            "Create a new dict with the same st of mappings as this one", None, OutputType::Unknown));
        assert(res.commands().contains_key("new"@) && res.commands()["new"@] == c_0);
        assert(res.commands().contains_key("len"@) && res.commands()["len"@] == c_1);
        assert(res.commands().contains_key("empty"@) && res.commands()["empty"@] == c_2);
        assert(res.commands().contains_key("clear"@) && res.commands()["clear"@] == c_3);
        assert(res.commands().contains_key("__setitem__"@) && res.commands()["__setitem__"@] == c_4);
        assert(res.commands().contains_key("__getitem__"@) && res.commands()["__getitem__"@] == c_5);
        assert(res.commands().contains_key("remove"@) && res.commands()["remove"@] == c_6);
    }
    res.declare(&full("__call__"), Builtin::DictCallType, false, "dict key_type:type value_type:type",
        "Returns a dict type with the specifiec key and value types", None, OutputType::Known(ValueType::Type));
    let ghost c_8 = res.commands()["__call__"@];
    proof {
        assert(res.commands().contains_key("__call__"@));
        assert(declared_as(c_8, full_path("__call__"), Builtin::DictCallType, false, "dict key_type:type value_type:type",
            "Returns a dict type with the specifiec key and value types", None, OutputType::Known(ValueType::Type)));
        assert(res.commands().contains_key("new"@) && res.commands()["new"@] == c_0);
        assert(res.commands().contains_key("len"@) && res.commands()["len"@] == c_1);
        assert(res.commands().contains_key("empty"@) && res.commands()["empty"@] == c_2);
        assert(res.commands().contains_key("clear"@) && res.commands()["clear"@] == c_3);
        assert(res.commands().contains_key("__setitem__"@) && res.commands()["__setitem__"@] == c_4);
        assert(res.commands().contains_key("__getitem__"@) && res.commands()["__getitem__"@] == c_5);
        assert(res.commands().contains_key("remove"@) && res.commands()["remove"@] == c_6);
        assert(res.commands().contains_key("clone"@) && res.commands()["clone"@] == c_7);
    }
    res.declare(&full("key_type"), Builtin::DictKeyType, false, "dict:key_type",
        "Return the type of the keys in this dict", None, OutputType::Known(ValueType::Type));
    let ghost c_9 = res.commands()["key_type"@];
    proof {
        assert(res.commands().contains_key("key_type"@));
        assert(declared_as(c_9, full_path("key_type"), Builtin::DictKeyType, false, "dict:key_type",
            "Return the type of the keys in this dict", None, OutputType::Known(ValueType::Type)));
        assert(res.commands().contains_key("new"@) && res.commands()["new"@] == c_0);
        assert(res.commands().contains_key("len"@) && res.commands()["len"@] == c_1);
        assert(res.commands().contains_key("empty"@) && res.commands()["empty"@] == c_2);
        assert(res.commands().contains_key("clear"@) && res.commands()["clear"@] == c_3);
        assert(res.commands().contains_key("__setitem__"@) && res.commands()["__setitem__"@] == c_4);
        assert(res.commands().contains_key("__getitem__"@) && res.commands()["__getitem__"@] == c_5);
        assert(res.commands().contains_key("remove"@) && res.commands()["remove"@] == c_6);
        assert(res.commands().contains_key("clone"@) && res.commands()["clone"@] == c_7);
        assert(res.commands().contains_key("__call__"@) && res.commands()["__call__"@] == c_8);
    }
    res.declare(&full("value_type"), Builtin::DictValueType, false, "dict:value_type",
        "Return the type of the values in this dict", None, OutputType::Known(ValueType::Type));
    let ghost c_10 = res.commands()["value_type"@];
    proof {
        assert(res.commands().contains_key("value_type"@));
        assert(declared_as(c_10, full_path("value_type"), Builtin::DictValueType, false, "dict:value_type",
            "Return the type of the values in this dict", None, OutputType::Known(ValueType::Type)));
        assert(res.commands().contains_key("new"@) && res.commands()["new"@] == c_0);
        assert(res.commands().contains_key("len"@) && res.commands()["len"@] == c_1);
        assert(res.commands().contains_key("empty"@) && res.commands()["empty"@] == c_2);
        assert(res.commands().contains_key("clear"@) && res.commands()["clear"@] == c_3);
        assert(res.commands().contains_key("__setitem__"@) && res.commands()["__setitem__"@] == c_4);
        assert(res.commands().contains_key("__getitem__"@) && res.commands()["__getitem__"@] == c_5);
        assert(res.commands().contains_key("remove"@) && res.commands()["remove"@] == c_6);
        assert(res.commands().contains_key("clone"@) && res.commands()["clone"@] == c_7);
        assert(res.commands().contains_key("__call__"@) && res.commands()["__call__"@] == c_8);
        assert(res.commands().contains_key("key_type"@) && res.commands()["key_type"@] == c_9);
    }
    res
}

} // verus!

verus! {

/// On a valid dict, a successful `dict[key] = value` leaves a valid dict in
/// which the key maps to the value and every other key maps as before; it
/// fails exactly when the key or the value has the wrong type.
pub proof fn lemma_setitem_maps_key(c: ContextState, d: Dict)
    requires
        d.wf(),
        c.this == Some(Value::Dict(d)),
        c.arguments.len() == 2,
    ensures
        ({
            let o = run_builtin(Builtin::DictSetItem, c);
            let k = c.arguments[0];
            &&& o.1 is Ok <==> (k.value_type() == d.key_type && c.arguments[1].value_type() == d.value_type)
            &&& o.1 is Ok ==> (o.0.this matches Some(Value::Dict(d2)) && d2.wf() && d2.key_type == d.key_type
                && d2.value_type == d.value_type
                && d2.entries.lookup(k) == Some(c.arguments[1])
                && forall|x: Value| !same_key(x, k) ==> #[trigger] d2.entries.lookup(x) == d.entries.lookup(x))
            &&& o.0.output == c.output
        }),
{
    let k = c.arguments[0];
    lemma_without(d.entries, d.key_type, k);
    let o = run_builtin(Builtin::DictSetItem, c);
    if o.1 is Ok {
        let d2 = Dict { entries: Entries::Cons(Box::new(k), Box::new(c.arguments[1]), Box::new(d.entries.without(k))), ..d };
        assert(same_key(k, k));
        assert forall|x: Value| !same_key(x, k) implies #[trigger] d2.entries.lookup(x) == d.entries.lookup(x) by {
            lemma_same_key_equiv(k, x, x);
        }
    }
}

/// On a valid dict, `remove` leaves a valid dict without the key, with
/// every other mapping as before, and emits the removed value if there was
/// one.
pub proof fn lemma_remove_unmaps_key(c: ContextState, d: Dict)
    requires
        d.wf(),
        c.this == Some(Value::Dict(d)),
        c.arguments.len() == 1,
    ensures
        ({
            let o = run_builtin(Builtin::DictRemove, c);
            let k = c.arguments[0];
            &&& o.1 is Ok
            &&& (o.0.this matches Some(Value::Dict(d2)) && d2.wf() && d2.entries.lookup(k) is None
                && forall|x: Value| !same_key(x, k) ==> #[trigger] d2.entries.lookup(x) == d.entries.lookup(x))
            &&& o.0.output == match d.entries.lookup(k) {
                Some(v) => c.output.push(v),
                None => c.output,
            }
        }),
{
    lemma_without(d.entries, d.key_type, c.arguments[0]);
}

} // verus!
