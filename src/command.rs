//! Commands: native, conditional, bound and closure, behind one contract.

use vstd::prelude::*;
use crate::value::{Dict, Entries, Value, ValueType, text_of};
use crate::context::{CommandContext, ContextState, ErrorKind, visible};
use crate::dict::{Builtin, Outcome, run_builtin, invoke_builtin};

verus! {

/// The declared type of a command's output stream.
pub enum OutputType {
    Unknown,
    Known(ValueType),
    /// The output has the same shape as the input.
    Passthrough,
}

impl OutputType {
    /// The element type this output type resolves to, given the upstream one.
    pub open spec fn resolve(&self, input: OutputType) -> Option<ValueType> {
        match self {
            OutputType::Unknown => None,
            OutputType::Known(t) => Some(*t),
            OutputType::Passthrough => match input {
                OutputType::Known(t) => Some(t),
                _ => None,
            },
        }
    }

    pub fn copy(&self) -> (r: OutputType)
        ensures
            r == *self,
    {
        match self {
            OutputType::Unknown => OutputType::Unknown,
            OutputType::Known(t) => OutputType::Known(t.copy()),
            OutputType::Passthrough => OutputType::Passthrough,
        }
    }

    /// Resolves against the upstream output type; a passthrough upstream is
    /// asked for its own resolution against `Unknown`, so two passthrough
    /// stages never feed each other.
    pub fn calculate(&self, input: &OutputType) -> (r: Option<ValueType>)
        ensures
            r == self.resolve(*input),
        decreases (*self is Passthrough) as nat,
    {
        match self {
            OutputType::Unknown => None,
            OutputType::Known(t) => Some(t.copy()),
            OutputType::Passthrough => match input {
                OutputType::Passthrough => None,
                _ => input.calculate(&OutputType::Unknown),
            },
        }
    }

    pub open spec fn description(&self) -> Option<Seq<char>> {
        match self {
            OutputType::Unknown => None,
            OutputType::Known(t) => Some("    Output: "@ + t.text()),
            OutputType::Passthrough => Some("    Output: A stream with the same columns as the input"@),
        }
    }

    /// A one-line description of the output, if anything is declared.
    pub fn format(&self) -> (r: Option<String>)
        ensures
            r is Some == self.description() is Some,
            r is Some ==> r->0@ == self.description()->0,
    {
        match self {
            OutputType::Unknown => None,
            OutputType::Known(t) => {
                let mut s = text_of("    Output: ");
                let name = t.to_text();
                s.append(name.as_str());
                Some(s)
            },
            OutputType::Passthrough => Some(text_of("    Output: A stream with the same columns as the input")),
        }
    }
}

} // verus!

verus! {

/// An argument expression.
pub enum ValueDefinition {
    /// A literal value.
    Value(Value),
    /// A variable, looked up in the scope of evaluation.
    Variable(String),
    /// A call of a builtin with no arguments on an optional receiver
    /// expression, whose value is its first output; the flag says whether
    /// the call may block.
    Call(Builtin, bool, Option<Box<ValueDefinition>>),
}

/// One pipeline stage: a builtin invoked on an evaluated receiver and
/// evaluated arguments.
pub struct Job {
    pub call: Builtin,
    pub can_block: bool,
    pub this: Option<ValueDefinition>,
    pub arguments: Vec<ValueDefinition>,
}

/// A declared closure parameter.
pub enum Parameter {
    /// A named, typed parameter with an optional default expression.
    Parameter(String, ValueType, Option<ValueDefinition>),
    /// A collector of named arguments without a matching parameter.
    Named(String),
    /// A collector of positional arguments without a matching parameter.
    Unnamed(String),
}

/// An argument expression as the scheduler hands it to `can_block`.
pub struct ArgumentDefinition {
    pub value: ValueDefinition,
}

} // verus!

verus! {

impl ValueDefinition {
    pub open spec fn blocks(&self) -> bool
        decreases self,
    {
        match self {
            ValueDefinition::Call(_, b, this) => *b || match this {
                Some(t) => t.blocks(),
                None => false,
            },
            _ => false,
        }
    }

    /// Whether evaluating the expression may block.
    pub fn can_block(&self) -> (r: bool)
        ensures
            r == self.blocks(),
        decreases self,
    {
        match self {
            ValueDefinition::Call(_, b, this) => *b || match this {
                Some(t) => t.can_block(),
                None => false,
            },
            _ => false,
        }
    }

    pub fn copy(&self) -> (r: ValueDefinition)
        ensures
            r == *self,
        decreases self,
    {
        match self {
            ValueDefinition::Value(v) => ValueDefinition::Value(v.copy()),
            ValueDefinition::Variable(n) => ValueDefinition::Variable(n.clone()),
            ValueDefinition::Call(c, b, this) => ValueDefinition::Call(*c, *b, match this {
                Some(t) => Some(Box::new(t.copy())),
                None => None,
            }),
        }
    }
}

impl Parameter {
    pub fn copy(&self) -> (r: Parameter)
        ensures
            r == *self,
    {
        match self {
            Parameter::Parameter(n, t, d) => Parameter::Parameter(n.clone(), t.copy(), match d {
                Some(d) => Some(d.copy()),
                None => None,
            }),
            Parameter::Named(n) => Parameter::Named(n.clone()),
            Parameter::Unnamed(n) => Parameter::Unnamed(n.clone()),
        }
    }
}

pub fn copy_definitions(v: &Vec<ValueDefinition>) -> (r: Vec<ValueDefinition>)
    ensures
        r@ == v@,
{
    let mut r: Vec<ValueDefinition> = Vec::new();
    let mut i: usize = 0;
    while i < v.len()
        invariant
            i <= v@.len(),
            r@ == v@.subrange(0, i as int),
        decreases v@.len() - i,
    {
        r.push(v[i].copy());
        i = i + 1;
    }
    assert(r@ =~= v@);
    r
}

pub fn copy_parameters(v: &Vec<Parameter>) -> (r: Vec<Parameter>)
    ensures
        r@ == v@,
{
    let mut r: Vec<Parameter> = Vec::new();
    let mut i: usize = 0;
    while i < v.len()
        invariant
            i <= v@.len(),
            r@ == v@.subrange(0, i as int),
        decreases v@.len() - i,
    {
        r.push(v[i].copy());
        i = i + 1;
    }
    assert(r@ =~= v@);
    r
}

pub fn copy_names(v: &Vec<String>) -> (r: Vec<String>)
    ensures
        r@ == v@,
{
    let mut r: Vec<String> = Vec::new();
    let mut i: usize = 0;
    while i < v.len()
        invariant
            i <= v@.len(),
            r@ == v@.subrange(0, i as int),
        decreases v@.len() - i,
    {
        r.push(v[i].clone());
        i = i + 1;
    }
    assert(r@ =~= v@);
    r
}

/// The mathematical form of a job.
pub struct JobModel {
    pub call: Builtin,
    pub can_block: bool,
    pub this: Option<ValueDefinition>,
    pub arguments: Seq<ValueDefinition>,
}

impl JobModel {
    pub open spec fn blocks(&self) -> bool {
        self.can_block || (self.this is Some && self.this->0.blocks())
            || exists|i: int| 0 <= i < self.arguments.len() && #[trigger] self.arguments[i].blocks()
    }
}

impl Job {
    pub open spec fn view(&self) -> JobModel {
        JobModel { call: self.call, can_block: self.can_block, this: self.this, arguments: self.arguments@ }
    }

    pub open spec fn blocks(&self) -> bool {
        self@.blocks()
    }

    pub fn copy(&self) -> (r: Job)
        ensures
            r@ == self@,
    {
        Job {
            call: self.call,
            can_block: self.can_block,
            this: match &self.this {
                Some(t) => Some(t.copy()),
                None => None,
            },
            arguments: copy_definitions(&self.arguments),
        }
    }
}

/// Whether any of the expressions may block.
pub fn any_blocks(defs: &Vec<ValueDefinition>) -> (r: bool)
    ensures
        r == exists|i: int| 0 <= i < defs@.len() && #[trigger] defs@[i].blocks(),
{
    let mut i: usize = 0;
    while i < defs.len()
        invariant
            i <= defs@.len(),
            forall|j: int| 0 <= j < i ==> !(#[trigger] defs@[j].blocks()),
        decreases defs@.len() - i,
    {
        if defs[i].can_block() {
            return true;
        }
        i = i + 1;
    }
    false
}

impl Job {
    pub fn can_block(&self) -> (r: bool)
        ensures
            r == self.blocks(),
    {
        if self.can_block {
            return true;
        }
        let this_blocks = match &self.this {
            Some(t) => t.can_block(),
            None => false,
        };
        let a = any_blocks(&self.arguments);
        assert(self@.arguments == self.arguments@);
        if a {
            let ghost i = choose|i: int| 0 <= i < self.arguments@.len() && #[trigger] self.arguments@[i].blocks();
            assert(self@.arguments[i].blocks());
        }
        this_blocks || a
    }
}

pub fn copy_jobs(v: &Vec<Job>) -> (r: Vec<Job>)
    ensures
        r@.len() == v@.len(),
        forall|i: int| 0 <= i < v@.len() ==> (#[trigger] r@[i])@ == v@[i]@,
{
    let mut r: Vec<Job> = Vec::new();
    let mut i: usize = 0;
    while i < v.len()
        invariant
            i <= v@.len(),
            r@.len() == i,
            forall|j: int| 0 <= j < i ==> (#[trigger] r@[j])@ == v@[j]@,
        decreases v@.len() - i,
    {
        r.push(v[i].copy());
        i = i + 1;
    }
    r
}

} // verus!

verus! {

/// Variable bindings, newest last: what is visible from a scope, with the
/// bindings of a call's parameters on top.
pub struct Scope {
    pub variables: Vec<(String, Value)>,
}

/// The value of the newest binding of `name`.
pub open spec fn find(vars: Seq<(String, Value)>, name: Seq<char>) -> Option<Value>
    decreases vars.len(),
{
    if vars.len() == 0 {
        None
    } else if vars.last().0@ == name {
        Some(vars.last().1)
    } else {
        find(vars.drop_last(), name)
    }
}

/// The first output of a call, or `Empty` when it emits nothing.
pub open spec fn first_output(o: Outcome) -> Result<Value, ErrorKind> {
    match o.1 {
        Err(e) => Err(e),
        Ok(_) => if o.0.output.len() > 0 { Ok(o.0.output[0]) } else { Ok(Value::Empty) },
    }
}

/// The value of an expression in a scope.
pub open spec fn eval(d: ValueDefinition, vars: Seq<(String, Value)>) -> Result<Value, ErrorKind>
    decreases d,
{
    match d {
        ValueDefinition::Value(v) => Ok(v),
        ValueDefinition::Variable(n) => match find(vars, n@) {
            Some(v) => Ok(v),
            None => Err(ErrorKind::Lookup),
        },
        ValueDefinition::Call(b, _, this) => {
            let receiver = match this {
                Some(t) => match eval(*t, vars) {
                    Ok(v) => Ok(Some(v)),
                    Err(e) => Err(e),
                },
                None => Ok(None),
            };
            match receiver {
                Err(e) => Err(e),
                Ok(r) => first_output(run_builtin(
                    b,
                    ContextState { arguments: Seq::empty(), named: Seq::empty(), this: r, output: Seq::empty(), scopes: Seq::empty() },
                )),
            }
        },
    }
}

impl Scope {
    pub fn lookup(&self, name: &String) -> (r: Option<Value>)
        ensures
            r == find(self.variables@, name@),
    {
        let mut i: usize = self.variables.len();
        assert(self.variables@.subrange(0, i as int) =~= self.variables@);
        while i > 0
            invariant
                i <= self.variables@.len(),
                find(self.variables@, name@) == find(self.variables@.subrange(0, i as int), name@),
            decreases i,
        {
            assert(self.variables@.subrange(0, i as int).drop_last() =~= self.variables@.subrange(0, i - 1));
            if self.variables[i - 1].0.eq(name) {
                return Some(self.variables[i - 1].1.copy());
            }
            i = i - 1;
        }
        None
    }

    pub fn copy(&self) -> (r: Scope)
        ensures
            r.variables@ == self.variables@,
    {
        let mut r: Vec<(String, Value)> = Vec::new();
        let mut i: usize = 0;
        while i < self.variables.len()
            invariant
                i <= self.variables@.len(),
                r@ == self.variables@.subrange(0, i as int),
            decreases self.variables@.len() - i,
        {
            r.push((self.variables[i].0.clone(), self.variables[i].1.copy()));
            i = i + 1;
        }
        assert(r@ =~= self.variables@);
        Scope { variables: r }
    }

    /// Evaluates an expression in this scope.
    pub fn evaluate(&self, d: &ValueDefinition) -> (r: Result<Value, ErrorKind>)
        ensures
            r == eval(*d, self.variables@),
        decreases d,
    {
        match d {
            ValueDefinition::Value(v) => Ok(v.copy()),
            ValueDefinition::Variable(n) => match self.lookup(n) {
                Some(v) => Ok(v),
                None => Err(ErrorKind::Lookup),
            },
            ValueDefinition::Call(b, _, this) => {
                let receiver = match this {
                    Some(t) => Some(self.evaluate(t)?),
                    None => None,
                };
                let mut c = CommandContext::new(Vec::new(), receiver);
                invoke_builtin(*b, &mut c)?;
                if c.output.len() > 0 {
                    Ok(c.output[0].copy())
                } else {
                    Ok(Value::Empty)
                }
            },
        }
    }
}

} // verus!

verus! {

/// Positional arguments from `i` on, keyed by their position.
pub open spec fn rest_entries(args: Seq<Value>, i: int) -> Entries
    decreases args.len() - i,
{
    if i >= args.len() || i < 0 {
        Entries::Nil
    } else {
        Entries::Cons(Box::new(Value::Integer(i as i128)), Box::new(args[i]), Box::new(rest_entries(args, i + 1)))
    }
}

pub open spec fn collected(args: Seq<Value>, i: int) -> Value {
    Value::Dict(Dict { key_type: ValueType::Integer, value_type: ValueType::Empty, entries: rest_entries(args, i) })
}

/// The name of a typed parameter.
pub open spec fn param_name(p: Parameter) -> Option<Seq<char>> {
    match p {
        Parameter::Parameter(n, _, _) => Some(n@),
        _ => None,
    }
}

/// Some typed parameter is called `name`.
pub open spec fn claims(params: Seq<Parameter>, name: Seq<char>) -> bool {
    exists|i: int| 0 <= i < params.len() && #[trigger] param_name(params[i]) == Some(name)
}

/// The parameters collect named arguments that no parameter claims.
pub open spec fn has_named_collector(params: Seq<Parameter>) -> bool {
    exists|i: int| 0 <= i < params.len() && #[trigger] params[i] is Named
}

/// Every named argument has a place: a parameter of its name or a collector.
pub open spec fn named_fit(params: Seq<Parameter>, named: Seq<(String, Value)>) -> bool {
    has_named_collector(params) || forall|j: int| 0 <= j < named.len() ==> claims(params, #[trigger] named[j].0@)
}

/// The named arguments from `j` on that no parameter claims, keyed by name.
pub open spec fn unclaimed(named: Seq<(String, Value)>, params: Seq<Parameter>, j: int) -> Entries
    decreases named.len() - j,
{
    if j < 0 || j >= named.len() {
        Entries::Nil
    } else if claims(params, named[j].0@) {
        unclaimed(named, params, j + 1)
    } else {
        Entries::Cons(Box::new(Value::String(named[j].0)), Box::new(named[j].1), Box::new(unclaimed(named, params, j + 1)))
    }
}

pub open spec fn named_rest(named: Seq<(String, Value)>, params: Seq<Parameter>) -> Value {
    Value::Dict(Dict { key_type: ValueType::String, value_type: ValueType::Empty, entries: unclaimed(named, params, 0) })
}

/// Binds the parameters from `k` on, with the positional arguments from
/// `pos` on and the named arguments `named`, on top of the bindings `vars`;
/// a typed parameter takes the named argument of its name if there is one,
/// else the next positional one, else its default, evaluated in `vars`.
pub open spec fn bind_from(
    params: Seq<Parameter>,
    k: int,
    args: Seq<Value>,
    named: Seq<(String, Value)>,
    pos: int,
    vars: Seq<(String, Value)>,
) -> Result<Seq<(String, Value)>, ErrorKind>
    decreases params.len() - k,
{
    if k >= params.len() || k < 0 {
        if pos < args.len() || !named_fit(params, named) { Err(ErrorKind::Argument) } else { Ok(vars) }
    } else {
        match params[k] {
            Parameter::Parameter(n, t, d) => match find(named, n@) {
                Some(v) => if v.value_type() == t {
                    bind_from(params, k + 1, args, named, pos, vars.push((n, v)))
                } else {
                    Err(ErrorKind::Argument)
                },
                None => if 0 <= pos < args.len() {
                    if args[pos].value_type() == t {
                        bind_from(params, k + 1, args, named, pos + 1, vars.push((n, args[pos])))
                    } else {
                        Err(ErrorKind::Argument)
                    }
                } else {
                    match d {
                        Some(d) => match eval(d, vars) {
                            Ok(v) => bind_from(params, k + 1, args, named, pos, vars.push((n, v))),
                            Err(e) => Err(e),
                        },
                        None => Err(ErrorKind::Argument),
                    }
                },
            },
            Parameter::Named(n) => bind_from(params, k + 1, args, named, pos, vars.push((n, named_rest(named, params)))),
            Parameter::Unnamed(n) => bind_from(params, k + 1, args, named, args.len() as int, vars.push((n, collected(args, pos)))),
        }
    }
}

/// The number of parameters from `k` on that have no default.
pub open spec fn required_count(params: Seq<Parameter>, k: int) -> nat
    decreases params.len() - k,
{
    if k >= params.len() || k < 0 {
        0
    } else {
        (if params[k] matches Parameter::Parameter(_, _, None) { 1nat } else { 0nat }) + required_count(params, k + 1)
    }
}

/// The values of a list of expressions, or the first failure.
pub open spec fn eval_all(defs: Seq<ValueDefinition>, vars: Seq<(String, Value)>) -> Result<Seq<Value>, ErrorKind>
    decreases defs.len(),
{
    if defs.len() == 0 {
        Ok(Seq::empty())
    } else {
        match eval_all(defs.drop_last(), vars) {
            Err(e) => Err(e),
            Ok(vs) => match eval(defs.last(), vars) {
                Ok(v) => Ok(vs.push(v)),
                Err(e) => Err(e),
            },
        }
    }
}

pub open spec fn eval_opt(d: Option<ValueDefinition>, vars: Seq<(String, Value)>) -> Result<Option<Value>, ErrorKind> {
    match d {
        None => Ok(None),
        Some(d) => match eval(d, vars) {
            Ok(v) => Ok(Some(v)),
            Err(e) => Err(e),
        },
    }
}

/// Runs the stages from `i` on; the last stage's output goes to `c`.
pub open spec fn run_jobs(jobs: Seq<JobModel>, i: int, vars: Seq<(String, Value)>, c: ContextState) -> Outcome
    decreases jobs.len() - i,
{
    if i >= jobs.len() || i < 0 {
        (c, Ok(()))
    } else {
        let job = jobs[i];
        match (eval_opt(job.this, vars), eval_all(job.arguments, vars)) {
            (Err(e), _) => (c, Err(e)),
            (Ok(_), Err(e)) => (c, Err(e)),
            (Ok(this), Ok(arguments)) => {
                let o = run_builtin(job.call, ContextState { arguments, named: Seq::empty(), this, output: Seq::empty(), scopes: Seq::empty() });
                match o.1 {
                    Err(e) => (c, Err(e)),
                    Ok(_) => if i == jobs.len() - 1 {
                        (ContextState { output: c.output + o.0.output, ..c }, Ok(()))
                    } else {
                        run_jobs(jobs, i + 1, vars, c)
                    },
                }
            },
        }
    }
}

proof fn lemma_eval_all_prefix_err(defs: Seq<ValueDefinition>, vars: Seq<(String, Value)>, i: int)
    requires
        0 <= i <= defs.len(),
        eval_all(defs.subrange(0, i), vars) is Err,
    ensures
        eval_all(defs, vars) == eval_all(defs.subrange(0, i), vars),
    decreases defs.len() - i,
{
    if i < defs.len() {
        assert(defs.subrange(0, i + 1).drop_last() =~= defs.subrange(0, i));
        lemma_eval_all_prefix_err(defs, vars, i + 1);
    } else {
        assert(defs.subrange(0, i) =~= defs);
    }
}

impl Scope {
    pub fn evaluate_all(&self, defs: &Vec<ValueDefinition>) -> (r: Result<Vec<Value>, ErrorKind>)
        ensures
            match (r, eval_all(defs@, self.variables@)) {
                (Ok(a), Ok(b)) => a@ == b,
                (Err(a), Err(b)) => a == b,
                _ => false,
            },
    {
        let mut r: Vec<Value> = Vec::new();
        let mut i: usize = 0;
        while i < defs.len()
            invariant
                i <= defs@.len(),
                eval_all(defs@.subrange(0, i as int), self.variables@) == Ok::<Seq<Value>, ErrorKind>(r@),
            decreases defs@.len() - i,
        {
            assert(defs@.subrange(0, i + 1).drop_last() =~= defs@.subrange(0, i as int));
            match self.evaluate(&defs[i]) {
                Ok(v) => r.push(v),
                Err(e) => {
                    proof { lemma_eval_all_prefix_err(defs@, self.variables@, i + 1); }
                    return Err(e);
                },
            }
            i = i + 1;
        }
        assert(defs@.subrange(0, i as int) =~= defs@);
        Ok(r)
    }

    pub fn evaluate_opt(&self, d: &Option<ValueDefinition>) -> (r: Result<Option<Value>, ErrorKind>)
        ensures
            r == eval_opt(*d, self.variables@),
    {
        match d {
            None => Ok(None),
            Some(d) => match self.evaluate(d) {
                Ok(v) => Ok(Some(v)),
                Err(e) => Err(e),
            },
        }
    }
}

} // verus!

verus! {

/// A command whose body is a list of stages run in a child of the scope it
/// was defined in.
pub struct Closure {
    pub name: Option<String>,
    pub signature: Option<Vec<Parameter>>,
    pub job_definitions: Vec<Job>,
    /// The handle of the scope the closure was defined in; it is read at
    /// each invocation, so later bindings there are seen.
    pub env: usize,
}

/// The mathematical form of a closure.
pub struct ClosureModel {
    pub name: Option<String>,
    pub signature: Option<Seq<Parameter>>,
    pub jobs: Seq<JobModel>,
    pub env: usize,
}

pub open spec fn jobs_view(jobs: Seq<Job>) -> Seq<JobModel> {
    jobs.map_values(|j: Job| j@)
}

impl ClosureModel {
    /// The bindings of the child scope for the given arguments, on top of
    /// the bindings `base` of the defining scope.
    /// Too few arguments for the parameters without a default are refused
    /// before any default is evaluated.
    pub open spec fn bindings(
        &self,
        base: Seq<(String, Value)>,
        args: Seq<Value>,
        named: Seq<(String, Value)>,
    ) -> Result<Seq<(String, Value)>, ErrorKind> {
        match self.signature {
            Some(ps) => if args.len() + named.len() < required_count(ps, 0) {
                Err(ErrorKind::Argument)
            } else {
                bind_from(ps, 0, args, named, 0, base)
            },
            None => if args.len() == 0 && named.len() == 0 { Ok(base) } else { Err(ErrorKind::Argument) },
        }
    }

    /// Invocation reads the defining scope as it is at the time of the call.
    pub open spec fn run(&self, c: ContextState) -> Outcome {
        match self.bindings(visible(c.scopes, self.env as int), c.arguments, c.named) {
            Err(e) => (c, Err(e)),
            Ok(vars) => run_jobs(self.jobs, 0, vars, c),
        }
    }
}

/// The value of the newest binding of `name`.
pub fn find_in(vars: &Vec<(String, Value)>, name: &String) -> (r: Option<Value>)
    ensures
        r == find(vars@, name@),
{
    let mut i: usize = vars.len();
    assert(vars@.subrange(0, i as int) =~= vars@);
    while i > 0
        invariant
            i <= vars@.len(),
            find(vars@, name@) == find(vars@.subrange(0, i as int), name@),
        decreases i,
    {
        assert(vars@.subrange(0, i as int).drop_last() =~= vars@.subrange(0, i - 1));
        if vars[i - 1].0.eq(name) {
            return Some(vars[i - 1].1.copy());
        }
        i = i - 1;
    }
    None
}

pub fn required(params: &Vec<Parameter>) -> (r: usize)
    ensures
        r == required_count(params@, 0),
{
    let mut n: usize = 0;
    let len = params.len();
    let mut k: usize = len;
    while k > 0
        invariant
            len == params@.len(),
            k <= params@.len(),
            n + k <= len,
            n == required_count(params@, k as int),
        decreases k,
    {
        k = k - 1;
        if let Parameter::Parameter(_, _, None) = &params[k] {
            n = n + 1;
        }
    }
    n
}

pub fn claims_name(params: &Vec<Parameter>, name: &String) -> (r: bool)
    ensures
        r == claims(params@, name@),
{
    let mut i: usize = 0;
    while i < params.len()
        invariant
            i <= params@.len(),
            forall|j: int| 0 <= j < i ==> #[trigger] param_name(params@[j]) != Some(name@),
        decreases params@.len() - i,
    {
        if let Parameter::Parameter(n, _, _) = &params[i] {
            if n.eq(name) {
                assert(param_name(params@[i as int]) == Some(name@));
                return true;
            }
        }
        i = i + 1;
    }
    false
}

pub fn named_fits(params: &Vec<Parameter>, named: &Vec<(String, Value)>) -> (r: bool)
    ensures
        r == named_fit(params@, named@),
{
    let mut i: usize = 0;
    while i < params.len()
        invariant
            i <= params@.len(),
            forall|j: int| 0 <= j < i ==> !(#[trigger] params@[j] is Named),
        decreases params@.len() - i,
    {
        if let Parameter::Named(_) = &params[i] {
            assert(params@[i as int] is Named);
            return true;
        }
        i = i + 1;
    }
    let mut j: usize = 0;
    while j < named.len()
        invariant
            !has_named_collector(params@),
            j <= named@.len(),
            forall|m: int| 0 <= m < j ==> claims(params@, #[trigger] named@[m].0@),
        decreases named@.len() - j,
    {
        if !claims_name(params, &named[j].0) {
            return false;
        }
        j = j + 1;
    }
    true
}

pub fn unclaimed_named(named: &Vec<(String, Value)>, params: &Vec<Parameter>) -> (r: Value)
    ensures
        r == named_rest(named@, params@),
{
    let mut entries = Entries::Nil;
    let mut j: usize = named.len();
    while j > 0
        invariant
            j <= named@.len(),
            entries == unclaimed(named@, params@, j as int),
        decreases j,
    {
        j = j - 1;
        if !claims_name(params, &named[j].0) {
            entries = Entries::Cons(Box::new(Value::String(named[j].0.clone())), Box::new(named[j].1.copy()), Box::new(entries));
        }
    }
    Value::Dict(Dict { key_type: ValueType::String, value_type: ValueType::Empty, entries })
}

pub fn collect_rest(args: &Vec<Value>, pos: usize) -> (r: Value)
    requires
        pos <= args@.len(),
    ensures
        r == collected(args@, pos as int),
{
    let mut entries = Entries::Nil;
    let mut j: usize = args.len();
    while j > pos
        invariant
            pos <= j <= args@.len(),
            entries == rest_entries(args@, j as int),
        decreases j,
    {
        j = j - 1;
        assert(j < i128::MAX);
        entries = Entries::Cons(Box::new(Value::Integer(j as i128)), Box::new(args[j].copy()), Box::new(entries));
    }
    Value::Dict(Dict { key_type: ValueType::Integer, value_type: ValueType::Empty, entries })
}

impl Closure {
    pub open spec fn view(&self) -> ClosureModel {
        ClosureModel {
            name: self.name,
            signature: match self.signature {
                Some(v) => Some(v@),
                None => None,
            },
            jobs: jobs_view(self.job_definitions@),
            env: self.env,
        }
    }

    pub fn new(name: Option<String>, signature: Option<Vec<Parameter>>, job_definitions: Vec<Job>, env: usize) -> (r: Closure)
        ensures
            r == (Closure { name, signature, job_definitions, env }),
    {
        Closure { name, signature, job_definitions, env }
    }

    pub fn copy(&self) -> (r: Closure)
        ensures
            r@ == self@,
    {
        let jobs = copy_jobs(&self.job_definitions);
        assert(jobs_view(jobs@) =~= jobs_view(self.job_definitions@));
        Closure {
            name: self.name.clone(),
            signature: match &self.signature {
                Some(v) => Some(copy_parameters(v)),
                None => None,
            },
            job_definitions: jobs,
            env: self.env,
        }
    }

    /// The child scope with the arguments bound to the parameters.
    pub fn bind_arguments(&self, args: &Vec<Value>, named: &Vec<(String, Value)>, base: &Scope) -> (r: Result<Scope, ErrorKind>)
        ensures
            match (r, self@.bindings(base.variables@, args@, named@)) {
                (Ok(a), Ok(b)) => a.variables@ == b,
                (Err(a), Err(b)) => a == b,
                _ => false,
            },
    {
        let mut scope = base.copy();
        let params = match &self.signature {
            Some(p) => p,
            None => {
                return if args.len() == 0 && named.len() == 0 { Ok(scope) } else { Err(ErrorKind::Argument) };
            },
        };
        let needed = required(params);
        if args.len() < needed && named.len() < needed - args.len() {
            return Err(ErrorKind::Argument);
        }
        let ghost ps = params@;
        let mut k: usize = 0;
        let mut pos: usize = 0;
        while k < params.len()
            invariant
                ps == params@,
                self.signature == Some(*params),
                args@.len() + named@.len() >= required_count(ps, 0),
                k <= ps.len(),
                pos <= args@.len(),
                bind_from(ps, 0, args@, named@, 0, base.variables@)
                    == bind_from(ps, k as int, args@, named@, pos as int, scope.variables@),
            decreases ps.len() - k,
        {
            match &params[k] {
                Parameter::Parameter(n, t, d) => {
                    match find_in(named, n) {
                        Some(v) => {
                            if v.get_type().same(t) {
                                scope.variables.push((n.clone(), v));
                            } else {
                                return Err(ErrorKind::Argument);
                            }
                        },
                        None => {
                            if pos < args.len() {
                                if args[pos].get_type().same(t) {
                                    scope.variables.push((n.clone(), args[pos].copy()));
                                    pos = pos + 1;
                                } else {
                                    return Err(ErrorKind::Argument);
                                }
                            } else {
                                match d {
                                    Some(d) => {
                                        let v = scope.evaluate(d)?;
                                        scope.variables.push((n.clone(), v));
                                    },
                                    None => {
                                        return Err(ErrorKind::Argument);
                                    },
                                }
                            }
                        },
                    }
                },
                Parameter::Named(n) => {
                    let rest = unclaimed_named(named, params);
                    scope.variables.push((n.clone(), rest));
                },
                Parameter::Unnamed(n) => {
                    let rest = collect_rest(args, pos);
                    scope.variables.push((n.clone(), rest));
                    pos = args.len();
                },
            }
            k = k + 1;
        }
        if pos < args.len() || !named_fits(params, named) {
            Err(ErrorKind::Argument)
        } else {
            Ok(scope)
        }
    }

    /// Binds the arguments, then runs the stages in order in the child
    /// scope; the last stage's output goes to the context's output.
    pub fn invoke(&self, context: &mut CommandContext) -> (r: Result<(), ErrorKind>)
        ensures
            (final(context)@, r) == self@.run(old(context)@),
    {
        let base = Scope { variables: context.scopes.visible(self.env) };
        let scope = self.bind_arguments(&context.arguments, &context.named, &base)?;
        let ghost vars = scope.variables@;
        let ghost jobs = self@.jobs;
        let n = self.job_definitions.len();
        let mut i: usize = 0;
        while i < n
            invariant
                n == jobs.len(),
                jobs == jobs_view(self.job_definitions@),
                vars == scope.variables@,
                i <= n,
                context@ == old(context)@,
                self@.run(old(context)@) == run_jobs(jobs, i as int, vars, context@),
            decreases n - i,
        {
            let job = &self.job_definitions[i];
            assert(jobs[i as int] == job@);
            let this = scope.evaluate_opt(&job.this)?;
            let arguments = scope.evaluate_all(&job.arguments)?;
            let mut stage = CommandContext::new(arguments, this);
            invoke_builtin(job.call, &mut stage)?;
            if i == n - 1 {
                let mut k: usize = 0;
                let ghost before = context.output@;
                assert(before + stage.output@.subrange(0, 0) =~= before);
                while k < stage.output.len()
                    invariant
                        k <= stage.output@.len(),
                        context.output@ == before + stage.output@.subrange(0, k as int),
                        context.arguments@ == old(context).arguments@,
                        context.this == old(context).this,
                        context.scopes@ == old(context).scopes@,
                        context.named@ == old(context).named@,
                    decreases stage.output@.len() - k,
                {
                    context.output.push(stage.output[k].copy());
                    k = k + 1;
                }
                assert(stage.output@.subrange(0, k as int) =~= stage.output@);
                return Ok(());
            }
            i = i + 1;
        }
        Ok(())
    }
}

} // verus!

verus! {

/// A native command: a builtin body with static metadata.
pub struct SimpleCommand {
    pub call: Builtin,
    pub can_block: bool,
    pub full_name: Vec<String>,
    pub signature: &'static str,
    pub short_help: &'static str,
    pub long_help: Option<&'static str>,
    pub output: OutputType,
}

/// A native command whose blocking depends on its argument expressions.
pub struct ConditionCommand {
    pub call: Builtin,
    pub full_name: Vec<String>,
    pub signature: &'static str,
    pub short_help: &'static str,
    pub long_help: Option<&'static str>,
}

/// A command together with the receiver it is invoked on.
pub struct BoundCommand {
    pub command: Box<CrushCommand>,
    pub this: Value,
}

/// Any command value.
pub enum CrushCommand {
    Simple(SimpleCommand),
    Condition(ConditionCommand),
    Bound(BoundCommand),
    Closure(Closure),
}

/// The long help of a native command: the output line and the author's
/// text, separated by a blank line, either of them possibly absent.
pub open spec fn joined_help(o: Option<Seq<char>>, l: Option<Seq<char>>) -> Option<Seq<char>> {
    match (o, l) {
        (Some(o), Some(l)) => Some(o + "\n\n"@ + l),
        (Some(o), None) => Some(o),
        (None, Some(l)) => Some(l),
        (None, None) => None,
    }
}

pub open spec fn str_opt(s: Option<&'static str>) -> Option<Seq<char>> {
    match s {
        Some(s) => Some(s@),
        None => None,
    }
}

impl CrushCommand {
    /// `other` is a duplicate of this command: same metadata, same body.
    pub open spec fn same_as(&self, other: CrushCommand) -> bool
        decreases self,
    {
        match (self, other) {
            (CrushCommand::Simple(a), CrushCommand::Simple(b)) => a.call == b.call && a.can_block == b.can_block
                && a.full_name@ == b.full_name@ && a.signature == b.signature && a.short_help == b.short_help
                && a.long_help == b.long_help && a.output == b.output,
            (CrushCommand::Condition(a), CrushCommand::Condition(b)) => a.call == b.call
                && a.full_name@ == b.full_name@ && a.signature == b.signature && a.short_help == b.short_help
                && a.long_help == b.long_help,
            (CrushCommand::Bound(a), CrushCommand::Bound(b)) => a.command.same_as(*b.command) && a.this == b.this,
            (CrushCommand::Closure(a), CrushCommand::Closure(b)) => a@ == b@,
            _ => false,
        }
    }

    /// What invoking the command does to a context.
    pub open spec fn run(&self, c: ContextState) -> Outcome
        decreases self,
    {
        match self {
            CrushCommand::Simple(s) => run_builtin(s.call, c),
            CrushCommand::Condition(s) => run_builtin(s.call, c),
            CrushCommand::Bound(b) => b.command.run(ContextState { this: Some(b.this), ..c }),
            CrushCommand::Closure(cl) => cl@.run(c),
        }
    }

    /// The command with its receiver, if any, taken off.
    pub open spec fn unbound(&self) -> CrushCommand {
        match self {
            CrushCommand::Bound(b) => *b.command,
            _ => *self,
        }
    }

    pub open spec fn resolved_output(&self, input: OutputType) -> Option<ValueType>
        decreases self,
    {
        match self {
            CrushCommand::Simple(s) => s.output.resolve(input),
            CrushCommand::Bound(b) => b.command.resolved_output(input),
            _ => None,
        }
    }

    pub open spec fn blocks(&self, arguments: Seq<ArgumentDefinition>) -> bool
        decreases self,
    {
        match self {
            CrushCommand::Simple(s) => s.can_block,
            CrushCommand::Condition(_) => exists|i: int| 0 <= i < arguments.len() && #[trigger] arguments[i].value.blocks(),
            CrushCommand::Bound(b) => b.command.blocks(arguments),
            CrushCommand::Closure(cl) => exists|i: int| 0 <= i < cl@.jobs.len() && #[trigger] cl@.jobs[i].blocks(),
        }
    }

    pub open spec fn label(&self) -> Seq<char>
        decreases self,
    {
        match self {
            CrushCommand::Simple(_) => "command"@,
            CrushCommand::Condition(_) => "conditional command"@,
            CrushCommand::Bound(b) => b.command.label(),
            CrushCommand::Closure(_) => "closure"@,
        }
    }

    pub open spec fn signature_text(&self) -> Seq<char>
        decreases self,
    {
        match self {
            CrushCommand::Simple(s) => s.signature@,
            CrushCommand::Condition(s) => s.signature@,
            CrushCommand::Bound(b) => b.command.signature_text(),
            CrushCommand::Closure(cl) => match cl.name {
                Some(n) => n@,
                None => "closure"@,
            },
        }
    }

    pub open spec fn short_help_text(&self) -> Seq<char>
        decreases self,
    {
        match self {
            CrushCommand::Simple(s) => s.short_help@,
            CrushCommand::Condition(s) => s.short_help@,
            CrushCommand::Bound(b) => b.command.short_help_text(),
            CrushCommand::Closure(_) => Seq::empty(),
        }
    }

    pub open spec fn long_help_text(&self) -> Option<Seq<char>>
        decreases self,
    {
        match self {
            CrushCommand::Simple(s) => joined_help(s.output.description(), str_opt(s.long_help)),
            CrushCommand::Condition(s) => str_opt(s.long_help),
            CrushCommand::Bound(b) => b.command.long_help_text(),
            CrushCommand::Closure(_) => None,
        }
    }

    /// Invokes the command on a context.
    pub fn invoke(&self, context: &mut CommandContext) -> (r: Result<(), ErrorKind>)
        ensures
            (final(context)@, r) == self.run(old(context)@),
        decreases self,
    {
        match self {
            CrushCommand::Simple(s) => invoke_builtin(s.call, context),
            CrushCommand::Condition(s) => invoke_builtin(s.call, context),
            CrushCommand::Bound(b) => {
                context.this = Some(b.this.copy());
                b.command.invoke(context)
            },
            CrushCommand::Closure(cl) => cl.invoke(context),
        }
    }

    /// An independently owned duplicate.
    pub fn copy(&self) -> (r: CrushCommand)
        ensures
            self.same_as(r),
        decreases self,
    {
        match self {
            CrushCommand::Simple(s) => CrushCommand::Simple(SimpleCommand {
                call: s.call,
                can_block: s.can_block,
                full_name: copy_names(&s.full_name),
                signature: s.signature,
                short_help: s.short_help,
                long_help: s.long_help,
                output: s.output.copy(),
            }),
            CrushCommand::Condition(s) => CrushCommand::Condition(ConditionCommand {
                call: s.call,
                full_name: copy_names(&s.full_name),
                signature: s.signature,
                short_help: s.short_help,
                long_help: s.long_help,
            }),
            CrushCommand::Bound(b) => CrushCommand::Bound(BoundCommand {
                command: Box::new(b.command.copy()),
                this: b.this.copy(),
            }),
            CrushCommand::Closure(cl) => CrushCommand::Closure(cl.copy()),
        }
    }

    /// A new command that invokes a copy of this one (without any earlier
    /// receiver) on `this`.
    pub fn bind(&self, this: Value) -> (r: CrushCommand)
        ensures
            r is Bound,
            r->Bound_0.this == this,
            self.unbound().same_as(*r->Bound_0.command),
    {
        let command = match self {
            CrushCommand::Bound(b) => b.command.copy(),
            _ => self.copy(),
        };
        CrushCommand::Bound(BoundCommand { command: Box::new(command), this })
    }

    /// The element type of the output, given the upstream output type.
    pub fn output(&self, input: &OutputType) -> (r: Option<ValueType>)
        ensures
            r == self.resolved_output(*input),
        decreases self,
    {
        match self {
            CrushCommand::Simple(s) => s.output.calculate(input),
            CrushCommand::Bound(b) => b.command.output(input),
            _ => None,
        }
    }

    /// Whether invoking the command with these arguments may block.
    pub fn can_block(&self, arguments: &Vec<ArgumentDefinition>) -> (r: bool)
        ensures
            r == self.blocks(arguments@),
        decreases self,
    {
        match self {
            CrushCommand::Simple(s) => s.can_block,
            CrushCommand::Condition(_) => {
                let mut i: usize = 0;
                while i < arguments.len()
                    invariant
                        self is Condition,
                        i <= arguments@.len(),
                        forall|j: int| 0 <= j < i ==> !(#[trigger] arguments@[j].value.blocks()),
                    decreases arguments@.len() - i,
                {
                    if arguments[i].value.can_block() {
                        assert(arguments@[i as int].value.blocks());
                        return true;
                    }
                    i = i + 1;
                }
                false
            },
            CrushCommand::Bound(b) => b.command.can_block(arguments),
            CrushCommand::Closure(cl) => {
                let mut i: usize = 0;
                while i < cl.job_definitions.len()
                    invariant
                        *self == CrushCommand::Closure(*cl),
                        i <= cl.job_definitions@.len(),
                        forall|j: int| 0 <= j < i ==> !(#[trigger] cl@.jobs[j].blocks()),
                    decreases cl.job_definitions@.len() - i,
                {
                    if cl.job_definitions[i].can_block() {
                        assert(cl@.jobs[i as int].blocks());
                        return true;
                    }
                    i = i + 1;
                }
                false
            },
        }
    }

    /// A label for the kind of command, for diagnostics.
    pub fn name(&self) -> (r: &'static str)
        ensures
            r@ == self.label(),
        decreases self,
    {
        match self {
            CrushCommand::Simple(_) => "command",
            CrushCommand::Condition(_) => "conditional command",
            CrushCommand::Bound(b) => b.command.name(),
            CrushCommand::Closure(_) => "closure",
        }
    }

    pub fn signature(&self) -> (r: String)
        ensures
            r@ == self.signature_text(),
        decreases self,
    {
        match self {
            CrushCommand::Simple(s) => text_of(s.signature),
            CrushCommand::Condition(s) => text_of(s.signature),
            CrushCommand::Bound(b) => b.command.signature(),
            CrushCommand::Closure(cl) => match &cl.name {
                Some(n) => n.clone(),
                None => text_of("closure"),
            },
        }
    }

    pub fn short_help(&self) -> (r: String)
        ensures
            r@ == self.short_help_text(),
        decreases self,
    {
        match self {
            CrushCommand::Simple(s) => text_of(s.short_help),
            CrushCommand::Condition(s) => text_of(s.short_help),
            CrushCommand::Bound(b) => b.command.short_help(),
            CrushCommand::Closure(_) => String::new(),
        }
    }

    pub fn long_help(&self) -> (r: Option<String>)
        ensures
            r is Some == self.long_help_text() is Some,
            r is Some ==> r->0@ == self.long_help_text()->0,
        decreases self,
    {
        match self {
            CrushCommand::Simple(s) => {
                let o = s.output.format();
                match (o, s.long_help) {
                    (Some(o), Some(l)) => {
                        let mut t = o;
                        t.append("\n\n");
                        t.append(l);
                        Some(t)
                    },
                    (Some(o), None) => Some(o),
                    (None, Some(l)) => Some(text_of(l)),
                    (None, None) => None,
                }
            },
            CrushCommand::Condition(s) => match s.long_help {
                Some(l) => Some(text_of(l)),
                None => None,
            },
            CrushCommand::Bound(b) => b.command.long_help(),
            CrushCommand::Closure(_) => None,
        }
    }
}

} // verus!

verus! {

/// What a global path is bound to.
pub enum Binding {
    Command(CrushCommand),
    Value(Value),
}

/// The environment that deserialization resolves symbolic paths in:
/// global bindings, newest last.
pub struct Environment {
    pub globals: Vec<(Vec<String>, Binding)>,
}

pub open spec fn names(s: Seq<String>) -> Seq<Seq<char>> {
    s.map_values(|x: String| x@)
}

/// The index of the newest global bound at `path`.
pub open spec fn global_index(g: Seq<(Vec<String>, Binding)>, path: Seq<Seq<char>>) -> Option<int>
    decreases g.len(),
{
    if g.len() == 0 {
        None
    } else if names(g.last().0@) == path {
        Some(g.len() - 1)
    } else {
        global_index(g.drop_last(), path)
    }
}

proof fn lemma_global_index_in_range(g: Seq<(Vec<String>, Binding)>, path: Seq<Seq<char>>)
    ensures
        global_index(g, path) is Some ==> 0 <= global_index(g, path)->0 < g.len(),
    decreases g.len(),
{
    if g.len() > 0 {
        lemma_global_index_in_range(g.drop_last(), path);
    }
}

pub fn same_path(a: &Vec<String>, b: &Vec<String>) -> (r: bool)
    ensures
        r == (names(a@) == names(b@)),
{
    if a.len() != b.len() {
        assert(names(a@).len() != names(b@).len());
        return false;
    }
    let mut i: usize = 0;
    while i < a.len()
        invariant
            a@.len() == b@.len(),
            i <= a@.len(),
            forall|j: int| 0 <= j < i ==> (#[trigger] a@[j])@ == b@[j]@,
        decreases a@.len() - i,
    {
        if !a[i].eq(&b[i]) {
            assert(names(a@)[i as int] != names(b@)[i as int]);
            return false;
        }
        i = i + 1;
    }
    assert(names(a@) =~= names(b@));
    true
}

impl Environment {
    pub fn new() -> (r: Environment)
        ensures
            r.globals@ == Seq::<(Vec<String>, Binding)>::empty(),
    {
        Environment { globals: Vec::new() }
    }

    /// Binds `path` globally, shadowing any earlier binding of it.
    pub fn declare(&mut self, path: Vec<String>, value: Binding)
        ensures
            final(self).globals@ == old(self).globals@.push((path, value)),
    {
        self.globals.push((path, value));
    }

    /// The index of the newest global bound at `path`.
    pub fn find(&self, path: &Vec<String>) -> (r: Option<usize>)
        ensures
            match r {
                Some(i) => global_index(self.globals@, names(path@)) == Some(i as int) && i < self.globals@.len(),
                None => global_index(self.globals@, names(path@)) is None,
            },
    {
        let mut i: usize = self.globals.len();
        proof { lemma_global_index_in_range(self.globals@, names(path@)); }
        assert(self.globals@.subrange(0, i as int) =~= self.globals@);
        while i > 0
            invariant
                i <= self.globals@.len(),
                global_index(self.globals@, names(path@)) == global_index(self.globals@.subrange(0, i as int), names(path@)),
            decreases i,
        {
            assert(self.globals@.subrange(0, i as int).drop_last() =~= self.globals@.subrange(0, i - 1));
            if same_path(&self.globals[i - 1].0, path) {
                return Some(i - 1);
            }
            i = i - 1;
        }
        None
    }
}

/// The node that joins a receiver node and a command node.
pub struct BoundElement {
    pub this: usize,
    pub command: usize,
}

/// A node of a serialized command graph; nodes refer only to earlier ones.
pub enum Element {
    /// A native command, by its symbolic path.
    Command(Vec<String>),
    BoundCommand(BoundElement),
    Closure(Closure),
    Value(Value),
}

/// The mathematical form of a node.
pub enum ElementModel {
    Command(Seq<Seq<char>>),
    BoundCommand(int, int),
    Closure(ClosureModel),
    Value(Value),
}

impl Element {
    pub open spec fn view(&self) -> ElementModel {
        match self {
            Element::Command(p) => ElementModel::Command(names(p@)),
            Element::BoundCommand(b) => ElementModel::BoundCommand(b.this as int, b.command as int),
            Element::Closure(c) => ElementModel::Closure(c@),
            Element::Value(v) => ElementModel::Value(*v),
        }
    }
}

pub open spec fn elements_view(s: Seq<Element>) -> Seq<ElementModel> {
    s.map_values(|e: Element| e@)
}

/// Appends a value node and returns its index.
pub fn serialize_value(v: &Value, elements: &mut Vec<Element>) -> (r: usize)
    ensures
        elements_view(final(elements)@) == elements_view(old(elements)@).push(ElementModel::Value(*v)),
        r == old(elements)@.len(),
{
    let idx = elements.len();
    elements.push(Element::Value(v.copy()));
    assert(elements_view(elements@) =~= elements_view(old(elements)@).push(ElementModel::Value(*v)));
    idx
}

impl CrushCommand {
    /// The nodes that serializing the command appends, the first of them
    /// at index `start`; the last one is the command's own.
    pub open spec fn nodes(&self, start: int) -> Seq<ElementModel>
        decreases self,
    {
        match self {
            CrushCommand::Simple(s) => seq![ElementModel::Command(names(s.full_name@))],
            CrushCommand::Condition(s) => seq![ElementModel::Command(names(s.full_name@))],
            CrushCommand::Bound(b) => {
                let inner = b.command.nodes(start + 1);
                seq![ElementModel::Value(b.this)] + inner + seq![ElementModel::BoundCommand(start, start + inner.len())]
            },
            CrushCommand::Closure(c) => seq![ElementModel::Closure(c@)],
        }
    }

    /// Appends the command's nodes and returns the index of its own.
    pub fn serialize(&self, elements: &mut Vec<Element>) -> (r: usize)
        ensures
            elements_view(final(elements)@) == elements_view(old(elements)@) + self.nodes(old(elements)@.len() as int),
            r as int == old(elements)@.len() + self.nodes(old(elements)@.len() as int).len() - 1,
            r < final(elements)@.len(),
        decreases self,
    {
        let start = elements.len();
        match self {
            CrushCommand::Simple(s) => {
                let e = Element::Command(copy_names(&s.full_name));
                elements.push(e);
                assert(elements_view(elements@) =~= elements_view(old(elements)@).push(e@));
            },
            CrushCommand::Condition(s) => {
                let e = Element::Command(copy_names(&s.full_name));
                elements.push(e);
                assert(elements_view(elements@) =~= elements_view(old(elements)@).push(e@));
            },
            CrushCommand::Bound(b) => {
                let this = serialize_value(&b.this, elements);
                let ghost mid = elements_view(elements@);
                let command = b.command.serialize(elements);
                let ghost inner = b.command.nodes(start as int + 1);
                let ghost before = elements_view(elements@);
                assert(before == elements_view(old(elements)@) + seq![ElementModel::Value(b.this)] + inner);
                let e = Element::BoundCommand(BoundElement { this, command });
                elements.push(e);
                assert(elements_view(elements@) =~= before.push(e@));
            },
            CrushCommand::Closure(c) => {
                let e = Element::Closure(c.copy());
                elements.push(e);
                assert(elements_view(elements@) =~= elements_view(old(elements)@).push(e@));
            },
        }
        assert(elements_view(elements@) =~= elements_view(old(elements)@) + self.nodes(start as int));
        elements.len() - 1
    }

    /// Whether `r` is what deserializing node `id` against the globals `env`
    /// gives.
    pub open spec fn decodes(
        id: int,
        els: Seq<Element>,
        env: Seq<(Vec<String>, Binding)>,
        r: Result<CrushCommand, ErrorKind>,
    ) -> bool
        decreases id,
    {
        if !(0 <= id < els.len()) {
            r == Err::<CrushCommand, ErrorKind>(ErrorKind::Malformed)
        } else {
            match els[id] {
                Element::Command(path) => match global_index(env, names(path@)) {
                    None => r == Err::<CrushCommand, ErrorKind>(ErrorKind::Lookup),
                    Some(i) => match env[i].1 {
                        Binding::Command(c) => r is Ok && c.same_as(r->Ok_0),
                        Binding::Value(_) => r == Err::<CrushCommand, ErrorKind>(ErrorKind::TypeMismatch),
                    },
                },
                Element::BoundCommand(b) => if !(b.this < id && b.command < id) {
                    r == Err::<CrushCommand, ErrorKind>(ErrorKind::Malformed)
                } else {
                    match els[b.this as int] {
                        Element::Value(v) => match r {
                            Ok(CrushCommand::Bound(bc)) => bc.this == v && exists|inner: CrushCommand|
                                CrushCommand::decodes(b.command as int, els, env, Ok(inner))
                                    && inner.unbound().same_as(*bc.command),
                            Err(e) => CrushCommand::decodes(b.command as int, els, env, Err(e)),
                            _ => false,
                        },
                        _ => r == Err::<CrushCommand, ErrorKind>(ErrorKind::TypeMismatch),
                    }
                },
                Element::Closure(c) => r is Ok && r->Ok_0 is Closure && r->Ok_0->Closure_0@ == c@,
                Element::Value(_) => r == Err::<CrushCommand, ErrorKind>(ErrorKind::TypeMismatch),
            }
        }
    }

    /// Reconstructs the command at node `id`, resolving native commands by
    /// their path in `env`.
    pub fn deserialize(id: usize, elements: &Vec<Element>, env: &Environment) -> (r: Result<CrushCommand, ErrorKind>)
        ensures
            CrushCommand::decodes(id as int, elements@, env.globals@, r),
        decreases id,
    {
        if id >= elements.len() {
            return Err(ErrorKind::Malformed);
        }
        match &elements[id] {
            Element::Command(path) => match env.find(path) {
                None => Err(ErrorKind::Lookup),
                Some(i) => match &env.globals[i].1 {
                    Binding::Command(c) => Ok(c.copy()),
                    Binding::Value(_) => Err(ErrorKind::TypeMismatch),
                },
            },
            Element::BoundCommand(b) => {
                if !(b.this < id && b.command < id) {
                    return Err(ErrorKind::Malformed);
                }
                let this = match &elements[b.this] {
                    Element::Value(v) => v.copy(),
                    _ => return Err(ErrorKind::TypeMismatch),
                };
                let inner = CrushCommand::deserialize(b.command, elements, env)?;
                let r = inner.bind(this);
                assert(CrushCommand::decodes(b.command as int, elements@, env.globals@, Ok(inner)));
                Ok(r)
            },
            Element::Closure(c) => Ok(CrushCommand::Closure(c.copy())),
            Element::Value(_) => Err(ErrorKind::TypeMismatch),
        }
    }
}

} // verus!

verus! {

impl CrushCommand {
    /// A closure over the given scope.
    pub fn closure(
        name: Option<String>,
        signature: Option<Vec<Parameter>>,
        job_definitions: Vec<Job>,
        env: usize,
    ) -> (r: CrushCommand)
        ensures
            r is Closure,
            r->Closure_0.name == name,
            r->Closure_0.signature == signature,
            r->Closure_0.job_definitions == job_definitions,
            r->Closure_0.env == env,
    {
        CrushCommand::Closure(Closure::new(name, signature, job_definitions, env))
    }

    /// A native command.
    pub fn command(
        call: Builtin,
        can_block: bool,
        full_name: Vec<String>,
        signature: &'static str,
        short_help: &'static str,
        long_help: Option<&'static str>,
        output: OutputType,
    ) -> (r: CrushCommand)
        ensures
            r == CrushCommand::Simple(SimpleCommand { call, can_block, full_name, signature, short_help, long_help, output }),
    {
        CrushCommand::Simple(SimpleCommand { call, can_block, full_name, signature, short_help, long_help, output })
    }

    /// A native command whose blocking follows its argument expressions.
    pub fn condition(
        call: Builtin,
        full_name: Vec<String>,
        signature: &'static str,
        short_help: &'static str,
        long_help: Option<&'static str>,
    ) -> (r: CrushCommand)
        ensures
            r == CrushCommand::Condition(ConditionCommand { call, full_name, signature, short_help, long_help }),
    {
        CrushCommand::Condition(ConditionCommand { call, full_name, signature, short_help, long_help })
    }
}

/// `c` is the native command that `declare` registers for these arguments.
pub open spec fn declared_as(
    c: CrushCommand,
    path: Seq<&'static str>,
    call: Builtin,
    can_block: bool,
    signature: &'static str,
    short_help: &'static str,
    long_help: Option<&'static str>,
    output: OutputType,
) -> bool {
    &&& c is Simple
    &&& c->Simple_0.call == call
    &&& c->Simple_0.can_block == can_block
    &&& names(c->Simple_0.full_name@) == path.map_values(|s: &'static str| s@)
    &&& c->Simple_0.signature == signature
    &&& c->Simple_0.short_help == short_help
    &&& c->Simple_0.long_help == long_help
    &&& c->Simple_0.output == output
}

/// A set of commands keyed by name, to which families of builtins are added.
pub trait TypeMap {
    spec fn commands(&self) -> Map<Seq<char>, CrushCommand>;

    /// Registers a native command under the last segment of `path`, with
    /// the whole path as its symbolic name; an earlier command under that
    /// key is replaced.
    fn declare(
        &mut self,
        path: &Vec<&'static str>,
        call: Builtin,
        can_block: bool,
        signature: &'static str,
        short_help: &'static str,
        long_help: Option<&'static str>,
        output: OutputType,
    )
        requires
            path@.len() > 0,
        ensures
            final(self).commands().dom() == old(self).commands().dom().insert(path@.last()@),
            forall|k: Seq<char>| k != path@.last()@ && #[trigger] old(self).commands().contains_key(k)
                ==> final(self).commands()[k] == old(self).commands()[k],
            declared_as(final(self).commands()[path@.last()@], path@, call, can_block, signature, short_help, long_help, output),
    ;
}

} // verus!

verus! {

/// The index of the newest entry under `k`.
pub open spec fn newest(s: Seq<(String, CrushCommand)>, k: Seq<char>) -> Option<int>
    decreases s.len(),
{
    if s.len() == 0 {
        None
    } else if s.last().0@ == k {
        Some(s.len() - 1)
    } else {
        newest(s.drop_last(), k)
    }
}

proof fn lemma_newest_in_range(s: Seq<(String, CrushCommand)>, k: Seq<char>)
    ensures
        newest(s, k) is Some ==> 0 <= newest(s, k)->0 < s.len(),
    decreases s.len(),
{
    if s.len() > 0 {
        lemma_newest_in_range(s.drop_last(), k);
    }
}

/// Commands in the order they were declared; a later one under a key
/// shadows the earlier ones.
pub struct CommandMap {
    pub entries: Vec<(String, CrushCommand)>,
}

impl CommandMap {
    pub fn new() -> (r: CommandMap)
        ensures
            r.commands() == Map::<Seq<char>, CrushCommand>::empty(),
    {
        let r = CommandMap { entries: Vec::new() };
        assert(r.commands() =~= Map::<Seq<char>, CrushCommand>::empty());
        r
    }

    /// The command under `key`.
    pub fn get(&self, key: &str) -> (r: Option<&CrushCommand>)
        ensures
            r is Some == self.commands().contains_key(key@),
            r is Some ==> *r->0 == self.commands()[key@],
    {
        let wanted = text_of(key);
        let mut i: usize = self.entries.len();
        proof { lemma_newest_in_range(self.entries@, key@); }
        assert(self.entries@.subrange(0, i as int) =~= self.entries@);
        while i > 0
            invariant
                wanted@ == key@,
                i <= self.entries@.len(),
                newest(self.entries@, key@) == newest(self.entries@.subrange(0, i as int), key@),
            decreases i,
        {
            assert(self.entries@.subrange(0, i as int).drop_last() =~= self.entries@.subrange(0, i - 1));
            if self.entries[i - 1].0.eq(&wanted) {
                return Some(&self.entries[i - 1].1);
            }
            i = i - 1;
        }
        None
    }
}

impl TypeMap for CommandMap {
    open spec fn commands(&self) -> Map<Seq<char>, CrushCommand> {
        Map::new(
            |k: Seq<char>| newest(self.entries@, k) is Some,
            |k: Seq<char>| self.entries@[newest(self.entries@, k)->0].1,
        )
    }

    fn declare(
        &mut self,
        path: &Vec<&'static str>,
        call: Builtin,
        can_block: bool,
        signature: &'static str,
        short_help: &'static str,
        long_help: Option<&'static str>,
        output: OutputType,
    ) {
        let mut full_name: Vec<String> = Vec::new();
        let mut i: usize = 0;
        while i < path.len()
            invariant
                i <= path@.len(),
                names(full_name@) == path@.subrange(0, i as int).map_values(|s: &'static str| s@),
            decreases path@.len() - i,
        {
            let ghost prev = full_name@;
            full_name.push(text_of(path[i]));
            i = i + 1;
            assert(names(full_name@) =~= names(prev).push(path@[i - 1]@));
            assert(path@.subrange(0, i as int).map_values(|s: &'static str| s@)
                =~= path@.subrange(0, i - 1).map_values(|s: &'static str| s@).push(path@[i - 1]@));
        }
        assert(path@.subrange(0, i as int) =~= path@);
        let key = text_of(path[path.len() - 1]);
        let c = CrushCommand::command(call, can_block, full_name, signature, short_help, long_help, output);
        let ghost before = self.entries@;
        self.entries.push((key, c));
        assert(self.entries@.drop_last() =~= before);
        assert(self.entries@.last().0@ == path@.last()@);
        assert(newest(self.entries@, path@.last()@) == Some(before.len() as int));
        assert forall|k: Seq<char>| k != path@.last()@ implies newest(self.entries@, k) == newest(before, k) by {}
        assert forall|k: Seq<char>| k != path@.last()@ && #[trigger] old(self).commands().contains_key(k)
            implies self.commands()[k] == old(self).commands()[k] by {
            lemma_newest_in_range(before, k);
        }
        assert(self.commands().dom() =~= old(self).commands().dom().insert(path@.last()@));
        assert(self.commands()[path@.last()@] == self.entries@[before.len() as int].1);
    }
}

} // verus!

verus! {

/// A duplicate of a command agrees with it: the relation is symmetric, and
/// the two invoke, resolve output, block, describe themselves and
/// serialize alike.
pub proof fn lemma_duplicate_agrees(a: CrushCommand, b: CrushCommand)
    requires
        a.same_as(b),
    ensures
        b.same_as(a),
        a.unbound().same_as(b.unbound()),
        forall|c: ContextState| #[trigger] a.run(c) == b.run(c),
        forall|x: OutputType| #[trigger] a.resolved_output(x) == b.resolved_output(x),
        forall|args: Seq<ArgumentDefinition>| #[trigger] a.blocks(args) == b.blocks(args),
        a.label() == b.label(),
        a.signature_text() == b.signature_text(),
        a.short_help_text() == b.short_help_text(),
        a.long_help_text() == b.long_help_text(),
    decreases a,
{
    if let CrushCommand::Bound(x) = a {
        if let CrushCommand::Bound(y) = b {
            lemma_duplicate_agrees(*x.command, *y.command);
            assert forall|c: ContextState| #[trigger] a.run(c) == b.run(c) by {
                assert(x.command.run(ContextState { this: Some(x.this), ..c })
                    == y.command.run(ContextState { this: Some(y.this), ..c }));
            }
            assert forall|o: OutputType| #[trigger] a.resolved_output(o) == b.resolved_output(o) by {
                assert(x.command.resolved_output(o) == y.command.resolved_output(o));
            }
            assert forall|args: Seq<ArgumentDefinition>| #[trigger] a.blocks(args) == b.blocks(args) by {
                assert(x.command.blocks(args) == y.command.blocks(args));
            }
        }
    }
}

/// Duplication is transitive.
pub proof fn lemma_duplicate_transitive(a: CrushCommand, b: CrushCommand, c: CrushCommand)
    requires
        a.same_as(b),
        b.same_as(c),
    ensures
        a.same_as(c),
    decreases a,
{
    if let CrushCommand::Bound(x) = a {
        if let CrushCommand::Bound(y) = b {
            if let CrushCommand::Bound(z) = c {
                lemma_duplicate_transitive(*x.command, *y.command, *z.command);
            }
        }
    }
}

/// A copy of a native or conditional command behaves as the command it copies on
/// every context.
pub proof fn lemma_copy_invokes_alike(source: CrushCommand, copy: CrushCommand, c: ContextState)
    requires
        source is Simple || source is Condition,
        source.same_as(copy),
    ensures
        copy.run(c) == source.run(c),
{
    lemma_duplicate_agrees(source, copy);
}

/// Invoking a bound command is invoking the command it wraps, stripped of
/// any earlier receiver, on a context whose receiver is the bound value.
pub proof fn lemma_bind_sets_receiver(command: CrushCommand, this: Value, bound: CrushCommand, c: ContextState)
    requires
        bound is Bound,
        bound->Bound_0.this == this,
        command.unbound().same_as(*bound->Bound_0.command),
    ensures
        bound.run(c) == command.unbound().run(ContextState { this: Some(this), ..c }),
{
    lemma_duplicate_agrees(command.unbound(), *bound->Bound_0.command);
}

/// The input type handed to the next stage for a resolved output.
pub open spec fn as_input(r: Option<ValueType>) -> OutputType {
    match r {
        Some(t) => OutputType::Known(t),
        None => OutputType::Unknown,
    }
}

/// A known output type resolves to itself and an unknown one to nothing,
/// whatever the input; two passthrough stages after a root stage resolve
/// to what the root declares, and to nothing when it declares no type.
pub proof fn lemma_output_resolution(t: ValueType, input: OutputType, root: OutputType)
    ensures
        OutputType::Known(t).resolve(input) == Some(t),
        OutputType::Unknown.resolve(input) is None,
        OutputType::Passthrough.resolve(as_input(OutputType::Passthrough.resolve(as_input(root.resolve(OutputType::Unknown)))))
            == match root {
                OutputType::Known(r) => Some(r),
                _ => None::<ValueType>,
            },
{
}

/// Deserializing the node a native command serialized to, against an
/// environment where its path is bound to that command, gives a command
/// with the same label, help and behaviour.
pub proof fn lemma_native_round_trip(
    command: CrushCommand,
    id: int,
    elements: Seq<Element>,
    env: Seq<(Vec<String>, Binding)>,
    registered: CrushCommand,
    r: Result<CrushCommand, ErrorKind>,
)
    requires
        command is Simple || command is Condition,
        0 <= id < elements.len(),
        elements[id]@ == command.nodes(id)[0],
        global_index(env, names(match command {
            CrushCommand::Simple(s) => s.full_name@,
            CrushCommand::Condition(s) => s.full_name@,
            _ => Seq::empty(),
        })) is Some,
        env[global_index(env, names(match command {
            CrushCommand::Simple(s) => s.full_name@,
            CrushCommand::Condition(s) => s.full_name@,
            _ => Seq::empty(),
        }))->0].1 == Binding::Command(registered),
        registered.same_as(command),
        CrushCommand::decodes(id, elements, env, r),
    ensures
        r is Ok,
        r->Ok_0.label() == command.label(),
        r->Ok_0.signature_text() == command.signature_text(),
        r->Ok_0.short_help_text() == command.short_help_text(),
        r->Ok_0.long_help_text() == command.long_help_text(),
        forall|c: ContextState| #[trigger] r->Ok_0.run(c) == command.run(c),
{
    let got = r->Ok_0;
    lemma_duplicate_agrees(registered, got);
    lemma_duplicate_agrees(registered, command);
    lemma_duplicate_agrees(got, registered);
    lemma_duplicate_transitive(got, registered, command);
    lemma_duplicate_agrees(got, command);
}

/// Deserializing the nodes a bound native command serialized to gives a
/// command that invokes as the serialized one on every context, so its body sees
/// the same receiver.
pub proof fn lemma_bound_round_trip(
    command: CrushCommand,
    start: int,
    elements: Seq<Element>,
    env: Seq<(Vec<String>, Binding)>,
    registered: CrushCommand,
    r: Result<CrushCommand, ErrorKind>,
)
    requires
        command is Bound,
        (*command->Bound_0.command) is Simple || (*command->Bound_0.command) is Condition,
        0 <= start,
        start + 3 <= elements.len(),
        elements_view(elements).subrange(start, start + 3) == command.nodes(start),
        global_index(env, names(match *command->Bound_0.command {
            CrushCommand::Simple(s) => s.full_name@,
            CrushCommand::Condition(s) => s.full_name@,
            _ => Seq::empty(),
        })) is Some,
        env[global_index(env, names(match *command->Bound_0.command {
            CrushCommand::Simple(s) => s.full_name@,
            CrushCommand::Condition(s) => s.full_name@,
            _ => Seq::empty(),
        }))->0].1 == Binding::Command(registered),
        registered.same_as(*command->Bound_0.command),
        CrushCommand::decodes(start + 2, elements, env, r),
    ensures
        r is Ok,
        forall|c: ContextState| #[trigger] r->Ok_0.run(c) == command.run(c),
{
    let b = command->Bound_0;
    let inner = *b.command;
    let nodes = command.nodes(start);
    assert(inner.nodes(start + 1) == seq![nodes[1]]);
    assert(elements_view(elements)[start] == nodes[0]);
    assert(elements_view(elements)[start + 1] == nodes[1]);
    assert(elements_view(elements)[start + 2] == nodes[2]);
    assert(elements[start]@ == ElementModel::Value(b.this));
    assert(elements[start + 1]@ == inner.nodes(start + 1)[0]);
    match r {
        Ok(CrushCommand::Bound(bc)) => {
            let w = choose|w: CrushCommand| CrushCommand::decodes(start + 1, elements, env, Ok(w))
                && w.unbound().same_as(*bc.command);
            lemma_duplicate_agrees(registered, w);
            lemma_duplicate_agrees(registered, inner);
            lemma_duplicate_agrees(w, registered);
            lemma_duplicate_transitive(inner, registered, w);
            lemma_duplicate_transitive(inner, w, *bc.command);
            lemma_duplicate_agrees(inner, *bc.command);
            assert forall|c: ContextState| #[trigger] r->Ok_0.run(c) == command.run(c) by {
                assert(bc.command.run(ContextState { this: Some(bc.this), ..c })
                    == inner.run(ContextState { this: Some(b.this), ..c }));
            }
        },
        Err(e) => {
            assert(CrushCommand::decodes(start + 1, elements, env, Err(e)));
        },
        _ => {},
    }
}

/// A symbolic path that the environment does not bind fails to
/// deserialize with a lookup failure.
pub proof fn lemma_absent_path_fails(
    id: int,
    elements: Seq<Element>,
    env: Seq<(Vec<String>, Binding)>,
    r: Result<CrushCommand, ErrorKind>,
)
    requires
        0 <= id < elements.len(),
        elements[id] is Command,
        global_index(env, names(elements[id]->Command_0@)) is None,
        CrushCommand::decodes(id, elements, env, r),
    ensures
        r == Err::<CrushCommand, ErrorKind>(ErrorKind::Lookup),
{
}

} // verus!

verus! {

/// Invoking a closure with fewer arguments, positional and named together,
/// than it has parameters without a default fails with an argument error,
/// before any default is evaluated or any stage runs, leaving the context
/// as it was.
pub proof fn lemma_missing_arguments_fail(closure: ClosureModel, c: ContextState)
    requires
        closure.signature is Some,
        required_count(closure.signature->0, 0) > c.arguments.len() + c.named.len(),
    ensures
        closure.run(c) == (c, Err::<(), ErrorKind>(ErrorKind::Argument)),
{
}

} // verus!

verus! {

/// Native commands are never equal to one another, not even to a copy:
/// their identity is their path, not their value.
impl PartialEq for SimpleCommand {
    fn eq(&self, other: &SimpleCommand) -> (r: bool)
        ensures
            !r,
    {
        false
    }
}

impl vstd::std_specs::cmp::PartialEqSpecImpl for SimpleCommand {
    open spec fn obeys_eq_spec() -> bool {
        false
    }

    open spec fn eq_spec(&self, other: &SimpleCommand) -> bool {
        false
    }
}

/// Conditional commands are never equal to one another.
impl PartialEq for ConditionCommand {
    fn eq(&self, other: &ConditionCommand) -> (r: bool)
        ensures
            !r,
    {
        false
    }
}

impl vstd::std_specs::cmp::PartialEqSpecImpl for ConditionCommand {
    open spec fn obeys_eq_spec() -> bool {
        false
    }

    open spec fn eq_spec(&self, other: &ConditionCommand) -> bool {
        false
    }
}

} // verus!

verus! {

impl ValueDefinition {
    /// How the expression is written.
    pub open spec fn text(&self) -> Seq<char> {
        match self {
            ValueDefinition::Value(v) => v.text(),
            ValueDefinition::Variable(n) => "$"@ + n@,
            ValueDefinition::Call(_, _, _) => "(call)"@,
        }
    }

    pub fn to_text(&self) -> (r: String)
        ensures
            r@ == self.text(),
    {
        match self {
            ValueDefinition::Value(v) => v.to_text(),
            ValueDefinition::Variable(n) => {
                let mut r = text_of("$");
                r.append(n.as_str());
                r
            },
            ValueDefinition::Call(_, _, _) => text_of("(call)"),
        }
    }
}

impl Parameter {
    /// How the parameter is written in a signature: `name:type=default`,
    /// `@@name` for the named collector, `@name` for the positional one.
    pub open spec fn text(&self) -> Seq<char> {
        match self {
            Parameter::Parameter(n, t, d) => n@ + ":"@ + t.text() + match d {
                Some(d) => "="@ + d.text(),
                None => Seq::empty(),
            },
            Parameter::Named(n) => "@@"@ + n@,
            Parameter::Unnamed(n) => "@"@ + n@,
        }
    }

    pub fn to_text(&self) -> (r: String)
        ensures
            r@ == self.text(),
    {
        match self {
            Parameter::Parameter(n, t, d) => {
                let mut r = n.clone();
                r.append(":");
                let tt = t.to_text();
                r.append(tt.as_str());
                if let Some(d) = d {
                    r.append("=");
                    let dt = d.to_text();
                    r.append(dt.as_str());
                }
                r
            },
            Parameter::Named(n) => {
                let mut r = text_of("@@");
                r.append(n.as_str());
                r
            },
            Parameter::Unnamed(n) => {
                let mut r = text_of("@");
                r.append(n.as_str());
                r
            },
        }
    }
}

} // verus!
