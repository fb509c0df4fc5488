//! What a command sees when it runs: arguments, receiver and output sink.

use vstd::prelude::*;
use crate::value::Value;

verus! {

/// The kinds of failure a command can report.
pub enum ErrorKind {
    /// Wrong arity, wrong receiver, missing or unexpected argument.
    Argument,
    /// A value was found where another kind of value was needed.
    TypeMismatch,
    /// A symbolic path or variable does not resolve.
    Lookup,
    /// A serialized node refers to a node that does not precede it.
    Malformed,
}

/// One lexical scope: its bindings, newest last, and the scope it is
/// nested in.
pub struct Frame {
    pub parent: Option<usize>,
    pub variables: Vec<(String, Value)>,
}

pub struct FrameModel {
    pub parent: Option<usize>,
    pub variables: Seq<(String, Value)>,
}

/// All scopes, addressed by handle. A scope's parent has a smaller handle,
/// so parent chains end.
pub struct ScopeArena {
    pub frames: Vec<Frame>,
}

/// The bindings visible from scope `h`: those of its ancestors, then its
/// own, newest last.
pub open spec fn visible(frames: Seq<FrameModel>, h: int) -> Seq<(String, Value)>
    decreases h,
{
    if h < 0 || h >= frames.len() {
        Seq::empty()
    } else {
        match frames[h].parent {
            Some(p) => if p < h { visible(frames, p as int) + frames[h].variables } else { frames[h].variables },
            None => frames[h].variables,
        }
    }
}

impl ScopeArena {
    pub open spec fn view(&self) -> Seq<FrameModel> {
        self.frames@.map_values(|f: Frame| FrameModel { parent: f.parent, variables: f.variables@ })
    }

    pub fn new() -> (r: ScopeArena)
        ensures
            r@ == Seq::<FrameModel>::empty(),
    {
        let r = ScopeArena { frames: Vec::new() };
        assert(r@ =~= Seq::<FrameModel>::empty());
        r
    }

    /// Opens a new empty scope nested in `parent` and returns its handle.
    pub fn open(&mut self, parent: Option<usize>) -> (r: usize)
        ensures
            r == old(self)@.len(),
            final(self)@ == old(self)@.push(FrameModel { parent, variables: Seq::empty() }),
    {
        let r = self.frames.len();
        self.frames.push(Frame { parent, variables: Vec::new() });
        assert(self@ =~= old(self)@.push(FrameModel { parent, variables: Seq::empty() }));
        r
    }

    /// Binds `name` in scope `h`, shadowing any earlier binding there.
    pub fn bind(&mut self, h: usize, name: String, value: Value)
        requires
            h < old(self)@.len(),
        ensures
            final(self)@ == old(self)@.update(h as int, FrameModel {
                variables: old(self)@[h as int].variables.push((name, value)),
                ..old(self)@[h as int]
            }),
    {
        let mut variables: Vec<(String, Value)> = Vec::new();
        let mut i: usize = 0;
        while i < self.frames[h].variables.len()
            invariant
                h < self.frames@.len(),
                i <= self.frames@[h as int].variables@.len(),
                variables@ == self.frames@[h as int].variables@.subrange(0, i as int),
            decreases self.frames@[h as int].variables@.len() - i,
        {
            variables.push((self.frames[h].variables[i].0.clone(), self.frames[h].variables[i].1.copy()));
            i = i + 1;
        }
        assert(variables@ =~= self.frames@[h as int].variables@);
        variables.push((name, value));
        let parent = self.frames[h].parent;
        self.frames.set(h, Frame { parent, variables });
        assert(self@ =~= old(self)@.update(h as int, FrameModel {
            variables: old(self)@[h as int].variables.push((name, value)),
            ..old(self)@[h as int]
        }));
    }

    /// The bindings visible from scope `h`.
    pub fn visible(&self, h: usize) -> (r: Vec<(String, Value)>)
        ensures
            r@ == visible(self@, h as int),
        decreases h,
    {
        if h >= self.frames.len() {
            return Vec::new();
        }
        let mut r = match self.frames[h].parent {
            Some(p) => if p < h { self.visible(p) } else { Vec::new() },
            None => Vec::new(),
        };
        let ghost start = r@;
        let own = &self.frames[h].variables;
        let mut i: usize = 0;
        while i < own.len()
            invariant
                i <= own@.len(),
                r@ == start + own@.subrange(0, i as int),
            decreases own@.len() - i,
        {
            r.push((own[i].0.clone(), own[i].1.copy()));
            i = i + 1;
            assert(start + own@.subrange(0, i as int) =~= (start + own@.subrange(0, i - 1)).push(own@[i - 1]));
        }
        assert(own@.subrange(0, i as int) =~= own@);
        assert(self@[h as int].variables == own@);
        assert(start + own@ =~= visible(self@, h as int));
        r
    }
}

/// Arguments, receiver slot, output sink and scopes of one invocation.
pub struct CommandContext {
    pub arguments: Vec<Value>,
    /// Named arguments, in the order given.
    pub named: Vec<(String, Value)>,
    pub this: Option<Value>,
    pub output: Vec<Value>,
    pub scopes: ScopeArena,
}

/// The mathematical state of a context.
pub struct ContextState {
    pub arguments: Seq<Value>,
    pub named: Seq<(String, Value)>,
    pub this: Option<Value>,
    pub output: Seq<Value>,
    pub scopes: Seq<FrameModel>,
}

impl CommandContext {
    pub open spec fn view(&self) -> ContextState {
        ContextState { arguments: self.arguments@, named: self.named@, this: self.this, output: self.output@, scopes: self.scopes@ }
    }

    /// A context with no scopes.
    pub fn new(arguments: Vec<Value>, this: Option<Value>) -> (r: CommandContext)
        ensures
            r@ == (ContextState { arguments: arguments@, named: Seq::empty(), this, output: Seq::empty(), scopes: Seq::empty() }),
    {
        CommandContext { arguments, named: Vec::new(), this, output: Vec::new(), scopes: ScopeArena::new() }
    }

    /// A context with named arguments whose scopes are `scopes`.
    pub fn with_scopes(
        arguments: Vec<Value>,
        named: Vec<(String, Value)>,
        this: Option<Value>,
        scopes: ScopeArena,
    ) -> (r: CommandContext)
        ensures
            r@ == (ContextState { arguments: arguments@, named: named@, this, output: Seq::empty(), scopes: scopes@ }),
    {
        CommandContext { arguments, named, this, output: Vec::new(), scopes }
    }
}

} // verus!

verus! {

proof fn lemma_visible_prefix(a: Seq<FrameModel>, b: Seq<FrameModel>, h: int)
    requires
        0 <= h < a.len(),
        h < b.len(),
        forall|j: int| 0 <= j <= h ==> a[j] == b[j],
    ensures
        visible(a, h) == visible(b, h),
    decreases h,
{
    if let Some(p) = a[h].parent {
        if p < h {
            lemma_visible_prefix(a, b, p as int);
        }
    }
}

/// A binding made in scope `h` is seen from `h` after all earlier ones, so
/// anything that reads scope `h` when it runs sees it.
pub proof fn lemma_later_binding_visible(frames: Seq<FrameModel>, h: int, name: String, value: Value)
    requires
        0 <= h < frames.len(),
    ensures
        visible(frames.update(h, FrameModel { variables: frames[h].variables.push((name, value)), ..frames[h] }), h)
            == visible(frames, h).push((name, value)),
{
    let after = frames.update(h, FrameModel { variables: frames[h].variables.push((name, value)), ..frames[h] });
    if let Some(p) = frames[h].parent {
        if p < h {
            lemma_visible_prefix(after, frames, p as int);
        }
    }
    assert(visible(after, h) =~= visible(frames, h).push((name, value)));
}

} // verus!
