use vstd::prelude::*;
use crate::names::{ModuleSpec, relay_ident, relay_name};

verus! {

/// One parameter of an instruction: `pat: ty`, with `mutable` set where the
/// binding is `mut pat`.
pub struct Param {
    pub pat: String,
    pub ty: String,
    pub mutable: bool,
}

/// An instruction found in a module.
pub struct EntryPoint {
    /// The function's name.
    pub name: String,
    /// Its attributes as source text, in order.
    pub attrs: Vec<String>,
    /// Its generic parameter list as source text (`<'info>`, or empty).
    pub generics: String,
    /// Its parameters; the first one is the context.
    pub params: Vec<Param>,
    /// Its return type as source text.
    pub ret: String,
    /// The accounts struct named by its context type.
    pub accounts: String,
}

/// What parsing one module gave.
pub struct ProgramDescriptor {
    pub entries: Vec<EntryPoint>,
    pub has_fallback: bool,
}

/// How a relay without a wrapper of its own reaches its instruction.
#[derive(Clone, Copy, PartialEq, Eq)]
pub enum ForwardMode {
    /// A direct call with the parameter names.
    Direct,
    /// Through the default wrapper macro, like a custom wrapper.
    DefaultWrapper,
}

/// The body of a relay.
pub enum RelayBody {
    /// `target(args...)`.
    Call { args: Vec<String> },
    /// `wrapper!(target, params...)`, with the full parameter list;
    /// `rooted` where the wrapper path has a leading `::`.
    Macro { rooted: bool, wrapper: Vec<String> },
}

/// A generated forwarding function.
pub struct Relay {
    pub name: String,
    pub attrs: Vec<String>,
    pub generics: String,
    pub params: Vec<Param>,
    pub ret: String,
    /// Full path of the instruction called: module segments, then its name.
    pub target: Vec<String>,
    /// The target path has a leading `::`.
    pub target_rooted: bool,
    pub body: RelayBody,
}

/// Name of the wrapper macro that performs a plain call.
pub open spec fn default_wrapper_name() -> Seq<char> {
    "_modular_context_default_wrapper"@
}

/// Generic parameters of a relay whose context type is rewritten.
pub open spec fn relay_generics() -> Seq<char> {
    "<'a, 'b, 'c, 'info>"@
}

/// The context type of a relay, for accounts struct `acc`.
pub open spec fn context_type(acc: Seq<char>) -> Seq<char> {
    "Context<'a, 'b, 'c, 'info, "@ + acc + "<'info>>"@
}

/// Parameter `r` is parameter `i` of `ix` as its relay declares it: same
/// pattern, never `mut`, and the context type rewritten for the first.
pub open spec fn relays_param(ix: EntryPoint, i: int, r: Param) -> bool {
    &&& r.pat == ix.params@[i].pat
    &&& !r.mutable
    &&& r.ty@ == if i == 0 {
        context_type(ix.accounts@)
    } else {
        ix.params@[i].ty@
    }
}

/// The body that the relay of `ix` in module `spec` gets.
pub open spec fn relays_body(spec: ModuleSpec, ix: EntryPoint, mode: ForwardMode, b: RelayBody) -> bool {
    match spec.wrapper {
        Some(w) => match b {
            RelayBody::Macro { rooted, wrapper } => wrapper@ == w@ && rooted == spec.wrapper_rooted,
            RelayBody::Call { .. } => false,
        },
        None => match mode {
            ForwardMode::Direct => match b {
                RelayBody::Call { args } => {
                    &&& args@.len() == ix.params@.len()
                    &&& forall|i: int| 0 <= i < args@.len() ==> args@[i] == #[trigger] ix.params@[i].pat
                },
                RelayBody::Macro { .. } => false,
            },
            ForwardMode::DefaultWrapper => match b {
                RelayBody::Macro { rooted, wrapper } => {
                    &&& !rooted
                    &&& wrapper@.len() == 1
                    &&& wrapper@[0]@ == default_wrapper_name()
                },
                RelayBody::Call { .. } => false,
            },
        },
    }
}

/// `r` is the relay of instruction `ix` of module `spec`.
pub open spec fn is_relay_of(spec: ModuleSpec, ix: EntryPoint, mode: ForwardMode, r: Relay) -> bool {
    &&& r.name@ == relay_ident(spec.effective_prefix(), ix.name@)
    &&& r.attrs@ == ix.attrs@
    &&& r.generics@ == if ix.params@.len() > 0 {
        relay_generics()
    } else {
        ix.generics@
    }
    &&& r.params@.len() == ix.params@.len()
    &&& forall|i: int| 0 <= i < r.params@.len() ==> relays_param(ix, i, #[trigger] r.params@[i])
    &&& r.ret == ix.ret
    &&& r.target@ == spec.module@.push(ix.name)
    &&& r.target_rooted == spec.module_rooted
    &&& relays_body(spec, ix, mode, r.body)
}

/// A copy of `v`.
fn copy_strings(v: &Vec<String>) -> (r: Vec<String>)
    ensures
        r@ == v@,
{
    let mut r: Vec<String> = Vec::new();
    let mut i: usize = 0;
    while i < v.len()
        invariant
            i <= v@.len(),
            r@ == v@.take(i as int),
        decreases v.len() - i,
    {
        r.push(v[i].clone());
        proof {
            assert(v@.take(i + 1) =~= v@.take(i as int).push(v@[i as int]));
        }
        i += 1;
    }
    proof {
        assert(v@.take(i as int) =~= v@);
    }
    r
}

/// Builds the relay of instruction `ix` of module `spec`.
///
/// Relays of modules without a wrapper call the instruction directly or go
/// through the default wrapper, as `mode` says.
pub fn build_relay(spec: &ModuleSpec, ix: &EntryPoint, mode: ForwardMode) -> (r: Relay)
    requires
        spec.wf(),
    ensures
        is_relay_of(*spec, *ix, mode, r),
{
    let name = relay_name(spec, ix.name.as_str());
    let mut params: Vec<Param> = Vec::new();
    let mut args: Vec<String> = Vec::new();
    let mut i: usize = 0;
    while i < ix.params.len()
        invariant
            i <= ix.params@.len(),
            params@.len() == i,
            args@.len() == i,
            forall|j: int| 0 <= j < i ==> relays_param(*ix, j, #[trigger] params@[j]),
            forall|j: int| 0 <= j < i ==> args@[j] == #[trigger] ix.params@[j].pat,
        decreases ix.params.len() - i,
    {
        let p = &ix.params[i];
        let ty = if i == 0 {
            let mut t = String::from_str("Context<'a, 'b, 'c, 'info, ");
            t.append(ix.accounts.as_str());
            t.append("<'info>>");
            t
        } else {
            p.ty.clone()
        };
        params.push(Param { pat: p.pat.clone(), ty, mutable: false });
        args.push(p.pat.clone());
        i += 1;
    }
    let generics = if ix.params.len() > 0 {
        String::from_str("<'a, 'b, 'c, 'info>")
    } else {
        ix.generics.clone()
    };
    let mut target = copy_strings(&spec.module);
    target.push(ix.name.clone());
    let body = match &spec.wrapper {
        Some(w) => RelayBody::Macro { rooted: spec.wrapper_rooted, wrapper: copy_strings(w) },
        None => match mode {
            ForwardMode::Direct => RelayBody::Call { args },
            ForwardMode::DefaultWrapper => {
                let mut wrapper: Vec<String> = Vec::new();
                wrapper.push(String::from_str("_modular_context_default_wrapper"));
                RelayBody::Macro { rooted: false, wrapper }
            },
        },
    };
    Relay {
        name,
        attrs: copy_strings(&ix.attrs),
        generics,
        params,
        ret: ix.ret.clone(),
        target,
        target_rooted: spec.module_rooted,
        body,
    }
}

} // verus!
