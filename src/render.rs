use vstd::prelude::*;
use crate::merge::ModuleItem;
use crate::names::strs;
use crate::relay::{Param, Relay, RelayBody};

verus! {

/// `parts` with `sep` between each two of them.
pub open spec fn joined(parts: Seq<Seq<char>>, sep: Seq<char>) -> Seq<char>
    decreases parts.len(),
{
    if parts.len() == 0 {
        Seq::empty()
    } else if parts.len() == 1 {
        parts[0]
    } else {
        joined(parts.drop_last(), sep) + sep + parts.last()
    }
}

/// A path written with `::` between its segments.
pub open spec fn path_text(segs: Seq<Seq<char>>) -> Seq<char> {
    joined(segs, "::"@)
}

/// A path with its leading `::` where `rooted`.
pub open spec fn rooted_path_text(rooted: bool, segs: Seq<Seq<char>>) -> Seq<char> {
    (if rooted {
        "::"@
    } else {
        Seq::empty()
    }) + path_text(segs)
}

/// A parameter as declared: `pat: ty`, or `mut pat: ty`.
pub open spec fn param_text(p: Param) -> Seq<char> {
    (if p.mutable {
        "mut "@
    } else {
        Seq::empty()
    }) + p.pat@ + ": "@ + p.ty@
}

/// A parameter list, without the parentheses.
pub open spec fn params_text(ps: Seq<Param>) -> Seq<char> {
    joined(ps.map_values(|p: Param| param_text(p)), ", "@)
}

/// Attributes, each followed by a line break.
pub open spec fn attrs_text(attrs: Seq<Seq<char>>) -> Seq<char>
    decreases attrs.len(),
{
    if attrs.len() == 0 {
        Seq::empty()
    } else {
        attrs_text(attrs.drop_last()) + attrs.last() + "\n"@
    }
}

/// The return type clause: empty for a function without one.
pub open spec fn ret_text(ret: Seq<char>) -> Seq<char> {
    if ret.len() == 0 {
        Seq::empty()
    } else {
        " -> "@ + ret
    }
}

/// The expression that a relay's body is.
pub open spec fn body_text(r: Relay) -> Seq<char> {
    match r.body {
        RelayBody::Call { args } => rooted_path_text(r.target_rooted, strs(r.target@)) + "("@ + joined(strs(args@), ", "@) + ")"@,
        RelayBody::Macro { rooted, wrapper } => rooted_path_text(rooted, strs(wrapper@)) + "!("@
            + rooted_path_text(r.target_rooted, strs(r.target@)) + ", "@
            + params_text(r.params@) + ")"@,
    }
}

/// A relay as a function definition.
pub open spec fn relay_text(r: Relay) -> Seq<char> {
    attrs_text(strs(r.attrs@)) + "pub fn "@ + r.name@ + r.generics@ + "("@ + params_text(r.params@) + ")"@
        + ret_text(r.ret@) + " where 'c: 'info {\n    "@ + body_text(r) + "\n}"@
}

/// The definition of the default wrapper macro: it calls the instruction
/// with the names of the parameters.
pub open spec fn default_wrapper_text() -> Seq<char> {
    "macro_rules! _modular_context_default_wrapper {\n    ($ix:path, $ctx:ident: $ctx_type:ty $(, $arg:ident: $arg_type:ty )*) => {\n        $ix($ctx $(, $arg)*)\n    }\n}"@
}

/// An item of the primary module as source text.
pub open spec fn item_text(item: ModuleItem) -> Seq<char> {
    match item {
        ModuleItem::Source(s) => s@,
        ModuleItem::DefaultWrapper => default_wrapper_text(),
        ModuleItem::Relay(r) => relay_text(r),
    }
}

/// Joins `parts` with `sep` between each two of them.
fn join(parts: &Vec<String>, sep: &str) -> (r: String)
    ensures
        r@ == joined(strs(parts@), sep@),
{
    let ghost ps = strs(parts@);
    let mut r = String::new();
    let mut i: usize = 0;
    proof {
        assert(ps.take(0) =~= Seq::<Seq<char>>::empty());
    }
    while i < parts.len()
        invariant
            ps == strs(parts@),
            i <= parts@.len(),
            r@ == joined(ps.take(i as int), sep@),
        decreases parts.len() - i,
    {
        if i > 0 {
            r.append(sep);
        }
        r.append(parts[i].as_str());
        proof {
            assert(ps.take(i + 1).drop_last() =~= ps.take(i as int));
            assert(ps.take(i + 1).last() == parts@[i as int]@);
            if i == 0 {
                assert(r@ =~= ps.take(1)[0]);
            }
        }
        i += 1;
    }
    proof {
        assert(ps.take(i as int) =~= ps);
    }
    r
}

/// Writes a parameter as declared.
fn write_param(p: &Param) -> (r: String)
    ensures
        r@ == param_text(*p),
{
    let mut r = if p.mutable {
        String::from_str("mut ")
    } else {
        String::new()
    };
    r.append(p.pat.as_str());
    r.append(": ");
    r.append(p.ty.as_str());
    r
}

/// Writes a parameter list.
fn write_params(ps: &Vec<Param>) -> (r: String)
    ensures
        r@ == params_text(ps@),
{
    let mut texts: Vec<String> = Vec::new();
    let mut i: usize = 0;
    while i < ps.len()
        invariant
            i <= ps@.len(),
            strs(texts@) =~= ps@.take(i as int).map_values(|p: Param| param_text(p)),
        decreases ps.len() - i,
    {
        let t = write_param(&ps[i]);
        let ghost before = texts@;
        texts.push(t);
        proof {
            assert(strs(texts@) =~= strs(before).push(t@));
            assert(ps@.take(i + 1).map_values(|p: Param| param_text(p)) =~= ps@.take(i as int).map_values(
                |p: Param| param_text(p),
            ).push(param_text(ps@[i as int])));
        }
        i += 1;
    }
    proof {
        assert(ps@.take(i as int) =~= ps@);
    }
    join(&texts, ", ")
}

/// Writes the attributes, each on a line of its own.
fn write_attrs(attrs: &Vec<String>) -> (r: String)
    ensures
        r@ == attrs_text(strs(attrs@)),
{
    let ghost a = strs(attrs@);
    let mut r = String::new();
    let mut i: usize = 0;
    proof {
        assert(a.take(0) =~= Seq::<Seq<char>>::empty());
    }
    while i < attrs.len()
        invariant
            a == strs(attrs@),
            i <= attrs@.len(),
            r@ == attrs_text(a.take(i as int)),
        decreases attrs.len() - i,
    {
        r.append(attrs[i].as_str());
        r.append("\n");
        proof {
            assert(a.take(i + 1).drop_last() =~= a.take(i as int));
            assert(a.take(i + 1).last() == attrs@[i as int]@);
        }
        i += 1;
    }
    proof {
        assert(a.take(i as int) =~= a);
    }
    r
}

/// Writes a relay as a function definition.
pub fn render_relay(r: &Relay) -> (t: String)
    ensures
        t@ == relay_text(*r),
{
    let mut t = write_attrs(&r.attrs);
    t.append("pub fn ");
    t.append(r.name.as_str());
    t.append(r.generics.as_str());
    t.append("(");
    let params = write_params(&r.params);
    t.append(params.as_str());
    t.append(")");
    if r.ret.as_str().unicode_len() > 0 {
        t.append(" -> ");
        t.append(r.ret.as_str());
    }
    t.append(" where 'c: 'info {\n    ");
    let mut target = if r.target_rooted {
        String::from_str("::")
    } else {
        String::new()
    };
    let target_path = join(&r.target, "::");
    target.append(target_path.as_str());
    match &r.body {
        RelayBody::Call { args } => {
            t.append(target.as_str());
            t.append("(");
            let a = join(args, ", ");
            t.append(a.as_str());
            t.append(")");
        },
        RelayBody::Macro { rooted, wrapper } => {
            let mut w = if *rooted {
                String::from_str("::")
            } else {
                String::new()
            };
            let wrapper_path = join(wrapper, "::");
            w.append(wrapper_path.as_str());
            t.append(w.as_str());
            t.append("!(");
            t.append(target.as_str());
            t.append(", ");
            t.append(params.as_str());
            t.append(")");
        },
    }
    t.append("\n}");
    proof {
        assert(t@ =~= relay_text(*r));
    }
    t
}

/// Writes an item of the primary module as source text.
pub fn render_item(item: &ModuleItem) -> (t: String)
    ensures
        t@ == item_text(*item),
{
    match item {
        ModuleItem::Source(s) => s.clone(),
        ModuleItem::DefaultWrapper => String::from_str(
            "macro_rules! _modular_context_default_wrapper {\n    ($ix:path, $ctx:ident: $ctx_type:ty $(, $arg:ident: $arg_type:ty )*) => {\n        $ix($ctx $(, $arg)*)\n    }\n}",
        ),
        ModuleItem::Relay(r) => render_relay(r),
    }
}

} // verus!
