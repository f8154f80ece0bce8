use vstd::prelude::*;
use crate::error::MergeError;
use crate::fields::{FieldView, field_kind, has_duplicate, spec_from_fields};
use crate::lexer::{skip_ws, word, punct};
use crate::parser::{entry, entries_rest, fields_rest, spec_parse_modules};
use crate::names::{ModuleSpec, conventional_file_path, strs};
use crate::program::any_fallback;
use crate::relay::{EntryPoint, ForwardMode, Param, ProgramDescriptor, Relay, RelayBody, is_relay_of};

verus! {

/// A relay of a module with a non-empty prefix `p` is named `p_name`.
pub proof fn law_prefixed_relay_name(spec: ModuleSpec, ix: EntryPoint, mode: ForwardMode, r: Relay, p: String)
    requires
        spec.wf(),
        spec.prefix == Some(p),
        p@.len() > 0,
        is_relay_of(spec, ix, mode, r),
    ensures
        r.name@ == p@ + "_"@ + ix.name@,
{
    reveal_strlit("_");
}

/// A relay of a module whose prefix is the empty string keeps the
/// instruction's name.
pub proof fn law_empty_prefix_relay_name(spec: ModuleSpec, ix: EntryPoint, mode: ForwardMode, r: Relay)
    requires
        spec.wf(),
        spec.prefix is Some,
        spec.prefix->Some_0@.len() == 0,
        is_relay_of(spec, ix, mode, r),
    ensures
        r.name@ == ix.name@,
{
}

/// A relay of a module without a prefix is named after the first segment
/// of the module path: `first_name`.
pub proof fn law_default_prefix_relay_name(spec: ModuleSpec, ix: EntryPoint, mode: ForwardMode, r: Relay)
    requires
        spec.wf(),
        spec.prefix is None,
        is_relay_of(spec, ix, mode, r),
    ensures
        r.name@ == spec.module@[0]@ + "_"@ + ix.name@,
{
    reveal_strlit("_");
    assert(strs(spec.module@)[0] == spec.module@[0]@);
}

/// Without `file_path` a module is read from the conventional file of its
/// path; with it, from exactly that file.
pub proof fn law_file_path(spec: ModuleSpec)
    ensures
        spec.file_path is None ==> spec.spec_file_path() == conventional_file_path(strs(spec.module@)),
        spec.file_path is Some ==> spec.spec_file_path() == spec.file_path->Some_0@,
{
}

/// One module that declares a fallback handler makes the whole merge fail.
pub proof fn law_fallback_aborts(programs: Seq<ProgramDescriptor>, k: int)
    requires
        0 <= k < programs.len(),
        programs[k].has_fallback,
    ensures
        any_fallback(programs),
{
}

/// Two fields that set the same thing make a module entry fail.
pub proof fn law_duplicate_field(fields: Seq<FieldView>, i: int, j: int)
    requires
        0 <= i < j < fields.len(),
        field_kind(fields[i]) == field_kind(fields[j]),
    ensures
        spec_from_fields(fields) == Err::<crate::names::ModuleSpecView, MergeError>(MergeError::DuplicateField),
{
    assert(has_duplicate(fields));
}

/// Reading the module list from `i` on goes on, entry after entry, to an
/// entry that starts at `t`.
pub open spec fn list_reaches(s: Seq<char>, i: int, t: int) -> bool
    decreases s.len() - i,
{
    if i == t {
        true
    } else {
        let j = skip_ws(s, i);
        &&& !(0 <= j < s.len() && s[j] == ']')
        &&& match entry(s, i) {
            Ok((m, e)) => {
                let k = skip_ws(s, e);
                &&& 0 <= k < s.len()
                &&& s[k] == ','
                &&& i < k + 1
                &&& list_reaches(s, k + 1, t)
            },
            Err(_) => false,
        }
    }
}

/// An entry that fails makes the rest of the list fail with its error,
/// whatever entries came before it.
pub proof fn lemma_entry_error_fails_list(s: Seq<char>, i: int, t: int, acc: Seq<crate::names::ModuleSpecView>)
    requires
        list_reaches(s, i, t),
        !(0 <= skip_ws(s, t) < s.len() && s[skip_ws(s, t)] == ']'),
        entry(s, t) is Err,
    ensures
        entries_rest(s, i, acc) == Err::<(Seq<crate::names::ModuleSpecView>, int), MergeError>(
            entry(s, t)->Err_0,
        ),
    decreases s.len() - i,
{
    if i != t {
        let (m, e) = entry(s, i)->Ok_0;
        let k = skip_ws(s, e);
        lemma_entry_error_fails_list(s, k + 1, t, acc.push(m));
    }
}

/// An object entry with two fields that set the same thing makes the whole
/// module list fail: no list comes back, not even the entries before it.
pub proof fn law_duplicate_field_fails_parse(s: Seq<char>, b: int, t: int)
    requires
        word(s, 0) is Ok,
        word(s, 0)->Ok_0.0 == "modules"@,
        punct(s, word(s, 0)->Ok_0.1, '=') is Ok,
        punct(s, punct(s, word(s, 0)->Ok_0.1, '=')->Ok_0, '[') == Ok::<int, MergeError>(b),
        list_reaches(s, b, t),
        0 <= skip_ws(s, t) < s.len(),
        s[skip_ws(s, t)] == '{',
        fields_rest(s, skip_ws(s, t) + 1, Seq::empty()) is Ok,
        has_duplicate(fields_rest(s, skip_ws(s, t) + 1, Seq::empty())->Ok_0.0),
    ensures
        spec_parse_modules(s) == Err::<Seq<crate::names::ModuleSpecView>, MergeError>(MergeError::DuplicateField),
{
    assert(entry(s, t) == Err::<(crate::names::ModuleSpecView, int), MergeError>(MergeError::DuplicateField));
    lemma_entry_error_fails_list(s, b, t, Seq::empty());
}

/// A relay hands the instruction its arguments in the order and number of
/// the instruction's parameters: as the argument list of a direct call, or
/// as the parameter list passed to the wrapper.
pub proof fn law_forwarded_arguments(spec: ModuleSpec, ix: EntryPoint, mode: ForwardMode, r: Relay)
    requires
        spec.wf(),
        is_relay_of(spec, ix, mode, r),
    ensures
        match r.body {
            RelayBody::Call { args } => args@ == ix.params@.map_values(|p: Param| p.pat),
            RelayBody::Macro { .. } => r.params@.map_values(|p: Param| p.pat) == ix.params@.map_values(
                |p: Param| p.pat,
            ),
        },
{
    match r.body {
        RelayBody::Call { args } => {
            assert(args@ =~= ix.params@.map_values(|p: Param| p.pat));
        },
        RelayBody::Macro { .. } => {
            assert(r.params@.map_values(|p: Param| p.pat) =~= ix.params@.map_values(|p: Param| p.pat));
        },
    }
}

} // verus!
