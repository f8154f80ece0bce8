use vstd::prelude::*;
use crate::error::MergeError;
use crate::names::ModuleSpec;
use crate::merge::{PrimaryModule, merged_items, append_to_program_module};
use crate::relay::{ProgramDescriptor, ForwardMode, Relay, is_relay_of, build_relay};

verus! {

/// Accepts the descriptor of a secondary module: such a module may not
/// declare a fallback handler, which only the primary module may have.
pub fn check_secondary(program: ProgramDescriptor) -> (r: Result<ProgramDescriptor, MergeError>)
    ensures
        program.has_fallback ==> r == Err::<ProgramDescriptor, MergeError>(MergeError::FallbackInModule),
        !program.has_fallback ==> r == Ok::<ProgramDescriptor, MergeError>(program),
{
    if program.has_fallback {
        Err(MergeError::FallbackInModule)
    } else {
        Ok(program)
    }
}

/// Some module of `programs` declares a fallback handler.
pub open spec fn any_fallback(programs: Seq<ProgramDescriptor>) -> bool {
    exists|k: int| 0 <= k < programs.len() && (#[trigger] programs[k]).has_fallback
}

/// `out` holds the relays of the modules `specs`, whose parsed contents are
/// `programs`: module by module in list order, and within a module in the
/// order of its instructions.
pub open spec fn relays_in_order(
    specs: Seq<ModuleSpec>,
    programs: Seq<ProgramDescriptor>,
    mode: ForwardMode,
    out: Seq<Relay>,
) -> bool
    decreases specs.len(),
{
    if specs.len() == 0 {
        out.len() == 0
    } else {
        let ixs = programs.last().entries@;
        let start = out.len() - ixs.len();
        &&& out.len() >= ixs.len()
        &&& relays_in_order(specs.drop_last(), programs.drop_last(), mode, out.take(start))
        &&& forall|i: int|
            0 <= i < ixs.len() ==> is_relay_of(specs.last(), ixs[i], mode, #[trigger] out[start + i])
    }
}

/// All module paths have a segment, and there is one descriptor per module.
pub open spec fn modules_wf(specs: Seq<ModuleSpec>, programs: Seq<ProgramDescriptor>) -> bool {
    &&& specs.len() == programs.len()
    &&& forall|k: int| 0 <= k < specs.len() ==> (#[trigger] specs[k]).wf()
}

/// Builds the relays of every instruction of every module, in order.
///
/// `programs[k]` is what module `specs[k]` was parsed into. Fails, with no
/// relay at all, where any of them declares a fallback handler.
pub fn generate_relays(specs: &Vec<ModuleSpec>, programs: &Vec<ProgramDescriptor>, mode: ForwardMode) -> (r:
    Result<Vec<Relay>, MergeError>)
    requires
        modules_wf(specs@, programs@),
    ensures
        any_fallback(programs@) ==> r == Err::<Vec<Relay>, MergeError>(MergeError::FallbackInModule),
        !any_fallback(programs@) ==> r is Ok,
        r is Ok ==> relays_in_order(specs@, programs@, mode, r->Ok_0@),
{
    let mut k: usize = 0;
    while k < programs.len()
        invariant
            k <= programs@.len(),
            forall|j: int| 0 <= j < k ==> !(#[trigger] programs@[j]).has_fallback,
        decreases programs.len() - k,
    {
        if programs[k].has_fallback {
            return Err(MergeError::FallbackInModule);
        }
        k += 1;
    }
    let mut out: Vec<Relay> = Vec::new();
    let mut m: usize = 0;
    proof {
        assert(specs@.take(0) =~= Seq::<ModuleSpec>::empty());
    }
    while m < specs.len()
        invariant
            modules_wf(specs@, programs@),
            m <= specs@.len(),
            relays_in_order(specs@.take(m as int), programs@.take(m as int), mode, out@),
        decreases specs.len() - m,
    {
        let ixs = &programs[m].entries;
        let ghost before = out@;
        let mut i: usize = 0;
        while i < ixs.len()
            invariant
                modules_wf(specs@, programs@),
                m < specs@.len(),
                ixs == programs@[m as int].entries,
                i <= ixs@.len(),
                out@.len() == before.len() + i,
                out@.take(before.len() as int) == before,
                forall|j: int|
                    0 <= j < i ==> is_relay_of(specs@[m as int], ixs@[j], mode, #[trigger] out@[before.len() + j]),
            decreases ixs.len() - i,
        {
            let r = build_relay(&specs[m], &ixs[i], mode);
            out.push(r);
            proof {
                assert(out@.take(before.len() as int) =~= before);
            }
            i += 1;
        }
        proof {
            let s1 = specs@.take(m + 1);
            let p1 = programs@.take(m + 1);
            assert(s1.drop_last() =~= specs@.take(m as int));
            assert(p1.drop_last() =~= programs@.take(m as int));
            assert(s1.last() == specs@[m as int]);
            assert(p1.last() == programs@[m as int]);
            assert forall|j: int| 0 <= j < ixs@.len() implies is_relay_of(
                s1.last(),
                p1.last().entries@[j],
                mode,
                #[trigger] out@[out@.len() - ixs@.len() + j],
            ) by {
                assert(out@[before.len() + j] == out@[out@.len() - ixs@.len() + j]);
            }
        }
        m += 1;
    }
    proof {
        assert(specs@.take(m as int) =~= specs@);
        assert(programs@.take(m as int) =~= programs@);
    }
    Ok(out)
}

/// Merges the relays of every instruction of the modules `specs` into the
/// primary module `module`, after the default wrapper.
///
/// `programs[k]` is what module `specs[k]` was parsed into. Fails where any
/// of them declares a fallback handler, else where `module` has no body.
pub fn merge_program(
    specs: &Vec<ModuleSpec>,
    programs: &Vec<ProgramDescriptor>,
    module: PrimaryModule,
    mode: ForwardMode,
) -> (r: Result<PrimaryModule, MergeError>)
    requires
        modules_wf(specs@, programs@),
    ensures
        any_fallback(programs@) ==> r == Err::<PrimaryModule, MergeError>(MergeError::FallbackInModule),
        !any_fallback(programs@) && module.items is None ==> r == Err::<PrimaryModule, MergeError>(
            MergeError::MissingModuleBody,
        ),
        !any_fallback(programs@) && module.items is Some ==> r is Ok && r->Ok_0.name == module.name
            && r->Ok_0.items is Some && exists|rs: Seq<Relay>|
            relays_in_order(specs@, programs@, mode, rs) && r->Ok_0.items->Some_0@ == merged_items(
                module.items->Some_0@,
                rs,
            ),
{
    let relays = match generate_relays(specs, programs, mode) {
        Ok(rs) => rs,
        Err(e) => return Err(e),
    };
    let ghost rs = relays@;
    let r = append_to_program_module(module, relays);
    proof {
        if r is Ok {
            assert(relays_in_order(specs@, programs@, mode, rs));
        }
    }
    r
}

} // verus!
