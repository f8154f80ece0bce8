use vstd::prelude::*;
use crate::error::MergeError;
use crate::relay::Relay;

verus! {

/// An item of the primary module.
pub enum ModuleItem {
    /// An item written by the user, as source text.
    Source(String),
    /// The definition of the default wrapper macro.
    DefaultWrapper,
    /// A generated relay.
    Relay(Relay),
}

/// The primary program module: its name and, unless it is declared without
/// a body (`mod m;`), its items.
pub struct PrimaryModule {
    pub name: String,
    pub items: Option<Vec<ModuleItem>>,
}

/// The items of `m` after merging `relays` into `items`.
pub open spec fn merged_items(items: Seq<ModuleItem>, relays: Seq<Relay>) -> Seq<ModuleItem> {
    items.push(ModuleItem::DefaultWrapper) + relays.map_values(|r: Relay| ModuleItem::Relay(r))
}

/// Appends the default wrapper and then `relays` to the body of `module`.
///
/// Fails where the module has no body. Nothing else of the module changes.
pub fn append_to_program_module(module: PrimaryModule, relays: Vec<Relay>) -> (r: Result<
    PrimaryModule,
    MergeError,
>)
    ensures
        module.items is None <==> r == Err::<PrimaryModule, MergeError>(MergeError::MissingModuleBody),
        match module.items {
            Some(items) => match r {
                Ok(m) => m.name == module.name && m.items is Some
                    && m.items->Some_0@ == merged_items(items@, relays@),
                Err(_) => false,
            },
            None => true,
        },
{
    let PrimaryModule { name, items } = module;
    match items {
        None => Err(MergeError::MissingModuleBody),
        Some(items) => {
            let ghost old_items = items@;
            let mut items = items;
            items.push(ModuleItem::DefaultWrapper);
            let ghost base = items@;
            let mut rest = relays;
            let ghost all = rest@;
            while rest.len() > 0
                invariant
                    base == old_items.push(ModuleItem::DefaultWrapper),
                    items@.len() + rest@.len() == base.len() + all.len(),
                    items@ == base + all.take(all.len() - rest@.len()).map_values(
                        |r: Relay| ModuleItem::Relay(r),
                    ),
                    rest@ == all.skip(all.len() - rest@.len()),
                decreases rest@.len(),
            {
                let ghost k = all.len() - rest@.len();
                let r = rest.remove(0);
                items.push(ModuleItem::Relay(r));
                proof {
                    assert(all.take(k + 1) =~= all.take(k).push(r));
                    assert(all.take(k + 1).map_values(|r: Relay| ModuleItem::Relay(r)) =~= all.take(
                        k,
                    ).map_values(|r: Relay| ModuleItem::Relay(r)).push(ModuleItem::Relay(r)));
                    assert(rest@ =~= all.skip(k + 1));
                }
            }
            proof {
                assert(all.take(all.len() as int) =~= all);
            }
            Ok(PrimaryModule { name, items: Some(items) })
        },
    }
}

} // verus!
