//! The interface walker: flattens a module's entry-point arguments into one
//! sequence, each argument paired with its type.

use vstd::prelude::*;

use crate::types::{interface_of, Argument, EntryPoint, ShaderModule, TypeDescriptor};

verus! {

/// Every argument of every entry point, in entry-point order and then in
/// argument order, each with the type that the module's table gives it.
pub fn walk(module: &ShaderModule) -> (r: Vec<(Argument, TypeDescriptor)>)
    requires
        module.well_formed(),
    ensures
        r@ == module.interface(),
{
    let ghost entries = module.entry_points@.map_values(|e: EntryPoint| e.arguments@);
    let ghost types = module.types@;
    let mut out: Vec<(Argument, TypeDescriptor)> = Vec::new();
    let mut e: usize = 0;
    while e < module.entry_points.len()
        invariant
            module.well_formed(),
            entries == module.entry_points@.map_values(|e: EntryPoint| e.arguments@),
            types == module.types@,
            0 <= e <= entries.len(),
            out@ == interface_of(types, entries.take(e as int)),
        decreases module.entry_points.len() - e,
    {
        let args = &module.entry_points[e].arguments;
        let ghost before = out@;
        let mut a: usize = 0;
        while a < args.len()
            invariant
                module.well_formed(),
                types == module.types@,
                e < module.entry_points@.len(),
                args@ == module.entry_points@[e as int].arguments@,
                0 <= a <= args@.len(),
                out@ == before + args@.take(a as int).map_values(
                    |x: Argument| (x, types[x.type_id as int]),
                ),
            decreases args.len() - a,
        {
            let arg = args[a];
            assert(module.entry_points@[e as int].arguments@[a as int].type_id < types.len());
            let ty = module.types[arg.type_id];
            out.push((arg, ty));
            assert(args@.take(a + 1) == args@.take(a as int).push(arg));
            a = a + 1;
        }
        assert(args@.take(a as int) == args@);
        assert(entries.take(e + 1).drop_last() == entries.take(e as int));
        e = e + 1;
    }
    assert(entries.take(e as int) == entries);
    out
}

} // verus!
