//! The registration surface handed to a host runtime: the name under
//! which the generator type is registered and the native functions with
//! the arities they are declared with. Binding these names into a host is
//! the host's affair; this module only states, exactly, what is exposed.

use vstd::prelude::*;

verus! {

/// One native function as the host sees it: the name it is bound to and
/// the number of arguments it is declared with.
pub struct NativeBinding {
    pub name: &'static str,
    pub arity: u8,
}

/// The module's registration surface: the host-visible name of the
/// generator type, and the five draw operations in a fixed order.
pub struct ModuleBindings {
    pub registered_type: &'static str,
    pub functions: Vec<NativeBinding>,
}

/// Builds the registration surface of this module.
///
/// The generator type is registered as `XorShiftRng`, and exactly five
/// functions are exposed: the three global draws, seeded construction and
/// the seeded advance, each with its declared arity.
pub fn load() -> (m: ModuleBindings)
    ensures
        m.registered_type@ == "XorShiftRng"@,
        m.functions@.len() == 5,
        m.functions@[0].name@ == "next_int"@ && m.functions@[0].arity == 1,
        m.functions@[1].name@ == "next_float"@ && m.functions@[1].arity == 1,
        m.functions@[2].name@ == "gen_int_range"@ && m.functions@[2].arity == 2,
        m.functions@[3].name@ == "xor_shift_new"@ && m.functions@[3].arity == 1,
        m.functions@[4].name@ == "xor_shift_next"@ && m.functions@[4].arity == 1,
{
    let mut functions: Vec<NativeBinding> = Vec::new();
    functions.push(NativeBinding { name: "next_int", arity: 1 });
    functions.push(NativeBinding { name: "next_float", arity: 1 });
    functions.push(NativeBinding { name: "gen_int_range", arity: 2 });
    functions.push(NativeBinding { name: "xor_shift_new", arity: 1 });
    functions.push(NativeBinding { name: "xor_shift_next", arity: 1 });
    ModuleBindings { registered_type: "XorShiftRng", functions }
}

} // verus!
