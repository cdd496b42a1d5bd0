//! Pseudorandom number generation primitives: a process-global generator
//! for effectful draws, and an explicit, reseedable generator with value
//! semantics built on a 128-bit xorshift algorithm.

pub mod global;
pub mod registry;
pub mod seeded;

pub use global::gen_int_range;
pub use global::next_int;
pub use registry::load;
pub use registry::ModuleBindings;
pub use registry::NativeBinding;
pub use seeded::xor_shift_new;
pub use seeded::xor_shift_next;
pub use seeded::DrawResult;
pub use seeded::SeededGenerator;
