use rand_bind::load;

#[test]
fn load_lists_the_five_bindings() {
    let m = load();
    assert_eq!(m.registered_type, "XorShiftRng");
    assert_eq!(m.functions.len(), 5);
    let expected = [
        ("next_int", 1u8),
        ("next_float", 1),
        ("gen_int_range", 2),
        ("xor_shift_new", 1),
        ("xor_shift_next", 1),
    ];
    for (binding, (name, arity)) in m.functions.iter().zip(expected.iter()) {
        assert_eq!(binding.name, *name);
        assert_eq!(binding.arity, *arity);
    }
}
