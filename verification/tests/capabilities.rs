use jvmti_bindings::sys::jvmti::jvmtiCapabilities;

#[test]
fn default_has_no_capability() {
    let caps = jvmtiCapabilities::default();
    for bit in 0..128 {
        assert!(!caps.get_bit(bit));
    }
    assert!(!caps.can_tag_objects());
    assert!(!caps.can_support_virtual_threads());
}

#[test]
fn set_then_get_each_bit() {
    for bit in 0..128usize {
        let mut caps = jvmtiCapabilities::default();
        caps.set_bit(bit, true);
        for other in 0..128usize {
            assert_eq!(caps.get_bit(other), other == bit);
        }
        caps.set_bit(bit, false);
        assert!(!caps.get_bit(bit));
    }
}

#[test]
fn clearing_leaves_the_other_bits() {
    let mut caps = jvmtiCapabilities::default();
    for bit in 0..128usize {
        caps.set_bit(bit, true);
    }
    caps.set_bit(31, false);
    caps.set_bit(32, false);
    for bit in 0..128usize {
        assert_eq!(caps.get_bit(bit), bit != 31 && bit != 32);
    }
}

#[test]
fn named_capabilities_are_the_documented_bits() {
    let mut caps = jvmtiCapabilities::default();
    caps.set_can_tag_objects(true);
    assert!(caps.get_bit(0));
    caps.set_can_generate_garbage_collection_events(true);
    assert!(caps.get_bit(31));
    caps.set_can_generate_object_free_events(true);
    assert!(caps.get_bit(32));
    caps.set_can_generate_sampled_object_alloc_events(true);
    assert!(caps.get_bit(43));
    caps.set_can_support_virtual_threads(true);
    assert!(caps.get_bit(44));
    caps.set_can_redefine_classes(true);
    assert!(caps.get_bit(9));
    caps.set_can_maintain_original_method_order(true);
    assert!(caps.get_bit(15));
    caps.set_can_generate_method_entry_events(true);
    assert!(caps.get_bit(24));
    caps.set_can_retransform_classes(true);
    assert!(caps.get_bit(37));
    let set = [0usize, 9, 15, 24, 31, 32, 37, 43, 44];
    for bit in 0..128usize {
        assert_eq!(caps.get_bit(bit), set.contains(&bit));
    }
}

#[test]
fn named_getters_follow_their_setters() {
    let mut caps = jvmtiCapabilities::default();
    caps.set_can_generate_method_exit_events(true);
    assert!(caps.can_generate_method_exit_events());
    assert!(!caps.can_generate_method_entry_events());
    caps.set_can_generate_method_exit_events(false);
    assert!(!caps.can_generate_method_exit_events());
    caps.set_can_get_bytecodes(true);
    caps.set_can_get_line_numbers(true);
    assert!(caps.can_get_bytecodes());
    assert!(caps.can_get_line_numbers());
    assert!(!caps.can_get_source_file_name());
    assert!(caps.get_bit(3));
    assert!(caps.get_bit(12));
}

#[test]
fn copies_are_independent() {
    let mut a = jvmtiCapabilities::default();
    a.set_can_suspend(true);
    let mut b = a;
    b.set_can_suspend(false);
    b.set_can_pop_frame(true);
    assert!(a.can_suspend());
    assert!(!a.can_pop_frame());
    assert!(!b.can_suspend());
    assert!(b.can_pop_frame());
}

#[test]
fn words_hold_bit_n_in_word_n_div_32() {
    let mut caps = jvmtiCapabilities::default();
    assert_eq!(caps.words(), [0, 0, 0, 0]);
    caps.set_can_tag_objects(true);
    assert_eq!(caps.words(), [1, 0, 0, 0]);
    caps.set_can_generate_garbage_collection_events(true);
    assert_eq!(caps.words(), [0x8000_0001, 0, 0, 0]);
    caps.set_can_generate_object_free_events(true);
    assert_eq!(caps.words(), [0x8000_0001, 1, 0, 0]);
    caps.set_can_support_virtual_threads(true);
    assert_eq!(caps.words(), [0x8000_0001, 0x1001, 0, 0]);
    caps.set_bit(127, true);
    assert_eq!(caps.words(), [0x8000_0001, 0x1001, 0, 0x8000_0000]);
}

#[test]
fn from_words_reads_the_same_layout() {
    let caps = jvmtiCapabilities::from_words([0x0000_0200, 0x0000_0020, 0, 0]);
    assert!(caps.can_redefine_classes());
    assert!(caps.can_retransform_classes());
    for bit in 0..128usize {
        assert_eq!(caps.get_bit(bit), bit == 9 || bit == 37);
    }
    assert_eq!(caps.words(), [0x200, 0x20, 0, 0]);
}
