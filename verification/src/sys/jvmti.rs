use vstd::prelude::*;

verus! {

/// Number of capability bits.
pub const CAPABILITY_BITS: usize = 128;

/// Bit `i` of `word` is set.
pub open spec fn bit_of(word: u32, i: u32) -> bool {
    word & (1u32 << i) != 0
}

/// Setting bit `i` of a word sets that bit and leaves the others.
pub proof fn lemma_bit_set(word: u32, i: u32, j: u32)
    requires
        i < 32,
        j < 32,
    ensures
        bit_of(word | (1u32 << i), j) == (j == i || bit_of(word, j)),
{
    assert(((word | (1u32 << i)) & (1u32 << j) != 0) == (j == i || (word & (1u32 << j) != 0)))
        by (bit_vector)
        requires
            i < 32,
            j < 32,
    ;
}

/// Clearing bit `i` of a word clears that bit and leaves the others.
pub proof fn lemma_bit_cleared(word: u32, i: u32, j: u32)
    requires
        i < 32,
        j < 32,
    ensures
        bit_of(word & !(1u32 << i), j) == (j != i && bit_of(word, j)),
{
    assert(((word & !(1u32 << i)) & (1u32 << j) != 0) == (j != i && (word & (1u32 << j) != 0)))
        by (bit_vector)
        requires
            i < 32,
            j < 32,
    ;
}

/// No bit of the word 0 is set.
pub proof fn lemma_bit_of_zero(j: u32)
    requires
        j < 32,
    ensures
        !bit_of(0, j),
{
    assert((0u32 & (1u32 << j)) == 0) by (bit_vector);
}

/// Bit number `n` of the four words.
pub open spec fn capability_bit(bits: [u32; 4], n: int) -> bool {
    bit_of(bits[n / 32], (n % 32) as u32)
}

/// The capabilities of a JVMTI environment: 128 bits in four words, laid out as
/// the C interface has them. Bit `n` is bit `n % 32` of word `n / 32`.
#[allow(non_camel_case_types)]
#[derive(Debug, Copy, Clone)]
pub struct jvmtiCapabilities {
    bits: [u32; 4],
}

impl View for jvmtiCapabilities {
    type V = Seq<bool>;

    /// The 128 capability bits, by number.
    closed spec fn view(&self) -> Seq<bool> {
        Seq::new(128, |n: int| capability_bit(self.bits, n))
    }
}

impl Default for jvmtiCapabilities {
    /// No capability.
    fn default() -> (caps: Self)
        ensures
            caps@ == Seq::new(128, |n: int| false),
    {
        let caps = jvmtiCapabilities { bits: [0; 4] };
        proof {
            assert forall|n: int| 0 <= n < 128 implies !#[trigger] capability_bit(caps.bits, n) by {
                lemma_bit_of_zero((n % 32) as u32);
            }
            assert(caps@ =~= Seq::new(128, |n: int| false));
        }
        caps
    }
}

impl jvmtiCapabilities {
    /// The capability set that the four words hold.
    pub fn from_words(bits: [u32; 4]) -> (caps: Self)
        ensures
            caps@ == Seq::new(128, |n: int| capability_bit(bits, n)),
    {
        jvmtiCapabilities { bits }
    }

    /// The four words that hold this capability set.
    pub fn words(&self) -> (bits: [u32; 4])
        ensures
            self@ == Seq::new(128, |n: int| capability_bit(bits, n)),
    {
        self.bits
    }

    /// Sets or clears the capability bit with the given number.
    pub fn set_bit(&mut self, bit_offset: usize, value: bool)
        requires
            bit_offset < CAPABILITY_BITS,
        ensures
            final(self)@ == old(self)@.update(bit_offset as int, value),
    {
        let word_index: usize = bit_offset / 32;
        let bit_index: u32 = (bit_offset % 32) as u32;
        let word: u32 = self.bits[word_index];
        let changed: u32 = if value {
            word | (1u32 << bit_index)
        } else {
            word & !(1u32 << bit_index)
        };
        self.bits[word_index] = changed;
        proof {
            assert forall|n: int| 0 <= n < 128 implies #[trigger] self@[n] == old(self)@.update(
                bit_offset as int,
                value,
            )[n] by {
                if n / 32 == word_index as int {
                    lemma_bit_set(word, bit_index, (n % 32) as u32);
                    lemma_bit_cleared(word, bit_index, (n % 32) as u32);
                }
            }
            assert(self@ =~= old(self)@.update(bit_offset as int, value));
        }
    }

    /// The capability bit with the given number.
    pub fn get_bit(&self, bit_offset: usize) -> (set: bool)
        requires
            bit_offset < CAPABILITY_BITS,
        ensures
            set == self@[bit_offset as int],
    {
        let word_index: usize = bit_offset / 32;
        let bit_index: u32 = (bit_offset % 32) as u32;
        (self.bits[word_index] & (1u32 << bit_index)) != 0
    }

    /// Sets capability 0: the agent can tag objects.
    pub fn set_can_tag_objects(&mut self, v: bool)
        ensures
            final(self)@ == old(self)@.update(0, v),
    {
        self.set_bit(0, v);
    }

    /// Capability 0: the agent can tag objects.
    pub fn can_tag_objects(&self) -> (set: bool)
        ensures
            set == self@[0],
    {
        self.get_bit(0)
    }

    /// Sets capability 1: the agent can generate field modification events.
    pub fn set_can_generate_field_modification_events(&mut self, v: bool)
        ensures
            final(self)@ == old(self)@.update(1, v),
    {
        self.set_bit(1, v);
    }

    /// Capability 1: the agent can generate field modification events.
    pub fn can_generate_field_modification_events(&self) -> (set: bool)
        ensures
            set == self@[1],
    {
        self.get_bit(1)
    }

    /// Sets capability 2: the agent can generate field access events.
    pub fn set_can_generate_field_access_events(&mut self, v: bool)
        ensures
            final(self)@ == old(self)@.update(2, v),
    {
        self.set_bit(2, v);
    }

    /// Capability 2: the agent can generate field access events.
    pub fn can_generate_field_access_events(&self) -> (set: bool)
        ensures
            set == self@[2],
    {
        self.get_bit(2)
    }

    /// Sets capability 29: the agent can generate vm object alloc events.
    pub fn set_can_generate_vm_object_alloc_events(&mut self, v: bool)
        ensures
            final(self)@ == old(self)@.update(29, v),
    {
        self.set_bit(29, v);
    }

    /// Capability 29: the agent can generate vm object alloc events.
    pub fn can_generate_vm_object_alloc_events(&self) -> (set: bool)
        ensures
            set == self@[29],
    {
        self.get_bit(29)
    }

    /// Sets capability 31: the agent can generate garbage collection events.
    pub fn set_can_generate_garbage_collection_events(&mut self, v: bool)
        ensures
            final(self)@ == old(self)@.update(31, v),
    {
        self.set_bit(31, v);
    }

    /// Capability 31: the agent can generate garbage collection events.
    pub fn can_generate_garbage_collection_events(&self) -> (set: bool)
        ensures
            set == self@[31],
    {
        self.get_bit(31)
    }

    /// Sets capability 32: the agent can generate object free events.
    pub fn set_can_generate_object_free_events(&mut self, v: bool)
        ensures
            final(self)@ == old(self)@.update(32, v),
    {
        self.set_bit(32, v);
    }

    /// Capability 32: the agent can generate object free events.
    pub fn can_generate_object_free_events(&self) -> (set: bool)
        ensures
            set == self@[32],
    {
        self.get_bit(32)
    }

    /// Sets capability 43: the agent can generate sampled object alloc events.
    pub fn set_can_generate_sampled_object_alloc_events(&mut self, v: bool)
        ensures
            final(self)@ == old(self)@.update(43, v),
    {
        self.set_bit(43, v);
    }

    /// Capability 43: the agent can generate sampled object alloc events.
    pub fn can_generate_sampled_object_alloc_events(&self) -> (set: bool)
        ensures
            set == self@[43],
    {
        self.get_bit(43)
    }

    /// Sets capability 3: the agent can get bytecodes.
    pub fn set_can_get_bytecodes(&mut self, v: bool)
        ensures
            final(self)@ == old(self)@.update(3, v),
    {
        self.set_bit(3, v);
    }

    /// Capability 3: the agent can get bytecodes.
    pub fn can_get_bytecodes(&self) -> (set: bool)
        ensures
            set == self@[3],
    {
        self.get_bit(3)
    }

    /// Sets capability 4: the agent can get synthetic attribute.
    pub fn set_can_get_synthetic_attribute(&mut self, v: bool)
        ensures
            final(self)@ == old(self)@.update(4, v),
    {
        self.set_bit(4, v);
    }

    /// Capability 4: the agent can get synthetic attribute.
    pub fn can_get_synthetic_attribute(&self) -> (set: bool)
        ensures
            set == self@[4],
    {
        self.get_bit(4)
    }

    /// Sets capability 5: the agent can get owned monitor info.
    pub fn set_can_get_owned_monitor_info(&mut self, v: bool)
        ensures
            final(self)@ == old(self)@.update(5, v),
    {
        self.set_bit(5, v);
    }

    /// Capability 5: the agent can get owned monitor info.
    pub fn can_get_owned_monitor_info(&self) -> (set: bool)
        ensures
            set == self@[5],
    {
        self.get_bit(5)
    }

    /// Sets capability 6: the agent can get current contended monitor.
    pub fn set_can_get_current_contended_monitor(&mut self, v: bool)
        ensures
            final(self)@ == old(self)@.update(6, v),
    {
        self.set_bit(6, v);
    }

    /// Capability 6: the agent can get current contended monitor.
    pub fn can_get_current_contended_monitor(&self) -> (set: bool)
        ensures
            set == self@[6],
    {
        self.get_bit(6)
    }

    /// Sets capability 7: the agent can get monitor info.
    pub fn set_can_get_monitor_info(&mut self, v: bool)
        ensures
            final(self)@ == old(self)@.update(7, v),
    {
        self.set_bit(7, v);
    }

    /// Capability 7: the agent can get monitor info.
    pub fn can_get_monitor_info(&self) -> (set: bool)
        ensures
            set == self@[7],
    {
        self.get_bit(7)
    }

    /// Sets capability 8: the agent can pop frame.
    pub fn set_can_pop_frame(&mut self, v: bool)
        ensures
            final(self)@ == old(self)@.update(8, v),
    {
        self.set_bit(8, v);
    }

    /// Capability 8: the agent can pop frame.
    pub fn can_pop_frame(&self) -> (set: bool)
        ensures
            set == self@[8],
    {
        self.get_bit(8)
    }

    /// Sets capability 14: the agent can access local variables.
    pub fn set_can_access_local_variables(&mut self, v: bool)
        ensures
            final(self)@ == old(self)@.update(14, v),
    {
        self.set_bit(14, v);
    }

    /// Capability 14: the agent can access local variables.
    pub fn can_access_local_variables(&self) -> (set: bool)
        ensures
            set == self@[14],
    {
        self.get_bit(14)
    }

    /// Sets capability 18: the agent can generate frame pop events.
    pub fn set_can_generate_frame_pop_events(&mut self, v: bool)
        ensures
            final(self)@ == old(self)@.update(18, v),
    {
        self.set_bit(18, v);
    }

    /// Capability 18: the agent can generate frame pop events.
    pub fn can_generate_frame_pop_events(&self) -> (set: bool)
        ensures
            set == self@[18],
    {
        self.get_bit(18)
    }

    /// Sets capability 9: the agent can redefine classes.
    pub fn set_can_redefine_classes(&mut self, v: bool)
        ensures
            final(self)@ == old(self)@.update(9, v),
    {
        self.set_bit(9, v);
    }

    /// Capability 9: the agent can redefine classes.
    pub fn can_redefine_classes(&self) -> (set: bool)
        ensures
            set == self@[9],
    {
        self.get_bit(9)
    }

    /// Sets capability 21: the agent can redefine any class.
    pub fn set_can_redefine_any_class(&mut self, v: bool)
        ensures
            final(self)@ == old(self)@.update(21, v),
    {
        self.set_bit(21, v);
    }

    /// Capability 21: the agent can redefine any class.
    pub fn can_redefine_any_class(&self) -> (set: bool)
        ensures
            set == self@[21],
    {
        self.get_bit(21)
    }

    /// Sets capability 26: the agent can generate all class hook events.
    pub fn set_can_generate_all_class_hook_events(&mut self, v: bool)
        ensures
            final(self)@ == old(self)@.update(26, v),
    {
        self.set_bit(26, v);
    }

    /// Capability 26: the agent can generate all class hook events.
    pub fn can_generate_all_class_hook_events(&self) -> (set: bool)
        ensures
            set == self@[26],
    {
        self.get_bit(26)
    }

    /// Sets capability 37: the agent can retransform classes.
    pub fn set_can_retransform_classes(&mut self, v: bool)
        ensures
            final(self)@ == old(self)@.update(37, v),
    {
        self.set_bit(37, v);
    }

    /// Capability 37: the agent can retransform classes.
    pub fn can_retransform_classes(&self) -> (set: bool)
        ensures
            set == self@[37],
    {
        self.get_bit(37)
    }

    /// Sets capability 38: the agent can retransform any class.
    pub fn set_can_retransform_any_class(&mut self, v: bool)
        ensures
            final(self)@ == old(self)@.update(38, v),
    {
        self.set_bit(38, v);
    }

    /// Capability 38: the agent can retransform any class.
    pub fn can_retransform_any_class(&self) -> (set: bool)
        ensures
            set == self@[38],
    {
        self.get_bit(38)
    }

    /// Sets capability 42: the agent can generate early class hook events.
    pub fn set_can_generate_early_class_hook_events(&mut self, v: bool)
        ensures
            final(self)@ == old(self)@.update(42, v),
    {
        self.set_bit(42, v);
    }

    /// Capability 42: the agent can generate early class hook events.
    pub fn can_generate_early_class_hook_events(&self) -> (set: bool)
        ensures
            set == self@[42],
    {
        self.get_bit(42)
    }

    /// Sets capability 10: the agent can signal thread.
    pub fn set_can_signal_thread(&mut self, v: bool)
        ensures
            final(self)@ == old(self)@.update(10, v),
    {
        self.set_bit(10, v);
    }

    /// Capability 10: the agent can signal thread.
    pub fn can_signal_thread(&self) -> (set: bool)
        ensures
            set == self@[10],
    {
        self.get_bit(10)
    }

    /// Sets capability 11: the agent can get source file name.
    pub fn set_can_get_source_file_name(&mut self, v: bool)
        ensures
            final(self)@ == old(self)@.update(11, v),
    {
        self.set_bit(11, v);
    }

    /// Capability 11: the agent can get source file name.
    pub fn can_get_source_file_name(&self) -> (set: bool)
        ensures
            set == self@[11],
    {
        self.get_bit(11)
    }

    /// Sets capability 12: the agent can get line numbers.
    pub fn set_can_get_line_numbers(&mut self, v: bool)
        ensures
            final(self)@ == old(self)@.update(12, v),
    {
        self.set_bit(12, v);
    }

    /// Capability 12: the agent can get line numbers.
    pub fn can_get_line_numbers(&self) -> (set: bool)
        ensures
            set == self@[12],
    {
        self.get_bit(12)
    }

    /// Sets capability 13: the agent can get source debug extension.
    pub fn set_can_get_source_debug_extension(&mut self, v: bool)
        ensures
            final(self)@ == old(self)@.update(13, v),
    {
        self.set_bit(13, v);
    }

    /// Capability 13: the agent can get source debug extension.
    pub fn can_get_source_debug_extension(&self) -> (set: bool)
        ensures
            set == self@[13],
    {
        self.get_bit(13)
    }

    /// Sets capability 15: the agent can maintain original method order.
    pub fn set_can_maintain_original_method_order(&mut self, v: bool)
        ensures
            final(self)@ == old(self)@.update(15, v),
    {
        self.set_bit(15, v);
    }

    /// Capability 15: the agent can maintain original method order.
    pub fn can_maintain_original_method_order(&self) -> (set: bool)
        ensures
            set == self@[15],
    {
        self.get_bit(15)
    }

    /// Sets capability 16: the agent can generate single step events.
    pub fn set_can_generate_single_step_events(&mut self, v: bool)
        ensures
            final(self)@ == old(self)@.update(16, v),
    {
        self.set_bit(16, v);
    }

    /// Capability 16: the agent can generate single step events.
    pub fn can_generate_single_step_events(&self) -> (set: bool)
        ensures
            set == self@[16],
    {
        self.get_bit(16)
    }

    /// Sets capability 17: the agent can generate exception events.
    pub fn set_can_generate_exception_events(&mut self, v: bool)
        ensures
            final(self)@ == old(self)@.update(17, v),
    {
        self.set_bit(17, v);
    }

    /// Capability 17: the agent can generate exception events.
    pub fn can_generate_exception_events(&self) -> (set: bool)
        ensures
            set == self@[17],
    {
        self.get_bit(17)
    }

    /// Sets capability 19: the agent can generate breakpoint events.
    pub fn set_can_generate_breakpoint_events(&mut self, v: bool)
        ensures
            final(self)@ == old(self)@.update(19, v),
    {
        self.set_bit(19, v);
    }

    /// Capability 19: the agent can generate breakpoint events.
    pub fn can_generate_breakpoint_events(&self) -> (set: bool)
        ensures
            set == self@[19],
    {
        self.get_bit(19)
    }

    /// Sets capability 20: the agent can suspend.
    pub fn set_can_suspend(&mut self, v: bool)
        ensures
            final(self)@ == old(self)@.update(20, v),
    {
        self.set_bit(20, v);
    }

    /// Capability 20: the agent can suspend.
    pub fn can_suspend(&self) -> (set: bool)
        ensures
            set == self@[20],
    {
        self.get_bit(20)
    }

    /// Sets capability 27: the agent can generate compiled method load events.
    pub fn set_can_generate_compiled_method_load_events(&mut self, v: bool)
        ensures
            final(self)@ == old(self)@.update(27, v),
    {
        self.set_bit(27, v);
    }

    /// Capability 27: the agent can generate compiled method load events.
    pub fn can_generate_compiled_method_load_events(&self) -> (set: bool)
        ensures
            set == self@[27],
    {
        self.get_bit(27)
    }

    /// Sets capability 28: the agent can generate monitor events.
    pub fn set_can_generate_monitor_events(&mut self, v: bool)
        ensures
            final(self)@ == old(self)@.update(28, v),
    {
        self.set_bit(28, v);
    }

    /// Capability 28: the agent can generate monitor events.
    pub fn can_generate_monitor_events(&self) -> (set: bool)
        ensures
            set == self@[28],
    {
        self.get_bit(28)
    }

    /// Sets capability 30: the agent can generate native method bind events.
    pub fn set_can_generate_native_method_bind_events(&mut self, v: bool)
        ensures
            final(self)@ == old(self)@.update(30, v),
    {
        self.set_bit(30, v);
    }

    /// Capability 30: the agent can generate native method bind events.
    pub fn can_generate_native_method_bind_events(&self) -> (set: bool)
        ensures
            set == self@[30],
    {
        self.get_bit(30)
    }

    /// Sets capability 33: the agent can force early return.
    pub fn set_can_force_early_return(&mut self, v: bool)
        ensures
            final(self)@ == old(self)@.update(33, v),
    {
        self.set_bit(33, v);
    }

    /// Capability 33: the agent can force early return.
    pub fn can_force_early_return(&self) -> (set: bool)
        ensures
            set == self@[33],
    {
        self.get_bit(33)
    }

    /// Sets capability 34: the agent can get owned monitor stack depth info.
    pub fn set_can_get_owned_monitor_stack_depth_info(&mut self, v: bool)
        ensures
            final(self)@ == old(self)@.update(34, v),
    {
        self.set_bit(34, v);
    }

    /// Capability 34: the agent can get owned monitor stack depth info.
    pub fn can_get_owned_monitor_stack_depth_info(&self) -> (set: bool)
        ensures
            set == self@[34],
    {
        self.get_bit(34)
    }

    /// Sets capability 35: the agent can get constant pool.
    pub fn set_can_get_constant_pool(&mut self, v: bool)
        ensures
            final(self)@ == old(self)@.update(35, v),
    {
        self.set_bit(35, v);
    }

    /// Capability 35: the agent can get constant pool.
    pub fn can_get_constant_pool(&self) -> (set: bool)
        ensures
            set == self@[35],
    {
        self.get_bit(35)
    }

    /// Sets capability 36: the agent can set native method prefix.
    pub fn set_can_set_native_method_prefix(&mut self, v: bool)
        ensures
            final(self)@ == old(self)@.update(36, v),
    {
        self.set_bit(36, v);
    }

    /// Capability 36: the agent can set native method prefix.
    pub fn can_set_native_method_prefix(&self) -> (set: bool)
        ensures
            set == self@[36],
    {
        self.get_bit(36)
    }

    /// Sets capability 22: the agent can get current thread cpu time.
    pub fn set_can_get_current_thread_cpu_time(&mut self, v: bool)
        ensures
            final(self)@ == old(self)@.update(22, v),
    {
        self.set_bit(22, v);
    }

    /// Capability 22: the agent can get current thread cpu time.
    pub fn can_get_current_thread_cpu_time(&self) -> (set: bool)
        ensures
            set == self@[22],
    {
        self.get_bit(22)
    }

    /// Sets capability 23: the agent can get thread cpu time.
    pub fn set_can_get_thread_cpu_time(&mut self, v: bool)
        ensures
            final(self)@ == old(self)@.update(23, v),
    {
        self.set_bit(23, v);
    }

    /// Capability 23: the agent can get thread cpu time.
    pub fn can_get_thread_cpu_time(&self) -> (set: bool)
        ensures
            set == self@[23],
    {
        self.get_bit(23)
    }

    /// Sets capability 24: the agent can generate method entry events.
    pub fn set_can_generate_method_entry_events(&mut self, v: bool)
        ensures
            final(self)@ == old(self)@.update(24, v),
    {
        self.set_bit(24, v);
    }

    /// Capability 24: the agent can generate method entry events.
    pub fn can_generate_method_entry_events(&self) -> (set: bool)
        ensures
            set == self@[24],
    {
        self.get_bit(24)
    }

    /// Sets capability 25: the agent can generate method exit events.
    pub fn set_can_generate_method_exit_events(&mut self, v: bool)
        ensures
            final(self)@ == old(self)@.update(25, v),
    {
        self.set_bit(25, v);
    }

    /// Capability 25: the agent can generate method exit events.
    pub fn can_generate_method_exit_events(&self) -> (set: bool)
        ensures
            set == self@[25],
    {
        self.get_bit(25)
    }

    /// Sets capability 39: the agent can generate resource exhaustion heap events.
    pub fn set_can_generate_resource_exhaustion_heap_events(&mut self, v: bool)
        ensures
            final(self)@ == old(self)@.update(39, v),
    {
        self.set_bit(39, v);
    }

    /// Capability 39: the agent can generate resource exhaustion heap events.
    pub fn can_generate_resource_exhaustion_heap_events(&self) -> (set: bool)
        ensures
            set == self@[39],
    {
        self.get_bit(39)
    }

    /// Sets capability 40: the agent can generate resource exhaustion threads events.
    pub fn set_can_generate_resource_exhaustion_threads_events(&mut self, v: bool)
        ensures
            final(self)@ == old(self)@.update(40, v),
    {
        self.set_bit(40, v);
    }

    /// Capability 40: the agent can generate resource exhaustion threads events.
    pub fn can_generate_resource_exhaustion_threads_events(&self) -> (set: bool)
        ensures
            set == self@[40],
    {
        self.get_bit(40)
    }

    /// Sets capability 41: the agent can generate early vmstart.
    pub fn set_can_generate_early_vmstart(&mut self, v: bool)
        ensures
            final(self)@ == old(self)@.update(41, v),
    {
        self.set_bit(41, v);
    }

    /// Capability 41: the agent can generate early vmstart.
    pub fn can_generate_early_vmstart(&self) -> (set: bool)
        ensures
            set == self@[41],
    {
        self.get_bit(41)
    }

    /// Sets capability 44: the agent can support virtual threads.
    pub fn set_can_support_virtual_threads(&mut self, v: bool)
        ensures
            final(self)@ == old(self)@.update(44, v),
    {
        self.set_bit(44, v);
    }

    /// Capability 44: the agent can support virtual threads.
    pub fn can_support_virtual_threads(&self) -> (set: bool)
        ensures
            set == self@[44],
    {
        self.get_bit(44)
    }
}

} // verus!
