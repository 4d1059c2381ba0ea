//! The state of one processor: bootstrap role, availability and health.

use vstd::prelude::*;

verus! {

/// Bit set for the processor that plays the bootstrap role.
pub const PROCESSOR_AS_BSP_BIT: u32 = 0b0000_0001;

/// Bit set for a processor that is enabled.
pub const PROCESSOR_ENABLED_BIT: u32 = 0b0000_0010;

/// Bit set for a processor that is healthy.
pub const PROCESSOR_HEALTH_STATUS_BIT: u32 = 0b0000_0100;

/// The three independent facets of a processor's state.
pub struct ProcessorState {
    /// The processor is the bootstrap processor.
    pub is_bootstrap: bool,
    /// The processor is available.
    pub enabled: bool,
    /// The processor was reported healthy.
    pub healthy: bool,
}

/// The facets that a word of status bits stands for. Bits other than the
/// three defined ones carry no meaning.
pub open spec fn decode(bits: u32) -> ProcessorState {
    ProcessorState {
        is_bootstrap: bits & PROCESSOR_AS_BSP_BIT != 0,
        enabled: bits & PROCESSOR_ENABLED_BIT != 0,
        healthy: bits & PROCESSOR_HEALTH_STATUS_BIT != 0,
    }
}

/// The word of status bits that stands for the given facets.
pub open spec fn encode(state: ProcessorState) -> u32 {
    ((if state.is_bootstrap { 1u32 } else { 0u32 })
        + (if state.enabled { 2u32 } else { 0u32 })
        + (if state.healthy { 4u32 } else { 0u32 })) as u32
}

/// Flags that say whether a processor is the bootstrap processor, whether it
/// is enabled and whether it is healthy, kept as one word of bits.
#[derive(Clone, Copy, Debug, PartialEq, Eq, Structural)]
pub struct StatusFlag {
    bits: u32,
}

impl View for StatusFlag {
    type V = ProcessorState;

    closed spec fn view(&self) -> ProcessorState {
        decode(self.bits)
    }
}

impl StatusFlag {
    #[verifier::type_invariant]
    spec fn only_defined_bits(self) -> bool {
        self.bits <= 7
    }

    /// No flag set.
    pub fn empty() -> (flags: StatusFlag)
        ensures
            flags@ == (ProcessorState { is_bootstrap: false, enabled: false, healthy: false }),
    {
        assert(decode(0u32) == (ProcessorState {
            is_bootstrap: false,
            enabled: false,
            healthy: false,
        })) by {
            assert(0u32 & 1u32 == 0 && 0u32 & 2u32 == 0 && 0u32 & 4u32 == 0) by (bit_vector);
        }
        StatusFlag { bits: 0 }
    }

    /// Every flag set.
    pub fn all() -> (flags: StatusFlag)
        ensures
            flags@ == (ProcessorState { is_bootstrap: true, enabled: true, healthy: true }),
    {
        assert(decode(7u32) == (ProcessorState {
            is_bootstrap: true,
            enabled: true,
            healthy: true,
        })) by {
            assert(7u32 & 1u32 != 0 && 7u32 & 2u32 != 0 && 7u32 & 4u32 != 0) by (bit_vector);
        }
        StatusFlag { bits: 7 }
    }

    /// The flags that a word of bits holds, or `None` if the word has a bit
    /// set that is none of the three defined ones.
    pub fn from_bits(bits: u32) -> (flags: Option<StatusFlag>)
        ensures
            flags.is_some() <==> bits <= 7,
            flags matches Some(f) ==> f@ == decode(bits) && encode(f@) == bits,
    {
        if bits <= 7 {
            proof {
                lemma_encode_decode(bits);
            }
            Some(StatusFlag { bits })
        } else {
            None
        }
    }

    /// The flags that a word of bits holds; bits that are none of the three
    /// defined ones are dropped.
    pub fn from_bits_truncate(bits: u32) -> (flags: StatusFlag)
        ensures
            flags@ == decode(bits),
    {
        let kept: u32 = bits & 7;
        assert(kept <= 7 && decode(kept) == decode(bits)) by {
            assert((bits & 7u32) <= 7 && (bits & 7u32) & 1u32 == bits & 1u32 && (bits & 7u32)
                & 2u32 == bits & 2u32 && (bits & 7u32) & 4u32 == bits & 4u32) by (bit_vector);
        }
        StatusFlag { bits: kept }
    }

    /// The flags as one word of bits.
    pub fn bits(&self) -> (bits: u32)
        ensures
            bits == encode(self@),
            decode(bits) == self@,
    {
        proof {
            use_type_invariant(self);
            lemma_encode_decode(self.bits);
        }
        self.bits
    }

    /// Whether the processor is the bootstrap processor.
    pub fn is_bsp(&self) -> (yes: bool)
        ensures
            yes == self@.is_bootstrap,
    {
        self.bits & PROCESSOR_AS_BSP_BIT != 0
    }

    /// Whether the processor is enabled.
    pub fn is_enabled(&self) -> (yes: bool)
        ensures
            yes == self@.enabled,
    {
        self.bits & PROCESSOR_ENABLED_BIT != 0
    }

    /// Whether the processor is healthy.
    pub fn is_healthy(&self) -> (yes: bool)
        ensures
            yes == self@.healthy,
    {
        self.bits & PROCESSOR_HEALTH_STATUS_BIT != 0
    }

    /// The same flags with the bootstrap role given or taken away.
    pub fn with_bsp(self, on: bool) -> (flags: StatusFlag)
        ensures
            flags@ == (ProcessorState { is_bootstrap: on, ..self@ }),
    {
        proof {
            use_type_invariant(self);
        }
        let old_bits: u32 = self.bits;
        let bits: u32 = if on {
            old_bits | PROCESSOR_AS_BSP_BIT
        } else {
            old_bits & !PROCESSOR_AS_BSP_BIT
        };
        assert(bits <= 7 && (bits & 1u32 != 0) == on && bits & 2u32 == old_bits & 2u32 && bits
            & 4u32 == old_bits & 4u32) by (bit_vector)
            requires
                old_bits <= 7,
                bits == if on {
                    old_bits | 1u32
                } else {
                    old_bits & !1u32
                },
        ;
        StatusFlag { bits }
    }

    /// The same flags with the enabled flag set or cleared.
    pub fn with_enabled(self, on: bool) -> (flags: StatusFlag)
        ensures
            flags@ == (ProcessorState { enabled: on, ..self@ }),
    {
        proof {
            use_type_invariant(self);
        }
        let old_bits: u32 = self.bits;
        let bits: u32 = if on {
            old_bits | PROCESSOR_ENABLED_BIT
        } else {
            old_bits & !PROCESSOR_ENABLED_BIT
        };
        assert(bits <= 7 && (bits & 2u32 != 0) == on && bits & 1u32 == old_bits & 1u32 && bits
            & 4u32 == old_bits & 4u32) by (bit_vector)
            requires
                old_bits <= 7,
                bits == if on {
                    old_bits | 2u32
                } else {
                    old_bits & !2u32
                },
        ;
        StatusFlag { bits }
    }

    /// The same flags with the health flag set or cleared.
    pub fn with_health(self, on: bool) -> (flags: StatusFlag)
        ensures
            flags@ == (ProcessorState { healthy: on, ..self@ }),
    {
        proof {
            use_type_invariant(self);
        }
        let old_bits: u32 = self.bits;
        let bits: u32 = if on {
            old_bits | PROCESSOR_HEALTH_STATUS_BIT
        } else {
            old_bits & !PROCESSOR_HEALTH_STATUS_BIT
        };
        assert(bits <= 7 && (bits & 4u32 != 0) == on && bits & 1u32 == old_bits & 1u32 && bits
            & 2u32 == old_bits & 2u32) by (bit_vector)
            requires
                old_bits <= 7,
                bits == if on {
                    old_bits | 4u32
                } else {
                    old_bits & !4u32
                },
        ;
        StatusFlag { bits }
    }
}

impl Default for StatusFlag {
    /// No flag set.
    fn default() -> (flags: StatusFlag)
        ensures
            flags@ == (ProcessorState { is_bootstrap: false, enabled: false, healthy: false }),
    {
        StatusFlag::empty()
    }
}

/// A word that holds only defined bits is the encoding of what it decodes to.
pub proof fn lemma_encode_decode(bits: u32)
    requires
        bits <= 7,
    ensures
        encode(decode(bits)) == bits,
{
    assert(bits <= 7 ==> (if bits & 1u32 != 0 {
        1u32
    } else {
        0u32
    }) + (if bits & 2u32 != 0 {
        2u32
    } else {
        0u32
    }) + (if bits & 4u32 != 0 {
        4u32
    } else {
        0u32
    }) == bits) by (bit_vector);
}

} // verus!
