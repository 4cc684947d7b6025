//! Permission bits of a topic.
use vstd::prelude::*;

verus! {

/// The topic may be given priority by producers.
pub const PERM_PRIORITY: u32 = 8;

/// Consumers may read from the topic.
pub const PERM_READ: u32 = 4;

/// Producers may write to the topic.
pub const PERM_WRITE: u32 = 2;

/// New topics may take the topic as their template.
pub const PERM_INHERIT: u32 = 1;

pub open spec fn has_bit(perm: u32, bit: u32) -> bool {
    perm & bit == bit
}

pub fn is_readable(perm: u32) -> (r: bool)
    ensures
        r == has_bit(perm, PERM_READ),
{
    perm & PERM_READ == PERM_READ
}

pub fn is_writeable(perm: u32) -> (r: bool)
    ensures
        r == has_bit(perm, PERM_WRITE),
{
    perm & PERM_WRITE == PERM_WRITE
}

pub fn is_inherited(perm: u32) -> (r: bool)
    ensures
        r == has_bit(perm, PERM_INHERIT),
{
    perm & PERM_INHERIT == PERM_INHERIT
}

/// Clearing the inherit bit leaves a permission that no longer marks a template.
pub proof fn lemma_clear_inherit(perm: u32)
    ensures
        !has_bit(perm & !PERM_INHERIT, PERM_INHERIT),
        has_bit(perm & !PERM_INHERIT, PERM_READ) == has_bit(perm, PERM_READ),
        has_bit(perm & !PERM_INHERIT, PERM_WRITE) == has_bit(perm, PERM_WRITE),
{
    assert((perm & !1u32) & 1u32 != 1u32) by (bit_vector);
    assert(((perm & !1u32) & 4u32 == 4u32) == (perm & 4u32 == 4u32)) by (bit_vector);
    assert(((perm & !1u32) & 2u32 == 2u32) == (perm & 2u32 == 2u32)) by (bit_vector);
}

/// The read and write bits together mark no template.
pub proof fn lemma_read_write_not_inherited()
    ensures
        !has_bit(PERM_READ | PERM_WRITE, PERM_INHERIT),
        has_bit(PERM_INHERIT | PERM_READ | PERM_WRITE, PERM_INHERIT),
{
    assert((4u32 | 2u32) & 1u32 != 1u32) by (bit_vector);
    assert((1u32 | 4u32 | 2u32) & 1u32 == 1u32) by (bit_vector);
}

} // verus!
