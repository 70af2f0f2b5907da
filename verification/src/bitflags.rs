//! A bit-flag permission set.
//!
//! [`FileAccess`] keeps a set of file permissions as a bit mask with one bit
//! per permission, and supports granting, clearing, toggling and querying a
//! single permission at a time. Only the three permission bits may ever be
//! set in the mask.

use vstd::prelude::*;

verus! {

/// One access right of a file-permission set.
#[derive(Clone, Copy, Debug, PartialEq, Eq, Structural)]
pub enum Permission {
    /// Permission to read the file.
    Read,
    /// Permission to write the file.
    Write,
    /// Permission to execute the file.
    Execute,
}

impl Permission {
    /// The single mask bit that stands for this permission.
    pub open spec fn spec_bit(self) -> u8 {
        match self {
            Permission::Read => 1u8,
            Permission::Write => 2u8,
            Permission::Execute => 4u8,
        }
    }

    /// The single mask bit that stands for this permission.
    pub fn bit(self) -> (r: u8)
        ensures
            r == self.spec_bit(),
    {
        match self {
            Permission::Read => 1u8,
            Permission::Write => 2u8,
            Permission::Execute => 4u8,
        }
    }
}

/// A bitwise-or leaves a mask bit set exactly when one of its operands has it.
proof fn lemma_or_bit(b: u8, m: u8, n: u8)
    by (bit_vector)
    ensures
        ((b | m) & n != 0) <==> ((b & n != 0) || (m & n != 0)),
{
}

/// Clearing one permission bit leaves every other permission bit alone.
proof fn lemma_clear_bit(b: u8, m: u8, n: u8)
    by (bit_vector)
    requires
        m == 1 || m == 2 || m == 4,
        n == 1 || n == 2 || n == 4,
    ensures
        ((b & !m) & n != 0) <==> (m != n && b & n != 0),
{
}

/// Toggling one permission bit flips that bit and leaves the others alone.
proof fn lemma_toggle_bit(b: u8, m: u8, n: u8)
    by (bit_vector)
    requires
        m == 1 || m == 2 || m == 4,
        n == 1 || n == 2 || n == 4,
    ensures
        ((b ^ m) & n != 0) <==> (if m == n {
            b & n == 0
        } else {
            b & n != 0
        }),
{
}

/// Two permission bits intersect exactly when they are the same bit.
proof fn lemma_distinct_bits(m: u8, n: u8)
    by (bit_vector)
    requires
        m == 1 || m == 2 || m == 4,
        n == 1 || n == 2 || n == 4,
    ensures
        (m & n != 0) <==> m == n,
{
}

/// Granting, clearing or toggling a permission bit keeps the mask inside the
/// permission bits.
proof fn lemma_mask_op_wf(b: u8, m: u8)
    by (bit_vector)
    requires
        b & 0xf8 == 0,
        m == 1 || m == 2 || m == 4,
    ensures
        (b | m) & 0xf8 == 0,
        (b & !m) & 0xf8 == 0,
        (b ^ m) & 0xf8 == 0,
{
}

/// A set of file permissions held as a bit mask, one bit per permission.
pub struct FileAccess {
    bits: u8,
}

impl FileAccess {
    /// Only the three permission bits may be set in the mask.
    pub closed spec fn wf(self) -> bool {
        self.bits & 0xf8 == 0
    }

    /// Whether the set holds the given permission.
    pub closed spec fn spec_has(self, p: Permission) -> bool {
        self.bits & p.spec_bit() != 0
    }

    /// Builds a permission set from a mask over the three permission bits.
    pub fn new(flags: u8) -> (r: Self)
        requires
            flags & 0xf8 == 0,
        ensures
            r.wf(),
            forall|p: Permission| r.spec_has(p) == (flags & p.spec_bit() != 0),
    {
        Self { bits: flags }
    }

    /// Grants the given permission and keeps every other one as it was.
    pub fn set(&mut self, flag: Permission)
        requires
            old(self).wf(),
        ensures
            final(self).wf(),
            forall|p: Permission|
                final(self).spec_has(p) == (p == flag || old(self).spec_has(p)),
    {
        let m = flag.bit();
        proof {
            lemma_mask_op_wf(self.bits, m);
        }
        self.bits = self.bits | m;
        proof {
            assert forall|p: Permission|
                self.spec_has(p) == (p == flag || old(self).spec_has(p)) by {
                lemma_or_bit(old(self).bits, m, p.spec_bit());
                lemma_distinct_bits(m, p.spec_bit());
            }
        }
    }

    /// Withdraws the given permission and keeps every other one as it was.
    pub fn clear(&mut self, flag: Permission)
        requires
            old(self).wf(),
        ensures
            final(self).wf(),
            forall|p: Permission|
                final(self).spec_has(p) == (p != flag && old(self).spec_has(p)),
    {
        let m = flag.bit();
        proof {
            lemma_mask_op_wf(self.bits, m);
        }
        self.bits = self.bits & !m;
        proof {
            assert forall|p: Permission|
                self.spec_has(p) == (p != flag && old(self).spec_has(p)) by {
                lemma_clear_bit(old(self).bits, m, p.spec_bit());
            }
        }
    }

    /// Flips the given permission and keeps every other one as it was.
    pub fn toggle(&mut self, flag: Permission)
        requires
            old(self).wf(),
        ensures
            final(self).wf(),
            forall|p: Permission|
                final(self).spec_has(p) == (if p == flag {
                    !old(self).spec_has(p)
                } else {
                    old(self).spec_has(p)
                }),
    {
        let m = flag.bit();
        proof {
            lemma_mask_op_wf(self.bits, m);
        }
        self.bits = self.bits ^ m;
        proof {
            assert forall|p: Permission|
                self.spec_has(p) == (if p == flag {
                    !old(self).spec_has(p)
                } else {
                    old(self).spec_has(p)
                }) by {
                lemma_toggle_bit(old(self).bits, m, p.spec_bit());
            }
        }
    }

    /// Whether the set holds the given permission.
    pub fn has(&self, flag: Permission) -> (r: bool)
        ensures
            r == self.spec_has(flag),
    {
        self.bits & flag.bit() != 0
    }
}

} // verus!
