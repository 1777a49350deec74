//! The register bank.
//!
//! Sixteen 64-bit general-purpose registers plus the instruction pointer.
//! Each general-purpose register is addressable at four widths, and the four
//! low registers also expose a high-byte view (bits 8 to 15). Writes follow
//! the x86-64 aliasing rules: a 32-bit write zero-extends into the full
//! backing value, an 8- or 16-bit write preserves every other bit of the
//! backing value, and a high-byte write changes only bits 8 to 15.

use vstd::prelude::*;

verus! {

/// An operand width, in bits.
#[derive(Clone, Copy, Debug, PartialEq, Eq, Structural)]
pub enum Width {
    W8,
    W16,
    W32,
    W64,
}

impl Width {
    /// The width in bytes.
    pub open spec fn bytes(self) -> u64 {
        match self {
            Width::W8 => 1,
            Width::W16 => 2,
            Width::W32 => 4,
            Width::W64 => 8,
        }
    }

    /// The width in bytes.
    #[verifier::when_used_as_spec(bytes)]
    pub fn bytes_exec(self) -> (r: u64)
        ensures
            r == self.bytes(),
    {
        match self {
            Width::W8 => 1,
            Width::W16 => 2,
            Width::W32 => 4,
            Width::W64 => 8,
        }
    }

    /// The mask selecting the low bits covered by this width.
    pub open spec fn mask(self) -> u64 {
        match self {
            Width::W8 => 0xff,
            Width::W16 => 0xffff,
            Width::W32 => 0xffff_ffff,
            Width::W64 => 0xffff_ffff_ffff_ffff,
        }
    }

    /// The mask selecting the low bits covered by this width.
    #[verifier::when_used_as_spec(mask)]
    pub fn mask_exec(self) -> (r: u64)
        ensures
            r == self.mask(),
    {
        match self {
            Width::W8 => 0xff,
            Width::W16 => 0xffff,
            Width::W32 => 0xffff_ffff,
            Width::W64 => 0xffff_ffff_ffff_ffff,
        }
    }

    /// The mask selecting the highest bit covered by this width.
    pub open spec fn sign_mask(self) -> u64 {
        match self {
            Width::W8 => 0x80,
            Width::W16 => 0x8000,
            Width::W32 => 0x8000_0000,
            Width::W64 => 0x8000_0000_0000_0000,
        }
    }

    /// The mask selecting the highest bit covered by this width.
    #[verifier::when_used_as_spec(sign_mask)]
    pub fn sign_mask_exec(self) -> (r: u64)
        ensures
            r == self.sign_mask(),
    {
        match self {
            Width::W8 => 0x80,
            Width::W16 => 0x8000,
            Width::W32 => 0x8000_0000,
            Width::W64 => 0x8000_0000_0000_0000,
        }
    }
}

/// A general-purpose register of the 64-bit register file.
#[derive(Clone, Copy, Debug, PartialEq, Eq, Structural)]
pub enum Gpr {
    Rax,
    Rcx,
    Rdx,
    Rbx,
    Rsp,
    Rbp,
    Rsi,
    Rdi,
    R8,
    R9,
    R10,
    R11,
    R12,
    R13,
    R14,
    R15,
}

impl Gpr {
    /// The index of this register in the backing store.
    pub open spec fn index(self) -> int {
        match self {
            Gpr::Rax => 0,
            Gpr::Rcx => 1,
            Gpr::Rdx => 2,
            Gpr::Rbx => 3,
            Gpr::Rsp => 4,
            Gpr::Rbp => 5,
            Gpr::Rsi => 6,
            Gpr::Rdi => 7,
            Gpr::R8 => 8,
            Gpr::R9 => 9,
            Gpr::R10 => 10,
            Gpr::R11 => 11,
            Gpr::R12 => 12,
            Gpr::R13 => 13,
            Gpr::R14 => 14,
            Gpr::R15 => 15,
        }
    }

    /// The index of this register in the backing store.
    pub fn index_exec(self) -> (r: usize)
        ensures
            r == self.index(),
            r < 16,
    {
        match self {
            Gpr::Rax => 0,
            Gpr::Rcx => 1,
            Gpr::Rdx => 2,
            Gpr::Rbx => 3,
            Gpr::Rsp => 4,
            Gpr::Rbp => 5,
            Gpr::Rsi => 6,
            Gpr::Rdi => 7,
            Gpr::R8 => 8,
            Gpr::R9 => 9,
            Gpr::R10 => 10,
            Gpr::R11 => 11,
            Gpr::R12 => 12,
            Gpr::R13 => 13,
            Gpr::R14 => 14,
            Gpr::R15 => 15,
        }
    }

    /// True of the four registers that expose a high-byte view.
    pub open spec fn has_high_byte(self) -> bool {
        self == Gpr::Rax || self == Gpr::Rcx || self == Gpr::Rdx || self == Gpr::Rbx
    }
}

/// A width-tagged view of one general-purpose register, e.g. `AL`, `AH`,
/// `AX`, `EAX` or `RAX` for [`Gpr::Rax`].
#[derive(Clone, Copy, Debug, PartialEq, Eq, Structural)]
pub struct RegView {
    pub gpr: Gpr,
    pub width: Width,
    /// Selects bits 8 to 15 instead of the low byte; only valid together with
    /// [`Width::W8`] on the four low registers.
    pub high: bool,
}

impl RegView {
    /// A well-formed view: the high-byte form exists only at byte width on
    /// the four low registers.
    pub open spec fn wf(self) -> bool {
        self.high ==> self.width == Width::W8 && self.gpr.has_high_byte()
    }

    /// Decides well-formedness of this view.
    pub fn is_wf(self) -> (r: bool)
        ensures
            r == self.wf(),
    {
        if self.high {
            matches!(self.width, Width::W8) && matches!(
                self.gpr,
                Gpr::Rax | Gpr::Rcx | Gpr::Rdx | Gpr::Rbx,
            )
        } else {
            true
        }
    }

    /// The low-byte view of a register.
    pub fn byte(gpr: Gpr) -> (r: RegView)
        ensures
            r == (RegView { gpr, width: Width::W8, high: false }),
    {
        RegView { gpr, width: Width::W8, high: false }
    }

    /// The high-byte view (bits 8 to 15) of a register.
    pub fn high_byte(gpr: Gpr) -> (r: RegView)
        ensures
            r == (RegView { gpr, width: Width::W8, high: true }),
    {
        RegView { gpr, width: Width::W8, high: true }
    }

    /// The 16-bit view of a register.
    pub fn word(gpr: Gpr) -> (r: RegView)
        ensures
            r == (RegView { gpr, width: Width::W16, high: false }),
    {
        RegView { gpr, width: Width::W16, high: false }
    }

    /// The 32-bit view of a register.
    pub fn dword(gpr: Gpr) -> (r: RegView)
        ensures
            r == (RegView { gpr, width: Width::W32, high: false }),
    {
        RegView { gpr, width: Width::W32, high: false }
    }

    /// The 64-bit view of a register.
    pub fn qword(gpr: Gpr) -> (r: RegView)
        ensures
            r == (RegView { gpr, width: Width::W64, high: false }),
    {
        RegView { gpr, width: Width::W64, high: false }
    }
}

/// The value a view reads out of a 64-bit backing value.
pub open spec fn spec_view_read(backing: u64, w: Width, high: bool) -> u64 {
    if high {
        (backing >> 8) & 0xff
    } else {
        backing & w.mask()
    }
}

/// The backing value after writing `value` through a view: a 32-bit write
/// zero-extends, an 8- or 16-bit write preserves the other bits, and a
/// high-byte write changes only bits 8 to 15.
pub open spec fn spec_view_write(backing: u64, w: Width, high: bool, value: u64) -> u64 {
    if high {
        (backing & !0xff00u64) | ((value & 0xff) << 8)
    } else if w == Width::W32 || w == Width::W64 {
        value & w.mask()
    } else {
        (backing & !w.mask()) | (value & w.mask())
    }
}

/// The mathematical model of the register bank: the sixteen general-purpose
/// backing values and the instruction pointer.
#[verifier::ext_equal]
pub ghost struct RegsV {
    pub gprs: Seq<u64>,
    pub rip: u64,
}

impl RegsV {
    /// A well-formed model holds exactly sixteen backing values.
    pub open spec fn wf(self) -> bool {
        self.gprs.len() == 16
    }

    /// The value read through a register view.
    pub open spec fn read_view(self, v: RegView) -> u64 {
        spec_view_read(self.gprs[v.gpr.index()], v.width, v.high)
    }

    /// The model after a write through a register view.
    pub open spec fn write_view(self, v: RegView, value: u64) -> RegsV {
        RegsV {
            gprs: self.gprs.update(
                v.gpr.index(),
                spec_view_write(self.gprs[v.gpr.index()], v.width, v.high, value),
            ),
            rip: self.rip,
        }
    }

    /// The model after a write to the instruction pointer.
    pub open spec fn write_rip(self, value: u64) -> RegsV {
        RegsV { gprs: self.gprs, rip: value }
    }
}

/// The register bank: backing storage for the sixteen general-purpose
/// registers and the instruction pointer.
#[derive(Clone, Debug)]
pub struct Registers {
    pub gprs: Vec<u64>,
    pub rip: u64,
}

impl View for Registers {
    type V = RegsV;

    open spec fn view(&self) -> RegsV {
        RegsV { gprs: self.gprs@, rip: self.rip }
    }
}

impl Registers {
    /// A fresh register bank with every register and the instruction pointer
    /// zeroed.
    pub fn new() -> (r: Registers)
        ensures
            r@.wf(),
            forall|j: int| 0 <= j < 16 ==> r@.gprs[j] == 0,
            r@.rip == 0,
    {
        let mut gprs: Vec<u64> = Vec::new();
        let mut i: usize = 0;
        while i < 16
            invariant
                gprs@.len() == i,
                i <= 16,
                forall|j: int| 0 <= j < i ==> gprs@[j] == 0,
            decreases 16 - i,
        {
            gprs.push(0);
            i = i + 1;
        }
        Registers { gprs, rip: 0 }
    }

    /// Reads the value of a register view.
    pub fn read(&self, v: RegView) -> (r: u64)
        requires
            self@.wf(),
        ensures
            r == self@.read_view(v),
    {
        let backing: u64 = self.gprs[v.gpr.index_exec()];
        if v.high {
            (backing >> 8) & 0xff
        } else {
            backing & v.width.mask_exec()
        }
    }

    /// Writes a value through a register view, applying the aliasing rules.
    pub fn write(&mut self, v: RegView, value: u64)
        requires
            old(self)@.wf(),
        ensures
            final(self)@ == old(self)@.write_view(v, value),
            final(self)@.wf(),
    {
        let i: usize = v.gpr.index_exec();
        let backing: u64 = self.gprs[i];
        let updated: u64 = if v.high {
            (backing & !0xff00u64) | ((value & 0xff) << 8)
        } else if matches!(v.width, Width::W32 | Width::W64) {
            value & v.width.mask_exec()
        } else {
            (backing & !v.width.mask_exec()) | (value & v.width.mask_exec())
        };
        self.gprs[i] = updated;
    }

    /// Reads the instruction pointer.
    pub fn rip(&self) -> (r: u64)
        ensures
            r == self@.rip,
    {
        self.rip
    }

    /// Writes the instruction pointer.
    pub fn set_rip(&mut self, value: u64)
        requires
            old(self)@.wf(),
        ensures
            final(self)@ == old(self)@.write_rip(value),
            final(self)@.wf(),
    {
        self.rip = value;
    }
}

/// Writing an N-bit view and reading the same view back returns the written
/// value masked to N bits, for every width and for the high-byte views.
pub proof fn lemma_view_write_read_same(backing: u64, w: Width, high: bool, value: u64)
    ensures
        spec_view_read(spec_view_write(backing, w, high, value), w, high) == value & (
        if high {
            0xff
        } else {
            w.mask()
        }),
{
    if high {
        assert((((backing & !0xff00u64) | ((value & 0xff) << 8)) >> 8) & 0xff == value & 0xff)
            by (bit_vector);
    } else {
        match w {
            Width::W8 => {
                assert(((backing & !0xffu64) | (value & 0xff)) & 0xff == value & 0xff)
                    by (bit_vector);
            },
            Width::W16 => {
                assert(((backing & !0xffffu64) | (value & 0xffff)) & 0xffff == value & 0xffff)
                    by (bit_vector);
            },
            Width::W32 => {
                assert((value & 0xffff_ffffu64) & 0xffff_ffff == value & 0xffff_ffff)
                    by (bit_vector);
            },
            Width::W64 => {
                assert((value & 0xffff_ffff_ffff_ffffu64) & 0xffff_ffff_ffff_ffff == value
                    & 0xffff_ffff_ffff_ffff) by (bit_vector);
            },
        }
    }
}

/// The aliasing rules, stated over the full backing value: a 64-bit read
/// after a write through any view shows exactly the documented merge: 32-bit
/// writes zero-extend, 8- and 16-bit writes preserve the remaining bits, and
/// high-byte writes change only bits 8 to 15.
pub proof fn lemma_view_write_aliasing(backing: u64, w: Width, high: bool, value: u64)
    ensures
        high ==> spec_view_write(backing, w, high, value) == (backing & !0xff00u64) | ((value
            & 0xff) << 8),
        !high && (w == Width::W32 || w == Width::W64) ==> spec_view_write(backing, w, high, value)
            == value & w.mask(),
        !high && (w == Width::W8 || w == Width::W16) ==> spec_view_write(backing, w, high, value)
            == (backing & !w.mask()) | (value & w.mask()),
{
}

/// Round trip through the register bank model: after writing `value` through
/// a view, reading the same view returns `value` masked to the view's width,
/// and every other general-purpose register is unchanged.
pub proof fn lemma_reg_write_read_round_trip(regs: RegsV, v: RegView, value: u64)
    requires
        regs.wf(),
    ensures
        regs.write_view(v, value).read_view(v) == value & (
        if v.high {
            0xff
        } else {
            v.width.mask()
        }),
        forall|v2: RegView|
            v2.gpr != v.gpr ==> regs.write_view(v, value).read_view(v2) == regs.read_view(v2),
        regs.write_view(v, value).rip == regs.rip,
{
    lemma_view_write_read_same(regs.gprs[v.gpr.index()], v.width, v.high, value);
    assert forall|v2: RegView|
        v2.gpr != v.gpr implies regs.write_view(v, value).read_view(v2) == regs.read_view(v2) by {
        assert(v2.gpr.index() != v.gpr.index());
    }
}

} // verus!
