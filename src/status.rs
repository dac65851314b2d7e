use vstd::prelude::*;

verus! {

/// Bit `i` of `x`, counted from the least significant.
pub open spec fn bit_set(x: u32, i: u32) -> bool {
    (x >> i) & 1u32 == 1u32
}

/// A contiguous mask with exactly the bits `low..=high` set.
///
/// The result is read as the 32 bits of an `i32`, so a mask that reaches
/// bit 31 is negative.
pub fn i32_bit_mask(low: i32, high: i32) -> (r: i32)
    requires
        0 <= low <= high < 32,
    ensures
        forall|i: u32| i < 32 ==> (#[trigger] bit_set(r as u32, i) <==> low <= i <= high),
{
    let lo = low as u32;
    let hi = high as u32;
    let ones: u32 = 0xffff_ffff;
    let sh: u32 = 31 - hi;
    let m: u32 = (ones >> sh) & (ones << lo);
    assert(forall|i: u32| i < 32 ==> (#[trigger] bit_set(m, i) <==> lo <= i <= hi)) by (bit_vector)
        requires
            lo <= hi < 32,
            sh == 31 - hi,
            m == (ones >> sh) & (ones << lo),
            ones == 0xffff_ffffu32,
    ;
    let r = m as i32;
    assert(r as u32 == m) by (bit_vector)
        requires
            r == m as i32,
    ;
    r
}

/// The lifecycle flags of an exchange and, in its low ten bits, the code of
/// the response.
#[derive(Clone, Copy)]
pub struct Status(pub i32);

impl Status {
    /// The bits that hold the response code; the flags follow, one bit each.
    pub const STATUS_CODE_BITMASK: i32 = 0x3ff;
    pub const INPUT_CONSUMED: i32 = 0x400;
    pub const OUTPUT_CONSUMED: i32 = 0x800;
    pub const INPUT_LISTENERS_COMPLETE: i32 = 0x1000;
    pub const OUTPUT_LISTENERS_COMPLETE: i32 = 0x2000;
    pub const CUSTOM_LISTENERS_COMPLETE: i32 = 0x4000;
    pub const INPUT_BUFFERED: i32 = 0x8000;
    pub const OUTPUT_BUFFERED: i32 = 0x10000;

    /// The lifecycle flags: the consumption of input and output and the
    /// firing of the three listener sets.
    pub const LIFECYCLE_FLAGS: i32 = 0x7c00;

    /// The response code held in the low ten bits.
    pub open spec fn code(self) -> i32 {
        self.0 & 0x3ff
    }

    /// Every lifecycle flag set in `self` is set in `after` too.
    pub open spec fn flags_kept(self, after: Status) -> bool {
        self.0 & 0x7c00 & after.0 == self.0 & 0x7c00
    }

    /// A lifecycle flag set in `self` is still set after any number of steps
    /// that each keep the flags: each flag goes from clear to set at most
    /// once.
    pub proof fn lemma_flag_stays_set(self, mid: Status, after: Status, flag: i32)
        requires
            flag == 0x400 || flag == 0x800 || flag == 0x1000 || flag == 0x2000 || flag == 0x4000,
            self.0 & flag != 0,
            self.flags_kept(mid),
            mid.flags_kept(after),
        ensures
            self.flags_kept(after),
            mid.0 & flag != 0,
            after.0 & flag != 0,
    {
        let (a, b, c) = (self.0, mid.0, after.0);
        assert(a & 0x7c00 & c == a & 0x7c00) by (bit_vector)
            requires
                a & 0x7c00 & b == a & 0x7c00,
                b & 0x7c00 & c == b & 0x7c00,
        ;
        assert(b & flag != 0 && c & flag != 0) by (bit_vector)
            requires
                flag == 0x400 || flag == 0x800 || flag == 0x1000 || flag == 0x2000 || flag == 0x4000,
                a & flag != 0,
                a & 0x7c00 & b == a & 0x7c00,
                b & 0x7c00 & c == b & 0x7c00,
        ;
    }

    /// Setting `flags`, which hold no code bits, keeps every flag already set
    /// and the code.
    pub proof fn lemma_set_flags(self, flags: i32)
        requires
            0 <= flags,
            flags % 1024 == 0,
        ensures
            self.flags_kept(self),
            self.flags_kept(Status(self.0 | flags)),
            Status(self.0 | flags).code() == self.code(),
            (self.0 | flags) & flags == flags,
    {
        let a = self.0;
        assert(a & 0x7c00 & a == a & 0x7c00) by (bit_vector);
        assert(a & 0x7c00 & (a | flags) == a & 0x7c00) by (bit_vector);
        assert((a | flags) & 0x3ff == a & 0x3ff) by (bit_vector)
            requires
                0 <= flags,
                flags % 1024 == 0,
        ;
        assert((a | flags) & flags == flags) by (bit_vector);
    }

    /// The code, as a `u16`.
    pub fn response_code(&self) -> (r: u16)
        ensures
            r as i32 == self.code(),
            r < 1024,
    {
        let a = self.0;
        let c = a & 0x3ff;
        assert(0 <= c < 1024) by (bit_vector)
            requires
                c == a & 0x3ff,
        ;
        c as u16
    }

    /// The same flags with `code` in the low ten bits.
    pub fn with_code(self, code: u16) -> (r: Status)
        requires
            code < 1024,
        ensures
            r.code() == code as i32,
            r.0 & !0x3ffi32 == self.0 & !0x3ffi32,
            self.flags_kept(r),
            r.flags_kept(self),
    {
        let c = code as i32;
        let a = self.0;
        let r = (a & !0x3ffi32) | c;
        assert(r & 0x3ff == c && r & !0x3ffi32 == a & !0x3ffi32 && a & 0x7c00 & r == a & 0x7c00
            && r & 0x7c00 & a == r & 0x7c00) by (bit_vector)
            requires
                0 <= c < 1024,
                r == (a & !0x3ffi32) | c,
        ;
        Status(r)
    }

    /// True when at least one bit of `flags` is set here.
    pub fn any_flags(&self, flags: Status) -> (r: bool)
        ensures
            r == (self.0 & flags.0 != 0),
    {
        self.0 & flags.0 != 0
    }

    /// True when at least one bit of `flags` is clear here.
    pub fn any_flags_clear(&self, flags: Status) -> (r: bool)
        ensures
            r == (self.0 & flags.0 != flags.0),
    {
        self.0 & flags.0 != flags.0
    }

    /// True when no bit of `flags` is set here: the same test as
    /// `all_flags_clear`.
    pub fn all_flags(&self, flags: Status) -> (r: bool)
        ensures
            r == (self.0 & flags.0 == 0),
    {
        self.0 & flags.0 == 0
    }

    /// True when every bit of `flags` is clear here.
    pub fn all_flags_clear(&self, flags: Status) -> (r: bool)
        ensures
            r == (self.0 & flags.0 == 0),
    {
        self.0 & flags.0 == 0
    }
}

impl core::ops::BitOr for Status {
    type Output = Status;

    fn bitor(self, rhs: Status) -> (r: Status)
        ensures
            r.0 == self.0 | rhs.0,
    {
        Status(self.0 | rhs.0)
    }
}

impl vstd::std_specs::ops::BitOrSpecImpl for Status {
    open spec fn obeys_bitor_spec() -> bool {
        true
    }

    open spec fn bitor_req(self, rhs: Status) -> bool {
        true
    }

    open spec fn bitor_spec(self, rhs: Status) -> Status {
        Status(self.0 | rhs.0)
    }
}

impl core::ops::BitAnd for Status {
    type Output = Status;

    fn bitand(self, rhs: Status) -> (r: Status)
        ensures
            r.0 == self.0 & rhs.0,
    {
        Status(self.0 & rhs.0)
    }
}

impl vstd::std_specs::ops::BitAndSpecImpl for Status {
    open spec fn obeys_bitand_spec() -> bool {
        true
    }

    open spec fn bitand_req(self, rhs: Status) -> bool {
        true
    }

    open spec fn bitand_spec(self, rhs: Status) -> Status {
        Status(self.0 & rhs.0)
    }
}

impl core::ops::Not for Status {
    type Output = Status;

    fn not(self) -> (r: Status)
        ensures
            r.0 == !self.0,
    {
        Status(!self.0)
    }
}

impl vstd::std_specs::ops::NotSpecImpl for Status {
    open spec fn obeys_not_spec() -> bool {
        true
    }

    open spec fn not_req(self) -> bool {
        true
    }

    open spec fn not_spec(self) -> Status {
        Status(!self.0)
    }
}

impl core::ops::BitOrAssign for Status {
    fn bitor_assign(&mut self, rhs: Status)
        ensures
            final(self).0 == old(self).0 | rhs.0,
    {
        self.0 = self.0 | rhs.0;
    }
}

impl core::ops::BitAndAssign for Status {
    fn bitand_assign(&mut self, rhs: Status)
        ensures
            final(self).0 == old(self).0 & rhs.0,
    {
        self.0 = self.0 & rhs.0;
    }
}

impl PartialEq for Status {
    fn eq(&self, other: &Status) -> (r: bool) {
        self.0 == other.0
    }
}

impl vstd::std_specs::cmp::PartialEqSpecImpl for Status {
    open spec fn obeys_eq_spec() -> bool {
        true
    }

    open spec fn eq_spec(&self, other: &Status) -> bool {
        self.0 == other.0
    }
}

} // verus!
