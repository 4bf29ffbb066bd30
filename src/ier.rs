use vstd::prelude::*;
use std::marker::PhantomData;
use crate::io::Uart16550IO;
use crate::register::Register;

verus! {

/// The Interrupt Enable Register, bound to its offset within a register region.
///
/// The same offset serves as the divisor latch's high byte while the line
/// control register's divisor-latch-access bit is set; switching that bit is
/// up to the caller.
pub struct IER<R> {
    offset: usize,
    marker: PhantomData<R>,
}

impl<R> View for IER<R> {
    type V = usize;

    closed spec fn view(&self) -> usize {
        self.offset
    }
}

impl<R> Clone for IER<R> {
    fn clone(&self) -> (r: Self)
        ensures
            r@ == self@,
    {
        IER { offset: self.offset, marker: PhantomData }
    }
}

impl<R> Copy for IER<R> {
}

impl<R: Register> IER<R> {
    /// The register at `offset`.
    pub fn new(offset: usize) -> (r: Self)
        ensures
            r@ == offset,
    {
        IER { offset, marker: PhantomData }
    }

    /// `after` is `before` with `value` written to this register's cell.
    pub open spec fn stores<B: Uart16550IO<R>>(self, before: B, after: B, value: R) -> bool {
        &&& after.cell(self@) == value
        &&& forall|o: usize| o != self@ ==> #[trigger] after.cell(o) == before.cell(o)
        &&& forall|o: usize| #[trigger] after.serves(o) == before.serves(o)
    }

    /// Writes the interrupt enable settings.
    pub fn write<B: Uart16550IO<R>>(&self, io_region: &mut B, val: InterruptTypes)
        requires
            old(io_region).serves(self@),
        ensures
            self.stores(*old(io_region), *final(io_region), R::spec_from_byte(val@)),
    {
        io_region.write_at(self.offset, R::from_byte(val.0));
    }

    /// Reads the interrupt enable settings.
    pub fn read<B: Uart16550IO<R>>(&self, io_region: &B) -> (r: InterruptTypes)
        requires
            io_region.serves(self@),
        ensures
            r@ == io_region.cell(self@).spec_val(),
    {
        let val = io_region.read_at(self.offset).val();
        InterruptTypes(val)
    }

    /// Writes a raw value, the divisor latch's high byte, at this register's
    /// offset. Only meaningful while the divisor-latch-access bit is set.
    pub fn write_divisor<B: Uart16550IO<R>>(&self, io_region: &mut B, val: R)
        requires
            old(io_region).serves(self@),
        ensures
            self.stores(*old(io_region), *final(io_region), val),
    {
        io_region.write_at(self.offset, val);
    }
}

/// Reading the register after writing settings to it gives back those settings,
/// bits 4 to 7 included.
pub proof fn lemma_read_after_write<R: Register, B: Uart16550IO<R>>(
    reg: IER<R>,
    before: B,
    after: B,
    val: InterruptTypes,
)
    requires
        reg.stores(before, after, R::spec_from_byte(val@)),
    ensures
        after.cell(reg@).spec_val() == val@,
{
    R::lemma_from_byte_val(val@);
}

/// After a divisor write, the register's cell holds exactly the value written.
pub proof fn lemma_divisor_reads_back<R: Register, B: Uart16550IO<R>>(
    reg: IER<R>,
    before: B,
    after: B,
    val: R,
)
    requires
        reg.stores(before, after, val),
    ensures
        after.cell(reg@) == val,
{
}

/// Whether `m` is the mask of one of the four interrupt sources:
/// bit 0 (RDA), bit 1 (THRE), bit 2 (RLS) or bit 3 (MS).
pub open spec fn is_source_mask(m: u8) -> bool {
    m == 0x01 || m == 0x02 || m == 0x04 || m == 0x08
}

/// `b` with the bits of `m` set.
pub open spec fn with_flag(b: u8, m: u8) -> u8 {
    b | m
}

/// `b` with the bits of `m` cleared.
pub open spec fn without_flag(b: u8, m: u8) -> u8 {
    b & !m
}

/// Whether `b` has a bit of `m` set.
pub open spec fn has_flag(b: u8, m: u8) -> bool {
    b & m != 0
}

/// Interrupt enable settings: one byte, of which bits 0 to 3 enable the
/// four interrupt sources and bits 4 to 7 are kept as they are.
#[derive(Clone, Copy, PartialEq, Eq, Structural, Debug)]
pub struct InterruptTypes(u8);

impl View for InterruptTypes {
    type V = u8;

    closed spec fn view(&self) -> u8 {
        self.0
    }
}

impl InterruptTypes {
    const RDA: u8 = 0x01;
    const THRE: u8 = 0x02;
    const RLS: u8 = 0x04;
    const MS: u8 = 0x08;

    /// The settings with all interrupts disabled.
    pub fn zero() -> (r: Self)
        ensures
            r@ == 0,
    {
        Self(0)
    }

    /// Enables the received-data-available interrupt.
    pub fn enable_rda(self) -> (r: Self)
        ensures
            r@ == with_flag(self@, 0x01),
    {
        Self(self.0 | Self::RDA)
    }

    /// Disables the received-data-available interrupt.
    pub fn disable_rda(self) -> (r: Self)
        ensures
            r@ == without_flag(self@, 0x01),
    {
        Self(self.0 & !Self::RDA)
    }

    /// Whether the received-data-available interrupt is enabled.
    pub fn rda_enabled(self) -> (r: bool)
        ensures
            r == has_flag(self@, 0x01),
    {
        proof {
            lemma_mask_test(self.0, Self::RDA);
        }
        self.0 & Self::RDA == Self::RDA
    }

    /// Enables the transmit-holding-register-empty interrupt.
    pub fn enable_thre(self) -> (r: Self)
        ensures
            r@ == with_flag(self@, 0x02),
    {
        Self(self.0 | Self::THRE)
    }

    /// Disables the transmit-holding-register-empty interrupt.
    pub fn disable_thre(self) -> (r: Self)
        ensures
            r@ == without_flag(self@, 0x02),
    {
        Self(self.0 & !Self::THRE)
    }

    /// Whether the transmit-holding-register-empty interrupt is enabled.
    pub fn thre_enabled(self) -> (r: bool)
        ensures
            r == has_flag(self@, 0x02),
    {
        proof {
            lemma_mask_test(self.0, Self::THRE);
        }
        self.0 & Self::THRE == Self::THRE
    }

    /// Enables the receiver-line-status interrupt.
    pub fn enable_rls(self) -> (r: Self)
        ensures
            r@ == with_flag(self@, 0x04),
    {
        Self(self.0 | Self::RLS)
    }

    /// Disables the receiver-line-status interrupt.
    pub fn disable_rls(self) -> (r: Self)
        ensures
            r@ == without_flag(self@, 0x04),
    {
        Self(self.0 & !Self::RLS)
    }

    /// Whether the receiver-line-status interrupt is enabled.
    pub fn rls_enabled(self) -> (r: bool)
        ensures
            r == has_flag(self@, 0x04),
    {
        proof {
            lemma_mask_test(self.0, Self::RLS);
        }
        self.0 & Self::RLS == Self::RLS
    }

    /// Enables the modem-status interrupt.
    pub fn enable_ms(self) -> (r: Self)
        ensures
            r@ == with_flag(self@, 0x08),
    {
        Self(self.0 | Self::MS)
    }

    /// Disables the modem-status interrupt.
    pub fn disable_ms(self) -> (r: Self)
        ensures
            r@ == without_flag(self@, 0x08),
    {
        Self(self.0 & !Self::MS)
    }

    /// Whether the modem-status interrupt is enabled.
    pub fn ms_enabled(self) -> (r: bool)
        ensures
            r == has_flag(self@, 0x08),
    {
        proof {
            lemma_mask_test(self.0, Self::MS);
        }
        self.0 & Self::MS == Self::MS
    }
}

impl Default for InterruptTypes {
    fn default() -> (r: Self)
        ensures
            r@ == 0,
    {
        Self::zero()
    }
}

/// Testing a single-bit mask for equality with itself is testing it for non-zero.
proof fn lemma_mask_test(b: u8, m: u8)
    requires
        is_source_mask(m),
    ensures
        (b & m == m) == has_flag(b, m),
{
    assert((b & m == m) == (b & m != 0)) by (bit_vector)
        requires
            m == 0x01u8 || m == 0x02u8 || m == 0x04u8 || m == 0x08u8,
    ;
}

/// Two settings are equal exactly when their bytes are equal.
pub proof fn lemma_eq_iff_same_byte(a: InterruptTypes, b: InterruptTypes)
    ensures
        (a == b) == (a@ == b@),
{
}

/// The settings with all interrupts disabled (byte 0) report every source disabled.
pub proof fn lemma_zero_all_disabled()
    ensures
        forall|m: u8| is_source_mask(m) ==> !#[trigger] has_flag(0, m),
{
    assert(forall|m: u8|
        (m == 0x01u8 || m == 0x02u8 || m == 0x04u8 || m == 0x08u8) ==> #[trigger] (0u8 & m) == 0)
        by (bit_vector);
}

/// Enabling a source makes it report enabled; disabling it makes it report disabled.
pub proof fn lemma_update_then_query(v: InterruptTypes, m: u8)
    requires
        is_source_mask(m),
    ensures
        has_flag(with_flag(v@, m), m),
        !has_flag(without_flag(v@, m), m),
{
    let b = v@;
    assert(has_flag(with_flag(b, m), m) && !has_flag(without_flag(b, m), m)) by (bit_vector)
        requires
            m == 0x01u8 || m == 0x02u8 || m == 0x04u8 || m == 0x08u8,
    ;
}

/// Enabling or disabling one source leaves whether any other source is enabled unchanged.
pub proof fn lemma_update_keeps_others(v: InterruptTypes, m: u8, n: u8)
    requires
        is_source_mask(m),
        is_source_mask(n),
        m != n,
    ensures
        has_flag(with_flag(v@, m), n) == has_flag(v@, n),
        has_flag(without_flag(v@, m), n) == has_flag(v@, n),
{
    let b = v@;
    assert(has_flag(with_flag(b, m), n) == has_flag(b, n) && has_flag(without_flag(b, m), n)
        == has_flag(b, n)) by (bit_vector)
        requires
            m == 0x01u8 || m == 0x02u8 || m == 0x04u8 || m == 0x08u8,
            n == 0x01u8 || n == 0x02u8 || n == 0x04u8 || n == 0x08u8,
            m != n,
    ;
}

/// Enabling a source twice gives the same settings as enabling it once, and
/// likewise for disabling.
pub proof fn lemma_update_idempotent(v: InterruptTypes, once: InterruptTypes, twice: InterruptTypes, m: u8)
    requires
        is_source_mask(m),
    ensures
        once@ == with_flag(v@, m) && twice@ == with_flag(once@, m) ==> twice == once,
        once@ == without_flag(v@, m) && twice@ == without_flag(once@, m) ==> twice == once,
{
    let b = v@;
    assert(with_flag(with_flag(b, m), m) == with_flag(b, m) && without_flag(without_flag(b, m), m)
        == without_flag(b, m)) by (bit_vector);
}

/// Updates of two different sources give the same settings in either order.
pub proof fn lemma_updates_commute(v: InterruptTypes, m: u8, n: u8)
    requires
        is_source_mask(m),
        is_source_mask(n),
        m != n,
    ensures
        with_flag(with_flag(v@, m), n) == with_flag(with_flag(v@, n), m),
        without_flag(without_flag(v@, m), n) == without_flag(without_flag(v@, n), m),
        without_flag(with_flag(v@, m), n) == with_flag(without_flag(v@, n), m),
{
    let b = v@;
    assert(with_flag(with_flag(b, m), n) == with_flag(with_flag(b, n), m) && without_flag(
        without_flag(b, m),
        n,
    ) == without_flag(without_flag(b, n), m) && without_flag(with_flag(b, m), n) == with_flag(
        without_flag(b, n),
        m,
    )) by (bit_vector)
        requires
            m == 0x01u8 || m == 0x02u8 || m == 0x04u8 || m == 0x08u8,
            n == 0x01u8 || n == 0x02u8 || n == 0x04u8 || n == 0x08u8,
            m != n,
    ;
}

} // verus!
