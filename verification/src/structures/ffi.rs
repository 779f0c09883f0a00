use vstd::prelude::*;

verus! {

/// (section id) -> FnDecl
pub type LibraryResolverStructure = std::collections::HashMap<u64, FDecl>;

/// A foreign function: its symbol name and how it is called.
#[derive(Debug)]
pub struct FDecl {
    pub symbol: Box<[u8]>,
    pub sig: CallSig,
}

/// How a foreign function is called.
#[derive(Debug, Clone)]
pub enum CallSig {
    /// Define your own calling signature.
    CDef(CDef),
    /// Uses the SaFFI calling signature:
    /// `extern "C" (*mut CVMTaskState) -> ()`.
    SaFFI(
        /// Helps the JIT do speculative cleaning.
        UnsafeSaFFIProfile,
    ),
    /// Uses the SaFFI async calling signature with a `u64` future:
    /// `extern "C" (*mut CVMTaskState, *mut FutureTask<u64>) -> ()`.
    ///
    /// The future must not depend on the task state pointer; the function may
    /// modify registers until it sends the future. The low 64 bits of the
    /// output are copied to r7.
    SaFFIAsyncQ(
        /// Helps the JIT do speculative cleaning.
        UnsafeSaFFIProfile,
    ),
    /// Uses the SaFFI async calling signature with a `[u64; 2]` future:
    /// `extern "C" (*mut CVMTaskState, *mut FutureTask<[u64; 2]>) -> ()`.
    ///
    /// The low 64 bits of the output are copied to r7, the high 64 bits to r8.
    SaFFIAsyncO(
        /// Helps the JIT do speculative cleaning.
        UnsafeSaFFIProfile,
    ),
}

/// The set of general registers (r1..r8) that a foreign function clobbers:
/// bit `i` of the mask stands for register `r(i + 1)`.
#[derive(Debug, Clone)]
pub struct UnsafeSaFFIProfile {
    regclobber: u8,
}

/// Errors met while describing a foreign call.
#[derive(Debug, PartialEq, Eq, Structural)]
pub enum ParseError {
    /// A register other than r1..r8 was named where only those are allowed.
    FoundInvalidReg,
}

/// A C calling signature: its arguments and its output.
#[derive(Debug, Clone)]
pub struct CDef {
    pub inargs: Vec<MapValue>,
    pub out: COut,
}

/// The output of a C call.
#[derive(Debug, Clone, Copy, PartialEq, Eq, Structural)]
pub enum COut {
    /// `extern "C" fn(...) -> ()`
    Void,
    /// `extern "C" fn(...) -> u8`; r7 is fully clobbered and the byte lands
    /// at `r7.u8.offset(0)`.
    Bits8,
    /// `extern "C" fn(...) -> u16`; r7 is fully clobbered and the value lands
    /// at `r7.u16.offset(0)`.
    Bits16,
    /// `extern "C" fn(...) -> u32`; r7 is fully clobbered and the value lands
    /// at `r7.u32.offset(0)`.
    Bits32,
    /// `extern "C" fn(...) -> u64`; the value lands in r7.
    Bits64,
    /// `extern "C" fn(...) -> [u64; 2]`; the low 64 bits land in r7, the
    /// high 64 bits in r8.
    Bits128,
}

/// Where one argument of a C call is read from.
#[derive(Debug, Clone, Copy, PartialEq, Eq, Structural)]
pub struct MapValue {
    pub vtype: VType,
    pub vreg: VReg,
    /// Offset in units of the type's width; for `Bytes` it counts bytes.
    pub regof: u8,
}

/// The type of a value handed to a C call.
#[derive(Debug, Clone, Copy, PartialEq, Eq, Structural)]
pub enum VType {
    U64,
    U32,
    U16,
    U8,
    /// `usize`: the VM reads the value as `u64` and keeps the low bits.
    USize,
    I64,
    I32,
    I16,
    I8,
    /// `isize`: the VM reads the value as `i64` and keeps the low bits.
    ISize,
    F32,
    F64,
    /// Read the first `n` bytes.
    Bytes(U3),
}

/// A count from 1 to 8.
#[derive(Debug, Clone, Copy, PartialEq, Eq, Structural)]
pub struct U3(u8);

/// A location of the VM that an operand can be read from.
#[derive(Debug, Clone, Copy, PartialEq, Eq, Structural)]
pub enum VReg {
    R1,
    R2,
    R3,
    R4,
    R5,
    R6,
    R7,
    R8,
    Scratchpad,
    Largepad,
    LoadFromPtrInR2,
}

/// The libffi type that describes a `VType`.
#[derive(Debug, Clone, Copy, PartialEq, Eq, Structural)]
pub enum LFFIKind {
    Uint8,
    Uint16,
    Uint32,
    Uint64,
    Sint8,
    Sint16,
    Sint32,
    Sint64,
    Float,
    Double,
    /// A struct of `n` `uint8` elements.
    ByteStruct(u8),
}

/// One entry of the element table of a libffi struct.
#[derive(Debug, Clone, Copy, PartialEq, Eq, Structural)]
pub enum LFFIElement {
    /// A `uint8` field.
    Uint8,
    /// The null pointer that ends the table.
    End,
}

// ---------------------------------------------------------------------------
// Registers
// ---------------------------------------------------------------------------

/// The location id of a register: r1..r8 are 0..7, the small scratchpad is 8,
/// the large scratchpad 9, and "pointer read from r2" 10.
pub open spec fn spec_locsrc(r: VReg) -> u8 {
    match r {
        VReg::R1 => 0,
        VReg::R2 => 1,
        VReg::R3 => 2,
        VReg::R4 => 3,
        VReg::R5 => 4,
        VReg::R6 => 5,
        VReg::R7 => 6,
        VReg::R8 => 7,
        VReg::Scratchpad => 8,
        VReg::Largepad => 9,
        VReg::LoadFromPtrInR2 => 10,
    }
}

/// r1..r8, the registers a clobber profile can name.
pub open spec fn is_general_register(r: VReg) -> bool {
    spec_locsrc(r) < 8
}

/// The bit that stands for a general register in a clobber mask.
pub open spec fn reg_bit(r: VReg) -> u8 {
    if is_general_register(r) {
        (1u8 << spec_locsrc(r)) as u8
    } else {
        0
    }
}

/// The clobber mask that names every register of `regs`.
pub open spec fn mask_of(regs: Seq<VReg>) -> u8
    decreases regs.len(),
{
    if regs.len() == 0 {
        0
    } else {
        (mask_of(regs.drop_last()) | reg_bit(regs.last())) as u8
    }
}

/// Every register of `regs` is one of r1..r8.
pub open spec fn all_general(regs: Seq<VReg>) -> bool {
    forall|i: int| 0 <= i < regs.len() ==> is_general_register(#[trigger] regs[i])
}

impl VReg {
    /// The location id of the register (see `spec_locsrc`).
    pub fn as_locsrc(&self) -> (r: u8)
        ensures
            r == spec_locsrc(*self),
    {
        match self {
            VReg::R1 => 0,
            VReg::R2 => 1,
            VReg::R3 => 2,
            VReg::R4 => 3,
            VReg::R5 => 4,
            VReg::R6 => 5,
            VReg::R7 => 6,
            VReg::R8 => 7,
            VReg::Scratchpad => 8,
            VReg::Largepad => 9,
            VReg::LoadFromPtrInR2 => 10,
        }
    }
}

impl UnsafeSaFFIProfile {
    /// The raw clobber mask: bit `i` stands for register `r(i + 1)`.
    pub closed spec fn clobber_mask(self) -> u8 {
        self.regclobber
    }

    /// Whether the profile says that register `r` is clobbered.
    pub open spec fn spec_clobbers(self, r: VReg) -> bool {
        is_general_register(r) && self.clobber_mask() & reg_bit(r) != 0
    }

    /// The conservative profile: every register r1..r8 is clobbered.
    pub fn default() -> (r: Self)
        ensures
            r.clobber_mask() == 0xFFu8,
    {
        Self { regclobber: 0xFF }
    }

    /// A profile with the given raw mask.
    pub fn from_bits(regclobber: u8) -> (r: Self)
        ensures
            r.clobber_mask() == regclobber,
    {
        Self { regclobber }
    }

    /// The raw mask of the profile.
    pub fn bits(&self) -> (r: u8)
        ensures
            r == self.clobber_mask(),
    {
        self.regclobber
    }

    /// Whether `reg` is clobbered; only r1..r8 can be asked about.
    pub fn clobbers(&self, reg: VReg) -> (r: Result<bool, ParseError>)
        ensures
            is_general_register(reg) ==> r == Ok::<bool, ParseError>(self.spec_clobbers(reg)),
            !is_general_register(reg) ==> r == Err::<bool, ParseError>(ParseError::FoundInvalidReg),
    {
        match Self::rmask(&reg) {
            Ok(m) => Ok(self.regclobber & m != 0),
            Err(e) => Err(e),
        }
    }

    fn rmask(rg: &VReg) -> (r: Result<u8, ParseError>)
        ensures
            is_general_register(*rg) ==> r == Ok::<u8, ParseError>(reg_bit(*rg)),
            !is_general_register(*rg) ==> r == Err::<u8, ParseError>(ParseError::FoundInvalidReg),
    {
        proof {
            lemma_reg_bit_values();
        }
        match rg {
            VReg::R1 => Ok(0x01),
            VReg::R2 => Ok(0x02),
            VReg::R3 => Ok(0x04),
            VReg::R4 => Ok(0x08),
            VReg::R5 => Ok(0x10),
            VReg::R6 => Ok(0x20),
            VReg::R7 => Ok(0x40),
            VReg::R8 => Ok(0x80),
            _ => Err(ParseError::FoundInvalidReg),
        }
    }

    /// The profile that clobbers exactly the registers of `regsclobber`.
    ///
    /// The caller must ensure that the list accurately represents the
    /// behaviour of the foreign function: an incomplete list lets the JIT/VM
    /// make wrong assumptions about register state.
    pub fn new(regsclobber: &[VReg]) -> (r: Result<Self, ParseError>)
        ensures
            all_general(regsclobber@) ==> (r matches Ok(p) && p.clobber_mask() == mask_of(
                regsclobber@,
            )),
            !all_general(regsclobber@) ==> r == Err::<Self, ParseError>(
                ParseError::FoundInvalidReg,
            ),
    {
        let mut out = Self { regclobber: 0 };
        let mut i: usize = 0;
        while i < regsclobber.len()
            invariant
                i <= regsclobber@.len(),
                all_general(regsclobber@.subrange(0, i as int)),
                out.regclobber == mask_of(regsclobber@.subrange(0, i as int)),
            decreases regsclobber@.len() - i,
        {
            let m = match Self::rmask(&regsclobber[i]) {
                Ok(m) => m,
                Err(e) => {
                    assert(!is_general_register(regsclobber@[i as int]));
                    return Err(e);
                },
            };
            proof {
                let s = regsclobber@.subrange(0, i as int + 1);
                assert(s.drop_last() =~= regsclobber@.subrange(0, i as int));
                assert(s.last() == regsclobber@[i as int]);
            }
            out.regclobber = out.regclobber | m;
            i = i + 1;
        }
        assert(regsclobber@.subrange(0, i as int) =~= regsclobber@);
        Ok(out)
    }
}

/// The mask bits of r1..r8 as literals.
proof fn lemma_reg_bit_values()
    ensures
        reg_bit(VReg::R1) == 0x01u8,
        reg_bit(VReg::R2) == 0x02u8,
        reg_bit(VReg::R3) == 0x04u8,
        reg_bit(VReg::R4) == 0x08u8,
        reg_bit(VReg::R5) == 0x10u8,
        reg_bit(VReg::R6) == 0x20u8,
        reg_bit(VReg::R7) == 0x40u8,
        reg_bit(VReg::R8) == 0x80u8,
{
    assert(1u8 << 0u8 == 0x01u8) by (bit_vector);
    assert(1u8 << 1u8 == 0x02u8) by (bit_vector);
    assert(1u8 << 2u8 == 0x04u8) by (bit_vector);
    assert(1u8 << 3u8 == 0x08u8) by (bit_vector);
    assert(1u8 << 4u8 == 0x10u8) by (bit_vector);
    assert(1u8 << 5u8 == 0x20u8) by (bit_vector);
    assert(1u8 << 6u8 == 0x40u8) by (bit_vector);
    assert(1u8 << 7u8 == 0x80u8) by (bit_vector);
}


// ---------------------------------------------------------------------------
// Outputs, types and counts
// ---------------------------------------------------------------------------

/// The number of bytes a C call returns.
pub open spec fn spec_out_width(o: COut) -> usize {
    match o {
        COut::Void => 0,
        COut::Bits8 => 1,
        COut::Bits16 => 2,
        COut::Bits32 => 4,
        COut::Bits64 => 8,
        COut::Bits128 => 16,
    }
}

impl COut {
    /// The number of bytes the call returns.
    pub fn width(&self) -> (r: usize)
        ensures
            r == spec_out_width(*self),
    {
        match self {
            COut::Void => 0,
            COut::Bits8 => 1,
            COut::Bits16 => 2,
            COut::Bits32 => 4,
            COut::Bits64 => 8,
            COut::Bits128 => 16,
        }
    }
}

impl U3 {
    #[verifier::type_invariant]
    spec fn in_range(self) -> bool {
        1 <= self.0 <= 8
    }

    /// The count held.
    pub closed spec fn spec_get(self) -> u8 {
        self.0
    }

    /// A count; it must lie in 1..=8.
    pub fn new(data: u8) -> (r: Self)
        requires
            1 <= data <= 8,
        ensures
            r.spec_get() == data,
    {
        U3(data)
    }

    /// The count held, which lies in 1..=8.
    #[verifier::when_used_as_spec(spec_get)]
    pub fn get(self) -> (r: u8)
        ensures
            r == self.spec_get(),
            1 <= r <= 8,
    {
        proof {
            use_type_invariant(&self);
        }
        self.0
    }
}

/// The width in bytes of a value of the type (`usize` and `isize` as wide as
/// the machine's pointers).
pub open spec fn spec_width(t: VType) -> u32 {
    match t {
        VType::U8 => 1,
        VType::U16 => 2,
        VType::U32 => 4,
        VType::U64 => 8,
        VType::USize => (usize::BITS / 8) as u32,
        VType::I8 => 1,
        VType::I16 => 2,
        VType::I32 => 4,
        VType::I64 => 8,
        VType::ISize => (usize::BITS / 8) as u32,
        VType::F32 => 4,
        VType::F64 => 8,
        VType::Bytes(n) => n.spec_get() as u32,
    }
}

/// The VM's type tag of the type: 0 u64, 1 u32, 2 u16, 3 u8, 4 i64, 5 i32,
/// 6 i16, 7 i8, 8 f64, 9 f32; `usize`/`isize` take the tag of the integer of
/// the machine's pointer width, and `Bytes` has no tag (`u8::MAX`).
pub open spec fn spec_savmtype(t: VType) -> u8 {
    match t {
        VType::U8 => 3,
        VType::U16 => 2,
        VType::U32 => 1,
        VType::U64 => 0,
        VType::USize => if usize::BITS == 64 { 0 } else { 1 },
        VType::I8 => 7,
        VType::I16 => 6,
        VType::I32 => 5,
        VType::I64 => 4,
        VType::ISize => if usize::BITS == 64 { 4 } else { 5 },
        VType::F32 => 9,
        VType::F64 => 8,
        VType::Bytes(_) => 255,
    }
}

/// The byte offset of an operand at `regof`: `regof` values of the type, or
/// `regof` bytes for `Bytes`.
pub open spec fn spec_byte_offset(t: VType, regof: u8) -> u32 {
    match t {
        VType::Bytes(_) => regof as u32,
        _ => (spec_width(t) * regof) as u32,
    }
}

/// The element table of a libffi struct of `n` bytes.
pub open spec fn spec_byte_struct_elements(n: nat) -> Seq<LFFIElement> {
    Seq::new(n, |k: int| LFFIElement::Uint8).push(LFFIElement::End)
}

/// The libffi type of a value of the type.
pub open spec fn spec_lffi_kind(t: VType) -> LFFIKind {
    match t {
        VType::U8 => LFFIKind::Uint8,
        VType::U16 => LFFIKind::Uint16,
        VType::U32 => LFFIKind::Uint32,
        VType::U64 => LFFIKind::Uint64,
        VType::USize => if usize::BITS == 64 { LFFIKind::Uint64 } else { LFFIKind::Uint32 },
        VType::I8 => LFFIKind::Sint8,
        VType::I16 => LFFIKind::Sint16,
        VType::I32 => LFFIKind::Sint32,
        VType::I64 => LFFIKind::Sint64,
        VType::ISize => if usize::BITS == 64 { LFFIKind::Sint64 } else { LFFIKind::Sint32 },
        VType::F32 => LFFIKind::Float,
        VType::F64 => LFFIKind::Double,
        VType::Bytes(n) => LFFIKind::ByteStruct(n.spec_get()),
    }
}

impl VType {
    /// The width in bytes of a value of the type.
    pub fn width(&self) -> (r: u32)
        ensures
            r == spec_width(*self),
            1 <= r <= 8,
    {
        match self {
            VType::U8 => 1,
            VType::U16 => 2,
            VType::U32 => 4,
            VType::U64 => 8,
            VType::USize => usize::BITS / 8,
            VType::I8 => 1,
            VType::I16 => 2,
            VType::I32 => 4,
            VType::I64 => 8,
            VType::ISize => usize::BITS / 8,
            VType::F32 => 4,
            VType::F64 => 8,
            VType::Bytes(n) => n.get() as u32,
        }
    }

    /// The VM's type tag of the type (see `spec_savmtype`).
    pub fn as_savmtype(&self) -> (r: u8)
        ensures
            r == spec_savmtype(*self),
    {
        match self {
            VType::U8 => 3,
            VType::U16 => 2,
            VType::U32 => 1,
            VType::U64 => 0,
            VType::USize => if usize::BITS == 64 { 0 } else { 1 },
            VType::I8 => 7,
            VType::I16 => 6,
            VType::I32 => 5,
            VType::I64 => 4,
            VType::ISize => if usize::BITS == 64 { 4 } else { 5 },
            VType::F32 => 9,
            VType::F64 => 8,
            VType::Bytes(_) => u8::MAX,
        }
    }

    /// The byte offset of an operand at `regof` from the start of its
    /// location: `regof` counts values of the type, except for `Bytes`,
    /// where it counts bytes.
    pub fn byte_offset(&self, regof: u8) -> (r: u32)
        ensures
            r == spec_byte_offset(*self, regof),
    {
        match self {
            VType::Bytes(_) => regof as u32,
            _ => {
                let w = self.width();
                assert(w * regof <= 8 * 255) by (nonlinear_arith)
                    requires
                        w <= 8,
                ;
                w * (regof as u32)
            },
        }
    }

    /// The elements of the libffi struct that describes `Bytes(n)`: `n`
    /// `uint8` elements and then the null terminator.
    pub fn byte_struct_elements(n: u8) -> (r: Vec<LFFIElement>)
        requires
            n < 16,
        ensures
            r@ == spec_byte_struct_elements(n as nat),
            r@.len() <= 16,
    {
        let mut r: Vec<LFFIElement> = Vec::new();
        let mut i: u8 = 0;
        while i < n
            invariant
                i <= n,
                r@ == Seq::new(i as nat, |k: int| LFFIElement::Uint8),
            decreases n - i,
        {
            r.push(LFFIElement::Uint8);
            i = i + 1;
        }
        r.push(LFFIElement::End);
        r
    }

    /// The libffi type that describes a value of the type; a `Bytes(n)` value
    /// is a struct of `n` `uint8` elements, and `n` leaves room for the
    /// null terminator in a table of 16 element pointers.
    pub fn lffi_kind(&self) -> (r: LFFIKind)
        ensures
            r == spec_lffi_kind(*self),
            r matches LFFIKind::ByteStruct(n) ==> 1 <= n < 16,
    {
        match self {
            VType::U8 => LFFIKind::Uint8,
            VType::U16 => LFFIKind::Uint16,
            VType::U32 => LFFIKind::Uint32,
            VType::U64 => LFFIKind::Uint64,
            VType::USize => if usize::BITS == 64 { LFFIKind::Uint64 } else { LFFIKind::Uint32 },
            VType::I8 => LFFIKind::Sint8,
            VType::I16 => LFFIKind::Sint16,
            VType::I32 => LFFIKind::Sint32,
            VType::I64 => LFFIKind::Sint64,
            VType::ISize => if usize::BITS == 64 { LFFIKind::Sint64 } else { LFFIKind::Sint32 },
            VType::F32 => LFFIKind::Float,
            VType::F64 => LFFIKind::Double,
            VType::Bytes(n) => LFFIKind::ByteStruct(n.get()),
        }
    }
}


// ---------------------------------------------------------------------------
// Laws
// ---------------------------------------------------------------------------

/// The size in bytes of a value of a libffi type.
pub open spec fn spec_lffi_size(k: LFFIKind) -> u32 {
    match k {
        LFFIKind::Uint8 | LFFIKind::Sint8 => 1,
        LFFIKind::Uint16 | LFFIKind::Sint16 => 2,
        LFFIKind::Uint32 | LFFIKind::Sint32 | LFFIKind::Float => 4,
        LFFIKind::Uint64 | LFFIKind::Sint64 | LFFIKind::Double => 8,
        LFFIKind::ByteStruct(n) => n as u32,
    }
}

/// The width of the values of a type tag: 8, 4, 2, 1 bytes for the tags of
/// 64, 32, 16 and 8 bit integers (0..=3 unsigned, 4..=7 signed), 8 for `f64`
/// (tag 8) and 4 for `f32` (tag 9).
pub open spec fn spec_tag_width(tag: u8) -> u32 {
    if tag < 8 {
        (8u32 >> ((tag % 4) as u32)) as u32
    } else if tag == 8 {
        8
    } else {
        4
    }
}

/// Two different registers have different location ids, and every id is at
/// most 10.
pub proof fn law_locsrc_distinct(a: VReg, b: VReg)
    ensures
        spec_locsrc(a) <= 10,
        spec_locsrc(a) == spec_locsrc(b) ==> a == b,
{
}

/// The mask bit of a general register is the single bit at its location id,
/// and two general registers share a mask bit only if they are the same.
pub proof fn law_register_bits_distinct(a: VReg, b: VReg)
    requires
        is_general_register(a),
        is_general_register(b),
    ensures
        reg_bit(a) != 0,
        (reg_bit(a) & reg_bit(b) != 0) <==> a == b,
{
    lemma_single_bits();
}

proof fn lemma_single_bits()
    ensures
        forall|i: u8, k: u8|
            #![trigger (1u8 << i) & (1u8 << k)]
            i < 8 && k < 8 ==> (((1u8 << i) & (1u8 << k) != 0) <==> i == k),
        forall|i: u8| i < 8 ==> #[trigger] (1u8 << i) != 0,
{
    assert forall|i: u8, k: u8|
        #![trigger (1u8 << i) & (1u8 << k)]
        i < 8 && k < 8 implies (((1u8 << i) & (1u8 << k) != 0) <==> i == k) by {
        assert(i < 8 && k < 8 ==> (((1u8 << i) & (1u8 << k) != 0) <==> i == k)) by (bit_vector);
    }
    assert forall|i: u8| i < 8 implies #[trigger] (1u8 << i) != 0 by {
        assert(i < 8 ==> (1u8 << i) != 0) by (bit_vector);
    }
}

/// A profile built from a list of general registers clobbers exactly the
/// registers of that list.
pub proof fn law_new_clobbers_exactly(regs: Seq<VReg>, p: UnsafeSaFFIProfile, g: VReg)
    requires
        all_general(regs),
        p.clobber_mask() == mask_of(regs),
        is_general_register(g),
    ensures
        p.spec_clobbers(g) <==> regs.contains(g),
{
    lemma_mask_of_contains(regs, g);
}

proof fn lemma_mask_of_contains(regs: Seq<VReg>, g: VReg)
    requires
        all_general(regs),
        is_general_register(g),
    ensures
        (mask_of(regs) & reg_bit(g) != 0) <==> regs.contains(g),
    decreases regs.len(),
{
    if regs.len() == 0 {
        let b = reg_bit(g);
        assert(0u8 & b == 0) by (bit_vector);
    } else {
        let init = regs.drop_last();
        let last = regs.last();
        assert(all_general(init)) by {
            assert forall|i: int| 0 <= i < init.len() implies is_general_register(
                #[trigger] init[i],
            ) by {
                assert(init[i] == regs[i]);
            }
        }
        assert(is_general_register(last)) by {
            assert(last == regs[regs.len() - 1]);
        }
        lemma_mask_of_contains(init, g);
        law_register_bits_distinct(last, g);
        let x = mask_of(init);
        let y = reg_bit(last);
        let m = reg_bit(g);
        assert(((x | y) & m != 0) <==> (x & m != 0 || y & m != 0)) by (bit_vector);
        assert(regs =~= init.push(last));
        if regs.contains(g) {
            let j = choose|j: int| 0 <= j < regs.len() && regs[j] == g;
            if j < regs.len() - 1 {
                assert(init[j] == g);
            }
        }
        if init.contains(g) {
            let j = choose|j: int| 0 <= j < init.len() && init[j] == g;
            assert(regs[j] == g);
        }
        if last == g {
            assert(regs[regs.len() - 1] == g);
        }
    }
}

/// The default profile clobbers every general register.
pub proof fn law_default_clobbers_all(p: UnsafeSaFFIProfile, g: VReg)
    requires
        p.clobber_mask() == 0xFFu8,
        is_general_register(g),
    ensures
        p.spec_clobbers(g),
{
    let i = spec_locsrc(g);
    assert(i < 8 ==> 0xFFu8 & (1u8 << i) != 0) by (bit_vector);
}

/// The type tag of every type but `Bytes` is one of the documented tags, and
/// the width of the type is the width that its tag documents.
pub proof fn law_type_tag_matches_width(t: VType)
    requires
        !(t is Bytes),
    ensures
        spec_savmtype(t) < 10,
        spec_width(t) == spec_tag_width(spec_savmtype(t)),
{
    assert(8u32 >> 0u32 == 8u32) by (bit_vector);
    assert(8u32 >> 1u32 == 4u32) by (bit_vector);
    assert(8u32 >> 2u32 == 2u32) by (bit_vector);
    assert(8u32 >> 3u32 == 1u32) by (bit_vector);
}

/// An operand of any type but `Bytes` at `regof` lies `regof` whole values
/// in, so successive operands never overlap; a `Bytes` operand lies `regof`
/// bytes in.
pub proof fn law_byte_offset_steps_by_width(t: VType, regof: u8)
    ensures
        !(t is Bytes) ==> spec_byte_offset(t, regof) == spec_width(t) * regof,
        !(t is Bytes) && regof < 255 ==> spec_byte_offset(t, (regof + 1) as u8) == spec_byte_offset(
            t,
            regof,
        ) + spec_width(t),
        t is Bytes ==> spec_byte_offset(t, regof) == regof,
{
    if !(t is Bytes) {
        assert(spec_width(t) <= 8);
        assert(spec_width(t) * regof <= 8 * 255) by (nonlinear_arith)
            requires
                spec_width(t) <= 8,
        ;
        assert(spec_width(t) * (regof + 1) == spec_width(t) * regof + spec_width(t)) by (
        nonlinear_arith);
        if regof < 255 {
            assert(spec_width(t) * (regof + 1) <= 8 * 255) by (nonlinear_arith)
                requires
                    spec_width(t) <= 8,
                    regof < 255,
            ;
        }
    }
}

/// A byte blob has none of the documented type tags 0..=9: its tag is
/// `u8::MAX`, and every other type has a documented tag.
pub proof fn law_only_bytes_lack_a_tag(t: VType)
    ensures
        (spec_savmtype(t) < 10) <==> !(t is Bytes),
        t is Bytes ==> spec_savmtype(t) == u8::MAX,
{
}

/// The libffi type that describes a type is as wide as the type.
pub proof fn law_lffi_size_is_width(t: VType)
    ensures
        spec_lffi_size(spec_lffi_kind(t)) == spec_width(t),
{
}

} // verus!
