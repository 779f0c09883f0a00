#[allow(non_snake_case)]
pub mod FLAGS;
#[allow(non_snake_case)]
pub mod OPCODES;

use vstd::prelude::*;

verus! {

/// An opaque, 64-byte context handed to foreign code.
pub struct CVMContext {
    pub _unstable: [u8; 64],
}

// # DANGER
// The VM will happily run undefined code without any form of bounds checking.
//
// All numbers follow the little-endian standard.
//
// Register ids: r1 = 0, r2 = 1, ..., r8 = 7.
// Type tags: 0 u64, 1 u32, 2 u16, 3 u8, 4 i64, 5 i32, 6 i16, 7 i8, 8 f64, 9 f32.
//
// The opcode of every instruction of the bytecode:
pub const INSTRUCTION_VCOPY: u8 = 1;
pub const INSTRUCTION_MOV: u8 = 2;
pub const INSTRUCTION_REG: u8 = 3;
pub const INSTRUCTION_MARK: u8 = 4;
pub const INSTRUCTION_JMP: u8 = 5;
pub const INSTRUCTION_JIF: u8 = 6;
pub const INSTRUCTION_VCMP: u8 = 7;
pub const INSTRUCTION_VADD: u8 = 8;
pub const INSTRUCTION_VADDF: u8 = 9;
pub const INSTRUCTION_VSUB: u8 = 10;
pub const INSTRUCTION_VSUBF: u8 = 11;
pub const INSTRUCTION_VMUL: u8 = 12;
pub const INSTRUCTION_VMULF: u8 = 13;
pub const INSTRUCTION_DIV: u8 = 14;
pub const INSTRUCTION_REM: u8 = 15;
pub const INSTRUCTION_VDIVF: u8 = 16;
pub const INSTRUCTION_CAST: u8 = 17;
pub const INSTRUCTION_VNEG: u8 = 18;
pub const INSTRUCTION_VABS: u8 = 19;
pub const INSTRUCTION_VFOP: u8 = 20;
pub const INSTRUCTION_VFCAST: u8 = 21;
pub const INSTRUCTION_VBIT: u8 = 22;
pub const INSTRUCTION_VROT: u8 = 23;
pub const INSTRUCTION_VSH: u8 = 24;
pub const INSTRUCTION_VCNT: u8 = 25;
pub const INSTRUCTION_VMINIMAX: u8 = 26;
pub const INSTRUCTION_VFMA: u8 = 27;
pub const INSTRUCTION_SYNCCALL: u8 = 28;
pub const INSTRUCTION_ASYNCCALL: u8 = 29;
pub const INSTRUCTION_SPAWN: u8 = 30;
pub const INSTRUCTION_TASK: u8 = 31;
pub const INSTRUCTION_ATOMIC: u8 = 32;
pub const INSTRUCTION_SCRATCH: u8 = 33;

/// The number of instructions; their opcodes are `1..=INSTRUCTION_COUNT`.
pub const INSTRUCTION_COUNT: u8 = 33;

/// The mnemonic of the instruction with opcode `code` (empty for a code that
/// names no instruction).
pub open spec fn spec_instruction_name(code: u8) -> Seq<char> {
    match code {
        1 => "vcopy"@,
        2 => "mov"@,
        3 => "reg"@,
        4 => "mark"@,
        5 => "jmp"@,
        6 => "jif"@,
        7 => "vcmp"@,
        8 => "vadd"@,
        9 => "vaddf"@,
        10 => "vsub"@,
        11 => "vsubf"@,
        12 => "vmul"@,
        13 => "vmulf"@,
        14 => "div"@,
        15 => "rem"@,
        16 => "vdivf"@,
        17 => "cast"@,
        18 => "vneg"@,
        19 => "vabs"@,
        20 => "vfop"@,
        21 => "vfcast"@,
        22 => "vbit"@,
        23 => "vrot"@,
        24 => "vsh"@,
        25 => "vcnt"@,
        26 => "vminimax"@,
        27 => "vfma"@,
        28 => "synccall"@,
        29 => "asynccall"@,
        30 => "spawn"@,
        31 => "task"@,
        32 => "atomic"@,
        33 => "scratch"@,
        _ => Seq::empty(),
    }
}

/// The mnemonic of the instruction with opcode `code`.
fn instruction_name(code: u8) -> (r: &'static str)
    requires
        1 <= code <= INSTRUCTION_COUNT,
    ensures
        r@ == spec_instruction_name(code),
{
    match code {
        1 => "vcopy",
        2 => "mov",
        3 => "reg",
        4 => "mark",
        5 => "jmp",
        6 => "jif",
        7 => "vcmp",
        8 => "vadd",
        9 => "vaddf",
        10 => "vsub",
        11 => "vsubf",
        12 => "vmul",
        13 => "vmulf",
        14 => "div",
        15 => "rem",
        16 => "vdivf",
        17 => "cast",
        18 => "vneg",
        19 => "vabs",
        20 => "vfop",
        21 => "vfcast",
        22 => "vbit",
        23 => "vrot",
        24 => "vsh",
        25 => "vcnt",
        26 => "vminimax",
        27 => "vfma",
        28 => "synccall",
        29 => "asynccall",
        30 => "spawn",
        31 => "task",
        32 => "atomic",
        33 => "scratch",
        _ => "scratch",
    }
}

/// Whether two strings hold the same characters.
fn str_eq(a: &str, b: &str) -> (r: bool)
    ensures
        r == (a@ == b@),
{
    let x = a.as_bytes();
    let y = b.as_bytes();
    proof {
        vstd::utf8::encode_utf8_decode_utf8(a@);
        vstd::utf8::encode_utf8_decode_utf8(b@);
    }
    if x.len() != y.len() {
        return false;
    }
    let mut i: usize = 0;
    while i < x.len()
        invariant
            x@.len() == y@.len(),
            i <= x@.len(),
            x@ == vstd::utf8::encode_utf8(a@),
            y@ == vstd::utf8::encode_utf8(b@),
            forall|j: int| 0 <= j < i ==> x@[j] == y@[j],
        decreases x@.len() - i,
    {
        if x[i] != y[i] {
            proof {
                if a@ == b@ {
                    assert(x@ == y@);
                }
            }
            return false;
        }
        i = i + 1;
    }
    assert(x@ =~= y@);
    true
}

/// The opcode of the instruction whose mnemonic is `inst`, or `None` when no
/// instruction has that mnemonic.
pub fn parse_instrution(inst: &str) -> (r: Option<u8>)
    ensures
        r matches Some(c) ==> 1 <= c <= INSTRUCTION_COUNT && spec_instruction_name(c) == inst@,
        r is None ==> forall|c: u8|
            1 <= c <= INSTRUCTION_COUNT ==> #[trigger] spec_instruction_name(c) != inst@,
{
    let mut code: u8 = 1;
    while code <= INSTRUCTION_COUNT
        invariant
            1 <= code <= INSTRUCTION_COUNT + 1,
            forall|c: u8| 1 <= c < code ==> #[trigger] spec_instruction_name(c) != inst@,
        decreases INSTRUCTION_COUNT + 1 - code,
    {
        if str_eq(inst, instruction_name(code)) {
            return Some(code);
        }
        code = code + 1;
    }
    None
}

/// Each instruction constant is the opcode of its mnemonic.
pub proof fn law_constants_name_their_instruction()
    ensures
        spec_instruction_name(INSTRUCTION_VCOPY) == "vcopy"@ &&
        spec_instruction_name(INSTRUCTION_MOV) == "mov"@ &&
        spec_instruction_name(INSTRUCTION_REG) == "reg"@ &&
        spec_instruction_name(INSTRUCTION_MARK) == "mark"@ &&
        spec_instruction_name(INSTRUCTION_JMP) == "jmp"@ &&
        spec_instruction_name(INSTRUCTION_JIF) == "jif"@ &&
        spec_instruction_name(INSTRUCTION_VCMP) == "vcmp"@ &&
        spec_instruction_name(INSTRUCTION_VADD) == "vadd"@ &&
        spec_instruction_name(INSTRUCTION_VADDF) == "vaddf"@ &&
        spec_instruction_name(INSTRUCTION_VSUB) == "vsub"@ &&
        spec_instruction_name(INSTRUCTION_VSUBF) == "vsubf"@ &&
        spec_instruction_name(INSTRUCTION_VMUL) == "vmul"@ &&
        spec_instruction_name(INSTRUCTION_VMULF) == "vmulf"@ &&
        spec_instruction_name(INSTRUCTION_DIV) == "div"@ &&
        spec_instruction_name(INSTRUCTION_REM) == "rem"@ &&
        spec_instruction_name(INSTRUCTION_VDIVF) == "vdivf"@ &&
        spec_instruction_name(INSTRUCTION_CAST) == "cast"@ &&
        spec_instruction_name(INSTRUCTION_VNEG) == "vneg"@ &&
        spec_instruction_name(INSTRUCTION_VABS) == "vabs"@ &&
        spec_instruction_name(INSTRUCTION_VFOP) == "vfop"@ &&
        spec_instruction_name(INSTRUCTION_VFCAST) == "vfcast"@ &&
        spec_instruction_name(INSTRUCTION_VBIT) == "vbit"@ &&
        spec_instruction_name(INSTRUCTION_VROT) == "vrot"@ &&
        spec_instruction_name(INSTRUCTION_VSH) == "vsh"@ &&
        spec_instruction_name(INSTRUCTION_VCNT) == "vcnt"@ &&
        spec_instruction_name(INSTRUCTION_VMINIMAX) == "vminimax"@ &&
        spec_instruction_name(INSTRUCTION_VFMA) == "vfma"@ &&
        spec_instruction_name(INSTRUCTION_SYNCCALL) == "synccall"@ &&
        spec_instruction_name(INSTRUCTION_ASYNCCALL) == "asynccall"@ &&
        spec_instruction_name(INSTRUCTION_SPAWN) == "spawn"@ &&
        spec_instruction_name(INSTRUCTION_TASK) == "task"@ &&
        spec_instruction_name(INSTRUCTION_ATOMIC) == "atomic"@ &&
        spec_instruction_name(INSTRUCTION_SCRATCH) == "scratch"@,
{
}

/// The length and first three characters of a mnemonic; they tell every two
/// mnemonics apart.
spec fn name_key(s: Seq<char>) -> (nat, char, char, char) {
    (s.len(), s[0], s[1], s[2])
}

spec fn key_table(code: u8) -> (nat, char, char, char) {
    match code {
        1 => (5, 'v', 'c', 'o'),
        2 => (3, 'm', 'o', 'v'),
        3 => (3, 'r', 'e', 'g'),
        4 => (4, 'm', 'a', 'r'),
        5 => (3, 'j', 'm', 'p'),
        6 => (3, 'j', 'i', 'f'),
        7 => (4, 'v', 'c', 'm'),
        8 => (4, 'v', 'a', 'd'),
        9 => (5, 'v', 'a', 'd'),
        10 => (4, 'v', 's', 'u'),
        11 => (5, 'v', 's', 'u'),
        12 => (4, 'v', 'm', 'u'),
        13 => (5, 'v', 'm', 'u'),
        14 => (3, 'd', 'i', 'v'),
        15 => (3, 'r', 'e', 'm'),
        16 => (5, 'v', 'd', 'i'),
        17 => (4, 'c', 'a', 's'),
        18 => (4, 'v', 'n', 'e'),
        19 => (4, 'v', 'a', 'b'),
        20 => (4, 'v', 'f', 'o'),
        21 => (6, 'v', 'f', 'c'),
        22 => (4, 'v', 'b', 'i'),
        23 => (4, 'v', 'r', 'o'),
        24 => (3, 'v', 's', 'h'),
        25 => (4, 'v', 'c', 'n'),
        26 => (8, 'v', 'm', 'i'),
        27 => (4, 'v', 'f', 'm'),
        28 => (8, 's', 'y', 'n'),
        29 => (9, 'a', 's', 'y'),
        30 => (5, 's', 'p', 'a'),
        31 => (4, 't', 'a', 's'),
        32 => (6, 'a', 't', 'o'),
        33 => (7, 's', 'c', 'r'),
        _ => (0, ' ', ' ', ' '),
    }
}

proof fn lemma_name_keys()
    ensures
        forall|k: u8| 1 <= k <= INSTRUCTION_COUNT ==> #[trigger] name_key(spec_instruction_name(k)) == key_table(k),
{
    broadcast use vstd::string::group_string_axioms;

    reveal_strlit("vcopy");
    reveal_strlit("mov");
    reveal_strlit("reg");
    reveal_strlit("mark");
    reveal_strlit("jmp");
    reveal_strlit("jif");
    reveal_strlit("vcmp");
    reveal_strlit("vadd");
    reveal_strlit("vaddf");
    reveal_strlit("vsub");
    reveal_strlit("vsubf");
    reveal_strlit("vmul");
    reveal_strlit("vmulf");
    reveal_strlit("div");
    reveal_strlit("rem");
    reveal_strlit("vdivf");
    reveal_strlit("cast");
    reveal_strlit("vneg");
    reveal_strlit("vabs");
    reveal_strlit("vfop");
    reveal_strlit("vfcast");
    reveal_strlit("vbit");
    reveal_strlit("vrot");
    reveal_strlit("vsh");
    reveal_strlit("vcnt");
    reveal_strlit("vminimax");
    reveal_strlit("vfma");
    reveal_strlit("synccall");
    reveal_strlit("asynccall");
    reveal_strlit("spawn");
    reveal_strlit("task");
    reveal_strlit("atomic");
    reveal_strlit("scratch");
    assert(name_key(spec_instruction_name(1)) == key_table(1));
    assert(name_key(spec_instruction_name(2)) == key_table(2));
    assert(name_key(spec_instruction_name(3)) == key_table(3));
    assert(name_key(spec_instruction_name(4)) == key_table(4));
    assert(name_key(spec_instruction_name(5)) == key_table(5));
    assert(name_key(spec_instruction_name(6)) == key_table(6));
    assert(name_key(spec_instruction_name(7)) == key_table(7));
    assert(name_key(spec_instruction_name(8)) == key_table(8));
    assert(name_key(spec_instruction_name(9)) == key_table(9));
    assert(name_key(spec_instruction_name(10)) == key_table(10));
    assert(name_key(spec_instruction_name(11)) == key_table(11));
    assert(name_key(spec_instruction_name(12)) == key_table(12));
    assert(name_key(spec_instruction_name(13)) == key_table(13));
    assert(name_key(spec_instruction_name(14)) == key_table(14));
    assert(name_key(spec_instruction_name(15)) == key_table(15));
    assert(name_key(spec_instruction_name(16)) == key_table(16));
    assert(name_key(spec_instruction_name(17)) == key_table(17));
    assert(name_key(spec_instruction_name(18)) == key_table(18));
    assert(name_key(spec_instruction_name(19)) == key_table(19));
    assert(name_key(spec_instruction_name(20)) == key_table(20));
    assert(name_key(spec_instruction_name(21)) == key_table(21));
    assert(name_key(spec_instruction_name(22)) == key_table(22));
    assert(name_key(spec_instruction_name(23)) == key_table(23));
    assert(name_key(spec_instruction_name(24)) == key_table(24));
    assert(name_key(spec_instruction_name(25)) == key_table(25));
    assert(name_key(spec_instruction_name(26)) == key_table(26));
    assert(name_key(spec_instruction_name(27)) == key_table(27));
    assert(name_key(spec_instruction_name(28)) == key_table(28));
    assert(name_key(spec_instruction_name(29)) == key_table(29));
    assert(name_key(spec_instruction_name(30)) == key_table(30));
    assert(name_key(spec_instruction_name(31)) == key_table(31));
    assert(name_key(spec_instruction_name(32)) == key_table(32));
    assert(name_key(spec_instruction_name(33)) == key_table(33));
    assert forall|k: u8| 1 <= k <= INSTRUCTION_COUNT implies #[trigger] name_key(spec_instruction_name(k)) == key_table(k) by {
        assert(k == 1 || k == 2 || k == 3 || k == 4 || k == 5 || k == 6 || k == 7 || k == 8 || k == 9 || k == 10
            || k == 11 || k == 12 || k == 13 || k == 14 || k == 15 || k == 16 || k == 17 || k == 18 || k == 19 || k == 20
            || k == 21 || k == 22 || k == 23 || k == 24 || k == 25 || k == 26 || k == 27 || k == 28 || k == 29 || k == 30
            || k == 31 || k == 32 || k == 33);
    }
}

/// No two instructions share a mnemonic, and every mnemonic is non-empty, so
/// parsing the mnemonic of an opcode gives back that opcode.
pub proof fn law_instruction_names_distinct(a: u8, b: u8)
    requires
        1 <= a <= INSTRUCTION_COUNT,
        1 <= b <= INSTRUCTION_COUNT,
    ensures
        spec_instruction_name(a).len() > 0,
        spec_instruction_name(a) == spec_instruction_name(b) ==> a == b,
{
    lemma_name_keys();
    assert(name_key(spec_instruction_name(a)) == key_table(a));
    assert(name_key(spec_instruction_name(b)) == key_table(b));
}

} // verus!
