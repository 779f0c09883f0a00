use sart::structures::ffi::{CDef, COut, CallSig, LFFIElement, LFFIKind, MapValue, ParseError, U3, UnsafeSaFFIProfile, VReg, VType};

const ALL_REGS: [VReg; 11] = [
    VReg::R1,
    VReg::R2,
    VReg::R3,
    VReg::R4,
    VReg::R5,
    VReg::R6,
    VReg::R7,
    VReg::R8,
    VReg::Scratchpad,
    VReg::Largepad,
    VReg::LoadFromPtrInR2,
];

#[test]
fn locsrc_ids_follow_the_register_table() {
    let ids: Vec<u8> = ALL_REGS.iter().map(|r| r.as_locsrc()).collect();
    assert_eq!(ids, vec![0, 1, 2, 3, 4, 5, 6, 7, 8, 9, 10]);
}

#[test]
fn default_profile_clobbers_every_general_register() {
    let p = UnsafeSaFFIProfile::default();
    assert_eq!(p.bits(), 0xFF);
    for r in &ALL_REGS[..8] {
        assert_eq!(p.clobbers(*r), Ok(true));
    }
}

#[test]
fn clobbers_refuses_non_general_registers() {
    let p = UnsafeSaFFIProfile::default();
    assert_eq!(p.clobbers(VReg::Scratchpad), Err(ParseError::FoundInvalidReg));
    assert_eq!(p.clobbers(VReg::Largepad), Err(ParseError::FoundInvalidReg));
    assert_eq!(p.clobbers(VReg::LoadFromPtrInR2), Err(ParseError::FoundInvalidReg));
}

#[test]
fn new_profile_clobbers_exactly_the_listed_registers() {
    let p = UnsafeSaFFIProfile::new(&[VReg::R2, VReg::R7, VReg::R2]).unwrap();
    assert_eq!(p.bits(), 0x42);
    for r in &ALL_REGS[..8] {
        let expected = *r == VReg::R2 || *r == VReg::R7;
        assert_eq!(p.clobbers(*r), Ok(expected));
    }
}

#[test]
fn new_profile_masks_of_each_register() {
    let masks: Vec<u8> = ALL_REGS[..8]
        .iter()
        .map(|r| UnsafeSaFFIProfile::new(&[*r]).unwrap().bits())
        .collect();
    assert_eq!(masks, vec![0x01, 0x02, 0x04, 0x08, 0x10, 0x20, 0x40, 0x80]);
}

#[test]
fn new_profile_of_no_register_clobbers_nothing() {
    let p = UnsafeSaFFIProfile::new(&[]).unwrap();
    assert_eq!(p.bits(), 0);
    assert_eq!(p.clobbers(VReg::R1), Ok(false));
}

#[test]
fn new_profile_refuses_a_non_general_register() {
    assert!(matches!(
        UnsafeSaFFIProfile::new(&[VReg::R1, VReg::Largepad, VReg::R3]),
        Err(ParseError::FoundInvalidReg)
    ));
    assert!(matches!(
        UnsafeSaFFIProfile::new(&[VReg::LoadFromPtrInR2]),
        Err(ParseError::FoundInvalidReg)
    ));
}

#[test]
fn profile_from_bits_round_trips() {
    let p = UnsafeSaFFIProfile::from_bits(0x81);
    assert_eq!(p.bits(), 0x81);
    assert_eq!(p.clobbers(VReg::R1), Ok(true));
    assert_eq!(p.clobbers(VReg::R2), Ok(false));
    assert_eq!(p.clobbers(VReg::R8), Ok(true));
}

#[test]
fn output_widths() {
    assert_eq!(COut::Void.width(), 0);
    assert_eq!(COut::Bits8.width(), 1);
    assert_eq!(COut::Bits16.width(), 2);
    assert_eq!(COut::Bits32.width(), 4);
    assert_eq!(COut::Bits64.width(), 8);
    assert_eq!(COut::Bits128.width(), 16);
}

#[test]
fn type_widths() {
    let ptr = std::mem::size_of::<usize>() as u32;
    assert_eq!(VType::U8.width(), 1);
    assert_eq!(VType::U16.width(), 2);
    assert_eq!(VType::U32.width(), 4);
    assert_eq!(VType::U64.width(), 8);
    assert_eq!(VType::USize.width(), ptr);
    assert_eq!(VType::I8.width(), 1);
    assert_eq!(VType::I16.width(), 2);
    assert_eq!(VType::I32.width(), 4);
    assert_eq!(VType::I64.width(), 8);
    assert_eq!(VType::ISize.width(), ptr);
    assert_eq!(VType::F32.width(), 4);
    assert_eq!(VType::F64.width(), 8);
    assert_eq!(VType::Bytes(U3::new(3)).width(), 3);
    assert_eq!(VType::Bytes(U3::new(8)).width(), 8);
}

#[test]
fn type_tags() {
    let wide = std::mem::size_of::<usize>() == 8;
    assert_eq!(VType::U64.as_savmtype(), 0);
    assert_eq!(VType::U32.as_savmtype(), 1);
    assert_eq!(VType::U16.as_savmtype(), 2);
    assert_eq!(VType::U8.as_savmtype(), 3);
    assert_eq!(VType::I64.as_savmtype(), 4);
    assert_eq!(VType::I32.as_savmtype(), 5);
    assert_eq!(VType::I16.as_savmtype(), 6);
    assert_eq!(VType::I8.as_savmtype(), 7);
    assert_eq!(VType::F64.as_savmtype(), 8);
    assert_eq!(VType::F32.as_savmtype(), 9);
    assert_eq!(VType::USize.as_savmtype(), if wide { 0 } else { 1 });
    assert_eq!(VType::ISize.as_savmtype(), if wide { 4 } else { 5 });
    assert_eq!(VType::Bytes(U3::new(2)).as_savmtype(), u8::MAX);
}

#[test]
fn tag_width_agrees_with_width() {
    let types = [
        VType::U64,
        VType::U32,
        VType::U16,
        VType::U8,
        VType::USize,
        VType::I64,
        VType::I32,
        VType::I16,
        VType::I8,
        VType::ISize,
        VType::F32,
        VType::F64,
    ];
    for t in types {
        let tag = t.as_savmtype();
        let expected = if tag < 8 { 8u32 >> (tag % 4) } else if tag == 8 { 8 } else { 4 };
        assert_eq!(t.width(), expected);
    }
}

#[test]
fn byte_offsets_scale_with_width() {
    assert_eq!(VType::U16.byte_offset(3), 6);
    assert_eq!(VType::U64.byte_offset(255), 2040);
    assert_eq!(VType::Bytes(U3::new(5)).byte_offset(2), 2);
    assert_eq!(VType::I8.byte_offset(0), 0);
}

#[test]
fn libffi_kinds() {
    let wide = std::mem::size_of::<usize>() == 8;
    assert_eq!(VType::U8.lffi_kind(), LFFIKind::Uint8);
    assert_eq!(VType::U16.lffi_kind(), LFFIKind::Uint16);
    assert_eq!(VType::U32.lffi_kind(), LFFIKind::Uint32);
    assert_eq!(VType::U64.lffi_kind(), LFFIKind::Uint64);
    assert_eq!(VType::I8.lffi_kind(), LFFIKind::Sint8);
    assert_eq!(VType::I16.lffi_kind(), LFFIKind::Sint16);
    assert_eq!(VType::I32.lffi_kind(), LFFIKind::Sint32);
    assert_eq!(VType::I64.lffi_kind(), LFFIKind::Sint64);
    assert_eq!(VType::F32.lffi_kind(), LFFIKind::Float);
    assert_eq!(VType::F64.lffi_kind(), LFFIKind::Double);
    assert_eq!(
        VType::USize.lffi_kind(),
        if wide { LFFIKind::Uint64 } else { LFFIKind::Uint32 }
    );
    assert_eq!(
        VType::ISize.lffi_kind(),
        if wide { LFFIKind::Sint64 } else { LFFIKind::Sint32 }
    );
    assert_eq!(VType::Bytes(U3::new(7)).lffi_kind(), LFFIKind::ByteStruct(7));
}

#[test]
fn u3_holds_its_count() {
    for d in 1..=8u8 {
        assert_eq!(U3::new(d).get(), d);
    }
}

#[test]
fn call_signatures_hold_their_parts() {
    let arg = MapValue { vtype: VType::U32, vreg: VReg::R3, regof: 2 };
    let sig = CallSig::CDef(CDef { inargs: vec![arg], out: COut::Bits64 });
    match sig.clone() {
        CallSig::CDef(c) => {
            assert_eq!(c.inargs, vec![arg]);
            assert_eq!(c.out.width(), 8);
        }
        _ => unreachable!(),
    }
    let q = CallSig::SaFFIAsyncQ(UnsafeSaFFIProfile::default());
    match q {
        CallSig::SaFFIAsyncQ(p) => assert_eq!(p.bits(), 0xFF),
        _ => unreachable!(),
    }
}

#[test]
fn byte_offsets_count_bytes_for_byte_values() {
    assert_eq!(VType::Bytes(U3::new(2)).byte_offset(1), 1);
    assert_eq!(VType::Bytes(U3::new(8)).byte_offset(200), 200);
}

#[test]
fn byte_struct_element_tables() {
    assert_eq!(VType::byte_struct_elements(0), vec![LFFIElement::End]);
    assert_eq!(
        VType::byte_struct_elements(3),
        vec![LFFIElement::Uint8, LFFIElement::Uint8, LFFIElement::Uint8, LFFIElement::End]
    );
    assert_eq!(VType::byte_struct_elements(15).len(), 16);
}
