use chip8::opcode::{OpCode, OpCodeArgs, Operation};

#[test]
fn args_extraction_round_trips() {
    // synthesize an instruction from nibbles, then extract the fields back
    let args = OpCodeArgs::from_u16(0x1234);
    assert_eq!(args.x, 0x2);
    assert_eq!(args.y, 0x3);
    assert_eq!(args.n, 0x4);
    assert_eq!(args.kk, 0x34);
    assert_eq!(args.nnn, 0x234);

    let args = OpCodeArgs::from_u16(0xDEAF);
    assert_eq!(args.x, 0xE);
    assert_eq!(args.y, 0xA);
    assert_eq!(args.n, 0xF);
    assert_eq!(args.kk, 0xAF);
    assert_eq!(args.nnn, 0xEAF);

    // re-encode the extracted fields: the low twelve bits come back
    let encoded = ((args.x as u16) << 8) | ((args.y as u16) << 4) | (args.n as u16);
    assert_eq!(encoded, 0xDEAF & 0x0FFF);
}

#[test]
fn args_extraction_edges() {
    let args = OpCodeArgs::from_u16(0x0000);
    assert_eq!((args.x, args.y, args.n, args.kk, args.nnn), (0, 0, 0, 0, 0));

    let args = OpCodeArgs::from_u16(0xFFFF);
    assert_eq!((args.x, args.y, args.n, args.kk, args.nnn), (0xF, 0xF, 0xF, 0xFF, 0xFFF));
}

#[test]
fn dispatch_by_category() {
    assert_eq!(OpCode::from_u16(0x00E0).unwrap().operation, Operation::Cls);
    assert_eq!(OpCode::from_u16(0x00EE).unwrap().operation, Operation::Ret);
    assert_eq!(OpCode::from_u16(0x1234).unwrap().operation, Operation::JpAddr);
    assert_eq!(OpCode::from_u16(0x2345).unwrap().operation, Operation::CallAddr);
    assert_eq!(OpCode::from_u16(0x3456).unwrap().operation, Operation::SeVxByte);
    assert_eq!(OpCode::from_u16(0x4567).unwrap().operation, Operation::SneVxByte);
    assert_eq!(OpCode::from_u16(0x5670).unwrap().operation, Operation::SeVxVy);
    // the top four bits decide the whole 0x5 category: no secondary selector
    assert_eq!(OpCode::from_u16(0x5671).unwrap().operation, Operation::SeVxVy);
    assert_eq!(OpCode::from_u16(0x5ABF).unwrap().operation, Operation::SeVxVy);
    assert_eq!(OpCode::from_u16(0x6789).unwrap().operation, Operation::LdVxByte);
    assert_eq!(OpCode::from_u16(0x789A).unwrap().operation, Operation::AddVxByte);
    assert_eq!(OpCode::from_u16(0x89A0).unwrap().operation, Operation::LdVxVy);
    assert_eq!(OpCode::from_u16(0x89A1).unwrap().operation, Operation::OrVxVy);
    assert_eq!(OpCode::from_u16(0x89A2).unwrap().operation, Operation::AndVxVy);
    assert_eq!(OpCode::from_u16(0x89A3).unwrap().operation, Operation::XorVxVy);
    assert_eq!(OpCode::from_u16(0x89A4).unwrap().operation, Operation::AddVxVy);
    assert_eq!(OpCode::from_u16(0x89A5).unwrap().operation, Operation::SubVxVy);
    assert_eq!(OpCode::from_u16(0x89A6).unwrap().operation, Operation::ShrVxVy);
    assert_eq!(OpCode::from_u16(0x89A7).unwrap().operation, Operation::SubnVxVy);
    assert_eq!(OpCode::from_u16(0x89AE).unwrap().operation, Operation::ShlVxVy);
    assert_eq!(OpCode::from_u16(0x9AB0).unwrap().operation, Operation::SneVxVy);
    assert_eq!(OpCode::from_u16(0xABCD).unwrap().operation, Operation::LdIAddr);
    assert_eq!(OpCode::from_u16(0xBCDE).unwrap().operation, Operation::JpV0Addr);
    assert_eq!(OpCode::from_u16(0xCDEF).unwrap().operation, Operation::RndVxByte);
    assert_eq!(OpCode::from_u16(0xD011).unwrap().operation, Operation::DrwVxVyNibble);
    assert_eq!(OpCode::from_u16(0xE19E).unwrap().operation, Operation::SkpVx);
    assert_eq!(OpCode::from_u16(0xE1A1).unwrap().operation, Operation::SknpVx);
    assert_eq!(OpCode::from_u16(0xF107).unwrap().operation, Operation::LdVxDt);
    assert_eq!(OpCode::from_u16(0xF10A).unwrap().operation, Operation::LdVxK);
    assert_eq!(OpCode::from_u16(0xF115).unwrap().operation, Operation::LdDtVx);
    assert_eq!(OpCode::from_u16(0xF118).unwrap().operation, Operation::LdStVx);
    assert_eq!(OpCode::from_u16(0xF11E).unwrap().operation, Operation::AddIVx);
    assert_eq!(OpCode::from_u16(0xF129).unwrap().operation, Operation::LdFVx);
    assert_eq!(OpCode::from_u16(0xF133).unwrap().operation, Operation::LdBVx);
    assert_eq!(OpCode::from_u16(0xF155).unwrap().operation, Operation::LdIVx);
    assert_eq!(OpCode::from_u16(0xF165).unwrap().operation, Operation::LdVxI);
}

#[test]
fn dispatch_rejects_unknown_selectors() {
    // the 0x0 class has no handler besides clear-screen and return
    assert!(OpCode::from_u16(0x0000).is_none());
    assert!(OpCode::from_u16(0x0123).is_none());
    assert!(OpCode::from_u16(0x8008).is_none());
    assert!(OpCode::from_u16(0x800F).is_none());
    assert!(OpCode::from_u16(0x9AB5).is_none());
    assert!(OpCode::from_u16(0xE100).is_none());
    assert!(OpCode::from_u16(0xF100).is_none());
    assert!(OpCode::from_u16(0xF166).is_none());
}

#[test]
fn decoded_opcode_carries_raw_value_and_args() {
    let o = OpCode::from_u16(0x6A2B).unwrap();
    assert_eq!(o.opcode, 0x6A2B);
    assert_eq!(o.args.x, 0xA);
    assert_eq!(o.args.kk, 0x2B);
    let built = OpCode::new(0x6A2B, o.args, o.operation);
    assert_eq!(built, o);
}
