use ifvms_decompiler::codegen_zvm::{
    output_block, output_instruction, output_operand, CodegenError, DecompileError,
    InstructionPart,
};
use ifvms_decompiler::zvm::disassembler::{disassemble_instruction, DecodeError};
use ifvms_decompiler::zvm::{BranchTarget, Instruction, Operand, ZVMState};
use std::io::Cursor;

const GLOBALS: u16 = 0x0100;

fn session(bytes: &[u8], version: u8) -> ZVMState {
    let image = Cursor::new(bytes.to_vec().into_boxed_slice());
    match ZVMState::new(image, version, GLOBALS, false) {
        Ok(state) => state,
        Err(error) => panic!("no state: {:?}", error),
    }
}

fn plain(opcode: u16, operands: Vec<Operand>) -> Instruction {
    Instruction {
        addr: 100,
        opcode,
        operands,
        result: None,
        stores: false,
        branch: None,
        branches: false,
        text: None,
        next: 110,
        ends_block: false,
        pauses_vm: false,
    }
}

fn constants(count: u16) -> Vec<Operand> {
    (1..=count).map(Operand::Constant).collect()
}

fn render(opcode: u16, count: u16, version: u8) -> String {
    output_instruction(&plain(opcode, constants(count)), version, GLOBALS).expect("code")
}

#[test]
fn operands_are_written_as_the_runtime_reads_them() {
    assert_eq!(output_operand(&Operand::Constant(0)), "0");
    assert_eq!(output_operand(&Operand::Constant(65535)), "65535");
    assert_eq!(output_operand(&Operand::SignedConstant(-32768)), "-32768");
    assert_eq!(output_operand(&Operand::SignedConstant(32767)), "32767");
    assert_eq!(output_operand(&Operand::StackPointer), "s[--e.sp]");
    assert_eq!(output_operand(&Operand::SignedStackPointer), "(s[--e.sp]<<16>>16)");
    assert_eq!(output_operand(&Operand::LocalVariable(14)), "l[14]");
    assert_eq!(output_operand(&Operand::SignedLocalVariable(0)), "(l[0]<<16>>16)");
    assert_eq!(output_operand(&Operand::GlobalVariable(734)), "e.m.getUint16(734)");
    assert_eq!(output_operand(&Operand::SignedGlobalVariable(256)), "e.m.getInt16(256)");
}

#[test]
fn add_round_trip() {
    let mut state = session(&[0x14, 0x02, 0x03, 0x00, 0xb0], 3);
    let inst = disassemble_instruction(&mut state).expect("an instruction");
    assert_eq!(inst.next, inst.addr + 4);
    let code = output_instruction(&inst, 3, GLOBALS).expect("code");
    assert_eq!(code, "t=2+3,s[e.sp++]=t");
    let block = output_block(&mut state, 0).expect("a block");
    assert_eq!(
        block,
        "var l=e.l,s=e.s,t=0;\n/* 0/20 */ t=2+3,s[e.sp++]=t;\n/* 4/176 */ return 1;"
    );
    assert!(block.contains("2+3"));
    assert!(block.contains("s[e.sp++]=t"));
    assert_eq!(state.image.position(), 5);
}

#[test]
fn two_operand_opcodes() {
    assert_eq!(render(1, 2, 3), "1===2");
    assert_eq!(render(1, 3, 3), "e.jeq(1,2,3)");
    assert_eq!(render(1, 1, 3), "e.jeq(1)");
    assert_eq!(render(1, 0, 3), "e.jeq()");
    assert_eq!(render(2, 2, 3), "1<2");
    assert_eq!(render(3, 2, 3), "1>2");
    assert_eq!(render(4, 2, 3), "(e.incdec(1,-1)<<16>>16)<2");
    assert_eq!(render(5, 2, 3), "(e.incdec(1,1)<<16>>16)>2");
    assert_eq!(render(6, 2, 3), "e.jin(1,2)");
    assert_eq!(render(7, 2, 3), "e.test(1,2)");
    assert_eq!(render(8, 2, 3), "1|2");
    assert_eq!(render(9, 2, 3), "1&2");
    assert_eq!(render(10, 2, 3), "e.test_attr(1,2)");
    assert_eq!(render(11, 2, 3), "e.set_attr(1,2)");
    assert_eq!(render(12, 2, 3), "e.clear_attr(1,2)");
    assert_eq!(render(13, 2, 3), "e.indirect(1,2)");
    assert_eq!(render(14, 2, 3), "e.insert_obj(1,2)");
    assert_eq!(render(15, 2, 3), "e.m.getUint16(1+2*2)");
    assert_eq!(render(16, 2, 3), "e.m.getUint8(1+2)");
    assert_eq!(render(17, 2, 3), "e.get_prop(1,2)");
    assert_eq!(render(18, 2, 3), "e.find_prop(1,2)");
    assert_eq!(render(19, 2, 3), "e.find_prop(1,0,2)");
    assert_eq!(render(20, 2, 3), "1+2");
    assert_eq!(render(21, 2, 3), "1-2");
    assert_eq!(render(22, 2, 3), "1*2");
    assert_eq!(render(23, 2, 3), "(1/2)|0");
    assert_eq!(render(24, 2, 3), "1%2");
    assert_eq!(render(27, 2, 5), "e.set_colour(1,2)");
    assert_eq!(
        render(28, 2, 5),
        "while(e.frames.length+1>2){e.frameptr=e.frames.pop()}return 1"
    );
}

#[test]
fn operators_join_any_number_of_operands() {
    assert_eq!(render(20, 0, 3), "");
    assert_eq!(render(20, 1, 3), "1");
    assert_eq!(render(20, 3, 3), "1+2+3");
    assert_eq!(render(2, 4, 3), "1<2<3<4");
    assert_eq!(render(24, 3, 3), "1%2%3");
}

#[test]
fn missing_operands_are_null() {
    assert_eq!(render(4, 0, 3), "(e.incdec(null,-1)<<16>>16)<null");
    assert_eq!(render(13, 1, 3), "e.indirect(1,null)");
    assert_eq!(render(128, 0, 3), "null===0");
    assert_eq!(render(225, 2, 3), "e.ram.setUint16(1+2*2,null)");
    assert_eq!(render(226, 0, 3), "e.ram.setUint8(null+null,null)");
}

#[test]
fn one_operand_opcodes() {
    assert_eq!(render(128, 1, 3), "1===0");
    assert_eq!(render(129, 1, 3), "e.get_sibling(1)");
    assert_eq!(render(130, 1, 3), "e.get_child(1)");
    assert_eq!(render(131, 1, 3), "e.get_parent(1)");
    assert_eq!(render(132, 1, 3), "e.get_prop_len(1)");
    assert_eq!(render(133, 1, 3), "e.incdec(1,1)");
    assert_eq!(render(134, 1, 3), "e.incdec(1,-1)");
    assert_eq!(render(135, 1, 3), "e.print(2,1)");
    assert_eq!(render(137, 1, 3), "e.remove_obj(1)");
    assert_eq!(render(138, 1, 3), "e.print(3,1)");
    assert_eq!(render(139, 1, 3), "return 1");
    assert_eq!(render(140, 1, 3), "e.pc=1+108");
    assert_eq!(render(142, 1, 3), "e.indirect(1)");
}

#[test]
fn packed_addresses_are_multiplied_by_the_version() {
    assert_eq!(render(141, 1, 3), "e.print(2,1*2)");
    assert_eq!(render(141, 1, 4), "e.print(2,1*4)");
    assert_eq!(render(141, 1, 5), "e.print(2,1*4)");
    assert_eq!(render(141, 1, 7), "e.print(2,1*4)");
    assert_eq!(render(141, 1, 8), "e.print(2,1*8)");
}

#[test]
fn opcode_143_is_not_or_a_call() {
    assert_eq!(render(143, 1, 3), "~1");
    assert_eq!(render(143, 1, 4), "~1");
    assert_eq!(render(143, 1, 5), "e.call(1,-1,110,[])");
    assert_eq!(render(143, 1, 8), "e.call(1,-1,110,[])");
}

#[test]
fn jump_goes_from_two_bytes_before_the_next_instruction() {
    let mut state = session(&[0xb4, 0x8c, 0xff, 0xfb], 3);
    state.image.set_position(1);
    let inst = disassemble_instruction(&mut state).expect("an instruction");
    assert_eq!(output_instruction(&inst, 3, GLOBALS).expect("code"), "e.pc=-5+2");
    let mut inst = plain(140, vec![Operand::SignedConstant(7)]);
    inst.next = 1;
    assert_eq!(output_instruction(&inst, 3, GLOBALS).expect("code"), "e.pc=7+-1");
}

#[test]
fn opcodes_without_operands() {
    assert_eq!(render(176, 0, 3), "return 1");
    assert_eq!(render(177, 0, 3), "return 0");
    assert_eq!(render(180, 0, 3), "");
    assert_eq!(render(183, 0, 3), "e.restart()");
    assert_eq!(render(184, 0, 3), "return s[--e.sp]");
    assert_eq!(render(185, 0, 3), "s[--e.sp]");
    assert_eq!(render(185, 0, 4), "s[--e.sp]");
    assert_eq!(render(185, 0, 5), "e.frames.length+1");
    assert_eq!(render(186, 0, 3), "e.quit=1;e.Glk.glk_exit()");
    assert_eq!(render(187, 0, 3), "e.print(1,13)");
    assert_eq!(render(188, 0, 3), "e.v3_status()");
    assert_eq!(render(188, 0, 4), "");
    assert_eq!(render(189, 0, 3), "1");
    assert_eq!(render(191, 0, 5), "1");
}

#[test]
fn print_names_the_address_of_its_text() {
    let mut inst = plain(178, Vec::new());
    inst.text = Some(101);
    assert_eq!(output_instruction(&inst, 3, GLOBALS).expect("code"), "e.print(2,101)");
    inst.opcode = 179;
    assert_eq!(
        output_instruction(&inst, 3, GLOBALS).expect("code"),
        "e.print(2,101);e.print(1,13);return 1"
    );
}

#[test]
fn save_and_restore_name_the_address_to_resume_at() {
    assert_eq!(render(181, 0, 3), "e.save(101)");
    assert_eq!(render(182, 0, 3), "e.restore(101)");
    assert_eq!(render(181, 0, 4), "e.save(109)");
    assert_eq!(render(182, 0, 4), "e.restore(109)");
    assert_eq!(render(1000, 0, 5), "e.save(109)");
    assert_eq!(render(1001, 0, 5), "e.restore(109)");
    assert_eq!(render(1000, 0, 3), "e.save(101)");
    let mut inst = plain(181, Vec::new());
    inst.addr = u32::MAX;
    inst.next = 0;
    assert_eq!(output_instruction(&inst, 3, GLOBALS).expect("code"), "e.save(4294967296)");
    assert_eq!(output_instruction(&inst, 5, GLOBALS).expect("code"), "e.save(-1)");
}

#[test]
fn variable_opcodes() {
    assert_eq!(render(225, 3, 3), "e.ram.setUint16(1+2*2,3)");
    assert_eq!(render(226, 3, 3), "e.ram.setUint8(1+2,3)");
    assert_eq!(render(227, 3, 3), "e.put_prop(1,2,3)");
    assert_eq!(render(228, 2, 3), "e.read(0,1,2)");
    assert_eq!(render(228, 2, 4), "e.read(0,1,2)");
    assert_eq!(render(229, 1, 3), "e.print(4,1)");
    assert_eq!(render(230, 1, 3), "e.print(0,1)");
    assert_eq!(render(231, 1, 3), "e.random(1)");
    assert_eq!(render(232, 1, 3), "t=1;s[e.sp++]=t");
    assert_eq!(render(233, 1, 3), "e.indirect(1,s[--e.sp])");
    assert_eq!(render(234, 1, 3), "e.split_window(1)");
    assert_eq!(render(235, 1, 3), "e.set_window(1)");
    assert_eq!(render(237, 1, 4), "e.erase_window(1)");
    assert_eq!(render(238, 1, 4), "e.erase_line(1)");
    assert_eq!(render(239, 2, 4), "e.set_cursor(1-1,2-1)");
    assert_eq!(render(240, 1, 4), "e.get_cursor(1)");
    assert_eq!(render(241, 1, 4), "e.set_style(1)");
    assert_eq!(render(242, 1, 4), "");
    assert_eq!(render(243, 2, 3), "e.pc=110;e.output_stream(1,2)");
    assert_eq!(render(244, 1, 3), "e.input_stream(1)");
    assert_eq!(render(245, 3, 3), "");
    assert_eq!(render(247, 4, 4), "e.scan_table(1,2,3,4)");
    assert_eq!(render(248, 1, 5), "~1");
    assert_eq!(render(251, 4, 5), "e.tokenise(1,2,3,4)");
    assert_eq!(render(252, 4, 5), "e.encode_text(1,2,3,4)");
    assert_eq!(render(253, 3, 5), "e.copy_table(1,2,3)");
    assert_eq!(render(254, 4, 5), "e.print_table(1,2,3,4)");
    assert_eq!(render(255, 1, 5), "e.stack.getUint8(e.frameptr+5)&(1<<(1-1))");
}

#[test]
fn read_names_its_result_variable_from_version_5() {
    let mut inst = plain(228, constants(2));
    inst.result = Some(7);
    assert_eq!(output_instruction(&inst, 4, GLOBALS).expect("code"), "e.read(0,1,2)");
    assert_eq!(output_instruction(&inst, 5, GLOBALS).expect("code"), "e.read(7,1,2)");
    inst.operands = Vec::new();
    assert_eq!(output_instruction(&inst, 5, GLOBALS).expect("code"), "e.read(7,)");
}

#[test]
fn read_char_names_its_result_variable() {
    let mut inst = plain(246, Vec::new());
    inst.result = Some(0);
    assert_eq!(output_instruction(&inst, 4, GLOBALS).expect("code"), "e.read_char(0,1)");
    inst.result = Some(255);
    inst.operands = constants(3);
    assert_eq!(output_instruction(&inst, 4, GLOBALS).expect("code"), "e.read_char(255,1,2,3)");
}

#[test]
fn extended_opcodes() {
    assert_eq!(render(1002, 2, 5), "e.log_shift(1,2)");
    assert_eq!(render(1003, 2, 5), "e.art_shift(1,2)");
    assert_eq!(render(1004, 1, 5), "e.set_font(1)");
    assert_eq!(render(1010, 0, 5), "if(e.restore_undo())return");
    assert_eq!(render(1011, 1, 5), "e.print(1,1)");
    assert_eq!(render(1012, 1, 5), "3");
    assert_eq!(render(1013, 2, 5), "e.set_true_colour(1,2)");
    assert_eq!(render(1030, 2, 5), "e.gestalt(1,2)");
    let mut inst = plain(1009, Vec::new());
    inst.result = Some(3);
    assert_eq!(output_instruction(&inst, 5, GLOBALS).expect("code"), "e.save_undo(110,3)");
}

#[test]
fn calls_pass_the_result_variable_and_the_return_address() {
    for opcode in [25u16, 26, 136, 224, 236, 249, 250] {
        assert_eq!(render(opcode, 1, 5), "e.call(1,-1,110,[])");
        assert_eq!(render(opcode, 2, 5), "e.call(1,-1,110,[2])");
        assert_eq!(render(opcode, 4, 5), "e.call(1,-1,110,[2,3,4])");
    }
    let mut inst = plain(224, vec![Operand::LocalVariable(3), Operand::StackPointer]);
    inst.result = Some(0);
    assert_eq!(
        output_instruction(&inst, 3, GLOBALS).expect("code"),
        "e.call(l[3],0,110,[s[--e.sp]])"
    );
    inst.result = Some(255);
    assert_eq!(
        output_instruction(&inst, 3, GLOBALS).expect("code"),
        "e.call(l[3],255,110,[s[--e.sp]])"
    );
}

#[test]
fn results_are_stored_on_the_stack_in_locals_and_in_globals() {
    let mut inst = plain(20, constants(2));
    inst.stores = true;
    inst.result = Some(0);
    assert_eq!(output_instruction(&inst, 3, GLOBALS).expect("code"), "t=1+2,s[e.sp++]=t");
    inst.result = Some(1);
    assert_eq!(output_instruction(&inst, 3, GLOBALS).expect("code"), "l[0]=1+2");
    inst.result = Some(15);
    assert_eq!(output_instruction(&inst, 3, GLOBALS).expect("code"), "l[14]=1+2");
    inst.result = Some(16);
    assert_eq!(
        output_instruction(&inst, 3, GLOBALS).expect("code"),
        "t=1+2,e.ram.setUint16(256,t),t"
    );
    inst.result = Some(255);
    assert_eq!(
        output_instruction(&inst, 3, GLOBALS).expect("code"),
        "t=1+2,e.ram.setUint16(734,t),t"
    );
    assert_eq!(
        output_instruction(&inst, 3, 65057).expect("code"),
        "t=1+2,e.ram.setUint16(65535,t),t"
    );
    // addresses have 16 bits
    assert_eq!(
        output_instruction(&inst, 3, 65058).expect("code"),
        "t=1+2,e.ram.setUint16(0,t),t"
    );
    assert_eq!(
        output_instruction(&inst, 3, 65535).expect("code"),
        "t=1+2,e.ram.setUint16(477,t),t"
    );
    inst.result = Some(16);
    assert_eq!(
        output_instruction(&inst, 3, 65535).expect("code"),
        "t=1+2,e.ram.setUint16(65535,t),t"
    );
}

#[test]
fn store_byte_is_ignored_where_the_instruction_does_not_store() {
    let mut inst = plain(20, constants(2));
    inst.result = Some(0);
    assert_eq!(output_instruction(&inst, 3, GLOBALS).expect("code"), "1+2");
}

#[test]
fn branch_offset_sentinels() {
    let mut inst = plain(1, constants(2));
    inst.branches = true;
    inst.branch = Some(BranchTarget { iftrue: true, offset: 0 });
    assert_eq!(output_instruction(&inst, 3, GLOBALS).expect("code"), "if((1===2)){return 0}");
    inst.branch = Some(BranchTarget { iftrue: true, offset: 1 });
    assert_eq!(output_instruction(&inst, 3, GLOBALS).expect("code"), "if((1===2)){return 1}");
    inst.branch = Some(BranchTarget { iftrue: false, offset: 0 });
    assert_eq!(output_instruction(&inst, 3, GLOBALS).expect("code"), "if(!(1===2)){return 0}");
    inst.branch = Some(BranchTarget { iftrue: false, offset: 1 });
    assert_eq!(output_instruction(&inst, 3, GLOBALS).expect("code"), "if(!(1===2)){return 1}");
}

#[test]
fn branch_offsets_jump_from_two_bytes_before_the_next_instruction() {
    let mut inst = plain(1, constants(2));
    inst.branches = true;
    inst.branch = Some(BranchTarget { iftrue: true, offset: 2 });
    assert_eq!(
        output_instruction(&inst, 3, GLOBALS).expect("code"),
        "if((1===2)){e.pc=110;return}"
    );
    inst.branch = Some(BranchTarget { iftrue: false, offset: 8191 });
    assert_eq!(
        output_instruction(&inst, 3, GLOBALS).expect("code"),
        "if(!(1===2)){e.pc=8299;return}"
    );
    inst.branch = Some(BranchTarget { iftrue: true, offset: -1 });
    assert_eq!(
        output_instruction(&inst, 3, GLOBALS).expect("code"),
        "if((1===2)){e.pc=107;return}"
    );
    inst.branch = Some(BranchTarget { iftrue: true, offset: -8192 });
    assert_eq!(
        output_instruction(&inst, 3, GLOBALS).expect("code"),
        "if((1===2)){e.pc=-8084;return}"
    );
    inst.next = u32::MAX;
    inst.branch = Some(BranchTarget { iftrue: true, offset: 8191 });
    assert_eq!(
        output_instruction(&inst, 3, GLOBALS).expect("code"),
        "if((1===2)){e.pc=4294975484;return}"
    );
}

#[test]
fn decoded_branches_render_with_their_offsets() {
    let mut state = session(&[0x01, 0x05, 0x06, 0xc0, 0x01, 0x05, 0x06, 0x41, 0xa0, 0x01, 0xd0], 3);
    let inst = disassemble_instruction(&mut state).expect("an instruction");
    assert_eq!(output_instruction(&inst, 3, GLOBALS).expect("code"), "if((5===6)){return 0}");
    let inst = disassemble_instruction(&mut state).expect("an instruction");
    assert_eq!(output_instruction(&inst, 3, GLOBALS).expect("code"), "if(!(5===6)){return 1}");
    let inst = disassemble_instruction(&mut state).expect("an instruction");
    assert_eq!(inst.next, 11);
    assert_eq!(
        output_instruction(&inst, 3, GLOBALS).expect("code"),
        "if((l[0]===0)){e.pc=25;return}"
    );
}

#[test]
fn stored_result_is_the_condition_of_the_branch() {
    let mut state = session(&[0xa2, 0x01, 0x00, 0xc9], 3);
    let inst = disassemble_instruction(&mut state).expect("an instruction");
    assert_eq!(
        output_instruction(&inst, 3, GLOBALS).expect("code"),
        "if((t=e.get_child(l[0]),s[e.sp++]=t)){e.pc=11;return}"
    );
}

#[test]
fn suspend_ordering() {
    // read_char 1 -> local 2, in version 4
    let mut state = session(&[0xf6, 0x7f, 0x01, 0x03], 4);
    let inst = disassemble_instruction(&mut state).expect("an instruction");
    assert!(inst.pauses_vm);
    assert_eq!(inst.next, 4);
    let code = output_instruction(&inst, 4, GLOBALS).expect("code");
    assert_eq!(code, "e.stop=1;e.pc=4;l[2]=e.read_char(3,1)");
    let resume = code.find("e.pc=4").expect("the resume address");
    let stored = code.find("l[2]=").expect("the store");
    assert!(resume < stored);
    assert!(code.starts_with("e.stop=1;e.pc=4;"));
}

#[test]
fn suspending_branch_is_not_a_conditional() {
    let mut state = session(&[0xb5, 0xc5], 3);
    let inst = disassemble_instruction(&mut state).expect("an instruction");
    assert!(inst.branch.is_some());
    assert_eq!(
        output_instruction(&inst, 3, GLOBALS).expect("code"),
        "e.stop=1;e.pc=2;e.save(1)"
    );
    let mut state = session(&[0xb5, 0x00], 4);
    let inst = disassemble_instruction(&mut state).expect("an instruction");
    assert_eq!(
        output_instruction(&inst, 4, GLOBALS).expect("code"),
        "e.stop=1;e.pc=2;t=e.save(1),s[e.sp++]=t"
    );
}

#[test]
fn branch_is_taken_by_the_branch_target_not_by_the_end_of_the_block() {
    let mut inst = plain(1, constants(2));
    inst.branch = Some(BranchTarget { iftrue: true, offset: 0 });
    inst.ends_block = true;
    assert_eq!(output_instruction(&inst, 3, GLOBALS).expect("code"), "if((1===2)){return 0}");
    inst.pauses_vm = true;
    assert_eq!(
        output_instruction(&inst, 3, GLOBALS).expect("code"),
        "e.stop=1;e.pc=110;1===2"
    );
}

#[test]
fn unknown_opcode_is_an_error() {
    for opcode in [0u16, 29, 30, 31, 144, 175, 190, 192, 223, 256, 999, 1005, 1008, 1014, 1029, 1031, 65535]
    {
        for version in [3u8, 5, 8] {
            let made = output_instruction(&plain(opcode, constants(2)), version, GLOBALS);
            assert_eq!(made, Err(CodegenError::UnknownOpcode { opcode, addr: 100 }));
        }
    }
    let error = CodegenError::UnknownOpcode { opcode: 1005, addr: 100 };
    assert_eq!(error.message(), "Unknown opcode #1005 at pc=100");
}

#[test]
fn every_other_opcode_is_rendered() {
    let mut known = 0;
    for opcode in 0..=2000u16 {
        let mut inst = plain(opcode, constants(2));
        inst.result = Some(0);
        inst.text = Some(101);
        match output_instruction(&inst, 5, GLOBALS) {
            Ok(_) => known += 1,
            Err(error) => assert_eq!(error, CodegenError::UnknownOpcode { opcode, addr: 100 }),
        }
    }
    assert_eq!(known, 28 + 16 + 14 + 1 + 32 + 11);
}

#[test]
fn unknown_opcode_in_a_block_is_an_error() {
    // the variable form of opcode 0
    let mut state = session(&[0xb4, 0xc0, 0xff, 0xb0], 3);
    let made = output_block(&mut state, 0);
    assert_eq!(
        made,
        Err(DecompileError::Codegen(CodegenError::UnknownOpcode { opcode: 0, addr: 1 }))
    );
    assert_eq!(
        made.err().map(|error| error.message()),
        Some(String::from("Unknown opcode #0 at pc=1"))
    );
    assert_eq!(state.image.position(), 0);
}

#[test]
fn instruction_without_a_needed_part_is_an_error() {
    let inst = plain(178, Vec::new());
    assert_eq!(
        output_instruction(&inst, 3, GLOBALS),
        Err(CodegenError::Incomplete { opcode: 178, addr: 100, missing: InstructionPart::Text })
    );
    let inst = plain(179, Vec::new());
    assert_eq!(
        output_instruction(&inst, 3, GLOBALS),
        Err(CodegenError::Incomplete { opcode: 179, addr: 100, missing: InstructionPart::Text })
    );
    for opcode in [246u16, 1009] {
        assert_eq!(
            output_instruction(&plain(opcode, constants(1)), 5, GLOBALS),
            Err(CodegenError::Incomplete { opcode, addr: 100, missing: InstructionPart::Result })
        );
    }
    assert_eq!(
        output_instruction(&plain(228, constants(1)), 5, GLOBALS),
        Err(CodegenError::Incomplete { opcode: 228, addr: 100, missing: InstructionPart::Result })
    );
    for opcode in [25u16, 26, 136, 143, 224, 236, 249, 250] {
        assert_eq!(
            output_instruction(&plain(opcode, Vec::new()), 5, GLOBALS),
            Err(CodegenError::Incomplete { opcode, addr: 100, missing: InstructionPart::Routine })
        );
    }
    let mut inst = plain(20, constants(2));
    inst.stores = true;
    assert_eq!(
        output_instruction(&inst, 3, GLOBALS),
        Err(CodegenError::Incomplete { opcode: 20, addr: 100, missing: InstructionPart::Result })
    );
}

#[test]
fn incomplete_messages() {
    assert_eq!(
        CodegenError::Incomplete { opcode: 178, addr: 5, missing: InstructionPart::Text }.message(),
        "Opcode #178 at pc=5 has no text"
    );
    assert_eq!(
        CodegenError::Incomplete { opcode: 246, addr: 5, missing: InstructionPart::Result }
            .message(),
        "Opcode #246 at pc=5 has no result variable"
    );
    assert_eq!(
        CodegenError::Incomplete { opcode: 224, addr: 5, missing: InstructionPart::Routine }
            .message(),
        "Opcode #224 at pc=5 has no routine"
    );
    assert_eq!(
        DecompileError::Decode(DecodeError::UnexpectedEnd { addr: 12 }).message(),
        "The image ends within the instruction at pc=12"
    );
}

#[test]
fn block_runs_to_the_first_instruction_that_ends_it() {
    let bytes = [
        0xb2, 0x12, 0x34, 0x80, 0x00, // print
        0xbb, // new_line
        0x0d, 0x01, 0x07, // store local0 7
        0x41, 0x01, 0x07, 0x45, // je local0 7 ?~+5
        0xe0, 0x2f, 0x04, 0x00, 0x02, 0x00, // call 1024 local1 -> sp
        0xb0, // rtrue, in the next block
    ];
    let mut state = session(&bytes, 3);
    let block = output_block(&mut state, 0).expect("a block");
    assert_eq!(
        block,
        "var l=e.l,s=e.s,t=0;\
         \n/* 0/178 */ e.print(2,1);\
         \n/* 5/187 */ e.print(1,13);\
         \n/* 6/13 */ e.indirect(1,7);\
         \n/* 9/1 */ if(!(l[0]===7)){e.pc=16;return};\
         \n/* 13/224 */ e.call(1024,0,19,[l[1]]);"
    );
    assert_eq!(state.image.position(), 19);
    let block = output_block(&mut state, 19).expect("a block");
    assert_eq!(block, "var l=e.l,s=e.s,t=0;\n/* 19/176 */ return 1;");
    assert_eq!(state.image.position(), 20);
    let block = output_block(&mut state, 5).expect("a block");
    assert!(block.starts_with("var l=e.l,s=e.s,t=0;\n/* 5/187 */ e.print(1,13);\n/* 6/13 */"));
}

#[test]
fn block_is_the_same_each_time() {
    let bytes = [0x14, 0x02, 0x03, 0x00, 0xb0];
    let mut state = session(&bytes, 3);
    let first = output_block(&mut state, 0).expect("a block");
    let second = output_block(&mut state, 0).expect("a block");
    assert_eq!(first, second);
    let mut other = session(&bytes, 3);
    other.image.set_position(4);
    assert_eq!(output_block(&mut other, 0).expect("a block"), first);
}

#[test]
fn block_that_runs_out_of_the_image_is_an_error() {
    let mut state = session(&[0x14, 0x02, 0x03, 0x00, 0xbb], 3);
    let made = output_block(&mut state, 0);
    assert_eq!(made, Err(DecompileError::Decode(DecodeError::UnexpectedEnd { addr: 5 })));
    assert_eq!(state.image.position(), 0);
    let made = output_block(&mut state, 4);
    assert_eq!(made, Err(DecompileError::Decode(DecodeError::UnexpectedEnd { addr: 5 })));
    assert_eq!(state.image.position(), 4);
    // the byte at 3 starts an instruction of three bytes
    let made = output_block(&mut state, 3);
    assert_eq!(made, Err(DecompileError::Decode(DecodeError::UnexpectedEnd { addr: 3 })));
    assert_eq!(state.image.position(), 3);
    let made = output_block(&mut state, 1000);
    assert_eq!(made, Err(DecompileError::Decode(DecodeError::UnexpectedEnd { addr: 1000 })));
    assert_eq!(state.image.position(), 1000);
    let made = output_block(&mut state, u32::MAX);
    assert_eq!(
        made,
        Err(DecompileError::Decode(DecodeError::UnexpectedEnd { addr: 4294967295 }))
    );
}

#[test]
fn block_of_an_incomplete_call_is_an_error() {
    // call_vs without operands
    let mut state = session(&[0xe0, 0xff, 0x00], 3);
    assert_eq!(
        output_block(&mut state, 0),
        Err(DecompileError::Codegen(CodegenError::Incomplete {
            opcode: 224,
            addr: 0,
            missing: InstructionPart::Routine
        }))
    );
    assert_eq!(state.image.position(), 0);
}

#[test]
fn block_depends_on_the_version() {
    let bytes = [0x8f, 0x00, 0x10, 0xb0];
    let mut state = session(&bytes, 3);
    assert_eq!(
        output_block(&mut state, 0).expect("a block"),
        "var l=e.l,s=e.s,t=0;\n/* 0/143 */ ~16;\n/* 3/176 */ return 1;"
    );
    let mut state = session(&bytes, 5);
    assert_eq!(
        output_block(&mut state, 0).expect("a block"),
        "var l=e.l,s=e.s,t=0;\n/* 0/143 */ e.call(16,-1,3,[]);"
    );
}
