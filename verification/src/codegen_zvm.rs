//! The code generator: writes decoded instructions out as JavaScript.
//!
//! `instruction_text` says which text an instruction is rendered as, and
//! `block_text` which text the basic block at an address is. The functions
//! `output_instruction` and `output_block` produce exactly those texts.

use crate::text::{
    decimal, decimal_string, fill1, fill1_string, fill2, fill2_string, fill3, fill3_string, fill4,
    fill4_string,
};
use crate::zvm::disassembler::{
    disassemble_instruction, head_at, instruction_at, instruction_lies_within, DecodeError,
};
use crate::zvm::image::{cursor_set_position, image_bytes, image_position};
use crate::zvm::opcodes::{is_table_of, opcode_shape, shape_in, OpcodeDefinition};
use crate::zvm::{
    global_addr, global_address, BranchTarget, Instruction, InstructionView, Operand, ZVMState,
};
use vstd::prelude::*;
use vstd::string::StringExecFns;

verus! {

/// The part of an instruction that its rendering needs and that is not there.
#[derive(Clone, Copy, Debug, PartialEq, Eq, Structural)]
pub enum InstructionPart {
    /// The address of the text that a print instruction carries.
    Text,
    /// The variable that the result is stored in.
    Result,
    /// The operand that names the routine to call.
    Routine,
}

/// Why an instruction cannot be rendered.
#[derive(Clone, Copy, Debug, PartialEq, Eq, Structural)]
pub enum CodegenError {
    /// No rendering is known for the opcode.
    UnknownOpcode { opcode: u16, addr: u32 },
    /// The instruction lacks a part that the rendering of its opcode needs.
    Incomplete { opcode: u16, addr: u32, missing: InstructionPart },
}

/// Why a block cannot be decompiled.
#[derive(Clone, Copy, Debug, PartialEq, Eq, Structural)]
pub enum DecompileError {
    Decode(DecodeError),
    Codegen(CodegenError),
}

impl InstructionPart {
    /// The name of the part.
    pub open spec fn name(self) -> Seq<char> {
        match self {
            InstructionPart::Text => "text"@,
            InstructionPart::Result => "result variable"@,
            InstructionPart::Routine => "routine"@,
        }
    }
}

impl CodegenError {
    /// The error in words.
    pub open spec fn text(self) -> Seq<char> {
        match self {
            CodegenError::UnknownOpcode { opcode, addr } => fill2(
                "Unknown opcode #"@,
                decimal(opcode as int),
                " at pc="@,
                decimal(addr as int),
                ""@,
            ),
            CodegenError::Incomplete { opcode, addr, missing } => fill3(
                "Opcode #"@,
                decimal(opcode as int),
                " at pc="@,
                decimal(addr as int),
                " has no "@,
                missing.name(),
                ""@,
            ),
        }
    }

    /// The error in words.
    pub fn message(&self) -> (message: String)
        ensures
            message@ == self.text(),
    {
        match self {
            CodegenError::UnknownOpcode { opcode, addr } => {
                let opcode_text = decimal_string(*opcode as i64);
                let addr_text = decimal_string(*addr as i64);
                fill2_string("Unknown opcode #", opcode_text.as_str(), " at pc=", addr_text.as_str(), "")
            },
            CodegenError::Incomplete { opcode, addr, missing } => {
                let opcode_text = decimal_string(*opcode as i64);
                let addr_text = decimal_string(*addr as i64);
                let part = match missing {
                    InstructionPart::Text => "text",
                    InstructionPart::Result => "result variable",
                    InstructionPart::Routine => "routine",
                };
                fill3_string(
                    "Opcode #",
                    opcode_text.as_str(),
                    " at pc=",
                    addr_text.as_str(),
                    " has no ",
                    part,
                    "",
                )
            },
        }
    }
}

impl DecompileError {
    /// The error in words.
    pub open spec fn text(self) -> Seq<char> {
        match self {
            DecompileError::Decode(error) => error.text(),
            DecompileError::Codegen(error) => error.text(),
        }
    }

    /// The error in words.
    pub fn message(&self) -> (message: String)
        ensures
            message@ == self.text(),
    {
        match self {
            DecompileError::Decode(error) => error.message(),
            DecompileError::Codegen(error) => error.message(),
        }
    }
}

/// How an operand is written in the generated code.
pub open spec fn operand_text(operand: Operand) -> Seq<char> {
    match operand {
        Operand::Constant(value) => decimal(value as int),
        Operand::SignedConstant(value) => decimal(value as int),
        Operand::StackPointer => "s[--e.sp]"@,
        Operand::SignedStackPointer => "(s[--e.sp]<<16>>16)"@,
        Operand::LocalVariable(var) => fill1("l["@, decimal(var as int), "]"@),
        Operand::SignedLocalVariable(var) => fill1("(l["@, decimal(var as int), "]<<16>>16)"@),
        Operand::GlobalVariable(addr) => fill1("e.m.getUint16("@, decimal(addr as int), ")"@),
        Operand::SignedGlobalVariable(addr) => fill1("e.m.getInt16("@, decimal(addr as int), ")"@),
    }
}

/// The text of the operand at `index`, or `null` where the instruction has
/// no such operand.
pub open spec fn operand_or_null(operands: Seq<Operand>, index: int) -> Seq<char> {
    if 0 <= index < operands.len() {
        operand_text(operands[index])
    } else {
        "null"@
    }
}

/// The texts of the operands from `from` up to, not including, `to`, with
/// `joiner` between each two.
pub open spec fn joined(operands: Seq<Operand>, joiner: Seq<char>, from: int, to: int) -> Seq<char>
    decreases to - from,
{
    if to <= from {
        Seq::empty()
    } else if to == from + 1 {
        operand_text(operands[from])
    } else {
        joined(operands, joiner, from, to - 1) + joiner + operand_text(operands[to - 1])
    }
}

/// The operands from `from` on as a list of arguments.
pub open spec fn arguments(operands: Seq<Operand>, from: int) -> Seq<char> {
    joined(operands, ","@, from, operands.len() as int)
}

/// A call of the runtime's helper `name` with all operands as arguments.
pub open spec fn runtime_call(name: Seq<char>, operands: Seq<Operand>) -> Seq<char> {
    fill2("e."@, name, "("@, arguments(operands, 0), ")"@)
}

/// The helper of the runtime that an opcode is handed to as it is, if it is.
pub open spec fn helper_of(opcode: u16) -> Option<Seq<char>> {
    match opcode {
        6 => Some("jin"@),
        7 => Some("test"@),
        10 => Some("test_attr"@),
        11 => Some("set_attr"@),
        12 => Some("clear_attr"@),
        14 => Some("insert_obj"@),
        17 => Some("get_prop"@),
        18 => Some("find_prop"@),
        27 => Some("set_colour"@),
        129 => Some("get_sibling"@),
        130 => Some("get_child"@),
        131 => Some("get_parent"@),
        132 => Some("get_prop_len"@),
        137 => Some("remove_obj"@),
        227 => Some("put_prop"@),
        231 => Some("random"@),
        234 => Some("split_window"@),
        235 => Some("set_window"@),
        237 => Some("erase_window"@),
        238 => Some("erase_line"@),
        240 => Some("get_cursor"@),
        241 => Some("set_style"@),
        244 => Some("input_stream"@),
        247 => Some("scan_table"@),
        251 => Some("tokenise"@),
        252 => Some("encode_text"@),
        253 => Some("copy_table"@),
        254 => Some("print_table"@),
        1002 => Some("log_shift"@),
        1003 => Some("art_shift"@),
        1004 => Some("set_font"@),
        1013 => Some("set_true_colour"@),
        1030 => Some("gestalt"@),
        _ => None,
    }
}

/// The operator of JavaScript that an opcode puts between its operands, if
/// it is rendered so: the comparisons `jl` and `jg`, `or`, `and`, `add`,
/// `sub`, `mul` and `mod`.
pub open spec fn operator_of(opcode: u16) -> Option<Seq<char>> {
    match opcode {
        2 => Some("<"@),
        3 => Some(">"@),
        8 => Some("|"@),
        9 => Some("&"@),
        20 => Some("+"@),
        21 => Some("-"@),
        22 => Some("*"@),
        24 => Some("%"@),
        _ => None,
    }
}

/// Whether the opcode calls a routine in `version` of the machine.
pub open spec fn is_call(opcode: u16, version: u8) -> bool {
    opcode == 25 || opcode == 26 || opcode == 136 || opcode == 224 || opcode == 236 || opcode
        == 249 || opcode == 250 || (opcode == 143 && version >= 5)
}

/// A call of the routine that the first operand names, with the other
/// operands as its arguments. The second argument of `e.call` is the variable
/// that takes the result, or -1 where the result is thrown away; the third is
/// the address at which execution goes on afterwards.
pub open spec fn call_text(inst: InstructionView) -> Result<Seq<char>, CodegenError> {
    if inst.operands.len() == 0 {
        Err(
            CodegenError::Incomplete {
                opcode: inst.opcode,
                addr: inst.addr,
                missing: InstructionPart::Routine,
            },
        )
    } else {
        Ok(
            fill4(
                "e.call("@,
                operand_text(inst.operands[0]),
                ","@,
                decimal(
                    match inst.result {
                        Some(var) => var as int,
                        None => -1,
                    },
                ),
                ","@,
                decimal(inst.next as int),
                ",["@,
                arguments(inst.operands, 1),
                "])"@,
            ),
        )
    }
}

/// The address at which a saved game resumes: the byte after the opcode in
/// version 3, where `save` and `restore` branch, and the last byte of the
/// instruction, which holds the variable for the result, in later versions.
pub open spec fn resume_address(inst: InstructionView, version: u8) -> int {
    if version == 3 {
        inst.addr + 1
    } else {
        inst.next - 1
    }
}

/// By how much a packed address is multiplied.
pub open spec fn address_multiplier(version: u8) -> int {
    if version == 3 {
        2
    } else if version == 8 {
        8
    } else {
        4
    }
}

/// The error for an instruction that lacks `missing`.
pub open spec fn incomplete(inst: InstructionView, missing: InstructionPart) -> CodegenError {
    CodegenError::Incomplete { opcode: inst.opcode, addr: inst.addr, missing }
}

/// The code of an opcode that has a template of its own, for the
/// two-operand opcodes.
pub open spec fn two_operand_text(inst: InstructionView) -> Result<Seq<char>, CodegenError> {
    let a = operand_or_null(inst.operands, 0);
    let b = operand_or_null(inst.operands, 1);
    match inst.opcode {
        // je
        1 => if inst.operands.len() == 2 {
            Ok(joined(inst.operands, "==="@, 0, 2))
        } else {
            Ok(runtime_call("jeq"@, inst.operands))
        },
        // dec_chk
        4 => Ok(fill2("(e.incdec("@, a, ",-1)<<16>>16)<"@, b, ""@)),
        // inc_chk
        5 => Ok(fill2("(e.incdec("@, a, ",1)<<16>>16)>"@, b, ""@)),
        // store
        13 => Ok(fill2("e.indirect("@, a, ","@, b, ")"@)),
        // loadw
        15 => Ok(fill2("e.m.getUint16("@, a, "+2*"@, b, ")"@)),
        // loadb
        16 => Ok(fill2("e.m.getUint8("@, a, "+"@, b, ")"@)),
        // get_next_prop
        19 => Ok(fill2("e.find_prop("@, a, ",0,"@, b, ")"@)),
        // div
        23 => Ok(fill2("("@, a, "/"@, b, ")|0"@)),
        // throw
        28 => Ok(
            fill2(
                "while(e.frames.length+1>"@,
                b,
                "){e.frameptr=e.frames.pop()}return "@,
                a,
                ""@,
            ),
        ),
        _ => Err(CodegenError::UnknownOpcode { opcode: inst.opcode, addr: inst.addr }),
    }
}

/// The code of an opcode that has a template of its own, for the opcodes
/// with one operand or none.
pub open spec fn short_text(inst: InstructionView, version: u8) -> Result<
    Seq<char>,
    CodegenError,
> {
    let a = operand_or_null(inst.operands, 0);
    match inst.opcode {
        // jz
        128 => Ok(fill1(""@, a, "===0"@)),
        // inc
        133 => Ok(fill1("e.incdec("@, a, ",1)"@)),
        // dec
        134 => Ok(fill1("e.incdec("@, a, ",-1)"@)),
        // print_addr
        135 => Ok(fill1("e.print(2,"@, a, ")"@)),
        // print_obj
        138 => Ok(fill1("e.print(3,"@, a, ")"@)),
        // ret
        139 => Ok(fill1("return "@, a, ""@)),
        // jump
        140 => Ok(fill2("e.pc="@, a, "+"@, decimal(inst.next - 2), ""@)),
        // print_paddr
        141 => Ok(fill2("e.print(2,"@, a, "*"@, decimal(address_multiplier(version)), ")"@)),
        // load
        142 => Ok(fill1("e.indirect("@, a, ")"@)),
        // not
        143 => Ok(fill1("~"@, a, ""@)),
        // rtrue
        176 => Ok("return 1"@),
        // rfalse
        177 => Ok("return 0"@),
        // print
        178 => match inst.text {
            Some(text) => Ok(fill1("e.print(2,"@, decimal(text as int), ")"@)),
            None => Err(incomplete(inst, InstructionPart::Text)),
        },
        // print_ret
        179 => match inst.text {
            Some(text) => Ok(
                fill1("e.print(2,"@, decimal(text as int), ");e.print(1,13);return 1"@),
            ),
            None => Err(incomplete(inst, InstructionPart::Text)),
        },
        // nop
        180 => Ok(""@),
        // save
        181 => Ok(fill1("e.save("@, decimal(resume_address(inst, version)), ")"@)),
        // restore
        182 => Ok(fill1("e.restore("@, decimal(resume_address(inst, version)), ")"@)),
        // restart
        183 => Ok("e.restart()"@),
        // ret_popped
        184 => Ok("return s[--e.sp]"@),
        // pop, catch
        185 => if version < 5 {
            Ok("s[--e.sp]"@)
        } else {
            Ok("e.frames.length+1"@)
        },
        // quit
        186 => Ok("e.quit=1;e.Glk.glk_exit()"@),
        // new_line
        187 => Ok("e.print(1,13)"@),
        // show_status
        188 => if version < 4 {
            Ok("e.v3_status()"@)
        } else {
            Ok(""@)
        },
        // verify
        189 => Ok("1"@),
        // piracy
        191 => Ok("1"@),
        _ => Err(CodegenError::UnknownOpcode { opcode: inst.opcode, addr: inst.addr }),
    }
}

/// The code of an opcode that has a template of its own, for the opcodes of
/// the variable form.
pub open spec fn variable_text(inst: InstructionView, version: u8) -> Result<
    Seq<char>,
    CodegenError,
> {
    let a = operand_or_null(inst.operands, 0);
    let b = operand_or_null(inst.operands, 1);
    let c = operand_or_null(inst.operands, 2);
    match inst.opcode {
        // storew
        225 => Ok(fill3("e.ram.setUint16("@, a, "+2*"@, b, ","@, c, ")"@)),
        // storeb
        226 => Ok(fill3("e.ram.setUint8("@, a, "+"@, b, ","@, c, ")"@)),
        // read
        228 => if version < 5 {
            Ok(fill2("e.read("@, decimal(0), ","@, arguments(inst.operands, 0), ")"@))
        } else {
            match inst.result {
                Some(var) => Ok(
                    fill2(
                        "e.read("@,
                        decimal(var as int),
                        ","@,
                        arguments(inst.operands, 0),
                        ")"@,
                    ),
                ),
                None => Err(incomplete(inst, InstructionPart::Result)),
            }
        },
        // print_char
        229 => Ok(fill1("e.print(4,"@, a, ")"@)),
        // print_num
        230 => Ok(fill1("e.print(0,"@, a, ")"@)),
        // push
        232 => Ok(fill1("t="@, a, ";s[e.sp++]=t"@)),
        // pull
        233 => Ok(fill1("e.indirect("@, a, ",s[--e.sp])"@)),
        // set_cursor
        239 => Ok(fill2("e.set_cursor("@, a, "-1,"@, b, "-1)"@)),
        // buffer_mode
        242 => Ok(""@),
        // output_stream
        243 => Ok(
            fill2(
                "e.pc="@,
                decimal(inst.next as int),
                ";e.output_stream("@,
                arguments(inst.operands, 0),
                ")"@,
            ),
        ),
        // sound_effect
        245 => Ok(""@),
        // read_char
        246 => match inst.result {
            Some(var) => Ok(
                fill2(
                    "e.read_char("@,
                    decimal(var as int),
                    ","@,
                    if inst.operands.len() == 0 {
                        "1"@
                    } else {
                        arguments(inst.operands, 0)
                    },
                    ")"@,
                ),
            ),
            None => Err(incomplete(inst, InstructionPart::Result)),
        },
        // not
        248 => Ok(fill1("~"@, a, ""@)),
        // check_arg_count
        255 => Ok(fill1("e.stack.getUint8(e.frameptr+5)&(1<<("@, a, "-1))"@)),
        _ => Err(CodegenError::UnknownOpcode { opcode: inst.opcode, addr: inst.addr }),
    }
}

/// The code of an opcode that has a template of its own, for the extended
/// opcodes.
pub open spec fn extended_text(inst: InstructionView, version: u8) -> Result<
    Seq<char>,
    CodegenError,
> {
    let a = operand_or_null(inst.operands, 0);
    match inst.opcode {
        // save
        1000 => Ok(fill1("e.save("@, decimal(resume_address(inst, version)), ")"@)),
        // restore
        1001 => Ok(fill1("e.restore("@, decimal(resume_address(inst, version)), ")"@)),
        // save_undo
        1009 => match inst.result {
            Some(var) => Ok(
                fill2("e.save_undo("@, decimal(inst.next as int), ","@, decimal(var as int), ")"@),
            ),
            None => Err(incomplete(inst, InstructionPart::Result)),
        },
        // restore_undo
        1010 => Ok("if(e.restore_undo())return"@),
        // print_unicode
        1011 => Ok(fill1("e.print(1,"@, a, ")"@)),
        // check_unicode
        1012 => Ok("3"@),
        _ => Err(CodegenError::UnknownOpcode { opcode: inst.opcode, addr: inst.addr }),
    }
}

/// The code for what an instruction does, before its result is stored and
/// its branch taken.
///
/// Most opcodes are a call of a helper of the runtime, an operator between
/// the operands, or a call of a routine; the others have a template each. An
/// opcode with none of these is unknown.
pub open spec fn base_text(inst: InstructionView, version: u8) -> Result<Seq<char>, CodegenError> {
    if helper_of(inst.opcode) is Some {
        Ok(runtime_call(helper_of(inst.opcode).unwrap(), inst.operands))
    } else if operator_of(inst.opcode) is Some {
        Ok(joined(inst.operands, operator_of(inst.opcode).unwrap(), 0, inst.operands.len() as int))
    } else if is_call(inst.opcode, version) {
        call_text(inst)
    } else if inst.opcode < 128 {
        two_operand_text(inst)
    } else if inst.opcode < 224 {
        short_text(inst, version)
    } else if inst.opcode < 1000 {
        variable_text(inst, version)
    } else {
        extended_text(inst, version)
    }
}

/// The code that stores the value of `inner` in the variable `var`, and has
/// that value itself: 0 pushes it on the stack, 1 to 15 are the locals, 16 to
/// 255 the globals, which lie in memory from `globals` on, at the addresses
/// at which the operands of an instruction find them.
pub open spec fn store_text(var: u8, inner: Seq<char>, globals: u16) -> Seq<char> {
    if var == 0 {
        fill1("t="@, inner, ",s[e.sp++]=t"@)
    } else if var < 16 {
        fill2("l["@, decimal(var - 1), "]="@, inner, ""@)
    } else {
        fill2(
            "t="@,
            inner,
            ",e.ram.setUint16("@,
            decimal(global_address(globals, var) as int),
            ",t),t"@,
        )
    }
}

/// What a taken branch does: the offsets 0 and 1 return that value from the
/// routine, any other offset goes on at the address that lies `offset - 2`
/// behind the instruction.
pub open spec fn branch_action(branch: BranchTarget, next: u32) -> Seq<char> {
    if branch.offset == 0 || branch.offset == 1 {
        fill1("return "@, decimal(branch.offset as int), ""@)
    } else {
        fill1("e.pc="@, decimal(next + branch.offset - 2), ";return"@)
    }
}

/// The conditional that takes the branch when `condition` is as the branch
/// wants it.
pub open spec fn branch_text(branch: BranchTarget, next: u32, condition: Seq<char>) -> Seq<char> {
    fill3(
        "if("@,
        if branch.iftrue {
            ""@
        } else {
            "!"@
        },
        "("@,
        condition,
        ")){"@,
        branch_action(branch, next),
        "}"@,
    )
}

/// The code that stops the machine, with the address of the next instruction
/// as the place to resume at, before `code` takes effect.
pub open spec fn pause_text(next: u32, code: Seq<char>) -> Seq<char> {
    fill2("e.stop=1;e.pc="@, decimal(next as int), ";"@, code, ""@)
}

/// `code` with the result stored, where the instruction stores.
pub open spec fn stored(inst: InstructionView, code: Seq<char>, globals: u16) -> Seq<char> {
    if inst.stores && inst.result is Some {
        store_text(inst.result.unwrap(), code, globals)
    } else {
        code
    }
}

/// `code` as the condition of the branch, where the instruction has a branch
/// target and does not suspend the machine.
pub open spec fn branched(inst: InstructionView, code: Seq<char>) -> Seq<char> {
    if inst.branch is Some && !inst.pauses_vm {
        branch_text(inst.branch.unwrap(), inst.next, code)
    } else {
        code
    }
}

/// `code` behind the code that suspends the machine, where the instruction
/// does.
pub open spec fn paused(inst: InstructionView, code: Seq<char>) -> Seq<char> {
    if inst.pauses_vm {
        pause_text(inst.next, code)
    } else {
        code
    }
}

/// The code of an instruction: the code for what it does, then, from the
/// inside out, the store of its result, the branch on it, and the suspension
/// of the machine.
pub open spec fn instruction_text(inst: InstructionView, version: u8, globals: u16) -> Result<
    Seq<char>,
    CodegenError,
> {
    match base_text(inst, version) {
        Ok(base) => if inst.stores && inst.result is None {
            Err(incomplete(inst, InstructionPart::Result))
        } else {
            Ok(paused(inst, branched(inst, stored(inst, base, globals))))
        },
        Err(error) => Err(error),
    }
}

/// The opcodes that have a rendering: 1 to 28, 128 to 143, 176 to 189, 191,
/// 224 to 255, and of the extended opcodes 1000 to 1004, 1009 to 1013 and
/// 1030.
pub open spec fn is_rendered(opcode: u16) -> bool {
    ||| 1 <= opcode <= 28
    ||| 128 <= opcode <= 143
    ||| 176 <= opcode <= 189
    ||| opcode == 191
    ||| 224 <= opcode <= 255
    ||| 1000 <= opcode <= 1004
    ||| 1009 <= opcode <= 1013
    ||| opcode == 1030
}

/// An instruction is refused as unknown exactly when its opcode has no
/// rendering, and the error then holds the opcode and the address of that
/// very instruction. No text is ever made for such an instruction.
pub proof fn unknown_opcode_is_refused(inst: InstructionView, version: u8, globals: u16)
    ensures
        !is_rendered(inst.opcode) <==> instruction_text(inst, version, globals) == Err::<
            Seq<char>,
            CodegenError,
        >(CodegenError::UnknownOpcode { opcode: inst.opcode, addr: inst.addr }),
        !is_rendered(inst.opcode) ==> instruction_text(inst, version, globals) is Err,
        forall|opcode: u16, addr: u32|
            instruction_text(inst, version, globals) == Err::<Seq<char>, CodegenError>(
                CodegenError::UnknownOpcode { opcode, addr },
            ) ==> opcode == inst.opcode && addr == inst.addr && !is_rendered(inst.opcode),
{
}

/// The code of an instruction that suspends the machine starts by setting
/// the address to resume at, which is the address of the next instruction,
/// and only then has the code of the instruction, with the store of its
/// result.
pub proof fn suspension_comes_first(inst: InstructionView, version: u8, globals: u16)
    requires
        inst.pauses_vm,
        instruction_text(inst, version, globals) is Ok,
    ensures
        base_text(inst, version) is Ok,
        instruction_text(inst, version, globals).unwrap() == "e.stop=1;e.pc="@ + decimal(
            inst.next as int,
        ) + ";"@ + stored(inst, base_text(inst, version).unwrap(), globals),
{
    reveal_strlit("");
    let code = stored(inst, base_text(inst, version).unwrap(), globals);
    assert(pause_text(inst.next, code) =~= "e.stop=1;e.pc="@ + decimal(inst.next as int) + ";"@
        + code);
}

/// The code of an instruction that branches, and does not suspend the
/// machine, is a conditional on the code of the instruction. With offset 0
/// the branch returns 0 and with offset 1 it returns 1, without a jump; with
/// any other offset it sets the address to go on at to the address of the
/// next instruction plus the offset minus 2.
pub proof fn branch_offsets(inst: InstructionView, version: u8, globals: u16)
    requires
        inst.branch is Some,
        !inst.pauses_vm,
        instruction_text(inst, version, globals) is Ok,
    ensures
        base_text(inst, version) is Ok,
        instruction_text(inst, version, globals).unwrap() == "if("@ + (if inst.branch.unwrap().iftrue {
            ""@
        } else {
            "!"@
        }) + "("@ + stored(inst, base_text(inst, version).unwrap(), globals) + ")){"@ + (
        if inst.branch.unwrap().offset == 0 {
            "return 0"@
        } else if inst.branch.unwrap().offset == 1 {
            "return 1"@
        } else {
            "e.pc="@ + decimal(inst.next + inst.branch.unwrap().offset - 2) + ";return"@
        }) + "}"@,
{
    reveal_strlit("");
    reveal_strlit("return ");
    reveal_strlit("return 0");
    reveal_strlit("return 1");
    let branch = inst.branch.unwrap();
    assert(decimal(0) =~= seq!['0']);
    assert(decimal(1) =~= seq!['1']);
    if branch.offset == 0 {
        assert(branch_action(branch, inst.next) =~= "return 0"@);
    } else if branch.offset == 1 {
        assert(branch_action(branch, inst.next) =~= "return 1"@);
    } else {
        assert(branch_action(branch, inst.next) =~= "e.pc="@ + decimal(
            inst.next + branch.offset - 2,
        ) + ";return"@);
    }
}

/// Whether `made` is the text, or the error, that `wanted` asks for.
pub open spec fn renders(made: Result<String, CodegenError>, wanted: Result<Seq<char>, CodegenError>)
    -> bool {
    match made {
        Ok(text) => wanted == Ok::<Seq<char>, CodegenError>(text@),
        Err(error) => wanted == Err::<Seq<char>, CodegenError>(error),
    }
}

/// Writes an operand as the generated code reads it.
pub fn output_operand(operand: &Operand) -> (text: String)
    ensures
        text@ == operand_text(*operand),
{
    match operand {
        Operand::Constant(value) => decimal_string(*value as i64),
        Operand::SignedConstant(value) => decimal_string(*value as i64),
        Operand::StackPointer => String::from_str("s[--e.sp]"),
        Operand::SignedStackPointer => String::from_str("(s[--e.sp]<<16>>16)"),
        Operand::LocalVariable(var) => {
            let number = decimal_string(*var as i64);
            fill1_string("l[", number.as_str(), "]")
        },
        Operand::SignedLocalVariable(var) => {
            let number = decimal_string(*var as i64);
            fill1_string("(l[", number.as_str(), "]<<16>>16)")
        },
        Operand::GlobalVariable(addr) => {
            let number = decimal_string(*addr as i64);
            fill1_string("e.m.getUint16(", number.as_str(), ")")
        },
        Operand::SignedGlobalVariable(addr) => {
            let number = decimal_string(*addr as i64);
            fill1_string("e.m.getInt16(", number.as_str(), ")")
        },
    }
}

/// The text of the operand at `index`, or `null`.
fn operand_or_null_string(operands: &Vec<Operand>, index: usize) -> (text: String)
    ensures
        text@ == operand_or_null(operands@, index as int),
{
    if index < operands.len() {
        output_operand(&operands[index])
    } else {
        String::from_str("null")
    }
}

/// The texts of the operands from `from` on, with `joiner` between each two.
fn args_join(operands: &Vec<Operand>, joiner: &str, from: usize) -> (text: String)
    ensures
        text@ == joined(operands@, joiner@, from as int, operands@.len() as int),
{
    let mut text = String::new();
    if from >= operands.len() {
        return text;
    }
    let mut index: usize = from;
    while index < operands.len()
        invariant
            from <= index <= operands.len(),
            from < operands.len(),
            text@ == joined(operands@, joiner@, from as int, index as int),
        decreases operands.len() - index,
    {
        if index > from {
            text.append(joiner);
        }
        let operand = output_operand(&operands[index]);
        text.append(operand.as_str());
        assert(text@ =~= joined(operands@, joiner@, from as int, index + 1));
        index = index + 1;
    }
    text
}

/// The operands from `from` on as a list of arguments.
fn args(operands: &Vec<Operand>, from: usize) -> (text: String)
    ensures
        text@ == arguments(operands@, from as int),
{
    args_join(operands, ",", from)
}

/// A call of the runtime's helper `name` with all operands as arguments.
fn runtime(name: &str, operands: &Vec<Operand>) -> (text: String)
    ensures
        text@ == runtime_call(name@, operands@),
{
    let list = args(operands, 0);
    fill2_string("e.", name, "(", list.as_str(), ")")
}

/// The name of the helper that the opcode is handed to, if it is.
fn helper_name(opcode: u16) -> (name: Option<&'static str>)
    ensures
        match name {
            Some(text) => helper_of(opcode) == Some(text@),
            None => helper_of(opcode) is None,
        },
{
    match opcode {
        6 => Some("jin"),
        7 => Some("test"),
        10 => Some("test_attr"),
        11 => Some("set_attr"),
        12 => Some("clear_attr"),
        14 => Some("insert_obj"),
        17 => Some("get_prop"),
        18 => Some("find_prop"),
        27 => Some("set_colour"),
        129 => Some("get_sibling"),
        130 => Some("get_child"),
        131 => Some("get_parent"),
        132 => Some("get_prop_len"),
        137 => Some("remove_obj"),
        227 => Some("put_prop"),
        231 => Some("random"),
        234 => Some("split_window"),
        235 => Some("set_window"),
        237 => Some("erase_window"),
        238 => Some("erase_line"),
        240 => Some("get_cursor"),
        241 => Some("set_style"),
        244 => Some("input_stream"),
        247 => Some("scan_table"),
        251 => Some("tokenise"),
        252 => Some("encode_text"),
        253 => Some("copy_table"),
        254 => Some("print_table"),
        1002 => Some("log_shift"),
        1003 => Some("art_shift"),
        1004 => Some("set_font"),
        1013 => Some("set_true_colour"),
        1030 => Some("gestalt"),
        _ => None,
    }
}

/// The operator that the opcode puts between its operands, if it does.
fn operator(opcode: u16) -> (sign: Option<&'static str>)
    ensures
        match sign {
            Some(text) => operator_of(opcode) == Some(text@),
            None => operator_of(opcode) is None,
        },
{
    match opcode {
        2 => Some("<"),
        3 => Some(">"),
        8 => Some("|"),
        9 => Some("&"),
        20 => Some("+"),
        21 => Some("-"),
        22 => Some("*"),
        24 => Some("%"),
        _ => None,
    }
}

/// A call of a routine.
fn call(inst: &Instruction) -> (made: Result<String, CodegenError>)
    ensures
        renders(made, call_text(inst@)),
{
    if inst.operands.len() == 0 {
        return Err(
            CodegenError::Incomplete {
                opcode: inst.opcode,
                addr: inst.addr,
                missing: InstructionPart::Routine,
            },
        );
    }
    let storer: i64 = match inst.result {
        Some(var) => var as i64,
        None => -1,
    };
    let routine = output_operand(&inst.operands[0]);
    let storer_text = decimal_string(storer);
    let next = decimal_string(inst.next as i64);
    let call_args = args(&inst.operands, 1);
    Ok(
        fill4_string(
            "e.call(",
            routine.as_str(),
            ",",
            storer_text.as_str(),
            ",",
            next.as_str(),
            ",[",
            call_args.as_str(),
            "])",
        ),
    )
}

/// The address at which a saved game resumes.
fn resume_at(inst: &Instruction, version: u8) -> (address: String)
    ensures
        address@ == decimal(resume_address(inst@, version)),
{
    if version == 3 {
        decimal_string(inst.addr as i64 + 1)
    } else {
        decimal_string(inst.next as i64 - 1)
    }
}

/// The error for an instruction that lacks `missing`.
fn lacks(inst: &Instruction, missing: InstructionPart) -> (error: CodegenError)
    ensures
        error == incomplete(inst@, missing),
{
    CodegenError::Incomplete { opcode: inst.opcode, addr: inst.addr, missing }
}

/// The error for an instruction with an unknown opcode.
fn unknown(inst: &Instruction) -> (error: CodegenError)
    ensures
        error == (CodegenError::UnknownOpcode { opcode: inst.opcode, addr: inst.addr }),
{
    CodegenError::UnknownOpcode { opcode: inst.opcode, addr: inst.addr }
}

/// The code of a two-operand opcode that has a template of its own.
fn two_operand_code(inst: &Instruction) -> (made: Result<String, CodegenError>)
    ensures
        renders(made, two_operand_text(inst@)),
{
    let a = operand_or_null_string(&inst.operands, 0);
    let b = operand_or_null_string(&inst.operands, 1);
    match inst.opcode {
        /* je */
        1 => if inst.operands.len() == 2 {
            Ok(args_join(&inst.operands, "===", 0))
        } else {
            Ok(runtime("jeq", &inst.operands))
        },
        /* dec_chk */
        4 => Ok(fill2_string("(e.incdec(", a.as_str(), ",-1)<<16>>16)<", b.as_str(), "")),
        /* inc_chk */
        5 => Ok(fill2_string("(e.incdec(", a.as_str(), ",1)<<16>>16)>", b.as_str(), "")),
        /* store */
        13 => Ok(fill2_string("e.indirect(", a.as_str(), ",", b.as_str(), ")")),
        /* loadw */
        15 => Ok(fill2_string("e.m.getUint16(", a.as_str(), "+2*", b.as_str(), ")")),
        /* loadb */
        16 => Ok(fill2_string("e.m.getUint8(", a.as_str(), "+", b.as_str(), ")")),
        /* get_next_prop */
        19 => Ok(fill2_string("e.find_prop(", a.as_str(), ",0,", b.as_str(), ")")),
        /* div */
        23 => Ok(fill2_string("(", a.as_str(), "/", b.as_str(), ")|0")),
        /* throw */
        28 => Ok(
            fill2_string(
                "while(e.frames.length+1>",
                b.as_str(),
                "){e.frameptr=e.frames.pop()}return ",
                a.as_str(),
                "",
            ),
        ),
        _ => Err(unknown(inst)),
    }
}

/// The code of an opcode with one operand or none that has a template of its
/// own.
fn short_code(inst: &Instruction, version: u8) -> (made: Result<String, CodegenError>)
    ensures
        renders(made, short_text(inst@, version)),
{
    let a = operand_or_null_string(&inst.operands, 0);
    match inst.opcode {
        /* jz */
        128 => Ok(fill1_string("", a.as_str(), "===0")),
        /* inc */
        133 => Ok(fill1_string("e.incdec(", a.as_str(), ",1)")),
        /* dec */
        134 => Ok(fill1_string("e.incdec(", a.as_str(), ",-1)")),
        /* print_addr */
        135 => Ok(fill1_string("e.print(2,", a.as_str(), ")")),
        /* print_obj */
        138 => Ok(fill1_string("e.print(3,", a.as_str(), ")")),
        /* ret */
        139 => Ok(fill1_string("return ", a.as_str(), "")),
        /* jump */
        140 => {
            let target = decimal_string(inst.next as i64 - 2);
            Ok(fill2_string("e.pc=", a.as_str(), "+", target.as_str(), ""))
        },
        /* print_paddr */
        141 => {
            let addr_multiplier: i64 = if version == 3 {
                2
            } else if version == 8 {
                8
            } else {
                4
            };
            let multiplier = decimal_string(addr_multiplier);
            Ok(fill2_string("e.print(2,", a.as_str(), "*", multiplier.as_str(), ")"))
        },
        /* load */
        142 => Ok(fill1_string("e.indirect(", a.as_str(), ")")),
        /* not */
        143 => Ok(fill1_string("~", a.as_str(), "")),
        /* rtrue */
        176 => Ok(String::from_str("return 1")),
        /* rfalse */
        177 => Ok(String::from_str("return 0")),
        /* print */
        178 => match inst.text {
            Some(text) => {
                let address = decimal_string(text as i64);
                Ok(fill1_string("e.print(2,", address.as_str(), ")"))
            },
            None => Err(lacks(inst, InstructionPart::Text)),
        },
        /* print_ret */
        179 => match inst.text {
            Some(text) => {
                let address = decimal_string(text as i64);
                Ok(fill1_string("e.print(2,", address.as_str(), ");e.print(1,13);return 1"))
            },
            None => Err(lacks(inst, InstructionPart::Text)),
        },
        /* nop */
        180 => Ok(String::from_str("")),
        /* save */
        181 => {
            let address = resume_at(inst, version);
            Ok(fill1_string("e.save(", address.as_str(), ")"))
        },
        /* restore */
        182 => {
            let address = resume_at(inst, version);
            Ok(fill1_string("e.restore(", address.as_str(), ")"))
        },
        /* restart */
        183 => Ok(String::from_str("e.restart()")),
        /* ret_popped */
        184 => Ok(String::from_str("return s[--e.sp]")),
        /* pop, catch */
        185 => if version < 5 {
            Ok(String::from_str("s[--e.sp]"))
        } else {
            Ok(String::from_str("e.frames.length+1"))
        },
        /* quit */
        186 => Ok(String::from_str("e.quit=1;e.Glk.glk_exit()")),
        /* new_line */
        187 => Ok(String::from_str("e.print(1,13)")),
        /* show_status */
        188 => if version < 4 {
            Ok(String::from_str("e.v3_status()"))
        } else {
            Ok(String::from_str(""))
        },
        /* verify */
        189 => Ok(String::from_str("1")),
        /* piracy */
        191 => Ok(String::from_str("1")),
        _ => Err(unknown(inst)),
    }
}

/// The code of an opcode of the variable form that has a template of its
/// own.
fn variable_code(inst: &Instruction, version: u8) -> (made: Result<String, CodegenError>)
    ensures
        renders(made, variable_text(inst@, version)),
{
    let a = operand_or_null_string(&inst.operands, 0);
    let b = operand_or_null_string(&inst.operands, 1);
    let c = operand_or_null_string(&inst.operands, 2);
    match inst.opcode {
        /* storew */
        225 => Ok(
            fill3_string("e.ram.setUint16(", a.as_str(), "+2*", b.as_str(), ",", c.as_str(), ")"),
        ),
        /* storeb */
        226 => Ok(
            fill3_string("e.ram.setUint8(", a.as_str(), "+", b.as_str(), ",", c.as_str(), ")"),
        ),
        /* read */
        228 => {
            let storer: i64 = if version < 5 {
                0
            } else {
                match inst.result {
                    Some(var) => var as i64,
                    None => {
                        return Err(lacks(inst, InstructionPart::Result));
                    },
                }
            };
            let storer_text = decimal_string(storer);
            let list = args(&inst.operands, 0);
            Ok(fill2_string("e.read(", storer_text.as_str(), ",", list.as_str(), ")"))
        },
        /* print_char */
        229 => Ok(fill1_string("e.print(4,", a.as_str(), ")")),
        /* print_num */
        230 => Ok(fill1_string("e.print(0,", a.as_str(), ")")),
        /* push */
        232 => Ok(fill1_string("t=", a.as_str(), ";s[e.sp++]=t")),
        /* pull */
        233 => Ok(fill1_string("e.indirect(", a.as_str(), ",s[--e.sp])")),
        /* set_cursor */
        239 => Ok(fill2_string("e.set_cursor(", a.as_str(), "-1,", b.as_str(), "-1)")),
        /* buffer_mode */
        242 => Ok(String::from_str("")),
        /* output_stream */
        243 => {
            let next = decimal_string(inst.next as i64);
            let list = args(&inst.operands, 0);
            Ok(fill2_string("e.pc=", next.as_str(), ";e.output_stream(", list.as_str(), ")"))
        },
        /* sound_effect */
        245 => Ok(String::from_str("")),
        /* read_char */
        246 => match inst.result {
            Some(var) => {
                let storer_text = decimal_string(var as i64);
                let list = if inst.operands.len() == 0 {
                    String::from_str("1")
                } else {
                    args(&inst.operands, 0)
                };
                Ok(fill2_string("e.read_char(", storer_text.as_str(), ",", list.as_str(), ")"))
            },
            None => Err(lacks(inst, InstructionPart::Result)),
        },
        /* not */
        248 => Ok(fill1_string("~", a.as_str(), "")),
        /* check_arg_count */
        255 => Ok(fill1_string("e.stack.getUint8(e.frameptr+5)&(1<<(", a.as_str(), "-1))")),
        _ => Err(unknown(inst)),
    }
}

/// The code of an extended opcode that has a template of its own.
fn extended_code(inst: &Instruction, version: u8) -> (made: Result<String, CodegenError>)
    ensures
        renders(made, extended_text(inst@, version)),
{
    match inst.opcode {
        /* save */
        1000 => {
            let address = resume_at(inst, version);
            Ok(fill1_string("e.save(", address.as_str(), ")"))
        },
        /* restore */
        1001 => {
            let address = resume_at(inst, version);
            Ok(fill1_string("e.restore(", address.as_str(), ")"))
        },
        /* save_undo */
        1009 => match inst.result {
            Some(var) => {
                let next = decimal_string(inst.next as i64);
                let storer_text = decimal_string(var as i64);
                Ok(fill2_string("e.save_undo(", next.as_str(), ",", storer_text.as_str(), ")"))
            },
            None => Err(lacks(inst, InstructionPart::Result)),
        },
        /* restore_undo */
        1010 => Ok(String::from_str("if(e.restore_undo())return")),
        /* print_unicode */
        1011 => {
            let a = operand_or_null_string(&inst.operands, 0);
            Ok(fill1_string("e.print(1,", a.as_str(), ")"))
        },
        /* check_unicode */
        1012 => Ok(String::from_str("3")),
        _ => Err(unknown(inst)),
    }
}

/// The code for what an instruction does.
fn base_code(inst: &Instruction, version: u8) -> (made: Result<String, CodegenError>)
    ensures
        renders(made, base_text(inst@, version)),
{
    let opcode = inst.opcode;
    if let Some(name) = helper_name(opcode) {
        Ok(runtime(name, &inst.operands))
    } else if let Some(sign) = operator(opcode) {
        Ok(args_join(&inst.operands, sign, 0))
    } else if opcode == 25 || opcode == 26 || opcode == 136 || opcode == 224 || opcode == 236
        || opcode == 249 || opcode == 250 || (opcode == 143 && version >= 5) {
        call(inst)
    } else if opcode < 128 {
        two_operand_code(inst)
    } else if opcode < 224 {
        short_code(inst, version)
    } else if opcode < 1000 {
        variable_code(inst, version)
    } else {
        extended_code(inst, version)
    }
}

/// The code that stores the value of `inner` in the variable `var`.
fn store(var: u8, inner: &str, globals_addr: u16) -> (text: String)
    ensures
        text@ == store_text(var, inner@, globals_addr),
{
    if var == 0 {
        fill1_string("t=", inner, ",s[e.sp++]=t")
    } else if var < 16 {
        let local = decimal_string(var as i64 - 1);
        fill2_string("l[", local.as_str(), "]=", inner, "")
    } else {
        let global = decimal_string(global_addr(globals_addr, var) as i64);
        fill2_string("t=", inner, ",e.ram.setUint16(", global.as_str(), ",t),t")
    }
}

/// The conditional that takes the branch when `condition` is as the branch
/// wants it.
fn branch_on(branch: BranchTarget, next: u32, condition: &str) -> (text: String)
    ensures
        text@ == branch_text(branch, next, condition@),
{
    let target = if branch.offset == 0 || branch.offset == 1 {
        let value = decimal_string(branch.offset as i64);
        fill1_string("return ", value.as_str(), "")
    } else {
        let address = decimal_string(next as i64 + branch.offset as i64 - 2);
        fill1_string("e.pc=", address.as_str(), ";return")
    };
    fill3_string(
        "if(",
        if branch.iftrue {
            ""
        } else {
            "!"
        },
        "(",
        condition,
        ")){",
        target.as_str(),
        "}",
    )
}

/// Renders one instruction.
///
/// An opcode for which no rendering is known is refused, with its number
/// and the address of the instruction, and so is an instruction without a
/// part that its rendering needs: the address of the text of a print
/// instruction, the routine of a call, or the variable for a result.
pub fn output_instruction(inst: &Instruction, version: u8, globals_addr: u16) -> (made: Result<
    String,
    CodegenError,
>)
    ensures
        renders(made, instruction_text(inst@, version, globals_addr)),
{
    let mut code = match base_code(inst, version) {
        Ok(code) => code,
        Err(error) => {
            return Err(error);
        },
    };
    // Store
    if inst.stores {
        match inst.result {
            Some(var) => {
                code = store(var, code.as_str(), globals_addr);
            },
            None => {
                return Err(lacks(inst, InstructionPart::Result));
            },
        }
    }
    // Branch, but for an instruction that suspends the machine
    if !inst.pauses_vm {
        if let Some(branch) = inst.branch {
            code = branch_on(branch, inst.next, code.as_str());
        }
    }
    // Pause VM
    if inst.pauses_vm {
        let next = decimal_string(inst.next as i64);
        code = fill2_string("e.stop=1;e.pc=", next.as_str(), ";", code.as_str(), "");
    }
    Ok(code)
}

/// The line that a block has for an instruction: a comment with the address
/// and the opcode, then the code.
pub open spec fn line_text(inst: InstructionView, code: Seq<char>) -> Seq<char> {
    fill3(
        "\n/* "@,
        decimal(inst.addr as int),
        "/"@,
        decimal(inst.opcode as int),
        " */ "@,
        code,
        ";"@,
    )
}

/// What every block starts with: the registers that its code works on.
pub open spec fn block_prefix() -> Seq<char> {
    "var l=e.l,s=e.s,t=0;"@
}

/// The lines of the basic block that starts at `pos`, and the address behind
/// the block: the instructions from `pos` on, up to and including the first
/// that ends the block. Where the image ends first, or an instruction cannot
/// be rendered, that error.
pub open spec fn block_at(
    bytes: Seq<u8>,
    pos: int,
    table: Map<u16, OpcodeDefinition>,
    version: u8,
    globals: u16,
) -> Result<(Seq<char>, int), DecompileError>
    decreases bytes.len() - pos,
{
    match instruction_at(bytes, pos, table, globals) {
        Some(inst) => match instruction_text(inst, version, globals) {
            Ok(code) => if inst.ends_block || !(pos < inst.next <= bytes.len()) {
                Ok((line_text(inst, code), inst.next as int))
            } else {
                match block_at(bytes, inst.next as int, table, version, globals) {
                    Ok((rest, end)) => Ok((line_text(inst, code) + rest, end)),
                    Err(error) => Err(error),
                }
            },
            Err(error) => Err(DecompileError::Codegen(error)),
        },
        None => Err(DecompileError::Decode(DecodeError::UnexpectedEnd { addr: pos as u64 })),
    }
}

/// The block at an address is a function of the image, the version and the
/// address of the globals: whichever map holds the opcode table of the
/// version, the block is the same.
pub proof fn block_depends_on_the_version_only(
    bytes: Seq<u8>,
    pos: int,
    first: Map<u16, OpcodeDefinition>,
    second: Map<u16, OpcodeDefinition>,
    version: u8,
    globals: u16,
)
    requires
        is_table_of(first, version),
        is_table_of(second, version),
    ensures
        instruction_at(bytes, pos, first, globals) == instruction_at(bytes, pos, second, globals),
        block_at(bytes, pos, first, version, globals) == block_at(
            bytes,
            pos,
            second,
            version,
            globals,
        ),
    decreases bytes.len() - pos,
{
    match head_at(bytes, pos) {
        Some(head) => {
            assert(shape_in(first, head.opcode) == opcode_shape(version, head.opcode));
            assert(shape_in(second, head.opcode) == opcode_shape(version, head.opcode));
        },
        None => {},
    }
    match instruction_at(bytes, pos, first, globals) {
        Some(inst) => {
            if instruction_text(inst, version, globals) is Ok && !inst.ends_block && pos
                < inst.next <= bytes.len() {
                block_depends_on_the_version_only(
                    bytes,
                    inst.next as int,
                    first,
                    second,
                    version,
                    globals,
                );
            }
        },
        None => {},
    }
}

/// The line of the instruction at `pos`, the address behind the instruction
/// and whether it ends the block.
#[verifier::opaque]
spec fn line_at(
    bytes: Seq<u8>,
    pos: int,
    table: Map<u16, OpcodeDefinition>,
    version: u8,
    globals: u16,
) -> Result<(Seq<char>, int, bool), DecompileError> {
    match instruction_at(bytes, pos, table, globals) {
        Some(inst) => match instruction_text(inst, version, globals) {
            Ok(code) => Ok((line_text(inst, code), inst.next as int, inst.ends_block)),
            Err(error) => Err(DecompileError::Codegen(error)),
        },
        None => Err(DecompileError::Decode(DecodeError::UnexpectedEnd { addr: pos as u64 })),
    }
}

/// Whether `whole` is what `rest` is, with `lines` in front of its text.
#[verifier::opaque]
spec fn goes_on_as(
    whole: Result<(Seq<char>, int), DecompileError>,
    lines: Seq<char>,
    rest: Result<(Seq<char>, int), DecompileError>,
) -> bool {
    whole == match rest {
        Ok((text, end)) => Ok::<(Seq<char>, int), DecompileError>((lines + text, end)),
        Err(error) => Err(error),
    }
}

/// A block is what it is with nothing in front of it.
proof fn block_starts(whole: Result<(Seq<char>, int), DecompileError>)
    ensures
        goes_on_as(whole, Seq::empty(), whole),
{
    reveal(goes_on_as);
    match whole {
        Ok((text, end)) => {
            assert(Seq::<char>::empty() + text =~= text);
        },
        Err(error) => {},
    }
}

/// What the line at `pos` says of a block that has come to `pos`: an error
/// there is the error of the block, a line that ends the block completes it,
/// and any other line is followed by the block behind it.
proof fn block_step(
    bytes: Seq<u8>,
    pos: int,
    table: Map<u16, OpcodeDefinition>,
    version: u8,
    globals: u16,
    whole: Result<(Seq<char>, int), DecompileError>,
    lines: Seq<char>,
)
    requires
        goes_on_as(whole, lines, block_at(bytes, pos, table, version, globals)),
        bytes.len() <= u32::MAX,
    ensures
        match line_at(bytes, pos, table, version, globals) {
            Ok((line, next, ends_block)) => if ends_block {
                whole == Ok::<(Seq<char>, int), DecompileError>((lines + line, next))
            } else {
                goes_on_as(whole, lines + line, block_at(bytes, next, table, version, globals))
            },
            Err(error) => whole == Err::<(Seq<char>, int), DecompileError>(error),
        },
{
    reveal(goes_on_as);
    reveal(line_at);
    match line_at(bytes, pos, table, version, globals) {
        Ok((line, next, ends_block)) => {
            instruction_lies_within(bytes, pos, table, globals);
            if !ends_block {
                match block_at(bytes, next, table, version, globals) {
                    Ok((rest, end)) => {
                        assert(lines + (line + rest) =~= (lines + line) + rest);
                    },
                    Err(error) => {},
                }
            }
        },
        Err(error) => {},
    }
}

/// Decodes the instruction at the cursor and renders its line of the block.
/// Returns the line and whether the instruction ends the block.
fn output_line(state: &mut ZVMState) -> (made: Result<(String, bool), DecompileError>)
    requires
        old(state).wf(),
    ensures
        final(state).wf(),
        image_bytes(final(state).image) == image_bytes(old(state).image),
        final(state).version == old(state).version,
        final(state).globals_addr == old(state).globals_addr,
        final(state).unsafe_io == old(state).unsafe_io,
        final(state).opcode_definitions == old(state).opcode_definitions,
        final(state).functions == old(state).functions,
        match line_at(
            image_bytes(old(state).image),
            image_position(old(state).image) as int,
            old(state).opcode_definitions@,
            old(state).version,
            old(state).globals_addr,
        ) {
            Ok((line, next, ends_block)) => {
                &&& made is Ok
                &&& made.unwrap().0@ == line
                &&& made.unwrap().1 == ends_block
                &&& image_position(final(state).image) == next
                &&& image_position(old(state).image) < next <= image_bytes(old(state).image).len()
            },
            Err(error) => made == Err::<(String, bool), DecompileError>(error),
        },
{
    reveal(line_at);
    let instruction = match disassemble_instruction(state) {
        Ok(instruction) => instruction,
        Err(error) => {
            return Err(DecompileError::Decode(error));
        },
    };
    let code = match output_instruction(&instruction, state.version, state.globals_addr) {
        Ok(code) => code,
        Err(error) => {
            return Err(DecompileError::Codegen(error));
        },
    };
    let addr_text = decimal_string(instruction.addr as i64);
    let opcode_text = decimal_string(instruction.opcode as i64);
    let line = fill3_string(
        "\n/* ",
        addr_text.as_str(),
        "/",
        opcode_text.as_str(),
        " */ ",
        code.as_str(),
        ";",
    );
    Ok((line, instruction.ends_block))
}

/// Decompiles the basic block at `addr`.
///
/// The text is the declaration of the registers followed by one line for
/// each instruction of the block. Afterwards the cursor of the image stands
/// behind the block, or at `addr` where the block could not be decompiled.
/// Nothing else of the state changes.
pub fn output_block(state: &mut ZVMState, addr: u32) -> (made: Result<String, DecompileError>)
    requires
        old(state).wf(),
    ensures
        final(state).wf(),
        image_bytes(final(state).image) == image_bytes(old(state).image),
        final(state).version == old(state).version,
        final(state).globals_addr == old(state).globals_addr,
        final(state).unsafe_io == old(state).unsafe_io,
        final(state).opcode_definitions == old(state).opcode_definitions,
        final(state).functions == old(state).functions,
        match block_at(
            image_bytes(old(state).image),
            addr as int,
            old(state).opcode_definitions@,
            old(state).version,
            old(state).globals_addr,
        ) {
            Ok((lines, end)) => {
                &&& made is Ok
                &&& made.unwrap()@ == block_prefix() + lines
                &&& image_position(final(state).image) == end
            },
            Err(error) => {
                &&& made == Err::<String, DecompileError>(error)
                &&& image_position(final(state).image) == addr
            },
        },
{
    let ghost bytes = image_bytes(state.image);
    let ghost table = state.opcode_definitions@;
    let ghost version = state.version;
    let ghost globals = state.globals_addr;
    let ghost whole = block_at(bytes, addr as int, table, version, globals);
    let ghost mut lines = Seq::<char>::empty();

    let mut output = String::from_str("var l=e.l,s=e.s,t=0;");
    cursor_set_position(&mut state.image, addr as u64);
    proof {
        block_starts(whole);
    }
    loop
        invariant
            state.wf(),
            image_bytes(state.image) == bytes,
            bytes == image_bytes(old(state).image),
            version == old(state).version,
            globals == old(state).globals_addr,
            table == old(state).opcode_definitions@,
            state.version == version,
            state.globals_addr == globals,
            state.unsafe_io == old(state).unsafe_io,
            state.opcode_definitions == old(state).opcode_definitions,
            state.functions == old(state).functions,
            whole == block_at(bytes, addr as int, table, version, globals),
            output@ == block_prefix() + lines,
            goes_on_as(
                whole,
                lines,
                block_at(bytes, image_position(state.image) as int, table, version, globals),
            ),
        decreases bytes.len() - image_position(state.image),
    {
        proof {
            block_step(
                bytes,
                image_position(state.image) as int,
                table,
                version,
                globals,
                whole,
                lines,
            );
        }
        let (line, ends_block) = match output_line(state) {
            Ok(made) => made,
            Err(error) => {
                cursor_set_position(&mut state.image, addr as u64);
                return Err(error);
            },
        };
        output.append(line.as_str());
        proof {
            lines = lines + line@;
            assert(output@ =~= block_prefix() + lines);
        }
        if ends_block {
            return Ok(output);
        }
    }
}

} // verus!
