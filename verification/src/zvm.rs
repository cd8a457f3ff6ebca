//! The Z-machine: its opcode table, its decoded instructions and the
//! disassembler that reads them from the memory image.

use crate::text::{decimal, decimal_string, fill1, fill1_string, push_digits};
use crate::FunctionSafety;
use fnv::FnvHashMap;
use std::io::Cursor;
use vstd::prelude::*;

pub mod disassembler;
pub mod image;
pub mod opcodes;

use image::{cursor_bytes, image_bytes, image_position};
use opcodes::{
    fnv_map_new, get_opcode_definitions, has_keys_of, is_table_of, supported_version,
    OpcodeDefinition,
};

verus! {

/// Why a session cannot be set up.
#[derive(Clone, Copy, Debug, PartialEq, Eq, Structural)]
pub enum ConfigError {
    /// No opcode table exists for this version of the machine.
    UnsupportedVersion { version: u8 },
    /// The image is longer than a 32-bit address can reach.
    ImageTooLarge { length: usize },
}

impl ConfigError {
    /// The error in words.
    pub open spec fn text(self) -> Seq<char> {
        match self {
            ConfigError::UnsupportedVersion { version } => fill1(
                "Unsupported version "@,
                decimal(version as int),
                ""@,
            ),
            ConfigError::ImageTooLarge { length } => fill1(
                "An image of "@,
                decimal(length as int),
                " bytes is too large"@,
            ),
        }
    }

    /// The error in words.
    pub fn message(&self) -> (message: String)
        ensures
            message@ == self.text(),
    {
        match self {
            ConfigError::UnsupportedVersion { version } => {
                let number = decimal_string(*version as i64);
                fill1_string("Unsupported version ", number.as_str(), "")
            },
            ConfigError::ImageTooLarge { length } => {
                let mut number = String::new();
                push_digits(&mut number, *length as u64);
                assert(number@ =~= decimal(*length as int));
                fill1_string("An image of ", number.as_str(), " bytes is too large")
            },
        }
    }
}

/// The address of the global variable with the number `var`, 16 to 255, in a
/// machine whose globals lie from `globals` on: two bytes for each variable.
/// Addresses have 16 bits, so one that would lie past 65535 wraps around.
pub open spec fn global_address(globals: u16, var: u8) -> u16 {
    ((globals + (var - 16) * 2) % 65536) as u16
}

/// The address of the global variable with the number `var`.
pub fn global_addr(globals: u16, var: u8) -> (addr: u16)
    requires
        var >= 16,
    ensures
        addr == global_address(globals, var),
{
    ((globals as u32 + (var as u32 - 16) * 2) % 65536) as u16
}

/// The state of one decompilation session.
pub struct ZVMState {
    /// The memory of the machine, and the address that is read next.
    pub image: Cursor<Box<[u8]>>,
    pub version: u8,
    /// The address of the table of global variables.
    pub globals_addr: u16,
    pub unsafe_io: bool,
    pub opcode_definitions: FnvHashMap<u16, OpcodeDefinition>,
    pub functions: FnvHashMap<u32, FunctionSafety>,
}

impl ZVMState {
    /// Every address of the image fits in 32 bits.
    pub open spec fn wf(&self) -> bool {
        image_bytes(self.image).len() <= u32::MAX
    }

    /// Sets up a session over `image` for `version` of the machine.
    ///
    /// The version must be one that has an opcode table, and the image must
    /// be addressable with 32 bits: the first of the two that fails is
    /// reported. The session keeps the image with its cursor where it is, and
    /// the other arguments as they are; it has the opcode table of the
    /// version, and no functions yet.
    pub fn new(image: Cursor<Box<[u8]>>, version: u8, globals_addr: u16, unsafe_io: bool) -> (made:
        Result<ZVMState, ConfigError>)
        ensures
            match made {
                Ok(state) => {
                    &&& supported_version(version)
                    &&& state.wf()
                    &&& image_bytes(state.image) == image_bytes(image)
                    &&& image_position(state.image) == image_position(image)
                    &&& state.version == version
                    &&& state.globals_addr == globals_addr
                    &&& state.unsafe_io == unsafe_io
                    &&& is_table_of(state.opcode_definitions@, version)
                    &&& has_keys_of(state.opcode_definitions@, version)
                    &&& state.functions@.dom() == Set::<u32>::empty()
                },
                Err(error) => if !supported_version(version) {
                    error == (ConfigError::UnsupportedVersion { version })
                } else {
                    image_bytes(image).len() > u32::MAX && error == (ConfigError::ImageTooLarge {
                        length: image_bytes(image).len() as usize,
                    })
                },
            },
    {
        let opcode_definitions = match get_opcode_definitions(version) {
            Ok(table) => table,
            Err(error) => {
                return Err(error);
            },
        };
        let length = cursor_bytes(&image).len();
        if length > 0xffff_ffff {
            return Err(ConfigError::ImageTooLarge { length });
        }
        Ok(
            ZVMState {
                image,
                version,
                globals_addr,
                unsafe_io,
                opcode_definitions,
                functions: fnv_map_new(),
            },
        )
    }

    /// Whether the state is well formed.
    pub fn is_wf(&self) -> (ok: bool)
        ensures
            ok == self.wf(),
    {
        cursor_bytes(&self.image).len() <= 0xffff_ffff
    }
}

/// One operand of an instruction.
#[derive(Clone, Copy, Debug, PartialEq, Eq, Structural)]
pub enum Operand {
    /// A 16-bit constant.
    Constant(u16),
    /// A 16-bit constant in two's complement.
    SignedConstant(i16),
    /// The value on top of the stack, which is popped.
    StackPointer,
    /// The value on top of the stack, read as a signed number.
    SignedStackPointer,
    /// A local variable, 0 to 14.
    LocalVariable(u8),
    /// A local variable, read as a signed number.
    SignedLocalVariable(u8),
    /// A global variable, by its address in memory.
    GlobalVariable(u16),
    /// A global variable, read as a signed number.
    SignedGlobalVariable(u16),
}

/// Where a branch instruction goes.
#[derive(Clone, Copy, Debug, PartialEq, Eq, Structural)]
pub struct BranchTarget {
    /// Whether the branch is taken when the condition holds, or when it
    /// does not.
    pub iftrue: bool,
    /// The distance to jump, a signed 14-bit number; 0 and 1 stand for
    /// returning false and true.
    pub offset: i16,
}

/// One decoded instruction.
#[derive(Clone, Debug)]
pub struct Instruction {
    /// The address of the instruction's first byte.
    pub addr: u32,
    /// The opcode number; the extended opcodes are numbered from 1000.
    pub opcode: u16,
    pub operands: Vec<Operand>,
    /// The variable that the result is stored in, where a store byte was read.
    pub result: Option<u8>,
    pub stores: bool,
    pub branch: Option<BranchTarget>,
    /// Whether the opcode branches and does not suspend the machine.
    pub branches: bool,
    /// The address of the text that follows the instruction inline.
    pub text: Option<u32>,
    /// The address of the instruction that follows.
    pub next: u32,
    pub ends_block: bool,
    pub pauses_vm: bool,
}

/// An instruction as a mathematical value.
pub struct InstructionView {
    pub addr: u32,
    pub opcode: u16,
    pub operands: Seq<Operand>,
    pub result: Option<u8>,
    pub stores: bool,
    pub branch: Option<BranchTarget>,
    pub branches: bool,
    pub text: Option<u32>,
    pub next: u32,
    pub ends_block: bool,
    pub pauses_vm: bool,
}

impl View for Instruction {
    type V = InstructionView;

    open spec fn view(&self) -> InstructionView {
        InstructionView {
            addr: self.addr,
            opcode: self.opcode,
            operands: self.operands@,
            result: self.result,
            stores: self.stores,
            branch: self.branch,
            branches: self.branches,
            text: self.text,
            next: self.next,
            ends_block: self.ends_block,
            pauses_vm: self.pauses_vm,
        }
    }
}

} // verus!
