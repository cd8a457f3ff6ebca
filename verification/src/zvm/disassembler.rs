//! The disassembler: reads one instruction of the machine from the image.
//!
//! `instruction_at` says, as a function of the image's bytes, an address, the
//! opcode table and the address of the globals, which instruction stands at
//! that address, or that the image ends before the instruction does.
//! `disassemble_instruction` reads at the cursor and returns exactly that.

use super::image::{
    cursor_position, cursor_set_position, image_bytes, image_position, signed_word_of, take_i16,
    take_u16, take_u8, word_of,
};
use super::opcodes::{lookup_definition, shape_in, OpcodeDefinition, OpcodeShape, OperandTypes};
use super::{
    global_addr, global_address, BranchTarget, Instruction, InstructionView, Operand, ZVMState,
};
use crate::text::{decimal, fill1, fill1_string, push_digits};
use fnv::FnvHashMap;
use std::io::Cursor;
use vstd::prelude::*;

verus! {

/// How an operand is written in the instruction stream.
#[derive(Clone, Copy, Debug, PartialEq, Eq, Structural)]
pub enum OperandEncoding {
    /// Two bytes that hold a constant.
    LargeConstant,
    /// One byte that holds a constant.
    SmallConstant,
    /// One byte that holds the number of a variable.
    Variable,
}

/// The instruction could not be decoded.
#[derive(Clone, Copy, Debug, PartialEq, Eq, Structural)]
pub enum DecodeError {
    /// The image ends before the instruction that starts at `addr` does.
    UnexpectedEnd { addr: u64 },
}

impl DecodeError {
    /// The error in words.
    pub open spec fn text(self) -> Seq<char> {
        match self {
            DecodeError::UnexpectedEnd { addr } => fill1(
                "The image ends within the instruction at pc="@,
                decimal(addr as int),
                ""@,
            ),
        }
    }

    /// The error in words.
    pub fn message(&self) -> (message: String)
        ensures
            message@ == self.text(),
    {
        match self {
            DecodeError::UnexpectedEnd { addr } => {
                let mut addr_text = String::new();
                push_digits(&mut addr_text, *addr);
                assert(addr_text@ =~= decimal(*addr as int));
                fill1_string("The image ends within the instruction at pc=", addr_text.as_str(), "")
            },
        }
    }
}

/// The opcode and the operand encodings of an instruction: what its first
/// bytes, up to the operands, say.
pub struct Head {
    pub opcode: u16,
    pub encodings: Seq<OperandEncoding>,
    /// The address of the first operand.
    pub next: int,
}

/// The two-bit code in `slot` of a byte of operand types; slot 0 is the top
/// two bits.
pub open spec fn type_code(types: u8, slot: int) -> u8 {
    if slot == 0 {
        types / 64
    } else if slot == 1 {
        (types / 16) % 4
    } else if slot == 2 {
        (types / 4) % 4
    } else {
        types % 4
    }
}

/// The encoding that a two-bit code stands for. Code 3 stands for no operand.
pub open spec fn encoding_of(code: u8) -> OperandEncoding {
    if code == 0 {
        OperandEncoding::LargeConstant
    } else if code == 1 {
        OperandEncoding::SmallConstant
    } else {
        OperandEncoding::Variable
    }
}

/// The encodings that a byte of operand types lists in its first `slots`
/// slots: one for each slot, up to the first slot that holds code 3.
pub open spec fn encodings_upto(types: u8, slots: int) -> Seq<OperandEncoding>
    decreases slots,
{
    if slots <= 0 {
        Seq::empty()
    } else {
        let before = encodings_upto(types, slots - 1);
        if before.len() == slots - 1 && type_code(types, slots - 1) != 3 {
            before.push(encoding_of(type_code(types, slots - 1)))
        } else {
            before
        }
    }
}

/// The encodings that a byte of operand types lists.
pub open spec fn encodings_in(types: u8) -> Seq<OperandEncoding> {
    encodings_upto(types, 4)
}

/// The encoding of an operand of the long form, from its bit of the opcode
/// byte.
pub open spec fn long_encoding(bit: u8) -> OperandEncoding {
    if bit == 0 {
        OperandEncoding::SmallConstant
    } else {
        OperandEncoding::Variable
    }
}

/// Whether the opcode takes a second byte of operand types (`call_vs2`,
/// `call_vn2`).
pub open spec fn has_two_type_bytes(opcode: u16) -> bool {
    opcode == 236 || opcode == 250
}

/// The head of the instruction at `pos`, or `None` where the image ends
/// within it.
///
/// The first byte selects the form. Below 128 it is the long form: the
/// opcode is its low five bits, and bits 6 and 5 give the encodings of two
/// operands. From 128 to 175 it is the short form with one operand: the
/// opcode is the byte without bits 4 and 5, which give the encoding. From 176
/// to 191, but for 190, it is an opcode without operands. 190 announces an
/// extended opcode: the next byte plus 1000. From 192 to 223 the opcode is
/// the low five bits, from 224 on the byte itself. After 190 and from 192 on
/// a byte of operand types follows, and a second one for two opcodes.
pub open spec fn head_at(bytes: Seq<u8>, pos: int) -> Option<Head> {
    if !(0 <= pos < bytes.len()) {
        None
    } else {
        let first = bytes[pos];
        if first < 128 {
            Some(
                Head {
                    opcode: (first % 32) as u16,
                    encodings: seq![
                        long_encoding((first / 64) % 2),
                        long_encoding((first / 32) % 2),
                    ],
                    next: pos + 1,
                },
            )
        } else if first < 176 {
            Some(
                Head {
                    opcode: (128 + first % 16) as u16,
                    encodings: seq![encoding_of((first / 16) % 4)],
                    next: pos + 1,
                },
            )
        } else if first < 192 && first != 190 {
            Some(Head { opcode: first as u16, encodings: Seq::empty(), next: pos + 1 })
        } else if first == 190 {
            if pos + 2 < bytes.len() {
                Some(
                    Head {
                        opcode: (1000 + bytes[pos + 1]) as u16,
                        encodings: encodings_in(bytes[pos + 2]),
                        next: pos + 3,
                    },
                )
            } else {
                None
            }
        } else {
            let opcode = if first < 224 {
                (first % 32) as u16
            } else {
                first as u16
            };
            if has_two_type_bytes(opcode) {
                if pos + 2 < bytes.len() {
                    Some(
                        Head {
                            opcode,
                            encodings: encodings_in(bytes[pos + 1]) + encodings_in(bytes[pos + 2]),
                            next: pos + 3,
                        },
                    )
                } else {
                    None
                }
            } else {
                if pos + 1 < bytes.len() {
                    Some(Head { opcode, encodings: encodings_in(bytes[pos + 1]), next: pos + 2 })
                } else {
                    None
                }
            }
        }
    }
}

/// The value of a byte read as a two's complement number.
pub open spec fn signed_byte(byte: u8) -> int {
    if byte < 128 {
        byte as int
    } else {
        byte - 256
    }
}

/// The operand that the variable number `var` stands for: 0 is the top of
/// the stack, 1 to 15 are the locals 0 to 14, 16 to 255 are the globals, two
/// bytes each from `globals` on. The address of a global is a 16-bit
/// address: one that would lie past 65535 wraps around.
pub open spec fn variable_operand(var: u8, kind: OperandTypes, globals: u16) -> Operand {
    if var == 0 {
        match kind {
            OperandTypes::Unsigned => Operand::StackPointer,
            OperandTypes::Signed => Operand::SignedStackPointer,
        }
    } else if var < 16 {
        match kind {
            OperandTypes::Unsigned => Operand::LocalVariable((var - 1) as u8),
            OperandTypes::Signed => Operand::SignedLocalVariable((var - 1) as u8),
        }
    } else {
        match kind {
            OperandTypes::Unsigned => Operand::GlobalVariable(global_address(globals, var)),
            OperandTypes::Signed => Operand::SignedGlobalVariable(global_address(globals, var)),
        }
    }
}

/// The operand at `pos` and the address after it, or `None` where the image
/// ends within it.
pub open spec fn operand_at(
    bytes: Seq<u8>,
    pos: int,
    encoding: OperandEncoding,
    kind: OperandTypes,
    globals: u16,
) -> Option<(Operand, int)> {
    match encoding {
        OperandEncoding::LargeConstant => if 0 <= pos && pos + 2 <= bytes.len() {
            Some(
                (
                    match kind {
                        OperandTypes::Unsigned => Operand::Constant(
                            word_of(bytes[pos], bytes[pos + 1]) as u16,
                        ),
                        OperandTypes::Signed => Operand::SignedConstant(
                            signed_word_of(bytes[pos], bytes[pos + 1]) as i16,
                        ),
                    },
                    pos + 2,
                ),
            )
        } else {
            None
        },
        OperandEncoding::SmallConstant => if 0 <= pos < bytes.len() {
            Some(
                (
                    match kind {
                        OperandTypes::Unsigned => Operand::Constant(bytes[pos] as u16),
                        OperandTypes::Signed => Operand::SignedConstant(
                            signed_byte(bytes[pos]) as i16,
                        ),
                    },
                    pos + 1,
                ),
            )
        } else {
            None
        },
        OperandEncoding::Variable => if 0 <= pos < bytes.len() {
            Some((variable_operand(bytes[pos], kind, globals), pos + 1))
        } else {
            None
        },
    }
}

/// The first `count` operands of an instruction whose operands start at
/// `pos`, and the address after them, or `None` where the image ends within
/// them.
pub open spec fn operands_at(
    bytes: Seq<u8>,
    pos: int,
    encodings: Seq<OperandEncoding>,
    shape: OpcodeShape,
    globals: u16,
    count: int,
) -> Option<(Seq<Operand>, int)>
    decreases count,
{
    if count <= 0 {
        Some((Seq::empty(), pos))
    } else {
        match operands_at(bytes, pos, encodings, shape, globals, count - 1) {
            Some((before, here)) => match operand_at(
                bytes,
                here,
                encodings[count - 1],
                shape.operand_type(count - 1),
                globals,
            ) {
                Some((operand, after)) => Some((before.push(operand), after)),
                None => None,
            },
            None => None,
        }
    }
}

/// Whether a store byte follows the operands of `opcode` although its
/// definition does not say that it stores: `call_2s`, `call_1s`, `call_vs`,
/// `call_vs2` and `restore_undo`.
pub open spec fn reads_result_anyway(opcode: u16) -> bool {
    opcode == 25 || opcode == 136 || opcode == 224 || opcode == 236 || opcode == 1010
}

/// The store byte at `pos`, if the instruction has one, and the address after
/// it.
pub open spec fn result_at(bytes: Seq<u8>, pos: int, wanted: bool) -> Option<(Option<u8>, int)> {
    if !wanted {
        Some((None, pos))
    } else if 0 <= pos < bytes.len() {
        Some((Some(bytes[pos]), pos + 1))
    } else {
        None
    }
}

/// The 14-bit two's complement number whose upper six bits are the low six
/// bits of `first` and whose lower eight bits are `second`.
pub open spec fn long_offset(first: u8, second: u8) -> int {
    let raw = (first % 64) * 256 + second;
    if raw < 8192 {
        raw
    } else {
        raw - 16384
    }
}

/// The branch target at `pos`, if the instruction has one, and the address
/// after it.
///
/// The top bit of the first byte says whether the branch is taken on true.
/// Where bit 6 is set, the low six bits are the offset; where it is not,
/// they and a second byte are.
pub open spec fn branch_at(bytes: Seq<u8>, pos: int, wanted: bool) -> Option<
    (Option<BranchTarget>, int),
> {
    if !wanted {
        Some((None, pos))
    } else if 0 <= pos < bytes.len() {
        let first = bytes[pos];
        if (first / 64) % 2 == 1 {
            Some(
                (Some(BranchTarget { iftrue: first >= 128, offset: (first % 64) as i16 }), pos + 1),
            )
        } else if pos + 1 < bytes.len() {
            Some(
                (
                    Some(
                        BranchTarget {
                            iftrue: first >= 128,
                            offset: long_offset(first, bytes[pos + 1]) as i16,
                        },
                    ),
                    pos + 2,
                ),
            )
        } else {
            None
        }
    } else {
        None
    }
}

/// Whether text follows the instruction inline (`print`, `print_ret`).
pub open spec fn has_inline_text(opcode: u16) -> bool {
    opcode == 178 || opcode == 179
}

/// The address after the text that starts at `pos`: the text is made of
/// two-byte units, and the last one has its top bit set. `None` where the
/// image ends before such a unit.
pub open spec fn text_end(bytes: Seq<u8>, pos: int) -> Option<int>
    decreases bytes.len() - pos,
{
    if pos < 0 || pos + 2 > bytes.len() {
        None
    } else if bytes[pos] >= 128 {
        Some(pos + 2)
    } else {
        text_end(bytes, pos + 2)
    }
}

/// Where the inline text starts, if the instruction has any, and the address
/// after it.
pub open spec fn text_at(bytes: Seq<u8>, pos: int, wanted: bool) -> Option<(Option<u32>, int)> {
    if !wanted {
        Some((None, pos))
    } else {
        match text_end(bytes, pos) {
            Some(end) => Some((Some(pos as u32), end)),
            None => None,
        }
    }
}

/// The instruction that stands at `pos` in an image of `bytes`, or `None`
/// where the image ends before the instruction does.
///
/// The opcode's shape is looked up in `table`, where an absent opcode has
/// the plain shape. After the head come the operands, then the store byte
/// where the opcode stores or is one of those that have the byte anyway,
/// then the branch target where the opcode branches, then the inline text.
pub open spec fn instruction_at(
    bytes: Seq<u8>,
    pos: int,
    table: Map<u16, OpcodeDefinition>,
    globals: u16,
) -> Option<InstructionView> {
    match head_at(bytes, pos) {
        Some(head) => {
            let shape = shape_in(table, head.opcode);
            match operands_at(
                bytes,
                head.next,
                head.encodings,
                shape,
                globals,
                head.encodings.len() as int,
            ) {
                Some((operands, after_operands)) => match result_at(
                    bytes,
                    after_operands,
                    shape.stores || reads_result_anyway(head.opcode),
                ) {
                    Some((result, after_result)) => match branch_at(
                        bytes,
                        after_result,
                        shape.branches,
                    ) {
                        Some((branch, after_branch)) => match text_at(
                            bytes,
                            after_branch,
                            has_inline_text(head.opcode),
                        ) {
                            Some((text, next)) => Some(
                                InstructionView {
                                    addr: pos as u32,
                                    opcode: head.opcode,
                                    operands,
                                    result,
                                    stores: shape.stores,
                                    branch,
                                    branches: shape.branches && !shape.pauses_vm,
                                    text,
                                    next: next as u32,
                                    ends_block: shape.ends_block,
                                    pauses_vm: shape.pauses_vm,
                                },
                            ),
                            None => None,
                        },
                        None => None,
                    },
                    None => None,
                },
                None => None,
            }
        },
        None => None,
    }
}

/// Operands that lie within the image end within it, and not before they
/// start.
proof fn operands_lie_within(
    bytes: Seq<u8>,
    pos: int,
    encodings: Seq<OperandEncoding>,
    shape: OpcodeShape,
    globals: u16,
    count: int,
)
    requires
        operands_at(bytes, pos, encodings, shape, globals, count) is Some,
        pos <= bytes.len(),
    ensures
        pos <= operands_at(bytes, pos, encodings, shape, globals, count).unwrap().1 <= bytes.len(),
    decreases count,
{
    if count > 0 {
        operands_lie_within(bytes, pos, encodings, shape, globals, count - 1);
    }
}

/// Inline text ends within the image, behind the address at which it starts.
proof fn text_lies_within(bytes: Seq<u8>, pos: int)
    requires
        text_end(bytes, pos) is Some,
    ensures
        pos < text_end(bytes, pos).unwrap() <= bytes.len(),
    decreases bytes.len() - pos,
{
    if bytes[pos] < 128 {
        text_lies_within(bytes, pos + 2);
    }
}

/// Every instruction of an image that 32 bits can address starts at the
/// address it was looked for at, is at least one byte long and ends within
/// the image: decoding moves strictly forward, and never past the end.
pub proof fn instruction_lies_within(
    bytes: Seq<u8>,
    pos: int,
    table: Map<u16, OpcodeDefinition>,
    globals: u16,
)
    requires
        bytes.len() <= u32::MAX,
        instruction_at(bytes, pos, table, globals) is Some,
    ensures
        instruction_at(bytes, pos, table, globals).unwrap().addr == pos,
        pos < instruction_at(bytes, pos, table, globals).unwrap().next <= bytes.len(),
{
    let head = head_at(bytes, pos).unwrap();
    let shape = shape_in(table, head.opcode);
    let count = head.encodings.len() as int;
    operands_lie_within(bytes, head.next, head.encodings, shape, globals, count);
    let after_operands = operands_at(bytes, head.next, head.encodings, shape, globals, count).unwrap().1;
    let after_result = result_at(
        bytes,
        after_operands,
        shape.stores || reads_result_anyway(head.opcode),
    ).unwrap().1;
    let after_branch = branch_at(bytes, after_result, shape.branches).unwrap().1;
    if has_inline_text(head.opcode) {
        text_lies_within(bytes, after_branch);
    }
}

/// Appends the encodings that a byte of operand types lists.
fn get_operand_encodings(types: u8, encodings: &mut Vec<OperandEncoding>)
    ensures
        final(encodings)@ == old(encodings)@ + encodings_in(types),
{
    let ghost before = encodings@;
    let mut slot: u8 = 0;
    while slot < 4
        invariant
            slot <= 4,
            before == old(encodings)@,
            encodings_upto(types, slot as int).len() == slot,
            encodings@ == before + encodings_upto(types, slot as int),
        decreases 4 - slot,
    {
        let code = (types >> (6 - 2 * slot)) & 3;
        assert(code == type_code(types, slot as int)) by {
            assert((types >> 6u8) & 3 == types / 64) by (bit_vector);
            assert((types >> 4u8) & 3 == (types / 16) % 4) by (bit_vector);
            assert((types >> 2u8) & 3 == (types / 4) % 4) by (bit_vector);
            assert((types >> 0u8) & 3 == types % 4) by (bit_vector);
        }
        if code == 3 {
            assert(encodings_in(types) == encodings_upto(types, slot as int)) by {
                reveal_with_fuel(encodings_upto, 5);
            }
            return ;
        }
        let encoding = if code == 0 {
            OperandEncoding::LargeConstant
        } else if code == 1 {
            OperandEncoding::SmallConstant
        } else {
            OperandEncoding::Variable
        };
        encodings.push(encoding);
        assert(encodings_upto(types, slot + 1) == encodings_upto(types, slot as int).push(
            encoding,
        ));
        slot = slot + 1;
    }
}

/// Reads the head of an instruction: its opcode and the encodings of its
/// operands.
fn read_head(image: &mut Cursor<Box<[u8]>>) -> (read: Option<(u16, Vec<OperandEncoding>)>)
    ensures
        image_bytes(*final(image)) == image_bytes(*old(image)),
        image_position(*old(image)) <= image_position(*final(image)),
        image_position(*old(image)) <= image_bytes(*old(image)).len() ==> image_position(
            *final(image),
        ) <= image_bytes(*old(image)).len(),
        match head_at(image_bytes(*old(image)), image_position(*old(image)) as int) {
            Some(head) => {
                &&& read is Some
                &&& read.unwrap().0 == head.opcode
                &&& read.unwrap().1@ == head.encodings
                &&& image_position(*final(image)) == head.next
            },
            None => read is None,
        },
{
    let first = match take_u8(image) {
        Some(byte) => byte,
        None => {
            return None;
        },
    };
    let mut encodings: Vec<OperandEncoding> = Vec::new();
    if first < 128 {
        // Long form, two operands
        assert(first & 0x1f == first % 32) by (bit_vector);
        assert((first & 0x40 == 0) == ((first / 64) % 2 == 0)) by (bit_vector);
        assert((first & 0x20 == 0) == ((first / 32) % 2 == 0)) by (bit_vector);
        let opcode = (first & 0x1f) as u16;
        encodings.push(
            if first & 0x40 == 0 {
                OperandEncoding::SmallConstant
            } else {
                OperandEncoding::Variable
            },
        );
        encodings.push(
            if first & 0x20 == 0 {
                OperandEncoding::SmallConstant
            } else {
                OperandEncoding::Variable
            },
        );
        assert(encodings@ =~= seq![
            long_encoding((first / 64) % 2),
            long_encoding((first / 32) % 2),
        ]);
        Some((opcode, encodings))
    } else if first < 176 {
        // Short form, one operand
        assert(first & 0x8f == 128 + first % 16) by (bit_vector)
            requires
                128 <= first < 176,
        ;
        let opcode = (first & 0x8f) as u16;
        let types = (first << 2) | 0x3f;
        assert(types / 64 == (first / 16) % 4 && (types / 16) % 4 == 3 && (first / 16) % 4 != 3)
            by (bit_vector)
            requires
                types == (first << 2) | 0x3f,
                128 <= first < 176,
        ;
        get_operand_encodings(types, &mut encodings);
        assert(encodings@ =~= seq![encoding_of((first / 16) % 4)]) by {
            reveal_with_fuel(encodings_upto, 5);
        }
        Some((opcode, encodings))
    } else if first < 192 && first != 190 {
        // No operands
        Some((first as u16, encodings))
    } else {
        // Extended and variable forms
        let opcode: u16 = if first == 190 {
            match take_u8(image) {
                Some(byte) => 1000 + byte as u16,
                None => {
                    return None;
                },
            }
        } else if first < 224 {
            assert(first & 0x1f == first % 32) by (bit_vector);
            (first & 0x1f) as u16
        } else {
            first as u16
        };
        let types = match take_u8(image) {
            Some(byte) => byte,
            None => {
                return None;
            },
        };
        get_operand_encodings(types, &mut encodings);
        if opcode == 236 || opcode == 250 {
            let more_types = match take_u8(image) {
                Some(byte) => byte,
                None => {
                    return None;
                },
            };
            get_operand_encodings(more_types, &mut encodings);
        }
        assert(encodings@ =~= head_at(
            image_bytes(*old(image)),
            image_position(*old(image)) as int,
        ).unwrap().encodings);
        Some((opcode, encodings))
    }
}

/// Reads one operand with the given encoding and signedness.
fn read_operand(
    image: &mut Cursor<Box<[u8]>>,
    encoding: OperandEncoding,
    kind: OperandTypes,
    globals: u16,
) -> (read: Option<Operand>)
    ensures
        image_bytes(*final(image)) == image_bytes(*old(image)),
        image_position(*old(image)) <= image_position(*final(image)),
        image_position(*old(image)) <= image_bytes(*old(image)).len() ==> image_position(
            *final(image),
        ) <= image_bytes(*old(image)).len(),
        match operand_at(
            image_bytes(*old(image)),
            image_position(*old(image)) as int,
            encoding,
            kind,
            globals,
        ) {
            Some((operand, next)) => read == Some(operand) && image_position(*final(image))
                == next,
            None => read is None,
        },
{
    match encoding {
        OperandEncoding::LargeConstant => match kind {
            OperandTypes::Unsigned => match take_u16(image) {
                Some(value) => Some(Operand::Constant(value)),
                None => None,
            },
            OperandTypes::Signed => match take_i16(image) {
                Some(value) => Some(Operand::SignedConstant(value)),
                None => None,
            },
        },
        OperandEncoding::SmallConstant => match take_u8(image) {
            Some(byte) => match kind {
                OperandTypes::Unsigned => Some(Operand::Constant(byte as u16)),
                OperandTypes::Signed => Some(
                    Operand::SignedConstant(
                        if byte < 128 {
                            byte as i16
                        } else {
                            byte as i16 - 256
                        },
                    ),
                ),
            },
            None => None,
        },
        OperandEncoding::Variable => match take_u8(image) {
            Some(var) => {
                if var == 0 {
                    match kind {
                        OperandTypes::Unsigned => Some(Operand::StackPointer),
                        OperandTypes::Signed => Some(Operand::SignedStackPointer),
                    }
                } else if var < 16 {
                    match kind {
                        OperandTypes::Unsigned => Some(Operand::LocalVariable(var - 1)),
                        OperandTypes::Signed => Some(Operand::SignedLocalVariable(var - 1)),
                    }
                } else {
                    let addr = global_addr(globals, var);
                    match kind {
                        OperandTypes::Unsigned => Some(Operand::GlobalVariable(addr)),
                        OperandTypes::Signed => Some(Operand::SignedGlobalVariable(addr)),
                    }
                }
            },
            None => None,
        },
    }
}

/// The signedness that `definition` gives the operand at `index`.
fn operand_type(definition: &OpcodeDefinition, index: usize) -> (kind: OperandTypes)
    ensures
        kind == definition@.operand_type(index as int),
{
    match &definition.operands {
        Some(list) => if index < list.len() {
            list[index]
        } else {
            OperandTypes::Unsigned
        },
        None => OperandTypes::Unsigned,
    }
}

/// Reads the operands of an instruction, one for each encoding.
fn read_operands(
    image: &mut Cursor<Box<[u8]>>,
    encodings: &Vec<OperandEncoding>,
    definition: &OpcodeDefinition,
    globals: u16,
) -> (read: Option<Vec<Operand>>)
    ensures
        image_bytes(*final(image)) == image_bytes(*old(image)),
        image_position(*old(image)) <= image_position(*final(image)),
        image_position(*old(image)) <= image_bytes(*old(image)).len() ==> image_position(
            *final(image),
        ) <= image_bytes(*old(image)).len(),
        match operands_at(
            image_bytes(*old(image)),
            image_position(*old(image)) as int,
            encodings@,
            definition@,
            globals,
            encodings@.len() as int,
        ) {
            Some((operands, next)) => read is Some && read.unwrap()@ == operands
                && image_position(*final(image)) == next,
            None => read is None,
        },
{
    let ghost bytes = image_bytes(*image);
    let ghost start = image_position(*image) as int;
    let mut operands: Vec<Operand> = Vec::new();
    let mut index: usize = 0;
    while index < encodings.len()
        invariant
            index <= encodings.len(),
            image_bytes(*image) == bytes,
            bytes == image_bytes(*old(image)),
            start == image_position(*old(image)),
            start <= image_position(*image),
            start <= bytes.len() ==> image_position(*image) <= bytes.len(),
            operands_at(bytes, start, encodings@, definition@, globals, index as int) == Some(
                (operands@, image_position(*image) as int),
            ),
        decreases encodings.len() - index,
    {
        let kind = operand_type(definition, index);
        match read_operand(image, encodings[index], kind, globals) {
            Some(operand) => {
                operands.push(operand);
            },
            None => {
                assert(operands_at(
                    bytes,
                    start,
                    encodings@,
                    definition@,
                    globals,
                    encodings@.len() as int,
                ) is None) by {
                    operands_stay_none(
                        bytes,
                        start,
                        encodings@,
                        definition@,
                        globals,
                        index + 1,
                        encodings@.len() as int,
                    );
                }
                return None;
            },
        }
        index = index + 1;
    }
    Some(operands)
}

/// Once the image has ended within the first `count` operands, it has for
/// every larger count too.
proof fn operands_stay_none(
    bytes: Seq<u8>,
    pos: int,
    encodings: Seq<OperandEncoding>,
    shape: OpcodeShape,
    globals: u16,
    count: int,
    more: int,
)
    requires
        count <= more,
        operands_at(bytes, pos, encodings, shape, globals, count) is None,
    ensures
        operands_at(bytes, pos, encodings, shape, globals, more) is None,
    decreases more - count,
{
    if count < more {
        operands_stay_none(bytes, pos, encodings, shape, globals, count, more - 1);
    }
}

/// Reads the store byte, where the instruction has one.
fn read_result(image: &mut Cursor<Box<[u8]>>, wanted: bool) -> (read: Option<Option<u8>>)
    ensures
        image_bytes(*final(image)) == image_bytes(*old(image)),
        image_position(*old(image)) <= image_position(*final(image)),
        image_position(*old(image)) <= image_bytes(*old(image)).len() ==> image_position(
            *final(image),
        ) <= image_bytes(*old(image)).len(),
        match result_at(image_bytes(*old(image)), image_position(*old(image)) as int, wanted) {
            Some((result, next)) => read == Some(result) && image_position(*final(image))
                == next,
            None => read is None,
        },
{
    if wanted {
        match take_u8(image) {
            Some(byte) => Some(Some(byte)),
            None => None,
        }
    } else {
        Some(None)
    }
}

/// Reads the branch target, where the instruction has one.
fn read_branch(image: &mut Cursor<Box<[u8]>>, wanted: bool) -> (read: Option<
    Option<BranchTarget>,
>)
    ensures
        image_bytes(*final(image)) == image_bytes(*old(image)),
        image_position(*old(image)) <= image_position(*final(image)),
        image_position(*old(image)) <= image_bytes(*old(image)).len() ==> image_position(
            *final(image),
        ) <= image_bytes(*old(image)).len(),
        match branch_at(image_bytes(*old(image)), image_position(*old(image)) as int, wanted) {
            Some((branch, next)) => read == Some(branch) && image_position(*final(image))
                == next,
            None => read is None,
        },
{
    if !wanted {
        return Some(None);
    }
    let first = match take_u8(image) {
        Some(byte) => byte,
        None => {
            return None;
        },
    };
    assert((first & 0x80 != 0) == (first >= 128)) by (bit_vector);
    assert((first & 0x40 == 0) == ((first / 64) % 2 == 0)) by (bit_vector);
    assert(first & 0x3f == first % 64) by (bit_vector);
    let iftrue = first & 0x80 != 0;
    let two_bytes = first & 0x40 == 0;
    let offset: i16 = if two_bytes {
        let second = match take_u8(image) {
            Some(byte) => byte,
            None => {
                return None;
            },
        };
        let raw: u16 = (first & 0x3f) as u16 * 256 + second as u16;
        if raw < 8192 {
            raw as i16
        } else {
            (raw as i32 - 16384) as i16
        }
    } else {
        (first & 0x3f) as i16
    };
    Some(Some(BranchTarget { iftrue, offset }))
}

/// Skips the inline text, where the instruction has any, and returns the
/// address at which it starts.
fn read_text(image: &mut Cursor<Box<[u8]>>, wanted: bool) -> (read: Option<Option<u32>>)
    requires
        image_bytes(*old(image)).len() <= u32::MAX,
    ensures
        image_bytes(*final(image)) == image_bytes(*old(image)),
        image_position(*old(image)) <= image_position(*final(image)),
        image_position(*old(image)) <= image_bytes(*old(image)).len() ==> image_position(
            *final(image),
        ) <= image_bytes(*old(image)).len(),
        match text_at(image_bytes(*old(image)), image_position(*old(image)) as int, wanted) {
            Some((text, next)) => read == Some(text) && image_position(*final(image)) == next,
            None => read is None,
        },
{
    if !wanted {
        return Some(None);
    }
    let ghost bytes = image_bytes(*image);
    let start = cursor_position(image);
    loop
        invariant
            image_bytes(*image) == bytes,
            bytes == image_bytes(*old(image)),
            start == image_position(*old(image)),
            bytes.len() <= u32::MAX,
            wanted,
            start <= image_position(*image),
            start <= bytes.len() ==> image_position(*image) <= bytes.len(),
            text_end(bytes, image_position(*image) as int) == text_end(bytes, start as int),
        decreases bytes.len() + 2 - image_position(*image),
    {
        match take_u16(image) {
            Some(unit) => {
                assert((unit & 0x8000 != 0) == (unit >= 0x8000)) by (bit_vector);
                if unit & 0x8000 != 0 {
                    return Some(Some(start as u32));
                }
            },
            None => {
                return None;
            },
        }
    }
}

/// Reads the instruction at the cursor, which it leaves anywhere if the image
/// ends before the instruction does.
fn read_instruction(
    image: &mut Cursor<Box<[u8]>>,
    table: &FnvHashMap<u16, OpcodeDefinition>,
    globals: u16,
) -> (read: Option<Instruction>)
    requires
        image_bytes(*old(image)).len() <= u32::MAX,
    ensures
        image_bytes(*final(image)) == image_bytes(*old(image)),
        match instruction_at(
            image_bytes(*old(image)),
            image_position(*old(image)) as int,
            table@,
            globals,
        ) {
            Some(instruction) => read is Some && read.unwrap()@ == instruction
                && image_position(*final(image)) == instruction.next,
            None => read is None,
        },
        read is Some ==> {
            &&& read.unwrap().addr == image_position(*old(image))
            &&& read.unwrap().next == image_position(*final(image))
            &&& image_position(*old(image)) < image_position(*final(image))
                <= image_bytes(*old(image)).len()
        },
{
    let start = cursor_position(image);
    let (opcode, encodings) = match read_head(image) {
        Some(head) => head,
        None => {
            return None;
        },
    };
    let definition = lookup_definition(table, opcode);
    let operands = match read_operands(image, &encodings, &definition, globals) {
        Some(operands) => operands,
        None => {
            return None;
        },
    };
    let stores = definition.stores;
    let has_result = stores || opcode == 25 || opcode == 136 || opcode == 224 || opcode == 236
        || opcode == 1010;
    let result = match read_result(image, has_result) {
        Some(result) => result,
        None => {
            return None;
        },
    };
    let branch = match read_branch(image, definition.branches) {
        Some(branch) => branch,
        None => {
            return None;
        },
    };
    let text = match read_text(image, opcode == 178 || opcode == 179) {
        Some(text) => text,
        None => {
            return None;
        },
    };
    let next = cursor_position(image);
    Some(
        Instruction {
            addr: start as u32,
            opcode,
            operands,
            result,
            stores,
            branch,
            branches: definition.branches && !definition.pauses_vm,
            text,
            next: next as u32,
            ends_block: definition.ends_block,
            pauses_vm: definition.pauses_vm,
        },
    )
}

/// Disassembles the instruction at the cursor of the image.
///
/// Where an instruction stands there, it is returned and the cursor has
/// moved forward to the address behind it, by as many bytes as the
/// instruction has. Where the image ends before the instruction does, the
/// cursor stays where it was and the error names that address. The image's
/// bytes and the rest of the state are never changed.
pub fn disassemble_instruction(state: &mut ZVMState) -> (decoded: Result<
    Instruction,
    DecodeError,
>)
    requires
        old(state).wf(),
    ensures
        final(state).wf(),
        image_bytes(final(state).image) == image_bytes(old(state).image),
        final(state).version == old(state).version,
        final(state).globals_addr == old(state).globals_addr,
        final(state).unsafe_io == old(state).unsafe_io,
        final(state).opcode_definitions == old(state).opcode_definitions,
        final(state).functions == old(state).functions,
        match instruction_at(
            image_bytes(old(state).image),
            image_position(old(state).image) as int,
            old(state).opcode_definitions@,
            old(state).globals_addr,
        ) {
            Some(instruction) => {
                &&& decoded is Ok
                &&& decoded.unwrap()@ == instruction
                &&& instruction.addr == image_position(old(state).image)
                &&& instruction.next == image_position(final(state).image)
                &&& image_position(old(state).image) < image_position(final(state).image)
                    <= image_bytes(old(state).image).len()
            },
            None => {
                &&& decoded == Err::<Instruction, DecodeError>(
                    DecodeError::UnexpectedEnd { addr: image_position(old(state).image) },
                )
                &&& image_position(final(state).image) == image_position(old(state).image)
            },
        },
{
    let start = cursor_position(&state.image);
    match read_instruction(&mut state.image, &state.opcode_definitions, state.globals_addr) {
        Some(instruction) => Ok(instruction),
        None => {
            cursor_set_position(&mut state.image, start);
            Err(DecodeError::UnexpectedEnd { addr: start })
        },
    }
}

} // verus!
