//! The opcode table: what shape each opcode has in a given version of the
//! machine.
//!
//! `opcode_shape` is the table as a total function of version and opcode
//! number. `get_opcode_definitions` builds the sparse map that the decoder
//! consults. Its contract ties every lookup in that map, the fallback for
//! absent keys included, to `opcode_shape`, and says which keys the map
//! holds: those of the opcodes whose shape is not the plain one.

use super::ConfigError;
use fnv::FnvHashMap;
use vstd::prelude::*;

verus! {

/// `fnv::FnvHasher`, the hasher of an `FnvHashMap`, of which Verus is told
/// nothing but that it exists.
#[verifier::external_type_specification]
#[verifier::external_body]
pub struct ExFnvHasher(fnv::FnvHasher);

/// `std::hash::BuildHasherDefault`, which makes the hashers of an
/// `FnvHashMap`, of which Verus is told nothing but that it exists.
#[verifier::external_type_specification]
#[verifier::external_body]
#[verifier::reject_recursive_types(H)]
pub struct ExBuildHasherDefault<H>(std::hash::BuildHasherDefault<H>);

/// Whether an operand is read as an unsigned or as a signed 16-bit value.
#[derive(Clone, Copy, Debug, PartialEq, Eq, Structural)]
pub enum OperandTypes {
    Unsigned,
    Signed,
}

/// The shape of one opcode: which parts follow its operands in the
/// instruction stream, and how it ends.
#[derive(Clone, Debug)]
pub struct OpcodeDefinition {
    /// The instruction writes a result to a variable.
    pub stores: bool,
    /// The instruction is followed by a branch target.
    pub branches: bool,
    /// The instruction is the last of its basic block.
    pub ends_block: bool,
    /// The instruction hands control back to the host.
    pub pauses_vm: bool,
    /// The signedness of the leading operands; operands beyond the list, or
    /// all of them where there is no list, are unsigned.
    pub operands: Option<Vec<OperandTypes>>,
}

/// An opcode definition as a mathematical value.
pub struct OpcodeShape {
    pub stores: bool,
    pub branches: bool,
    pub ends_block: bool,
    pub pauses_vm: bool,
    pub operands: Option<Seq<OperandTypes>>,
}

impl View for OpcodeDefinition {
    type V = OpcodeShape;

    open spec fn view(&self) -> OpcodeShape {
        OpcodeShape {
            stores: self.stores,
            branches: self.branches,
            ends_block: self.ends_block,
            pauses_vm: self.pauses_vm,
            operands: match self.operands {
                Some(list) => Some(list@),
                None => None,
            },
        }
    }
}

impl OpcodeShape {
    /// A shape with the four flags as given and the operand list `operands`.
    pub open spec fn of(
        stores: bool,
        branches: bool,
        ends_block: bool,
        pauses_vm: bool,
        operands: Option<Seq<OperandTypes>>,
    ) -> OpcodeShape {
        OpcodeShape { stores, branches, ends_block, pauses_vm, operands }
    }

    /// The shape of an opcode that the table does not list: nothing stored,
    /// no branch, the block and the machine go on, every operand unsigned.
    pub open spec fn plain() -> OpcodeShape {
        OpcodeShape::of(false, false, false, false, None)
    }

    /// The signedness of the operand at `index`.
    pub open spec fn operand_type(self, index: int) -> OperandTypes {
        match self.operands {
            Some(list) => if 0 <= index < list.len() {
                list[index]
            } else {
                OperandTypes::Unsigned
            },
            None => OperandTypes::Unsigned,
        }
    }
}

/// The versions of the machine for which a table exists.
pub open spec fn supported_version(version: u8) -> bool {
    3 <= version <= 8
}

/// First operand unsigned, second signed.
pub open spec fn unsigned_signed() -> Seq<OperandTypes> {
    seq![OperandTypes::Unsigned, OperandTypes::Signed]
}

/// First and second operand signed.
pub open spec fn signed_signed() -> Seq<OperandTypes> {
    seq![OperandTypes::Signed, OperandTypes::Signed]
}

/// First operand signed.
pub open spec fn signed_only() -> Seq<OperandTypes> {
    seq![OperandTypes::Signed]
}

/// The shape of the opcodes that are the same in every version.
pub open spec fn common_shape(opcode: u16) -> OpcodeShape {
    if opcode == 1 || opcode == 6 || opcode == 7 || opcode == 10 || opcode == 128 || opcode == 189
        || opcode == 191 || opcode == 255 {
        // je, jin, test, test_attr, jz, verify, piracy, check_arg_count
        OpcodeShape::of(false, true, false, false, None)
    } else if opcode == 2 || opcode == 3 {
        // jl, jg
        OpcodeShape::of(false, true, false, false, Some(signed_signed()))
    } else if opcode == 4 || opcode == 5 {
        // dec_chk, inc_chk
        OpcodeShape::of(false, true, false, false, Some(unsigned_signed()))
    } else if opcode == 8 || opcode == 9 || opcode == 17 || opcode == 18 || opcode == 19 || opcode
        == 20 || opcode == 21 || opcode == 22 || opcode == 131 || opcode == 132 || opcode == 142
        || opcode == 248 || opcode == 1004 || opcode == 1009 || opcode == 1012 || opcode == 1030 {
        // or, and, get_prop, get_prop_addr, get_next_prop, add, sub, mul,
        // get_parent, get_prop_length, load, not, set_font, save_undo,
        // check_unicode, gestalt
        OpcodeShape::of(true, false, false, false, None)
    } else if opcode == 15 || opcode == 16 || opcode == 1002 {
        // loadw, loadb, log_shift
        OpcodeShape::of(true, false, false, false, Some(unsigned_signed()))
    } else if opcode == 23 || opcode == 24 || opcode == 1003 {
        // div, mod, art_shift
        OpcodeShape::of(true, false, false, false, Some(signed_signed()))
    } else if opcode == 231 {
        // random
        OpcodeShape::of(true, false, false, false, Some(signed_only()))
    } else if opcode == 25 || opcode == 26 || opcode == 28 || opcode == 136 || opcode == 139
        || opcode == 176 || opcode == 177 || opcode == 179 || opcode == 183 || opcode == 184
        || opcode == 224 || opcode == 236 || opcode == 243 || opcode == 249 || opcode == 250 {
        // call_2s, call_2n, throw, call_1s, ret, rtrue, rfalse, print_ret,
        // restart, ret_popped, call_vs, call_vs2, output_stream, call_vn,
        // call_vn2
        OpcodeShape::of(false, false, true, false, None)
    } else if opcode == 140 {
        // jump
        OpcodeShape::of(false, false, true, false, Some(signed_only()))
    } else if opcode == 129 || opcode == 130 || opcode == 247 {
        // get_sibling, get_child, scan_table
        OpcodeShape::of(true, true, false, false, None)
    } else if opcode == 186 || opcode == 244 {
        // quit, input_stream
        OpcodeShape::of(false, false, true, true, None)
    } else if opcode == 225 || opcode == 226 {
        // storew, storeb
        OpcodeShape::of(false, false, false, false, Some(unsigned_signed()))
    } else if opcode == 230 || opcode == 237 {
        // print_num, erase_window
        OpcodeShape::of(false, false, false, false, Some(signed_only()))
    } else if opcode == 246 || opcode == 1000 || opcode == 1001 {
        // read_char, and save and restore in their extended form
        OpcodeShape::of(true, false, true, true, None)
    } else {
        OpcodeShape::plain()
    }
}

/// Whether `opcode` is one of those with a shape of its own in every version.
pub open spec fn is_listed(opcode: u16) -> bool {
    common_shape(opcode) != OpcodeShape::plain()
}

/// The opcode table: the shape of `opcode` in `version` of the machine.
///
/// Five opcode numbers change with the version. `save` and `restore` (181,
/// 182) branch below version 4 and store from version 4 on, and suspend the
/// machine either way. `show_status` (188) suspends it below version 4 and is
/// not listed from then on. 143 is `not` below version 5, with no listed
/// shape, and the call `call_1n` from version 5 on. 185 is `pop` below
/// version 5 and the storing `catch` from then on. `read` (228) suspends
/// without storing below version 5 and stores from version 5 on.
pub open spec fn opcode_shape(version: u8, opcode: u16) -> OpcodeShape {
    if opcode == 181 || opcode == 182 {
        if version < 4 {
            OpcodeShape::of(false, true, true, true, None)
        } else {
            OpcodeShape::of(true, false, true, true, None)
        }
    } else if opcode == 188 {
        if version < 4 {
            OpcodeShape::of(false, false, true, true, None)
        } else {
            OpcodeShape::plain()
        }
    } else if opcode == 143 {
        if version < 5 {
            OpcodeShape::plain()
        } else {
            OpcodeShape::of(false, false, true, false, None)
        }
    } else if opcode == 185 {
        if version < 5 {
            OpcodeShape::plain()
        } else {
            OpcodeShape::of(true, false, false, false, None)
        }
    } else if opcode == 228 {
        if version < 5 {
            OpcodeShape::of(false, false, true, true, None)
        } else {
            OpcodeShape::of(true, false, true, true, None)
        }
    } else {
        common_shape(opcode)
    }
}

/// What a lookup of `opcode` in the sparse map `table` yields: the entry, or
/// the plain shape where there is none.
pub open spec fn shape_in(table: Map<u16, OpcodeDefinition>, opcode: u16) -> OpcodeShape {
    if table.dom().contains(opcode) {
        table[opcode]@
    } else {
        OpcodeShape::plain()
    }
}

/// Whether every lookup in `table` yields what the opcode table of `version`
/// says.
pub open spec fn is_table_of(table: Map<u16, OpcodeDefinition>, version: u8) -> bool {
    forall|opcode: u16| #[trigger] shape_in(table, opcode) == opcode_shape(version, opcode)
}

/// Whether `table` has an entry for exactly the opcodes that the opcode table
/// of `version` gives a shape other than the plain one.
pub open spec fn has_keys_of(table: Map<u16, OpcodeDefinition>, version: u8) -> bool {
    forall|opcode: u16| #[trigger]
        table.dom().contains(opcode) <==> opcode_shape(version, opcode) != OpcodeShape::plain()
}

/// Whether the shape of `opcode` depends on the version: that of `not` and
/// `call_1n` (143), `save` (181), `restore` (182), `pop` and `catch` (185),
/// `show_status` (188) and `read` (228) does.
pub open spec fn is_versioned(opcode: u16) -> bool {
    opcode == 143 || opcode == 181 || opcode == 182 || opcode == 185 || opcode == 188 || opcode
        == 228
}

/// Only six opcodes depend on the version: every other opcode has the same
/// shape in any two versions. Opcode 143 is one of the six: it never stores,
/// and it ends the block from version 5 on and not before, while nothing
/// else of its shape changes.
pub proof fn version_sensitivity(first: u8, second: u8, opcode: u16)
    ensures
        !is_versioned(opcode) ==> opcode_shape(first, opcode) == opcode_shape(second, opcode),
        !opcode_shape(first, 143).stores,
        opcode_shape(first, 143).ends_block <==> first >= 5,
        opcode_shape(first, 143) == OpcodeShape::of(false, false, first >= 5, false, None),
{
}

/// Two maps that hold the opcode table of one version have the same keys,
/// and under each key definitions with the same flags and the same list of
/// operand types: the table is a function of the version alone.
pub proof fn tables_of_a_version_agree(
    first: Map<u16, OpcodeDefinition>,
    second: Map<u16, OpcodeDefinition>,
    version: u8,
)
    requires
        is_table_of(first, version),
        has_keys_of(first, version),
        is_table_of(second, version),
        has_keys_of(second, version),
    ensures
        first.dom() == second.dom(),
        forall|opcode: u16| #[trigger]
            first.dom().contains(opcode) ==> first[opcode]@ == second[opcode]@,
{
    assert forall|opcode: u16| first.dom().contains(opcode) == second.dom().contains(opcode) by {
        assert(first.dom().contains(opcode) <==> opcode_shape(version, opcode)
            != OpcodeShape::plain());
        assert(second.dom().contains(opcode) <==> opcode_shape(version, opcode)
            != OpcodeShape::plain());
    }
    assert(first.dom() =~= second.dom());
    assert forall|opcode: u16| #[trigger] first.dom().contains(opcode) implies first[opcode]@
        == second[opcode]@ by {
        assert(shape_in(first, opcode) == opcode_shape(version, opcode));
        assert(shape_in(second, opcode) == opcode_shape(version, opcode));
        assert(second.dom().contains(opcode));
    }
}

pub fn simple_operands(operands: Vec<OperandTypes>) -> (definition: OpcodeDefinition)
    ensures
        definition@ == OpcodeShape::of(false, false, false, false, Some(operands@)),
{
    OpcodeDefinition {
        stores: false,
        branches: false,
        ends_block: false,
        pauses_vm: false,
        operands: Some(operands),
    }
}

pub fn end_block() -> (definition: OpcodeDefinition)
    ensures
        definition@ == OpcodeShape::of(false, false, true, false, None),
{
    OpcodeDefinition {
        stores: false,
        branches: false,
        ends_block: true,
        pauses_vm: false,
        operands: None,
    }
}

pub fn pause_vm() -> (definition: OpcodeDefinition)
    ensures
        definition@ == OpcodeShape::of(false, false, true, true, None),
{
    OpcodeDefinition {
        stores: false,
        branches: false,
        ends_block: true,
        pauses_vm: true,
        operands: None,
    }
}

pub fn branch() -> (definition: OpcodeDefinition)
    ensures
        definition@ == OpcodeShape::of(false, true, false, false, None),
{
    OpcodeDefinition {
        stores: false,
        branches: true,
        ends_block: false,
        pauses_vm: false,
        operands: None,
    }
}

pub fn branch_and_pause_vm() -> (definition: OpcodeDefinition)
    ensures
        definition@ == OpcodeShape::of(false, true, true, true, None),
{
    OpcodeDefinition {
        stores: false,
        branches: true,
        ends_block: true,
        pauses_vm: true,
        operands: None,
    }
}

pub fn branch_with_operands(operands: Vec<OperandTypes>) -> (definition: OpcodeDefinition)
    ensures
        definition@ == OpcodeShape::of(false, true, false, false, Some(operands@)),
{
    OpcodeDefinition {
        stores: false,
        branches: true,
        ends_block: false,
        pauses_vm: false,
        operands: Some(operands),
    }
}

pub fn store() -> (definition: OpcodeDefinition)
    ensures
        definition@ == OpcodeShape::of(true, false, false, false, None),
{
    OpcodeDefinition {
        stores: true,
        branches: false,
        ends_block: false,
        pauses_vm: false,
        operands: None,
    }
}

pub fn store_with_operands(operands: Vec<OperandTypes>) -> (definition: OpcodeDefinition)
    ensures
        definition@ == OpcodeShape::of(true, false, false, false, Some(operands@)),
{
    OpcodeDefinition {
        stores: true,
        branches: false,
        ends_block: false,
        pauses_vm: false,
        operands: Some(operands),
    }
}

pub fn store_and_branch() -> (definition: OpcodeDefinition)
    ensures
        definition@ == OpcodeShape::of(true, true, false, false, None),
{
    OpcodeDefinition {
        stores: true,
        branches: true,
        ends_block: false,
        pauses_vm: false,
        operands: None,
    }
}

pub fn store_and_pause_vm() -> (definition: OpcodeDefinition)
    ensures
        definition@ == OpcodeShape::of(true, false, true, true, None),
{
    OpcodeDefinition {
        stores: true,
        branches: false,
        ends_block: true,
        pauses_vm: true,
        operands: None,
    }
}

/// `FnvHashMap::default`: a map without entries.
#[verifier::external_body]
pub(crate) fn fnv_map_new<K, V>() -> (map: FnvHashMap<K, V>)
    ensures
        map@.dom() == Set::<K>::empty(),
{
    FnvHashMap::default()
}

/// `HashMap::insert`: afterwards `opcode` maps to `definition`, and every
/// other key to what it mapped to before.
#[verifier::external_body]
fn table_insert(
    table: &mut FnvHashMap<u16, OpcodeDefinition>,
    opcode: u16,
    definition: OpcodeDefinition,
)
    ensures
        final(table)@ == old(table)@.insert(opcode, definition),
{
    table.insert(opcode, definition);
}

/// `HashMap::get`: the entry under `opcode`, if the map has one.
#[verifier::external_body]
fn table_get(table: &FnvHashMap<u16, OpcodeDefinition>, opcode: u16) -> (entry: Option<
    &OpcodeDefinition,
>)
    ensures
        entry.is_some() == table@.dom().contains(opcode),
        entry.is_some() ==> *entry.unwrap() == table@[opcode],
{
    table.get(&opcode)
}

/// The operand list of an opcode that reads its first operand unsigned and
/// its second signed.
fn second_signed() -> (list: Vec<OperandTypes>)
    ensures
        list@ == unsigned_signed(),
{
    let list = vec![OperandTypes::Unsigned, OperandTypes::Signed];
    assert(list@ =~= unsigned_signed());
    list
}

/// The operand list of an opcode that reads its first two operands signed.
fn both_signed() -> (list: Vec<OperandTypes>)
    ensures
        list@ == signed_signed(),
{
    let list = vec![OperandTypes::Signed, OperandTypes::Signed];
    assert(list@ =~= signed_signed());
    list
}

/// The operand list of an opcode that reads its first operand signed.
fn first_signed() -> (list: Vec<OperandTypes>)
    ensures
        list@ == signed_only(),
{
    let list = vec![OperandTypes::Signed];
    assert(list@ =~= signed_only());
    list
}

/// Enters the two-operand opcodes, 1 to 28.
fn insert_two_operand(table: &mut FnvHashMap<u16, OpcodeDefinition>)
    ensures
        forall|opcode: u16| #[trigger]
            shape_in(final(table)@, opcode) == if 1 <= opcode <= 28 && is_listed(opcode) {
                common_shape(opcode)
            } else {
                shape_in(old(table)@, opcode)
            },
        forall|opcode: u16| #[trigger]
            final(table)@.dom().contains(opcode) <==> old(table)@.dom().contains(opcode) || (1 <= opcode <= 28 && is_listed(opcode)),
{
    /* je */
    table_insert(table, 1, branch());
    /* jl */
    table_insert(table, 2, branch_with_operands(both_signed()));
    /* jg */
    table_insert(table, 3, branch_with_operands(both_signed()));
    /* dec_chk */
    table_insert(
        table,
        4,
        branch_with_operands(second_signed()),
    );
    /* inc_chk */
    table_insert(
        table,
        5,
        branch_with_operands(second_signed()),
    );
    /* jin */
    table_insert(table, 6, branch());
    /* test */
    table_insert(table, 7, branch());
    /* or */
    table_insert(table, 8, store());
    /* and */
    table_insert(table, 9, store());
    /* test_attr */
    table_insert(table, 10, branch());
    /* loadw */
    table_insert(table, 15, store_with_operands(second_signed()));
    /* loadb */
    table_insert(table, 16, store_with_operands(second_signed()));
    /* get_prop */
    table_insert(table, 17, store());
    /* get_prop_addr */
    table_insert(table, 18, store());
    /* get_next_prop */
    table_insert(table, 19, store());
    /* add */
    table_insert(table, 20, store());
    /* sub */
    table_insert(table, 21, store());
    /* mul */
    table_insert(table, 22, store());
    /* div */
    table_insert(table, 23, store_with_operands(both_signed()));
    /* mod */
    table_insert(table, 24, store_with_operands(both_signed()));
    /* call_2s */
    table_insert(table, 25, end_block());
    /* call_2n */
    table_insert(table, 26, end_block());
    /* throw */
    table_insert(table, 28, end_block());
}

/// Enters the one-operand and no-operand opcodes that every version has,
/// 128 to 191.
fn insert_short(table: &mut FnvHashMap<u16, OpcodeDefinition>)
    ensures
        forall|opcode: u16| #[trigger]
            shape_in(final(table)@, opcode) == if 128 <= opcode <= 191 && is_listed(opcode) {
                common_shape(opcode)
            } else {
                shape_in(old(table)@, opcode)
            },
        forall|opcode: u16| #[trigger]
            final(table)@.dom().contains(opcode) <==> old(table)@.dom().contains(opcode) || (128 <= opcode <= 191 && is_listed(opcode)),
{
    /* jz */
    table_insert(table, 128, branch());
    /* get_sibling */
    table_insert(table, 129, store_and_branch());
    /* get_child */
    table_insert(table, 130, store_and_branch());
    /* get_parent */
    table_insert(table, 131, store());
    /* get_prop_length */
    table_insert(table, 132, store());
    /* call_1s */
    table_insert(table, 136, end_block());
    /* ret */
    table_insert(table, 139, end_block());
    /* jump */
    table_insert(
        table,
        140,
        OpcodeDefinition {
            stores: false,
            branches: false,
            ends_block: true,
            pauses_vm: false,
            operands: Some(first_signed()),
        },
    );
    /* load */
    table_insert(table, 142, store());
    /* rtrue */
    table_insert(table, 176, end_block());
    /* rfalse */
    table_insert(table, 177, end_block());
    /* print_ret */
    table_insert(table, 179, end_block());
    /* restart */
    table_insert(table, 183, end_block());
    /* ret_popped */
    table_insert(table, 184, end_block());
    /* quit */
    table_insert(table, 186, pause_vm());
    /* verify */
    table_insert(table, 189, branch());
    /* piracy */
    table_insert(table, 191, branch());
}

/// Enters the variable-operand opcodes, 224 to 255.
fn insert_variable(table: &mut FnvHashMap<u16, OpcodeDefinition>)
    ensures
        forall|opcode: u16| #[trigger]
            shape_in(final(table)@, opcode) == if 224 <= opcode <= 255 && is_listed(opcode) {
                common_shape(opcode)
            } else {
                shape_in(old(table)@, opcode)
            },
        forall|opcode: u16| #[trigger]
            final(table)@.dom().contains(opcode) <==> old(table)@.dom().contains(opcode) || (224 <= opcode <= 255 && is_listed(opcode)),
{
    /* call_vs */
    table_insert(table, 224, end_block());
    /* storew */
    table_insert(table, 225, simple_operands(second_signed()));
    /* storeb */
    table_insert(table, 226, simple_operands(second_signed()));
    /* print_num */
    table_insert(table, 230, simple_operands(first_signed()));
    /* random */
    table_insert(table, 231, store_with_operands(first_signed()));
    /* call_vs2 */
    table_insert(table, 236, end_block());
    /* erase_window */
    table_insert(table, 237, simple_operands(first_signed()));
    /* output_stream */
    table_insert(table, 243, end_block());
    /* input_stream */
    table_insert(table, 244, pause_vm());
    /* read_char */
    table_insert(table, 246, store_and_pause_vm());
    /* scan_table */
    table_insert(table, 247, store_and_branch());
    /* not */
    table_insert(table, 248, store());
    /* call_vn */
    table_insert(table, 249, end_block());
    /* call_vn2 */
    table_insert(table, 250, end_block());
    /* check_arg_count */
    table_insert(table, 255, branch());
}

/// Enters the extended opcodes, numbered from 1000.
fn insert_extended(table: &mut FnvHashMap<u16, OpcodeDefinition>)
    ensures
        forall|opcode: u16| #[trigger]
            shape_in(final(table)@, opcode) == if 1000 <= opcode && is_listed(opcode) {
                common_shape(opcode)
            } else {
                shape_in(old(table)@, opcode)
            },
        forall|opcode: u16| #[trigger]
            final(table)@.dom().contains(opcode) <==> old(table)@.dom().contains(opcode) || (1000 <= opcode && is_listed(opcode)),
{
    /* save */
    table_insert(table, 1000, store_and_pause_vm());
    /* restore */
    table_insert(table, 1001, store_and_pause_vm());
    /* log_shift */
    table_insert(table, 1002, store_with_operands(second_signed()));
    /* art_shift */
    table_insert(table, 1003, store_with_operands(both_signed()));
    /* set_font */
    table_insert(table, 1004, store());
    /* save_undo */
    table_insert(table, 1009, store());
    /* check_unicode */
    table_insert(table, 1012, store());
    /* gestalt */
    table_insert(table, 1030, store());
}

/// Enters the opcodes whose shape depends on the version.
fn insert_versioned(table: &mut FnvHashMap<u16, OpcodeDefinition>, version: u8)
    ensures
        forall|opcode: u16| #[trigger]
            shape_in(final(table)@, opcode) == if opcode == 181 || opcode == 182 || (opcode == 188
                && version < 4) || ((opcode == 143 || opcode == 185) && version >= 5) || opcode
                == 228 {
                opcode_shape(version, opcode)
            } else {
                shape_in(old(table)@, opcode)
            },
        forall|opcode: u16| #[trigger]
            final(table)@.dom().contains(opcode) <==> old(table)@.dom().contains(opcode) || (is_versioned(opcode) && opcode_shape(version, opcode) != OpcodeShape::plain()),
{
    if version < 4 {
        /* save */
        table_insert(table, 181, branch_and_pause_vm());
        /* restore */
        table_insert(table, 182, branch_and_pause_vm());
        /* show_status */
        table_insert(table, 188, pause_vm());
    } else {
        /* save */
        table_insert(table, 181, store_and_pause_vm());
        /* restore */
        table_insert(table, 182, store_and_pause_vm());
    }
    if version < 5 {
        /* read */
        table_insert(table, 228, pause_vm());
    } else {
        /* call_1n */
        table_insert(table, 143, end_block());
        /* catch */
        table_insert(table, 185, store());
        /* read */
        table_insert(table, 228, store_and_pause_vm());
    }
}

/// Builds the opcode table of `version`, as a sparse map in which an absent
/// opcode stands for the plain shape.
///
/// Versions 3 to 8 have a table; any other version is refused. The map has
/// an entry for each opcode whose shape is not the plain one, and for no
/// other.
pub fn get_opcode_definitions(version: u8) -> (built: Result<
    FnvHashMap<u16, OpcodeDefinition>,
    ConfigError,
>)
    ensures
        match built {
            Ok(table) => supported_version(version) && is_table_of(table@, version)
                && has_keys_of(table@, version),
            Err(error) => !supported_version(version) && error == (ConfigError::UnsupportedVersion {
                version,
            }),
        },
{
    if version < 3 || version > 8 {
        return Err(ConfigError::UnsupportedVersion { version });
    }
    let mut map = fnv_map_new();
    insert_two_operand(&mut map);
    insert_short(&mut map);
    insert_variable(&mut map);
    insert_extended(&mut map);
    insert_versioned(&mut map, version);
    Ok(map)
}

/// The definition of `opcode` in `table`, with the plain definition where
/// the table has no entry.
pub fn lookup_definition(table: &FnvHashMap<u16, OpcodeDefinition>, opcode: u16) -> (definition:
    OpcodeDefinition)
    ensures
        definition@ == shape_in(table@, opcode),
{
    match table_get(table, opcode) {
        Some(entry) => OpcodeDefinition {
            stores: entry.stores,
            branches: entry.branches,
            ends_block: entry.ends_block,
            pauses_vm: entry.pauses_vm,
            operands: match &entry.operands {
                Some(list) => Some(copy_types(list)),
                None => None,
            },
        },
        None => OpcodeDefinition {
            stores: false,
            branches: false,
            ends_block: false,
            pauses_vm: false,
            operands: None,
        },
    }
}

/// A copy of a list of operand types.
fn copy_types(list: &Vec<OperandTypes>) -> (copy: Vec<OperandTypes>)
    ensures
        copy@ == list@,
{
    let mut copy: Vec<OperandTypes> = Vec::new();
    let mut index: usize = 0;
    while index < list.len()
        invariant
            index <= list.len(),
            copy@ == list@.subrange(0, index as int),
        decreases list.len() - index,
    {
        copy.push(list[index]);
        index = index + 1;
    }
    copy
}

} // verus!
