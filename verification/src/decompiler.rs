//! The decompiler as the interpreter uses it: it owns the image, which the
//! interpreter fills, and hands out the code of one block at a time.

use crate::codegen_zvm::{block_at, block_prefix, output_block, DecompileError};
use crate::zvm::image::{cursor_bytes_mut, cursor_new, image_bytes, image_position, into_boxed};
use crate::zvm::opcodes::{has_keys_of, is_table_of, supported_version, OpcodeDefinition};
use crate::zvm::{ConfigError, ZVMState};
use vstd::prelude::*;

verus! {

/// What decompiling a function or a block gives.
#[derive(Clone, Debug)]
pub struct DecompilationResult {
    /// The address of the function, or of the block.
    pub addr: u32,
    /// The generated code.
    pub code: String,
    /// The functions of unsettled safety that this one calls.
    pub calls: Vec<u32>,
    /// The number of local variables.
    pub locals: u32,
    /// Whether the function is safe.
    pub safe: bool,
}

impl DecompilationResult {
    /// The generated code.
    pub fn code(&self) -> (code: String)
        ensures
            code@ == self.code@,
    {
        self.code.clone()
    }

    /// The functions of unsettled safety that this one calls.
    pub fn calls(&self) -> (calls: &Vec<u32>)
        ensures
            calls@ == self.calls@,
    {
        &self.calls
    }
}

/// A decompiler for one story file.
pub struct ZVMDecompiler {
    state: ZVMState,
}

impl ZVMDecompiler {
    /// Every address of the image fits in 32 bits. A decompiler that `new`
    /// has made is well formed, and stays so.
    pub closed spec fn wf(&self) -> bool {
        self.state.wf()
    }

    /// The bytes of the image.
    pub closed spec fn image(&self) -> Seq<u8> {
        image_bytes(self.state.image)
    }

    /// The address at which the cursor of the image stands.
    pub closed spec fn position(&self) -> u64 {
        image_position(self.state.image)
    }

    /// The version of the machine.
    pub closed spec fn version(&self) -> u8 {
        self.state.version
    }

    /// The address of the globals.
    pub closed spec fn globals_addr(&self) -> u16 {
        self.state.globals_addr
    }

    /// The flag that says whether input and output may be treated as unsafe.
    pub closed spec fn unsafe_io(&self) -> bool {
        self.state.unsafe_io
    }

    /// The table of opcodes, as the sparse map that it is kept in.
    pub closed spec fn table(&self) -> Map<u16, OpcodeDefinition> {
        self.state.opcode_definitions@
    }

    /// Whether the table of opcodes is the one of the version, in its
    /// lookups and in its keys.
    pub open spec fn has_table(&self) -> bool {
        is_table_of(self.table(), self.version()) && has_keys_of(self.table(), self.version())
    }

    /// The address behind the block at `addr`, at which `fragment` leaves
    /// the cursor; where there is no such block, `addr` itself.
    pub open spec fn block_end(&self, addr: u32) -> int {
        match block_at(
            self.image(),
            addr as int,
            self.table(),
            self.version(),
            self.globals_addr(),
        ) {
            Ok((lines, end)) => end,
            Err(error) => addr as int,
        }
    }

    /// The text of the block at `addr`, which `fragment` returns as code:
    /// the declaration of the registers, then the lines of the block.
    pub open spec fn block(&self, addr: u32) -> Result<Seq<char>, DecompileError> {
        match block_at(
            self.image(),
            addr as int,
            self.table(),
            self.version(),
            self.globals_addr(),
        ) {
            Ok((lines, end)) => Ok(block_prefix() + lines),
            Err(error) => Err(error),
        }
    }

    /// A decompiler with an image of `image_length` zero bytes and the cursor
    /// at its start, for `version` of the machine, whose globals lie at
    /// `globals_addr`. Only a version without an opcode table is refused.
    pub fn new(image_length: u32, version: u8, globals_addr: u16, unsafe_io: bool) -> (made: Result<
        ZVMDecompiler,
        ConfigError,
    >)
        ensures
            match made {
                Ok(decompiler) => {
                    &&& decompiler.wf()
                    &&& supported_version(version)
                    &&& decompiler.image() == Seq::new(image_length as nat, |i: int| 0u8)
                    &&& decompiler.position() == 0
                    &&& decompiler.version() == version
                    &&& decompiler.globals_addr() == globals_addr
                    &&& decompiler.unsafe_io() == unsafe_io
                    &&& decompiler.has_table()
                },
                Err(error) => !supported_version(version) && error
                    == (ConfigError::UnsupportedVersion { version }),
            },
    {
        let image = vec![0u8; image_length as usize];
        assert(image@ =~= Seq::new(image_length as nat, |i: int| 0u8));
        let cursor = cursor_new(into_boxed(image));
        match ZVMState::new(cursor, version, globals_addr, unsafe_io) {
            Ok(state) => Ok(ZVMDecompiler { state }),
            Err(error) => Err(error),
        }
    }

    /// Whether the decompiler is well formed.
    pub fn is_wf(&self) -> (ok: bool)
        ensures
            ok == self.wf(),
    {
        self.state.is_wf()
    }

    /// The image, for the interpreter to write the story file into before it
    /// asks for code.
    pub fn image_mut(&mut self) -> (bytes: &mut [u8])
        requires
            old(self).wf(),
        ensures
            final(self).wf(),
            bytes@ == old(self).image(),
            final(bytes)@.len() == bytes@.len(),
            final(self).image() == final(bytes)@,
            final(self).position() == old(self).position(),
            final(self).version() == old(self).version(),
            final(self).globals_addr() == old(self).globals_addr(),
            final(self).unsafe_io() == old(self).unsafe_io(),
            final(self).table() == old(self).table(),
    {
        cursor_bytes_mut(&mut self.state.image)
    }

    /// The code of the block at `addr`.
    pub fn fragment(&mut self, addr: u32) -> (made: Result<DecompilationResult, DecompileError>)
        requires
            old(self).wf(),
        ensures
            final(self).wf(),
            final(self).image() == old(self).image(),
            final(self).version() == old(self).version(),
            final(self).globals_addr() == old(self).globals_addr(),
            final(self).unsafe_io() == old(self).unsafe_io(),
            final(self).table() == old(self).table(),
            final(self).position() == old(self).block_end(addr),
            match old(self).block(addr) {
                Ok(text) => {
                    &&& made is Ok
                    &&& made.unwrap().addr == addr
                    &&& made.unwrap().code@ == text
                    &&& made.unwrap().calls@ == Seq::<u32>::empty()
                    &&& made.unwrap().locals == 0
                    &&& !made.unwrap().safe
                },
                Err(error) => made == Err::<DecompilationResult, DecompileError>(error),
            },
    {
        match output_block(&mut self.state, addr) {
            Ok(code) => Ok(
                DecompilationResult { addr, code, calls: Vec::new(), locals: 0, safe: false },
            ),
            Err(error) => Err(error),
        }
    }
}

} // verus!
