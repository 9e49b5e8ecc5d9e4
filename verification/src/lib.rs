//! Calling conventions of the RP2040 boot ROM's function lookup.
//!
//! The RP2040's immutable boot ROM publishes no symbol table. Instead it
//! stores, at two fixed byte offsets, 16-bit pointers to (a) a table that
//! pairs two-character function codes with function addresses and (b) a
//! helper routine that scans that table for a given key. A caller packs a
//! two-character code into a 32-bit key, resolves the two pointers, and
//! invokes the helper with the table pointer and the key to obtain the
//! address of the named routine.
//!
//! This crate states and verifies the software side of that protocol: the
//! key packing, the fixed offsets, and the lookup as the datasheet
//! documents it, modelled over [`RomImage`], an in-memory copy of the ROM
//! region. The raw memory reads and the call through a transmuted function
//! pointer that the protocol ends in can only happen on the target
//! hardware and live outside this library.

use vstd::prelude::*;

verus! {

/// Byte offset of the 16-bit pointer to the ROM's public function table
/// (`rom_func_table` in the datasheet).
pub const BOOTROM_FUNC_TABLE_OFFSET: u16 = 0x14;

/// Byte offset of the 16-bit pointer to the ROM's lookup helper
/// (`rom_table_lookup()` in the datasheet).
pub const BOOTROM_TABLE_LOOKUP_OFFSET: u16 = 0x18;

/// The address the lookup reports when the table holds no entry for a key.
pub const ROM_TABLE_NOT_FOUND: u16 = 0;

/// The 32-bit lookup key for a two-character function code: the first
/// character in the low byte, the second in the byte above it.
pub open spec fn spec_table_code(c1: u8, c2: u8) -> u32 {
    (c1 as u32) | ((c2 as u32) << 8)
}

/// Entry points of the boot ROM.
pub struct ROM {}

impl ROM {
    /// The lookup key for a function's two-character code.
    ///
    /// The table stores 16-bit codes, but the lookup helper takes the key
    /// as a `u32`, so the key is built at that width.
    pub fn rom_table_code(c1: u8, c2: u8) -> (code: u32)
        ensures
            code == spec_table_code(c1, c2),
    {
        (c1 as u32) | ((c2 as u32) << 8)
    }
}

/// Key packing is exact: the first character occupies the low byte of the
/// key and the second the byte above it, so the key equals
/// `c1 + 0x100 * c2` and the two characters can be read back from it.
pub proof fn lemma_table_code_packs_low_byte_first(c1: u8, c2: u8)
    ensures
        spec_table_code(c1, c2) == c1 + 0x100 * (c2 as u32),
        spec_table_code(c1, c2) % 0x100 == c1,
        spec_table_code(c1, c2) / 0x100 == c2,
{
    let a = c1 as u32;
    let b = c2 as u32;
    assert(a | (b << 8) == a + 0x100 * b
        && (a | (b << 8)) % 0x100 == a
        && (a | (b << 8)) / 0x100 == b) by (bit_vector)
        requires
            a < 0x100,
            b < 0x100,
    ;
}

/// The two published offsets are the datasheet's fixed values; nothing
/// computes them at run time.
pub proof fn lemma_offsets_match_datasheet()
    ensures
        BOOTROM_FUNC_TABLE_OFFSET == 0x14,
        BOOTROM_TABLE_LOOKUP_OFFSET == 0x18,
{
}

/// The 16-bit value stored little-endian at byte address `addr` of a ROM
/// image.
pub open spec fn spec_hword(rom: Seq<u8>, addr: int) -> u16
    recommends
        0 <= addr,
        addr + 2 <= rom.len(),
{
    (rom[addr] + 0x100 * rom[addr + 1]) as u16
}

/// What the ROM's lookup helper returns: starting at byte address `addr`,
/// scan `(code, address)` halfword pairs. A zero code marks the end of the
/// table (not found); a code equal to the key yields the paired address. A
/// scan that would run past the image's bytes also reports not found: the
/// lookup never reads outside the table's memory.
pub open spec fn spec_table_lookup(rom: Seq<u8>, addr: int, key: u32) -> u16
    decreases rom.len() - addr,
{
    if addr < 0 || addr + 4 > rom.len() {
        ROM_TABLE_NOT_FOUND
    } else {
        let code = spec_hword(rom, addr);
        if code == 0 {
            ROM_TABLE_NOT_FOUND
        } else if code as u32 == key {
            spec_hword(rom, addr + 2)
        } else {
            spec_table_lookup(rom, addr + 4, key)
        }
    }
}

/// The whole lookup protocol on a ROM image: resolve the function-table
/// base pointer published at [`BOOTROM_FUNC_TABLE_OFFSET`], then scan that
/// table for the key.
pub open spec fn spec_rom_func_lookup(rom: Seq<u8>, key: u32) -> u16 {
    spec_table_lookup(rom, spec_hword(rom, BOOTROM_FUNC_TABLE_OFFSET as int) as int, key)
}

/// An in-memory copy of the boot ROM region, byte-addressed from zero and
/// little-endian, as the hardware stores it. The ROM itself is immutable;
/// an image of it lets the lookup protocol run, and be tested, off the
/// target device.
pub struct RomImage {
    /// The bytes of the ROM region, starting at address zero.
    pub bytes: Vec<u8>,
}

impl View for RomImage {
    type V = Seq<u8>;

    open spec fn view(&self) -> Seq<u8> {
        self.bytes@
    }
}

impl RomImage {
    /// The image covers both published pointers.
    pub open spec fn wf(&self) -> bool {
        self@.len() >= BOOTROM_TABLE_LOOKUP_OFFSET as int + 2
    }

    /// Read the halfword at byte index `at`.
    fn hword_at_index(&self, at: usize) -> (h: u16)
        requires
            at + 2 <= self@.len(),
        ensures
            h == spec_hword(self@, at as int),
    {
        proof {
            assert(self.bytes.len() == self@.len());
        }
        let lo = self.bytes[at];
        let hi = self.bytes[at + 1];
        (lo as u16) + 0x100 * (hi as u16)
    }

    /// The address resolver: read the 16-bit value stored at `addr` and
    /// hand it back to be used as an address. Purely a read; the value is
    /// not validated — whether it is a meaningful pointer is the
    /// datasheet's contract, not a run-time check.
    pub fn hword_at(&self, addr: u16) -> (h: u16)
        requires
            addr as int + 2 <= self@.len(),
        ensures
            h == spec_hword(self@, addr as int),
    {
        self.hword_at_index(addr as usize)
    }

    /// The resolved base pointer of the ROM's function table.
    pub fn func_table_ptr(&self) -> (p: u16)
        requires
            self.wf(),
        ensures
            p == spec_hword(self@, BOOTROM_FUNC_TABLE_OFFSET as int),
    {
        self.hword_at(BOOTROM_FUNC_TABLE_OFFSET)
    }

    /// The resolved address of the ROM's lookup helper. On hardware this is
    /// the routine the table pointer and key are handed to; an image only
    /// resolves it.
    pub fn lookup_helper_ptr(&self) -> (p: u16)
        requires
            self.wf(),
        ensures
            p == spec_hword(self@, BOOTROM_TABLE_LOOKUP_OFFSET as int),
    {
        self.hword_at(BOOTROM_TABLE_LOOKUP_OFFSET)
    }

    /// The lookup helper's documented behaviour: scan the `(code, address)`
    /// pairs of the table at `table` for `key`, stopping at a zero code or
    /// at the end of the image.
    pub fn rom_table_lookup(&self, table: u16, key: u32) -> (addr: u16)
        ensures
            addr == spec_table_lookup(self@, table as int, key),
    {
        let len = self.bytes.len();
        let mut at: usize = table as usize;
        while at < len && len - at >= 4
            invariant
                len == self@.len(),
                spec_table_lookup(self@, table as int, key) == spec_table_lookup(
                    self@,
                    at as int,
                    key,
                ),
            decreases len - at,
        {
            let code = self.hword_at_index(at);
            if code == 0 {
                return ROM_TABLE_NOT_FOUND;
            }
            if code as u32 == key {
                return self.hword_at_index(at + 2);
            }
            at = at + 4;
        }
        ROM_TABLE_NOT_FOUND
    }

    /// The table lookup invoker: pack the two-character code into a key,
    /// resolve the function-table base pointer, and look the key up as the
    /// ROM's helper does. On hardware the scan is carried out by the
    /// routine published at [`BOOTROM_TABLE_LOOKUP_OFFSET`]; on an image
    /// the helper's documented behaviour runs directly.
    pub fn rom_func_lookup(&self, c1: u8, c2: u8) -> (addr: u16)
        requires
            self.wf(),
        ensures
            addr == spec_rom_func_lookup(self@, spec_table_code(c1, c2)),
    {
        let key = ROM::rom_table_code(c1, c2);
        let table = self.func_table_ptr();
        self.rom_table_lookup(table, key)
    }
}

/// Lookup is idempotent: the ROM is immutable, so two lookups of the same
/// key on the same image resolve to the same address.
pub proof fn lemma_lookup_idempotent(rom: Seq<u8>, key: u32, first: u16, second: u16)
    requires
        first == spec_rom_func_lookup(rom, key),
        second == spec_rom_func_lookup(rom, key),
    ensures
        first == second,
{
}

/// A zero key is never found: the scan reads a zero code as the
/// end-of-table marker before comparing it against the key, so looking up
/// key zero stops at the terminator (or at the image's end) and reports
/// not found.
pub proof fn lemma_zero_key_not_found(rom: Seq<u8>, addr: int)
    ensures
        spec_table_lookup(rom, addr, 0) == ROM_TABLE_NOT_FOUND,
    decreases rom.len() - addr,
{
    if 0 <= addr && addr + 4 <= rom.len() && spec_hword(rom, addr) != 0 {
        lemma_zero_key_not_found(rom, addr + 4);
    }
}

} // verus!
