use vstd::prelude::*;

use crate::text;

verus! {

/// The contents of the address space: work memory and the cartridge ROM.
pub struct MemView {
    pub ram: Seq<u8>,
    pub rom: Seq<u8>,
}

impl MemView {
    /// Addresses below 0x8000 are served by the ROM, the rest by work memory.
    pub open spec fn readable(self, addr: u16) -> bool {
        if addr < 0x8000 {
            addr < self.rom.len()
        } else {
            addr < self.ram.len()
        }
    }

    pub open spec fn read(self, addr: u16) -> u8 {
        if addr < 0x8000 {
            self.rom[addr as int]
        } else {
            self.ram[addr as int]
        }
    }

    pub open spec fn write(self, addr: u16, val: u8) -> MemView {
        if addr < 0x8000 {
            MemView { rom: self.rom.update(addr as int, val), ..self }
        } else {
            MemView { ram: self.ram.update(addr as int, val), ..self }
        }
    }

    /// Both memories have the sizes they have in `other`, so the same
    /// addresses can be read and written.
    pub open spec fn same_shape(self, other: MemView) -> bool {
        self.rom.len() == other.rom.len() && self.ram.len() == other.ram.len()
    }
}

/// The emulated address space.
pub struct Memory {
    mem: Vec<u8>,
    rom: Vec<u8>,
}

/// Who accesses memory.
#[derive(Copy, Clone, PartialEq, Eq, Structural)]
pub enum MemClient {
    CPU,
    PPU,
}

impl View for Memory {
    type V = MemView;

    closed spec fn view(&self) -> MemView {
        MemView { ram: self.mem@, rom: self.rom@ }
    }
}

impl Memory {
    /// Work memory of `size` zero bytes, except that 0xFF50 (the boot ROM
    /// switch) holds 1; no ROM.
    pub fn new(size: usize) -> (m: Memory)
        requires
            size > 0xff50,
        ensures
            m@.ram == Seq::new(size as nat, |i: int| if i == 0xff50 { 1u8 } else { 0u8 }),
            m@.rom == Seq::<u8>::empty(),
    {
        let mut v: Vec<u8> = Vec::new();
        let mut i: usize = 0;
        while i < size
            invariant
                i <= size,
                v@ == Seq::new(i as nat, |j: int| 0u8),
            decreases size - i,
        {
            v.push(0);
            i = i + 1;
        }
        v.set(0xff50, 1);
        assert(v@ =~= Seq::new(size as nat, |i: int| if i == 0xff50 { 1u8 } else { 0u8 }));
        Memory { mem: v, rom: Vec::new() }
    }

    /// Replace the cartridge ROM with `rom`.
    pub fn load_rom(&mut self, rom: Vec<u8>)
        ensures
            final(self)@ == (MemView { rom: rom@, ..old(self)@ }),
    {
        self.rom = rom;
    }

    // The address space has no bank switching: the ROM is read as it was loaded.
    pub fn get(&self, addr: u16, _client: MemClient) -> (r: u8)
        requires
            self@.readable(addr),
        ensures
            r == self@.read(addr),
    {
        let a = addr as usize;
        if a < 0x4000 {
            self.rom[a]
        } else if a < 0x8000 {
            self.rom[a]
        } else {
            self.mem[a]
        }
    }

    pub fn set(&mut self, val: u8, addr: u16, _client: MemClient)
        requires
            old(self)@.readable(addr),
        ensures
            final(self)@ == old(self)@.write(addr, val),
    {
        let a = addr as usize;
        if a < 0x4000 {
            self.rom.set(a, val);
        } else if a < 0x8000 {
            self.rom.set(a, val);
        } else {
            self.mem.set(a, val);
        }
    }

    /// Whether `addr` can be read and written: below 0x8000 when the ROM
    /// holds it, above when work memory does.
    pub fn readable(&self, addr: u16) -> (r: bool)
        ensures
            r == self@.readable(addr),
    {
        if addr < 0x8000 {
            (addr as usize) < self.rom.len()
        } else {
            (addr as usize) < self.mem.len()
        }
    }

    /// An independent copy of the whole address space.
    pub fn snapshot(&self) -> (m: Memory)
        ensures
            m@ == self@,
    {
        let mem = self.mem.clone();
        let rom = self.rom.clone();
        assert(mem@ =~= self.mem@);
        assert(rom@ =~= self.rom@);
        Memory { mem, rom }
    }

    /// A hex dump of the ROM (`is_rom`) or of work memory: 32 bytes per line,
    /// each line led by its offset.
    pub fn generate_dump(&self, is_rom: bool) -> (dump: String)
        ensures
            dump@ == dump_text(
                if is_rom { self@.rom } else { self@.ram },
                (if is_rom { self@.rom } else { self@.ram }).len(),
            ),
    {
        let mut dump = String::new();
        let row_len: usize = 32;
        let mem_src = if is_rom { &self.rom } else { &self.mem };
        let mut i: usize = 0;
        while i < mem_src.len()
            invariant
                i <= mem_src.len(),
                row_len == 32,
                mem_src@ == (if is_rom { self@.rom } else { self@.ram }),
                dump@ == dump_text(mem_src@, i as nat),
            decreases mem_src.len() - i,
        {
            let byte = mem_src[i];
            let ghost before = dump@;
            proof {
                reveal_strlit("0x");
                reveal_strlit(":  ");
                reveal_strlit("\n");
                reveal_strlit(" ");
            }
            if i % row_len == 0 {
                dump.append("0x");
                append_hex_padded(&mut dump, i as u64, 4);
                dump.append(":  ");
            }
            assert(dump@ =~= before + (if i % 32 == 0 {
                "0x"@ + hex_padded(i as nat, 4) + ":  "@
            } else {
                Seq::empty()
            }));
            append_hex_padded(&mut dump, byte as u64, 2);
            let ghost mid = dump@;
            if (i + 1) % 32 == 0 {
                dump.append("\n");
            } else {
                dump.append(" ");
            }
            assert(dump@ =~= mid + (if (i + 1) % 32 == 0 { "\n"@ } else { " "@ }));
            assert(dump@ =~= before + dump_entry(mem_src@, i as nat));
            i = i + 1;
        }
        dump
    }
}

/// `n` in lower-case hex, with zeros in front to at least `width` digits.
pub open spec fn hex_padded(n: nat, width: nat) -> Seq<char> {
    text::pad_left(text::digits(n, 16), '0', width)
}

/// The text that the dump holds for byte `i`.
pub open spec fn dump_entry(bytes: Seq<u8>, i: nat) -> Seq<char> {
    (if i % 32 == 0 {
        "0x"@ + hex_padded(i, 4) + ":  "@
    } else {
        Seq::empty()
    }) + hex_padded(bytes[i as int] as nat, 2) + (if (i + 1) % 32 == 0 {
        "\n"@
    } else {
        " "@
    })
}

/// The dump of the first `n` bytes.
pub open spec fn dump_text(bytes: Seq<u8>, n: nat) -> Seq<char>
    decreases n,
{
    if n == 0 {
        Seq::empty()
    } else {
        dump_text(bytes, (n - 1) as nat) + dump_entry(bytes, (n - 1) as nat)
    }
}

/// Appends `n` in lower-case hex, with zeros in front to at least `width` digits.
fn append_hex_padded(out: &mut String, n: u64, width: u64)
    ensures
        final(out)@ == old(out)@ + hex_padded(n as nat, width as nat),
{
    text::append_padded(out, n, 16, width);
}

} // verus!
