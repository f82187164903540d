use vstd::prelude::*;

verus! {

/// The 8-bit registers.
#[derive(Copy, Clone, PartialEq, Eq, Structural)]
pub enum Reg8 {
    A,
    F,
    B,
    C,
    D,
    E,
    H,
    L,
}

/// The 16-bit registers: four pairs of 8-bit registers, the stack pointer
/// and the program counter.
#[derive(Copy, Clone, PartialEq, Eq, Structural)]
pub enum Reg16 {
    AF,
    BC,
    DE,
    HL,
    SP,
    PC,
}

/// A register name.
pub trait Reg: Clone + Copy {}

impl Reg for Reg8 {}

impl Reg for Reg16 {}

/// A value that a register holds.
pub trait RegData<T>: Clone + Copy + PartialEq {}

impl RegData<u8> for u8 {}

impl RegData<u16> for u16 {}

/// The flags, kept in the high nibble of F.
#[derive(Copy, Clone, PartialEq, Eq, Structural)]
pub enum Flag {
    Z,
    N,
    H,
    CY,
}

/// What an instruction does with one flag: leave it, set it from the
/// result of the operation, or force it to a value.
#[derive(Copy, Clone, PartialEq, Eq, Structural)]
pub enum FlagMod {
    Ignore,
    Eval,
    SetTo(bool),
}

/// The flag modifiers of one instruction.
#[derive(Copy, Clone, PartialEq, Eq, Structural)]
pub struct FlagStatus {
    pub z: FlagMod,
    pub n: FlagMod,
    pub h: FlagMod,
    pub cy: FlagMod,
}

/// Reading and writing registers of one kind.
pub trait RegOps<R: Reg, T: RegData<T>> {
    fn get(&self, src: R) -> T;

    fn set(&mut self, dst: R, src: T);

    /// Copy register `src` into register `dst`.
    fn copy(&mut self, dst: R, src: R);

    /// Add `val` to register `dst`, wrapping around.
    fn add(&mut self, dst: R, val: T);

    /// Subtract `val` from register `dst`, wrapping around.
    fn sub(&mut self, dst: R, val: T);
}

/// The contents of the register file.
pub struct RegFile {
    pub a: u8,
    pub f: u8,
    pub b: u8,
    pub c: u8,
    pub d: u8,
    pub e: u8,
    pub h: u8,
    pub l: u8,
    pub sp: u16,
    pub pc: u16,
}

/// The 16-bit value whose high byte is `hi`.
pub open spec fn pair(hi: u8, lo: u8) -> u16 {
    (hi as int * 256 + lo as int) as u16
}

/// The bit of F that holds a flag.
pub open spec fn flag_bit(f: Flag) -> u8 {
    match f {
        Flag::Z => 7,
        Flag::N => 6,
        Flag::H => 5,
        Flag::CY => 4,
    }
}

impl RegFile {
    pub open spec fn get8(self, r: Reg8) -> u8 {
        match r {
            Reg8::A => self.a,
            Reg8::F => self.f,
            Reg8::B => self.b,
            Reg8::C => self.c,
            Reg8::D => self.d,
            Reg8::E => self.e,
            Reg8::H => self.h,
            Reg8::L => self.l,
        }
    }

    pub open spec fn get16(self, r: Reg16) -> u16 {
        match r {
            Reg16::AF => pair(self.a, self.f),
            Reg16::BC => pair(self.b, self.c),
            Reg16::DE => pair(self.d, self.e),
            Reg16::HL => pair(self.h, self.l),
            Reg16::SP => self.sp,
            Reg16::PC => self.pc,
        }
    }

    pub open spec fn set8(self, r: Reg8, v: u8) -> RegFile {
        match r {
            Reg8::A => RegFile { a: v, ..self },
            Reg8::F => RegFile { f: v, ..self },
            Reg8::B => RegFile { b: v, ..self },
            Reg8::C => RegFile { c: v, ..self },
            Reg8::D => RegFile { d: v, ..self },
            Reg8::E => RegFile { e: v, ..self },
            Reg8::H => RegFile { h: v, ..self },
            Reg8::L => RegFile { l: v, ..self },
        }
    }

    /// Writing a pair writes its high byte to the first register and its low
    /// byte to the second: BC <- 0xFF11 means B = 0xFF, C = 0x11.
    pub open spec fn set16(self, r: Reg16, v: u16) -> RegFile {
        let hi = (v / 256) as u8;
        let lo = (v % 256) as u8;
        match r {
            Reg16::AF => RegFile { a: hi, f: lo, ..self },
            Reg16::BC => RegFile { b: hi, c: lo, ..self },
            Reg16::DE => RegFile { d: hi, e: lo, ..self },
            Reg16::HL => RegFile { h: hi, l: lo, ..self },
            Reg16::SP => RegFile { sp: v, ..self },
            Reg16::PC => RegFile { pc: v, ..self },
        }
    }

    pub open spec fn flag(self, f: Flag) -> bool {
        crate::util::bit_of(self.f, flag_bit(f))
    }

    pub open spec fn set_flag(self, f: Flag, v: bool) -> RegFile {
        RegFile { f: crate::util::with_bit(self.f, flag_bit(f), v), ..self }
    }
}

/// `n` in lower-case hex with at least `width` digits.
pub open spec fn hex_text(n: nat, width: nat) -> Seq<char> {
    crate::text::pad_left(crate::text::digits(n, 16), '0', width)
}

/// One register pair as the register dump shows it: both bytes and the word,
/// `(0xhh, 0xll, 0xhhll)`, on a line of its own.
pub open spec fn pair_text(hi: u8, lo: u8) -> Seq<char> {
    "(0x"@ + hex_text(hi as nat, 2) + ", 0x"@ + hex_text(lo as nat, 2) + ", 0x"@ + hex_text(
        pair(hi, lo) as nat,
        4,
    ) + ")\n"@
}

pub open spec fn bool_text(b: bool) -> Seq<char> {
    if b {
        "true"@
    } else {
        "false"@
    }
}

/// The register dump: the four pairs, the flags, then PC and SP.
pub open spec fn registers_text(r: RegFile) -> Seq<char> {
    "AF: "@ + pair_text(r.a, r.f) + "BC: "@ + pair_text(r.b, r.c) + "DE: "@ + pair_text(r.d, r.e) + "HL: "@
        + pair_text(r.h, r.l) + "Flags: Z: "@ + bool_text(r.flag(Flag::Z)) + ", N: "@ + bool_text(
        r.flag(Flag::N),
    ) + ", H: "@ + bool_text(r.flag(Flag::H)) + ", CY: "@ + bool_text(r.flag(Flag::CY)) + "\nPC: 0x"@
        + hex_text(r.pc as nat, 4) + ", SP: 0x"@ + hex_text(r.sp as nat, 4) + "\n"@
}

fn append_bool(out: &mut String, b: bool)
    ensures
        final(out)@ == old(out)@ + bool_text(b),
{
    proof {
        reveal_strlit("true");
        reveal_strlit("false");
    }
    out.append(if b { "true" } else { "false" });
}

/// Two 8-bit registers that can also be read and written as one 16-bit register.
struct DoubleRegister {
    a: u8,
    b: u8,
}

impl DoubleRegister {
    fn get_first(&self) -> (r: u8)
        ensures
            r == self.a,
    {
        self.a
    }

    fn set_first(&mut self, val: u8)
        ensures
            final(self).a == val,
            final(self).b == old(self).b,
    {
        self.a = val;
    }

    fn get_second(&self) -> (r: u8)
        ensures
            r == self.b,
    {
        self.b
    }

    fn set_second(&mut self, val: u8)
        ensures
            final(self).a == old(self).a,
            final(self).b == val,
    {
        self.b = val;
    }

    fn get_double(&self) -> (r: u16)
        ensures
            r == pair(self.a, self.b),
    {
        let hi = self.get_first() as u16;
        let lo = self.get_second() as u16;
        let r = (hi << 8u16) | lo;
        assert(r == hi * 256 + lo) by (bit_vector)
            requires
                hi < 256,
                lo < 256,
                r == (hi << 8u16) | lo,
        ;
        r
    }

    /// Append the pair's line of the register dump.
    fn print_contents(&self, out: &mut String)
        ensures
            final(out)@ == old(out)@ + pair_text(self.a, self.b),
    {
        let ghost start = out@;
        out.append("(0x");
        crate::text::append_padded(out, self.get_first() as u64, 16, 2);
        out.append(", 0x");
        crate::text::append_padded(out, self.get_second() as u64, 16, 2);
        out.append(", 0x");
        crate::text::append_padded(out, self.get_double() as u64, 16, 4);
        out.append(")\n");
        proof {
            reveal_strlit("(0x");
            reveal_strlit(", 0x");
            reveal_strlit(")\n");
            assert(out@ =~= start + pair_text(self.a, self.b));
        }
    }

    // BC <- 0xFF11 means (B = 0xFF, C = 0x11)
    fn set_double(&mut self, val: u16)
        ensures
            final(self).a == val / 256,
            final(self).b == val % 256,
    {
        let hi = val >> 8u16;
        let lo = val & 0xFFu16;
        assert(hi == val / 256 && lo == val % 256) by (bit_vector)
            requires
                hi == val >> 8u16,
                lo == val & 0xFFu16,
        ;
        self.a = hi as u8;
        self.b = lo as u8;
    }
}

/// The CPU registers.
pub struct RegisterCache {
    af: DoubleRegister,
    bc: DoubleRegister,
    de: DoubleRegister,
    hl: DoubleRegister,
    sp: u16,
    pc: u16,
}

impl View for RegisterCache {
    type V = RegFile;

    closed spec fn view(&self) -> RegFile {
        RegFile {
            a: self.af.a,
            f: self.af.b,
            b: self.bc.a,
            c: self.bc.b,
            d: self.de.a,
            e: self.de.b,
            h: self.hl.a,
            l: self.hl.b,
            sp: self.sp,
            pc: self.pc,
        }
    }
}

impl RegisterCache {
    /// All registers zero.
    pub fn new() -> (r: RegisterCache)
        ensures
            r@ == (RegFile { a: 0, f: 0, b: 0, c: 0, d: 0, e: 0, h: 0, l: 0, sp: 0, pc: 0 }),
    {
        RegisterCache {
            af: DoubleRegister { a: 0x0, b: 0x0 },
            bc: DoubleRegister { a: 0x0, b: 0x0 },
            de: DoubleRegister { a: 0x0, b: 0x0 },
            hl: DoubleRegister { a: 0x0, b: 0x0 },
            sp: 0x0,
            pc: 0x0,
        }
    }

    fn flag_mask(f: Flag) -> (r: u8)
        ensures
            r == 1u8 << flag_bit(f),
    {
        1u8 << (match f {
            Flag::Z => 7u8,
            Flag::N => 6u8,
            Flag::H => 5u8,
            Flag::CY => 4u8,
        })
    }

    pub fn get_flag(&self, f: Flag) -> (r: bool)
        ensures
            r == self@.flag(f),
    {
        let mask = RegisterCache::flag_mask(f);
        proof {
            crate::util::lemma_with_bit(self@.f, flag_bit(f), true);
        }
        (self.af.get_second() & mask) != 0
    }

    pub fn set_flag(&mut self, f: Flag, val: bool)
        ensures
            final(self)@ == old(self)@.set_flag(f, val),
    {
        let flags = self.af.get_second();
        let mask = RegisterCache::flag_mask(f);
        proof {
            crate::util::lemma_with_bit(flags, flag_bit(f), val);
        }
        let flags = if val {
            flags | mask
        } else {
            flags & !mask
        };
        self.af.set_second(flags);
    }

    /// The register dump, as the debugger prints it: each pair's bytes and
    /// word, the flags, then PC and SP.
    pub fn print_registers(&self) -> (s: String)
        ensures
            s@ == registers_text(self@),
    {
        let mut s = String::new();
        s.append("AF: ");
        self.af.print_contents(&mut s);
        s.append("BC: ");
        self.bc.print_contents(&mut s);
        s.append("DE: ");
        self.de.print_contents(&mut s);
        s.append("HL: ");
        self.hl.print_contents(&mut s);
        s.append("Flags: Z: ");
        append_bool(&mut s, self.get_flag(Flag::Z));
        s.append(", N: ");
        append_bool(&mut s, self.get_flag(Flag::N));
        s.append(", H: ");
        append_bool(&mut s, self.get_flag(Flag::H));
        s.append(", CY: ");
        append_bool(&mut s, self.get_flag(Flag::CY));
        s.append("\nPC: 0x");
        crate::text::append_padded(&mut s, self.pc as u64, 16, 4);
        s.append(", SP: 0x");
        crate::text::append_padded(&mut s, self.sp as u64, 16, 4);
        s.append("\n");
        proof {
            reveal_strlit("AF: ");
            reveal_strlit("BC: ");
            reveal_strlit("DE: ");
            reveal_strlit("HL: ");
            reveal_strlit("Flags: Z: ");
            reveal_strlit(", N: ");
            reveal_strlit(", H: ");
            reveal_strlit(", CY: ");
            reveal_strlit("\nPC: 0x");
            reveal_strlit(", SP: 0x");
            reveal_strlit("\n");
            assert(s@ =~= registers_text(self@));
        }
        s
    }
}

impl RegOps<Reg8, u8> for RegisterCache {
    fn get(&self, src: Reg8) -> (r: u8)
        ensures
            r == self@.get8(src),
    {
        match src {
            Reg8::A => self.af.get_first(),
            Reg8::F => self.af.get_second(),
            Reg8::B => self.bc.get_first(),
            Reg8::C => self.bc.get_second(),
            Reg8::D => self.de.get_first(),
            Reg8::E => self.de.get_second(),
            Reg8::H => self.hl.get_first(),
            Reg8::L => self.hl.get_second(),
        }
    }

    fn set(&mut self, dst: Reg8, src: u8)
        ensures
            final(self)@ == old(self)@.set8(dst, src),
    {
        match dst {
            Reg8::A => self.af.set_first(src),
            Reg8::F => self.af.set_second(src),
            Reg8::B => self.bc.set_first(src),
            Reg8::C => self.bc.set_second(src),
            Reg8::D => self.de.set_first(src),
            Reg8::E => self.de.set_second(src),
            Reg8::H => self.hl.set_first(src),
            Reg8::L => self.hl.set_second(src),
        }
    }

    fn copy(&mut self, dst: Reg8, src: Reg8)
        ensures
            final(self)@ == old(self)@.set8(dst, old(self)@.get8(src)),
    {
        let tmp = self.get(src);
        self.set(dst, tmp);
    }

    fn add(&mut self, dst: Reg8, val: u8)
        ensures
            final(self)@ == old(self)@.set8(dst, ((old(self)@.get8(dst) + val) % 256) as u8),
    {
        let new_val = self.get(dst).wrapping_add(val);
        self.set(dst, new_val);
    }

    fn sub(&mut self, dst: Reg8, val: u8)
        ensures
            final(self)@ == old(self)@.set8(dst, ((old(self)@.get8(dst) - val) % 256) as u8),
    {
        let new_val = self.get(dst).wrapping_sub(val);
        self.set(dst, new_val);
    }
}

impl RegOps<Reg16, u16> for RegisterCache {
    fn get(&self, src: Reg16) -> (r: u16)
        ensures
            r == self@.get16(src),
    {
        match src {
            Reg16::AF => self.af.get_double(),
            Reg16::BC => self.bc.get_double(),
            Reg16::DE => self.de.get_double(),
            Reg16::HL => self.hl.get_double(),
            Reg16::SP => self.sp,
            Reg16::PC => self.pc,
        }
    }

    fn set(&mut self, dst: Reg16, src: u16)
        ensures
            final(self)@ == old(self)@.set16(dst, src),
    {
        match dst {
            Reg16::AF => { self.af.set_double(src) },
            Reg16::BC => { self.bc.set_double(src) },
            Reg16::DE => { self.de.set_double(src) },
            Reg16::HL => { self.hl.set_double(src) },
            Reg16::SP => { self.sp = src; },
            Reg16::PC => { self.pc = src; },
        }
    }

    fn copy(&mut self, dst: Reg16, src: Reg16)
        ensures
            final(self)@ == old(self)@.set16(dst, old(self)@.get16(src)),
    {
        let tmp = self.get(src);
        self.set(dst, tmp);
    }

    fn add(&mut self, dst: Reg16, val: u16)
        ensures
            final(self)@ == old(self)@.set16(dst, ((old(self)@.get16(dst) + val) % 65536) as u16),
    {
        let new_val = self.get(dst).wrapping_add(val);
        self.set(dst, new_val);
    }

    fn sub(&mut self, dst: Reg16, val: u16)
        ensures
            final(self)@ == old(self)@.set16(dst, ((old(self)@.get16(dst) - val) % 65536) as u16),
    {
        let new_val = self.get(dst).wrapping_sub(val);
        self.set(dst, new_val);
    }
}

} // verus!
