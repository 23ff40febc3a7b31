//! The arithmetic and logic unit: what each operation computes and which
//! flags it leaves, as pure functions of the operands.
use vstd::prelude::*;
use crate::registers::Flags;

verus! {

/// 1 for a carry that is taken in, 0 otherwise.
pub open spec fn carry_in(cin: bool) -> int {
    if cin {
        1
    } else {
        0
    }
}

/// ADD and ADC: the sum modulo 256, Z on a zero result, N clear, H on a
/// carry out of bit 3, C on a carry out of bit 7.
pub open spec fn add_result(a: u8, v: u8, cin: bool) -> (u8, Flags) {
    let sum = a + v + carry_in(cin);
    (
        (sum % 256) as u8,
        Flags {
            zero: sum % 256 == 0,
            sub: false,
            half: a % 16 + v % 16 + carry_in(cin) > 15,
            carry: sum > 255,
        },
    )
}

/// SUB, SBC and CP: the difference modulo 256, Z on a zero result, N set,
/// H on a borrow from bit 4, C on a borrow from bit 8.
pub open spec fn sub_result(a: u8, v: u8, cin: bool) -> (u8, Flags) {
    let diff = a - v - carry_in(cin);
    (
        (diff % 256) as u8,
        Flags {
            zero: diff % 256 == 0,
            sub: true,
            half: a % 16 < v % 16 + carry_in(cin),
            carry: a < v + carry_in(cin),
        },
    )
}

/// AND: H set, N and C clear.
pub open spec fn and_result(a: u8, v: u8) -> (u8, Flags) {
    (a & v, Flags { zero: a & v == 0, sub: false, half: true, carry: false })
}

/// OR: N, H and C clear.
pub open spec fn or_result(a: u8, v: u8) -> (u8, Flags) {
    (a | v, Flags { zero: a | v == 0, sub: false, half: false, carry: false })
}

/// XOR: N, H and C clear.
pub open spec fn xor_result(a: u8, v: u8) -> (u8, Flags) {
    (a ^ v, Flags { zero: a ^ v == 0, sub: false, half: false, carry: false })
}

/// INC on a byte: H when the low nibble of the result is zero; C is kept.
pub open spec fn inc_result(v: u8, flags: Flags) -> (u8, Flags) {
    let r = (v + 1) % 256;
    (r as u8, Flags { zero: r == 0, sub: false, half: r % 16 == 0, carry: flags.carry })
}

/// DEC on a byte: H when the low nibble of the result is 0xF; C is kept.
pub open spec fn dec_result(v: u8, flags: Flags) -> (u8, Flags) {
    let r = (v - 1) % 256;
    (r as u8, Flags { zero: r == 0, sub: true, half: r % 16 == 15, carry: flags.carry })
}

/// The successor of a 16-bit value, modulo 65536.
pub open spec fn inc16_result(v: u16) -> u16 {
    ((v + 1) % 0x1_0000) as u16
}

/// The predecessor of a 16-bit value, modulo 65536.
pub open spec fn dec16_result(v: u16) -> u16 {
    ((v - 1) % 0x1_0000) as u16
}

/// ADD HL,rr: H on a carry out of bit 11, C on a carry out of bit 15; Z is kept.
pub open spec fn add16_result(hl: u16, rr: u16, flags: Flags) -> (u16, Flags) {
    (
        ((hl + rr) % 0x1_0000) as u16,
        Flags {
            zero: flags.zero,
            sub: false,
            half: hl % 0x1000 + rr % 0x1000 > 0xFFF,
            carry: hl + rr > 0xFFFF,
        },
    )
}

/// The signed value of an 8-bit two's-complement operand.
pub open spec fn signed(e: u8) -> int {
    if e < 128 {
        e as int
    } else {
        e - 256
    }
}

/// A 16-bit address moved by a signed 8-bit offset, modulo 65536.
pub open spec fn displaced(base: u16, e: u8) -> u16 {
    ((base + signed(e)) % 0x1_0000) as u16
}

/// ADD SP,e and LD HL,SP+e: Z and N clear, H and C from the unsigned
/// addition of the operand to the low byte of SP.
pub open spec fn add_sp_result(sp: u16, e: u8) -> (u16, Flags) {
    (
        displaced(sp, e),
        Flags {
            zero: false,
            sub: false,
            half: sp % 16 + e % 16 > 15,
            carry: sp % 256 + e > 255,
        },
    )
}

/// What DAA adds to A after an addition, or takes from it after a subtraction.
pub open spec fn daa_adjust(a: u8, flags: Flags) -> int {
    if flags.sub {
        (if flags.half { 0x06int } else { 0 }) + (if flags.carry { 0x60int } else { 0 })
    } else {
        (if flags.half || a % 16 > 9 { 0x06int } else { 0 }) + (if flags.carry || a > 0x99 {
            0x60int
        } else {
            0
        })
    }
}

/// DAA: A becomes a packed decimal number again; Z on a zero result, H
/// clear, N kept, C set when the upper digit was corrected.
pub open spec fn daa_result(a: u8, flags: Flags) -> (u8, Flags) {
    let r = if flags.sub {
        (a - daa_adjust(a, flags)) % 256
    } else {
        (a + daa_adjust(a, flags)) % 256
    };
    (
        r as u8,
        Flags {
            zero: r == 0,
            sub: flags.sub,
            half: false,
            carry: flags.carry || (!flags.sub && a > 0x99),
        },
    )
}

/// CPL: every bit of A inverted; N and H set, Z and C kept.
pub open spec fn cpl_result(a: u8, flags: Flags) -> (u8, Flags) {
    (!a, Flags { zero: flags.zero, sub: true, half: true, carry: flags.carry })
}

/// CCF: C inverted, N and H clear, Z kept.
pub open spec fn ccf_result(flags: Flags) -> Flags {
    Flags { zero: flags.zero, sub: false, half: false, carry: !flags.carry }
}

/// SCF: C set, N and H clear, Z kept.
pub open spec fn scf_result(flags: Flags) -> Flags {
    Flags { zero: flags.zero, sub: false, half: false, carry: true }
}

/// The flags after a rotate or shift: Z on a zero result, C the bit moved out.
pub open spec fn shift_flags(r: u8, out: bool) -> Flags {
    Flags { zero: r == 0, sub: false, half: false, carry: out }
}

/// RLC: rotate left; bit 7 goes to bit 0 and to C.
pub open spec fn rlc_result(v: u8) -> (u8, Flags) {
    let r = ((v * 2) % 256 + v / 128) as u8;
    (r, shift_flags(r, v >= 128))
}

/// RRC: rotate right; bit 0 goes to bit 7 and to C.
pub open spec fn rrc_result(v: u8) -> (u8, Flags) {
    let r = (v / 2 + (v % 2) * 128) as u8;
    (r, shift_flags(r, v % 2 == 1))
}

/// RL: rotate left through C; the old C goes to bit 0, bit 7 to C.
pub open spec fn rl_result(v: u8, cin: bool) -> (u8, Flags) {
    let r = ((v * 2) % 256 + carry_in(cin)) as u8;
    (r, shift_flags(r, v >= 128))
}

/// RR: rotate right through C; the old C goes to bit 7, bit 0 to C.
pub open spec fn rr_result(v: u8, cin: bool) -> (u8, Flags) {
    let r = (v / 2 + carry_in(cin) * 128) as u8;
    (r, shift_flags(r, v % 2 == 1))
}

/// SLA: shift left; bit 0 becomes zero, bit 7 goes to C.
pub open spec fn sla_result(v: u8) -> (u8, Flags) {
    let r = ((v * 2) % 256) as u8;
    (r, shift_flags(r, v >= 128))
}

/// SRA: shift right; bit 7 keeps its value, bit 0 goes to C.
pub open spec fn sra_result(v: u8) -> (u8, Flags) {
    let r = (v / 2 + (v / 128) * 128) as u8;
    (r, shift_flags(r, v % 2 == 1))
}

/// SRL: shift right; bit 7 becomes zero, bit 0 goes to C.
pub open spec fn srl_result(v: u8) -> (u8, Flags) {
    let r = (v / 2) as u8;
    (r, shift_flags(r, v % 2 == 1))
}

/// SWAP: the two nibbles exchanged; Z on a zero result, the rest clear.
pub open spec fn swap_result(v: u8) -> (u8, Flags) {
    let r = ((v % 16) * 16 + v / 16) as u8;
    (r, shift_flags(r, false))
}

/// BIT n: Z when bit n of the value is clear; N clear, H set, C kept.
pub open spec fn bit_result(n: u8, v: u8, flags: Flags) -> Flags {
    Flags { zero: (v >> (n % 8)) & 1 == 0, sub: false, half: true, carry: flags.carry }
}

/// SET n: the value with bit n set.
pub open spec fn set_result(n: u8, v: u8) -> u8 {
    v | (1u8 << (n % 8))
}

/// RES n: the value with bit n clear.
pub open spec fn res_result(n: u8, v: u8) -> u8 {
    v & !(1u8 << (n % 8))
}

/// ADD and ADC on two bytes.
pub fn alu_add(a: u8, v: u8, cin: bool) -> (r: (u8, Flags))
    ensures
        r == add_result(a, v, cin),
{
    let c: u16 = if cin { 1 } else { 0 };
    let sum: u16 = a as u16 + v as u16 + c;
    let half: bool = (a % 16) as u16 + (v % 16) as u16 + c > 15;
    ((sum % 256) as u8, Flags { zero: sum % 256 == 0, sub: false, half, carry: sum > 255 })
}

/// SUB, SBC and CP on two bytes.
pub fn alu_sub(a: u8, v: u8, cin: bool) -> (r: (u8, Flags))
    ensures
        r == sub_result(a, v, cin),
{
    let c: u16 = if cin { 1 } else { 0 };
    let taken: u16 = v as u16 + c;
    let carry: bool = (a as u16) < taken;
    let diff: u16 = if carry { 256 + a as u16 - taken } else { a as u16 - taken };
    let half: bool = ((a % 16) as u16) < (v % 16) as u16 + c;
    (diff as u8, Flags { zero: diff == 0, sub: true, half, carry })
}

/// AND on two bytes.
pub fn alu_and(a: u8, v: u8) -> (r: (u8, Flags))
    ensures
        r == and_result(a, v),
{
    (a & v, Flags { zero: a & v == 0, sub: false, half: true, carry: false })
}

/// OR on two bytes.
pub fn alu_or(a: u8, v: u8) -> (r: (u8, Flags))
    ensures
        r == or_result(a, v),
{
    (a | v, Flags { zero: a | v == 0, sub: false, half: false, carry: false })
}

/// XOR on two bytes.
pub fn alu_xor(a: u8, v: u8) -> (r: (u8, Flags))
    ensures
        r == xor_result(a, v),
{
    (a ^ v, Flags { zero: a ^ v == 0, sub: false, half: false, carry: false })
}

/// INC on a byte; `flags` are the flags before it.
pub fn alu_inc(v: u8, flags: Flags) -> (r: (u8, Flags))
    ensures
        r == inc_result(v, flags),
{
    let res: u8 = if v == 0xFF { 0 } else { v + 1 };
    (res, Flags { zero: res == 0, sub: false, half: res % 16 == 0, carry: flags.carry })
}

/// DEC on a byte; `flags` are the flags before it.
pub fn alu_dec(v: u8, flags: Flags) -> (r: (u8, Flags))
    ensures
        r == dec_result(v, flags),
{
    let res: u8 = if v == 0 { 0xFF } else { v - 1 };
    (res, Flags { zero: res == 0, sub: true, half: res % 16 == 15, carry: flags.carry })
}

/// INC on a register pair.
pub fn alu_inc16(v: u16) -> (r: u16)
    ensures
        r == inc16_result(v),
{
    if v == 0xFFFF {
        0
    } else {
        v + 1
    }
}

/// DEC on a register pair.
pub fn alu_dec16(v: u16) -> (r: u16)
    ensures
        r == dec16_result(v),
{
    if v == 0 {
        0xFFFF
    } else {
        v - 1
    }
}

/// ADD HL,rr; `flags` are the flags before it.
pub fn alu_add16(hl: u16, rr: u16, flags: Flags) -> (r: (u16, Flags))
    ensures
        r == add16_result(hl, rr, flags),
{
    let sum: u32 = hl as u32 + rr as u32;
    let half: bool = (hl % 0x1000) as u32 + (rr % 0x1000) as u32 > 0xFFF;
    (
        (sum % 0x1_0000) as u16,
        Flags { zero: flags.zero, sub: false, half, carry: sum > 0xFFFF },
    )
}

/// Moves an address by a signed 8-bit offset.
pub fn displace(base: u16, e: u8) -> (r: u16)
    ensures
        r == displaced(base, e),
{
    let back: u32 = if e < 128 { 0 } else { 256 };
    ((base as u32 + 0x1_0000 + e as u32 - back) % 0x1_0000) as u16
}

/// ADD SP,e and LD HL,SP+e.
pub fn alu_add_sp(sp: u16, e: u8) -> (r: (u16, Flags))
    ensures
        r == add_sp_result(sp, e),
{
    let half: bool = (sp % 16) as u8 + e % 16 > 15;
    let carry: bool = sp % 256 + e as u16 > 255;
    (displace(sp, e), Flags { zero: false, sub: false, half, carry })
}

/// DAA on A; `flags` are the flags before it.
pub fn alu_daa(a: u8, flags: Flags) -> (r: (u8, Flags))
    ensures
        r == daa_result(a, flags),
{
    let low: bool = flags.half || (!flags.sub && a % 16 > 9);
    let high: bool = flags.carry || (!flags.sub && a > 0x99);
    let lo: u16 = if low { 0x06 } else { 0 };
    let hi: u16 = if high { 0x60 } else { 0 };
    let res: u16 = if flags.sub {
        (256 + a as u16 - lo - hi) % 256
    } else {
        (a as u16 + lo + hi) % 256
    };
    (res as u8, Flags { zero: res == 0, sub: flags.sub, half: false, carry: high })
}

/// CPL on A; `flags` are the flags before it.
pub fn alu_cpl(a: u8, flags: Flags) -> (r: (u8, Flags))
    ensures
        r == cpl_result(a, flags),
{
    (!a, Flags { zero: flags.zero, sub: true, half: true, carry: flags.carry })
}

/// RLC on a byte.
pub fn alu_rlc(v: u8) -> (r: (u8, Flags))
    ensures
        r == rlc_result(v),
{
    let res: u8 = ((v as u16 * 2) % 256) as u8 + v / 128;
    (res, Flags { zero: res == 0, sub: false, half: false, carry: v >= 128 })
}

/// RRC on a byte.
pub fn alu_rrc(v: u8) -> (r: (u8, Flags))
    ensures
        r == rrc_result(v),
{
    let res: u8 = v / 2 + (v % 2) * 128;
    (res, Flags { zero: res == 0, sub: false, half: false, carry: v % 2 == 1 })
}

/// RL on a byte; `cin` is the carry before it.
pub fn alu_rl(v: u8, cin: bool) -> (r: (u8, Flags))
    ensures
        r == rl_result(v, cin),
{
    let c: u8 = if cin { 1 } else { 0 };
    let res: u8 = ((v as u16 * 2) % 256) as u8 + c;
    (res, Flags { zero: res == 0, sub: false, half: false, carry: v >= 128 })
}

/// RR on a byte; `cin` is the carry before it.
pub fn alu_rr(v: u8, cin: bool) -> (r: (u8, Flags))
    ensures
        r == rr_result(v, cin),
{
    let c: u8 = if cin { 128 } else { 0 };
    let res: u8 = v / 2 + c;
    (res, Flags { zero: res == 0, sub: false, half: false, carry: v % 2 == 1 })
}

/// SLA on a byte.
pub fn alu_sla(v: u8) -> (r: (u8, Flags))
    ensures
        r == sla_result(v),
{
    let res: u8 = ((v as u16 * 2) % 256) as u8;
    (res, Flags { zero: res == 0, sub: false, half: false, carry: v >= 128 })
}

/// SRA on a byte.
pub fn alu_sra(v: u8) -> (r: (u8, Flags))
    ensures
        r == sra_result(v),
{
    let res: u8 = v / 2 + (v / 128) * 128;
    (res, Flags { zero: res == 0, sub: false, half: false, carry: v % 2 == 1 })
}

/// SRL on a byte.
pub fn alu_srl(v: u8) -> (r: (u8, Flags))
    ensures
        r == srl_result(v),
{
    let res: u8 = v / 2;
    (res, Flags { zero: res == 0, sub: false, half: false, carry: v % 2 == 1 })
}

/// SWAP on a byte.
pub fn alu_swap(v: u8) -> (r: (u8, Flags))
    ensures
        r == swap_result(v),
{
    let res: u8 = (v % 16) * 16 + v / 16;
    (res, Flags { zero: res == 0, sub: false, half: false, carry: false })
}

/// BIT n on a byte; `flags` are the flags before it.
pub fn alu_bit(n: u8, v: u8, flags: Flags) -> (r: Flags)
    ensures
        r == bit_result(n, v, flags),
{
    Flags { zero: (v >> (n % 8)) & 1 == 0, sub: false, half: true, carry: flags.carry }
}

/// SET n on a byte.
pub fn alu_set(n: u8, v: u8) -> (r: u8)
    ensures
        r == set_result(n, v),
{
    v | (1u8 << (n % 8))
}

/// RES n on a byte.
pub fn alu_res(n: u8, v: u8) -> (r: u8)
    ensures
        r == res_result(n, v),
{
    v & !(1u8 << (n % 8))
}

} // verus!

verus! {

/// Clearing a bit that was just set leaves the value with that bit clear, and
/// setting a bit that was just cleared leaves the value with that bit set.
pub proof fn set_and_res_cancel(b: u8, v: u8)
    requires
        b < 8,
    ensures
        res_result(b, set_result(b, v)) == v & !(1u8 << b),
        set_result(b, res_result(b, v)) == v | (1u8 << b),
{
    assert(b % 8 == b);
    assert((v | (1u8 << b)) & !(1u8 << b) == v & !(1u8 << b)) by (bit_vector);
    assert((v & !(1u8 << b)) | (1u8 << b) == v | (1u8 << b)) by (bit_vector);
}

/// Swapping the nibbles twice, or inverting twice, gives the value back.
pub proof fn swap_and_cpl_are_involutions(v: u8, flags: Flags)
    ensures
        swap_result(swap_result(v).0).0 == v,
        cpl_result(cpl_result(v, flags).0, flags).0 == v,
{
    assert(!(!v) == v) by (bit_vector);
}

/// `n` rotations to the left, each feeding the next.
pub open spec fn rlc_times(v: u8, n: nat) -> u8
    decreases n,
{
    if n == 0 {
        v
    } else {
        rlc_result(rlc_times(v, (n - 1) as nat)).0
    }
}

/// `n` rotations to the right, each feeding the next.
pub open spec fn rrc_times(v: u8, n: nat) -> u8
    decreases n,
{
    if n == 0 {
        v
    } else {
        rrc_result(rrc_times(v, (n - 1) as nat)).0
    }
}

/// `v` doubled `n` times.
pub open spec fn doubled(v: int, n: nat) -> int
    decreases n,
{
    if n == 0 {
        v
    } else {
        2 * doubled(v, (n - 1) as nat)
    }
}

/// Away from 255 one rotation to the left doubles modulo 255.
proof fn rlc_doubles(x: u8, y: int)
    requires
        x < 255,
        0 <= y,
        x == y % 255,
    ensures
        rlc_result(x).0 == (2 * y) % 255,
        rlc_result(x).0 < 255,
{
}

/// Away from 255 rotations to the left double modulo 255.
proof fn rlc_times_doubles(v: u8, n: nat)
    requires
        v < 255,
    ensures
        rlc_times(v, n) == doubled(v as int, n) % 255,
        rlc_times(v, n) < 255,
        doubled(v as int, n) >= 0,
    decreases n,
{
    if n > 0 {
        rlc_times_doubles(v, (n - 1) as nat);
        rlc_doubles(rlc_times(v, (n - 1) as nat), doubled(v as int, (n - 1) as nat));
    }
}

/// A rotation to the left may be taken first or last.
proof fn rlc_times_commutes(v: u8, n: nat)
    ensures
        rlc_times(rlc_result(v).0, n) == rlc_result(rlc_times(v, n)).0,
    decreases n,
{
    if n > 0 {
        rlc_times_commutes(v, (n - 1) as nat);
    }
}

/// `n` rotations to the left undo `n` rotations to the right.
proof fn rlc_times_undoes_rrc_times(v: u8, n: nat)
    ensures
        rlc_times(rrc_times(v, n), n) == v,
    decreases n,
{
    if n > 0 {
        let w = rrc_times(v, (n - 1) as nat);
        rlc_times_undoes_rrc_times(v, (n - 1) as nat);
        rlc_times_commutes(rrc_result(w).0, (n - 1) as nat);
        assert(rlc_result(rrc_result(w).0).0 == w);
    }
}

/// Eight rotations to the left bring every byte back to itself.
proof fn eight_left_rotations(v: u8)
    ensures
        rlc_times(v, 8) == v,
{
    if v == 255 {
        reveal_with_fuel(rlc_times, 9);
        assert(rlc_result(255).0 == 255);
    } else {
        rlc_times_doubles(v, 8);
        reveal_with_fuel(doubled, 9);
        assert(doubled(v as int, 8) == 256 * v);
    }
}

/// Eight rotations in one direction bring every byte back to itself.
pub proof fn eight_rotations_are_identity(v: u8)
    ensures
        rlc_times(v, 8) == v,
        rrc_times(v, 8) == v,
{
    eight_left_rotations(v);
    eight_left_rotations(rrc_times(v, 8));
    rlc_times_undoes_rrc_times(v, 8);
}

/// A rotation through carry undone by the opposite rotation gives back the
/// value and the carry it started from, with Z telling whether the value is zero.
pub proof fn rl_and_rr_cancel(v: u8, cin: bool)
    ensures
        ({
            let there = rl_result(v, cin);
            let back = rr_result(there.0, there.1.carry);
            back.0 == v && back.1.carry == cin && back.1.zero == (v == 0)
        }),
        ({
            let there = rr_result(v, cin);
            let back = rl_result(there.0, there.1.carry);
            back.0 == v && back.1.carry == cin && back.1.zero == (v == 0)
        }),
{
}

} // verus!
