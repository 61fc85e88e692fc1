//! XOR sprite drawing on the 64x32 display buffer.
//!
//! A sprite is a rectangular bitmap of up to 15 rows, 8 pixels per row, read
//! from machine memory. Drawing XORs each sprite bit onto the display at a
//! coordinate wrapped at the display edges, and reports a collision when any
//! previously-set pixel is cleared. The sprite bits are processed in
//! row-major order; [`spec_draw_disp`] and [`spec_draw_collision`] fold that
//! order into a recursion over the number of bits processed.

use vstd::prelude::*;

verus! {

/// Bit `b` (0 = leftmost, most significant) of a sprite row byte.
pub open spec fn spec_sprite_bit(row: u8, b: u8) -> u8 {
    (row >> ((7 - b) as u8)) & 1
}

/// The display cell a sprite bit lands on: column `vx + b` wrapped at 64,
/// row `vy + r` wrapped at 32, in the row-major display buffer.
pub open spec fn spec_draw_idx(vx: int, vy: int, r: int, b: int) -> int {
    ((vy + r) % 32) * 64 + ((vx + b) % 64)
}

/// The display buffer after the first `k` sprite bits, in row-major order
/// (bit number `j` covers sprite row `j / 8` and column `j % 8`), have been
/// XORed onto `disp0`. `mem` is the machine memory and `addr` the address of
/// the sprite's first row byte.
pub open spec fn spec_draw_disp(
    disp0: Seq<u8>,
    mem: Seq<u8>,
    addr: int,
    vx: int,
    vy: int,
    k: int,
) -> Seq<u8>
    decreases k,
{
    if k <= 0 {
        disp0
    } else {
        let prev = spec_draw_disp(disp0, mem, addr, vx, vy, k - 1);
        let r = (k - 1) / 8;
        let b = (k - 1) % 8;
        let idx = spec_draw_idx(vx, vy, r, b);
        prev.update(idx, prev[idx] ^ spec_sprite_bit(mem[addr + r], b as u8))
    }
}

/// Whether one of the first `k` sprite bits is 1 and lands on a cell of
/// `disp0` that is already 1: the XOR then clears a previously-set pixel,
/// which is the collision condition reported in VF.
pub open spec fn spec_draw_collision(
    disp0: Seq<u8>,
    mem: Seq<u8>,
    addr: int,
    vx: int,
    vy: int,
    k: int,
) -> bool
    decreases k,
{
    if k <= 0 {
        false
    } else {
        let r = (k - 1) / 8;
        let b = (k - 1) % 8;
        spec_draw_collision(disp0, mem, addr, vx, vy, k - 1) || (spec_sprite_bit(
            mem[addr + r],
            b as u8,
        ) == 1 && disp0[spec_draw_idx(vx, vy, r, b)] == 1)
    }
}

/// Extracts bit `b` (0 = leftmost) of a sprite row byte.
fn sprite_bit(row: u8, b: u8) -> (bit: u8)
    requires
        b < 8,
    ensures
        bit == spec_sprite_bit(row, b),
        bit <= 1,
{
    let shift: u8 = 7 - b;
    let bit = (row >> shift) & 1;
    proof {
        assert((row >> shift) & 1 <= 1) by (bit_vector);
    }
    bit
}

/// XORs the `n`-row sprite stored at `addr` in `mem` onto the display
/// buffer, row by row, wrapping at the display edges, and reports whether
/// any previously-set pixel was cleared.
pub fn draw_sprite(disp: &mut Vec<u8>, mem: &Vec<u8>, addr: usize, vx: u8, vy: u8, n: u8) -> (collided: bool)
    requires
        old(disp)@.len() == 2048,
        forall|i: int| 0 <= i < 2048 ==> old(disp)@[i] <= 1,
        mem@.len() == 4096,
        n <= 15,
        addr + n <= 4096,
    ensures
        final(disp)@ == spec_draw_disp(
            old(disp)@,
            mem@,
            addr as int,
            vx as int,
            vy as int,
            8 * (n as int),
        ),
        final(disp)@.len() == 2048,
        forall|i: int| 0 <= i < 2048 ==> final(disp)@[i] <= 1,
        collided == spec_draw_collision(
            old(disp)@,
            mem@,
            addr as int,
            vx as int,
            vy as int,
            8 * (n as int),
        ),
{
    let ghost disp0 = disp@;
    let total: usize = 8 * (n as usize);

    // First pass: the collision flag, read off the untouched buffer.
    let mut collided = false;
    let mut k: usize = 0;
    while k < total
        invariant
            disp@ == disp0,
            disp0.len() == 2048,
            mem@.len() == 4096,
            n <= 15,
            addr + n <= 4096,
            total == 8 * (n as int),
            k <= total,
            collided == spec_draw_collision(
                disp0,
                mem@,
                addr as int,
                vx as int,
                vy as int,
                k as int,
            ),
        decreases total - k,
    {
        proof {
            assert(k / 8 < n as int) by (nonlinear_arith)
                requires
                    k < 8 * (n as int),
                    0 <= k,
            ;
        }
        let r = k / 8;
        let b = k % 8;
        let row = mem[addr + r];
        let bit = sprite_bit(row, b as u8);
        let px = ((vx as usize) + b) % 64;
        let py = ((vy as usize) + r) % 32;
        let idx = py * 64 + px;
        if disp[idx] == 1 && bit == 1 {
            collided = true;
        }
        k += 1;
    }

    // Second pass: XOR each sprite bit onto its cell.
    let mut k: usize = 0;
    while k < total
        invariant
            disp0.len() == 2048,
            forall|i: int| 0 <= i < 2048 ==> disp0[i] <= 1,
            mem@.len() == 4096,
            n <= 15,
            addr + n <= 4096,
            total == 8 * (n as int),
            k <= total,
            disp@ == spec_draw_disp(disp0, mem@, addr as int, vx as int, vy as int, k as int),
            disp@.len() == 2048,
            forall|i: int| 0 <= i < 2048 ==> disp@[i] <= 1,
        decreases total - k,
    {
        proof {
            assert(k / 8 < n as int) by (nonlinear_arith)
                requires
                    k < 8 * (n as int),
                    0 <= k,
            ;
        }
        let r = k / 8;
        let b = k % 8;
        let row = mem[addr + r];
        let bit = sprite_bit(row, b as u8);
        let px = ((vx as usize) + b) % 64;
        let py = ((vy as usize) + r) % 32;
        let idx = py * 64 + px;
        let cur = disp[idx];
        let cell = cur ^ bit;
        proof {
            assert(cur <= 1 && bit <= 1 ==> (cur ^ bit) <= 1) by (bit_vector);
        }
        disp.set(idx, cell);
        k += 1;
    }
    collided
}

} // verus!
