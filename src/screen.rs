use vstd::prelude::*;

use crate::bus::BusView;
use crate::cpu::{Mem, CPU};

verus! {

/// The screen is 32 x 32 cells of RAM from `$0200` on, one colour index per cell.
pub const SCREEN_START: u16 = 0x0200;

pub const SCREEN_CELLS: usize = 1024;

/// The frame byte `j` (three per cell, red, green, blue) that memory `m` shows through
/// `palette`.
pub open spec fn frame_byte(m: BusView, palette: Seq<[u8; 3]>, j: int) -> u8 {
    palette[m.ram[0x0200 + j / 3] as int]@[j % 3]
}

/// Redraws `frame` from the screen cells of RAM, each colour index looked up in `palette`.
/// Returns whether any byte of the frame changed.
pub fn read_screen_state(cpu: &CPU, palette: &[[u8; 3]; 256], frame: &mut [u8; 3072]) -> (r:
    bool)
    ensures
        forall|j: int| 0 <= j < 3072 ==> final(frame)@[j] == frame_byte(cpu@.mem, palette@, j),
        r <==> exists|j: int| 0 <= j < 3072 && final(frame)@[j] != old(frame)@[j],
{
    let mut frame_idx: usize = 0;
    let mut update = false;
    let mut i: usize = 0;
    while i < SCREEN_CELLS
        invariant
            i <= SCREEN_CELLS,
            frame_idx == 3 * i,
            frame@.len() == 3072,
            forall|j: int| 0 <= j < 3 * i ==> frame@[j] == frame_byte(cpu@.mem, palette@, j),
            forall|j: int| 3 * i <= j < 3072 ==> frame@[j] == old(frame)@[j],
            update <==> exists|j: int| 0 <= j < 3 * i && frame@[j] != old(frame)@[j],
        decreases SCREEN_CELLS - i,
    {
        let color_idx = match cpu.mem_read(SCREEN_START + i as u16) {
            Ok(c) => c,
            Err(_) => 0,
        };
        assert(((0x0200 + i) as u16) & 0x07FF == 0x0200 + i) by (bit_vector)
            requires
                i < 1024,
        ;
        let rgb = palette[color_idx as usize];
        let ghost before = frame@;
        if frame[frame_idx] != rgb[0] || frame[frame_idx + 1] != rgb[1] || frame[frame_idx + 2]
            != rgb[2] {
            frame[frame_idx] = rgb[0];
            frame[frame_idx + 1] = rgb[1];
            frame[frame_idx + 2] = rgb[2];
            update = true;
            assert(frame@[frame_idx as int] != old(frame)@[frame_idx as int] || frame@[frame_idx
                + 1] != old(frame)@[frame_idx + 1] || frame@[frame_idx + 2] != old(frame)@[frame_idx
                + 2]);
        }
        assert forall|j: int| 3 * i <= j < 3 * i + 3 implies frame@[j] == frame_byte(
            cpu@.mem,
            palette@,
            j,
        ) by {
            assert(j / 3 == i && (j == 3 * i + j % 3));
        }
        i = i + 1;
        frame_idx = frame_idx + 3;
    }
    update
}

} // verus!
