//! Installing the font and a program image in memory.

use crate::machine::{Fault, Machine, MachineState, MEMORY_SIZE, PROGRAM_START};
use vstd::prelude::*;

verus! {

/// Bytes in the font table: sixteen glyphs of five rows each.
pub const FONT_SIZE: usize = 80;

/// Rows in one glyph.
pub const GLYPH_ROWS: usize = 5;

/// The largest program image that fits between the program start and the
/// end of memory.
pub const MAX_IMAGE_SIZE: usize = 3584;

/// The built-in font: the glyphs of the hexadecimal digits `0` to `F`, five
/// rows each, the pixels of a row in the high nibble of its byte.
pub open spec fn font() -> Seq<u8> {
    seq![
        0xF0u8, 0x90, 0x90, 0x90, 0xF0,
        0x20, 0x60, 0x20, 0x20, 0x70,
        0xF0, 0x10, 0xF0, 0x80, 0xF0,
        0xF0, 0x10, 0xF0, 0x10, 0xF0,
        0x90, 0x90, 0xF0, 0x10, 0x10,
        0xF0, 0x80, 0xF0, 0x10, 0xF0,
        0xF0, 0x80, 0xF0, 0x90, 0xF0,
        0xF0, 0x10, 0x20, 0x40, 0x40,
        0xF0, 0x90, 0xF0, 0x90, 0xF0,
        0xF0, 0x90, 0xF0, 0x10, 0xF0,
        0xF0, 0x90, 0xF0, 0x90, 0x90,
        0xE0, 0x90, 0xE0, 0x90, 0xE0,
        0xF0, 0x80, 0x80, 0x80, 0xF0,
        0xE0, 0x90, 0x90, 0x90, 0xE0,
        0xF0, 0x80, 0xF0, 0x80, 0xF0,
        0xF0, 0x80, 0xF0, 0x80, 0x80,
    ]
}

/// The built-in font table.
pub fn font_table() -> (table: [u8; 80])
    ensures
        table@ == font(),
{
    let table: [u8; 80] = [
        0xF0, 0x90, 0x90, 0x90, 0xF0,
        0x20, 0x60, 0x20, 0x20, 0x70,
        0xF0, 0x10, 0xF0, 0x80, 0xF0,
        0xF0, 0x10, 0xF0, 0x10, 0xF0,
        0x90, 0x90, 0xF0, 0x10, 0x10,
        0xF0, 0x80, 0xF0, 0x10, 0xF0,
        0xF0, 0x80, 0xF0, 0x90, 0xF0,
        0xF0, 0x10, 0x20, 0x40, 0x40,
        0xF0, 0x90, 0xF0, 0x90, 0xF0,
        0xF0, 0x90, 0xF0, 0x10, 0xF0,
        0xF0, 0x90, 0xF0, 0x90, 0x90,
        0xE0, 0x90, 0xE0, 0x90, 0xE0,
        0xF0, 0x80, 0x80, 0x80, 0xF0,
        0xE0, 0x90, 0x90, 0x90, 0xE0,
        0xF0, 0x80, 0xF0, 0x80, 0xF0,
        0xF0, 0x80, 0xF0, 0x80, 0x80,
    ];
    assert(table@ =~= font());
    table
}

/// Memory after the font and `image` have been installed in `memory`: the
/// font from address zero, the image from the program start, every other
/// byte as it was.
pub open spec fn installed(memory: Seq<u8>, image: Seq<u8>) -> Seq<u8> {
    Seq::new(
        memory.len(),
        |a: int|
            if a < FONT_SIZE {
                font()[a]
            } else if PROGRAM_START <= a < PROGRAM_START + image.len() {
                image[a - PROGRAM_START]
            } else {
                memory[a]
            },
    )
}

/// Installs the built-in font at the bottom of memory and the program
/// `image` at the program start. An image of more than `MAX_IMAGE_SIZE`
/// bytes does not fit: it is refused with `Fault::ImageTooLarge` before
/// anything is written.
pub fn load_program(machine: &mut Machine, image: &[u8]) -> (r: Result<(), Fault>)
    requires
        old(machine).wf(),
    ensures
        final(machine).wf(),
        image@.len() <= MAX_IMAGE_SIZE ==> r is Ok && final(machine)@ == (MachineState {
            memory: installed(old(machine)@.memory, image@),
            ..old(machine)@
        }),
        image@.len() > MAX_IMAGE_SIZE ==> r == Err::<(), Fault>(Fault::ImageTooLarge)
            && final(machine)@ == old(machine)@,
{
    if image.len() > MAX_IMAGE_SIZE {
        return Err(Fault::ImageTooLarge);
    }
    let ghost s = machine@;
    let table: [u8; 80] = font_table();
    let mut i: usize = 0;
    while i < FONT_SIZE
        invariant
            i <= FONT_SIZE,
            s.valid(),
            machine.wf(),
            table@ == font(),
            machine@ == (MachineState { memory: machine@.memory, ..s }),
            forall|a: int|
                0 <= a < MEMORY_SIZE ==> #[trigger] machine@.memory[a] == (if a < i {
                    font()[a]
                } else {
                    s.memory[a]
                }),
        decreases FONT_SIZE - i,
    {
        let _ = machine.write(i as u16, table[i]);
        i += 1;
    }
    let mut j: usize = 0;
    while j < image.len()
        invariant
            j <= image@.len() <= MAX_IMAGE_SIZE,
            s.valid(),
            machine.wf(),
            machine@ == (MachineState { memory: machine@.memory, ..s }),
            forall|a: int|
                0 <= a < MEMORY_SIZE ==> #[trigger] machine@.memory[a] == (if a < FONT_SIZE {
                    font()[a]
                } else if PROGRAM_START <= a < PROGRAM_START + j {
                    image@[a - PROGRAM_START]
                } else {
                    s.memory[a]
                }),
        decreases image@.len() - j,
    {
        let _ = machine.write((PROGRAM_START as usize + j) as u16, image[j]);
        j += 1;
    }
    assert(machine@.memory =~= installed(s.memory, image@));
    Ok(())
}

} // verus!
