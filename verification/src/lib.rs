//! A cycle-stepped model of the monochrome Game Boy (DMG): the LR35902
//! processor, the address-space router, the pixel processing unit, the timer,
//! the joypad and the cartridge slot.
//!
//! Every executable function carries a contract over a pure model of the
//! machine state, so that one machine cycle of the console is a function from
//! state to state that can be reasoned about.
pub mod alu;
pub mod bits;
pub mod cartridge;
pub mod console;
pub mod cpu;
pub mod execute;
pub mod flow;
pub mod interrupts;
pub mod joypad;
pub mod memory;
pub mod operands;
pub mod ppu;
pub mod prefixed;
pub mod registers;
pub mod shifts;
pub mod timer;
