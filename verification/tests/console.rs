use gameboy::cartridge::NoMapperCartridge;
use gameboy::console::Console;
use gameboy::cpu::Cpu;
use gameboy::interrupts::clear_bit;
use gameboy::interrupts::find_lowest_line;
use gameboy::interrupts::vector_for;

fn cpu_running(program: &[u8]) -> Cpu {
    let mut cpu: Cpu = Default::default();
    for (i, byte) in program.iter().enumerate() {
        cpu.mem.write8(0xC000 + i as u16, *byte);
    }
    cpu.regs.pc = 0xC000;
    cpu.regs.sp = 0xDFF0;
    cpu
}

#[test]
fn lowest_line_comes_first() {
    assert_eq!(find_lowest_line(0x00), None);
    assert_eq!(find_lowest_line(0x1F), Some(0x01));
    assert_eq!(find_lowest_line(0x1E), Some(0x02));
    assert_eq!(find_lowest_line(0x1C), Some(0x04));
    assert_eq!(find_lowest_line(0x18), Some(0x08));
    assert_eq!(find_lowest_line(0x10), Some(0x10));
    assert_eq!(find_lowest_line(0xE0), None);
    assert_eq!(find_lowest_line(0xF4), Some(0x04));
}

#[test]
fn every_line_has_its_vector() {
    assert_eq!(vector_for(0x01), 0x40);
    assert_eq!(vector_for(0x02), 0x48);
    assert_eq!(vector_for(0x04), 0x50);
    assert_eq!(vector_for(0x08), 0x58);
    assert_eq!(vector_for(0x10), 0x60);
}

#[test]
fn clear_bit_clears_one_bit() {
    assert_eq!(clear_bit(0xFF, 0x04), 0xFB);
    assert_eq!(clear_bit(0xFB, 0x04), 0xFB);
    assert_eq!(clear_bit(0x10, 0x10), 0x00);
}

#[test]
fn serving_an_interrupt() {
    let mut cpu = cpu_running(&[0x00]);
    cpu.interrupts = true;
    cpu.mem.interrupt_enable = 0x1F;
    cpu.mem.interrupt_flag = 0x16;
    let pending = cpu.pending_lines();
    assert_eq!(pending, 0x16);
    assert_eq!(cpu.service_interrupts(pending), 5);
    assert_eq!(cpu.regs.pc, 0x48);
    assert_eq!(cpu.regs.sp, 0xDFEE);
    assert_eq!(cpu.mem.read16(0xDFEE), 0xC000);
    assert_eq!(cpu.mem.interrupt_flag, 0x14);
    assert!(!cpu.interrupts);
}

#[test]
fn each_line_is_served_at_its_vector() {
    for (line, vector) in [(0x01u8, 0x40u16), (0x02, 0x48), (0x04, 0x50), (0x08, 0x58), (0x10, 0x60)] {
        let mut cpu = cpu_running(&[0x00]);
        cpu.interrupts = true;
        cpu.mem.interrupt_enable = line;
        cpu.mem.interrupt_flag = 0xFF;
        let pending = cpu.pending_lines();
        assert_eq!(cpu.service_interrupts(pending), 5);
        assert_eq!(cpu.regs.pc, vector);
        assert_eq!(cpu.mem.interrupt_flag, 0xFF & !line);
    }
}

#[test]
fn nothing_is_served_with_ime_clear_or_nothing_pending() {
    let mut cpu = cpu_running(&[0x00]);
    cpu.mem.interrupt_enable = 0x1F;
    cpu.mem.interrupt_flag = 0x01;
    assert_eq!(cpu.service_interrupts(0x01), 0);
    assert_eq!(cpu.regs.pc, 0xC000);
    assert_eq!(cpu.mem.interrupt_flag, 0x01);
    cpu.interrupts = true;
    assert_eq!(cpu.service_interrupts(0x00), 0);
    assert_eq!(cpu.service_interrupts(0xE0), 0);
    assert_eq!(cpu.regs.pc, 0xC000);
    assert!(cpu.interrupts);
}

#[test]
fn a_line_that_is_not_enabled_is_not_pending() {
    let mut cpu = cpu_running(&[0x00]);
    cpu.mem.interrupt_enable = 0x04;
    cpu.mem.interrupt_flag = 0x03;
    assert_eq!(cpu.pending_lines(), 0x00);
}

#[test]
fn halted_processor_waits_and_wakes() {
    let mut cpu = cpu_running(&[0x76, 0x3C]);
    assert_eq!(cpu.step(), 1);
    assert!(!cpu.enabled);
    for _ in 0..5 {
        assert_eq!(cpu.step(), 1);
        assert_eq!(cpu.regs.pc, 0xC001);
        assert_eq!(cpu.regs.a, 0);
    }
    // a raised line that is not enabled does not wake it
    cpu.mem.interrupt_flag = 0x04;
    assert_eq!(cpu.step(), 1);
    assert_eq!(cpu.regs.pc, 0xC001);
    // an enabled one does, and with IME clear it is not served
    cpu.mem.interrupt_enable = 0x04;
    assert_eq!(cpu.step(), 1);
    assert!(cpu.enabled);
    assert_eq!(cpu.regs.a, 1);
    assert_eq!(cpu.regs.pc, 0xC002);
    assert_eq!(cpu.mem.interrupt_flag, 0x04);
}

#[test]
fn serving_wakes_a_halted_processor() {
    let mut cpu = cpu_running(&[0x76]);
    cpu.interrupts = true;
    cpu.step();
    assert!(!cpu.enabled);
    cpu.mem.interrupt_enable = 0x01;
    cpu.mem.interrupt_flag = 0x01;
    assert_eq!(cpu.service_interrupts(0x01), 5);
    assert!(cpu.enabled);
    assert_eq!(cpu.regs.pc, 0x40);
    assert_eq!(cpu.mem.read16(cpu.regs.sp), 0xC001);
}

#[test]
fn step_runs_one_instruction() {
    let mut cpu = cpu_running(&[0x3E, 0x42, 0x47]);
    assert!(cpu.check_step());
    assert_eq!(cpu.step(), 2);
    assert_eq!(cpu.regs.a, 0x42);
    assert_eq!(cpu.step(), 1);
    assert_eq!(cpu.regs.b, 0x42);
}

#[test]
fn a_halted_processor_can_step_before_an_undefined_opcode() {
    let mut cpu = cpu_running(&[0x76, 0xDD]);
    cpu.step();
    assert!(cpu.check_step());
    assert_eq!(cpu.step(), 1);
    cpu.mem.interrupt_enable = 0x01;
    cpu.mem.interrupt_flag = 0x01;
    assert!(!cpu.check_step());
}

#[test]
fn console_starts_at_power_on() {
    let console = Console::new();
    assert_eq!(console.cpu.regs.pc, 0);
    assert_eq!(console.cpu.regs.sp, 0);
    assert_eq!(console.cpu.regs.get_af(), 0);
    assert!(console.cpu.enabled);
    assert!(!console.cpu.interrupts);
    assert_eq!(console.cpu.mem.read8(0xFF40), 0);
    assert_eq!(console.cpu.mem.read8(0xFF04), 0x18);
    assert_eq!(console.cpu.mem.read8(0xFF07), 0xFB);
    assert_eq!(console.cpu.mem.read8(0xFF00), 0xDF);
}

#[test]
fn console_runs_a_cartridge() {
    let mut image = vec![0u8; 0x8000];
    // LD A,0x12 ; LD (0xC000),A ; JR -2
    let program = [0x3E, 0x12, 0xEA, 0x00, 0xC0, 0x18, 0xFE];
    image[..program.len()].copy_from_slice(&program);
    let mut console = Console::with_cartridge(NoMapperCartridge::new(image).unwrap());
    for _ in 0..10 {
        assert!(console.check_cycle());
        console.cycle();
    }
    assert_eq!(console.cpu.regs.a, 0x12);
    assert_eq!(console.cpu.mem.read8(0xC000), 0x12);
    assert_eq!(console.cpu.regs.pc, 0x0005);
}

#[test]
fn console_clocks_the_timer_by_four_dots_a_cycle() {
    let mut console = Console::new();
    console.cpu = cpu_running(&[0x00, 0x00, 0x00, 0x00, 0xC3, 0x00, 0xC0]);
    console.cpu.mem.write8(0xFF07, 0x05);
    // four NOP of one cycle each: 16 dots
    for _ in 0..4 {
        console.cycle();
    }
    assert_eq!(console.cpu.mem.read8(0xFF05), 1);
    // JP takes four cycles: 16 dots more
    console.cycle();
    assert_eq!(console.cpu.mem.read8(0xFF05), 2);
    assert_eq!(console.cpu.mem.timer.internal_div, 32);
}

#[test]
fn console_clocks_the_ppu_by_four_dots_a_cycle() {
    let mut console = Console::new();
    console.cpu = cpu_running(&[0x18, 0xFE]);
    console.cpu.mem.write8(0xFF40, 0x80);
    // JR takes three cycles: 12 dots; 38 of them make a line
    for _ in 0..37 {
        console.cycle();
    }
    assert_eq!(console.cpu.mem.read8(0xFF44), 0);
    assert_eq!(console.cpu.mem.ppu.ticks, 444);
    console.cycle();
    assert_eq!(console.cpu.mem.read8(0xFF44), 1);
    assert_eq!(console.cpu.mem.ppu.ticks, 0);
}

#[test]
fn console_gathers_the_lines_into_if() {
    let mut console = Console::new();
    console.cpu = cpu_running(&[0x18, 0xFE]);
    console.cpu.mem.write8(0xFF07, 0x05);
    console.cpu.mem.write8(0xFF05, 0xFF);
    console.cpu.mem.joy.press(0);
    console.cycle();
    // the joypad line at once, the timer line after 16 dots
    assert_eq!(console.cpu.mem.read8(0xFF0F), 0x10);
    assert_eq!(console.cpu.mem.joy.interrupt(), 0);
    console.cycle();
    assert_eq!(console.cpu.mem.read8(0xFF0F), 0x14);
    assert_eq!(console.cpu.mem.timer.interrupt(), 0);
    assert_eq!(console.cpu.mem.read8(0xFF05), 0x00);
}

#[test]
fn console_latches_vblank_and_serves_it() {
    let mut console = Console::new();
    // EI ; JR -2, and RETI at the V-Blank vector would be in ROM: the slot is
    // empty, so the handler that runs is RST 0x38 again and again
    console.cpu = cpu_running(&[0xFB, 0x18, 0xFE]);
    console.cpu.mem.write8(0xFF40, 0x80);
    console.cpu.mem.write8(0xFFFF, 0x01);
    let mut cycles = 0;
    while console.cpu.mem.read8(0xFF0F) & 0x01 == 0 {
        console.cycle();
        cycles += 1;
        assert!(cycles < 30_000);
    }
    assert_eq!(console.cpu.mem.read8(0xFF44), 144);
    assert_eq!(console.cpu.mem.ppu.interrupt(), 0);
    assert!(console.cpu.interrupts);
    let pc = console.cpu.regs.pc;
    let sp = console.cpu.regs.sp;
    console.cycle();
    assert_eq!(console.cpu.regs.pc, 0x40);
    assert_eq!(console.cpu.regs.sp, sp.wrapping_sub(2));
    assert_eq!(console.cpu.mem.read16(console.cpu.regs.sp), pc);
    assert!(!console.cpu.interrupts);
    assert_eq!(console.cpu.mem.read8(0xFF0F) & 0x01, 0);
    // serving took five cycles: 20 dots
    assert_eq!(console.cpu.mem.ppu.ticks % 4, 0);
}

#[test]
fn console_refuses_an_undefined_opcode() {
    let mut console = Console::new();
    console.cpu = cpu_running(&[0x00, 0xD3]);
    assert!(console.check_cycle());
    console.cycle();
    assert!(!console.check_cycle());
    // an interrupt that will be served comes first
    console.cpu.interrupts = true;
    console.cpu.mem.interrupt_enable = 0x04;
    console.cpu.mem.interrupt_flag = 0x04;
    assert!(console.check_cycle());
    console.cycle();
    assert_eq!(console.cpu.regs.pc, 0x50);
}

#[test]
fn console_lets_time_pass_while_halted() {
    let mut console = Console::new();
    console.cpu = cpu_running(&[0x76]);
    console.cpu.mem.write8(0xFF07, 0x05);
    console.cpu.mem.write8(0xFFFF, 0x04);
    console.cycle();
    assert!(!console.cpu.enabled);
    let mut cycles = 0;
    while !console.cpu.enabled {
        console.cycle();
        cycles += 1;
        assert!(cycles < 2000);
    }
    // TIMA overflows after 256 steps of 16 dots: 1024 cycles of 4 dots; the
    // cycle after the one that latched the line wakes the processor
    assert_eq!(cycles, 1024);
    assert_eq!(console.cpu.mem.read8(0xFF0F), 0x04);
}

#[test]
fn stopped_processor_waits_for_the_joypad() {
    let mut cpu = cpu_running(&[0x10, 0x00, 0x3C]);
    assert_eq!(cpu.step(), 1);
    assert!(cpu.stopped);
    // no other line ends STOP, enabled or not
    cpu.mem.interrupt_enable = 0x1F;
    cpu.mem.interrupt_flag = 0x0F;
    assert!(cpu.is_idle());
    assert_eq!(cpu.step(), 1);
    assert_eq!(cpu.regs.pc, 0xC002);
    // the joypad line does, even when it is not enabled
    cpu.mem.interrupt_enable = 0x00;
    cpu.mem.interrupt_flag = 0x10;
    assert!(!cpu.is_idle());
    assert_eq!(cpu.step(), 1);
    assert!(cpu.enabled);
    assert!(!cpu.stopped);
    assert_eq!(cpu.regs.a, 1);
}

#[test]
fn console_parks_the_timer_while_stopped() {
    let mut console = Console::new();
    console.cpu = cpu_running(&[0x00, 0x10, 0x00, 0x3C, 0x18, 0xFE]);
    console.cpu.mem.write8(0xFF07, 0x05);
    console.cpu.mem.write8(0xFF40, 0x80);
    console.cycle();
    assert_eq!(console.cpu.mem.timer.internal_div, 4);
    console.cycle();
    assert!(console.cpu.stopped);
    for _ in 0..1000 {
        console.cycle();
    }
    assert_eq!(console.cpu.mem.read8(0xFF04), 0x18);
    assert_eq!(console.cpu.mem.read8(0xFF05), 0);
    assert_eq!(console.cpu.mem.timer.internal_div, 4);
    // the pixel processing unit goes on
    assert_eq!(console.cpu.mem.read8(0xFF44), 8);
    console.cpu.mem.joy.press(7);
    // this cycle latches the line, the next one runs INC A
    console.cycle();
    assert!(console.cpu.stopped);
    assert_eq!(console.cpu.mem.read8(0xFF0F) & 0x10, 0x10);
    console.cycle();
    assert!(!console.cpu.stopped);
    assert_eq!(console.cpu.regs.a, 1);
    assert_eq!(console.cpu.mem.timer.internal_div, 8);
}

#[test]
fn halted_processor_keeps_the_timer_running() {
    let mut console = Console::new();
    console.cpu = cpu_running(&[0x76]);
    for _ in 0..64 {
        console.cycle();
    }
    assert!(!console.cpu.enabled);
    assert_eq!(console.cpu.mem.read8(0xFF04), 0x19);
}
