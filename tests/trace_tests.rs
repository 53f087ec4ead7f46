use nes_cpu::bus::Bus;
use nes_cpu::cpu::{Mem, CPU};
use nes_cpu::rom::Rom;
use nes_cpu::trace::{format_instruction, trace};

fn test_rom() -> Rom {
    let mut raw: Vec<u8> = vec![0x4E, 0x45, 0x53, 0x1A, 0x02, 0x01, 0x01, 0x00];
    raw.extend(vec![0u8; 8]);
    raw.extend(vec![1u8; 2 * 16384]);
    raw.extend(vec![2u8; 8192]);
    Rom::new(&raw).unwrap()
}

#[test]
fn test_format_trace() {
    let mut bus = Bus::new(test_rom());
    bus.mem_write(100, 0xa2).unwrap();
    bus.mem_write(101, 0x01).unwrap();
    bus.mem_write(102, 0xca).unwrap();
    bus.mem_write(103, 0x88).unwrap();
    bus.mem_write(104, 0xCD).unwrap();
    bus.mem_write(105, 0xF5).unwrap();
    bus.mem_write(106, 0xC5).unwrap();
    bus.mem_write(107, 0xB0).unwrap();
    bus.mem_write(108, 0x04).unwrap();
    bus.mem_write(109, 0x00).unwrap();
    bus.mem_write(110, 0x00).unwrap();
    bus.mem_write(111, 0x00).unwrap();
    bus.mem_write(112, 0x00).unwrap();

    let mut cpu = CPU::new(bus);
    cpu.program_counter = 0x64;
    cpu.register_a = 1;
    cpu.register_x = 2;
    cpu.register_y = 3;
    let mut result: Vec<String> = vec![];
    cpu.run_with_callback(|cpu| {
        result.push(trace(cpu).unwrap());
    })
    .unwrap();
    assert_eq!(
        "0064  A2 01     LDX #$01                        A:01 X:02 Y:03 P:24 SP:FD",
        result[0]
    );
    assert_eq!(
        "0066  CA        DEX                             A:01 X:01 Y:03 P:24 SP:FD",
        result[1]
    );
    assert_eq!(
        "0067  88        DEY                             A:01 X:00 Y:03 P:26 SP:FD",
        result[2]
    );
    assert_eq!(
        "0068  CD F5 C5  CMP $C5F5                       A:01 X:00 Y:02 P:24 SP:FD",
        result[3]
    );
    assert_eq!(
        "006B  B0 04     BCS $0071                       A:01 X:00 Y:02 P:27 SP:FD",
        result[4]
    );
    // the BRK at $0071 moves the program counter past itself before the run stops
    assert_eq!(cpu.program_counter, 0x72);
}

#[test]
fn test_format_mem_access() {
    let mut bus = Bus::new(test_rom());
    // ORA ($33), Y
    bus.mem_write(100, 0x11).unwrap();
    bus.mem_write(101, 0x33).unwrap();

    //data
    bus.mem_write(0x33, 00).unwrap();
    bus.mem_write(0x34, 04).unwrap();

    //target cell
    bus.mem_write(0x400, 0xAA).unwrap();

    let mut cpu = CPU::new(bus);
    cpu.reset().unwrap();
    cpu.program_counter = 0x64;
    cpu.register_y = 0;
    let mut result: Vec<String> = vec![];
    cpu.run_with_callback(|cpu| {
        result.push(trace(cpu).unwrap());
    })
    .unwrap();
    assert_eq!(
        "0064  11 33     ORA ($33),Y = 0400 @ 0400 = AA  A:00 X:00 Y:00 P:24 SP:FD",
        result[0]
    );
}

fn cpu_with_program(program: &[u8], at: u16) -> CPU {
    let mut bus = Bus::new(test_rom());
    for (i, b) in program.iter().enumerate() {
        bus.mem_write(at + i as u16, *b).unwrap();
    }
    let mut cpu = CPU::new(bus);
    cpu.program_counter = at;
    cpu
}

#[test]
fn trace_line_at_known_state() {
    let mut cpu = cpu_with_program(&[0xA2, 0x01, 0xCA, 0x88, 0xCD, 0xF5, 0xC5, 0xB0, 0x04], 0x64);
    cpu.register_a = 1;
    cpu.register_x = 2;
    cpu.register_y = 3;
    cpu.status = 0x24;
    cpu.stack_pointer = 0xFD;
    assert_eq!(
        trace(&cpu).unwrap(),
        "0064  A2 01     LDX #$01                        A:01 X:02 Y:03 P:24 SP:FD"
    );
}

#[test]
fn format_zero_page_and_absolute_modes() {
    let mut cpu = cpu_with_program(&[0xA5, 0x10], 0x0300);
    cpu.mem_write(0x10, 0x5A).unwrap();
    assert_eq!(format_instruction(&cpu).unwrap(), format!("{:<8} {:>4} {:<26}", "A5 10", "LDA", "$10 = 5A"));

    let cpu = cpu_with_program(&[0xBD, 0x34, 0x12], 0x0300);
    assert_eq!(format_instruction(&cpu).unwrap(), format!("{:<8} {:>4} {:<26}", "BD 34 12", "LDA", "$1234,X"));

    let cpu = cpu_with_program(&[0x0A], 0x0300);
    assert_eq!(format_instruction(&cpu).unwrap(), format!("{:<8} {:>4} {:<26}", "0A", "ASL", ""));
}

#[test]
fn format_indirect_jump_and_backward_branch() {
    let mut cpu = cpu_with_program(&[0x6C, 0x20, 0x00], 0x0300);
    cpu.mem_write(0x20, 0x00).unwrap();
    cpu.mem_write(0x21, 0x07).unwrap();
    cpu.mem_write(0x0700, 0x99).unwrap();
    assert_eq!(
        format_instruction(&cpu).unwrap(),
        format!("{:<8} {:>4} {:<26}", "6C 20 00", "JMP", "($20) = 0700 @ 0700 = 99")
    );

    let cpu = cpu_with_program(&[0xD0, 0xFC], 0x0310);
    assert_eq!(format_instruction(&cpu).unwrap(), format!("{:<8} {:>4} {:<26}", "D0 FC", "BNE", "$030E"));
}

#[test]
fn format_unknown_opcode_fails() {
    let cpu = cpu_with_program(&[0x02], 0x0300);
    assert_eq!(format_instruction(&cpu), Err(nes_cpu::model::CpuError::UnknownOpcode(0x02)));
}

#[test]
fn format_zero_page_indexed_shows_effective_address() {
    let mut cpu = cpu_with_program(&[0xB5, 0x33], 0x0300);
    cpu.register_x = 1;
    cpu.mem_write(0x34, 0xAB).unwrap();
    assert_eq!(
        format_instruction(&cpu).unwrap(),
        format!("{:<8} {:>4} {:<26}", "B5 33", "LDA", "$33,X @ 34 = AB")
    );

    let mut cpu = cpu_with_program(&[0xB6, 0xFF], 0x0300);
    cpu.register_y = 2;
    cpu.mem_write(0x01, 0x5C).unwrap();
    assert_eq!(
        format_instruction(&cpu).unwrap(),
        format!("{:<8} {:>4} {:<26}", "B6 FF", "LDX", "$FF,Y @ 01 = 5C")
    );
}

#[test]
fn traced_run_calls_the_observer_before_each_instruction() {
    let mut cpu = cpu_with_program(&[0xA2, 0x01, 0xCA, 0x88, 0xCD, 0xF5, 0xC5, 0xB0, 0x04], 0x64);
    cpu.register_a = 1;
    cpu.register_x = 2;
    cpu.register_y = 3;
    let mut pcs: Vec<u16> = vec![];
    cpu.run_with_callback(|c| pcs.push(c.program_counter)).unwrap();
    assert_eq!(pcs, vec![0x64, 0x66, 0x67, 0x68, 0x6B, 0x71]);
    assert_eq!(
        (cpu.register_a, cpu.register_x, cpu.register_y, cpu.status, cpu.program_counter),
        (1, 0, 2, 0x27, 0x72)
    );
}
