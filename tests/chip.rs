use riscv32i::chip::{interrupt_source, start_trap_rust, ArtyExx, InterruptSource, IN_USE_INTERRUPTS};
use riscv32i::trap::{trap_vector, TrapOrigin, TrapState};

#[test]
fn chip_uses_timer_uart_and_gpio_lines() {
    assert_eq!(IN_USE_INTERRUPTS, 0x1FFFF0080);
    let chip = ArtyExx::new();
    assert!(chip.clic.is_in_use(7));
    for i in 16..=32u32 {
        assert!(chip.clic.is_in_use(i));
    }
    assert!(!chip.clic.is_in_use(3));
    assert!(!chip.clic.is_in_use(33));
    assert!(!chip.has_pending_interrupts());
}

#[test]
fn enable_all_interrupts_enables_lines_in_use() {
    let mut chip = ArtyExx::new();
    chip.enable_all_interrupts();
    assert!(chip.clic.is_enabled(7));
    assert!(chip.clic.is_enabled(20));
    assert!(!chip.clic.is_enabled(3));
    assert!(!chip.clic.is_enabled(40));
}

#[test]
fn service_takes_lines_in_ascending_order() {
    let mut chip = ArtyExx::new();
    for i in [30u32, 7, 16, 3, 40] {
        chip.clic.set_pending(i);
    }
    assert!(chip.has_pending_interrupts());
    let served = chip.service_pending_interrupts();
    assert_eq!(served, vec![7, 16, 30]);
    assert!(!chip.has_pending_interrupts());
    assert!(chip.clic.is_pending(3));
    assert!(chip.clic.is_pending(40));
    assert!(!chip.clic.is_pending(30));
}

#[test]
fn service_with_nothing_pending_is_empty() {
    let mut chip = ArtyExx::new();
    assert_eq!(chip.service_pending_interrupts(), Vec::<u32>::new());
}

#[test]
fn sources_of_chip_lines() {
    assert_eq!(interrupt_source(7), Some(InterruptSource::MachineTimer));
    assert_eq!(interrupt_source(16), Some(InterruptSource::Uart0));
    assert_eq!(interrupt_source(17), Some(InterruptSource::Gpio { pin: 0 }));
    assert_eq!(interrupt_source(32), Some(InterruptSource::Gpio { pin: 15 }));
    assert_eq!(interrupt_source(33), None);
    assert_eq!(interrupt_source(3), None);
    assert_eq!(interrupt_source(0), None);
}

#[test]
fn kernel_trap_disables_firing_lines() {
    let mut chip = ArtyExx::new();
    chip.enable_all_interrupts();
    chip.clic.set_pending(7);
    chip.clic.set_pending(18);
    start_trap_rust(&mut chip);
    assert!(!chip.clic.is_enabled(7));
    assert!(!chip.clic.is_enabled(18));
    assert!(chip.clic.is_enabled(19));
    assert!(chip.clic.is_pending(7));
    assert!(chip.clic.is_pending(18));
    assert_eq!(chip.service_pending_interrupts(), vec![7, 18]);
}

#[test]
fn trap_vector_selects_direct_mode() {
    assert_eq!(trap_vector(0x2040_0000), 0x2040_0002);
    assert_eq!(trap_vector(0x2040_0002), 0x2040_0002);
}

#[test]
fn trap_origin_follows_scratch_register() {
    let mut t = TrapState::new();
    assert_eq!(t.running(), TrapOrigin::Kernel);
    assert_eq!(t.take_trap(), (TrapOrigin::Kernel, 0));
    t.enter_app(0x8000_1000);
    assert_eq!(t.running(), TrapOrigin::App);
    assert_eq!(t.take_trap(), (TrapOrigin::App, 0x8000_1000));
    assert_eq!(t.running(), TrapOrigin::Kernel);
    assert_eq!(t.take_trap(), (TrapOrigin::Kernel, 0));
}
