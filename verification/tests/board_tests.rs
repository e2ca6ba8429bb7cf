use bsp_raspi3b1_2::chainload::AckStatus;
use bsp_raspi3b1_2::chainload::TransferProgress;
use bsp_raspi3b1_2::chainload::batch_count;
use bsp_raspi3b1_2::chainload::classify_ack;
use bsp_raspi3b1_2::chainload::decode_transfer_size;
use bsp_raspi3b1_2::chainload::encode_transfer_size;
use bsp_raspi3b1_2::errors::Errcode;
use bsp_raspi3b1_2::exception::ExceptionClass;
use bsp_raspi3b1_2::exception::ExceptionContext;
use bsp_raspi3b1_2::exception::ExceptionOrigin;
use bsp_raspi3b1_2::exception::SlotDisposition;
use bsp_raspi3b1_2::exception::esr_exception_class;
use bsp_raspi3b1_2::exception::slot_disposition;
use bsp_raspi3b1_2::exception::vector_offset;
use bsp_raspi3b1_2::gpio::PinMode;
use bsp_raspi3b1_2::gpio::configure_fsel;
use bsp_raspi3b1_2::gpio::fsel_slot;
use bsp_raspi3b1_2::gpio::pin_bank_bit;
use bsp_raspi3b1_2::gpio::pin_bank_masks;
use bsp_raspi3b1_2::sync::InitLock;
use bsp_raspi3b1_2::sync::RwLock;

#[test]
fn pin_mode_function_select_values() {
    assert_eq!(PinMode::Input.get_value(21), 0b000);
    assert_eq!(PinMode::Output.get_value(21), 0b001);
    assert_eq!(PinMode::UartTxd(0).get_value(14), 0b100);
    assert_eq!(PinMode::UartRxd(0).get_value(15), 0b100);
    assert_eq!(PinMode::UartTxd(1).get_value(14), 0b010);
    assert_eq!(PinMode::BscSda(0).get_value(44), 0b101);
    assert_eq!(PinMode::BscSda(1).get_value(44), 0b110);
    assert_eq!(PinMode::Pwm(0).get_value(18), 0b010);
    assert_eq!(PinMode::SmiSd(3).get_value(11), 0b101);
    assert_eq!(PinMode::SmiSd(3).get_value(39), 0b101);
    assert_eq!(PinMode::JtagTms.get_value(27), 0b011);
    assert_eq!(PinMode::SpiSlCs.get_value(21), 0b111);
}

#[test]
fn pin_mode_invalid_routing_is_none() {
    assert_eq!(PinMode::UartTxd(0).try_get_value(13), None);
    assert_eq!(PinMode::BscSda(2).try_get_value(0), None);
    assert_eq!(PinMode::PcmClk.try_get_value(19), None);
    assert!(!PinMode::SpiMiso(1).is_valid_for(9));
    assert!(PinMode::SpiMiso(0).is_valid_for(9));
}

#[test]
fn fsel_slot_splits_bank_and_shift() {
    assert_eq!(fsel_slot(0), (0, 0));
    assert_eq!(fsel_slot(9), (0, 27));
    assert_eq!(fsel_slot(14), (1, 12));
    assert_eq!(fsel_slot(53), (5, 9));
}

#[test]
fn configure_fsel_merges_fields() {
    // UART pins 14 and 15 to alternate function 0 over cleared registers.
    let config = vec![(14usize, PinMode::UartTxd(0)), (15usize, PinMode::UartRxd(0))];
    let current = vec![0u32; 6];
    let regs = configure_fsel(&config, &current).unwrap();
    assert_eq!(regs[1], (0b100 << 12) | (0b100 << 15));
    assert_eq!(regs[0], 0);
    // Existing contents of other fields are kept.
    let current = vec![0b001u32, 0, 0, 0, 0, 0];
    let config = vec![(21usize, PinMode::Output)];
    let regs = configure_fsel(&config, &current).unwrap();
    assert_eq!(regs[0], 0b001);
    assert_eq!(regs[2], 0b001 << 3);
}

#[test]
fn configure_fsel_rejects_duplicate_pin() {
    let config = vec![(21usize, PinMode::Output), (21usize, PinMode::Input)];
    let current = vec![0u32; 6];
    let r = configure_fsel(&config, &current);
    assert_eq!(r, Err(Errcode::PinAlreadyConfigured(21)));
}

#[test]
fn pin_bank_bit_splits_at_32() {
    assert_eq!(pin_bank_bit(0), (0, 1));
    assert_eq!(pin_bank_bit(21), (0, 1 << 21));
    assert_eq!(pin_bank_bit(31), (0, 1 << 31));
    assert_eq!(pin_bank_bit(32), (1, 1));
    assert_eq!(pin_bank_bit(53), (1, 1 << 21));
}

#[test]
fn vector_table_layout_is_bit_exact() {
    assert_eq!(vector_offset(ExceptionOrigin::CurrentSp0, ExceptionClass::Synchronous), 0x000);
    assert_eq!(vector_offset(ExceptionOrigin::CurrentSp0, ExceptionClass::Irq), 0x080);
    assert_eq!(vector_offset(ExceptionOrigin::CurrentSp0, ExceptionClass::Fiq), 0x100);
    assert_eq!(vector_offset(ExceptionOrigin::CurrentSp0, ExceptionClass::SError), 0x180);
    assert_eq!(vector_offset(ExceptionOrigin::CurrentSpx, ExceptionClass::Synchronous), 0x200);
    assert_eq!(vector_offset(ExceptionOrigin::CurrentSpx, ExceptionClass::Irq), 0x280);
    assert_eq!(vector_offset(ExceptionOrigin::LowerAarch64, ExceptionClass::Irq), 0x480);
    assert_eq!(vector_offset(ExceptionOrigin::LowerAarch32, ExceptionClass::SError), 0x780);
}

#[test]
fn only_current_spx_irq_resumes() {
    assert_eq!(slot_disposition(ExceptionOrigin::CurrentSpx, ExceptionClass::Irq), SlotDisposition::ServiceIrq);
    assert_eq!(slot_disposition(ExceptionOrigin::CurrentSp0, ExceptionClass::Irq), SlotDisposition::Fatal);
    assert_eq!(slot_disposition(ExceptionOrigin::CurrentSpx, ExceptionClass::Synchronous), SlotDisposition::Fatal);
    assert_eq!(slot_disposition(ExceptionOrigin::LowerAarch64, ExceptionClass::SError), SlotDisposition::Fatal);
    assert_eq!(slot_disposition(ExceptionOrigin::LowerAarch32, ExceptionClass::Irq), SlotDisposition::Fatal);
    assert_eq!(slot_disposition(ExceptionOrigin::CurrentSp0, ExceptionClass::Fiq), SlotDisposition::Park);
    assert_eq!(slot_disposition(ExceptionOrigin::LowerAarch64, ExceptionClass::Fiq), SlotDisposition::Park);
}

#[test]
fn exception_class_field_extraction() {
    assert_eq!(esr_exception_class(0x5600_0000), 0x15);
    assert_eq!(esr_exception_class(0), 0);
    let ctx = ExceptionContext {
        gpr: [0; 30],
        lr: 0,
        elr_el2: 0x8_0000,
        spsr_el2: 0x3c5,
        esr_el2: 0x96000045,
    };
    assert_eq!(ctx.exception_class(), 0x25);
}

#[test]
fn transfer_size_encoding_round_trips() {
    for size in [0u32, 1, 0x1234, 0xDEAD_BEEF, u32::MAX] {
        let b = encode_transfer_size(size);
        assert_eq!(decode_transfer_size(b), size);
    }
    assert_eq!(encode_transfer_size(0x0403_0201), [0x01, 0x02, 0x03, 0x04]);
}

#[test]
fn ack_classification() {
    assert_eq!(classify_ack(*b"OK"), AckStatus::Acknowledged);
    assert_eq!(classify_ack(*b"KO"), AckStatus::Refused);
    assert_eq!(classify_ack([0, 0]), AckStatus::Pending);
    assert_eq!(classify_ack(*b"ko"), AckStatus::Pending);
}

#[test]
fn batch_count_matches_progress_display() {
    assert_eq!(batch_count(0), 1);
    assert_eq!(batch_count(511), 1);
    assert_eq!(batch_count(512), 2);
    assert_eq!(batch_count(1024), 3);
}

#[test]
fn transfer_progress_bookkeeping() {
    let mut p = TransferProgress::new(1024);
    assert!(!p.is_complete());
    p.record_read(512);
    assert!(!p.is_balanced());
    p.record_sent(512);
    assert!(p.is_balanced());
    p.record_read(512);
    p.record_sent(512);
    assert!(p.is_balanced());
    assert!(p.is_complete());
}

#[test]
fn rwlock_holds_and_replaces() {
    let mut l = RwLock::new(7u32);
    assert_eq!(*l.read(), 7);
    let prev = l.replace(9);
    assert_eq!(prev, 7);
    assert_eq!(l.into_inner(), 9);
}

#[test]
fn init_lock_refuses_writes_after_finish() {
    let mut l = InitLock::new(1u32);
    assert_eq!(l.write(2), Ok(()));
    assert_eq!(*l.read(), 2);
    l.finish();
    assert_eq!(l.write(3), Err(Errcode::InitAlreadyFinished));
    assert_eq!(*l.read(), 2);
}

#[test]
fn pin_bank_masks_accumulate_per_bank() {
    assert_eq!(pin_bank_masks(&vec![]), (0, 0));
    assert_eq!(pin_bank_masks(&vec![14, 15]), ((1 << 14) | (1 << 15), 0));
    assert_eq!(pin_bank_masks(&vec![0, 31, 32, 53]), (1 | (1 << 31), 1 | (1 << 21)));
}
