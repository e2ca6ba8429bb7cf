use std::cell::RefCell;
use std::rc::Rc;

use bsp_raspi3b1_2::errors::Errcode;
use bsp_raspi3b1_2::irq::EnableWrite;
use bsp_raspi3b1_2::irq::IrqHandler;
use bsp_raspi3b1_2::irq::IrqManager;
use bsp_raspi3b1_2::irq::IrqNumber;
use bsp_raspi3b1_2::irq::PendingIRQs;
use bsp_raspi3b1_2::irq::pending_ids;

/// A handler that appends its tag to a shared service log, or fails.
struct LogHandler {
    tag: usize,
    log: Rc<RefCell<Vec<usize>>>,
    fail_with: Option<&'static str>,
}

impl IrqHandler for LogHandler {
    fn inv(&self) -> bool {
        true
    }

    fn handle(&mut self) -> Result<(), &'static str> {
        self.log.borrow_mut().push(self.tag);
        match self.fail_with {
            Some(msg) => Err(msg),
            None => Ok(()),
        }
    }
}

fn logger(tag: usize, log: &Rc<RefCell<Vec<usize>>>) -> LogHandler {
    LogHandler { tag, log: log.clone(), fail_with: None }
}

#[test]
fn pending_bits_decode_in_ascending_order() {
    // Bitmask 0b1010 (bits 1 and 3): source 1 first, then source 3, each
    // exactly once.
    let ids = pending_ids(0b1010);
    assert_eq!(ids, vec![1, 3]);
}

#[test]
fn pending_ids_edge_masks() {
    assert_eq!(pending_ids(0), Vec::<usize>::new());
    assert_eq!(pending_ids(1), vec![0]);
    assert_eq!(pending_ids(0x8000_0000_0000_0000), vec![63]);
    assert_eq!(pending_ids(0b1111), vec![0, 1, 2, 3]);
}

#[test]
fn pending_irqs_iterates_lowest_bit_first() {
    let mut p = PendingIRQs::new(0b10100100);
    assert_eq!(p.next(), Some(2));
    assert_eq!(p.next(), Some(5));
    assert_eq!(p.next(), Some(7));
    assert_eq!(p.next(), None);
    assert_eq!(p.next(), None);
}

#[test]
fn dispatch_services_basic_then_peripheral_ascending() {
    let log = Rc::new(RefCell::new(Vec::new()));
    let mut mgr: IrqManager<LogHandler> = IrqManager::init();
    mgr.register(IrqNumber::Basic(0), logger(100, &log));
    mgr.register(IrqNumber::Basic(3), logger(103, &log));
    mgr.register(IrqNumber::Peripheral(1), logger(201, &log));
    mgr.register(IrqNumber::Peripheral(57), logger(257, &log));
    // Basic bits 0 and 3 pending; peripheral 1 (bank 1) and 57 (bank 2).
    let r = mgr.handle_pending_irqs(0b1001, 1 << 1, 1 << (57 - 32));
    assert_eq!(r, Ok(()));
    assert_eq!(*log.borrow(), vec![100, 103, 201, 257]);
}

#[test]
fn basic_pending_ignores_peripheral_indicator_bit() {
    // Bit 8 of the basic bank only mirrors the peripheral banks and must
    // not be dispatched as a source.
    let log: Rc<RefCell<Vec<usize>>> = Rc::new(RefCell::new(Vec::new()));
    let mut mgr: IrqManager<LogHandler> = IrqManager::init();
    let r = mgr.handle_pending_irqs(1 << 8, 0, 0);
    assert_eq!(r, Ok(()));
    assert!(log.borrow().is_empty());
}

#[test]
fn signalled_source_without_handler_is_fatal() {
    // Enabling a source with no registered handler, then signalling it,
    // must surface the fatal error rather than silently dropping it.
    let mut mgr: IrqManager<LogHandler> = IrqManager::init();
    let w = mgr.enable(IrqNumber::Basic(5));
    assert_eq!(w, EnableWrite::Basic(1 << 5));
    let r = mgr.handle_pending_irqs(1 << 5, 0, 0);
    assert_eq!(r, Err(Errcode::NoBasicHandler(5)));
}

#[test]
fn signalled_peripheral_without_handler_is_fatal() {
    let mut mgr: IrqManager<LogHandler> = IrqManager::init();
    let r = mgr.handle_pending_irqs(0, 0, 1 << (40 - 32));
    assert_eq!(r, Err(Errcode::NoPeriphHandler(40)));
}

#[test]
fn handler_failure_aborts_servicing() {
    let log = Rc::new(RefCell::new(Vec::new()));
    let mut mgr: IrqManager<LogHandler> = IrqManager::init();
    mgr.register(
        IrqNumber::Basic(0),
        LogHandler { tag: 0, log: log.clone(), fail_with: Some("bad condition") },
    );
    let r = mgr.handle_pending_irqs(1, 0, 0);
    assert_eq!(r, Err(Errcode::HandlerFailure("bad condition")));
}

#[test]
fn reregistering_replaces_the_prior_handler() {
    let log = Rc::new(RefCell::new(Vec::new()));
    let mut mgr: IrqManager<LogHandler> = IrqManager::init();
    mgr.register(IrqNumber::Basic(1), logger(11, &log));
    mgr.register(IrqNumber::Basic(1), logger(99, &log));
    let r = mgr.handle_pending_irqs(1 << 1, 0, 0);
    assert_eq!(r, Ok(()));
    assert_eq!(*log.borrow(), vec![99]);
    assert_eq!(mgr.basic_table.len(), 1);
}

#[test]
fn enable_sets_the_right_bank_and_bit() {
    let mut mgr: IrqManager<LogHandler> = IrqManager::init();
    assert_eq!(mgr.enable(IrqNumber::Basic(0)), EnableWrite::Basic(1));
    assert_eq!(mgr.enable(IrqNumber::Basic(7)), EnableWrite::Basic(1 << 7));
    assert_eq!(mgr.basic_enabled, 0b1000_0001);
    assert_eq!(mgr.enable(IrqNumber::Peripheral(9)), EnableWrite::Periph1(1 << 9));
    assert_eq!(mgr.enable(IrqNumber::Peripheral(57)), EnableWrite::Periph2(1 << 25));
    assert_eq!(mgr.periph_enabled, (1u64 << 9) | (1u64 << 57));
}
