use rsos::pic::{ChainedPics, Controller, PIC_1_OFFSET, PIC_2_OFFSET};

fn remapped() -> ChainedPics {
    let mut pics = ChainedPics::new(PIC_1_OFFSET, PIC_2_OFFSET);
    pics.initialize();
    pics
}

#[test]
fn test_initialization_sequence_bytes() {
    let pics = ChainedPics::new(PIC_1_OFFSET, PIC_2_OFFSET);
    let (primary, secondary) = pics.initialization_sequence();
    assert_eq!(primary, vec![0x11, 32, 4, 1]);
    assert_eq!(secondary, vec![0x11, 40, 2, 1]);
}

#[test]
fn test_handles_interrupt_ranges() {
    let pics = remapped();
    assert!(!pics.handles_interrupt(31));
    assert!(pics.handles_interrupt(32));
    assert!(pics.handles_interrupt(39));
    assert!(pics.handles_interrupt(40));
    assert!(pics.handles_interrupt(47));
    assert!(!pics.handles_interrupt(48));
    assert!(!pics.handles_interrupt(3));
}

#[test]
fn test_timer_interrupts_not_starved() {
    let mut pics = remapped();
    pics.raise_irq(0);
    assert_eq!(pics.deliver(), Some(PIC_1_OFFSET));
    let commands = pics.notify_end_of_interrupt(PIC_1_OFFSET);
    assert_eq!(commands, vec![Controller::Primary]);
    pics.raise_irq(0);
    assert_eq!(pics.deliver(), Some(PIC_1_OFFSET));
}

#[test]
fn test_missing_eoi_starves_line() {
    let mut pics = remapped();
    pics.raise_irq(0);
    assert_eq!(pics.deliver(), Some(PIC_1_OFFSET));
    pics.raise_irq(0);
    assert_eq!(pics.deliver(), None);
}

#[test]
fn test_eoi_for_secondary_goes_to_both() {
    let mut pics = remapped();
    pics.raise_irq(8);
    assert_eq!(pics.deliver(), Some(PIC_2_OFFSET));
    let commands = pics.notify_end_of_interrupt(PIC_2_OFFSET);
    assert_eq!(commands, vec![Controller::Secondary, Controller::Primary]);
}

#[test]
fn test_masked_line_not_delivered() {
    let mut pics = ChainedPics::new(PIC_1_OFFSET, PIC_2_OFFSET);
    pics.raise_irq(0);
    assert_eq!(pics.deliver(), None);
    pics.initialize();
    pics.raise_irq(0);
    assert_eq!(pics.deliver(), Some(PIC_1_OFFSET));
}

#[test]
fn test_lower_line_delivered_first() {
    let mut pics = remapped();
    pics.raise_irq(3);
    pics.raise_irq(1);
    assert_eq!(pics.deliver(), Some(PIC_1_OFFSET + 1));
    let _ = pics.notify_end_of_interrupt(PIC_1_OFFSET + 1);
    assert_eq!(pics.deliver(), Some(PIC_1_OFFSET + 3));
}
