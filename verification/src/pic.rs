//! Driver model of the legacy dual 8-bit hardware interrupt controller
//! chain: two controllers, the secondary cascaded on one primary input,
//! each with a programmable vector-base offset, a mask register, a pending
//! register and an in-service register. The driver computes the four-byte
//! remap sequence each controller is sent, decides which controller an
//! end-of-interrupt command goes to, and models delivery: a line whose
//! interrupt was delivered stays in service — and blocks every line at or
//! below its priority — until the end-of-interrupt command re-arms it.
//! The port writes themselves belong to the unverified shell.
use vstd::prelude::*;

verus! {

/// Vector base of the primary controller after the remap.
pub const PIC_1_OFFSET: u8 = 32;

/// Vector base of the secondary controller after the remap.
pub const PIC_2_OFFSET: u8 = 40;

/// Whether a bit of a controller register is set.
pub open spec fn bit(byte: u8, i: u8) -> bool {
    (byte >> i) & 1 == 1
}

/// The register with one bit set.
pub open spec fn with_bit_set(byte: u8, i: u8) -> u8 {
    byte | (1u8 << i)
}

/// The register with one bit cleared.
pub open spec fn with_bit_clear(byte: u8, i: u8) -> u8 {
    byte & !(1u8 << i)
}

/// One 8-bit controller: its vector base and its three line registers,
/// one bit per line.
#[derive(Debug, Clone, Copy, PartialEq, Eq, Structural)]
pub struct Pic {
    pub offset: u8,
    pub mask: u8,
    pub pending: u8,
    pub in_service: u8,
}

/// The chain of the two controllers.
#[derive(Debug, Clone, Copy, PartialEq, Eq, Structural)]
pub struct ChainedPics {
    pub primary: Pic,
    pub secondary: Pic,
}

/// Which of the two controllers a command byte goes to.
#[derive(Debug, Clone, Copy, PartialEq, Eq, Structural)]
pub enum Controller {
    Primary,
    Secondary,
}

/// The chain invariant: both vector bases lie strictly above the 32 CPU
/// exception vectors, fit in a byte with their 8 contiguous vectors, and
/// the two 8-vector ranges are disjoint.
pub open spec fn controllers_wf(c: ChainedPics) -> bool {
    &&& c.primary.offset >= 32
    &&& c.secondary.offset >= 32
    &&& c.primary.offset <= 248
    &&& c.secondary.offset <= 248
    &&& (c.primary.offset + 8 <= c.secondary.offset || c.secondary.offset + 8 <= c.primary.offset)
}

/// Whether a vector falls in the primary controller's range.
pub open spec fn handled_by_primary(c: ChainedPics, vector: u8) -> bool {
    c.primary.offset <= vector < c.primary.offset + 8
}

/// Whether a vector falls in the secondary controller's range.
pub open spec fn handled_by_secondary(c: ChainedPics, vector: u8) -> bool {
    c.secondary.offset <= vector < c.secondary.offset + 8
}

/// Whether a request is pending on a chain line (0..=7 primary,
/// 8..=15 secondary).
pub open spec fn pending_at(c: ChainedPics, line: u8) -> bool {
    if line < 8 {
        bit(c.primary.pending, line)
    } else {
        bit(c.secondary.pending, (line - 8) as u8)
    }
}

/// Whether a chain line is masked off.
pub open spec fn masked_at(c: ChainedPics, line: u8) -> bool {
    if line < 8 {
        bit(c.primary.mask, line)
    } else {
        bit(c.secondary.mask, (line - 8) as u8)
    }
}

/// Whether a chain line is in service: delivered, its end-of-interrupt
/// not yet signalled.
pub open spec fn in_service_at(c: ChainedPics, line: u8) -> bool {
    if line < 8 {
        bit(c.primary.in_service, line)
    } else {
        bit(c.secondary.in_service, (line - 8) as u8)
    }
}

/// The CPU vector that a chain line raises after the remap.
pub open spec fn vector_of(c: ChainedPics, line: u8) -> u8 {
    if line < 8 {
        (c.primary.offset + line) as u8
    } else {
        (c.secondary.offset + (line - 8)) as u8
    }
}

/// The first chain line, scanning from `line` in priority order (lower
/// line first), whose request can be delivered. A line in service blocks
/// itself and every line after it; a deliverable line must be pending and
/// unmasked.
pub open spec fn next_deliverable(c: ChainedPics, line: u8) -> Option<u8>
    decreases 16 - line,
{
    if line >= 16 {
        None
    } else if in_service_at(c, line) {
        None
    } else if pending_at(c, line) && !masked_at(c, line) {
        Some(line)
    } else {
        next_deliverable(c, (line + 1) as u8)
    }
}

/// The chain after a device raises a request on a line.
pub open spec fn raise_spec(c: ChainedPics, line: u8) -> ChainedPics {
    if line < 8 {
        ChainedPics { primary: Pic { pending: with_bit_set(c.primary.pending, line), ..c.primary }, ..c }
    } else {
        ChainedPics {
            secondary: Pic { pending: with_bit_set(c.secondary.pending, (line - 8) as u8), ..c.secondary },
            ..c
        }
    }
}

/// The chain and the delivered vector after one delivery attempt: the
/// highest-priority deliverable line moves from pending to in service and
/// its vector is raised; if no line can be delivered, nothing changes.
pub open spec fn deliver_spec(c: ChainedPics) -> (ChainedPics, Option<u8>) {
    match next_deliverable(c, 0) {
        Option::None => (c, Option::None),
        Option::Some(line) => {
            let c2 = if line < 8 {
                ChainedPics {
                    primary: Pic {
                        pending: with_bit_clear(c.primary.pending, line),
                        in_service: with_bit_set(c.primary.in_service, line),
                        ..c.primary
                    },
                    ..c
                }
            } else {
                ChainedPics {
                    secondary: Pic {
                        pending: with_bit_clear(c.secondary.pending, (line - 8) as u8),
                        in_service: with_bit_set(c.secondary.in_service, (line - 8) as u8),
                        ..c.secondary
                    },
                    ..c
                }
            };
            (c2, Option::Some(vector_of(c, line)))
        },
    }
}

/// The chain after the end-of-interrupt for a vector: the serviced line of
/// the owning controller is re-armed.
pub open spec fn eoi_spec(c: ChainedPics, vector: u8) -> ChainedPics {
    if handled_by_secondary(c, vector) {
        ChainedPics {
            secondary: Pic {
                in_service: with_bit_clear(c.secondary.in_service, (vector - c.secondary.offset) as u8),
                ..c.secondary
            },
            ..c
        }
    } else {
        ChainedPics {
            primary: Pic {
                in_service: with_bit_clear(c.primary.in_service, (vector - c.primary.offset) as u8),
                ..c.primary
            },
            ..c
        }
    }
}

impl ChainedPics {
    /// A chain remapped to the two given vector bases, all lines masked,
    /// nothing pending or in service.
    pub fn new(offset1: u8, offset2: u8) -> (r: ChainedPics)
        requires
            offset1 >= 32,
            offset2 >= 32,
            offset1 <= 248,
            offset2 <= 248,
            offset1 + 8 <= offset2 || offset2 + 8 <= offset1,
        ensures
            controllers_wf(r),
            r.primary.offset == offset1,
            r.secondary.offset == offset2,
            r.primary.mask == 0xff && r.secondary.mask == 0xff,
            r.primary.pending == 0 && r.secondary.pending == 0,
            r.primary.in_service == 0 && r.secondary.in_service == 0,
    {
        ChainedPics {
            primary: Pic { offset: offset1, mask: 0xff, pending: 0, in_service: 0 },
            secondary: Pic { offset: offset2, mask: 0xff, pending: 0, in_service: 0 },
        }
    }

    /// The four-byte initialization sequence each controller is sent to
    /// remap it: start-initialization, its vector base, the cascade wiring
    /// (the secondary hangs off primary line 2), and 8086 mode.
    pub fn initialization_sequence(&self) -> (r: (Vec<u8>, Vec<u8>))
        ensures
            r.0@ =~= seq![0x11u8, self.primary.offset, 4u8, 1u8],
            r.1@ =~= seq![0x11u8, self.secondary.offset, 2u8, 1u8],
    {
        let mut primary_words: Vec<u8> = Vec::new();
        primary_words.push(0x11);
        primary_words.push(self.primary.offset);
        primary_words.push(4);
        primary_words.push(1);
        let mut secondary_words: Vec<u8> = Vec::new();
        secondary_words.push(0x11);
        secondary_words.push(self.secondary.offset);
        secondary_words.push(2);
        secondary_words.push(1);
        (primary_words, secondary_words)
    }

    /// Completes initialization: after the remap sequence the masks are
    /// restored so that every line the kernel services is unmasked, and no
    /// request is pending or in service.
    pub fn initialize(&mut self)
        ensures
            final(self).primary.offset == old(self).primary.offset,
            final(self).secondary.offset == old(self).secondary.offset,
            final(self).primary.mask == 0 && final(self).secondary.mask == 0,
            final(self).primary.pending == 0 && final(self).secondary.pending == 0,
            final(self).primary.in_service == 0 && final(self).secondary.in_service == 0,
    {
        self.primary.mask = 0;
        self.primary.pending = 0;
        self.primary.in_service = 0;
        self.secondary.mask = 0;
        self.secondary.pending = 0;
        self.secondary.in_service = 0;
    }

    /// Whether the chain, as remapped, owns the given vector.
    pub fn handles_interrupt(&self, vector: u8) -> (r: bool)
        requires
            controllers_wf(*self),
        ensures
            r == (handled_by_primary(*self, vector) || handled_by_secondary(*self, vector)),
    {
        (vector >= self.primary.offset && vector - self.primary.offset < 8) || (vector
            >= self.secondary.offset && vector - self.secondary.offset < 8)
    }

    /// A device raises a request on a chain line.
    pub fn raise_irq(&mut self, line: u8)
        requires
            line < 16,
        ensures
            *final(self) == raise_spec(*old(self), line),
    {
        if line < 8 {
            self.primary.pending = self.primary.pending | (1u8 << line);
        } else {
            self.secondary.pending = self.secondary.pending | (1u8 << (line - 8));
        }
    }

    /// One delivery attempt: the highest-priority pending, unmasked line
    /// with no line at or above its priority in service is delivered, and
    /// its vector returned. A line left in service — its end-of-interrupt
    /// never signalled — starves every line at or below its priority.
    pub fn deliver(&mut self) -> (r: Option<u8>)
        requires
            controllers_wf(*old(self)),
        ensures
            (*final(self), r) == deliver_spec(*old(self)),
    {
        let mut line: u8 = 0;
        while line < 16
            invariant
                controllers_wf(*self),
                *self == *old(self),
                line <= 16,
                next_deliverable(*self, 0) == next_deliverable(*self, line),
            decreases 16 - line,
        {
            let in_service = if line < 8 {
                (self.primary.in_service >> line) & 1 == 1
            } else {
                (self.secondary.in_service >> (line - 8)) & 1 == 1
            };
            if in_service {
                return None;
            }
            let pending = if line < 8 {
                (self.primary.pending >> line) & 1 == 1
            } else {
                (self.secondary.pending >> (line - 8)) & 1 == 1
            };
            let masked = if line < 8 {
                (self.primary.mask >> line) & 1 == 1
            } else {
                (self.secondary.mask >> (line - 8)) & 1 == 1
            };
            if pending && !masked {
                let vector: u8;
                if line < 8 {
                    vector = self.primary.offset + line;
                    self.primary.pending = self.primary.pending & !(1u8 << line);
                    self.primary.in_service = self.primary.in_service | (1u8 << line);
                } else {
                    vector = self.secondary.offset + (line - 8);
                    self.secondary.pending = self.secondary.pending & !(1u8 << (line - 8));
                    self.secondary.in_service = self.secondary.in_service | (1u8 << (line - 8));
                }
                return Some(vector);
            }
            line = line + 1;
        }
        None
    }

    /// After a hardware interrupt handler completes, signals the
    /// end-of-interrupt command: to the secondary controller first if the
    /// vector originated there, then always to the primary. Returns the
    /// controllers commanded, in order.
    pub fn notify_end_of_interrupt(&mut self, vector: u8) -> (commands: Vec<Controller>)
        requires
            controllers_wf(*old(self)),
            handled_by_primary(*old(self), vector) || handled_by_secondary(*old(self), vector),
        ensures
            *final(self) == eoi_spec(*old(self), vector),
            handled_by_secondary(*old(self), vector) ==> commands@ =~= seq![
                Controller::Secondary,
                Controller::Primary,
            ],
            !handled_by_secondary(*old(self), vector) ==> commands@ =~= seq![Controller::Primary],
    {
        let mut commands: Vec<Controller> = Vec::new();
        if vector >= self.secondary.offset && vector - self.secondary.offset < 8 {
            self.secondary.in_service = self.secondary.in_service & !(1u8 << (vector - self.secondary.offset));
            commands.push(Controller::Secondary);
            commands.push(Controller::Primary);
        } else {
            self.primary.in_service = self.primary.in_service & !(1u8 << (vector - self.primary.offset));
            commands.push(Controller::Primary);
        }
        commands
    }
}

/// Law: after the remap, with nothing outstanding and the timer line (the
/// primary controller's line 0) unmasked, a timer interrupt is delivered;
/// a second timer request raised before the end-of-interrupt is starved;
/// and once the end-of-interrupt is signalled, the second request is
/// delivered as well — both interrupts arrive, no starvation.
pub proof fn lemma_end_of_interrupt_rearms_timer(c: ChainedPics)
    requires
        controllers_wf(c),
        c.primary.pending == 0,
        c.secondary.pending == 0,
        c.primary.in_service == 0,
        c.secondary.in_service == 0,
        !bit(c.primary.mask, 0),
    ensures
        ({
            let c1 = raise_spec(c, 0);
            let (c2, v1) = deliver_spec(c1);
            let c3 = eoi_spec(c2, vector_of(c, 0));
            let c4 = raise_spec(c3, 0);
            let (c5, v2) = deliver_spec(c4);
            &&& v1 == Some(vector_of(c, 0))
            &&& deliver_spec(raise_spec(c2, 0)).1 == None::<u8>
            &&& v2 == Some(vector_of(c, 0))
        }),
{
    assert(0u8 | (1u8 << 0u8) == 1u8) by (bit_vector);
    assert((0u8 >> 0u8) & 1 != 1) by (bit_vector);
    assert((1u8 >> 0u8) & 1 == 1) by (bit_vector);
    assert(1u8 & !(1u8 << 0u8) == 0u8) by (bit_vector);
    assert(1u8 | (1u8 << 0u8) == 1u8) by (bit_vector);
    let c1 = raise_spec(c, 0);
    assert(next_deliverable(c1, 0) == Some(0u8));
    let (c2, v1) = deliver_spec(c1);
    assert(v1 == Some(vector_of(c, 0)));
    assert(c2.primary.in_service == 1 && c2.primary.pending == 0);
    let starved = raise_spec(c2, 0);
    assert(in_service_at(starved, 0));
    assert(next_deliverable(starved, 0) == None::<u8>);
    let c3 = eoi_spec(c2, vector_of(c, 0));
    assert(vector_of(c, 0) == c.primary.offset);
    assert(!handled_by_secondary(c2, vector_of(c, 0)));
    assert(c3.primary.in_service == 0);
    let c4 = raise_spec(c3, 0);
    assert(next_deliverable(c4, 0) == Some(0u8));
}

} // verus!
