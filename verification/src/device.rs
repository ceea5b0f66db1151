//! The virtual device pair and its lifecycle: two devices, each holding a
//! handle to its sibling, the transmit-interception logic that redirects an
//! outgoing frame to appear as an incoming frame on the sibling, and the
//! register/rollback/unregister sequence run once per module lifetime.
//!
//! The host networking stack itself — device registration and the receive-
//! injection entry point — is an external collaborator: the caller performs
//! those calls and hands their outcomes back to the functions here, which
//! decide every state change and are verified for every outcome.

use vstd::prelude::*;
use crate::frame::Frame;
use crate::mutate::{mutate_and_restamp, mutate_spec, MutationError};

verus! {

/// A device's position in the lifecycle:
/// `Constructed` (sibling unset) → `Linked` → `Registered` → `Unregistered`
/// (terminal).
#[derive(Clone, Copy, Debug, PartialEq, Eq, Structural)]
pub enum DeviceState {
    Constructed,
    Linked,
    Registered,
    Unregistered,
}

/// The host stack refused to register the device with this pair index.
#[derive(Clone, Copy, Debug, PartialEq, Eq, Structural)]
pub struct RegistrationError {
    pub device: usize,
}

/// What the host stack's receive-injection entry point reported for an
/// injected frame. A drop is advisory only.
#[derive(Clone, Copy, Debug, PartialEq, Eq, Structural)]
pub enum InjectionStatus {
    Delivered,
    Dropped,
}

/// The one outcome a transmit call ever reports to the host stack.
#[derive(Clone, Copy, Debug, PartialEq, Eq, Structural)]
pub enum TxOutcome {
    TxOk,
}

/// What became of one submitted frame: exactly one of a duplicate handed to
/// the receive-injection path, a reported drop, or an aborted call on a
/// device whose sibling was never linked.
#[derive(Debug)]
pub enum TxDisposition {
    /// The duplicated, mutated frame, stamped with the sibling's identity,
    /// to be handed to the host stack's receive-injection entry point.
    Injected(Frame),
    /// The frame was too short to mutate; it was dropped and counted.
    Dropped,
    /// The sibling handle was unset: a programming-invariant violation,
    /// unreachable once the pair is constructed.
    AbortedInternal,
}

/// A device-level operation the host stack may invoke but this design
/// deliberately leaves inert.
#[derive(Clone, Copy, Debug, PartialEq, Eq, Structural)]
pub enum DeviceOpError {
    NotImplemented,
}

/// Device statistics as reported to the host stack. This core implements no
/// real counters: the statistics hook leaves the caller's record untouched.
#[derive(Clone, Copy, Debug, PartialEq, Eq, Structural)]
pub struct Stats {
    pub rx_packets: u64,
    pub tx_packets: u64,
    pub rx_bytes: u64,
    pub tx_bytes: u64,
}

/// One software-emulated network interface: its pair index, the handle of
/// its sibling, its lifecycle state, and a count of frames dropped on its
/// transmit path.
#[derive(Clone, Copy, Debug)]
pub struct VirtualDevice {
    pub index: usize,
    pub sibling: Option<usize>,
    pub state: DeviceState,
    pub tx_dropped: u64,
}

impl VirtualDevice {
    /// This device with one more transmit drop counted (saturating).
    pub open spec fn with_drop_counted(self) -> VirtualDevice {
        VirtualDevice {
            tx_dropped: if self.tx_dropped == u64::MAX {
                u64::MAX
            } else {
                (self.tx_dropped + 1) as u64
            },
            ..self
        }
    }

    /// Constructs a device. With a sibling handle it starts `Linked`, else
    /// `Constructed`, awaiting the back-patch.
    pub fn construct(index: usize, sibling: Option<usize>) -> (d: VirtualDevice)
        ensures
            d.index == index,
            d.sibling == sibling,
            d.state == (if sibling is Some {
                DeviceState::Linked
            } else {
                DeviceState::Constructed
            }),
            d.tx_dropped == 0,
    {
        let state = if sibling.is_some() {
            DeviceState::Linked
        } else {
            DeviceState::Constructed
        };
        VirtualDevice { index, sibling, state, tx_dropped: 0 }
    }

    /// Back-patches the sibling handle into a device constructed without
    /// one. The pairing is permanent: it is set once, before registration,
    /// and never reassigned.
    pub fn link(&mut self, sibling: usize)
        requires
            old(self).state == DeviceState::Constructed,
            old(self).sibling is None,
        ensures
            final(self).index == old(self).index,
            final(self).sibling == Some(sibling),
            final(self).state == DeviceState::Linked,
            final(self).tx_dropped == old(self).tx_dropped,
    {
        self.sibling = Some(sibling);
        self.state = DeviceState::Linked;
    }

    /// Host-stack initialization hook: succeeds trivially, altering nothing.
    pub fn init(&mut self) -> (r: Result<(), DeviceOpError>)
        ensures
            *final(self) == *old(self),
            r == Ok::<(), DeviceOpError>(()),
    {
        Ok(())
    }

    /// Host-stack teardown hook: inert, altering nothing.
    pub fn uninit(&mut self)
        ensures
            *final(self) == *old(self),
    {
    }

    /// Statistics hook: not implemented; the caller's record is left
    /// untouched and the device is unaltered.
    pub fn get_stats64(&mut self, stats: &mut Stats)
        ensures
            *final(self) == *old(self),
            *final(stats) == *old(stats),
    {
    }

    /// Carrier-state hook: explicitly not implemented, altering nothing.
    pub fn change_carrier(&mut self, new_carrier: bool) -> (r: Result<(), DeviceOpError>)
        ensures
            *final(self) == *old(self),
            r == Err::<(), DeviceOpError>(DeviceOpError::NotImplemented),
    {
        let _ = new_carrier;
        Err(DeviceOpError::NotImplemented)
    }

    /// Address-validation hook: succeeds trivially, altering nothing.
    pub fn validate_addr(&mut self) -> (r: Result<(), DeviceOpError>)
        ensures
            *final(self) == *old(self),
            r == Ok::<(), DeviceOpError>(()),
    {
        Ok(())
    }

    /// Hardware-address hook: explicitly not implemented, altering nothing.
    pub fn set_mac_addr(&mut self, addr: &[u8]) -> (r: Result<(), DeviceOpError>)
        ensures
            *final(self) == *old(self),
            r == Err::<(), DeviceOpError>(DeviceOpError::NotImplemented),
    {
        let _ = addr;
        Err(DeviceOpError::NotImplemented)
    }

    /// Receive-filter-mode hook: explicitly not implemented, altering
    /// nothing.
    pub fn set_rx_mode(&mut self)
        ensures
            *final(self) == *old(self),
    {
    }
}

/// The lifecycle owner of both virtual devices: created once, torn down
/// once, atomically — the pair is either fully registered or not registered.
pub struct DevicePair {
    pub dev_a: VirtualDevice,
    pub dev_b: VirtualDevice,
}

impl DevicePair {
    /// The device at pair index `i` (0 or 1).
    pub open spec fn device_of(self, i: usize) -> VirtualDevice {
        if i == 0 {
            self.dev_a
        } else {
            self.dev_b
        }
    }

    /// The permanent cross-reference shape: device 0 and device 1, each
    /// holding the other as its sibling.
    pub open spec fn linked(self) -> bool {
        &&& self.dev_a.index == 0
        &&& self.dev_b.index == 1
        &&& self.dev_a.sibling == Some(1usize)
        &&& self.dev_b.sibling == Some(0usize)
    }

    /// Creates and cross-links the pair: device 0 is constructed with its
    /// sibling unset, device 1 is constructed already pointing at device 0,
    /// then device 0's sibling is back-patched. Both devices end `Linked`,
    /// ready for registration.
    pub fn new() -> (p: DevicePair)
        ensures
            p.linked(),
            p.dev_a.state == DeviceState::Linked,
            p.dev_b.state == DeviceState::Linked,
            p.dev_a.tx_dropped == 0,
            p.dev_b.tx_dropped == 0,
    {
        let mut dev_a = VirtualDevice::construct(0, None);
        let dev_b = VirtualDevice::construct(1, Some(0));
        dev_a.link(1);
        DevicePair { dev_a, dev_b }
    }

    /// Records the host stack's answer to registering device 0, the first
    /// registration of the bring-up sequence. On refusal nothing was
    /// registered and the pair is left as constructed.
    pub fn register_first(&mut self, accepted: bool) -> (r: Result<(), RegistrationError>)
        requires
            old(self).dev_a.state == DeviceState::Linked,
        ensures
            final(self).dev_b == old(self).dev_b,
            accepted ==> (r == Ok::<(), RegistrationError>(())
                && final(self).dev_a == VirtualDevice {
                    state: DeviceState::Registered,
                    ..old(self).dev_a
                }),
            !accepted ==> (r == Err::<(), RegistrationError>(RegistrationError { device: 0 })
                && final(self).dev_a == old(self).dev_a),
    {
        if accepted {
            self.dev_a.state = DeviceState::Registered;
            Ok(())
        } else {
            Err(RegistrationError { device: 0 })
        }
    }

    /// Records the host stack's answer to registering device 1, the second
    /// registration. On refusal the caller must also unregister device 0
    /// with the host stack; this function rolls the pair back to match:
    /// device 0 ends `Unregistered` and the aggregate failure is reported.
    /// No partial pair is ever exposed.
    pub fn register_second(&mut self, accepted: bool) -> (r: Result<(), RegistrationError>)
        requires
            old(self).dev_a.state == DeviceState::Registered,
            old(self).dev_b.state == DeviceState::Linked,
        ensures
            accepted ==> (r == Ok::<(), RegistrationError>(())
                && final(self).dev_a == old(self).dev_a
                && final(self).dev_b == VirtualDevice {
                    state: DeviceState::Registered,
                    ..old(self).dev_b
                }),
            !accepted ==> (r == Err::<(), RegistrationError>(RegistrationError { device: 1 })
                && final(self).dev_a == VirtualDevice {
                    state: DeviceState::Unregistered,
                    ..old(self).dev_a
                }
                && final(self).dev_b == old(self).dev_b),
    {
        if accepted {
            self.dev_b.state = DeviceState::Registered;
            Ok(())
        } else {
            self.dev_a.state = DeviceState::Unregistered;
            Err(RegistrationError { device: 1 })
        }
    }

    /// Tears the pair down at the end of the module's operational lifetime:
    /// both devices are unregistered together, terminally.
    pub fn tear_down(&mut self)
        requires
            old(self).dev_a.state == DeviceState::Registered,
            old(self).dev_b.state == DeviceState::Registered,
        ensures
            final(self).dev_a == (VirtualDevice {
                state: DeviceState::Unregistered,
                ..old(self).dev_a
            }),
            final(self).dev_b == (VirtualDevice {
                state: DeviceState::Unregistered,
                ..old(self).dev_b
            }),
    {
        self.dev_a.state = DeviceState::Unregistered;
        self.dev_b.state = DeviceState::Unregistered;
    }

    /// The transmit interception: runs synchronously on an outbound frame
    /// handed to device `dev` and produces exactly one disposition. A frame
    /// long enough is mutated in place, restamped with the sibling's
    /// identity, and duplicated; the duplicate is returned for the caller to
    /// hand to the host stack's receive-injection entry point, while the
    /// original is considered consumed by the stack's transmit-completion
    /// path. A frame too short is reported as a drop and counted on `dev`.
    /// Whatever happens, the call reports transmit-complete to the stack.
    pub fn start_transmit(&mut self, frame: Frame, dev: usize) -> (r: (TxOutcome, TxDisposition))
        requires
            dev < 2,
        ensures
            r.0 == TxOutcome::TxOk,
            match old(self).device_of(dev).sibling {
                None => r.1 is AbortedInternal && *final(self) == *old(self),
                Some(sib) => {
                    if frame.bytes@.len() < 34 {
                        &&& r.1 is Dropped
                        &&& final(self).device_of(dev) == old(self).device_of(
                            dev,
                        ).with_drop_counted()
                        &&& final(self).device_of((1 - dev) as usize) == old(self).device_of(
                            (1 - dev) as usize,
                        )
                    } else {
                        &&& (r.1 matches TxDisposition::Injected(f)
                            && f.bytes@ == mutate_spec(frame.bytes@)
                            && f.dev == sib)
                        &&& *final(self) == *old(self)
                    }
                },
            },
    {
        let mut frame = frame;
        let sibling = if dev == 0 {
            self.dev_a.sibling
        } else {
            self.dev_b.sibling
        };
        match sibling {
            None => (TxOutcome::TxOk, TxDisposition::AbortedInternal),
            Some(sib) => {
                match mutate_and_restamp(&mut frame, sib) {
                    Err(MutationError::TooShort) => {
                        if dev == 0 {
                            if self.dev_a.tx_dropped < u64::MAX {
                                self.dev_a.tx_dropped = self.dev_a.tx_dropped + 1;
                            }
                        } else {
                            if self.dev_b.tx_dropped < u64::MAX {
                                self.dev_b.tx_dropped = self.dev_b.tx_dropped + 1;
                            }
                        }
                        (TxOutcome::TxOk, TxDisposition::Dropped)
                    },
                    Ok(()) => {
                        let duplicate = frame.duplicate();
                        (TxOutcome::TxOk, TxDisposition::Injected(duplicate))
                    },
                }
            },
        }
    }
}

/// The decision on a receive-injection report: a non-success status means a
/// dropped-packet condition is to be logged, and nothing more — no rollback
/// of the mutation, no retry.
pub fn injection_advisory(status: InjectionStatus) -> (log_drop: bool)
    ensures
        log_drop == (status is Dropped),
{
    match status {
        InjectionStatus::Delivered => false,
        InjectionStatus::Dropped => true,
    }
}

} // verus!
