//! The audio sample sink: the emulator thread hands 16-bit samples to a
//! bounded channel whose consumer (a host-audio or capture thread) lives
//! outside the core. A full channel blocks the producer, which is what
//! throttles emulated audio to real time.

use vstd::prelude::*;
use std::sync::mpsc::SyncSender;

verus! {

#[verifier::external_type_specification]
#[verifier::external_body]
#[verifier::reject_recursive_types(T)]
pub struct ExSyncSender<T>(SyncSender<T>);

/// Relies on std's mpsc `SyncSender::send`: blocks until the bounded
/// channel has room; the result only reports a hung-up consumer and is
/// dropped, as real hardware would keep playing into the void.
#[verifier::external_body]
fn send_sample(sender: &SyncSender<i16>, amplitude: i16) {
    let _ = sender.send(amplitude);
}

/// Counts samples and forwards them to the registered consumer, if any.
pub struct AudioHandler {
    pub sender: Option<SyncSender<i16>>,
    pub samples: u64,
}

impl AudioHandler {
    pub fn new() -> (r: AudioHandler)
        ensures
            r.sender is None,
            r.samples == 0,
    {
        AudioHandler { sender: None, samples: 0 }
    }

    /// Forwards one sample; reports whether a consumer was attached.
    pub fn handle(&mut self, amplitude: i16) -> (r: bool)
        ensures
            r == (old(self).sender is Some),
            final(self).samples == (if old(self).samples == u64::MAX {
                old(self).samples
            } else {
                (old(self).samples + 1) as u64
            }),
    {
        if self.samples < u64::MAX {
            self.samples = self.samples + 1;
        }
        match &self.sender {
            Some(rt) => {
                send_sample(rt, amplitude);
                true
            },
            None => false,
        }
    }

    /// Registers the consumer end that future samples go to.
    pub fn set_observer(&mut self, observer: SyncSender<i16>)
        ensures
            final(self).sender is Some,
            final(self).samples == old(self).samples,
    {
        self.sender = Some(observer);
    }
}

} // verus!
