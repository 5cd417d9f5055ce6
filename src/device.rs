use std::sync::atomic::{AtomicBool, Ordering};
use std::sync::Arc;
use tokio::sync::mpsc::error::{SendError, TryRecvError, TrySendError};
use tokio::sync::mpsc::{Permit, Sender, UnboundedReceiver, UnboundedSender};
use vstd::prelude::*;

verus! {

#[verifier::external_type_specification]
#[verifier::external_body]
#[verifier::reject_recursive_types(T)]
pub struct ExUnboundedReceiver<T>(UnboundedReceiver<T>);

#[verifier::external_type_specification]
#[verifier::external_body]
#[verifier::reject_recursive_types(T)]
pub struct ExUnboundedSender<T>(UnboundedSender<T>);

#[verifier::external_type_specification]
#[verifier::external_body]
#[verifier::reject_recursive_types(T)]
pub struct ExSender<T>(Sender<T>);

#[verifier::external_type_specification]
#[verifier::external_body]
#[verifier::reject_recursive_types(T)]
pub struct ExPermit<'a, T>(Permit<'a, T>);

#[verifier::external_type_specification]
#[verifier::external_body]
pub struct ExTryRecvError(TryRecvError);

#[verifier::external_type_specification]
#[verifier::external_body]
#[verifier::reject_recursive_types(T)]
pub struct ExTrySendError<T>(TrySendError<T>);

#[verifier::external_type_specification]
#[verifier::external_body]
#[verifier::reject_recursive_types(T)]
pub struct ExSendError<T>(SendError<T>);

/// Relies on tokio's `UnboundedSender::send`: queues the item without
/// waiting, unless the receiver is gone.
pub assume_specification<T>[ UnboundedSender::<T>::send ](
    tx: &UnboundedSender<T>,
    value: T,
) -> Result<(), SendError<T>>;

/// Relies on tokio's `unbounded_channel`: a connected sender and receiver.
pub assume_specification<T>[ tokio::sync::mpsc::unbounded_channel::<T> ]() -> (
    UnboundedSender<T>,
    UnboundedReceiver<T>,
);

/// Relies on tokio's `UnboundedReceiver::try_recv`: takes the oldest queued
/// item if there is one, without waiting.
pub assume_specification<T>[ UnboundedReceiver::<T>::try_recv ](
    rx: &mut UnboundedReceiver<T>,
) -> Result<T, TryRecvError>;

/// Relies on tokio's `Sender::try_reserve`: claims one slot of the bounded
/// queue if one is free, without waiting.
pub assume_specification<'a, T>[ Sender::<T>::try_reserve ](tx: &'a Sender<T>) -> Result<
    Permit<'a, T>,
    TrySendError<()>,
>;

/// Relies on tokio's `Permit::send`: the claimed slot takes the value; it
/// cannot fail.
pub assume_specification<'a, T>[ Permit::<'a, T>::send ](permit: Permit<'a, T>, value: T);

/// Largest frame, in bytes, that the adapter announces to the engine.
pub const MAX_TRANSMISSION_UNIT: usize = 1504;

/// Kind of frames a device exchanges.
#[derive(Clone, Copy, Debug, PartialEq, Eq)]
pub enum Medium {
    /// Bare IP packets, without a link-layer header.
    Ip,
}

/// Which way a checksum is handled by the engine.
#[derive(Clone, Copy, Debug, PartialEq, Eq)]
pub enum ChecksumMode {
    /// Verified on receive and computed on transmit.
    Both,
    /// Verified on receive only.
    Rx,
    /// Computed on transmit only.
    Tx,
    /// Neither verified nor computed.
    Ignored,
}

/// Checksum handling per protocol.
#[derive(Clone, Copy, Debug, PartialEq, Eq)]
pub struct ChecksumPolicy {
    pub ipv4: ChecksumMode,
    pub udp: ChecksumMode,
    pub tcp: ChecksumMode,
    pub icmpv4: ChecksumMode,
    pub icmpv6: ChecksumMode,
}

/// What the adapter tells the engine about itself.
#[derive(Clone, Copy, Debug, PartialEq, Eq)]
pub struct Capabilities {
    pub medium: Medium,
    pub max_transmission_unit: usize,
    pub checksum: ChecksumPolicy,
}

/// The policy of the default mode: every checksum verified and computed.
pub open spec fn full_checksums() -> ChecksumPolicy {
    ChecksumPolicy {
        ipv4: ChecksumMode::Both,
        udp: ChecksumMode::Both,
        tcp: ChecksumMode::Both,
        icmpv4: ChecksumMode::Both,
        icmpv6: ChecksumMode::Both,
    }
}

/// The policy of the offload mode: nothing verified on receive, the UDP
/// checksum left out on transmit, the TCP and IPv4 header checksums still
/// computed.
pub open spec fn offload_checksums() -> ChecksumPolicy {
    ChecksumPolicy {
        ipv4: ChecksumMode::Tx,
        udp: ChecksumMode::Ignored,
        tcp: ChecksumMode::Tx,
        icmpv4: ChecksumMode::Ignored,
        icmpv6: ChecksumMode::Ignored,
    }
}

/// A frame taken from the inbound queue, handed to the engine once.
pub struct VirtualRxToken {
    buffer: Vec<u8>,
}

impl View for VirtualRxToken {
    type V = Seq<u8>;

    closed spec fn view(&self) -> Seq<u8> {
        self.buffer@
    }
}

impl VirtualRxToken {
    /// Hands the held frame to `f` and returns what `f` returns.
    pub fn consume<R, F: FnOnce(Vec<u8>) -> R>(self, f: F) -> (r: R)
        requires
            forall|b: Vec<u8>| b@ == self@ ==> #[trigger] f.requires((b,)),
        ensures
            exists|b: Vec<u8>| b@ == self@ && #[trigger] f.ensures((b,), r),
    {
        let buffer = self.buffer;
        let ghost held = buffer;
        assert(f.requires((buffer,)));
        let r = f(buffer);
        assert(f.ensures((held,), r));
        r
    }
}

/// `n` zero bytes.
pub open spec fn zeros(n: nat) -> Seq<u8> {
    Seq::new(n, |i: int| 0u8)
}

/// A claimed slot of the outbound queue, redeemed once with one frame.
pub struct VirtualTxToken<'a> {
    permit: Permit<'a, Vec<u8>>,
}

impl<'a> VirtualTxToken<'a> {
    /// Lets `f` fill a zeroed buffer of `len` bytes, then commits the `len`
    /// bytes `f` hands back into the claimed slot, and returns `f`'s
    /// result. The commit cannot fail and never waits, whatever `len` is.
    pub fn consume<R, F: FnOnce(Vec<u8>) -> (Vec<u8>, R)>(self, len: usize, f: F) -> (r: R)
        requires
            forall|b: Vec<u8>| b@ == zeros(len as nat) ==> #[trigger] f.requires((b,)),
            forall|b: Vec<u8>, out: (Vec<u8>, R)|
                b@ == zeros(len as nat) && #[trigger] f.ensures((b,), out) ==> out.0@.len() == len,
        ensures
            exists|b: Vec<u8>, out: (Vec<u8>, R)|
                b@ == zeros(len as nat) && #[trigger] f.ensures((b,), out) && out.1 == r,
    {
        let buffer: Vec<u8> = vec![0u8; len];
        assert(buffer@ =~= zeros(len as nat));
        let ghost held = buffer;
        assert(f.requires((buffer,)));
        let out = f(buffer);
        assert(f.ensures((held,), out));
        let (filled, result) = out;
        self.permit.send(filled);
        result
    }
}

/// The producer's side of the inbound queue: each push is followed by
/// setting the availability flag.
pub struct InboundPort {
    tx: UnboundedSender<Vec<u8>>,
    flag: Arc<AtomicBool>,
    /// The last value this port stored into the availability flag.
    flag_stored: Ghost<Option<bool>>,
}

impl InboundPort {
    pub closed spec fn last_flag_store(&self) -> Option<bool> {
        self.flag_stored@
    }

    /// A port over the sender and flag that `VirtualDevice::new` hands out.
    pub fn new(tx: UnboundedSender<Vec<u8>>, flag: Arc<AtomicBool>) -> (r: Self)
        ensures
            r.last_flag_store() is None,
    {
        InboundPort { tx, flag, flag_stored: Ghost(None) }
    }

    /// Queues one frame for the device, then sets the availability flag.
    /// `false` where the device is gone; the flag is then left alone.
    pub fn push(&mut self, frame: Vec<u8>) -> (r: bool)
        ensures
            r ==> final(self).last_flag_store() == Some(true),
            !r ==> final(self).last_flag_store() == old(self).last_flag_store(),
    {
        match self.tx.send(frame) {
            Ok(()) => {
                self.flag.store(true, Ordering::Release);
                self.flag_stored = Ghost(Some(true));
                true
            },
            Err(_) => false,
        }
    }
}

/// The device the engine polls: frames come in through an unbounded queue
/// and leave through a bounded one.
pub struct VirtualDevice {
    in_buf_avail: Arc<AtomicBool>,
    in_buf: UnboundedReceiver<Vec<u8>>,
    out_buf: Sender<Vec<u8>>,
    checksum_offload: bool,
    /// The last value this adapter stored into the availability flag.
    flag_stored: Ghost<Option<bool>>,
    /// The frames taken from the inbound queue, oldest first.
    taken: Ghost<Seq<Seq<u8>>>,
}

impl VirtualDevice {
    pub closed spec fn last_flag_store(&self) -> Option<bool> {
        self.flag_stored@
    }

    /// The frames taken from the inbound queue so far, oldest first.
    pub closed spec fn frames_taken(&self) -> Seq<Seq<u8>> {
        self.taken@
    }

    pub closed spec fn offload_spec(&self) -> bool {
        self.checksum_offload
    }

    /// A device whose outbound frames go to `iface_egress_tx`, with the
    /// sender of its inbound queue and its availability flag (initially
    /// false), in default checksum mode.
    pub fn new(iface_egress_tx: Sender<Vec<u8>>) -> (r: (Self, UnboundedSender<Vec<u8>>, Arc<AtomicBool>))
        ensures
            !r.0.offload_spec(),
            r.0.last_flag_store() is None,
            r.0.frames_taken() == Seq::<Seq<u8>>::empty(),
    {
        let iface_ingress_tx_avail = Arc::new(AtomicBool::new(false));
        let (iface_ingress_tx, iface_ingress_rx) = tokio::sync::mpsc::unbounded_channel();
        (
            VirtualDevice {
                in_buf_avail: iface_ingress_tx_avail.clone(),
                in_buf: iface_ingress_rx,
                out_buf: iface_egress_tx,
                checksum_offload: false,
                flag_stored: Ghost(None),
                taken: Ghost(Seq::empty()),
            },
            iface_ingress_tx,
            iface_ingress_tx_avail,
        )
    }

    /// Switches the checksum-offload mode that `capabilities` reports.
    pub fn set_checksum_offload(&mut self, on: bool)
        ensures
            final(self).offload_spec() == on,
            final(self).last_flag_store() == old(self).last_flag_store(),
            final(self).frames_taken() == old(self).frames_taken(),
    {
        self.checksum_offload = on;
    }

    /// Takes one inbound frame and claims one outbound slot, both without
    /// waiting. Where either is missing, clears the availability flag and
    /// returns nothing; a frame taken without a slot is dropped.
    pub fn receive(&mut self) -> (r: Option<(VirtualRxToken, VirtualTxToken<'_>)>)
        ensures
            r is None ==> final(self).last_flag_store() == Some(false),
            r is Some ==> final(self).last_flag_store() == old(self).last_flag_store(),
            r matches Some((rx, _)) ==> final(self).frames_taken() == old(self).frames_taken().push(
                rx@,
            ),
            r is None ==> final(self).frames_taken() == old(self).frames_taken() || exists|
                f: Seq<u8>,
            | final(self).frames_taken() == old(self).frames_taken().push(f),
            final(self).offload_spec() == old(self).offload_spec(),
    {
        let buffer = match self.in_buf.try_recv() {
            Ok(buffer) => buffer,
            Err(_) => {
                self.in_buf_avail.store(false, Ordering::Release);
                self.flag_stored = Ghost(Some(false));
                return None;
            },
        };
        self.taken = Ghost(self.taken@.push(buffer@));
        match self.out_buf.try_reserve() {
            Ok(permit) => Some((VirtualRxToken { buffer }, VirtualTxToken { permit })),
            Err(_) => {
                self.in_buf_avail.store(false, Ordering::Release);
                self.flag_stored = Ghost(Some(false));
                None
            },
        }
    }

    /// Claims one outbound slot without waiting; the inbound side, the
    /// flag and the checksum mode are left as they were.
    pub fn transmit(&mut self) -> (r: Option<VirtualTxToken<'_>>)
        ensures
            final(self).last_flag_store() == old(self).last_flag_store(),
            final(self).frames_taken() == old(self).frames_taken(),
            final(self).offload_spec() == old(self).offload_spec(),
    {
        match self.out_buf.try_reserve() {
            Ok(permit) => Some(VirtualTxToken { permit }),
            Err(_) => None,
        }
    }

    /// IP medium, frames of at most 1504 bytes, and the checksum policy of
    /// the current mode.
    pub fn capabilities(&self) -> (r: Capabilities)
        ensures
            r.medium == Medium::Ip,
            r.max_transmission_unit == MAX_TRANSMISSION_UNIT,
            r.checksum == if self.offload_spec() {
                offload_checksums()
            } else {
                full_checksums()
            },
    {
        let checksum = if self.checksum_offload {
            ChecksumPolicy {
                ipv4: ChecksumMode::Tx,
                udp: ChecksumMode::Ignored,
                tcp: ChecksumMode::Tx,
                icmpv4: ChecksumMode::Ignored,
                icmpv6: ChecksumMode::Ignored,
            }
        } else {
            ChecksumPolicy {
                ipv4: ChecksumMode::Both,
                udp: ChecksumMode::Both,
                tcp: ChecksumMode::Both,
                icmpv4: ChecksumMode::Both,
                icmpv6: ChecksumMode::Both,
            }
        };
        Capabilities { medium: Medium::Ip, max_transmission_unit: MAX_TRANSMISSION_UNIT, checksum }
    }
}

} // verus!
