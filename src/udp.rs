use std::task::{Context, Poll};
use tokio::sync::mpsc::{Receiver, Sender};
use tokio_util::sync::{PollSendError, PollSender};
use vstd::prelude::*;
use crate::addr::SocketAddress;
use crate::frame::{
    build_frame, datagram_of, frame_layout, max_payload, msg_view, parse_datagram, UdpMsg,
};

verus! {

#[verifier::external_type_specification]
#[verifier::external_body]
pub struct ExContext<'a>(Context<'a>);

#[verifier::external_type_specification]
#[verifier::reject_recursive_types(T)]
pub struct ExPoll<T>(Poll<T>);

#[verifier::external_type_specification]
#[verifier::external_body]
#[verifier::reject_recursive_types(T)]
pub struct ExReceiver<T>(Receiver<T>);

#[verifier::external_type_specification]
#[verifier::external_body]
#[verifier::reject_recursive_types(T)]
pub struct ExPollSender<T>(PollSender<T>);

#[verifier::external_type_specification]
#[verifier::external_body]
#[verifier::reject_recursive_types(T)]
pub struct ExPollSendError<T>(PollSendError<T>);

/// Whether a `PollSender` holds a claimed slot, so that its next
/// `send_item` goes through without waiting.
pub uninterp spec fn slot_reserved(tx: PollSender<Vec<u8>>) -> bool;

/// Relies on tokio's `Receiver::poll_recv`: the next queued item, `None`
/// once the queue is closed and empty, or pending.
pub assume_specification<T>[ Receiver::<T>::poll_recv ](
    rx: &mut Receiver<T>,
    cx: &mut Context<'_>,
) -> Poll<Option<T>>;

/// Relies on tokio's `Receiver::close`: no further items can be queued.
pub assume_specification<T>[ Receiver::<T>::close ](rx: &mut Receiver<T>);

/// Whether a `PollSender` is closed, as its `is_closed` reports: its state
/// is closed, or its inner sender is gone.
pub uninterp spec fn sender_closed(tx: PollSender<Vec<u8>>) -> bool;

/// Relies on tokio-util's `PollSender::new`: it starts idle and open, with
/// no slot claimed.
#[verifier::external_body]
fn poll_sender(sender: Sender<Vec<u8>>) -> (r: PollSender<Vec<u8>>)
    ensures
        !slot_reserved(r),
        !sender_closed(r),
{
    PollSender::new(sender)
}

/// Relies on tokio-util's `PollSender::poll_reserve`: a slot is held
/// exactly when it answers ready with success; a held slot answers so at
/// once; a closed sender without one answers with an error; a closed
/// sender stays closed.
#[verifier::external_body]
fn poll_reserve(tx: &mut PollSender<Vec<u8>>, cx: &mut Context<'_>) -> (r: Poll<
    Result<(), PollSendError<Vec<u8>>>,
>)
    ensures
        slot_reserved(*final(tx)) <==> r matches Poll::Ready(Ok(_)),
        slot_reserved(*old(tx)) ==> r matches Poll::Ready(Ok(_)),
        sender_closed(*old(tx)) && !slot_reserved(*old(tx)) ==> r matches Poll::Ready(Err(_)),
        sender_closed(*old(tx)) ==> sender_closed(*final(tx)),
{
    tx.poll_reserve(cx)
}

/// Relies on tokio-util's `PollSender::send_item`: it panics unless a slot
/// was claimed; with one it hands the item over and succeeds, and
/// afterwards no slot is held. A closed sender stays closed.
#[verifier::external_body]
fn send_item(tx: &mut PollSender<Vec<u8>>, value: Vec<u8>) -> (r: Result<
    (),
    PollSendError<Vec<u8>>,
>)
    requires
        slot_reserved(*old(tx)),
    ensures
        r is Ok,
        !slot_reserved(*final(tx)),
        sender_closed(*old(tx)) ==> sender_closed(*final(tx)),
{
    tx.send_item(value)
}

/// Relies on tokio-util's `PollSender::close`: the inner sender is dropped,
/// so the sender is closed; a slot already claimed may still be used.
#[verifier::external_body]
fn close_sender(tx: &mut PollSender<Vec<u8>>)
    ensures
        slot_reserved(*final(tx)) == slot_reserved(*old(tx)),
        sender_closed(*final(tx)),
{
    tx.close()
}

/// Relies on tokio-util's `Sink` impl for `PollSender`, whose `poll_flush`
/// answers ready with success at once and changes nothing.
#[verifier::external_body]
fn flush_sender(tx: &mut PollSender<Vec<u8>>, cx: &mut Context<'_>) -> (r: Poll<
    Result<(), PollSendError<Vec<u8>>>,
>)
    ensures
        r matches Poll::Ready(Ok(_)),
        slot_reserved(*final(tx)) == slot_reserved(*old(tx)),
        sender_closed(*final(tx)) == sender_closed(*old(tx)),
{
    futures::SinkExt::poll_flush_unpin(tx, cx)
}

/// Hop limit (time to live) of every frame the write half builds.
pub const HOP_LIMIT: u8 = 20;

/// Why a write to the translator fails.
#[derive(Clone, Copy, Debug, PartialEq, Eq)]
pub enum UdpError {
    /// The two endpoints belong to different address families.
    AddressFamilyMismatch,
    /// The destination queue no longer takes frames.
    Closed,
}

/// Turns one write request into the frame to enqueue: nothing for an
/// empty payload, an error for endpoints of different families.
pub fn encode_datagram(payload: &[u8], local: SocketAddress, remote: SocketAddress) -> (r: Result<
    Option<Vec<u8>>,
    UdpError,
>)
    requires
        SocketAddress::same_family(local, remote) ==> payload@.len() <= max_payload(local.ip),
    ensures
        payload@.len() == 0 ==> r == Ok::<Option<Vec<u8>>, UdpError>(None),
        payload@.len() > 0 && !SocketAddress::same_family(local, remote) ==> r == Err::<
            Option<Vec<u8>>,
            UdpError,
        >(UdpError::AddressFamilyMismatch),
        payload@.len() > 0 && SocketAddress::same_family(local, remote) ==> (r matches Ok(
            Some(f),
        ) && frame_layout(f@, payload@, local, remote, HOP_LIMIT)),
{
    if payload.len() == 0 {
        return Ok(None);
    }
    match build_frame(payload, local, remote, HOP_LIMIT) {
        Some(frame) => Ok(Some(frame)),
        None => Err(UdpError::AddressFamilyMismatch),
    }
}

/// A datagram endpoint over two frame queues: frames routed to it are read
/// as datagram events, and datagrams written to it leave as frames.
pub struct UdpSocket {
    udp_rx: Receiver<Vec<u8>>,
    stack_tx: PollSender<Vec<u8>>,
    read_finished: bool,
    reserved: bool,
    /// The frames this socket has handed to the destination queue.
    sent: Ghost<Seq<Seq<u8>>>,
}

impl UdpSocket {
    /// Whether the read half has ended; it then yields no more events.
    pub closed spec fn read_ended(&self) -> bool {
        self.read_finished
    }

    /// Whether the write half holds a claimed slot of the destination queue.
    pub closed spec fn write_ready(&self) -> bool {
        slot_reserved(self.stack_tx)
    }

    /// Whether the write half is closed: no slot can be claimed any more.
    pub closed spec fn write_closed(&self) -> bool {
        sender_closed(self.stack_tx)
    }

    /// The socket's record of a claimed slot agrees with its sender.
    pub closed spec fn wf(&self) -> bool {
        self.reserved == slot_reserved(self.stack_tx)
    }

    /// The frames handed to the destination queue so far.
    pub closed spec fn frames_sent(&self) -> Seq<Seq<u8>> {
        self.sent@
    }

    pub fn new(udp_rx: Receiver<Vec<u8>>, stack_tx: Sender<Vec<u8>>) -> (r: Self)
        ensures
            r.wf(),
            !r.read_ended(),
            !r.write_ready(),
            !r.write_closed(),
            r.frames_sent() == Seq::<Seq<u8>>::empty(),
    {
        UdpSocket {
            udp_rx,
            stack_tx: poll_sender(stack_tx),
            read_finished: false,
            reserved: false,
            sent: Ghost(Seq::empty()),
        }
    }

    pub fn is_write_ready(&self) -> (r: bool)
        requires
            self.wf(),
        ensures
            r == self.write_ready(),
    {
        self.reserved
    }

    /// What the read half yields for one outcome of its source queue
    /// (`None`: closed and drained). The read half ends at the first frame
    /// that is not a well-formed IP packet carrying a UDP segment, as it
    /// does when the queue closes, and stays ended.
    pub fn next_event(&mut self, item: Option<Vec<u8>>) -> (r: Option<UdpMsg>)
        requires
            old(self).wf(),
        ensures
            final(self).wf(),
            old(self).read_ended() ==> r is None && final(self).read_ended(),
            !old(self).read_ended() ==> match item {
                None => r is None && final(self).read_ended(),
                Some(f) => match datagram_of(f@) {
                    None => r is None && final(self).read_ended(),
                    Some(m) => r matches Some(e) && msg_view(e) == m && !final(self).read_ended(),
                },
            },
            final(self).write_ready() == old(self).write_ready(),
            final(self).write_closed() == old(self).write_closed(),
            final(self).frames_sent() == old(self).frames_sent(),
    {
        if self.read_finished {
            return None;
        }
        match item {
            None => {
                self.read_finished = true;
                None
            },
            Some(frame) => {
                let event = parse_datagram(frame.as_slice());
                if event.is_none() {
                    self.read_finished = true;
                }
                event
            },
        }
    }

    /// Polls the source queue for the next datagram event. Once the read
    /// half has ended it answers `None` at once, without polling. Every
    /// event it yields is what some well-formed frame carries.
    pub fn poll_next(&mut self, cx: &mut Context<'_>) -> (r: Poll<Option<UdpMsg>>)
        requires
            old(self).wf(),
        ensures
            final(self).wf(),
            old(self).read_ended() ==> r == Poll::<Option<UdpMsg>>::Ready(None) && final(self).read_ended(),
            r matches Poll::Ready(None) ==> final(self).read_ended(),
            r matches Poll::Ready(Some(e)) ==> !final(self).read_ended() && exists|f: Seq<u8>|
                datagram_of(f) == Some(msg_view(e)),
            r is Pending ==> final(self).read_ended() == old(self).read_ended(),
            final(self).write_ready() == old(self).write_ready(),
            final(self).write_closed() == old(self).write_closed(),
            final(self).frames_sent() == old(self).frames_sent(),
    {
        if self.read_finished {
            return Poll::Ready(None);
        }
        match self.udp_rx.poll_recv(cx) {
            Poll::Pending => Poll::Pending,
            Poll::Ready(item) => {
                let ghost received = item;
                let event = self.next_event(item);
                proof {
                    if event is Some {
                        assert(datagram_of(received->0@) == Some(msg_view(event->0)));
                    }
                }
                Poll::Ready(event)
            },
        }
    }

    /// Claims a slot of the destination queue for the next write; not
    /// ready while the queue is full. A slot already held answers ready at
    /// once; a closed write half without one answers `Closed`.
    pub fn poll_ready(&mut self, cx: &mut Context<'_>) -> (r: Poll<Result<(), UdpError>>)
        requires
            old(self).wf(),
        ensures
            final(self).wf(),
            final(self).write_ready() <==> r matches Poll::Ready(Ok(_)),
            old(self).write_ready() ==> r == Poll::<Result<(), UdpError>>::Ready(Ok(())),
            old(self).write_closed() && !old(self).write_ready() ==> r == Poll::<
                Result<(), UdpError>,
            >::Ready(Err(UdpError::Closed)),
            r matches Poll::Ready(Err(e)) ==> e == UdpError::Closed,
            old(self).write_closed() ==> final(self).write_closed(),
            final(self).read_ended() == old(self).read_ended(),
            final(self).frames_sent() == old(self).frames_sent(),
    {
        let r = poll_reserve(&mut self.stack_tx, cx);
        match r {
            Poll::Pending => {
                self.reserved = false;
                Poll::Pending
            },
            Poll::Ready(Ok(())) => {
                self.reserved = true;
                Poll::Ready(Ok(()))
            },
            Poll::Ready(Err(_)) => {
                self.reserved = false;
                Poll::Ready(Err(UdpError::Closed))
            },
        }
    }

    /// Writes one datagram `(payload, local, remote)` as a frame from
    /// `local` to `remote` into the claimed slot, which always takes it.
    /// An empty payload is a no-op success; endpoints of different
    /// families fail with `AddressFamilyMismatch`, keeping the slot.
    /// Neither enqueues anything.
    pub fn start_send(&mut self, item: UdpMsg) -> (r: Result<(), UdpError>)
        requires
            old(self).wf(),
            SocketAddress::same_family(item.1, item.2) ==> item.0@.len() <= max_payload(
                item.1.ip,
            ),
            item.0@.len() > 0 && SocketAddress::same_family(item.1, item.2) ==> old(self).write_ready(),
        ensures
            final(self).wf(),
            final(self).read_ended() == old(self).read_ended(),
            old(self).write_closed() ==> final(self).write_closed(),
            item.0@.len() == 0 ==> r is Ok && final(self).frames_sent() == old(self).frames_sent()
                && final(self).write_ready() == old(self).write_ready(),
            item.0@.len() > 0 && !SocketAddress::same_family(item.1, item.2) ==> r == Err::<
                (),
                UdpError,
            >(UdpError::AddressFamilyMismatch) && final(self).frames_sent() == old(self).frames_sent() && final(self).write_ready() == old(self).write_ready(),
            item.0@.len() > 0 && SocketAddress::same_family(item.1, item.2) ==> {
                &&& r is Ok
                &&& !final(self).write_ready()
                &&& final(self).frames_sent().len() == old(self).frames_sent().len() + 1
                &&& final(self).frames_sent().drop_last() == old(self).frames_sent()
                &&& frame_layout(final(self).frames_sent().last(), item.0@, item.1, item.2, HOP_LIMIT)
            },
    {
        let (data, local, remote) = item;
        let encoded = encode_datagram(data.as_slice(), local, remote);
        match encoded {
            Err(e) => Err(e),
            Ok(None) => Ok(()),
            Ok(Some(frame)) => {
                let ghost bytes = frame@;
                let sent = send_item(&mut self.stack_tx, frame);
                self.reserved = false;
                self.sent = Ghost(self.sent@.push(bytes));
                assert(self.frames_sent().drop_last() =~= old(self).frames_sent());
                match sent {
                    Ok(()) => Ok(()),
                    Err(_) => Err(UdpError::Closed),
                }
            },
        }
    }

    /// Flushes the write half; frames leave as soon as they are written.
    pub fn poll_flush(&mut self, cx: &mut Context<'_>) -> (r: Poll<Result<(), UdpError>>)
        requires
            old(self).wf(),
        ensures
            final(self).wf(),
            r == Poll::<Result<(), UdpError>>::Ready(Ok(())),
            final(self).write_ready() == old(self).write_ready(),
            final(self).write_closed() == old(self).write_closed(),
            final(self).read_ended() == old(self).read_ended(),
            final(self).frames_sent() == old(self).frames_sent(),
    {
        match flush_sender(&mut self.stack_tx, cx) {
            Poll::Ready(Ok(())) => Poll::Ready(Ok(())),
            _ => Poll::Ready(Err(UdpError::Closed)),
        }
    }

    /// Closes both halves: the source queue takes no more frames and the
    /// read half ends at once, queued frames included; the write half is
    /// closed, so that only a slot already claimed can still take a frame.
    pub fn poll_close(&mut self, cx: &mut Context<'_>) -> (r: Poll<Result<(), UdpError>>)
        requires
            old(self).wf(),
        ensures
            final(self).wf(),
            final(self).read_ended(),
            final(self).write_closed(),
            final(self).write_ready() == old(self).write_ready(),
            r == Poll::<Result<(), UdpError>>::Ready(Ok(())),
            final(self).frames_sent() == old(self).frames_sent(),
    {
        self.udp_rx.close();
        self.read_finished = true;
        close_sender(&mut self.stack_tx);
        Poll::Ready(Ok(()))
    }
}

} // verus!
