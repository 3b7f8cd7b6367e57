use vstd::prelude::*;

verus! {

/// The connections held in an optional slot, as a sequence of zero or one.
pub open spec fn slot_seq<C>(o: Option<C>) -> Seq<C> {
    match o {
        Some(c) => seq![c],
        None => Seq::empty(),
    }
}

/// Why the TCP ingress driver stopped.
#[derive(Debug, Clone, Copy, PartialEq, Eq, Structural)]
pub enum DriverExit {
    /// The local server's queue is closed.
    QueueClosed,
    /// Opening a stream failed: the connection waits in the pending slot and
    /// the tunnel is to be reconnected.
    Reconnect,
}

/// The decisions of the TCP ingress driver, generic over the accepted
/// connection. It takes the connection in the pending slot before any from
/// the queue, hands each connection whose stream opened to a session, and on
/// a failed open puts the connection back in the slot and stops.
pub struct TcpIngress<C> {
    pending: Option<C>,
    in_hand: Option<C>,
    exit: Option<DriverExit>,
    accepted: Ghost<Seq<C>>,
    started: Ghost<Seq<C>>,
}

impl<C> TcpIngress<C> {
    /// Every connection that came into the driver, from the slot it was
    /// started with or from the queue, in order.
    pub closed spec fn accepted(&self) -> Seq<C> {
        self.accepted@
    }

    /// The connections handed to a session, in order.
    pub closed spec fn started(&self) -> Seq<C> {
        self.started@
    }

    pub closed spec fn pending_spec(&self) -> Option<C> {
        self.pending
    }

    /// The connection whose stream is being opened.
    pub closed spec fn in_hand(&self) -> Option<C> {
        self.in_hand
    }

    pub closed spec fn exit_spec(&self) -> Option<DriverExit> {
        self.exit
    }

    pub closed spec fn wf(&self) -> bool {
        &&& self.accepted@ == self.started@ + slot_seq(self.pending) + slot_seq(self.in_hand)
        &&& !(self.pending is Some && self.in_hand is Some)
        &&& (self.exit is Some ==> self.in_hand is None)
        &&& (self.exit is None ==> self.pending is None || self.started@.len() == 0)
        &&& (self.exit == Some(DriverExit::Reconnect) ==> self.pending is Some)
    }

    /// A driver started with what the previous one left in the slot.
    pub fn new(pending: Option<C>) -> (d: Self)
        ensures
            d.wf(),
            d.pending_spec() == pending,
            d.in_hand() is None,
            d.exit_spec() is None,
            d.accepted() == slot_seq(pending),
            d.started() == Seq::<C>::empty(),
    {
        let ghost g = slot_seq(pending);
        TcpIngress {
            pending,
            in_hand: None,
            exit: None,
            accepted: Ghost(g),
            started: Ghost(Seq::empty()),
        }
    }

    /// Takes the connection in the pending slot, if there is one, as the next
    /// to pair with a stream. Returns false when the slot is empty: the next
    /// connection is then to come from the queue.
    pub fn take_pending(&mut self) -> (r: bool)
        requires
            old(self).wf(),
            old(self).exit_spec() is None,
            old(self).in_hand() is None,
        ensures
            final(self).wf(),
            r == old(self).pending_spec() is Some,
            final(self).in_hand() == old(self).pending_spec(),
            final(self).pending_spec() is None,
            final(self).exit_spec() is None,
            final(self).accepted() == old(self).accepted(),
            final(self).started() == old(self).started(),
    {
        let p = self.pending.take();
        let r = p.is_some();
        self.in_hand = p;
        r
    }

    /// Takes what the local server's queue delivered: a connection to pair
    /// with a stream, or the end of the queue, which stops the driver.
    pub fn accept(&mut self, msg: Option<C>) -> (r: bool)
        requires
            old(self).wf(),
            old(self).exit_spec() is None,
            old(self).in_hand() is None,
            old(self).pending_spec() is None,
        ensures
            final(self).wf(),
            r == msg is Some,
            final(self).in_hand() == msg,
            final(self).pending_spec() is None,
            final(self).exit_spec() == if msg is Some { None } else { Some(DriverExit::QueueClosed) },
            final(self).accepted() == old(self).accepted() + slot_seq(msg),
            final(self).started() == old(self).started(),
    {
        let r = msg.is_some();
        proof {
            self.accepted@ = self.accepted@ + slot_seq(msg);
        }
        if !r {
            self.exit = Some(DriverExit::QueueClosed);
        }
        self.in_hand = msg;
        assert(self.accepted@ =~= self.started@ + slot_seq(self.pending) + slot_seq(self.in_hand));
        r
    }

    /// Takes the outcome of opening a stream for the connection in hand. On
    /// success the connection is handed back to start its session; on failure
    /// it goes to the pending slot and the driver stops for a reconnect.
    pub fn opened(&mut self, ok: bool) -> (r: Option<C>)
        requires
            old(self).wf(),
            old(self).exit_spec() is None,
            old(self).in_hand() is Some,
        ensures
            final(self).wf(),
            final(self).in_hand() is None,
            final(self).accepted() == old(self).accepted(),
            ok ==> r == old(self).in_hand() && final(self).pending_spec() is None && final(self).exit_spec() is None
                && final(self).started() == old(self).started() + slot_seq(old(self).in_hand()),
            !ok ==> r is None && final(self).pending_spec() == old(self).in_hand()
                && final(self).exit_spec() == Some(DriverExit::Reconnect)
                && final(self).started() == old(self).started(),
    {
        let c = self.in_hand.take();
        if ok {
            proof {
                self.started@ = self.started@ + slot_seq(c);
            }
            assert(self.accepted@ =~= self.started@ + slot_seq(self.pending) + slot_seq(self.in_hand));
            c
        } else {
            self.pending = c;
            self.exit = Some(DriverExit::Reconnect);
            assert(self.accepted@ =~= self.started@ + slot_seq(self.pending) + slot_seq(self.in_hand));
            None
        }
    }

    /// Why the driver stopped, once it has.
    pub fn exit(&self) -> (r: Option<DriverExit>)
        ensures
            r == self.exit_spec(),
    {
        self.exit
    }

    /// Ends the driver, giving back the pending slot for the next one.
    pub fn into_pending(self) -> (r: Option<C>)
        requires
            self.wf(),
            self.exit_spec() is Some,
        ensures
            r == self.pending_spec(),
            self.accepted() == self.started() + slot_seq(r),
    {
        self.pending
    }
}

/// No connection is dropped: at every point of the driver, the connections
/// that came into it are those handed to a session, in order, followed by
/// the one in the pending slot or the one whose stream is being opened.
/// Once the driver has stopped, nothing is in hand.
pub proof fn lemma_no_connection_dropped<C>(d: TcpIngress<C>)
    requires
        d.wf(),
    ensures
        d.accepted() == d.started() + slot_seq(d.pending_spec()) + slot_seq(d.in_hand()),
        d.exit_spec() is Some ==> d.accepted() == d.started() + slot_seq(d.pending_spec()),
{
    if d.exit_spec() is Some {
        assert(slot_seq(d.in_hand()) =~= Seq::<C>::empty());
        assert(d.started() + slot_seq(d.pending_spec()) + Seq::<C>::empty() =~= d.started() + slot_seq(d.pending_spec()));
    }
}

/// How the tunnel connection ended, as an accept on it reported.
#[derive(Debug, Clone, Copy, PartialEq, Eq, Structural)]
pub enum CloseKind {
    TimedOut,
    ApplicationClosed,
    Other,
}

/// A time-out or an application close is an expected tear-down; any other
/// connection error is reported as an error.
pub fn is_expected_close(kind: CloseKind) -> (r: bool)
    ensures
        r == (kind == CloseKind::TimedOut || kind == CloseKind::ApplicationClosed),
{
    match kind {
        CloseKind::TimedOut => true,
        CloseKind::ApplicationClosed => true,
        CloseKind::Other => false,
    }
}

} // verus!
