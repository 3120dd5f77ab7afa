use vstd::prelude::*;
use crate::command::{AtClient, Command, Event, RadioAccessNetwork, Response, UrcMode};
use crate::error::{Error, PollResult, TransportError};

verus! {

/// One command exchange as it happened.
pub struct Exchange {
    pub command: Command,
    pub drain_urcs: bool,
    pub reply: Result<Response, TransportError>,
}

/// A transport reply as the driver reports it.
pub open spec fn lift(reply: Result<Response, TransportError>) -> Result<Response, Error> {
    match reply {
        Ok(resp) => Ok(resp),
        Err(e) => Err(Error::Network(e)),
    }
}

/// `after` is `before` with exchanges appended.
pub open spec fn extends(before: Seq<Exchange>, after: Seq<Exchange>) -> bool {
    before.len() <= after.len() && after.take(before.len() as int) == before
}

/// The exchanges appended to `before`.
pub open spec fn issued(before: Seq<Exchange>, after: Seq<Exchange>) -> Seq<Exchange> {
    after.skip(before.len() as int)
}

/// `new` sends a prefix of `cmds` in order and stops early only right after
/// a reply on which `stops` holds.
pub open spec fn ran_until(
    new: Seq<Exchange>,
    cmds: Seq<Command>,
    drain: bool,
    stops: spec_fn(Result<Response, TransportError>) -> bool,
) -> bool {
    &&& new.len() <= cmds.len()
    &&& forall|i: int|
        0 <= i < new.len() ==> (#[trigger] new[i]).command == cmds[i] && new[i].drain_urcs == drain
    &&& forall|i: int| 0 <= i < new.len() - 1 ==> !stops(#[trigger] new[i].reply)
    &&& new.len() < cmds.len() ==> new.len() > 0 && stops(new.last().reply)
}

/// The run `new` ended on a reply on which `stops` holds.
pub open spec fn stopped(
    new: Seq<Exchange>,
    stops: spec_fn(Result<Response, TransportError>) -> bool,
) -> bool {
    new.len() > 0 && stops(new.last().reply)
}

pub open spec fn is_failure(reply: Result<Response, TransportError>) -> bool {
    reply is Err
}

/// Outcome of a sequence of commands that stops at the first failure.
pub open spec fn sequence_result(new: Seq<Exchange>) -> Result<(), Error> {
    if stopped(new, |r| is_failure(r)) {
        Err(Error::Network(new.last().reply->Err_0))
    } else {
        Ok(())
    }
}

/// What one registration status query decides, if anything.
pub open spec fn registration_verdict(reply: Result<Response, TransportError>) -> Option<PollResult> {
    match reply {
        Err(e) => Some(PollResult::Fatal(Error::Network(e))),
        Ok(Response::Registration(st)) => if st.registered() {
            Some(PollResult::Done)
        } else if st is Denied {
            Some(PollResult::Fatal(Error::RegistrationDenied))
        } else {
            None
        },
        Ok(_) => None,
    }
}

/// The status queries of the registration sub-protocol.
pub open spec fn registration_queries(preferred: Option<RadioAccessNetwork>) -> Seq<Command> {
    match preferred {
        None => seq![Command::GetEpsRegistrationStatus, Command::GetGprsRegistrationStatus],
        Some(RadioAccessNetwork::Eutran) => seq![Command::GetEpsRegistrationStatus],
        Some(_) => seq![Command::GetGprsRegistrationStatus],
    }
}

pub(crate) proof fn lemma_extends_self(log: Seq<Exchange>)
    ensures
        extends(log, log),
        issued(log, log).len() == 0,
{
    assert(log.take(log.len() as int) =~= log);
}

pub(crate) proof fn lemma_extends_push(start: Seq<Exchange>, before: Seq<Exchange>, x: Exchange)
    requires
        extends(start, before),
    ensures
        extends(start, before.push(x)),
        issued(start, before.push(x)) == issued(start, before).push(x),
{
    assert(before.push(x).take(start.len() as int) =~= before.take(start.len() as int));
    assert(issued(start, before.push(x)) =~= issued(start, before).push(x));
}

pub(crate) proof fn lemma_extends_trans(a: Seq<Exchange>, b: Seq<Exchange>, c: Seq<Exchange>)
    requires
        extends(a, b),
        extends(b, c),
    ensures
        extends(a, c),
        issued(a, c) == issued(a, b) + issued(b, c),
{
    assert(c.take(a.len() as int) =~= b.take(a.len() as int));
    assert(issued(a, c) =~= issued(a, b) + issued(b, c));
}

/// The command channel with its queue of notifications and the connection
/// flags. `log` records every exchange made through it.
pub struct Network<C> {
    pub client: C,
    pub events: Vec<Event>,
    /// Packet-domain attach state.
    pub attached: bool,
    /// Data-context state.
    pub pdp_context_active: bool,
    pub log: Ghost<Seq<Exchange>>,
}

impl<C: AtClient> Network<C> {
    pub fn new(client: C) -> (r: Self)
        ensures
            r.client == client,
            r.events@.len() == 0,
            !r.attached,
            !r.pdp_context_active,
            r.log@.len() == 0,
    {
        Network {
            client,
            events: Vec::new(),
            attached: false,
            pdp_context_active: false,
            log: Ghost(Seq::empty()),
        }
    }

    /// Sends one command through the transport.
    pub fn send_internal(&mut self, cmd: &Command, drain_urcs: bool) -> (r: Result<Response, Error>)
        ensures
            final(self).log@ == old(self).log@.push(
                Exchange { command: *cmd, drain_urcs, reply: final(self).log@.last().reply },
            ),
            r == lift(final(self).log@.last().reply),
            final(self).events@ == old(self).events@,
            final(self).attached == old(self).attached,
            final(self).pdp_context_active == old(self).pdp_context_active,
    {
        let reply = self.client.send(cmd, drain_urcs);
        self.log = Ghost(self.log@.push(Exchange { command: *cmd, drain_urcs, reply }));
        match reply {
            Ok(resp) => Ok(resp),
            Err(e) => Err(Error::Network(e)),
        }
    }

    /// Sends `cmds` in order, stopping at the first failure.
    pub fn send_sequence(&mut self, cmds: &Vec<Command>, drain_urcs: bool) -> (r: Result<(), Error>)
        ensures
            extends(old(self).log@, final(self).log@),
            ran_until(issued(old(self).log@, final(self).log@), cmds@, drain_urcs, |r| is_failure(r)),
            r == sequence_result(issued(old(self).log@, final(self).log@)),
            final(self).events@ == old(self).events@,
            final(self).attached == old(self).attached,
            final(self).pdp_context_active == old(self).pdp_context_active,
    {
        let ghost start = self.log@;
        proof {
            lemma_extends_self(start);
        }
        let mut i: usize = 0;
        while i < cmds.len()
            invariant
                i <= cmds@.len(),
                start == old(self).log@,
                extends(start, self.log@),
                issued(start, self.log@).len() == i,
                forall|j: int|
                    0 <= j < i ==> (#[trigger] issued(start, self.log@)[j]).command == cmds@[j]
                        && issued(start, self.log@)[j].drain_urcs == drain_urcs
                        && issued(start, self.log@)[j].reply is Ok,
                self.events@ == old(self).events@,
                self.attached == old(self).attached,
                self.pdp_context_active == old(self).pdp_context_active,
            decreases cmds@.len() - i,
        {
            let ghost before = self.log@;
            let r = self.send_internal(&cmds[i], drain_urcs);
            proof {
                lemma_extends_push(start, before, self.log@.last());
                assert(self.log@ == before.push(self.log@.last()));
            }
            match r {
                Ok(_) => {},
                Err(e) => {
                    return Err(e);
                },
            }
            i = i + 1;
        }
        Ok(())
    }

    /// Takes the oldest queued notification.
    pub fn get_event(&mut self) -> (r: Option<Event>)
        ensures
            old(self).events@.len() == 0 ==> r is None && final(self).events@ == old(self).events@,
            old(self).events@.len() > 0 ==> r == Some(old(self).events@[0]) && final(self).events@
                == old(self).events@.drop_first(),
            final(self).log@ == old(self).log@,
            final(self).attached == old(self).attached,
            final(self).pdp_context_active == old(self).pdp_context_active,
    {
        if self.events.len() == 0 {
            None
        } else {
            let e = self.events.remove(0);
            assert(self.events@ =~= old(self).events@.drop_first());
            Some(e)
        }
    }

    /// Drops every queued notification.
    pub fn clear_events(&mut self)
        ensures
            final(self).events@.len() == 0,
            final(self).log@ == old(self).log@,
            final(self).attached == old(self).attached,
            final(self).pdp_context_active == old(self).pdp_context_active,
    {
        self.events.clear();
    }

    /// Moves at most one pending notification from the transport into the
    /// queue.
    pub fn handle_urc(&mut self)
        ensures
            final(self).events@ == old(self).events@ || exists|e: Event|
                final(self).events@ == old(self).events@.push(e),
            final(self).log@ == old(self).log@,
            final(self).attached == old(self).attached,
            final(self).pdp_context_active == old(self).pdp_context_active,
    {
        match self.client.next_urc() {
            Some(e) => {
                self.events.push(e);
            },
            None => {},
        }
    }

    /// One round of the registration sub-protocol: queries the registration
    /// status of the preferred network (of LTE, then the packet-switched one,
    /// when none is preferred) and reports `Done` once registered,
    /// `RegistrationDenied` when denied, and `Pending` otherwise.
    pub fn register(&mut self, preferred: Option<RadioAccessNetwork>) -> (r: PollResult)
        ensures
            extends(old(self).log@, final(self).log@),
            ran_until(
                issued(old(self).log@, final(self).log@),
                registration_queries(preferred),
                true,
                |reply| registration_verdict(reply) is Some,
            ),
            ({
                let new = issued(old(self).log@, final(self).log@);
                if new.len() > 0 && registration_verdict(new.last().reply) is Some {
                    r == registration_verdict(new.last().reply)->Some_0
                } else {
                    r == PollResult::Pending
                }
            }),
            final(self).events@ == old(self).events@,
            final(self).attached == old(self).attached,
            final(self).pdp_context_active == old(self).pdp_context_active,
    {
        let queries: Vec<Command> = match preferred {
            None => vec![Command::GetEpsRegistrationStatus, Command::GetGprsRegistrationStatus],
            Some(RadioAccessNetwork::Eutran) => vec![Command::GetEpsRegistrationStatus],
            Some(_) => vec![Command::GetGprsRegistrationStatus],
        };
        assert(queries@ =~= registration_queries(preferred));
        let ghost start = self.log@;
        proof {
            lemma_extends_self(start);
        }
        let mut i: usize = 0;
        while i < queries.len()
            invariant
                i <= queries@.len(),
                queries@ == registration_queries(preferred),
                start == old(self).log@,
                extends(start, self.log@),
                issued(start, self.log@).len() == i,
                forall|j: int|
                    0 <= j < i ==> (#[trigger] issued(start, self.log@)[j]).command == queries@[j]
                        && issued(start, self.log@)[j].drain_urcs
                        && registration_verdict(issued(start, self.log@)[j].reply) is None,
                self.events@ == old(self).events@,
                self.attached == old(self).attached,
                self.pdp_context_active == old(self).pdp_context_active,
            decreases queries@.len() - i,
        {
            let ghost before = self.log@;
            let reply = self.send_internal(&queries[i], true);
            proof {
                lemma_extends_push(start, before, self.log@.last());
                assert(self.log@ == before.push(self.log@.last()));
            }
            match reply {
                Err(e) => {
                    return PollResult::Fatal(e);
                },
                Ok(Response::Registration(st)) => {
                    if st.is_registered() {
                        return PollResult::Done;
                    } else if st == crate::command::RegistrationStatus::Denied {
                        return PollResult::Fatal(Error::RegistrationDenied);
                    }
                },
                Ok(_) => {},
            }
            i = i + 1;
        }
        PollResult::Pending
    }

    /// One round of the packet-attach sub-protocol. Done at once when
    /// `attached` is set; otherwise the attach state is queried, and when
    /// the module is not attached yet it is asked to attach.
    pub fn attach(&mut self) -> (r: PollResult)
        ensures
            extends(old(self).log@, final(self).log@),
            final(self).events@ == old(self).events@,
            final(self).pdp_context_active == old(self).pdp_context_active,
            old(self).attached ==> r == PollResult::Done && final(self).log@ == old(self).log@
                && final(self).attached,
            !old(self).attached ==> {
                let new = issued(old(self).log@, final(self).log@);
                &&& 1 <= new.len() <= 2
                &&& new[0].command == Command::GetGprsAttached && new[0].drain_urcs
                &&& (new[0].reply == Ok::<Response, TransportError>(Response::GprsAttached(true)))
                    == (r == PollResult::Done)
                &&& final(self).attached == (r == PollResult::Done)
                &&& new[0].reply is Err ==> new.len() == 1 && r == PollResult::Fatal(
                    Error::Network(new[0].reply->Err_0),
                )
                &&& new.len() == 2 ==> {
                    &&& new[0].reply is Ok
                    &&& new[0].reply != Ok::<Response, TransportError>(Response::GprsAttached(true))
                    &&& new[1].command == Command::SetGprsAttached(true) && new[1].drain_urcs
                    &&& r == match new[1].reply {
                        Ok(_) => PollResult::Pending,
                        Err(e) => PollResult::Fatal(Error::Network(e)),
                    }
                }
                &&& new.len() == 1 ==> new[0].reply is Err || new[0].reply == Ok::<
                    Response,
                    TransportError,
                >(Response::GprsAttached(true))
            },
    {
        proof {
            lemma_extends_self(self.log@);
        }
        if self.attached {
            return PollResult::Done;
        }
        let ghost start = self.log@;
        let state = self.send_internal(&Command::GetGprsAttached, true);
        let ghost mid = self.log@;
        proof {
            lemma_extends_push(start, start, mid.last());
            assert(mid == start.push(mid.last()));
            assert(issued(start, mid) =~= seq![mid.last()]);
        }
        match state {
            Err(e) => PollResult::Fatal(e),
            Ok(Response::GprsAttached(true)) => {
                self.attached = true;
                PollResult::Done
            },
            Ok(_) => {
                let set = self.send_internal(&Command::SetGprsAttached(true), true);
                proof {
                    lemma_extends_push(start, mid, self.log@.last());
                    assert(self.log@ == mid.push(self.log@.last()));
                    assert(issued(start, self.log@) =~= seq![mid.last(), self.log@.last()]);
                }
                match set {
                    Ok(_) => PollResult::Pending,
                    Err(e) => PollResult::Fatal(e),
                }
            },
        }
    }

    /// Switches packet-domain event reporting on or off.
    pub fn set_packet_domain_event_reporting(&mut self, enabled: bool) -> (r: Result<(), Error>)
        ensures
            final(self).log@ == old(self).log@.push(
                Exchange {
                    command: Command::SetPacketDomainEventReporting(enabled),
                    drain_urcs: true,
                    reply: final(self).log@.last().reply,
                },
            ),
            r == match final(self).log@.last().reply {
                Ok(_) => Ok::<(), Error>(()),
                Err(e) => Err(Error::Network(e)),
            },
            final(self).events@ == old(self).events@,
            final(self).attached == old(self).attached,
            final(self).pdp_context_active == old(self).pdp_context_active,
    {
        match self.send_internal(&Command::SetPacketDomainEventReporting(enabled), true) {
            Ok(_) => Ok(()),
            Err(e) => Err(e),
        }
    }
}

} // verus!
