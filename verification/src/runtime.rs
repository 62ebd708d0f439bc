//! The single-consumer/single-producer stream runtime.
//!
//! The runtime drives exactly one transformation instance: it takes inbound
//! events one at a time, invokes the transformation, resolves a routing key
//! and a destination topic for each produced output, and hands the keyed,
//! topic-tagged records to the outbound boundary in order. A per-message
//! failure (a malformed inbound message, or a handler error) is counted and
//! skipped; only a transport fault ends the run with an error.
//!
//! The outbound boundary itself (a partitioned broker, a socket) performs
//! I/O, so the runtime here is the decision core: `process_message` handles
//! one decoded input, and `run` folds a whole inbound sequence. A host loop
//! performs the receives and sends around these calls, one message at a
//! time, which couples the inbound consumption rate to outbound acceptance
//! and keeps exactly one handler call in flight.

use vstd::prelude::*;

verus! {

use crate::processor::StreamProcessor;

/// A produced output wrapped with its resolved routing key and destination
/// topic, ready for the outbound boundary.
pub struct RoutingEnvelope<O> {
    /// Partition-affinity key: equal keys reach the same partition.
    pub key: String,
    /// Logical destination channel.
    pub topic: String,
    /// The produced record itself.
    pub payload: O,
}

/// The mathematical content of a `RoutingEnvelope`: key and topic as
/// character sequences beside the payload.
pub struct SpecEnvelope<O> {
    /// The key's characters.
    pub key: Seq<char>,
    /// The topic's characters.
    pub topic: Seq<char>,
    /// The produced record.
    pub payload: O,
}

/// The mathematical content of one envelope.
pub open spec fn envelope_view<O>(e: RoutingEnvelope<O>) -> SpecEnvelope<O> {
    SpecEnvelope { key: e.key@, topic: e.topic@, payload: e.payload }
}

/// The mathematical content of a sequence of envelopes, in order.
pub open spec fn envelopes_view<O>(v: Seq<RoutingEnvelope<O>>) -> Seq<SpecEnvelope<O>> {
    v.map_values(|e: RoutingEnvelope<O>| envelope_view(e))
}

/// The envelopes a processor resolves for a sequence of outputs: one per
/// output, in the same order, keyed and topic-tagged by the processor's
/// pure resolvers.
pub open spec fn envelopes_for<P: StreamProcessor>(p: P, outs: Seq<P::Output>) -> Seq<
    SpecEnvelope<P::Output>,
> {
    outs.map_values(
        |o: P::Output| SpecEnvelope { key: p.key_spec(o), topic: p.topic_spec(o), payload: o },
    )
}

/// One event at the inbound boundary, as the host loop reports it: a decoded
/// message, a message the decoder rejected (recoverable), a graceful
/// end-of-stream, or an unrecoverable transport fault. End-of-stream and
/// fault are signalled distinctly from "a message arrived".
pub enum InboundEvent<I> {
    /// A message the decoder accepted.
    Message(I),
    /// A message the decoder rejected: counted, then skipped.
    Malformed,
    /// The inbound source closed gracefully.
    Closed,
    /// The inbound transport failed irrecoverably.
    Fault,
}

/// A condition that ends a run: the owning process restarts or escalates,
/// the runtime does not.
#[derive(Clone, Copy, Debug, PartialEq, Eq, Structural)]
pub enum FatalError {
    /// The inbound transport is permanently unavailable.
    InboundTransport,
    /// The outbound sink is permanently unavailable.
    OutboundTransport,
}

/// What a run produced: the outbound records in emission order, the count of
/// per-message recoverable errors, and how the run ended.
pub struct RunReport<O> {
    /// Every record handed to the outbound boundary, in order.
    pub envelopes: Vec<RoutingEnvelope<O>>,
    /// How many inbound messages were skipped as recoverable failures.
    pub errors: u64,
    /// `Ok` on graceful shutdown, the fatal condition otherwise.
    pub outcome: Result<(), FatalError>,
}

/// The mathematical result of a run.
pub struct SpecRun<O> {
    /// The emitted records, in order.
    pub envelopes: Seq<SpecEnvelope<O>>,
    /// The count of recoverable per-message failures.
    pub errors: nat,
    /// How the run ended.
    pub outcome: Result<(), FatalError>,
}

/// What the runtime does with an inbound event sequence, one event at a
/// time: a handled message appends its envelopes in order; a handler error
/// or a malformed message increments the error count and nothing else; a
/// graceful close stops cleanly and a transport fault stops with the fatal
/// error, both ignoring whatever would have followed.
pub open spec fn run_spec<P: StreamProcessor>(p: P, events: Seq<InboundEvent<P::Input>>) -> SpecRun<
    P::Output,
>
    decreases events.len(),
{
    if events.len() == 0 {
        SpecRun { envelopes: Seq::empty(), errors: 0, outcome: Ok(()) }
    } else {
        let rest = run_spec(p, events.drop_first());
        match events[0] {
            InboundEvent::Closed => SpecRun {
                envelopes: Seq::empty(),
                errors: 0,
                outcome: Ok(()),
            },
            InboundEvent::Fault => SpecRun {
                envelopes: Seq::empty(),
                errors: 0,
                outcome: Err(FatalError::InboundTransport),
            },
            InboundEvent::Malformed => SpecRun {
                envelopes: rest.envelopes,
                errors: rest.errors + 1,
                outcome: rest.outcome,
            },
            InboundEvent::Message(input) => match p.handle_spec(input) {
                Err(_) => SpecRun {
                    envelopes: rest.envelopes,
                    errors: rest.errors + 1,
                    outcome: rest.outcome,
                },
                Ok(None) => rest,
                Ok(Some(outs)) => SpecRun {
                    envelopes: envelopes_for(p, outs) + rest.envelopes,
                    errors: rest.errors,
                    outcome: rest.outcome,
                },
            },
        }
    }
}

/// The runtime for one transformation instance. It owns the processor and
/// nothing else: each instance works its own inbound and outbound handles,
/// so instances share no state.
pub struct StreamRunner<P> {
    /// The transformation this runtime drives.
    pub processor: P,
}

impl<P: StreamProcessor> StreamRunner<P> {
    /// Builds a runtime around one processor instance.
    pub fn new(processor: P) -> (r: Self)
        ensures
            r.processor == processor,
    {
        StreamRunner { processor }
    }

    /// Handles one decoded inbound message: invokes the transformation and
    /// resolves key and topic for each produced output, preserving the order
    /// in which the outputs were returned.
    pub fn process_message(&self, input: P::Input) -> (r: Result<
        Vec<RoutingEnvelope<P::Output>>,
        P::Error,
    >)
        ensures
            match self.processor.handle_spec(input) {
                Ok(Some(outs)) => r matches Ok(v) && envelopes_view(v@) == envelopes_for(
                    self.processor,
                    outs,
                ),
                Ok(None) => r matches Ok(v) && v@.len() == 0,
                Err(e) => r matches Err(e2) && e2 == e,
            },
    {
        let mut outputs = match self.processor.handle_message(input) {
            Err(e) => {
                return Err(e);
            },
            Ok(None) => {
                return Ok(Vec::new());
            },
            Ok(Some(outs)) => outs,
        };
        let ghost all = outputs@;
        let mut envelopes: Vec<RoutingEnvelope<P::Output>> = Vec::new();
        while outputs.len() > 0
            invariant
                envelopes@.len() + outputs@.len() == all.len(),
                outputs@ == all.skip(envelopes@.len() as int),
                envelopes_view(envelopes@) == envelopes_for(
                    self.processor,
                    all.take(envelopes@.len() as int),
                ),
            decreases outputs@.len(),
        {
            let ghost k = envelopes@.len() as int;
            let ghost prev = envelopes@;
            let output = outputs.remove(0);
            proof {
                assert(output == all[k]);
                assert(outputs@ =~= all.skip(k + 1));
            }
            let key = self.processor.assign_key(&output);
            let topic = self.processor.assign_topic(&output);
            envelopes.push(RoutingEnvelope { key, topic, payload: output });
            proof {
                assert forall|i: int| 0 <= i <= k implies envelopes_view(envelopes@)[i]
                    == envelopes_for(self.processor, all.take(k + 1))[i] by {
                    if i < k {
                        assert(envelopes_view(prev)[i] == envelopes_for(
                            self.processor,
                            all.take(k),
                        )[i]);
                        assert(envelopes@[i] == prev[i]);
                        assert(all.take(k + 1)[i] == all.take(k)[i]);
                    } else {
                        assert(envelope_view(envelopes@[k]).key == self.processor.key_spec(
                            all[k],
                        ));
                        assert(envelope_view(envelopes@[k]).topic == self.processor.topic_spec(
                            all[k],
                        ));
                        assert(envelope_view(envelopes@[k]).payload == all[k]);
                    }
                }
                assert(envelopes_view(envelopes@) =~= envelopes_for(
                    self.processor,
                    all.take(k + 1),
                ));
            }
        }
        proof {
            assert(all.take(all.len() as int) =~= all);
        }
        Ok(envelopes)
    }

    /// Drives the per-message loop over a whole inbound sequence: the
    /// verified core of `run()`. Messages are handled one at a time in
    /// order; recoverable failures are counted and skipped; a graceful
    /// close returns `Ok` and a transport fault returns the fatal error,
    /// in both cases keeping every record already produced.
    pub fn run(&self, events: Vec<InboundEvent<P::Input>>) -> (r: RunReport<P::Output>)
        ensures
            envelopes_view(r.envelopes@) == run_spec(self.processor, events@).envelopes,
            r.errors == run_spec(self.processor, events@).errors,
            r.outcome == run_spec(self.processor, events@).outcome,
    {
        let ghost full = events@;
        let mut queue = events;
        let total: usize = queue.len();
        proof {
            assert(full.len() == total);
        }
        let mut envelopes: Vec<RoutingEnvelope<P::Output>> = Vec::new();
        let mut errors: u64 = 0;
        while queue.len() > 0
            invariant
                full == events@,
                full.len() <= usize::MAX,
                queue@.len() <= full.len(),
                errors <= full.len() - queue@.len(),
                run_spec(self.processor, full).envelopes == envelopes_view(envelopes@)
                    + run_spec(self.processor, queue@).envelopes,
                run_spec(self.processor, full).errors == errors + run_spec(
                    self.processor,
                    queue@,
                ).errors,
                run_spec(self.processor, full).outcome == run_spec(
                    self.processor,
                    queue@,
                ).outcome,
            decreases queue@.len(),
        {
            let ghost before = queue@;
            let event = queue.remove(0);
            proof {
                assert(queue@ =~= before.drop_first());
            }
            match event {
                InboundEvent::Closed => {
                    proof {
                        assert(before[0] is Closed);
                        assert(run_spec(self.processor, before).envelopes =~= Seq::<
                            SpecEnvelope<P::Output>,
                        >::empty());
                        assert(run_spec(self.processor, before).errors == 0);
                        assert(run_spec(self.processor, before).outcome == Ok::<(), FatalError>(
                            (),
                        ));
                        assert(envelopes_view(envelopes@) + Seq::<SpecEnvelope<P::Output>>::empty()
                            =~= envelopes_view(envelopes@));
                    }
                    return RunReport { envelopes, errors, outcome: Ok(()) };
                },
                InboundEvent::Fault => {
                    proof {
                        assert(before[0] is Fault);
                        assert(run_spec(self.processor, before).envelopes =~= Seq::<
                            SpecEnvelope<P::Output>,
                        >::empty());
                        assert(run_spec(self.processor, before).errors == 0);
                        assert(run_spec(self.processor, before).outcome == Err::<(), FatalError>(
                            FatalError::InboundTransport,
                        ));
                        assert(envelopes_view(envelopes@) + Seq::<SpecEnvelope<P::Output>>::empty()
                            =~= envelopes_view(envelopes@));
                    }
                    return RunReport {
                        envelopes,
                        errors,
                        outcome: Err(FatalError::InboundTransport),
                    };
                },
                InboundEvent::Malformed => {
                    proof {
                        assert(before[0] is Malformed);
                        assert(run_spec(self.processor, before).envelopes == run_spec(
                            self.processor,
                            queue@,
                        ).envelopes);
                        assert(run_spec(self.processor, before).errors == run_spec(
                            self.processor,
                            queue@,
                        ).errors + 1);
                        assert(run_spec(self.processor, before).outcome == run_spec(
                            self.processor,
                            queue@,
                        ).outcome);
                    }
                    errors = errors + 1;
                },
                InboundEvent::Message(input) => {
                    proof {
                        assert(before[0] == InboundEvent::Message(input));
                    }
                    match self.process_message(input) {
                        Ok(mut batch) => {
                            proof {
                                match self.processor.handle_spec(input) {
                                    Ok(Some(outs)) => {
                                        assert(envelopes_view(batch@) == envelopes_for(
                                            self.processor,
                                            outs,
                                        ));
                                        assert(run_spec(self.processor, before).envelopes
                                            == envelopes_for(self.processor, outs) + run_spec(
                                            self.processor,
                                            queue@,
                                        ).envelopes);
                                    },
                                    _ => {
                                        assert(batch@.len() == 0);
                                        assert(envelopes_view(batch@) =~= Seq::<
                                            SpecEnvelope<P::Output>,
                                        >::empty());
                                        assert(run_spec(self.processor, before).envelopes
                                            == run_spec(self.processor, queue@).envelopes);
                                    },
                                }
                                assert(run_spec(self.processor, before).errors == run_spec(
                                    self.processor,
                                    queue@,
                                ).errors);
                                assert(run_spec(self.processor, before).outcome == run_spec(
                                    self.processor,
                                    queue@,
                                ).outcome);
                                assert(envelopes_view(envelopes@ + batch@) =~= envelopes_view(
                                    envelopes@,
                                ) + envelopes_view(batch@));
                                assert((envelopes_view(envelopes@) + envelopes_view(batch@))
                                    + run_spec(self.processor, queue@).envelopes
                                    =~= envelopes_view(envelopes@) + (envelopes_view(batch@)
                                    + run_spec(self.processor, queue@).envelopes));
                            }
                            envelopes.append(&mut batch);
                        },
                        Err(_) => {
                            proof {
                                assert(self.processor.handle_spec(input) is Err);
                                assert(run_spec(self.processor, before).errors == run_spec(
                                    self.processor,
                                    queue@,
                                ).errors + 1);
                            }
                            errors = errors + 1;
                        },
                    }
                },
            }
        }
        proof {
            assert(queue@.len() == 0);
            assert(run_spec(self.processor, queue@).envelopes =~= Seq::<
                SpecEnvelope<P::Output>,
            >::empty());
            assert(envelopes_view(envelopes@) + Seq::<SpecEnvelope<P::Output>>::empty()
                =~= envelopes_view(envelopes@));
        }
        RunReport { envelopes, errors, outcome: Ok(()) }
    }
}

/// Law (ordering): the envelopes resolved for one handled message stand in
/// the order the outputs were returned — the envelope at position `i`
/// carries output `i`, keyed and topic-tagged by the processor's resolvers.
pub proof fn lemma_envelopes_preserve_order<P: StreamProcessor>(
    p: P,
    outs: Seq<P::Output>,
    i: int,
)
    requires
        0 <= i < outs.len(),
    ensures
        envelopes_for(p, outs).len() == outs.len(),
        envelopes_for(p, outs)[i].payload == outs[i],
        envelopes_for(p, outs)[i].key == p.key_spec(outs[i]),
        envelopes_for(p, outs)[i].topic == p.topic_spec(outs[i]),
{
}

/// One inbound event that yields exactly one outbound record: a decoded
/// message the processor maps to a single output.
pub open spec fn yields_one_record<P: StreamProcessor>(p: P, ev: InboundEvent<P::Input>) -> bool {
    ev matches InboundEvent::Message(input) && p.handle_spec(input) matches Ok(Some(outs))
        && outs.len() == 1
}

/// Law: a run over messages that each yield one record emits exactly one
/// record per message, counts no error, and ends gracefully.
pub proof fn lemma_valid_messages_all_emitted<P: StreamProcessor>(
    p: P,
    events: Seq<InboundEvent<P::Input>>,
)
    requires
        forall|i: int| 0 <= i < events.len() ==> yields_one_record(p, #[trigger] events[i]),
    ensures
        run_spec(p, events).envelopes.len() == events.len(),
        run_spec(p, events).errors == 0,
        run_spec(p, events).outcome == Ok::<(), FatalError>(()),
    decreases events.len(),
{
    if events.len() > 0 {
        assert(yields_one_record(p, events[0]));
        assert forall|i: int| 0 <= i < events.drop_first().len() implies yields_one_record(
            p,
            #[trigger] events.drop_first()[i],
        ) by {
            assert(events.drop_first()[i] == events[i + 1]);
        }
        lemma_valid_messages_all_emitted(p, events.drop_first());
    }
}

/// Law (resilience): an inbound stream of one malformed message followed by
/// messages that each yield one record produces exactly one outbound record
/// per following message; the malformed message only increments the error
/// count, and the run still ends gracefully.
pub proof fn lemma_resilient_to_malformed<P: StreamProcessor>(
    p: P,
    valid: Seq<InboundEvent<P::Input>>,
)
    requires
        forall|i: int| 0 <= i < valid.len() ==> yields_one_record(p, #[trigger] valid[i]),
    ensures
        run_spec(p, seq![InboundEvent::<P::Input>::Malformed] + valid).envelopes.len()
            == valid.len(),
        run_spec(p, seq![InboundEvent::<P::Input>::Malformed] + valid).errors == 1,
        run_spec(p, seq![InboundEvent::<P::Input>::Malformed] + valid).outcome == Ok::<
            (),
            FatalError,
        >(()),
{
    let events = seq![InboundEvent::<P::Input>::Malformed] + valid;
    assert(events[0] is Malformed);
    assert(events.drop_first() =~= valid);
    lemma_valid_messages_all_emitted(p, valid);
}

} // verus!
