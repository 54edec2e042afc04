//! The pipeline core: the message type of the ingestion channel, the
//! formatter stage's step, the supervisor that owns the writer stage and the
//! shutdown protocol, and the per-thread emitter.
//!
//! A running process drives these decisions from two background threads and
//! a multi-producer channel; that plumbing stays outside the crate.  Here
//! every decision is a function of the messages it is handed, so the whole
//! protocol — filtering, formatting, fan-out, and the drain-before-stop
//! shutdown — is stated and checked on the sequence of messages the channel
//! delivers.

use vstd::prelude::*;
use vstd::string::StringExecFns;

use crate::config::Config;
use crate::event::Event;
use crate::filter::accepts_spec;
use crate::filter::Filters;
use crate::text::dec_spec;
use crate::text::u64_to_dec;
use crate::writer::Appender;
use crate::writer::Writer;

verus! {

/// The unit of transfer on the ingestion channel: a log occurrence, or the
/// one-shot shutdown signal.
pub enum EventType {
    Log(Event),
    Terminate,
}

/// The log events carried by `msgs`, in arrival order.
pub open spec fn events_of(msgs: Seq<EventType>) -> Seq<Event>
    decreases msgs.len(),
{
    if msgs.len() == 0 {
        Seq::<Event>::empty()
    } else {
        match msgs.last() {
            EventType::Log(e) => events_of(msgs.drop_last()).push(e),
            EventType::Terminate => events_of(msgs.drop_last()),
        }
    }
}

/// The records the formatter stage produces for `msgs`, in arrival order.
pub open spec fn records_of(msgs: Seq<EventType>) -> Seq<Seq<char>> {
    events_of(msgs).map_values(|e: Event| e.format_spec())
}

/// Whether `msgs` carries the shutdown signal.
pub open spec fn has_terminate(msgs: Seq<EventType>) -> bool
    decreases msgs.len(),
{
    if msgs.len() == 0 {
        false
    } else {
        (msgs.last() matches EventType::Terminate) || has_terminate(msgs.drop_last())
    }
}

/// The messages a producer with filter `f` pushes onto the channel when it
/// emits `evs` in order: exactly the accepted events, wrapped as log
/// messages, in emission order.
pub open spec fn sent_messages(f: Filters, evs: Seq<Event>) -> Seq<EventType>
    decreases evs.len(),
{
    if evs.len() == 0 {
        Seq::<EventType>::empty()
    } else if accepts_spec(f, evs.last()) {
        sent_messages(f, evs.drop_last()).push(EventType::Log(evs.last()))
    } else {
        sent_messages(f, evs.drop_last())
    }
}

/// A send endpoint of the ingestion channel, as one producer sees it: the
/// messages this handle has pushed, in push order.
pub struct Sender {
    pub sent: Vec<EventType>,
}

impl Sender {
    /// A fresh endpoint that has pushed nothing yet.
    pub fn new() -> (s: Sender)
        ensures
            s.sent@ == Seq::<EventType>::empty(),
    {
        let s = Sender { sent: Vec::new() };
        proof {
            assert(s.sent@ =~= Seq::<EventType>::empty());
        }
        s
    }
}

/// The capability to push a log occurrence onto the ingestion channel.
pub trait SendEvent {
    /// The messages pushed through this endpoint so far.
    spec fn sent_log(&self) -> Seq<EventType>;

    /// Wraps `e` as a log message and pushes it.
    fn send_event(&mut self, e: Event)
        ensures
            final(self).sent_log() == old(self).sent_log().push(EventType::Log(e)),
    ;
}

impl SendEvent for Sender {
    open spec fn sent_log(&self) -> Seq<EventType> {
        self.sent@
    }

    fn send_event(&mut self, e: Event) {
        self.sent.push(EventType::Log(e));
    }
}

/// The thread tag `"<name>:[<id>]"`, or `"thread:[<id>]"` for a nameless
/// thread.
pub open spec fn tag_spec(name: Option<Seq<char>>, thread_id: u64) -> Seq<char> {
    match name {
        Some(n) => n + ":["@ + dec_spec(thread_id as nat) + "]"@,
        None => "thread"@ + ":["@ + dec_spec(thread_id as nat) + "]"@,
    }
}

/// The view of an optional thread name.
pub open spec fn opt_name_view(name: Option<&str>) -> Option<Seq<char>> {
    match name {
        Some(n) => Some(n@),
        None => None,
    }
}

/// Formats a thread identity as a stable, human-readable tag.
pub fn make_thread_tag(thread_name: Option<&str>, thread_id: u64) -> (s: String)
    ensures
        s@ == tag_spec(opt_name_view(thread_name), thread_id),
{
    let mut s = match thread_name {
        Some(n) => String::from_str(n),
        None => String::from_str("thread"),
    };
    s.append(":[");
    let d = u64_to_dec(thread_id);
    s.append(d.as_str());
    s.append("]");
    s
}

/// A per-thread handle: the thread's own filter, its send endpoint, and its
/// identity tag.
pub struct ThreadLocalLogger {
    pub filter: Filters,
    pub sender: Sender,
    pub thread_tag: String,
}

impl ThreadLocalLogger {
    /// Builds the handle for one thread: tags it with its identity, derives
    /// its filter from the configuration, and gives it a fresh send
    /// endpoint.
    pub fn new(thread_name: Option<&str>, thread_id: u64, config: &Config) -> (t:
        ThreadLocalLogger)
        ensures
            t.thread_tag@ == tag_spec(opt_name_view(thread_name), thread_id),
            t.filter == (Filters { enabled: config.log_enabled, min_level: config.min_level }),
            t.sender.sent@ == Seq::<EventType>::empty(),
    {
        ThreadLocalLogger {
            filter: Filters::generate_by_config(config),
            sender: Sender::new(),
            thread_tag: make_thread_tag(thread_name, thread_id),
        }
    }

    /// This thread's identity tag.
    pub fn get_thread_tag(&self) -> (s: String)
        ensures
            s@ == self.thread_tag@,
    {
        self.thread_tag.clone()
    }

    /// This thread's filter.
    pub fn get_filter(&self) -> (f: &Filters)
        ensures
            *f == self.filter,
    {
        &self.filter
    }

    /// This thread's send endpoint.
    pub fn get_sender(&self) -> (s: &Sender)
        ensures
            *s == self.sender,
    {
        &self.sender
    }

    /// Emits one event: evaluates the filter first, and only an accepted
    /// event is wrapped as a log message and pushed; a rejected event
    /// leaves no trace.
    pub fn send_event(&mut self, e: Event)
        ensures
            final(self).filter == old(self).filter,
            final(self).thread_tag == old(self).thread_tag,
            accepts_spec(old(self).filter, e) ==> final(self).sender.sent@ == old(self).sender.sent@.push(EventType::Log(e)),
            !accepts_spec(old(self).filter, e) ==> final(self).sender.sent@ == old(self).sender.sent@,
    {
        if self.filter.accepts(&e) {
            self.sender.send_event(e);
        }
    }
}

/// The pipeline supervisor's state, as the two background stages change it:
/// the writer stage, and whether both stages have stopped.
pub struct Logger {
    pub writer: Writer,
    pub stopped: bool,
}

impl Logger {
    /// Builds the pipeline for a configuration: a console appender if the
    /// configuration asks for one, then a file appender if it asks for one,
    /// each with nothing written, an empty buffer, and both stages running.
    pub fn init(config: &Config) -> (l: Logger)
        ensures
            !l.stopped,
            !l.writer.terminate,
            l.writer.pending_view() == Seq::<Seq<char>>::empty(),
            l.writer.appenders@.len() == (if config.console {
                1int
            } else {
                0int
            }) + (if config.file {
                1int
            } else {
                0int
            }),
            forall|i: int|
                0 <= i < l.writer.appenders@.len() ==> (#[trigger] l.writer.appenders@[i]).written_view()
                    == Seq::<Seq<char>>::empty(),
            config.console ==> l.writer.appenders@[0].kind == crate::writer::AppenderKind::Console,
            config.file ==> l.writer.appenders@[if config.console {
                1int
            } else {
                0int
            }].kind == (crate::writer::AppenderKind::File {
                temp_buf: config.file_buf,
                log_dir: config.file_dir,
            }),
    {
        let mut w = Writer::new();
        if config.console_log() {
            w.add_appender(Appender::console());
        }
        if config.file_log() {
            w.add_appender(Appender::file(config.file_temp_buf(), config.file_log_dir()));
        }
        Logger { writer: w, stopped: false }
    }

    /// A fresh send endpoint for the ingestion channel.
    pub fn get_poster(&self) -> (s: Sender)
        ensures
            s.sent@ == Seq::<EventType>::empty(),
    {
        Sender::new()
    }

    /// The formatter stage's step for one channel message.  A log message
    /// is formatted and buffered for the writer stage; the shutdown signal
    /// sets the writer's terminate flag.  Once the pipeline has stopped,
    /// a stray message changes nothing.
    pub fn deliver(&mut self, msg: EventType)
        ensures
            final(self).stopped == old(self).stopped,
            old(self).stopped ==> *final(self) == *old(self),
            !old(self).stopped ==> final(self).writer.appenders == old(self).writer.appenders,
            !old(self).stopped ==> (match msg {
                EventType::Log(e) => (final(self).writer.pending_view() == old(self).writer.pending_view().push(e.format_spec()) && final(self).writer.terminate
                    == old(self).writer.terminate),
                EventType::Terminate => (final(self).writer.terminate && final(self).writer.pending
                    == old(self).writer.pending),
            }),
    {
        if self.stopped {
            return ;
        }
        match msg {
            EventType::Log(e) => {
                let record = e.format_by_default();
                self.writer.insert_log(record);
            },
            EventType::Terminate => {
                self.writer.set_terminate(true);
            },
        }
    }

    /// The formatter stage's batch loop: drains a run of channel messages
    /// in arrival order.  Afterwards the writer's buffer has grown by
    /// exactly the records of the batch, in order, and its terminate flag
    /// is set exactly if it was set before or the batch carries the
    /// shutdown signal.
    pub fn process(&mut self, msgs: Vec<EventType>)
        ensures
            final(self).stopped == old(self).stopped,
            old(self).stopped ==> *final(self) == *old(self),
            !old(self).stopped ==> final(self).writer.appenders == old(self).writer.appenders,
            !old(self).stopped ==> final(self).writer.pending_view() == old(self).writer.pending_view() + records_of(msgs@),
            !old(self).stopped ==> final(self).writer.terminate == (old(self).writer.terminate
                || has_terminate(msgs@)),
    {
        let ghost m0 = msgs@;
        if self.stopped {
            return ;
        }
        let mut msgs = msgs;
        proof {
            assert(m0.take(0) =~= Seq::<EventType>::empty());
            assert(records_of(m0.take(0)) =~= Seq::<Seq<char>>::empty());
            assert(self.writer.pending_view() + records_of(m0.take(0))
                =~= self.writer.pending_view());
            assert(m0.skip(0) =~= m0);
        }
        while msgs.len() > 0
            invariant
                !self.stopped,
                !old(self).stopped,
                msgs@.len() <= m0.len(),
                msgs@ == m0.skip(m0.len() - msgs@.len()),
                self.writer.appenders == old(self).writer.appenders,
                self.writer.pending_view() == old(self).writer.pending_view() + records_of(
                    m0.take(m0.len() - msgs@.len()),
                ),
                self.writer.terminate == (old(self).writer.terminate || has_terminate(
                    m0.take(m0.len() - msgs@.len()),
                )),
            decreases msgs@.len(),
        {
            let ghost done = m0.len() - msgs@.len();
            let m = msgs.remove(0);
            proof {
                assert(m == m0[done]);
                assert(msgs@ =~= m0.skip(done + 1));
                lemma_prefix_step(m0, done);
            }
            let ghost pend = self.writer.pending_view();
            let ghost gm = m;
            self.deliver(m);
            proof {
                match gm {
                    EventType::Log(e) => {
                        assert(self.writer.pending_view() =~= old(self).writer.pending_view()
                            + records_of(m0.take(done + 1)));
                    },
                    EventType::Terminate => {
                        assert(self.writer.pending_view() == pend);
                    },
                }
            }
        }
        proof {
            assert(m0.take(m0.len() as int) =~= m0);
        }
    }

    /// The writer stage's pass: one drain over the pending buffer, handing
    /// every buffered record to every appender, and then the stop check —
    /// the stage stops exactly when the terminate flag was already set, so
    /// it never stops with unflushed records.  Returns the drained batch in
    /// arrival order, for the sinks' own output.
    pub fn drain(&mut self) -> (batch: Vec<String>)
        ensures
            old(self).stopped ==> *final(self) == *old(self) && batch@.len() == 0,
            !old(self).stopped ==> batch.deep_view() == old(self).writer.pending_view(),
            !old(self).stopped ==> final(self).writer.pending_view() == Seq::<Seq<char>>::empty(),
            !old(self).stopped ==> final(self).writer.terminate == old(self).writer.terminate,
            !old(self).stopped ==> final(self).stopped == old(self).writer.terminate,
            !old(self).stopped ==> final(self).writer.appenders@.len() == old(self).writer.appenders@.len(),
            !old(self).stopped ==> forall|i: int|
                0 <= i < old(self).writer.appenders@.len() ==> (#[trigger] final(self).writer.appenders@[i]).kind == old(self).writer.appenders@[i].kind && final(self).writer.appenders@[i].written_view() == old(self).writer.appenders@[i].written_view() + old(self).writer.pending_view(),
    {
        if self.stopped {
            return Vec::new();
        }
        let batch = self.writer.fetch_logs();
        if self.writer.is_terminate() {
            self.stopped = true;
        }
        batch
    }

    /// The shutdown protocol: delivers the shutdown signal, then lets the
    /// writer stage run its final pass.  Afterwards the pipeline has
    /// stopped with an empty buffer, and every appender has received every
    /// record that was still buffered — nothing is lost.  Closing an
    /// already stopped pipeline changes nothing.
    pub fn close(&mut self)
        ensures
            final(self).stopped,
            old(self).stopped ==> *final(self) == *old(self),
            !old(self).stopped ==> final(self).writer.terminate,
            !old(self).stopped ==> final(self).writer.pending_view() == Seq::<Seq<char>>::empty(),
            !old(self).stopped ==> final(self).writer.appenders@.len() == old(self).writer.appenders@.len(),
            !old(self).stopped ==> forall|i: int|
                0 <= i < old(self).writer.appenders@.len() ==> (#[trigger] final(self).writer.appenders@[i]).kind == old(self).writer.appenders@[i].kind && final(self).writer.appenders@[i].written_view() == old(self).writer.appenders@[i].written_view() + old(self).writer.pending_view(),
    {
        if self.stopped {
            return ;
        }
        self.deliver(EventType::Terminate);
        let _leftover = self.drain();
    }

    /// One whole session after the producers are done: the formatter stage
    /// drains the channel messages, then the pipeline shuts down.  Every
    /// appender receives what was already buffered and then the records of
    /// every event in the batch, in arrival order — every event sent before
    /// the shutdown is observed by every appender before the shutdown
    /// returns.
    pub fn run_session(&mut self, msgs: Vec<EventType>)
        ensures
            final(self).stopped,
            old(self).stopped ==> *final(self) == *old(self),
            !old(self).stopped ==> final(self).writer.pending_view() == Seq::<Seq<char>>::empty(),
            !old(self).stopped ==> final(self).writer.appenders@.len() == old(self).writer.appenders@.len(),
            !old(self).stopped ==> forall|i: int|
                0 <= i < old(self).writer.appenders@.len() ==> (#[trigger] final(self).writer.appenders@[i]).kind == old(self).writer.appenders@[i].kind && final(self).writer.appenders@[i].written_view() == old(self).writer.appenders@[i].written_view() + old(self).writer.pending_view()
                    + records_of(msgs@),
    {
        let ghost pend = self.writer.pending_view();
        let ghost stopped0 = self.stopped;
        self.process(msgs);
        let ghost mid = *self;
        self.close();
        proof {
            if !stopped0 {
                assert forall|i: int| 0 <= i < old(self).writer.appenders@.len() implies (
                #[trigger] self.writer.appenders@[i]).written_view() == old(self).writer.appenders@[i].written_view() + pend + records_of(msgs@) by {
                    assert(mid.writer.appenders@[i] == old(self).writer.appenders@[i]);
                    assert(self.writer.appenders@[i].written_view()
                        == mid.writer.appenders@[i].written_view() + mid.writer.pending_view());
                    assert(old(self).writer.appenders@[i].written_view() + (pend + records_of(
                        msgs@,
                    )) =~= old(self).writer.appenders@[i].written_view() + pend + records_of(
                        msgs@,
                    ));
                }
            }
        }
    }
}

/// Extending a message prefix by one message extends its records by that
/// message's record, and its terminate mark by that message's.
proof fn lemma_prefix_step(msgs: Seq<EventType>, k: int)
    requires
        0 <= k < msgs.len(),
    ensures
        records_of(msgs.take(k + 1)) == (match msgs[k] {
            EventType::Log(e) => records_of(msgs.take(k)).push(e.format_spec()),
            EventType::Terminate => records_of(msgs.take(k)),
        }),
        has_terminate(msgs.take(k + 1)) == (has_terminate(msgs.take(k)) || (msgs[k] matches
        EventType::Terminate)),
{
    let t1 = msgs.take(k + 1);
    assert(t1.drop_last() =~= msgs.take(k));
    assert(t1.last() == msgs[k]);
    match msgs[k] {
        EventType::Log(e) => {
            assert(events_of(t1) == events_of(msgs.take(k)).push(e));
            assert(records_of(t1) =~= records_of(msgs.take(k)).push(e.format_spec()));
        },
        EventType::Terminate => {
            assert(events_of(t1) == events_of(msgs.take(k)));
        },
    }
}

} // verus!
