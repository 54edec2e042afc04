//! The writer stage: the registered appenders, the buffer of pending
//! formatted records, and the drain pass that fans every pending record out
//! to every appender in registration order.

use vstd::prelude::*;

verus! {

/// Which sink an appender stands for.  The file variant carries the
/// parameters the file sink is created with.
#[derive(Debug)]
pub enum AppenderKind {
    Console,
    File { temp_buf: usize, log_dir: String },
}

/// One registered sink, together with the records handed to it so far, in
/// the order they were handed over.  Performing the actual output is the
/// sink's own affair; the pipeline's obligation ends, and is stated, at the
/// hand-over.
#[derive(Debug)]
pub struct Appender {
    pub kind: AppenderKind,
    pub written: Vec<String>,
}

impl Appender {
    /// The records handed to this appender so far.
    pub open spec fn written_view(self) -> Seq<Seq<char>> {
        self.written.deep_view()
    }

    /// A console appender with nothing written yet.
    pub fn console() -> (a: Appender)
        ensures
            a.kind == AppenderKind::Console,
            a.written_view() == Seq::<Seq<char>>::empty(),
    {
        let a = Appender { kind: AppenderKind::Console, written: Vec::new() };
        proof {
            assert(a.written_view() =~= Seq::<Seq<char>>::empty());
        }
        a
    }

    /// A file appender with nothing written yet.
    pub fn file(temp_buf: usize, log_dir: String) -> (a: Appender)
        ensures
            a.kind == (AppenderKind::File { temp_buf, log_dir }),
            a.written_view() == Seq::<Seq<char>>::empty(),
    {
        let a = Appender { kind: AppenderKind::File { temp_buf, log_dir }, written: Vec::new() };
        proof {
            assert(a.written_view() =~= Seq::<Seq<char>>::empty());
        }
        a
    }

    /// Hands one record to this appender.
    pub fn write(&mut self, record: String)
        ensures
            final(self).kind == old(self).kind,
            final(self).written_view() == old(self).written_view().push(record@),
    {
        let ghost before = self.written.deep_view();
        let ghost rec = record@;
        self.written.push(record);
        proof {
            assert(self.written.deep_view() =~= before.push(rec));
        }
    }
}

/// The writer stage's state: appenders in registration order, the pending
/// buffer the formatter stage fills, and the one-shot terminate flag.
pub struct Writer {
    pub appenders: Vec<Appender>,
    pub pending: Vec<String>,
    pub terminate: bool,
}

impl Writer {
    /// The formatted records waiting for the next drain pass, oldest first.
    pub open spec fn pending_view(self) -> Seq<Seq<char>> {
        self.pending.deep_view()
    }

    /// A writer stage with no appenders, an empty buffer, and the terminate
    /// flag clear.
    pub fn new() -> (w: Writer)
        ensures
            w.appenders@.len() == 0,
            w.pending_view() == Seq::<Seq<char>>::empty(),
            !w.terminate,
    {
        let w = Writer { appenders: Vec::new(), pending: Vec::new(), terminate: false };
        proof {
            assert(w.pending_view() =~= Seq::<Seq<char>>::empty());
        }
        w
    }

    /// Registers one more appender, after all those registered so far.
    pub fn add_appender(&mut self, a: Appender)
        ensures
            final(self).appenders@ == old(self).appenders@.push(a),
            final(self).pending == old(self).pending,
            final(self).terminate == old(self).terminate,
    {
        self.appenders.push(a);
    }

    /// Appends one formatted record to the pending buffer.
    pub fn insert_log(&mut self, record: String)
        ensures
            final(self).pending_view() == old(self).pending_view().push(record@),
            final(self).appenders == old(self).appenders,
            final(self).terminate == old(self).terminate,
    {
        let ghost before = self.pending.deep_view();
        let ghost rec = record@;
        self.pending.push(record);
        proof {
            assert(self.pending.deep_view() =~= before.push(rec));
        }
    }

    /// Sets the one-shot terminate flag.
    pub fn set_terminate(&mut self, v: bool)
        ensures
            final(self).terminate == v,
            final(self).appenders == old(self).appenders,
            final(self).pending == old(self).pending,
    {
        self.terminate = v;
    }

    /// Reads the terminate flag.
    pub fn is_terminate(&self) -> (b: bool)
        ensures
            b == self.terminate,
    {
        self.terminate
    }

    /// One drain pass: takes every pending record, hands each to every
    /// appender in registration order, and returns the drained batch in
    /// arrival order.  Nothing is lost: afterwards the buffer is empty and
    /// each appender has received exactly the old buffer, in order.
    pub fn fetch_logs(&mut self) -> (batch: Vec<String>)
        ensures
            batch.deep_view() == old(self).pending_view(),
            final(self).pending_view() == Seq::<Seq<char>>::empty(),
            final(self).terminate == old(self).terminate,
            final(self).appenders@.len() == old(self).appenders@.len(),
            forall|i: int|
                0 <= i < old(self).appenders@.len() ==> (#[trigger] final(self).appenders@[i]).kind
                    == old(self).appenders@[i].kind && final(self).appenders@[i].written_view()
                    == old(self).appenders@[i].written_view() + old(self).pending_view(),
    {
        let mut batch: Vec<String> = Vec::new();
        core::mem::swap(&mut batch, &mut self.pending);
        let mut remaining: Vec<Appender> = Vec::new();
        core::mem::swap(&mut remaining, &mut self.appenders);
        proof {
            assert(self.pending.deep_view() =~= Seq::<Seq<char>>::empty());
            assert(self.appenders@ =~= Seq::<Appender>::empty());
        }
        while remaining.len() > 0
            invariant
                self.appenders@.len() + remaining@.len() == old(self).appenders@.len(),
                forall|i: int|
                    0 <= i < self.appenders@.len() ==> (#[trigger] self.appenders@[i]).kind == old(
                        self,
                    ).appenders@[i].kind && self.appenders@[i].written_view() == old(
                        self,
                    ).appenders@[i].written_view() + old(self).pending_view(),
                forall|i: int|
                    0 <= i < remaining@.len() ==> #[trigger] remaining@[i] == old(
                        self,
                    ).appenders@[self.appenders@.len() + i],
                batch.deep_view() == old(self).pending_view(),
                self.pending_view() == Seq::<Seq<char>>::empty(),
                self.terminate == old(self).terminate,
            decreases remaining@.len(),
        {
            let ghost k = self.appenders@.len() as int;
            let mut a = remaining.remove(0);
            let mut i: usize = 0;
            while i < batch.len()
                invariant
                    0 <= i <= batch@.len(),
                    batch.deep_view() == old(self).pending_view(),
                    a.kind == old(self).appenders@[k].kind,
                    a.written_view() == old(self).appenders@[k].written_view()
                        + batch.deep_view().take(i as int),
                decreases batch@.len() - i,
            {
                let ghost wr = a.written_view();
                let rec = batch[i].clone();
                a.write(rec);
                proof {
                    assert(batch.deep_view().take(i + 1) =~= batch.deep_view().take(i as int).push(
                        batch.deep_view()[i as int],
                    ));
                    assert(a.written_view() =~= old(self).appenders@[k].written_view()
                        + batch.deep_view().take(i + 1));
                }
                i += 1;
            }
            proof {
                assert(batch.deep_view().take(batch@.len() as int) =~= batch.deep_view());
            }
            self.appenders.push(a);
        }
        batch
    }
}

} // verus!
