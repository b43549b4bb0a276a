use vstd::prelude::*;

verus! {

/// Size of the buffer each read fills.
pub const CHUNK_SIZE: usize = 4096;

/// Status reported when the program's exit could not be confirmed.
pub const UNKNOWN_STATUS: i32 = -1;

/// A notification for the host.
pub enum PtyEvent {
    /// A chunk of output, decoded as text.
    Data { session_id: String, data: String },
    /// The session is over.
    Exit { session_id: String, status: i32 },
}

/// What one read from the terminal gave: a count of bytes (zero when the
/// stream is closed), or an error.
pub enum ReadOutcome {
    Bytes(usize),
    Failed,
}

/// What a non-blocking probe of the program's exit found.
pub enum ExitProbe {
    /// The program has exited.
    Exited,
    /// The program still runs.
    Running,
    /// The probe itself failed.
    Failed,
}

/// Where the pump stands: reading output, closing (no more reads), or done
/// (the exit event was produced).
#[derive(Clone, Copy, Debug, PartialEq, Eq, Structural)]
pub enum PumpPhase {
    Reading,
    Closing,
    Done,
}

/// The text that lossy UTF-8 decoding makes of a byte string.
pub uninterp spec fn lossy_text(b: Seq<u8>) -> Seq<char>;

/// Relies on String::from_utf8_lossy: the text depends on the bytes alone,
/// and no bytes give no text.
#[verifier::external_body]
fn decode_lossy(buf: &Vec<u8>, n: usize) -> (r: String)
    requires
        n <= buf@.len(),
    ensures
        r@ == lossy_text(buf@.subrange(0, n as int)),
        n == 0 ==> r@.len() == 0,
{
    String::from_utf8_lossy(&buf[..n]).into_owned()
}

/// The exit status reported: zero for a confirmed exit, else the sentinel.
pub open spec fn status_of(probe: ExitProbe) -> i32 {
    match probe {
        ExitProbe::Exited => 0,
        _ => UNKNOWN_STATUS,
    }
}

pub fn exit_status(probe: &ExitProbe) -> (r: i32)
    ensures
        r == status_of(*probe),
{
    match probe {
        ExitProbe::Exited => 0,
        _ => UNKNOWN_STATUS,
    }
}

/// The output event for a chunk already decoded to `data`.
pub fn data_event(session_id: &String, data: String) -> (r: PtyEvent)
    ensures
        r matches PtyEvent::Data { session_id: s, data: d } && s@ == session_id@ && d@ == data@,
{
    PtyEvent::Data { session_id: session_id.clone(), data }
}

/// The decisions of one session's output pump. The host reads, hands the
/// outcome here, emits what comes back, and reports whether the emission
/// went through; once the pump is closing the host probes the program and
/// gets the one exit event, after which it removes the session.
pub struct ReaderPump {
    pub session_id: String,
    pub phase: PumpPhase,
    /// The non-empty chunks read so far, in order.
    pub chunks: Ghost<Seq<Seq<u8>>>,
    /// The texts of the data events produced so far, in order.
    pub sent: Ghost<Seq<Seq<char>>>,
}

impl ReaderPump {
    /// The data events so far are, one for one and in order, the lossy texts
    /// of the chunks read; no chunk is empty.
    pub open spec fn faithful(&self) -> bool {
        &&& self.sent@.len() == self.chunks@.len()
        &&& forall|i: int|
            0 <= i < self.chunks@.len() ==> #[trigger] self.sent@[i] == lossy_text(self.chunks@[i])
                && self.chunks@[i].len() > 0
    }

    pub fn new(session_id: String) -> (r: ReaderPump)
        ensures
            r.session_id@ == session_id@,
            r.phase == PumpPhase::Reading,
            r.chunks@ == Seq::<Seq<u8>>::empty(),
            r.faithful(),
    {
        ReaderPump {
            session_id,
            phase: PumpPhase::Reading,
            chunks: Ghost(Seq::empty()),
            sent: Ghost(Seq::empty()),
        }
    }

    /// Whether another read is due.
    pub fn is_reading(&self) -> (r: bool)
        ensures
            r == (self.phase == PumpPhase::Reading),
    {
        self.phase == PumpPhase::Reading
    }

    /// Takes the outcome of a read into `buf`. Bytes give a data event with
    /// their lossy text and the pump keeps reading; a closed stream or an
    /// error gives nothing and the pump turns to closing.
    pub fn on_read(&mut self, outcome: &ReadOutcome, buf: &Vec<u8>) -> (r: Option<PtyEvent>)
        requires
            old(self).phase == PumpPhase::Reading,
            old(self).faithful(),
            outcome matches ReadOutcome::Bytes(n) ==> n <= buf@.len(),
        ensures
            final(self).session_id == old(self).session_id,
            final(self).faithful(),
            match *outcome {
                ReadOutcome::Bytes(n) if n > 0 => {
                    &&& final(self).phase == PumpPhase::Reading
                    &&& final(self).chunks@ == old(self).chunks@.push(buf@.subrange(0, n as int))
                    &&& final(self).sent@ == old(self).sent@.push(lossy_text(buf@.subrange(0, n as int)))
                    &&& r matches Some(PtyEvent::Data { session_id: s, data: d })
                    &&& s@ == old(self).session_id@
                    &&& d@ == lossy_text(buf@.subrange(0, n as int))
                },
                _ => {
                    &&& final(self).phase == PumpPhase::Closing
                    &&& r is None
                    &&& final(self).chunks == old(self).chunks
                    &&& final(self).sent == old(self).sent
                },
            },
    {
        match outcome {
            ReadOutcome::Bytes(n) => {
                if *n > 0 {
                    let text = decode_lossy(buf, *n);
                    let ghost chunk = buf@.subrange(0, *n as int);
                    self.chunks = Ghost(self.chunks@.push(chunk));
                    self.sent = Ghost(self.sent@.push(text@));
                    assert forall|i: int| 0 <= i < self.chunks@.len() implies #[trigger] self.sent@[i]
                        == lossy_text(self.chunks@[i]) && self.chunks@[i].len() > 0 by {
                        if i < old(self).chunks@.len() {
                            assert(old(self).sent@[i] == lossy_text(old(self).chunks@[i]));
                        }
                    }
                    Some(data_event(&self.session_id, text))
                } else {
                    self.phase = PumpPhase::Closing;
                    None
                }
            },
            ReadOutcome::Failed => {
                self.phase = PumpPhase::Closing;
                None
            },
        }
    }

    /// Takes whether the last data event reached the host; if it did not,
    /// the pump stops reading.
    pub fn on_emitted(&mut self, delivered: bool)
        requires
            old(self).phase == PumpPhase::Reading,
        ensures
            final(self).session_id == old(self).session_id,
            final(self).chunks == old(self).chunks,
            final(self).sent == old(self).sent,
            final(self).phase == (if delivered {
                PumpPhase::Reading
            } else {
                PumpPhase::Closing
            }),
    {
        if !delivered {
            self.phase = PumpPhase::Closing;
        }
    }

    /// The exit event, given what the probe of the program found. It is
    /// produced once: afterwards the pump is done and takes no more input.
    pub fn close(&mut self, probe: &ExitProbe) -> (r: PtyEvent)
        requires
            old(self).phase == PumpPhase::Closing,
        ensures
            final(self).session_id == old(self).session_id,
            final(self).phase == PumpPhase::Done,
            final(self).chunks == old(self).chunks,
            final(self).sent == old(self).sent,
            r matches PtyEvent::Exit { session_id: s, status }
                && s@ == old(self).session_id@ && status == status_of(*probe),
    {
        self.phase = PumpPhase::Done;
        PtyEvent::Exit { session_id: self.session_id.clone(), status: exit_status(probe) }
    }
}

} // verus!
