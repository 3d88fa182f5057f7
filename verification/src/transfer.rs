//! Resumable, progress-reporting byte transfer.
//!
//! One purchased item is fetched file by file. Each file is written in
//! strict append order; after a transport fault the next ranged request
//! starts exactly at the number of bytes already on disk, so no byte is ever
//! requested or written twice and partial work is never discarded. Overall
//! progress is reported in bytes against the declared total, throttled to at
//! most one report per second, with a first report before any byte moves and
//! a final report of the full total.

use vstd::prelude::*;

verus! {

/// Why a chunk could not be recorded.
#[derive(Clone, Copy, PartialEq, Eq, Structural, Debug)]
pub enum TransferError {
    /// The byte count would pass `u64::MAX`.
    OffsetOverflow,
}

/// The transfer state of one destination file: how many bytes are on disk
/// and, as a model, which bytes they are.
pub struct FileTransfer {
    declared: u64,
    written: u64,
    content: Ghost<Seq<u8>>,
}

impl FileTransfer {
    /// The bytes written to the file so far, in order.
    pub closed spec fn written_bytes(&self) -> Seq<u8> {
        self.content@
    }

    /// How many bytes are on disk.
    pub closed spec fn written_count(&self) -> u64 {
        self.written
    }

    /// The declared size of the file.
    pub closed spec fn declared_size(&self) -> u64 {
        self.declared
    }

    pub closed spec fn wf(&self) -> bool {
        self.content@.len() == self.written as int
    }

    /// Opens the transfer of one file whose declared size is `declared`:
    /// nothing is written yet.
    pub fn begin(declared: u64) -> (t: Self)
        ensures
            t.wf(),
            t.written_count() == 0,
            t.written_bytes() == Seq::<u8>::empty(),
            t.declared_size() == declared,
    {
        FileTransfer { declared, written: 0, content: Ghost(Seq::empty()) }
    }

    /// The byte offset at which the next ranged request starts: exactly the
    /// number of bytes already written. A retry after a transport fault
    /// calls this again and so never asks for a byte already on disk.
    pub fn resume_offset(&self) -> (r: u64)
        requires
            self.wf(),
        ensures
            r == self.written_count(),
            r as int == self.written_bytes().len(),
    {
        self.written
    }

    /// Records one received chunk, appended to the file, and advances the
    /// write offset by its length. A transport fault between chunks changes
    /// nothing: the caller re-issues the request from `resume_offset`.
    pub fn on_chunk(&mut self, chunk: &Vec<u8>) -> (r: Result<(), TransferError>)
        requires
            old(self).wf(),
        ensures
            final(self).wf(),
            final(self).declared_size() == old(self).declared_size(),
            r is Ok ==> {
                &&& final(self).written_bytes() == old(self).written_bytes() + chunk@
                &&& final(self).written_count() == old(self).written_count() + chunk@.len()
            },
            r is Ok <==> old(self).written_count() + chunk@.len() <= u64::MAX,
            r is Err ==> *final(self) == *old(self),
    {
        match self.written.checked_add(chunk.len() as u64) {
            Some(next) => {
                proof {
                    self.content@ = self.content@ + chunk@;
                }
                self.written = next;
                Ok(())
            },
            None => Err(TransferError::OffsetOverflow),
        }
    }
}

/// Resume idempotence: when the bytes on disk are exactly the first
/// `written.len()` bytes of the remote file, and a re-issued ranged request
/// delivers the remote bytes from that very offset, appending the delivered
/// chunk leaves the disk again holding a prefix of the remote file, one
/// chunk longer, with no byte written twice; a transfer whose offset has
/// reached the remote length holds the remote file byte for byte.
pub proof fn lemma_resume_idempotent(remote: Seq<u8>, written: Seq<u8>, chunk: Seq<u8>)
    requires
        written == remote.take(written.len() as int),
        written.len() + chunk.len() <= remote.len(),
        chunk == remote.subrange(written.len() as int, (written.len() + chunk.len()) as int),
    ensures
        written + chunk == remote.take((written.len() + chunk.len()) as int),
        written.len() == remote.len() ==> written == remote,
{
    assert(written + chunk =~= remote.take((written.len() + chunk.len()) as int));
    if written.len() == remote.len() {
        assert(written =~= remote);
    }
}

/// Byte progress of one whole download job, reported against the declared
/// total and throttled by wall-clock time.
pub struct DownloadRun {
    total: u64,
    done: u64,
    last_value: u64,
    last_report_millis: u64,
    finished: bool,
}

/// Milliseconds that must pass between two throttled progress reports.
pub const REPORT_INTERVAL_MILLIS: u64 = 1000;

impl DownloadRun {
    /// The declared byte total of the job.
    pub closed spec fn total(&self) -> u64 {
        self.total
    }

    /// Bytes received so far.
    pub closed spec fn done(&self) -> u64 {
        self.done
    }

    /// The value carried by the most recent progress report.
    pub closed spec fn last_reported(&self) -> u64 {
        self.last_value
    }

    /// The wall-clock instant of the most recent throttled report.
    pub closed spec fn last_report_millis(&self) -> u64 {
        self.last_report_millis
    }

    /// Whether the final report was already delivered.
    pub closed spec fn finished(&self) -> bool {
        self.finished
    }

    pub closed spec fn wf(&self) -> bool {
        &&& self.last_value <= self.total
        &&& !self.finished ==> self.last_value <= self.done
    }

    /// Starts a job of `total` declared bytes at wall-clock `now_millis` and
    /// returns the initial report, delivered before any byte is fetched.
    pub fn start(total: u64, now_millis: u64) -> (r: (Self, (u64, u64)))
        ensures
            r.0.wf(),
            r.0.total() == total,
            r.0.done() == 0,
            r.0.last_reported() == 0,
            !r.0.finished(),
            r.1 == (0u64, total),
    {
        let run = DownloadRun {
            total,
            done: 0,
            last_value: 0,
            last_report_millis: now_millis,
            finished: false,
        };
        (run, (0, total))
    }

    /// Records `len` received bytes at wall-clock `now_millis` and returns
    /// the progress report to deliver, if one is due: reports are throttled
    /// to one per interval, never decrease, and never pass the total.
    pub fn note_chunk(&mut self, len: usize, now_millis: u64) -> (r: Option<(u64, u64)>)
        requires
            old(self).wf(),
            !old(self).finished(),
        ensures
            !final(self).finished(),
            final(self).wf(),
            final(self).total() == old(self).total(),
            final(self).done() == vstd::math::min(
                old(self).done() + len as int,
                u64::MAX as int,
            ),
            r is Some <==> now_millis >= old(self).last_report_millis() + REPORT_INTERVAL_MILLIS,
            r is Some ==> {
                &&& (r->0).0 == vstd::math::min(
                    final(self).done() as int,
                    final(self).total() as int,
                )
                &&& (r->0).1 == final(self).total()
                &&& (r->0).0 >= old(self).last_reported()
                &&& final(self).last_reported() == (r->0).0
                &&& final(self).last_report_millis() == now_millis
            },
            r is None ==> {
                &&& final(self).last_reported() == old(self).last_reported()
                &&& final(self).last_report_millis() == old(self).last_report_millis()
            },
    {
        self.done = match self.done.checked_add(len as u64) {
            Some(v) => v,
            None => u64::MAX,
        };
        if now_millis >= REPORT_INTERVAL_MILLIS && now_millis - REPORT_INTERVAL_MILLIS
            >= self.last_report_millis {
            let value = if self.done < self.total {
                self.done
            } else {
                self.total
            };
            self.last_value = value;
            self.last_report_millis = now_millis;
            Some((value, self.total))
        } else {
            None
        }
    }

    /// The final report, delivered once every file is fetched: always the
    /// full declared total, and never below any earlier report.
    pub fn finish(&mut self) -> (r: (u64, u64))
        requires
            old(self).wf(),
        ensures
            final(self).wf(),
            r == (old(self).total(), old(self).total()),
            r.0 >= old(self).last_reported(),
            final(self).last_reported() == old(self).total(),
            final(self).total() == old(self).total(),
            final(self).finished(),
    {
        self.last_value = self.total;
        self.finished = true;
        (self.total, self.total)
    }
}

} // verus!
