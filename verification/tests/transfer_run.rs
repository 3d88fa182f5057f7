use dlsite_sync::transfer::{DownloadRun, FileTransfer, REPORT_INTERVAL_MILLIS};

/// A transport that serves ranged requests over a fixed remote file, failing
/// once after delivering a set number of bytes.
struct FlakyTransport {
    remote: Vec<u8>,
    fail_after: usize,
    delivered: usize,
    failed_once: bool,
}

impl FlakyTransport {
    /// Serves the next chunk of a request standing at `offset`, or `None`
    /// for a transport error.
    fn chunk(&mut self, offset: usize, want: usize) -> Option<Vec<u8>> {
        if !self.failed_once && self.delivered >= self.fail_after {
            self.failed_once = true;
            return None;
        }
        let end = usize::min(offset + want, self.remote.len());
        let chunk = self.remote[offset..end].to_vec();
        self.delivered += chunk.len();
        Some(chunk)
    }
}

#[test]
fn resume_after_failure_yields_exact_bytes_with_no_duplicates() {
    let remote: Vec<u8> = (0..=255u8).cycle().take(1000).collect();
    let mut transport =
        FlakyTransport { remote: remote.clone(), fail_after: 300, delivered: 0, failed_once: false };

    let mut transfer = FileTransfer::begin(remote.len() as u64);
    let mut disk: Vec<u8> = Vec::new();
    let mut last_request_start = 0u64;

    // Outer loop: one ranged request per round, re-issued from the resume
    // offset after a failure.
    loop {
        let start = transfer.resume_offset();
        // The request starts exactly at the bytes already on disk, so no
        // byte below it is ever asked for or written again.
        assert_eq!(start, disk.len() as u64);
        assert!(start >= last_request_start, "a request moved backwards");
        last_request_start = start;
        if start as usize == remote.len() {
            break;
        }
        // Inner loop: chunks of this response.
        let mut offset = start as usize;
        loop {
            match transport.chunk(offset, 128) {
                Some(chunk) => {
                    if chunk.is_empty() {
                        break;
                    }
                    transfer.on_chunk(&chunk).unwrap();
                    disk.extend_from_slice(&chunk);
                    offset += chunk.len();
                },
                None => break,
            }
            if offset == remote.len() {
                break;
            }
        }
    }

    assert_eq!(disk, remote, "final content equals the full expected content");
    assert!(transport.failed_once, "the simulated failure was exercised");
    assert_eq!(transfer.resume_offset(), remote.len() as u64);
}

#[test]
fn run_reports_are_monotonic_and_end_at_total() {
    let total = 500u64;
    let (mut run, first) = DownloadRun::start(total, 0);
    assert_eq!(first, (0, total), "initial report comes before any byte");

    let mut reports = vec![first];
    let mut now = 0u64;
    for _ in 0..10 {
        now += 700;
        if let Some(r) = run.note_chunk(50, now) {
            reports.push(r);
        }
    }
    let last = run.finish();
    assert_eq!(last, (total, total), "final report is exactly the total");
    reports.push(last);

    let mut prev = 0u64;
    for (done, t) in &reports {
        assert_eq!(*t, total);
        assert!(*done >= prev, "reports never decrease");
        assert!(*done <= total, "reports never pass the total");
        prev = *done;
    }
}

#[test]
fn run_throttles_to_one_report_per_interval() {
    let (mut run, _) = DownloadRun::start(1000, 0);
    assert!(run.note_chunk(10, 500).is_none(), "too soon after the initial instant");
    assert!(run.note_chunk(10, 999).is_none());
    let r = run.note_chunk(10, REPORT_INTERVAL_MILLIS).expect("a full interval passed");
    assert_eq!(r, (30, 1000));
    assert!(run.note_chunk(10, REPORT_INTERVAL_MILLIS + 1).is_none(), "throttle restarts");
    assert!(run.note_chunk(10, 2 * REPORT_INTERVAL_MILLIS).is_some());
}

#[test]
fn run_caps_reports_at_declared_total() {
    // The remote may hand out more bytes than were declared; reports stay
    // within the declared total so the final report never moves backwards.
    let (mut run, _) = DownloadRun::start(100, 0);
    let r = run.note_chunk(250, 1000).unwrap();
    assert_eq!(r, (100, 100));
    assert_eq!(run.finish(), (100, 100));
}
