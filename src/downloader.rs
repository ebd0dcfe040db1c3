use vstd::prelude::*;

use crate::fetch::RetryPolicy;
use crate::output::{OutputFile, StartStamp};
use crate::playlist::MediaPlaylist;
use crate::urls::{join_url, joined};
use url::Url;

verus! {

/// Settings of one ingestion run; never changed once the run starts.
pub struct DownloadConfig {
    pub media_url: Url,
    pub output_dir: String,
    pub file_extension: String,
    /// Rotation duration of the output files.
    pub segment_secs: u64,
    /// Pause between playlist polls.
    pub poll_interval: u64,
    /// Consecutive playlist failures tolerated; zero for no limit.
    pub max_failures: u32,
    /// Budget of one fetch, over all its attempts.
    pub timeout_ms: u64,
    pub retries: u32,
    pub retry_delay_ms: u64,
    /// Command run on each completed file, `{}` standing for its path.
    pub on_segment: Option<String>,
    pub verbose: bool,
    pub progress: bool,
}

/// Why a run stopped.
#[derive(Clone, Copy, Debug, PartialEq, Eq, Structural)]
pub enum StopReason {
    Shutdown,
    EndOfStream,
    TooManyFailures,
    BadSegmentUrl,
}

/// What the caller does next for the run.
pub enum Action {
    /// Fetch and parse the media playlist, then report with `playlist_received`.
    FetchPlaylist,
    /// Fetch this segment, then report with `segment_fetched`.
    FetchSegment { uri: String, url: Url },
    /// Wait this many seconds, then call `resume`.
    Sleep { secs: u64 },
    /// The output was finalized at `path`; its hook is due and the run is over.
    Finish { path: String, reason: StopReason },
    /// The run is already over.
    Done,
}

/// Sum of a sequence of sizes.
pub open spec fn sum(s: Seq<nat>) -> nat
    decreases s.len(),
{
    if s.len() == 0 {
        0
    } else {
        sum(s.drop_last()) + s.last()
    }
}

/// The list of URIs already taken after offering `uris`, in order, to a run
/// that had taken `seen`: each new URI is appended once, repeats are skipped.
pub open spec fn seen_after(seen: Seq<Seq<char>>, uris: Seq<Seq<char>>) -> Seq<Seq<char>>
    decreases uris.len(),
{
    if uris.len() == 0 {
        seen
    } else {
        let before = seen_after(seen, uris.drop_last());
        if before.contains(uris.last()) {
            before
        } else {
            before.push(uris.last())
        }
    }
}

/// The action follows from taking a new URI: its fetch, or the stop on a URI
/// that does not resolve.
pub open spec fn took_uri(a: Action) -> bool {
    a is FetchSegment || a matches Action::Finish { reason: StopReason::BadSegmentUrl, .. }
}

pub open spec fn rotation_ms(secs: u64) -> u64 {
    if secs as nat * 1000 > u64::MAX {
        u64::MAX
    } else {
        (secs * 1000) as u64
    }
}

/// The decisions of an ingestion run: which playlist entries to fetch, when
/// to give up, when to rotate and when to finish. The caller performs each
/// returned `Action` and reports what came of it.
pub struct TsDownloader {
    config: DownloadConfig,
    output: OutputFile,
    seen_segments: Vec<String>,
    consecutive_failures: u32,
    finished: bool,
    current: Vec<String>,
    end_list: bool,
    position: usize,
    /// Sizes of all segment payloads counted so far.
    payloads: Ghost<Seq<nat>>,
}

impl TsDownloader {
    pub closed spec fn seen(&self) -> Seq<Seq<char>> {
        self.seen_segments@.map_values(|s: String| s@)
    }

    pub closed spec fn pending(&self) -> Seq<Seq<char>> {
        self.current@.map_values(|s: String| s@)
    }

    pub closed spec fn position(&self) -> nat {
        self.position as nat
    }

    pub closed spec fn ends(&self) -> bool {
        self.end_list
    }

    pub closed spec fn output(&self) -> OutputFile {
        self.output
    }

    pub closed spec fn is_finished(&self) -> bool {
        self.finished
    }

    pub closed spec fn failures(&self) -> nat {
        self.consecutive_failures as nat
    }

    pub closed spec fn payload_sizes(&self) -> Seq<nat> {
        self.payloads@
    }

    pub closed spec fn max_failures(&self) -> nat {
        self.config.max_failures as nat
    }

    pub closed spec fn poll_secs(&self) -> u64 {
        self.config.poll_interval
    }

    pub closed spec fn media_url(&self) -> Url {
        self.config.media_url
    }

    /// How a walk through the current playlist ended, when no shutdown was
    /// seen: with the fetch of the URI just taken and its resolved URL, a
    /// stop on a URI that does not resolve, the end of an ended stream, or a
    /// pause until the next poll once every entry was examined.
    pub open spec fn walk_result(&self, r: Action) -> bool {
        let p = self.position();
        match r {
            Action::FetchSegment { uri, url } => {
                &&& p > 0
                &&& uri@ == self.pending()[p - 1]
                &&& joined(self.media_url(), uri@) == Some(url)
            },
            Action::Finish { reason: StopReason::BadSegmentUrl, .. } => {
                &&& p > 0
                &&& joined(self.media_url(), self.pending()[p - 1]) is None
            },
            Action::Finish { reason: StopReason::EndOfStream, .. } => {
                &&& p == self.pending().len()
                &&& self.ends()
            },
            Action::Sleep { secs } => {
                &&& p == self.pending().len()
                &&& !self.ends()
                &&& secs == self.poll_secs()
            },
            _ => false,
        }
    }

    pub closed spec fn policy(&self) -> RetryPolicy {
        RetryPolicy {
            total_timeout_ms: self.config.timeout_ms,
            max_retries: self.config.retries,
            retry_delay_ms: self.config.retry_delay_ms,
        }
    }

    pub closed spec fn wf(&self) -> bool {
        &&& self.output.wf()
        &&& self.seen().no_duplicates()
        &&& self.output.total() == sum(self.payloads@)
        &&& self.position <= self.current@.len()
        &&& self.finished == self.output.is_finalized()
    }

    /// Starts a run whose first output file has index `first_index` (the
    /// first one free in the output directory), named after `start`, with
    /// its window opening at `now_ms`.
    pub fn new(config: DownloadConfig, start: StartStamp, first_index: u32, now_ms: u64) -> (r:
        TsDownloader)
        ensures
            r.wf(),
            r.seen() == Seq::<Seq<char>>::empty(),
            r.payload_sizes() == Seq::<nat>::empty(),
            r.failures() == 0,
            !r.is_finished(),
            r.output().index() == first_index,
            r.output().opened_at() == now_ms,
            r.output().duration() == rotation_ms(config.segment_secs),
            r.output().total() == 0,
            r.max_failures() == config.max_failures,
            r.poll_secs() == config.poll_interval,
            r.media_url() == config.media_url,
            r.policy() == (RetryPolicy {
                total_timeout_ms: config.timeout_ms,
                max_retries: config.retries,
                retry_delay_ms: config.retry_delay_ms,
            }),
    {
        let duration = if config.segment_secs > u64::MAX / 1000 {
            u64::MAX
        } else {
            config.segment_secs * 1000
        };
        let output = OutputFile::new(
            config.file_extension.clone(),
            config.output_dir.clone(),
            duration,
            start,
            first_index,
            now_ms,
        );
        let r = TsDownloader {
            config,
            output,
            seen_segments: Vec::new(),
            consecutive_failures: 0,
            finished: false,
            current: Vec::new(),
            end_list: false,
            position: 0,
            payloads: Ghost(Seq::empty()),
        };
        assert(r.seen() =~= Seq::<Seq<char>>::empty());
        r
    }

    /// The run's settings.
    pub fn config(&self) -> (r: &DownloadConfig)
        ensures
            r.max_failures == self.max_failures(),
            r.poll_interval == self.poll_secs(),
    {
        &self.config
    }

    /// The budget and retries of every fetch of the run.
    pub fn retry_policy(&self) -> (r: RetryPolicy)
        ensures
            r == self.policy(),
    {
        RetryPolicy {
            total_timeout_ms: self.config.timeout_ms,
            max_retries: self.config.retries,
            retry_delay_ms: self.config.retry_delay_ms,
        }
    }

    /// Bytes counted over all output files.
    pub fn total_bytes(&self) -> (r: u64)
        ensures
            r == self.output().total(),
    {
        self.output.total_bytes()
    }

    /// Path of the output file being written.
    pub fn current_path(&self) -> (r: String)
        ensures
            r@ == self.output().path(),
    {
        self.output.current_path()
    }

    /// Whether the run is over.
    pub fn finished(&self) -> (r: bool)
        ensures
            r == self.is_finished(),
    {
        self.finished
    }

    fn finish(&mut self, reason: StopReason) -> (r: Action)
        requires
            old(self).wf(),
            !old(self).is_finished(),
        ensures
            final(self).wf(),
            final(self).is_finished(),
            r matches Action::Finish { path, reason: why } && path@ == old(self).output().path()
                && why == reason,
            final(self).output().same_file(&old(self).output()),
            final(self).output().total() == old(self).output().total(),
            final(self).seen() == old(self).seen(),
            final(self).payload_sizes() == old(self).payload_sizes(),
            final(self).failures() == old(self).failures(),
            final(self).max_failures() == old(self).max_failures(),
            final(self).poll_secs() == old(self).poll_secs(),
            final(self).pending() == old(self).pending(),
            final(self).position() == old(self).position(),
            final(self).ends() == old(self).ends(),
            final(self).media_url() == old(self).media_url(),
    {
        let path = self.output.finalize();
        self.finished = true;
        Action::Finish { path, reason }
    }

    /// Top of a polling cycle, with the shutdown flag as it reads now.
    pub fn resume(&mut self, shutdown: bool) -> (r: Action)
        requires
            old(self).wf(),
        ensures
            final(self).wf(),
            old(self).is_finished() ==> r is Done && *final(self) == *old(self),
            !old(self).is_finished() && shutdown ==> (r matches Action::Finish { path, reason }
                && reason == StopReason::Shutdown && path@ == old(self).output().path()
                && final(self).is_finished()),
            !old(self).is_finished() && !shutdown ==> r is FetchPlaylist && *final(self) == *old(self),
            final(self).output().total() == old(self).output().total(),
            final(self).seen() == old(self).seen(),
            final(self).payload_sizes() == old(self).payload_sizes(),
            final(self).media_url() == old(self).media_url(),
    {
        if self.finished {
            return Action::Done;
        }
        if shutdown {
            return self.finish(StopReason::Shutdown);
        }
        Action::FetchPlaylist
    }

    fn seen_contains(&self, uri: &String) -> (r: bool)
        ensures
            r == self.seen().contains(uri@),
    {
        let mut i: usize = 0;
        while i < self.seen_segments.len()
            invariant
                i <= self.seen_segments@.len(),
                forall|j: int| 0 <= j < i ==> self.seen()[j] != uri@,
            decreases self.seen_segments.len() - i,
        {
            if self.seen_segments[i] == *uri {
                assert(self.seen()[i as int] == uri@);
                return true;
            }
            i = i + 1;
        }
        false
    }

    /// Walks on through the current playlist: skips URIs already taken, takes
    /// the next new one and asks for it; at the end, finishes on an ended
    /// stream or else waits for the next poll.
    fn advance(&mut self, shutdown: bool) -> (r: Action)
        requires
            old(self).wf(),
            !old(self).is_finished(),
        ensures
            final(self).wf(),
            final(self).pending() == old(self).pending(),
            final(self).ends() == old(self).ends(),
            old(self).position() <= final(self).position(),
            final(self).output().total() == old(self).output().total(),
            final(self).payload_sizes() == old(self).payload_sizes(),
            final(self).failures() == old(self).failures(),
            final(self).max_failures() == old(self).max_failures(),
            final(self).poll_secs() == old(self).poll_secs(),
            final(self).seen() == seen_after(
                old(self).seen(),
                old(self).pending().subrange(
                    old(self).position() as int,
                    final(self).position() as int,
                ),
            ),
            shutdown ==> (r matches Action::Finish { path, reason } && (reason
                == StopReason::Shutdown || reason == StopReason::EndOfStream)),
            r matches Action::FetchSegment { uri, url } ==> {
                &&& !old(self).seen().contains(uri@)
                &&& final(self).seen() == old(self).seen().push(uri@)
            },
            !took_uri(r) ==> final(self).seen() == old(self).seen(),
            r is Sleep ==> (r == Action::Sleep { secs: old(self).poll_secs() } && !old(self).ends()
                && final(self).position() == final(self).pending().len()),
            r matches Action::Finish { path, reason } ==> {
                &&& path@ == old(self).output().path()
                &&& final(self).is_finished()
                &&& final(self).output().same_file(&old(self).output())
            },
            !(r is Finish) ==> (final(self).output() == old(self).output() && !final(self).is_finished()),
            !(r is Done),
            final(self).media_url() == old(self).media_url(),
            !shutdown ==> final(self).walk_result(r),
    {
        let ghost seen0 = self.seen();
        let ghost pos0 = self.position as int;
        let ghost uris = self.pending();
        assert(uris.subrange(pos0, pos0) =~= Seq::<Seq<char>>::empty());
        while self.position < self.current.len()
            invariant
                self.wf(),
                !self.is_finished(),
                self.pending() == uris,
                uris == old(self).pending(),
                uris.len() == self.current@.len(),
                pos0 == old(self).position as int,
                pos0 <= self.position <= uris.len(),
                self.seen() == seen0,
                seen0 == old(self).seen(),
                seen_after(seen0, uris.subrange(pos0, self.position as int)) == seen0,
                self.output == old(self).output,
                self.payloads == old(self).payloads,
                self.consecutive_failures == old(self).consecutive_failures,
                self.config.max_failures == old(self).config.max_failures,
                self.config.poll_interval == old(self).config.poll_interval,
                self.end_list == old(self).end_list,
                self.config.media_url == old(self).config.media_url,
            decreases self.current.len() - self.position,
        {
            if shutdown {
                return self.finish(StopReason::Shutdown);
            }
            let i = self.position;
            self.position = i + 1;
            let ghost ii = i as int;
            assert(0 <= pos0 <= ii < uris.len());
            let ghost examined = uris.subrange(pos0, ii + 1);
            assert(examined.len() == ii + 1 - pos0);
            assert(examined.drop_last() =~= uris.subrange(pos0, i as int));
            assert(examined.last() == uris[i as int]);
            assert(uris[i as int] == self.current@[i as int]@);
            if self.seen_contains(&self.current[i]) {
                continue;
            }
            let uri = self.current[i].clone();
            proof {
                assert forall|a: int, b: int|
                    0 <= a < b < seen0.len() + 1 implies seen0.push(uri@)[a] != seen0.push(
                        uri@,
                    )[b] by {
                    if b == seen0.len() {
                        assert(seen0[a] == seen0.push(uri@)[a]);
                    }
                }
            }
            self.seen_segments.push(uri.clone());
            assert(self.seen() =~= seen0.push(uri@));
            match join_url(&self.config.media_url, uri.as_str()) {
                Some(url) => {
                    return Action::FetchSegment { uri, url };
                },
                None => {
                    return self.finish(StopReason::BadSegmentUrl);
                },
            }
        }
        if self.end_list {
            return self.finish(StopReason::EndOfStream);
        }
        if shutdown {
            return self.finish(StopReason::Shutdown);
        }
        Action::Sleep { secs: self.config.poll_interval }
    }

    /// Reports the media playlist: `None` when its fetch or its parse failed.
    /// A failure counts against the budget of consecutive failures and either
    /// stops the run or waits for the next poll; a playlist resets the count
    /// and its segments are walked in order.
    pub fn playlist_received(&mut self, playlist: Option<MediaPlaylist>, shutdown: bool) -> (r:
        Action)
        requires
            old(self).wf(),
        ensures
            final(self).wf(),
            old(self).is_finished() ==> r is Done && *final(self) == *old(self),
            final(self).output().total() == old(self).output().total(),
            final(self).payload_sizes() == old(self).payload_sizes(),
            !old(self).is_finished() && playlist is None ==> {
                let count = if old(self).failures() < u32::MAX {
                    old(self).failures() + 1
                } else {
                    old(self).failures()
                };
                let give_up = old(self).max_failures() > 0 && count >= old(self).max_failures();
                &&& final(self).failures() == count
                &&& final(self).seen() == old(self).seen()
                &&& give_up ==> (r matches Action::Finish { path, reason } && reason
                    == StopReason::TooManyFailures && path@ == old(self).output().path())
                &&& !give_up ==> r == Action::Sleep { secs: old(self).poll_secs() }
            },
            !old(self).is_finished() && playlist is Some ==> {
                &&& final(self).failures() == 0
                &&& final(self).ends() == playlist.unwrap().end_list
                &&& final(self).pending() == playlist.unwrap().segments@.map_values(
                    |s: crate::playlist::MediaSegment| s.uri@,
                )
                &&& final(self).seen() == seen_after(
                    old(self).seen(),
                    final(self).pending().take(final(self).position() as int),
                )
                &&& shutdown ==> (r matches Action::Finish { path, reason } && (reason
                    == StopReason::Shutdown || reason == StopReason::EndOfStream)
                    && path@ == old(self).output().path())
                &&& r matches Action::FetchSegment { uri, url } ==> {
                    &&& !old(self).seen().contains(uri@)
                    &&& final(self).seen() == old(self).seen().push(uri@)
                }
                &&& !took_uri(r) ==> final(self).seen() == old(self).seen()
                &&& !shutdown ==> final(self).walk_result(r)
            },
            final(self).media_url() == old(self).media_url(),
    {
        if self.finished {
            return Action::Done;
        }
        match playlist {
            None => {
                if self.consecutive_failures < u32::MAX {
                    self.consecutive_failures = self.consecutive_failures + 1;
                }
                if self.config.max_failures > 0 && self.consecutive_failures
                    >= self.config.max_failures {
                    return self.finish(StopReason::TooManyFailures);
                }
                Action::Sleep { secs: self.config.poll_interval }
            },
            Some(pl) => {
                self.consecutive_failures = 0;
                let mut uris: Vec<String> = Vec::new();
                let mut i: usize = 0;
                while i < pl.segments.len()
                    invariant
                        i <= pl.segments@.len(),
                        uris@.len() == i,
                        forall|j: int| 0 <= j < i ==> (#[trigger] uris@[j])@ == pl.segments@[j].uri@,
                    decreases pl.segments.len() - i,
                {
                    uris.push(pl.segments[i].uri.clone());
                    i = i + 1;
                }
                self.current = uris;
                self.end_list = pl.end_list;
                self.position = 0;
                assert(self.pending() =~= pl.segments@.map_values(
                    |s: crate::playlist::MediaSegment| s.uri@,
                ));
                let r = self.advance(shutdown);
                assert(self.pending().subrange(0, self.position as int) =~= self.pending().take(
                    self.position as int,
                ));
                r
            },
        }
    }

    /// Reports a segment fetch, at `now_ms`: its payload, or `None` when the
    /// fetch failed and the segment is dropped. A payload is counted (the
    /// caller has appended it to the current file) and may close the file,
    /// whose path is then returned for its hook; then the walk goes on.
    pub fn segment_fetched(&mut self, data: Option<&[u8]>, now_ms: u64, shutdown: bool) -> (r: (
        Option<String>,
        Action,
    ))
        requires
            old(self).wf(),
            data matches Some(d) ==> old(self).output().total() + d@.len() <= u64::MAX,
        ensures
            final(self).wf(),
            old(self).is_finished() ==> r.0 is None && r.1 is Done && *final(self) == *old(self),
            !old(self).is_finished() ==> {
                &&& final(self).failures() == old(self).failures()
                &&& final(self).output().total() == old(self).output().total() + match data {
                    Some(d) => d@.len(),
                    None => 0,
                }
                &&& final(self).payload_sizes() == match data {
                    Some(d) => old(self).payload_sizes().push(d@.len()),
                    None => old(self).payload_sizes(),
                }
                &&& data is None ==> r.0 is None
                &&& data is Some ==> (r.0 is Some <==> (now_ms >= old(self).output().window_start()
                    + old(self).output().duration() && old(self).output().index() < u32::MAX))
                &&& r.0 matches Some(p) ==> p@ == old(self).output().path()
                    && final(self).output().index() == old(self).output().index() + 1
                &&& shutdown ==> (r.1 matches Action::Finish { path, reason } && (reason
                    == StopReason::Shutdown || reason == StopReason::EndOfStream))
                &&& r.1 matches Action::FetchSegment { uri, url } ==> {
                    &&& !old(self).seen().contains(uri@)
                    &&& final(self).seen() == old(self).seen().push(uri@)
                }
                &&& !took_uri(r.1) ==> final(self).seen() == old(self).seen()
                &&& !shutdown ==> final(self).walk_result(r.1)
                &&& final(self).pending() == old(self).pending()
                &&& final(self).ends() == old(self).ends()
                &&& final(self).seen() == seen_after(
                    old(self).seen(),
                    old(self).pending().subrange(
                        old(self).position() as int,
                        final(self).position() as int,
                    ),
                )
            },
            final(self).media_url() == old(self).media_url(),
    {
        if self.finished {
            return (None, Action::Done);
        }
        let mut rotated: Option<String> = None;
        if let Some(d) = data {
            self.output.write(d);
            self.payloads = Ghost(self.payloads@.push(d@.len() as nat));
            assert(self.payloads@.drop_last() =~= old(self).payloads@);
            rotated = self.output.maybe_rotate(now_ms);
        }
        let action = self.advance(shutdown);
        (rotated, action)
    }
}

/// Offering URIs one after the other keeps a list without repeats that holds
/// each offered URI once, in the order of first appearance: what was taken
/// after any prefix of the offers begins what is taken after all of them.
pub proof fn lemma_each_uri_taken_once(uris: Seq<Seq<char>>)
    ensures
        seen_after(Seq::empty(), uris).no_duplicates(),
        forall|u: Seq<char>| seen_after(Seq::empty(), uris).contains(u) <==> uris.contains(u),
        forall|k: int|
            0 <= k <= uris.len() ==> seen_after(Seq::empty(), uris).take(
                seen_after(Seq::empty(), #[trigger] uris.take(k)).len() as int,
            ) == seen_after(Seq::empty(), uris.take(k)),
        forall|k: int|
            0 <= k <= uris.len() ==> seen_after(Seq::empty(), #[trigger] uris.take(k)).len()
                <= seen_after(Seq::empty(), uris).len(),
    decreases uris.len(),
{
    let e = Seq::<Seq<char>>::empty();
    if uris.len() == 0 {
        assert forall|k: int| 0 <= k <= uris.len() implies seen_after(e, uris).take(
            seen_after(e, #[trigger] uris.take(k)).len() as int,
        ) == seen_after(e, uris.take(k)) by {
            assert(uris.take(k) =~= uris);
            assert(seen_after(e, uris).take(0) =~= e);
        }
        assert forall|k: int| 0 <= k <= uris.len() implies seen_after(e, #[trigger] uris.take(k)).len()
            <= seen_after(e, uris).len() by {
            assert(uris.take(k) =~= uris);
        }
    } else {
        let front = uris.drop_last();
        lemma_each_uri_taken_once(front);
        let before = seen_after(e, front);
        let x = uris.last();
        let all = seen_after(e, uris);
        if !before.contains(x) {
            assert forall|a: int, b: int| 0 <= a < b < all.len() implies all[a] != all[b] by {
                if b == before.len() {
                    assert(all[a] == before[a]);
                }
            }
        }
        assert(all.no_duplicates());
        assert forall|j: int| 0 <= j < before.len() implies all[j] == before[j] by {
            if !before.contains(x) {
                assert(all[j] == before.push(x)[j]);
            }
        }
        if before.contains(x) {
            assert(all == before);
        } else {
            assert(all[all.len() - 1] == x);
        }
        assert(all.contains(x));
        assert forall|u: Seq<char>| all.contains(u) <==> uris.contains(u) by {
            if uris.contains(u) {
                let i = choose|i: int| 0 <= i < uris.len() && uris[i] == u;
                if i < front.len() {
                    assert(front[i] == u);
                    assert(front.contains(u));
                    let j = choose|j: int| 0 <= j < before.len() && before[j] == u;
                    assert(all[j] == u);
                } else {
                    assert(u == x);
                }
            }
            if all.contains(u) {
                let j = choose|j: int| 0 <= j < all.len() && all[j] == u;
                if j < before.len() {
                    assert(before[j] == u);
                    assert(before.contains(u));
                    assert(front.contains(u));
                    let i = choose|i: int| 0 <= i < front.len() && front[i] == u;
                    assert(front[i] == uris[i]);
                    assert(uris[i] == u);
                } else {
                    assert(uris[uris.len() - 1] == u);
                }
            }
        }
        assert(all.take(before.len() as int) =~= before);
        assert forall|k: int| 0 <= k <= uris.len() implies all.take(
            seen_after(e, #[trigger] uris.take(k)).len() as int,
        ) == seen_after(e, uris.take(k)) by {
            if k == uris.len() {
                assert(uris.take(k) =~= uris);
                assert(all.take(all.len() as int) =~= all);
            } else {
                assert(uris.take(k) =~= front.take(k));
                let sk = seen_after(e, front.take(k));
                assert(sk.len() <= before.len());
                assert(before.take(sk.len() as int) == sk);
                assert(all.take(sk.len() as int) =~= before.take(sk.len() as int));
            }
        }
        assert forall|k: int| 0 <= k <= uris.len() implies seen_after(e, #[trigger] uris.take(k)).len()
            <= all.len() by {
            if k == uris.len() {
                assert(uris.take(k) =~= uris);
            } else {
                assert(uris.take(k) =~= front.take(k));
            }
        }
    }
}

/// Counting payload after payload gives their sum, whatever rotations
/// happen in between.
pub proof fn lemma_total_is_sum_of_payloads(d: TsDownloader)
    requires
        d.wf(),
    ensures
        d.output().total() == sum(d.payload_sizes()),
{
}

} // verus!
