use vstd::prelude::*;
use vstd::string::*;

use crate::text::{decimal, decimal2, push_decimal, push_decimal2};

verus! {

/// Local wall-clock minute at which a recording started.
#[derive(Clone, Copy, Debug)]
pub struct StartStamp {
    pub year: u32,
    pub month: u32,
    pub day: u32,
    pub hour: u32,
    pub minute: u32,
}

/// `n` in decimal, zero-padded to at least four digits.
pub open spec fn decimal4(n: nat) -> Seq<char> {
    if n < 10 {
        seq!['0', '0', '0'] + decimal(n)
    } else if n < 100 {
        seq!['0', '0'] + decimal(n)
    } else if n < 1000 {
        seq!['0'] + decimal(n)
    } else {
        decimal(n)
    }
}

/// A year as `%Y` writes it: four digits at least, with a leading `+` past
/// 9999.
pub open spec fn year_text(y: nat) -> Seq<char> {
    if y > 9999 {
        seq!['+'] + decimal(y)
    } else {
        decimal4(y)
    }
}

/// `YYYY_MM_DD-HH_MM` of a start time.
pub open spec fn stamp_text(start: StartStamp) -> Seq<char> {
    year_text(start.year as nat) + seq!['_'] + decimal2(start.month as nat) + seq!['_']
        + decimal2(start.day as nat) + seq!['-'] + decimal2(start.hour as nat) + seq!['_']
        + decimal2(start.minute as nat)
}

/// `YYYY_MM_DD-HH_MM_<index>.<extension>`.
pub open spec fn file_name_text(start: StartStamp, index: nat, ext: Seq<char>) -> Seq<char> {
    stamp_text(start) + seq!['_'] + decimal(index) + seq!['.'] + ext
}

/// `name` inside directory `dir`, with one `/` between them.
pub open spec fn path_text(dir: Seq<char>, name: Seq<char>) -> Seq<char> {
    if dir.len() == 0 {
        name
    } else if dir.last() == '/' {
        dir + name
    } else {
        dir + seq!['/'] + name
    }
}

/// Each rotation time lies at least `d` after the previous one, the first at
/// least `d` after `opened`.
pub open spec fn spaced_by(opened: nat, times: Seq<u64>, d: nat) -> bool {
    &&& forall|i: int| 0 < i < times.len() ==> times[i - 1] + d <= #[trigger] times[i]
    &&& times.len() > 0 ==> opened + d <= times[0]
}

/// Bookkeeping of the rotating output: which file is current, when its window
/// opened, and how many bytes went out over all files. Times are milliseconds
/// on a monotonic clock.
pub struct OutputFile {
    file_extension: String,
    output_dir: String,
    start_time: StartStamp,
    first_index: u32,
    segment_index: u32,
    opened_at_ms: u64,
    segment_start_ms: u64,
    segment_duration_ms: u64,
    total_bytes_written: u64,
    finalized: bool,
    /// Times at which the output rotated, oldest first.
    rotations: Ghost<Seq<u64>>,
}

impl OutputFile {
    pub closed spec fn wf(&self) -> bool {
        &&& self.segment_index as nat == self.first_index as nat + self.rotations@.len()
        &&& spaced_by(self.opened_at_ms as nat, self.rotations@, self.segment_duration_ms as nat)
        &&& self.segment_start_ms == if self.rotations@.len() == 0 {
            self.opened_at_ms
        } else {
            self.rotations@.last()
        }
    }

    pub closed spec fn index(&self) -> nat {
        self.segment_index as nat
    }

    pub closed spec fn first_index(&self) -> nat {
        self.first_index as nat
    }

    pub closed spec fn opened_at(&self) -> nat {
        self.opened_at_ms as nat
    }

    pub closed spec fn rotation_times(&self) -> Seq<u64> {
        self.rotations@
    }

    pub closed spec fn window_start(&self) -> nat {
        self.segment_start_ms as nat
    }

    pub closed spec fn duration(&self) -> nat {
        self.segment_duration_ms as nat
    }

    pub closed spec fn total(&self) -> nat {
        self.total_bytes_written as nat
    }

    pub closed spec fn is_finalized(&self) -> bool {
        self.finalized
    }

    pub closed spec fn start(&self) -> StartStamp {
        self.start_time
    }

    pub closed spec fn extension(&self) -> Seq<char> {
        self.file_extension@
    }

    pub closed spec fn dir(&self) -> Seq<char> {
        self.output_dir@
    }

    /// Path of the file that is being written.
    pub open spec fn path(&self) -> Seq<char> {
        path_text(self.dir(), file_name_text(self.start(), self.index(), self.extension()))
    }

    /// Everything but the byte counter and the finalized flag is as in `o`.
    pub open spec fn same_file(&self, o: &OutputFile) -> bool {
        &&& self.index() == o.index()
        &&& self.first_index() == o.first_index()
        &&& self.opened_at() == o.opened_at()
        &&& self.rotation_times() == o.rotation_times()
        &&& self.window_start() == o.window_start()
        &&& self.duration() == o.duration()
        &&& self.start() == o.start()
        &&& self.extension() == o.extension()
        &&& self.dir() == o.dir()
    }

    /// Starts the output at file `index`, the first one that is free in
    /// `output_dir`, with its window opening at `now_ms`.
    pub fn new(
        file_extension: String,
        output_dir: String,
        segment_duration_ms: u64,
        start_time: StartStamp,
        index: u32,
        now_ms: u64,
    ) -> (r: OutputFile)
        ensures
            r.wf(),
            r.index() == index,
            r.first_index() == index,
            r.opened_at() == now_ms,
            r.window_start() == now_ms,
            r.rotation_times() == Seq::<u64>::empty(),
            r.duration() == segment_duration_ms,
            r.total() == 0,
            !r.is_finalized(),
            r.start() == start_time,
            r.extension() == file_extension@,
            r.dir() == output_dir@,
    {
        OutputFile {
            file_extension,
            output_dir,
            start_time,
            first_index: index,
            segment_index: index,
            opened_at_ms: now_ms,
            segment_start_ms: now_ms,
            segment_duration_ms,
            total_bytes_written: 0,
            finalized: false,
            rotations: Ghost(Seq::empty()),
        }
    }

    /// Counts `data` as appended to the current file.
    pub fn write(&mut self, data: &[u8])
        requires
            old(self).total() + data@.len() <= u64::MAX,
        ensures
            final(self).total() == old(self).total() + data@.len(),
            final(self).is_finalized() == old(self).is_finalized(),
            final(self).same_file(old(self)),
            old(self).wf() ==> final(self).wf(),
    {
        self.total_bytes_written = self.total_bytes_written + data.len() as u64;
    }

    /// When the current window has lasted at least the rotation duration at
    /// `now_ms`, moves on to the next file index, opens a new window at
    /// `now_ms` and returns the completed file's path. The index never wraps:
    /// at `u32::MAX` the current file stays open.
    pub fn maybe_rotate(&mut self, now_ms: u64) -> (r: Option<String>)
        requires
            old(self).wf(),
        ensures
            final(self).wf(),
            final(self).total() == old(self).total(),
            final(self).is_finalized() == old(self).is_finalized(),
            final(self).start() == old(self).start(),
            final(self).extension() == old(self).extension(),
            final(self).dir() == old(self).dir(),
            final(self).duration() == old(self).duration(),
            final(self).first_index() == old(self).first_index(),
            final(self).opened_at() == old(self).opened_at(),
            ({
                let due = now_ms >= old(self).window_start() + old(self).duration()
                    && old(self).index() < u32::MAX;
                &&& r is Some <==> due
                &&& due ==> {
                    &&& r.unwrap()@ == old(self).path()
                    &&& final(self).index() == old(self).index() + 1
                    &&& final(self).window_start() == now_ms
                    &&& final(self).rotation_times() == old(self).rotation_times().push(now_ms)
                }
                &&& !due ==> final(self).same_file(old(self))
            }),
    {
        if now_ms >= self.segment_start_ms && now_ms - self.segment_start_ms
            >= self.segment_duration_ms && self.segment_index < u32::MAX {
            let completed = self.current_path();
            self.segment_index = self.segment_index + 1;
            self.segment_start_ms = now_ms;
            self.rotations = Ghost(self.rotations@.push(now_ms));
            assert(self.rotations@.last() == now_ms);
            Some(completed)
        } else {
            None
        }
    }

    /// Returns the current file's path and marks the output finalized; a second
    /// call returns the same path.
    pub fn finalize(&mut self) -> (r: String)
        ensures
            r@ == old(self).path(),
            final(self).is_finalized(),
            final(self).total() == old(self).total(),
            final(self).same_file(old(self)),
            old(self).wf() ==> final(self).wf(),
    {
        self.finalized = true;
        self.current_path()
    }

    /// Whether `finalize` has been called.
    pub fn finalized(&self) -> (r: bool)
        ensures
            r == self.is_finalized(),
    {
        self.finalized
    }

    /// Bytes counted over all files.
    pub fn total_bytes(&self) -> (r: u64)
        ensures
            r == self.total(),
    {
        self.total_bytes_written
    }

    /// Index of the current file.
    pub fn segment_index(&self) -> (r: u32)
        ensures
            r == self.index(),
    {
        self.segment_index
    }

    /// Path of the current file.
    pub fn current_path(&self) -> (r: String)
        ensures
            r@ == self.path(),
    {
        let name = format_filename(&self.start_time, self.segment_index, self.file_extension.as_str());
        join_path(self.output_dir.as_str(), name.as_str())
    }
}

/// In a well-formed output, rotations are spaced by the rotation duration:
/// each comes at least that long after the previous one (the first after the
/// opening), the file index has grown by exactly one per rotation, and the
/// current window opened at the last of them.
pub proof fn lemma_rotations_spaced(o: &OutputFile)
    requires
        o.wf(),
    ensures
        o.index() == o.first_index() + o.rotation_times().len(),
        forall|i: int|
            0 < i < o.rotation_times().len() ==> o.rotation_times()[i - 1] + o.duration()
                <= #[trigger] o.rotation_times()[i],
        o.rotation_times().len() > 0 ==> o.opened_at() + o.duration() <= o.rotation_times()[0],
        o.window_start() == if o.rotation_times().len() == 0 {
            o.opened_at()
        } else {
            o.rotation_times().last() as nat
        },
{
}

/// `name` inside directory `dir`.
pub fn join_path(dir: &str, name: &str) -> (r: String)
    ensures
        r@ == path_text(dir@, name@),
{
    let n = dir.unicode_len();
    if n == 0 {
        return name.to_string();
    }
    let mut out = dir.to_string();
    if dir.get_char(n - 1) != '/' {
        out.append("/");
        proof {
            reveal_strlit("/");
        }
    }
    out.append(name);
    assert(out@ =~= path_text(dir@, name@));
    out
}

fn push_decimal4(out: &mut String, n: u64)
    ensures
        final(out)@ == old(out)@ + decimal4(n as nat),
{
    proof {
        reveal_strlit("000");
        reveal_strlit("00");
        reveal_strlit("0");
    }
    if n < 10 {
        out.append("000");
    } else if n < 100 {
        out.append("00");
    } else if n < 1000 {
        out.append("0");
    }
    push_decimal(out, n);
    assert(final(out)@ =~= old(out)@ + decimal4(n as nat));
}

/// Appends `YYYY_MM_DD-HH_MM` of `start`.
pub fn push_stamp(out: &mut String, start: &StartStamp)
    ensures
        final(out)@ == old(out)@ + stamp_text(*start),
{
    proof {
        reveal_strlit("_");
        reveal_strlit("-");
    }
    if start.year > 9999 {
        out.append("+");
        proof {
            reveal_strlit("+");
        }
        push_decimal(out, start.year as u64);
    } else {
        push_decimal4(out, start.year as u64);
    }
    out.append("_");
    push_decimal2(out, start.month as u64);
    out.append("_");
    push_decimal2(out, start.day as u64);
    out.append("-");
    push_decimal2(out, start.hour as u64);
    out.append("_");
    push_decimal2(out, start.minute as u64);
    assert(final(out)@ =~= old(out)@ + stamp_text(*start));
}

/// The name of output file `index` of a recording started at `start`.
pub fn format_filename(start: &StartStamp, index: u32, file_extension: &str) -> (r: String)
    ensures
        r@ == file_name_text(*start, index as nat, file_extension@),
{
    let mut out = String::new();
    proof {
        reveal_strlit("_");
        reveal_strlit(".");
    }
    push_stamp(&mut out, start);
    out.append("_");
    push_decimal(&mut out, index as u64);
    out.append(".");
    out.append(file_extension);
    assert(out@ =~= file_name_text(*start, index as nat, file_extension@));
    out
}

} // verus!
