use vstd::prelude::*;
use vstd::string::*;

use crate::downloader::DownloadConfig;
use crate::output::{push_stamp, stamp_text, StartStamp};
use crate::playlist::{
    is_best_index, is_fmp4_playlist, is_fragmented, select_best_variant, Playlist,
};
use crate::urls::joined;
use crate::text::{decimal, decimal_string, occurs_at};
use url::Url;

verus! {

/// Command-line settings of a recording.
pub struct Args {
    /// Playlist (or RTSP) URL to record.
    pub url: String,
    /// Output directory.
    pub output: String,
    /// Rotation duration of the output files, in seconds.
    pub segment_secs: u64,
    /// Exit with an error status after a clean run.
    pub fake_exit_err: bool,
    pub progress: bool,
    pub verbose: bool,
    /// Budget of one fetch over all its attempts, in seconds.
    pub timeout: u64,
    pub retries: u32,
    pub retry_delay_ms: u64,
    /// Playlist poll interval, in seconds.
    pub poll_interval: u64,
    /// Consecutive playlist failures tolerated; zero for no limit.
    pub max_failures: u32,
    /// Command run on each completed file, `{}` standing for its path.
    pub on_segment: Option<String>,
    /// Command run at exit, with `%d`, `%t`, `%s`, `%b` and `%m` filled in.
    pub on_exit: Option<String>,
    pub file_extension: String,
    /// Hand the stream to ffmpeg whatever its format.
    pub ffmpeg: bool,
    /// Skip the playlist and hand the URL to ffmpeg directly.
    pub direct: bool,
    /// Accept invalid certificates and host names.
    pub insecure: bool,
    pub username: Option<String>,
    pub password: Option<String>,
}

/// Settings of an RTSP recording.
pub struct RtspConfig {
    pub url: String,
    pub username: Option<String>,
    pub password: Option<String>,
    pub output_dir: String,
    pub segment_secs: u64,
    pub on_segment: Option<String>,
    pub verbose: bool,
    pub progress: bool,
}

/// How a media playlist's segments are recorded.
#[derive(Clone, Copy, Debug, PartialEq, Eq, Structural)]
pub enum StreamFormat {
    /// Fragmented segments sharing an initialization map: handed to ffmpeg.
    FMP4,
    /// Plain segments: appended natively.
    TS,
}

pub open spec fn rtsp_scheme() -> Seq<char> {
    seq!['r', 't', 's', 'p', ':', '/', '/']
}

pub open spec fn rtsps_scheme() -> Seq<char> {
    seq!['r', 't', 's', 'p', 's', ':', '/', '/']
}

/// True iff `url` starts with `rtsp://` or `rtsps://`.
pub fn is_rtsp_url(url: &str) -> (r: bool)
    ensures
        r == (occurs_at(url@, rtsp_scheme(), 0) || occurs_at(url@, rtsps_scheme(), 0)),
{
    proof {
        reveal_strlit("rtsp://");
        reveal_strlit("rtsps://");
    }
    assert("rtsp://"@ =~= rtsp_scheme());
    assert("rtsps://"@ =~= rtsps_scheme());
    crate::text::matches_at(url, "rtsp://", 0) || crate::text::matches_at(url, "rtsps://", 0)
}

/// The format of a stream from its media playlist; `None` when the playlist
/// could not be had or is not a media playlist.
pub fn detect_format(playlist: Option<&Playlist>) -> (r: Option<StreamFormat>)
    ensures
        match playlist {
            Some(Playlist::MediaPlaylist(m)) => r == Some(
                if is_fragmented(*m) {
                    StreamFormat::FMP4
                } else {
                    StreamFormat::TS
                },
            ),
            _ => r is None,
        },
{
    match playlist {
        Some(Playlist::MediaPlaylist(m)) => {
            if is_fmp4_playlist(m) {
                Some(StreamFormat::FMP4)
            } else {
                Some(StreamFormat::TS)
            }
        },
        _ => None,
    }
}

/// The media playlist's URL: `base_url` itself for a media playlist, the
/// best variant resolved against it for a master playlist.
pub fn media_url_for(playlist: &Playlist, base_url: Url) -> (r: Option<Url>)
    ensures
        playlist is MediaPlaylist ==> r == Some(base_url),
        match playlist {
            Playlist::MasterPlaylist(m) => {
                &&& m.variants@.len() == 0 ==> r is None
                &&& m.variants@.len() > 0 ==> exists|k: int|
                    is_best_index(m.variants@, k) && r == joined(
                        base_url,
                        #[trigger] m.variants@[k].uri@,
                    )
            },
            Playlist::MediaPlaylist(_) => true,
        },
{
    match playlist {
        Playlist::MasterPlaylist(master) => select_best_variant(master, &base_url),
        Playlist::MediaPlaylist(_) => Some(base_url),
    }
}

/// Seconds to milliseconds, saturated.
pub open spec fn secs_to_ms(secs: u64) -> u64 {
    if secs as nat * 1000 > u64::MAX {
        u64::MAX
    } else {
        (secs * 1000) as u64
    }
}

/// The settings of a native run over `media_url` from the command line.
pub fn download_config(args: &Args, media_url: Url) -> (r: DownloadConfig)
    ensures
        r.media_url == media_url,
        r.output_dir@ == args.output@,
        r.file_extension@ == args.file_extension@,
        r.segment_secs == args.segment_secs,
        r.poll_interval == args.poll_interval,
        r.max_failures == args.max_failures,
        r.timeout_ms == secs_to_ms(args.timeout),
        r.retries == args.retries,
        r.retry_delay_ms == args.retry_delay_ms,
        r.on_segment matches Some(c) ==> args.on_segment matches Some(a) && c@ == a@,
        r.on_segment is None <==> args.on_segment is None,
        r.verbose == args.verbose,
        r.progress == args.progress,
{
    let timeout_ms = if args.timeout > u64::MAX / 1000 {
        u64::MAX
    } else {
        args.timeout * 1000
    };
    let on_segment = match &args.on_segment {
        Some(c) => Some(c.clone()),
        None => None,
    };
    DownloadConfig {
        media_url,
        output_dir: args.output.clone(),
        file_extension: args.file_extension.clone(),
        segment_secs: args.segment_secs,
        poll_interval: args.poll_interval,
        max_failures: args.max_failures,
        timeout_ms,
        retries: args.retries,
        retry_delay_ms: args.retry_delay_ms,
        on_segment,
        verbose: args.verbose,
        progress: args.progress,
    }
}

/// True iff the file name `name` ends with `.` and `ext`.
pub fn has_extension(name: &str, ext: &str) -> (r: bool)
    ensures
        r == (name@.len() >= ext@.len() + 1 && name@[name@.len() - ext@.len() - 1] == '.'
            && name@.subrange(name@.len() - ext@.len(), name@.len() as int) == ext@),
{
    let n = name.unicode_len();
    let m = ext.unicode_len();
    if m >= n {
        return false;
    }
    if name.get_char(n - m - 1) != '.' {
        return false;
    }
    crate::text::matches_at(name, ext, n - m)
}

/// The output name pattern handed to ffmpeg: the name of file `%d` of a
/// recording started at `start`.
pub open spec fn ffmpeg_pattern_text(start: StartStamp, ext: Seq<char>) -> Seq<char> {
    stamp_text(start) + seq!['_', '%', 'd', '.'] + ext
}

/// The output file name pattern for ffmpeg's segment muxer: the output file
/// name with `%d` standing for the index.
pub fn ffmpeg_pattern(start: &StartStamp, file_extension: &str) -> (r: String)
    ensures
        r@ == ffmpeg_pattern_text(*start, file_extension@),
{
    let mut out = String::new();
    push_stamp(&mut out, start);
    out.append("_%d.");
    proof {
        reveal_strlit("_%d.");
    }
    out.append(file_extension);
    assert(out@ =~= ffmpeg_pattern_text(*start, file_extension@));
    out
}

/// The arguments of the ffmpeg command that records `media_url` into files
/// of `segment_secs` seconds named after `pattern`, numbered from
/// `start_index`.
pub open spec fn ffmpeg_args_text(
    media_url: Seq<char>,
    pattern: Seq<char>,
    segment_secs: nat,
    start_index: nat,
) -> Seq<Seq<char>> {
    seq![
        seq!['-', 'v'],
        seq!['e', 'r', 'r', 'o', 'r'],
        seq!['-', 'i'],
        media_url,
        seq!['-', 'c'],
        seq!['c', 'o', 'p', 'y'],
        seq!['-', 'c', ':', 'a'],
        seq!['c', 'o', 'p', 'y'],
        seq!['-', 'f'],
        seq!['s', 'e', 'g', 'm', 'e', 'n', 't'],
        seq!['-', 's', 'e', 'g', 'm', 'e', 'n', 't', '_', 't', 'i', 'm', 'e'],
        decimal(segment_secs),
        seq![
            '-', 's', 'e', 'g', 'm', 'e', 'n', 't', '_', 's', 't', 'a', 'r', 't', '_', 'n',
            'u', 'm', 'b', 'e', 'r',
        ],
        decimal(start_index),
        seq![
            '-', 'm', 'a', 'x', '_', 'm', 'u', 'x', 'i', 'n', 'g', '_', 'q', 'u', 'e', 'u',
            'e', '_', 's', 'i', 'z', 'e',
        ],
        seq!['5', '1', '2'],
        pattern,
    ]
}

fn lit(s: &str) -> (r: String)
    ensures
        r@ == s@,
{
    String::from_str(s)
}

/// The arguments of the ffmpeg command for a fragmented stream.
pub fn ffmpeg_args(media_url: &str, pattern: &str, segment_secs: u64, start_index: u32) -> (r: Vec<
    String,
>)
    ensures
        r@.map_values(|s: String| s@) == ffmpeg_args_text(
            media_url@,
            pattern@,
            segment_secs as nat,
            start_index as nat,
        ),
{
    proof {
        reveal_strlit("-v");
        reveal_strlit("error");
        reveal_strlit("-i");
        reveal_strlit("-c");
        reveal_strlit("copy");
        reveal_strlit("-c:a");
        reveal_strlit("-f");
        reveal_strlit("segment");
        reveal_strlit("-segment_time");
        reveal_strlit("-segment_start_number");
        reveal_strlit("-max_muxing_queue_size");
        reveal_strlit("512");
    }
    assert("-v"@ =~= seq!['-', 'v']);
    assert("error"@ =~= seq!['e', 'r', 'r', 'o', 'r']);
    assert("-i"@ =~= seq!['-', 'i']);
    assert("-c"@ =~= seq!['-', 'c']);
    assert("copy"@ =~= seq!['c', 'o', 'p', 'y']);
    assert("-c:a"@ =~= seq!['-', 'c', ':', 'a']);
    assert("-f"@ =~= seq!['-', 'f']);
    assert("segment"@ =~= seq!['s', 'e', 'g', 'm', 'e', 'n', 't']);
    assert("-segment_time"@ =~= seq!['-', 's', 'e', 'g', 'm', 'e', 'n', 't', '_', 't', 'i', 'm', 'e']);
    assert("-segment_start_number"@ =~= seq!['-', 's', 'e', 'g', 'm', 'e', 'n', 't', '_', 's', 't', 'a', 'r', 't', '_', 'n', 'u', 'm', 'b', 'e', 'r']);
    assert("-max_muxing_queue_size"@ =~= seq!['-', 'm', 'a', 'x', '_', 'm', 'u', 'x', 'i', 'n', 'g', '_', 'q', 'u', 'e', 'u', 'e', '_', 's', 'i', 'z', 'e']);
    assert("512"@ =~= seq!['5', '1', '2']);
    let mut v: Vec<String> = Vec::new();
    v.push(lit("-v"));
    v.push(lit("error"));
    v.push(lit("-i"));
    v.push(lit(media_url));
    v.push(lit("-c"));
    v.push(lit("copy"));
    v.push(lit("-c:a"));
    v.push(lit("copy"));
    v.push(lit("-f"));
    v.push(lit("segment"));
    v.push(lit("-segment_time"));
    v.push(decimal_string(segment_secs));
    v.push(lit("-segment_start_number"));
    v.push(decimal_string(start_index as u64));
    v.push(lit("-max_muxing_queue_size"));
    v.push(lit("512"));
    v.push(lit(pattern));
    assert(v@.map_values(|s: String| s@) =~= ffmpeg_args_text(
        media_url@,
        pattern@,
        segment_secs as nat,
        start_index as nat,
    ));
    v
}

} // verus!
