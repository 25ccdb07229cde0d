//! The torrent adapter's decisions: which file of a torrent to stream,
//! where it starts inside the piece space, and the warm-up gate that
//! holds playback until enough has arrived.  The engine itself (adding
//! torrents, fetching metadata, writing the file) lives with the caller.

use vstd::prelude::*;
use vstd::string::*;

use crate::text::chars_of;

verus! {

/// How much of the file must be there before playback starts: three per
/// cent...
pub const WARMUP_PERMILLE_THRESHOLD: u64 = 30;

/// ...or ten mebibytes, whichever comes first.
pub const WARMUP_BYTES_THRESHOLD: u64 = 10485760;

/// How many bytes must be on disk before the background probe runs.
pub const PROBE_BYTES_THRESHOLD: u64 = 5242880;

/// How long progress may sit still before the download counts as stalled.
pub const WARMUP_STALL_MS: u64 = 30000;

/// How the torrent engine is set up.
#[derive(Debug, Clone)]
pub struct TorrentConfig {
    pub download_dir: Option<String>,
    pub keep_files: bool,
    pub listen_port: Option<u16>,
}

impl Default for TorrentConfig {
    /// A fresh temporary directory, removed afterwards, on an ephemeral
    /// port.
    fn default() -> (r: Self)
        ensures
            r.download_dir is None,
            !r.keep_files,
            r.listen_port is None,
    {
        TorrentConfig { download_dir: None, keep_files: false, listen_port: None }
    }
}

/// What can go wrong between a magnet link and a streaming file.
pub enum TorrentError {
    /// A file could not be read or written.
    Io(String),
    /// The magnet link could not be used.
    Magnet(String),
    /// The torrent engine failed or timed out.
    Engine(String),
    /// The torrent holds no file with a video extension.
    NoVideoFound,
}

impl TorrentError {
    /// The description carried by the error.
    pub fn message(&self) -> (r: String)
        ensures
            r@ == self.spec_message(),
    {
        match self {
            TorrentError::Io(s) => s.clone(),
            TorrentError::Magnet(s) => s.clone(),
            TorrentError::Engine(s) => s.clone(),
            TorrentError::NoVideoFound => String::from_str("no video file found in torrent"),
        }
    }

    /// The description carried by the error.
    pub open spec fn spec_message(&self) -> Seq<char> {
        match self {
            TorrentError::Io(s) => s@,
            TorrentError::Magnet(s) => s@,
            TorrentError::Engine(s) => s@,
            TorrentError::NoVideoFound => "no video file found in torrent"@,
        }
    }
}

/// What the engine knows about the file picked for streaming.
pub struct TorrentStreamInfo {
    pub path: String,
    pub total_size: u64,
    pub file_offset: u64,
    pub piece_length: u64,
    pub file_idx: usize,
}

/// One file of a torrent's metadata.
pub struct TorrentFileEntry {
    pub path: String,
    pub length: u64,
}

/// The model of one file entry.
pub struct TorrentFileModel {
    pub path: Seq<char>,
    pub length: u64,
}

impl View for TorrentFileEntry {
    type V = TorrentFileModel;

    open spec fn view(&self) -> TorrentFileModel {
        TorrentFileModel { path: self.path@, length: self.length }
    }
}

impl DeepView for TorrentFileEntry {
    type V = TorrentFileModel;

    open spec fn deep_view(&self) -> TorrentFileModel {
        self.view()
    }
}

/// ASCII lower-casing of one character.
pub open spec fn ascii_lower(c: char) -> char {
    if 65 <= c as u32 <= 90 {
        ((c as u32 + 32) as u8) as char
    } else {
        c
    }
}

/// True when the ASCII-lower-cased path ends in the given suffix.
pub open spec fn ends_with_lower(s: Seq<char>, suffix: Seq<char>) -> bool {
    s.len() >= suffix.len() && Seq::new(
        suffix.len(),
        |i: int| ascii_lower(s[s.len() - suffix.len() + i]),
    ) == suffix
}

/// True of paths with a video extension, compared without case.
pub open spec fn spec_is_video_file(s: Seq<char>) -> bool {
    ends_with_lower(s, ".mp4"@) || ends_with_lower(s, ".mkv"@) || ends_with_lower(s, ".avi"@)
        || ends_with_lower(s, ".mov"@)
}

/// True when the path, lower-cased, ends in `suffix`.
fn ends_with_lower_lit(v: &Vec<char>, suffix: &str) -> (r: bool)
    ensures
        r <==> ends_with_lower(v@, suffix@),
{
    let n = suffix.unicode_len();
    let vlen = v.len();
    if vlen < n {
        return false;
    }
    let base = vlen - n;
    let mut i: usize = 0;
    while i < n
        invariant
            i <= n,
            n == suffix@.len(),
            base == vlen - n,
            vlen == v@.len(),
            n <= vlen,
            forall|j: int| 0 <= j < i ==> ascii_lower(v@[base + j]) == suffix@[j],
        decreases n - i,
    {
        let c = v[base + i];
        let u: u32 = c as u32;
        let lc: char = if 65 <= u && u <= 90 {
            ((u + 32) as u8) as char
        } else {
            c
        };
        if lc != suffix.get_char(i) {
            proof {
                assert(Seq::new(
                    suffix@.len(),
                    |j: int| ascii_lower(v@[v@.len() - suffix@.len() + j]),
                )[i as int] != suffix@[i as int]);
            }
            return false;
        }
        i = i + 1;
    }
    proof {
        assert(Seq::new(suffix@.len(), |j: int| ascii_lower(v@[v@.len() - suffix@.len() + j]))
            =~= suffix@);
    }
    true
}

/// True of paths with a video extension, compared without case.
pub fn is_video_file(path: &str) -> (r: bool)
    ensures
        r == spec_is_video_file(path@),
{
    let v = chars_of(path);
    ends_with_lower_lit(&v, ".mp4") || ends_with_lower_lit(&v, ".mkv") || ends_with_lower_lit(
        &v,
        ".avi",
    ) || ends_with_lower_lit(&v, ".mov")
}

/// The pick among the first `upto` files: the first video file of the
/// largest size seen so far, later files winning only when strictly
/// larger.
pub open spec fn spec_best_video(fs: Seq<TorrentFileModel>, upto: int) -> Option<int>
    decreases upto,
{
    if upto <= 0 {
        None
    } else {
        let prev = spec_best_video(fs, upto - 1);
        if spec_is_video_file(fs[upto - 1].path) && (match prev {
            Some(p) => fs[upto - 1].length > fs[p].length,
            None => true,
        }) {
            Some(upto - 1)
        } else {
            prev
        }
    }
}

/// Picks the file to stream: the largest one with a video extension.
pub fn select_video_file(files: &Vec<TorrentFileEntry>) -> (r: Option<usize>)
    ensures
        match r {
            Some(i) => i < files@.len() && spec_best_video(
                files.deep_view(),
                files@.len() as int,
            ) == Some(i as int),
            None => spec_best_video(files.deep_view(), files@.len() as int) is None,
        },
{
    let ghost dv = files.deep_view();
    let mut best: Option<usize> = None;
    let mut i: usize = 0;
    while i < files.len()
        invariant
            i <= files@.len(),
            dv == files.deep_view(),
            dv.len() == files@.len(),
            match best {
                Some(b) => b < i && spec_best_video(dv, i as int) == Some(b as int),
                None => spec_best_video(dv, i as int) is None,
            },
        decreases files@.len() - i,
    {
        let entry = &files[i];
        let is_vid = is_video_file(entry.path.as_str());
        let take_it = if is_vid {
            match best {
                Some(b) => entry.length > files[b].length,
                None => true,
            }
        } else {
            false
        };
        if take_it {
            best = Some(i);
        }
        i = i + 1;
    }
    best
}

/// The byte lengths of the first `upto` files, added up.
pub open spec fn spec_length_sum(fs: Seq<TorrentFileModel>, upto: int) -> int
    decreases upto,
{
    if upto <= 0 {
        0
    } else {
        spec_length_sum(fs, upto - 1) + fs[upto - 1].length
    }
}

/// The byte offset of file `idx` inside the torrent's concatenated piece
/// space: the lengths of all files before it.  `None` when the offsets
/// overflow a `u64`.
pub fn file_offset_of(files: &Vec<TorrentFileEntry>, idx: usize) -> (r: Option<u64>)
    requires
        idx <= files@.len(),
    ensures
        r is Some <==> spec_length_sum(files.deep_view(), idx as int) <= u64::MAX,
        r matches Some(n) ==> n == spec_length_sum(files.deep_view(), idx as int),
{
    let ghost dv = files.deep_view();
    let mut acc: u64 = 0;
    let mut i: usize = 0;
    while i < idx
        invariant
            i <= idx <= files@.len(),
            dv == files.deep_view(),
            dv.len() == files@.len(),
            acc == spec_length_sum(dv, i as int),
        decreases idx - i,
    {
        let l = files[i].length;
        if acc > u64::MAX - l {
            proof {
                lemma_length_sum_grows(dv, i as int + 1, idx as int);
            }
            return None;
        }
        acc = acc + l;
        i = i + 1;
    }
    Some(acc)
}

/// Prefix sums of lengths never shrink.
proof fn lemma_length_sum_grows(fs: Seq<TorrentFileModel>, i: int, j: int)
    requires
        0 <= i <= j,
    ensures
        spec_length_sum(fs, j) >= spec_length_sum(fs, i),
    decreases j - i,
{
    if i < j {
        lemma_length_sum_grows(fs, i, j - 1);
    }
}

/// What one round of the warm-up loop decides.
#[derive(Clone, Copy, Debug, PartialEq, Eq, Structural)]
pub enum WarmupDecision {
    /// Enough is buffered; install the source and play.
    Ready,
    /// Keep waiting for the download.
    KeepWaiting,
    /// No progress for too long; give the entry up.
    Stalled,
}

/// The warm-up loop's memory between rounds.
#[derive(Clone, Copy, Debug, PartialEq, Eq, Structural)]
pub struct WarmupState {
    pub best_permille: u64,
    pub stall_since_ms: u64,
    pub probe_started: bool,
}

impl WarmupState {
    /// The memory at the start of the wait.
    pub fn begin(now_ms: u64) -> (r: Self)
        ensures
            r.best_permille == 0,
            r.stall_since_ms == now_ms,
            !r.probe_started,
    {
        WarmupState { best_permille: 0, stall_since_ms: now_ms, probe_started: false }
    }

    /// One round of the warm-up gate.  Returns the decision and whether
    /// the background probe should start this round.  Playback is ready
    /// at three per cent, ten mebibytes, or a finished download; the
    /// probe starts once five mebibytes are on disk; a download that
    /// made no progress for the stall limit while unfinished fails.
    pub fn step(&mut self, now_ms: u64, progress_bytes: u64, total_size: u64) -> (r: (
        WarmupDecision,
        bool,
    ))
        ensures
            ({
                let raw = if total_size > 0 {
                    ((progress_bytes * 1000) / (total_size as int)) as int
                } else {
                    0int
                };
                let pm = if raw > 1000 {
                    1000int
                } else {
                    raw
                };
                let improved = pm > old(self).best_permille;
                // the probe fires exactly once, at the byte threshold
                &&& (r.1 <==> (!old(self).probe_started && progress_bytes
                    > PROBE_BYTES_THRESHOLD))
                &&& final(self).probe_started == (old(self).probe_started || r.1)
                // progress resets the stall clock
                &&& final(self).best_permille == (if improved {
                    pm
                } else {
                    old(self).best_permille as int
                })
                &&& final(self).stall_since_ms == (if improved {
                    now_ms
                } else {
                    old(self).stall_since_ms
                })
                // the decision
                &&& r.0 == (if !improved && pm < 1000 && now_ms > old(self).stall_since_ms
                    + WARMUP_STALL_MS {
                    WarmupDecision::Stalled
                } else if pm >= 1000 || pm >= WARMUP_PERMILLE_THRESHOLD as int || progress_bytes
                    >= WARMUP_BYTES_THRESHOLD {
                    WarmupDecision::Ready
                } else {
                    WarmupDecision::KeepWaiting
                })
            }),
    {
        let start_probe = !self.probe_started && progress_bytes > PROBE_BYTES_THRESHOLD;
        if start_probe {
            self.probe_started = true;
        }
        let raw128: u128 = if total_size > 0 {
            (progress_bytes as u128) * 1000 / (total_size as u128)
        } else {
            0
        };
        let pm: u64 = if raw128 > 1000 {
            1000
        } else {
            raw128 as u64
        };
        let improved = pm > self.best_permille;
        let stalled = !improved && pm < 1000 && now_ms > sat_add_128(
            self.stall_since_ms,
            WARMUP_STALL_MS,
        );
        if improved {
            self.best_permille = pm;
            self.stall_since_ms = now_ms;
        }
        if stalled {
            return (WarmupDecision::Stalled, start_probe);
        }
        let ready = pm >= 1000 || pm >= WARMUP_PERMILLE_THRESHOLD || progress_bytes
            >= WARMUP_BYTES_THRESHOLD;
        if ready {
            (WarmupDecision::Ready, start_probe)
        } else {
            (WarmupDecision::KeepWaiting, start_probe)
        }
    }
}

/// `a + b` capped at the top of the range.
fn sat_add_128(a: u64, b: u64) -> (r: u64)
    ensures
        r == crate::supervisor::sat_add(a, b),
{
    if a > u64::MAX - b {
        u64::MAX
    } else {
        a + b
    }
}

} // verus!
