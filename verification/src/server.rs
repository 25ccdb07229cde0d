//! The HTTP serving layer's decision logic: the byte-range grammar, the
//! content-type table, the response headers, and the read-with-wait step
//! of the growing-file reader.  The sockets themselves live with the
//! caller; everything here turns request text into response text.

use vstd::prelude::*;
use vstd::string::*;

use crate::text::{
    all_digits, append_chars, append_lit, chars_is_lit, chars_of, dec_repr, dec_val, find_char,
    find_char_from, format_u64, format_hex, hex_repr, last_index_of, lemma_find_char_props,
    parse_u64, rfind_char, spec_trim, string_of, subchars, trim_chars,
};

verus! {

/// How range reads are buffered between producer and consumer.
pub struct StreamConfig {
    pub chunk_size: usize,
    pub buffer_capacity: usize,
}

impl Default for StreamConfig {
    /// One-mebibyte chunks, sixteen of them in flight.
    fn default() -> (r: Self)
        ensures
            r.chunk_size == 0x100000,
            r.buffer_capacity == 16,
    {
        StreamConfig { chunk_size: 0x100000, buffer_capacity: 16 }
    }
}

/// The source the server is currently serving byte ranges from.  The
/// encoder stream is installed separately, as the chunked mode.
pub enum StreamSource {
    /// A complete file on disk.
    Static { path: String },
    /// A file the torrent engine is still filling in; its final size,
    /// the file's byte offset inside the torrent's piece space, and the
    /// piece length are known ahead of time.
    Growing { path: String, total_size: u64, file_offset: u64, piece_length: u64 },
}

impl StreamSource {
    /// The path the source reads from.
    pub fn get_path(&self) -> (r: &String)
        ensures
            r@ == self.spec_path(),
    {
        match self {
            StreamSource::Static { path } => path,
            StreamSource::Growing { path, .. } => path,
        }
    }

    /// The path the source reads from.
    pub open spec fn spec_path(&self) -> Seq<char> {
        match self {
            StreamSource::Static { path } => path@,
            StreamSource::Growing { path, .. } => path@,
        }
    }

    /// The size known ahead of time: only a growing source has one.
    pub fn total_size(&self) -> (r: Option<u64>)
        ensures
            match self {
                StreamSource::Static { .. } => r is None,
                StreamSource::Growing { total_size, .. } => r == Some(*total_size),
            },
    {
        match self {
            StreamSource::Static { .. } => None,
            StreamSource::Growing { total_size, .. } => Some(*total_size),
        }
    }
}

/// The value of a digit string when it parses as a `u64`.
pub open spec fn spec_parse_u64(s: Seq<char>) -> Option<u64> {
    if s.len() > 0 && all_digits(s) && dec_val(s) < 0x1_0000_0000_0000_0000 {
        Some(dec_val(s) as u64)
    } else {
        None
    }
}

/// The `(start, end)` pair a `Range: bytes=` value denotes, both ends
/// inclusive: `a-b` as given, `a-` to the end, `-n` the last `n` bytes;
/// anything unreadable falls back to the full file, and the end is
/// clamped to the last byte.
pub open spec fn spec_parse_range(r: Option<Seq<char>>, size: u64) -> (u64, u64)
    recommends
        size > 0,
{
    match r {
        None => (0u64, (size - 1) as u64),
        Some(s) => {
            let dash = find_char(s, '-');
            if dash == s.len() {
                (0u64, (size - 1) as u64)
            } else {
                let start_s = s.subrange(0, dash);
                let end_s = s.subrange(dash + 1, s.len() as int);
                if start_s.len() == 0 && spec_parse_u64(end_s) is Some {
                    let suf = spec_parse_u64(end_s).unwrap();
                    (if suf > size {
                        0u64
                    } else {
                        (size - suf) as u64
                    }, (size - 1) as u64)
                } else {
                    let start = match spec_parse_u64(start_s) {
                        Some(v) => v,
                        None => 0u64,
                    };
                    let end = if end_s.len() == 0 {
                        (size - 1) as u64
                    } else {
                        match spec_parse_u64(end_s) {
                            Some(v) => v,
                            None => (size - 1) as u64,
                        }
                    };
                    (start, if end > size - 1 {
                        (size - 1) as u64
                    } else {
                        end
                    })
                }
            }
        },
    }
}

/// Reads a `Range: bytes=` value against a file of `file_size` bytes.
pub fn parse_range(range: Option<&str>, file_size: u64) -> (r: (u64, u64))
    requires
        file_size > 0,
    ensures
        r == spec_parse_range(
            match range {
                Some(s) => Some(s@),
                None => None,
            },
            file_size,
        ),
{
    let s = match range {
        None => {
            return (0, file_size - 1);
        },
        Some(s) => s,
    };
    let v = chars_of(s);
    let dash = find_char_from(&v, 0, '-');
    proof {
        lemma_find_char_props(v@, '-');
        assert(dash == find_char(v@, '-'));
    }
    if dash == v.len() {
        return (0, file_size - 1);
    }
    let start_s = subchars(&v, 0, dash);
    let end_s = subchars(&v, dash + 1, v.len());
    let end_parsed = parse_u64(&end_s);
    if start_s.len() == 0 {
        match end_parsed {
            Some(suf) => {
                let start = if suf > file_size {
                    0
                } else {
                    file_size - suf
                };
                return (start, file_size - 1);
            },
            None => {},
        }
    }
    let start: u64 = match parse_u64(&start_s) {
        Some(v) => v,
        None => 0,
    };
    let end: u64 = if end_s.len() == 0 {
        file_size - 1
    } else {
        match end_parsed {
            Some(v) => v,
            None => file_size - 1,
        }
    };
    let end = if end > file_size - 1 {
        file_size - 1
    } else {
        end
    };
    (start, end)
}

/// True when a Range value fits the accepted grammar: `start-end`,
/// `start-` (tail) or `-suffix` (last N), with numerals that fit.
pub open spec fn spec_range_value_wf(s: Seq<char>) -> bool {
    let dash = find_char(s, '-');
    dash < s.len() && {
        let start_s = s.subrange(0, dash);
        let end_s = s.subrange(dash + 1, s.len() as int);
        if start_s.len() == 0 {
            spec_parse_u64(end_s) is Some
        } else {
            spec_parse_u64(start_s) is Some && (end_s.len() == 0 || spec_parse_u64(end_s)
                is Some)
        }
    }
}

/// What a request's range becomes: a partial response over `[start, end]`
/// when the value is inside the grammar and the pair is ordered; an
/// absent or invalid range means the whole file, as a full response.
pub open spec fn spec_plan_range(r: Option<Seq<char>>, size: u64) -> (bool, u64, u64)
    recommends
        size > 0,
{
    match r {
        None => (false, 0u64, (size - 1) as u64),
        Some(s) => if !spec_range_value_wf(s) {
            (false, 0u64, (size - 1) as u64)
        } else {
            let (a, b) = spec_parse_range(r, size);
            if a <= b {
                (true, a, b)
            } else {
                (false, 0u64, (size - 1) as u64)
            }
        },
    }
}

/// Decides the response mode for a request: partial content over the
/// parsed range when a well-formed, ordered one was given, the whole
/// file as a full response otherwise.
pub fn plan_range_response(range: Option<&str>, file_size: u64) -> (r: (bool, u64, u64))
    requires
        file_size > 0,
    ensures
        r == spec_plan_range(
            match range {
                Some(s) => Some(s@),
                None => None,
            },
            file_size,
        ),
        r.1 <= r.2 < file_size,
{
    let s = match range {
        None => {
            return (false, 0, file_size - 1);
        },
        Some(s) => s,
    };
    let v = chars_of(s);
    let dash = find_char_from(&v, 0, '-');
    proof {
        lemma_find_char_props(v@, '-');
        assert(dash == find_char(v@, '-'));
    }
    if dash == v.len() {
        return (false, 0, file_size - 1);
    }
    let start_s = subchars(&v, 0, dash);
    let end_s = subchars(&v, dash + 1, v.len());
    let wf = if start_s.len() == 0 {
        parse_u64(&end_s).is_some()
    } else {
        parse_u64(&start_s).is_some() && (end_s.len() == 0 || parse_u64(&end_s).is_some())
    };
    if !wf {
        return (false, 0, file_size - 1);
    }
    let (a, b) = parse_range(range, file_size);
    if a <= b {
        (true, a, b)
    } else {
        (false, 0, file_size - 1)
    }
}

/// The extension of the file a path names: what follows the last dot of
/// the last path component, unless the component has no dot or starts
/// with its only one.
pub open spec fn spec_file_ext(path: Seq<char>) -> Option<Seq<char>> {
    let name = path.subrange(last_index_of(path, '/') + 1, path.len() as int);
    let dot = last_index_of(name, '.');
    if dot <= 0 {
        None
    } else {
        Some(name.subrange(dot + 1, name.len() as int))
    }
}

/// The content type served for a path, by its file extension.
pub open spec fn spec_mime(path: Seq<char>) -> Seq<char> {
    match spec_file_ext(path) {
        Some(e) => if e == "mp4"@ || e == "m4v"@ {
            "video/mp4"@
        } else if e == "webm"@ {
            "video/webm"@
        } else if e == "mkv"@ {
            "video/x-matroska"@
        } else if e == "avi"@ {
            "video/x-msvideo"@
        } else if e == "mp3"@ {
            "audio/mpeg"@
        } else if e == "aac"@ {
            "audio/aac"@
        } else if e == "wav"@ {
            "audio/wav"@
        } else if e == "ogg"@ {
            "audio/ogg"@
        } else if e == "flac"@ {
            "audio/flac"@
        } else if e == "jpg"@ || e == "jpeg"@ {
            "image/jpeg"@
        } else if e == "png"@ {
            "image/png"@
        } else if e == "gif"@ {
            "image/gif"@
        } else if e == "webp"@ {
            "image/webp"@
        } else {
            "application/octet-stream"@
        },
        None => "application/octet-stream"@,
    }
}

/// The content type served for a path.
pub fn get_mime_type(path: &str) -> (r: &'static str)
    ensures
        r@ == spec_mime(path@),
{
    let v = chars_of(path);
    let vlen = v.len();
    let name_start: usize = match rfind_char(&v, '/') {
        Some(i) => i + 1,
        None => 0,
    };
    let name = subchars(&v, name_start, vlen);
    proof {
        assert(v@.subrange(last_index_of(v@, '/') + 1, v@.len() as int) == name@);
    }
    let dot = match rfind_char(&name, '.') {
        Some(i) => i,
        None => {
            return "application/octet-stream";
        },
    };
    if dot == 0 {
        return "application/octet-stream";
    }
    let ext = subchars(&name, dot + 1, name.len());
    if chars_is_lit(&ext, "mp4") || chars_is_lit(&ext, "m4v") {
        "video/mp4"
    } else if chars_is_lit(&ext, "webm") {
        "video/webm"
    } else if chars_is_lit(&ext, "mkv") {
        "video/x-matroska"
    } else if chars_is_lit(&ext, "avi") {
        "video/x-msvideo"
    } else if chars_is_lit(&ext, "mp3") {
        "audio/mpeg"
    } else if chars_is_lit(&ext, "aac") {
        "audio/aac"
    } else if chars_is_lit(&ext, "wav") {
        "audio/wav"
    } else if chars_is_lit(&ext, "ogg") {
        "audio/ogg"
    } else if chars_is_lit(&ext, "flac") {
        "audio/flac"
    } else if chars_is_lit(&ext, "jpg") || chars_is_lit(&ext, "jpeg") {
        "image/jpeg"
    } else if chars_is_lit(&ext, "png") {
        "image/png"
    } else if chars_is_lit(&ext, "gif") {
        "image/gif"
    } else if chars_is_lit(&ext, "webp") {
        "image/webp"
    } else {
        "application/octet-stream"
    }
}

/// The value of the first `Range: bytes=` line of a request head, with
/// surrounding whitespace removed; `None` when no line carries one.
pub open spec fn spec_range_header(req: Seq<char>) -> Option<Seq<char>>
    decreases req.len(),
    via spec_range_header_decreases
{
    if req.len() == 0 {
        None
    } else {
        let nl = find_char(req, '\n');
        let line = req.subrange(0, nl);
        if line.len() >= 13 && line.subrange(0, 13) == "Range: bytes="@ {
            Some(spec_trim(line.subrange(13, line.len() as int)))
        } else if nl == req.len() {
            None
        } else {
            spec_range_header(req.subrange(nl + 1, req.len() as int))
        }
    }
}

#[via_fn]
proof fn spec_range_header_decreases(req: Seq<char>) {
    lemma_find_char_props(req, '\n');
}

/// Finds the byte-range request line in a request head.
pub fn extract_range_header(req: &str) -> (r: Option<String>)
    ensures
        match r {
            Some(s) => spec_range_header(req@) == Some(s@),
            None => spec_range_header(req@) is None,
        },
{
    let v = chars_of(req);
    let vlen = v.len();
    proof {
        assert(v@.subrange(0, vlen as int) =~= req@);
    }
    let mut pos: usize = 0;
    while pos < vlen
        invariant
            pos <= vlen == v@.len(),
            spec_range_header(req@) == spec_range_header(v@.subrange(pos as int, vlen as int)),
        decreases vlen - pos,
    {
        let ghost cur = v@.subrange(pos as int, vlen as int);
        let nl = find_char_from(&v, pos, '\n');
        proof {
            lemma_find_char_props(cur, '\n');
            assert forall|j: int| 0 <= j < nl - pos implies cur[j] != '\n' by {
                assert(cur[j] == v@[pos + j]);
            }
            if nl < vlen {
                assert(cur[nl - pos] == v@[nl as int]);
            }
            assert(find_char(cur, '\n') == nl - pos);
            assert(cur.subrange(0, nl - pos) =~= v@.subrange(pos as int, nl as int));
        }
        if nl - pos >= 13 && starts_with_prefix(&v, pos, nl) {
            let trimmed = trim_chars(&v, pos + 13, nl);
            proof {
                let line = cur.subrange(0, nl - pos);
                assert(line.subrange(0, 13) =~= v@.subrange(pos as int, pos + 13));
                assert(line.subrange(13, line.len() as int) =~= v@.subrange(
                    pos + 13,
                    nl as int,
                ));
            }
            return Some(string_of(&trimmed));
        }
        proof {
            let line = cur.subrange(0, nl - pos);
            if line.len() >= 13 {
                assert(line.subrange(0, 13) =~= v@.subrange(pos as int, pos + 13));
            }
        }
        if nl >= vlen {
            return None;
        }
        proof {
            assert(cur.subrange((nl - pos) as int + 1, cur.len() as int) =~= v@.subrange(
                nl as int + 1,
                vlen as int,
            ));
        }
        pos = nl + 1;
    }
    None
}

/// True when `v[at..end]` begins with the range header prefix.
fn starts_with_prefix(v: &Vec<char>, at: usize, end: usize) -> (r: bool)
    requires
        at <= end <= v@.len(),
        end - at >= 13,
    ensures
        r <==> v@.subrange(at as int, at + 13) == "Range: bytes="@,
{
    let sw = crate::text::starts_with_lit(v, at, "Range: bytes=");
    proof {
        reveal_strlit("Range: bytes=");
    }
    sw
}

/// The response head of a byte-range response: the status line, content
/// type, length, range, and keep-alive/accept-ranges markers.
pub open spec fn spec_stream_header(
    partial: bool,
    mime: Seq<char>,
    start: u64,
    end: u64,
    size: u64,
) -> Seq<char>
    recommends
        start <= end < size,
{
    (if partial {
        "HTTP/1.1 206 Partial Content \r\n"@
    } else {
        "HTTP/1.1 200 OK \r\n"@
    }) + "Content-Type: "@ + mime + "\r\nContent-Length: "@ + dec_repr(
        (end - start + 1) as nat,
    ) + "\r\nContent-Range: bytes "@ + dec_repr(start as nat) + "-"@ + dec_repr(end as nat) + "/"@
        + dec_repr(size as nat) + "\r\nConnection: keep-alive\r\nAccept-Ranges: bytes\r\n\r\n"@
}

/// Builds the response head of a byte-range response.
pub fn build_stream_header(partial: bool, mime: &str, start: u64, end: u64, size: u64) -> (r:
    String)
    requires
        start <= end < size,
    ensures
        r@ == spec_stream_header(partial, mime@, start, end, size),
{
    let mut out: Vec<char> = Vec::new();
    if partial {
        append_lit(&mut out, "HTTP/1.1 206 Partial Content \r\n");
    } else {
        append_lit(&mut out, "HTTP/1.1 200 OK \r\n");
    }
    append_lit(&mut out, "Content-Type: ");
    append_lit(&mut out, mime);
    append_lit(&mut out, "\r\nContent-Length: ");
    let mut num = format_u64(end - start + 1);
    append_chars(&mut out, &num);
    append_lit(&mut out, "\r\nContent-Range: bytes ");
    num = format_u64(start);
    append_chars(&mut out, &num);
    append_lit(&mut out, "-");
    num = format_u64(end);
    append_chars(&mut out, &num);
    append_lit(&mut out, "/");
    num = format_u64(size);
    append_chars(&mut out, &num);
    append_lit(&mut out, "\r\nConnection: keep-alive\r\nAccept-Ranges: bytes\r\n\r\n");
    proof {
        assert(out@ =~= spec_stream_header(partial, mime@, start, end, size));
    }
    string_of(&out)
}

/// The response head of the chunked encoder stream.
pub fn transcode_header() -> (r: &'static str)
    ensures
        r@
            == "HTTP/1.1 200 OK \r\nContent-Type: video/mp4\r\nConnection: keep-alive\r\nTransfer-Encoding: chunked\r\n\r\n"@,
{
    "HTTP/1.1 200 OK \r\nContent-Type: video/mp4\r\nConnection: keep-alive\r\nTransfer-Encoding: chunked\r\n\r\n"
}

/// The size line that precedes one HTTP chunk of `n` bytes.
pub fn chunk_size_line(n: u64) -> (r: String)
    ensures
        r@ == hex_repr(n as nat) + "\r\n"@,
{
    let mut out = format_hex(n);
    append_lit(&mut out, "\r\n");
    string_of(&out)
}

/// The bytes that end one HTTP chunk.
pub fn chunk_trailer() -> (r: &'static str)
    ensures
        r@ == "\r\n"@,
{
    "\r\n"
}

/// The bytes that end a chunked response.
pub fn chunk_terminator() -> (r: &'static str)
    ensures
        r@ == "0\r\n\r\n"@,
{
    "0\r\n\r\n"
}

/// What one read of the growing file means.
pub enum GrowingReadStep {
    /// Bytes arrived; pass them on.
    Deliver,
    /// The whole file has been read.
    Eof,
    /// The file has not grown this far yet; retry after a delay.
    WaitRetry,
}

/// Classifies a read that returned `bytes_read` bytes at `position` of a
/// file whose final size is `total_size`: an empty read before the end
/// means the writer has not caught up yet.
pub fn growing_read_step(bytes_read: usize, position: u64, total_size: u64) -> (r:
    GrowingReadStep)
    ensures
        bytes_read > 0 ==> r is Deliver,
        bytes_read == 0 && position >= total_size ==> r is Eof,
        bytes_read == 0 && position < total_size ==> r is WaitRetry,
{
    if bytes_read > 0 {
        GrowingReadStep::Deliver
    } else if position >= total_size {
        GrowingReadStep::Eof
    } else {
        GrowingReadStep::WaitRetry
    }
}

/// The torrent piece a file position falls into, given the file's offset
/// inside the torrent's piece space.
pub fn piece_index(position: u64, file_offset: u64, piece_length: u64) -> (r: u64)
    requires
        piece_length > 0,
        position + file_offset <= u64::MAX,
    ensures
        r == (position + file_offset) as u64 / piece_length,
{
    (position + file_offset) / piece_length
}

} // verus!
