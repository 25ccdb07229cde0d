//! SRT to WebVTT conversion: prepend the `WEBVTT` magic and turn the
//! decimal comma of SRT timestamps into the dot WebVTT wants.  Only lines
//! carrying the `-->` timing arrow are rewritten; all others pass through
//! unchanged.

use vstd::prelude::*;
use vstd::string::*;

use crate::text::{
    append_lit, chars_of, contains_lit, find_char, find_char_from, lemma_find_char_props,
    string_of, subchars,
};

verus! {

/// True when a line holds the SRT/WebVTT timing arrow.
pub open spec fn contains_arrow(line: Seq<char>) -> bool {
    crate::text::contains_seq(line, "-->"@)
}

/// A timing line with every comma turned into a dot; other lines stay.
pub open spec fn convert_line(line: Seq<char>) -> Seq<char> {
    if contains_arrow(line) {
        Seq::new(
            line.len(),
            |i: int|
                if line[i] == ',' {
                    '.'
                } else {
                    line[i]
                },
        )
    } else {
        line
    }
}

/// The converted lines of the SRT text, each followed by a newline.  A
/// line ends at a newline (a carriage return before it is dropped) or at
/// the end of the text.
pub open spec fn vtt_body(s: Seq<char>) -> Seq<char>
    decreases s.len(),
    via vtt_body_decreases
{
    if s.len() == 0 {
        Seq::<char>::empty()
    } else {
        let nl = find_char(s, '\n');
        let line = s.subrange(0, nl);
        let line2 = if line.len() > 0 && line.last() == '\r' {
            line.drop_last()
        } else {
            line
        };
        convert_line(line2) + seq!['\n'] + (if nl == s.len() {
            Seq::<char>::empty()
        } else {
            vtt_body(s.subrange(nl + 1, s.len() as int))
        })
    }
}

#[via_fn]
proof fn vtt_body_decreases(s: Seq<char>) {
    lemma_find_char_props(s, '\n');
}

/// The whole conversion: the WebVTT magic, then the converted lines.
pub open spec fn spec_srt_to_vtt(s: Seq<char>) -> Seq<char> {
    "WEBVTT\n\n"@ + vtt_body(s)
}

/// Whatever goes in, the conversion begins with the WebVTT magic.
pub proof fn lemma_vtt_starts_with_magic(s: Seq<char>)
    ensures
        spec_srt_to_vtt(s).len() >= "WEBVTT\n\n"@.len(),
        spec_srt_to_vtt(s).subrange(0, "WEBVTT\n\n"@.len() as int) == "WEBVTT\n\n"@,
{
    assert(spec_srt_to_vtt(s).subrange(0, "WEBVTT\n\n"@.len() as int) =~= "WEBVTT\n\n"@);
}

/// Converts SRT subtitle text to WebVTT.
pub fn srt_to_vtt(srt_content: &str) -> (r: String)
    ensures
        r@ == spec_srt_to_vtt(srt_content@),
{
    let v = chars_of(srt_content);
    let vlen = v.len();
    let mut out: Vec<char> = Vec::new();
    append_lit(&mut out, "WEBVTT\n\n");
    proof {
        assert(v@.subrange(0, vlen as int) =~= srt_content@);
    }
    let mut pos: usize = 0;
    while pos < vlen
        invariant
            pos <= vlen == v@.len(),
            out@ + vtt_body(v@.subrange(pos as int, vlen as int)) == spec_srt_to_vtt(
                srt_content@,
            ),
        decreases vlen - pos,
    {
        let ghost cur = v@.subrange(pos as int, vlen as int);
        let ghost out0 = out@;
        let nl = find_char_from(&v, pos, '\n');
        proof {
            lemma_find_char_props(cur, '\n');
            assert forall|j: int| 0 <= j < nl - pos implies cur[j] != '\n' by {
                assert(cur[j] == v@[pos + j]);
            }
            if nl < vlen {
                assert(cur[nl - pos] == v@[nl as int]);
            }
            assert(find_char(cur, '\n') == nl - pos);
        }
        let line_end: usize = if nl > pos && v[nl - 1] == '\r' {
            nl - 1
        } else {
            nl
        };
        let line = subchars(&v, pos, line_end);
        proof {
            let spec_line = cur.subrange(0, nl - pos);
            assert(spec_line =~= v@.subrange(pos as int, nl as int));
            if spec_line.len() > 0 && spec_line.last() == '\r' {
                assert(spec_line.drop_last() =~= v@.subrange(pos as int, nl as int - 1));
                assert(line@ == spec_line.drop_last());
            } else {
                assert(line@ == spec_line);
            }
        }
        push_converted_line(&mut out, &line);
        out.push('\n');
        if nl >= vlen {
            proof {
                assert(vtt_body(cur) == convert_line(line@) + seq!['\n']);
                assert(out@ =~= out0 + vtt_body(cur));
            }
            return string_of(&out);
        }
        proof {
            assert(cur.subrange((nl - pos) as int + 1, cur.len() as int) =~= v@.subrange(
                nl as int + 1,
                vlen as int,
            ));
            let next = v@.subrange(nl as int + 1, vlen as int);
            assert(vtt_body(cur) == convert_line(line@) + seq!['\n'] + vtt_body(next));
            assert(out@ + vtt_body(next) =~= out0 + vtt_body(cur));
        }
        pos = nl + 1;
    }
    proof {
        assert(vtt_body(v@.subrange(pos as int, vlen as int)) =~= Seq::<char>::empty());
        assert(out@ =~= out@ + vtt_body(v@.subrange(pos as int, vlen as int)));
    }
    string_of(&out)
}

/// Appends `convert_line` of the line.
fn push_converted_line(out: &mut Vec<char>, line: &Vec<char>)
    ensures
        final(out)@ == old(out)@ + convert_line(line@),
{
    if contains_lit(line, "-->") {
        let mut i: usize = 0;
        while i < line.len()
            invariant
                i <= line@.len(),
                contains_arrow(line@),
                out@.len() == old(out)@.len() + i,
                forall|j: int| 0 <= j < old(out)@.len() ==> out@[j] == old(out)@[j],
                forall|j: int|
                    0 <= j < i ==> out@[old(out)@.len() + j] == (if line@[j] == ',' {
                        '.'
                    } else {
                        line@[j]
                    }),
            decreases line@.len() - i,
        {
            let c = line[i];
            if c == ',' {
                out.push('.');
            } else {
                out.push(c);
            }
            i = i + 1;
        }
        proof {
            assert(final(out)@ =~= old(out)@ + convert_line(line@));
        }
    } else {
        proof {
            assert(!contains_arrow(line@));
        }
        crate::text::append_chars(out, line);
    }
}

} // verus!
