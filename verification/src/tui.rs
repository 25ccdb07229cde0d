//! The terminal interface's data side: the command set a key press turns
//! into, the snapshot the drawing loop consumes, and the pure rendering
//! helpers (the projector art, the time display, the progress bar).  The
//! terminal device itself is driven by the caller.

use vstd::prelude::*;
use vstd::string::*;

use crate::text::{dec_repr_pad, format_u64_pad, string_of};

verus! {

/// One user command from the terminal.
#[derive(Clone, Copy, Debug, PartialEq, Eq, Structural)]
pub enum TuiCommand {
    Play,
    Pause,
    TogglePlay,
    Stop,
    Next,
    Previous,
    /// Seconds to jump ahead.
    SeekForward(u64),
    /// Seconds to jump back.
    SeekBackward(u64),
    VolumeUp,
    VolumeDown,
    ToggleMute,
    Reconnect,
    Quit,
}

/// What one redraw of the screen shows.
pub struct TuiState {
    pub status: String,
    pub current_time_ms: u64,
    pub total_duration_ms: Option<u64>,
    pub volume_permille: Option<u32>,
    pub is_muted: bool,
    pub media_title: Option<String>,
    pub video_codec: Option<String>,
    pub audio_codec: Option<String>,
    pub device_name: String,
    pub animation_frame: u64,
    pub torrent_progress_permille: Option<u32>,
}

/// The terminal controller.  The raw-mode session, key reading and
/// drawing live with the caller; the rendering helpers below are what
/// they put on screen.
pub struct TuiController;

impl TuiController {
    pub fn new() -> (r: Self) {
        TuiController
    }
}

impl Default for TuiController {
    fn default() -> (r: Self) {
        TuiController::new()
    }
}

/// A duration in seconds as `MM:SS`, or `HH:MM:SS` from one hour up,
/// all two-digit padded.
pub open spec fn spec_format_duration(seconds: u64) -> Seq<char> {
    let h = seconds / 3600;
    let m = (seconds % 3600) / 60;
    let s = seconds % 60;
    if h > 0 {
        dec_repr_pad(h as nat, 2) + seq![':'] + dec_repr_pad(m as nat, 2) + seq![':']
            + dec_repr_pad(s as nat, 2)
    } else {
        dec_repr_pad(m as nat, 2) + seq![':'] + dec_repr_pad(s as nat, 2)
    }
}

/// Writes a duration in seconds for the time display.
pub fn format_duration(seconds: u64) -> (r: String)
    ensures
        r@ == spec_format_duration(seconds),
{
    let h = seconds / 3600;
    let m = (seconds % 3600) / 60;
    let s = seconds % 60;
    let mut out: Vec<char> = Vec::new();
    if h > 0 {
        let mut hh = format_u64_pad(h, 2);
        out.append(&mut hh);
        out.push(':');
    }
    let mut mm = format_u64_pad(m, 2);
    out.append(&mut mm);
    out.push(':');
    let mut ss = format_u64_pad(s, 2);
    out.append(&mut ss);
    proof {
        assert(out@ =~= spec_format_duration(seconds));
    }
    string_of(&out)
}

/// The filled cell count of the progress bar: the played share of the
/// bar width, clamped to the bar.
pub open spec fn spec_filled_cells(current_ms: u64, total_ms: u64, bar_len: nat) -> nat
    recommends
        total_ms > 0,
{
    let c = if current_ms > total_ms {
        total_ms as nat
    } else {
        current_ms as nat
    };
    (c * bar_len) / (total_ms as nat)
}

/// Renders the progress bar: filled cells, then shaded cells.  Without a
/// positive duration the bar is an empty bracket pair; a width under two
/// renders nothing.
pub fn render_progress_bar(current_ms: u64, total_ms: Option<u64>, width: usize) -> (r: String)
    ensures
        width < 2 ==> r@ == Seq::<char>::empty(),
        (width >= 2 && match total_ms {
            Some(t) => t == 0,
            None => true,
        }) ==> r@ == seq!['['] + Seq::new((width - 2) as nat, |i: int| ' ') + seq![']'],
        (width >= 2 && match total_ms {
            Some(t) => t > 0,
            None => false,
        }) ==> r@ == Seq::new(
            spec_filled_cells(current_ms, total_ms.unwrap(), (width - 2) as nat),
            |i: int| '\u{2588}',
        ) + Seq::new(
            ((width - 2) as nat - spec_filled_cells(
                current_ms,
                total_ms.unwrap(),
                (width - 2) as nat,
            )) as nat,
            |i: int| '\u{2591}',
        ),
{
    if width < 2 {
        let empty: Vec<char> = Vec::new();
        return string_of(&empty);
    }
    let bar_len = width - 2;
    let total = match total_ms {
        Some(t) => t,
        None => 0,
    };
    if total == 0 {
        let mut out: Vec<char> = Vec::new();
        out.push('[');
        let mut i: usize = 0;
        while i < bar_len
            invariant
                i <= bar_len,
                out@ == seq!['['] + Seq::new(i as nat, |j: int| ' '),
            decreases bar_len - i,
        {
            out.push(' ');
            i = i + 1;
            proof {
                assert(out@ =~= seq!['['] + Seq::new(i as nat, |j: int| ' '));
            }
        }
        out.push(']');
        proof {
            assert(out@ =~= seq!['['] + Seq::new((width - 2) as nat, |j: int| ' ') + seq![']']);
        }
        return string_of(&out);
    }
    let c: u64 = if current_ms > total {
        total
    } else {
        current_ms
    };
    proof {
        assert((c as int) * (bar_len as int) < 0x100000000000000000000000000000000int)
            by (nonlinear_arith)
            requires
                c <= 0xFFFF_FFFF_FFFF_FFFFint,
                bar_len <= 0xFFFF_FFFF_FFFF_FFFFint,
        ;
    }
    let num: u128 = (c as u128) * (bar_len as u128);
    let filled_w: u128 = num / (total as u128);
    proof {
        assert(filled_w <= bar_len) by {
            let cc = c as int;
            let bl = bar_len as int;
            let t = total as int;
            assert(cc * bl <= t * bl) by (nonlinear_arith)
                requires
                    cc <= t,
                    bl >= 0,
            ;
            vstd::arithmetic::div_mod::lemma_div_is_ordered(cc * bl, t * bl, t);
            assert((t * bl) / t == bl) by (nonlinear_arith)
                requires
                    t > 0,
                    bl >= 0,
            ;
        }
    }
    let filled: usize = filled_w as usize;
    proof {
        assert(filled == spec_filled_cells(current_ms, total, (width - 2) as nat));
    }
    let mut out: Vec<char> = Vec::new();
    let mut i: usize = 0;
    while i < filled
        invariant
            i <= filled,
            out@ == Seq::new(i as nat, |j: int| '\u{2588}'),
        decreases filled - i,
    {
        out.push('\u{2588}');
        i = i + 1;
        proof {
            assert(out@ =~= Seq::new(i as nat, |j: int| '\u{2588}'));
        }
    }
    let mut k: usize = 0;
    while k < bar_len - filled
        invariant
            filled <= bar_len,
            k <= bar_len - filled,
            out@ == Seq::new(filled as nat, |j: int| '\u{2588}') + Seq::new(
                k as nat,
                |j: int| '\u{2591}',
            ),
        decreases bar_len - filled - k,
    {
        out.push('\u{2591}');
        k = k + 1;
        proof {
            assert(out@ =~= Seq::new(filled as nat, |j: int| '\u{2588}') + Seq::new(
                k as nat,
                |j: int| '\u{2591}',
            ));
        }
    }
    proof {
        assert(out@ =~= Seq::new(
            spec_filled_cells(current_ms, total, (width - 2) as nat),
            |i: int| '\u{2588}',
        ) + Seq::new(
            ((width - 2) as nat - spec_filled_cells(current_ms, total, (width - 2) as nat)) as nat,
            |i: int| '\u{2591}',
        ));
    }
    string_of(&out)
}

/// Where the art block starts on a screen of the given height.
pub open spec fn spec_art_start(height: nat) -> nat {
    (if height >= 15 {
        (height - 15) as nat
    } else {
        0
    }) / 4
}

/// One row of the projector art.  Rows 1 to 3 carry the spinning reel
/// and row 9 the film feed, which step through four phases.
pub open spec fn spec_art_row(f: nat, row: nat) -> Seq<char>
    recommends
        f < 4,
        row < 15,
{
    if row == 0 {
        r"      .-------.             .-------.      "@
    } else if row == 1 {
        if f == 0 {
            r"     /   _/_   \           /   _/_   \     "@
        } else if f == 1 {
            r"     /   ___   \           /   ___   \     "@
        } else if f == 2 {
            r"     /   _\_   \           /   _\_   \     "@
        } else {
            r"     /   _|_   \           /   _|_   \     "@
        }
    } else if row == 2 {
        if f == 0 {
            r"     |  ( / )  |===========|  ( / )  |     "@
        } else if f == 1 {
            r"     |  ( - )  |===========|  ( - )  |     "@
        } else if f == 2 {
            r"     |  ( \ )  |===========|  ( \ )  |     "@
        } else {
            r"     |  ( | )  |===========|  ( | )  |     "@
        }
    } else if row == 3 {
        if f == 0 {
            r"      \   \ /  /           \   \ /  /      "@
        } else if f == 1 {
            r"      \   ___  /           \   ___  /      "@
        } else if f == 2 {
            r"      \   /_\  /           \   /_\  /      "@
        } else {
            r"      \   _|_  /           \   _|_  /      "@
        }
    } else if row == 4 {
        r"       '-------'             '-------'       "@
    } else if row == 5 {
        r"      __________|_____________|__________    "@
    } else if row == 6 {
        r"     |          |             |          |   "@
    } else if row == 7 {
        r"     |          |_____________|__________|   "@
    } else if row == 8 {
        r"     |          |             |          |   "@
    } else if row == 9 {
        if f == 0 || f == 2 {
            r"     |===>  . . .             |          |   "@
        } else {
            r"     |===>  . .               |          |   "@
        }
    } else if row == 10 {
        r"     |          |  ( ( O ) )  |          |   "@
    } else if row == 11 {
        r"     |          |             |          |   "@
    } else if row == 12 {
        r"     |__________|_____________|__________|   "@
    } else if row == 13 {
        r"                |             |              "@
    } else {
        r"                |_____________|              "@
    }
}

/// One row of the projector art.
fn art_row(f: usize, row: usize) -> (r: &'static str)
    requires
        f < 4,
        row < 15,
    ensures
        r@ == spec_art_row(f as nat, row as nat),
{
    if row == 0 {
        r"      .-------.             .-------.      "
    } else if row == 1 {
        if f == 0 {
            r"     /   _/_   \           /   _/_   \     "
        } else if f == 1 {
            r"     /   ___   \           /   ___   \     "
        } else if f == 2 {
            r"     /   _\_   \           /   _\_   \     "
        } else {
            r"     /   _|_   \           /   _|_   \     "
        }
    } else if row == 2 {
        if f == 0 {
            r"     |  ( / )  |===========|  ( / )  |     "
        } else if f == 1 {
            r"     |  ( - )  |===========|  ( - )  |     "
        } else if f == 2 {
            r"     |  ( \ )  |===========|  ( \ )  |     "
        } else {
            r"     |  ( | )  |===========|  ( | )  |     "
        }
    } else if row == 3 {
        if f == 0 {
            r"      \   \ /  /           \   \ /  /      "
        } else if f == 1 {
            r"      \   ___  /           \   ___  /      "
        } else if f == 2 {
            r"      \   /_\  /           \   /_\  /      "
        } else {
            r"      \   _|_  /           \   _|_  /      "
        }
    } else if row == 4 {
        r"       '-------'             '-------'       "
    } else if row == 5 {
        r"      __________|_____________|__________    "
    } else if row == 6 {
        r"     |          |             |          |   "
    } else if row == 7 {
        r"     |          |_____________|__________|   "
    } else if row == 8 {
        r"     |          |             |          |   "
    } else if row == 9 {
        if f == 0 || f == 2 {
            r"     |===>  . . .             |          |   "
        } else {
            r"     |===>  . .               |          |   "
        }
    } else if row == 10 {
        r"     |          |  ( ( O ) )  |          |   "
    } else if row == 11 {
        r"     |          |             |          |   "
    } else if row == 12 {
        r"     |__________|_____________|__________|   "
    } else if row == 13 {
        r"                |             |              "
    } else {
        r"                |_____________|              "
    }
}

/// Renders one full screen of the projector animation: the art block a
/// quarter of the free height down, empty lines elsewhere.
pub fn render_projector_frame(frame: usize, _width: usize, height: usize) -> (r: Vec<String>)
    ensures
        r@.len() == height,
        forall|y: int|
            0 <= y < height && spec_art_start(height as nat) <= y && y < spec_art_start(
                height as nat,
            ) + 15 ==> (#[trigger] r@[y])@ == spec_art_row(
                (frame % 4) as nat,
                (y - spec_art_start(height as nat)) as nat,
            ),
        forall|y: int|
            0 <= y < height && !(spec_art_start(height as nat) <= y && y < spec_art_start(
                height as nat,
            ) + 15) ==> (#[trigger] r@[y])@ == Seq::<char>::empty(),
{
    let f = frame % 4;
    let start: usize = if height >= 15 {
        (height - 15) / 4
    } else {
        0
    };
    let mut r: Vec<String> = Vec::new();
    let mut y: usize = 0;
    while y < height
        invariant
            y <= height,
            f == frame % 4,
            start == spec_art_start(height as nat),
            r@.len() == y,
            forall|j: int|
                0 <= j < y && start <= j && j < start + 15 ==> (#[trigger] r@[j])@
                    == spec_art_row(f as nat, (j - start) as nat),
            forall|j: int|
                0 <= j < y && !(start <= j && j < start + 15) ==> (#[trigger] r@[j])@
                    == Seq::<char>::empty(),
        decreases height - y,
    {
        if y >= start && y < start + 15 {
            r.push(String::from_str(art_row(f, y - start)));
        } else {
            r.push(String::new());
        }
        y = y + 1;
    }
    r
}

/// The animation frame for a playing screen.
pub fn get_animation_frames(frame: usize, w: usize, h: usize) -> (r: Vec<String>)
    ensures
        r@.len() == h,
{
    render_projector_frame(frame, w, h)
}

/// The still frame for a paused or idle screen.
pub fn get_static_frame(w: usize, h: usize) -> (r: Vec<String>)
    ensures
        r@.len() == h,
{
    render_projector_frame(0, w, h)
}

} // verus!
