//! The session supervisor: one mutable record and the transition
//! functions that reconcile user commands, remote status events, the
//! progress tick, the watchdog tick, and late probe results.  Each
//! transition returns the action the caller must carry out (send a
//! message, reload a playlist entry, reopen the transport, quit);
//! the exact next state is stated by a spec transition function, and the
//! safety laws (the premature-finish guard, the pause-timer discipline,
//! the seek-offset/transcoding tie, and time monotonicity) are stated as
//! further clauses.
//!
//! All times are in milliseconds: wall-clock parameters (`now_ms`) come
//! from the caller's clock, playback positions from the device.  Volume
//! and torrent progress are in permille.

use vstd::prelude::*;

use crate::tui::TuiCommand;

verus! {

/// How long playback may sit without progress before the watchdog
/// reloads the source.
pub const WATCHDOG_STALL_MS: u64 = 30000;

/// How long the Waiting state may last before an automatic reload.
pub const WAITING_RETRY_MS: u64 = 10000;

/// How far from the known end a FINISHED report counts as premature.
pub const PREMATURE_GUARD_MS: u64 = 10000;

/// Auto-buffering: pause below this margin (permille of the duration).
pub const BUFFER_UNDERRUN_PERMILLE: u64 = 5;

/// Auto-buffering: resume above this margin (permille of the duration).
pub const BUFFER_RESUME_PERMILLE: u64 = 20;

/// One step of the volume keys, in permille.
pub const VOLUME_STEP_PERMILLE: u32 = 50;

/// The supervisor's playback status.
#[derive(Clone, Copy, Debug, PartialEq, Eq, Structural)]
pub enum PlaybackStatus {
    Idle,
    Playing,
    Buffering,
    Waiting,
    Finished,
    Reconnecting,
}

/// The player state a MEDIA_STATUS reports.
#[derive(Clone, Copy, Debug, PartialEq, Eq, Structural)]
pub enum RemotePlayerState {
    Playing,
    Paused,
    Buffering,
    Idle,
}

/// Why the remote went idle.
#[derive(Clone, Copy, Debug, PartialEq, Eq, Structural)]
pub enum IdleReason {
    Finished,
    Error,
    Interrupted,
    Cancelled,
}

/// The fields of a MEDIA_STATUS the supervisor consumes.
#[derive(Clone, Copy, Debug, PartialEq, Eq, Structural)]
pub struct MediaStatusEvent {
    pub media_session_id: i32,
    pub player_state: RemotePlayerState,
    pub idle_reason: Option<IdleReason>,
    pub current_time_ms: u64,
    pub volume_permille: Option<u32>,
    pub muted: Option<bool>,
}

/// What a transition asks the caller to do.
#[derive(Clone, Copy, Debug, PartialEq, Eq, Structural)]
pub enum Action {
    /// Nothing to carry out.
    Stay,
    /// Send PAUSE for the session.
    SendPause { media_session_id: i32 },
    /// Send PLAY for the session.
    SendPlay { media_session_id: i32 },
    /// Send SEEK to an absolute position.
    SendSeek { media_session_id: i32, position_ms: u64 },
    /// Send SET_VOLUME with a new level.
    SendSetVolume { permille: u32 },
    /// Send SET_VOLUME with a new mute flag.
    SendSetMute { muted: bool },
    /// Load the playlist entry at `index`, starting `start_ms` in.
    Load { index: usize, start_ms: u64 },
    /// Tear down and rebuild the wire transport.
    ReopenTransport,
    /// Leave the session.
    Quit,
}

/// What applying a load did: whether the encoder runs, how far it was
/// fast-forwarded, and what the probe knew.
pub struct LoadOutcome {
    pub is_transcoding: bool,
    pub seek_offset_ms: u64,
    pub duration_ms: Option<u64>,
    pub video_codec: Option<String>,
    pub audio_codec: Option<String>,
    pub torrent_active: bool,
}

/// The supervisor's record.
#[derive(Clone, Debug)]
pub struct SupervisorState {
    pub playlist_len: usize,
    pub loop_playlist: bool,
    pub current_idx: usize,
    pub status: PlaybackStatus,
    pub media_session_id: Option<i32>,
    pub is_transcoding: bool,
    pub seek_offset_ms: u64,
    pub current_time_ms: u64,
    pub last_known_time_ms: u64,
    pub last_update_at_ms: u64,
    pub pause_start_at_ms: Option<u64>,
    pub total_duration_ms: Option<u64>,
    pub video_codec: Option<String>,
    pub audio_codec: Option<String>,
    pub volume_permille: u32,
    pub is_muted: bool,
    pub torrent_active: bool,
    pub torrent_progress_permille: Option<u32>,
    pub animation_frame: u64,
}

/// Saturating addition.
pub open spec fn sat_add(a: u64, b: u64) -> u64 {
    if a + b > u64::MAX {
        u64::MAX
    } else {
        (a + b) as u64
    }
}

/// Saturating addition.
pub fn sat_add_exec(a: u64, b: u64) -> (r: u64)
    ensures
        r == sat_add(a, b),
{
    if a > u64::MAX - b {
        u64::MAX
    } else {
        a + b
    }
}

impl SupervisorState {
    /// The record's invariant: the playlist is non-empty and the index
    /// stays inside it; the encoder offset is only ever non-zero while
    /// transcoding; a Waiting status always carries its timer; the
    /// last genuinely-reported time never runs ahead of the position;
    /// the volume stays within scale.
    pub open spec fn wf(self) -> bool {
        &&& self.playlist_len > 0
        &&& self.current_idx < self.playlist_len
        &&& (self.seek_offset_ms != 0 ==> self.is_transcoding)
        &&& (self.status is Waiting ==> self.pause_start_at_ms is Some)
        &&& self.last_known_time_ms <= self.current_time_ms
        &&& self.volume_permille <= 1000
    }

    /// The record at session start.
    pub fn new(playlist_len: usize, loop_playlist: bool, now_ms: u64) -> (r: Self)
        requires
            playlist_len > 0,
        ensures
            r.wf(),
            r.playlist_len == playlist_len,
            r.loop_playlist == loop_playlist,
            r.current_idx == 0,
            r.status is Idle,
            r.media_session_id is None,
            !r.is_transcoding,
            r.seek_offset_ms == 0,
            r.current_time_ms == 0,
            r.last_known_time_ms == 0,
            r.last_update_at_ms == now_ms,
            r.pause_start_at_ms is None,
            r.total_duration_ms is None,
            r.video_codec is None,
            r.audio_codec is None,
            r.volume_permille == 1000,
            !r.is_muted,
            !r.torrent_active,
            r.torrent_progress_permille is None,
            r.animation_frame == 0,
    {
        SupervisorState {
            playlist_len,
            loop_playlist,
            current_idx: 0,
            status: PlaybackStatus::Idle,
            media_session_id: None,
            is_transcoding: false,
            seek_offset_ms: 0,
            current_time_ms: 0,
            last_known_time_ms: 0,
            last_update_at_ms: now_ms,
            pause_start_at_ms: None,
            total_duration_ms: None,
            video_codec: None,
            audio_codec: None,
            volume_permille: 1000,
            is_muted: false,
            torrent_active: false,
            torrent_progress_permille: None,
            animation_frame: 0,
        }
    }

    /// The session id commands address: the last observed one, or 1.
    pub open spec fn spec_sid(self) -> i32 {
        match self.media_session_id {
            Some(s) => s,
            None => 1,
        }
    }

    fn sid(&self) -> (r: i32)
        ensures
            r == self.spec_sid(),
    {
        match self.media_session_id {
            Some(s) => s,
            None => 1,
        }
    }

    /// Applies what a finished load established.  A fresh load (a new
    /// entry, or a user seek) moves the clock to the encoder offset; a
    /// recovery reload keeps the position.
    pub fn on_load_applied(&mut self, now_ms: u64, fresh: bool, outcome: LoadOutcome)
        requires
            old(self).wf(),
            outcome.seek_offset_ms != 0 ==> outcome.is_transcoding,
        ensures
            final(self).wf(),
            final(self).is_transcoding == outcome.is_transcoding,
            final(self).seek_offset_ms == outcome.seek_offset_ms,
            final(self).current_time_ms == (if fresh {
                outcome.seek_offset_ms
            } else {
                old(self).current_time_ms
            }),
            final(self).last_known_time_ms == final(self).current_time_ms,
            final(self).last_update_at_ms == now_ms,
            final(self).total_duration_ms == outcome.duration_ms,
            final(self).video_codec == outcome.video_codec,
            final(self).audio_codec == outcome.audio_codec,
            final(self).torrent_active == outcome.torrent_active,
            final(self).status == old(self).status,
            final(self).current_idx == old(self).current_idx,
            final(self).playlist_len == old(self).playlist_len,
            final(self).pause_start_at_ms == old(self).pause_start_at_ms,
            final(self).media_session_id == old(self).media_session_id,
            final(self).volume_permille == old(self).volume_permille,
            // the whole record, exactly: nothing else moves
            *final(self) == (SupervisorState {
                is_transcoding: outcome.is_transcoding,
                seek_offset_ms: outcome.seek_offset_ms,
                current_time_ms: if fresh {
                    outcome.seek_offset_ms
                } else {
                    old(self).current_time_ms
                },
                last_known_time_ms: if fresh {
                    outcome.seek_offset_ms
                } else {
                    old(self).current_time_ms
                },
                last_update_at_ms: now_ms,
                total_duration_ms: outcome.duration_ms,
                video_codec: outcome.video_codec,
                audio_codec: outcome.audio_codec,
                torrent_active: outcome.torrent_active,
                torrent_progress_permille: if outcome.torrent_active {
                    old(self).torrent_progress_permille
                } else {
                    None
                },
                ..*old(self)
            }),
    {
        self.is_transcoding = outcome.is_transcoding;
        self.seek_offset_ms = outcome.seek_offset_ms;
        if fresh {
            self.current_time_ms = outcome.seek_offset_ms;
        }
        self.last_known_time_ms = self.current_time_ms;
        self.last_update_at_ms = now_ms;
        self.total_duration_ms = outcome.duration_ms;
        self.video_codec = outcome.video_codec;
        self.audio_codec = outcome.audio_codec;
        self.torrent_active = outcome.torrent_active;
        if !outcome.torrent_active {
            self.torrent_progress_permille = None;
        }
    }

    /// True when a FINISHED report at this position counts as premature:
    /// the known end is still more than the guard away.
    pub open spec fn premature_finish(self, reported_ms: u64) -> bool {
        match self.total_duration_ms {
            Some(t) => t > 0 && t > sat_add(reported_ms, PREMATURE_GUARD_MS as u64),
            None => false,
        }
    }

    /// Consumes one MEDIA_STATUS event.  The position becomes the
    /// reported time plus the encoder offset, and never moves backwards;
    /// the watchdog clock advances when the position genuinely moved.
    /// PAUSED while self-induced Buffering keeps Buffering; any other
    /// PAUSED, an ERROR/INTERRUPTED idle, or a premature FINISHED enters
    /// Waiting with the timer set; a true FINISHED advances the playlist
    /// (or wraps when looping) and asks for a load.
    #[verifier::rlimit(100)]
    pub fn on_media_status(&mut self, now_ms: u64, ev: &MediaStatusEvent) -> (a: Action)
        requires
            old(self).wf(),
        ensures
            final(self).wf(),
            // the position is monotone under status reports
            final(self).current_time_ms >= old(self).current_time_ms,
            // the premature-finish guard: never advance the playlist early
            (ev.player_state is Idle && ev.idle_reason == Some(IdleReason::Finished)
                && old(self).premature_finish(
                sat_add(
                    ev.current_time_ms,
                    if old(self).is_transcoding {
                        old(self).seek_offset_ms
                    } else {
                        0
                    },
                ),
            )) ==> (final(self).status is Waiting
                && final(self).current_idx == old(self).current_idx && !(a is Load)),
            // a set pause timer survives anything but a PLAYING report
            (old(self).pause_start_at_ms is Some && !(ev.player_state is Playing))
                ==> final(self).pause_start_at_ms is Some,
            // the whole step, exactly
            ({
                let (s2, a2) = spec_media_status_step(*old(self), now_ms, *ev);
                *final(self) == s2 && a == a2
            }),
    {
        proof {
            lemma_media_status_laws(*old(self), now_ms, *ev);
        }
        let offset: u64 = if self.is_transcoding {
            self.seek_offset_ms
        } else {
            0
        };
        let new_time = sat_add_exec(ev.current_time_ms, offset);
        if new_time > self.current_time_ms {
            self.current_time_ms = new_time;
        }
        if self.current_time_ms > sat_add_exec(self.last_known_time_ms, 100) {
            self.last_known_time_ms = self.current_time_ms;
            self.last_update_at_ms = now_ms;
        }
        self.media_session_id = Some(ev.media_session_id);
        match ev.volume_permille {
            Some(v) => {
                self.volume_permille = if v > 1000 {
                    1000
                } else {
                    v
                };
            },
            None => {},
        }
        match ev.muted {
            Some(m) => {
                self.is_muted = m;
            },
            None => {},
        }
        proof {
            assert(*self == spec_status_common(*old(self), now_ms, *ev));
        }
        let ghost s1 = spec_status_common(*old(self), now_ms, *ev);
        match ev.player_state {
            RemotePlayerState::Playing => {
                self.status = PlaybackStatus::Playing;
                self.pause_start_at_ms = None;
                proof {
                    assert(*self == SupervisorState {
                        status: PlaybackStatus::Playing,
                        pause_start_at_ms: None,
                        ..s1
                    });
                }
                Action::Stay
            },
            RemotePlayerState::Paused => {
                if self.status == PlaybackStatus::Buffering {
                    Action::Stay
                } else {
                    self.status = PlaybackStatus::Waiting;
                    if self.pause_start_at_ms.is_none() {
                        self.pause_start_at_ms = Some(now_ms);
                    }
                    proof {
                        assert(*self == SupervisorState {
                            status: PlaybackStatus::Waiting,
                            pause_start_at_ms: match s1.pause_start_at_ms {
                                Some(t) => Some(t),
                                None => Some(now_ms),
                            },
                            ..s1
                        });
                    }
                    Action::Stay
                }
            },
            RemotePlayerState::Buffering => {
                self.status = PlaybackStatus::Buffering;
                Action::Stay
            },
            RemotePlayerState::Idle => {
                self.status = PlaybackStatus::Idle;
                match ev.idle_reason {
                    Some(IdleReason::Error) | Some(IdleReason::Interrupted) => {
                        self.status = PlaybackStatus::Waiting;
                        if self.pause_start_at_ms.is_none() {
                            self.pause_start_at_ms = Some(now_ms);
                        }
                        proof {
                            assert(*self == SupervisorState {
                                status: PlaybackStatus::Waiting,
                                pause_start_at_ms: match s1.pause_start_at_ms {
                                    Some(t) => Some(t),
                                    None => Some(now_ms),
                                },
                                ..s1
                            });
                        }
                        Action::Stay
                    },
                    Some(IdleReason::Finished) => {
                        let premature = match self.total_duration_ms {
                            Some(t) => t > 0 && t > sat_add_exec(new_time, PREMATURE_GUARD_MS),
                            None => false,
                        };
                        proof {
                            assert(premature == old(self).premature_finish(
                                sat_add(
                                    ev.current_time_ms,
                                    if old(self).is_transcoding {
                                        old(self).seek_offset_ms
                                    } else {
                                        0
                                    },
                                ),
                            ));
                        }
                        if premature {
                            self.status = PlaybackStatus::Waiting;
                            if self.pause_start_at_ms.is_none() {
                                self.pause_start_at_ms = Some(now_ms);
                            }
                            proof {
                                assert(*self == SupervisorState {
                                    status: PlaybackStatus::Waiting,
                                    pause_start_at_ms: match s1.pause_start_at_ms {
                                        Some(t) => Some(t),
                                        None => Some(now_ms),
                                    },
                                    ..s1
                                });
                            }
                            Action::Stay
                        } else {
                            let next = self.current_idx + 1;
                            if next < self.playlist_len {
                                self.current_idx = next;
                                Action::Load { index: next, start_ms: 0 }
                            } else if self.loop_playlist {
                                self.current_idx = 0;
                                Action::Load { index: 0, start_ms: 0 }
                            } else {
                                Action::Stay
                            }
                        }
                    },
                    _ => Action::Stay,
                }
            },
        }
    }

    /// Carries out one user command: play/pause toggling, playlist
    /// motion, seeks (tearing the encoder down when transcoding), volume
    /// steps, stop, reconnect, quit.
    #[verifier::rlimit(100)]
    pub fn on_user_command(&mut self, now_ms: u64, cmd: TuiCommand) -> (a: Action)
        requires
            old(self).wf(),
        ensures
            final(self).wf(),
            // a set pause timer survives every command but a resume: an
            // explicit play, or a toggle that lands on the play side
            (old(self).pause_start_at_ms is Some && !(cmd is Play) && !(cmd is TogglePlay
                && !(old(self).status is Playing || old(self).status is Buffering)))
                ==> final(self).pause_start_at_ms is Some,
            // a seek while transcoding respawns the encoder at the target
            cmd matches TuiCommand::SeekForward(sec) ==> (old(self).is_transcoding ==> a == (
            Action::Load {
                index: old(self).current_idx,
                start_ms: sat_add(old(self).current_time_ms, sat_mul_1000(sec)),
            })),
            ({
                let (s2, a2) = spec_user_command_step(*old(self), now_ms, cmd);
                *final(self) == s2 && a == a2
            }),
    {
        let sid = self.sid();
        match cmd {
            TuiCommand::TogglePlay => {
                if self.status == PlaybackStatus::Playing || self.status
                    == PlaybackStatus::Buffering {
                    self.status = PlaybackStatus::Waiting;
                    self.pause_start_at_ms = Some(now_ms);
                    Action::SendPause { media_session_id: sid }
                } else {
                    self.status = PlaybackStatus::Playing;
                    self.pause_start_at_ms = None;
                    self.last_update_at_ms = now_ms;
                    Action::SendPlay { media_session_id: sid }
                }
            },
            TuiCommand::Pause => {
                self.status = PlaybackStatus::Waiting;
                self.pause_start_at_ms = Some(now_ms);
                Action::SendPause { media_session_id: sid }
            },
            TuiCommand::Play => {
                self.status = PlaybackStatus::Playing;
                self.pause_start_at_ms = None;
                Action::SendPlay { media_session_id: sid }
            },
            TuiCommand::Next => {
                if self.current_idx + 1 < self.playlist_len {
                    self.current_idx = self.current_idx + 1;
                    Action::Load { index: self.current_idx, start_ms: 0 }
                } else {
                    Action::Stay
                }
            },
            TuiCommand::Previous => {
                if self.current_idx > 0 {
                    self.current_idx = self.current_idx - 1;
                    Action::Load { index: self.current_idx, start_ms: 0 }
                } else {
                    Action::Stay
                }
            },
            TuiCommand::SeekForward(sec) => {
                let delta = sat_mul_1000_exec(sec);
                let nt = sat_add_exec(self.current_time_ms, delta);
                if self.is_transcoding {
                    Action::Load { index: self.current_idx, start_ms: nt }
                } else {
                    self.current_time_ms = nt;
                    self.last_known_time_ms = nt;
                    self.last_update_at_ms = now_ms;
                    Action::SendSeek { media_session_id: sid, position_ms: nt }
                }
            },
            TuiCommand::SeekBackward(sec) => {
                let delta = sat_mul_1000_exec(sec);
                let nt = if self.current_time_ms > delta {
                    self.current_time_ms - delta
                } else {
                    0
                };
                if self.is_transcoding {
                    Action::Load { index: self.current_idx, start_ms: nt }
                } else {
                    self.current_time_ms = nt;
                    self.last_known_time_ms = nt;
                    self.last_update_at_ms = now_ms;
                    Action::SendSeek { media_session_id: sid, position_ms: nt }
                }
            },
            TuiCommand::VolumeUp => {
                let nv = if self.volume_permille + VOLUME_STEP_PERMILLE > 1000 {
                    1000
                } else {
                    self.volume_permille + VOLUME_STEP_PERMILLE
                };
                self.volume_permille = nv;
                Action::SendSetVolume { permille: nv }
            },
            TuiCommand::VolumeDown => {
                let nv = if self.volume_permille > VOLUME_STEP_PERMILLE {
                    self.volume_permille - VOLUME_STEP_PERMILLE
                } else {
                    0
                };
                self.volume_permille = nv;
                Action::SendSetVolume { permille: nv }
            },
            TuiCommand::ToggleMute => {
                self.is_muted = !self.is_muted;
                Action::SendSetMute { muted: self.is_muted }
            },
            TuiCommand::Stop => {
                self.status = PlaybackStatus::Finished;
                self.torrent_active = false;
                self.torrent_progress_permille = None;
                Action::SendPause { media_session_id: sid }
            },
            TuiCommand::Reconnect => {
                self.status = PlaybackStatus::Reconnecting;
                Action::ReopenTransport
            },
            TuiCommand::Quit => Action::Quit,
        }
    }

    /// One tick of the watchdog clock: a Waiting state older than the
    /// retry interval, or a Playing state whose position has not moved
    /// within the stall limit, asks for a reload at the current position.
    pub fn on_watchdog_tick(&mut self, now_ms: u64) -> (a: Action)
        requires
            old(self).wf(),
        ensures
            final(self).wf(),
            final(self).current_time_ms == old(self).current_time_ms,
            // the stall guard: playback that sat still too long reloads now
            (!(old(self).status is Waiting) && old(self).status is Playing && now_ms > sat_add(
                old(self).last_update_at_ms,
                WATCHDOG_STALL_MS as u64,
            )) ==> a == (Action::Load {
                index: old(self).current_idx,
                start_ms: old(self).current_time_ms,
            }),
            ({
                let (s2, a2) = spec_watchdog_step(*old(self), now_ms);
                *final(self) == s2 && a == a2
            }),
    {
        if self.status == PlaybackStatus::Waiting {
            let expired = match self.pause_start_at_ms {
                Some(t) => now_ms > sat_add_exec(t, WAITING_RETRY_MS),
                None => false,
            };
            if expired {
                self.pause_start_at_ms = Some(now_ms);
                return Action::Load { index: self.current_idx, start_ms: self.current_time_ms };
            }
            return Action::Stay;
        }
        if self.status == PlaybackStatus::Playing && now_ms > sat_add_exec(
            self.last_update_at_ms,
            WATCHDOG_STALL_MS,
        ) {
            return Action::Load { index: self.current_idx, start_ms: self.current_time_ms };
        }
        Action::Stay
    }

    /// One animation/progress tick: the clock advances while playing,
    /// torrent progress is recorded, and the auto-buffering rule pauses
    /// below the underrun margin and resumes above the resume margin or
    /// at a finished download.
    #[verifier::rlimit(100)]
    pub fn on_progress_tick(&mut self, now_ms: u64, torrent: Option<(u64, u64)>) -> (a: Action)
        requires
            old(self).wf(),
        ensures
            final(self).wf(),
            final(self).current_time_ms >= old(self).current_time_ms,
            // auto-buffering pauses exactly on an underrun while playing
            a is SendPause <==> (torrent matches Some((pb, tb)) && tb > 0
                && (match old(self).total_duration_ms {
                Some(td) => td > 0 && {
                    let have_pm = (pb * 1000) / (tb as int);
                    let played_pm = (spec_ticked_time(*old(self)) * 1000) / (td as int);
                    have_pm < played_pm + BUFFER_UNDERRUN_PERMILLE && have_pm < 1000 && old(
                        self,
                    ).status is Playing
                },
                None => false,
            })),
            // and resumes exactly at margin or completion while buffering
            a is SendPlay <==> (torrent matches Some((pb, tb)) && tb > 0
                && (match old(self).total_duration_ms {
                Some(td) => td > 0 && {
                    let have_pm = (pb * 1000) / (tb as int);
                    let played_pm = (spec_ticked_time(*old(self)) * 1000) / (td as int);
                    !(have_pm < played_pm + BUFFER_UNDERRUN_PERMILLE && have_pm < 1000 && old(
                        self,
                    ).status is Playing) && (have_pm > played_pm + BUFFER_RESUME_PERMILLE
                        || have_pm >= 1000) && old(self).status is Buffering
                },
                None => false,
            })),
            ({
                let (s2, a2) = spec_progress_step(*old(self), now_ms, torrent);
                *final(self) == s2 && a == a2
            }),
    {
        if self.animation_frame == u64::MAX {
            self.animation_frame = 0;
        } else {
            self.animation_frame = self.animation_frame + 1;
        }
        if self.status == PlaybackStatus::Playing {
            self.current_time_ms = sat_add_exec(self.current_time_ms, 150);
        }
        let (pb, tb) = match torrent {
            Some(p) => p,
            None => {
                return Action::Stay;
            },
        };
        if tb == 0 {
            return Action::Stay;
        }
        let have_w: u128 = (pb as u128) * 1000 / (tb as u128);
        let have_store: u32 = if have_w >= 1000 {
            1000
        } else {
            have_w as u32
        };
        self.torrent_progress_permille = Some(have_store);
        let td = match self.total_duration_ms {
            Some(td) => td,
            None => {
                return Action::Stay;
            },
        };
        if td == 0 {
            return Action::Stay;
        }
        let sid = self.sid();
        let played_w: u128 = (self.current_time_ms as u128) * 1000 / (td as u128);
        if have_w < played_w + (BUFFER_UNDERRUN_PERMILLE as u128) && have_w < 1000 && self.status
            == PlaybackStatus::Playing {
            self.status = PlaybackStatus::Buffering;
            Action::SendPause { media_session_id: sid }
        } else if (have_w > played_w + (BUFFER_RESUME_PERMILLE as u128) || have_w >= 1000)
            && self.status == PlaybackStatus::Buffering {
            self.status = PlaybackStatus::Playing;
            self.last_update_at_ms = now_ms;
            Action::SendPlay { media_session_id: sid }
        } else {
            Action::Stay
        }
    }

    /// Merges a late probe result: only what it knows overwrites.
    pub fn on_probe_completed(
        &mut self,
        duration_ms: Option<u64>,
        video_codec: Option<String>,
        audio_codec: Option<String>,
    )
        requires
            old(self).wf(),
        ensures
            final(self).wf(),
            final(self).total_duration_ms == (if duration_ms is Some {
                duration_ms
            } else {
                old(self).total_duration_ms
            }),
            final(self).video_codec == (if video_codec is Some {
                video_codec
            } else {
                old(self).video_codec
            }),
            final(self).audio_codec == (if audio_codec is Some {
                audio_codec
            } else {
                old(self).audio_codec
            }),
            // the whole record, exactly: every other field stays
            *final(self) == (SupervisorState {
                total_duration_ms: if duration_ms is Some {
                    duration_ms
                } else {
                    old(self).total_duration_ms
                },
                video_codec: if video_codec is Some {
                    video_codec
                } else {
                    old(self).video_codec
                },
                audio_codec: if audio_codec is Some {
                    audio_codec
                } else {
                    old(self).audio_codec
                },
                ..*old(self)
            }),
    {
        if duration_ms.is_some() {
            self.total_duration_ms = duration_ms;
        }
        if video_codec.is_some() {
            self.video_codec = video_codec;
        }
        if audio_codec.is_some() {
            self.audio_codec = audio_codec;
        }
    }

    /// Mirrors a RECEIVER_STATUS: the platform-wide volume and mute it
    /// reports replace the local mirror, clamped into scale; nothing
    /// else moves.
    pub fn on_receiver_status(&mut self, volume_permille: Option<u32>, muted: Option<bool>)
        requires
            old(self).wf(),
        ensures
            final(self).wf(),
            *final(self) == (SupervisorState {
                volume_permille: match volume_permille {
                    Some(v) => if v > 1000 {
                        1000u32
                    } else {
                        v
                    },
                    None => old(self).volume_permille,
                },
                is_muted: match muted {
                    Some(m) => m,
                    None => old(self).is_muted,
                },
                ..*old(self)
            }),
    {
        match volume_permille {
            Some(v) => {
                self.volume_permille = if v > 1000 {
                    1000
                } else {
                    v
                };
            },
            None => {},
        }
        match muted {
            Some(m) => {
                self.is_muted = m;
            },
            None => {},
        }
    }

    /// Notes how a reconnect attempt ended: failure falls back to Idle,
    /// success waits for the next status report.
    pub fn on_reconnect_result(&mut self, ok: bool)
        requires
            old(self).wf(),
        ensures
            final(self).wf(),
            ok ==> *final(self) == *old(self),
            !ok ==> *final(self) == (SupervisorState {
                status: PlaybackStatus::Idle,
                ..*old(self)
            }),
    {
        if !ok {
            self.status = PlaybackStatus::Idle;
        }
    }
}


/// A seconds count turned into milliseconds, saturating.
pub open spec fn sat_mul_1000(sec: u64) -> u64 {
    if sec * 1000 > u64::MAX {
        u64::MAX
    } else {
        (sec * 1000) as u64
    }
}

/// A seconds count turned into milliseconds, saturating.
pub fn sat_mul_1000_exec(sec: u64) -> (r: u64)
    ensures
        r == sat_mul_1000(sec),
{
    if sec > u64::MAX / 1000 {
        u64::MAX
    } else {
        sec * 1000
    }
}

/// The user-command transition, as mathematics.
pub open spec fn spec_user_command_step(
    s: SupervisorState,
    now_ms: u64,
    cmd: TuiCommand,
) -> (SupervisorState, Action) {
    let sid = s.spec_sid();
    match cmd {
        TuiCommand::TogglePlay => if s.status is Playing || s.status is Buffering {
            (
                SupervisorState {
                    status: PlaybackStatus::Waiting,
                    pause_start_at_ms: Some(now_ms),
                    ..s
                },
                Action::SendPause { media_session_id: sid },
            )
        } else {
            (
                SupervisorState {
                    status: PlaybackStatus::Playing,
                    pause_start_at_ms: None,
                    last_update_at_ms: now_ms,
                    ..s
                },
                Action::SendPlay { media_session_id: sid },
            )
        },
        TuiCommand::Pause => (
            SupervisorState {
                status: PlaybackStatus::Waiting,
                pause_start_at_ms: Some(now_ms),
                ..s
            },
            Action::SendPause { media_session_id: sid },
        ),
        TuiCommand::Play => (
            SupervisorState { status: PlaybackStatus::Playing, pause_start_at_ms: None, ..s },
            Action::SendPlay { media_session_id: sid },
        ),
        TuiCommand::Next => if s.current_idx + 1 < s.playlist_len {
            (
                SupervisorState { current_idx: (s.current_idx + 1) as usize, ..s },
                Action::Load { index: (s.current_idx + 1) as usize, start_ms: 0 },
            )
        } else {
            (s, Action::Stay)
        },
        TuiCommand::Previous => if s.current_idx > 0 {
            (
                SupervisorState { current_idx: (s.current_idx - 1) as usize, ..s },
                Action::Load { index: (s.current_idx - 1) as usize, start_ms: 0 },
            )
        } else {
            (s, Action::Stay)
        },
        TuiCommand::SeekForward(sec) => {
            let nt = sat_add(s.current_time_ms, sat_mul_1000(sec));
            if s.is_transcoding {
                (s, Action::Load { index: s.current_idx, start_ms: nt })
            } else {
                (
                    SupervisorState {
                        current_time_ms: nt,
                        last_known_time_ms: nt,
                        last_update_at_ms: now_ms,
                        ..s
                    },
                    Action::SendSeek { media_session_id: sid, position_ms: nt },
                )
            }
        },
        TuiCommand::SeekBackward(sec) => {
            let d = sat_mul_1000(sec);
            let nt = if s.current_time_ms > d {
                (s.current_time_ms - d) as u64
            } else {
                0u64
            };
            if s.is_transcoding {
                (s, Action::Load { index: s.current_idx, start_ms: nt })
            } else {
                (
                    SupervisorState {
                        current_time_ms: nt,
                        last_known_time_ms: nt,
                        last_update_at_ms: now_ms,
                        ..s
                    },
                    Action::SendSeek { media_session_id: sid, position_ms: nt },
                )
            }
        },
        TuiCommand::VolumeUp => {
            let nv = if s.volume_permille + VOLUME_STEP_PERMILLE > 1000 {
                1000u32
            } else {
                (s.volume_permille + VOLUME_STEP_PERMILLE) as u32
            };
            (
                SupervisorState { volume_permille: nv, ..s },
                Action::SendSetVolume { permille: nv },
            )
        },
        TuiCommand::VolumeDown => {
            let nv = if s.volume_permille > VOLUME_STEP_PERMILLE {
                (s.volume_permille - VOLUME_STEP_PERMILLE) as u32
            } else {
                0u32
            };
            (
                SupervisorState { volume_permille: nv, ..s },
                Action::SendSetVolume { permille: nv },
            )
        },
        TuiCommand::ToggleMute => (
            SupervisorState { is_muted: !s.is_muted, ..s },
            Action::SendSetMute { muted: !s.is_muted },
        ),
        TuiCommand::Stop => (
            SupervisorState {
                status: PlaybackStatus::Finished,
                torrent_active: false,
                torrent_progress_permille: None,
                ..s
            },
            Action::SendPause { media_session_id: sid },
        ),
        TuiCommand::Reconnect => (
            SupervisorState { status: PlaybackStatus::Reconnecting, ..s },
            Action::ReopenTransport,
        ),
        TuiCommand::Quit => (s, Action::Quit),
    }
}

/// The watchdog transition, as mathematics.
pub open spec fn spec_watchdog_step(s: SupervisorState, now_ms: u64) -> (SupervisorState, Action) {
    if s.status is Waiting {
        if (match s.pause_start_at_ms {
            Some(t) => now_ms > sat_add(t, WAITING_RETRY_MS as u64),
            None => false,
        }) {
            (
                SupervisorState { pause_start_at_ms: Some(now_ms), ..s },
                Action::Load { index: s.current_idx, start_ms: s.current_time_ms },
            )
        } else {
            (s, Action::Stay)
        }
    } else if s.status is Playing && now_ms > sat_add(s.last_update_at_ms, WATCHDOG_STALL_MS as u64) {
        (s, Action::Load { index: s.current_idx, start_ms: s.current_time_ms })
    } else {
        (s, Action::Stay)
    }
}

/// The clock after one animation tick.
pub open spec fn spec_ticked_time(s: SupervisorState) -> int {
    if s.status is Playing {
        sat_add(s.current_time_ms, 150) as int
    } else {
        s.current_time_ms as int
    }
}

/// The progress-tick transition, as mathematics.
pub open spec fn spec_progress_step(
    s: SupervisorState,
    now_ms: u64,
    torrent: Option<(u64, u64)>,
) -> (SupervisorState, Action) {
    let s1 = SupervisorState {
        animation_frame: if s.animation_frame == u64::MAX {
            0u64
        } else {
            (s.animation_frame + 1) as u64
        },
        current_time_ms: if s.status is Playing {
            sat_add(s.current_time_ms, 150)
        } else {
            s.current_time_ms
        },
        ..s
    };
    match torrent {
        None => (s1, Action::Stay),
        Some((pb, tb)) => if tb == 0 {
            (s1, Action::Stay)
        } else {
            let have_pm = (pb * 1000) / (tb as int);
            let s2 = SupervisorState {
                torrent_progress_permille: Some(
                    if have_pm >= 1000 {
                        1000u32
                    } else {
                        have_pm as u32
                    },
                ),
                ..s1
            };
            match s.total_duration_ms {
                Some(td) => if td > 0 {
                    let played_pm = (s1.current_time_ms * 1000) / (td as int);
                    if have_pm < played_pm + BUFFER_UNDERRUN_PERMILLE && have_pm < 1000
                        && s2.status is Playing {
                        (
                            SupervisorState { status: PlaybackStatus::Buffering, ..s2 },
                            Action::SendPause { media_session_id: s.spec_sid() },
                        )
                    } else if (have_pm > played_pm + BUFFER_RESUME_PERMILLE || have_pm >= 1000)
                        && s2.status is Buffering {
                        (
                            SupervisorState {
                                status: PlaybackStatus::Playing,
                                last_update_at_ms: now_ms,
                                ..s2
                            },
                            Action::SendPlay { media_session_id: s.spec_sid() },
                        )
                    } else {
                        (s2, Action::Stay)
                    }
                } else {
                    (s2, Action::Stay)
                },
                None => (s2, Action::Stay),
            }
        },
    }
}

/// The shared first half of the MEDIA_STATUS transition: the clock,
/// session id and volume updates every report applies.
pub open spec fn spec_status_common(
    s: SupervisorState,
    now_ms: u64,
    ev: MediaStatusEvent,
) -> SupervisorState {
    let offset: u64 = if s.is_transcoding {
        s.seek_offset_ms
    } else {
        0
    };
    let new_time = sat_add(ev.current_time_ms, offset);
    let time = if new_time > s.current_time_ms {
        new_time
    } else {
        s.current_time_ms
    };
    let moved = time > sat_add(s.last_known_time_ms, 100);
    SupervisorState {
        current_time_ms: time,
        last_known_time_ms: if moved {
            time
        } else {
            s.last_known_time_ms
        },
        last_update_at_ms: if moved {
            now_ms
        } else {
            s.last_update_at_ms
        },
        media_session_id: Some(ev.media_session_id),
        volume_permille: match ev.volume_permille {
            Some(v) => if v > 1000 {
                1000
            } else {
                v
            },
            None => s.volume_permille,
        },
        is_muted: match ev.muted {
            Some(m) => m,
            None => s.is_muted,
        },
        ..s
    }
}

/// The MEDIA_STATUS transition, as mathematics: the state after the
/// event and the action it requires.
pub open spec fn spec_media_status_step(
    s: SupervisorState,
    now_ms: u64,
    ev: MediaStatusEvent,
) -> (SupervisorState, Action) {
    let offset: u64 = if s.is_transcoding {
        s.seek_offset_ms
    } else {
        0
    };
    let new_time = sat_add(ev.current_time_ms, offset);
    let s1 = spec_status_common(s, now_ms, ev);
    match ev.player_state {
        RemotePlayerState::Playing => (
            SupervisorState { status: PlaybackStatus::Playing, pause_start_at_ms: None, ..s1 },
            Action::Stay,
        ),
        RemotePlayerState::Paused => if s1.status is Buffering {
            (s1, Action::Stay)
        } else {
            (
                SupervisorState {
                    status: PlaybackStatus::Waiting,
                    pause_start_at_ms: match s1.pause_start_at_ms {
                        Some(t) => Some(t),
                        None => Some(now_ms),
                    },
                    ..s1
                },
                Action::Stay,
            )
        },
        RemotePlayerState::Buffering => (
            SupervisorState { status: PlaybackStatus::Buffering, ..s1 },
            Action::Stay,
        ),
        RemotePlayerState::Idle => match ev.idle_reason {
            Some(IdleReason::Error) | Some(IdleReason::Interrupted) => (
                SupervisorState {
                    status: PlaybackStatus::Waiting,
                    pause_start_at_ms: match s1.pause_start_at_ms {
                        Some(t) => Some(t),
                        None => Some(now_ms),
                    },
                    ..s1
                },
                Action::Stay,
            ),
            Some(IdleReason::Finished) => if s.premature_finish(new_time) {
                (
                    SupervisorState {
                        status: PlaybackStatus::Waiting,
                        pause_start_at_ms: match s1.pause_start_at_ms {
                            Some(t) => Some(t),
                            None => Some(now_ms),
                        },
                        ..s1
                    },
                    Action::Stay,
                )
            } else {
                if s.current_idx + 1 < s.playlist_len {
                    (
                        SupervisorState {
                            status: PlaybackStatus::Idle,
                            current_idx: (s.current_idx + 1) as usize,
                            ..s1
                        },
                        Action::Load { index: (s.current_idx + 1) as usize, start_ms: 0 },
                    )
                } else if s.loop_playlist {
                    (
                        SupervisorState { status: PlaybackStatus::Idle, current_idx: 0, ..s1 },
                        Action::Load { index: 0, start_ms: 0 },
                    )
                } else {
                    (SupervisorState { status: PlaybackStatus::Idle, ..s1 }, Action::Stay)
                }
            },
            _ => (SupervisorState { status: PlaybackStatus::Idle, ..s1 }, Action::Stay),
        },
    }
}

/// The laws the MEDIA_STATUS transition keeps: well-formedness, a
/// monotone clock, the premature-finish guard, and the pause-timer
/// discipline.
#[verifier::rlimit(100)]
pub proof fn lemma_media_status_laws(s: SupervisorState, now_ms: u64, ev: MediaStatusEvent)
    requires
        s.wf(),
    ensures
        ({
            let (s2, a2) = spec_media_status_step(s, now_ms, ev);
            &&& s2.wf()
            &&& s2.current_time_ms >= s.current_time_ms
            &&& ((ev.player_state is Idle && ev.idle_reason == Some(IdleReason::Finished)
                && s.premature_finish(
                sat_add(
                    ev.current_time_ms,
                    if s.is_transcoding {
                        s.seek_offset_ms
                    } else {
                        0
                    },
                ),
            )) ==> (s2.status is Waiting && s2.current_idx == s.current_idx && !(a2 is Load)))
            &&& ((s.pause_start_at_ms is Some && !(ev.player_state is Playing))
                ==> s2.pause_start_at_ms is Some)
        }),
{
}

} // verus!
