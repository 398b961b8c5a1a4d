//! The state of the player: what loading, pausing, seeking and the end of a song do to it, and what
//! the audio device is told to do.
use vstd::prelude::*;
use vstd::string::StringExecFns;
use crate::text;

verus! {

/// How far one step of seeking goes, in milliseconds.
pub const SEEK_STEP_MS: i64 = 5_000;

/// What the player is doing.
#[derive(Debug, Clone, Copy, PartialEq, Eq, Structural)]
pub enum PlaybackState {
    /// Nothing is loaded.
    Stopped,
    /// A song is being fetched or decoded.
    Loading,
    Playing,
    Paused,
}

impl Default for PlaybackState {
    fn default() -> (r: Self)
        ensures
            r == PlaybackState::Stopped,
    {
        PlaybackState::Stopped
    }
}

impl PlaybackState {
    /// The number that stands for a state.
    pub open spec fn number(self) -> u8 {
        match self {
            PlaybackState::Stopped => 0,
            PlaybackState::Loading => 1,
            PlaybackState::Playing => 2,
            PlaybackState::Paused => 3,
        }
    }

    /// The state that a number stands for; unknown numbers stand for the stopped player.
    pub open spec fn of_number(code: u8) -> PlaybackState {
        if code == 1 {
            PlaybackState::Loading
        } else if code == 2 {
            PlaybackState::Playing
        } else if code == 3 {
            PlaybackState::Paused
        } else {
            PlaybackState::Stopped
        }
    }

    /// The number that stands for this state.
    pub fn code(self) -> (r: u8)
        ensures
            r == self.number(),
    {
        match self {
            PlaybackState::Stopped => 0,
            PlaybackState::Loading => 1,
            PlaybackState::Playing => 2,
            PlaybackState::Paused => 3,
        }
    }

    /// The state that a number stands for; unknown numbers stand for the stopped player.
    pub fn from_code(code: u8) -> (r: PlaybackState)
        ensures
            r == PlaybackState::of_number(code),
    {
        match code {
            1 => PlaybackState::Loading,
            2 => PlaybackState::Playing,
            3 => PlaybackState::Paused,
            _ => PlaybackState::Stopped,
        }
    }

    /// The name of a state.
    pub open spec fn label_text(self) -> Seq<char> {
        match self {
            PlaybackState::Stopped => "已停止"@,
            PlaybackState::Loading => "缓冲中"@,
            PlaybackState::Playing => "播放中"@,
            PlaybackState::Paused => "已暂停"@,
        }
    }

    /// The name of this state.
    pub fn label(self) -> (r: &'static str)
        ensures
            r@ == self.label_text(),
    {
        match self {
            PlaybackState::Stopped => "已停止",
            PlaybackState::Loading => "缓冲中",
            PlaybackState::Playing => "播放中",
            PlaybackState::Paused => "已暂停",
        }
    }
}

/// The number of a state leads back to it.
pub proof fn numbers_lead_back(state: PlaybackState)
    ensures
        PlaybackState::of_number(state.number()) == state,
{
}

/// What the player reports.
#[derive(Debug)]
pub enum AudioEvent {
    /// A song is loaded; its length in milliseconds, 0 where it is not known.
    Ready { duration_ms: u64 },
    /// The song has come to its end.
    TrackFinished,
    /// The device or the decoder failed.
    Failed(String),
}

#[verifier::ext_equal]
pub enum AudioEventModel {
    Ready { duration_ms: u64 },
    TrackFinished,
    Failed(Seq<char>),
}

impl DeepView for AudioEvent {
    type V = AudioEventModel;

    open spec fn deep_view(&self) -> AudioEventModel {
        match self {
            AudioEvent::Ready { duration_ms } => AudioEventModel::Ready {
                duration_ms: *duration_ms,
            },
            AudioEvent::TrackFinished => AudioEventModel::TrackFinished,
            AudioEvent::Failed(words) => AudioEventModel::Failed(words@),
        }
    }
}

/// What the audio device is to do.
#[derive(Debug, Clone, Copy, PartialEq, Eq, Structural)]
pub enum DeviceOrder {
    /// Stop and forget what is queued.
    Reset,
    /// Queue the decoded song and play it.
    Start,
    Pause,
    Resume,
    /// Go to this place, in milliseconds.
    Seek(u64),
    /// Clear the levels that are shown.
    ClearLevels,
}

/// What came of opening and decoding a file.
#[derive(Debug)]
pub enum Opened {
    /// The file could not be opened; what the system says of it.
    Unreadable(String),
    /// The file could not be decoded; what the decoder says of it.
    Undecodable(String),
    /// The length that the decoder gives, in milliseconds, if it gives one.
    Decoded(Option<u64>),
}

/// The state of the player.
#[derive(Debug, Clone, Copy, PartialEq, Eq, Structural)]
pub struct Engine {
    pub state: PlaybackState,
    pub position_ms: u64,
    pub duration_ms: u64,
    /// A song is loaded.
    pub loaded: bool,
    /// The end of the song has been reported.
    pub finished_reported: bool,
}

/// A position as a signed number of 64 bits.
pub open spec fn signed(position_ms: u64) -> int {
    if position_ms <= i64::MAX {
        position_ms as int
    } else {
        position_ms - 0x1_0000_0000_0000_0000
    }
}

/// The place `delta_ms` away, not before the beginning.
pub open spec fn place_by(position_ms: u64, delta_ms: i64) -> u64 {
    let wanted = signed(position_ms) + delta_ms;
    if wanted < 0 {
        0
    } else if wanted > i64::MAX {
        i64::MAX as u64
    } else {
        wanted as u64
    }
}

/// A place in a song of the given length: before its end, where the length is known.
pub open spec fn place_within(position_ms: u64, duration_ms: u64) -> u64 {
    if duration_ms > 0 && position_ms > duration_ms - 1 {
        (duration_ms - 1) as u64
    } else {
        position_ms
    }
}

/// Moves a place by `delta_ms`, not before the beginning.
pub fn shifted(position_ms: u64, delta_ms: i64) -> (r: u64)
    ensures
        r == place_by(position_ms, delta_ms),
{
    let from: i128 = if position_ms <= i64::MAX as u64 {
        position_ms as i128
    } else {
        position_ms as i128 - 0x1_0000_0000_0000_0000
    };
    let wanted: i128 = from + delta_ms as i128;
    if wanted < 0 {
        0
    } else if wanted > i64::MAX as i128 {
        i64::MAX as u64
    } else {
        wanted as u64
    }
}

/// Brings a place into a song of the given length.
pub fn clamp_position(position_ms: u64, duration_ms: u64) -> (r: u64)
    ensures
        r == place_within(position_ms, duration_ms),
{
    if duration_ms > 0 && position_ms > duration_ms - 1 {
        duration_ms - 1
    } else {
        position_ms
    }
}

/// The length of a song: what the decoder gives, unless that is nothing; else what was expected.
pub open spec fn known_length(decoded: Option<u64>, expected_ms: u64) -> u64 {
    match decoded {
        Some(ms) if ms > 0 => ms,
        _ => expected_ms,
    }
}

impl Engine {
    /// The player without a song.
    pub fn new() -> (r: Engine)
        ensures
            r == (Engine {
                state: PlaybackState::Stopped,
                position_ms: 0,
                duration_ms: 0,
                loaded: false,
                finished_reported: true,
            }),
    {
        Engine {
            state: PlaybackState::Stopped,
            position_ms: 0,
            duration_ms: 0,
            loaded: false,
            finished_reported: true,
        }
    }

    /// A song is being fetched.
    pub fn mark_loading(&mut self)
        ensures
            *final(self) == (Engine {
                state: PlaybackState::Loading,
                position_ms: 0,
                ..*old(self)
            }),
    {
        self.state = PlaybackState::Loading;
        self.position_ms = 0;
    }

    /// The song that is to be loaded has this length, as far as is known before it is decoded.
    pub fn expect_length(&mut self, duration_ms: u64)
        ensures
            *final(self) == (Engine { duration_ms, ..*old(self) }),
    {
        self.duration_ms = duration_ms;
    }

    /// Begins to load a song: the old one goes, and its end must not be reported any more.
    pub fn begin_load(&mut self) -> (r: DeviceOrder)
        ensures
            r == DeviceOrder::Reset,
            *final(self) == (Engine { loaded: false, finished_reported: true, ..*old(self) }),
    {
        self.loaded = false;
        self.finished_reported = true;
        DeviceOrder::Reset
    }

    /// Goes on with loading once the file at `path` was opened and decoded, or not: what the device
    /// is to do, and what is reported.
    pub fn load(
        &mut self,
        path: &str,
        opened: Opened,
        start_at_ms: u64,
        expected_duration_ms: u64,
    ) -> (r: (Vec<DeviceOrder>, AudioEvent))
        ensures
            match opened {
                Opened::Unreadable(words) => {
                    &&& r.0@ == Seq::<DeviceOrder>::empty()
                    &&& r.1.deep_view() == AudioEventModel::Failed(
                        "打开音频文件 "@ + path@ + " 失败："@ + words@,
                    )
                    &&& *final(self) == old(self).failed()
                },
                Opened::Undecodable(words) => {
                    &&& r.0@ == Seq::<DeviceOrder>::empty()
                    &&& r.1.deep_view() == AudioEventModel::Failed(
                        "解码 "@ + path@ + " 失败："@ + words@
                            + "。该文件可能不是有效音频，或格式不受支持。"@,
                    )
                    &&& *final(self) == old(self).failed()
                },
                Opened::Decoded(length) => {
                    &&& r.0@ == if start_at_ms > 0 {
                        seq![DeviceOrder::Start, DeviceOrder::Seek(start_at_ms)]
                    } else {
                        seq![DeviceOrder::Start]
                    }
                    &&& r.1.deep_view() == (AudioEventModel::Ready {
                        duration_ms: known_length(length, expected_duration_ms),
                    })
                    &&& *final(self) == (Engine {
                        state: PlaybackState::Playing,
                        position_ms: start_at_ms,
                        duration_ms: known_length(length, expected_duration_ms),
                        loaded: true,
                        finished_reported: false,
                    })
                },
            },
    {
        let mut orders: Vec<DeviceOrder> = Vec::new();
        match opened {
            Opened::Unreadable(words) => {
                let mut message = text::join3("打开音频文件 ", path, " 失败：");
                message.append(words.as_str());
                (orders, self.report_failure(message))
            },
            Opened::Undecodable(words) => {
                let mut message = text::join3("解码 ", path, " 失败：");
                message.append(words.as_str());
                message.append("。该文件可能不是有效音频，或格式不受支持。");
                (orders, self.report_failure(message))
            },
            Opened::Decoded(length) => {
                let duration_ms: u64 = match length {
                    Some(ms) => if ms > 0 {
                        ms
                    } else {
                        expected_duration_ms
                    },
                    None => expected_duration_ms,
                };
                self.duration_ms = duration_ms;
                self.position_ms = start_at_ms;
                orders.push(DeviceOrder::Start);
                if start_at_ms > 0 {
                    orders.push(DeviceOrder::Seek(start_at_ms));
                    proof {
                        assert(orders@ =~= seq![
                            DeviceOrder::Start,
                            DeviceOrder::Seek(start_at_ms),
                        ]);
                    }
                } else {
                    proof {
                        assert(orders@ =~= seq![DeviceOrder::Start]);
                    }
                }
                self.loaded = true;
                self.finished_reported = false;
                self.state = PlaybackState::Playing;
                (orders, AudioEvent::Ready { duration_ms })
            },
        }
    }

    /// The player after a failure: nothing is loaded and no end will be reported, so that a broken
    /// file does not lead on to the next song.
    pub open spec fn failed(self) -> Engine {
        Engine {
            state: PlaybackState::Stopped,
            loaded: false,
            finished_reported: true,
            ..self
        }
    }

    /// Reports a failure.
    pub fn report_failure(&mut self, message: String) -> (r: AudioEvent)
        ensures
            r == AudioEvent::Failed(message),
            *final(self) == old(self).failed(),
    {
        self.loaded = false;
        self.finished_reported = true;
        self.state = PlaybackState::Stopped;
        AudioEvent::Failed(message)
    }

    /// Pauses or goes on, given whether the device is paused; nothing without a song.
    pub fn toggle(&mut self, device_paused: bool) -> (r: Option<DeviceOrder>)
        ensures
            !old(self).loaded ==> r is None && *final(self) == *old(self),
            old(self).loaded && device_paused ==> r == Some(DeviceOrder::Resume) && *final(self)
                == (Engine {
                state: PlaybackState::Playing,
                finished_reported: false,
                ..*old(self)
            }),
            old(self).loaded && !device_paused ==> r == Some(DeviceOrder::Pause) && *final(self)
                == (Engine { state: PlaybackState::Paused, ..*old(self) }),
    {
        if !self.loaded {
            return None;
        }
        if device_paused {
            self.state = PlaybackState::Playing;
            self.finished_reported = false;
            Some(DeviceOrder::Resume)
        } else {
            self.state = PlaybackState::Paused;
            Some(DeviceOrder::Pause)
        }
    }

    /// Stops and forgets the song.
    pub fn stop(&mut self) -> (r: [DeviceOrder; 2])
        ensures
            r@ == seq![DeviceOrder::Reset, DeviceOrder::ClearLevels],
            *final(self) == (Engine {
                state: PlaybackState::Stopped,
                position_ms: 0,
                duration_ms: 0,
                loaded: false,
                finished_reported: true,
            }),
    {
        self.loaded = false;
        self.finished_reported = true;
        self.position_ms = 0;
        self.duration_ms = 0;
        self.state = PlaybackState::Stopped;
        let r = [DeviceOrder::Reset, DeviceOrder::ClearLevels];
        proof {
            assert(r@ =~= seq![DeviceOrder::Reset, DeviceOrder::ClearLevels]);
        }
        r
    }

    /// The place to which the device is to go for a wish to be at `position_ms`; none without a song.
    pub fn seek_to(&self, position_ms: u64) -> (r: Option<u64>)
        ensures
            r == if self.loaded {
                Some(place_within(position_ms, self.duration_ms))
            } else {
                None
            },
    {
        if !self.loaded {
            return None;
        }
        Some(clamp_position(position_ms, self.duration_ms))
    }

    /// The place to which the device is to go for a wish to move by `delta_ms`; none without a song.
    pub fn seek_by(&self, delta_ms: i64) -> (r: Option<u64>)
        ensures
            r == if self.loaded {
                Some(place_within(place_by(self.position_ms, delta_ms), self.duration_ms))
            } else {
                None
            },
    {
        self.seek_to(shifted(self.position_ms, delta_ms))
    }

    /// Takes in whether the device has gone to `target`.
    pub fn seek_done(&mut self, target: u64, succeeded: bool)
        ensures
            *final(self) == if succeeded {
                Engine { position_ms: target, finished_reported: false, ..*old(self) }
            } else {
                *old(self)
            },
    {
        if succeeded {
            self.position_ms = target;
            self.finished_reported = false;
        }
    }

    /// The player once the device has been looked at.
    pub open spec fn synced(self, position_ms: u64, paused: bool, drained: bool) -> Engine {
        if !self.loaded {
            self
        } else if drained && !paused {
            if self.finished_reported {
                Engine { position_ms, ..self }
            } else {
                Engine {
                    position_ms,
                    finished_reported: true,
                    loaded: false,
                    state: PlaybackState::Stopped,
                    ..self
                }
            }
        } else {
            Engine {
                position_ms,
                state: if paused {
                    PlaybackState::Paused
                } else {
                    PlaybackState::Playing
                },
                ..self
            }
        }
    }

    /// Whether looking at the device shows that the song has come to its end.
    pub open spec fn ends(self, paused: bool, drained: bool) -> bool {
        self.loaded && drained && !paused && !self.finished_reported
    }

    /// Looks at the device: where it is, whether it is paused and whether nothing is left to play.
    pub fn sync(&mut self, position_ms: u64, paused: bool, drained: bool) -> (r: Option<AudioEvent>)
        ensures
            *final(self) == old(self).synced(position_ms, paused, drained),
            match r {
                Some(event) => old(self).ends(paused, drained) && event.deep_view()
                    == AudioEventModel::TrackFinished,
                None => !old(self).ends(paused, drained),
            },
    {
        if !self.loaded {
            return None;
        }
        self.position_ms = position_ms;
        if drained && !paused {
            if !self.finished_reported {
                self.finished_reported = true;
                self.loaded = false;
                self.state = PlaybackState::Stopped;
                return Some(AudioEvent::TrackFinished);
            }
            return None;
        }
        self.state = if paused {
            PlaybackState::Paused
        } else {
            PlaybackState::Playing
        };
        None
    }
}

/// The end of a song is reported once: after it has been, looking at the device reports nothing.
pub proof fn the_end_is_reported_once(
    engine: Engine,
    position_ms: u64,
    later_ms: u64,
    paused: bool,
    drained: bool,
)
    requires
        engine.ends(false, true),
    ensures
        !engine.synced(position_ms, false, true).ends(paused, drained),
        engine.synced(position_ms, false, true).synced(later_ms, paused, drained) == engine.synced(
            position_ms,
            false,
            true,
        ),
{
}

/// A failure is never taken for the end of a song.
pub proof fn failures_do_not_lead_on(engine: Engine, paused: bool, drained: bool)
    ensures
        !engine.failed().ends(paused, drained),
{
}

/// A place that is sought lies in the song, where its length is known.
pub proof fn sought_places_lie_in_the_song(position_ms: u64, delta_ms: i64, duration_ms: u64)
    requires
        duration_ms > 0,
    ensures
        place_within(position_ms, duration_ms) < duration_ms,
        place_within(place_by(position_ms, delta_ms), duration_ms) < duration_ms,
{
}

/// Moving in a song moves by exactly so much, but never before its beginning; a place that is named is
/// gone to as it is, or to the end.
pub proof fn moves_are_exact(position_ms: u64, delta_ms: i64, duration_ms: u64)
    requires
        position_ms <= i64::MAX,
    ensures
        0 <= position_ms + delta_ms <= i64::MAX ==> place_by(position_ms, delta_ms) == position_ms
            + delta_ms,
        position_ms + delta_ms < 0 ==> place_by(position_ms, delta_ms) == 0,
        position_ms < duration_ms || duration_ms == 0 ==> place_within(position_ms, duration_ms)
            == position_ms,
        0 < duration_ms <= position_ms ==> place_within(position_ms, duration_ms) == duration_ms
            - 1,
{
}

/// Looking at the device shows where it is and whether it is paused; a song ends exactly where nothing
/// is left to play of one that is loaded and not paused.
pub proof fn the_device_is_followed(engine: Engine, position_ms: u64, paused: bool, drained: bool)
    requires
        engine.loaded,
    ensures
        engine.synced(position_ms, paused, drained).position_ms == position_ms,
        paused ==> engine.synced(position_ms, paused, drained).state == PlaybackState::Paused,
        !paused && !drained ==> engine.synced(position_ms, paused, drained).state
            == PlaybackState::Playing,
        engine.ends(paused, drained) <==> drained && !paused && !engine.finished_reported,
        engine.ends(paused, drained) ==> engine.synced(position_ms, paused, drained).state
            == PlaybackState::Stopped,
{
}

} // verus!
