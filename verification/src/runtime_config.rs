use vstd::prelude::*;

verus! {

/// Lowest frame rate a setting can select.
pub const MIN_FPS: u32 = 30;

/// Highest frame rate a setting can select.
pub const MAX_FPS: u32 = 120;

/// Streaming settings the phone can change while streaming.
#[derive(Debug, Clone)]
pub struct StreamRuntimeConfig {
    pub fps: u32,
    pub resolution_mode: String,
}

impl Default for StreamRuntimeConfig {
    /// 60 frames per second in the "default" resolution mode.
    fn default() -> (r: Self)
        ensures
            r.fps == 60,
            r.resolution_mode@ == "default"@,
    {
        StreamRuntimeConfig { fps: 60, resolution_mode: "default".to_owned() }
    }
}

/// `fps` limited to `MIN_FPS..=MAX_FPS`.
pub open spec fn clamped_fps(fps: u32) -> u32 {
    if fps < MIN_FPS {
        MIN_FPS
    } else if fps > MAX_FPS {
        MAX_FPS
    } else {
        fps
    }
}

/// A settings message as its texts: the resolution mode and the frame rate it carries.
pub type SettingMessage = (Option<Seq<char>>, Option<u32>);

/// Frame rate and resolution mode after applying one settings message.
pub open spec fn setting_step(cfg: (u32, Seq<char>), msg: SettingMessage) -> (u32, Seq<char>) {
    (
        match msg.1 {
            Some(f) => clamped_fps(f),
            None => cfg.0,
        },
        match msg.0 {
            Some(m) => m,
            None => cfg.1,
        },
    )
}

/// Frame rate and resolution mode after applying `msgs`, in order, to the defaults.
pub open spec fn settings_after(msgs: Seq<SettingMessage>) -> (u32, Seq<char>)
    decreases msgs.len(),
{
    if msgs.len() == 0 {
        (60, "default"@)
    } else {
        setting_step(settings_after(msgs.drop_last()), msgs.last())
    }
}

/// The frame rate of the last message in `msgs` that carries one.
pub open spec fn last_fps(msgs: Seq<SettingMessage>) -> Option<u32>
    decreases msgs.len(),
{
    if msgs.len() == 0 {
        None
    } else {
        match msgs.last().1 {
            Some(f) => Some(f),
            None => last_fps(msgs.drop_last()),
        }
    }
}

/// The resolution mode of the last message in `msgs` that carries one.
pub open spec fn last_mode(msgs: Seq<SettingMessage>) -> Option<Seq<char>>
    decreases msgs.len(),
{
    if msgs.len() == 0 {
        None
    } else {
        match msgs.last().0 {
            Some(m) => Some(m),
            None => last_mode(msgs.drop_last()),
        }
    }
}

/// After any sequence of settings messages, starting from the defaults, the frame rate is
/// the last one given, clamped to `MIN_FPS..=MAX_FPS`, or 60 when none was given, and the
/// resolution mode is the last one given, or "default"; so the frame rate always lies in
/// `MIN_FPS..=MAX_FPS`.
pub proof fn lemma_settings_after(msgs: Seq<SettingMessage>)
    ensures
        settings_after(msgs) == (
            match last_fps(msgs) {
                Some(f) => clamped_fps(f),
                None => 60,
            },
            match last_mode(msgs) {
                Some(m) => m,
                None => "default"@,
            },
        ),
        MIN_FPS <= settings_after(msgs).0 <= MAX_FPS,
    decreases msgs.len(),
{
    if msgs.len() > 0 {
        lemma_settings_after(msgs.drop_last());
    }
}

/// How far apart two frame rates are.
pub open spec fn fps_distance(a: u32, b: u32) -> int {
    if a < b {
        b - a
    } else {
        a - b
    }
}

/// A requested frame rate inside `MIN_FPS..=MAX_FPS` is taken exactly as requested; one
/// below is raised to `MIN_FPS` and one above is lowered to `MAX_FPS`. So the rate set is
/// the in-range rate nearest to the request, and two different in-range requests set two
/// different rates.
pub proof fn lemma_clamped_fps_nearest(f: u32, g: u32)
    ensures
        MIN_FPS <= f <= MAX_FPS ==> clamped_fps(f) == f,
        f < MIN_FPS ==> clamped_fps(f) == MIN_FPS,
        f > MAX_FPS ==> clamped_fps(f) == MAX_FPS,
        forall|x: u32|
            MIN_FPS <= x <= MAX_FPS ==> #[trigger] fps_distance(f, x) >= fps_distance(
                f,
                clamped_fps(f),
            ),
        MIN_FPS <= f <= MAX_FPS && MIN_FPS <= g <= MAX_FPS && f != g ==> clamped_fps(f)
            != clamped_fps(g),
{
}

/// The settings read from the shared configuration: a copy of them when they could be read
/// (`locked` is `Some`), the defaults otherwise.
pub fn get_stream_config(locked: Option<&StreamRuntimeConfig>) -> (r: StreamRuntimeConfig)
    ensures
        match locked {
            Some(c) => r.fps == c.fps && r.resolution_mode@ == c.resolution_mode@,
            None => r.fps == 60 && r.resolution_mode@ == "default"@,
        },
{
    match locked {
        Some(c) => StreamRuntimeConfig { fps: c.fps, resolution_mode: c.resolution_mode.clone() },
        None => StreamRuntimeConfig::default(),
    }
}

/// Applies a settings message: a frame rate, when given, is clamped to `MIN_FPS..=MAX_FPS`;
/// a resolution mode, when given, replaces the current one.
pub fn apply_setting(cfg: &mut StreamRuntimeConfig, resolution: Option<String>, fps: Option<u32>)
    ensures
        final(cfg).fps == (match fps {
            Some(f) => clamped_fps(f),
            None => old(cfg).fps,
        }),
        final(cfg).resolution_mode@ == (match resolution {
            Some(m) => m@,
            None => old(cfg).resolution_mode@,
        }),
        match fps {
            Some(f) => {
                &&& MIN_FPS <= f <= MAX_FPS ==> final(cfg).fps == f
                &&& f < MIN_FPS ==> final(cfg).fps == MIN_FPS
                &&& f > MAX_FPS ==> final(cfg).fps == MAX_FPS
            },
            None => final(cfg).fps == old(cfg).fps,
        },
        (final(cfg).fps, final(cfg).resolution_mode@) == setting_step(
            (old(cfg).fps, old(cfg).resolution_mode@),
            (
                match resolution {
                    Some(m) => Some(m@),
                    None => None,
                },
                fps,
            ),
        ),
{
    if let Some(fps_value) = fps {
        cfg.fps = if fps_value < MIN_FPS {
            MIN_FPS
        } else if fps_value > MAX_FPS {
            MAX_FPS
        } else {
            fps_value
        };
    }
    if let Some(mode) = resolution {
        cfg.resolution_mode = mode;
    }
}

/// A frame rate set by a settings message always lies in `MIN_FPS..=MAX_FPS`, and applying
/// the same message twice gives the same settings as applying it once.
pub proof fn lemma_setting_clamps_and_settles(f: u32)
    ensures
        MIN_FPS <= clamped_fps(f) <= MAX_FPS,
        clamped_fps(clamped_fps(f)) == clamped_fps(f),
{
}

} // verus!
