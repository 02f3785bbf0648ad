use vstd::prelude::*;

use crate::ctx::{effect_path, music_path, music_volume, AudioCommand};

verus! {

/// The message an audio worker receives: volume is in percent.
#[derive(Clone, Copy, Debug)]
pub enum Configuration {
    Play(u8, &'static str),
    Repeat(bool),
    Stop,
}

/// What an audio worker does with its output sink for one message.
#[derive(Clone, Copy, Debug)]
pub enum SinkAction {
    /// Leave the sink as it is.
    Keep,
    /// Silence the sink and start a fresh, empty one.
    Clear,
    /// Silence the sink, then play a file on a fresh one; loop it when `repeat`.
    Replace { volume: u8, path: &'static str, repeat: bool },
}

/// `c` is the message that plays `path` at `volume`.
pub open spec fn is_play(c: Configuration, volume: u8, path: Seq<char>) -> bool {
    match c {
        Configuration::Play(v, p) => v == volume && p@ == path,
        _ => false,
    }
}

/// The worker message for a command.
pub fn configuration(command: AudioCommand) -> (r: Configuration)
    ensures
        match command {
            AudioCommand::PlayEffect(e) => is_play(r, 100, effect_path(e)),
            AudioCommand::PlayMusic(m) => is_play(r, music_volume(m), music_path(m)),
            AudioCommand::StopMusic => r is Stop,
            AudioCommand::RepeatMusic(b) => r == Configuration::Repeat(b),
        },
{
    match command {
        AudioCommand::PlayEffect(e) => Configuration::Play(e.volume(), e.path()),
        AudioCommand::PlayMusic(m) => Configuration::Play(m.volume(), m.path()),
        AudioCommand::StopMusic => Configuration::Stop,
        AudioCommand::RepeatMusic(b) => Configuration::Repeat(b),
    }
}

/// One step of an audio worker: from its repeat flag and a message, the next
/// repeat flag and what to do with the sink. A new track always replaces the
/// current one, so the last command wins and tracks never overlap.
pub fn audio_step(repeat: bool, config: Configuration) -> (r: (bool, SinkAction))
    ensures
        match config {
            Configuration::Repeat(value) => r.0 == value && r.1 is Keep,
            Configuration::Stop => r.0 == repeat && r.1 is Clear,
            Configuration::Play(volume, path) => {
                &&& r.0 == repeat
                &&& match r.1 {
                    SinkAction::Replace { volume: v, path: p, repeat: looped } => {
                        v == volume && p@ == path@ && looped == repeat
                    },
                    _ => false,
                }
            },
        },
{
    match config {
        Configuration::Repeat(value) => (value, SinkAction::Keep),
        Configuration::Stop => (repeat, SinkAction::Clear),
        Configuration::Play(volume, path) => (repeat, SinkAction::Replace { volume, path, repeat }),
    }
}

} // verus!
