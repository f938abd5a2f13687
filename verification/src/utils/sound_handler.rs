//! The requests the simulation makes of the audio player. The simulation
//! only records them; whoever owns the audio device takes them and plays.

use vstd::prelude::*;

verus! {

/// Index of the background music in the sound table.
pub const SOUND_MUSIC: i32 = 0;

/// Index of the coin effect in the sound table.
pub const SOUND_COIN: i32 = 1;

/// Index of the power-up effect in the sound table.
pub const SOUND_POWER_UP: i32 = 2;

/// Index of the unlock effect in the sound table.
pub const SOUND_UNLOCK: i32 = 3;

/// Index of the fanfare in the sound table.
pub const SOUND_FANFARE: i32 = 4;

/// Index of the effect played when a monster is hit.
pub const SOUND_HIT_MONSTER: i32 = 5;

/// Index of the effect played when the player takes damage.
pub const SOUND_RECEIVE_DAMAGE: i32 = 6;

/// One request to the audio player.
#[derive(Debug, Clone, Copy, PartialEq, Eq, Structural)]
pub enum SoundRequest {
    /// Loop the sound with this index as background music.
    PlayMusic(i32),
    /// Stop the background music.
    StopMusic,
    /// Play the sound with this index once.
    PlayEffect(i32),
}

/// The sound table and the requests not yet taken by the audio player.
#[derive(Debug)]
pub struct SoundHandler {
    pub sounds: Vec<String>,
    pub requests: Vec<SoundRequest>,
}

impl Default for SoundHandler {
    fn default() -> (handler: SoundHandler)
        ensures
            handler.sounds@.len() == 7,
            handler.sounds@[0]@ == "/sound/BlueBoyAdventure.wav"@,
            handler.sounds@[1]@ == "/sound/coin.wav"@,
            handler.sounds@[2]@ == "/sound/powerup.wav"@,
            handler.sounds@[3]@ == "/sound/unlock.wav"@,
            handler.sounds@[4]@ == "/sound/fanfare.wav"@,
            handler.sounds@[5]@ == "/sound/hitmonster.wav"@,
            handler.sounds@[6]@ == "/sound/receivedamage.wav"@,
            handler.requests@.len() == 0,
    {
        let mut sounds: Vec<String> = Vec::new();
        sounds.push("/sound/BlueBoyAdventure.wav".to_owned());
        sounds.push("/sound/coin.wav".to_owned());
        sounds.push("/sound/powerup.wav".to_owned());
        sounds.push("/sound/unlock.wav".to_owned());
        sounds.push("/sound/fanfare.wav".to_owned());
        sounds.push("/sound/hitmonster.wav".to_owned());
        sounds.push("/sound/receivedamage.wav".to_owned());
        SoundHandler { sounds, requests: Vec::new() }
    }
}

impl SoundHandler {
    /// Asks for the sound with this index to be looped as background music.
    pub fn play_music(&mut self, index: i32)
        ensures
            final(self).sounds == old(self).sounds,
            final(self).requests@ == old(self).requests@.push(SoundRequest::PlayMusic(index)),
    {
        self.requests.push(SoundRequest::PlayMusic(index));
    }

    /// Asks for the background music to stop.
    pub fn stop_music(&mut self)
        ensures
            final(self).sounds == old(self).sounds,
            final(self).requests@ == old(self).requests@.push(SoundRequest::StopMusic),
    {
        self.requests.push(SoundRequest::StopMusic);
    }

    /// Asks for the sound with this index to be played once.
    pub fn play_sound_effect(&mut self, index: i32)
        ensures
            final(self).sounds == old(self).sounds,
            final(self).requests@ == old(self).requests@.push(SoundRequest::PlayEffect(index)),
    {
        self.requests.push(SoundRequest::PlayEffect(index));
    }

    /// Hands out the requests made so far, oldest first, and forgets them.
    pub fn take_requests(&mut self) -> (taken: Vec<SoundRequest>)
        ensures
            taken@ == old(self).requests@,
            final(self).requests@.len() == 0,
            final(self).sounds == old(self).sounds,
    {
        let mut taken: Vec<SoundRequest> = Vec::new();
        std::mem::swap(&mut taken, &mut self.requests);
        taken
    }
}

} // verus!
