pub mod alsa;
pub mod pipewire;
pub mod playback;
