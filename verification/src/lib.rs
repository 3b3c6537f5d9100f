pub mod led;
pub mod media_definition;
pub mod player;
pub mod resampler;
pub mod rfid;
pub mod rotary_encoder;
pub mod save_state;
pub mod session;
pub mod sound;
pub mod time;
pub mod volume;
