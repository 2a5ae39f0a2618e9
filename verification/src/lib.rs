//! Chinese-script handling for transcription output, and the decisions that
//! route a transcription request between speech-recognition backends.

pub mod chinese;
pub mod transcription;
pub mod loading;
