# handy

Chinese-script handling for speech-transcription output, and the decisions
that drive the transcription backends, verified with Verus.

- `src/chinese.rs`: script detection (`looks_chinese`) and Simplified ⇄
  Traditional conversion through the OpenCC rulesets of `ferrous-opencc`,
  per call or through a `ChineseConverter` that loads them once.
- `src/transcription.rs`: the language a backend is asked for (Qwen3-ASR,
  Whisper), the Chinese script a transcription ends in, and the joining and
  trimming of Whisper's segments; the laws of script enforcement are proof
  functions at the end of this file.
- `src/loading.rs`: model loading: catalogue checks, failure texts, the
  events the frontend is told of, and which model is current.
- `app/`: the transcription manager, which performs the outside work through a
  `Host` and drives the library's decisions, and the serialisable form of the
  model-state event.
