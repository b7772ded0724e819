[package]
name = "client_desk"
version = "0.1.0"
edition = "2021"
publish = false

[dependencies]
axum = { version = "=0.7.9", features = ["ws"] }
chrono = "=0.4.45"
env_logger = "=0.11.11"
log = "=0.4.35"
ort = { version = "=2.0.0-rc.10", default-features = false, features = ["alternative-backend"] }
rustvani = { version = "=0.3.0", default-features = false, features = ["vad-silero", "transport-websocket", "stt-sarvam", "llm-openai", "tts-deepgram", "dhara"] }
serde_json = "=1.0.154"
sqlx = { version = "=0.8.6", default-features = false, features = ["runtime-tokio", "postgres", "chrono", "uuid", "derive"] }
tokio = { version = "=1.54.1", features = ["full"] }
tower-http = { version = "=0.5.2", features = ["cors"] }
uuid = "=1.29.0"
