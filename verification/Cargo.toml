[package]
name = "toolchat"
version = "0.1.0"
edition = "2021"
publish = false

[dependencies]
serde_json = "=1.0.151"
chrono = "=0.4.45"
async-openai = { version = "=0.42.1", features = ["chat-completion"] }
http_req = "=0.14.6"
tokio = { version = "=1.53.2", features = ["macros", "rt", "sync"] }
dotenv = "=0.15.0"
log = "*"
once_cell = "*"
slack-flows = "=0.3.4"
store-flows = "=0.3.2"
web-scraper-flows = "=0.1.0"
flowsnet-platform-sdk = "=0.1.6"
