[package]
name = "microblog"
version = "0.1.0"
edition = "2021"
publish = false

[dependencies]
actix-web = { version = "=4.18.1", default-features = false, features = ["macros"] }
bcrypt = "=0.19.3"
chrono = { version = "=0.4.45", features = ["serde"] }
diesel = { version = "=2.3.14", features = ["postgres", "r2d2", "chrono"] }
dotenv = "=0.15.0"
futures-util = "=0.3.34"
jwt-simple = { version = "=0.12.17", default-features = false, features = ["pure-rust"] }
serde = { version = "=1.0.229", features = ["derive"] }
serde_json = "=1.0.154"
utoipa = { version = "=6.0.0", features = ["actix_extras", "chrono"] }
utoipa-swagger-ui = { version = "=10.0.2", features = ["actix-web", "vendored"] }
