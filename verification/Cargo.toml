[package]
name = "clap_allgen"
version = "0.1.0"
edition = "2021"
publish = false

[dependencies]
carapace_spec_clap = "=1.2.3"
clap = { version = "=4.6.7", features = ["derive", "string"] }
clap_complete = "=4.6.11"
clap_complete_fig = "=4.5.2"
clap_complete_nushell = "=4.6.2"
clap_mangen = "=0.3.3"
thiserror = "=2.0.21"
