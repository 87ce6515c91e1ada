[package]
name = "the_media_organizer"
version = "0.1.0"
edition = "2021"
publish = false

[dependencies]
kamadak-exif = "*"
clap = "2"
color-eyre = "*"
directories = "*"
viperus = "*"

[dev-dependencies]
regex = "*"
