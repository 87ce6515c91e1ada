use the_media_organizer::config::{Config, ConfigBuilder};
use the_media_organizer::errors::ErrorKind;

#[test]
fn builder_collects_the_set_destinations() {
    let config = ConfigBuilder::new("media".to_string())
        .with_photos_dst("photos".to_string())
        .with_videos_dst("videos".to_string())
        .build()
        .unwrap();
    assert_eq!(config.media_src, "media");
    assert_eq!(config.photos_dst, "photos");
    assert_eq!(config.videos_dst, "videos");
}

#[test]
fn one_destination_is_enough() {
    let config = ConfigBuilder::new("media".to_string())
        .with_videos_dst("videos".to_string())
        .build()
        .unwrap();
    assert_eq!(config.photos_dst, "");
    assert_eq!(config.videos_dst, "videos");
}

#[test]
fn missing_both_videos_and_photos_is_refused() {
    let err = ConfigBuilder::new("media".to_string()).build().unwrap_err();
    assert_eq!(err.kind, ErrorKind::Configuration);
    assert_eq!(
        err.describe(),
        "at least one of photos_dst or videos_dst shouldn't be empty"
    );
}

#[test]
fn config_new_validates_directly() {
    assert!(Config::new("m".to_string(), "p".to_string(), String::new()).is_ok());
    assert!(Config::new("m".to_string(), String::new(), String::new()).is_err());
}
