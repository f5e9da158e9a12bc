use hls_fetch::episode::{output_path, transcoder_args, Config, Episode};
use hls_fetch::error::PipelineError;

#[test]
fn episode_title_defaults_to_unknown() {
    let e = Episode::from_fields(None, Some("http://h/x.m3u8".to_string())).unwrap();
    assert_eq!(e.title, "Unknown");
    assert_eq!(e.stream_url, "http://h/x.m3u8");
    let e = Episode::from_fields(Some("Morning News".to_string()), Some("u".to_string())).unwrap();
    assert_eq!(e.title, "Morning News");
}

#[test]
fn episode_without_stream_url_is_missing_data() {
    assert!(matches!(
        Episode::from_fields(Some("t".to_string()), None),
        Err(PipelineError::MissingData)
    ));
}

#[test]
fn config_requires_url_and_defaults_directory() {
    assert!(matches!(Config::from_fields(None, None), Err(PipelineError::MissingData)));
    assert!(matches!(
        Config::from_fields(Some(String::new()), Some("out".to_string())),
        Err(PipelineError::MissingData)
    ));
    let c = Config::from_fields(Some("http://feed".to_string()), None).unwrap();
    assert_eq!(c.url, "http://feed");
    assert_eq!(c.output_dir, "downloads");
    let c = Config::from_fields(Some("http://feed".to_string()), Some("out".to_string())).unwrap();
    assert_eq!(c.output_dir, "out");
}

#[test]
fn output_path_replaces_spaces() {
    assert_eq!(output_path("downloads", "Morning News  Today"), "downloads/Morning_News__Today.mp3");
    assert_eq!(output_path("d", ""), "d/.mp3");
}

#[test]
fn transcoder_arguments_are_fixed() {
    assert_eq!(
        transcoder_args("/tmp/in.aac", "out/x.mp3"),
        vec!["-f", "aac", "-i", "/tmp/in.aac", "-acodec", "libmp3lame", "-b:a", "128k", "out/x.mp3"]
    );
}
