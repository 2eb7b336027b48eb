use tgui_player::uri::{
    expand_uri, pipeline_description, playback_uri, uri_anchor, UriAnchor, UriError,
};

#[test]
fn anchors() {
    assert_eq!(uri_anchor("./a.mp4"), UriAnchor::WorkingDir);
    assert_eq!(uri_anchor("~/a.mp4"), UriAnchor::HomeDir);
    assert_eq!(uri_anchor("http://x/a.mp4"), UriAnchor::AsGiven);
    assert_eq!(uri_anchor("a.mp4"), UriAnchor::AsGiven);
    assert_eq!(uri_anchor("."), UriAnchor::AsGiven);
}

#[test]
fn expand_relative_to_working_dir() {
    assert_eq!(expand_uri("./a.mp4", "/data/v"), "file:///data/v/a.mp4");
}

#[test]
fn expand_relative_to_home() {
    assert_eq!(expand_uri("~/m/a.mp4", "/home/u"), "file:///home/u//m/a.mp4");
    assert_eq!(expand_uri("~a.mp4", "/home/u"), "file:///home/u/a.mp4");
}

#[test]
fn expand_leaves_other_locations() {
    assert_eq!(expand_uri("https://h/a.mp4", "/ignored"), "https://h/a.mp4");
}

#[test]
fn playback_uri_is_canonical() {
    assert_eq!(
        playback_uri("HTTP://Example.COM/a b.mp4", "").unwrap(),
        "http://example.com/a%20b.mp4"
    );
    assert_eq!(playback_uri("./a.mp4", "/data").unwrap(), "file:///data/a.mp4");
}

#[test]
fn playback_uri_refuses_relative_paths() {
    assert_eq!(playback_uri("a.mp4", "/data"), Err(UriError::NotAUrl));
    assert_eq!(playback_uri("", "/data"), Err(UriError::NotAUrl));
}

#[test]
fn pipeline_description_text() {
    assert_eq!(
        pipeline_description("file:///a.mp4"),
        "\nuridecodebin uri=file:///a.mp4 name=de\n    de. ! queue ! audioconvert ! audioresample ! autoaudiosink name=aud\n    de. ! queue ! videoconvert ! appsink name=vid\n"
    );
}
