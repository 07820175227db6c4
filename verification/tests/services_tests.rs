use moix::cli::{select_mode, Mode};
use moix::digest::{api_data, hash_text, to_hex, ApiData, PostData};
use moix::edge::{not_found, respond, route, BodyKind, EdgeError, Route};
use moix::voices::{find_voice, total_duration, voices_list};

#[test]
fn hex_is_lowercase_two_digits_per_byte() {
    assert_eq!(to_hex(&[0x00, 0x0f, 0xa5, 0xff]), "000fa5ff");
    assert_eq!(to_hex(&[]), "");
    assert_eq!(api_data(&[0xbe, 0xef]).hex, "beef");
    assert_eq!(ApiData::default().hex, "");
}

#[test]
fn blake3_of_empty_text() {
    let d = hash_text(&PostData { text: String::new() });
    assert_eq!(d.hex, "af1349b9f5f9a1a6a0404dea36dcc9499bcb25c9adc112b7cc9a93cae41f3262");
}

#[test]
fn blake3_of_abc() {
    let d = hash_text(&PostData { text: "abc".to_string() });
    assert_eq!(d.hex, "6437b3ac38465133ffb63b75273a8db548c558465d79db03fd359c6cd5bd9d85");
    assert_ne!(d.hex, to_hex(b"abc"));
}

#[test]
fn routes() {
    assert_eq!(route(true, "/"), Route::Home);
    assert_eq!(route(true, "/sitemap.txt"), Route::Sitemap);
    assert_eq!(route(false, "/"), Route::NotFound);
    assert_eq!(route(true, "/other"), Route::NotFound);
}

#[test]
fn replies() {
    let home = respond(true, "/", None).unwrap();
    assert_eq!((home.status, home.kind, home.body.as_str()), (200, BodyKind::Text, "Hello"));
    let map = respond(true, "/sitemap.txt", Some("moix.cc")).unwrap();
    assert_eq!((map.status, map.body.as_str()), (200, "moix.cc"));
    assert_eq!(respond(true, "/sitemap.txt", None).unwrap_err(), EdgeError::MissingHost);
    let page = respond(true, "/nope", None).unwrap();
    assert_eq!(
        (page.status, page.kind, page.body.as_str()),
        (404, BodyKind::Html, "<h1>404</h1><h2>Not found</h2><h3>/nope</h3>")
    );
    let post = not_found(false, "/x");
    assert_eq!((post.status, post.kind, post.body.as_str()), (404, BodyKind::Text, "404 Not Found\n/x"));
}

#[test]
fn us_voices_are_offered() {
    let voices = vec![
        Some("en-US-AriaNeural".to_string()),
        Some("en-GB-SoniaNeural".to_string()),
        Some("es-US-AlonsoNeural".to_string()),
    ];
    assert_eq!(
        voices_list(voices),
        vec!["en-US-AriaNeural".to_string(), "es-US-AlonsoNeural".to_string()]
    );
}

#[test]
fn selected_voice_is_found() {
    let voices = vec![None, Some("a".to_string()), Some("b".to_string()), Some("a".to_string())];
    assert_eq!(find_voice(&voices, "a"), Some(1));
    assert_eq!(find_voice(&voices, "b"), Some(2));
    assert_eq!(find_voice(&voices, "c"), None);
}

#[test]
fn durations_add_up() {
    assert_eq!(total_duration(&vec![]), 0);
    assert_eq!(total_duration(&vec![1_000, 250, 5]), 1_255);
}

#[test]
fn modes() {
    let args = |a: &str| vec!["streaming".to_string(), a.to_string()];
    assert_eq!(select_mode(&args("--chat")), Mode::Chat);
    assert_eq!(select_mode(&args("--avatar")), Mode::Avatar);
    assert_eq!(select_mode(&args("--other")), Mode::Idle);
}
