use music_importer::external::ParsedUrl;
use music_importer::importer::{
    audio_file_name, check_suno_song_url, is_suno_host, validate_suno_song_url, ImportError,
};
use music_importer::metadata::{
    import_from_page, metadata_from_page, page_facts, parse_metadata_from_html, LdJsonFields,
    PageFacts,
};

#[test]
fn validates_only_suno_song_urls() {
    assert!(validate_suno_song_url("https://suno.com/song/abc").is_ok());
    assert!(validate_suno_song_url("https://app.suno.com/song/abc").is_ok());

    assert!(matches!(
        validate_suno_song_url("notaurl"),
        Err(ImportError::InvalidUrl)
    ));
    assert!(matches!(
        validate_suno_song_url("https://example.com/song/abc"),
        Err(ImportError::UnsupportedHost)
    ));
    assert!(matches!(
        validate_suno_song_url("https://suno.com/playlist/abc"),
        Err(ImportError::UnsupportedHost)
    ));
}

#[test]
fn extracts_metadata_from_html() {
    let html = r#"
        <html>
          <head>
            <title>  Minha Música  </title>
            <meta property='og:title' content='Minha Música OG'>
            <meta property='og:audio' content='https://cdn.suno.com/audio.mp3'>
            <meta name='description' content='  Letra resumida  '>
            <script type='application/ld+json'>
              {"lyrics": "Verso 1   Verso 2"}
            </script>
          </head>
        </html>
        "#;

    let song = parse_metadata_from_html("https://suno.com/song/abc", html);

    assert_eq!(song.title.as_deref(), Some("Minha Música OG"));
    assert_eq!(
        song.audio_url.as_deref(),
        Some("https://cdn.suno.com/audio.mp3")
    );
    assert_eq!(song.lyrics.as_deref(), Some("Letra resumida"));
}

#[test]
fn validation_trims_and_normalises_the_address() {
    let u = validate_suno_song_url("  https://SUNO.com/song/abc  ").unwrap();
    assert_eq!(u.as_str(), "https://suno.com/song/abc");
    assert_eq!(u.host.as_deref(), Some("suno.com"));
    assert_eq!(u.path, "/song/abc");
}

#[test]
fn validation_refuses_look_alike_hosts() {
    assert!(matches!(
        validate_suno_song_url("https://notsuno.com/song/abc"),
        Err(ImportError::UnsupportedHost)
    ));
    assert!(matches!(
        validate_suno_song_url("https://suno.com.evil.net/song/abc"),
        Err(ImportError::UnsupportedHost)
    ));
    assert!(matches!(
        validate_suno_song_url("https://suno.com/songs/abc"),
        Err(ImportError::UnsupportedHost)
    ));
    assert!(matches!(validate_suno_song_url("   "), Err(ImportError::InvalidUrl)));
    assert!(matches!(
        validate_suno_song_url("http://suno.com/song/abc"),
        Err(ImportError::UnsupportedHost)
    ));
    assert!(matches!(
        validate_suno_song_url("ftp://suno.com/song/abc"),
        Err(ImportError::UnsupportedHost)
    ));
    assert!(validate_suno_song_url("HTTPS://suno.com/song/abc").is_ok());
    assert!(matches!(
        validate_suno_song_url("mailto:someone@suno.com"),
        Err(ImportError::UnsupportedHost)
    ));
}

#[test]
fn host_check() {
    assert!(is_suno_host("suno.com"));
    assert!(is_suno_host("cdn.app.suno.com"));
    assert!(!is_suno_host(".suno.co"));
    assert!(!is_suno_host("xsuno.com"));
    assert!(!is_suno_host(""));
}

fn url(host: Option<&str>, path: &str) -> ParsedUrl {
    ParsedUrl {
        serialization: format!("https://{}{}", host.unwrap_or(""), path),
        host: host.map(|h| h.to_string()),
        path: path.to_string(),
    }
}

#[test]
fn check_of_parsed_addresses() {
    assert!(matches!(check_suno_song_url(None), Err(ImportError::InvalidUrl)));
    let ok = check_suno_song_url(Some(url(Some("suno.com"), "/song/x"))).unwrap();
    assert_eq!(ok.path, "/song/x");
    assert!(matches!(
        check_suno_song_url(Some(url(None, "/song/x"))),
        Err(ImportError::UnsupportedHost)
    ));
    assert!(matches!(
        check_suno_song_url(Some(url(Some("suno.com"), "/song"))),
        Err(ImportError::UnsupportedHost)
    ));
    let http = ParsedUrl {
        serialization: "http://suno.com/song/x".to_string(),
        host: Some("suno.com".to_string()),
        path: "/song/x".to_string(),
    };
    assert!(matches!(check_suno_song_url(Some(http)), Err(ImportError::UnsupportedHost)));
}

#[test]
fn error_messages() {
    assert_eq!(ImportError::InvalidUrl.message(), "URL inválida");
    assert_eq!(
        ImportError::UnsupportedHost.message(),
        "Apenas links de música do Suno são aceitos"
    );
    assert_eq!(
        ImportError::Download("timeout".to_string()).message(),
        "Falha ao baixar página: timeout"
    );
}

fn fields(
    lyrics: Option<&str>,
    article_body: Option<&str>,
    description: Option<&str>,
    audio: Option<&str>,
) -> Option<LdJsonFields> {
    Some(LdJsonFields {
        lyrics: lyrics.map(String::from),
        article_body: article_body.map(String::from),
        description: description.map(String::from),
        audio_content_url: audio.map(String::from),
    })
}

fn page(
    og_title: Option<&str>,
    title_text: Option<&str>,
    og_audio: Option<&str>,
    description: Option<&str>,
    ld_json: Vec<Option<LdJsonFields>>,
) -> PageFacts {
    PageFacts {
        og_title: og_title.map(String::from),
        title_text: title_text.map(String::from),
        og_audio: og_audio.map(String::from),
        description: description.map(String::from),
        ld_json,
    }
}

#[test]
fn title_falls_back_to_title_element() {
    let p = page(Some("   "), Some("  Song\n Name "), None, None, vec![]);
    let song = metadata_from_page("u", &p);
    assert_eq!(song.source_url, "u");
    assert_eq!(song.title.as_deref(), Some("Song Name"));
    assert_eq!(song.lyrics, None);
    assert_eq!(song.audio_url, None);
}

#[test]
fn lyrics_come_from_first_present_json_field() {
    let p = page(
        None,
        None,
        None,
        None,
        vec![None, fields(None, Some(" body  text "), Some("desc"), None)],
    );
    let song = metadata_from_page("u", &p);
    assert_eq!(song.lyrics.as_deref(), Some("body text"));
    assert_eq!(song.title, None);
}

#[test]
fn blank_lyrics_field_does_not_fall_back() {
    let p = page(
        None,
        None,
        None,
        None,
        vec![
            fields(Some("   "), Some("body"), None, None),
            fields(None, None, Some("later"), None),
        ],
    );
    let song = metadata_from_page("u", &p);
    assert_eq!(song.lyrics.as_deref(), Some("later"));
}

#[test]
fn json_audio_ends_the_scan() {
    let p = page(
        None,
        None,
        None,
        None,
        vec![
            fields(None, None, None, Some(" https://cdn/a.mp3 ")),
            fields(Some("late lyrics"), None, None, Some("https://cdn/b.mp3")),
        ],
    );
    let song = metadata_from_page("u", &p);
    assert_eq!(song.audio_url.as_deref(), Some("https://cdn/a.mp3"));
    assert_eq!(song.lyrics, None);
}

#[test]
fn page_tags_win_over_json() {
    let p = page(
        Some("T"),
        Some("Other"),
        Some("https://cdn/og.mp3"),
        Some("desc"),
        vec![fields(Some("json lyrics"), None, None, Some("https://cdn/json.mp3"))],
    );
    let song = metadata_from_page("u", &p);
    assert_eq!(song.title.as_deref(), Some("T"));
    assert_eq!(song.lyrics.as_deref(), Some("desc"));
    assert_eq!(song.audio_url.as_deref(), Some("https://cdn/og.mp3"));
}

#[test]
fn reads_page_facts_from_html() {
    let html = r#"<html><head><title>A <b>b</b></title>
        <meta property="og:description" content="first desc">
        <meta name="description" content="second desc">
        <script type="application/ld+json">not json</script>
        <script type="application/ld+json">{"audio": {"contentUrl": "https://x/y.mp3"}, "articleBody": "Body"}</script>
        <script type="application/ld+json">[1, 2]</script>
        </head><body></body></html>"#;
    let facts = page_facts(html);
    assert_eq!(facts.og_title, None);
    assert_eq!(facts.title_text.as_deref(), Some("A <b>b</b>"));
    assert_eq!(facts.description.as_deref(), Some("first desc"));
    assert_eq!(facts.og_audio, None);
    assert_eq!(facts.ld_json.len(), 3);
    assert!(facts.ld_json[0].is_none());
    let second = facts.ld_json[1].as_ref().unwrap();
    assert_eq!(second.lyrics, None);
    assert_eq!(second.article_body.as_deref(), Some("Body"));
    assert_eq!(second.audio_content_url.as_deref(), Some("https://x/y.mp3"));
    let third = facts.ld_json[2].as_ref().unwrap();
    assert_eq!(third.lyrics, None);
    assert_eq!(third.audio_content_url, None);
}

#[test]
fn json_ld_completes_missing_audio() {
    let html = r#"<html><head>
        <script type="application/ld+json">{"lyrics": " La  la ", "audio": {"contentUrl": "https://cdn.suno.com/x.mp3"}}</script>
        </head></html>"#;
    let song = parse_metadata_from_html("https://suno.com/song/x", html);
    assert_eq!(song.lyrics.as_deref(), Some("La la"));
    assert_eq!(song.audio_url.as_deref(), Some("https://cdn.suno.com/x.mp3"));
    assert_eq!(song.title, None);
}

#[test]
fn import_after_fetch() {
    let u = validate_suno_song_url("https://suno.com/song/abc").unwrap();
    let ok = import_from_page(
        &u,
        Ok("<title>x</title>".to_string()),
    )
    .unwrap();
    assert_eq!(ok.source_url, "https://suno.com/song/abc");
    assert_eq!(ok.title.as_deref(), Some("x"));
    match import_from_page(&u, Err("boom".to_string())) {
        Err(ImportError::Download(d)) => assert_eq!(d, "boom"),
        _ => panic!("expected a download error"),
    }
}

#[test]
fn audio_file_names() {
    assert_eq!(audio_file_name("/song/abc"), "abc.mp3");
    assert_eq!(audio_file_name("abc"), "abc.mp3");
    assert_eq!(audio_file_name("/song/"), ".mp3");
}

#[test]
fn non_json_script_changes_nothing() {
    let base = r#"<html><head><meta name="description" content="d">
        <script type="application/ld+json">{"audio": {"contentUrl": "https://cdn/a.mp3"}}</script>
        </head></html>"#;
    let with = r#"<html><head><meta name="description" content="d">
        <script type="application/ld+json">{not json</script>
        <script type="application/ld+json">{"audio": {"contentUrl": "https://cdn/a.mp3"}}</script>
        </head></html>"#;
    let a = parse_metadata_from_html("u", base);
    let b = parse_metadata_from_html("u", with);
    assert_eq!(a.lyrics, b.lyrics);
    assert_eq!(a.audio_url, b.audio_url);
    assert_eq!(b.audio_url.as_deref(), Some("https://cdn/a.mp3"));
    assert_eq!(a.title, b.title);
}
