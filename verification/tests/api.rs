use music_importer::api::{
    accepts_event, delete_outcome, error_status, health, import_step, list_failure, list_limit,
    lookup_outcome, stats_failure, ImportAction, ImportEvent, ImportState,
};
use music_importer::importer::{validate_suno_song_url, ImportError};
use music_importer::models::{ImportRecord, ImportRequest, ImportStatus, SongMetadata};

#[test]
fn health_answer() {
    let h = health();
    assert_eq!(h.status, "ok");
    assert_eq!(h.service, "music-importer-api");
}

#[test]
fn listing_limit_is_clamped() {
    assert_eq!(list_limit(None), 20);
    assert_eq!(list_limit(Some(0)), 1);
    assert_eq!(list_limit(Some(7)), 7);
    assert_eq!(list_limit(Some(100)), 100);
    assert_eq!(list_limit(Some(1000)), 100);
}

#[test]
fn failure_messages() {
    let e = stats_failure("disk");
    assert_eq!(e.status, 500);
    assert_eq!(e.error, "Falha ao calcular estatísticas: disk");
    let e = list_failure("locked");
    assert_eq!(e.error, "Falha ao listar importações: locked");
}

fn record(id: i64) -> ImportRecord {
    ImportRecord {
        id,
        source_url: "https://suno.com/song/abc".to_string(),
        title: None,
        lyrics: None,
        audio_url: None,
        local_audio_path: None,
        status: "parsed".to_string(),
        error_message: None,
        created_at: "2024-01-01 00:00:00".to_string(),
    }
}

#[test]
fn lookup_answers() {
    assert_eq!(lookup_outcome(3, Ok(Some(record(3)))).unwrap().id, 3);
    let e = lookup_outcome(42, Ok(None)).unwrap_err();
    assert_eq!(e.status, 404);
    assert_eq!(e.error, "Importação id=42 não encontrada");
    let e = lookup_outcome(-1, Err("io".to_string())).unwrap_err();
    assert_eq!(e.status, 500);
    assert_eq!(e.error, "Falha ao consultar importação: io");
}

#[test]
fn delete_answers() {
    let r = delete_outcome(5, Ok(true));
    assert_eq!((r.status, r.ok, r.message.as_str()), (200, true, "Importação id=5 removida"));
    let r = delete_outcome(5, Ok(false));
    assert_eq!((r.status, r.ok, r.message.as_str()), (404, false, "Importação id=5 não encontrada"));
    let r = delete_outcome(5, Err("x".to_string()));
    assert_eq!((r.status, r.ok, r.message.as_str()), (500, false, "Falha ao remover importação: x"));
}

#[test]
fn error_statuses() {
    assert_eq!(error_status(&ImportError::InvalidUrl), 400);
    assert_eq!(error_status(&ImportError::UnsupportedHost), 400);
    assert_eq!(error_status(&ImportError::Download("d".to_string())), 502);
}

fn song() -> SongMetadata {
    SongMetadata {
        source_url: "https://suno.com/song/abc".to_string(),
        title: Some("T".to_string()),
        lyrics: None,
        audio_url: Some("https://cdn.suno.com/a.mp3".to_string()),
        local_audio_path: None,
    }
}

#[test]
fn blank_request_is_refused() {
    let (next, action) = import_step(
        ImportState::Received,
        ImportEvent::Requested(ImportRequest { url: "  \n ".to_string() }),
    );
    assert!(matches!(next, ImportState::Finished));
    match action {
        ImportAction::Respond { reply } => {
            assert_eq!(reply.status, 400);
            assert!(!reply.response.accepted);
            assert_eq!(reply.response.message, "Campo url é obrigatório");
        }
        _ => panic!("expected a refusal"),
    }
}

#[test]
fn successful_import_flow() {
    let (state, action) = import_step(
        ImportState::Received,
        ImportEvent::Requested(ImportRequest {
            url: " https://SUNO.com/song/abc?sh=1#top ".to_string(),
        }),
    );
    match &action {
        ImportAction::Fetch { url } => assert_eq!(url, "https://suno.com/song/abc?sh=1#top"),
        _ => panic!("expected a fetch"),
    }
    let page = "<html><head><meta property='og:title' content=' T '>\
        <meta property='og:audio' content='https://cdn.suno.com/a.mp3'></head></html>";
    let (state, action) = import_step(state, ImportEvent::Fetched(Ok(page.to_string())));
    match &action {
        ImportAction::SaveAudio { song, file_name } => {
            assert_eq!(file_name, "abc.mp3");
            assert_eq!(song.local_audio_path, None);
            assert_eq!(song.source_url, "https://suno.com/song/abc?sh=1#top");
            assert_eq!(song.title.as_deref(), Some("T"));
            assert_eq!(song.audio_url.as_deref(), Some("https://cdn.suno.com/a.mp3"));
        }
        _ => panic!("expected saving the audio"),
    }
    let (state, action) =
        import_step(state, ImportEvent::AudioSaved(Ok(Some("downloads/abc.mp3".to_string()))));
    match &action {
        ImportAction::Persist { song, status } => {
            assert_eq!(song.local_audio_path.as_deref(), Some("downloads/abc.mp3"));
            assert_eq!(*status, ImportStatus::Downloaded);
        }
        _ => panic!("expected persisting"),
    }
    let (state, action) = import_step(state, ImportEvent::Persisted(Ok(9)));
    assert!(matches!(state, ImportState::Finished));
    match action {
        ImportAction::Respond { reply } => {
            assert_eq!(reply.status, 200);
            assert!(reply.response.accepted);
            assert_eq!(reply.response.import_id, Some(9));
            let answered = reply.response.song.unwrap();
            assert_eq!(answered.title.as_deref(), Some("T"));
            assert_eq!(answered.local_audio_path.as_deref(), Some("downloads/abc.mp3"));
            assert_eq!(reply.response.message, "Importação iniciada e persistida com sucesso");
        }
        _ => panic!("expected an answer"),
    }
}

#[test]
fn refused_address_is_never_fetched() {
    for (url, status, message) in [
        ("https://example.com/song/abc", 400, "Apenas links de música do Suno são aceitos"),
        ("http://suno.com/song/abc", 400, "Apenas links de música do Suno são aceitos"),
        ("notaurl", 400, "URL inválida"),
    ] {
        let (next, action) = import_step(
            ImportState::Received,
            ImportEvent::Requested(ImportRequest { url: url.to_string() }),
        );
        assert!(matches!(next, ImportState::Finished));
        match action {
            ImportAction::RecordFailure { source_url, error, reply } => {
                assert_eq!(source_url, url);
                assert_eq!(error, message);
                assert_eq!(reply.status, status);
                assert!(!reply.response.accepted);
                assert_eq!(reply.response.message, message);
            }
            _ => panic!("expected a recorded refusal"),
        }
    }
}

#[test]
fn audio_failure_still_persists_as_parsed() {
    let state = ImportState::SavingAudio { source_url: "u".to_string(), song: song() };
    let (state, action) = import_step(state, ImportEvent::AudioSaved(Err("net".to_string())));
    match &action {
        ImportAction::Persist { song, status } => {
            assert_eq!(song.local_audio_path, None);
            assert_eq!(*status, ImportStatus::Parsed);
            assert_eq!(status.label(), "parsed");
        }
        _ => panic!("expected persisting"),
    }
    let (_, action) = import_step(state, ImportEvent::Persisted(Err("locked".to_string())));
    match action {
        ImportAction::Respond { reply } => {
            assert_eq!(reply.status, 500);
            assert!(!reply.response.accepted);
            assert_eq!(reply.response.message, "Falha ao persistir importação: locked");
        }
        _ => panic!("expected an answer"),
    }
}

#[test]
fn failed_import_is_recorded_and_refused() {
    let validated = validate_suno_song_url("https://suno.com/song/x").unwrap();
    let state =
        ImportState::Fetching { source_url: "https://suno.com/song/x".to_string(), validated };
    let (next, action) = import_step(state, ImportEvent::Fetched(Err("404".to_string())));
    assert!(matches!(next, ImportState::Finished));
    match action {
        ImportAction::RecordFailure { source_url, error, reply } => {
            assert_eq!(source_url, "https://suno.com/song/x");
            assert_eq!(error, "Falha ao baixar página: 404");
            assert_eq!(reply.status, 502);
            assert_eq!(reply.response.message, error);
            assert!(reply.response.song.is_none());
        }
        _ => panic!("expected a recorded failure"),
    }
}

#[test]
fn audio_saving_sets_or_keeps_the_local_path() {
    let mut earlier = song();
    earlier.local_audio_path = Some("old.mp3".to_string());
    let state = ImportState::SavingAudio { source_url: "u".to_string(), song: earlier };
    let (_, action) = import_step(state, ImportEvent::AudioSaved(Err("net".to_string())));
    match action {
        ImportAction::Persist { song, status } => {
            assert_eq!(song.local_audio_path.as_deref(), Some("old.mp3"));
            assert_eq!(status, ImportStatus::Downloaded);
        }
        _ => panic!("expected persisting"),
    }
    let mut earlier = song();
    earlier.local_audio_path = Some("old.mp3".to_string());
    let state = ImportState::SavingAudio { source_url: "u".to_string(), song: earlier };
    let (_, action) = import_step(state, ImportEvent::AudioSaved(Ok(None)));
    match action {
        ImportAction::Persist { song, status } => {
            assert_eq!(song.local_audio_path, None);
            assert_eq!(status, ImportStatus::Parsed);
        }
        _ => panic!("expected persisting"),
    }
}

#[test]
fn events_fit_their_states() {
    assert!(accepts_event(
        &ImportState::Received,
        &ImportEvent::Requested(ImportRequest { url: "x".to_string() })
    ));
    assert!(!accepts_event(&ImportState::Received, &ImportEvent::Persisted(Ok(1))));
    assert!(!accepts_event(&ImportState::Finished, &ImportEvent::AudioSaved(Ok(None))));
}
