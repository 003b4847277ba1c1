use vstd::prelude::*;
use vstd::string::StringExecFns;

use crate::external::{url_parse, ParsedUrl};
use crate::importer::{
    audio_file_name, check_url_spec, import_error_message, is_https_spec, is_song_path_spec, is_suno_host_spec,
    law_only_song_pages_admitted, validate_suno_song_url, ImportError,
};
use crate::metadata::{import_from_page, metadata_spec, page_of_html};
use crate::models::{
    copy_song, HealthResponse, ImportRecord, ImportRequest, ImportResponse, ImportResponseView,
    ImportStatus, SongMetadata, SongView,
};
use crate::text::{decimal, decimal_spec, last_segment, law_trim_idempotent, trim, trim_spec};

verus! {

/// HTTP status: success.
pub const STATUS_OK: u16 = 200;

/// HTTP status: the request is malformed or refused.
pub const STATUS_BAD_REQUEST: u16 = 400;

/// HTTP status: the requested import does not exist.
pub const STATUS_NOT_FOUND: u16 = 404;

/// HTTP status: the server failed.
pub const STATUS_INTERNAL_ERROR: u16 = 500;

/// HTTP status: the song page could not be fetched.
pub const STATUS_BAD_GATEWAY: u16 = 502;

/// The answer of the health endpoint.
pub fn health() -> (res: HealthResponse)
    ensures
        res.status@ == "ok"@,
        res.service@ == "music-importer-api"@,
{
    HealthResponse { status: "ok", service: "music-importer-api" }
}

/// How many imports a listing returns: the requested number, 20 when none is
/// requested, brought into the range 1 to 100.
pub open spec fn list_limit_spec(requested: Option<usize>) -> usize {
    let n = match requested {
        Some(n) => n,
        None => 20,
    };
    if n < 1 {
        1
    } else if n > 100 {
        100
    } else {
        n
    }
}

/// How many imports a listing returns (see [`list_limit_spec`]).
pub fn list_limit(requested: Option<usize>) -> (res: usize)
    ensures
        res == list_limit_spec(requested),
        1 <= res <= 100,
{
    let n = match requested {
        Some(n) => n,
        None => 20,
    };
    if n < 1 {
        1
    } else if n > 100 {
        100
    } else {
        n
    }
}

/// An error answer: a status and a message.
#[derive(Debug, Clone)]
pub struct ApiError {
    pub status: u16,
    pub error: String,
}

fn concat(prefix: &str, rest: &str) -> (res: String)
    ensures
        res@ == prefix@ + rest@,
{
    let mut m = String::from_str(prefix);
    m.append(rest);
    m
}

/// The answer when the statistics cannot be computed.
pub fn stats_failure(detail: &str) -> (res: ApiError)
    ensures
        res.status == STATUS_INTERNAL_ERROR,
        res.error@ == "Falha ao calcular estatísticas: "@ + detail@,
{
    ApiError { status: STATUS_INTERNAL_ERROR, error: concat("Falha ao calcular estatísticas: ", detail) }
}

/// The answer when the imports cannot be listed.
pub fn list_failure(detail: &str) -> (res: ApiError)
    ensures
        res.status == STATUS_INTERNAL_ERROR,
        res.error@ == "Falha ao listar importações: "@ + detail@,
{
    ApiError { status: STATUS_INTERNAL_ERROR, error: concat("Falha ao listar importações: ", detail) }
}

/// "Importação id=<id> " followed by `tail`.
pub open spec fn import_id_message(id: i64, tail: Seq<char>) -> Seq<char> {
    "Importação id="@ + decimal_spec(id as int) + tail
}

fn id_message(id: i64, tail: &str) -> (res: String)
    ensures
        res@ == import_id_message(id, tail@),
{
    let mut m = String::from_str("Importação id=");
    let d = decimal(id);
    m.append(d.as_str());
    m.append(tail);
    m
}

/// The answer to a lookup of import `id`, given what the database returned:
/// the record when it exists; 404 when it does not; 500 when the lookup failed.
pub fn lookup_outcome(id: i64, found: Result<Option<ImportRecord>, String>) -> (res: Result<
    ImportRecord,
    ApiError,
>)
    ensures
        match found {
            Ok(Some(r)) => res == Ok::<ImportRecord, ApiError>(r),
            Ok(None) => res matches Err(e) && e.status == STATUS_NOT_FOUND && e.error@
                == import_id_message(id, " não encontrada"@),
            Err(detail) => res matches Err(e) && e.status == STATUS_INTERNAL_ERROR && e.error@
                == "Falha ao consultar importação: "@ + detail@,
        },
{
    match found {
        Ok(Some(r)) => Ok(r),
        Ok(None) => Err(
            ApiError { status: STATUS_NOT_FOUND, error: id_message(id, " não encontrada") },
        ),
        Err(detail) => Err(
            ApiError {
                status: STATUS_INTERNAL_ERROR,
                error: concat("Falha ao consultar importação: ", detail.as_str()),
            },
        ),
    }
}

/// The answer to a removal: a status, whether it happened, and a message.
#[derive(Debug, Clone)]
pub struct ActionReply {
    pub status: u16,
    pub ok: bool,
    pub message: String,
}

/// The answer to the removal of import `id`, given what the database returned:
/// 200 when a record was removed, 404 when there was none, 500 when the
/// removal failed.
pub fn delete_outcome(id: i64, removed: Result<bool, String>) -> (res: ActionReply)
    ensures
        match removed {
            Ok(true) => res.status == STATUS_OK && res.ok && res.message@ == import_id_message(
                id,
                " removida"@,
            ),
            Ok(false) => res.status == STATUS_NOT_FOUND && !res.ok && res.message@
                == import_id_message(id, " não encontrada"@),
            Err(detail) => res.status == STATUS_INTERNAL_ERROR && !res.ok && res.message@
                == "Falha ao remover importação: "@ + detail@,
        },
{
    match removed {
        Ok(true) => ActionReply { status: STATUS_OK, ok: true, message: id_message(id, " removida") },
        Ok(false) => ActionReply {
            status: STATUS_NOT_FOUND,
            ok: false,
            message: id_message(id, " não encontrada"),
        },
        Err(detail) => ActionReply {
            status: STATUS_INTERNAL_ERROR,
            ok: false,
            message: concat("Falha ao remover importação: ", detail.as_str()),
        },
    }
}


/// The answer to an import request: a status and a body.
#[derive(Debug, Clone)]
pub struct ImportReply {
    pub status: u16,
    pub response: ImportResponse,
}

/// Where the handling of one import request stands.
#[derive(Debug)]
pub enum ImportState {
    /// Nothing has happened yet.
    Received,
    /// The song page at the admitted address `validated` (given as
    /// `source_url`) is being fetched.
    Fetching { source_url: String, validated: ParsedUrl },
    /// The audio of the imported song is being saved.
    SavingAudio { source_url: String, song: SongMetadata },
    /// The import is being stored.
    Persisting { source_url: String, song: SongMetadata },
    /// The request has been answered.
    Finished,
}

/// What happened since the last step.
#[derive(Debug)]
pub enum ImportEvent {
    /// The request arrived.
    Requested(ImportRequest),
    /// Fetching the song page ended: the page, or the failure's detail.
    Fetched(Result<String, String>),
    /// Saving the audio ended: the local path of the saved file, if one was
    /// saved, or the failure's detail.
    AudioSaved(Result<Option<String>, String>),
    /// Storing the import ended: its id, or the failure's detail.
    Persisted(Result<i64, String>),
}

/// What is to be done next.
#[derive(Debug)]
pub enum ImportAction {
    /// Fetch the song page at `url`.
    Fetch { url: String },
    /// Save the audio of `song` locally, if it has any, in a file named `file_name`.
    SaveAudio { song: SongMetadata, file_name: String },
    /// Store the import of `song` with the given status.
    Persist { song: SongMetadata, status: ImportStatus },
    /// Record that importing `source_url` failed with `error`, then send `reply`.
    RecordFailure { source_url: String, error: String, reply: ImportReply },
    /// Send `reply`.
    Respond { reply: ImportReply },
}

/// Whether `event` is one that can happen in `state` (see [`event_fits`]).
pub fn accepts_event(state: &ImportState, event: &ImportEvent) -> (res: bool)
    ensures
        res == event_fits(*state, *event),
{
    match (state, event) {
        (ImportState::Received, ImportEvent::Requested(_)) => true,
        (ImportState::Fetching { .. }, ImportEvent::Fetched(_)) => true,
        (ImportState::SavingAudio { .. }, ImportEvent::AudioSaved(_)) => true,
        (ImportState::Persisting { .. }, ImportEvent::Persisted(_)) => true,
        _ => false,
    }
}

/// Whether `event` is one that can happen in `state`.
pub open spec fn event_fits(state: ImportState, event: ImportEvent) -> bool {
    match (state, event) {
        (ImportState::Received, ImportEvent::Requested(_)) => true,
        (ImportState::Fetching { .. }, ImportEvent::Fetched(_)) => true,
        (ImportState::SavingAudio { .. }, ImportEvent::AudioSaved(_)) => true,
        (ImportState::Persisting { .. }, ImportEvent::Persisted(_)) => true,
        _ => false,
    }
}

/// An answer that refuses the import with `message`.
pub open spec fn refusal(message: Seq<char>) -> ImportResponseView {
    ImportResponseView { accepted: false, import_id: None, song: None, message }
}

/// The status an import error is answered with.
pub open spec fn import_error_status(e: ImportError) -> u16 {
    match e {
        ImportError::InvalidUrl => STATUS_BAD_REQUEST,
        ImportError::UnsupportedHost => STATUS_BAD_REQUEST,
        ImportError::Download(_) => STATUS_BAD_GATEWAY,
    }
}

/// The status an import error is answered with (see [`import_error_status`]).
pub fn error_status(e: &ImportError) -> (res: u16)
    ensures
        res == import_error_status(*e),
{
    match e {
        ImportError::InvalidUrl => STATUS_BAD_REQUEST,
        ImportError::UnsupportedHost => STATUS_BAD_REQUEST,
        ImportError::Download(_) => STATUS_BAD_GATEWAY,
    }
}

/// The import of `source_url` ends in failure `e`: it is recorded as failed
/// and refused with the error's status and message.
pub open spec fn failure_post(
    source_url: Seq<char>,
    e: ImportError,
    next: ImportState,
    action: ImportAction,
) -> bool {
    &&& next is Finished
    &&& action matches ImportAction::RecordFailure { source_url: u, error, reply }
    &&& u@ == source_url
    &&& error@ == import_error_message(e)
    &&& reply.status == import_error_status(e)
    &&& reply.response@ == refusal(import_error_message(e))
}

/// The step of the import handling taken on `event` in `state` gives `next`
/// and `action`:
/// - a request whose address, trimmed, is empty is refused with 400 and
///   nothing is fetched; any other address, trimmed, is validated: an
///   admitted one has its page fetched, at the URL's serialization, and a
///   refused one is a failed import (see below);
/// - a fetched page gives the song's metadata, whose audio is saved next, in
///   a file named after the last segment of the URL's path; a failed fetch is
///   a failed import with `ImportError::Download`;
/// - a failed import is recorded as failed and refused with the error's
///   status (400 for an invalid or unsupported address, 502 for a failed
///   download) and message;
/// - after saving the audio the song carries the path the saving gave (none
///   when no file was saved), or keeps its own path when saving failed; it
///   is stored, as downloaded when it has a local path, else as parsed;
/// - a stored import is accepted with 200, its id and the song; a failure to
///   store it is refused with 500.
pub open spec fn import_step_post(
    state: ImportState,
    event: ImportEvent,
    next: ImportState,
    action: ImportAction,
) -> bool {
    match (state, event) {
        (ImportState::Received, ImportEvent::Requested(req)) => {
            let url = trim_spec(req.url@);
            if url.len() == 0 {
                &&& next is Finished
                &&& action matches ImportAction::Respond { reply }
                &&& reply.status == STATUS_BAD_REQUEST
                &&& reply.response@ == refusal("Campo url é obrigatório"@)
            } else {
                match check_url_spec(url_parse(url)) {
                    Ok(u) => {
                        &&& next matches ImportState::Fetching { source_url, validated }
                        &&& source_url@ == url
                        &&& validated@ == u
                        &&& action matches ImportAction::Fetch { url: f } && f@ == u.serialization
                    },
                    Err(e) => failure_post(url, e, next, action),
                }
            }
        },
        (ImportState::Fetching { source_url, validated }, ImportEvent::Fetched(fetched)) => match fetched {
            Ok(html) => {
                let song = metadata_spec(validated.serialization@, page_of_html(html@));
                &&& next matches ImportState::SavingAudio { source_url: u, song: s } && u@
                    == source_url@ && s@ == song
                &&& action matches ImportAction::SaveAudio { song: s, file_name } && s@ == song
                    && file_name@ == last_segment(validated.path@) + ".mp3"@
            },
            Err(detail) => failure_post(source_url@, ImportError::Download(detail), next, action),
        },
        (ImportState::SavingAudio { source_url, song }, ImportEvent::AudioSaved(saved)) => {
            let path: Option<Seq<char>> = match saved {
                Ok(p) => p.deep_view(),
                Err(_) => song@.local_audio_path,
            };
            let saved_song = SongView { local_audio_path: path, ..song@ };
            &&& next matches ImportState::Persisting { source_url: u, song: s } && u@
                == source_url@ && s@ == saved_song
            &&& action matches ImportAction::Persist { song: s, status }
            &&& s@ == saved_song
            &&& status == (if path is Some {
                ImportStatus::Downloaded
            } else {
                ImportStatus::Parsed
            })
        },
        (ImportState::Persisting { source_url, song }, ImportEvent::Persisted(stored)) => {
            &&& next is Finished
            &&& action matches ImportAction::Respond { reply }
            &&& match stored {
                Ok(id) => {
                    &&& reply.status == STATUS_OK
                    &&& reply.response@ == ImportResponseView {
                        accepted: true,
                        import_id: Some(id),
                        song: Some(song@),
                        message: "Importação iniciada e persistida com sucesso"@,
                    }
                },
                Err(detail) => {
                    &&& reply.status == STATUS_INTERNAL_ERROR
                    &&& reply.response@ == refusal("Falha ao persistir importação: "@ + detail@)
                },
            }
        },
        _ => false,
    }
}

fn refuse(status: u16, message: String) -> (res: ImportReply)
    ensures
        res.status == status,
        res.response@ == refusal(message@),
{
    ImportReply {
        status,
        response: ImportResponse { accepted: false, import_id: None, song: None, message },
    }
}

fn fail(source_url: String, e: ImportError) -> (res: (ImportState, ImportAction))
    ensures
        failure_post(source_url@, e, res.0, res.1),
{
    let error = e.message();
    let reply = refuse(error_status(&e), e.message());
    (ImportState::Finished, ImportAction::RecordFailure { source_url, error, reply })
}

/// Takes one step of the handling of an import request (see [`import_step_post`]).
pub fn import_step(state: ImportState, event: ImportEvent) -> (res: (ImportState, ImportAction))
    requires
        event_fits(state, event),
    ensures
        import_step_post(state, event, res.0, res.1),
{
    match (state, event) {
        (ImportState::Received, ImportEvent::Requested(req)) => {
            let url = trim(req.url.as_str());
            if url.as_str().is_empty() {
                let reply = refuse(STATUS_BAD_REQUEST, String::from_str("Campo url é obrigatório"));
                (ImportState::Finished, ImportAction::Respond { reply })
            } else {
                proof {
                    law_trim_idempotent(req.url@);
                }
                match validate_suno_song_url(url.as_str()) {
                    Ok(validated) => {
                        let fetch = String::from_str(validated.as_str());
                        (
                            ImportState::Fetching { source_url: url, validated },
                            ImportAction::Fetch { url: fetch },
                        )
                    },
                    Err(e) => fail(url, e),
                }
            }
        },
        (ImportState::Fetching { source_url, validated }, ImportEvent::Fetched(fetched)) => {
            match import_from_page(&validated, fetched) {
                Ok(song) => {
                    let copy = copy_song(&song);
                    let file_name = audio_file_name(validated.path.as_str());
                    (
                        ImportState::SavingAudio { source_url, song },
                        ImportAction::SaveAudio { song: copy, file_name },
                    )
                },
                Err(e) => fail(source_url, e),
            }
        },
        (ImportState::SavingAudio { source_url, song }, ImportEvent::AudioSaved(saved)) => {
            let mut song = song;
            match saved {
                Ok(p) => {
                    song.local_audio_path = p;
                },
                Err(_) => {},
            }
            let status = if song.local_audio_path.is_some() {
                ImportStatus::Downloaded
            } else {
                ImportStatus::Parsed
            };
            let copy = copy_song(&song);
            (ImportState::Persisting { source_url, song }, ImportAction::Persist { song: copy, status })
        },
        (ImportState::Persisting { source_url, song }, ImportEvent::Persisted(stored)) => {
            match stored {
                Ok(id) => {
                    let reply = ImportReply {
                        status: STATUS_OK,
                        response: ImportResponse {
                            accepted: true,
                            import_id: Some(id),
                            song: Some(song),
                            message: String::from_str(
                                "Importação iniciada e persistida com sucesso",
                            ),
                        },
                    };
                    (ImportState::Finished, ImportAction::Respond { reply })
                },
                Err(detail) => {
                    let reply = refuse(
                        STATUS_INTERNAL_ERROR,
                        concat("Falha ao persistir importação: ", detail.as_str()),
                    );
                    (ImportState::Finished, ImportAction::Respond { reply })
                },
            }
        },
        _ => {
            proof {
                assert(false);
            }
            (ImportState::Finished, ImportAction::Respond { reply: refuse(STATUS_INTERNAL_ERROR, String::new()) })
        },
    }
}


/// Only a stored import is accepted: an accepted answer is sent with 200
/// after storing succeeded, and carries the id it was stored under and the song.
pub proof fn law_only_stored_imports_accepted(
    state: ImportState,
    event: ImportEvent,
    next: ImportState,
    action: ImportAction,
)
    requires
        import_step_post(state, event, next, action),
    ensures
        action matches ImportAction::Respond { reply } ==> reply.response@.accepted ==> {
            &&& reply.status == STATUS_OK
            &&& event matches ImportEvent::Persisted(Ok(id))
            &&& reply.response@.import_id == Some(id)
            &&& state matches ImportState::Persisting { song, .. }
            &&& reply.response@.song == Some(song@)
        },
        action matches ImportAction::RecordFailure { reply, .. } ==> !reply.response@.accepted,
{
}

/// Every refusal is sent with an error status and carries neither id nor song.
pub proof fn law_refusals_carry_nothing(
    state: ImportState,
    event: ImportEvent,
    next: ImportState,
    action: ImportAction,
)
    requires
        import_step_post(state, event, next, action),
    ensures
        action matches ImportAction::Respond { reply } ==> !reply.response@.accepted ==> {
            &&& reply.status >= 400
            &&& reply.response@.import_id is None
            &&& reply.response@.song is None
        },
        action matches ImportAction::RecordFailure { reply, .. } ==> {
            &&& reply.status >= 400
            &&& reply.response@.import_id is None
            &&& reply.response@.song is None
        },
{
}

/// A request whose address is blank is answered at once with 400 and nothing
/// is imported; any other request leads to importing its trimmed address.
pub proof fn law_blank_requests_never_imported(
    req: ImportRequest,
    next: ImportState,
    action: ImportAction,
)
    requires
        import_step_post(ImportState::Received, ImportEvent::Requested(req), next, action),
    ensures
        trim_spec(req.url@).len() == 0 <==> (action matches ImportAction::Respond { reply }
            && reply.status == STATUS_BAD_REQUEST),
        !(action is Fetch) ==> next is Finished,
{
}

/// A failed import is both recorded and answered, with the same message and
/// an error status.
pub proof fn law_failures_recorded_with_answer(
    state: ImportState,
    event: ImportEvent,
    next: ImportState,
    action: ImportAction,
)
    requires
        import_step_post(state, event, next, action),
    ensures
        action matches ImportAction::RecordFailure { error, reply, .. } ==> {
            &&& error@ == reply.response@.message
            &&& reply.status >= 400
            &&& next is Finished
        },
{
}

/// Only admitted addresses are fetched: the one step that asks for a fetch
/// is the answer to a request, and it fetches the serialization of the
/// request's trimmed address after validation admitted it (an `https` song
/// page on the accepted host); an address that validation refuses is
/// recorded and refused with 400, and nothing is fetched.
pub proof fn law_only_admitted_addresses_fetched(
    state: ImportState,
    event: ImportEvent,
    next: ImportState,
    action: ImportAction,
)
    requires
        import_step_post(state, event, next, action),
    ensures
        action matches ImportAction::Fetch { url } ==> {
            &&& state is Received
            &&& event matches ImportEvent::Requested(req)
            &&& check_url_spec(url_parse(trim_spec(req.url@))) matches Ok(u)
            &&& url@ == u.serialization
            &&& is_https_spec(url@)
            &&& u.host matches Some(h) && is_suno_host_spec(h)
            &&& is_song_path_spec(u.path)
        },
        event matches ImportEvent::Requested(req) ==> check_url_spec(url_parse(trim_spec(req.url@)))
            is Err && trim_spec(req.url@).len() > 0 ==> (action matches ImportAction::RecordFailure {
            reply,
            ..
        } && reply.status == STATUS_BAD_REQUEST),
{
    if let ImportEvent::Requested(req) = event {
        law_only_song_pages_admitted(url_parse(trim_spec(req.url@)));
    }
}

/// A listing returns 20 imports when no number is asked for, the number asked
/// for when it is between 1 and 100, and otherwise the nearest of 1 and 100.
pub proof fn law_list_limit(requested: Option<usize>)
    ensures
        requested is None ==> list_limit_spec(requested) == 20,
        requested matches Some(n) ==> (1 <= n <= 100 ==> list_limit_spec(requested) == n),
        requested matches Some(n) ==> (n == 0 ==> list_limit_spec(requested) == 1),
        requested matches Some(n) ==> (n > 100 ==> list_limit_spec(requested) == 100),
{
}

/// A refused address is answered with 400 (bad request) and a failed download
/// with 502 (bad gateway).
pub proof fn law_error_statuses(detail: String)
    ensures
        import_error_status(ImportError::InvalidUrl) == 400,
        import_error_status(ImportError::UnsupportedHost) == 400,
        import_error_status(ImportError::Download(detail)) == 502,
{
}

/// After the audio step the stored song carries the path the saving gave,
/// and the import is stored as downloaded exactly when the song then has a
/// local path; an accepted import is answered with the documented message,
/// and a blank request with `Campo url é obrigatório`.
pub proof fn law_stored_status_and_messages(
    state: ImportState,
    event: ImportEvent,
    next: ImportState,
    action: ImportAction,
)
    requires
        import_step_post(state, event, next, action),
    ensures
        action matches ImportAction::Persist { song, status } ==> {
            &&& status == ImportStatus::Downloaded <==> song.local_audio_path is Some
            &&& status == ImportStatus::Parsed <==> song.local_audio_path is None
            &&& event matches ImportEvent::AudioSaved(Ok(p)) ==> song.local_audio_path.deep_view()
                == p.deep_view()
        },
        action matches ImportAction::Respond { reply } ==> (reply.response@.accepted
            ==> reply.response@.message == "Importação iniciada e persistida com sucesso"@),
        action matches ImportAction::Respond { reply } ==> (reply.status == 400
            ==> reply.response@.message == "Campo url é obrigatório"@),
{
}

} // verus!
