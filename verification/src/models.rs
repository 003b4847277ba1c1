use vstd::prelude::*;

verus! {

/// Body of an import request: the address of the song page.
#[derive(Debug, Clone)]
pub struct ImportRequest {
    pub url: String,
}

/// Metadata extracted from a song page.
#[derive(Debug, Clone)]
pub struct SongMetadata {
    pub source_url: String,
    pub title: Option<String>,
    pub lyrics: Option<String>,
    pub audio_url: Option<String>,
    /// Where the song's audio was saved locally, once it has been.
    pub local_audio_path: Option<String>,
}

/// Mathematical model of [`SongMetadata`].
pub struct SongView {
    pub source_url: Seq<char>,
    pub title: Option<Seq<char>>,
    pub lyrics: Option<Seq<char>>,
    pub audio_url: Option<Seq<char>>,
    pub local_audio_path: Option<Seq<char>>,
}

impl View for SongMetadata {
    type V = SongView;

    open spec fn view(&self) -> SongView {
        SongView {
            source_url: self.source_url@,
            title: self.title.deep_view(),
            lyrics: self.lyrics.deep_view(),
            audio_url: self.audio_url.deep_view(),
            local_audio_path: self.local_audio_path.deep_view(),
        }
    }
}

/// A copy of `s`.
pub fn copy_song(s: &SongMetadata) -> (res: SongMetadata)
    ensures
        res@ == s@,
{
    SongMetadata {
        source_url: s.source_url.clone(),
        title: s.title.clone(),
        lyrics: s.lyrics.clone(),
        audio_url: s.audio_url.clone(),
        local_audio_path: s.local_audio_path.clone(),
    }
}

/// Answer to an import request.
#[derive(Debug, Clone)]
pub struct ImportResponse {
    pub accepted: bool,
    pub import_id: Option<i64>,
    pub song: Option<SongMetadata>,
    pub message: String,
}

/// Mathematical model of [`ImportResponse`].
pub struct ImportResponseView {
    pub accepted: bool,
    pub import_id: Option<i64>,
    pub song: Option<SongView>,
    pub message: Seq<char>,
}

impl View for ImportResponse {
    type V = ImportResponseView;

    open spec fn view(&self) -> ImportResponseView {
        ImportResponseView {
            accepted: self.accepted,
            import_id: self.import_id,
            song: match self.song {
                Some(s) => Some(s@),
                None => None,
            },
            message: self.message@,
        }
    }
}

/// Processing state of a stored import.
#[derive(Debug, Clone, Copy, PartialEq, Eq, Structural)]
pub enum ImportStatus {
    /// Metadata was extracted from the page.
    Parsed,
    /// Metadata was extracted and the audio saved locally.
    Downloaded,
    /// The import failed.
    Failed,
}

/// The label an [`ImportStatus`] is stored under.
pub open spec fn status_label(s: ImportStatus) -> Seq<char> {
    match s {
        ImportStatus::Parsed => "parsed"@,
        ImportStatus::Downloaded => "downloaded"@,
        ImportStatus::Failed => "failed"@,
    }
}

/// Statuses are stored under their documented names, `parsed`, `downloaded`
/// and `failed`, so that two different statuses never share a label.
pub proof fn law_status_labels_documented_and_distinct(a: ImportStatus, b: ImportStatus)
    ensures
        a == ImportStatus::Parsed ==> status_label(a) == "parsed"@,
        a == ImportStatus::Downloaded ==> status_label(a) == "downloaded"@,
        a == ImportStatus::Failed ==> status_label(a) == "failed"@,
        a != b ==> status_label(a) != status_label(b),
{
    reveal_strlit("parsed");
    reveal_strlit("downloaded");
    reveal_strlit("failed");
    if a != b {
        let la = status_label(a);
        let lb = status_label(b);
        assert(la.len() != lb.len() || la[0] != lb[0]);
    }
}

impl ImportStatus {
    /// The label this status is stored under.
    pub fn label(&self) -> (res: &'static str)
        ensures
            res@ == status_label(*self),
    {
        match self {
            ImportStatus::Parsed => "parsed",
            ImportStatus::Downloaded => "downloaded",
            ImportStatus::Failed => "failed",
        }
    }
}

/// Answer of the health endpoint.
#[derive(Debug, Clone, Copy)]
pub struct HealthResponse {
    pub status: &'static str,
    pub service: &'static str,
}

/// A stored import, as the database returns it.
#[derive(Debug, Clone)]
pub struct ImportRecord {
    pub id: i64,
    pub source_url: String,
    pub title: Option<String>,
    pub lyrics: Option<String>,
    pub audio_url: Option<String>,
    pub local_audio_path: Option<String>,
    pub status: String,
    pub error_message: Option<String>,
    pub created_at: String,
}

} // verus!
