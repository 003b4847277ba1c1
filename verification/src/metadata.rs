use vstd::prelude::*;
use vstd::string::StringExecFns;

use crate::external::{
    html_select, json_lookup, json_string_at, select_elements, ParsedUrl, SelectedElement,
};
use crate::importer::ImportError;
use crate::models::{SongMetadata, SongView};
use crate::text::{law_normalize_idempotent, normalize_spec, normalize_text};

verus! {

/// String fields read from one JSON-LD script of a song page.
#[derive(Debug, Clone)]
pub struct LdJsonFields {
    /// The string at `lyrics`, if there is one.
    pub lyrics: Option<String>,
    /// The string at `articleBody`, if there is one.
    pub article_body: Option<String>,
    /// The string at `description`, if there is one.
    pub description: Option<String>,
    /// The string at `audio.contentUrl`, if there is one.
    pub audio_content_url: Option<String>,
}

/// Mathematical model of [`LdJsonFields`].
pub struct LdJsonView {
    pub lyrics: Option<Seq<char>>,
    pub article_body: Option<Seq<char>>,
    pub description: Option<Seq<char>>,
    pub audio_content_url: Option<Seq<char>>,
}

impl View for LdJsonFields {
    type V = LdJsonView;

    open spec fn view(&self) -> LdJsonView {
        LdJsonView {
            lyrics: self.lyrics.deep_view(),
            article_body: self.article_body.deep_view(),
            description: self.description.deep_view(),
            audio_content_url: self.audio_content_url.deep_view(),
        }
    }
}

/// What the metadata extraction reads from a song page.
#[derive(Debug, Clone)]
pub struct PageFacts {
    /// `content` of the first `meta[property='og:title']`.
    pub og_title: Option<String>,
    /// Text of the first `title` element.
    pub title_text: Option<String>,
    /// `content` of the first `meta[property='og:audio']`.
    pub og_audio: Option<String>,
    /// `content` of the first `meta[name='description']` or `meta[property='og:description']`.
    pub description: Option<String>,
    /// For each `script[type='application/ld+json']`, in the order the selection yields them, its
    /// fields, or `None` when its text is not JSON.
    pub ld_json: Vec<Option<LdJsonFields>>,
}

/// Mathematical model of [`PageFacts`].
pub struct PageView {
    pub og_title: Option<Seq<char>>,
    pub title_text: Option<Seq<char>>,
    pub og_audio: Option<Seq<char>>,
    pub description: Option<Seq<char>>,
    pub ld_json: Seq<Option<LdJsonView>>,
}

/// The model of an optional JSON-LD record.
pub open spec fn ld_view_opt(f: Option<LdJsonFields>) -> Option<LdJsonView> {
    match f {
        Some(f) => Some(f@),
        None => None,
    }
}

impl View for PageFacts {
    type V = PageView;

    open spec fn view(&self) -> PageView {
        PageView {
            og_title: self.og_title.deep_view(),
            title_text: self.title_text.deep_view(),
            og_audio: self.og_audio.deep_view(),
            description: self.description.deep_view(),
            ld_json: self.ld_json@.map_values(|f: Option<LdJsonFields>| ld_view_opt(f)),
        }
    }
}

/// The normalised form of an optional text; `None` stays `None`.
pub open spec fn norm_opt(x: Option<Seq<char>>) -> Option<Seq<char>> {
    match x {
        Some(s) => normalize_spec(s),
        None => None,
    }
}

/// `a` when it is present, else `b`.
pub open spec fn or_else(a: Option<Seq<char>>, b: Option<Seq<char>>) -> Option<Seq<char>> {
    if a is Some {
        a
    } else {
        b
    }
}

/// The lyrics a JSON-LD record offers: the first present of `lyrics`,
/// `articleBody` and `description`, normalised.
pub open spec fn ld_candidate(f: LdJsonView) -> Option<Seq<char>> {
    norm_opt(or_else(f.lyrics, or_else(f.article_body, f.description)))
}

/// Walks the JSON-LD records in order, starting from the given lyrics and
/// audio address, and gives the lyrics and audio address that come out:
/// a record that is not JSON is passed over; otherwise its lyrics are taken
/// when none are known yet, and, when no audio address is known, the first
/// record with a (non-blank) `audio.contentUrl` ends the walk with it.
pub open spec fn scan_ld_json(
    scripts: Seq<Option<LdJsonView>>,
    lyrics: Option<Seq<char>>,
    audio: Option<Seq<char>>,
) -> (Option<Seq<char>>, Option<Seq<char>>)
    decreases scripts.len(),
{
    if scripts.len() == 0 {
        (lyrics, audio)
    } else {
        match scripts[0] {
            None => scan_ld_json(scripts.drop_first(), lyrics, audio),
            Some(f) => {
                let cand = ld_candidate(f);
                let lyrics2 = if lyrics is None && cand is Some {
                    cand
                } else {
                    lyrics
                };
                let found = norm_opt(f.audio_content_url);
                if audio is None && found is Some {
                    (lyrics2, found)
                } else {
                    scan_ld_json(scripts.drop_first(), lyrics2, audio)
                }
            },
        }
    }
}

/// The metadata of the song at `source_url` whose page shows `page`: the
/// title is the normalised `og:title`, or else the normalised `title` text;
/// lyrics and audio address start from the normalised description and
/// `og:audio` and are completed from the JSON-LD records (see [`scan_ld_json`]);
/// no audio has been saved locally yet.
pub open spec fn metadata_spec(source_url: Seq<char>, page: PageView) -> SongView {
    let title = or_else(norm_opt(page.og_title), norm_opt(page.title_text));
    let scanned = scan_ld_json(page.ld_json, norm_opt(page.description), norm_opt(page.og_audio));
    SongView { source_url, title, lyrics: scanned.0, audio_url: scanned.1, local_audio_path: None }
}

fn clone_opt(x: &Option<String>) -> (res: Option<String>)
    ensures
        res == *x,
{
    match x {
        Some(s) => Some(s.clone()),
        None => None,
    }
}

fn normalize_opt(x: &Option<String>) -> (res: Option<String>)
    ensures
        res.deep_view() == norm_opt(x.deep_view()),
{
    match x {
        Some(s) => normalize_text(s.as_str()),
        None => None,
    }
}

fn first_present(a: &Option<String>, b: &Option<String>) -> (res: Option<String>)
    ensures
        res.deep_view() == or_else(a.deep_view(), b.deep_view()),
{
    if a.is_some() {
        clone_opt(a)
    } else {
        clone_opt(b)
    }
}

/// The lyrics a JSON-LD record offers (see [`ld_candidate`]).
fn ld_json_candidate(f: &LdJsonFields) -> (res: Option<String>)
    ensures
        res.deep_view() == ld_candidate(f@),
{
    let rest = first_present(&f.article_body, &f.description);
    let chosen = first_present(&f.lyrics, &rest);
    normalize_opt(&chosen)
}

/// Builds the metadata of the song at `source_url` from what its page shows.
pub fn metadata_from_page(source_url: &str, page: &PageFacts) -> (res: SongMetadata)
    ensures
        res@ == metadata_spec(source_url@, page@),
{
    let title = match normalize_opt(&page.og_title) {
        Some(t) => Some(t),
        None => normalize_opt(&page.title_text),
    };
    let audio_url = normalize_opt(&page.og_audio);
    let mut lyrics = normalize_opt(&page.description);
    let ghost scripts = page@.ld_json;
    let ghost audio0 = audio_url.deep_view();
    let ghost target = scan_ld_json(scripts, lyrics.deep_view(), audio0);
    let n = page.ld_json.len();
    assert(scripts.skip(0) == scripts);
    for i in 0..n
        invariant
            n == scripts.len(),
            title.deep_view() == or_else(norm_opt(page@.og_title), norm_opt(page@.title_text)),
            scripts == page@.ld_json,
            audio0 == audio_url.deep_view(),
            audio0 == norm_opt(page@.og_audio),
            target == scan_ld_json(scripts, norm_opt(page@.description), audio0),
            target == scan_ld_json(scripts.skip(i as int), lyrics.deep_view(), audio0),
    {
        assert(scripts.skip(i as int).drop_first() == scripts.skip(i + 1));
        assert(scripts.skip(i as int)[0] == ld_view_opt(page.ld_json@[i as int]));
        match &page.ld_json[i] {
            None => {},
            Some(f) => {
                let ghost rest = scripts.skip(i as int);
                assert(rest.len() > 0 && rest[0] == Some(f@));
                let candidate = ld_json_candidate(f);
                if lyrics.is_none() && candidate.is_some() {
                    lyrics = candidate;
                }
                if audio_url.is_none() {
                    let found = normalize_opt(&f.audio_content_url);
                    if found.is_some() {
                        return SongMetadata {
                            source_url: String::from_str(source_url),
                            title,
                            lyrics,
                            audio_url: found,
                            local_audio_path: None,
                        };
                    }
                }
            },
        }
    }
    assert(scripts.skip(n as int).len() == 0);
    SongMetadata {
        source_url: String::from_str(source_url),
        title,
        lyrics,
        audio_url,
        local_audio_path: None,
    }
}


/// The attribute value of the first selected element, if any.
pub open spec fn first_attr(sel: Seq<(Option<Seq<char>>, Seq<char>)>) -> Option<Seq<char>> {
    if sel.len() > 0 {
        sel[0].0
    } else {
        None
    }
}

/// The text of the first selected element, if any.
pub open spec fn first_text(sel: Seq<(Option<Seq<char>>, Seq<char>)>) -> Option<Seq<char>> {
    if sel.len() > 0 {
        Some(sel[0].1)
    } else {
        None
    }
}

/// The string found at `pointer` in a payload known to parse.
pub open spec fn json_field(payload: Seq<char>, pointer: Seq<char>) -> Option<Seq<char>> {
    match json_lookup(payload, pointer) {
        Some(v) => v,
        None => None,
    }
}

/// What a JSON-LD script with text `payload` offers: nothing when the text is
/// not JSON, else its string fields `lyrics`, `articleBody`, `description`
/// and `audio.contentUrl`.
pub open spec fn ld_json_of(payload: Seq<char>) -> Option<LdJsonView> {
    match json_lookup(payload, "/lyrics"@) {
        None => None,
        Some(lyrics) => Some(
            LdJsonView {
                lyrics,
                article_body: json_field(payload, "/articleBody"@),
                description: json_field(payload, "/description"@),
                audio_content_url: json_field(payload, "/audio/contentUrl"@),
            },
        ),
    }
}

/// Each field of a JSON-LD record is read at its own key: a script whose text
/// is JSON gives a record whose lyrics, article body, description and audio
/// address are the strings at `lyrics`, `articleBody`, `description` and
/// `audio.contentUrl`; a script whose text is not JSON gives no record.
pub proof fn law_ld_json_fields_read_at_their_keys(payload: Seq<char>)
    ensures
        ld_json_of(payload) is None <==> json_lookup(payload, "/lyrics"@) is None,
        ld_json_of(payload) matches Some(f) ==> {
            &&& json_lookup(payload, "/lyrics"@) == Some(f.lyrics)
            &&& json_lookup(payload, "/articleBody"@) matches Some(v) ==> f.article_body == v
            &&& json_lookup(payload, "/description"@) matches Some(v) ==> f.description == v
            &&& json_lookup(payload, "/audio/contentUrl"@) matches Some(v) ==> f.audio_content_url
                == v
        },
{
}

/// A page whose only lyrics source is the `description` of a JSON-LD record
/// gets that description, normalised, as its lyrics: when the page has no
/// description meta tag with words and its first script's JSON holds no
/// `lyrics` and no `articleBody` string but a `description` string `d`, the
/// lyrics are the normal form of `d`.
pub proof fn law_json_description_gives_lyrics(
    source_url: Seq<char>,
    page: PageView,
    payload: Seq<char>,
    d: Seq<char>,
)
    requires
        norm_opt(page.description) is None,
        page.ld_json.len() > 0,
        page.ld_json[0] == ld_json_of(payload),
        json_lookup(payload, "/lyrics"@) == Some(None::<Seq<char>>),
        json_lookup(payload, "/articleBody"@) == Some(None::<Seq<char>>),
        json_lookup(payload, "/description"@) == Some(Some(d)),
        normalize_spec(d) is Some,
    ensures
        metadata_spec(source_url, page).lyrics == normalize_spec(d),
{
    let f = ld_json_of(payload)->0;
    assert(ld_candidate(f) == normalize_spec(d));
    let found = norm_opt(f.audio_content_url);
    let audio = norm_opt(page.og_audio);
    lemma_norm_opt_normal(page.og_audio);
    law_normalize_idempotent(d);
    lemma_scan_normal(page.ld_json.drop_first(), normalize_spec(d), audio);
}

/// A JSON-LD record offers as lyrics its `lyrics` string when it has one,
/// else its `articleBody` string when it has one, else its `description`
/// string, in each case normalised.
pub proof fn law_ld_lyrics_precedence(f: LdJsonView)
    ensures
        f.lyrics matches Some(l) ==> ld_candidate(f) == normalize_spec(l),
        f.lyrics is None ==> (f.article_body matches Some(b) ==> ld_candidate(f) == normalize_spec(b)),
        f.lyrics is None && f.article_body is None ==> ld_candidate(f) == norm_opt(f.description),
{
}

/// The page is read with the documented selectors: the title from the
/// `content` of `meta[property='og:title']` or else the text of `title`, the
/// audio address from `meta[property='og:audio']`, the description from
/// `meta[name='description']` or `meta[property='og:description']`, and the
/// records from the texts of `script[type='application/ld+json']`.
pub proof fn law_page_selectors(html: Seq<char>)
    ensures
        page_of_html(html).og_title == first_attr(
            html_select(html, "meta[property='og:title']"@, "content"@),
        ),
        page_of_html(html).title_text == first_text(html_select(html, "title"@, "content"@)),
        page_of_html(html).og_audio == first_attr(
            html_select(html, "meta[property='og:audio']"@, "content"@),
        ),
        page_of_html(html).description == first_attr(
            html_select(
                html,
                "meta[name='description'], meta[property='og:description']"@,
                "content"@,
            ),
        ),
        page_of_html(html).ld_json.len() == html_select(
            html,
            "script[type='application/ld+json']"@,
            "content"@,
        ).len(),
        forall|k: int|
            0 <= k < page_of_html(html).ld_json.len() ==> #[trigger] page_of_html(html).ld_json[k]
                == ld_json_of(
                html_select(html, "script[type='application/ld+json']"@, "content"@)[k].1,
            ),
{
}

/// What the page `html` shows, as the extraction reads it.
pub open spec fn page_of_html(html: Seq<char>) -> PageView {
    PageView {
        og_title: first_attr(html_select(html, "meta[property='og:title']"@, "content"@)),
        title_text: first_text(html_select(html, "title"@, "content"@)),
        og_audio: first_attr(html_select(html, "meta[property='og:audio']"@, "content"@)),
        description: first_attr(
            html_select(
                html,
                "meta[name='description'], meta[property='og:description']"@,
                "content"@,
            ),
        ),
        ld_json: html_select(html, "script[type='application/ld+json']"@, "content"@).map_values(
            |e: (Option<Seq<char>>, Seq<char>)| ld_json_of(e.1),
        ),
    }
}

fn first_attr_of(sel: &Vec<SelectedElement>) -> (res: Option<String>)
    ensures
        res.deep_view() == first_attr(sel@.map_values(|e: SelectedElement| e@)),
{
    if sel.len() > 0 {
        clone_opt(&sel[0].attr)
    } else {
        None
    }
}

fn first_text_of(sel: &Vec<SelectedElement>) -> (res: Option<String>)
    ensures
        res.deep_view() == first_text(sel@.map_values(|e: SelectedElement| e@)),
{
    if sel.len() > 0 {
        Some(sel[0].text.clone())
    } else {
        None
    }
}

/// Reads the string fields of one JSON-LD script (see [`ld_json_of`]).
fn read_ld_json(payload: &str) -> (res: Option<LdJsonFields>)
    ensures
        ld_view_opt(res) == ld_json_of(payload@),
{
    let lyrics = match json_string_at(payload, "/lyrics") {
        Ok(v) => v,
        Err(_) => return None,
    };
    let article_body = match json_string_at(payload, "/articleBody") {
        Ok(v) => v,
        Err(_) => None,
    };
    let description = match json_string_at(payload, "/description") {
        Ok(v) => v,
        Err(_) => None,
    };
    let audio_content_url = match json_string_at(payload, "/audio/contentUrl") {
        Ok(v) => v,
        Err(_) => None,
    };
    Some(LdJsonFields { lyrics, article_body, description, audio_content_url })
}

/// Reads from the page `html` what the metadata extraction needs.
pub fn page_facts(html: &str) -> (res: PageFacts)
    ensures
        res@ == page_of_html(html@),
{
    let og_title = first_attr_of(&select_elements(html, "meta[property='og:title']", "content"));
    let title_text = first_text_of(&select_elements(html, "title", "content"));
    let og_audio = first_attr_of(&select_elements(html, "meta[property='og:audio']", "content"));
    let description = first_attr_of(
        &select_elements(
            html,
            "meta[name='description'], meta[property='og:description']",
            "content",
        ),
    );
    let scripts = select_elements(html, "script[type='application/ld+json']", "content");
    let ghost sel = scripts@.map_values(|e: SelectedElement| e@);
    let mut ld_json: Vec<Option<LdJsonFields>> = Vec::new();
    let n = scripts.len();
    for i in 0..n
        invariant
            n == scripts@.len(),
            sel == scripts@.map_values(|e: SelectedElement| e@),
            ld_json@.len() == i,
            forall|k: int|
                0 <= k < i ==> ld_view_opt(#[trigger] ld_json@[k]) == ld_json_of(sel[k].1),
    {
        ld_json.push(read_ld_json(scripts[i].text.as_str()));
    }
    let res = PageFacts { og_title, title_text, og_audio, description, ld_json };
    assert(res@.ld_json =~= sel.map_values(|e: (Option<Seq<char>>, Seq<char>)| ld_json_of(e.1)));
    res
}

/// Extracts the metadata of the song at `source_url` from its page `html`:
/// the page is read as [`page_facts`] does and the metadata built as
/// [`metadata_from_page`] does.
pub fn parse_metadata_from_html(source_url: &str, html: &str) -> (res: SongMetadata)
    ensures
        res@ == metadata_spec(source_url@, page_of_html(html@)),
{
    let page = page_facts(html);
    metadata_from_page(source_url, &page)
}


/// The text is absent or already in normal form.
pub open spec fn is_normal_opt(x: Option<Seq<char>>) -> bool {
    x matches Some(t) ==> normalize_spec(t) == Some(t)
}

proof fn lemma_norm_opt_normal(x: Option<Seq<char>>)
    ensures
        is_normal_opt(norm_opt(x)),
{
    if let Some(s) = x {
        law_normalize_idempotent(s);
    }
}

proof fn lemma_scan_normal(
    scripts: Seq<Option<LdJsonView>>,
    lyrics: Option<Seq<char>>,
    audio: Option<Seq<char>>,
)
    requires
        is_normal_opt(lyrics),
        is_normal_opt(audio),
    ensures
        is_normal_opt(scan_ld_json(scripts, lyrics, audio).0),
        is_normal_opt(scan_ld_json(scripts, lyrics, audio).1),
        lyrics is Some ==> scan_ld_json(scripts, lyrics, audio).0 == lyrics,
        audio is Some ==> scan_ld_json(scripts, lyrics, audio).1 == audio,
    decreases scripts.len(),
{
    if scripts.len() > 0 {
        if let Some(f) = scripts[0] {
            lemma_norm_opt_normal(or_else(f.lyrics, or_else(f.article_body, f.description)));
            lemma_norm_opt_normal(f.audio_content_url);
            let cand = ld_candidate(f);
            let lyrics2 = if lyrics is None && cand is Some {
                cand
            } else {
                lyrics
            };
            lemma_scan_normal(scripts.drop_first(), lyrics2, audio);
        } else {
            lemma_scan_normal(scripts.drop_first(), lyrics, audio);
        }
    }
}

/// Every text of extracted metadata is in normal form: the title, lyrics and
/// audio address, when present, come out of `normalize_text` unchanged.
pub proof fn law_metadata_texts_normalized(source_url: Seq<char>, page: PageView)
    ensures
        is_normal_opt(metadata_spec(source_url, page).title),
        is_normal_opt(metadata_spec(source_url, page).lyrics),
        is_normal_opt(metadata_spec(source_url, page).audio_url),
{
    lemma_norm_opt_normal(page.og_title);
    lemma_norm_opt_normal(page.title_text);
    lemma_norm_opt_normal(page.og_audio);
    lemma_norm_opt_normal(page.description);
    lemma_scan_normal(page.ld_json, norm_opt(page.description), norm_opt(page.og_audio));
}

/// The page's own tags come first: a page description with words gives the
/// lyrics and an `og:audio` with words gives the audio address, whatever the
/// JSON-LD scripts hold; an `og:title` with words gives the title.
pub proof fn law_page_tags_take_precedence(source_url: Seq<char>, page: PageView)
    ensures
        norm_opt(page.description) is Some ==> metadata_spec(source_url, page).lyrics == norm_opt(
            page.description,
        ),
        norm_opt(page.og_audio) is Some ==> metadata_spec(source_url, page).audio_url == norm_opt(
            page.og_audio,
        ),
        norm_opt(page.og_title) is Some ==> metadata_spec(source_url, page).title == norm_opt(
            page.og_title,
        ),
        norm_opt(page.og_title) is None ==> metadata_spec(source_url, page).title == norm_opt(
            page.title_text,
        ),
        metadata_spec(source_url, page).source_url == source_url,
        metadata_spec(source_url, page).local_audio_path is None,
{
    lemma_norm_opt_normal(page.og_audio);
    lemma_norm_opt_normal(page.description);
    lemma_scan_normal(page.ld_json, norm_opt(page.description), norm_opt(page.og_audio));
}

proof fn lemma_scan_skips_non_json(
    s1: Seq<Option<LdJsonView>>,
    s2: Seq<Option<LdJsonView>>,
    lyrics: Option<Seq<char>>,
    audio: Option<Seq<char>>,
)
    ensures
        scan_ld_json(s1 + seq![None] + s2, lyrics, audio) == scan_ld_json(s1 + s2, lyrics, audio),
    decreases s1.len(),
{
    let with = s1 + seq![None] + s2;
    if s1.len() == 0 {
        assert(with[0] is None);
        assert(with.drop_first() == s2);
        assert(s1 + s2 == s2);
    } else {
        let t1 = s1.drop_first();
        assert(with.drop_first() == t1 + seq![None] + s2);
        assert((s1 + s2).drop_first() == t1 + s2);
        assert(with[0] == s1[0]);
        assert((s1 + s2)[0] == s1[0]);
        match s1[0] {
            None => lemma_scan_skips_non_json(t1, s2, lyrics, audio),
            Some(f) => {
                let cand = ld_candidate(f);
                let lyrics2 = if lyrics is None && cand is Some {
                    cand
                } else {
                    lyrics
                };
                lemma_scan_skips_non_json(t1, s2, lyrics2, audio);
            },
        }
    }
}

/// A JSON-LD script whose text is not JSON changes nothing: inserting one
/// anywhere among a page's scripts leaves the extracted metadata unchanged.
pub proof fn law_non_json_script_ignored(source_url: Seq<char>, page: PageView, i: int)
    requires
        0 <= i <= page.ld_json.len(),
    ensures
        metadata_spec(
            source_url,
            PageView { ld_json: page.ld_json.insert(i, None), ..page },
        ) == metadata_spec(source_url, page),
{
    let s1 = page.ld_json.subrange(0, i);
    let s2 = page.ld_json.subrange(i, page.ld_json.len() as int);
    assert(page.ld_json.insert(i, None) == s1 + seq![None] + s2);
    assert(page.ld_json == s1 + s2);
    lemma_scan_skips_non_json(s1, s2, norm_opt(page.description), norm_opt(page.og_audio));
}

/// Ends an import once the song page has been fetched: a page gives the
/// metadata extracted from it, with the validated address as source; a failed
/// fetch gives `ImportError::Download` with the failure's detail.
pub fn import_from_page(validated: &ParsedUrl, download: Result<String, String>) -> (res: Result<
    SongMetadata,
    ImportError,
>)
    ensures
        match download {
            Ok(html) => res matches Ok(song) && song@ == metadata_spec(
                validated.serialization@,
                page_of_html(html@),
            ),
            Err(detail) => res matches Err(ImportError::Download(d)) && d@ == detail@,
        },
{
    match download {
        Ok(html) => Ok(parse_metadata_from_html(validated.as_str(), html.as_str())),
        Err(detail) => Err(ImportError::Download(detail)),
    }
}

} // verus!
