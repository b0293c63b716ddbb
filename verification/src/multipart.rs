//! Multipart upload requests: their fields, the forms they turn into, and
//! how an upload's response is told apart.

use vstd::prelude::*;

use crate::base_url::{endpoint, endpoint_url};
use crate::client::Client;
use crate::text::opt_view;

verus! {

/// A multipart form of `reqwest`.
#[verifier::external_type_specification]
#[verifier::external_body]
pub struct ExForm(reqwest::multipart::Form);

/// One part of a multipart form of `reqwest`.
#[verifier::external_type_specification]
#[verifier::external_body]
pub struct ExPart(reqwest::multipart::Part);

/// A form field: its name and its part.
pub type FormField = (Seq<char>, reqwest::multipart::Part);

/// The fields of a form (`Form`'s list of named parts) in the order they
/// were added.
pub uninterp spec fn form_fields(form: reqwest::multipart::Form) -> Seq<FormField>;

/// What `Part::text` makes of a text: a part whose body is the text and
/// which has no file name or MIME type.
pub uninterp spec fn text_part(value: Seq<char>) -> reqwest::multipart::Part;

/// `Form::new` makes a form without fields.
#[verifier::external_body]
fn form_new() -> (r: reqwest::multipart::Form)
    ensures
        form_fields(r) == Seq::<FormField>::empty(),
{
    reqwest::multipart::Form::new()
}

/// `Form::text` appends a text field; its source is `self.part(name,
/// Part::text(value))`, which pushes the named part onto the form's list of
/// fields.
#[verifier::external_body]
fn form_text(form: reqwest::multipart::Form, name: &'static str, value: String) -> (r:
    reqwest::multipart::Form)
    ensures
        form_fields(r) == form_fields(form).push((name@, text_part(value@))),
{
    form.text(name, value)
}

/// `Form::part` appends a part; its source pushes the part onto the form's
/// list of fields.
#[verifier::external_body]
fn form_part(form: reqwest::multipart::Form, name: &'static str, part: reqwest::multipart::Part) -> (r:
    reqwest::multipart::Form)
    ensures
        form_fields(r) == form_fields(form).push((name@, part)),
{
    form.part(name, part)
}

/// The field that an optional text adds to a form: none when the text is
/// missing or empty.
pub open spec fn optional_field(name: Seq<char>, value: Option<Seq<char>>) -> Seq<
    FormField,
> {
    match value {
        Some(v) => if v.len() > 0 {
            seq![(name, text_part(v))]
        } else {
            Seq::empty()
        },
        None => Seq::empty(),
    }
}

/// The text of a boolean form value.
pub open spec fn bool_text(b: bool) -> Seq<char> {
    if b {
        "true"@
    } else {
        "false"@
    }
}

/// The field that an optional boolean adds to a form.
pub open spec fn optional_bool_field(name: Seq<char>, value: Option<bool>) -> Seq<
    FormField,
> {
    match value {
        Some(b) => seq![(name, text_part(bool_text(b)))],
        None => Seq::empty(),
    }
}

/// Appends a text field when the value is present and not empty.
fn optional_text(form: reqwest::multipart::Form, name: &'static str, value: Option<String>) -> (r:
    reqwest::multipart::Form)
    ensures
        form_fields(r) == form_fields(form) + optional_field(name@, opt_view(value)),
{
    match value {
        Some(v) => {
            if v.as_str().unicode_len() > 0 {
                let r = form_text(form, name, v);
                assert(form_fields(r) =~= form_fields(form) + optional_field(name@, opt_view(value)));
                r
            } else {
                assert(form_fields(form) =~= form_fields(form) + optional_field(name@, opt_view(value)));
                form
            }
        },
        None => {
            assert(form_fields(form) =~= form_fields(form) + optional_field(name@, opt_view(value)));
            form
        },
    }
}

/// Appends a boolean field, written `true` or `false`, when it is present.
fn optional_bool(form: reqwest::multipart::Form, name: &'static str, value: Option<bool>) -> (r:
    reqwest::multipart::Form)
    ensures
        form_fields(r) == form_fields(form) + optional_bool_field(name@, value),
{
    let text = match value {
        Some(b) => {
            let t = if b {
                String::from_str("true")
            } else {
                String::from_str("false")
            };
            proof {
                reveal_strlit("true");
                reveal_strlit("false");
            }
            Some(t)
        },
        None => None,
    };
    assert(optional_field(name@, opt_view(text)) =~= optional_bool_field(name@, value));
    optional_text(form, name, text)
}

/// Multipart request for `POST /data/import/upload`.
pub struct DataImportUploadRequest {
    /// ZIP file part.
    pub file: reqwest::multipart::Part,
    /// Import conflict behavior: `merge`, `skip`, or `overwrite`.
    pub mode: Option<String>,
    pub include_memories: Option<bool>,
    pub include_threads: Option<bool>,
    pub include_messages: Option<bool>,
    pub include_entities: Option<bool>,
    pub include_labels: Option<bool>,
    pub include_sources: Option<bool>,
    pub include_communities: Option<bool>,
    pub include_skills: Option<bool>,
    pub include_edges: Option<bool>,
    pub include_working_memory: Option<bool>,
    pub include_working_memory_archive: Option<bool>,
    pub include_source_files: Option<bool>,
}

/// The fields of the form of a data import upload.
pub open spec fn import_form_fields(req: DataImportUploadRequest) -> Seq<
    FormField,
> {
    seq![("file"@, req.file)] + optional_field("mode"@, opt_view(req.mode)) + optional_bool_field(
        "include_memories"@,
        req.include_memories,
    ) + optional_bool_field("include_threads"@, req.include_threads) + optional_bool_field(
        "include_messages"@,
        req.include_messages,
    ) + optional_bool_field("include_entities"@, req.include_entities) + optional_bool_field(
        "include_labels"@,
        req.include_labels,
    ) + optional_bool_field("include_sources"@, req.include_sources) + optional_bool_field(
        "include_communities"@,
        req.include_communities,
    ) + optional_bool_field("include_skills"@, req.include_skills) + optional_bool_field(
        "include_edges"@,
        req.include_edges,
    ) + optional_bool_field("include_working_memory"@, req.include_working_memory)
        + optional_bool_field(
        "include_working_memory_archive"@,
        req.include_working_memory_archive,
    ) + optional_bool_field("include_source_files"@, req.include_source_files)
}

impl DataImportUploadRequest {
    /// Create a data import upload request from a multipart file part.
    pub fn new(file: reqwest::multipart::Part) -> (r: Self)
        ensures
            r.file == file,
            r.mode is None,
            r.include_memories is None,
            r.include_threads is None,
            r.include_messages is None,
            r.include_entities is None,
            r.include_labels is None,
            r.include_sources is None,
            r.include_communities is None,
            r.include_skills is None,
            r.include_edges is None,
            r.include_working_memory is None,
            r.include_working_memory_archive is None,
            r.include_source_files is None,
    {
        DataImportUploadRequest {
            file,
            mode: None,
            include_memories: None,
            include_threads: None,
            include_messages: None,
            include_entities: None,
            include_labels: None,
            include_sources: None,
            include_communities: None,
            include_skills: None,
            include_edges: None,
            include_working_memory: None,
            include_working_memory_archive: None,
            include_source_files: None,
        }
    }

    /// The multipart form of this request: the file, then each option that
    /// is set.
    pub fn into_form(self) -> (r: reqwest::multipart::Form)
        ensures
            form_fields(r) == import_form_fields(self),
    {
        let ghost req = self;
        let form = form_part(form_new(), "file", self.file);
        let form = optional_text(form, "mode", self.mode);
        let form = optional_bool(form, "include_memories", self.include_memories);
        let form = optional_bool(form, "include_threads", self.include_threads);
        let form = optional_bool(form, "include_messages", self.include_messages);
        let form = optional_bool(form, "include_entities", self.include_entities);
        let form = optional_bool(form, "include_labels", self.include_labels);
        let form = optional_bool(form, "include_sources", self.include_sources);
        let form = optional_bool(form, "include_communities", self.include_communities);
        let form = optional_bool(form, "include_skills", self.include_skills);
        let form = optional_bool(form, "include_edges", self.include_edges);
        let form = optional_bool(form, "include_working_memory", self.include_working_memory);
        let form = optional_bool(
            form,
            "include_working_memory_archive",
            self.include_working_memory_archive,
        );
        let form = optional_bool(form, "include_source_files", self.include_source_files);
        assert(form_fields(form) =~= import_form_fields(req));
        form
    }
}

/// Multipart request for `POST /sources/ingest/file`.
pub struct SourceFileUploadRequest {
    /// File part.
    pub file: reqwest::multipart::Part,
    pub user_comment: Option<String>,
    /// Comma-separated labels, matching the server's multipart contract.
    pub labels: Option<String>,
    /// JSON-encoded metadata string, matching the server's multipart contract.
    pub metadata: Option<String>,
    pub space_id: Option<String>,
}

/// The fields of the form of a source file upload.
pub open spec fn source_file_form_fields(req: SourceFileUploadRequest) -> Seq<
    FormField,
> {
    seq![("file"@, req.file)] + optional_field("user_comment"@, opt_view(req.user_comment))
        + optional_field("labels"@, opt_view(req.labels)) + optional_field(
        "metadata"@,
        opt_view(req.metadata),
    ) + optional_field("space_id"@, opt_view(req.space_id))
}

impl SourceFileUploadRequest {
    /// Create a source file upload request from a multipart file part.
    pub fn new(file: reqwest::multipart::Part) -> (r: Self)
        ensures
            r.file == file,
            r.user_comment is None,
            r.labels is None,
            r.metadata is None,
            r.space_id is None,
    {
        SourceFileUploadRequest { file, user_comment: None, labels: None, metadata: None, space_id: None }
    }

    /// The multipart form of this request: the file, then each non-empty
    /// option.
    pub fn into_form(self) -> (r: reqwest::multipart::Form)
        ensures
            form_fields(r) == source_file_form_fields(self),
    {
        let ghost req = self;
        let form = form_part(form_new(), "file", self.file);
        let form = optional_text(form, "user_comment", self.user_comment);
        let form = optional_text(form, "labels", self.labels);
        let form = optional_text(form, "metadata", self.metadata);
        let form = optional_text(form, "space_id", self.space_id);
        assert(form_fields(form) =~= source_file_form_fields(req));
        form
    }
}

/// A single file in a folder upload.
pub struct FolderUploadFile {
    /// File part. Set a filename on the part when the server should preserve it.
    pub file: reqwest::multipart::Part,
}

impl FolderUploadFile {
    /// Create a folder upload file from a multipart file part.
    pub fn new(file: reqwest::multipart::Part) -> (r: Self)
        ensures
            r.file == file,
    {
        FolderUploadFile { file }
    }
}

/// Multipart request for `POST /sources/ingest/folder-upload`.
pub struct SourceFolderUploadRequest {
    pub files: Vec<FolderUploadFile>,
    pub folder_name: String,
    /// JSON-encoded manifest of folder-relative paths.
    pub file_manifest: Option<String>,
    pub user_comment: Option<String>,
    /// Comma-separated labels, matching the server's multipart contract.
    pub labels: Option<String>,
    pub space_id: Option<String>,
    pub emit_feed_event: Option<bool>,
    /// JSON-encoded accumulated totals.
    pub accumulated_totals: Option<String>,
}

/// Why a folder upload request is refused before it is sent.
#[derive(Clone, Copy, Debug, PartialEq, Eq, Structural)]
pub enum FolderUploadError {
    /// The folder name is empty.
    FolderNameRequired,
    /// There is no file to upload.
    FileRequired,
}

impl FolderUploadError {
    /// The message sent back for this error.
    pub fn message(&self) -> (r: String)
        ensures
            r@ == match self {
                FolderUploadError::FolderNameRequired => "folder_name is required"@,
                FolderUploadError::FileRequired => "at least one file is required"@,
            },
    {
        match self {
            FolderUploadError::FolderNameRequired => String::from_str("folder_name is required"),
            FolderUploadError::FileRequired => String::from_str("at least one file is required"),
        }
    }
}

/// The parts of `files`, each named `files`, in order.
pub open spec fn file_fields(files: Seq<FolderUploadFile>) -> Seq<FormField> {
    files.map_values(|f: FolderUploadFile| ("files"@, f.file))
}

/// The fields of the form of a folder upload.
pub open spec fn folder_form_fields(req: SourceFolderUploadRequest) -> Seq<
    FormField,
> {
    seq![("folder_name"@, text_part(req.folder_name@))] + file_fields(req.files@)
        + optional_field("file_manifest"@, opt_view(req.file_manifest)) + optional_field(
        "user_comment"@,
        opt_view(req.user_comment),
    ) + optional_field("labels"@, opt_view(req.labels)) + optional_field(
        "space_id"@,
        opt_view(req.space_id),
    ) + optional_bool_field("emit_feed_event"@, req.emit_feed_event) + optional_field(
        "accumulated_totals"@,
        opt_view(req.accumulated_totals),
    )
}

impl SourceFolderUploadRequest {
    /// Create a folder upload request.
    pub fn new(folder_name: &str, files: Vec<FolderUploadFile>) -> (r: Self)
        ensures
            r.folder_name@ == folder_name@,
            r.files == files,
            r.file_manifest is None,
            r.user_comment is None,
            r.labels is None,
            r.space_id is None,
            r.emit_feed_event is None,
            r.accumulated_totals is None,
    {
        SourceFolderUploadRequest {
            files,
            folder_name: String::from_str(folder_name),
            file_manifest: None,
            user_comment: None,
            labels: None,
            space_id: None,
            emit_feed_event: None,
            accumulated_totals: None,
        }
    }

    /// The multipart form of this request: the folder name, every file, then
    /// each option that is set. A request without a folder name, or else
    /// without files, is refused.
    pub fn into_form(self) -> (r: Result<reqwest::multipart::Form, FolderUploadError>)
        ensures
            self.folder_name@.len() == 0 ==> r == Err::<reqwest::multipart::Form, FolderUploadError>(
                FolderUploadError::FolderNameRequired,
            ),
            self.folder_name@.len() > 0 && self.files@.len() == 0 ==> r == Err::<
                reqwest::multipart::Form,
                FolderUploadError,
            >(FolderUploadError::FileRequired),
            self.folder_name@.len() > 0 && self.files@.len() > 0 ==> (r matches Ok(form)
                && form_fields(form) == folder_form_fields(self)),
    {
        let ghost req = self;
        if self.folder_name.as_str().unicode_len() == 0 {
            return Err(FolderUploadError::FolderNameRequired);
        }
        if self.files.len() == 0 {
            return Err(FolderUploadError::FileRequired);
        }
        let mut form = form_text(form_new(), "folder_name", self.folder_name);
        let ghost head = form_fields(form);
        let ghost all = self.files@;
        assert(all.take(0) =~= Seq::<FolderUploadFile>::empty());
        for file in iter: self.files.into_iter()
            invariant
                iter.seq() == all,
                form_fields(form) == head + file_fields(all.take(iter.index() as int)),
        {
            let ghost k = iter.index() as int;
            assert(all.take(k + 1) =~= all.take(k).push(all[k]));
            form = form_part(form, "files", file.file);
            assert(file_fields(all.take(k + 1)) =~= file_fields(all.take(k)).push(
                ("files"@, all[k].file),
            ));
            assert(form_fields(form) =~= head + file_fields(all.take(k + 1)));
        }
        assert(all.take(all.len() as int) =~= all);
        let form = optional_text(form, "file_manifest", self.file_manifest);
        let form = optional_text(form, "user_comment", self.user_comment);
        let form = optional_text(form, "labels", self.labels);
        let form = optional_text(form, "space_id", self.space_id);
        let form = optional_bool(form, "emit_feed_event", self.emit_feed_event);
        let form = optional_text(form, "accumulated_totals", self.accumulated_totals);
        assert(form_fields(form) =~= folder_form_fields(req));
        Ok(form)
    }
}

/// Path of the data import upload endpoint.
pub const DATA_IMPORT_UPLOAD_PATH: &'static str = "/data/import/upload";

/// Path of the source file upload endpoint.
pub const SOURCE_FILE_UPLOAD_PATH: &'static str = "/sources/ingest/file";

/// Path of the source folder upload endpoint.
pub const SOURCE_FOLDER_UPLOAD_PATH: &'static str = "/sources/ingest/folder-upload";

/// How the response to an upload is read.
#[derive(Clone, Copy, Debug, PartialEq, Eq, Structural)]
pub enum UploadResponseKind {
    /// `200`: the body is the endpoint's result.
    Success,
    /// `422`: the body describes the validation error.
    ValidationError,
    /// Any other status: the response is handed back as it is.
    Unexpected,
}

/// How the response to an upload with HTTP status `status` is read.
pub fn upload_response_kind(status: u16) -> (r: UploadResponseKind)
    ensures
        r == (if status == 200 {
            UploadResponseKind::Success
        } else if status == 422 {
            UploadResponseKind::ValidationError
        } else {
            UploadResponseKind::Unexpected
        }),
{
    if status == 200 {
        UploadResponseKind::Success
    } else if status == 422 {
        UploadResponseKind::ValidationError
    } else {
        UploadResponseKind::Unexpected
    }
}

impl<H> Client<H> {
    /// The URL that an upload to `path` is posted to.
    pub fn upload_url(&self, path: &str) -> (r: String)
        ensures
            r@ == endpoint(self@.request_base, path@),
    {
        endpoint_url(self.baseurl(), path)
    }
}

/// Holds of the fields named `name`.
pub open spec fn has_name(name: Seq<char>) -> spec_fn(FormField) -> bool {
    |f: FormField| f.0 == name
}

/// The parts of `fields` that are named `name`, in order.
pub open spec fn parts_named(fields: Seq<FormField>, name: Seq<char>) -> Seq<
    reqwest::multipart::Part,
> {
    fields.filter(has_name(name)).map_values(|f: FormField| f.1)
}

/// What a text option should send: one text part holding the text when it
/// is set and not empty, and nothing otherwise.
pub open spec fn sent_text(value: Option<Seq<char>>) -> Seq<reqwest::multipart::Part> {
    if value is Some && value->0.len() > 0 {
        seq![text_part(value->0)]
    } else {
        Seq::empty()
    }
}

/// What a boolean option should send: one text part holding `true` or
/// `false`, as Rust writes the boolean, when it is set.
pub open spec fn sent_bool(value: Option<bool>) -> Seq<reqwest::multipart::Part> {
    match value {
        Some(true) => seq![text_part("true"@)],
        Some(false) => seq![text_part("false"@)],
        None => Seq::empty(),
    }
}

proof fn lemma_parts_named_add(a: Seq<FormField>, b: Seq<FormField>, name: Seq<char>)
    ensures
        parts_named(a + b, name) == parts_named(a, name) + parts_named(b, name),
{
    Seq::filter_distributes_over_add(a, b, has_name(name));
    assert(parts_named(a + b, name) =~= parts_named(a, name) + parts_named(b, name));
}

proof fn lemma_parts_named_one(field: FormField, name: Seq<char>)
    ensures
        parts_named(seq![field], name) == (if field.0 == name {
            seq![field.1]
        } else {
            Seq::empty()
        }),
{
    let e = Seq::<FormField>::empty();
    assert(e.filter(has_name(name)) =~= e) by {
        reveal_with_fuel(Seq::filter, 1);
    }
    e.lemma_filter_push(field, has_name(name));
    assert(e.push(field) =~= seq![field]);
    assert(parts_named(seq![field], name) =~= (if field.0 == name {
        seq![field.1]
    } else {
        Seq::empty()
    }));
}

proof fn lemma_parts_named_empty(name: Seq<char>)
    ensures
        parts_named(Seq::empty(), name) == Seq::<reqwest::multipart::Part>::empty(),
{
    assert(Seq::<FormField>::empty().filter(has_name(name)) =~= Seq::<FormField>::empty()) by {
        reveal_with_fuel(Seq::filter, 1);
    }
    assert(parts_named(Seq::empty(), name) =~= Seq::<reqwest::multipart::Part>::empty());
}

proof fn lemma_parts_named_text(field: Seq<char>, value: Option<Seq<char>>, name: Seq<char>)
    ensures
        parts_named(optional_field(field, value), name) == (if field == name {
            sent_text(value)
        } else {
            Seq::empty()
        }),
{
    lemma_parts_named_empty(name);
    if value is Some && value->0.len() > 0 {
        lemma_parts_named_one((field, text_part(value->0)), name);
    }
}

proof fn lemma_parts_named_bool(field: Seq<char>, value: Option<bool>, name: Seq<char>)
    ensures
        parts_named(optional_bool_field(field, value), name) == (if field == name {
            sent_bool(value)
        } else {
            Seq::empty()
        }),
{
    lemma_parts_named_empty(name);
    if value is Some {
        lemma_parts_named_one((field, text_part(bool_text(value->0))), name);
    }
}

proof fn lemma_parts_named_files(files: Seq<FolderUploadFile>, name: Seq<char>)
    ensures
        parts_named(file_fields(files), name) == (if name == "files"@ {
            files.map_values(|f: FolderUploadFile| f.file)
        } else {
            Seq::empty()
        }),
    decreases files.len(),
{
    if files.len() == 0 {
        assert(file_fields(files) =~= Seq::<FormField>::empty());
        lemma_parts_named_empty(name);
        assert(files.map_values(|f: FolderUploadFile| f.file) =~= Seq::<
            reqwest::multipart::Part,
        >::empty());
    } else {
        let init = files.drop_last();
        lemma_parts_named_files(init, name);
        assert(file_fields(files) =~= file_fields(init) + seq![("files"@, files.last().file)]);
        lemma_parts_named_add(file_fields(init), seq![("files"@, files.last().file)], name);
        lemma_parts_named_one(("files"@, files.last().file), name);
        assert(files.map_values(|f: FolderUploadFile| f.file) =~= init.map_values(
            |f: FolderUploadFile| f.file,
        ) + seq![files.last().file]);
    }
}

/// The parts of a folder upload's form under `name`, segment by segment.
proof fn lemma_folder_parts(req: SourceFolderUploadRequest, name: Seq<char>)
    ensures
        parts_named(folder_form_fields(req), name) == (if name == "folder_name"@ {
            seq![text_part(req.folder_name@)]
        } else {
            Seq::empty()
        }) + (if name == "files"@ {
            req.files@.map_values(|f: FolderUploadFile| f.file)
        } else {
            Seq::empty()
        }) + (if name == "file_manifest"@ {
            sent_text(opt_view(req.file_manifest))
        } else {
            Seq::empty()
        }) + (if name == "user_comment"@ {
            sent_text(opt_view(req.user_comment))
        } else {
            Seq::empty()
        }) + (if name == "labels"@ {
            sent_text(opt_view(req.labels))
        } else {
            Seq::empty()
        }) + (if name == "space_id"@ {
            sent_text(opt_view(req.space_id))
        } else {
            Seq::empty()
        }) + (if name == "emit_feed_event"@ {
            sent_bool(req.emit_feed_event)
        } else {
            Seq::empty()
        }) + (if name == "accumulated_totals"@ {
            sent_text(opt_view(req.accumulated_totals))
        } else {
            Seq::empty()
        }),
{
    let s1 = seq![("folder_name"@, text_part(req.folder_name@))];
    let s2 = file_fields(req.files@);
    let s3 = optional_field("file_manifest"@, opt_view(req.file_manifest));
    let s4 = optional_field("user_comment"@, opt_view(req.user_comment));
    let s5 = optional_field("labels"@, opt_view(req.labels));
    let s6 = optional_field("space_id"@, opt_view(req.space_id));
    let s7 = optional_bool_field("emit_feed_event"@, req.emit_feed_event);
    let s8 = optional_field("accumulated_totals"@, opt_view(req.accumulated_totals));
    lemma_parts_named_add(s1, s2, name);
    lemma_parts_named_add(s1 + s2, s3, name);
    lemma_parts_named_add(s1 + s2 + s3, s4, name);
    lemma_parts_named_add(s1 + s2 + s3 + s4, s5, name);
    lemma_parts_named_add(s1 + s2 + s3 + s4 + s5, s6, name);
    lemma_parts_named_add(s1 + s2 + s3 + s4 + s5 + s6, s7, name);
    lemma_parts_named_add(s1 + s2 + s3 + s4 + s5 + s6 + s7, s8, name);
    lemma_parts_named_one(("folder_name"@, text_part(req.folder_name@)), name);
    lemma_parts_named_files(req.files@, name);
    lemma_parts_named_text("file_manifest"@, opt_view(req.file_manifest), name);
    lemma_parts_named_text("user_comment"@, opt_view(req.user_comment), name);
    lemma_parts_named_text("labels"@, opt_view(req.labels), name);
    lemma_parts_named_text("space_id"@, opt_view(req.space_id), name);
    lemma_parts_named_bool("emit_feed_event"@, req.emit_feed_event, name);
    lemma_parts_named_text("accumulated_totals"@, opt_view(req.accumulated_totals), name);
}

proof fn lemma_folder_names_differ()
    ensures
        "folder_name"@.len() == 11,
        "files"@.len() == 5,
        "file_manifest"@.len() == 13,
        "user_comment"@.len() == 12,
        "labels"@.len() == 6,
        "space_id"@.len() == 8,
        "emit_feed_event"@.len() == 15,
        "accumulated_totals"@.len() == 18,
{
    reveal_strlit("folder_name");
    reveal_strlit("files");
    reveal_strlit("file_manifest");
    reveal_strlit("user_comment");
    reveal_strlit("labels");
    reveal_strlit("space_id");
    reveal_strlit("emit_feed_event");
    reveal_strlit("accumulated_totals");
}

/// A folder upload sends, under each field name, exactly what the request
/// holds for it: its folder name, every file in order under `files`, each
/// text option once when it is set and not empty, and `emit_feed_event` as
/// `true` or `false` when it is set.
pub proof fn lemma_folder_form_by_name(req: SourceFolderUploadRequest)
    ensures
        parts_named(folder_form_fields(req), "folder_name"@) == seq![text_part(req.folder_name@)],
        parts_named(folder_form_fields(req), "files"@) == req.files@.map_values(
            |f: FolderUploadFile| f.file,
        ),
        parts_named(folder_form_fields(req), "file_manifest"@) == sent_text(
            opt_view(req.file_manifest),
        ),
        parts_named(folder_form_fields(req), "user_comment"@) == sent_text(
            opt_view(req.user_comment),
        ),
        parts_named(folder_form_fields(req), "labels"@) == sent_text(opt_view(req.labels)),
        parts_named(folder_form_fields(req), "space_id"@) == sent_text(opt_view(req.space_id)),
        parts_named(folder_form_fields(req), "emit_feed_event"@) == sent_bool(req.emit_feed_event),
        parts_named(folder_form_fields(req), "accumulated_totals"@) == sent_text(
            opt_view(req.accumulated_totals),
        ),
{
    lemma_folder_names_differ();
    let e = Seq::<reqwest::multipart::Part>::empty();
    lemma_folder_parts(req, "folder_name"@);
    assert(parts_named(folder_form_fields(req), "folder_name"@) =~= seq![
        text_part(req.folder_name@),
    ]);
    lemma_folder_parts(req, "files"@);
    assert(parts_named(folder_form_fields(req), "files"@) =~= req.files@.map_values(
        |f: FolderUploadFile| f.file,
    ));
    lemma_folder_parts(req, "file_manifest"@);
    assert(parts_named(folder_form_fields(req), "file_manifest"@) =~= sent_text(
        opt_view(req.file_manifest),
    ));
    lemma_folder_parts(req, "user_comment"@);
    assert(parts_named(folder_form_fields(req), "user_comment"@) =~= sent_text(
        opt_view(req.user_comment),
    ));
    lemma_folder_parts(req, "labels"@);
    assert(parts_named(folder_form_fields(req), "labels"@) =~= sent_text(opt_view(req.labels)));
    lemma_folder_parts(req, "space_id"@);
    assert(parts_named(folder_form_fields(req), "space_id"@) =~= sent_text(
        opt_view(req.space_id),
    ));
    lemma_folder_parts(req, "emit_feed_event"@);
    assert(parts_named(folder_form_fields(req), "emit_feed_event"@) =~= sent_bool(
        req.emit_feed_event,
    ));
    lemma_folder_parts(req, "accumulated_totals"@);
    assert(parts_named(folder_form_fields(req), "accumulated_totals"@) =~= sent_text(
        opt_view(req.accumulated_totals),
    ));
}

/// The parts of a data import's form under `name`, segment by segment.
proof fn lemma_import_parts(req: DataImportUploadRequest, name: Seq<char>)
    ensures
        parts_named(import_form_fields(req), name) == (if name == "file"@ {
            seq![req.file]
        } else {
            Seq::empty()
        }) + (if name == "mode"@ {
            sent_text(opt_view(req.mode))
        } else {
            Seq::empty()
        }) + (if name == "include_memories"@ {
            sent_bool(req.include_memories)
        } else {
            Seq::empty()
        }) + (if name == "include_threads"@ {
            sent_bool(req.include_threads)
        } else {
            Seq::empty()
        }) + (if name == "include_messages"@ {
            sent_bool(req.include_messages)
        } else {
            Seq::empty()
        }) + (if name == "include_entities"@ {
            sent_bool(req.include_entities)
        } else {
            Seq::empty()
        }) + (if name == "include_labels"@ {
            sent_bool(req.include_labels)
        } else {
            Seq::empty()
        }) + (if name == "include_sources"@ {
            sent_bool(req.include_sources)
        } else {
            Seq::empty()
        }) + (if name == "include_communities"@ {
            sent_bool(req.include_communities)
        } else {
            Seq::empty()
        }) + (if name == "include_skills"@ {
            sent_bool(req.include_skills)
        } else {
            Seq::empty()
        }) + (if name == "include_edges"@ {
            sent_bool(req.include_edges)
        } else {
            Seq::empty()
        }) + (if name == "include_working_memory"@ {
            sent_bool(req.include_working_memory)
        } else {
            Seq::empty()
        }) + (if name == "include_working_memory_archive"@ {
            sent_bool(req.include_working_memory_archive)
        } else {
            Seq::empty()
        }) + (if name == "include_source_files"@ {
            sent_bool(req.include_source_files)
        } else {
            Seq::empty()
        }),
{
    let s0 = seq![("file"@, req.file)];
    let s1 = optional_field("mode"@, opt_view(req.mode));
    let s2 = optional_bool_field("include_memories"@, req.include_memories);
    let s3 = optional_bool_field("include_threads"@, req.include_threads);
    let s4 = optional_bool_field("include_messages"@, req.include_messages);
    let s5 = optional_bool_field("include_entities"@, req.include_entities);
    let s6 = optional_bool_field("include_labels"@, req.include_labels);
    let s7 = optional_bool_field("include_sources"@, req.include_sources);
    let s8 = optional_bool_field("include_communities"@, req.include_communities);
    let s9 = optional_bool_field("include_skills"@, req.include_skills);
    let s10 = optional_bool_field("include_edges"@, req.include_edges);
    let s11 = optional_bool_field("include_working_memory"@, req.include_working_memory);
    let s12 = optional_bool_field("include_working_memory_archive"@, req.include_working_memory_archive);
    let s13 = optional_bool_field("include_source_files"@, req.include_source_files);
    lemma_parts_named_add(s0, s1, name);
    lemma_parts_named_add(s0 + s1, s2, name);
    lemma_parts_named_add(s0 + s1 + s2, s3, name);
    lemma_parts_named_add(s0 + s1 + s2 + s3, s4, name);
    lemma_parts_named_add(s0 + s1 + s2 + s3 + s4, s5, name);
    lemma_parts_named_add(s0 + s1 + s2 + s3 + s4 + s5, s6, name);
    lemma_parts_named_add(s0 + s1 + s2 + s3 + s4 + s5 + s6, s7, name);
    lemma_parts_named_add(s0 + s1 + s2 + s3 + s4 + s5 + s6 + s7, s8, name);
    lemma_parts_named_add(s0 + s1 + s2 + s3 + s4 + s5 + s6 + s7 + s8, s9, name);
    lemma_parts_named_add(s0 + s1 + s2 + s3 + s4 + s5 + s6 + s7 + s8 + s9, s10, name);
    lemma_parts_named_add(s0 + s1 + s2 + s3 + s4 + s5 + s6 + s7 + s8 + s9 + s10, s11, name);
    lemma_parts_named_add(s0 + s1 + s2 + s3 + s4 + s5 + s6 + s7 + s8 + s9 + s10 + s11, s12, name);
    lemma_parts_named_add(s0 + s1 + s2 + s3 + s4 + s5 + s6 + s7 + s8 + s9 + s10 + s11 + s12, s13, name);
    lemma_parts_named_one(("file"@, req.file), name);
    lemma_parts_named_text("mode"@, opt_view(req.mode), name);
    lemma_parts_named_bool("include_memories"@, req.include_memories, name);
    lemma_parts_named_bool("include_threads"@, req.include_threads, name);
    lemma_parts_named_bool("include_messages"@, req.include_messages, name);
    lemma_parts_named_bool("include_entities"@, req.include_entities, name);
    lemma_parts_named_bool("include_labels"@, req.include_labels, name);
    lemma_parts_named_bool("include_sources"@, req.include_sources, name);
    lemma_parts_named_bool("include_communities"@, req.include_communities, name);
    lemma_parts_named_bool("include_skills"@, req.include_skills, name);
    lemma_parts_named_bool("include_edges"@, req.include_edges, name);
    lemma_parts_named_bool("include_working_memory"@, req.include_working_memory, name);
    lemma_parts_named_bool("include_working_memory_archive"@, req.include_working_memory_archive, name);
    lemma_parts_named_bool("include_source_files"@, req.include_source_files, name);
}

proof fn lemma_import_names_differ()
    ensures
        "file"@.len() == 4,
        "mode"@.len() == 4,
        "include_memories"@.len() == 16,
        "include_threads"@.len() == 15,
        "include_messages"@.len() == 16,
        "include_entities"@.len() == 16,
        "include_labels"@.len() == 14,
        "include_sources"@.len() == 15,
        "include_communities"@.len() == 19,
        "include_skills"@.len() == 14,
        "include_edges"@.len() == 13,
        "include_working_memory"@.len() == 22,
        "include_working_memory_archive"@.len() == 30,
        "include_source_files"@.len() == 20,
        "file"@[0] != "mode"@[0],
        "include_memories"@[10] != "include_messages"@[10],
        "include_memories"@[8] != "include_entities"@[8],
        "include_messages"@[8] != "include_entities"@[8],
        "include_threads"@[8] != "include_sources"@[8],
        "include_labels"@[8] != "include_skills"@[8],
{
    reveal_strlit("file");
    reveal_strlit("mode");
    reveal_strlit("include_memories");
    reveal_strlit("include_threads");
    reveal_strlit("include_messages");
    reveal_strlit("include_entities");
    reveal_strlit("include_labels");
    reveal_strlit("include_sources");
    reveal_strlit("include_communities");
    reveal_strlit("include_skills");
    reveal_strlit("include_edges");
    reveal_strlit("include_working_memory");
    reveal_strlit("include_working_memory_archive");
    reveal_strlit("include_source_files");
}

/// A data import upload sends, under each field name, exactly what the
/// request holds for it: the file once under `file`, `mode` once when it is
/// set and not empty, and each `include_*` flag that is set as `true` or
/// `false`.
pub proof fn lemma_import_form_by_name(req: DataImportUploadRequest)
    ensures
        parts_named(import_form_fields(req), "file"@) == seq![req.file],
        parts_named(import_form_fields(req), "mode"@) == sent_text(opt_view(req.mode)),
        parts_named(import_form_fields(req), "include_memories"@) == sent_bool(req.include_memories),
        parts_named(import_form_fields(req), "include_threads"@) == sent_bool(req.include_threads),
        parts_named(import_form_fields(req), "include_messages"@) == sent_bool(req.include_messages),
        parts_named(import_form_fields(req), "include_entities"@) == sent_bool(req.include_entities),
        parts_named(import_form_fields(req), "include_labels"@) == sent_bool(req.include_labels),
        parts_named(import_form_fields(req), "include_sources"@) == sent_bool(req.include_sources),
        parts_named(import_form_fields(req), "include_communities"@) == sent_bool(req.include_communities),
        parts_named(import_form_fields(req), "include_skills"@) == sent_bool(req.include_skills),
        parts_named(import_form_fields(req), "include_edges"@) == sent_bool(req.include_edges),
        parts_named(import_form_fields(req), "include_working_memory"@) == sent_bool(req.include_working_memory),
        parts_named(import_form_fields(req), "include_working_memory_archive"@) == sent_bool(req.include_working_memory_archive),
        parts_named(import_form_fields(req), "include_source_files"@) == sent_bool(req.include_source_files),
{
    lemma_import_names_differ();
    lemma_import_parts(req, "file"@);
    assert(parts_named(import_form_fields(req), "file"@) =~= seq![req.file]);
    lemma_import_parts(req, "mode"@);
    assert(parts_named(import_form_fields(req), "mode"@) =~= sent_text(opt_view(req.mode)));
    lemma_import_parts(req, "include_memories"@);
    assert(parts_named(import_form_fields(req), "include_memories"@) =~= sent_bool(req.include_memories));
    lemma_import_parts(req, "include_threads"@);
    assert(parts_named(import_form_fields(req), "include_threads"@) =~= sent_bool(req.include_threads));
    lemma_import_parts(req, "include_messages"@);
    assert(parts_named(import_form_fields(req), "include_messages"@) =~= sent_bool(req.include_messages));
    lemma_import_parts(req, "include_entities"@);
    assert(parts_named(import_form_fields(req), "include_entities"@) =~= sent_bool(req.include_entities));
    lemma_import_parts(req, "include_labels"@);
    assert(parts_named(import_form_fields(req), "include_labels"@) =~= sent_bool(req.include_labels));
    lemma_import_parts(req, "include_sources"@);
    assert(parts_named(import_form_fields(req), "include_sources"@) =~= sent_bool(req.include_sources));
    lemma_import_parts(req, "include_communities"@);
    assert(parts_named(import_form_fields(req), "include_communities"@) =~= sent_bool(req.include_communities));
    lemma_import_parts(req, "include_skills"@);
    assert(parts_named(import_form_fields(req), "include_skills"@) =~= sent_bool(req.include_skills));
    lemma_import_parts(req, "include_edges"@);
    assert(parts_named(import_form_fields(req), "include_edges"@) =~= sent_bool(req.include_edges));
    lemma_import_parts(req, "include_working_memory"@);
    assert(parts_named(import_form_fields(req), "include_working_memory"@) =~= sent_bool(req.include_working_memory));
    lemma_import_parts(req, "include_working_memory_archive"@);
    assert(parts_named(import_form_fields(req), "include_working_memory_archive"@) =~= sent_bool(req.include_working_memory_archive));
    lemma_import_parts(req, "include_source_files"@);
    assert(parts_named(import_form_fields(req), "include_source_files"@) =~= sent_bool(req.include_source_files));
}

/// The parts of a source file upload's form under `name`, segment by segment.
proof fn lemma_source_file_parts(req: SourceFileUploadRequest, name: Seq<char>)
    ensures
        parts_named(source_file_form_fields(req), name) == (if name == "file"@ {
            seq![req.file]
        } else {
            Seq::empty()
        }) + (if name == "user_comment"@ {
            sent_text(opt_view(req.user_comment))
        } else {
            Seq::empty()
        }) + (if name == "labels"@ {
            sent_text(opt_view(req.labels))
        } else {
            Seq::empty()
        }) + (if name == "metadata"@ {
            sent_text(opt_view(req.metadata))
        } else {
            Seq::empty()
        }) + (if name == "space_id"@ {
            sent_text(opt_view(req.space_id))
        } else {
            Seq::empty()
        }),
{
    let s0 = seq![("file"@, req.file)];
    let s1 = optional_field("user_comment"@, opt_view(req.user_comment));
    let s2 = optional_field("labels"@, opt_view(req.labels));
    let s3 = optional_field("metadata"@, opt_view(req.metadata));
    let s4 = optional_field("space_id"@, opt_view(req.space_id));
    lemma_parts_named_add(s0, s1, name);
    lemma_parts_named_add(s0 + s1, s2, name);
    lemma_parts_named_add(s0 + s1 + s2, s3, name);
    lemma_parts_named_add(s0 + s1 + s2 + s3, s4, name);
    lemma_parts_named_one(("file"@, req.file), name);
    lemma_parts_named_text("user_comment"@, opt_view(req.user_comment), name);
    lemma_parts_named_text("labels"@, opt_view(req.labels), name);
    lemma_parts_named_text("metadata"@, opt_view(req.metadata), name);
    lemma_parts_named_text("space_id"@, opt_view(req.space_id), name);
}

proof fn lemma_source_file_names_differ()
    ensures
        "file"@.len() == 4,
        "user_comment"@.len() == 12,
        "labels"@.len() == 6,
        "metadata"@.len() == 8,
        "space_id"@.len() == 8,
        "metadata"@[0] != "space_id"@[0],
{
    reveal_strlit("file");
    reveal_strlit("user_comment");
    reveal_strlit("labels");
    reveal_strlit("metadata");
    reveal_strlit("space_id");
}

/// A source file upload sends, under each field name, exactly what the
/// request holds for it: the file once under `file`, and each text option
/// once when it is set and not empty.
pub proof fn lemma_source_file_form_by_name(req: SourceFileUploadRequest)
    ensures
        parts_named(source_file_form_fields(req), "file"@) == seq![req.file],
        parts_named(source_file_form_fields(req), "user_comment"@) == sent_text(opt_view(req.user_comment)),
        parts_named(source_file_form_fields(req), "labels"@) == sent_text(opt_view(req.labels)),
        parts_named(source_file_form_fields(req), "metadata"@) == sent_text(opt_view(req.metadata)),
        parts_named(source_file_form_fields(req), "space_id"@) == sent_text(opt_view(req.space_id)),
{
    lemma_source_file_names_differ();
    lemma_source_file_parts(req, "file"@);
    assert(parts_named(source_file_form_fields(req), "file"@) =~= seq![req.file]);
    lemma_source_file_parts(req, "user_comment"@);
    assert(parts_named(source_file_form_fields(req), "user_comment"@) =~= sent_text(opt_view(req.user_comment)));
    lemma_source_file_parts(req, "labels"@);
    assert(parts_named(source_file_form_fields(req), "labels"@) =~= sent_text(opt_view(req.labels)));
    lemma_source_file_parts(req, "metadata"@);
    assert(parts_named(source_file_form_fields(req), "metadata"@) =~= sent_text(opt_view(req.metadata)));
    lemma_source_file_parts(req, "space_id"@);
    assert(parts_named(source_file_form_fields(req), "space_id"@) =~= sent_text(opt_view(req.space_id)));
}

/// A boolean option set to `b` is written as Rust writes `b`: `true` for
/// true and `false` for false, in one text part under the option's name.
pub proof fn lemma_bool_option_text(name: Seq<char>, b: bool)
    ensures
        bool_text(b) == "true"@ <==> b,
        bool_text(b) == "false"@ <==> !b,
        parts_named(optional_bool_field(name, Some(b)), name) == seq![
            text_part(if b { "true"@ } else { "false"@ }),
        ],
{
    reveal_strlit("true");
    reveal_strlit("false");
    assert("true"@.len() != "false"@.len());
    lemma_parts_named_bool(name, Some(b), name);
}

} // verus!
