//! Payload builder for `/api/fs/put` uploads, and the headers an upload carries.

use super::{opt_str_to_string, opt_text, Client};
use crate::foreign::{percent_encoded, url_encode};
use crate::text::{bool_string, bool_text, decimal_i64, decimal_text};
use vstd::prelude::*;
use vstd::utf8::encode_utf8;

verus! {

broadcast use vstd::string::group_string_axioms;

/// Builder-style payload for `/api/fs/put` uploads.
#[derive(Debug, Clone)]
pub struct UploadPut {
    /// Destination path including file name.
    pub file_path: String,
    /// File bytes.
    pub body: Vec<u8>,
    /// Meta password. Empty string means no password.
    pub password: String,
    /// Whether existing files can be overwritten.
    pub overwrite: bool,
    /// Whether AList should upload as a background task.
    pub as_task: bool,
    /// Optional content type header.
    pub content_type: Option<String>,
    /// Optional last-modified timestamp in Unix milliseconds.
    pub last_modified_millis: Option<i64>,
    /// Optional MD5 hash.
    pub md5: Option<String>,
    /// Optional SHA-1 hash.
    pub sha1: Option<String>,
    /// Optional SHA-256 hash.
    pub sha256: Option<String>,
}

/// The content of an [`UploadPut`] as plain values.
pub struct UploadPutView {
    pub file_path: Seq<char>,
    pub body: Seq<u8>,
    pub password: Seq<char>,
    pub overwrite: bool,
    pub as_task: bool,
    pub content_type: Option<Seq<char>>,
    pub last_modified_millis: Option<i64>,
    pub md5: Option<Seq<char>>,
    pub sha1: Option<Seq<char>>,
    pub sha256: Option<Seq<char>>,
}

impl View for UploadPut {
    type V = UploadPutView;

    open spec fn view(&self) -> UploadPutView {
        UploadPutView {
            file_path: self.file_path@,
            body: self.body@,
            password: self.password@,
            overwrite: self.overwrite,
            as_task: self.as_task,
            content_type: opt_text(self.content_type),
            last_modified_millis: self.last_modified_millis,
            md5: opt_text(self.md5),
            sha1: opt_text(self.sha1),
            sha256: opt_text(self.sha256),
        }
    }
}

/// The text of an optional string slice.
pub open spec fn opt_str_text(o: Option<&str>) -> Option<Seq<char>> {
    match o {
        Some(s) => Some(s@),
        None => None,
    }
}

impl UploadPut {
    /// Create an upload payload with default headers: no password, overwrite
    /// allowed, not as a task, and no optional header.
    pub fn new(file_path: &str, body: Vec<u8>) -> (upload: Self)
        ensures
            upload@ == (UploadPutView {
                file_path: file_path@,
                body: body@,
                password: Seq::empty(),
                overwrite: true,
                as_task: false,
                content_type: None,
                last_modified_millis: None,
                md5: None,
                sha1: None,
                sha256: None,
            }),
    {
        UploadPut {
            file_path: file_path.to_string(),
            body,
            password: String::new(),
            overwrite: true,
            as_task: false,
            content_type: None,
            last_modified_millis: None,
            md5: None,
            sha1: None,
            sha256: None,
        }
    }

    /// Set the meta password header.
    pub fn password(self, password: &str) -> (upload: Self)
        ensures
            upload@ == (UploadPutView { password: password@, ..self@ }),
    {
        let mut upload = self;
        upload.password = password.to_string();
        upload
    }

    /// Set overwrite behavior.
    pub fn overwrite(self, overwrite: bool) -> (upload: Self)
        ensures
            upload@ == (UploadPutView { overwrite, ..self@ }),
    {
        let mut upload = self;
        upload.overwrite = overwrite;
        upload
    }

    /// Set whether AList should upload as a background task.
    pub fn as_task(self, as_task: bool) -> (upload: Self)
        ensures
            upload@ == (UploadPutView { as_task, ..self@ }),
    {
        let mut upload = self;
        upload.as_task = as_task;
        upload
    }

    /// Set content type.
    pub fn content_type(self, content_type: &str) -> (upload: Self)
        ensures
            upload@ == (UploadPutView { content_type: Some(content_type@), ..self@ }),
    {
        let mut upload = self;
        upload.content_type = Some(content_type.to_string());
        upload
    }

    /// Set last modified timestamp in Unix milliseconds.
    pub fn last_modified_millis(self, millis: i64) -> (upload: Self)
        ensures
            upload@ == (UploadPutView { last_modified_millis: Some(millis), ..self@ }),
    {
        let mut upload = self;
        upload.last_modified_millis = Some(millis);
        upload
    }

    /// Set optional hash headers.
    pub fn hashes(self, md5: Option<&str>, sha1: Option<&str>, sha256: Option<&str>) -> (upload:
        Self)
        ensures
            upload@ == (UploadPutView {
                md5: opt_str_text(md5),
                sha1: opt_str_text(sha1),
                sha256: opt_str_text(sha256),
                ..self@
            }),
    {
        let mut upload = self;
        upload.md5 = opt_str_to_string(md5);
        upload.sha1 = opt_str_to_string(sha1);
        upload.sha256 = opt_str_to_string(sha256);
        upload
    }
}

/// A header given by its name and value texts.
pub type HeaderView = (Seq<char>, Seq<char>);

/// The texts of a list of headers.
pub open spec fn header_views(headers: Seq<(String, String)>) -> Seq<HeaderView> {
    headers.map_values(|h: (String, String)| (h.0@, h.1@))
}

/// One header when a value is present, none otherwise.
pub open spec fn optional_header(name: Seq<char>, value: Option<Seq<char>>) -> Seq<HeaderView> {
    match value {
        Some(v) => seq![(name, v)],
        None => seq![],
    }
}

/// The headers of an upload request, in the order in which they are set: the
/// session token, the percent-encoded destination path, the password, the
/// overwrite and task flags, then each optional header that is present.
pub open spec fn upload_headers(token: Option<Seq<char>>, u: UploadPutView) -> Seq<HeaderView> {
    optional_header("Authorization"@, token) + seq![
        ("File-Path"@, percent_encoded(encode_utf8(u.file_path))),
        ("Password"@, u.password),
        ("Overwrite"@, bool_text(u.overwrite)),
        ("As-Task"@, bool_text(u.as_task)),
    ] + optional_header("Content-Type"@, u.content_type) + optional_header(
        "Last-Modified"@,
        match u.last_modified_millis {
            Some(m) => Some(decimal_text(m as int)),
            None => None,
        },
    ) + optional_header("X-File-Md5"@, u.md5) + optional_header("X-File-Sha1"@, u.sha1)
        + optional_header("X-File-Sha256"@, u.sha256)
}

fn push_header(headers: &mut Vec<(String, String)>, name: &str, value: String)
    ensures
        header_views(final(headers)@) == header_views(old(headers)@).push((name@, value@)),
{
    headers.push((name.to_string(), value));
    assert(header_views(headers@) =~= header_views(old(headers)@).push((name@, value@)));
}

fn push_optional_header(headers: &mut Vec<(String, String)>, name: &str, value: &Option<String>)
    ensures
        header_views(final(headers)@) == header_views(old(headers)@) + optional_header(
            name@,
            opt_text(*value),
        ),
{
    match value {
        Some(v) => {
            push_header(headers, name, v.clone());
        },
        None => {
            assert(header_views(old(headers)@) + optional_header(name@, opt_text(*value))
                =~= header_views(old(headers)@));
        },
    }
}

impl Client {
    /// The headers of the `/api/fs/put` request for an upload.
    pub fn upload_put_headers(&self, upload: &UploadPut) -> (headers: Vec<(String, String)>)
        ensures
            header_views(headers@) == upload_headers(self@.token, upload@),
    {
        let ghost u = upload@;
        let ghost fixed = seq![
            ("File-Path"@, percent_encoded(encode_utf8(u.file_path))),
            ("Password"@, u.password),
            ("Overwrite"@, bool_text(u.overwrite)),
            ("As-Task"@, bool_text(u.as_task)),
        ];
        let ghost modified = match u.last_modified_millis {
            Some(m) => Some(decimal_text(m as int)),
            None => None,
        };
        let mut headers: Vec<(String, String)> = Vec::new();
        assert(header_views(headers@) =~= Seq::<HeaderView>::empty());
        push_optional_header(&mut headers, "Authorization", &self.token);
        let ghost auth_part = header_views(headers@);
        assert(auth_part =~= optional_header("Authorization"@, self@.token));
        push_header(&mut headers, "File-Path", url_encode(upload.file_path.as_str()));
        push_header(&mut headers, "Password", upload.password.clone());
        push_header(&mut headers, "Overwrite", bool_string(upload.overwrite));
        push_header(&mut headers, "As-Task", bool_string(upload.as_task));
        assert(header_views(headers@) =~= auth_part + fixed);
        let ghost base = header_views(headers@);
        push_optional_header(&mut headers, "Content-Type", &upload.content_type);
        let last_modified = match upload.last_modified_millis {
            Some(m) => Some(decimal_i64(m)),
            None => None,
        };
        assert(opt_text(last_modified) == modified);
        push_optional_header(&mut headers, "Last-Modified", &last_modified);
        push_optional_header(&mut headers, "X-File-Md5", &upload.md5);
        push_optional_header(&mut headers, "X-File-Sha1", &upload.sha1);
        push_optional_header(&mut headers, "X-File-Sha256", &upload.sha256);
        assert(header_views(headers@) == base + optional_header("Content-Type"@, u.content_type)
            + optional_header("Last-Modified"@, modified) + optional_header("X-File-Md5"@, u.md5)
            + optional_header("X-File-Sha1"@, u.sha1) + optional_header(
            "X-File-Sha256"@,
            u.sha256,
        ));
        headers
    }
}

/// What a header of an upload request says about the upload: each header's
/// value is the field that its name stands for.
pub open spec fn header_matches_field(
    token: Option<Seq<char>>,
    u: UploadPutView,
    h: HeaderView,
) -> bool {
    &&& h.0 == "Authorization"@ ==> token == Some(h.1)
    &&& h.0 == "File-Path"@ ==> h.1 == percent_encoded(encode_utf8(u.file_path))
    &&& h.0 == "Password"@ ==> h.1 == u.password
    &&& h.0 == "Overwrite"@ ==> (u.overwrite ==> h.1 == "true"@) && (!u.overwrite ==> h.1
        == "false"@)
    &&& h.0 == "As-Task"@ ==> (u.as_task ==> h.1 == "true"@) && (!u.as_task ==> h.1 == "false"@)
    &&& h.0 == "Content-Type"@ ==> u.content_type == Some(h.1)
    &&& h.0 == "Last-Modified"@ ==> (u.last_modified_millis matches Some(m) && h.1
        == decimal_text(m as int))
    &&& h.0 == "X-File-Md5"@ ==> u.md5 == Some(h.1)
    &&& h.0 == "X-File-Sha1"@ ==> u.sha1 == Some(h.1)
    &&& h.0 == "X-File-Sha256"@ ==> u.sha256 == Some(h.1)
}

proof fn lemma_matches_concat(
    token: Option<Seq<char>>,
    u: UploadPutView,
    a: Seq<HeaderView>,
    b: Seq<HeaderView>,
)
    requires
        forall|i: int| 0 <= i < a.len() ==> header_matches_field(token, u, #[trigger] a[i]),
        forall|i: int| 0 <= i < b.len() ==> header_matches_field(token, u, #[trigger] b[i]),
    ensures
        forall|i: int|
            0 <= i < (a + b).len() ==> header_matches_field(token, u, #[trigger] (a + b)[i]),
{
    assert forall|i: int| 0 <= i < (a + b).len() implies header_matches_field(
        token,
        u,
        #[trigger] (a + b)[i],
    ) by {
        if i < a.len() {
            assert((a + b)[i] == a[i]);
        } else {
            assert((a + b)[i] == b[i - a.len()]);
        }
    }
}

proof fn lemma_contains_concat(a: Seq<HeaderView>, b: Seq<HeaderView>, x: HeaderView)
    requires
        a.contains(x) || b.contains(x),
    ensures
        (a + b).contains(x),
{
    if a.contains(x) {
        let i = choose|i: int| 0 <= i < a.len() && a[i] == x;
        assert((a + b)[i] == x);
    } else {
        let j = choose|j: int| 0 <= j < b.len() && b[j] == x;
        assert((a + b)[a.len() + j] == x);
    }
}

proof fn lemma_optional_header(
    token: Option<Seq<char>>,
    u: UploadPutView,
    name: Seq<char>,
    value: Option<Seq<char>>,
)
    requires
        value matches Some(v) ==> header_matches_field(token, u, (name, v)),
    ensures
        forall|i: int|
            0 <= i < optional_header(name, value).len() ==> header_matches_field(
                token,
                u,
                #[trigger] optional_header(name, value)[i],
            ),
        value matches Some(v) ==> optional_header(name, value).contains((name, v)),
{
    if let Some(v) = value {
        assert(optional_header(name, value)[0] == (name, v));
    }
}

proof fn lemma_header_texts()
    ensures
        "Authorization"@.len() == 13 && "Authorization"@[0] == 'A',
        "File-Path"@.len() == 9 && "File-Path"@[0] == 'F',
        "Password"@.len() == 8 && "Password"@[0] == 'P',
        "Overwrite"@.len() == 9 && "Overwrite"@[0] == 'O',
        "As-Task"@.len() == 7 && "As-Task"@[0] == 'A',
        "Content-Type"@.len() == 12 && "Content-Type"@[0] == 'C',
        "Last-Modified"@.len() == 13 && "Last-Modified"@[0] == 'L',
        "X-File-Md5"@.len() == 10 && "X-File-Md5"@[0] == 'X',
        "X-File-Sha1"@.len() == 11 && "X-File-Sha1"@[0] == 'X',
        "X-File-Sha256"@.len() == 13 && "X-File-Sha256"@[0] == 'X',
        "true"@.len() == 4 && "true"@[0] == 't',
        "false"@.len() == 5 && "false"@[0] == 'f',
{
    reveal_strlit("Authorization");
    reveal_strlit("File-Path");
    reveal_strlit("Password");
    reveal_strlit("Overwrite");
    reveal_strlit("As-Task");
    reveal_strlit("Content-Type");
    reveal_strlit("Last-Modified");
    reveal_strlit("X-File-Md5");
    reveal_strlit("X-File-Sha1");
    reveal_strlit("X-File-Sha256");
    reveal_strlit("true");
    reveal_strlit("false");
}

/// The headers of an upload carry its fields faithfully: every header's value
/// is the field of its own name, the session token goes in `Authorization`,
/// the fixed headers are always present, and each optional header is present
/// exactly with the value of its field whenever that field is set.
pub proof fn lemma_upload_headers_carry_fields(token: Option<Seq<char>>, u: UploadPutView)
    ensures
        forall|i: int|
            0 <= i < upload_headers(token, u).len() ==> header_matches_field(
                token,
                u,
                #[trigger] upload_headers(token, u)[i],
            ),
        token matches Some(t) ==> upload_headers(token, u).contains(("Authorization"@, t)),
        upload_headers(token, u).contains(
            ("File-Path"@, percent_encoded(encode_utf8(u.file_path))),
        ),
        upload_headers(token, u).contains(("Password"@, u.password)),
        upload_headers(token, u).contains(
            ("Overwrite"@, if u.overwrite {
                "true"@
            } else {
                "false"@
            }),
        ),
        upload_headers(token, u).contains(
            ("As-Task"@, if u.as_task {
                "true"@
            } else {
                "false"@
            }),
        ),
        u.content_type matches Some(v) ==> upload_headers(token, u).contains(
            ("Content-Type"@, v),
        ),
        u.last_modified_millis matches Some(m) ==> upload_headers(token, u).contains(
            ("Last-Modified"@, decimal_text(m as int)),
        ),
        u.md5 matches Some(v) ==> upload_headers(token, u).contains(("X-File-Md5"@, v)),
        u.sha1 matches Some(v) ==> upload_headers(token, u).contains(("X-File-Sha1"@, v)),
        u.sha256 matches Some(v) ==> upload_headers(token, u).contains(("X-File-Sha256"@, v)),
{
    lemma_header_texts();
    let modified = match u.last_modified_millis {
        Some(m) => Some(decimal_text(m as int)),
        None => None,
    };
    let fixed = seq![
        ("File-Path"@, percent_encoded(encode_utf8(u.file_path))),
        ("Password"@, u.password),
        ("Overwrite"@, bool_text(u.overwrite)),
        ("As-Task"@, bool_text(u.as_task)),
    ];
    let p0 = optional_header("Authorization"@, token);
    let p1 = p0 + fixed;
    let p2 = p1 + optional_header("Content-Type"@, u.content_type);
    let p3 = p2 + optional_header("Last-Modified"@, modified);
    let p4 = p3 + optional_header("X-File-Md5"@, u.md5);
    let p5 = p4 + optional_header("X-File-Sha1"@, u.sha1);
    let p6 = p5 + optional_header("X-File-Sha256"@, u.sha256);
    assert(p6 == upload_headers(token, u));

    lemma_optional_header(token, u, "Authorization"@, token);
    assert forall|i: int| 0 <= i < fixed.len() implies header_matches_field(
        token,
        u,
        #[trigger] fixed[i],
    ) by {}
    lemma_matches_concat(token, u, p0, fixed);
    lemma_optional_header(token, u, "Content-Type"@, u.content_type);
    lemma_matches_concat(token, u, p1, optional_header("Content-Type"@, u.content_type));
    lemma_optional_header(token, u, "Last-Modified"@, modified);
    lemma_matches_concat(token, u, p2, optional_header("Last-Modified"@, modified));
    lemma_optional_header(token, u, "X-File-Md5"@, u.md5);
    lemma_matches_concat(token, u, p3, optional_header("X-File-Md5"@, u.md5));
    lemma_optional_header(token, u, "X-File-Sha1"@, u.sha1);
    lemma_matches_concat(token, u, p4, optional_header("X-File-Sha1"@, u.sha1));
    lemma_optional_header(token, u, "X-File-Sha256"@, u.sha256);
    lemma_matches_concat(token, u, p5, optional_header("X-File-Sha256"@, u.sha256));

    // Presence of each header.
    if let Some(t) = token {
        lemma_contains_concat(p0, fixed, ("Authorization"@, t));
        lemma_contains_concat(p1, optional_header("Content-Type"@, u.content_type), ("Authorization"@, t));
        lemma_contains_concat(p2, optional_header("Last-Modified"@, modified), ("Authorization"@, t));
        lemma_contains_concat(p3, optional_header("X-File-Md5"@, u.md5), ("Authorization"@, t));
        lemma_contains_concat(p4, optional_header("X-File-Sha1"@, u.sha1), ("Authorization"@, t));
        lemma_contains_concat(p5, optional_header("X-File-Sha256"@, u.sha256), ("Authorization"@, t));
    }
    assert(fixed.contains(fixed[0]) && fixed[0] == fixed[0]) by {
        assert(fixed[0] == fixed[0]);
    }
    lemma_contains_concat(p0, fixed, fixed[0]);
    lemma_contains_concat(p1, optional_header("Content-Type"@, u.content_type), fixed[0]);
    lemma_contains_concat(p2, optional_header("Last-Modified"@, modified), fixed[0]);
    lemma_contains_concat(p3, optional_header("X-File-Md5"@, u.md5), fixed[0]);
    lemma_contains_concat(p4, optional_header("X-File-Sha1"@, u.sha1), fixed[0]);
    lemma_contains_concat(p5, optional_header("X-File-Sha256"@, u.sha256), fixed[0]);
    assert(fixed.contains(fixed[1]) && fixed[1] == fixed[1]) by {
        assert(fixed[1] == fixed[1]);
    }
    lemma_contains_concat(p0, fixed, fixed[1]);
    lemma_contains_concat(p1, optional_header("Content-Type"@, u.content_type), fixed[1]);
    lemma_contains_concat(p2, optional_header("Last-Modified"@, modified), fixed[1]);
    lemma_contains_concat(p3, optional_header("X-File-Md5"@, u.md5), fixed[1]);
    lemma_contains_concat(p4, optional_header("X-File-Sha1"@, u.sha1), fixed[1]);
    lemma_contains_concat(p5, optional_header("X-File-Sha256"@, u.sha256), fixed[1]);
    assert(fixed.contains(fixed[2]) && fixed[2] == fixed[2]) by {
        assert(fixed[2] == fixed[2]);
    }
    lemma_contains_concat(p0, fixed, fixed[2]);
    lemma_contains_concat(p1, optional_header("Content-Type"@, u.content_type), fixed[2]);
    lemma_contains_concat(p2, optional_header("Last-Modified"@, modified), fixed[2]);
    lemma_contains_concat(p3, optional_header("X-File-Md5"@, u.md5), fixed[2]);
    lemma_contains_concat(p4, optional_header("X-File-Sha1"@, u.sha1), fixed[2]);
    lemma_contains_concat(p5, optional_header("X-File-Sha256"@, u.sha256), fixed[2]);
    assert(fixed.contains(fixed[3]) && fixed[3] == fixed[3]) by {
        assert(fixed[3] == fixed[3]);
    }
    lemma_contains_concat(p0, fixed, fixed[3]);
    lemma_contains_concat(p1, optional_header("Content-Type"@, u.content_type), fixed[3]);
    lemma_contains_concat(p2, optional_header("Last-Modified"@, modified), fixed[3]);
    lemma_contains_concat(p3, optional_header("X-File-Md5"@, u.md5), fixed[3]);
    lemma_contains_concat(p4, optional_header("X-File-Sha1"@, u.sha1), fixed[3]);
    lemma_contains_concat(p5, optional_header("X-File-Sha256"@, u.sha256), fixed[3]);
    assert(p6.contains(fixed[0]));
    assert(p6.contains(fixed[1]));
    assert(p6.contains(fixed[2]));
    assert(p6.contains(fixed[3]));
    if let Some(v) = u.content_type {
        lemma_contains_concat(p1, optional_header("Content-Type"@, u.content_type), ("Content-Type"@, v));
        lemma_contains_concat(p2, optional_header("Last-Modified"@, modified), ("Content-Type"@, v));
        lemma_contains_concat(p3, optional_header("X-File-Md5"@, u.md5), ("Content-Type"@, v));
        lemma_contains_concat(p4, optional_header("X-File-Sha1"@, u.sha1), ("Content-Type"@, v));
        lemma_contains_concat(p5, optional_header("X-File-Sha256"@, u.sha256), ("Content-Type"@, v));
    }
    if let Some(v) = modified {
        lemma_contains_concat(p2, optional_header("Last-Modified"@, modified), ("Last-Modified"@, v));
        lemma_contains_concat(p3, optional_header("X-File-Md5"@, u.md5), ("Last-Modified"@, v));
        lemma_contains_concat(p4, optional_header("X-File-Sha1"@, u.sha1), ("Last-Modified"@, v));
        lemma_contains_concat(p5, optional_header("X-File-Sha256"@, u.sha256), ("Last-Modified"@, v));
    }
    if let Some(v) = u.md5 {
        lemma_contains_concat(p3, optional_header("X-File-Md5"@, u.md5), ("X-File-Md5"@, v));
        lemma_contains_concat(p4, optional_header("X-File-Sha1"@, u.sha1), ("X-File-Md5"@, v));
        lemma_contains_concat(p5, optional_header("X-File-Sha256"@, u.sha256), ("X-File-Md5"@, v));
    }
    if let Some(v) = u.sha1 {
        lemma_contains_concat(p4, optional_header("X-File-Sha1"@, u.sha1), ("X-File-Sha1"@, v));
        lemma_contains_concat(p5, optional_header("X-File-Sha256"@, u.sha256), ("X-File-Sha1"@, v));
    }
    if let Some(v) = u.sha256 {
        lemma_contains_concat(p5, optional_header("X-File-Sha256"@, u.sha256), ("X-File-Sha256"@, v));
    }
}

} // verus!
