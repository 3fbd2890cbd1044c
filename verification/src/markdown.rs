use vstd::prelude::*;
use vstd::string::StringExecFns;
use crate::errors::ApiError;
use crate::header::{
    extract_markdown_header_content, find_first_comment_content, first_comment_content,
    header_content, header_entries, header_well_formed, lookup, HeaderEntries,
};
use crate::paths::{file_name_of, path_file_name, url_encode_path, url_encoded};
use crate::status::BAD_REQUEST;
use crate::text::{
    char_views, is_whitespace, lemma_trim_has_no_outer_whitespace, split, split_chars,
    string_from_chars, trim, trim_chars,
};
use crate::errors::texts;

verus! {

/// The date of a Unix time (seconds) in UTC, printed with a chrono format.
pub uninterp spec fn formatted_date(secs: i64, fmt: Seq<char>) -> Option<Seq<char>>;

/// The format of a markdown file's date: month/day/year.
pub const MARKDOWN_DATE_FORMAT: &'static str = "%m/%d/%Y";

/// The format that blog posts print their date with.
pub const BLOG_DATE_FORMAT: &'static str = "YYYY/mm/dd";

/// Calls `chrono::DateTime::<Utc>::from_timestamp(secs, 0)`, and on success
/// `date_naive().format(fmt).to_string()`.
/// Claimed: the result, named by `formatted_date`; `None` when chrono has no
/// date for `secs`. The two formats that `requires` admits hold no invalid
/// specifier, so the printing does not fail; the blog format holds no
/// specifier at all (no `%`), so chrono prints it as the literal text.
#[verifier::external_body]
pub(crate) fn format_date(secs: i64, fmt: &str) -> (r: Option<String>)
    requires
        fmt@ == MARKDOWN_DATE_FORMAT@ || fmt@ == BLOG_DATE_FORMAT@,
    ensures
        match r {
            Some(s) => formatted_date(secs, fmt@) == Some(s@),
            None => formatted_date(secs, fmt@) is None,
        },
        fmt@ == BLOG_DATE_FORMAT@ ==> (r matches Some(s) ==> s@ == BLOG_DATE_FORMAT@),
{
    match chrono::DateTime::<chrono::Utc>::from_timestamp(secs, 0) {
        Some(d) => Some(d.date_naive().format(fmt).to_string()),
        None => None,
    }
}

/// The key-value entries of the header comment of a markdown text; none when
/// it has no header comment.
pub open spec fn markdown_entries(content: Seq<char>) -> Seq<(Seq<char>, Seq<char>)> {
    match header_content(content) {
        Some(h) => header_entries(h),
        None => Seq::empty(),
    }
}

/// A markdown text can be read: its header comment, if any, has a colon on
/// every line.
pub open spec fn markdown_readable(content: Seq<char>) -> bool {
    header_content(content) matches Some(h) ==> header_well_formed(h)
}

/// A header value, or the empty text when the key is missing.
pub open spec fn value_or_empty(entries: Seq<(Seq<char>, Seq<char>)>, key: Seq<char>) -> Seq<char> {
    match lookup(entries, key) {
        Some(v) => v,
        None => Seq::empty(),
    }
}

/// The tags of a `tags` header value: its comma-separated pieces, trimmed.
pub open spec fn tag_list(value: Seq<char>) -> Seq<Seq<char>> {
    split(value, ',').map_values(|t: Seq<char>| trim(t))
}

/// The title of a markdown file: the header's `title` (or, with a header
/// but no title, the file name); where that is empty, the file name, or
/// `Untitled...!` for a path without one.
pub open spec fn markdown_title(path: Seq<char>, content: Seq<char>) -> Seq<char> {
    let file_name = match file_name_of(path) {
        Some(n) => n,
        None => Seq::empty(),
    };
    let t = match header_content(content) {
        Some(h) => match lookup(header_entries(h), "title"@) {
            Some(v) => v,
            None => file_name,
        },
        None => Seq::empty(),
    };
    if t.len() == 0 {
        match file_name_of(path) {
            Some(n) => n,
            None => "Untitled...!"@,
        }
    } else {
        t
    }
}

/// The tags of a markdown text.
pub open spec fn markdown_tags(content: Seq<char>) -> Option<Seq<Seq<char>>> {
    match lookup(markdown_entries(content), "tags"@) {
        Some(v) => Some(tag_list(v)),
        None => None,
    }
}

/// The tags of a header value.
pub fn parse_tags(value: &[char]) -> (r: Vec<String>)
    ensures
        texts(r@) == tag_list(value@),
{
    let pieces = split_chars(value, ',');
    let mut tags: Vec<String> = Vec::new();
    let mut i: usize = 0;
    while i < pieces.len()
        invariant
            i <= pieces.len(),
            char_views(pieces@) == split(value@, ','),
            tags@.len() == i,
            forall|k: int| 0 <= k < i ==> (#[trigger] tags@[k])@ == trim(split(value@, ',')[k]),
        decreases pieces.len() - i,
    {
        let t = trim_chars(pieces[i].as_slice());
        assert(pieces@[i as int]@ == split(value@, ',')[i as int]);
        tags.push(string_from_chars(t.as_slice()));
        i = i + 1;
    }
    assert(texts(tags@) =~= tag_list(value@));
    tags
}

fn entry_or_empty(entries: &HeaderEntries, key: &str) -> (r: String)
    requires
        entries.wf(),
    ensures
        r@ == match lookup(entries.pairs(), key@) {
            Some(v) => v,
            None => Seq::empty(),
        },
{
    match entries.get(key) {
        Some(v) => string_from_chars(v.as_slice()),
        None => String::new(),
    }
}

/// The fields that a page template gets from a markdown file or a blog
/// post: named texts, in the order they are inserted, and the tags when
/// there are any.
#[derive(Debug, PartialEq, Eq)]
pub struct TemplateFields {
    pub texts: Vec<(String, String)>,
    pub tags: Option<Vec<String>>,
}

/// The named texts of template fields, as text pairs.
pub open spec fn field_views(v: Seq<(String, String)>) -> Seq<(Seq<char>, Seq<char>)> {
    v.map_values(|p: (String, String)| (p.0@, p.1@))
}

/// The named texts a page template gets: title, content, file name, author,
/// cover image and date, in this order.
pub open spec fn page_fields(
    title: Seq<char>,
    content: Seq<char>,
    file_name: Seq<char>,
    author: Seq<char>,
    cover_image: Seq<char>,
    dob: Seq<char>,
) -> Seq<(Seq<char>, Seq<char>)> {
    seq![
        ("title"@, title),
        ("content"@, content),
        ("file_name"@, file_name),
        ("author"@, author),
        ("cover_image"@, cover_image),
        ("dob"@, dob),
    ]
}

/// Template fields from the six texts and the tags.
fn template_fields_of(
    title: String,
    content: String,
    file_name: String,
    author: String,
    cover_image: String,
    dob: String,
    tags: Option<Vec<String>>,
) -> (r: TemplateFields)
    ensures
        field_views(r.texts@) == page_fields(title@, content@, file_name@, author@, cover_image@, dob@),
        r.tags == tags,
{
    let mut texts: Vec<(String, String)> = Vec::new();
    texts.push(("title".to_owned(), title));
    texts.push(("content".to_owned(), content));
    texts.push(("file_name".to_owned(), file_name));
    texts.push(("author".to_owned(), author));
    texts.push(("cover_image".to_owned(), cover_image));
    texts.push(("dob".to_owned(), dob));
    assert(field_views(texts@) =~= page_fields(title@, content@, file_name@, author@, cover_image@, dob@));
    TemplateFields { texts, tags }
}

/// A markdown file with the metadata of its header comment.
#[derive(Debug, Default, PartialEq, Eq)]
pub struct FsoMarkdown {
    pub title: String,
    pub file_name: String,
    pub author: String,
    pub content: String,
    pub dob: String,
    pub tags: Option<Vec<String>>,
    pub cover_image: String,
    pub url: String,
}

impl FsoMarkdown {
    /// The markdown file at `path` whose text is `content`: its title, author,
    /// tags, cover image and date come from the header comment. The date is
    /// left empty when the header does not give it (see `fill_dob`).
    pub fn from_markdown(path: &str, content: String) -> (r: FsoMarkdown)
        requires
            markdown_readable(content@),
        ensures
            r.content@ == content@,
            r.file_name@ == match file_name_of(path@) {
                Some(n) => n,
                None => Seq::empty(),
            },
            r.url@ == url_encoded(vstd::utf8::encode_utf8(path@)),
            r.title@ == markdown_title(path@, content@),
            r.title@.len() > 0,
            r.author@ == value_or_empty(markdown_entries(content@), "author"@),
            r.cover_image@ == value_or_empty(markdown_entries(content@), "cover_image"@),
            r.dob@ == value_or_empty(markdown_entries(content@), "dob"@),
            match r.tags {
                Some(t) => markdown_tags(content@) == Some(texts(t@)),
                None => markdown_tags(content@) is None,
            },
            header_content(content@) matches Some(h) ==> r.author@ == header_value(h, "author"@)
                && r.cover_image@ == header_value(h, "cover_image"@) && r.dob@ == header_value(
                h,
                "dob"@,
            ),
            header_content(content@) is None ==> r.author@.len() == 0 && r.cover_image@.len() == 0
                && r.dob@.len() == 0 && r.tags is None,
    {
        let file_name_opt = path_file_name(path);
        let file_name = match &file_name_opt {
            Some(n) => n.clone(),
            None => String::new(),
        };
        let url = url_encode_path(path);
        let mut title = String::new();
        let mut author = String::new();
        let mut tags: Option<Vec<String>> = None;
        let mut cover_image = String::new();
        let mut dob = String::new();
        match extract_markdown_header_content(content.as_str()) {
            Some(header) => {
                let entries = HeaderEntries::parse(header.as_str());
                title = match entries.get("title") {
                    Some(v) => string_from_chars(v.as_slice()),
                    None => file_name.clone(),
                };
                author = entry_or_empty(&entries, "author");
                tags = match entries.get("tags") {
                    Some(v) => Some(parse_tags(v.as_slice())),
                    None => None,
                };
                cover_image = entry_or_empty(&entries, "cover_image");
                dob = entry_or_empty(&entries, "dob");
            },
            None => {},
        }
        proof {
            reveal_strlit("Untitled...!");
        }
        if title.as_str().is_empty() {
            title = match file_name_opt {
                Some(n) => n,
                None => "Untitled...!".to_owned(),
            };
        }
        FsoMarkdown { title, file_name, author, content, dob, tags, cover_image, url }
    }

    /// Gives an empty date the file's creation date (a Unix time in
    /// seconds), printed month/day/year; a date from the header stays.
    pub fn fill_dob(&mut self, created_secs: i64)
        ensures
            final(self).title == old(self).title,
            final(self).file_name == old(self).file_name,
            final(self).author == old(self).author,
            final(self).content == old(self).content,
            final(self).tags == old(self).tags,
            final(self).cover_image == old(self).cover_image,
            final(self).url == old(self).url,
            old(self).dob@.len() != 0 ==> final(self).dob == old(self).dob,
            old(self).dob@.len() == 0 ==> match formatted_date(created_secs, MARKDOWN_DATE_FORMAT@) {
                Some(d) => final(self).dob@ == d,
                None => final(self).dob@.len() == 0,
            },
    {
        if self.dob.as_str().is_empty() {
            match format_date(created_secs, MARKDOWN_DATE_FORMAT) {
                Some(d) => {
                    self.dob = d;
                },
                None => {},
            }
        }
    }

    /// The fields that a page template gets from this file (its URL is not
    /// among them).
    pub fn template_fields(self) -> (r: TemplateFields)
        ensures
            field_views(r.texts@) == page_fields(
                self.title@,
                self.content@,
                self.file_name@,
                self.author@,
                self.cover_image@,
                self.dob@,
            ),
            r.tags == self.tags,
    {
        template_fields_of(
            self.title,
            self.content,
            self.file_name,
            self.author,
            self.cover_image,
            self.dob,
            self.tags,
        )
    }

    /// The error that answers a request for a markdown file that does not
    /// exist: 400, `<path> NOT exists`.
    pub fn missing_error(path: &str) -> (r: ApiError)
        ensures
            r.status_code == BAD_REQUEST,
            r.messages() == seq![path@ + " NOT exists"@],
            !r.with_ui,
    {
        let msg = path.to_owned().concat(" NOT exists");
        ApiError::from_message(msg.as_str(), BAD_REQUEST)
    }
}

/// The entries of the leftmost HTML comment of a blog text.
pub open spec fn blog_entries(content: Seq<char>) -> Seq<(Seq<char>, Seq<char>)> {
    match first_comment_content(content) {
        Some(h) => header_entries(h),
        None => Seq::empty(),
    }
}

/// A blog text can be read: its leftmost comment, if any, has a colon on
/// every line.
pub open spec fn blog_readable(content: Seq<char>) -> bool {
    first_comment_content(content) matches Some(h) ==> header_well_formed(h)
}

/// `r` is the blog post read from the file at `path` with text `content`,
/// with the flag that its date is to come from the file: with a comment in
/// the text, its entries give the title (default: the file name), author,
/// tags, cover image and date, and the flag is set when the date is missing;
/// without one every field but the content and file name is empty.
pub open spec fn blog_read(path: Seq<char>, content: Seq<char>, r: (Blog, bool)) -> bool {
    &&& r.0.content@ == content
    &&& r.0.file_name@ == file_name_of(path)->0
    &&& r.0.title@ == match first_comment_content(content) {
        Some(h) => match lookup(header_entries(h), "title"@) {
            Some(v) => v,
            None => file_name_of(path)->0,
        },
        None => Seq::empty(),
    }
    &&& r.0.author@ == value_or_empty(blog_entries(content), "author"@)
    &&& r.0.cover_image@ == value_or_empty(blog_entries(content), "cover_image"@)
    &&& r.0.dob@ == value_or_empty(blog_entries(content), "dob"@)
    &&& match r.0.tags {
        Some(t) => lookup(blog_entries(content), "tags"@) matches Some(v) && texts(t@) == tag_list(
            v,
        ),
        None => lookup(blog_entries(content), "tags"@) is None,
    }
    &&& r.1 == (first_comment_content(content) is Some && lookup(blog_entries(content), "dob"@) is None)
}

/// A blog post read from a markdown file.
#[derive(Debug, Default, PartialEq, Eq)]
pub struct Blog {
    pub title: String,
    pub file_name: String,
    pub author: String,
    pub content: String,
    pub dob: String,
    pub tags: Option<Vec<String>>,
    pub cover_image: String,
}

impl Blog {
    /// The blog post at `path` whose text is `content`. With a comment in
    /// the text, its entries give the title (default: the file name), author,
    /// tags, cover image and date; the flag tells that the date is missing
    /// there and is to be taken from the file (see `set_created_date`).
    /// Without a comment every field but the content and file name is empty.
    pub fn from_markdown(path: &str, content: String) -> (r: (Blog, bool))
        requires
            file_name_of(path@) is Some,
            blog_readable(content@),
        ensures
            blog_read(path@, content@, r),
    {
        let file_name = match path_file_name(path) {
            Some(n) => n,
            None => {
                assert(false);
                String::new()
            },
        };
        let mut blog = Blog {
            title: String::new(),
            file_name,
            author: String::new(),
            content: String::new(),
            dob: String::new(),
            tags: None,
            cover_image: String::new(),
        };
        let mut needs_date = false;
        match find_first_comment_content(content.as_str()) {
            Some(header) => {
                let entries = HeaderEntries::parse(header.as_str());
                blog.title = match entries.get("title") {
                    Some(v) => string_from_chars(v.as_slice()),
                    None => blog.file_name.clone(),
                };
                blog.author = entry_or_empty(&entries, "author");
                blog.tags = match entries.get("tags") {
                    Some(v) => Some(parse_tags(v.as_slice())),
                    None => None,
                };
                blog.cover_image = entry_or_empty(&entries, "cover_image");
                match entries.get("dob") {
                    Some(v) => {
                        blog.dob = string_from_chars(v.as_slice());
                    },
                    None => {
                        needs_date = true;
                    },
                }
            },
            None => {},
        }
        blog.content = content;
        (blog, needs_date)
    }

    /// The blog post at `path` whose text is `content`, as `from_markdown`
    /// reads it; `None` when the path has no file name or a line of the
    /// text's leftmost comment has no colon.
    pub fn try_from_markdown(path: &str, content: String) -> (r: Option<(Blog, bool)>)
        ensures
            r is Some <==> (file_name_of(path@) is Some && blog_readable(content@)),
            r matches Some(b) ==> blog_read(path@, content@, b),
    {
        if path_file_name(path).is_none() {
            return None;
        }
        if !blog_is_readable(content.as_str()) {
            return None;
        }
        Some(Self::from_markdown(path, content))
    }

    /// The fields that a page template gets from this post.
    pub fn template_fields(self) -> (r: TemplateFields)
        ensures
            field_views(r.texts@) == page_fields(
                self.title@,
                self.content@,
                self.file_name@,
                self.author@,
                self.cover_image@,
                self.dob@,
            ),
            r.tags == self.tags,
    {
        template_fields_of(
            self.title,
            self.content,
            self.file_name,
            self.author,
            self.cover_image,
            self.dob,
            self.tags,
        )
    }

    /// The message of the error that answers a request for a blog post whose
    /// file does not exist: `<path> NOT exists`.
    pub fn missing_message(path: &str) -> (r: String)
        ensures
            r@ == path@ + " NOT exists"@,
    {
        path.to_owned().concat(" NOT exists")
    }

    /// Sets the date from the file's creation time (a Unix time in seconds),
    /// printed with the blog date format.
    pub fn set_created_date(&mut self, created_secs: i64)
        ensures
            final(self).title == old(self).title,
            final(self).file_name == old(self).file_name,
            final(self).author == old(self).author,
            final(self).content == old(self).content,
            final(self).tags == old(self).tags,
            final(self).cover_image == old(self).cover_image,
            match formatted_date(created_secs, BLOG_DATE_FORMAT@) {
                Some(d) => final(self).dob@ == d,
                None => final(self).dob == old(self).dob,
            },
            final(self).dob == old(self).dob || final(self).dob@ == BLOG_DATE_FORMAT@,
    {
        match format_date(created_secs, BLOG_DATE_FORMAT) {
            Some(d) => {
                self.dob = d;
            },
            None => {},
        }
    }
}

/// A markdown file's path and text.
pub struct MarkdownData {
    pub content: String,
    pub file_path: String,
}

impl MarkdownData {
    /// The markdown data of the file at `file_path`, whose text is `content`.
    pub fn from_file(file_path: String, content: String) -> (r: MarkdownData)
        ensures
            r.content == content,
            r.file_path == file_path,
    {
        MarkdownData { content, file_path }
    }

    /// The file name of the path, or the whole path when it has none.
    pub fn title(&self) -> (r: String)
        ensures
            r@ == match file_name_of(self.file_path@) {
                Some(n) => n,
                None => self.file_path@,
            },
    {
        match path_file_name(self.file_path.as_str()) {
            Some(n) => n,
            None => self.file_path.clone(),
        }
    }
}

/// A directory in a listing.
#[derive(Debug, PartialEq, Eq)]
pub struct FsoDirectory {
    pub title: String,
    pub url: String,
}

/// What a listed file is.
#[derive(Debug, PartialEq, Eq)]
pub enum FsoFileType {
    Markdown(FsoMarkdown),
    Unknown,
}

/// A file in a listing.
#[derive(Debug, PartialEq, Eq)]
pub struct FsoFile {
    pub title: String,
    pub url: String,
    pub fso_type: FsoFileType,
}

impl FsoFile {
    pub fn markdown(title: String, url: String, fso_markdown: FsoMarkdown) -> (r: FsoFile)
        ensures
            r.title == title,
            r.url == url,
            r.fso_type == FsoFileType::Markdown(fso_markdown),
    {
        FsoFile { title, url, fso_type: FsoFileType::Markdown(fso_markdown) }
    }

    pub fn unknown(title: String, url: String) -> (r: FsoFile)
        ensures
            r.title == title,
            r.url == url,
            r.fso_type == FsoFileType::Unknown,
    {
        FsoFile { title, url, fso_type: FsoFileType::Unknown }
    }
}

/// An entry of a directory listing.
#[derive(Debug, PartialEq, Eq)]
pub enum FsoEntry {
    FsoFile(FsoFile),
    FsoDirectory(FsoDirectory),
}

impl From<FsoFile> for FsoEntry {
    fn from(fso_file: FsoFile) -> (r: FsoEntry) {
        FsoEntry::FsoFile(fso_file)
    }
}

impl vstd::std_specs::convert::FromSpecImpl<FsoFile> for FsoEntry {
    open spec fn obeys_from_spec() -> bool {
        true
    }

    open spec fn from_spec(fso_file: FsoFile) -> FsoEntry {
        FsoEntry::FsoFile(fso_file)
    }
}

/// Whether a whole text is `md` up to letter case.
pub open spec fn is_md_extension(ext: Seq<char>) -> bool {
    ext.len() == 2 && (ext[0] == 'm' || ext[0] == 'M') && (ext[1] == 'd' || ext[1] == 'D')
}

/// The extension of a file name, as `Path::extension` documents it: none
/// without an embedded `.` or for a name that begins with `.` and has no
/// other; otherwise the text after the last `.`.
pub open spec fn extension_of_name(name: Seq<char>) -> Option<Seq<char>> {
    match crate::text::find_last_char(name, '.') {
        Some(i) => if i == 0 {
            None
        } else {
            Some(name.skip(i + 1))
        },
        None => None,
    }
}

/// The extension of a path: that of its file name.
pub open spec fn extension_of(path: Seq<char>) -> Option<Seq<char>> {
    match file_name_of(path) {
        Some(n) => extension_of_name(n),
        None => None,
    }
}

impl FsoEntry {
    /// Whether the path has the `md` extension, in any letter case.
    pub fn has_md_extension(path: &str) -> (r: bool)
        ensures
            r == (extension_of(path@) matches Some(e) && is_md_extension(e)),
    {
        let is_md = match path_file_name(path) {
            Some(n) => {
                let chars = crate::text::chars_of(n.as_str());
                proof {
                    crate::text::lemma_find_last_char_bounds(chars@, '.');
                }
                match crate::text::find_last_char_index(chars.as_slice(), '.') {
                    Some(i) => {
                        if i == 0 {
                            false
                        } else {
                            let n_len = chars.len();
                            n_len - i - 1 == 2 && (chars[i + 1] == 'm' || chars[i + 1] == 'M')
                                && (chars[i + 2] == 'd' || chars[i + 2] == 'D')
                        }
                    },
                    None => false,
                }
            },
            None => false,
        };
        proof {
            if let Some(n) = file_name_of(path@) {
                crate::text::lemma_find_last_char_bounds(n, '.');
            }
        }
        is_md
    }

    /// Whether `from_path` needs the parsed markdown of the path: for a file
    /// with the `md` extension.
    pub fn needs_markdown(path: &str, is_dir: bool) -> (r: bool)
        ensures
            r == (!is_dir && (extension_of(path@) matches Some(e) && is_md_extension(e))),
    {
        !is_dir && Self::has_md_extension(path)
    }

    /// The listing entry of the path: a directory, a markdown file (by its
    /// `md` extension, in any letter case) with the parsed `markdown`, or an
    /// unknown file. Its title is the file name, or the path without one.
    pub fn from_path(path: &str, is_dir: bool, markdown: Option<FsoMarkdown>) -> (r: FsoEntry)
        requires
            !is_dir && (extension_of(path@) matches Some(e) && is_md_extension(e))
                ==> markdown is Some,
        ensures
            ({
                let title = match file_name_of(path@) {
                    Some(n) => n,
                    None => path@,
                };
                let url = url_encoded(vstd::utf8::encode_utf8(path@));
                if is_dir {
                    r matches FsoEntry::FsoDirectory(d) && d.title@ == title && d.url@ == url
                } else if extension_of(path@) matches Some(e) && is_md_extension(e) {
                    r matches FsoEntry::FsoFile(f) && f.title@ == title && f.url@ == url
                        && f.fso_type == FsoFileType::Markdown(markdown->0)
                } else {
                    r matches FsoEntry::FsoFile(f) && f.title@ == title && f.url@ == url
                        && f.fso_type == FsoFileType::Unknown
                }
            }),
    {
        let title = match path_file_name(path) {
            Some(n) => n,
            None => path.to_owned(),
        };
        let url = url_encode_path(path);
        if is_dir {
            return FsoEntry::FsoDirectory(FsoDirectory { title, url });
        }
        let is_md = Self::has_md_extension(path);
        if is_md {
            match markdown {
                Some(m) => FsoFile::markdown(title, url, m).into(),
                None => {
                    assert(false);
                    FsoFile::unknown(title, url).into()
                },
            }
        } else {
            FsoFile::unknown(title, url).into()
        }
    }
}

/// Whether a blog text can be read (the lines of its leftmost comment all
/// hold a colon).
pub fn blog_is_readable(content: &str) -> (r: bool)
    ensures
        r == blog_readable(content@),
{
    match find_first_comment_content(content) {
        Some(h) => crate::header::header_is_well_formed(h.as_str()),
        None => true,
    }
}

/// Whether a markdown text can be read (its header lines all hold a colon).
pub fn markdown_is_readable(content: &str) -> (r: bool)
    ensures
        r == markdown_readable(content@),
{
    match extract_markdown_header_content(content) {
        Some(h) => crate::header::header_is_well_formed(h.as_str()),
        None => true,
    }
}

/// Every tag of a header value is trimmed: none begins or ends with
/// whitespace.
pub proof fn tags_are_trimmed(value: Seq<char>)
    ensures
        forall|k: int|
            0 <= k < tag_list(value).len() && (#[trigger] tag_list(value)[k]).len() > 0
                ==> !is_whitespace(tag_list(value)[k][0]) && !is_whitespace(
                tag_list(value)[k].last(),
            ),
{
    assert forall|k: int|
        0 <= k < tag_list(value).len() && (#[trigger] tag_list(value)[k]).len() > 0 implies
        !is_whitespace(tag_list(value)[k][0]) && !is_whitespace(tag_list(value)[k].last()) by {
        lemma_trim_has_no_outer_whitespace(split(value, ',')[k]);
    }
}

/// A markdown file always has a title: when the header gives none (or an
/// empty one) the file name stands in, and `Untitled...!` where the path has
/// none. This holds for a path whose file name, if any, is that of
/// `Path::file_name`, which is never empty.
pub proof fn markdown_title_is_never_empty(path: Seq<char>, content: Seq<char>)
    requires
        file_name_of(path) matches Some(n) ==> n.len() > 0,
    ensures
        markdown_title(path, content).len() > 0,
{
    reveal_strlit("Untitled...!");
}

/// A markdown text without a header comment carries no metadata: no author,
/// tags, cover image or date, whatever key is asked for.
pub proof fn no_header_no_metadata(content: Seq<char>, key: Seq<char>)
    requires
        header_content(content) is None,
    ensures
        value_or_empty(markdown_entries(content), key) == Seq::<char>::empty(),
        markdown_tags(content) is None,
{
}


/// The value a header gives for a key: that of its last entry with the key,
/// or the empty text when it has none.
pub open spec fn header_value(h: Seq<char>, key: Seq<char>) -> Seq<char> {
    match lookup(header_entries(h), key) {
        Some(v) => v,
        None => Seq::empty(),
    }
}

/// A blog post takes its metadata from the leftmost comment of its text:
/// the author, the cover image and the date are the values of the comment's
/// last entries with those keys (empty without one), the title is the
/// comment's title (the file name without one), the tags are the pieces of
/// the comment's `tags` value, and the date is to come from the file exactly
/// when the comment gives none.
pub proof fn blog_metadata_comes_from_first_comment(
    path: Seq<char>,
    content: Seq<char>,
    r: (Blog, bool),
    h: Seq<char>,
)
    requires
        blog_read(path, content, r),
        first_comment_content(content) == Some(h),
    ensures
        r.0.author@ == header_value(h, "author"@),
        r.0.cover_image@ == header_value(h, "cover_image"@),
        r.0.dob@ == header_value(h, "dob"@),
        r.0.title@ == match lookup(header_entries(h), "title"@) {
            Some(v) => v,
            None => file_name_of(path)->0,
        },
        match lookup(header_entries(h), "tags"@) {
            Some(v) => r.0.tags matches Some(t) && texts(t@) == tag_list(v),
            None => r.0.tags is None,
        },
        r.1 <==> lookup(header_entries(h), "dob"@) is None,
        r.0.content@ == content,
{
}

/// A blog text without a comment gives a post with no metadata: empty title,
/// author, cover image and date, no tags, and no date to take from the file.
pub proof fn blog_without_comment_has_no_metadata(path: Seq<char>, content: Seq<char>, r: (Blog, bool))
    requires
        blog_read(path, content, r),
        first_comment_content(content) is None,
    ensures
        r.0.title@.len() == 0,
        r.0.author@.len() == 0,
        r.0.cover_image@.len() == 0,
        r.0.dob@.len() == 0,
        r.0.tags is None,
        !r.1,
        r.0.content@ == content,
{
}

/// The extension of a file name is what follows its last `.`: a name made
/// of a non-empty stem, a `.` and a text without `.` has that text as its
/// extension, whatever dots the stem holds.
pub proof fn extension_follows_the_last_dot(stem: Seq<char>, ext: Seq<char>)
    requires
        stem.len() > 0,
        !ext.contains('.'),
    ensures
        extension_of_name(stem + seq!['.'] + ext) == Some(ext),
{
    let n = stem + seq!['.'] + ext;
    crate::text::lemma_find_last_char_bounds(n, '.');
    assert(n[stem.len() as int] == '.');
    match crate::text::find_last_char(n, '.') {
        Some(i) => {
            if i > stem.len() {
                assert(n[i] == ext[i - stem.len() - 1]);
                assert(ext.contains(n[i]));
            }
            assert(i == stem.len());
            assert(n.skip(i + 1) =~= ext);
        },
        None => {},
    }
}

/// A path whose file name is a non-empty stem, a `.` and `md` in any letter
/// case is a markdown file: `has_md_extension` and `needs_markdown` (for a
/// file) hold of it, and `from_path` lists it as markdown.
pub proof fn md_file_names_are_markdown(path: Seq<char>, stem: Seq<char>, ext: Seq<char>)
    requires
        file_name_of(path) == Some(stem + seq!['.'] + ext),
        stem.len() > 0,
        ext.len() == 2,
        ext[0] == 'm' || ext[0] == 'M',
        ext[1] == 'd' || ext[1] == 'D',
    ensures
        extension_of(path) == Some(ext),
        extension_of(path) matches Some(e) && is_md_extension(e),
{
    assert(!ext.contains('.')) by {
        if ext.contains('.') {
            let k = choose|k: int| 0 <= k < ext.len() && ext[k] == '.';
            assert(k == 0 || k == 1);
        }
    }
    extension_follows_the_last_dot(stem, ext);
}

} // verus!
