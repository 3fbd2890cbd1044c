use hbp::header::{extract_markdown_header_content, HeaderEntries};
use hbp::markdown::{
    blog_is_readable, markdown_is_readable, parse_tags, Blog, FsoEntry, FsoFile, FsoFileType,
    FsoMarkdown, MarkdownData,
};

#[test]
fn skip_if_no_metadata_comment() {
    assert_eq!(extract_markdown_header_content(""), None);
}

#[test]
fn header_comment_is_extracted_from_the_start() {
    assert_eq!(
        extract_markdown_header_content("<!--\ntitle: Hello\n-->\n# body"),
        Some("\ntitle: Hello\n".to_owned())
    );
}

#[test]
fn header_comment_must_open_the_text() {
    assert_eq!(extract_markdown_header_content("# x\n<!--a:b-->"), None);
    assert_eq!(extract_markdown_header_content(" <!--a:b-->"), None);
}

#[test]
fn header_comment_ends_at_the_first_close() {
    assert_eq!(extract_markdown_header_content("<!--a:1-->x-->"), Some("a:1".to_owned()));
    assert_eq!(extract_markdown_header_content("<!---->"), Some("".to_owned()));
}

#[test]
fn header_comment_without_close_is_no_header() {
    assert_eq!(extract_markdown_header_content("<!--abc"), None);
    assert_eq!(extract_markdown_header_content("<!-->"), None);
}

#[test]
fn header_entries_take_the_last_duplicate() {
    let entries = HeaderEntries::parse("\n title : A \nauthor:me\ntitle: B\n");
    assert_eq!(entries.get("title"), Some("B".chars().collect::<Vec<char>>()));
    assert_eq!(entries.get("author"), Some("me".chars().collect::<Vec<char>>()));
    assert_eq!(entries.get("tags"), None);
}

#[test]
fn header_values_keep_later_colons() {
    let entries = HeaderEntries::parse("cover_image: https://x.y/z.png");
    assert_eq!(
        entries.get("cover_image"),
        Some("https://x.y/z.png".chars().collect::<Vec<char>>())
    );
}

#[test]
fn tags_are_split_and_trimmed() {
    let value: Vec<char> = " rust , verus,,web ".chars().collect();
    assert_eq!(
        parse_tags(&value),
        vec!["rust".to_owned(), "verus".to_owned(), "".to_owned(), "web".to_owned()]
    );
}

#[test]
fn markdown_reads_its_header() {
    let content = "<!--\ntitle: Hello world\nauthor: hbp\ntags: a, b\ncover_image: c.png\ndob: 01/02/2003\n-->\n# Hi".to_owned();
    let m = FsoMarkdown::from_markdown("markdown/users/hbp/notes.md", content.clone());
    assert_eq!(m.title, "Hello world");
    assert_eq!(m.author, "hbp");
    assert_eq!(m.tags, Some(vec!["a".to_owned(), "b".to_owned()]));
    assert_eq!(m.cover_image, "c.png");
    assert_eq!(m.dob, "01/02/2003");
    assert_eq!(m.file_name, "notes.md");
    assert_eq!(m.content, content);
    assert_eq!(m.url, "markdown/users/hbp/notes.md");
}

#[test]
fn markdown_without_header_is_titled_by_file_name() {
    let m = FsoMarkdown::from_markdown("a b/notes.md", "# no header".to_owned());
    assert_eq!(m.title, "notes.md");
    assert_eq!(m.author, "");
    assert_eq!(m.tags, None);
    assert_eq!(m.dob, "");
    assert_eq!(m.url, "a%20b/notes.md");
}

#[test]
fn markdown_without_file_name_is_untitled() {
    let m = FsoMarkdown::from_markdown("/", "text".to_owned());
    assert_eq!(m.title, "Untitled...!");
    assert_eq!(m.file_name, "");
}

#[test]
fn markdown_empty_title_falls_back_to_file_name() {
    let m = FsoMarkdown::from_markdown("x/y.md", "<!--\ntitle:\n-->".to_owned());
    assert_eq!(m.title, "y.md");
    let m = FsoMarkdown::from_markdown("x/y.md", "<!--\nauthor: a\n-->".to_owned());
    assert_eq!(m.title, "y.md");
}

#[test]
fn markdown_date_comes_from_the_file_when_missing() {
    let mut m = FsoMarkdown::from_markdown("x/y.md", "body".to_owned());
    m.fill_dob(0);
    assert_eq!(m.dob, "01/01/1970");
    let mut m = FsoMarkdown::from_markdown("x/y.md", "<!--\ndob: 12/24/2020\n-->".to_owned());
    m.fill_dob(86_400 * 365);
    assert_eq!(m.dob, "12/24/2020");
    let mut m = FsoMarkdown::from_markdown("x/y.md", "body".to_owned());
    m.fill_dob(1_700_000_000);
    assert_eq!(m.dob, "11/14/2023");
}

#[test]
fn markdown_missing_error_names_the_path() {
    let e = FsoMarkdown::missing_error("markdown/x.md");
    assert_eq!(e.status_code, 400);
    assert_eq!(e.errors, vec!["markdown/x.md NOT exists".to_owned()]);
}

#[test]
fn markdown_readability() {
    assert!(markdown_is_readable("no header"));
    assert!(markdown_is_readable("<!--\na: b\n-->"));
    assert!(!markdown_is_readable("<!--\nnocolon\n-->"));
    assert!(!markdown_is_readable("<!--\na: b\n\nc: d\n-->"));
    assert!(markdown_is_readable("x<!--\nnocolon\n-->"));
    assert!(!blog_is_readable("x<!--\nnocolon\n-->"));
}

#[test]
fn blog_without_comment_keeps_fields_empty() {
    let (blog, needs_date) = Blog::from_markdown("blogs/post.md", "# hi".to_owned());
    assert_eq!(blog.title, "");
    assert_eq!(blog.file_name, "post.md");
    assert_eq!(blog.dob, "");
    assert!(!needs_date);
}

#[test]
fn blog_reads_a_comment_anywhere() {
    let (mut blog, needs_date) =
        Blog::from_markdown("blogs/post.md", "# hi\n<!--\nauthor: me\ntags: x\n-->".to_owned());
    assert_eq!(blog.title, "post.md");
    assert_eq!(blog.author, "me");
    assert_eq!(blog.tags, Some(vec!["x".to_owned()]));
    assert!(needs_date);
    blog.set_created_date(0);
    assert_eq!(blog.dob, "YYYY/mm/dd");
}

#[test]
fn blog_needs_a_file_name() {
    assert!(Blog::try_from_markdown("/", "x".to_owned()).is_none());
    assert!(Blog::try_from_markdown("a.md", "<!--\nbad\n-->".to_owned()).is_none());
    assert!(Blog::try_from_markdown("a.md", "x".to_owned()).is_some());
}

#[test]
fn markdown_data_title_is_the_file_name() {
    let d = MarkdownData::from_file("a/b.md".to_owned(), "text".to_owned());
    assert_eq!(d.title(), "b.md");
    assert_eq!(d.content, "text");
    let d = MarkdownData::from_file("/".to_owned(), String::new());
    assert_eq!(d.title(), "/");
}

#[test]
fn fso_entries_by_kind() {
    match FsoEntry::from_path("notes", true, None) {
        FsoEntry::FsoDirectory(d) => {
            assert_eq!(d.title, "notes");
            assert_eq!(d.url, "notes");
        }
        other => panic!("unexpected {other:?}"),
    }
    assert!(FsoEntry::needs_markdown("a/b.MD", false));
    assert!(!FsoEntry::needs_markdown("a/b.MD", true));
    assert!(!FsoEntry::needs_markdown("a/.md", false));
    assert!(!FsoEntry::needs_markdown("a/b.mdx", false));
    let m = FsoMarkdown::from_markdown("a/b.MD", "x".to_owned());
    match FsoEntry::from_path("a/b.MD", false, Some(m)) {
        FsoEntry::FsoFile(f) => {
            assert_eq!(f.title, "b.MD");
            assert!(matches!(f.fso_type, FsoFileType::Markdown(_)));
        }
        other => panic!("unexpected {other:?}"),
    }
    match FsoEntry::from_path("a/b.txt", false, None) {
        FsoEntry::FsoFile(f) => assert_eq!(f.fso_type, FsoFileType::Unknown),
        other => panic!("unexpected {other:?}"),
    }
}

#[test]
fn fso_file_constructors() {
    let f = FsoFile::unknown("t".to_owned(), "u".to_owned());
    assert_eq!(f.title, "t");
    assert_eq!(f.url, "u");
    assert_eq!(FsoEntry::from(f), FsoEntry::FsoFile(FsoFile::unknown("t".to_owned(), "u".to_owned())));
    let f = FsoFile::markdown("t".to_owned(), "u".to_owned(), FsoMarkdown::default());
    assert_eq!(f.fso_type, FsoFileType::Markdown(FsoMarkdown::default()));
}
