use vstd::prelude::*;
use sha2::Digest;
use crate::hex::{lemma_upper_hex_shape, to_upper_hex, upper_hex, is_upper_hex_digit};
use crate::text::string_from_chars;

verus! {

/// The SHA-256 digest of the UTF-8 bytes of a text.
pub uninterp spec fn sha256_of(text: Seq<char>) -> Seq<u8>;

/// Calls `sha2::Sha256::new`, `update` with the text and `finalize`.
/// Claimed: the digest of the text's bytes, named by `sha256_of`, which the
/// crate produces as 32 bytes (`Sha256`'s output size).
#[verifier::external_body]
fn sha256_digest(text: &str) -> (r: Vec<u8>)
    ensures
        r@ == sha256_of(text@),
        r@.len() == 32,
{
    let mut sha256 = sha2::Sha256::new();
    sha256.update(text);
    sha256.finalize().to_vec()
}

/// The slug of a full URL: the upper-case hexadecimal SHA-256 of the URL.
pub open spec fn slug_of(full_url: Seq<char>) -> Seq<char> {
    upper_hex(sha256_of(full_url))
}

/// A short alias for a long URL.
#[derive(Clone, Debug, PartialEq, Eq)]
pub struct TinyUrl {
    slug: String,
    full_url: String,
}

impl TinyUrl {
    pub closed spec fn slug_view(&self) -> Seq<char> {
        self.slug@
    }

    pub closed spec fn full_url_view(&self) -> Seq<char> {
        self.full_url@
    }

    /// The slug of a full URL.
    pub fn slug_from(full_url: &str) -> (r: String)
        ensures
            r@ == slug_of(full_url@),
            r@.len() == 64,
            forall|k: int| 0 <= k < 64 ==> is_upper_hex_digit(#[trigger] r@[k]),
    {
        let digest = sha256_digest(full_url);
        let hex = to_upper_hex(digest.as_slice());
        proof {
            lemma_upper_hex_shape(digest@);
        }
        string_from_chars(hex.as_slice())
    }

    /// The alias of a full URL, keyed by its slug.
    pub fn new(full_url: String) -> (r: TinyUrl)
        ensures
            r.slug_view() == slug_of(full_url@),
            r.full_url_view() == full_url@,
    {
        let slug = Self::slug_from(full_url.as_str());
        TinyUrl { slug, full_url }
    }

    /// An alias as it was stored: slug and full URL as given.
    pub fn from_stored(slug: String, full_url: String) -> (r: TinyUrl)
        ensures
            r.slug_view() == slug@,
            r.full_url_view() == full_url@,
    {
        TinyUrl { slug, full_url }
    }

    pub fn get_slug(&self) -> (r: String)
        ensures
            r@ == self.slug_view(),
    {
        self.slug.clone()
    }

    pub fn get_full_url(&self) -> (r: String)
        ensures
            r@ == self.full_url_view(),
    {
        self.full_url.clone()
    }
}

/// Two tiny URLs made for the same full URL have the same slug, so storing
/// a URL again keeps it under the same key.
pub proof fn tiny_url_slug_is_determined_by_url(a: TinyUrl, b: TinyUrl)
    requires
        a.slug_view() == slug_of(a.full_url_view()),
        b.slug_view() == slug_of(b.full_url_view()),
        a.full_url_view() == b.full_url_view(),
    ensures
        a.slug_view() == b.slug_view(),
{
}

/// A registered user as the user store keeps it.
#[derive(Clone, Debug, PartialEq, Eq)]
pub struct DbUser {
    pub username: String,
    pub hashed_password: String,
    pub title: String,
}

/// A user as shown.
#[derive(Clone, Debug, PartialEq, Eq)]
pub struct User {
    pub username: String,
    pub title: String,
}

/// The fields of a user that an update sets.
#[derive(Clone, Debug, PartialEq, Eq)]
pub struct PutUser {
    pub username: String,
    pub title: String,
}

/// A user's profile as the profile store keeps it.
#[derive(Clone, Debug, PartialEq, Eq)]
pub struct DbProfile {
    pub username: String,
    pub title: String,
    pub avatar_url: Option<String>,
    pub description: Option<String>,
}

impl DbProfile {
    /// The minimal profile of a user: titled with the user name.
    pub fn from_username(username: String) -> (r: DbProfile)
        ensures
            r.username@ == username@,
            r.title@ == username@,
            r.avatar_url is None,
            r.description is None,
    {
        DbProfile { username: username.clone(), title: username, avatar_url: None, description: None }
    }
}

impl From<DbUser> for DbProfile {
    fn from(db_user: DbUser) -> (r: DbProfile) {
        DbProfile { username: db_user.username, title: db_user.title, avatar_url: None, description: None }
    }
}

impl vstd::std_specs::convert::FromSpecImpl<DbUser> for DbProfile {
    open spec fn obeys_from_spec() -> bool {
        true
    }

    open spec fn from_spec(db_user: DbUser) -> DbProfile {
        DbProfile { username: db_user.username, title: db_user.title, avatar_url: None, description: None }
    }
}

/// A blog post.
#[derive(Clone, Debug, PartialEq, Eq)]
pub struct Post {
    pub id: String,
    pub title: String,
    pub body: String,
    pub published: bool,
}

/// The fields of a post that a client sends to create it.
#[derive(Clone, Debug, PartialEq, Eq)]
pub struct NewPost {
    pub title: String,
    pub body: String,
}

/// A post as a client sends it to update it.
#[derive(Clone, Debug, PartialEq, Eq)]
pub struct UpdatedPost {
    pub id: String,
    pub title: String,
    pub body: String,
    pub published: bool,
}

/// A new post with its generated id.
#[derive(Clone, Debug, PartialEq, Eq)]
pub struct InsertableNewPost {
    pub id: String,
    pub title: String,
    pub body: String,
}

/// The characters of nanoid's URL-safe alphabet.
pub open spec fn is_nanoid_char(c: char) -> bool {
    c == '_' || c == '-' || ('0' <= c && c <= '9') || ('a' <= c && c <= 'z') || ('A' <= c && c
        <= 'Z')
}

/// Calls `nanoid::format` with the default random source, the `SAFE`
/// alphabet and size 21 (what `nanoid!()` expands to).
/// Claimed: 21 characters, each from the `SAFE` alphabet (the crate's loop
/// pushes alphabet characters until the length is reached); which ones is
/// chance.
#[verifier::external_body]
fn random_id() -> (r: String)
    ensures
        r@.len() == 21,
        forall|k: int| 0 <= k < 21 ==> is_nanoid_char(#[trigger] r@[k]),
{
    nanoid::format(nanoid::rngs::default, &nanoid::alphabet::SAFE, 21)
}

impl InsertableNewPost {
    /// A new post with a fresh random id.
    pub fn from_new_post(new_post: NewPost) -> (r: InsertableNewPost)
        ensures
            r.title == new_post.title,
            r.body == new_post.body,
            r.id@.len() == 21,
            forall|k: int| 0 <= k < 21 ==> is_nanoid_char(#[trigger] r.id@[k]),
    {
        InsertableNewPost { id: random_id(), title: new_post.title, body: new_post.body }
    }
}

/// A personal challenge; its times are milliseconds since the Unix epoch.
#[derive(Clone, Debug, PartialEq, Eq)]
pub struct Challenge {
    pub id: String,
    pub title: String,
    pub why: String,
    pub note: String,
    pub start_at_ms: i64,
    pub end_at_ms: i64,
    pub finished: bool,
}

/// A markdown file of a user: its name and size in bytes.
#[derive(Clone, Debug, PartialEq, Eq)]
pub struct MarkdownItem {
    pub filename: String,
    pub size: u64,
}

/// Extra data of a rendered markdown page.
#[derive(Clone, Debug, PartialEq, Eq)]
pub struct MarkdownExtraData {
    pub title: String,
    pub og_title: String,
    pub og_image: String,
}

impl Default for MarkdownExtraData {
    fn default() -> (r: MarkdownExtraData)
        ensures
            r.title@.len() == 0,
            r.og_title@.len() == 0,
            r.og_image@.len() == 0,
    {
        MarkdownExtraData { title: String::new(), og_title: String::new(), og_image: String::new() }
    }
}

/// The store of challenges.
#[derive(Default)]
pub struct ChallengeOrm {}

/// The store of posts.
#[derive(Default)]
pub struct PostOrm {}

/// The store of profiles.
#[derive(Default)]
pub struct ProfileOrm {}

/// The store of tiny URLs.
#[derive(Default)]
pub struct TinyUrlOrm {}

/// The store of users.
#[derive(Default)]
pub struct UserOrm {}

impl ChallengeOrm {
    pub fn db_file_name(&self) -> (r: String)
        ensures
            r@ == "challenges.sled.db"@,
    {
        "challenges.sled.db".to_owned()
    }
}

impl PostOrm {
    pub fn db_file_name(&self) -> (r: String)
        ensures
            r@ == "posts.sled.db"@,
    {
        "posts.sled.db".to_owned()
    }
}

impl ProfileOrm {
    pub fn db_file_name(&self) -> (r: String)
        ensures
            r@ == "profiles.sled.db"@,
    {
        "profiles.sled.db".to_owned()
    }
}

impl TinyUrlOrm {
    pub fn db_file_name(&self) -> (r: String)
        ensures
            r@ == "tiny_urls.sled.db"@,
    {
        "tiny_urls.sled.db".to_owned()
    }
}

impl UserOrm {
    pub fn db_file_name(&self) -> (r: String)
        ensures
            r@ == "users.sled.db"@,
    {
        "users.sled.db".to_owned()
    }
}

} // verus!
