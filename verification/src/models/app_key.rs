//! The keys with which an application authenticates itself.

use vstd::prelude::*;
use vstd::string::*;

verus! {

/// A stored key.
#[derive(Debug, Clone)]
pub struct AppKey {
    pub id: i32,
    pub app_id: i32,
    pub key: String,
    pub key_preview: String,
}

/// A key that is about to be stored.
#[derive(Debug)]
pub struct NewAppKey {
    pub app_id: i32,
    pub key: String,
    pub key_preview: String,
}

/// What is shown of a key: its first five characters, three dots, and its
/// last five characters.
pub open spec fn preview_of(key: Seq<char>) -> Seq<char>
    recommends
        key.len() >= 5,
{
    key.take(5) + "..."@ + key.skip(key.len() - 5)
}

/// Whether a text has the form in which an identifier is written: 32
/// digits to the base 16, the letters among them small, in groups of 8, 4,
/// 4, 4 and 12 with a hyphen between the groups.
pub open spec fn is_identifier(s: Seq<char>) -> bool {
    &&& s.len() == 36
    &&& forall|i: int|
        0 <= i < 36 ==> if i == 8 || i == 13 || i == 18 || i == 23 {
            #[trigger] s[i] == '-'
        } else {
            ('0' <= s[i] && s[i] <= '9') || ('a' <= s[i] && s[i] <= 'f')
        }
}

/// An identifier holds no colon.
pub proof fn lemma_identifier_has_no_colon(s: Seq<char>)
    requires
        is_identifier(s),
    ensures
        !s.contains(':'),
{
    assert forall|i: int| 0 <= i < s.len() implies s[i] != ':' by {
        assert(s[i] == s[i]);
    }
}

/// Calls `uuid::Uuid::new_v4` and writes the identifier out with
/// `to_string`. The value is random; the contract claims no more than the
/// form in which `uuid` writes every identifier.
#[verifier::external_body]
pub(crate) fn generate_key() -> (out: String)
    ensures
        is_identifier(out@),
{
    uuid::Uuid::new_v4().to_string()
}

impl AppKey {
    /// A key of the application that was not used before, with its
    /// preview.
    pub fn new(app_id: i32) -> (out: NewAppKey)
        ensures
            out.app_id == app_id,
            is_identifier(out.key@),
            out.key_preview@ == preview_of(out.key@),
    {
        NewAppKey::with_key(app_id, generate_key())
    }
}

impl NewAppKey {
    /// The key of an application, with its preview.
    pub fn with_key(app_id: i32, key: String) -> (out: Self)
        requires
            key@.len() >= 5,
        ensures
            out.app_id == app_id,
            out.key == key,
            out.key_preview@ == preview_of(key@),
    {
        let n = key.as_str().unicode_len();
        let mut key_preview = key.as_str().substring_char(0, 5).to_owned();
        key_preview.append("...");
        key_preview.append(key.as_str().substring_char(n - 5, n));
        NewAppKey { app_id, key, key_preview }
    }
}

} // verus!
