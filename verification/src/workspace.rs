//! The workspace allocator: a staging path under the shared temporary
//! area, named by a short random token. The path is only named here; the
//! fetch creates the directory. Nothing checks that the name is free, and
//! nothing retries: the token makes a collision unlikely, not impossible.

use crate::path::{
    final_component_of, is_skipped, is_within, join, joined, lemma_final_component_of_joined,
};
use crate::text::push_char;
use rand::Rng;
use vstd::prelude::*;
use vstd::string::*;

verus! {

/// The number of characters of a token.
pub const TOKEN_LENGTH: usize = 7;

/// The area that staging paths lie in.
pub open spec fn staging_root() -> Seq<char> {
    "/tmp"@
}

/// A letter of the Latin alphabet, in either case, or a digit.
pub open spec fn is_alphanumeric(c: char) -> bool {
    ('0' <= c && c <= '9') || ('A' <= c && c <= 'Z') || ('a' <= c && c <= 'z')
}

/// A token: `TOKEN_LENGTH` alphanumeric characters.
pub open spec fn is_token(token: Seq<char>) -> bool {
    token.len() == TOKEN_LENGTH && forall|i: int|
        0 <= i < token.len() ==> is_alphanumeric(#[trigger] token[i])
}

/// The staging path that `token` names.
pub open spec fn staging_path_of(token: Seq<char>) -> Seq<char> {
    joined(staging_root(), token)
}

/// What follows the staging root and its separator in `path`.
pub open spec fn token_of(path: Seq<char>) -> Seq<char> {
    path.subrange(staging_root().len() as int + 1, path.len() as int)
}

/// `path` is the staging path of a token.
pub open spec fn is_staging_path(path: Seq<char>) -> bool {
    path.len() == staging_root().len() + 1 + TOKEN_LENGTH && is_token(token_of(path)) && path
        == staging_path_of(token_of(path))
}

/// One sample of rand's `Alphanumeric` distribution, drawn from the thread's
/// generator with `Rng::sample`, as a character. The distribution picks one
/// of the 62 characters A-Z, a-z and 0-9; which one is left open.
#[verifier::external_body]
fn sample_alphanumeric() -> (c: char)
    ensures
        is_alphanumeric(c),
{
    char::from(rand::thread_rng().sample(rand::distributions::Alphanumeric))
}

/// A fresh random token.
pub fn random_token() -> (token: String)
    ensures
        is_token(token@),
{
    let mut token = String::new();
    let mut drawn: usize = 0;
    while drawn < TOKEN_LENGTH
        invariant
            drawn <= TOKEN_LENGTH,
            token@.len() == drawn,
            forall|i: int| 0 <= i < token@.len() ==> is_alphanumeric(#[trigger] token@[i]),
        decreases TOKEN_LENGTH - drawn,
    {
        let c = sample_alphanumeric();
        push_char(&mut token, c);
        drawn = drawn + 1;
    }
    token
}

/// The staging path that `token` names.
pub fn staging_path(token: &str) -> (path: String)
    ensures
        path@ == staging_path_of(token@),
{
    join("/tmp", token)
}

/// Names a staging path for one run.
pub fn allocate() -> (path: String)
    ensures
        is_staging_path(path@),
{
    let token = random_token();
    let path = staging_path(token.as_str());
    proof {
        reveal_strlit("/tmp");
        assert(token_of(path@) =~= token@);
    }
    path
}

/// A staging path's own name is its token.
pub proof fn lemma_staging_path_name(path: Seq<char>)
    requires
        is_staging_path(path),
    ensures
        final_component_of(path) == token_of(path),
        !is_skipped(token_of(path)),
{
    let token = token_of(path);
    assert forall|i: int| 0 <= i < token.len() implies token[i] != '/' by {
        assert(is_alphanumeric(token[i]));
    }
    lemma_final_component_of_joined(staging_root(), token);
}

/// A staging path lies within the staging root.
pub proof fn lemma_staging_path_lies_in_the_root(path: Seq<char>)
    requires
        is_staging_path(path),
    ensures
        is_within(path, staging_root()),
{
    let root = staging_root();
    assert(path.subrange(0, root.len() as int) =~= root);
    assert(path[root.len() as int] == '/');
}

} // verus!
