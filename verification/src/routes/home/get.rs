//! The front page: the page kept with the game's files, with the address of
//! the service written into it.

use vstd::prelude::*;
use vstd::string::*;
use crate::text::concat2;

verus! {

/// What the page holds in place of the address of the service.
pub const ADDRESS_MARK: &'static str = "{SERVER_ADDRESS}";

/// `text` with every `pattern` replaced by `with`, as `str::replace` does
/// it.
pub uninterp spec fn replaced(text: Seq<char>, pattern: Seq<char>, with: Seq<char>) -> Seq<char>;

/// `str::replace`. The contract claims that the result is a function of the
/// three texts.
#[verifier::external_body]
fn replace_all(text: &str, pattern: &str, with: &str) -> (r: String)
    ensures
        r@ == replaced(text@, pattern@, with@),
{
    text.replace(pattern, with)
}

/// The file that holds the front page, under `ui_dir`.
pub fn index_file(ui_dir: &str) -> (path: String)
    ensures
        path@ == ui_dir@ + "/index.html"@,
{
    concat2(ui_dir, "/index.html")
}

/// The front page: `file_content` with `remote_url` in place of the mark.
pub fn public_index(remote_url: &str, file_content: &str) -> (page: String)
    ensures
        page@ == replaced(file_content@, ADDRESS_MARK@, remote_url@),
{
    replace_all(file_content, ADDRESS_MARK, remote_url)
}

} // verus!
