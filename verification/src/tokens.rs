//! The rule for tokens read back from storage: only well-formed JSON is
//! handed out, and a file that holds anything else is to be removed.

use vstd::prelude::*;
use crate::json::{is_valid_json, json_is_valid};

verus! {

/// What a look at the stored tokens gives.
#[derive(Debug)]
pub struct StoredTokens {
    /// The tokens, as stored, if the file held well-formed JSON.
    pub tokens: Option<String>,
    /// Whether the file is to be removed because its content is no JSON.
    pub remove_file: bool,
}

/// What is handed out for a token file's content, once it is known whether
/// the content is well-formed JSON.
pub fn review_tokens(content: String, valid: bool) -> (found: StoredTokens)
    ensures
        found.tokens == if valid {
            Some(content)
        } else {
            None
        },
        found.remove_file == !valid,
{
    if valid {
        StoredTokens { tokens: Some(content), remove_file: false }
    } else {
        StoredTokens { tokens: None, remove_file: true }
    }
}

/// Decides what to hand out for the token file. `file_content` is the file's
/// text, or nothing where the file is missing or cannot be read.
pub fn get_stored_tokens(file_content: Option<String>) -> (found: StoredTokens)
    ensures
        file_content is None ==> found.tokens is None && !found.remove_file,
        file_content matches Some(content) ==> {
            &&& found.tokens == if json_is_valid(content@) {
                Some(content)
            } else {
                None
            }
            &&& found.remove_file == !json_is_valid(content@)
        },
{
    match file_content {
        Some(content) => {
            let valid = is_valid_json(content.as_str());
            review_tokens(content, valid)
        },
        None => StoredTokens { tokens: None, remove_file: false },
    }
}

} // verus!
