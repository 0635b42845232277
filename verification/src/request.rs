//! Building the provider request: the language table and the query URL.
//!
//! The network call itself is I/O and lives outside this crate; what is
//! here is the pure part of preparing it — turning a human-readable
//! language name into the provider's code, and concatenating the query
//! URL from its fixed pieces.

use vstd::prelude::*;

verus! {

/// The provider's code for a human-readable language name, or `None` where
/// the name is not in the supported table.
pub open spec fn spec_language_code(name: Seq<char>) -> Option<Seq<char>> {
    if name == "Chinese"@ {
        Some("ZH-CN"@)
    } else if name == "English"@ {
        Some("EN"@)
    } else if name == "Esperanto"@ {
        Some("EO"@)
    } else if name == "French"@ {
        Some("FR"@)
    } else if name == "German"@ {
        Some("DE"@)
    } else if name == "Italian"@ {
        Some("IT"@)
    } else if name == "Japanese"@ {
        Some("JA"@)
    } else if name == "Korean"@ {
        Some("KO"@)
    } else if name == "Russian"@ {
        Some("RU"@)
    } else if name == "Spanish"@ {
        Some("ES"@)
    } else {
        None
    }
}

/// Whether two string slices hold the same characters.
pub fn str_eq(a: &str, b: &str) -> (r: bool)
    ensures
        r == (a@ == b@),
{
    let an: usize = a.unicode_len();
    let bn: usize = b.unicode_len();
    if an != bn {
        return false;
    }
    let mut i: usize = 0;
    while i < an
        invariant
            i <= an,
            an == a@.len(),
            an == b@.len(),
            forall|j: int| 0 <= j < i ==> a@[j] == b@[j],
        decreases an - i,
    {
        if a.get_char(i) != b.get_char(i) {
            return false;
        }
        i = i + 1;
    }
    proof {
        assert(a@ =~= b@);
    }
    true
}

/// Look a human-readable language name up in the supported table.
///
/// Returns the provider's language code, or `None` exactly where the name
/// is unsupported.
pub fn match_language(input: &str) -> (code: Option<String>)
    ensures
        match code {
            Some(c) => spec_language_code(input@) == Some(c@),
            None => spec_language_code(input@) is None,
        },
{
    if str_eq(input, "Chinese") {
        Some("ZH-CN".to_owned())
    } else if str_eq(input, "English") {
        Some("EN".to_owned())
    } else if str_eq(input, "Esperanto") {
        Some("EO".to_owned())
    } else if str_eq(input, "French") {
        Some("FR".to_owned())
    } else if str_eq(input, "German") {
        Some("DE".to_owned())
    } else if str_eq(input, "Italian") {
        Some("IT".to_owned())
    } else if str_eq(input, "Japanese") {
        Some("JA".to_owned())
    } else if str_eq(input, "Korean") {
        Some("KO".to_owned())
    } else if str_eq(input, "Russian") {
        Some("RU".to_owned())
    } else if str_eq(input, "Spanish") {
        Some("ES".to_owned())
    } else {
        None
    }
}

/// Build the provider's query URL for translating `input` into the target
/// language `language`: the fixed endpoint, the target-language directive,
/// and the raw phrase. No escaping is applied to the phrase.
pub fn build_query(input: &str, language: &str) -> (url: String)
    ensures
        url@ == "http://translate.googleapis.com/translate_a/single?client=gtx&sl=auto&tl="@
            + language@ + "&dt=t&q="@ + input@,
{
    let mut url =
        "http://translate.googleapis.com/translate_a/single?client=gtx&sl=auto&tl=".to_owned();
    url.append(language);
    url.append("&dt=t&q=");
    url.append(input);
    url
}

} // verus!
