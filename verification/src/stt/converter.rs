//! Script conversion of transcripts: Simplified to Traditional Chinese.

use vstd::prelude::*;
use crate::recording::outcome::text_view;
use crate::text::lowercased;
use ferrous_opencc::OpenCC;
use ferrous_opencc::config::BuiltinConfig;

verus! {

/// What the built-in Simplified-to-Traditional conversion of OpenCC makes
/// of a text, or nothing where the converter cannot be set up.
pub uninterp spec fn opencc_s2t(text: Seq<char>) -> Option<Seq<char>>;

/// Whether transcripts in a language are converted to Traditional
/// Chinese: its tag, in lower case, is `zh-tw`, `zh_tw` or `zh-hant`.
pub open spec fn wants_traditional(language: Seq<char>) -> bool {
    let tag = lowercased(language);
    tag == "zh-tw"@ || tag == "zh_tw"@ || tag == "zh-hant"@
}

/// Whether the language tag asks for Traditional Chinese.
pub fn needs_s2t_conversion(language: &str) -> (b: bool)
    ensures
        b == wants_traditional(language@),
{
    let tag: String = language.to_lowercase();
    tag.as_str().eq("zh-tw") || tag.as_str().eq("zh_tw") || tag.as_str().eq("zh-hant")
}

/// `OpenCC::from_config` with the built-in Simplified-to-Traditional
/// configuration, then `OpenCC::convert`: the converted text, or `None`
/// where the configuration did not load. Both work on data compiled into
/// the crate, so the result depends on the text alone; it is named, not
/// restated.
#[verifier::external_body]
fn convert_s2t(text: &str) -> (converted: Option<String>)
    ensures
        text_view(converted) == opencc_s2t(text@),
{
    match OpenCC::from_config(BuiltinConfig::S2t) {
        Ok(cc) => Some(cc.convert(text)),
        Err(_) => None,
    }
}

/// The text that is kept for a conversion's outcome: the converted text,
/// or the text given where there is none.
pub fn converted_or_given(text: &str, converted: Option<String>) -> (kept: String)
    ensures
        kept@ == match text_view(converted) {
            Some(c) => c,
            None => text@,
        },
{
    match converted {
        Some(c) => c,
        None => text.to_owned(),
    }
}

/// Converts Simplified Chinese to Traditional Chinese. Where the
/// converter cannot be set up the text is returned as it is.
pub fn simplified_to_traditional(text: &str) -> (out: String)
    ensures
        out@ == match opencc_s2t(text@) {
            Some(c) => c,
            None => text@,
        },
{
    let converted: Option<String> = convert_s2t(text);
    converted_or_given(text, converted)
}

/// The transcript as it is handed on: converted where the language asks
/// for Traditional Chinese, else as the provider returned it.
pub fn post_process(text: String, language: &str) -> (out: String)
    ensures
        out@ == if wants_traditional(language@) {
            match opencc_s2t(text@) {
                Some(c) => c,
                None => text@,
            }
        } else {
            text@
        },
{
    if needs_s2t_conversion(language) {
        simplified_to_traditional(text.as_str())
    } else {
        text
    }
}

} // verus!
