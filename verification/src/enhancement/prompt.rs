//! The instruction given to the language model.

use vstd::prelude::*;
use vstd::string::StringExecFns;
use crate::recording::outcome::text_view;
use crate::text::{lowercased, joined, views, join, starts_with, concat3};

verus! {

/// What the model is asked to do with the text.
#[derive(Debug, Clone, Copy, PartialEq, Eq, Structural)]
pub enum EnhancementMode {
    FixGrammar,
    AddPunctuation,
    AdjustTone,
    Custom,
}

/// The settings of one enhancement.
#[derive(Debug, Clone, PartialEq, Eq)]
pub struct EnhancementConfig {
    pub mode: EnhancementMode,
    /// The language of the text, as a tag such as `en` or `zh-TW`.
    pub language: String,
    /// The model to ask.
    pub model: String,
    /// The instruction for `EnhancementMode::Custom`.
    pub custom_prompt: Option<String>,
    /// Whether the text mixes Chinese characters and Latin letters.
    pub source_has_mixed_script: bool,
    /// Usage hints for Taiwanese Mandarin that apply to the text.
    pub tw_lexicon_hints: Vec<String>,
}

/// Settings as a mathematical value.
pub struct EnhancementConfigView {
    pub mode: EnhancementMode,
    pub language: Seq<char>,
    pub model: Seq<char>,
    pub custom_prompt: Option<Seq<char>>,
    pub source_has_mixed_script: bool,
    pub tw_lexicon_hints: Seq<Seq<char>>,
}

impl View for EnhancementConfig {
    type V = EnhancementConfigView;

    open spec fn view(&self) -> EnhancementConfigView {
        EnhancementConfigView {
            mode: self.mode,
            language: self.language@,
            model: self.model@,
            custom_prompt: text_view(self.custom_prompt),
            source_has_mixed_script: self.source_has_mixed_script,
            tw_lexicon_hints: views(self.tw_lexicon_hints@),
        }
    }
}

/// The instruction to correct a transcript in Taiwanese Mandarin.
pub const FIX_ZH_TW: &'static str = "請將以下語音轉文字內容修正為「臺灣繁體中文」，依語氣停頓補上自然標點（，。！？）；修正常見同音字與錯字，但不要改變原意、不要擴寫。用詞與字形請優先遵循教育部《重編國語辭典修訂本》與《異體字字典》，標點請優先遵循教育部《重訂標點符號手冊》，若涉及台語常用詞可參照教育部《臺灣台語常用詞辭典》。若原文包含英文句子、英文片語、術語、產品名、API 名稱、程式碼或縮寫，必須保留原文英文，不可翻譯成中文。只回傳修正後文字。";

/// Added to it where the transcript mixes scripts.
pub const MIXED_ZH_TW: &'static str = "若原文含中英混說，英文品牌名、產品名、API 名稱、程式碼片段請保留原文，不翻譯、不改大小寫。";

/// Introduces the usage hints.
pub const HINTS_ZH_TW: &'static str = "若語句符合以下台灣常見口語對照，請優先使用對應詞彙：";

/// Stands between two usage hints.
pub const HINT_SEPARATOR: &'static str = "；";

/// Ends the usage hints.
pub const HINTS_END: &'static str = "。";

/// The instruction to correct a transcript in Simplified Chinese.
pub const FIX_ZH_CN: &'static str = "请将以下语音转文字内容修正为「简体中文」，按语气停顿补上自然标点（，。！？）；修正常见同音字与错字，但不要改变原意、不要扩写。若原文包含英文句子、英文短语、术语、产品名、API 名称、代码或缩写，必须保留英文原文，不可翻译成中文。只返回修正后的文本。";

/// Added to it where the transcript mixes scripts.
pub const MIXED_ZH_CN: &'static str = "若原文含中英混说，英文品牌名、产品名、API 名称、代码片段请保留原文，不翻译、不改大小写。";

/// The instruction to correct a transcript in Japanese.
pub const FIX_JA: &'static str = "以下の音声認識テキストを自然な日本語に整えてください。文法・誤字を修正し、文脈に合う句読点を補ってください。「えー」「あの」「その」「なんか」などの冗長な言いよどみは削除してよいですが、意味は変えないでください。英語のブランド名、製品名、API 名、コード断片は原文のまま保持してください。修正後のテキストのみ返してください。";

/// Added to it where the transcript mixes scripts.
pub const MIXED_JA: &'static str = " 日本語と英語が混在している場合も、英語の固有名詞は翻訳せず表記を維持してください。";

/// The instruction to correct a transcript in English.
pub const FIX_EN: &'static str = "Polish the following speech-to-text into natural, concise English. Fix grammar and spelling, add appropriate punctuation, and remove disfluencies like 'um', 'uh', 'you know', and repeated filler phrases when they do not change meaning. Preserve intent and factual content. Return only the revised text.";

/// Added, for English and for any other language, where the transcript mixes scripts.
pub const MIXED_OTHER: &'static str = " If the input mixes languages, preserve brand names, product names, API names, and code snippets exactly as written.";

/// The instruction to correct a transcript in another language, up to the language.
pub const FIX_BEFORE: &'static str = "Fix grammar and spelling errors in the following ";

/// The same, after the language.
pub const FIX_AFTER: &'static str = " text. Return only the corrected text, nothing else.";

/// The instruction to punctuate, up to the language.
pub const PUNCTUATE_BEFORE: &'static str = "Add proper punctuation to the following ";

/// The same, after the language.
pub const PUNCTUATE_AFTER: &'static str = " text from speech recognition. Return only the punctuated text, nothing else.";

/// The instruction to adjust the tone, up to the language.
pub const TONE_BEFORE: &'static str = "Adjust the tone of the following ";

/// The same, after the language.
pub const TONE_AFTER: &'static str = " text to be more professional and polished. Return only the adjusted text, nothing else.";

/// The instruction of the custom mode where none is given.
pub const CUSTOM_DEFAULT: &'static str = "Improve the following text. Return only the improved text.";

/// The family of languages that an instruction is written for.
#[derive(Debug, Clone, Copy, PartialEq, Eq, Structural)]
pub enum PromptLanguage {
    /// Taiwanese Mandarin: the tag is `zh-tw` or `zh`.
    TaiwanChinese,
    /// Simplified Chinese: the tag is `zh-cn`.
    SimplifiedChinese,
    /// Japanese: the tag begins with `ja`.
    Japanese,
    /// English: the tag begins with `en`.
    English,
    /// Any other language.
    Other,
}

/// The family of a language tag, judged on its lower-case form; the first
/// family that fits, in the order of `PromptLanguage`.
pub open spec fn prompt_language(language: Seq<char>) -> PromptLanguage {
    let tag = lowercased(language);
    if tag == "zh-tw"@ || tag == "zh"@ {
        PromptLanguage::TaiwanChinese
    } else if tag == "zh-cn"@ {
        PromptLanguage::SimplifiedChinese
    } else if "ja"@.is_prefix_of(tag) {
        PromptLanguage::Japanese
    } else if "en"@.is_prefix_of(tag) {
        PromptLanguage::English
    } else {
        PromptLanguage::Other
    }
}

/// `extra` where `wanted`, else nothing.
pub open spec fn when(wanted: bool, extra: Seq<char>) -> Seq<char> {
    if wanted {
        extra
    } else {
        Seq::empty()
    }
}

/// The usage hints as they are added to the instruction: nothing where
/// there are none.
pub open spec fn hints_clause(hints: Seq<Seq<char>>) -> Seq<char> {
    if hints.len() == 0 {
        Seq::empty()
    } else {
        HINTS_ZH_TW@ + joined(hints, HINT_SEPARATOR@) + HINTS_END@
    }
}

/// The instruction to correct a transcript.
pub open spec fn fix_grammar_prompt(c: EnhancementConfigView) -> Seq<char> {
    match prompt_language(c.language) {
        PromptLanguage::TaiwanChinese => FIX_ZH_TW@ + when(c.source_has_mixed_script, MIXED_ZH_TW@)
            + hints_clause(c.tw_lexicon_hints),
        PromptLanguage::SimplifiedChinese => FIX_ZH_CN@ + when(
            c.source_has_mixed_script,
            MIXED_ZH_CN@,
        ),
        PromptLanguage::Japanese => FIX_JA@ + when(c.source_has_mixed_script, MIXED_JA@),
        PromptLanguage::English => FIX_EN@ + when(c.source_has_mixed_script, MIXED_OTHER@),
        PromptLanguage::Other => FIX_BEFORE@ + c.language + FIX_AFTER@ + when(
            c.source_has_mixed_script,
            MIXED_OTHER@,
        ),
    }
}

/// The instruction for the settings.
pub open spec fn enhancement_prompt(c: EnhancementConfigView) -> Seq<char> {
    match c.mode {
        EnhancementMode::FixGrammar => fix_grammar_prompt(c),
        EnhancementMode::AddPunctuation => PUNCTUATE_BEFORE@ + c.language + PUNCTUATE_AFTER@,
        EnhancementMode::AdjustTone => TONE_BEFORE@ + c.language + TONE_AFTER@,
        EnhancementMode::Custom => match c.custom_prompt {
            Some(p) => p,
            None => CUSTOM_DEFAULT@,
        },
    }
}

/// The family of a language tag.
pub fn classify_language(language: &str) -> (family: PromptLanguage)
    ensures
        family == prompt_language(language@),
{
    let tag: String = language.to_lowercase();
    if tag.as_str().eq("zh-tw") || tag.as_str().eq("zh") {
        PromptLanguage::TaiwanChinese
    } else if tag.as_str().eq("zh-cn") {
        PromptLanguage::SimplifiedChinese
    } else if starts_with(tag.as_str(), "ja") {
        PromptLanguage::Japanese
    } else if starts_with(tag.as_str(), "en") {
        PromptLanguage::English
    } else {
        PromptLanguage::Other
    }
}

fn with_addition(base: &str, wanted: bool, extra: &str) -> (s: String)
    ensures
        s@ == base@ + when(wanted, extra@),
{
    let mut s: String = String::from_str(base);
    if wanted {
        s.append(extra);
    } else {
        assert(base@ + Seq::<char>::empty() =~= base@);
    }
    s
}

/// Builds the instruction for the model.
///
/// To correct a transcript the instruction is written in the language of
/// the transcript where that is Chinese, Japanese or English, and names
/// the language otherwise; where the transcript mixes scripts it asks to
/// keep foreign names as they are; for Taiwanese Mandarin the usage hints
/// follow. The other modes name the language, and the custom mode takes
/// the instruction given.
pub fn build_enhancement_prompt(config: &EnhancementConfig) -> (prompt: String)
    ensures
        prompt@ == enhancement_prompt(config@),
{
    let mixed: bool = config.source_has_mixed_script;
    match config.mode {
        EnhancementMode::FixGrammar => {
            match classify_language(config.language.as_str()) {
                PromptLanguage::TaiwanChinese => {
                    let mut prompt: String = with_addition(FIX_ZH_TW, mixed, MIXED_ZH_TW);
                    if config.tw_lexicon_hints.len() > 0 {
                        let listed: String = join(&config.tw_lexicon_hints, HINT_SEPARATOR);
                        prompt.append(HINTS_ZH_TW);
                        prompt.append(listed.as_str());
                        prompt.append(HINTS_END);
                        assert(prompt@ =~= FIX_ZH_TW@ + when(mixed, MIXED_ZH_TW@) + hints_clause(
                            views(config.tw_lexicon_hints@),
                        ));
                    } else {
                        assert(prompt@ =~= prompt@ + hints_clause(views(config.tw_lexicon_hints@)));
                    }
                    prompt
                },
                PromptLanguage::SimplifiedChinese => with_addition(FIX_ZH_CN, mixed, MIXED_ZH_CN),
                PromptLanguage::Japanese => with_addition(FIX_JA, mixed, MIXED_JA),
                PromptLanguage::English => with_addition(FIX_EN, mixed, MIXED_OTHER),
                PromptLanguage::Other => {
                    let named: String = concat3(FIX_BEFORE, config.language.as_str(), FIX_AFTER);
                    with_addition(named.as_str(), mixed, MIXED_OTHER)
                },
            }
        },
        EnhancementMode::AddPunctuation => concat3(
            PUNCTUATE_BEFORE,
            config.language.as_str(),
            PUNCTUATE_AFTER,
        ),
        EnhancementMode::AdjustTone => concat3(TONE_BEFORE, config.language.as_str(), TONE_AFTER),
        EnhancementMode::Custom => match &config.custom_prompt {
            Some(p) => p.clone(),
            None => String::from_str(CUSTOM_DEFAULT),
        },
    }
}

} // verus!
