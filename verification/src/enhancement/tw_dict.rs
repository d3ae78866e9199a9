//! A word list for Taiwanese usage: colloquial words, internet slang and
//! the plain words or symbols that stand for them.

use vstd::prelude::*;
use vstd::string::StringExecFns;
use crate::text::{
    ascii_lowercased, has_slice, replaced, joined, slice_views, views, join_slices, starts_with,
    contains, replace,
};

verus! {

/// One entry of the word list: the spellings of a word, and what stands
/// for it.
#[derive(Debug, Clone, PartialEq, Eq)]
pub struct TwLexiconEntry {
    pub aliases: Vec<&'static str>,
    pub replacement: &'static str,
}

/// An entry as a mathematical value.
pub struct EntryView {
    pub aliases: Seq<Seq<char>>,
    pub replacement: Seq<char>,
}

impl View for TwLexiconEntry {
    type V = EntryView;

    open spec fn view(&self) -> EntryView {
        EntryView { aliases: slice_views(self.aliases@), replacement: self.replacement@ }
    }
}

/// The views of a run of entries.
pub open spec fn entry_views(entries: Seq<TwLexiconEntry>) -> Seq<EntryView> {
    Seq::new(entries.len(), |i: int| entries[i]@)
}

/// The word list.
pub open spec fn lexicon() -> Seq<EntryView> {
    seq![
        EntryView { aliases: seq!["qq"@, "QQ"@, "哭哭"@], replacement: "😭"@ },
        EntryView { aliases: seq!["笑死"@, "笑爛"@, "XD"@, "xD"@], replacement: "😂"@ },
        EntryView { aliases: seq!["傻眼"@, "無言"@], replacement: "🙄"@ },
        EntryView { aliases: seq!["火大"@, "氣死"@], replacement: "😤"@ },
        EntryView { aliases: seq!["愛心"@], replacement: "❤️"@ },
        EntryView { aliases: seq!["Y2K"@, "y2k"@], replacement: "千禧年復古風格"@ },
        EntryView { aliases: seq!["Z世代"@, "Gen Z"@, "gen z"@], replacement: "Z世代"@ },
        EntryView { aliases: seq!["I人"@, "i人"@], replacement: "偏內向人格"@ },
        EntryView { aliases: seq!["E人"@, "e人"@], replacement: "偏外向人格"@ },
        EntryView { aliases: seq!["破防"@], replacement: "情緒被戳中"@ },
        EntryView { aliases: seq!["不EY"@, "不ey"@], replacement: "不意外"@ },
        EntryView { aliases: seq!["母湯"@, "母湯喔"@], replacement: "不行"@ },
        EntryView { aliases: seq!["踹共"@], replacement: "出來講"@ },
        EntryView { aliases: seq!["住海邊"@], replacement: "管太多"@ },
        EntryView { aliases: seq!["最頂"@], replacement: "最強"@ },
    ]
}

fn add_entry(table: &mut Vec<TwLexiconEntry>, aliases: Vec<&'static str>, replacement: &'static str)
    ensures
        entry_views(final(table)@) == entry_views(old(table)@).push(
            EntryView { aliases: slice_views(aliases@), replacement: replacement@ },
        ),
{
    table.push(TwLexiconEntry { aliases, replacement });
    assert(entry_views(table@) =~= entry_views(old(table)@).push(
        EntryView { aliases: slice_views(aliases@), replacement: replacement@ },
    ));
}

/// The word list.
pub fn tw_lexicon() -> (table: Vec<TwLexiconEntry>)
    ensures
        entry_views(table@) == lexicon(),
{
    let mut table: Vec<TwLexiconEntry> = Vec::new();
    assert(entry_views(table@) =~= Seq::<EntryView>::empty());
    add_entry(&mut table, vec!["qq", "QQ", "哭哭"], "😭");
    add_entry(&mut table, vec!["笑死", "笑爛", "XD", "xD"], "😂");
    add_entry(&mut table, vec!["傻眼", "無言"], "🙄");
    add_entry(&mut table, vec!["火大", "氣死"], "😤");
    add_entry(&mut table, vec!["愛心"], "❤️");
    add_entry(&mut table, vec!["Y2K", "y2k"], "千禧年復古風格");
    add_entry(&mut table, vec!["Z世代", "Gen Z", "gen z"], "Z世代");
    add_entry(&mut table, vec!["I人", "i人"], "偏內向人格");
    add_entry(&mut table, vec!["E人", "e人"], "偏外向人格");
    add_entry(&mut table, vec!["破防"], "情緒被戳中");
    add_entry(&mut table, vec!["不EY", "不ey"], "不意外");
    add_entry(&mut table, vec!["母湯", "母湯喔"], "不行");
    add_entry(&mut table, vec!["踹共"], "出來講");
    add_entry(&mut table, vec!["住海邊"], "管太多");
    add_entry(&mut table, vec!["最頂"], "最強");
    proof {
        let got = entry_views(table@);
        let want = lexicon();
        assert(got.len() == want.len());
        assert forall|i: int| 0 <= i < got.len() implies got[i] == want[i] by {
            assert(got[i].aliases =~= want[i].aliases);
        }
        assert(got =~= want);
    }
    table
}

/// Whether a language tag names a form of Chinese: with its ASCII capital
/// letters made small it begins with `zh`.
pub open spec fn is_chinese(language: Seq<char>) -> bool {
    "zh"@.is_prefix_of(ascii_lowercased(language))
}

/// Whether the language tag names a form of Chinese.
pub fn is_zh_language(language: &str) -> (b: bool)
    ensures
        b == is_chinese(language@),
{
    let tag: String = language.to_ascii_lowercase();
    starts_with(tag.as_str(), "zh")
}

/// Whether one of the spellings occurs in the text.
pub open spec fn any_occurs(aliases: Seq<Seq<char>>, text: Seq<char>) -> bool {
    exists|i: int| 0 <= i < aliases.len() && has_slice(text, #[trigger] aliases[i])
}

/// The hint for an entry: its spellings with `/` between them, an arrow,
/// and what stands for them.
pub open spec fn hint_of(entry: EntryView) -> Seq<char> {
    joined(entry.aliases, "/"@) + " -> "@ + entry.replacement
}

/// The hints of the entries of which a spelling occurs in the text, in the
/// order of the entries.
pub open spec fn hints_from(table: Seq<EntryView>, text: Seq<char>) -> Seq<Seq<char>>
    decreases table.len(),
{
    if table.len() == 0 {
        Seq::empty()
    } else {
        let before = hints_from(table.drop_last(), text);
        if any_occurs(table.last().aliases, text) {
            before.push(hint_of(table.last()))
        } else {
            before
        }
    }
}

/// The hints for a text in a language: those of the word list for
/// Chinese, none for any other language.
pub open spec fn relevant_hints(text: Seq<char>, language: Seq<char>) -> Seq<Seq<char>> {
    if is_chinese(language) {
        hints_from(lexicon(), text)
    } else {
        Seq::empty()
    }
}

/// The text with every spelling of `aliases`, taken in order, replaced by
/// `replacement`.
pub open spec fn with_aliases_replaced(
    text: Seq<char>,
    aliases: Seq<Seq<char>>,
    replacement: Seq<char>,
) -> Seq<char>
    decreases aliases.len(),
{
    if aliases.len() == 0 {
        text
    } else {
        replaced(
            with_aliases_replaced(text, aliases.drop_last(), replacement),
            aliases.last(),
            replacement,
        )
    }
}

/// The text with the entries of `table` applied one after the other.
pub open spec fn with_entries_applied(text: Seq<char>, table: Seq<EntryView>) -> Seq<char>
    decreases table.len(),
{
    if table.len() == 0 {
        text
    } else {
        with_aliases_replaced(
            with_entries_applied(text, table.drop_last()),
            table.last().aliases,
            table.last().replacement,
        )
    }
}

/// The text with the word list applied, for Chinese; any other text as it
/// is.
pub open spec fn lexicon_applied(text: Seq<char>, language: Seq<char>) -> Seq<char> {
    if is_chinese(language) {
        with_entries_applied(text, lexicon())
    } else {
        text
    }
}

fn occurs_any(aliases: &Vec<&'static str>, text: &str) -> (b: bool)
    ensures
        b == any_occurs(slice_views(aliases@), text@),
{
    let mut i: usize = 0;
    while i < aliases.len()
        invariant
            0 <= i <= aliases.len(),
            forall|j: int| 0 <= j < i ==> !has_slice(text@, #[trigger] slice_views(aliases@)[j]),
        decreases aliases.len() - i,
    {
        if contains(text, aliases[i]) {
            assert(has_slice(text@, slice_views(aliases@)[i as int]));
            return true;
        }
        i += 1;
    }
    false
}

/// The hints of the entries of `table` of which a spelling occurs in the
/// text.
pub fn collect_hints_from(table: &Vec<TwLexiconEntry>, text: &str) -> (hints: Vec<String>)
    ensures
        views(hints@) == hints_from(entry_views(table@), text@),
{
    let mut hints: Vec<String> = Vec::new();
    let mut i: usize = 0;
    assert(views(hints@) =~= Seq::<Seq<char>>::empty());
    while i < table.len()
        invariant
            0 <= i <= table.len(),
            views(hints@) == hints_from(entry_views(table@).take(i as int), text@),
        decreases table.len() - i,
    {
        proof {
            let upto = entry_views(table@).take(i + 1);
            assert(upto.drop_last() =~= entry_views(table@).take(i as int));
            assert(upto.last() == table@[i as int]@);
        }
        if occurs_any(&table[i].aliases, text) {
            let mut hint: String = join_slices(&table[i].aliases, "/");
            hint.append(" -> ");
            hint.append(table[i].replacement);
            let ghost before = views(hints@);
            hints.push(hint);
            assert(views(hints@) =~= before.push(hint@));
        }
        i += 1;
    }
    assert(entry_views(table@).take(table@.len() as int) =~= entry_views(table@));
    hints
}

/// Picks the usage hints that apply to a text, so that the instruction to
/// the model names only those.
pub fn collect_relevant_hints(text: &str, language: &str) -> (hints: Vec<String>)
    ensures
        views(hints@) == relevant_hints(text@, language@),
{
    if !is_zh_language(language) {
        let none: Vec<String> = Vec::new();
        assert(views(none@) =~= Seq::<Seq<char>>::empty());
        return none;
    }
    let table: Vec<TwLexiconEntry> = tw_lexicon();
    collect_hints_from(&table, text)
}

/// Applies the entries of `table` to a text.
pub fn apply_entries(table: &Vec<TwLexiconEntry>, text: &str) -> (out: String)
    ensures
        out@ == with_entries_applied(text@, entry_views(table@)),
{
    let mut output: String = text.to_owned();
    let mut i: usize = 0;
    while i < table.len()
        invariant
            0 <= i <= table.len(),
            output@ == with_entries_applied(text@, entry_views(table@).take(i as int)),
        decreases table.len() - i,
    {
        proof {
            let upto = entry_views(table@).take(i + 1);
            assert(upto.drop_last() =~= entry_views(table@).take(i as int));
            assert(upto.last() == table@[i as int]@);
        }
        let ghost start = output@;
        let aliases: &Vec<&'static str> = &table[i].aliases;
        let mut j: usize = 0;
        while j < aliases.len()
            invariant
                0 <= j <= aliases.len(),
                0 <= i < table.len(),
                aliases == &table@[i as int].aliases,
                output@ == with_aliases_replaced(
                    start,
                    slice_views(aliases@).take(j as int),
                    table@[i as int].replacement@,
                ),
            decreases aliases.len() - j,
        {
            proof {
                let upto = slice_views(aliases@).take(j + 1);
                assert(upto.drop_last() =~= slice_views(aliases@).take(j as int));
                assert(upto.last() == aliases@[j as int]@);
            }
            output = replace(output.as_str(), aliases[j], table[i].replacement);
            j += 1;
        }
        assert(slice_views(aliases@).take(aliases@.len() as int) =~= slice_views(aliases@));
        i += 1;
    }
    assert(entry_views(table@).take(table@.len() as int) =~= entry_views(table@));
    output
}

/// Applies the word list to an enhanced text, so that the common words
/// come out the same way each time.
pub fn apply_tw_lexicon_dict(text: &str, language: &str) -> (out: String)
    ensures
        out@ == lexicon_applied(text@, language@),
{
    if !is_zh_language(language) {
        return text.to_owned();
    }
    let table: Vec<TwLexiconEntry> = tw_lexicon();
    apply_entries(&table, text)
}

/// Whether a character is a Chinese character: of the unified ideographs,
/// their extension A or the compatibility ideographs.
pub open spec fn is_cjk(c: char) -> bool {
    (0x4E00 <= c as int <= 0x9FFF) || (0x3400 <= c as int <= 0x4DBF) || (0xF900 <= c as int
        <= 0xFAFF)
}

/// Whether a character is an ASCII letter.
pub open spec fn is_ascii_letter(c: char) -> bool {
    (65 <= c as int <= 90) || (97 <= c as int <= 122)
}

/// Whether a text holds a Chinese character.
pub open spec fn has_cjk(s: Seq<char>) -> bool {
    exists|i: int| 0 <= i < s.len() && is_cjk(#[trigger] s[i])
}

/// Whether a text holds an ASCII letter.
pub open spec fn has_ascii_letter(s: Seq<char>) -> bool {
    exists|i: int| 0 <= i < s.len() && is_ascii_letter(#[trigger] s[i])
}

/// Whether a text mixes Chinese characters and Latin letters.
pub fn has_mixed_script(input: &str) -> (b: bool)
    ensures
        b == (has_cjk(input@) && has_ascii_letter(input@)),
{
    let mut cjk: bool = false;
    let mut latin: bool = false;
    for c in it: input.chars()
        invariant
            it.seq() == input@,
            cjk == has_cjk(input@.take(it.index() as int)),
            latin == has_ascii_letter(input@.take(it.index() as int)),
    {
        let c_cjk: bool = ('\u{4E00}' <= c && c <= '\u{9FFF}') || ('\u{3400}' <= c && c
            <= '\u{4DBF}') || ('\u{F900}' <= c && c <= '\u{FAFF}');
        let c_latin: bool = ('A' <= c && c <= 'Z') || ('a' <= c && c <= 'z');
        proof {
            let upto = input@.take(it.index() + 1);
            let before = input@.take(it.index() as int);
            assert(upto[it.index() as int] == c);
            if has_cjk(before) {
                let w = choose|i: int| 0 <= i < before.len() && is_cjk(#[trigger] before[i]);
                assert(is_cjk(upto[w]));
            }
            if has_cjk(upto) && !c_cjk {
                let w = choose|i: int| 0 <= i < upto.len() && is_cjk(#[trigger] upto[i]);
                assert(is_cjk(before[w]));
            }
            if has_ascii_letter(before) {
                let w = choose|i: int|
                    0 <= i < before.len() && is_ascii_letter(#[trigger] before[i]);
                assert(is_ascii_letter(upto[w]));
            }
            if has_ascii_letter(upto) && !c_latin {
                let w = choose|i: int| 0 <= i < upto.len() && is_ascii_letter(#[trigger] upto[i]);
                assert(is_ascii_letter(before[w]));
            }
        }
        if c_cjk {
            cjk = true;
        }
        if c_latin {
            latin = true;
        }
    }
    assert(input@.take(input@.len() as int) =~= input@);
    cjk && latin
}

} // verus!
