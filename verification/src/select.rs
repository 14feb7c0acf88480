//! Choosing which scanned plugin to load.
use vstd::prelude::*;
use vstd::string::StrSliceExecFns;

verus! {

/// A plugin bundle found by scanning the VST3 folders.
pub struct PluginInfo {
    pub name: String,
    pub library_path: String,
    pub is_instrument: bool,
}

/// `c` with an ASCII capital letter mapped to its small letter; every other
/// character unchanged.
pub open spec fn ascii_lower(c: char) -> char {
    if 'A' <= c <= 'Z' {
        ((c as u8) + 32) as u8 as char
    } else {
        c
    }
}

/// `text` with ASCII capitals lowered, as `str::to_ascii_lowercase` gives it.
pub open spec fn ascii_lowercase(text: Seq<char>) -> Seq<char> {
    text.map_values(|c: char| ascii_lower(c))
}

/// `needle` occurs in `hay` as a contiguous run (the empty run occurs
/// everywhere).
pub open spec fn has_infix(hay: Seq<char>, needle: Seq<char>) -> bool {
    exists|i: int| 0 <= i <= hay.len() - needle.len() && #[trigger] hay.subrange(i, i + needle.len()) == needle
}

/// An instrument whose name holds `wanted`, ASCII case ignored.
pub open spec fn is_wanted(plugin: PluginInfo, wanted: Seq<char>) -> bool {
    plugin.is_instrument && has_infix(ascii_lowercase(plugin.name@), ascii_lowercase(wanted))
}

/// Lowering maps each ASCII capital to the small letter 32 code points
/// above it, and leaves every other character alone.
pub proof fn lemma_ascii_lower_maps_capitals(c: char)
    ensures
        'A' <= c <= 'Z' ==> 'a' <= ascii_lower(c) <= 'z' && ascii_lower(c) as u32 == c as u32 + 32,
        !('A' <= c <= 'Z') ==> ascii_lower(c) == c,
{
}

/// `needle` occurring at any start position of `hay`, the last possible
/// one included, makes it an infix.
pub proof fn lemma_infix_at(hay: Seq<char>, needle: Seq<char>, start: int)
    requires
        0 <= start,
        start + needle.len() <= hay.len(),
        hay.subrange(start, start + needle.len()) == needle,
    ensures
        has_infix(hay, needle),
{
}

/// Every text holds itself, and every text ending with `needle` holds it.
pub proof fn lemma_suffix_is_infix(prefix: Seq<char>, needle: Seq<char>)
    ensures
        has_infix(needle, needle),
        has_infix(prefix + needle, needle),
{
    assert(needle.subrange(0, 0int + needle.len()) =~= needle);
    lemma_infix_at(needle, needle, 0);
    let hay = prefix + needle;
    assert(hay.subrange(prefix.len() as int, prefix.len() as int + needle.len()) =~= needle);
    lemma_infix_at(hay, needle, prefix.len() as int);
}

/// An instrument whose name, ASCII case ignored, equals the wanted text or
/// ends with it, is wanted; so `find_plugin` never answers `None` for a
/// list holding one.
pub proof fn lemma_name_ending_with_wanted_is_wanted(plugin: PluginInfo, prefix: Seq<char>, wanted: Seq<char>)
    requires
        plugin.is_instrument,
        ascii_lowercase(plugin.name@) == prefix + ascii_lowercase(wanted),
    ensures
        is_wanted(plugin, wanted),
{
    lemma_suffix_is_infix(prefix, ascii_lowercase(wanted));
}

/// The characters of `text` with ASCII capitals lowered.
fn lowercase_chars(text: &str) -> (lowered: Vec<char>)
    ensures
        lowered@ == ascii_lowercase(text@),
{
    let n = text.unicode_len();
    let mut lowered: Vec<char> = Vec::new();
    let mut i: usize = 0;
    while i < n
        invariant
            n == text@.len(),
            i <= n,
            lowered@ == ascii_lowercase(text@.take(i as int)),
        decreases n - i,
    {
        let c = text.get_char(i);
        let l = if 'A' <= c && c <= 'Z' {
            ((c as u8) + 32) as char
        } else {
            c
        };
        lowered.push(l);
        i = i + 1;
        assert(lowered@ =~= ascii_lowercase(text@.take(i as int)));
    }
    assert(text@.take(n as int) =~= text@);
    lowered
}

/// Whether `needle` occurs at position `at` of `hay`.
fn occurs_at(hay: &Vec<char>, needle: &Vec<char>, at: usize) -> (found: bool)
    requires
        at + needle@.len() <= hay@.len(),
    ensures
        found == (hay@.subrange(at as int, at + needle@.len()) == needle@),
{
    let hay_len = hay.len();
    let mut k: usize = 0;
    while k < needle.len()
        invariant
            hay_len == hay@.len(),
            at + needle@.len() <= hay@.len(),
            k <= needle@.len(),
            forall|j: int| 0 <= j < k ==> hay@[at + j] == needle@[j],
        decreases needle@.len() - k,
    {
        if hay[at + k] != needle[k] {
            assert(hay@.subrange(at as int, at + needle@.len())[k as int] != needle@[k as int]);
            return false;
        }
        k = k + 1;
    }
    assert(hay@.subrange(at as int, at + needle@.len()) =~= needle@);
    true
}

/// Whether `needle` occurs anywhere in `hay`.
fn contains_chars(hay: &Vec<char>, needle: &Vec<char>) -> (found: bool)
    ensures
        found == has_infix(hay@, needle@),
{
    if needle.len() > hay.len() {
        return false;
    }
    let last = hay.len() - needle.len();
    let mut at: usize = 0;
    loop
        invariant
            last == hay@.len() - needle@.len(),
            needle@.len() <= hay@.len(),
            at <= last,
            forall|i: int|
                0 <= i < at ==> #[trigger] hay@.subrange(i, i + needle@.len()) != needle@,
        decreases last - at,
    {
        if occurs_at(hay, needle, at) {
            return true;
        }
        if at == last {
            return false;
        }
        at = at + 1;
    }
}

/// The index of the first instrument among `plugins` whose name contains
/// `wanted`, ASCII letters compared without regard to case; `None` when no
/// plugin qualifies.
pub fn find_plugin(plugins: &Vec<PluginInfo>, wanted: &str) -> (found: Option<usize>)
    ensures
        match found {
            Some(i) => {
                &&& i < plugins@.len()
                &&& is_wanted(plugins@[i as int], wanted@)
                &&& forall|j: int| 0 <= j < i ==> !is_wanted(#[trigger] plugins@[j], wanted@)
            },
            None => forall|j: int|
                0 <= j < plugins@.len() ==> !is_wanted(#[trigger] plugins@[j], wanted@),
        },
{
    let needle = lowercase_chars(wanted);
    let mut i: usize = 0;
    while i < plugins.len()
        invariant
            i <= plugins@.len(),
            needle@ == ascii_lowercase(wanted@),
            forall|j: int| 0 <= j < i ==> !is_wanted(#[trigger] plugins@[j], wanted@),
        decreases plugins@.len() - i,
    {
        let plugin = &plugins[i];
        if plugin.is_instrument {
            let name = lowercase_chars(plugin.name.as_str());
            if contains_chars(&name, &needle) {
                return Some(i);
            }
        }
        i = i + 1;
    }
    None
}

} // verus!
