//! The critter catalog: the pointer file that names one data file per
//! critter, the catalog composed from those files, the sounds they declare,
//! and the URLs of sprites and sounds.
use vstd::prelude::*;
use vstd::string::*;
use crate::keyed::KeyedList;
use crate::sprites::{frame_origins, generate_grid_coordinates, idle_frame_coords, idle_origins, origin_views, FrameLayout};
use crate::text::{
    char_pred, chars_of, contains, find_char, first_index, last_index, lemma_first_index,
    lemma_first_index_is, lemma_last_index, lemma_last_index_is, lines, lines_of, occurs_at,
    rfind_char, str_concat, str_contains, str_ends_with, str_starts_with, substring, trim,
    trim_end_by, trim_end_char, trim_start_by, trim_start_char, trim_str, views, whitespace_pred,
};

verus! {

/// The `(id, file)` pair that a trimmed pointer line names, if any: a line
/// holding ":" and ".ron" whose double quotes delimit an id and a file (see
/// [`quoted_pair`]).
#[verifier::opaque]
pub open spec fn pointer_of_line(l: Seq<char>) -> Option<(Seq<char>, Seq<char>)> {
    if !contains(l, ":"@) || !contains(l, ".ron"@) {
        None
    } else {
        quoted_pair(l)
    }
}

/// The id inside the first pair of double quotes of `l` and the file inside
/// its last pair (see [`id_and_file`]), when `l` has a first quote before
/// its last quote.
#[verifier::opaque]
pub open spec fn quoted_pair(l: Seq<char>) -> Option<(Seq<char>, Seq<char>)> {
    if first_index(l, '"') is None || last_index(l, '"') is None {
        None
    } else if last_index(l, '"')->0 <= first_index(l, '"')->0 {
        None
    } else {
        id_and_file(l, first_index(l, '"')->0, last_index(l, '"')->0)
    }
}

/// With `f` the first and `q` the last quote of `l`: the id runs from just
/// after `f` to the next quote; the file runs from just after the quote
/// before `q` up to `q`; the pair counts when the file ends in ".ron".
#[verifier::opaque]
pub open spec fn id_and_file(l: Seq<char>, f: int, q: int) -> Option<(Seq<char>, Seq<char>)> {
    match first_index(l.subrange(f + 1, l.len() as int), '"') {
        None => None,
        Some(e) => match last_index(l.subrange(0, q), '"') {
            None => None,
            Some(s) => {
                let id = l.subrange(f + 1, f + 1 + e);
                let file = l.subrange(s + 1, q);
                if ".ron"@.is_suffix_of(file) {
                    Some((id, file))
                } else {
                    None
                }
            },
        },
    }
}

/// The pointers named by `ls`, each line trimmed first, in order.
pub open spec fn pointers_of(ls: Seq<Seq<char>>) -> Seq<(Seq<char>, Seq<char>)>
    decreases ls.len(),
{
    if ls.len() == 0 {
        seq![]
    } else {
        let prev = pointers_of(ls.drop_last());
        match pointer_of_line(trim(ls.last())) {
            Some(p) => prev.push(p),
            None => prev,
        }
    }
}

/// The `(id, file)` pointers of a catalog pointer file.
pub open spec fn catalog_pointers(text: Seq<char>) -> Seq<(Seq<char>, Seq<char>)> {
    pointers_of(lines(text))
}

/// Views of string pairs.
pub open spec fn pair_views(v: Seq<(String, String)>) -> Seq<(Seq<char>, Seq<char>)> {
    v.map_values(|p: (String, String)| (p.0@, p.1@))
}

/// The positions `lo..hi` of `v` as a vector.
fn slice_chars(v: &Vec<char>, lo: usize, hi: usize) -> (r: Vec<char>)
    requires
        lo <= hi <= v@.len(),
    ensures
        r@ == v@.subrange(lo as int, hi as int),
{
    let mut r: Vec<char> = Vec::new();
    let mut i = lo;
    while i < hi
        invariant
            lo <= i <= hi <= v@.len(),
            r@ == v@.subrange(lo as int, i as int),
        decreases hi - i,
    {
        r.push(v[i]);
        assert(r@ =~= v@.subrange(lo as int, i + 1));
        i = i + 1;
    }
    r
}

/// Exec form of [`id_and_file`].
fn id_and_file_exec(line: &str, v: &Vec<char>, f: usize, q: usize) -> (r: Option<(String, String)>)
    requires
        v@ == line@,
        f < q < v@.len(),
    ensures
        match r {
            Some(p) => id_and_file(line@, f as int, q as int) == Some((p.0@, p.1@)),
            None => id_and_file(line@, f as int, q as int) is None,
        },
{
    proof {
        reveal(id_and_file);
        reveal_strlit(".ron");
    }
    let ghost l = line@;
    let rest = slice_chars(v, f + 1, v.len());
    let e = match find_char(&rest, '"') {
        Some(e) => e,
        None => return None,
    };
    let left = slice_chars(v, 0, q);
    let st = match rfind_char(&left, '"') {
        Some(st) => st,
        None => return None,
    };
    proof {
        lemma_first_index(rest@, '"');
        lemma_last_index(left@, '"');
    }
    let id = substring(line, f + 1, f + 1 + e);
    let file = substring(line, st + 1, q);
    let ends = str_ends_with(file.as_str(), ".ron");
    if ends {
        Some((id, file))
    } else {
        None
    }
}

/// Exec form of [`quoted_pair`].
fn quoted_pair_exec(line: &str) -> (r: Option<(String, String)>)
    ensures
        match r {
            Some(p) => quoted_pair(line@) == Some((p.0@, p.1@)),
            None => quoted_pair(line@) is None,
        },
{
    proof {
        reveal(quoted_pair);
    }
    let v = chars_of(line);
    let f = match find_char(&v, '"') {
        Some(f) => f,
        None => return None,
    };
    let q = match rfind_char(&v, '"') {
        Some(q) => q,
        None => return None,
    };
    proof {
        lemma_last_index(v@, '"');
    }
    if q <= f {
        return None;
    }
    id_and_file_exec(line, &v, f, q)
}

/// The pointer a trimmed catalog line names, if any.
pub fn parse_pointer_line(line: &str) -> (r: Option<(String, String)>)
    ensures
        match r {
            Some(p) => pointer_of_line(line@) == Some((p.0@, p.1@)),
            None => pointer_of_line(line@) is None,
        },
{
    proof {
        reveal_strlit(":");
        reveal_strlit(".ron");
        reveal(pointer_of_line);
    }
    if !str_contains(line, ":") || !str_contains(line, ".ron") {
        return None;
    }
    quoted_pair_exec(line)
}

/// The `(id, file)` pointers of a catalog pointer file, in file order.
pub fn parse_catalog_pointers(text: &str) -> (r: Vec<(String, String)>)
    ensures
        pair_views(r@) == catalog_pointers(text@),
{
    let ls = lines_of(text);
    let ghost lv = views(ls@);
    let mut r: Vec<(String, String)> = Vec::new();
    for i in 0..ls.len()
        invariant
            lv == views(ls@),
            lv == lines(text@),
            pair_views(r@) == pointers_of(lv.take(i as int)),
    {
        let t = trim_str(ls[i].as_str());
        let ghost before = pair_views(r@);
        proof {
            let tk = lv.take(i + 1);
            assert(tk.drop_last() =~= lv.take(i as int));
            assert(tk.last() == ls@[i as int]@);
        }
        match parse_pointer_line(t.as_str()) {
            Some(p) => {
                r.push(p);
                assert(pair_views(r@) =~= before.push((r@.last().0@, r@.last().1@)));
            },
            None => {},
        }
    }
    assert(lv.take(ls@.len() as int) =~= lv);
    r
}

/// Where the catalog pointer file is served.
pub const CATALOG_URL: &'static str = "/critters/catalog.ron";

/// The directory of the critter data files.
pub const CRITTER_DIR: &'static str = "/critters/";

/// The URL of a critter data file: `file` itself when absolute, else under
/// `base_dir`.
pub fn critter_file_url(base_dir: &str, file: &str) -> (r: String)
    ensures
        r@ == (if "/"@.is_prefix_of(file@) { file@ } else { base_dir@ + file@ }),
{
    if str_starts_with(file, "/") {
        String::from_str(file)
    } else {
        str_concat(base_dir, file)
    }
}

/// The base URL of the page: its origin with a trailing slash.
pub fn base_url_for_origin(origin: &str) -> (r: String)
    ensures
        r@ == (if "/"@.is_suffix_of(origin@) { origin@ } else { origin@ + "/"@ }),
{
    if str_ends_with(origin, "/") {
        String::from_str(origin)
    } else {
        str_concat(origin, "/")
    }
}

/// The text one critter contributes to the composed catalog.
pub open spec fn catalog_entry_text(id: Seq<char>, ron: Seq<char>) -> Seq<char> {
    "        \""@ + id + "\": "@ + trim(ron) + ",\n"@
}

/// The texts all critters contribute, in order.
pub open spec fn catalog_entries_text(entries: Seq<(Seq<char>, Seq<char>)>) -> Seq<char>
    decreases entries.len(),
{
    if entries.len() == 0 {
        seq![]
    } else {
        catalog_entries_text(entries.drop_last()) + catalog_entry_text(entries.last().0, entries.last().1)
    }
}

/// The catalog composed from `(id, data file text)` pairs: a map from each
/// id to its trimmed data.
pub open spec fn catalog_text(entries: Seq<(Seq<char>, Seq<char>)>) -> Seq<char> {
    "(\n    critters: {\n"@ + catalog_entries_text(entries) + "    }\n)"@
}

/// Composes the catalog from the `(id, data file text)` pairs, in order.
pub fn compose_catalog(entries: &Vec<(String, String)>) -> (r: String)
    ensures
        r@ == catalog_text(pair_views(entries@)),
{
    let ghost ev = pair_views(entries@);
    let mut body = String::new();
    for i in 0..entries.len()
        invariant
            ev == pair_views(entries@),
            body@ == catalog_entries_text(ev.take(i as int)),
    {
        let ron = trim_str(entries[i].1.as_str());
        let ghost before = body@;
        body.append("        \"");
        body.append(entries[i].0.as_str());
        body.append("\": ");
        body.append(ron.as_str());
        body.append(",\n");
        proof {
            let t = ev.take(i + 1);
            assert(t.drop_last() =~= ev.take(i as int));
            assert(t.last() == (entries@[i as int].0@, entries@[i as int].1@));
            assert(body@ =~= before + catalog_entry_text(t.last().0, t.last().1));
        }
    }
    assert(ev.take(entries@.len() as int) =~= ev);
    let mut r = String::from_str("(\n    critters: {\n");
    r.append(body.as_str());
    r.append("    }\n)");
    r
}

/// The URL of a sprite: an `http://` or `https://` path as it is; else the
/// path, without leading slashes, under `base` (without trailing slashes),
/// or under "/" when `base` is empty.
pub open spec fn sprite_url(path: Seq<char>, base: Seq<char>) -> Seq<char> {
    if "http://"@.is_prefix_of(path) || "https://"@.is_prefix_of(path) {
        path
    } else if base.len() == 0 {
        "/"@ + trim_start_by(path, char_pred('/'))
    } else {
        trim_end_by(base, char_pred('/')) + "/"@ + trim_start_by(path, char_pred('/'))
    }
}

/// The URL of a sprite at `path` for a page based at `base`.
pub fn resolve_sprite_url(path: &str, base: &str) -> (r: String)
    ensures
        r@ == sprite_url(path@, base@),
{
    if str_starts_with(path, "http://") || str_starts_with(path, "https://") {
        String::from_str(path)
    } else if base.is_empty() {
        let p = trim_start_char(path, '/');
        str_concat("/", p.as_str())
    } else {
        let b = trim_end_char(base, '/');
        let p = trim_start_char(path, '/');
        let mut r = str_concat(b.as_str(), "/");
        r.append(p.as_str());
        r
    }
}

/// The URL of a sound: a path starting with "http" as it is, else the path
/// without leading slashes (relative to the page).
pub open spec fn sound_url(path: Seq<char>) -> Seq<char> {
    if "http"@.is_prefix_of(path) {
        path
    } else {
        trim_start_by(path, char_pred('/'))
    }
}

/// The URL of a sound at `path`.
pub fn resolve_sound_url(path: &str) -> (r: String)
    ensures
        r@ == sound_url(path@),
{
    if str_starts_with(path, "http") {
        String::from_str(path)
    } else {
        trim_start_char(path, '/')
    }
}

/// A compiled `regex_lite` expression.
#[verifier::external_type_specification]
#[verifier::external_body]
pub struct ExRegex(regex_lite::Regex);

/// The error of a pattern that `regex_lite` refuses.
#[verifier::external_type_specification]
#[verifier::external_body]
pub struct ExRegexError(regex_lite::Error);

/// Whether `regex_lite::Regex::new` accepts `pattern` (syntax, and size
/// under the default limit).
pub uninterp spec fn pattern_compiles(pattern: Seq<char>) -> bool;

/// The text of capture group `group` in the leftmost-first match of
/// `pattern` in `text`, if there is a match and the group took part in it.
pub uninterp spec fn regex_capture(pattern: Seq<char>, text: Seq<char>, group: nat) -> Option<Seq<char>>;

/// Calls `regex_lite::Regex::new`. Claimed: it succeeds exactly when
/// [`pattern_compiles`] holds of the pattern.
#[verifier::external_body]
fn regex_new(pattern: &str) -> (r: Result<regex_lite::Regex, regex_lite::Error>)
    ensures
        r is Ok <==> pattern_compiles(pattern@),
{
    regex_lite::Regex::new(pattern)
}

/// A regular expression together with the pattern it was compiled from.
pub struct CompiledPattern {
    pattern: String,
    regex: regex_lite::Regex,
}

impl CompiledPattern {
    /// The pattern this expression was compiled from.
    pub closed spec fn pattern(&self) -> Seq<char> {
        self.pattern@
    }

    /// Compiles `pattern`; `None` when `regex_lite` refuses it.
    pub fn compile(pattern: &str) -> (r: Option<CompiledPattern>)
        ensures
            r is Some <==> pattern_compiles(pattern@),
            r matches Some(p) ==> p.pattern() == pattern@,
    {
        match regex_new(pattern) {
            Ok(regex) => Some(CompiledPattern { pattern: String::from_str(pattern), regex }),
            Err(_) => None,
        }
    }
}

/// Calls `regex_lite::Regex::captures` on `text` and takes group `group`
/// of the result as a `String`. Claimed: the result is [`regex_capture`] of
/// the pattern the expression was compiled from (the only way to build a
/// `CompiledPattern`), and a captured text is a piece of `text`, as
/// `Match::as_str` documents.
#[verifier::external_body]
fn regex_captures(p: &CompiledPattern, text: &str, group: usize) -> (r: Option<String>)
    ensures
        match r {
            Some(c) => regex_capture(p.pattern(), text@, group as nat) == Some(c@)
                && exists|i: int| occurs_at(text@, c@, i),
            None => regex_capture(p.pattern(), text@, group as nat) is None,
        },
{
    p.regex.captures(text).and_then(|c| c.get(group)).map(|m| m.as_str().to_string())
}

/// The pattern of a critter's entry sound declaration: `entry: "..."`.
pub const ENTRY_SOUND_PATTERN: &'static str = "entry\\s*:\\s*\"([^\"]+)\"";

/// The pattern of a critter's success sound declaration: `success: "..."`.
pub const SUCCESS_SOUND_PATTERN: &'static str = "success\\s*:\\s*\"([^\"]+)\"";

/// The two sound declaration patterns, compiled.
pub struct SoundPatterns {
    pub entry: CompiledPattern,
    pub success: CompiledPattern,
}

/// Compiles the sound declaration patterns; `None` if either is refused.
pub fn sound_patterns() -> (r: Option<SoundPatterns>)
    ensures
        r is Some <==> pattern_compiles(ENTRY_SOUND_PATTERN@) && pattern_compiles(SUCCESS_SOUND_PATTERN@),
        r matches Some(p) ==> p.entry.pattern() == ENTRY_SOUND_PATTERN@ && p.success.pattern() == SUCCESS_SOUND_PATTERN@,
{
    let entry = CompiledPattern::compile(ENTRY_SOUND_PATTERN);
    let success = CompiledPattern::compile(SUCCESS_SOUND_PATTERN);
    match (entry, success) {
        (Some(entry), Some(success)) => Some(SoundPatterns { entry, success }),
        _ => None,
    }
}

/// The entry and success sounds a critter's data file declares: the first
/// group of each pattern's first match, when both match.
pub open spec fn declared_sounds(p: SoundPatterns, text: Seq<char>) -> Option<(Seq<char>, Seq<char>)> {
    match (regex_capture(p.entry.pattern(), text, 1), regex_capture(p.success.pattern(), text, 1)) {
        (Some(e), Some(s)) => Some((e, s)),
        _ => None,
    }
}

/// The entry and success sound paths of a critter.
#[derive(Clone, Debug)]
pub struct CritterSoundSet {
    pub entry: String,
    pub success: String,
}

/// The sounds a critter's data file declares, if it declares both.
pub fn critter_sounds(p: &SoundPatterns, text: &str) -> (r: Option<CritterSoundSet>)
    ensures
        match r {
            Some(set) => declared_sounds(*p, text@) == Some((set.entry@, set.success@)),
            None => declared_sounds(*p, text@) is None,
        },
{
    let entry = regex_captures(&p.entry, text, 1);
    let success = regex_captures(&p.success, text, 1);
    match (entry, success) {
        (Some(entry), Some(success)) => Some(CritterSoundSet { entry, success }),
        _ => None,
    }
}

/// The sounds of each critter that declares both, by id; a later
/// declaration for an id replaces an earlier one.
pub fn collect_sounds(p: &SoundPatterns, entries: &Vec<(String, String)>) -> (r: KeyedList<CritterSoundSet>)
    ensures
        forall|k: Seq<char>| #[trigger] r@.contains_key(k) <==> exists|i: int|
            0 <= i < entries@.len() && entries@[i].0@ == k && declared_sounds(*p, entries@[i].1@) is Some,
        forall|k: Seq<char>| #[trigger] r@.contains_key(k) ==> {
            let i = choose|i: int| 0 <= i < entries@.len() && entries@[i].0@ == k
                && declared_sounds(*p, entries@[i].1@) is Some
                && forall|j: int| i < j < entries@.len() && entries@[j].0@ == k ==> declared_sounds(*p, entries@[j].1@) is None;
            declared_sounds(*p, entries@[i].1@) == Some((r@[k].entry@, r@[k].success@))
        },
{
    let mut r: KeyedList<CritterSoundSet> = KeyedList::new();
    for i in 0..entries.len()
        invariant
            forall|k: Seq<char>| #[trigger] r@.contains_key(k) <==> exists|j: int|
                0 <= j < i && entries@[j].0@ == k && declared_sounds(*p, entries@[j].1@) is Some,
            forall|k: Seq<char>| #[trigger] r@.contains_key(k) ==> exists|j: int|
                0 <= j < i && entries@[j].0@ == k
                && declared_sounds(*p, entries@[j].1@) == Some((r@[k].entry@, r@[k].success@))
                && forall|m: int| j < m < i && entries@[m].0@ == k ==> declared_sounds(*p, entries@[m].1@) is None,
    {
        match critter_sounds(p, entries[i].1.as_str()) {
            Some(set) => {
                r.insert(entries[i].0.clone(), set);
            },
            None => {},
        }
    }
    proof {
        assert forall|k: Seq<char>| #[trigger] r@.contains_key(k) implies {
            let i = choose|i: int| 0 <= i < entries@.len() && entries@[i].0@ == k
                && declared_sounds(*p, entries@[i].1@) is Some
                && forall|j: int| i < j < entries@.len() && entries@[j].0@ == k ==> declared_sounds(*p, entries@[j].1@) is None;
            declared_sounds(*p, entries@[i].1@) == Some((r@[k].entry@, r@[k].success@))
        } by {
            let j = choose|j: int| 0 <= j < entries@.len() && entries@[j].0@ == k
                && declared_sounds(*p, entries@[j].1@) == Some((r@[k].entry@, r@[k].success@))
                && forall|m: int| j < m < entries@.len() && entries@[m].0@ == k ==> declared_sounds(*p, entries@[m].1@) is None;
            let i = choose|i: int| 0 <= i < entries@.len() && entries@[i].0@ == k
                && declared_sounds(*p, entries@[i].1@) is Some
                && forall|j: int| i < j < entries@.len() && entries@[j].0@ == k ==> declared_sounds(*p, entries@[j].1@) is None;
            if i < j {
                assert(declared_sounds(*p, entries@[j].1@) is None);
            } else if j < i {
                assert(declared_sounds(*p, entries@[i].1@) is None);
            }
        }
    }
    r
}

/// The pointer line written for critter `id` and data file `file`:
/// `"id": "file"`.
pub open spec fn pointer_line(id: Seq<char>, file: Seq<char>) -> Seq<char> {
    "\""@ + id + "\": \""@ + file + "\""@
}

/// A pointer line `"id": "file"` whose id and file hold no double quote
/// and whose file ends in ".ron" reads back as `(id, file)`, and trimming
/// leaves it as it is.
pub proof fn law_pointer_line_reads_back(id: Seq<char>, file: Seq<char>)
    requires
        forall|i: int| 0 <= i < id.len() ==> id[i] != '"',
        forall|i: int| 0 <= i < file.len() ==> file[i] != '"',
        ".ron"@.is_suffix_of(file),
    ensures
        pointer_of_line(pointer_line(id, file)) == Some((id, file)),
        trim(pointer_line(id, file)) == pointer_line(id, file),
{
    reveal_strlit("\"");
    reveal_strlit("\": \"");
    reveal_strlit(":");
    reveal_strlit(".ron");
    reveal(pointer_of_line);
    reveal(quoted_pair);
    reveal(id_and_file);
    let l = pointer_line(id, file);
    let n = id.len() as int;
    let m = file.len() as int;
    let sep = "\": \""@;
    assert(sep.len() == 4);
    assert(l.len() == n + m + 6);
    assert forall|i: int| 0 <= i < n implies l[1 + i] == id[i] by {}
    assert forall|i: int| 0 <= i < m implies l[n + 5 + i] == file[i] by {}
    assert(l[0] == '"');
    assert(l[n + 1] == '"');
    assert(l[n + 2] == ':');
    assert(l[n + 3] == ' ');
    assert(l[n + 4] == '"');
    assert(l[n + 5 + m] == '"');
    assert(l.subrange(n + 2, n + 3) =~= ":"@);
    assert(occurs_at(l, ":"@, n + 2));
    assert(l.subrange(n + 1 + m, n + 5 + m) =~= ".ron"@) by {
        assert forall|k: int| 0 <= k < 4 implies l[n + 1 + m + k] == ".ron"@[k] by {
            assert(file[m - 4 + k] == ".ron"@[k]);
        }
    }
    assert(occurs_at(l, ".ron"@, n + 1 + m));
    lemma_first_index_is(l, '"', 0);
    lemma_last_index_is(l, '"', n + 5 + m);
    let rest = l.subrange(1, l.len() as int);
    assert forall|j: int| 0 <= j < n implies rest[j] != '"' by {
        assert(rest[j] == l[1 + j]);
    }
    lemma_first_index_is(rest, '"', n);
    let left = l.subrange(0, n + 5 + m);
    assert forall|j: int| n + 4 < j < left.len() implies left[j] != '"' by {
        assert(left[j] == l[j]);
        assert(l[j] == file[j - n - 5]);
    }
    assert(left[n + 4] == l[n + 4]);
    lemma_last_index_is(left, '"', n + 4);
    assert(l.subrange(1, 1 + n) =~= id);
    assert(l.subrange(n + 5, n + 5 + m) =~= file);
    assert(!crate::text::is_whitespace(l[0]));
    assert(trim_start_by(l, whitespace_pred()) == l);
    assert(l.last() == '"');
    assert(trim_end_by(l, whitespace_pred()) == l);
}

/// Kinds of critter.
#[derive(Clone, Copy, Debug, PartialEq, Eq)]
pub enum CritterSpecies {
    Bird,
    Bunny,
}

/// The display name of a critter kind.
pub fn species_name(s: CritterSpecies) -> (r: String)
    ensures
        r@ == (match s {
            CritterSpecies::Bird => "Bird"@,
            CritterSpecies::Bunny => "Bunny"@,
        }),
{
    match s {
        CritterSpecies::Bird => String::from_str("Bird"),
        CritterSpecies::Bunny => String::from_str("Bunny"),
    }
}

/// The URL of critter `id`'s entry sound, played when it appears: only once
/// audio is unlocked, and only for a critter that declares sounds.
pub fn entry_sound_url(audio_enabled: bool, sounds: &KeyedList<CritterSoundSet>, id: &str) -> (r: Option<String>)
    ensures
        r is Some <==> audio_enabled && sounds@.contains_key(id@),
        r matches Some(u) ==> u@ == sound_url(sounds@[id@].entry@),
{
    if !audio_enabled {
        return None;
    }
    match sounds.get(id) {
        Some(set) => Some(resolve_sound_url(set.entry.as_str())),
        None => None,
    }
}

/// The URL of critter `id`'s success sound, played when it is caught by a
/// tap, for a critter that declares sounds.
pub fn success_sound_url(sounds: &KeyedList<CritterSoundSet>, id: &str) -> (r: Option<String>)
    ensures
        r is Some <==> sounds@.contains_key(id@),
        r matches Some(u) ==> u@ == sound_url(sounds@[id@].success@),
{
    match sounds.get(id) {
        Some(set) => Some(resolve_sound_url(set.success.as_str())),
        None => None,
    }
}

/// What the page lists of a critter's sprite sheet.
#[derive(Clone, Debug)]
pub struct CritterSheet {
    pub id: String,
    pub name: String,
    pub species: String,
    pub sprite_url: String,
    pub frame_width: u32,
    pub frame_height: u32,
    /// Origins of the frames of the idle animation, in order.
    pub idle_frames: Vec<(u64, u64)>,
}

/// The sheet summary of critter `id`: its sprite URL resolved against
/// `base_url`, its frame size, and the origins of its idle frames.
pub fn critter_sheet(
    id: &str,
    name: &str,
    species: CritterSpecies,
    sprite_path: &str,
    base_url: &str,
    layout: &FrameLayout,
    idle_frames: &Vec<usize>,
) -> (r: CritterSheet)
    requires
        frame_origins(*layout).len() > 0 || idle_frames@.len() == 0,
    ensures
        r.id@ == id@,
        r.name@ == name@,
        r.species@ == (match species {
            CritterSpecies::Bird => "Bird"@,
            CritterSpecies::Bunny => "Bunny"@,
        }),
        r.sprite_url@ == sprite_url(sprite_path@, base_url@),
        r.frame_width == layout.frame_size.0,
        r.frame_height == layout.frame_size.1,
        origin_views(r.idle_frames@) == idle_origins(idle_frames@, frame_origins(*layout)),
{
    let coords = generate_grid_coordinates(layout);
    let idle = idle_frame_coords(idle_frames, &coords);
    CritterSheet {
        id: String::from_str(id),
        name: String::from_str(name),
        species: species_name(species),
        sprite_url: resolve_sprite_url(sprite_path, base_url),
        frame_width: layout.frame_size.0,
        frame_height: layout.frame_size.1,
        idle_frames: idle,
    }
}

/// The pointers of two runs of lines, one after the other, are those of
/// the first run followed by those of the second.
proof fn lemma_pointers_concat(a: Seq<Seq<char>>, b: Seq<Seq<char>>)
    ensures
        pointers_of(a + b) == pointers_of(a) + pointers_of(b),
    decreases b.len(),
{
    if b.len() == 0 {
        assert(a + b =~= a);
        assert(pointers_of(a) + pointers_of(b) =~= pointers_of(a));
    } else {
        lemma_pointers_concat(a, b.drop_last());
        assert((a + b).drop_last() =~= a + b.drop_last());
        assert((a + b).last() == b.last());
        match pointer_of_line(trim(b.last())) {
            Some(p) => {
                assert((pointers_of(a) + pointers_of(b.drop_last())).push(p) =~= pointers_of(a) + pointers_of(b.drop_last()).push(p));
            },
            None => {},
        }
    }
}

/// Every line of a pointer file that names a pointer contributes it, in
/// line order, whatever else the line holds: the pointers are those of the
/// lines before it, then its own, then those of the lines after it.
pub proof fn law_every_pointer_line_counts(text: Seq<char>, i: int, p: (Seq<char>, Seq<char>))
    requires
        0 <= i < lines(text).len(),
        pointer_of_line(trim(lines(text)[i])) == Some(p),
    ensures
        catalog_pointers(text) == pointers_of(lines(text).take(i)) + seq![p] + pointers_of(lines(text).skip(i + 1)),
        catalog_pointers(text).contains(p),
{
    let ls = lines(text);
    let before = ls.take(i);
    let after = ls.skip(i + 1);
    let one = seq![ls[i]];
    assert(ls =~= before + one + after);
    lemma_pointers_concat(before + one, after);
    lemma_pointers_concat(before, one);
    assert(one.drop_last() =~= Seq::<Seq<char>>::empty());
    assert(pointers_of(one.drop_last()) == Seq::<(Seq<char>, Seq<char>)>::empty());
    assert(pointers_of(one) =~= seq![p]);
    let all = pointers_of(before) + seq![p] + pointers_of(after);
    assert(all[pointers_of(before).len() as int] == p);
}

/// Each pointer of a pointer file comes from one of its lines that names it.
proof fn lemma_pointers_from_lines(ls: Seq<Seq<char>>, k: int)
    requires
        0 <= k < pointers_of(ls).len(),
    ensures
        exists|i: int| 0 <= i < ls.len() && pointer_of_line(trim(ls[i])) == Some(pointers_of(ls)[k]),
    decreases ls.len(),
{
    let prev = pointers_of(ls.drop_last());
    if k < prev.len() {
        lemma_pointers_from_lines(ls.drop_last(), k);
        let i = choose|i: int| 0 <= i < ls.drop_last().len() && pointer_of_line(trim(ls.drop_last()[i])) == Some(prev[k]);
        assert(ls[i] == ls.drop_last()[i]);
    } else {
        assert(pointer_of_line(trim(ls[ls.len() - 1])) == Some(pointers_of(ls)[k]));
    }
}

/// A pointer file holds no pointer but those its lines name.
pub proof fn law_pointers_come_from_lines(text: Seq<char>, k: int)
    requires
        0 <= k < catalog_pointers(text).len(),
    ensures
        exists|i: int| 0 <= i < lines(text).len() && pointer_of_line(trim(lines(text)[i])) == Some(catalog_pointers(text)[k]),
{
    lemma_pointers_from_lines(lines(text), k);
}

} // verus!
