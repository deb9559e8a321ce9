//! Turning the entries of a directory into a catalog of image assets.
use vstd::prelude::*;

verus! {

/// One image asset of a directory.
#[derive(Debug)]
pub struct Emote {
    /// The file stem: the entry's name before its last dot.
    pub name: String,
    /// The extension, in its lower-case spelling.
    pub extension: String,
    /// The entry's name as it stands in the directory.
    pub file_name: String,
}

impl PartialEq for Emote {
    fn eq(&self, o: &Emote) -> (r: bool) {
        self.name == o.name && self.extension == o.extension && self.file_name == o.file_name
    }
}

impl vstd::std_specs::cmp::PartialEqSpecImpl for Emote {
    open spec fn obeys_eq_spec() -> bool {
        true
    }

    open spec fn eq_spec(&self, o: &Emote) -> bool {
        self.name@ == o.name@ && self.extension@ == o.extension@ && self.file_name@ == o.file_name@
    }
}

/// Why a directory's entries do not make a catalog.
#[derive(Debug, PartialEq, Eq, Structural)]
pub enum CatalogError {
    /// Two recognised entries carry the same file name; the later one's index.
    DuplicateFileName { index: usize },
}

/// Position of the last '.' among the first `n` characters of `s`, or -1.
pub open spec fn last_dot_in(s: Seq<char>, n: int) -> int
    decreases n,
{
    if n <= 0 {
        -1
    } else if s[n - 1] == '.' {
        n - 1
    } else {
        last_dot_in(s, n - 1)
    }
}

pub open spec fn last_dot(s: Seq<char>) -> int {
    last_dot_in(s, s.len() as int)
}

/// A name has a stem and an extension when it holds a dot that is not its
/// first character (a name such as `.hidden` has neither).
pub open spec fn has_extension(f: Seq<char>) -> bool {
    last_dot(f) > 0
}

pub open spec fn stem_of(f: Seq<char>) -> Seq<char> {
    f.subrange(0, last_dot(f))
}

pub open spec fn extension_of(f: Seq<char>) -> Seq<char> {
    f.subrange(last_dot(f) + 1, f.len() as int)
}

/// The code of `c` with ASCII upper-case letters taken to lower case.
pub open spec fn lower_code(c: char) -> u32 {
    if 65 <= c as u32 && c as u32 <= 90 {
        (c as u32 + 32) as u32
    } else {
        c as u32
    }
}

/// `e` spells `lower` when ASCII case is ignored.
pub open spec fn spells(e: Seq<char>, lower: Seq<char>) -> bool {
    e.len() == lower.len() && forall|i: int| 0 <= i < e.len() ==> lower_code(#[trigger] e[i]) == lower[i] as u32
}

pub open spec fn png() -> Seq<char> {
    seq!['p', 'n', 'g']
}

pub open spec fn jpg() -> Seq<char> {
    seq!['j', 'p', 'g']
}

pub open spec fn gif() -> Seq<char> {
    seq!['g', 'i', 'f']
}

/// The recognised extension that `e` spells, in lower case.
pub open spec fn canonical_extension(e: Seq<char>) -> Option<Seq<char>> {
    if spells(e, png()) {
        Some(png())
    } else if spells(e, jpg()) {
        Some(jpg())
    } else if spells(e, gif()) {
        Some(gif())
    } else {
        None
    }
}

/// An entry of this name is an image asset.
pub open spec fn is_asset_name(f: Seq<char>) -> bool {
    has_extension(f) && canonical_extension(extension_of(f)) is Some
}

/// `e` is the asset that the entry named `f` stands for.
pub open spec fn describes(e: Emote, f: Seq<char>) -> bool {
    &&& is_asset_name(f)
    &&& e.file_name@ == f
    &&& e.name@ == stem_of(f)
    &&& e.extension@ == canonical_extension(extension_of(f))->Some_0
}

/// An asset as the catalog builds it.
pub open spec fn emote_wf(e: Emote) -> bool {
    describes(e, e.file_name@)
}

/// The names among `entries` that are image assets, in their order.
pub open spec fn asset_names(entries: Seq<Seq<char>>) -> Seq<Seq<char>>
    decreases entries.len(),
{
    if entries.len() == 0 {
        Seq::empty()
    } else {
        let prev = asset_names(entries.drop_last());
        if is_asset_name(entries.last()) {
            prev.push(entries.last())
        } else {
            prev
        }
    }
}

pub open spec fn file_names(c: Seq<Emote>) -> Seq<Seq<char>> {
    c.map_values(|e: Emote| e.file_name@)
}

/// Every asset of `c` is well formed and no two share a file name.
pub open spec fn catalog_wf(c: Seq<Emote>) -> bool {
    &&& forall|i: int| 0 <= i < c.len() ==> emote_wf(#[trigger] c[i])
    &&& file_names(c).no_duplicates()
}

impl Emote {
    /// A copy of this asset.
    pub fn duplicate(&self) -> (r: Emote)
        ensures
            r == *self,
    {
        Emote {
            name: self.name.clone(),
            extension: self.extension.clone(),
            file_name: self.file_name.clone(),
        }
    }
}

proof fn lemma_last_dot_bounds(s: Seq<char>, n: int)
    requires
        0 <= n <= s.len(),
    ensures
        -1 <= last_dot_in(s, n) < n,
        last_dot_in(s, n) >= 0 ==> s[last_dot_in(s, n)] == '.',
    decreases n,
{
    if n > 0 {
        lemma_last_dot_bounds(s, n - 1);
    }
}

/// The position of the last dot in `s`, if any.
fn find_last_dot(s: &str) -> (r: Option<usize>)
    ensures
        match r {
            Some(k) => k as int == last_dot(s@),
            None => last_dot(s@) == -1,
        },
{
    let mut i = s.unicode_len();
    while i > 0
        invariant
            i <= s@.len(),
            last_dot(s@) == last_dot_in(s@, i as int),
        decreases i,
    {
        if s.get_char(i - 1) == '.' {
            return Some(i - 1);
        }
        i = i - 1;
    }
    None
}

fn spells_exec(e: &str, lower: &str) -> (r: bool)
    ensures
        r == spells(e@, lower@),
{
    let n = e.unicode_len();
    if n != lower.unicode_len() {
        return false;
    }
    let mut i: usize = 0;
    while i < n
        invariant
            n == e@.len() == lower@.len(),
            i <= n,
            forall|j: int| 0 <= j < i ==> lower_code(#[trigger] e@[j]) == lower@[j] as u32,
        decreases n - i,
    {
        let c = e.get_char(i) as u32;
        let l = if 65 <= c && c <= 90 { c + 32 } else { c };
        if l != lower.get_char(i) as u32 {
            return false;
        }
        i = i + 1;
    }
    true
}

/// The lower-case spelling of a recognised extension.
fn recognise_extension(e: &str) -> (r: Option<String>)
    ensures
        match r {
            Some(s) => canonical_extension(e@) == Some(s@),
            None => canonical_extension(e@) is None,
        },
{
    let p = "png";
    let j = "jpg";
    let g = "gif";
    proof {
        reveal_strlit("png");
        reveal_strlit("jpg");
        reveal_strlit("gif");
        assert(p@ =~= png());
        assert(j@ =~= jpg());
        assert(g@ =~= gif());
    }
    if spells_exec(e, p) {
        Some(String::from_str(p))
    } else if spells_exec(e, j) {
        Some(String::from_str(j))
    } else if spells_exec(e, g) {
        Some(String::from_str(g))
    } else {
        None
    }
}

/// The asset that a directory entry of this name stands for, if it is one.
pub fn parse_entry(file_name: &str) -> (r: Option<Emote>)
    ensures
        match r {
            Some(e) => describes(e, file_name@),
            None => !is_asset_name(file_name@),
        },
{
    let k = match find_last_dot(file_name) {
        Some(k) => k,
        None => return None,
    };
    if k == 0 {
        return None;
    }
    proof {
        lemma_last_dot_bounds(file_name@, file_name@.len() as int);
    }
    let n = file_name.unicode_len();
    let ext = file_name.substring_char(k + 1, n);
    match recognise_extension(ext) {
        Some(extension) => {
            let name = String::from_str(file_name.substring_char(0, k));
            Some(Emote { name, extension, file_name: String::from_str(file_name) })
        },
        None => None,
    }
}

pub(crate) fn has_file_name(c: &Vec<Emote>, f: &String) -> (r: bool)
    ensures
        r == file_names(c@).contains(f@),
{
    let mut i: usize = 0;
    while i < c.len()
        invariant
            i <= c@.len(),
            forall|j: int| 0 <= j < i ==> c@[j].file_name@ != f@,
        decreases c@.len() - i,
    {
        if c[i].file_name == *f {
            assert(file_names(c@)[i as int] == f@);
            return true;
        }
        i = i + 1;
    }
    false
}

/// Builds the catalog of a directory from the names of its entries, in their
/// order: each entry with a stem and a recognised extension (png, jpg, gif,
/// in any case) becomes an asset, every other entry is passed over.
pub fn find_emotes(entries: &Vec<String>) -> (r: Result<Vec<Emote>, CatalogError>)
    ensures
        match r {
            Ok(c) => {
                &&& file_names(c@) == asset_names(entries@.map_values(|s: String| s@))
                &&& catalog_wf(c@)
            },
            Err(CatalogError::DuplicateFileName { index }) => {
                &&& index < entries@.len()
                &&& is_asset_name(entries@[index as int]@)
                &&& asset_names(entries@.map_values(|s: String| s@).subrange(0, index as int)).no_duplicates()
                &&& asset_names(entries@.map_values(|s: String| s@).subrange(0, index as int)).contains(
                    entries@[index as int]@,
                )
            },
        },
        r is Err <==> !asset_names(entries@.map_values(|s: String| s@)).no_duplicates(),
{
    let ghost names = entries@.map_values(|s: String| s@);
    let mut emotes: Vec<Emote> = Vec::new();
    let mut i: usize = 0;
    while i < entries.len()
        invariant
            i <= entries@.len(),
            names == entries@.map_values(|s: String| s@),
            file_names(emotes@) == asset_names(names.subrange(0, i as int)),
            catalog_wf(emotes@),
        decreases entries@.len() - i,
    {
        proof {
            assert(names.subrange(0, i as int + 1).drop_last() =~= names.subrange(0, i as int));
        }
        match parse_entry(entries[i].as_str()) {
            Some(e) => {
                if has_file_name(&emotes, &e.file_name) {
                    proof {
                        let fs = file_names(emotes@);
                        let k = choose|k: int| 0 <= k < fs.len() && fs[k] == e.file_name@;
                        let prefix = asset_names(names.subrange(0, i as int + 1));
                        assert(prefix == fs.push(e.file_name@));
                        assert(prefix[k] == prefix[fs.len() as int]);
                        lemma_no_duplicates_prefix(names, i as int + 1, k, fs.len() as int);
                        assert(names[i as int] == entries@[i as int]@);
                    }
                    return Err(CatalogError::DuplicateFileName { index: i });
                }
                let ghost before = emotes@;
                emotes.push(e);
                proof {
                    assert(file_names(emotes@) =~= file_names(before).push(e.file_name@));
                    assert forall|a: int, b: int|
                        0 <= a < b < file_names(emotes@).len() implies file_names(emotes@)[a]
                            != file_names(emotes@)[b] by {
                        if b < before.len() {
                            assert(file_names(before)[a] != file_names(before)[b]);
                        } else {
                            assert(file_names(before)[a] == before[a].file_name@);
                        }
                    }
                }
            },
            None => {},
        }
        i = i + 1;
    }
    proof {
        assert(names.subrange(0, i as int) =~= names);
    }
    Ok(emotes)
}

proof fn lemma_asset_names_append(s: Seq<Seq<char>>, t: Seq<Seq<char>>)
    ensures
        asset_names(s + t) == asset_names(s) + asset_names(t),
    decreases t.len(),
{
    if t.len() == 0 {
        assert(s + t =~= s);
        assert(asset_names(s) + asset_names(t) =~= asset_names(s));
    } else {
        assert((s + t).drop_last() =~= s + t.drop_last());
        lemma_asset_names_append(s, t.drop_last());
        if is_asset_name(t.last()) {
            assert(asset_names(s) + asset_names(t) =~= (asset_names(s) + asset_names(t.drop_last())).push(t.last()));
        } else {
            assert(asset_names(s) + asset_names(t) =~= asset_names(s) + asset_names(t.drop_last()));
        }
    }
}

/// Two equal asset names among the first `n` entries are two among all of them.
proof fn lemma_no_duplicates_prefix(names: Seq<Seq<char>>, n: int, a: int, b: int)
    requires
        0 <= n <= names.len(),
        0 <= a < b < asset_names(names.subrange(0, n)).len(),
        asset_names(names.subrange(0, n))[a] == asset_names(names.subrange(0, n))[b],
    ensures
        !asset_names(names).no_duplicates(),
{
    assert(names =~= names.subrange(0, n) + names.subrange(n, names.len() as int));
    lemma_asset_names_append(names.subrange(0, n), names.subrange(n, names.len() as int));
    let full = asset_names(names);
    assert(full[a] == full[b]);
}

} // verus!
