//! The index of a repository: its name, where the emotes lie, and one entry
//! per source asset; and the JSON text that describes it.
use vstd::prelude::*;
use crate::catalog::Emote as Asset;
use serde_json::{Map as JsonMap, Value};

verus! {

/// One entry of the index: an asset's stem and its extension with the dot.
#[derive(Debug)]
pub struct Emote {
    pub name: String,
    pub typ: String,
}

/// The entry that stands for an asset.
pub open spec fn entry_of(a: Asset) -> (Seq<char>, Seq<char>) {
    (a.name@, seq!['.'] + a.extension@)
}

pub open spec fn entry_view(e: Emote) -> (Seq<char>, Seq<char>) {
    (e.name@, e.typ@)
}

impl From<Asset> for Emote {
    fn from(a: Asset) -> (r: Emote)
        ensures
            entry_view(r) == entry_of(a),
    {
        let dot = ".";
        proof {
            reveal_strlit(".");
            assert(dot@ =~= seq!['.']);
        }
        Emote { name: a.name, typ: String::from_str(dot).concat(a.extension.as_str()) }
    }
}

impl vstd::std_specs::convert::FromSpecImpl<Asset> for Emote {
    open spec fn obeys_from_spec() -> bool {
        false
    }

    open spec fn from_spec(a: Asset) -> Emote {
        arbitrary()
    }
}

/// The directory, under the public one, that holds the emotes.
pub open spec fn emotes_dir() -> Seq<char> {
    seq!['e', 'm', 'o', 't', 'e', 's']
}

/// The index of a repository.
#[derive(Debug)]
pub struct Manifest {
    pub name: String,
    pub path: String,
    pub emotes: Vec<Emote>,
}

/// The entries that stand for a catalog, in its order.
pub open spec fn entries_of(catalog: Seq<Asset>) -> Seq<(Seq<char>, Seq<char>)> {
    catalog.map_values(|a: Asset| entry_of(a))
}

pub open spec fn entries_view(es: Seq<Emote>) -> Seq<(Seq<char>, Seq<char>)> {
    es.map_values(|e: Emote| entry_view(e))
}

/// The index of the repository `repo_name`: one entry per asset of the
/// source catalog, in its order, whatever became of the artifacts.
pub fn build_manifest(repo_name: &String, catalog: &Vec<Asset>) -> (m: Manifest)
    ensures
        m.name@ == repo_name@,
        m.path@ == emotes_dir(),
        entries_view(m.emotes@) == entries_of(catalog@),
{
    let mut emotes: Vec<Emote> = Vec::new();
    let mut i: usize = 0;
    while i < catalog.len()
        invariant
            i <= catalog@.len(),
            entries_view(emotes@) == entries_of(catalog@.subrange(0, i as int)),
        decreases catalog@.len() - i,
    {
        let e = Emote::from(catalog[i].duplicate());
        let ghost before = emotes@;
        emotes.push(e);
        proof {
            assert(entries_view(emotes@) =~= entries_view(before).push(entry_view(e)));
            assert(entries_of(catalog@.subrange(0, i as int + 1)) =~= entries_of(
                catalog@.subrange(0, i as int),
            ).push(entry_of(catalog@[i as int])));
        }
        i = i + 1;
    }
    proof {
        assert(catalog@.subrange(0, i as int) =~= catalog@);
    }
    let dir = "emotes";
    proof {
        reveal_strlit("emotes");
        assert(dir@ =~= emotes_dir());
    }
    Manifest { name: repo_name.clone(), path: String::from_str(dir), emotes }
}

#[verifier::external_type_specification]
#[verifier::external_body]
pub struct ExJsonError(serde_json::Error);

/// The pretty-printed JSON object, keys in serde_json's order, that holds
/// a repository's name, the path of its emotes and its entries, each an
/// object of a `name` and a `type`.
pub uninterp spec fn pretty_index(
    name: Seq<char>,
    path: Seq<char>,
    entries: Seq<(Seq<char>, Seq<char>)>,
) -> Seq<char>;

/// Relies on `serde_json::to_string_pretty` on a `serde_json::Value` built
/// from the fields: the text depends on them alone, and serialising a
/// `Value` whose maps have string keys into memory cannot fail.
#[verifier::external_body]
fn pretty_json(name: &String, path: &String, emotes: &Vec<Emote>) -> (r: Result<String, serde_json::Error>)
    ensures
        r is Ok,
        r is Ok ==> r->Ok_0@ == pretty_index(name@, path@, entries_view(emotes@)),
{
    let mut list = Vec::new();
    for e in emotes {
        let mut o = JsonMap::new();
        o.insert("name".into(), Value::String(e.name.clone()));
        o.insert("type".into(), Value::String(e.typ.clone()));
        list.push(Value::Object(o));
    }
    let mut root = JsonMap::new();
    root.insert("name".into(), Value::String(name.clone()));
    root.insert("path".into(), Value::String(path.clone()));
    root.insert("emotes".into(), Value::Array(list));
    serde_json::to_string_pretty(&Value::Object(root))
}

/// The JSON text of the index of the repository `name` with these entries,
/// its emotes under the path `emotes`.
pub fn generate(name: &String, emotes: &Vec<Emote>) -> (r: String)
    ensures
        r@ == pretty_index(name@, emotes_dir(), entries_view(emotes@)),
{
    let dir = "emotes";
    proof {
        reveal_strlit("emotes");
        assert(dir@ =~= emotes_dir());
    }
    match pretty_json(name, &String::from_str(dir), emotes) {
        Ok(text) => text,
        Err(_) => String::new(),
    }
}

impl Manifest {
    /// The JSON text of this index.
    pub fn to_json(&self) -> (r: String)
        ensures
            r@ == pretty_index(self.name@, self.path@, entries_view(self.emotes@)),
    {
        match pretty_json(&self.name, &self.path, &self.emotes) {
            Ok(text) => text,
            Err(_) => String::new(),
        }
    }
}

} // verus!
