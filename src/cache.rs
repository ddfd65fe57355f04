use vstd::prelude::*;
use crate::error::MetaError;
use crate::id::{opt_text, Id};

verus! {

/// Declares `dashmap::DashMap`, the concurrent map behind the in-memory index.
#[verifier::external_type_specification]
#[verifier::external_body]
#[verifier::reject_recursive_types(K)]
#[verifier::reject_recursive_types(V)]
#[verifier::reject_recursive_types(S)]
pub struct ExDashMap<K, V, S>(dashmap::DashMap<K, V, S>);

/// Declares `youtube_dl::YoutubeDlOutput`, the metadata document the remote
/// fetch returns.
#[verifier::external_type_specification]
#[verifier::external_body]
pub struct ExYoutubeDlOutput(youtube_dl::YoutubeDlOutput);

/// The in-memory index: identifier text to the document text held for it.
pub type DocIndex = dashmap::DashMap<String, Option<String>>;

/// What a `DashMap` of the index holds: each key's text to its entry's text.
pub uninterp spec fn index_entries(m: dashmap::DashMap<String, Option<String>>) -> Map<Seq<char>, Option<Seq<char>>>;

/// Whether `serde_json::from_str` reads the text as a `YoutubeDlOutput`.
pub uninterp spec fn decodes(text: Seq<char>) -> bool;

/// An index with no entries.
pub open spec fn empty_index() -> Map<Seq<char>, Option<Seq<char>>> {
    Map::empty()
}

/// The JSON text `serde_json::to_string` makes of a document; `None` where
/// it fails.
pub uninterp spec fn json_of(d: youtube_dl::YoutubeDlOutput) -> Option<Seq<char>>;

/// Relies on `DashMap::with_capacity`: a new map holds nothing.
#[verifier::external_body]
fn index_new() -> (r: DocIndex)
    ensures
        index_entries(r) == empty_index(),
{
    dashmap::DashMap::with_capacity(256)
}

/// Relies on `DashMap::get`: the entry of `k`, if the map holds one.
#[verifier::external_body]
fn index_get(m: &DocIndex, k: &str) -> (r: Option<Option<String>>)
    ensures
        r is Some == index_entries(*m).contains_key(k@),
        r is Some ==> opt_text(r->Some_0) == index_entries(*m)[k@],
{
    m.get(k).map(|e| e.value().clone())
}

/// Relies on `DashMap::insert`: `k` now maps to `v`, every other key as before.
#[verifier::external_body]
fn index_insert(m: &mut DocIndex, k: String, v: Option<String>)
    ensures
        index_entries(*final(m)) == index_entries(*old(m)).insert(k@, opt_text(v)),
{
    m.insert(k, v);
}

/// Relies on `DashMap::remove`: `k` is gone, and its entry, if any, is returned.
#[verifier::external_body]
fn index_remove(m: &mut DocIndex, k: &str) -> (r: Option<Option<String>>)
    ensures
        index_entries(*final(m)) == index_entries(*old(m)).remove(k@),
        r is Some == index_entries(*old(m)).contains_key(k@),
        r is Some ==> opt_text(r->Some_0) == index_entries(*old(m))[k@],
{
    m.remove(k).map(|(_, v)| v)
}

/// Relies on `serde_json::from_str::<YoutubeDlOutput>`: it succeeds exactly
/// where the text decodes.
#[verifier::external_body]
fn decode_check(text: &str) -> (r: Result<(), serde_json::Error>)
    ensures
        r is Ok == decodes(text@),
{
    serde_json::from_str::<youtube_dl::YoutubeDlOutput>(text).map(|_| ())
}

/// Relies on `serde_json::to_string`: the JSON text of a document, which
/// depends on the document alone.
#[verifier::external_body]
fn encode(d: &youtube_dl::YoutubeDlOutput) -> (r: Result<String, serde_json::Error>)
    ensures
        match json_of(*d) {
            Some(t) => r is Ok && r->Ok_0@ == t,
            None => r is Err,
        },
{
    serde_json::to_string(d)
}

/// Whether the name ends in the `.json` suffix of a document file.
pub open spec fn has_json_suffix(s: Seq<char>) -> bool {
    s.len() >= 5 && s.subrange(s.len() - 5, s.len() as int) == ".json"@
}

/// The name without its `.json` suffix, where it has one.
pub open spec fn trim_json(s: Seq<char>) -> Seq<char> {
    if has_json_suffix(s) {
        s.subrange(0, s.len() - 5)
    } else {
        s
    }
}

/// The name of the file that holds the document of `k`.
pub open spec fn file_name_of(k: Seq<char>) -> Seq<char> {
    k + ".json"@
}

/// The index after loading, in order, each `(file name, text)` of `files`.
pub open spec fn warm(m: Map<Seq<char>, Option<Seq<char>>>, files: Seq<(Seq<char>, Seq<char>)>) -> Map<Seq<char>, Option<Seq<char>>>
    decreases files.len(),
{
    if files.len() == 0 {
        m
    } else {
        let last = files.last();
        warm(m, files.drop_last()).insert(trim_json(last.0), Some(last.1))
    }
}

/// What a lookup of `k` yields.
pub enum Lookup {
    /// The entry found, possibly "known absent".
    Value(Option<Seq<char>>),
    /// The stored file does not hold a readable document.
    Corrupt,
}

/// A lookup of `k` in the index `m`, where `stored` is the text of the file
/// of `k`, if one exists. The index wins where it holds `k`.
pub open spec fn lookup(m: Map<Seq<char>, Option<Seq<char>>>, k: Seq<char>, stored: Option<Seq<char>>) -> Lookup {
    if m.contains_key(k) {
        Lookup::Value(m[k])
    } else {
        match stored {
            None => Lookup::Value(None),
            Some(t) => if decodes(t) {
                Lookup::Value(Some(t))
            } else {
                Lookup::Corrupt
            },
        }
    }
}

pub open spec fn files_text(files: Seq<(String, String)>) -> Seq<(Seq<char>, Seq<char>)> {
    files.map_values(|p: (String, String)| (p.0@, p.1@))
}

/// The two-tier metadata cache, as far as it is decided here: the in-memory
/// index, and the refresh flag. Documents are held as their JSON text, which
/// is also what the file of each identifier holds.
pub struct MetadataCache {
    cache: DocIndex,
    refresh: bool,
}

impl MetadataCache {
    /// The index: identifier text to entry.
    pub closed spec fn index(&self) -> Map<Seq<char>, Option<Seq<char>>> {
        index_entries(self.cache)
    }

    pub closed spec fn refresh_spec(&self) -> bool {
        self.refresh
    }

    /// An empty cache, refresh unset.
    pub fn new() -> (r: MetadataCache)
        ensures
            r.index() == empty_index(),
            !r.refresh_spec(),
    {
        MetadataCache { cache: index_new(), refresh: false }
    }

    /// Whether refresh is set.
    pub fn refresh(&self) -> (r: bool)
        ensures
            r == self.refresh_spec(),
    {
        self.refresh
    }

    /// The name of the file that holds the document of `k`.
    pub fn file_name(k: &Id) -> (r: String)
        ensures
            r@ == file_name_of(k@),
    {
        let mut name = k.as_str().to_owned();
        name.append(".json");
        name
    }

    /// The identifier a file name stands for: the name without its `.json`
    /// suffix.
    pub fn id_from_file_name(name: &str) -> (r: Id)
        ensures
            r@ == trim_json(name@),
    {
        let n = name.unicode_len();
        proof {
            reveal_strlit(".json");
        }
        if n >= 5 && name.substring_char(n - 5, n).to_owned().eq(&".json".to_owned()) {
            Id::from_text(name.substring_char(0, n - 5))
        } else {
            Id::from_text(name)
        }
    }

    /// The entry the index holds for `k`, if any; `None` means the index has
    /// not seen `k` and its file decides.
    pub fn cached(&self, k: &Id) -> (r: Option<Option<String>>)
        ensures
            r is Some == self.index().contains_key(k@),
            r is Some ==> opt_text(r->Some_0) == self.index()[k@],
    {
        index_get(&self.cache, k.as_str())
    }

    /// Looks `k` up. The index answers where it holds `k`; otherwise
    /// `stored`, the text of the file of `k` if it exists, is checked and
    /// returned, without being put into the index.
    pub fn cache_get(&self, k: &Id, stored: Option<String>) -> (r: Result<Option<String>, MetaError>)
        ensures
            match lookup(self.index(), k@, opt_text(stored)) {
                Lookup::Value(v) => r is Ok && opt_text(r->Ok_0) == v,
                Lookup::Corrupt => r is Err && r->Err_0 is JsonErr,
            },
    {
        match self.cached(k) {
            Some(entry) => Ok(entry),
            None => match stored {
                None => Ok(None),
                Some(text) => match decode_check(text.as_str()) {
                    Ok(()) => Ok(Some(text)),
                    Err(e) => Err(MetaError::JsonErr(e)),
                },
            },
        }
    }

    /// Records `v` as the document of `k`, once its file has been written;
    /// returns the document stored.
    pub fn cache_set(&mut self, k: Id, v: String) -> (r: Option<String>)
        ensures
            final(self).index() == old(self).index().insert(k@, Some(v@)),
            final(self).refresh_spec() == old(self).refresh_spec(),
            opt_text(r) == Some(v@),
    {
        let kept = v.clone();
        index_insert(&mut self.cache, k.as_str().to_owned(), Some(v));
        Some(kept)
    }

    /// Forgets `k`, once its file has been deleted; returns the document the
    /// index held for it, if any.
    pub fn cache_remove(&mut self, k: &Id) -> (r: Option<String>)
        ensures
            final(self).index() == old(self).index().remove(k@),
            final(self).refresh_spec() == old(self).refresh_spec(),
            opt_text(r) == (if old(self).index().contains_key(k@) { old(self).index()[k@] } else { None }),
    {
        match index_remove(&mut self.cache, k.as_str()) {
            Some(entry) => entry,
            None => None,
        }
    }

    /// Sets the refresh flag; returns its value before.
    pub fn cache_set_refresh(&mut self, refresh: bool) -> (r: bool)
        ensures
            r == old(self).refresh_spec(),
            final(self).refresh_spec() == refresh,
            final(self).index() == old(self).index(),
    {
        let before = self.refresh;
        self.refresh = refresh;
        before
    }

    /// Loads, in order, each `(file name, text)` of a cache directory into
    /// the index. The first text that does not decode stops the load with
    /// `JsonErr`.
    pub fn init_cache(&mut self, files: &Vec<(String, String)>) -> (r: Result<(), MetaError>)
        ensures
            r is Ok == (forall|i: int| 0 <= i < files@.len() ==> decodes(#[trigger] files@[i].1@)),
            r is Ok ==> final(self).index() == warm(old(self).index(), files_text(files@)),
            r is Err ==> r->Err_0 is JsonErr,
            final(self).refresh_spec() == old(self).refresh_spec(),
    {
        let ghost fs = files_text(files@);
        let mut i: usize = 0;
        assert(fs.subrange(0, 0) =~= Seq::<(Seq<char>, Seq<char>)>::empty());
        while i < files.len()
            invariant
                i <= files@.len(),
                fs == files_text(files@),
                forall|j: int| 0 <= j < i ==> decodes(#[trigger] files@[j].1@),
                self.index() == warm(old(self).index(), fs.subrange(0, i as int)),
                self.refresh_spec() == old(self).refresh_spec(),
            decreases files.len() - i,
        {
            let name = &files[i].0;
            let text = &files[i].1;
            match decode_check(text.as_str()) {
                Ok(()) => {},
                Err(e) => {
                    return Err(MetaError::JsonErr(e));
                },
            }
            let id = Self::id_from_file_name(name.as_str());
            index_insert(&mut self.cache, id.as_str().to_owned(), Some(text.clone()));
            assert(fs.subrange(0, i + 1).drop_last() =~= fs.subrange(0, i as int));
            i = i + 1;
        }
        assert(fs.subrange(0, i as int) =~= fs);
        Ok(())
    }

    /// The JSON text of a document fetched remotely, as it is stored.
    pub fn encode_document(d: &youtube_dl::YoutubeDlOutput) -> (r: Result<String, MetaError>)
        ensures
            match json_of(*d) {
                Some(t) => r is Ok && r->Ok_0@ == t,
                None => r is Err && r->Err_0 is JsonErr,
            },
    {
        match encode(d) {
            Ok(text) => Ok(text),
            Err(e) => Err(MetaError::JsonErr(e)),
        }
    }
}


/// A document just set is what a lookup of its identifier returns, whatever
/// its file holds.
pub proof fn lemma_set_then_get(m: Map<Seq<char>, Option<Seq<char>>>, k: Seq<char>, d: Seq<char>, stored: Option<Seq<char>>)
    ensures
        lookup(m.insert(k, Some(d)), k, stored) == Lookup::Value(Some(d)),
{
}

/// An identifier that was never set and has no file has no value.
pub proof fn lemma_get_of_unseen_is_none(m: Map<Seq<char>, Option<Seq<char>>>, k: Seq<char>)
    requires
        !m.contains_key(k),
    ensures
        lookup(m, k, None) == Lookup::Value(None),
{
}

/// After a removal, which also deletes the file, a lookup finds nothing.
pub proof fn lemma_remove_then_get(m: Map<Seq<char>, Option<Seq<char>>>, k: Seq<char>)
    ensures
        lookup(m.remove(k), k, None) == Lookup::Value(None),
{
}

/// The file written for `k` is loaded back under `k`.
pub proof fn lemma_file_name_round_trip(k: Seq<char>)
    ensures
        has_json_suffix(file_name_of(k)),
        trim_json(file_name_of(k)) == k,
{
    reveal_strlit(".json");
    let f = file_name_of(k);
    assert(f.subrange(f.len() - 5, f.len() as int) =~= ".json"@);
    assert(f.subrange(0, f.len() - 5) =~= k);
}

/// A document file's name is the file name of the identifier it stands for.
proof fn lemma_trim_then_name(f: Seq<char>)
    requires
        has_json_suffix(f),
    ensures
        file_name_of(trim_json(f)) == f,
{
    reveal_strlit(".json");
    assert(file_name_of(trim_json(f)) =~= f);
}

/// Loading a directory keeps the entry of `k` from the last file whose name
/// stands for `k`: where only file `i`, holding `d`, does, `k` maps to `d`.
proof fn lemma_warm_keeps(m: Map<Seq<char>, Option<Seq<char>>>, files: Seq<(Seq<char>, Seq<char>)>, i: int, k: Seq<char>, d: Seq<char>)
    requires
        0 <= i < files.len(),
        trim_json(files[i].0) == k,
        files[i].1 == d,
        forall|j: int| 0 <= j < files.len() && j != i ==> trim_json(#[trigger] files[j].0) != k,
    ensures
        warm(m, files).contains_key(k),
        warm(m, files)[k] == Some(d),
    decreases files.len(),
{
    if i != files.len() - 1 {
        let pre = files.drop_last();
        assert forall|j: int| 0 <= j < pre.len() && j != i implies trim_json(#[trigger] pre[j].0) != k by {
            assert(pre[j] == files[j]);
        }
        lemma_warm_keeps(m, pre, i, k, d);
        assert(trim_json(files[files.len() - 1].0) != k);
    }
}

/// A directory of document files: every name ends in `.json`, and no name
/// appears twice.
pub open spec fn is_cache_dir(files: Seq<(Seq<char>, Seq<char>)>) -> bool {
    &&& forall|j: int| 0 <= j < files.len() ==> has_json_suffix(#[trigger] files[j].0)
    &&& forall|j: int, l: int| 0 <= j < files.len() && 0 <= l < files.len() && j != l ==> #[trigger] files[j].0 != #[trigger] files[l].0
}

/// Warm-up from a directory of document files maps each file's identifier
/// to the text the file holds.
pub proof fn lemma_warm_up_maps_each_file(files: Seq<(Seq<char>, Seq<char>)>, i: int)
    requires
        is_cache_dir(files),
        0 <= i < files.len(),
    ensures
        warm(empty_index(), files).contains_key(trim_json(files[i].0)),
        warm(empty_index(), files)[trim_json(files[i].0)] == Some(files[i].1),
{
    let k = trim_json(files[i].0);
    assert forall|j: int| 0 <= j < files.len() && j != i implies trim_json(#[trigger] files[j].0) != k by {
        lemma_trim_then_name(files[j].0);
        lemma_trim_then_name(files[i].0);
    }
    lemma_warm_keeps(empty_index(), files, i, k, files[i].1);
}

/// Durability: the file that `cache_set` of `k` and `d` goes with, named
/// `file_name_of(k)` and holding `d`, brings `d` back under `k` when a cache
/// is warmed up from a directory of document files that holds it.
pub proof fn lemma_set_survives_warm_up(files: Seq<(Seq<char>, Seq<char>)>, i: int, k: Seq<char>, d: Seq<char>, stored: Option<Seq<char>>)
    requires
        is_cache_dir(files),
        0 <= i < files.len(),
        files[i] == (file_name_of(k), d),
    ensures
        lookup(warm(empty_index(), files), k, stored) == Lookup::Value(Some(d)),
{
    lemma_file_name_round_trip(k);
    lemma_warm_up_maps_each_file(files, i);
}

} // verus!
