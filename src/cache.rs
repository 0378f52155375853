//! The chart cache's decisions: where a chart's files lie, and whether a
//! cached chart may be served.
//!
//! For chart `id` the cache holds `{id}.meta`, naming the upstream
//! `chart_updated` stamp it was built from, and `{id}.bin`, the encoded
//! chart. The caller holds the lock on the meta file while it decides.

use vstd::prelude::*;
use vstd::string::StringExecFns;

verus! {

/// What `Path::join` makes of a directory and a relative file name.
pub uninterp spec fn path_join(dir: Seq<char>, name: Seq<char>) -> Seq<char>;

/// Relies on `std::path::Path::join`: the path of `name` inside `dir`,
/// which depends on the two strings alone.
#[verifier::external_body]
fn join_path(dir: &str, name: &str) -> (r: String)
    ensures
        r@ == path_join(dir@, name@),
{
    std::path::Path::new(dir).join(name).to_string_lossy().into_owned()
}

/// The file name `{id}{ext}`.
fn file_name(id: &str, ext: &str) -> (r: String)
    ensures
        r@ == id@ + ext@,
{
    let s = id.to_owned();
    s.concat(ext)
}

/// Path of the meta file of chart `id`.
pub fn meta_path(cache_dir: &str, id: &str) -> (r: String)
    ensures
        r@ == path_join(cache_dir@, id@ + ".meta"@),
{
    let name = file_name(id, ".meta");
    join_path(cache_dir, name.as_str())
}

/// Path of the encoded chart of chart `id`.
pub fn bin_path(cache_dir: &str, id: &str) -> (r: String)
    ensures
        r@ == path_join(cache_dir@, id@ + ".bin"@),
{
    let name = file_name(id, ".bin");
    join_path(cache_dir, name.as_str())
}

/// Path the encoded chart is written to before it is renamed into place.
pub fn bin_tmp_path(cache_dir: &str, id: &str) -> (r: String)
    ensures
        r@ == path_join(cache_dir@, id@ + ".bin.tmp"@),
{
    let name = file_name(id, ".bin.tmp");
    join_path(cache_dir, name.as_str())
}

/// The outcome of looking a chart up under its lock.
#[derive(Debug, Clone, Copy, PartialEq, Eq, Structural)]
pub enum CacheLookup {
    /// Serve the cached file and release the lock.
    Hit,
    /// Keep the lock, download, encode, install, then rewrite the meta.
    Miss,
}

/// Whether the cached chart may be served: the meta file names the same
/// upstream stamp and the encoded chart is present. A meta file that could
/// not be read counts as absent.
pub fn decide(cached_updated: Option<&str>, bin_exists: bool, chart_updated: &str) -> (r: CacheLookup)
    ensures
        (r == CacheLookup::Hit) == (bin_exists && cached_updated is Some && cached_updated.unwrap()@
            == chart_updated@),
{
    match cached_updated {
        Some(c) => {
            let a = c.to_owned();
            let b = chart_updated.to_owned();
            if bin_exists && a == b {
                CacheLookup::Hit
            } else {
                CacheLookup::Miss
            }
        },
        None => CacheLookup::Miss,
    }
}

/// The string under `key` of the JSON object `doc`, if `doc` is a JSON
/// object that has a string there.
pub uninterp spec fn json_string_field(doc: Seq<u8>, key: Seq<char>) -> Option<Seq<char>>;

/// Relies on `serde_json::from_slice` into a `serde_json::Value`, then
/// `Value::get` and `Value::as_str`: the string field `key` of the document,
/// which depends on the bytes and the key alone.
#[verifier::external_body]
fn read_json_string_field(doc: &[u8], key: &str) -> (r: Option<String>)
    ensures
        match r {
            Some(v) => json_string_field(doc@, key@) == Some(v@),
            None => json_string_field(doc@, key@) is None,
        },
{
    let v: serde_json::Value = serde_json::from_slice(doc).ok()?;
    v.get(key)?.as_str().map(|s| s.to_owned())
}

/// The bytes of the JSON object with the single string field `key`.
pub uninterp spec fn json_object_of(key: Seq<char>, value: Seq<char>) -> Seq<u8>;

/// Relies on `serde_json::to_vec` of a `serde_json::Value::Object` holding one
/// string field: the encoding depends on the key and the value alone.
#[verifier::external_body]
fn write_json_string_field(key: &str, value: &str) -> (r: Vec<u8>)
    ensures
        r@ == json_object_of(key@, value@),
{
    let mut m = serde_json::Map::new();
    m.insert(key.to_owned(), serde_json::Value::String(value.to_owned()));
    serde_json::to_vec(&serde_json::Value::Object(m)).unwrap_or_default()
}

/// The stamp a meta file names: its `chart_updated` string field.
pub open spec fn meta_stamp(meta: Seq<u8>) -> Option<Seq<char>> {
    json_string_field(meta, "chart_updated"@)
}

/// The decision under the lock, from the bytes of the meta file (if it
/// could be read) and whether the encoded chart exists: a hit exactly when
/// the meta file names the requested stamp and the encoded chart is there.
pub fn acquire_decision(meta: Option<&[u8]>, bin_exists: bool, chart_updated: &str) -> (r: CacheLookup)
    ensures
        (r == CacheLookup::Hit) == (bin_exists && meta is Some && meta_stamp(meta.unwrap()@)
            == Some(chart_updated@)),
{
    let stamp = match meta {
        Some(b) => read_json_string_field(b, "chart_updated"),
        None => None,
    };
    match stamp {
        Some(st) => decide(Some(st.as_str()), bin_exists, chart_updated),
        None => decide(None, bin_exists, chart_updated),
    }
}

/// The contents of the meta file for an installed chart of stamp
/// `chart_updated`.
pub fn meta_contents(chart_updated: &str) -> (r: Vec<u8>)
    ensures
        r@ == json_object_of("chart_updated"@, chart_updated@),
{
    write_json_string_field("chart_updated", chart_updated)
}

} // verus!
