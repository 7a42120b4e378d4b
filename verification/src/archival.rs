//! Planning the move of an export into the processed prefix.
use vstd::prelude::*;
use crate::text::{occurs_in, replaced, text_contains, text_eq, text_replace};

verus! {

/// File name that marks a finished export.
pub const MANIFEST_JSON: &'static str = "manifest-files.json";

/// Folder that holds an export's data, beside its manifest.
pub const DATA_FOLDER: &'static str = "data/";

/// Whether a storage signal announces a finished export in the configured
/// bucket.
pub open spec fn announces_export(
    bucket: Option<String>,
    key: Option<String>,
    configured_bucket: Seq<char>,
) -> bool {
    &&& bucket is Some
    &&& bucket->0@ == configured_bucket
    &&& key is Some
    &&& occurs_in(MANIFEST_JSON@, key->0@)
}

/// The position at which the file name of `key` starts: behind the last `/`,
/// or at the front where there is none.
pub open spec fn file_name_start(key: Seq<char>) -> int
    decreases key.len(),
{
    if key.len() == 0 {
        0
    } else if key.last() == '/' {
        key.len() as int
    } else {
        file_name_start(key.drop_last())
    }
}

/// The file name of `key`: what follows its last `/`.
pub open spec fn file_name_of(key: Seq<char>) -> Seq<char> {
    key.subrange(file_name_start(key), key.len() as int)
}

/// The keys that a listing reports: those present and not empty, in order.
pub open spec fn reported_keys(listing: Seq<Option<String>>, upto: int) -> Seq<Seq<char>>
    decreases upto,
{
    if upto <= 0 {
        seq![]
    } else {
        let earlier = reported_keys(listing, upto - 1);
        match listing[upto - 1] {
            Some(key) => if key@.len() > 0 {
                earlier.push(key@)
            } else {
                earlier
            },
            None => earlier,
        }
    }
}

/// The characters of each string of `texts`.
pub open spec fn views_of(texts: Seq<String>) -> Seq<Seq<char>> {
    Seq::new(texts.len(), |at: int| texts[at]@)
}

/// A signal is acted on only if it names the configured bucket and its key
/// contains the manifest's file name.
pub fn is_export_trigger(
    bucket: &Option<String>,
    key: &Option<String>,
    configured_bucket: &str,
) -> (triggered: bool)
    ensures
        triggered == announces_export(*bucket, *key, configured_bucket@),
{
    match (bucket, key) {
        (Some(bucket), Some(key)) => text_eq(bucket.as_str(), configured_bucket) && text_contains(
            key.as_str(),
            MANIFEST_JSON,
        ),
        _ => false,
    }
}

/// The folder that holds the data of the export whose manifest is at
/// `manifest_key`: the key with the manifest's file name replaced by the data
/// folder's name.
pub fn data_folder_of(manifest_key: &str) -> (folder: String)
    ensures
        folder@ == replaced(manifest_key@, MANIFEST_JSON@, DATA_FOLDER@),
{
    proof {
        reveal_strlit("manifest-files.json");
    }
    text_replace(manifest_key, MANIFEST_JSON, DATA_FOLDER)
}

/// The file name of an object key.
pub fn get_file_name(key: &str) -> (name: String)
    ensures
        name@ == file_name_of(key@),
{
    let length = key.unicode_len();
    let mut start: usize = length;
    while start > 0 && key.get_char(start - 1) != '/'
        invariant
            start <= length,
            length == key@.len(),
            forall|at: int| start <= at < length ==> key@[at] != '/',
        decreases start,
    {
        start -= 1;
    }
    proof {
        file_name_starts_at(key@, start as int);
    }
    String::from_str(key.substring_char(start, length))
}

/// The file name starts inside the key, holds no `/`, and stands directly
/// behind a `/` unless it is the whole key.
pub proof fn file_name_start_bounded(key: Seq<char>)
    ensures
        0 <= file_name_start(key) <= key.len(),
        file_name_start(key) > 0 ==> key[file_name_start(key) - 1] == '/',
        forall|at: int| file_name_start(key) <= at < key.len() ==> key[at] != '/',
    decreases key.len(),
{
    if key.len() > 0 && key.last() != '/' {
        let front = key.drop_last();
        file_name_start_bounded(front);
        assert forall|at: int| file_name_start(key) <= at < key.len() implies key[at] != '/' by {
            if at < front.len() {
                assert(front[at] == key[at]);
            }
        }
    }
}

/// A key is its folders followed by its file name, and the file name holds
/// no `/`.
pub proof fn file_name_is_flat(key: Seq<char>)
    ensures
        key == key.subrange(0, file_name_start(key)) + file_name_of(key),
        forall|at: int| 0 <= at < file_name_of(key).len() ==> file_name_of(key)[at] != '/',
{
    file_name_start_bounded(key);
    assert(key =~= key.subrange(0, file_name_start(key)) + file_name_of(key));
}

/// A position behind which no `/` follows, and which is the front of the key
/// or stands directly behind a `/`, is where the file name starts.
pub proof fn file_name_starts_at(key: Seq<char>, start: int)
    requires
        0 <= start <= key.len(),
        start > 0 ==> key[start - 1] == '/',
        forall|at: int| start <= at < key.len() ==> key[at] != '/',
    ensures
        file_name_start(key) == start,
    decreases key.len(),
{
    if key.len() > 0 && key.last() != '/' {
        let front = key.drop_last();
        assert(start > 0 ==> front[start - 1] == key[start - 1]);
        assert forall|at: int| start <= at < front.len() implies front[at] != '/' by {
            assert(front[at] == key[at]);
        }
        file_name_starts_at(front, start);
    }
}

/// The key under which a source object is stored in the processed prefix:
/// the prefix followed by the object's file name, its folders dropped.
pub fn destination_key(processed_prefix: &str, source_key: &str) -> (key: String)
    ensures
        key@ == processed_prefix@ + file_name_of(source_key@),
{
    let name = get_file_name(source_key);
    String::from_str(processed_prefix).concat(name.as_str())
}

/// The source of a copy as the store wants it: bucket, `/`, key.
pub fn copy_source(bucket_name: &str, source_key: &str) -> (source: String)
    ensures
        source@ == bucket_name@ + "/"@ + source_key@,
{
    String::from_str(bucket_name).concat("/").concat(source_key)
}

/// The keys of a listing that are present and not empty, in order.
pub fn present_keys(listing: &Vec<Option<String>>) -> (keys: Vec<String>)
    ensures
        views_of(keys@) == reported_keys(listing@, listing@.len() as int),
{
    let mut keys: Vec<String> = Vec::new();
    let mut at: usize = 0;
    assert(views_of(keys@) =~= reported_keys(listing@, 0));
    while at < listing.len()
        invariant
            at <= listing.len(),
            views_of(keys@) == reported_keys(listing@, at as int),
        decreases listing.len() - at,
    {
        match &listing[at] {
            Some(key) => {
                if !key.as_str().is_empty() {
                    let ghost before = keys@;
                    keys.push(key.clone());
                    assert(views_of(keys@) =~= views_of(before).push(key@));
                }
            },
            None => {},
        }
        at += 1;
    }
    keys
}

/// The copies that move an export: one per source key, in order, each to the
/// processed prefix under the source's file name.
pub fn copy_plan(source_keys: &Vec<String>, processed_prefix: &str) -> (plan: Vec<(String, String)>)
    ensures
        plan@.len() == source_keys@.len(),
        forall|at: int|
            0 <= at < plan@.len() ==> (#[trigger] plan@[at]).0@ == source_keys@[at]@ && plan@[at].1@
                == processed_prefix@ + file_name_of(source_keys@[at]@),
{
    let mut plan: Vec<(String, String)> = Vec::new();
    let mut at: usize = 0;
    while at < source_keys.len()
        invariant
            at <= source_keys.len(),
            plan@.len() == at,
            forall|seen: int|
                0 <= seen < at ==> (#[trigger] plan@[seen]).0@ == source_keys@[seen]@
                    && plan@[seen].1@ == processed_prefix@ + file_name_of(source_keys@[seen]@),
        decreases source_keys.len() - at,
    {
        let destination = destination_key(processed_prefix, source_keys[at].as_str());
        plan.push((source_keys[at].clone(), destination));
        at += 1;
    }
    plan
}

} // verus!
