//! Recorded songs: their identity and files, and the ordered model of past
//! songs (kept in an `indexmap::IndexMap` from song id to title).

use vstd::prelude::*;
use vstd::string::*;
use indexmap::IndexMap;
use std::hash::RandomState;
use crate::song_state::SwSongState;
use crate::text::{chars_of, ends_with, push_str, string_from_chars};

verus! {

broadcast use vstd::string::group_string_axioms;

#[verifier::external_type_specification]
#[verifier::external_body]
#[verifier::reject_recursive_types(K)]
#[verifier::reject_recursive_types(V)]
#[verifier::reject_recursive_types(S)]
pub struct ExIndexMap<K, V, S>(IndexMap<K, V, S>);

/// The entries of a song map, in order: (song id, title).
pub uninterp spec fn song_map_entries(m: IndexMap<u64, String, RandomState>) -> Seq<(u64, Seq<char>)>;

/// No id occurs twice among the entries.
pub open spec fn keys_distinct(e: Seq<(u64, Seq<char>)>) -> bool {
    forall|i: int, j: int| 0 <= i < j < e.len() ==> e[i].0 != e[j].0
}

/// `id` is a key of the entries.
pub open spec fn has_key(e: Seq<(u64, Seq<char>)>, id: u64) -> bool {
    exists|i: int| 0 <= i < e.len() && e[i].0 == id
}

/// `IndexMap::new`: an empty map.
#[verifier::external_body]
fn song_map_new() -> (m: IndexMap<u64, String, RandomState>)
    ensures
        song_map_entries(m) == Seq::<(u64, Seq<char>)>::empty(),
{
    IndexMap::new()
}

/// `IndexMap::len`: the number of entries.
#[verifier::external_body]
fn song_map_len(m: &IndexMap<u64, String, RandomState>) -> (n: usize)
    ensures
        n == song_map_entries(*m).len(),
{
    m.len()
}

/// `IndexMap::contains_key`: whether an entry has key `id`.
#[verifier::external_body]
fn song_map_contains_key(m: &IndexMap<u64, String, RandomState>, id: u64) -> (r: bool)
    ensures
        r == has_key(song_map_entries(*m), id),
{
    m.contains_key(&id)
}

/// `IndexMap::insert` of a key that is not in the map: the entry goes last.
#[verifier::external_body]
fn song_map_insert_new(m: &mut IndexMap<u64, String, RandomState>, id: u64, title: String)
    requires
        !has_key(song_map_entries(*old(m)), id),
    ensures
        song_map_entries(*final(m)) == song_map_entries(*old(m)).push((id, title@)),
{
    m.insert(id, title);
}

/// `IndexMap::get_index_of`: the position of key `id`.
#[verifier::external_body]
fn song_map_get_index_of(m: &IndexMap<u64, String, RandomState>, id: u64) -> (r: Option<usize>)
    ensures
        match r {
            Some(i) => i < song_map_entries(*m).len() && song_map_entries(*m)[i as int].0 == id,
            None => !has_key(song_map_entries(*m), id),
        },
{
    m.get_index_of(&id)
}

/// `IndexMap::shift_remove_full`: removes the entry of key `id`, shifting
/// the later entries down, and returns its position.
#[verifier::external_body]
fn song_map_shift_remove(m: &mut IndexMap<u64, String, RandomState>, id: u64) -> (r: Option<usize>)
    ensures
        match r {
            Some(i) => i < song_map_entries(*old(m)).len() && song_map_entries(*old(m))[i as int].0
                == id && song_map_entries(*final(m)) == song_map_entries(*old(m)).remove(i as int),
            None => !has_key(song_map_entries(*old(m)), id) && song_map_entries(*final(m))
                == song_map_entries(*old(m)),
        },
{
    match m.shift_remove_full(&id) {
        Some((i, _, _)) => Some(i),
        None => None,
    }
}

/// `IndexMap::get_index`: the entry at a position, copied out.
#[verifier::external_body]
fn song_map_get_index(m: &IndexMap<u64, String, RandomState>, index: usize) -> (r: Option<(u64, String)>)
    ensures
        match r {
            Some((k, v)) => index < song_map_entries(*m).len() && song_map_entries(*m)[index as int]
                == (k, v@),
            None => index >= song_map_entries(*m).len(),
        },
{
    match m.get_index(index) {
        Some((k, v)) => Some((*k, v.clone())),
        None => None,
    }
}

/// The past songs, in the order they were added, without repeated ids.
pub struct SwSongModel {
    map: IndexMap<u64, String, RandomState>,
}

impl SwSongModel {
    /// The entries of the model: (song id, title), in order.
    pub closed spec fn entries(&self) -> Seq<(u64, Seq<char>)> {
        song_map_entries(self.map)
    }

    /// The model's invariant: ids are distinct.
    pub closed spec fn wf(&self) -> bool {
        keys_distinct(song_map_entries(self.map))
    }

    /// An empty model.
    pub fn new() -> (m: SwSongModel)
        ensures
            m.wf(),
            m.entries().len() == 0,
    {
        SwSongModel { map: song_map_new() }
    }

    /// The number of songs, as the list model reports it (`as u32`).
    pub fn n_items(&self) -> (n: u32)
        ensures
            n == self.entries().len() as u32,
    {
        song_map_len(&self.map) as u32
    }

    /// Adds a song at the end unless its id is there already; returns the
    /// position it took (`as u32`), or `None` when it was there.
    pub fn add_song(&mut self, id: u64, title: String) -> (pos: Option<u32>)
        requires
            old(self).wf(),
        ensures
            final(self).wf(),
            has_key(old(self).entries(), id) ==> pos is None && final(self).entries() == old(self).entries(),
            !has_key(old(self).entries(), id) ==> final(self).entries() == old(self).entries().push((id, title@))
                && pos == Some((old(self).entries().len()) as u32),
    {
        if song_map_contains_key(&self.map, id) {
            return None;
        }
        song_map_insert_new(&mut self.map, id, title);
        let n = song_map_len(&self.map);
        Some((n - 1) as u32)
    }

    /// Removes the song with this id; returns the position it had, or `None`
    /// when it was not there.
    pub fn remove_song(&mut self, id: u64) -> (pos: Option<usize>)
        requires
            old(self).wf(),
        ensures
            final(self).wf(),
            match pos {
                Some(i) => i < old(self).entries().len() && old(self).entries()[i as int].0 == id
                    && final(self).entries() == old(self).entries().remove(i as int),
                None => !has_key(old(self).entries(), id) && final(self).entries() == old(self).entries(),
            },
    {
        let ghost before = song_map_entries(self.map);
        let r = match song_map_get_index_of(&self.map, id) {
            Some(pos) => {
                let removed = song_map_shift_remove(&mut self.map, id);
                proof {
                    if let Some(j) = removed {
                        if j != pos {
                            if j < pos {
                                assert(before[j as int].0 != before[pos as int].0);
                            } else {
                                assert(before[pos as int].0 != before[j as int].0);
                            }
                        }
                    }
                }
                Some(pos)
            },
            None => None,
        };
        proof {
            if let Some(i) = r {
                let after = before.remove(i as int);
                assert forall|a: int, b: int| 0 <= a < b < after.len() implies after[a].0 != after[b].0 by {
                    if a < i {
                        if b < i {
                        } else {
                            assert(after[b] == before[b + 1]);
                        }
                    } else {
                        assert(after[a] == before[a + 1]);
                        assert(after[b] == before[b + 1]);
                    }
                }
            }
        }
        r
    }

    /// The song at a position: (id, title).
    pub fn item(&self, position: u32) -> (r: Option<(u64, String)>)
        ensures
            match r {
                Some((k, v)) => position < self.entries().len() && self.entries()[position as int] == (k, v@),
                None => position >= self.entries().len(),
            },
    {
        song_map_get_index(&self.map, position as usize)
    }
}

/// Adding a song and removing it again leaves the model as it was, when the
/// song was not in it.
pub proof fn law_add_then_remove(entries: Seq<(u64, Seq<char>)>, id: u64, title: Seq<char>)
    requires
        keys_distinct(entries),
        !has_key(entries, id),
    ensures
        entries.push((id, title)).remove(entries.len() as int) == entries,
        entries.push((id, title))[entries.len() as int].0 == id,
{
    assert(entries.push((id, title)).remove(entries.len() as int) =~= entries);
}

/// A character `sanitize_filename` removes: a path or shell metacharacter
/// or a control character.
pub open spec fn filename_illegal(c: char) -> bool {
    c == '/' || c == '?' || c == '<' || c == '>' || c == '\\' || c == ':' || c == '*' || c == '|'
        || c == '"' || (c as u32) <= 0x1f || (0x80 <= (c as u32) && (c as u32) <= 0x9f)
}

/// What `sanitize_filename::sanitize` returns for `name` with its default
/// options, on the platform the crate is built for.
pub uninterp spec fn sanitized_of(name: Seq<char>) -> Seq<char>;

/// Calls `sanitize_filename::sanitize`. The contract names its result
/// (`sanitized_of`) and states what its source shows on every platform: the
/// illegal characters are removed, so none is left. The removal rules, the
/// Windows-only ones and the cut to 255 bytes are the crate's and are not
/// restated.
#[verifier::external_body]
fn sanitize(name: &str) -> (r: String)
    ensures
        r@ == sanitized_of(name@),
        forall|i: int| 0 <= i < r@.len() ==> !filename_illegal(#[trigger] r@[i]),
{
    sanitize_filename::sanitize(name)
}

/// The file name a saved recording gets: the sanitized title with `.ogg`.
pub fn recording_file_name_from(sanitized_title: &str) -> (r: String)
    ensures
        r@ == sanitized_title@ + ".ogg"@,
{
    let mut v = chars_of(sanitized_title);
    push_str(&mut v, ".ogg");
    string_from_chars(&v)
}

/// The file name a song titled `title` is saved under: the sanitized title,
/// free of illegal characters, with `.ogg`.
pub fn recording_file_name(title: &str) -> (r: String)
    ensures
        r@ == sanitized_of(title@) + ".ogg"@,
        forall|i: int| 0 <= i < sanitized_of(title@).len() ==> !filename_illegal(#[trigger] sanitized_of(title@)[i]),
{
    let s = sanitize(title);
    recording_file_name_from(s.as_str())
}

/// `base` with the relative `component` appended as `PathBuf::push` does on
/// Unix: a `/` goes between unless `base` is empty or already ends in `/`.
pub open spec fn spec_join_path(base: Seq<char>, component: Seq<char>) -> Seq<char> {
    if base.len() == 0 || ends_with(base, "/"@) {
        base + component
    } else {
        base + "/"@ + component
    }
}

/// Appends a relative path component.
pub fn join_path(base: &str, component: &str) -> (r: String)
    ensures
        r@ == spec_join_path(base@, component@),
{
    let b = chars_of(base);
    let slash = chars_of("/");
    let mut v = chars_of(base);
    if !(b.len() == 0 || crate::text::ends_with_exec(&b, &slash)) {
        push_str(&mut v, "/");
    }
    push_str(&mut v, component);
    string_from_chars(&v)
}

/// Where a song is recorded to: `recording/<uuid>.ogg` under the data
/// directory.
pub open spec fn spec_recording_path(data_dir: Seq<char>, uuid: Seq<char>) -> Seq<char> {
    spec_join_path(spec_join_path(data_dir, "recording"@), uuid + ".ogg"@)
}

/// The file a song is recorded to.
pub fn recording_path(data_dir: &str, uuid: &str) -> (r: String)
    ensures
        r@ == spec_recording_path(data_dir@, uuid@),
{
    let dir = join_path(data_dir, "recording");
    let mut name = chars_of(uuid);
    push_str(&mut name, ".ogg");
    let file = string_from_chars(&name);
    join_path(dir.as_str(), file.as_str())
}

/// A lower-case hexadecimal digit.
pub open spec fn is_hex_lower(c: char) -> bool {
    ('0' as u32 <= c as u32 && c as u32 <= '9' as u32) || ('a' as u32 <= c as u32 && c as u32 <= 'f' as u32)
}

/// The text of a version 4 UUID: 36 characters, lower-case hex digits with
/// hyphens at 8, 13, 18 and 23, the version digit `4` at 14 and the variant
/// digit (`8`, `9`, `a` or `b`) at 19.
pub open spec fn uuid_v4_text(s: Seq<char>) -> bool {
    &&& s.len() == 36
    &&& forall|i: int| 0 <= i < 36 ==> (if i == 8 || i == 13 || i == 18 || i == 23 {
        #[trigger] s[i] == '-'
    } else {
        is_hex_lower(s[i])
    })
    &&& s[14] == '4'
    &&& (s[19] == '8' || s[19] == '9' || s[19] == 'a' || s[19] == 'b')
}

/// Calls `uuid::Uuid::new_v4` and formats it with `to_string`. The value is
/// random, so only its shape is stated. It panics when the system offers no
/// random bytes, which no argument can rule out.
#[verifier::external_body]
fn new_uuid() -> (r: String)
    ensures
        uuid_v4_text(r@),
{
    uuid::Uuid::new_v4().to_string()
}

/// A song: its identity, title, recording state, recorded duration, and the
/// file it is recorded to.
pub struct SwSong {
    pub uuid: String,
    pub title: String,
    pub state: SwSongState,
    pub duration: u64,
    pub file: String,
}

impl SwSong {
    /// A new song titled `title` that records to a file named after a fresh
    /// UUID under the data directory.
    pub fn new(title: &str, data_dir: &str) -> (s: SwSong)
        ensures
            uuid_v4_text(s.uuid@),
            s.title@ == title@,
            s.state == SwSongState::NoRecording,
            s.duration == 0,
            s.file@ == spec_recording_path(data_dir@, s.uuid@),
    {
        let uuid = new_uuid();
        let file = recording_path(data_dir, uuid.as_str());
        SwSong { uuid, title: String::from_str(title), state: SwSongState::NoRecording, duration: 0, file }
    }

    /// Only a recorded song is saved (and then becomes `Saved`).
    pub fn can_save(&self) -> (r: bool)
        ensures
            r == (self.state == SwSongState::Recorded),
    {
        self.state == SwSongState::Recorded
    }

    /// The path a recorded song is saved to in `save_dir`: the sanitized
    /// title with `.ogg`, appended to the directory.
    pub fn save_path(&self, save_dir: &str) -> (r: String)
        ensures
            r@ == spec_join_path(save_dir@, sanitized_of(self.title@) + ".ogg"@),
    {
        let name = recording_file_name(self.title.as_str());
        join_path(save_dir, name.as_str())
    }

    /// Marks a song saved.
    pub fn mark_saved(&mut self)
        ensures
            final(self).state == SwSongState::Saved,
            final(self).uuid == old(self).uuid,
            final(self).title == old(self).title,
            final(self).duration == old(self).duration,
            final(self).file == old(self).file,
    {
        self.state = SwSongState::Saved;
    }

    /// A song that is dropped while recorded deletes its file.
    pub fn deletes_file_on_dispose(&self) -> (r: bool)
        ensures
            r == (self.state == SwSongState::Recorded),
    {
        self.state == SwSongState::Recorded
    }
}

} // verus!
