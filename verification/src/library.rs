//! Library references as a loader's metadata names them, the artifact records
//! the launcher wants, and the choice of libraries that a distribution adds.

use vstd::prelude::*;
use crate::coordinate::{coordinate_path, parse_coordinate, Coordinate};
use crate::error::{Error, Field, Token};
use crate::json::{
    find_member, items_view, lemma_array_view, lemma_object_view, member, members_view,
    replace_value_at, with_member, Json, JsonValue, Members, Number,
};
use crate::text::{
    chars_of, concat3, copy_text, equal, find_char, slice_from, split_first, string_of_range,
};

verus! {

/// A library known by its coordinate and, where it can be fetched, by the
/// base URL of its repository.
#[derive(Clone, Debug, PartialEq, Eq)]
pub struct FabricStyleLibrary {
    /// The coordinate, as written.
    pub name: String,
    /// Base URL of the repository that serves it.
    pub url: Option<String>,
}

/// The characters of a [`FabricStyleLibrary`].
pub struct ReferenceText {
    pub name: Seq<char>,
    pub url: Option<Seq<char>>,
}

/// What is known of a file once it has been fetched.
#[derive(Clone, Debug, PartialEq, Eq)]
pub struct Artifact {
    /// SHA-1 of the content, in 40 lower-case hex digits.
    pub sha1: String,
    /// Number of bytes of the content.
    pub size: u64,
    /// Where it was fetched from.
    pub url: String,
    /// Where it lies below a repository's base.
    pub path: String,
}

/// The download section of an artifact record.
#[derive(Clone, Debug, PartialEq, Eq)]
pub struct Download {
    pub artifact: Artifact,
}

/// A library with the record of its fetched artifact.
#[derive(Clone, Debug, PartialEq, Eq)]
pub struct VanillaStyleLibrary {
    /// The coordinate, as written.
    pub name: String,
    pub downloads: Download,
}

/// The characters and numbers of a [`VanillaStyleLibrary`].
pub struct RecordText {
    pub name: Seq<char>,
    pub sha1: Seq<char>,
    pub size: u64,
    pub url: Seq<char>,
    pub path: Seq<char>,
}

impl View for FabricStyleLibrary {
    type V = ReferenceText;

    open spec fn view(&self) -> ReferenceText {
        ReferenceText {
            name: self.name@,
            url: match self.url {
                Some(u) => Some(u@),
                None => None,
            },
        }
    }
}

impl View for VanillaStyleLibrary {
    type V = RecordText;

    open spec fn view(&self) -> RecordText {
        RecordText {
            name: self.name@,
            sha1: self.downloads.artifact.sha1@,
            size: self.downloads.artifact.size,
            url: self.downloads.artifact.url@,
            path: self.downloads.artifact.path@,
        }
    }
}

/// What a list of references holds.
pub open spec fn references_view(libraries: Seq<FabricStyleLibrary>) -> Seq<ReferenceText> {
    Seq::new(libraries.len(), |i: int| libraries[i]@)
}

/// The group of a library name: what stands before its first `:`.
pub open spec fn name_group(name: Seq<char>) -> Seq<char> {
    split_first(name, ':').0
}

/// The artifact id of a library name: what stands between its first and its
/// second `:`, where it has a first.
pub open spec fn name_artifact(name: Seq<char>) -> Option<Seq<char>> {
    match split_first(name, ':').1 {
        Some(rest) => Some(split_first(rest, ':').0),
        None => None,
    }
}

/// Whether the distribution supplies this library itself: the bytecode
/// toolkit, by its group `org.ow2.asm`, and the mapping layer, by its artifact
/// id `intermediary`.
pub open spec fn is_excluded(name: Seq<char>) -> bool {
    name_group(name) == "org.ow2.asm"@ || name_artifact(name) == Some("intermediary"@)
}

/// The references that are not excluded, in their order.
pub open spec fn filter_excluded_spec(libraries: Seq<ReferenceText>) -> Seq<ReferenceText> {
    libraries.filter(|l: ReferenceText| !is_excluded(l.name))
}

/// The distribution's own library, served by a public mirror.
pub open spec fn pillow_library(pillow_ver: Seq<char>) -> ReferenceText {
    ReferenceText {
        name: "com.github.PillowMC:pillow:"@ + pillow_ver + "-fabric"@,
        url: Some("https://jitpack.io/"@),
    }
}

/// The bridge between the two mapping schemes. It is made at install time, so
/// no repository serves it.
pub open spec fn bridge_library(game_version: Seq<char>) -> ReferenceText {
    ReferenceText { name: "net.pillowmc:intermediary2srg:"@ + game_version, url: None }
}

/// The mapping layer of a game version.
pub open spec fn intermediary_library(game_version: Seq<char>) -> ReferenceText {
    ReferenceText {
        name: "net.fabricmc:intermediary:"@ + game_version + ":v2@jar"@,
        url: Some("https://maven.fabricmc.net/"@),
    }
}

/// The libraries a distribution adds: the loader's, without the excluded ones,
/// then the bridge where it is wanted, then the distribution's own.
pub open spec fn added_libraries(
    fetched: Seq<ReferenceText>,
    game_version: Seq<char>,
    pillow_ver: Seq<char>,
    i2s: bool,
) -> Seq<ReferenceText> {
    filter_excluded_spec(fetched) + if i2s {
        seq![bridge_library(game_version), pillow_library(pillow_ver)]
    } else {
        seq![pillow_library(pillow_ver)]
    }
}

/// Where the loader's metadata for a game version and a loader version is
/// served: the server's library set or the client profile's.
pub open spec fn metadata_url_spec(
    game_version: Seq<char>,
    loader_ver: Seq<char>,
    server: bool,
) -> Seq<char> {
    "https://meta.fabricmc.net/v2/versions/loader/"@ + game_version + "/"@ + loader_ver + "/"@
        + (if server {
        "server"@
    } else {
        "profile"@
    }) + "/json"@
}

/// A reference as a JSON object: its `name`, and its `url` where it has one.
pub open spec fn reference_json(l: ReferenceText) -> JsonValue {
    JsonValue::Object(
        match l.url {
            Some(u) => seq![("name"@, JsonValue::Text(l.name)), ("url"@, JsonValue::Text(u))],
            None => seq![("name"@, JsonValue::Text(l.name))],
        },
    )
}

/// An artifact record as a JSON object: its `name`, and under
/// `downloads.artifact` its `sha1`, `size`, `url` and `path`.
pub open spec fn record_json(r: RecordText) -> JsonValue {
    JsonValue::Object(
        seq![
            ("name"@, JsonValue::Text(r.name)),
            (
                "downloads"@,
                JsonValue::Object(
                    seq![
                        (
                            "artifact"@,
                            JsonValue::Object(
                                seq![
                                    ("sha1"@, JsonValue::Text(r.sha1)),
                                    ("size"@, JsonValue::Number(Number::PosInt(r.size))),
                                    ("url"@, JsonValue::Text(r.url)),
                                    ("path"@, JsonValue::Text(r.path)),
                                ],
                            ),
                        ),
                    ],
                ),
            ),
        ],
    )
}

/// One entry of a loader's `libraries` list: an object with a string `name`
/// and, unless it is absent or null, a string `url`.
pub open spec fn read_reference(value: JsonValue) -> Option<ReferenceText> {
    match value {
        JsonValue::Object(members) => match member(members, "name"@) {
            Some(JsonValue::Text(name)) => match member(members, "url"@) {
                None => Some(ReferenceText { name, url: None }),
                Some(JsonValue::Null) => Some(ReferenceText { name, url: None }),
                Some(JsonValue::Text(url)) => Some(ReferenceText { name, url: Some(url) }),
                Some(_) => None,
            },
            _ => None,
        },
        _ => None,
    }
}

/// Whether every item of a list reads as a reference.
pub open spec fn all_references(items: Seq<JsonValue>) -> bool {
    forall|i: int| 0 <= i < items.len() ==> (#[trigger] read_reference(items[i])) is Some
}

/// The references that a loader's metadata lists: the document is an object
/// whose `libraries` is an array of references.
pub open spec fn read_metadata(doc: JsonValue) -> Option<Seq<ReferenceText>> {
    match doc {
        JsonValue::Object(members) => match member(members, "libraries"@) {
            Some(JsonValue::Array(items)) => if all_references(items) {
                Some(Seq::new(items.len(), |i: int| read_reference(items[i])->0))
            } else {
                None
            },
            _ => None,
        },
        _ => None,
    }
}

impl FabricStyleLibrary {
    /// The repository-relative path of the library's artifact.
    pub fn get_path(&self) -> (path: String)
        requires
            parse_coordinate(self.name@) is Some,
        ensures
            path@ == coordinate_path(parse_coordinate(self.name@)->0),
    {
        match Coordinate::parse(self.name.as_str()) {
            Ok(c) => c.path(),
            Err(_) => String::new(),
        }
    }

    /// The path, or `MalformedCoordinate` where the name is no coordinate.
    pub fn try_path(&self) -> (r: Result<String, Error>)
        ensures
            match r {
                Ok(path) => parse_coordinate(self.name@) is Some && path@ == coordinate_path(
                    parse_coordinate(self.name@)->0,
                ),
                Err(e) => e == Error::MalformedCoordinate && parse_coordinate(self.name@) is None,
            },
    {
        match Coordinate::parse(self.name.as_str()) {
            Ok(c) => Ok(c.path()),
            Err(e) => Err(e),
        }
    }

    /// A copy of the reference.
    pub fn duplicate(&self) -> (r: FabricStyleLibrary)
        ensures
            r@ == self@,
    {
        FabricStyleLibrary {
            name: copy_text(&self.name),
            url: match &self.url {
                Some(u) => Some(copy_text(u)),
                None => None,
            },
        }
    }

    /// Whether the distribution supplies this library itself.
    pub fn is_excluded(&self) -> (r: bool)
        ensures
            r == is_excluded(self.name@),
    {
        let v = chars_of(self.name.as_str());
        let group_end = find_char(&v, ':');
        let group = string_of_range(&v, 0, group_end);
        assert(v@.subrange(0, v@.len() as int) == v@);
        if equal(group.as_str(), "org.ow2.asm") {
            return true;
        }
        if group_end == v.len() {
            return false;
        }
        let rest = slice_from(&v, group_end + 1);
        let artifact_end = find_char(&rest, ':');
        let artifact = string_of_range(&rest, 0, artifact_end);
        assert(rest@.subrange(0, rest@.len() as int) == rest@);
        equal(artifact.as_str(), "intermediary")
    }

    /// The reference as a JSON object.
    pub fn to_json(&self) -> (j: Json)
        ensures
            j@ == reference_json(self@),
    {
        let mut members: Vec<(String, Json)> = Vec::new();
        members.push(("name".to_string(), Json::Text(copy_text(&self.name))));
        match &self.url {
            Some(u) => {
                members.push(("url".to_string(), Json::Text(copy_text(u))));
            },
            None => {},
        }
        proof {
            lemma_object_view(members);
            assert(members_view(members@) =~= reference_json(self@)->Object_0);
        }
        Json::Object(members)
    }
}

impl VanillaStyleLibrary {
    /// The record as a JSON object.
    pub fn to_json(&self) -> (j: Json)
        ensures
            j@ == record_json(self@),
    {
        let a = &self.downloads.artifact;
        let mut artifact: Vec<(String, Json)> = Vec::new();
        artifact.push(("sha1".to_string(), Json::Text(copy_text(&a.sha1))));
        artifact.push(("size".to_string(), Json::Number(Number::PosInt(a.size))));
        artifact.push(("url".to_string(), Json::Text(copy_text(&a.url))));
        artifact.push(("path".to_string(), Json::Text(copy_text(&a.path))));
        proof {
            lemma_object_view(artifact);
        }
        let artifact = Json::Object(artifact);
        let mut downloads: Vec<(String, Json)> = Vec::new();
        downloads.push(("artifact".to_string(), artifact));
        proof {
            lemma_object_view(downloads);
        }
        let downloads = Json::Object(downloads);
        let mut members: Vec<(String, Json)> = Vec::new();
        members.push(("name".to_string(), Json::Text(copy_text(&self.name))));
        members.push(("downloads".to_string(), downloads));
        proof {
            lemma_object_view(members);
            let r = self@;
            assert(artifact@->Object_0 =~= seq![
                ("sha1"@, JsonValue::Text(r.sha1)),
                ("size"@, JsonValue::Number(Number::PosInt(r.size))),
                ("url"@, JsonValue::Text(r.url)),
                ("path"@, JsonValue::Text(r.path)),
            ]);
            assert(downloads@->Object_0 =~= seq![("artifact"@, artifact@)]);
            assert(members_view(members@) =~= seq![
                ("name"@, JsonValue::Text(r.name)),
                ("downloads"@, downloads@),
            ]);
        }
        Json::Object(members)
    }
}

/// Drops the references that the distribution supplies itself and keeps the
/// others in their order.
pub fn filter_excluded(libraries: Vec<FabricStyleLibrary>) -> (kept: Vec<FabricStyleLibrary>)
    ensures
        references_view(kept@) == filter_excluded_spec(references_view(libraries@)),
{
    let ghost keep = |l: ReferenceText| !is_excluded(l.name);
    let mut kept: Vec<FabricStyleLibrary> = Vec::new();
    let mut i: usize = 0;
    proof {
        reveal(Seq::filter);
    }
    while i < libraries.len()
        invariant
            i <= libraries.len(),
            keep == |l: ReferenceText| !is_excluded(l.name),
            references_view(kept@) == references_view(libraries@).take(i as int).filter(keep),
        decreases libraries.len() - i,
    {
        let ghost done = references_view(libraries@).take(i as int);
        let ghost before = references_view(kept@);
        if !libraries[i].is_excluded() {
            kept.push(libraries[i].duplicate());
        }
        proof {
            let l = libraries@[i as int]@;
            assert(references_view(libraries@).take(i + 1) =~= done.push(l));
            done.lemma_filter_push(l, keep);
            if keep(l) {
                assert(references_view(kept@) =~= before.push(l));
            }
        }
        i += 1;
    }
    assert(references_view(libraries@).take(libraries@.len() as int) =~= references_view(
        libraries@,
    ));
    kept
}

/// Picks the libraries that the distribution adds to a manifest: `fetched`
/// without the excluded ones, then the bridge where `i2s` asks for it, then
/// the distribution's own library.
pub fn get_added_librarys(
    fetched: Vec<FabricStyleLibrary>,
    game_version: &str,
    pillow_ver: &str,
    i2s: bool,
) -> (added: Vec<FabricStyleLibrary>)
    ensures
        references_view(added@) == added_libraries(
            references_view(fetched@),
            game_version@,
            pillow_ver@,
            i2s,
        ),
{
    let mut added = filter_excluded(fetched);
    let pillow = FabricStyleLibrary {
        name: concat3("com.github.PillowMC:pillow:", pillow_ver, "-fabric"),
        url: Some("https://jitpack.io/".to_string()),
    };
    if i2s {
        let bridge = FabricStyleLibrary {
            name: concat3("net.pillowmc:intermediary2srg:", game_version, ""),
            url: None,
        };
        proof {
            reveal_strlit("");
        }
        added.push(bridge);
        added.push(pillow);
    } else {
        added.push(pillow);
    }
    added
}

/// The reference to the mapping layer of a game version.
pub fn intermediary_reference(game_version: &str) -> (l: FabricStyleLibrary)
    ensures
        l@ == intermediary_library(game_version@),
{
    FabricStyleLibrary {
        name: concat3("net.fabricmc:intermediary:", game_version, ":v2@jar"),
        url: Some("https://maven.fabricmc.net/".to_string()),
    }
}

/// The address of the loader's metadata for a game version and a loader
/// version.
pub fn metadata_url(game_version: &str, loader_ver: &str, server: bool) -> (url: String)
    ensures
        url@ == metadata_url_spec(game_version@, loader_ver@, server),
{
    let mut url = String::new();
    url.append("https://meta.fabricmc.net/v2/versions/loader/");
    url.append(game_version);
    url.append("/");
    url.append(loader_ver);
    url.append("/");
    if server {
        url.append("server");
    } else {
        url.append("profile");
    }
    url.append("/json");
    url
}

/// Reads one entry of a loader's `libraries` list.
fn parse_reference(value: &Json) -> (r: Option<FabricStyleLibrary>)
    ensures
        match r {
            Some(l) => read_reference(value@) == Some(l@),
            None => read_reference(value@) is None,
        },
{
    match value {
        Json::Object(members) => {
            proof {
                lemma_object_view(*members);
            }
            let n = find_member(members, "name");
            if n == members.len() {
                return None;
            }
            let name = match &members[n].1 {
                Json::Text(name) => copy_text(name),
                _ => {
                    return None;
                },
            };
            let u = find_member(members, "url");
            if u == members.len() {
                return Some(FabricStyleLibrary { name, url: None });
            }
            match &members[u].1 {
                Json::Null => Some(FabricStyleLibrary { name, url: None }),
                Json::Text(url) => Some(FabricStyleLibrary { name, url: Some(copy_text(url)) }),
                _ => None,
            }
        },
        _ => None,
    }
}

/// Reads the references out of a loader's metadata document; fails with
/// `MalformedMetadata` unless the document is an object whose `libraries` is
/// an array of objects, each with a string `name` and at most a string `url`.
#[verifier::loop_isolation(false)]
pub fn parse_metadata(doc: &Json) -> (r: Result<Vec<FabricStyleLibrary>, Error>)
    ensures
        match r {
            Ok(libraries) => read_metadata(doc@) == Some(references_view(libraries@)),
            Err(e) => e == Error::MalformedMetadata && read_metadata(doc@) is None,
        },
{
    let members = match doc {
        Json::Object(members) => members,
        _ => {
            return Err(Error::MalformedMetadata);
        },
    };
    proof {
        lemma_object_view(*members);
    }
    let at = find_member(members, "libraries");
    if at == members.len() {
        return Err(Error::MalformedMetadata);
    }
    let items = match &members[at].1 {
        Json::Array(items) => items,
        _ => {
            return Err(Error::MalformedMetadata);
        },
    };
    proof {
        lemma_array_view(*items);
    }
    let mut libraries: Vec<FabricStyleLibrary> = Vec::new();
    let mut i: usize = 0;
    while i < items.len()
        invariant
            i <= items.len(),
            libraries.len() == i,
            forall|j: int|
                0 <= j < i ==> read_reference(#[trigger] items_view(items@)[j]) == Some(
                    libraries@[j]@,
                ),
        decreases items.len() - i,
    {
        match parse_reference(&items[i]) {
            Some(l) => {
                libraries.push(l);
            },
            None => {
                assert(read_reference(items_view(items@)[i as int]) is None);
                return Err(Error::MalformedMetadata);
            },
        }
        i += 1;
    }
    proof {
        let values = items_view(items@);
        assert(all_references(values)) by {
            assert forall|j: int| 0 <= j < values.len() implies (#[trigger] read_reference(
                values[j],
            )) is Some by {
                assert(read_reference(items_view(items@)[j]) == Some(libraries@[j]@));
            }
        }
    }
    Ok(libraries)
}

/// An entry that a manifest's `libraries` list can hold: a reference, for the
/// launcher to fetch, or the record of an artifact already fetched.
#[derive(Clone, Debug, PartialEq, Eq)]
pub enum LibraryEntry {
    Reference(FabricStyleLibrary),
    Artifact(VanillaStyleLibrary),
}

/// The characters and numbers of a [`LibraryEntry`].
pub enum EntryText {
    Reference(ReferenceText),
    Artifact(RecordText),
}

impl View for LibraryEntry {
    type V = EntryText;

    open spec fn view(&self) -> EntryText {
        match self {
            LibraryEntry::Reference(l) => EntryText::Reference(l@),
            LibraryEntry::Artifact(r) => EntryText::Artifact(r@),
        }
    }
}

/// What a list of entries holds.
pub open spec fn entries_view(entries: Seq<LibraryEntry>) -> Seq<EntryText> {
    Seq::new(entries.len(), |i: int| entries[i]@)
}

/// An entry as a JSON object.
pub open spec fn entry_json(e: EntryText) -> JsonValue {
    match e {
        EntryText::Reference(l) => reference_json(l),
        EntryText::Artifact(r) => record_json(r),
    }
}

/// The entries as JSON objects, in their order.
pub open spec fn entries_json(entries: Seq<EntryText>) -> Seq<JsonValue> {
    Seq::new(entries.len(), |i: int| entry_json(entries[i]))
}

/// `members` with `added` behind the items of its `libraries` array. It is
/// `TokenNotFound` to have no `libraries`, and `WrongType` to have one that
/// is no array.
pub open spec fn with_libraries(members: Members, added: Seq<JsonValue>) -> Result<
    Members,
    Error,
> {
    match member(members, "libraries"@) {
        None => Err(Error::TokenNotFound(Token::Member(Field::Libraries))),
        Some(JsonValue::Array(items)) => Ok(
            with_member(members, "libraries"@, JsonValue::Array(items + added)),
        ),
        Some(_) => Err(Error::WrongType(Field::Libraries)),
    }
}

impl LibraryEntry {
    /// The entry as a JSON object.
    pub fn to_json(&self) -> (j: Json)
        ensures
            j@ == entry_json(self@),
    {
        match self {
            LibraryEntry::Reference(l) => l.to_json(),
            LibraryEntry::Artifact(r) => r.to_json(),
        }
    }
}

/// The entries as JSON objects, in their order.
pub fn entries_to_json(entries: &Vec<LibraryEntry>) -> (items: Vec<Json>)
    ensures
        items_view(items@) == entries_json(entries_view(entries@)),
{
    let mut items: Vec<Json> = Vec::new();
    let mut i: usize = 0;
    while i < entries.len()
        invariant
            i <= entries.len(),
            items.len() == i,
            forall|j: int| 0 <= j < i ==> (#[trigger] items@[j])@ == entry_json(entries@[j]@),
        decreases entries.len() - i,
    {
        items.push(entries[i].to_json());
        i += 1;
    }
    items
}

/// Puts `added` behind the items of the `libraries` array. On an error the
/// members stay as they were.
pub fn extend_libraries(members: &mut Vec<(String, Json)>, added: Vec<Json>) -> (r: Result<
    (),
    Error,
>)
    ensures
        match with_libraries(members_view(old(members)@), items_view(added@)) {
            Ok(m) => r is Ok && members_view(final(members)@) == m,
            Err(e) => r == Err::<(), Error>(e) && final(members)@ == old(members)@,
        },
{
    let at = find_member(members, "libraries");
    if at == members.len() {
        return Err(Error::TokenNotFound(Token::Member(Field::Libraries)));
    }
    match &members[at].1 {
        Json::Array(items) => {
            proof {
                lemma_array_view(*items);
            }
        },
        _ => {
            return Err(Error::WrongType(Field::Libraries));
        },
    }
    let former = replace_value_at(members, at, Json::Null);
    let mut added = added;
    match former {
        Json::Array(mut items) => {
            let ghost before = items_view(items@);
            let ghost tail = items_view(added@);
            items.append(&mut added);
            proof {
                lemma_array_view(items);
                assert(items_view(items@) =~= before + tail);
            }
            let _ = replace_value_at(members, at, Json::Array(items));
            Ok(())
        },
        _ => Err(Error::WrongType(Field::Libraries)),
    }
}

/// Filtering takes out each excluded reference and nothing else, and keeps
/// the others in their order: around any one reference, what stood before it
/// is filtered and stays before it, and what stood behind it is filtered and
/// stays behind it.
pub proof fn lemma_filter_excluded_keeps_order(
    before: Seq<ReferenceText>,
    l: ReferenceText,
    after: Seq<ReferenceText>,
)
    ensures
        filter_excluded_spec(before + seq![l] + after) == filter_excluded_spec(before) + (
        if is_excluded(l.name) {
            Seq::<ReferenceText>::empty()
        } else {
            seq![l]
        }) + filter_excluded_spec(after),
{
    let keep = |l: ReferenceText| !is_excluded(l.name);
    Seq::filter_distributes_over_add(before + seq![l], after, keep);
    Seq::filter_distributes_over_add(before, seq![l], keep);
    Seq::<ReferenceText>::empty().lemma_filter_push(l, keep);
    reveal(Seq::filter);
}

/// None of the references that filtering keeps is excluded.
pub proof fn lemma_filter_excluded_drops_all(libraries: Seq<ReferenceText>, i: int)
    requires
        0 <= i < filter_excluded_spec(libraries).len(),
    ensures
        !is_excluded(filter_excluded_spec(libraries)[i].name),
{
    let keep = |l: ReferenceText| !is_excluded(l.name);
    libraries.lemma_filter_pred(keep, i);
}

} // verus!
