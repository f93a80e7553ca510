//! The edits made to the launcher's version document.
//!
//! The work falls in two parts, since the libraries to add depend on the game
//! version that the document names: [`begin_version_json`] rewrites the
//! arguments and the id and reads the game version; once the libraries for it
//! are at hand, [`finish_version_json`] adds them. [`create_version_json`] is
//! both in a row.

use vstd::prelude::*;
use crate::error::{Document, Error, Field, Token};
use crate::json::{
    find_member, lemma_member_index_is, lemma_member_with, lemma_object_view, make_text_array,
    member, members_view, read_string_list, set_member, string_list, text_array, with_member,
    Json, JsonValue, Members,
};
use crate::library::{
    added_libraries, entries_json, entries_to_json, entries_view, extend_libraries,
    get_added_librarys, metadata_url, metadata_url_spec, references_view, with_libraries,
    EntryText, FabricStyleLibrary, LibraryEntry,
};
use crate::text::{
    copy_text, find_prefix, find_text, index_of_prefix, index_of_text, lemma_index_of_prefix,
    lemma_index_of_text, lemma_index_of_text_none, strings_view,
};

verus! {

/// The two argument lists of a version document.
pub struct ArgumentsText {
    pub game: Seq<Seq<char>>,
    pub jvm: Seq<Seq<char>>,
}

/// The argument lists of an `arguments` member: an object whose `game` and
/// `jvm` are arrays of strings.
pub open spec fn read_arguments(value: JsonValue) -> Option<ArgumentsText> {
    match value {
        JsonValue::Object(members) => match (member(members, "game"@), member(members, "jvm"@)) {
            (Some(game), Some(jvm)) => match (string_list(game), string_list(jvm)) {
                (Some(game), Some(jvm)) => Some(ArgumentsText { game, jvm }),
                _ => None,
            },
            _ => None,
        },
        _ => None,
    }
}

/// The rewritten argument lists, with the loader's forge-family version.
///
/// The version is the game argument after `--fml.fmlVersion`. The game
/// argument after `--launchTarget` becomes `pillowclient`. The first JVM
/// argument that begins with `-DignoreList=` gets `,datafixerupper-` at its
/// end, and the first that is `-Djava.net.preferIPv6Addresses=system` leaves.
/// Each of the four has to be there, and so has the argument after each of
/// the two game tokens.
pub open spec fn patch_arguments(args: ArgumentsText) -> Result<(ArgumentsText, Seq<char>), Error> {
    let fml = index_of_text(args.game, "--fml.fmlVersion"@);
    let target = index_of_text(args.game, "--launchTarget"@);
    let ignore = index_of_prefix(args.jvm, "-DignoreList="@);
    let ipv6 = index_of_text(args.jvm, "-Djava.net.preferIPv6Addresses=system"@);
    if fml >= args.game.len() {
        Err(Error::TokenNotFound(Token::FmlVersion))
    } else if fml + 1 >= args.game.len() {
        Err(Error::TokenNotFound(Token::FmlVersionValue))
    } else if target >= args.game.len() {
        Err(Error::TokenNotFound(Token::LaunchTarget))
    } else if target + 1 >= args.game.len() {
        Err(Error::TokenNotFound(Token::LaunchTargetValue))
    } else if ignore >= args.jvm.len() {
        Err(Error::TokenNotFound(Token::IgnoreList))
    } else if ipv6 >= args.jvm.len() {
        Err(Error::TokenNotFound(Token::PreferIpv6))
    } else {
        Ok(
            (
                ArgumentsText {
                    game: args.game.update(target + 1, "pillowclient"@),
                    jvm: args.jvm.update(ignore, args.jvm[ignore] + ",datafixerupper-"@).remove(
                        ipv6,
                    ),
                },
                args.game[fml + 1],
            ),
        )
    }
}

/// The `arguments` member that holds these lists and nothing else.
pub open spec fn arguments_json(args: ArgumentsText) -> JsonValue {
    JsonValue::Object(seq![("game"@, text_array(args.game)), ("jvm"@, text_array(args.jvm))])
}

/// The id of the patched version.
pub open spec fn version_id(pillow_ver: Seq<char>, fml_ver: Seq<char>, quilt_ver: Seq<char>)
    -> Seq<char> {
    "pillow-"@ + pillow_ver + "+fml-"@ + fml_ver + "+quilt-loader-"@ + quilt_ver
}

/// A version document whose arguments and id are rewritten and whose
/// libraries are still to be added.
pub struct VersionDraft {
    /// The members of the document.
    pub members: Vec<(String, Json)>,
    /// The new id.
    pub id: String,
    /// The game version that the document inherits from.
    pub game_version: String,
}

/// What a [`VersionDraft`] holds.
pub struct VersionDraftText {
    pub members: Members,
    pub id: Seq<char>,
    pub game_version: Seq<char>,
}

impl View for VersionDraft {
    type V = VersionDraftText;

    open spec fn view(&self) -> VersionDraftText {
        VersionDraftText {
            members: members_view(self.members@),
            id: self.id@,
            game_version: self.game_version@,
        }
    }
}

impl VersionDraft {
    /// The address of the loader's metadata for the draft's game version:
    /// the client profile's library set.
    pub fn metadata_url(&self, loader_ver: &str) -> (url: String)
        ensures
            url@ == metadata_url_spec(self.game_version@, loader_ver@, false),
    {
        metadata_url(self.game_version.as_str(), loader_ver, false)
    }

    /// The libraries to add to the draft, out of those that the loader
    /// lists: with the bridge.
    pub fn libraries(&self, fetched: Vec<FabricStyleLibrary>, pillow_ver: &str) -> (added: Vec<
        FabricStyleLibrary,
    >)
        ensures
            references_view(added@) == added_libraries(
                references_view(fetched@),
                self.game_version@,
                pillow_ver@,
                true,
            ),
    {
        get_added_librarys(fetched, self.game_version.as_str(), pillow_ver, true)
    }
}

/// The first part of the work on a version document.
///
/// The document has to be an object with an `arguments` member that reads as
/// argument lists. Its `id` is set to the new id and its `arguments` to the
/// rewritten lists; every other member stays. Its `inheritsFrom` has to be a
/// string, which is the game version.
pub open spec fn begin_version_spec(doc: JsonValue, pillow_ver: Seq<char>, quilt_ver: Seq<char>)
    -> Result<VersionDraftText, Error> {
    match doc {
        JsonValue::Object(members) => match member(members, "arguments"@) {
            None => Err(Error::TokenNotFound(Token::Member(Field::Arguments))),
            Some(arguments) => match read_arguments(arguments) {
                None => Err(Error::WrongType(Field::Arguments)),
                Some(args) => match patch_arguments(args) {
                    Err(e) => Err(e),
                    Ok((args, fml_ver)) => {
                        let id = version_id(pillow_ver, fml_ver, quilt_ver);
                        let members = with_member(
                            with_member(members, "id"@, JsonValue::Text(id)),
                            "arguments"@,
                            arguments_json(args),
                        );
                        match member(members, "inheritsFrom"@) {
                            None => Err(Error::TokenNotFound(Token::Member(Field::InheritsFrom))),
                            Some(JsonValue::Text(game_version)) => Ok(
                                VersionDraftText { members, id, game_version },
                            ),
                            Some(_) => Err(Error::WrongType(Field::InheritsFrom)),
                        }
                    },
                },
            },
        },
        _ => Err(Error::NotAnObject(Document::VersionJson)),
    }
}

/// The second part: the entries go behind the items of `libraries`, and the
/// result is the document with its id.
pub open spec fn finish_version_spec(draft: VersionDraftText, added: Seq<EntryText>) -> Result<
    (JsonValue, Seq<char>),
    Error,
> {
    match with_libraries(draft.members, entries_json(added)) {
        Ok(members) => Ok((JsonValue::Object(members), draft.id)),
        Err(e) => Err(e),
    }
}

/// The whole work on a version document: the patched document and its id.
pub open spec fn create_version_json_spec(
    doc: JsonValue,
    pillow_ver: Seq<char>,
    quilt_ver: Seq<char>,
    added: Seq<EntryText>,
) -> Result<(JsonValue, Seq<char>), Error> {
    match begin_version_spec(doc, pillow_ver, quilt_ver) {
        Ok(draft) => finish_version_spec(draft, added),
        Err(e) => Err(e),
    }
}

/// Whether `r` is what `expected` says: the same error, or a document and an
/// id that hold the same.
pub open spec fn is_version_result(
    r: Result<(Json, String), Error>,
    expected: Result<(JsonValue, Seq<char>), Error>,
) -> bool {
    match (r, expected) {
        (Ok((doc, id)), Ok((doc_value, id_text))) => doc@ == doc_value && id@ == id_text,
        (Err(e), Err(expected)) => e == expected,
        _ => false,
    }
}

/// Reads the two argument lists out of an `arguments` member.
fn parse_arguments(value: &Json) -> (r: Option<(Vec<String>, Vec<String>)>)
    ensures
        match r {
            Some((game, jvm)) => read_arguments(value@) == Some(
                ArgumentsText { game: strings_view(game@), jvm: strings_view(jvm@) },
            ),
            None => read_arguments(value@) is None,
        },
{
    let members = match value {
        Json::Object(members) => members,
        _ => {
            return None;
        },
    };
    proof {
        lemma_object_view(*members);
    }
    let g = find_member(members, "game");
    let j = find_member(members, "jvm");
    if g == members.len() || j == members.len() {
        return None;
    }
    let game = match read_string_list(&members[g].1) {
        Some(game) => game,
        None => {
            return None;
        },
    };
    let jvm = match read_string_list(&members[j].1) {
        Some(jvm) => jvm,
        None => {
            return None;
        },
    };
    Some((game, jvm))
}

/// Rewrites the two argument lists in place and hands out the loader's
/// forge-family version.
fn rewrite_arguments(game: &mut Vec<String>, jvm: &mut Vec<String>) -> (r: Result<String, Error>)
    ensures
        match patch_arguments(
            ArgumentsText { game: strings_view(old(game)@), jvm: strings_view(old(jvm)@) },
        ) {
            Ok((args, fml_ver)) => r is Ok && r->Ok_0@ == fml_ver && strings_view(final(game)@)
                == args.game && strings_view(final(jvm)@) == args.jvm,
            Err(e) => r == Err::<String, Error>(e),
        },
{
    let fml = find_text(game, "--fml.fmlVersion");
    if fml == game.len() {
        return Err(Error::TokenNotFound(Token::FmlVersion));
    }
    if fml + 1 == game.len() {
        return Err(Error::TokenNotFound(Token::FmlVersionValue));
    }
    let target = find_text(game, "--launchTarget");
    if target == game.len() {
        return Err(Error::TokenNotFound(Token::LaunchTarget));
    }
    if target + 1 == game.len() {
        return Err(Error::TokenNotFound(Token::LaunchTargetValue));
    }
    let ignore = find_prefix(jvm, "-DignoreList=");
    if ignore == jvm.len() {
        return Err(Error::TokenNotFound(Token::IgnoreList));
    }
    let ipv6 = find_text(jvm, "-Djava.net.preferIPv6Addresses=system");
    if ipv6 == jvm.len() {
        return Err(Error::TokenNotFound(Token::PreferIpv6));
    }
    let fml_ver = copy_text(&game[fml + 1]);
    game.set(target + 1, "pillowclient".to_string());
    let mut ignore_list = copy_text(&jvm[ignore]);
    ignore_list.append(",datafixerupper-");
    jvm.set(ignore, ignore_list);
    jvm.remove(ipv6);
    Ok(fml_ver)
}

/// Makes the `arguments` member of the two lists.
fn make_arguments(game: Vec<String>, jvm: Vec<String>) -> (j: Json)
    ensures
        j@ == arguments_json(ArgumentsText { game: strings_view(game@), jvm: strings_view(jvm@) }),
{
    let mut members: Vec<(String, Json)> = Vec::new();
    members.push(("game".to_string(), make_text_array(game)));
    members.push(("jvm".to_string(), make_text_array(jvm)));
    proof {
        lemma_object_view(members);
        assert(members_view(members@) =~= seq![
            ("game"@, text_array(strings_view(game@))),
            ("jvm"@, text_array(strings_view(jvm@))),
        ]);
    }
    Json::Object(members)
}

/// Makes the id of the patched version.
fn make_version_id(pillow_ver: &str, fml_ver: &str, quilt_ver: &str) -> (id: String)
    ensures
        id@ == version_id(pillow_ver@, fml_ver@, quilt_ver@),
{
    let mut id = String::new();
    id.append("pillow-");
    id.append(pillow_ver);
    id.append("+fml-");
    id.append(fml_ver);
    id.append("+quilt-loader-");
    id.append(quilt_ver);
    id
}

/// Rewrites the arguments and the id of a version document and reads the
/// game version that it inherits from.
pub fn begin_version_json(doc: Json, pillow_ver: &str, quilt_ver: &str) -> (r: Result<
    VersionDraft,
    Error,
>)
    ensures
        match begin_version_spec(doc@, pillow_ver@, quilt_ver@) {
            Ok(draft) => r is Ok && r->Ok_0@ == draft,
            Err(e) => r == Err::<VersionDraft, Error>(e),
        },
{
    let mut members = match doc {
        Json::Object(members) => members,
        _ => {
            return Err(Error::NotAnObject(Document::VersionJson));
        },
    };
    proof {
        lemma_object_view(members);
    }
    let at = find_member(&members, "arguments");
    if at == members.len() {
        return Err(Error::TokenNotFound(Token::Member(Field::Arguments)));
    }
    let (mut game, mut jvm) = match parse_arguments(&members[at].1) {
        Some(lists) => lists,
        None => {
            return Err(Error::WrongType(Field::Arguments));
        },
    };
    let fml_ver = match rewrite_arguments(&mut game, &mut jvm) {
        Ok(fml_ver) => fml_ver,
        Err(e) => {
            return Err(e);
        },
    };
    let id = make_version_id(pillow_ver, fml_ver.as_str(), quilt_ver);
    set_member(&mut members, "id", Json::Text(copy_text(&id)));
    set_member(&mut members, "arguments", make_arguments(game, jvm));
    let at = find_member(&members, "inheritsFrom");
    if at == members.len() {
        return Err(Error::TokenNotFound(Token::Member(Field::InheritsFrom)));
    }
    let game_version = match &members[at].1 {
        Json::Text(game_version) => copy_text(game_version),
        _ => {
            return Err(Error::WrongType(Field::InheritsFrom));
        },
    };
    Ok(VersionDraft { members, id, game_version })
}

/// Adds the entries to the libraries of a draft and hands out the finished
/// document with its id.
pub fn finish_version_json(draft: VersionDraft, added: &Vec<LibraryEntry>) -> (r: Result<
    (Json, String),
    Error,
>)
    ensures
        is_version_result(r, finish_version_spec(draft@, entries_view(added@))),
{
    let mut members = draft.members;
    match extend_libraries(&mut members, entries_to_json(added)) {
        Ok(()) => {
            proof {
                lemma_object_view(members);
            }
            Ok((Json::Object(members), draft.id))
        },
        Err(e) => Err(e),
    }
}

/// Patches a version document: rewrites its arguments and id and adds the
/// entries to its libraries. Hands out the patched document and its id.
pub fn create_version_json(
    doc: Json,
    pillow_ver: &str,
    quilt_ver: &str,
    added: &Vec<LibraryEntry>,
) -> (r: Result<(Json, String), Error>)
    ensures
        is_version_result(
            r,
            create_version_json_spec(doc@, pillow_ver@, quilt_ver@, entries_view(added@)),
        ),
{
    match begin_version_json(doc, pillow_ver, quilt_ver) {
        Ok(draft) => finish_version_json(draft, added),
        Err(e) => Err(e),
    }
}

/// Two runs on documents, versions and entries that hold the same end alike:
/// with the same error, or with documents and ids that hold the same.
pub proof fn lemma_create_version_json_deterministic(
    doc_a: Json,
    doc_b: Json,
    pillow_ver: Seq<char>,
    quilt_ver: Seq<char>,
    added_a: Seq<LibraryEntry>,
    added_b: Seq<LibraryEntry>,
    r_a: Result<(Json, String), Error>,
    r_b: Result<(Json, String), Error>,
)
    requires
        doc_a@ == doc_b@,
        entries_view(added_a) == entries_view(added_b),
        is_version_result(
            r_a,
            create_version_json_spec(doc_a@, pillow_ver, quilt_ver, entries_view(added_a)),
        ),
        is_version_result(
            r_b,
            create_version_json_spec(doc_b@, pillow_ver, quilt_ver, entries_view(added_b)),
        ),
    ensures
        match (r_a, r_b) {
            (Ok((doc_a, id_a)), Ok((doc_b, id_b))) => doc_a@ == doc_b@ && id_a@ == id_b@,
            (Err(e_a), Err(e_b)) => e_a == e_b,
            _ => false,
        },
{
}

/// The strings of an array of strings are the strings it was made of.
pub proof fn lemma_string_list_of_text_array(list: Seq<Seq<char>>)
    ensures
        string_list(text_array(list)) == Some(list),
{
    assert(string_list(text_array(list))->0 =~= list);
}

/// The argument lists of an `arguments` member are the lists it was made of.
pub proof fn lemma_read_arguments_of_arguments_json(args: ArgumentsText)
    ensures
        read_arguments(arguments_json(args)) == Some(args),
{
    reveal_strlit("game");
    reveal_strlit("jvm");
    let members = arguments_json(args)->Object_0;
    assert(members[0].0 == "game"@ && members[1].0 == "jvm"@);
    lemma_member_index_is(members, "game"@, 0);
    lemma_member_index_is(members, "jvm"@, 1);
    lemma_string_list_of_text_array(args.game);
    lemma_string_list_of_text_array(args.jvm);
}

/// The JVM arguments that a version document holds, where it holds any.
pub open spec fn jvm_arguments_of(doc: JsonValue) -> Seq<Seq<char>> {
    match doc {
        JsonValue::Object(members) => match member(members, "arguments"@) {
            Some(arguments) => match read_arguments(arguments) {
                Some(args) => args.jvm,
                None => Seq::empty(),
            },
            None => Seq::empty(),
        },
        _ => Seq::empty(),
    }
}

/// Whether `token` stands at most once in `list`.
pub open spec fn at_most_once(list: Seq<Seq<char>>, token: Seq<char>) -> bool {
    forall|i: int, j: int|
        0 <= i < j < list.len() ==> !(#[trigger] list[i] == token && #[trigger] list[j] == token)
}

/// A patched version document cannot be patched again: where it named
/// `-Djava.net.preferIPv6Addresses=system` once among its JVM arguments, the
/// argument is gone, and a second run ends with `TokenNotFound`.
pub proof fn lemma_version_json_not_idempotent(
    doc: JsonValue,
    pillow_ver: Seq<char>,
    quilt_ver: Seq<char>,
    added: Seq<EntryText>,
    pillow_ver_again: Seq<char>,
    quilt_ver_again: Seq<char>,
    added_again: Seq<EntryText>,
)
    requires
        create_version_json_spec(doc, pillow_ver, quilt_ver, added) is Ok,
        at_most_once(jvm_arguments_of(doc), "-Djava.net.preferIPv6Addresses=system"@),
    ensures
        create_version_json_spec(
            create_version_json_spec(doc, pillow_ver, quilt_ver, added)->Ok_0.0,
            pillow_ver_again,
            quilt_ver_again,
            added_again,
        ) matches Err(Error::TokenNotFound(_)),
{
    let ipv6_text = "-Djava.net.preferIPv6Addresses=system"@;
    let members = doc->Object_0;
    let args = read_arguments(member(members, "arguments"@)->0)->0;
    let patched = patch_arguments(args)->Ok_0.0;
    let fml_ver = patch_arguments(args)->Ok_0.1;
    let id = version_id(pillow_ver, fml_ver, quilt_ver);
    let with_id = with_member(members, "id"@, JsonValue::Text(id));
    let with_arguments = with_member(with_id, "arguments"@, arguments_json(patched));
    let items = member(with_arguments, "libraries"@)->0->Array_0;

    // The second run finds the argument lists that the first one wrote.
    reveal_strlit("arguments");
    reveal_strlit("libraries");
    assert("arguments"@ != "libraries"@) by {
        assert("arguments"@[0] != "libraries"@[0]);
    }
    lemma_member_with(with_id, "arguments"@, arguments_json(patched), "arguments"@);
    lemma_member_with(
        with_arguments,
        "libraries"@,
        JsonValue::Array(items + entries_json(added)),
        "arguments"@,
    );
    lemma_read_arguments_of_arguments_json(patched);

    // None of the JVM arguments it wrote is the one that left.
    let ignore = index_of_prefix(args.jvm, "-DignoreList="@);
    let ipv6 = index_of_text(args.jvm, ipv6_text);
    lemma_index_of_prefix(args.jvm, "-DignoreList="@);
    lemma_index_of_text(args.jvm, ipv6_text);
    let appended = args.jvm[ignore] + ",datafixerupper-"@;
    assert(appended != ipv6_text) by {
        reveal_strlit("-DignoreList=");
        reveal_strlit("-Djava.net.preferIPv6Addresses=system");
        assert(args.jvm[ignore].subrange(0, "-DignoreList="@.len() as int)[2] == 'i');
        assert(ipv6_text[2] == 'j');
    }
    assert forall|k: int| 0 <= k < patched.jvm.len() implies #[trigger] patched.jvm[k]
        != ipv6_text by {
        let from = if k < ipv6 {
            k
        } else {
            k + 1
        };
        if from != ignore {
            if from < ipv6 {
                assert(!(args.jvm[from] == ipv6_text && args.jvm[ipv6] == ipv6_text));
            } else {
                assert(!(args.jvm[ipv6] == ipv6_text && args.jvm[from] == ipv6_text));
            }
        }
    }
    lemma_index_of_text_none(patched.jvm, ipv6_text);
}

/// Patching a version document changes no member but `id`, `arguments` and
/// `libraries`.
pub proof fn lemma_version_json_passes_through(
    doc: JsonValue,
    pillow_ver: Seq<char>,
    quilt_ver: Seq<char>,
    added: Seq<EntryText>,
    key: Seq<char>,
)
    requires
        create_version_json_spec(doc, pillow_ver, quilt_ver, added) is Ok,
        key != "id"@,
        key != "arguments"@,
        key != "libraries"@,
    ensures
        doc is Object,
        create_version_json_spec(doc, pillow_ver, quilt_ver, added)->Ok_0.0 is Object,
        member(
            create_version_json_spec(doc, pillow_ver, quilt_ver, added)->Ok_0.0->Object_0,
            key,
        ) == member(doc->Object_0, key),
{
    let members = doc->Object_0;
    let args = read_arguments(member(members, "arguments"@)->0)->0;
    let patched = patch_arguments(args)->Ok_0.0;
    let id = JsonValue::Text(version_id(pillow_ver, patch_arguments(args)->Ok_0.1, quilt_ver));
    let with_id = with_member(members, "id"@, id);
    let with_arguments = with_member(with_id, "arguments"@, arguments_json(patched));
    let items = member(with_arguments, "libraries"@)->0->Array_0;
    let libraries = JsonValue::Array(items + entries_json(added));
    lemma_member_with(members, "id"@, id, key);
    lemma_member_with(with_id, "arguments"@, arguments_json(patched), key);
    lemma_member_with(with_arguments, "libraries"@, libraries, key);
}

} // verus!
