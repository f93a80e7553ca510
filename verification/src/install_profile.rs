//! The edits made to the installer's profile document.
//!
//! As with the version document the work falls in two parts around the
//! fetching of libraries: [`begin_install_profile`] sets the header members,
//! drops the binary patch data, adds the two libraries of the mapping tools
//! and reads the game version; [`finish_install_profile`] adds the fetched
//! libraries and replaces the binary patcher by the steps that make the
//! distribution's mappings.

use vstd::prelude::*;
use crate::error::{Document, Error, Field, Token};
use crate::json::{
    find_member, items_view, lemma_array_view, lemma_member_index_is, lemma_member_with,
    lemma_member_without, lemma_object_view, make_text_array, member, members_view,
    remove_member, replace_value_at, set_member, text_array, with_member, without_member, Json,
    JsonValue, Members,
};
use crate::library::{
    added_libraries, entries_json, entries_to_json, entries_view, extend_libraries,
    get_added_librarys, intermediary_library, intermediary_reference, metadata_url,
    metadata_url_spec, record_json, references_view, with_libraries, Artifact, Download,
    EntryText, FabricStyleLibrary, LibraryEntry, RecordText, ReferenceText, VanillaStyleLibrary,
};
use crate::text::{
    concat3, copy_text, first_true, lemma_first_true, lemma_first_true_is, starts_with,
    strings_view,
};

verus! {

/// One step that the installer runs after it has fetched the libraries.
#[derive(Clone, Debug, PartialEq, Eq)]
pub struct ProcessorStep {
    /// Coordinate of the tool to run.
    pub jar: String,
    /// Coordinates of the libraries on the tool's class path.
    pub classpath: Vec<String>,
    /// Arguments handed to the tool.
    pub args: Vec<String>,
}

/// The characters of a [`ProcessorStep`].
pub struct StepText {
    pub jar: Seq<char>,
    pub classpath: Seq<Seq<char>>,
    pub args: Seq<Seq<char>>,
}

impl View for ProcessorStep {
    type V = StepText;

    open spec fn view(&self) -> StepText {
        StepText {
            jar: self.jar@,
            classpath: strings_view(self.classpath@),
            args: strings_view(self.args@),
        }
    }
}

/// A step as a JSON object.
pub open spec fn step_json(step: StepText) -> JsonValue {
    JsonValue::Object(
        seq![
            ("jar"@, JsonValue::Text(step.jar)),
            ("classpath"@, text_array(step.classpath)),
            ("args"@, text_array(step.args)),
        ],
    )
}

/// The record of the mapping reader that the mapping generator runs on.
pub open spec fn mapping_io_record() -> RecordText {
    RecordText {
        name: "net.fabricmc:mapping-io:0.5.1@jar"@,
        sha1: "bc93c07f23c01aa65ef9bd42e4d33d1c361ca122"@,
        size: 158891,
        url: "https://maven.fabricmc.net/net/fabricmc/mapping-io/0.5.1/mapping-io-0.5.1.jar"@,
        path: "net/fabricmc/mapping-io/0.5.1/mapping-io-0.5.1.jar"@,
    }
}

/// The record of the mapping generator.
pub open spec fn mappinggen_record() -> RecordText {
    RecordText {
        name: "net.pillowmc:mappinggen:0.1.1@jar"@,
        sha1: "6c926290d502d9f681fcf905e871f6b6fbb3bd78"@,
        size: 1694,
        url: "https://codeberg.org/PillowMC/mappinggen/releases/download/0.1.1/mappinggen-0.1.1.jar"@,
        path: "net/pillowmc/mappinggen/0.1.1/mappinggen-0.1.1.jar"@,
    }
}

/// The class path of the general install tool.
pub open spec fn installertools_classpath() -> Seq<Seq<char>> {
    seq![
        "org.ow2.asm:asm:9.3@jar"@,
        "net.md-5:SpecialSource:1.11.0@jar"@,
        "net.sf.jopt-simple:jopt-simple:5.0.4@jar"@,
        "net.neoforged.installertools:installertools:2.1.2@jar"@,
        "com.google.code.gson:gson:2.8.9@jar"@,
        "org.ow2.asm:asm-tree:9.3@jar"@,
        "com.opencsv:opencsv:4.4@jar"@,
        "net.neoforged:srgutils:1.0.0@jar"@,
        "org.apache.commons:commons-text:1.3@jar"@,
        "de.siegmar:fastcsv:2.0.0@jar"@,
        "org.apache.commons:commons-lang3:3.8.1@jar"@,
        "org.apache.commons:commons-collections4:4.2@jar"@,
        "org.ow2.asm:asm-commons:9.3@jar"@,
        "net.neoforged.installertools:cli-utils:2.1.2@jar"@,
        "com.google.guava:guava:20.0@jar"@,
        "commons-beanutils:commons-beanutils:1.9.3@jar"@,
        "org.ow2.asm:asm-analysis:9.3@jar"@,
        "commons-collections:commons-collections:3.2.2@jar"@,
        "commons-logging:commons-logging:1.2@jar"@,
    ]
}

/// The installer's name for the mapping layer's jar.
pub open spec fn intermediary_jar(game_version: Seq<char>) -> Seq<char> {
    "[net.fabricmc:intermediary:"@ + game_version + ":v2@jar]"@
}

/// The installer's name for the mapping file taken out of that jar.
pub open spec fn intermediary_tiny(game_version: Seq<char>) -> Seq<char> {
    "[net.fabricmc:intermediary:"@ + game_version + ":v2@tiny]"@
}

/// The installer's name for the bridge that the mapping generator writes.
pub open spec fn bridge_jar(game_version: Seq<char>) -> Seq<char> {
    "[net.pillowmc:intermediary2srg:"@ + game_version + "@jar]"@
}

/// The step that takes the mapping file out of the mapping layer's jar.
pub open spec fn extract_step(game_version: Seq<char>) -> StepText {
    StepText {
        jar: "net.neoforged.installertools:installertools:2.1.2"@,
        classpath: installertools_classpath(),
        args: seq![
            "--task"@,
            "EXTRACT_FILES"@,
            "--archive"@,
            intermediary_jar(game_version),
            "--from"@,
            "mappings/mappings.tiny"@,
            "--to"@,
            intermediary_tiny(game_version),
        ],
    }
}

/// The step that makes the directories for the bridge.
pub open spec fn parents_step(game_version: Seq<char>) -> StepText {
    StepText {
        jar: "net.neoforged.installertools:installertools:2.1.2"@,
        classpath: installertools_classpath(),
        args: seq!["--task"@, "CREATE_PARENTS"@, "--target"@, bridge_jar(game_version)],
    }
}

/// The step that generates the bridge out of the official mappings, which the
/// installer supplies, and the mapping file.
pub open spec fn mappinggen_step(game_version: Seq<char>) -> StepText {
    StepText {
        jar: "net.pillowmc:mappinggen:0.1.1"@,
        classpath: seq![
            "net.fabricmc:mapping-io:0.5.1@jar"@,
            "net.pillowmc:mappinggen:0.1.1@jar"@,
        ],
        args: seq!["{MOJMAPS}"@, intermediary_tiny(game_version), bridge_jar(game_version)],
    }
}

/// The three steps that take the binary patcher's place.
pub open spec fn new_processors(game_version: Seq<char>) -> Seq<JsonValue> {
    seq![
        step_json(extract_step(game_version)),
        step_json(parents_step(game_version)),
        step_json(mappinggen_step(game_version)),
    ]
}

/// The tool of a step: the string `jar` of an object.
pub open spec fn jar_of(step: JsonValue) -> Option<Seq<char>> {
    match step {
        JsonValue::Object(members) => match member(members, "jar"@) {
            Some(JsonValue::Text(jar)) => Some(jar),
            _ => None,
        },
        _ => None,
    }
}

/// Whether a step runs the binary patcher: its tool's coordinate begins with
/// the patcher's group and artifact.
pub open spec fn is_binary_patcher(step: JsonValue) -> bool {
    match jar_of(step) {
        Some(jar) => "net.neoforged.installertools:binarypatcher"@.is_prefix_of(jar),
        None => false,
    }
}

/// For each step, whether it runs the binary patcher.
pub open spec fn patcher_flags(steps: Seq<JsonValue>) -> Seq<bool> {
    Seq::new(steps.len(), |i: int| is_binary_patcher(steps[i]))
}

/// Index of the first step that runs the binary patcher, or `steps.len()`.
pub open spec fn binary_patcher_index(steps: Seq<JsonValue>) -> int {
    first_true(patcher_flags(steps))
}

/// The steps without the first that runs the binary patcher, and with the
/// three new steps at the end.
pub open spec fn patch_processors(steps: Seq<JsonValue>, game_version: Seq<char>) -> Result<
    Seq<JsonValue>,
    Error,
> {
    let i = binary_patcher_index(steps);
    if i >= steps.len() {
        Err(Error::TokenNotFound(Token::BinaryPatcher))
    } else {
        Ok(steps.remove(i) + new_processors(game_version))
    }
}

/// `members` with its `processors` patched. It is `TokenNotFound` to have no
/// `processors`, and `WrongType` to have one that is no array.
pub open spec fn with_processors(members: Members, game_version: Seq<char>) -> Result<
    Members,
    Error,
> {
    match member(members, "processors"@) {
        None => Err(Error::TokenNotFound(Token::Member(Field::Processors))),
        Some(JsonValue::Array(steps)) => match patch_processors(steps, game_version) {
            Ok(steps) => Ok(with_member(members, "processors"@, JsonValue::Array(steps))),
            Err(e) => Err(e),
        },
        Some(_) => Err(Error::WrongType(Field::Processors)),
    }
}

/// `members` with the header of the distribution: `profile`, `icon`,
/// `welcome` and `version` set, and `mirrorList` gone.
pub open spec fn with_header(members: Members, version_id: Seq<char>, icon: Seq<char>) -> Members {
    let members = with_member(members, "profile"@, JsonValue::Text("Pillow"@));
    let members = with_member(members, "icon"@, JsonValue::Text(icon));
    let members = with_member(
        members,
        "welcome"@,
        JsonValue::Text("Welcome to the simple Pillow installer"@),
    );
    let members = with_member(members, "version"@, JsonValue::Text(version_id));
    without_member(members, "mirrorList"@)
}

/// `members` with `BINPATCH` gone from its `data`. It is `TokenNotFound` to
/// have no `data`, and `WrongType` to have one that is no object.
pub open spec fn without_binpatch(members: Members) -> Result<Members, Error> {
    match member(members, "data"@) {
        None => Err(Error::TokenNotFound(Token::Member(Field::Data))),
        Some(JsonValue::Object(data)) => Ok(
            with_member(members, "data"@, JsonValue::Object(without_member(data, "BINPATCH"@))),
        ),
        Some(_) => Err(Error::WrongType(Field::Data)),
    }
}

/// An install profile whose header and data are rewritten and whose fetched
/// libraries and processors are still to come.
pub struct ProfileDraft {
    /// The members of the document.
    pub members: Vec<(String, Json)>,
    /// The game version that the profile installs for.
    pub game_version: String,
}

/// What a [`ProfileDraft`] holds.
pub struct ProfileDraftText {
    pub members: Members,
    pub game_version: Seq<char>,
}

impl View for ProfileDraft {
    type V = ProfileDraftText;

    open spec fn view(&self) -> ProfileDraftText {
        ProfileDraftText {
            members: members_view(self.members@),
            game_version: self.game_version@,
        }
    }
}

/// The libraries to add to an install profile: those that the distribution
/// adds, without the bridge, and the mapping layer that the bridge is made of.
pub open spec fn profile_libraries(
    fetched: Seq<ReferenceText>,
    game_version: Seq<char>,
    pillow_ver: Seq<char>,
) -> Seq<ReferenceText> {
    added_libraries(fetched, game_version, pillow_ver, false).push(
        intermediary_library(game_version),
    )
}

impl ProfileDraft {
    /// The address of the loader's metadata for the draft's game version:
    /// the client profile's library set.
    pub fn metadata_url(&self, loader_ver: &str) -> (url: String)
        ensures
            url@ == metadata_url_spec(self.game_version@, loader_ver@, false),
    {
        metadata_url(self.game_version.as_str(), loader_ver, false)
    }

    /// The libraries to add to the draft, out of those that the loader
    /// lists.
    pub fn libraries(&self, fetched: Vec<FabricStyleLibrary>, pillow_ver: &str) -> (added: Vec<
        FabricStyleLibrary,
    >)
        ensures
            references_view(added@) == profile_libraries(
                references_view(fetched@),
                self.game_version@,
                pillow_ver@,
            ),
    {
        let mut added = get_added_librarys(fetched, self.game_version.as_str(), pillow_ver, false);
        added.push(intermediary_reference(self.game_version.as_str()));
        added
    }
}

/// The first part of the work on an install profile.
///
/// The document has to be an object. It gets the header, loses the binary
/// patch data, and gets the records of the two mapping tools at the end of
/// its `libraries`. Its `minecraft` has to be a string, which is the game
/// version.
pub open spec fn begin_install_profile_spec(
    doc: JsonValue,
    version_id: Seq<char>,
    icon: Seq<char>,
) -> Result<ProfileDraftText, Error> {
    match doc {
        JsonValue::Object(members) => match without_binpatch(
            with_header(members, version_id, icon),
        ) {
            Err(e) => Err(e),
            Ok(members) => match member(members, "minecraft"@) {
                None => Err(Error::TokenNotFound(Token::Member(Field::Minecraft))),
                Some(JsonValue::Text(game_version)) => match with_libraries(
                    members,
                    seq![record_json(mapping_io_record()), record_json(mappinggen_record())],
                ) {
                    Ok(members) => Ok(ProfileDraftText { members, game_version }),
                    Err(e) => Err(e),
                },
                Some(_) => Err(Error::WrongType(Field::Minecraft)),
            },
        },
        _ => Err(Error::NotAnObject(Document::InstallProfile)),
    }
}

/// The second part: the entries go behind the items of `libraries`, and the
/// processors are patched.
pub open spec fn finish_install_profile_spec(draft: ProfileDraftText, added: Seq<EntryText>)
    -> Result<JsonValue, Error> {
    match with_libraries(draft.members, entries_json(added)) {
        Err(e) => Err(e),
        Ok(members) => match with_processors(members, draft.game_version) {
            Ok(members) => Ok(JsonValue::Object(members)),
            Err(e) => Err(e),
        },
    }
}

/// The whole work on an install profile.
pub open spec fn create_install_profile_spec(
    doc: JsonValue,
    version_id: Seq<char>,
    icon: Seq<char>,
    added: Seq<EntryText>,
) -> Result<JsonValue, Error> {
    match begin_install_profile_spec(doc, version_id, icon) {
        Ok(draft) => finish_install_profile_spec(draft, added),
        Err(e) => Err(e),
    }
}

/// Whether `r` is what `expected` says: the same error, or a document that
/// holds the same.
pub open spec fn is_profile_result(r: Result<Json, Error>, expected: Result<JsonValue, Error>)
    -> bool {
    match (r, expected) {
        (Ok(doc), Ok(doc_value)) => doc@ == doc_value,
        (Err(e), Err(expected)) => e == expected,
        _ => false,
    }
}

impl ProcessorStep {
    /// The step as a JSON object.
    pub fn to_json(&self) -> (j: Json)
        ensures
            j@ == step_json(self@),
    {
        let mut members: Vec<(String, Json)> = Vec::new();
        members.push(("jar".to_string(), Json::Text(copy_text(&self.jar))));
        members.push(("classpath".to_string(), make_text_array(copy_list(&self.classpath))));
        members.push(("args".to_string(), make_text_array(copy_list(&self.args))));
        proof {
            lemma_object_view(members);
            assert(members_view(members@) =~= step_json(self@)->Object_0);
        }
        Json::Object(members)
    }
}

/// A list of strings with each string copied.
fn copy_list(list: &Vec<String>) -> (r: Vec<String>)
    ensures
        strings_view(r@) == strings_view(list@),
{
    let mut r: Vec<String> = Vec::new();
    let mut i: usize = 0;
    while i < list.len()
        invariant
            i <= list.len(),
            r.len() == i,
            forall|j: int| 0 <= j < i ==> (#[trigger] r@[j])@ == list@[j]@,
        decreases list.len() - i,
    {
        r.push(copy_text(&list[i]));
        i += 1;
    }
    r
}

/// The record of the mapping reader.
pub fn mapping_io() -> (record: VanillaStyleLibrary)
    ensures
        record@ == mapping_io_record(),
{
    VanillaStyleLibrary {
        name: "net.fabricmc:mapping-io:0.5.1@jar".to_string(),
        downloads: Download {
            artifact: Artifact {
                sha1: "bc93c07f23c01aa65ef9bd42e4d33d1c361ca122".to_string(),
                size: 158891,
                url: "https://maven.fabricmc.net/net/fabricmc/mapping-io/0.5.1/mapping-io-0.5.1.jar".to_string(),
                path: "net/fabricmc/mapping-io/0.5.1/mapping-io-0.5.1.jar".to_string(),
            },
        },
    }
}

/// The record of the mapping generator.
pub fn mappinggen() -> (record: VanillaStyleLibrary)
    ensures
        record@ == mappinggen_record(),
{
    VanillaStyleLibrary {
        name: "net.pillowmc:mappinggen:0.1.1@jar".to_string(),
        downloads: Download {
            artifact: Artifact {
                sha1: "6c926290d502d9f681fcf905e871f6b6fbb3bd78".to_string(),
                size: 1694,
                url: "https://codeberg.org/PillowMC/mappinggen/releases/download/0.1.1/mappinggen-0.1.1.jar".to_string(),
                path: "net/pillowmc/mappinggen/0.1.1/mappinggen-0.1.1.jar".to_string(),
            },
        },
    }
}

/// The class path of the general install tool.
fn make_installertools_classpath() -> (list: Vec<String>)
    ensures
        strings_view(list@) == installertools_classpath(),
{
    let mut list: Vec<String> = Vec::new();
    list.push("org.ow2.asm:asm:9.3@jar".to_string());
    list.push("net.md-5:SpecialSource:1.11.0@jar".to_string());
    list.push("net.sf.jopt-simple:jopt-simple:5.0.4@jar".to_string());
    list.push("net.neoforged.installertools:installertools:2.1.2@jar".to_string());
    list.push("com.google.code.gson:gson:2.8.9@jar".to_string());
    list.push("org.ow2.asm:asm-tree:9.3@jar".to_string());
    list.push("com.opencsv:opencsv:4.4@jar".to_string());
    list.push("net.neoforged:srgutils:1.0.0@jar".to_string());
    list.push("org.apache.commons:commons-text:1.3@jar".to_string());
    list.push("de.siegmar:fastcsv:2.0.0@jar".to_string());
    list.push("org.apache.commons:commons-lang3:3.8.1@jar".to_string());
    list.push("org.apache.commons:commons-collections4:4.2@jar".to_string());
    list.push("org.ow2.asm:asm-commons:9.3@jar".to_string());
    list.push("net.neoforged.installertools:cli-utils:2.1.2@jar".to_string());
    list.push("com.google.guava:guava:20.0@jar".to_string());
    list.push("commons-beanutils:commons-beanutils:1.9.3@jar".to_string());
    list.push("org.ow2.asm:asm-analysis:9.3@jar".to_string());
    list.push("commons-collections:commons-collections:3.2.2@jar".to_string());
    list.push("commons-logging:commons-logging:1.2@jar".to_string());
    list
}

/// The step that takes the mapping file out of the mapping layer's jar.
pub fn make_extract_step(game_version: &str) -> (step: ProcessorStep)
    ensures
        step@ == extract_step(game_version@),
{
    let mut args: Vec<String> = Vec::new();
    args.push("--task".to_string());
    args.push("EXTRACT_FILES".to_string());
    args.push("--archive".to_string());
    args.push(concat3("[net.fabricmc:intermediary:", game_version, ":v2@jar]"));
    args.push("--from".to_string());
    args.push("mappings/mappings.tiny".to_string());
    args.push("--to".to_string());
    args.push(concat3("[net.fabricmc:intermediary:", game_version, ":v2@tiny]"));
    assert(strings_view(args@) =~= extract_step(game_version@).args);
    ProcessorStep {
        jar: "net.neoforged.installertools:installertools:2.1.2".to_string(),
        classpath: make_installertools_classpath(),
        args,
    }
}

/// The step that makes the directories for the bridge.
pub fn make_parents_step(game_version: &str) -> (step: ProcessorStep)
    ensures
        step@ == parents_step(game_version@),
{
    let mut args: Vec<String> = Vec::new();
    args.push("--task".to_string());
    args.push("CREATE_PARENTS".to_string());
    args.push("--target".to_string());
    args.push(concat3("[net.pillowmc:intermediary2srg:", game_version, "@jar]"));
    assert(strings_view(args@) =~= parents_step(game_version@).args);
    ProcessorStep {
        jar: "net.neoforged.installertools:installertools:2.1.2".to_string(),
        classpath: make_installertools_classpath(),
        args,
    }
}

/// The step that generates the bridge.
pub fn make_mappinggen_step(game_version: &str) -> (step: ProcessorStep)
    ensures
        step@ == mappinggen_step(game_version@),
{
    let mut classpath: Vec<String> = Vec::new();
    classpath.push("net.fabricmc:mapping-io:0.5.1@jar".to_string());
    classpath.push("net.pillowmc:mappinggen:0.1.1@jar".to_string());
    assert(strings_view(classpath@) =~= mappinggen_step(game_version@).classpath);
    let mut args: Vec<String> = Vec::new();
    args.push("{MOJMAPS}".to_string());
    args.push(concat3("[net.fabricmc:intermediary:", game_version, ":v2@tiny]"));
    args.push(concat3("[net.pillowmc:intermediary2srg:", game_version, "@jar]"));
    assert(strings_view(args@) =~= mappinggen_step(game_version@).args);
    ProcessorStep { jar: "net.pillowmc:mappinggen:0.1.1".to_string(), classpath, args }
}

/// Whether a step runs the binary patcher.
fn runs_binary_patcher(step: &Json) -> (r: bool)
    ensures
        r == is_binary_patcher(step@),
{
    match step {
        Json::Object(members) => {
            proof {
                lemma_object_view(*members);
            }
            let at = find_member(members, "jar");
            if at == members.len() {
                return false;
            }
            match &members[at].1 {
                Json::Text(jar) => starts_with(
                    jar.as_str(),
                    "net.neoforged.installertools:binarypatcher",
                ),
                _ => false,
            }
        },
        _ => false,
    }
}

/// Takes out the first step that runs the binary patcher and puts the three
/// new steps at the end.
fn rewrite_processors(steps: &mut Vec<Json>, game_version: &str) -> (r: Result<(), Error>)
    ensures
        match patch_processors(items_view(old(steps)@), game_version@) {
            Ok(patched) => r is Ok && items_view(final(steps)@) == patched,
            Err(e) => r == Err::<(), Error>(e) && final(steps)@ == old(steps)@,
        },
{
    let mut i: usize = 0;
    while i < steps.len() && !runs_binary_patcher(&steps[i])
        invariant
            i <= steps.len(),
            forall|j: int| 0 <= j < i ==> !is_binary_patcher(steps@[j]@),
        decreases steps.len() - i,
    {
        i += 1;
    }
    proof {
        lemma_first_true_is(patcher_flags(items_view(steps@)), i as int);
    }
    if i == steps.len() {
        return Err(Error::TokenNotFound(Token::BinaryPatcher));
    }
    steps.remove(i);
    steps.push(make_extract_step(game_version).to_json());
    steps.push(make_parents_step(game_version).to_json());
    steps.push(make_mappinggen_step(game_version).to_json());
    Ok(())
}

/// Sets the header, drops the binary patch data, adds the records of the two
/// mapping tools and reads the game version.
pub fn begin_install_profile(doc: Json, version_id: &str, icon: &str) -> (r: Result<
    ProfileDraft,
    Error,
>)
    ensures
        match begin_install_profile_spec(doc@, version_id@, icon@) {
            Ok(draft) => r is Ok && r->Ok_0@ == draft,
            Err(e) => r == Err::<ProfileDraft, Error>(e),
        },
{
    let mut members = match doc {
        Json::Object(members) => members,
        _ => {
            return Err(Error::NotAnObject(Document::InstallProfile));
        },
    };
    proof {
        lemma_object_view(members);
    }
    set_member(&mut members, "profile", Json::Text("Pillow".to_string()));
    set_member(&mut members, "icon", Json::Text(icon.to_string()));
    set_member(
        &mut members,
        "welcome",
        Json::Text("Welcome to the simple Pillow installer".to_string()),
    );
    set_member(&mut members, "version", Json::Text(version_id.to_string()));
    remove_member(&mut members, "mirrorList");
    let ghost headed = members_view(members@);

    let at = find_member(&members, "data");
    if at == members.len() {
        return Err(Error::TokenNotFound(Token::Member(Field::Data)));
    }
    match &members[at].1 {
        Json::Object(data) => {
            proof {
                lemma_object_view(*data);
            }
        },
        _ => {
            return Err(Error::WrongType(Field::Data));
        },
    }
    let former = replace_value_at(&mut members, at, Json::Null);
    match former {
        Json::Object(mut data) => {
            remove_member(&mut data, "BINPATCH");
            proof {
                lemma_object_view(data);
            }
            let _ = replace_value_at(&mut members, at, Json::Object(data));
        },
        _ => {},
    }
    assert(members_view(members@) =~= without_binpatch(headed)->Ok_0);

    let at = find_member(&members, "minecraft");
    if at == members.len() {
        return Err(Error::TokenNotFound(Token::Member(Field::Minecraft)));
    }
    let game_version = match &members[at].1 {
        Json::Text(game_version) => copy_text(game_version),
        _ => {
            return Err(Error::WrongType(Field::Minecraft));
        },
    };
    let mut tools: Vec<Json> = Vec::new();
    tools.push(mapping_io().to_json());
    tools.push(mappinggen().to_json());
    assert(items_view(tools@) =~= seq![
        record_json(mapping_io_record()),
        record_json(mappinggen_record()),
    ]);
    match extend_libraries(&mut members, tools) {
        Ok(()) => Ok(ProfileDraft { members, game_version }),
        Err(e) => Err(e),
    }
}

/// Adds the entries to the libraries of a draft and patches its processors.
pub fn finish_install_profile(draft: ProfileDraft, added: &Vec<LibraryEntry>) -> (r: Result<
    Json,
    Error,
>)
    ensures
        is_profile_result(r, finish_install_profile_spec(draft@, entries_view(added@))),
{
    let mut members = draft.members;
    match extend_libraries(&mut members, entries_to_json(added)) {
        Ok(()) => {},
        Err(e) => {
            return Err(e);
        },
    }
    let ghost extended = members_view(members@);
    let at = find_member(&members, "processors");
    if at == members.len() {
        return Err(Error::TokenNotFound(Token::Member(Field::Processors)));
    }
    match &members[at].1 {
        Json::Array(steps) => {
            proof {
                lemma_array_view(*steps);
            }
        },
        _ => {
            return Err(Error::WrongType(Field::Processors));
        },
    }
    let former = replace_value_at(&mut members, at, Json::Null);
    match former {
        Json::Array(mut steps) => {
            match rewrite_processors(&mut steps, draft.game_version.as_str()) {
                Ok(()) => {},
                Err(e) => {
                    return Err(e);
                },
            }
            proof {
                lemma_array_view(steps);
            }
            let _ = replace_value_at(&mut members, at, Json::Array(steps));
        },
        _ => {},
    }
    proof {
        assert(members_view(members@) =~= with_processors(extended, draft.game_version@)->Ok_0);
        lemma_object_view(members);
    }
    Ok(Json::Object(members))
}

/// Patches an install profile: sets its header, drops the binary patch data,
/// adds the mapping tools and the entries to its libraries, and replaces the
/// binary patcher among its processors.
pub fn create_install_profile(
    doc: Json,
    version_id: &str,
    icon: &str,
    added: &Vec<LibraryEntry>,
) -> (r: Result<Json, Error>)
    ensures
        is_profile_result(
            r,
            create_install_profile_spec(doc@, version_id@, icon@, entries_view(added@)),
        ),
{
    match begin_install_profile(doc, version_id, icon) {
        Ok(draft) => finish_install_profile(draft, added),
        Err(e) => Err(e),
    }
}

/// Two runs on documents, texts and entries that hold the same end alike:
/// with the same error, or with documents that hold the same.
pub proof fn lemma_create_install_profile_deterministic(
    doc_a: Json,
    doc_b: Json,
    version_id: Seq<char>,
    icon: Seq<char>,
    added_a: Seq<LibraryEntry>,
    added_b: Seq<LibraryEntry>,
    r_a: Result<Json, Error>,
    r_b: Result<Json, Error>,
)
    requires
        doc_a@ == doc_b@,
        entries_view(added_a) == entries_view(added_b),
        is_profile_result(
            r_a,
            create_install_profile_spec(doc_a@, version_id, icon, entries_view(added_a)),
        ),
        is_profile_result(
            r_b,
            create_install_profile_spec(doc_b@, version_id, icon, entries_view(added_b)),
        ),
    ensures
        match (r_a, r_b) {
            (Ok(doc_a), Ok(doc_b)) => doc_a@ == doc_b@,
            (Err(e_a), Err(e_b)) => e_a == e_b,
            _ => false,
        },
{
}

/// The processors of an install profile, where it has any.
pub open spec fn processors_of(doc: JsonValue) -> Seq<JsonValue> {
    match doc {
        JsonValue::Object(members) => match member(members, "processors"@) {
            Some(JsonValue::Array(steps)) => steps,
            _ => Seq::empty(),
        },
        _ => Seq::empty(),
    }
}

/// Whether at most one step runs the binary patcher.
pub open spec fn at_most_one_patcher(steps: Seq<JsonValue>) -> bool {
    forall|i: int, j: int|
        0 <= i < j < steps.len() ==> !(is_binary_patcher(#[trigger] steps[i])
            && is_binary_patcher(#[trigger] steps[j]))
}

/// Whether no step runs the binary patcher.
pub open spec fn no_patcher(steps: Seq<JsonValue>) -> bool {
    forall|i: int| 0 <= i < steps.len() ==> !is_binary_patcher(#[trigger] steps[i])
}

/// None of the three new steps runs the binary patcher.
pub proof fn lemma_new_processors(game_version: Seq<char>)
    ensures
        no_patcher(new_processors(game_version)),
{
    reveal_strlit("net.neoforged.installertools:binarypatcher");
    reveal_strlit("net.neoforged.installertools:installertools:2.1.2");
    reveal_strlit("net.pillowmc:mappinggen:0.1.1");
    let patcher = "net.neoforged.installertools:binarypatcher"@;
    let steps = new_processors(game_version);
    assert forall|i: int| 0 <= i < steps.len() implies !is_binary_patcher(#[trigger] steps[i]) by {
        let step = if i == 0 {
            extract_step(game_version)
        } else if i == 1 {
            parents_step(game_version)
        } else {
            mappinggen_step(game_version)
        };
        lemma_member_index_is(step_json(step)->Object_0, "jar"@, 0);
        if patcher.is_prefix_of(step.jar) {
            assert(step.jar.subrange(0, patcher.len() as int)[29] == patcher[29]);
        }
    }
}

/// Patching the processors takes one step out and puts three in. Where at
/// most one step ran the binary patcher, none does afterwards.
pub proof fn lemma_patch_processors(steps: Seq<JsonValue>, game_version: Seq<char>)
    requires
        patch_processors(steps, game_version) is Ok,
    ensures
        patch_processors(steps, game_version)->Ok_0.len() == steps.len() + 2,
        at_most_one_patcher(steps) ==> no_patcher(patch_processors(steps, game_version)->Ok_0),
{
    let i = binary_patcher_index(steps);
    let patched = patch_processors(steps, game_version)->Ok_0;
    lemma_first_true(patcher_flags(steps));
    lemma_new_processors(game_version);
    if at_most_one_patcher(steps) {
        assert forall|k: int| 0 <= k < patched.len() implies !is_binary_patcher(
            #[trigger] patched[k],
        ) by {
            if k < steps.len() - 1 {
                let from = if k < i {
                    k
                } else {
                    k + 1
                };
                if from < i {
                    assert(!(is_binary_patcher(steps[from]) && is_binary_patcher(steps[i])));
                } else {
                    assert(!(is_binary_patcher(steps[i]) && is_binary_patcher(steps[from])));
                }
            } else {
                assert(patched[k] == new_processors(game_version)[k - (steps.len() - 1)]);
            }
        }
    }
}

/// Whether a name is one of those that the header sets or removes.
pub open spec fn is_header_name(key: Seq<char>) -> bool {
    key == "profile"@ || key == "icon"@ || key == "welcome"@ || key == "version"@ || key
        == "mirrorList"@
}

/// The header touches no member of another name.
pub proof fn lemma_with_header(
    members: Members,
    version_id: Seq<char>,
    icon: Seq<char>,
    key: Seq<char>,
)
    requires
        !is_header_name(key),
    ensures
        member(with_header(members, version_id, icon), key) == member(members, key),
{
    let a = with_member(members, "profile"@, JsonValue::Text("Pillow"@));
    let b = with_member(a, "icon"@, JsonValue::Text(icon));
    let c = with_member(b, "welcome"@, JsonValue::Text("Welcome to the simple Pillow installer"@));
    let d = with_member(c, "version"@, JsonValue::Text(version_id));
    lemma_member_with(members, "profile"@, JsonValue::Text("Pillow"@), key);
    lemma_member_with(a, "icon"@, JsonValue::Text(icon), key);
    lemma_member_with(
        b,
        "welcome"@,
        JsonValue::Text("Welcome to the simple Pillow installer"@),
        key,
    );
    lemma_member_with(c, "version"@, JsonValue::Text(version_id), key);
    lemma_member_without(d, "mirrorList"@, key);
}

/// The names of the members that the patcher reads differ from each other
/// and from those of the header.
pub proof fn lemma_member_names()
    ensures
        !is_header_name("data"@),
        !is_header_name("minecraft"@),
        !is_header_name("libraries"@),
        !is_header_name("processors"@),
        "data"@ != "minecraft"@,
        "data"@ != "libraries"@,
        "data"@ != "processors"@,
        "minecraft"@ != "libraries"@,
        "minecraft"@ != "processors"@,
        "libraries"@ != "processors"@,
{
    reveal_strlit("profile");
    reveal_strlit("icon");
    reveal_strlit("welcome");
    reveal_strlit("version");
    reveal_strlit("mirrorList");
    reveal_strlit("data");
    reveal_strlit("minecraft");
    reveal_strlit("libraries");
    reveal_strlit("processors");
    assert("profile"@.len() == 7 && "icon"@.len() == 4 && "welcome"@.len() == 7 && "version"@.len()
        == 7 && "mirrorList"@.len() == 10);
    assert("data"@[0] != "icon"@[0]);
    assert("processors"@[0] != "mirrorList"@[0]);
    assert("minecraft"@[0] != "libraries"@[0]);
}

/// What a finished install profile holds under the names that the patcher
/// reads, in terms of the document it was made of.
pub proof fn lemma_install_profile_members(
    doc: JsonValue,
    version_id: Seq<char>,
    icon: Seq<char>,
    added: Seq<EntryText>,
)
    requires
        create_install_profile_spec(doc, version_id, icon, added) is Ok,
    ensures
        ({
            let out = create_install_profile_spec(doc, version_id, icon, added)->Ok_0;
            let members = doc->Object_0;
            &&& doc is Object
            &&& out is Object
            &&& member(members, "processors"@) matches Some(JsonValue::Array(steps))
            &&& patch_processors(steps, member(members, "minecraft"@)->0->Text_0) is Ok
            &&& member(out->Object_0, "processors"@) == Some(
                JsonValue::Array(
                    patch_processors(steps, member(members, "minecraft"@)->0->Text_0)->Ok_0,
                ),
            )
            &&& member(out->Object_0, "data"@) matches Some(JsonValue::Object(_))
            &&& member(out->Object_0, "minecraft"@) == member(members, "minecraft"@)
            &&& member(members, "minecraft"@) matches Some(JsonValue::Text(_))
            &&& member(out->Object_0, "libraries"@) matches Some(JsonValue::Array(_))
        }),
{
    lemma_member_names();
    let members = doc->Object_0;
    let headed = with_header(members, version_id, icon);
    lemma_with_header(members, version_id, icon, "data"@);
    lemma_with_header(members, version_id, icon, "minecraft"@);
    lemma_with_header(members, version_id, icon, "libraries"@);
    lemma_with_header(members, version_id, icon, "processors"@);
    let data = member(headed, "data"@)->0->Object_0;
    let cleared = JsonValue::Object(without_member(data, "BINPATCH"@));
    let cleaned = with_member(headed, "data"@, cleared);
    lemma_member_with(headed, "data"@, cleared, "data"@);
    lemma_member_with(headed, "data"@, cleared, "minecraft"@);
    lemma_member_with(headed, "data"@, cleared, "libraries"@);
    lemma_member_with(headed, "data"@, cleared, "processors"@);
    let game_version = member(cleaned, "minecraft"@)->0->Text_0;
    let items = member(cleaned, "libraries"@)->0->Array_0;
    let tools = JsonValue::Array(
        items + seq![record_json(mapping_io_record()), record_json(mappinggen_record())],
    );
    let drafted = with_member(cleaned, "libraries"@, tools);
    lemma_member_with(cleaned, "libraries"@, tools, "libraries"@);
    lemma_member_with(cleaned, "libraries"@, tools, "data"@);
    lemma_member_with(cleaned, "libraries"@, tools, "minecraft"@);
    lemma_member_with(cleaned, "libraries"@, tools, "processors"@);
    let all = JsonValue::Array(tools->Array_0 + entries_json(added));
    let extended = with_member(drafted, "libraries"@, all);
    lemma_member_with(drafted, "libraries"@, all, "libraries"@);
    lemma_member_with(drafted, "libraries"@, all, "data"@);
    lemma_member_with(drafted, "libraries"@, all, "minecraft"@);
    lemma_member_with(drafted, "libraries"@, all, "processors"@);
    let steps = member(extended, "processors"@)->0->Array_0;
    let patched = JsonValue::Array(patch_processors(steps, game_version)->Ok_0);
    let out = with_member(extended, "processors"@, patched);
    lemma_member_with(extended, "processors"@, patched, "processors"@);
    lemma_member_with(extended, "processors"@, patched, "data"@);
    lemma_member_with(extended, "processors"@, patched, "minecraft"@);
    lemma_member_with(extended, "processors"@, patched, "libraries"@);
}

/// A finished install profile has two processors more than the document it
/// was made of. Where at most one of that document's steps ran the binary
/// patcher, none of the finished profile's does.
pub proof fn lemma_install_profile_processors(
    doc: JsonValue,
    version_id: Seq<char>,
    icon: Seq<char>,
    added: Seq<EntryText>,
)
    requires
        create_install_profile_spec(doc, version_id, icon, added) is Ok,
    ensures
        processors_of(create_install_profile_spec(doc, version_id, icon, added)->Ok_0).len()
            == processors_of(doc).len() + 2,
        at_most_one_patcher(processors_of(doc)) ==> no_patcher(
            processors_of(create_install_profile_spec(doc, version_id, icon, added)->Ok_0),
        ),
{
    lemma_install_profile_members(doc, version_id, icon, added);
    let game_version = member(doc->Object_0, "minecraft"@)->0->Text_0;
    lemma_patch_processors(processors_of(doc), game_version);
}

/// A finished install profile cannot be patched again: where the document it
/// was made of had at most one step that ran the binary patcher, none is
/// left, and a second run ends with `TokenNotFound`.
pub proof fn lemma_install_profile_not_idempotent(
    doc: JsonValue,
    version_id: Seq<char>,
    icon: Seq<char>,
    added: Seq<EntryText>,
    version_id_again: Seq<char>,
    icon_again: Seq<char>,
    added_again: Seq<EntryText>,
)
    requires
        create_install_profile_spec(doc, version_id, icon, added) is Ok,
        at_most_one_patcher(processors_of(doc)),
    ensures
        create_install_profile_spec(
            create_install_profile_spec(doc, version_id, icon, added)->Ok_0,
            version_id_again,
            icon_again,
            added_again,
        ) == Err::<JsonValue, Error>(Error::TokenNotFound(Token::BinaryPatcher)),
{
    lemma_install_profile_members(doc, version_id, icon, added);
    lemma_install_profile_processors(doc, version_id, icon, added);
    lemma_member_names();
    let first = create_install_profile_spec(doc, version_id, icon, added)->Ok_0;
    let members = first->Object_0;
    let steps = processors_of(first);
    let headed = with_header(members, version_id_again, icon_again);
    lemma_with_header(members, version_id_again, icon_again, "data"@);
    lemma_with_header(members, version_id_again, icon_again, "minecraft"@);
    lemma_with_header(members, version_id_again, icon_again, "libraries"@);
    lemma_with_header(members, version_id_again, icon_again, "processors"@);
    let data = member(headed, "data"@)->0->Object_0;
    let cleared = JsonValue::Object(without_member(data, "BINPATCH"@));
    let cleaned = with_member(headed, "data"@, cleared);
    lemma_member_with(headed, "data"@, cleared, "minecraft"@);
    lemma_member_with(headed, "data"@, cleared, "libraries"@);
    lemma_member_with(headed, "data"@, cleared, "processors"@);
    let items = member(cleaned, "libraries"@)->0->Array_0;
    let tools = JsonValue::Array(
        items + seq![record_json(mapping_io_record()), record_json(mappinggen_record())],
    );
    let drafted = with_member(cleaned, "libraries"@, tools);
    lemma_member_with(cleaned, "libraries"@, tools, "libraries"@);
    lemma_member_with(cleaned, "libraries"@, tools, "processors"@);
    let all = JsonValue::Array(tools->Array_0 + entries_json(added_again));
    lemma_member_with(drafted, "libraries"@, all, "processors"@);
    assert forall|k: int| 0 <= k < steps.len() implies !patcher_flags(steps)[k] by {
        assert(!is_binary_patcher(steps[k]));
    }
    lemma_first_true_is(patcher_flags(steps), steps.len() as int);
}

/// Patching an install profile changes no member but those of the header,
/// `data`, `libraries` and `processors`.
pub proof fn lemma_install_profile_passes_through(
    doc: JsonValue,
    version_id: Seq<char>,
    icon: Seq<char>,
    added: Seq<EntryText>,
    key: Seq<char>,
)
    requires
        create_install_profile_spec(doc, version_id, icon, added) is Ok,
        !is_header_name(key),
        key != "data"@,
        key != "libraries"@,
        key != "processors"@,
    ensures
        doc is Object,
        create_install_profile_spec(doc, version_id, icon, added)->Ok_0 is Object,
        member(create_install_profile_spec(doc, version_id, icon, added)->Ok_0->Object_0, key)
            == member(doc->Object_0, key),
{
    let members = doc->Object_0;
    let headed = with_header(members, version_id, icon);
    lemma_with_header(members, version_id, icon, key);
    let data = member(headed, "data"@)->0->Object_0;
    let cleared = JsonValue::Object(without_member(data, "BINPATCH"@));
    let cleaned = with_member(headed, "data"@, cleared);
    lemma_member_with(headed, "data"@, cleared, key);
    let items = member(cleaned, "libraries"@)->0->Array_0;
    let tools = JsonValue::Array(
        items + seq![record_json(mapping_io_record()), record_json(mappinggen_record())],
    );
    let drafted = with_member(cleaned, "libraries"@, tools);
    lemma_member_with(cleaned, "libraries"@, tools, key);
    lemma_member_with(cleaned, "libraries"@, tools, "libraries"@);
    let all = JsonValue::Array(tools->Array_0 + entries_json(added));
    let extended = with_member(drafted, "libraries"@, all);
    lemma_member_with(drafted, "libraries"@, all, key);
    let steps = member(extended, "processors"@)->0->Array_0;
    let game_version = member(cleaned, "minecraft"@)->0->Text_0;
    let patched = JsonValue::Array(patch_processors(steps, game_version)->Ok_0);
    lemma_member_with(extended, "processors"@, patched, key);
}

} // verus!
